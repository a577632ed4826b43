use ax_notes::auth::{authorize_bearer, decode_claims, hash_password};
use ax_notes::handlers::{
    auth_response, check_access, create_note_outcome, delete_note_outcome, get_note_outcome,
    list_notes_outcome, lock_note_access, lock_note_outcome, login_outcome, register_outcome,
    share_note_finish, share_note_owner_check, share_note_target_check, unlock_note_outcome,
    update_note_outcome,
};
use ax_notes::AppError;

const ALICE: u128 = 0xa11ce;
const BOB: u128 = 0xb0b;

fn db_err() -> sqlx::Error {
    sqlx::Error::RowNotFound
}

fn status(e: AppError) -> u16 {
    e.response_parts().0
}

fn message(e: AppError) -> String {
    e.response_parts().1
}

#[test]
fn register_issues_token_for_new_user() {
    let resp = register_outcome(Ok(ALICE)).ok().unwrap();
    assert_eq!(decode_claims(&resp.token).unwrap().sub, ALICE);
    assert_eq!(authorize_bearer(Some(&format!("Bearer {}", resp.token))), Ok(ALICE));
}

#[test]
fn register_then_login_round_trips() {
    let hash = hash_password("pw1");
    let registered = register_outcome(Ok(ALICE)).ok().unwrap();
    assert_eq!(decode_claims(&registered.token).unwrap().sub, ALICE);
    let logged_in = login_outcome(Ok(Some((ALICE, hash.clone()))), "pw1").unwrap().ok().unwrap();
    assert_eq!(decode_claims(&logged_in.token).unwrap().sub, ALICE);
    assert!(matches!(login_outcome(Ok(Some((ALICE, hash))), "pw2").unwrap(), Err(AppError::Unauthorized)));
}

#[test]
fn register_failure_is_internal() {
    let e = register_outcome(Err(db_err())).err().unwrap();
    assert_eq!(message(e), "User already exists or DB error");
}

#[test]
fn login_with_right_password_issues_token() {
    let hash = hash_password("s3cret");
    let resp = login_outcome(Ok(Some((BOB, hash))), "s3cret").unwrap().ok().unwrap();
    assert_eq!(decode_claims(&resp.token).unwrap().sub, BOB);
}

#[test]
fn login_unknown_user_and_wrong_password_look_alike() {
    let hash = hash_password("s3cret");
    let unknown = login_outcome(Ok(None), "s3cret").unwrap().err().unwrap();
    let wrong = login_outcome(Ok(Some((BOB, hash))), "guess").unwrap().err().unwrap();
    assert!(matches!(unknown, AppError::Unauthorized));
    assert!(matches!(wrong, AppError::Unauthorized));
}

#[test]
fn login_sql_injection_username_is_unauthorized() {
    // "' OR 1=1 --" matches no user: the lookup finds no row.
    let e = login_outcome(Ok(None), "any").unwrap().err().unwrap();
    assert_eq!(status(e), 401);
}

#[test]
fn login_database_failure_is_internal() {
    let e = login_outcome(Err(db_err()), "pw").unwrap().err().unwrap();
    assert_eq!(message(e), "Database error");
}

#[test]
fn login_with_corrupt_stored_hash_gives_up() {
    assert!(login_outcome(Ok(Some((BOB, "plain".to_string()))), "plain").is_none());
}

#[test]
fn auth_response_maps_token_failure() {
    assert_eq!(auth_response(Ok("t".to_string())).ok().unwrap().token, "t");
    assert_eq!(message(auth_response(Err(500)).err().unwrap()), "An error occurred");
    assert!(matches!(auth_response(Err(401)).err().unwrap(), AppError::Unauthorized));
}

#[test]
fn list_and_create_notes_pass_rows_through() {
    assert_eq!(list_notes_outcome(Ok(vec![1, 2, 3])).ok().unwrap(), vec![1, 2, 3]);
    assert!(matches!(list_notes_outcome::<u8>(Err(db_err())), Err(AppError::SqlxError(_))));
    assert_eq!(create_note_outcome(Ok("note")).ok().unwrap(), (201, "note"));
    assert_eq!(status(create_note_outcome::<u8>(Err(db_err())).err().unwrap()), 500);
}

#[test]
fn reading_someone_elses_note_is_unauthorized() {
    assert_eq!(get_note_outcome(Ok(7)).ok(), Some(7));
    let e = get_note_outcome::<u8>(Err(db_err())).err().unwrap();
    assert!(matches!(e, AppError::Unauthorized));
    assert_eq!(status(e), 401);
}

#[test]
fn update_of_locked_or_read_only_note_is_conflict() {
    assert_eq!(update_note_outcome(Ok(Some("n"))).ok(), Some("n"));
    let e = update_note_outcome::<u8>(Ok(None)).err().unwrap();
    assert_eq!(status(e), 409);
    assert_eq!(message(update_note_outcome::<u8>(Ok(None)).err().unwrap()), "Note is locked");
    assert!(matches!(update_note_outcome::<u8>(Err(db_err())), Err(AppError::SqlxError(_))));
}

#[test]
fn delete_outcomes() {
    assert_eq!(delete_note_outcome(Ok(1)).ok(), Some(204));
    assert!(matches!(delete_note_outcome(Ok(0)), Err(AppError::Unauthorized)));
    assert!(matches!(delete_note_outcome(Err(db_err())), Err(AppError::SqlxError(_))));
}

#[test]
fn share_steps() {
    assert!(share_note_owner_check(Ok(Some(ALICE)), ALICE).is_ok());
    assert!(matches!(share_note_owner_check(Ok(Some(ALICE)), BOB), Err(AppError::Unauthorized)));
    let unknown = share_note_owner_check(Ok(None), ALICE).err().unwrap();
    let foreign = share_note_owner_check(Ok(Some(BOB)), ALICE).err().unwrap();
    assert_eq!(unknown.response_parts(), foreign.response_parts());
    assert_eq!(share_note_owner_check(Ok(None), ALICE).err().unwrap().response_parts().0, 401);
    assert_eq!(share_note_target_check(Ok(Some(BOB)), ALICE).ok(), Some(BOB));
    assert_eq!(
        message(share_note_target_check(Ok(Some(ALICE)), ALICE).err().unwrap()),
        "Vous possédez déjà cette note"
    );
    assert_eq!(message(share_note_target_check(Ok(None), ALICE).err().unwrap()), "Utilisateur introuvable");
    assert_eq!(share_note_finish(Ok(1)).ok(), Some(200));
    assert!(matches!(share_note_finish(Err(db_err())), Err(AppError::SqlxError(_))));
}

#[test]
fn access_rules() {
    assert_eq!(check_access(Ok(None), false).ok(), Some(false));
    assert_eq!(check_access(Ok(None), true).ok(), Some(false));
    assert_eq!(check_access(Ok(Some(Some(false))), false).ok(), Some(true));
    assert_eq!(check_access(Ok(Some(Some(false))), true).ok(), Some(false));
    assert_eq!(check_access(Ok(Some(Some(true))), true).ok(), Some(true));
    assert_eq!(check_access(Ok(Some(None)), true).ok(), Some(false));
    assert!(matches!(check_access(Err(db_err()), true), Err(AppError::SqlxError(_))));
}

#[test]
fn lock_steps() {
    assert!(lock_note_access(Ok(true)).is_ok());
    let e = lock_note_access(Ok(false)).err().unwrap();
    assert_eq!(status(e), 403);
    assert!(matches!(lock_note_access(Err(AppError::Conflict)), Err(AppError::Conflict)));
    assert_eq!(lock_note_outcome(Ok(1)).ok(), Some(200));
    let e = lock_note_outcome(Ok(0)).err().unwrap();
    assert_eq!(status(e), 409);
    assert!(matches!(lock_note_outcome(Err(db_err())), Err(AppError::SqlxError(_))));
}

#[test]
fn unlock_steps() {
    assert_eq!(unlock_note_outcome(Ok(0)).ok(), Some(304));
    assert_eq!(unlock_note_outcome(Ok(2)).ok(), Some(200));
    assert!(matches!(unlock_note_outcome(Err(db_err())), Err(AppError::SqlxError(_))));
}
