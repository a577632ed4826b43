use vstd::prelude::*;
use crate::auth::{
    check_password, create_jwt_at, unix_now, phc_parses, argon2_accepts, token_claims, jwt_hs256, jwt_secret,
    uuid_hyphenated, expiry_for, TOKEN_LIFETIME_SECS,
};
use crate::models::Claims;
use crate::error::{AppError, status_of};
use crate::models::AuthResponse;

verus! {

/// The error is `Internal` with this message.
pub open spec fn is_internal(e: &AppError, message: Seq<char>) -> bool {
    e matches AppError::Internal(m) && m@ == message
}

/// The database error, passed on as it is.
pub open spec fn is_db_error(e: &AppError, err: sqlx::Error) -> bool {
    e matches AppError::SqlxError(x) && x == err
}

// ---------------------------------------------------------------------------
// Registration and login
// ---------------------------------------------------------------------------

/// The answer once a token has been issued (or not): the token, or the
/// error that the failure's status code stands for.
pub fn auth_response(token: Result<String, u16>) -> (res: Result<AuthResponse, AppError>)
    ensures
        token matches Ok(t) ==> res matches Ok(r) && r.token == t,
        token matches Err(s) ==> (res matches Err(e) && (
            (s == 401 ==> e is Unauthorized)
            && (s == 403 ==> e is Forbidden)
            && (s == 409 ==> e is Conflict)
            && (s != 401 && s != 403 && s != 409 ==> is_internal(&e, "An error occurred"@)))),
{
    match token {
        Ok(t) => Ok(AuthResponse { token: t }),
        Err(s) => Err(AppError::from_status(s)),
    }
}

/// The token issued for `id` at instant `now`: the one that `create_jwt_at`
/// makes, whose claims are `id` and an expiry one day after `now`.
pub open spec fn is_token_issued_at(token: Seq<char>, id: u128, now: int) -> bool {
    &&& token == jwt_hs256(jwt_secret(), uuid_hyphenated(id), expiry_for(now))
    &&& token_claims(token) == Some(Claims { sub: id, exp: expiry_for(now) })
}

/// `register` at UNIX time `now`, after it has inserted the user: a failed
/// insertion (the name is taken, or the database failed) is an internal
/// error; a new user gets the token issued for it at `now`, which expires a
/// day later.
pub fn register_outcome_at(inserted: Result<u128, sqlx::Error>, now: i64) -> (res: Result<AuthResponse, AppError>)
    requires
        now <= i64::MAX - TOKEN_LIFETIME_SECS,
    ensures
        inserted is Err ==> (res matches Err(e) && is_internal(&e, "User already exists or DB error"@)),
        inserted matches Ok(id) ==> (res matches Ok(r) && is_token_issued_at(r.token@, id, now as int)),
{
    match inserted {
        Err(_) => Err(AppError::Internal(String::from_str("User already exists or DB error"))),
        Ok(id) => auth_response(create_jwt_at(id, now)),
    }
}

/// `register` after it has inserted the user: a failed insertion (the name
/// is taken, or the database failed) is an internal error; a new user gets
/// a token that names it, issued at the instant the clock reads.
pub fn register_outcome(inserted: Result<u128, sqlx::Error>) -> (res: Result<AuthResponse, AppError>)
    ensures
        inserted is Err ==> (res matches Err(e) && is_internal(&e, "User already exists or DB error"@)),
        inserted matches Ok(id) ==> (res matches Ok(r) && token_claims(r.token@) matches Some(c) && c.sub == id),
        inserted matches Ok(id) ==> (res matches Ok(r) && exists|now: int|
            #![trigger expiry_for(now)]
            -0x1_0000_0000_0000 <= now <= 0x1_0000_0000_0000 && is_token_issued_at(r.token@, id, now)),
{
    let now = unix_now();
    register_outcome_at(inserted, now)
}

/// `login` at UNIX time `now`, after it has looked the user up (`(id,
/// password hash)`): an unknown user and a wrong password get the same 401;
/// the right password gets the token issued for the user at `now`, which
/// expires a day later. `None` where the stored hash is not a PHC string, on
/// which `login` gives up.
pub fn login_outcome_at(fetched: Result<Option<(u128, String)>, sqlx::Error>, password: &str, now: i64) -> (res: Option<Result<AuthResponse, AppError>>)
    requires
        now <= i64::MAX - TOKEN_LIFETIME_SECS,
    ensures
        fetched is Err ==> (res matches Some(Err(e)) && is_internal(&e, "Database error"@)),
        fetched matches Ok(None) ==> (res matches Some(Err(e)) && e is Unauthorized),
        fetched matches Ok(Some(row)) && !phc_parses(row.1@) ==> res is None,
        fetched matches Ok(Some(row)) && phc_parses(row.1@) && !argon2_accepts(password@, row.1@)
            ==> (res matches Some(Err(e)) && e is Unauthorized),
        fetched matches Ok(Some(row)) ==> (phc_parses(row.1@) && argon2_accepts(password@, row.1@) ==> (
            res matches Some(Ok(r)) && is_token_issued_at(r.token@, row.0, now as int))),
{
    match fetched {
        Err(_) => Some(Err(AppError::Internal(String::from_str("Database error")))),
        Ok(None) => Some(Err(AppError::Unauthorized)),
        Ok(Some((id, hash))) => match check_password(password, hash.as_str()) {
            None => None,
            Some(true) => Some(auth_response(create_jwt_at(id, now))),
            Some(false) => Some(Err(AppError::Unauthorized)),
        },
    }
}

/// `login` after it has looked the user up (`(id, password hash)`): an
/// unknown user and a wrong password get the same 401; the right password
/// gets a token that names the user, issued at the instant the clock reads.
/// `None` where the stored hash is not a PHC string, on which `login` gives up.
pub fn login_outcome(fetched: Result<Option<(u128, String)>, sqlx::Error>, password: &str) -> (res: Option<Result<AuthResponse, AppError>>)
    ensures
        fetched is Err ==> (res matches Some(Err(e)) && is_internal(&e, "Database error"@)),
        fetched matches Ok(None) ==> (res matches Some(Err(e)) && e is Unauthorized),
        fetched matches Ok(Some(row)) && !phc_parses(row.1@) ==> res is None,
        fetched matches Ok(Some(row)) && phc_parses(row.1@) && !argon2_accepts(password@, row.1@)
            ==> (res matches Some(Err(e)) && e is Unauthorized),
        fetched matches Ok(Some(row)) ==> (phc_parses(row.1@) && argon2_accepts(password@, row.1@) ==> (
            res matches Some(Ok(r)) && token_claims(r.token@) matches Some(c) && c.sub == row.0)),
        fetched matches Ok(Some(row)) ==> (phc_parses(row.1@) && argon2_accepts(password@, row.1@) ==> (
            res matches Some(Ok(r)) && exists|now: int|
                #![trigger expiry_for(now)]
                -0x1_0000_0000_0000 <= now <= 0x1_0000_0000_0000 && is_token_issued_at(r.token@, row.0, now))),
{
    let now = unix_now();
    login_outcome_at(fetched, password, now)
}

// ---------------------------------------------------------------------------
// Notes
// ---------------------------------------------------------------------------

/// `list_notes` after the query: the notes, or the database error.
pub fn list_notes_outcome<T>(fetched: Result<Vec<T>, sqlx::Error>) -> (res: Result<Vec<T>, AppError>)
    ensures
        fetched matches Ok(notes) ==> res matches Ok(r) && r == notes,
        fetched matches Err(err) ==> res matches Err(e) && is_db_error(&e, err),
{
    match fetched {
        Ok(notes) => Ok(notes),
        Err(err) => Err(AppError::SqlxError(err)),
    }
}

/// `create_note` after the insertion: 201 with the new note.
pub fn create_note_outcome<T>(inserted: Result<T, sqlx::Error>) -> (res: Result<(u16, T), AppError>)
    ensures
        inserted matches Ok(note) ==> res matches Ok(r) && r.0 == 201 && r.1 == note,
        inserted matches Err(err) ==> res matches Err(e) && is_db_error(&e, err),
{
    match inserted {
        Ok(note) => Ok((201, note)),
        Err(err) => Err(AppError::SqlxError(err)),
    }
}

/// `get_note` after the query, which finds the note only where the caller
/// owns it or it is shared with the caller: any failure is 401, so that a
/// note of someone else cannot be told apart from a missing one.
pub fn get_note_outcome<T>(fetched: Result<T, sqlx::Error>) -> (res: Result<T, AppError>)
    ensures
        fetched matches Ok(note) ==> res matches Ok(r) && r == note,
        fetched is Err ==> (res matches Err(e) && e is Unauthorized && status_of(&e) == 401),
{
    match fetched {
        Ok(note) => Ok(note),
        Err(_) => Err(AppError::Unauthorized),
    }
}

/// `update_note` after the conditional update, which writes only where the
/// caller may write the note and no one else holds its lock: no row written
/// is answered 409.
pub fn update_note_outcome<T>(fetched: Result<Option<T>, sqlx::Error>) -> (res: Result<T, AppError>)
    ensures
        fetched matches Ok(Some(note)) ==> res matches Ok(r) && r == note,
        fetched matches Ok(None) ==> (res matches Err(e) && e is Locked && status_of(&e) == 409),
        fetched matches Err(err) ==> res matches Err(e) && is_db_error(&e, err),
{
    match fetched {
        Ok(Some(note)) => Ok(note),
        Ok(None) => Err(AppError::Locked),
        Err(err) => Err(AppError::SqlxError(err)),
    }
}

/// `delete_note` after the deletion, which deletes only the caller's own
/// note: nothing deleted is 401, a deletion 204.
pub fn delete_note_outcome(executed: Result<u64, sqlx::Error>) -> (res: Result<u16, AppError>)
    ensures
        executed matches Ok(n) && n == 0 ==> (res matches Err(e) && e is Unauthorized),
        executed matches Ok(n) && n != 0 ==> res == Ok::<u16, AppError>(204),
        executed matches Err(err) ==> res matches Err(e) && is_db_error(&e, err),
{
    match executed {
        Ok(n) => if n == 0 {
            Err(AppError::Unauthorized)
        } else {
            Ok(204)
        },
        Err(err) => Err(AppError::SqlxError(err)),
    }
}

/// `share_note`, first step, after reading the note's owner: a missing note
/// and someone else's note get the same 401, so that the ids of other users'
/// notes cannot be told apart from unused ones.
pub fn share_note_owner_check(fetched: Result<Option<u128>, sqlx::Error>, current_user: u128) -> (res: Result<(), AppError>)
    ensures
        fetched matches Ok(Some(owner)) && owner == current_user ==> res is Ok,
        fetched matches Ok(Some(owner)) && owner != current_user ==> (res matches Err(e) && e is Unauthorized),
        fetched matches Ok(None) ==> (res matches Err(e) && e is Unauthorized),
        fetched matches Err(err) ==> res matches Err(e) && is_db_error(&e, err),
{
    match fetched {
        Ok(Some(owner)) => if owner != current_user {
            Err(AppError::Unauthorized)
        } else {
            Ok(())
        },
        Ok(None) => Err(AppError::Unauthorized),
        Err(err) => Err(AppError::SqlxError(err)),
    }
}

/// `share_note`, second step, after looking up the user to share with: an
/// unknown user and the owner themself are internal errors; otherwise the
/// id to share with.
pub fn share_note_target_check(fetched: Result<Option<u128>, sqlx::Error>, current_user: u128) -> (res: Result<u128, AppError>)
    ensures
        fetched matches Ok(Some(target)) ==> (target != current_user ==> res == Ok::<u128, AppError>(target)),
        fetched matches Ok(Some(target)) && target == current_user
            ==> (res matches Err(e) && is_internal(&e, "Vous possédez déjà cette note"@)),
        fetched matches Ok(None) ==> (res matches Err(e) && is_internal(&e, "Utilisateur introuvable"@)),
        fetched matches Err(err) ==> res matches Err(e) && is_db_error(&e, err),
{
    match fetched {
        Ok(Some(target)) => if target == current_user {
            Err(AppError::Internal(String::from_str("Vous possédez déjà cette note")))
        } else {
            Ok(target)
        },
        Ok(None) => Err(AppError::Internal(String::from_str("Utilisateur introuvable"))),
        Err(err) => Err(AppError::SqlxError(err)),
    }
}

/// `share_note`, last step, after writing the share: 200.
pub fn share_note_finish(executed: Result<u64, sqlx::Error>) -> (res: Result<u16, AppError>)
    ensures
        executed is Ok ==> res == Ok::<u16, AppError>(200),
        executed matches Err(err) ==> res matches Err(e) && is_db_error(&e, err),
{
    match executed {
        Ok(_) => Ok(200),
        Err(err) => Err(AppError::SqlxError(err)),
    }
}

/// The access a user has to a note, from the row that the access query
/// returns (`can_write` of a share, or `true` for the owner; no row: no
/// access). Reading needs a row; writing needs `can_write` to be `true`.
pub fn check_access(fetched: Result<Option<Option<bool>>, sqlx::Error>, require_write: bool) -> (res: Result<bool, AppError>)
    ensures
        fetched matches Ok(None) ==> res == Ok::<bool, AppError>(false),
        fetched matches Ok(Some(can_write)) && !require_write ==> res == Ok::<bool, AppError>(true),
        fetched matches Ok(Some(can_write)) ==> (require_write
            ==> res == Ok::<bool, AppError>(can_write == Some(true))),
        fetched matches Err(err) ==> res matches Err(e) && is_db_error(&e, err),
{
    match fetched {
        Ok(Some(can_write)) => if require_write {
            match can_write {
                Some(b) => Ok(b),
                None => Ok(false),
            }
        } else {
            Ok(true)
        },
        Ok(None) => Ok(false),
        Err(err) => Err(AppError::SqlxError(err)),
    }
}

/// `lock_note`, first step: without write access the answer is 403.
pub fn lock_note_access(access: Result<bool, AppError>) -> (res: Result<(), AppError>)
    ensures
        access == Ok::<bool, AppError>(true) ==> res is Ok,
        access == Ok::<bool, AppError>(false) ==> (res matches Err(e) && e is Forbidden && status_of(&e) == 403),
        access matches Err(err) ==> res matches Err(e) && e == err,
{
    match access {
        Ok(true) => Ok(()),
        Ok(false) => Err(AppError::Forbidden),
        Err(e) => Err(e),
    }
}

/// `lock_note`, last step, after the conditional update that takes the lock
/// only where it is free, already the caller's, or stale: nothing taken is
/// 409, the lock taken 200.
pub fn lock_note_outcome(executed: Result<u64, sqlx::Error>) -> (res: Result<u16, AppError>)
    ensures
        executed matches Ok(n) && n == 0 ==> (res matches Err(e) && e is Conflict && status_of(&e) == 409),
        executed matches Ok(n) && n != 0 ==> res == Ok::<u16, AppError>(200),
        executed matches Err(err) ==> res matches Err(e) && is_db_error(&e, err),
{
    match executed {
        Ok(n) => if n == 0 {
            Err(AppError::Conflict)
        } else {
            Ok(200)
        },
        Err(err) => Err(AppError::SqlxError(err)),
    }
}

/// `unlock_note` after the update that clears the lock where the caller holds
/// it or owns the note: nothing cleared is 304, a lock cleared 200.
pub fn unlock_note_outcome(executed: Result<u64, sqlx::Error>) -> (res: Result<u16, AppError>)
    ensures
        executed matches Ok(n) && n == 0 ==> res == Ok::<u16, AppError>(304),
        executed matches Ok(n) && n != 0 ==> res == Ok::<u16, AppError>(200),
        executed matches Err(err) ==> res matches Err(e) && is_db_error(&e, err),
{
    match executed {
        Ok(n) => if n == 0 {
            Ok(304)
        } else {
            Ok(200)
        },
        Err(err) => Err(AppError::SqlxError(err)),
    }
}

} // verus!
