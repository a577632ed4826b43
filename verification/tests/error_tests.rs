use ax_notes::AppError;

fn parts(e: AppError) -> (u16, String) {
    e.response_parts()
}

#[test]
fn each_error_has_its_status_and_message() {
    assert_eq!(parts(AppError::Locked), (409, "Note is locked".to_string()));
    assert_eq!(parts(AppError::Unauthorized), (401, "Unauthorized access".to_string()));
    assert_eq!(parts(AppError::Forbidden), (403, "You do not have permission to do this".to_string()));
    assert_eq!(
        parts(AppError::Conflict),
        (409, "This note is currently being edited by someone else".to_string())
    );
    assert_eq!(parts(AppError::Internal("boom".to_string())), (500, "boom".to_string()));
}

#[test]
fn database_error_is_500_with_its_text() {
    let (status, message) = parts(AppError::SqlxError(sqlx::Error::RowNotFound));
    assert_eq!(status, 500);
    assert_eq!(message, sqlx::Error::RowNotFound.to_string());
    let (status, message) = parts(AppError::SqlxError(sqlx::Error::PoolTimedOut));
    assert_eq!(status, 500);
    assert_eq!(message, sqlx::Error::PoolTimedOut.to_string());
}

#[test]
fn status_codes_map_to_errors() {
    assert!(matches!(AppError::from_status(401), AppError::Unauthorized));
    assert!(matches!(AppError::from_status(403), AppError::Forbidden));
    assert!(matches!(AppError::from_status(409), AppError::Conflict));
    match AppError::from_status(500) {
        AppError::Internal(m) => assert_eq!(m, "An error occurred"),
        _ => panic!("500 should be internal"),
    }
    match AppError::from_status(404) {
        AppError::Internal(m) => assert_eq!(m, "An error occurred"),
        _ => panic!("404 should be internal"),
    }
}

#[test]
fn status_round_trips_through_response() {
    for s in [401u16, 403, 409] {
        assert_eq!(parts(AppError::from_status(s)).0, s);
    }
    assert_eq!(parts(AppError::from_status(418)).0, 500);
}

#[test]
fn conversions_into_app_error() {
    match AppError::from("oops".to_string()) {
        AppError::Internal(m) => assert_eq!(m, "oops"),
        _ => panic!("a message is an internal error"),
    }
    assert!(matches!(AppError::from(sqlx::Error::RowNotFound), AppError::SqlxError(sqlx::Error::RowNotFound)));
}
