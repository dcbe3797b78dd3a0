use trekkie::routes::ServerError;

#[test]
fn status_codes_follow_the_http_table() {
    assert_eq!(ServerError::InternalError.status_code(), 500);
    assert_eq!(ServerError::BadClientData.status_code(), 400);
    assert_eq!(ServerError::Unauthorized.status_code(), 401);
    assert_eq!(ServerError::Forbidden.status_code(), 403);
    assert_eq!(ServerError::Conflict.status_code(), 409);
    assert_eq!(ServerError::NotImplemented.status_code(), 501);
}

#[test]
fn messages_are_the_short_public_texts() {
    assert_eq!(ServerError::InternalError.message(), "Internal Error");
    assert_eq!(ServerError::BadClientData.message(), "Bad Request");
    assert_eq!(ServerError::Unauthorized.message(), "Unauthorized");
    assert_eq!(ServerError::Forbidden.message(), "Forbidden");
    assert_eq!(ServerError::Conflict.message(), "Conflict");
    assert_eq!(ServerError::NotImplemented.message(), "Not Implemented");
}
