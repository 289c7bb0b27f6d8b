use gekidan::error::{CommonError, CommonErrorCode};

#[test]
fn get_message_from_code() {
    let err = CommonError::new(CommonErrorCode::UnexpectedError);
    assert_eq!(err.get_message(), "Unexpected error");
}

#[test]
fn every_code_has_its_message() {
    assert_eq!(
        CommonError::new(CommonErrorCode::UserDoesNotExists).get_message(),
        "User does not exists"
    );
    assert_eq!(
        CommonError::new(CommonErrorCode::UsernameAlreadyExists).get_message(),
        "Username already exists"
    );
    assert_eq!(
        CommonError::new(CommonErrorCode::NoteDoesNotExists).get_message(),
        "Note does not exists"
    );
    assert_eq!(CommonError::new(CommonErrorCode::DBError).get_message(), "DB error");
}

#[test]
fn code_survives_construction() {
    let err = CommonError::new(CommonErrorCode::DBError);
    assert_eq!(err.get_code(), CommonErrorCode::DBError);
}
