use vstd::prelude::*;

verus! {

/// The error kinds that the library's operations report.
#[derive(Clone, Copy, Debug, PartialEq, Eq, Hash, Structural)]
pub enum CommonErrorCode {
    UserDoesNotExists,
    UsernameAlreadyExists,
    NoteDoesNotExists,
    DBError,
    UnexpectedError,
}

/// The human-readable message that belongs to each error kind.
pub open spec fn message_of(code: CommonErrorCode) -> Seq<char> {
    match code {
        CommonErrorCode::UserDoesNotExists => "User does not exists"@,
        CommonErrorCode::UsernameAlreadyExists => "Username already exists"@,
        CommonErrorCode::NoteDoesNotExists => "Note does not exists"@,
        CommonErrorCode::DBError => "DB error"@,
        CommonErrorCode::UnexpectedError => "Unexpected error"@,
    }
}

/// An error kind together with its message.
#[derive(Debug)]
pub struct CommonError {
    code: CommonErrorCode,
    message: String,
}

impl CommonError {
    pub closed spec fn spec_code(&self) -> CommonErrorCode {
        self.code
    }

    pub closed spec fn spec_message(&self) -> Seq<char> {
        self.message@
    }

    /// A `CommonError` is well formed when its message is the one that
    /// `message_of` assigns to its code.
    pub open spec fn wf(&self) -> bool {
        self.spec_message() == message_of(self.spec_code())
    }

    pub fn new(code: CommonErrorCode) -> (r: CommonError)
        ensures
            r.spec_code() == code,
            r.wf(),
    {
        CommonError { code, message: message_text(code) }
    }

    pub fn get_code(&self) -> (r: CommonErrorCode)
        ensures
            r == self.spec_code(),
    {
        self.code
    }

    pub fn get_message(&self) -> (r: String)
        ensures
            r@ == self.spec_message(),
    {
        self.message.clone()
    }
}

/// The immutable mapping from error kind to message text.
fn message_text(code: CommonErrorCode) -> (r: String)
    ensures
        r@ == message_of(code),
{
    match code {
        CommonErrorCode::UserDoesNotExists => "User does not exists".to_owned(),
        CommonErrorCode::UsernameAlreadyExists => "Username already exists".to_owned(),
        CommonErrorCode::NoteDoesNotExists => "Note does not exists".to_owned(),
        CommonErrorCode::DBError => "DB error".to_owned(),
        CommonErrorCode::UnexpectedError => "Unexpected error".to_owned(),
    }
}

} // verus!
