//! The reasons for which the registry turns a request down.

use vstd::prelude::*;

verus! {

/// Why a request failed.
///
/// The identifier, page and response variants are caused by the client's
/// input, `SessionIDDoesNotExist` by a session that was never published or
/// has expired, and `ServerError` by a fault of the server itself.
#[derive(Debug, Clone, Copy, PartialEq, Eq, Structural)]
pub enum AppError {
    EmptySessionID,
    TooLongSessionID,
    SessionIDDoesNotExist,
    ServerError,
    EmptyUserID,
    TooLongUserID,
    PageTooLarge,
    ResponseTooLarge,
}

impl AppError {
    /// Whether the error reports an input that failed validation.
    pub open spec fn is_validation(self) -> bool {
        self == AppError::EmptySessionID || self == AppError::TooLongSessionID || self
            == AppError::EmptyUserID || self == AppError::TooLongUserID || self
            == AppError::PageTooLarge || self == AppError::ResponseTooLarge
    }

    /// The HTTP status that stands for the error.
    pub open spec fn spec_status_code(self) -> u16 {
        match self {
            AppError::ServerError => 500,
            AppError::PageTooLarge => 413,
            AppError::ResponseTooLarge => 413,
            _ => 400,
        }
    }

    /// The text shown to the client: the name of the variant.
    pub open spec fn spec_message(self) -> Seq<char> {
        match self {
            AppError::EmptySessionID => "EmptySessionID"@,
            AppError::TooLongSessionID => "TooLongSessionID"@,
            AppError::SessionIDDoesNotExist => "SessionIDDoesNotExist"@,
            AppError::ServerError => "ServerError"@,
            AppError::EmptyUserID => "EmptyUserID"@,
            AppError::TooLongUserID => "TooLongUserID"@,
            AppError::PageTooLarge => "PageTooLarge"@,
            AppError::ResponseTooLarge => "ResponseTooLarge"@,
        }
    }

    /// Returns the HTTP status code of the error: 500 for a server fault,
    /// 413 for an oversized page or response, 400 for everything else.
    pub fn status_code(&self) -> (code: u16)
        ensures
            code == self.spec_status_code(),
            self.is_validation() ==> 400 <= code < 500,
    {
        match self {
            AppError::EmptySessionID => 400,
            AppError::TooLongSessionID => 400,
            AppError::SessionIDDoesNotExist => 400,
            AppError::ServerError => 500,
            AppError::EmptyUserID => 400,
            AppError::TooLongUserID => 400,
            AppError::PageTooLarge => 413,
            AppError::ResponseTooLarge => 413,
        }
    }

    /// Returns the human-readable message of the error.
    pub fn message(&self) -> (text: String)
        ensures
            text@ == self.spec_message(),
    {
        match self {
            AppError::EmptySessionID => "EmptySessionID".to_owned(),
            AppError::TooLongSessionID => "TooLongSessionID".to_owned(),
            AppError::SessionIDDoesNotExist => "SessionIDDoesNotExist".to_owned(),
            AppError::ServerError => "ServerError".to_owned(),
            AppError::EmptyUserID => "EmptyUserID".to_owned(),
            AppError::TooLongUserID => "TooLongUserID".to_owned(),
            AppError::PageTooLarge => "PageTooLarge".to_owned(),
            AppError::ResponseTooLarge => "ResponseTooLarge".to_owned(),
        }
    }
}

} // verus!
