//! Validated identifiers of sessions and of participants.

use crate::error::AppError;
use vstd::prelude::*;

verus! {

/// The largest number of characters an identifier may have.
pub const MAX_ID_CHARS: usize = 100;

/// An identifier is valid when it is not empty and has at most
/// [`MAX_ID_CHARS`] characters.
pub open spec fn valid_identifier(s: Seq<char>) -> bool {
    0 < s.len() <= MAX_ID_CHARS
}

/// The error with which `s` is refused as a session identifier, if it is.
pub open spec fn session_id_error(s: Seq<char>) -> Option<AppError> {
    if s.len() == 0 {
        Some(AppError::EmptySessionID)
    } else if s.len() > MAX_ID_CHARS {
        Some(AppError::TooLongSessionID)
    } else {
        None
    }
}

/// The error with which `s` is refused as a user identifier, if it is.
pub open spec fn user_id_error(s: Seq<char>) -> Option<AppError> {
    if s.len() == 0 {
        Some(AppError::EmptyUserID)
    } else if s.len() > MAX_ID_CHARS {
        Some(AppError::TooLongUserID)
    } else {
        None
    }
}

/// The name of a session. Every value holds a valid identifier.
#[derive(Debug, PartialEq, Eq, Hash)]
pub struct SessionID(String);

impl View for SessionID {
    type V = Seq<char>;

    closed spec fn view(&self) -> Seq<char> {
        self.0@
    }
}

impl SessionID {
    #[verifier::type_invariant]
    spec fn holds_valid_identifier(&self) -> bool {
        valid_identifier(self.0@)
    }

    /// Validates `s` as a session identifier.
    ///
    /// An empty string is refused with `EmptySessionID`, one of more than
    /// [`MAX_ID_CHARS`] characters with `TooLongSessionID`; every other string
    /// is accepted and kept unchanged.
    pub fn from_string(s: &str) -> (r: Result<SessionID, AppError>)
        ensures
            match r {
                Ok(id) => session_id_error(s@) is None && id@ == s@,
                Err(e) => session_id_error(s@) == Some(e),
            },
            r is Ok <==> valid_identifier(s@),
    {
        if s.is_empty() {
            Err(AppError::EmptySessionID)
        } else if s.unicode_len() > MAX_ID_CHARS {
            Err(AppError::TooLongSessionID)
        } else {
            Ok(SessionID(s.to_owned()))
        }
    }

    /// The identifier as text.
    pub fn as_str(&self) -> (s: &str)
        ensures
            s@ == self@,
            valid_identifier(s@),
    {
        proof {
            use_type_invariant(self);
        }
        self.0.as_str()
    }

    /// The identifier as the string that holds it.
    pub fn as_string(&self) -> (s: &String)
        ensures
            s@ == self@,
            valid_identifier(s@),
    {
        proof {
            use_type_invariant(self);
        }
        &self.0
    }

    /// Gives up the identifier as an owned string.
    pub fn into_string(self) -> (s: String)
        ensures
            s@ == self@,
            valid_identifier(s@),
    {
        proof {
            use_type_invariant(&self);
        }
        self.0
    }
}

impl Clone for SessionID {
    fn clone(&self) -> (copy: Self)
        ensures
            copy@ == self@,
    {
        proof {
            use_type_invariant(self);
        }
        SessionID(self.0.clone())
    }
}

/// The name of a participant. Every value holds a valid identifier.
#[derive(Debug, PartialEq, Eq, Hash)]
pub struct UserID(String);

impl View for UserID {
    type V = Seq<char>;

    closed spec fn view(&self) -> Seq<char> {
        self.0@
    }
}

impl UserID {
    #[verifier::type_invariant]
    spec fn holds_valid_identifier(&self) -> bool {
        valid_identifier(self.0@)
    }

    /// Validates `s` as a user identifier.
    ///
    /// An empty string is refused with `EmptyUserID`, one of more than
    /// [`MAX_ID_CHARS`] characters with `TooLongUserID`; every other string is
    /// accepted and kept unchanged.
    pub fn from_string(s: &str) -> (r: Result<UserID, AppError>)
        ensures
            match r {
                Ok(id) => user_id_error(s@) is None && id@ == s@,
                Err(e) => user_id_error(s@) == Some(e),
            },
            r is Ok <==> valid_identifier(s@),
    {
        if s.is_empty() {
            Err(AppError::EmptyUserID)
        } else if s.unicode_len() > MAX_ID_CHARS {
            Err(AppError::TooLongUserID)
        } else {
            Ok(UserID(s.to_owned()))
        }
    }

    /// The identifier as text.
    pub fn as_str(&self) -> (s: &str)
        ensures
            s@ == self@,
            valid_identifier(s@),
    {
        proof {
            use_type_invariant(self);
        }
        self.0.as_str()
    }

    /// The identifier as the string that holds it.
    pub fn as_string(&self) -> (s: &String)
        ensures
            s@ == self@,
            valid_identifier(s@),
    {
        proof {
            use_type_invariant(self);
        }
        &self.0
    }

    /// Gives up the identifier as an owned string.
    pub fn into_string(self) -> (s: String)
        ensures
            s@ == self@,
            valid_identifier(s@),
    {
        proof {
            use_type_invariant(&self);
        }
        self.0
    }
}

impl Clone for UserID {
    fn clone(&self) -> (copy: Self)
        ensures
            copy@ == self@,
    {
        proof {
            use_type_invariant(self);
        }
        UserID(self.0.clone())
    }
}

} // verus!
