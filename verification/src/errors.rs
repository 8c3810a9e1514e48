//! The error taxonomy shared by every component of the core.

use vstd::prelude::*;

verus! {

/// Why a request was refused.
///
/// `NotFound` deliberately covers both "no such resource" and "resource owned
/// by somebody else", so that a caller cannot learn whether a foreign resource
/// exists.
#[derive(Clone, Copy, Debug, PartialEq, Eq, Structural)]
pub enum Error {
    /// No session, an expired session, or an attempt to act as another user.
    Unauthorized,
    /// The resource is absent, or the caller is not entitled to it.
    NotFound,
    /// The username is already taken or is not acceptable.
    Conflict,
    /// The request could not be classified as JSON or HTML.
    UnsupportedMediaType,
    /// The storage collaborator failed.
    InternalError,
}

impl Error {
    /// A short human-readable description, for rendering at the boundary.
    pub fn message(&self) -> (r: &'static str)
        ensures
            r@ == self.spec_message(),
    {
        proof {
            reveal_strlit("unauthorized");
            reveal_strlit("not found");
            reveal_strlit("conflict");
            reveal_strlit("unsupported media type");
            reveal_strlit("internal error");
        }
        match self {
            Error::Unauthorized => "unauthorized",
            Error::NotFound => "not found",
            Error::Conflict => "conflict",
            Error::UnsupportedMediaType => "unsupported media type",
            Error::InternalError => "internal error",
        }
    }

    pub open spec fn spec_message(self) -> Seq<char> {
        match self {
            Error::Unauthorized => "unauthorized"@,
            Error::NotFound => "not found"@,
            Error::Conflict => "conflict"@,
            Error::UnsupportedMediaType => "unsupported media type"@,
            Error::InternalError => "internal error"@,
        }
    }
}

} // verus!
