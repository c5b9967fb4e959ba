//! What a line says, and what is kept of it.
use vstd::prelude::*;

verus! {

/// An authentication attempt as one line reports it.
#[derive(Debug, PartialEq, Eq)]
pub struct AuthAttempt {
    pub username: String,
    pub ip: String,
    pub port: String,
}

/// The contents of an `AuthAttempt`.
pub struct AuthAttemptView {
    pub username: Seq<char>,
    pub ip: Seq<char>,
    pub port: Seq<char>,
}

impl View for AuthAttempt {
    type V = AuthAttemptView;

    open spec fn view(&self) -> AuthAttemptView {
        AuthAttemptView { username: self.username@, ip: self.ip@, port: self.port@ }
    }
}

/// An authentication attempt with the spatial token of where it came from.
#[derive(Debug, PartialEq, Eq)]
pub struct AuthAttemptRecord {
    pub token: String,
    pub username: String,
    pub ip: String,
}

/// The contents of an `AuthAttemptRecord`.
pub struct AuthAttemptRecordView {
    pub token: Seq<char>,
    pub username: Seq<char>,
    pub ip: Seq<char>,
}

impl View for AuthAttemptRecord {
    type V = AuthAttemptRecordView;

    open spec fn view(&self) -> AuthAttemptRecordView {
        AuthAttemptRecordView { token: self.token@, username: self.username@, ip: self.ip@ }
    }
}

/// What stands in place of the address on a line that could not be matched
/// with one.
pub const NO_MATCH: &'static str = "**NO MATCH**";

impl AuthAttempt {
    /// Whether the attempt carries no address.
    pub fn has_no_match(&self) -> (none: bool)
        ensures
            none == (self@.ip == NO_MATCH@),
    {
        let sentinel = NO_MATCH.to_owned();
        self.ip == sentinel
    }
}

} // verus!
