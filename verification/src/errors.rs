//! The error a chat service answers a refused avatar change with.

use vstd::prelude::*;

verus! {

/// A refused avatar change, with the text the service answered.
#[derive(Debug)]
pub struct ChangeAvatarError {
    details: String,
}

impl View for ChangeAvatarError {
    type V = Seq<char>;

    closed spec fn view(&self) -> Seq<char> {
        self.details@
    }
}

impl ChangeAvatarError {
    pub fn new(msg: String) -> (r: ChangeAvatarError)
        ensures
            r@ == msg@,
    {
        ChangeAvatarError { details: msg }
    }

    /// The text the service answered.
    pub fn details(&self) -> (r: &str)
        ensures
            r@ == self@,
    {
        self.details.as_str()
    }

    /// How the error reads to a user.
    pub fn message(&self) -> (r: String)
        ensures
            r@ == "change avatar error"@,
    {
        "change avatar error".to_owned()
    }
}

} // verus!
