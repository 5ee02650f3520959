//! Errors of the credential store.

use vstd::prelude::*;

verus! {

/// An account or its credentials could not be read.
#[derive(Debug)]
pub struct QueryUserError {
    msg: String,
}

impl QueryUserError {
    /// The error's message.
    pub closed spec fn message_text(&self) -> Seq<char> {
        self.msg@
    }

    /// An error with the given message.
    pub fn new(msg: &str) -> (e: Self)
        ensures
            e.message_text() == msg@,
    {
        QueryUserError { msg: msg.to_owned() }
    }

    /// The error's message.
    pub fn message(&self) -> (r: &str)
        ensures
            r@ == self.message_text(),
    {
        self.msg.as_str()
    }
}

/// An account or its credentials could not be written.
#[derive(Debug)]
pub struct UserUpdateError {
    msg: String,
}

impl UserUpdateError {
    /// The error's message.
    pub closed spec fn message_text(&self) -> Seq<char> {
        self.msg@
    }

    /// An error with the given message.
    pub fn new(msg: &str) -> (e: Self)
        ensures
            e.message_text() == msg@,
    {
        UserUpdateError { msg: msg.to_owned() }
    }

    /// The error's message.
    pub fn message(&self) -> (r: &str)
        ensures
            r@ == self.message_text(),
    {
        self.msg.as_str()
    }
}

} // verus!
