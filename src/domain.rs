//! Accounts and their stored credentials.

use vstd::prelude::*;

verus! {

/// An account: the identity that a session authenticates.
#[derive(Debug)]
pub struct User {
    pub id: i32,
    pub email: String,
    pub name: String,
}

impl User {
    /// An account with the given fields.
    pub fn new(id: i32, email: String, name: String) -> (u: Self)
        ensures
            u.id == id,
            u.email == email,
            u.name == name,
    {
        User { id, email, name }
    }
}

/// The second factor configured for an account: the factor's id and, once
/// enrollment is confirmed, its secret.
#[derive(Debug)]
pub struct Mfa {
    pub mfa_id: String,
    pub secret: Option<String>,
}

impl Mfa {
    /// A factor with no secret yet.
    pub fn new(mfa_id: &str) -> (m: Self)
        ensures
            m.mfa_id@ == mfa_id@,
            m.secret is None,
    {
        Mfa { mfa_id: mfa_id.to_owned(), secret: None }
    }

    /// A factor with its secret.
    pub fn with_secret(mfa_id: &str, secret: &str) -> (m: Self)
        ensures
            m.mfa_id@ == mfa_id@,
            m.secret matches Some(s) && s@ == secret@,
    {
        Mfa { mfa_id: mfa_id.to_owned(), secret: Some(secret.to_owned()) }
    }
}

/// What is stored for an account: the password hash (in PHC string form)
/// and the optional second factor.
#[derive(Debug)]
pub struct Credentials {
    pub id: i32,
    pub password: String,
    pub mfa_config: Option<Mfa>,
    pub user_id: i32,
}

impl Credentials {
    /// Credentials with no second factor.
    pub fn new(id: i32, password: String, user_id: i32) -> (c: Self)
        ensures
            c.id == id,
            c.password == password,
            c.mfa_config is None,
            c.user_id == user_id,
    {
        Credentials { id, password, mfa_config: None, user_id }
    }

    /// Credentials as the store holds them: a factor exists when its id is
    /// set, with the secret when that is set too.
    pub fn from_columns(
        id: i32,
        password: String,
        mfa_id: Option<String>,
        mfa_secret: Option<String>,
        user_id: i32,
    ) -> (c: Self)
        ensures
            c.id == id,
            c.password == password,
            c.user_id == user_id,
            mfa_id is None ==> c.mfa_config is None,
            mfa_id matches Some(f) ==> (c.mfa_config matches Some(m) && m.mfa_id == f
                && m.secret == mfa_secret),
    {
        let mfa_config = match mfa_id {
            Some(f) => Some(Mfa { mfa_id: f, secret: mfa_secret }),
            None => None,
        };
        Credentials { id, password, mfa_config, user_id }
    }

    /// Configures the second factor; the other fields stay.
    pub fn set_mfa(&mut self, mfa_config: Mfa)
        ensures
            final(self).mfa_config == Some(mfa_config),
            final(self).id == old(self).id,
            final(self).password == old(self).password,
            final(self).user_id == old(self).user_id,
    {
        self.mfa_config = Some(mfa_config);
    }
}

} // verus!
