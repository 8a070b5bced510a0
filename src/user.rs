use vstd::prelude::*;
use rand::Rng;

use crate::error::Error;
use crate::text::str_eq;

verus! {

/// The kind of a principal, which selects how its credentials are checked.
#[derive(Debug, Clone, Copy, PartialEq, Eq, Structural)]
pub enum UserType {
    User,
    ServiceAccount,
}

/// A principal: a human user or a service account.
#[derive(Debug, Clone, PartialEq, Eq)]
pub struct User {
    pub id: Option<i64>,
    pub name: String,
    pub user_type: UserType,
}

/// A repository coordinate bound to a service account.
#[derive(Debug, Clone, PartialEq, Eq)]
pub struct UserIdentifier {
    pub id: Option<i64>,
    pub user_id: i64,
    pub identifier: String,
}

/// The stored password hash of a human user.
#[derive(Debug, Clone, PartialEq, Eq)]
pub struct UserPasswordHash {
    pub user_id: i64,
    pub pw_hash: String,
}

pub open spec fn admin_name() -> Seq<char> {
    seq!['a', 'd', 'm', 'i', 'n']
}

impl User {
    /// A human user that has not been stored yet.
    pub fn new_user(name: String) -> (r: User)
        ensures
            r.id is None,
            r.name@ == name@,
            r.user_type == UserType::User,
    {
        User { id: None, name, user_type: UserType::User }
    }

    /// A service account that has not been stored yet.
    pub fn new_service_account(name: String) -> (r: User)
        ensures
            r.id is None,
            r.name@ == name@,
            r.user_type == UserType::ServiceAccount,
    {
        User { id: None, name, user_type: UserType::ServiceAccount }
    }

    /// Only human users hold a password hash.
    pub fn check_password_holder(&self) -> (r: Result<(), Error>)
        ensures
            r is Ok <==> self.user_type == UserType::User,
            r is Err ==> r->Err_0 is BadRequest,
    {
        match self.user_type {
            UserType::User => Ok(()),
            UserType::ServiceAccount => Err(
                Error::BadRequest("Cannot add password hash to service account"),
            ),
        }
    }

    /// Only service accounts hold repository identifiers.
    pub fn check_identifier_holder(&self) -> (r: Result<(), Error>)
        ensures
            r is Ok <==> self.user_type == UserType::ServiceAccount,
            r is Err ==> r->Err_0 is BadRequest,
    {
        match self.user_type {
            UserType::ServiceAccount => Ok(()),
            UserType::User => Err(Error::BadRequest("User is not ServiceAccount")),
        }
    }

    /// The stored id, which every persisted principal has.
    pub fn stored_id(&self) -> (r: Result<i64, Error>)
        ensures
            match self.id {
                Some(id) => r == Ok::<i64, Error>(id),
                None => r is Err && r->Err_0 is Opaque,
            },
    {
        match self.id {
            Some(id) => Ok(id),
            None => Err(Error::Opaque("Missing user_id")),
        }
    }
}

pub open spec fn is_alphanumeric(c: char) -> bool {
    ('a' <= c <= 'z') || ('A' <= c <= 'Z') || ('0' <= c <= '9')
}

/// Relies on `rand::distr::Alphanumeric`, which samples uniformly from `a-z`, `A-Z` and
/// `0-9`, drawn `len` times from the thread-local generator `rand::rng()`.
#[verifier::external_body]
fn sample_alphanumeric(len: usize) -> (r: String)
    ensures
        r@.len() == len,
        forall|i: int| 0 <= i < len ==> is_alphanumeric(#[trigger] r@[i]),
{
    rand::rng().sample_iter(&rand::distr::Alphanumeric).take(len).map(char::from).collect()
}

impl User {
    /// A random password of `len` ASCII letters and digits.
    pub fn generate_password(len: usize) -> (r: String)
        ensures
            r@.len() == len,
            forall|i: int| 0 <= i < len ==> is_alphanumeric(#[trigger] r@[i]),
    {
        sample_alphanumeric(len)
    }
}

/// Administrative operations are reserved to the principal named `admin`.
pub fn verify_admin(user: &User) -> (r: Result<(), Error>)
    ensures
        r is Ok <==> user.name@ == admin_name(),
        r is Err ==> r->Err_0 is Unauthorized,
{
    proof {
        reveal_strlit("admin");
        assert("admin"@ =~= admin_name());
    }
    if str_eq(user.name.as_str(), "admin") {
        Ok(())
    } else {
        Err(Error::Unauthorized("Only admin can manage users"))
    }
}

/// Whether `repo` is among the identifiers registered to a service account.
pub fn is_registered(identifiers: &Vec<String>, repo: &str) -> (r: bool)
    ensures
        r == exists|i: int| 0 <= i < identifiers@.len() && identifiers@[i]@ == repo@,
{
    let mut i: usize = 0;
    while i < identifiers.len()
        invariant
            i <= identifiers@.len(),
            forall|j: int| 0 <= j < i ==> identifiers@[j]@ != repo@,
        decreases identifiers.len() - i,
    {
        if str_eq(identifiers[i].as_str(), repo) {
            return true;
        }
        i = i + 1;
    }
    false
}

} // verus!
