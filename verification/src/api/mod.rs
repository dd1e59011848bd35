//! The records that the web front end hands out.

use vstd::prelude::*;
use vstd::string::StringExecFns;

verus! {

/// The name of a table with the index of its page.
#[derive(Debug, PartialEq, Eq)]
pub struct Name {
    pub name: String,
    pub dbidx: isize,
}

impl Clone for Name {
    fn clone(&self) -> (n: Self)
        ensures
            n.name@ == self.name@,
            n.dbidx == self.dbidx,
    {
        Self { name: self.name.clone(), dbidx: self.dbidx }
    }
}

/// A user of the web front end.
#[derive(Debug, PartialEq, Eq)]
pub struct User {
    pub id: usize,
    pub name: String,
    /// The hash of the user's password.
    pub hash: Option<String>,
    pub device: Option<String>,
    pub known_devices: Option<Vec<String>>,
    /// Whether the user may sign in.
    pub activ: bool,
    pub is_admin: Option<bool>,
}

impl User {
    /// The user 0 without a name, who may not sign in.
    pub open spec fn is_initial(self) -> bool {
        &&& self.id == 0
        &&& self.name@ == Seq::<char>::empty()
        &&& self.hash is None
        &&& self.device is None
        &&& self.known_devices is None
        &&& !self.activ
        &&& self.is_admin is None
    }

    /// The user 0 without a name, who may not sign in.
    pub fn new() -> (u: Self)
        ensures
            u.is_initial(),
    {
        Self {
            name: String::new(),
            id: 0,
            hash: None,
            device: None,
            known_devices: None,
            activ: false,
            is_admin: None,
        }
    }
}

impl Default for User {
    fn default() -> (u: Self)
        ensures
            u.is_initial(),
    {
        Self::new()
    }
}

/// The collection that holds the tables of a kind: 0 for teachers, 1 for
/// rooms, 2 for students.
pub open spec fn collection_of(kind: u8) -> Option<Seq<char>> {
    if kind == 0 {
        Some("teachers"@)
    } else if kind == 1 {
        Some("room"@)
    } else if kind == 2 {
        Some("students"@)
    } else {
        None
    }
}

/// Names the collection that holds the tables of a kind.
pub fn collection(kind: u8) -> (r: Option<String>)
    ensures
        match r {
            Some(s) => collection_of(kind) == Some(s@),
            None => collection_of(kind) is None,
        },
{
    if kind == 0 {
        Some(String::from_str("teachers"))
    } else if kind == 1 {
        Some(String::from_str("room"))
    } else if kind == 2 {
        Some(String::from_str("students"))
    } else {
        None
    }
}

/// What signing in ends in.
#[derive(Debug, Clone, Copy, PartialEq, Eq, Structural)]
pub enum Login {
    /// The user is signed in.
    Granted,
    /// The user may not sign in.
    Inactive,
    /// The password is wrong.
    WrongPassword,
    /// The user has no password hash.
    NoHash,
    /// The hash could not be checked.
    Unchecked,
}

/// What signing in ends in for a user who may or may not sign in, has a
/// password hash or not, and whose password was checked against the hash
/// with the given outcome (nothing where the check failed).
pub open spec fn login_of(activ: bool, has_hash: bool, checked: Option<bool>) -> Login {
    if !activ {
        Login::Inactive
    } else if !has_hash {
        Login::NoHash
    } else {
        match checked {
            Some(true) => Login::Granted,
            Some(false) => Login::WrongPassword,
            None => Login::Unchecked,
        }
    }
}

/// Decides what signing in ends in.
pub fn login(activ: bool, has_hash: bool, checked: Option<bool>) -> (l: Login)
    ensures
        l == login_of(activ, has_hash, checked),
{
    if !activ {
        Login::Inactive
    } else if !has_hash {
        Login::NoHash
    } else {
        match checked {
            Some(true) => Login::Granted,
            Some(false) => Login::WrongPassword,
            None => Login::Unchecked,
        }
    }
}

/// The status code of the answer to an attempt to sign in.
pub fn login_status(l: Login) -> (code: u16)
    ensures
        code == match l {
            Login::Granted => 303u16,
            Login::Inactive => 401u16,
            Login::WrongPassword => 401u16,
            Login::NoHash => 500u16,
            Login::Unchecked => 500u16,
        },
{
    match l {
        Login::Granted => 303,
        Login::Inactive => 401,
        Login::WrongPassword => 401,
        Login::NoHash => 500,
        Login::Unchecked => 500,
    }
}

} // verus!
