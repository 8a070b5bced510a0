use vstd::prelude::*;

use crate::error::Error;
use crate::text::str_eq;

verus! {

/// An action that a permission grants on a repository.
#[derive(Debug, Clone, Copy, PartialEq, Eq, Structural)]
pub enum PermissionType {
    Pull,
    Push,
}

pub open spec fn pull_text() -> Seq<char> {
    seq!['p', 'u', 'l', 'l']
}

pub open spec fn push_text() -> Seq<char> {
    seq!['p', 'u', 's', 'h']
}

impl PermissionType {
    /// The action named by `s`, if it names one.
    pub open spec fn spec_from_action(s: Seq<char>) -> Option<PermissionType> {
        if s == pull_text() {
            Some(PermissionType::Pull)
        } else if s == push_text() {
            Some(PermissionType::Push)
        } else {
            None
        }
    }

    /// The wire name of the action.
    pub open spec fn spec_text(self) -> Seq<char> {
        match self {
            PermissionType::Pull => pull_text(),
            PermissionType::Push => push_text(),
        }
    }

    /// Reads an action token: `pull` or `push`, anything else is a bad request.
    pub fn from_actions(s: &str) -> (r: Result<PermissionType, Error>)
        ensures
            match Self::spec_from_action(s@) {
                Some(p) => r == Ok::<PermissionType, Error>(p),
                None => r == Err::<PermissionType, Error>(Error::BadRequest("Unknown action")),
            },
    {
        proof {
            reveal_strlit("pull");
            reveal_strlit("push");
            assert("pull"@ =~= pull_text());
            assert("push"@ =~= push_text());
        }
        if str_eq(s, "pull") {
            Ok(PermissionType::Pull)
        } else if str_eq(s, "push") {
            Ok(PermissionType::Push)
        } else {
            Err(Error::BadRequest("Unknown action"))
        }
    }

    /// The wire name of the action, as stored and as it appears in tokens.
    pub fn as_str(&self) -> (r: &'static str)
        ensures
            r@ == self.spec_text(),
    {
        proof {
            reveal_strlit("pull");
            reveal_strlit("push");
            assert("pull"@ =~= pull_text());
            assert("push"@ =~= push_text());
        }
        match self {
            PermissionType::Pull => "pull",
            PermissionType::Push => "push",
        }
    }
}

/// A granted capability: `permission` on the repository named `subject`, or on every
/// repository when `subject` is `*`.
#[derive(Debug, Clone, PartialEq, Eq)]
pub struct Permission {
    pub id: Option<i64>,
    pub subject: String,
    pub permission: PermissionType,
}

/// An association between a principal and a permission.
#[derive(Debug, Clone, Copy, PartialEq, Eq, Structural)]
pub struct UserPermission {
    pub user_id: i64,
    pub permission_id: i64,
}

} // verus!
