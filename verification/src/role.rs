//! The role of a system user and its numeric code.

use vstd::prelude::*;

verus! {

/// Role of a system user. In storage and on the wire a role is its number:
/// `Admin` is 0, then `MapNeigui` 1, `MapManager` 2, `MapPunctuate` 3,
/// `MapUser` 4 and `Visitor` 5.
#[derive(PartialEq, Eq, Structural, Clone, Copy, Debug)]
pub enum SystemUserRole {
    Admin,
    MapNeigui,
    MapManager,
    MapPunctuate,
    MapUser,
    Visitor,
}

/// The number that stands for `role`.
pub open spec fn role_number(role: SystemUserRole) -> int {
    match role {
        SystemUserRole::Admin => 0,
        SystemUserRole::MapNeigui => 1,
        SystemUserRole::MapManager => 2,
        SystemUserRole::MapPunctuate => 3,
        SystemUserRole::MapUser => 4,
        SystemUserRole::Visitor => 5,
    }
}

/// The role that the number `n` stands for, if any.
pub open spec fn role_of_number(n: int) -> Option<SystemUserRole> {
    if n == 0 {
        Some(SystemUserRole::Admin)
    } else if n == 1 {
        Some(SystemUserRole::MapNeigui)
    } else if n == 2 {
        Some(SystemUserRole::MapManager)
    } else if n == 3 {
        Some(SystemUserRole::MapPunctuate)
    } else if n == 4 {
        Some(SystemUserRole::MapUser)
    } else if n == 5 {
        Some(SystemUserRole::Visitor)
    } else {
        None
    }
}

impl SystemUserRole {
    /// The role numbered `id`; `None` for a number outside 0 to 5.
    pub fn from_id(id: i64) -> (role: Option<SystemUserRole>)
        ensures
            role == role_of_number(id as int),
    {
        match id {
            0 => Some(SystemUserRole::Admin),
            1 => Some(SystemUserRole::MapNeigui),
            2 => Some(SystemUserRole::MapManager),
            3 => Some(SystemUserRole::MapPunctuate),
            4 => Some(SystemUserRole::MapUser),
            5 => Some(SystemUserRole::Visitor),
            _ => None,
        }
    }

    /// The number of this role.
    pub fn id(self) -> (n: i64)
        ensures
            n == role_number(self),
    {
        match self {
            SystemUserRole::Admin => 0,
            SystemUserRole::MapNeigui => 1,
            SystemUserRole::MapManager => 2,
            SystemUserRole::MapPunctuate => 3,
            SystemUserRole::MapUser => 4,
            SystemUserRole::Visitor => 5,
        }
    }
}

/// Reading back the number of a role gives the role again.
pub proof fn lemma_role_number_roundtrip(role: SystemUserRole)
    ensures
        role_of_number(role_number(role)) == Some(role),
{
}

/// Exactly the numbers 0 to 5 stand for a role, and the role that a number
/// stands for has that number.
pub proof fn lemma_role_of_number_inverse(n: int)
    ensures
        role_of_number(n) is Some <==> 0 <= n <= 5,
        role_of_number(n) matches Some(role) ==> role_number(role) == n,
{
}

} // verus!
