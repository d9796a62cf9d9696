//! Action codes shared by the userspace agent and the kernel program.
//!
//! The numeric codes are the values stored in the kernel `ACTION_MAP`:
//! 0 = Allow, 1 = Soft, 2 = Medium, 3 = Kill.

use vstd::prelude::*;

verus! {

/// Action level stored in the kernel action map (one byte per process).
#[derive(Debug, Clone, Copy, PartialEq, Eq, Structural)]
pub enum Action {
    Allow,
    Soft,
    Medium,
    Kill,
}

/// The numeric code of an action.
pub open spec fn action_code(a: Action) -> u8 {
    match a {
        Action::Allow => 0,
        Action::Soft => 1,
        Action::Medium => 2,
        Action::Kill => 3,
    }
}

/// The action that a numeric code stands for; unknown codes mean Allow.
pub open spec fn action_of_code(v: u8) -> Action {
    if v == 1 {
        Action::Soft
    } else if v == 2 {
        Action::Medium
    } else if v == 3 {
        Action::Kill
    } else {
        Action::Allow
    }
}

impl Action {
    /// The byte written to the kernel action map for this action.
    pub fn as_u8(self) -> (r: u8)
        ensures
            r == action_code(self),
    {
        match self {
            Action::Allow => 0,
            Action::Soft => 1,
            Action::Medium => 2,
            Action::Kill => 3,
        }
    }
}

impl From<u8> for Action {
    fn from(v: u8) -> (r: Self) {
        match v {
            1 => Action::Soft,
            2 => Action::Medium,
            3 => Action::Kill,
            _ => Action::Allow,
        }
    }
}

impl vstd::std_specs::convert::FromSpecImpl<u8> for Action {
    open spec fn obeys_from_spec() -> bool {
        true
    }

    open spec fn from_spec(v: u8) -> Action {
        action_of_code(v)
    }
}

/// Decoding an encoded action gives the action back.
pub proof fn lemma_code_round_trip(a: Action)
    ensures
        action_of_code(action_code(a)) == a,
{
}

/// Encoding a decoded byte gives the byte back exactly for the four known
/// codes, and 0 (Allow) for every other byte.
pub proof fn lemma_decode_encode(v: u8)
    ensures
        action_code(action_of_code(v)) == (if v <= 3 { v } else { 0 }),
{
}

} // verus!
