//! Decides from what was found on disk whether a destination may be used.

use vstd::prelude::*;

verus! {

/// What was found where the parent directory of the destination should be.
#[derive(Clone, Copy, Debug, PartialEq, Eq, Structural)]
pub enum Parent {
    /// The destination has no parent that could be named.
    Unresolvable,
    /// The parent is named but is not on disk.
    Missing,
    /// The parent is on disk.
    Present,
}

/// What was found at the destination itself.
#[derive(Clone, Copy, Debug, PartialEq, Eq, Structural)]
pub enum Target {
    /// Nothing is there.
    Absent,
    /// A directory is there, holding this many entries.
    Directory { entries: usize },
    /// Something is there that is not a directory.
    NotDirectory,
}

/// The facts about a destination that a decision rests on.
#[derive(Clone, Copy, Debug, PartialEq, Eq, Structural)]
pub struct Probe {
    pub parent: Parent,
    pub target: Target,
}

/// The verdict on a destination.
#[derive(Clone, Copy, Debug, PartialEq, Eq, Structural)]
pub enum Validation {
    /// The destination is an empty directory: install into it.
    Proceed,
    /// The destination is not there yet: create it, then install into it.
    ProceedAfterCreate,
    /// The destination is occupied.
    Conflict,
    /// The destination cannot be reached.
    Invalid,
}

/// Why a destination was turned down. The user may submit another.
#[derive(Clone, Copy, Debug, PartialEq, Eq, Structural)]
pub enum ValidationError {
    /// The destination cannot be reached: its parent is missing.
    Unreachable,
    /// The destination is occupied.
    Conflict,
}

impl Validation {
    /// The reason for which this verdict turns the destination down, if it
    /// does.
    pub open spec fn refusal(self) -> Option<ValidationError> {
        match self {
            Validation::Invalid => Some(ValidationError::Unreachable),
            Validation::Conflict => Some(ValidationError::Conflict),
            _ => None,
        }
    }

    /// The reason for which this verdict turns the destination down, if it
    /// does.
    pub fn error(&self) -> (r: Option<ValidationError>)
        ensures
            r == self.refusal(),
    {
        match self {
            Validation::Invalid => Some(ValidationError::Unreachable),
            Validation::Conflict => Some(ValidationError::Conflict),
            _ => None,
        }
    }
}

impl Target {
    /// Whether the payload may be unpacked here without touching anything
    /// that is already on disk.
    pub open spec fn is_empty_directory(self) -> bool {
        self == (Target::Directory { entries: 0 })
    }

    /// Executable form of [`Target::is_empty_directory`].
    pub fn empty_directory(&self) -> (r: bool)
        ensures
            r == self.is_empty_directory(),
    {
        match self {
            Target::Directory { entries } => *entries == 0,
            _ => false,
        }
    }
}

/// The verdict that a probe calls for.
pub open spec fn verdict(probe: Probe) -> Validation {
    if probe.parent != Parent::Present {
        Validation::Invalid
    } else if probe.target == Target::Absent {
        Validation::ProceedAfterCreate
    } else if probe.target.is_empty_directory() {
        Validation::Proceed
    } else {
        Validation::Conflict
    }
}

/// Classifies a destination.
pub fn validate(probe: &Probe) -> (v: Validation)
    ensures
        v == verdict(*probe),
{
    match probe.parent {
        Parent::Present => match probe.target {
            Target::Absent => Validation::ProceedAfterCreate,
            Target::Directory { entries } => if entries == 0 {
                Validation::Proceed
            } else {
                Validation::Conflict
            },
            Target::NotDirectory => Validation::Conflict,
        },
        _ => Validation::Invalid,
    }
}

} // verus!
