//! The closed set of task priorities.
//!
//! `P1` is the most urgent and `P4` the default. The external protocol
//! stores the inverted magnitude: `P1` is carried as 4 and `P4` as 1.

use vstd::prelude::*;

verus! {

/// A task priority; `P4` is the default.
#[derive(Clone, Copy, Debug, PartialEq, Eq, Structural)]
pub enum Priority {
    P1,
    P2,
    P3,
    P4,
}

impl Priority {
    /// The inverted magnitude this priority carries in the external
    /// protocol: the most urgent priority has the highest code.
    pub open spec fn spec_code(self) -> u8 {
        match self {
            Priority::P1 => 4,
            Priority::P2 => 3,
            Priority::P3 => 2,
            Priority::P4 => 1,
        }
    }

    /// Returns the inverted protocol magnitude of this priority.
    pub fn code(&self) -> (r: u8)
        ensures
            r == self.spec_code(),
    {
        match self {
            Priority::P1 => 4,
            Priority::P2 => 3,
            Priority::P3 => 2,
            Priority::P4 => 1,
        }
    }

    /// Returns the priority with the given protocol magnitude, or `None`
    /// if the magnitude names no priority.
    pub fn from_code(code: u8) -> (r: Option<Priority>)
        ensures
            match r {
                Some(p) => p.spec_code() == code,
                None => forall|p: Priority| p.spec_code() != code,
            },
    {
        match code {
            4 => Some(Priority::P1),
            3 => Some(Priority::P2),
            2 => Some(Priority::P3),
            1 => Some(Priority::P4),
            _ => None,
        }
    }
}

impl Default for Priority {
    /// The default priority is `P4`.
    fn default() -> (r: Self)
        ensures
            r == Priority::P4,
    {
        Priority::P4
    }
}

} // verus!
