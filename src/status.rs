//! The fixed set of outcomes of a step or a trick.

use vstd::prelude::*;

verus! {

/// The outcome classification of a step or of a whole trick.
#[derive(Debug, Clone, Copy, PartialEq, Eq, Structural)]
pub enum Status {
    /// The outcome is not decided yet. The only status that lets a trick go on.
    Undecided,
    /// Setup has failed. Stops the trick.
    SetupFailure,
    /// The exploit has succeeded. Stops the trick.
    ExploitSuccess,
    /// The exploit has failed. Stops the trick.
    ExploitFailure,
    /// The trick should be skipped; like a setup failure, but not a hard one.
    Skip,
}

impl Status {
    /// A final status halts the trick that produced it.
    pub open spec fn spec_is_final(&self) -> bool {
        !(self is Undecided)
    }

    /// Is this a final status, one that stops the trick?
    #[verifier::when_used_as_spec(spec_is_final)]
    pub fn is_final(&self) -> (r: bool)
        ensures
            r == self.spec_is_final(),
    {
        match self {
            Status::Undecided => false,
            Status::SetupFailure => true,
            Status::ExploitSuccess => true,
            Status::ExploitFailure => true,
            Status::Skip => true,
        }
    }
}

impl Default for Status {
    fn default() -> (r: Status)
        ensures
            r == Status::Undecided,
    {
        Status::Undecided
    }
}

} // verus!
