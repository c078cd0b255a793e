//! Default values for the optional fields of the declarative trick format.

use vstd::prelude::*;
use crate::status::Status;

verus! {

/// Default for flags that are on unless stated otherwise.
pub fn default_true() -> (r: bool)
    ensures
        r,
{
    true
}

/// Default for flags that are off unless stated otherwise.
pub fn default_false() -> (r: bool)
    ensures
        !r,
{
    false
}

/// Default failure status of steps that set up the environment.
pub fn default_setup_failure() -> (r: Status)
    ensures
        r == Status::SetupFailure,
{
    Status::SetupFailure
}

/// Default failure status of version checks: a mismatch skips the trick.
pub fn default_skip() -> (r: Status)
    ensures
        r == Status::Skip,
{
    Status::Skip
}

} // verus!
