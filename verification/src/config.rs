//! Configuration of the timekeeper service.
use vstd::prelude::*;

verus! {

/// The timekeeper service's own settings; it has none beyond those every
/// service shares.
#[derive(Debug, Default)]
pub struct TimekeeperConfig {}

} // verus!
