//! A timestamped note for the user.
use vstd::prelude::*;

verus! {

/// A message for the user, with the time (seconds since the epoch) it arose.
#[derive(Debug, Clone)]
pub struct Notification {
    pub message: String,
    pub timestamp: u64,
}

} // verus!
