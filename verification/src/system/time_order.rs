//! The order of spans of time: that of their lengths.

use super::time::Time;
use std::cmp::Ordering;
use vstd::prelude::*;
use vstd::std_specs::cmp::PartialOrdSpecImpl;

verus! {

impl PartialOrd for Time {
    /// Compares the two spans by their length in microseconds.
    fn partial_cmp(&self, other: &Time) -> (order: Option<Ordering>) {
        let mine: i64 = self.as_microseconds();
        let theirs: i64 = other.as_microseconds();
        if mine < theirs {
            Some(Ordering::Less)
        } else if mine == theirs {
            Some(Ordering::Equal)
        } else {
            Some(Ordering::Greater)
        }
    }
}

impl PartialOrdSpecImpl for Time {
    open spec fn obeys_partial_cmp_spec() -> bool {
        true
    }

    open spec fn partial_cmp_spec(&self, other: &Time) -> Option<Ordering> {
        if self.micros() < other.micros() {
            Some(Ordering::Less)
        } else if self.micros() == other.micros() {
            Some(Ordering::Equal)
        } else {
            Some(Ordering::Greater)
        }
    }
}

} // verus!
