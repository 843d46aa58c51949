//! The pure focus step function: one cell forward or back, with explicit
//! boundary results instead of wraparound.

use vstd::prelude::*;

verus! {

/// Direction of a requested focus move.
#[derive(Debug, Clone)]
pub enum FocusOffset {
    Next,
    Previous,
}

/// Outcome of a navigation attempt. Boundary hits and a missing UI document
/// are reported as values, never as panics.
#[derive(Debug, Clone, PartialEq, Eq)]
pub enum FocusResult<T = ()> {
    Moved(T),
    TooBig,
    TooLow,
    NoDocument,
}

impl FocusOffset {
    /// Adds or subtracts 1 to the current index.
    ///
    /// `maximum` is the last index that exists; there is no wraparound:
    /// `Next` at the last index yields `TooBig`, `Previous` at 0 yields
    /// `TooLow`, and every other call yields `Moved` of the neighbouring index.
    pub fn process(&self, current: usize, maximum: usize) -> (r: FocusResult<usize>)
        requires
            self is Next && current != maximum ==> current < usize::MAX,
        ensures
            self is Next && current == maximum ==> r is TooBig,
            self is Next && current != maximum ==> r == FocusResult::Moved((current + 1) as usize),
            self is Previous && current == 0 ==> r is TooLow,
            self is Previous && current > 0 ==> r == FocusResult::Moved((current - 1) as usize),
    {
        match self {
            FocusOffset::Next => {
                if current == maximum {
                    FocusResult::TooBig
                } else {
                    FocusResult::Moved(current + 1)
                }
            },
            FocusOffset::Previous => {
                if current == 0 {
                    FocusResult::TooLow
                } else {
                    FocusResult::Moved(current - 1)
                }
            },
        }
    }
}

} // verus!
