//! Result of a resistance (electrode contact quality) measurement pass over
//! the four channels.

use vstd::prelude::*;

verus! {

/// Outcome of the resistance measurement and its evaluation on one electrode.
#[derive(Debug, Clone, Copy, PartialEq, Eq, Structural)]
pub enum ResistsMeasureResult {
    /// Result is not computed yet
    NONE,
    /// Good electrode-to-head contact
    GOOD,
    /// Bad electrode-to-head contact
    BAD,
}

/// Contact quality of each electrode after a full resistance measurement.
#[derive(Debug, Clone, Copy, PartialEq, Eq, Structural)]
pub struct ResistState {
    /// Left occipital region, back of the head
    pub ch_o1: ResistsMeasureResult,
    /// Right occipital region, back of the head
    pub ch_o2: ResistsMeasureResult,
    /// Left temporal lobe electrode
    pub ch_t3: ResistsMeasureResult,
    /// Right temporal lobe electrode
    pub ch_t4: ResistsMeasureResult,
}

impl Default for ResistState {
    /// A state in which no channel has been measured yet.
    fn default() -> (r: Self)
        ensures
            r.ch_o1 == ResistsMeasureResult::NONE,
            r.ch_o2 == ResistsMeasureResult::NONE,
            r.ch_t3 == ResistsMeasureResult::NONE,
            r.ch_t4 == ResistsMeasureResult::NONE,
    {
        ResistState {
            ch_o1: ResistsMeasureResult::NONE,
            ch_o2: ResistsMeasureResult::NONE,
            ch_t3: ResistsMeasureResult::NONE,
            ch_t4: ResistsMeasureResult::NONE,
        }
    }
}

} // verus!
