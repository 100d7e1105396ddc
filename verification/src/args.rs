//! The command-line choices the controller honours: an optional pipe id
//! and an optional card id, either of which skips the main menu.
use vstd::prelude::*;

verus! {

/// Possible arguments.
#[derive(Debug, Clone, PartialEq, Eq)]
pub struct Opts {
    /// Which card to get.
    pub card_id: Option<usize>,
    /// Which pipe to get.
    pub pipe_id: Option<usize>,
}

} // verus!
