//! The screens of the interactive viewer.
use vstd::prelude::*;

verus! {

/// The screen that the viewer shows.
#[derive(Debug, Clone, Copy, PartialEq, Eq, Structural)]
pub enum View {
    Bracket,
    GameDetail,
    Prediction,
}

} // verus!
