//! Library of the March Madness bracket predictor: the seeded field, the
//! bracket graph, integer and text parsing, and the interactive viewer's
//! state machine.

pub mod app;
pub mod bracket;
pub mod display;
pub mod features;
pub mod fetch;
pub mod lineup;
pub mod models;
pub mod odds;
pub mod screen;
pub mod seeds;
pub mod text;
