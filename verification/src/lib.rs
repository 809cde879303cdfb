//! The core of a terminal progress tracker: topics, items with a completion
//! state, the form that creates them and the state machine that drives the
//! interface.

pub mod add;
pub mod area;
pub mod form;
pub mod input;
pub mod item;
pub mod nav;
pub mod validate;
