//! Core of a terminal dashboard that lists remote-agent records: the
//! selection state machine with its key-repeat debounce, the layout of the
//! five panels, the composition of a frame from the session's state,
//! the fixed-rate tick arithmetic, and the order in which the terminal is
//! acquired and released. Nothing here touches the terminal or the record
//! store; a front end owns both and performs what this crate decides.

pub mod agent;
pub mod layout;
pub mod lifecycle;
pub mod render;
pub mod scheduler;
pub mod selection;
