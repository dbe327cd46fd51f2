//! The core of a three-column terminal file manager: panels, their versioned
//! slots, the redraw tracker, the input modes and the manager that ties them
//! together, written as a state machine that performs no I/O of its own.

pub mod directory;
pub mod element;
pub mod event;
pub mod fileinfo;
pub mod input;
pub mod laws;
pub mod layout;
pub mod manager;
pub mod mode;
pub mod navigate;
pub mod panel;
pub mod path;
pub mod preview;
pub mod redraw;
pub mod render;
pub mod session;
pub mod slot;
pub mod text;
pub mod turn;
