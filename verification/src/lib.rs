//! Interactive selection of a wireless network.
//!
//! The library holds the verified core of a small terminal front-end over an
//! external network-management command: the session state machine, list
//! navigation, the parsing of the listing command's output, the
//! classification of the connect command's result, and the discipline of
//! suspending and resuming the terminal's raw input mode in matched pairs.

pub mod client;
pub mod errors;
pub mod parse;
pub mod render;
pub mod selection;
pub mod state;
pub mod term;
