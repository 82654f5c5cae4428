//! Core logic of a small chat bot: a command router that maps textual
//! commands to reply actions, and a callback correlator that validates
//! the payloads carried by inline keyboard buttons.
//!
//! Transport (polling, sending, acknowledging) is left to the surrounding
//! application; the library works on plain strings and returns plain
//! decisions.

use vstd::prelude::*;

pub mod callback;
pub mod command;
pub mod ident;
pub mod router;
pub mod text;

verus! {

/// The delimiter that separates the choice from the interaction
/// identifier inside a callback payload.
pub const DELIMITER: char = '_';

/// Length of a freshly minted interaction identifier.
pub const TOKEN_LEN: usize = 24;

} // verus!
