//! The intents that drive a state transition.

use vstd::prelude::*;

verus! {

/// A discrete unit of intent. A message is never stored: it is handed to
/// [`crate::update::update`] and dropped.
#[derive(Clone, Copy, Debug, PartialEq, Eq, Structural)]
pub enum Message {
    /// Show the next text and resume auto-advance.
    Read,
    /// Toggle the pause.
    Pause,
    /// End the session.
    Quit,
}

} // verus!
