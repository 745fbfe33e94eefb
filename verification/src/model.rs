//! The state of the reader and its mathematical view.

use vstd::prelude::*;

verus! {

/// The coarse lifecycle stage of the event loop.
#[derive(Clone, Copy, Debug, PartialEq, Eq, Structural)]
pub enum RunningState {
    Running,
    Paused,
    Done,
}

impl Default for RunningState {
    fn default() -> (state: Self)
        ensures
            state == RunningState::Running,
    {
        RunningState::Running
    }
}

/// The complete state of the reader at one instant.
///
/// The displayed line is `leading`, then `highlight`, then `follow_word`.
#[derive(Debug, PartialEq, Eq)]
pub struct Model {
    /// The text in front of the highlighted segment.
    pub leading: String,
    /// The emphasised segment.
    pub highlight: String,
    /// The text behind the highlighted segment.
    pub follow_word: String,
    /// Whether auto-advance is suspended.
    pub paused: bool,
    /// The lifecycle stage; `Done` is terminal.
    pub running_state: RunningState,
}

/// What a [`Model`] is, with its texts as sequences of characters.
pub struct ModelView {
    pub leading: Seq<char>,
    pub highlight: Seq<char>,
    pub follow_word: Seq<char>,
    pub paused: bool,
    pub running_state: RunningState,
}

impl View for Model {
    type V = ModelView;

    open spec fn view(&self) -> ModelView {
        ModelView {
            leading: self.leading@,
            highlight: self.highlight@,
            follow_word: self.follow_word@,
            paused: self.paused,
            running_state: self.running_state,
        }
    }
}

impl ModelView {
    /// The state in which every session starts: the line `main` with its
    /// third letter highlighted, not paused, running.
    pub open spec fn initial() -> ModelView {
        ModelView {
            leading: "ma"@,
            highlight: "i"@,
            follow_word: "n"@,
            paused: false,
            running_state: RunningState::Running,
        }
    }

    /// The characters of the displayed line, without their styles.
    pub open spec fn line(self) -> Seq<char> {
        self.leading + self.highlight + self.follow_word
    }
}

impl Default for Model {
    /// Builds the initial state.
    fn default() -> (model: Self)
        ensures
            model@ == ModelView::initial(),
    {
        Model {
            leading: "ma".to_owned(),
            highlight: "i".to_owned(),
            follow_word: "n".to_owned(),
            paused: false,
            running_state: RunningState::Running,
        }
    }
}

} // verus!
