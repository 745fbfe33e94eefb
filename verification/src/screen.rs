//! The state of the application around the reading loop: what the user has
//! typed, and the mode of each of its parts.

use vstd::prelude::*;

verus! {

/// A text under reading, with the place that the reading has reached.
#[derive(Debug)]
#[allow(dead_code)]
pub struct Reader {
    input: String,
    content: String,
    cursor: i32,
    length: i32,
}

/// The mode of one part of the application.
#[derive(Clone, Copy, Debug, PartialEq, Eq, Structural)]
pub enum Mode {
    Moving,
    Pause(bool),
    Start,
    Stop,
}

/// The screen that is shown.
#[derive(Clone, Copy, Debug, PartialEq, Eq, Structural)]
pub enum CurrentScreen {
    Main,
    Pause,
    Menu,
}

/// The application's state outside the reading loop.
#[derive(Debug)]
pub struct App {
    /// The keys typed so far.
    pub key_input: String,
    /// The mode of the reading, once it has one.
    pub currently_reading: Option<Mode>,
    /// The text entered so far.
    pub input: String,
    /// The mode of the screen, once it has one.
    pub current_screen: Option<Mode>,
    /// The mode of the pause, once it has one.
    pub currently_paused: Option<Mode>,
}

impl App {
    /// A fresh application: nothing typed, nothing entered, no mode set.
    pub fn new() -> (app: App)
        ensures
            app.key_input@ == Seq::<char>::empty(),
            app.input@ == Seq::<char>::empty(),
            app.currently_reading is None,
            app.current_screen is None,
            app.currently_paused is None,
    {
        App {
            key_input: String::new(),
            currently_reading: None,
            input: String::new(),
            current_screen: None,
            currently_paused: None,
        }
    }
}

} // verus!
