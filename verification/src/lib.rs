//! A model–update–view core for a terminal reader.
//!
//! The crate holds the state of the reader ([`model::Model`]), the intents that
//! drive it ([`message::Message`]), the transition function
//! ([`update::update`]), the rendering of a state into one styled line
//! ([`view::view`]), the key map ([`input::handle_key`]) and the decisions of
//! one iteration of the event loop ([`cycle::tick`]). Drawing and polling the
//! terminal are left to the program that embeds the crate; [`screen`] holds
//! the state that such a program keeps around the loop.

pub mod cycle;
pub mod input;
pub mod message;
pub mod model;
pub mod screen;
pub mod update;
pub mod view;
