//! The decisions of the event loop. The embedding program draws the frame
//! and polls the terminal; what happens in between is decided here.

use vstd::prelude::*;
use crate::input::{handle_event, message_for_poll, Event};
use crate::message::Message;
use crate::model::{Model, ModelView, RunningState};
use crate::update::{is_candidate, next_model, update};

verus! {

/// The longest that one poll of the terminal waits for an event, in
/// milliseconds. It is the rate at which the reader advances by itself.
pub const TICK_MILLIS: u64 = 250;

/// What the loop does after an iteration.
#[derive(Clone, Copy, Debug, PartialEq, Eq, Structural)]
pub enum Action {
    /// Draw the new state and poll again.
    Render,
    /// Leave the loop without another draw.
    Exit,
}

/// Whether the loop reads on by itself from `m`: it does unless the reader
/// is paused or the session is over.
pub open spec fn advances(m: ModelView) -> bool {
    !m.paused && m.running_state != RunningState::Done
}

/// The state after the message of the poll, if there was one, has been
/// applied to `m`.
pub open spec fn after_poll(m: ModelView, polled: Option<Event>, word: Seq<char>) -> ModelView {
    match message_for_poll(polled) {
        Some(msg) => next_model(m, msg, Some(word)),
        None => m,
    }
}

/// The state after one iteration that started in `m` with the outcome
/// `polled` of the poll, where `word` is the text that the iteration's last
/// `Read` selected.
///
/// A finished session stays as it is. Otherwise the message of the poll is
/// applied, and then one `Read` more where the state [`advances`]. A `Read`
/// from the poll leaves a state that advances, so the text that it selected
/// is always replaced by that of the second.
pub open spec fn after_tick(m: ModelView, polled: Option<Event>, word: Seq<char>) -> ModelView {
    if m.running_state == RunningState::Done {
        m
    } else if advances(after_poll(m, polled, word)) {
        next_model(after_poll(m, polled, word), Message::Read, Some(word))
    } else {
        after_poll(m, polled, word)
    }
}

/// Whether an iteration that starts in `m` with the outcome `polled` selects
/// a text: it does where the session is not over and the state after the
/// poll's message [`advances`].
pub open spec fn selects_text(m: ModelView, polled: Option<Event>) -> bool {
    m.running_state != RunningState::Done && advances(after_poll(m, polled, m.leading))
}

/// Applies `first` and then every follow-up message that an update yields,
/// until one yields none.
pub fn drain(model: &mut Model, first: Message)
    ensures
        final(model)@ == next_model(old(model)@, first, Some(final(model)@.leading)),
        first == Message::Read ==> is_candidate(final(model)@.leading),
{
    let mut pending: Option<Message> = Some(first);
    while pending.is_some()
        invariant
            pending is Some ==> pending == Some(first) && model@ == old(model)@,
            pending is None ==> model@ == next_model(old(model)@, first, Some(model@.leading)),
            pending is None && first == Message::Read ==> is_candidate(model@.leading),
        decreases (if pending is Some { 1int } else { 0int }),
    {
        let msg = pending.unwrap();
        pending = update(model, msg);
    }
}

/// Runs the part of one iteration that lies between the poll and the next
/// draw: translates the outcome of the poll, drains the updates it starts,
/// and reads on where the reader is neither paused nor done.
///
/// The loop is over exactly when the result is `Exit`. Where the iteration
/// selects a text, the leading text is then one of the candidates.
pub fn tick(model: &mut Model, polled: Option<Event>) -> (action: Action)
    ensures
        final(model)@ == after_tick(old(model)@, polled, final(model)@.leading),
        selects_text(old(model)@, polled) ==> is_candidate(final(model)@.leading),
        action == Action::Exit <==> final(model).running_state == RunningState::Done,
{
    if model.running_state == RunningState::Done {
        return Action::Exit;
    }
    if let Some(msg) = handle_event(polled) {
        drain(model, msg);
    }
    if !model.paused && model.running_state != RunningState::Done {
        update(model, Message::Read);
    }
    if model.running_state == RunningState::Done {
        Action::Exit
    } else {
        Action::Render
    }
}

/// A finished session is terminal: no iteration changes it, whatever was
/// polled.
pub proof fn lemma_done_is_terminal(m: ModelView, polled: Option<Event>, word: Seq<char>)
    requires
        m.running_state == RunningState::Done,
    ensures
        after_tick(m, polled, word) == m,
{
}

/// A paused reader does not read on by itself: an iteration in which no key
/// was pressed leaves it as it is.
pub proof fn lemma_paused_reader_waits(m: ModelView, polled: Option<Event>, word: Seq<char>)
    requires
        m.paused,
        message_for_poll(polled) is None,
    ensures
        !selects_text(m, polled),
        after_tick(m, polled, word) == m,
{
}

/// A reader that is neither paused nor done reads on by itself: an
/// iteration in which no key was pressed replaces the leading text by the
/// selected one, and nothing else.
pub proof fn lemma_idle_iteration_advances(m: ModelView, polled: Option<Event>, word: Seq<char>)
    requires
        advances(m),
        message_for_poll(polled) is None,
    ensures
        selects_text(m, polled),
        after_tick(m, polled, word) == (ModelView { leading: word, ..m }),
{
}

/// A `Quit` ends a running session within the iteration that polled it, and
/// no update follows it: the state is the old one but for the stage.
pub proof fn lemma_quit_ends_the_iteration(m: ModelView, polled: Option<Event>, word: Seq<char>)
    requires
        m.running_state != RunningState::Done,
        message_for_poll(polled) == Some(Message::Quit),
    ensures
        !selects_text(m, polled),
        after_tick(m, polled, word) == (ModelView { running_state: RunningState::Done, ..m }),
{
}

/// No iteration changes the highlighted text or the text behind it.
pub proof fn lemma_iteration_keeps_highlight_and_follow(
    m: ModelView,
    polled: Option<Event>,
    word: Seq<char>,
)
    ensures
        after_tick(m, polled, word).highlight == m.highlight,
        after_tick(m, polled, word).follow_word == m.follow_word,
        !selects_text(m, polled) ==> after_tick(m, polled, word).leading == m.leading,
        selects_text(m, polled) ==> after_tick(m, polled, word).leading == word,
{
}

} // verus!
