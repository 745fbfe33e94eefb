//! The transition function of the reader: a small state machine over
//! [`Model`], driven by [`Message`].

use rand::seq::SliceRandom;
use vstd::prelude::*;
use crate::message::Message;
use crate::model::{Model, ModelView, RunningState};

verus! {

/// The texts among which a `Read` selects the next leading text.
pub open spec fn candidates() -> Seq<Seq<char>> {
    seq!["HELLO"@, "Something"@, "Else"@, "were getting the hang"@]
}

/// Whether `word` is one of the [`candidates`].
pub open spec fn is_candidate(word: Seq<char>) -> bool {
    exists|i: int| 0 <= i < candidates().len() && #[trigger] candidates()[i] == word
}

/// The lifecycle stage that a toggle of the pause leads to.
pub open spec fn state_for_pause(paused: bool) -> RunningState {
    if paused {
        RunningState::Paused
    } else {
        RunningState::Running
    }
}

/// The state that follows `m` on `msg`, where `picked` is the text that was
/// selected for a `Read` (`None`: nothing was selected, the text stays).
///
/// * `Pause` toggles the pause flag and sets the stage to `Paused` or
///   `Running` accordingly.
/// * `Read` clears the pause flag and replaces the leading text only.
/// * `Quit` sets the stage to `Done`.
pub open spec fn next_model(m: ModelView, msg: Message, picked: Option<Seq<char>>) -> ModelView {
    match msg {
        Message::Pause => ModelView {
            paused: !m.paused,
            running_state: state_for_pause(!m.paused),
            ..m
        },
        Message::Read => ModelView {
            paused: false,
            leading: match picked {
                Some(word) => word,
                None => m.leading,
            },
            ..m
        },
        Message::Quit => ModelView { running_state: RunningState::Done, ..m },
    }
}

/// The candidate texts, in the order of [`candidates`].
pub fn candidate_words() -> (words: Vec<&'static str>)
    ensures
        words@.len() == candidates().len(),
        forall|i: int| 0 <= i < words@.len() ==> (#[trigger] words@[i])@ == candidates()[i],
{
    vec!["HELLO", "Something", "Else", "were getting the hang"]
}

/// Draws one of `words` at random.
///
/// Calls `rand::seq::SliceRandom::choose` on the slice, with the generator
/// that `rand::thread_rng` hands out. Believed of it, and not proved: the
/// result is `None` exactly when the slice is empty, and otherwise one of the
/// slice's elements. Which one is left open, so two calls may differ.
#[verifier::external_body]
fn choose_word(words: &[&'static str]) -> (picked: Option<&'static str>)
    ensures
        picked is None <==> words@.len() == 0,
        picked is Some ==> exists|i: int|
            0 <= i < words@.len() && (#[trigger] words@[i])@ == picked.unwrap()@,
{
    let mut rng = rand::thread_rng();
    words.choose(&mut rng).copied()
}

/// Applies `msg` to the model, with `picked` as the text that a `Read`
/// selected. Never yields a follow-up message.
pub fn update_with(model: &mut Model, msg: Message, picked: Option<&str>) -> (next: Option<Message>)
    ensures
        next is None,
        final(model)@ == next_model(
            old(model)@,
            msg,
            match picked {
                Some(word) => Some(word@),
                None => None,
            },
        ),
{
    match msg {
        Message::Pause => {
            model.paused = !model.paused;
            model.running_state = if model.paused {
                RunningState::Paused
            } else {
                RunningState::Running
            };
        },
        Message::Read => {
            model.paused = false;
            if let Some(word) = picked {
                model.leading = word.to_owned();
            }
        },
        Message::Quit => {
            model.running_state = RunningState::Done;
        },
    }
    None
}

/// Applies `msg` to the model; a `Read` selects the next leading text at
/// random among the [`candidates`]. Never yields a follow-up message.
///
/// The new state is [`next_model`] of the old one, with the leading text that
/// the model ends with as the selected text.
pub fn update(model: &mut Model, msg: Message) -> (next: Option<Message>)
    ensures
        next is None,
        final(model)@ == next_model(old(model)@, msg, Some(final(model)@.leading)),
        msg == Message::Read ==> is_candidate(final(model)@.leading),
{
    let picked = match msg {
        Message::Read => {
            let words = candidate_words();
            choose_word(words.as_slice())
        },
        _ => None,
    };
    update_with(model, msg, picked)
}

/// `Quit` leads to `Done` from every state, whatever the pause flag and the
/// stage were, and changes nothing else.
pub proof fn lemma_quit_is_terminal(m: ModelView, picked: Option<Seq<char>>)
    ensures
        next_model(m, Message::Quit, picked).running_state == RunningState::Done,
        next_model(m, Message::Quit, picked) == (ModelView {
            running_state: RunningState::Done,
            ..m
        }),
{
}

/// `Pause` flips the pause flag; the stage becomes `Paused` where the flag
/// is then set and `Running` where it is not. The texts stay.
pub proof fn lemma_pause_toggles(m: ModelView, picked: Option<Seq<char>>)
    ensures
        next_model(m, Message::Pause, picked).paused == !m.paused,
        next_model(m, Message::Pause, picked).paused ==> next_model(
            m,
            Message::Pause,
            picked,
        ).running_state == RunningState::Paused,
        !next_model(m, Message::Pause, picked).paused ==> next_model(
            m,
            Message::Pause,
            picked,
        ).running_state == RunningState::Running,
        next_model(m, Message::Pause, picked).line() == m.line(),
{
}

/// Two `Pause` messages in a row restore the pause flag of every state, and
/// leave the stage at the one that belongs to that flag.
pub proof fn lemma_pause_twice_keeps_flag(
    m: ModelView,
    first: Option<Seq<char>>,
    second: Option<Seq<char>>,
)
    ensures
        next_model(next_model(m, Message::Pause, first), Message::Pause, second).paused
            == m.paused,
        next_model(next_model(m, Message::Pause, first), Message::Pause, second).running_state
            == state_for_pause(m.paused),
{
}

/// `Pause` is an involution on the states whose stage belongs to their pause
/// flag: two in a row give the state back, flag and stage included.
pub proof fn lemma_pause_is_involution(
    m: ModelView,
    first: Option<Seq<char>>,
    second: Option<Seq<char>>,
)
    requires
        m.running_state == state_for_pause(m.paused),
    ensures
        next_model(next_model(m, Message::Pause, first), Message::Pause, second) == m,
{
}

/// `Read` clears the pause flag and keeps the stage, the highlighted text and
/// the text behind it: only the leading text may change, and it becomes the
/// selected text where there is one.
pub proof fn lemma_read_keeps_all_but_leading(m: ModelView, picked: Option<Seq<char>>)
    ensures
        next_model(m, Message::Read, picked).paused == false,
        next_model(m, Message::Read, picked).running_state == m.running_state,
        next_model(m, Message::Read, picked).highlight == m.highlight,
        next_model(m, Message::Read, picked).follow_word == m.follow_word,
        picked is Some ==> next_model(m, Message::Read, picked).leading == picked.unwrap(),
        picked is None ==> next_model(m, Message::Read, picked) == (ModelView {
            paused: false,
            ..m
        }),
{
}

} // verus!
