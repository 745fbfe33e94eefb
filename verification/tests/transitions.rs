use tui_reader::message::Message;
use tui_reader::model::{Model, RunningState};
use tui_reader::update::{candidate_words, update, update_with};

fn model(paused: bool, running_state: RunningState) -> Model {
    Model {
        leading: String::from("ma"),
        highlight: String::from("i"),
        follow_word: String::from("n"),
        paused,
        running_state,
    }
}

fn all_states() -> Vec<(bool, RunningState)> {
    let mut states = Vec::new();
    for paused in [false, true] {
        for stage in [RunningState::Running, RunningState::Paused, RunningState::Done] {
            states.push((paused, stage));
        }
    }
    states
}

#[test]
fn default_model_is_the_initial_state() {
    let m = Model::default();
    assert_eq!(m.leading, "ma");
    assert_eq!(m.highlight, "i");
    assert_eq!(m.follow_word, "n");
    assert!(!m.paused);
    assert_eq!(m.running_state, RunningState::Running);
}

#[test]
fn default_running_state_is_running() {
    assert_eq!(RunningState::default(), RunningState::Running);
}

#[test]
fn candidate_words_are_the_four_texts() {
    assert_eq!(
        candidate_words(),
        vec!["HELLO", "Something", "Else", "were getting the hang"]
    );
}

#[test]
fn quit_leads_to_done_from_every_state() {
    for (paused, stage) in all_states() {
        let mut m = model(paused, stage);
        let next = update(&mut m, Message::Quit);
        assert_eq!(next, None);
        assert_eq!(m, model(paused, RunningState::Done));
    }
}

#[test]
fn pause_toggles_flag_and_sets_stage() {
    for (paused, stage) in all_states() {
        let mut m = model(paused, stage);
        let next = update(&mut m, Message::Pause);
        assert_eq!(next, None);
        let expected = if paused { RunningState::Running } else { RunningState::Paused };
        assert_eq!(m, model(!paused, expected));
    }
}

#[test]
fn pause_twice_restores_flag_and_stage() {
    for (paused, stage) in [(false, RunningState::Running), (true, RunningState::Paused)] {
        let mut m = model(paused, stage);
        update(&mut m, Message::Pause);
        update(&mut m, Message::Pause);
        assert_eq!(m, model(paused, stage));
    }
}

#[test]
fn pause_twice_from_done_leaves_the_stage_of_the_flag() {
    let mut m = model(false, RunningState::Done);
    update(&mut m, Message::Pause);
    update(&mut m, Message::Pause);
    assert_eq!(m, model(false, RunningState::Running));
}

#[test]
fn read_clears_pause_and_changes_leading_only() {
    for (paused, stage) in all_states() {
        let mut m = model(paused, stage);
        let next = update(&mut m, Message::Read);
        assert_eq!(next, None);
        assert!(!m.paused);
        assert_eq!(m.running_state, stage);
        assert_eq!(m.highlight, "i");
        assert_eq!(m.follow_word, "n");
        assert!(candidate_words().contains(&m.leading.as_str()));
    }
}

#[test]
fn read_selects_a_candidate_every_time() {
    let mut m = Model::default();
    for _ in 0..200 {
        update(&mut m, Message::Read);
        assert_ne!(m.leading, "ma");
        assert!(candidate_words().contains(&m.leading.as_str()));
    }
}

#[test]
fn update_with_read_takes_the_selected_text() {
    let mut m = model(true, RunningState::Paused);
    let next = update_with(&mut m, Message::Read, Some("Else"));
    assert_eq!(next, None);
    assert_eq!(
        m,
        Model {
            leading: String::from("Else"),
            highlight: String::from("i"),
            follow_word: String::from("n"),
            paused: false,
            running_state: RunningState::Paused,
        }
    );
}

#[test]
fn update_with_read_without_a_text_keeps_the_leading() {
    let mut m = model(true, RunningState::Running);
    let next = update_with(&mut m, Message::Read, None);
    assert_eq!(next, None);
    assert_eq!(m, model(false, RunningState::Running));
}

#[test]
fn update_with_ignores_the_text_for_pause_and_quit() {
    let mut m = model(false, RunningState::Running);
    assert_eq!(update_with(&mut m, Message::Pause, Some("Else")), None);
    assert_eq!(m, model(true, RunningState::Paused));
    assert_eq!(update_with(&mut m, Message::Quit, Some("Else")), None);
    assert_eq!(m, model(true, RunningState::Done));
}

#[test]
fn update_with_accepts_an_empty_text() {
    let mut m = model(false, RunningState::Running);
    update_with(&mut m, Message::Read, Some(""));
    assert_eq!(m.leading, "");
    assert_eq!(m.highlight, "i");
    assert_eq!(m.follow_word, "n");
}
