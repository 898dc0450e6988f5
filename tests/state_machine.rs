use word_search::common::{Input, Key};
use word_search::state::State;

fn input(clicked: bool, keys: Vec<Key>) -> Input {
    Input { clicked, keys }
}

#[test]
fn default_state_is_init() {
    assert_eq!(State::default(), State::Init);
}

#[test]
fn quiet_frame_then_click_starts_search() {
    let mut state = State::Init;
    state.update(input(false, vec![]));
    assert_eq!(state, State::Init);
    state.update(input(true, vec![]));
    assert_eq!(state, State::Searching);
}

#[test]
fn enter_while_searching_returns_to_init() {
    let mut state = State::Searching;
    state.update(input(false, vec![Key::Enter]));
    assert_eq!(state, State::Init);
}

#[test]
fn enter_on_init_starts_search() {
    let mut state = State::Init;
    state.update(input(false, vec![Key::Other(65), Key::Enter]));
    assert_eq!(state, State::Searching);
}

#[test]
fn click_while_searching_returns_to_init() {
    let mut state = State::Searching;
    state.update(input(true, vec![]));
    assert_eq!(state, State::Init);
}

#[test]
fn click_on_init_starts_search_whatever_other_keys() {
    let mut state = State::Init;
    state.update(input(true, vec![Key::Other(32), Key::Other(81)]));
    assert_eq!(state, State::Searching);
}

#[test]
fn quiet_frames_keep_each_state() {
    for start in [State::Init, State::Searching] {
        let mut state = start;
        for keys in [vec![], vec![Key::Other(65)], vec![Key::Other(256), Key::Other(32)]] {
            state.update(input(false, keys));
            assert_eq!(state, start);
        }
    }
}

#[test]
fn triggered_reports_click_or_enter() {
    assert!(!input(false, vec![]).triggered());
    assert!(!input(false, vec![Key::Other(257)]).triggered());
    assert!(input(true, vec![]).triggered());
    assert!(input(false, vec![Key::Other(1), Key::Enter]).triggered());
}
