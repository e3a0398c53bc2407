use webview::state::first_outcome;
use webview::{PageState, Relay};

#[test]
fn verdicts_of_the_three_states() {
    assert_eq!(PageState::Load.outcome(), Some(true));
    assert_eq!(PageState::LoadError.outcome(), Some(false));
    assert_eq!(PageState::Other.outcome(), None);
}

#[test]
fn fresh_relay_is_pending() {
    assert!(Relay::new().is_pending());
}

#[test]
fn relay_sends_the_first_verdict_only() {
    let mut relay = Relay::new();
    assert_eq!(relay.on_state(PageState::Other), None);
    assert!(relay.is_pending());
    assert_eq!(relay.on_state(PageState::Load), Some(true));
    assert!(!relay.is_pending());
    assert_eq!(relay.on_state(PageState::LoadError), None);
    assert_eq!(relay.on_state(PageState::Load), None);
    assert_eq!(relay.on_state(PageState::Other), None);
    assert!(!relay.is_pending());
}

#[test]
fn relay_sends_a_failure_once() {
    let mut relay = Relay::new();
    assert_eq!(relay.on_state(PageState::LoadError), Some(false));
    assert_eq!(relay.on_state(PageState::LoadError), None);
}

#[test]
fn no_states_no_outcome() {
    assert_eq!(first_outcome(&[]), None);
}

#[test]
fn states_without_verdict_give_no_outcome() {
    assert_eq!(
        first_outcome(&[PageState::Other, PageState::Other, PageState::Other]),
        None
    );
}

#[test]
fn first_verdict_wins_over_later_ones() {
    assert_eq!(
        first_outcome(&[PageState::Load, PageState::LoadError]),
        Some(true)
    );
    assert_eq!(
        first_outcome(&[PageState::LoadError, PageState::Load]),
        Some(false)
    );
}

#[test]
fn leading_states_do_not_change_the_outcome() {
    let rest = [PageState::LoadError, PageState::Load, PageState::Other];
    let mut all = vec![PageState::Other; 5];
    all.extend_from_slice(&rest);
    assert_eq!(first_outcome(&all), first_outcome(&rest));
    assert_eq!(first_outcome(&all), Some(false));
}

#[test]
fn whole_stream_agrees_with_stepping() {
    let states = [
        PageState::Other,
        PageState::Other,
        PageState::Load,
        PageState::Other,
        PageState::LoadError,
    ];
    let mut relay = Relay::new();
    let mut sent = Vec::new();
    for state in states {
        if let Some(loaded) = relay.on_state(state) {
            sent.push(loaded);
        }
    }
    assert_eq!(sent, vec![true]);
    assert_eq!(first_outcome(&states), Some(true));
}
