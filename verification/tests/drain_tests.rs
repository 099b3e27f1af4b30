use parser_proxy_ws::drain::DRAIN_SPIN_THRESHOLD;
use parser_proxy_ws::drain::DrainAction;
use parser_proxy_ws::drain::DrainInput;
use parser_proxy_ws::drain::DrainState;

fn broadcasts_of(state: &mut DrainState, inputs: Vec<DrainInput>) -> Vec<String> {
    let mut texts = Vec::new();
    for input in inputs {
        if let DrainAction::Broadcast(text) = state.step(input) {
            texts.push(text);
        }
    }
    texts
}

#[test]
fn encoded_record_is_broadcast() {
    let mut state = DrainState::new(1000);
    match state.step(DrainInput::Encoded(String::from("{\"e\":1}"))) {
        DrainAction::Broadcast(text) => assert_eq!(text, "{\"e\":1}"),
        _ => panic!("an encoded record must be broadcast"),
    }
}

#[test]
fn failed_serialization_discards_one_record() {
    let mut state = DrainState::new(1000);
    assert!(matches!(state.step(DrainInput::EncodeFailed), DrainAction::Discard));
}

#[test]
fn empty_polls_spin_until_threshold_then_yield() {
    let mut state = DrainState::new(3);
    assert!(matches!(state.step(DrainInput::QueueEmpty), DrainAction::Spin));
    assert!(matches!(state.step(DrainInput::QueueEmpty), DrainAction::Spin));
    assert!(matches!(state.step(DrainInput::QueueEmpty), DrainAction::Yield));
    // the yield starts the streak over
    assert!(matches!(state.step(DrainInput::QueueEmpty), DrainAction::Spin));
}

#[test]
fn popped_record_resets_the_empty_streak() {
    let mut state = DrainState::new(3);
    assert!(matches!(state.step(DrainInput::QueueEmpty), DrainAction::Spin));
    assert!(matches!(state.step(DrainInput::QueueEmpty), DrainAction::Spin));
    assert!(matches!(
        state.step(DrainInput::Encoded(String::from("{\"e\":1}"))),
        DrainAction::Broadcast(_)
    ));
    // the streak starts over: two more spins before the yield
    assert!(matches!(state.step(DrainInput::QueueEmpty), DrainAction::Spin));
    assert!(matches!(state.step(DrainInput::QueueEmpty), DrainAction::Spin));
    assert!(matches!(state.step(DrainInput::QueueEmpty), DrainAction::Yield));
}

#[test]
fn threshold_one_always_yields_on_empty() {
    let mut state = DrainState::new(1);
    assert!(matches!(state.step(DrainInput::QueueEmpty), DrainAction::Yield));
    assert!(matches!(state.step(DrainInput::QueueEmpty), DrainAction::Yield));
}

#[test]
fn relay_default_threshold_is_a_thousand() {
    assert_eq!(DRAIN_SPIN_THRESHOLD, 1000);
}

#[test]
fn broadcasts_keep_push_order_and_completeness() {
    let mut state = DrainState::new(2);
    let inputs = vec![
        DrainInput::Encoded(String::from("a")),
        DrainInput::QueueEmpty,
        DrainInput::Encoded(String::from("b")),
        DrainInput::QueueEmpty,
        DrainInput::QueueEmpty,
        DrainInput::Encoded(String::from("c")),
    ];
    let texts = broadcasts_of(&mut state, inputs);
    assert_eq!(texts, vec![String::from("a"), String::from("b"), String::from("c")]);
}

#[test]
fn encode_failure_loses_exactly_that_record() {
    let mut state = DrainState::new(1000);
    let inputs = vec![
        DrainInput::Encoded(String::from("a")),
        DrainInput::EncodeFailed,
        DrainInput::Encoded(String::from("b")),
        DrainInput::Encoded(String::from("c")),
    ];
    let texts = broadcasts_of(&mut state, inputs);
    assert_eq!(texts, vec![String::from("a"), String::from("b"), String::from("c")]);
}
