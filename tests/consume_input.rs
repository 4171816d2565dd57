use enhanced_input::context::ContextInstance;
use enhanced_input::input::InputReader;
use enhanced_input::schedule::tick;
use enhanced_input::state::ActionState;

/// A source read by both the consuming and the passthrough actions.
const KEY: usize = 0;

const FRAME: u64 = 16_000_000;

fn consume_only() -> ContextInstance {
    let mut ctx = ContextInstance::new();
    ctx.bind(vec![KEY], true, vec![]);
    ctx
}

fn passthrough_only() -> ContextInstance {
    let mut ctx = ContextInstance::new();
    ctx.bind(vec![KEY], false, vec![]);
    ctx
}

/// Runs a frame with nothing pressed, then one with `KEY` pressed.
fn press_key(contexts: &mut Vec<ContextInstance>) {
    let mut reader = InputReader::new(vec![false, false]);
    tick(contexts, &mut reader, FRAME);
    reader.set_pressed(KEY, true);
    tick(contexts, &mut reader, FRAME);
}

#[test]
fn consume() {
    let mut contexts = vec![consume_only(), consume_only()];
    press_key(&mut contexts);

    let action = contexts[0].action(0).unwrap();
    assert_eq!(action.state(), ActionState::Fired);

    let action = contexts[1].action(0).unwrap();
    assert_eq!(
        action.state(),
        ActionState::Idle,
        "only first entity with the same mappings that consume inputs should receive them"
    );
}

#[test]
fn passthrough() {
    let mut contexts = vec![passthrough_only(), passthrough_only()];
    press_key(&mut contexts);

    let action = contexts[0].action(0).unwrap();
    assert_eq!(action.state(), ActionState::Fired);

    let action = contexts[1].action(0).unwrap();
    assert_eq!(
        action.state(),
        ActionState::Fired,
        "actions that doesn't consume inputs should still fire"
    );
}

#[test]
fn consume_then_passthrough() {
    let mut ctx = ContextInstance::new();
    let consume = ctx.bind(vec![KEY], true, vec![]);
    let passthrough = ctx.bind(vec![KEY], false, vec![]);
    let mut contexts = vec![ctx];
    press_key(&mut contexts);

    let action = contexts[0].action(consume).unwrap();
    assert_eq!(action.state(), ActionState::Fired);

    let action = contexts[0].action(passthrough).unwrap();
    assert_eq!(action.state(), ActionState::Idle, "action should be consumed");
}

#[test]
fn passthrough_then_consume() {
    let mut ctx = ContextInstance::new();
    let passthrough = ctx.bind(vec![KEY], false, vec![]);
    let consume = ctx.bind(vec![KEY], true, vec![]);
    let mut contexts = vec![ctx];
    press_key(&mut contexts);

    let action = contexts[0].action(consume).unwrap();
    assert_eq!(action.state(), ActionState::Fired);

    let action = contexts[0].action(passthrough).unwrap();
    assert_eq!(action.state(), ActionState::Fired);
}

#[test]
fn consumed_sources_come_back_next_tick() {
    let mut contexts = vec![consume_only(), consume_only()];
    let mut reader = InputReader::new(vec![true, false]);
    tick(&mut contexts, &mut reader, FRAME);
    assert!(!reader.is_available(KEY));
    assert_eq!(contexts[1].action(0).unwrap().state(), ActionState::Idle);
    tick(&mut contexts, &mut reader, FRAME);
    assert_eq!(contexts[0].action(0).unwrap().state(), ActionState::Fired);
    assert_eq!(contexts[1].action(0).unwrap().state(), ActionState::Idle);
    reader.reset_consumed();
    assert!(reader.is_available(KEY));
}

#[test]
fn consuming_takes_only_pressed_sources() {
    let mut reader = InputReader::new(vec![true, false, true]);
    reader.consume_pressed(&vec![0, 1, 7]);
    assert!(!reader.is_available(0));
    assert!(!reader.is_available(1));
    assert!(reader.is_available(2));
    assert_eq!(reader.consumed, vec![true, false, false]);
    assert!(reader.any_available(&vec![0, 2]));
    assert!(!reader.any_available(&vec![0, 1, 9]));
}

#[test]
fn zero_length_tick_grows_no_timer() {
    let mut contexts = vec![passthrough_only()];
    let mut reader = InputReader::new(vec![true]);
    tick(&mut contexts, &mut reader, FRAME);
    tick(&mut contexts, &mut reader, FRAME);
    let before = contexts[0].action(0).unwrap();
    assert_eq!(before.elapsed_nanos, FRAME);
    tick(&mut contexts, &mut reader, 0);
    let after = contexts[0].action(0).unwrap();
    assert_eq!(after.elapsed_nanos, before.elapsed_nanos);
    assert_eq!(after.fired_nanos, before.fired_nanos);
    tick(&mut contexts, &mut reader, 0);
    assert_eq!(contexts[0].action(0).unwrap(), after);
}
