use enhanced_input::action::Action;
use enhanced_input::condition::InputCondition;
use enhanced_input::context::ContextInstance;
use enhanced_input::input::InputReader;
use enhanced_input::schedule::tick;
use enhanced_input::state::ActionState;

const RELEASE_KEY: usize = 0;
const EXPLICIT_KEY: usize = 1;
const BLOCKER_KEY: usize = 3;
const EVENTS_BLOCKER_KEY: usize = 4;

const RELEASE_ACTION: usize = 0;
const EXPLICIT: usize = 1;
const IMPLICIT: usize = 2;
const BLOCKER: usize = 3;
const EVENTS_BLOCKER: usize = 4;

const FRAME: u64 = 16_000_000;

struct App {
    contexts: Vec<ContextInstance>,
    reader: InputReader,
}

impl App {
    fn new() -> App {
        let mut ctx = ContextInstance::new();
        ctx.bind(vec![RELEASE_KEY], false, vec![InputCondition::release()]);
        ctx.bind(vec![EXPLICIT_KEY], false, vec![InputCondition::press()]);
        ctx.bind(vec![], false, vec![InputCondition::chord(RELEASE_ACTION)]);
        ctx.bind(vec![BLOCKER_KEY], false, vec![InputCondition::block_by(RELEASE_ACTION)]);
        ctx.bind(
            vec![EVENTS_BLOCKER_KEY],
            false,
            vec![InputCondition::block_events_by(RELEASE_ACTION)],
        );
        App { contexts: vec![ctx], reader: InputReader::new(vec![false; 5]) }
    }

    fn update(&mut self) {
        tick(&mut self.contexts, &mut self.reader, FRAME);
    }

    fn action(&self, id: usize) -> Action {
        self.contexts[0].action(id).unwrap()
    }
}

#[test]
fn explicit() {
    let mut app = App::new();
    app.update();

    let action = app.action(EXPLICIT);
    assert_eq!(action.value(), false);
    assert_eq!(action.state(), ActionState::Idle);

    app.reader.set_pressed(EXPLICIT_KEY, true);
    app.update();

    let action = app.action(EXPLICIT);
    assert_eq!(action.value(), true);
    assert_eq!(action.state(), ActionState::Fired);

    app.reader.set_pressed(EXPLICIT_KEY, false);
    app.update();

    let action = app.action(EXPLICIT);
    assert_eq!(action.value(), false);
    assert_eq!(action.state(), ActionState::Idle);
}

#[test]
fn implicit() {
    let mut app = App::new();
    app.update();

    let action = app.action(RELEASE_ACTION);
    assert_eq!(action.value(), false);
    assert_eq!(action.state(), ActionState::Idle);

    let action = app.action(IMPLICIT);
    assert_eq!(action.value(), false);
    assert_eq!(action.state(), ActionState::Idle);

    app.reader.set_pressed(RELEASE_KEY, true);
    app.update();

    let action = app.action(RELEASE_ACTION);
    assert_eq!(action.value(), true);
    assert_eq!(action.state(), ActionState::Ongoing);

    let action = app.action(IMPLICIT);
    assert_eq!(action.value(), false);
    assert_eq!(action.state(), ActionState::Ongoing);

    app.reader.set_pressed(RELEASE_KEY, false);
    app.update();

    let action = app.action(RELEASE_ACTION);
    assert_eq!(action.value(), false);
    assert_eq!(action.state(), ActionState::Fired);

    let action = app.action(IMPLICIT);
    assert_eq!(action.value(), false);
    assert_eq!(action.state(), ActionState::Fired);

    app.update();

    let action = app.action(RELEASE_ACTION);
    assert_eq!(action.value(), false);
    assert_eq!(action.state(), ActionState::Idle);

    let action = app.action(IMPLICIT);
    assert_eq!(action.value(), false);
    assert_eq!(action.state(), ActionState::Idle);
}

/// A full blocker keeps its action idle while the blocking action is active
/// at all, `Ongoing` included.
#[test]
fn blocker() {
    let mut app = App::new();
    app.update();

    let action = app.action(RELEASE_ACTION);
    assert_eq!(action.value(), false);
    assert_eq!(action.state(), ActionState::Idle);

    let action = app.action(BLOCKER);
    assert_eq!(action.value(), false);
    assert_eq!(action.state(), ActionState::Idle);

    app.reader.set_pressed(RELEASE_KEY, true);
    app.reader.set_pressed(BLOCKER_KEY, true);
    app.update();

    let action = app.action(RELEASE_ACTION);
    assert_eq!(action.value(), true);
    assert_eq!(action.state(), ActionState::Ongoing);

    let action = app.action(BLOCKER);
    assert_eq!(action.value(), true);
    assert_eq!(action.state(), ActionState::Idle);

    app.reader.set_pressed(RELEASE_KEY, false);
    app.update();

    let action = app.action(RELEASE_ACTION);
    assert_eq!(action.value(), false);
    assert_eq!(action.state(), ActionState::Fired);

    let action = app.action(BLOCKER);
    assert_eq!(action.value(), true);
    assert_eq!(action.state(), ActionState::Idle);

    app.update();

    let action = app.action(RELEASE_ACTION);
    assert_eq!(action.value(), false);
    assert_eq!(action.state(), ActionState::Idle);

    let action = app.action(BLOCKER);
    assert_eq!(action.value(), true);
    assert_eq!(action.state(), ActionState::Fired);
}

#[test]
fn events_blocker() {
    let mut app = App::new();
    app.update();

    let action = app.action(RELEASE_ACTION);
    assert_eq!(action.value(), false);
    assert_eq!(action.state(), ActionState::Idle);

    let action = app.action(EVENTS_BLOCKER);
    assert_eq!(action.value(), false);
    assert_eq!(action.state(), ActionState::Idle);

    app.reader.set_pressed(RELEASE_KEY, true);
    app.reader.set_pressed(EVENTS_BLOCKER_KEY, true);
    app.update();

    let action = app.action(RELEASE_ACTION);
    assert_eq!(action.value(), true);
    assert_eq!(action.state(), ActionState::Ongoing);

    let action = app.action(EVENTS_BLOCKER);
    assert_eq!(action.value(), true);
    assert_eq!(action.state(), ActionState::Fired);
    assert!(!action.trigger_events().is_empty());

    app.reader.set_pressed(RELEASE_KEY, false);
    app.update();

    let action = app.action(RELEASE_ACTION);
    assert_eq!(action.value(), false);
    assert_eq!(action.state(), ActionState::Fired);

    let action = app.action(EVENTS_BLOCKER);
    assert_eq!(action.value(), true);
    assert_eq!(action.state(), ActionState::Fired);
    assert!(action.trigger_events().is_empty(), "event for the blocked action shouldn't trigger");
    assert_eq!(action.elapsed_nanos, FRAME);
    assert_eq!(action.fired_nanos, FRAME);

    app.update();

    let action = app.action(RELEASE_ACTION);
    assert_eq!(action.value(), false);
    assert_eq!(action.state(), ActionState::Idle);

    let action = app.action(EVENTS_BLOCKER);
    assert_eq!(action.value(), true);
    assert_eq!(action.state(), ActionState::Fired);
    assert!(!action.trigger_events().is_empty());
}

#[test]
fn unknown_action_is_reported() {
    let app = App::new();
    assert!(app.contexts[0].action(5).is_none());
    assert!(app.contexts[0].action(usize::MAX).is_none());
}

#[test]
fn hold_goes_ongoing_then_fires() {
    let mut ctx = ContextInstance::new();
    let id = ctx.bind(vec![0], false, vec![InputCondition::hold(25, false)]);
    let mut contexts = vec![ctx];
    let mut reader = InputReader::new(vec![true]);
    let mut seen = Vec::new();
    for _ in 0..4 {
        tick(&mut contexts, &mut reader, 10);
        seen.push(contexts[0].action(id).unwrap().state());
    }
    assert_eq!(
        seen,
        vec![ActionState::Ongoing, ActionState::Ongoing, ActionState::Fired, ActionState::Fired]
    );
    reader.set_pressed(0, false);
    tick(&mut contexts, &mut reader, 10);
    assert_eq!(contexts[0].action(id).unwrap().state(), ActionState::Idle);
}

#[test]
fn one_shot_hold_fires_once() {
    let mut ctx = ContextInstance::new();
    let id = ctx.bind(vec![0], false, vec![InputCondition::hold(20, true)]);
    let mut contexts = vec![ctx];
    let mut reader = InputReader::new(vec![true]);
    let mut seen = Vec::new();
    for _ in 0..3 {
        tick(&mut contexts, &mut reader, 10);
        seen.push(contexts[0].action(id).unwrap().state());
    }
    assert_eq!(seen, vec![ActionState::Ongoing, ActionState::Fired, ActionState::Idle]);
}

#[test]
fn down_fires_every_tick() {
    let mut ctx = ContextInstance::new();
    let id = ctx.bind(vec![0, 1], false, vec![InputCondition::down()]);
    let mut contexts = vec![ctx];
    let mut reader = InputReader::new(vec![false, true]);
    tick(&mut contexts, &mut reader, 10);
    assert_eq!(contexts[0].action(id).unwrap().state(), ActionState::Fired);
    tick(&mut contexts, &mut reader, 10);
    assert_eq!(contexts[0].action(id).unwrap().state(), ActionState::Fired);
    reader.set_pressed(1, false);
    tick(&mut contexts, &mut reader, 10);
    assert_eq!(contexts[0].action(id).unwrap().state(), ActionState::Idle);
}

#[test]
fn condition_evaluation_steps_state() {
    let peers = vec![ActionState::Fired, ActionState::Ongoing];
    let mut press = InputCondition::press();
    assert_eq!(press.evaluate(&peers, true, 1), ActionState::Fired);
    assert_eq!(press.evaluate(&peers, true, 1), ActionState::Idle);
    let mut release = InputCondition::release();
    assert_eq!(release.evaluate(&peers, true, 1), ActionState::Ongoing);
    assert_eq!(release.evaluate(&peers, false, 1), ActionState::Fired);
    assert_eq!(release.evaluate(&peers, false, 1), ActionState::Idle);
    assert_eq!(InputCondition::chord(1).evaluate(&peers, false, 1), ActionState::Ongoing);
    assert_eq!(InputCondition::chord(7).evaluate(&peers, false, 1), ActionState::Idle);
    assert_eq!(InputCondition::block_by(1).evaluate(&peers, true, 1), ActionState::Idle);
    assert_eq!(InputCondition::block_events_by(1).evaluate(&peers, true, 1), ActionState::Fired);
    assert_eq!(InputCondition::block_events_by(0).evaluate(&peers, true, 1), ActionState::Idle);
}
