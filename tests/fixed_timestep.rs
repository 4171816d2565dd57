use enhanced_input::context::ContextInstance;
use enhanced_input::events::{ActionEvents, FIRED, STARTED};
use enhanced_input::input::InputReader;
use enhanced_input::schedule::{FixedClock, InputDriver, Schedule};

/// The default fixed step: a 64th of a second.
const DEFAULT_TIMESTEP: u64 = 15_625_000;

const KEY: usize = 0;

fn driver(timestep: u64) -> (InputDriver, InputReader) {
    let mut ctx = ContextInstance::new();
    ctx.bind(vec![KEY], false, vec![]);
    let driver = InputDriver {
        schedule: Schedule::Fixed(FixedClock::new(timestep)),
        contexts: vec![ctx],
    };
    let mut reader = InputReader::new(vec![false]);
    reader.set_pressed(KEY, true);
    (driver, reader)
}

fn events(driver: &InputDriver) -> ActionEvents {
    driver.contexts[0].action(0).unwrap().events()
}

/// Frames of half a step; the first frame only starts the clock, so it
/// lasts no time.
#[test]
fn once_in_two_frames() {
    let time_step = DEFAULT_TIMESTEP / 2;
    let (mut driver, mut reader) = driver(DEFAULT_TIMESTEP);

    for frame in 0..2 {
        let delta = if frame == 0 { 0 } else { time_step };
        driver.run_frame(&mut reader, delta);
        assert!(events(&driver).is_empty(), "shouldn't fire on frame {frame}");
    }

    for frame in 2..4 {
        driver.run_frame(&mut reader, time_step);
        assert_eq!(
            events(&driver),
            ActionEvents::from_bits_truncate(STARTED | FIRED),
            "should maintain start-firing on frame {frame}"
        );
    }
}

/// Frames of two steps; the first frame only starts the clock.
#[test]
fn twice_in_one_frame() {
    let time_step = DEFAULT_TIMESTEP * 2;
    let (mut driver, mut reader) = driver(DEFAULT_TIMESTEP);

    assert_eq!(driver.run_frame(&mut reader, 0), 0);
    assert!(events(&driver).is_empty(), "the fixed schedule should never run on the first frame");

    assert_eq!(driver.run_frame(&mut reader, time_step), 2);
    assert_eq!(
        events(&driver),
        ActionEvents::from_bits_truncate(FIRED),
        "should run twice, so it shouldn't be started on the second run"
    );
    let action = driver.contexts[0].action(0).unwrap();
    assert_eq!(action.elapsed_nanos, DEFAULT_TIMESTEP);
    assert_eq!(action.fired_nanos, DEFAULT_TIMESTEP);
}

#[test]
fn clock_banks_the_remainder() {
    let mut clock = FixedClock::new(10);
    assert_eq!(clock.advance(25), 2);
    assert_eq!(clock.overstep_nanos, 5);
    assert_eq!(clock.advance(4), 0);
    assert_eq!(clock.overstep_nanos, 9);
    assert_eq!(clock.advance(1), 1);
    assert_eq!(clock.overstep_nanos, 0);
    let mut clock = FixedClock::new(u64::MAX);
    assert_eq!(clock.advance(u64::MAX - 1), 0);
    assert_eq!(clock.advance(3), 1);
    assert_eq!(clock.overstep_nanos, 2);
    let mut clock = FixedClock::new(1);
    assert_eq!(clock.advance(u64::MAX), u64::MAX);
}

#[test]
fn variable_schedule_ticks_once_per_frame() {
    let mut ctx = ContextInstance::new();
    ctx.bind(vec![KEY], false, vec![]);
    let mut driver = InputDriver { schedule: Schedule::Variable, contexts: vec![ctx] };
    let mut reader = InputReader::new(vec![true]);
    assert_eq!(driver.run_frame(&mut reader, 7), 1);
    assert_eq!(events(&driver), ActionEvents::from_bits_truncate(STARTED | FIRED));
    assert_eq!(driver.run_frame(&mut reader, 7), 1);
    assert_eq!(events(&driver), ActionEvents::from_bits_truncate(FIRED));
    assert_eq!(driver.contexts[0].action(0).unwrap().fired_nanos, 7);
}
