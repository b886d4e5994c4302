use fan_control::{
    sample, Action, ActuatorError, Configuration, ControlLoop, Event, FanState, Fault, LoopState,
    Report, SensorError, Thresholds,
};

const TICK: Event = Event::Tick { shutdown_requested: false };
const SHUTDOWN: Event = Event::Tick { shutdown_requested: true };
const WRITTEN: Event = Event::Driven(Ok(()));

fn control(verbose: bool) -> ControlLoop {
    let thresholds = Thresholds::new(60000, 45000).unwrap();
    let config =
        Configuration::new("/dev/gpiochip0".to_string(), 0, thresholds, 2000, verbose).unwrap();
    ControlLoop::new(config)
}

const QUIET_PAUSE: Action = Action::Sleep { interval_ms: 2000, report: None };

fn reported(temp: i32, fan: FanState) -> Action {
    Action::Sleep { interval_ms: 2000, report: Some(Report { temp, fan }) }
}

/// Runs one tick to its end on a sensor and a line that work, and gives the
/// writes that were asked for and the action that ended the tick.
fn tick(control: &mut ControlLoop, temp: i32) -> (Vec<FanState>, Action) {
    let mut writes = Vec::new();
    assert_eq!(control.advance(TICK), Action::Sample);
    let mut action = control.advance(Event::Sampled(Ok(temp)));
    while let Action::Drive(state) = action {
        writes.push(state);
        action = control.advance(WRITTEN);
    }
    (writes, action)
}

#[test]
fn loop_starts_between_ticks_with_the_fan_off() {
    let control = control(false);
    assert_eq!(control.current(), LoopState::Idle(FanState::Off));
    assert!(!control.is_terminated());
}

#[test]
fn tick_samples_then_sleeps() {
    let mut control = control(false);
    assert_eq!(control.advance(TICK), Action::Sample);
    assert_eq!(control.current(), LoopState::Sampling(FanState::Off));
    assert_eq!(control.advance(Event::Sampled(Ok(50000))), QUIET_PAUSE);
    assert_eq!(control.current(), LoopState::Idle(FanState::Off));
}

#[test]
fn hot_sample_drives_the_line_before_the_loop_sleeps() {
    let mut control = control(true);
    assert_eq!(control.advance(TICK), Action::Sample);
    assert_eq!(control.advance(Event::Sampled(Ok(61000))), Action::Drive(FanState::On));
    assert_eq!(
        control.current(),
        LoopState::Switching { target: FanState::On, temp: 61000 }
    );
    assert_eq!(control.advance(WRITTEN), reported(61000, FanState::On));
    assert_eq!(control.current(), LoopState::Idle(FanState::On));
}

#[test]
fn scenario_samples_give_states_and_writes() {
    let mut control = control(true);
    let mut states = Vec::new();
    let mut writes = Vec::new();
    for temp in [61000, 50000, 44000, 44500] {
        let (written, end) = tick(&mut control, temp);
        writes.extend(written);
        let LoopState::Idle(fan) = control.current() else {
            panic!("the tick did not end between ticks");
        };
        assert_eq!(end, reported(temp, fan));
        states.push(fan);
    }
    assert_eq!(states, vec![FanState::On, FanState::On, FanState::Off, FanState::Off]);
    assert_eq!(writes, vec![FanState::On, FanState::Off]);
}

#[test]
fn reports_come_only_when_verbose() {
    let mut quiet = control(false);
    assert_eq!(tick(&mut quiet, 61000), (vec![FanState::On], QUIET_PAUSE));
    assert_eq!(tick(&mut quiet, 61000), (vec![], QUIET_PAUSE));
    let mut verbose = control(true);
    assert_eq!(tick(&mut verbose, 61000), (vec![FanState::On], reported(61000, FanState::On)));
    assert_eq!(tick(&mut verbose, 30000), (vec![FanState::Off], reported(30000, FanState::Off)));
    assert_eq!(tick(&mut verbose, 30000), (vec![], reported(30000, FanState::Off)));
}

#[test]
fn line_is_written_only_when_the_state_changes() {
    let mut control = control(false);
    let mut fan = FanState::Off;
    let mut writes = 0;
    for temp in [61000, 61000, 70000, 60000, 50000, 45001, 45000, 45000, 0, 59999, 60000] {
        let (written, _) = tick(&mut control, temp);
        let LoopState::Idle(now) = control.current() else {
            panic!("the tick did not end between ticks");
        };
        if now == fan {
            assert_eq!(written, vec![]);
        } else {
            assert_eq!(written, vec![now]);
        }
        writes += written.len();
        fan = now;
    }
    assert_eq!(writes, 3);
}

#[test]
fn absent_sensor_ends_the_loop_with_a_fault() {
    let mut control = control(true);
    assert_eq!(control.advance(TICK), Action::Sample);
    let action = control.advance(Event::Sampled(sample(None)));
    assert_eq!(action, Action::Release(Err(Fault::Sensor(SensorError::Unreadable))));
    assert!(control.is_terminated());
    let Action::Release(outcome) = action else {
        panic!("the line was not released");
    };
    assert_ne!(fan_control::exit_code(&outcome), 0);
    assert_eq!(control.advance(TICK), Action::Halt);
}

#[test]
fn malformed_sample_ends_the_loop_with_a_fault() {
    let mut control = control(false);
    tick(&mut control, 61000);
    assert_eq!(control.advance(TICK), Action::Sample);
    assert_eq!(
        control.advance(Event::Sampled(sample(Some("hot")))),
        Action::Release(Err(Fault::Sensor(SensorError::Malformed)))
    );
    assert_eq!(control.current(), LoopState::Terminated);
}

#[test]
fn failed_write_ends_the_loop_with_a_fault() {
    let mut control = control(true);
    assert_eq!(control.advance(TICK), Action::Sample);
    assert_eq!(control.advance(Event::Sampled(Ok(61000))), Action::Drive(FanState::On));
    assert_eq!(
        control.advance(Event::Driven(Err(ActuatorError::WriteFailed))),
        Action::Release(Err(Fault::Actuator(ActuatorError::WriteFailed)))
    );
    assert!(control.is_terminated());
}

#[test]
fn shutdown_between_ticks_stops_the_fan_and_takes_no_sample() {
    let mut control = control(true);
    tick(&mut control, 61000);
    assert_eq!(control.current(), LoopState::Idle(FanState::On));
    assert_eq!(control.advance(SHUTDOWN), Action::Drive(FanState::Off));
    assert_eq!(control.current(), LoopState::Stopping);
    let action = control.advance(WRITTEN);
    assert_eq!(action, Action::Release(Ok(())));
    assert!(control.is_terminated());
    let Action::Release(outcome) = action else {
        panic!("the line was not released");
    };
    assert_eq!(fan_control::exit_code(&outcome), 0);
    for event in [TICK, SHUTDOWN, Event::Sampled(Ok(90000)), WRITTEN] {
        assert_eq!(control.advance(event), Action::Halt);
        assert!(control.is_terminated());
    }
}

#[test]
fn shutdown_before_the_first_tick_still_drives_the_line_off() {
    let mut control = control(false);
    assert_eq!(control.advance(SHUTDOWN), Action::Drive(FanState::Off));
    assert_eq!(control.advance(WRITTEN), Action::Release(Ok(())));
}

#[test]
fn shutdown_succeeds_even_if_the_last_write_fails() {
    let mut control = control(false);
    assert_eq!(control.advance(SHUTDOWN), Action::Drive(FanState::Off));
    assert_eq!(
        control.advance(Event::Driven(Err(ActuatorError::WriteFailed))),
        Action::Release(Ok(()))
    );
    assert!(control.is_terminated());
}

#[test]
fn events_out_of_turn_change_nothing() {
    let mut control = control(true);
    // Between ticks only a tick counts.
    assert_eq!(control.advance(Event::Sampled(Ok(90000))), QUIET_PAUSE);
    assert_eq!(control.advance(WRITTEN), QUIET_PAUSE);
    assert_eq!(control.current(), LoopState::Idle(FanState::Off));
    // While sampling only a sample counts, not even a shutdown request.
    assert_eq!(control.advance(TICK), Action::Sample);
    assert_eq!(control.advance(SHUTDOWN), Action::Sample);
    assert_eq!(control.advance(WRITTEN), Action::Sample);
    assert_eq!(control.current(), LoopState::Sampling(FanState::Off));
    // While switching only the end of the write counts.
    assert_eq!(control.advance(Event::Sampled(Ok(61000))), Action::Drive(FanState::On));
    assert_eq!(control.advance(TICK), Action::Drive(FanState::On));
    assert_eq!(control.advance(Event::Sampled(Ok(0))), Action::Drive(FanState::On));
    assert_eq!(
        control.current(),
        LoopState::Switching { target: FanState::On, temp: 61000 }
    );
    assert_eq!(control.advance(WRITTEN), reported(61000, FanState::On));
    // While stopping only the end of the write counts.
    assert_eq!(control.advance(SHUTDOWN), Action::Drive(FanState::Off));
    assert_eq!(control.advance(TICK), Action::Drive(FanState::Off));
    assert_eq!(control.advance(Event::Sampled(Ok(0))), Action::Drive(FanState::Off));
    assert_eq!(control.current(), LoopState::Stopping);
}

#[test]
fn line_is_released_once_on_every_way_out() {
    let endings: [Vec<Event>; 4] = [
        vec![SHUTDOWN, WRITTEN],
        vec![TICK, Event::Sampled(Err(SensorError::Unreadable))],
        vec![TICK, Event::Sampled(Ok(61000)), Event::Driven(Err(ActuatorError::WriteFailed))],
        vec![TICK, Event::Sampled(Ok(61000)), WRITTEN, TICK, Event::Sampled(Ok(0)), WRITTEN],
    ];
    for (i, events) in endings.iter().enumerate() {
        let mut control = control(false);
        let mut releases = 0;
        for event in events.iter().chain([SHUTDOWN, WRITTEN, TICK, WRITTEN].iter()) {
            if let Action::Release(_) = control.advance(*event) {
                releases += 1;
            }
        }
        assert!(control.is_terminated(), "ending {}", i);
        assert_eq!(releases, 1, "ending {}", i);
    }
}
