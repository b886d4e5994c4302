//! The control loop as a state machine: it is told what happened and answers
//! with what to do next. Whoever drives it reads the sensor, writes the line
//! and sleeps; every decision is taken here.

use crate::actuator::ActuatorError;
use crate::config::{Configuration, ConfigurationView};
use crate::fault::{Fault, Outcome};
use crate::hysteresis::{next_state, step, FanState};
use crate::sensor::SensorError;
use vstd::prelude::*;

verus! {

/// A sample and the state of the fan after it, for the diagnostic stream.
#[derive(Clone, Copy, Debug, PartialEq, Eq, Structural)]
pub struct Report {
    pub temp: i32,
    pub fan: FanState,
}

/// What the driver has seen or done.
#[derive(Clone, Copy, Debug, PartialEq, Eq)]
pub enum Event {
    /// A tick begins. `shutdown_requested` tells whether a request to stop
    /// has come in since the last one.
    Tick { shutdown_requested: bool },
    /// The sensor was read, or could not be.
    Sampled(Result<i32, SensorError>),
    /// The write to the output line has ended.
    Driven(Result<(), ActuatorError>),
}

/// What the driver is to do next.
#[derive(Clone, Copy, Debug, PartialEq, Eq)]
pub enum Action {
    /// Read the sensor and answer with `Event::Sampled`.
    Sample,
    /// Drive the output line to the level of this state and answer with
    /// `Event::Driven`.
    Drive(FanState),
    /// Print the report, if there is one, suspend for `interval_ms`
    /// milliseconds and answer with `Event::Tick`.
    Sleep { interval_ms: u64, report: Option<Report> },
    /// Release the output line, at whatever level it is, and end the process
    /// with this outcome.
    Release(Outcome),
    /// Nothing: the loop has ended.
    Halt,
}

/// Where the loop stands between two events.
#[derive(Clone, Copy, Debug, PartialEq, Eq, Structural)]
pub enum LoopState {
    /// Between two ticks, with the fan in the given state.
    Idle(FanState),
    /// A sample was asked for, with the fan in the given state.
    Sampling(FanState),
    /// After a sample of `temp`, a write that brings the fan to `target` was
    /// asked for.
    Switching { target: FanState, temp: i32 },
    /// A shutdown was requested, and the write that stops the fan was asked for.
    Stopping,
    /// The output line was released. Nothing follows.
    Terminated,
}

/// The pause that ends a tick in which `temp` was read and the fan came to
/// be in state `fan`: for the poll interval, with a report if the
/// configuration asks for one.
pub open spec fn pause_after(temp: i32, fan: FanState, config: ConfigurationView) -> Action {
    Action::Sleep {
        interval_ms: config.poll_interval_ms,
        report: if config.verbose {
            Some(Report { temp, fan })
        } else {
            None
        },
    }
}

/// What the loop waits for in `state`: the action that it has asked for and
/// that has not been answered yet.
pub open spec fn pending(state: LoopState, config: ConfigurationView) -> Action {
    match state {
        LoopState::Idle(_) => Action::Sleep { interval_ms: config.poll_interval_ms, report: None },
        LoopState::Sampling(_) => Action::Sample,
        LoopState::Switching { target, .. } => Action::Drive(target),
        LoopState::Stopping => Action::Drive(FanState::Off),
        LoopState::Terminated => Action::Halt,
    }
}

/// Whether `event` answers what the loop waits for in `state`.
pub open spec fn awaited(state: LoopState, event: Event) -> bool {
    match state {
        LoopState::Idle(_) => event is Tick,
        LoopState::Sampling(_) => event is Sampled,
        LoopState::Switching { .. } => event is Driven,
        LoopState::Stopping => event is Driven,
        LoopState::Terminated => false,
    }
}

/// The state that follows `state` on `event`, and what the driver is to do.
///
/// A tick with a shutdown request stops the fan and ends the loop without
/// another sample; any other tick takes a sample. A sample goes through the
/// hysteresis policy, and the line is written only where the fan's state
/// changes. A failed sample or a failed write ends the loop with that fault.
/// An event that the loop does not wait for changes nothing: the loop asks
/// again for what it waits for.
pub open spec fn transition(state: LoopState, event: Event, config: ConfigurationView) -> (
    LoopState,
    Action,
) {
    match (state, event) {
        (LoopState::Idle(fan), Event::Tick { shutdown_requested }) => if shutdown_requested {
            (LoopState::Stopping, Action::Drive(FanState::Off))
        } else {
            (LoopState::Sampling(fan), Action::Sample)
        },
        (LoopState::Sampling(fan), Event::Sampled(Ok(temp))) => {
            let target = next_state(fan, temp as int, config.thresholds);
            if target != fan {
                (LoopState::Switching { target, temp }, Action::Drive(target))
            } else {
                (LoopState::Idle(fan), pause_after(temp, fan, config))
            }
        },
        (LoopState::Sampling(_), Event::Sampled(Err(e))) => (
            LoopState::Terminated,
            Action::Release(Err(Fault::Sensor(e))),
        ),
        (LoopState::Switching { target, temp }, Event::Driven(Ok(_))) => (
            LoopState::Idle(target),
            pause_after(temp, target, config),
        ),
        (LoopState::Switching { .. }, Event::Driven(Err(e))) => (
            LoopState::Terminated,
            Action::Release(Err(Fault::Actuator(e))),
        ),
        (LoopState::Stopping, Event::Driven(_)) => (LoopState::Terminated, Action::Release(Ok(()))),
        _ => (state, pending(state, config)),
    }
}

/// The control loop: the configuration it runs by and where it stands.
#[derive(Debug)]
pub struct ControlLoop {
    config: Configuration,
    state: LoopState,
}

impl ControlLoop {
    /// Where the loop stands.
    pub closed spec fn state(self) -> LoopState {
        self.state
    }

    /// The configuration that the loop runs by.
    pub closed spec fn config(self) -> ConfigurationView {
        self.config@
    }

    /// A loop for `config` that has not begun its first tick. The fan is taken
    /// to be off, as the output line is when it has just been claimed. The
    /// driver begins with `Event::Tick`.
    pub fn new(config: Configuration) -> (control: ControlLoop)
        ensures
            control.state() == LoopState::Idle(FanState::Off),
            control.config() == config@,
    {
        ControlLoop { config, state: LoopState::Idle(FanState::Off) }
    }

    /// Takes `event` in and says what the driver is to do next.
    pub fn advance(&mut self, event: Event) -> (action: Action)
        ensures
            (final(self).state(), action) == transition(
                old(self).state(),
                event,
                old(self).config(),
            ),
            final(self).config() == old(self).config(),
    {
        let (next, action) = match (self.state, event) {
            (LoopState::Idle(fan), Event::Tick { shutdown_requested }) => if shutdown_requested {
                (LoopState::Stopping, Action::Drive(FanState::Off))
            } else {
                (LoopState::Sampling(fan), Action::Sample)
            },
            (LoopState::Sampling(fan), Event::Sampled(Ok(temp))) => {
                let target = step(fan, temp, self.config.thresholds());
                if target != fan {
                    (LoopState::Switching { target, temp }, Action::Drive(target))
                } else {
                    (LoopState::Idle(fan), self.pause(Some(Report { temp, fan })))
                }
            },
            (LoopState::Sampling(_), Event::Sampled(Err(e))) => (
                LoopState::Terminated,
                Action::Release(Err(Fault::Sensor(e))),
            ),
            (LoopState::Switching { target, temp }, Event::Driven(Ok(_))) => (
                LoopState::Idle(target),
                self.pause(Some(Report { temp, fan: target })),
            ),
            (LoopState::Switching { .. }, Event::Driven(Err(e))) => (
                LoopState::Terminated,
                Action::Release(Err(Fault::Actuator(e))),
            ),
            (LoopState::Stopping, Event::Driven(_)) => (
                LoopState::Terminated,
                Action::Release(Ok(())),
            ),
            (LoopState::Idle(fan), _) => (LoopState::Idle(fan), self.pause(None)),
            (LoopState::Sampling(fan), _) => (LoopState::Sampling(fan), Action::Sample),
            (LoopState::Switching { target, temp }, _) => (
                LoopState::Switching { target, temp },
                Action::Drive(target),
            ),
            (LoopState::Stopping, _) => (LoopState::Stopping, Action::Drive(FanState::Off)),
            (LoopState::Terminated, _) => (LoopState::Terminated, Action::Halt),
        };
        self.state = next;
        action
    }

    /// A pause for the poll interval, with `report` only where the
    /// configuration asks for reports.
    fn pause(&self, report: Option<Report>) -> (action: Action)
        ensures
            action == (Action::Sleep {
                interval_ms: self.config().poll_interval_ms,
                report: if self.config().verbose {
                    report
                } else {
                    None
                },
            }),
    {
        Action::Sleep {
            interval_ms: self.config.poll_interval_ms(),
            report: if self.config.verbose() {
                report
            } else {
                None
            },
        }
    }

    /// The configuration that the loop runs by.
    pub fn configuration(&self) -> (config: &Configuration)
        ensures
            config@ == self.config(),
    {
        &self.config
    }

    /// Where the loop stands.
    pub fn current(&self) -> (state: LoopState)
        ensures
            state == self.state(),
    {
        self.state
    }

    /// Whether the loop has ended.
    pub fn is_terminated(&self) -> (ended: bool)
        ensures
            ended == (self.state() is Terminated),
    {
        match self.state {
            LoopState::Terminated => true,
            _ => false,
        }
    }
}

/// Where the loop stands after it has taken in `events`, one after the
/// other, from `state`.
pub open spec fn run(state: LoopState, events: Seq<Event>, config: ConfigurationView) -> LoopState
    decreases events.len(),
{
    if events.len() == 0 {
        state
    } else {
        transition(run(state, events.drop_last(), config), events.last(), config).0
    }
}

/// What the loop answers to each of `events`, taken in one after the other
/// from `state`.
pub open spec fn answers(state: LoopState, events: Seq<Event>, config: ConfigurationView) -> Seq<
    Action,
>
    decreases events.len(),
{
    if events.len() == 0 {
        Seq::empty()
    } else {
        answers(state, events.drop_last(), config).push(
            transition(run(state, events.drop_last(), config), events.last(), config).1,
        )
    }
}

/// How many of `actions` release the output line.
pub open spec fn releases(actions: Seq<Action>) -> nat
    decreases actions.len(),
{
    if actions.len() == 0 {
        0
    } else if actions.last() is Release {
        releases(actions.drop_last()) + 1
    } else {
        releases(actions.drop_last())
    }
}

/// An event that the loop does not wait for changes nothing: the loop stays
/// where it is and asks again for what it waits for.
pub proof fn lemma_out_of_turn_changes_nothing(
    state: LoopState,
    event: Event,
    config: ConfigurationView,
)
    requires
        !awaited(state, event),
    ensures
        transition(state, event, config) == (state, pending(state, config)),
{
}

/// The line is written only to change the fan's state: a write asked for
/// after a sample is never to the state that the fan is in.
pub proof fn lemma_writes_only_on_change(fan: FanState, event: Event, config: ConfigurationView)
    ensures
        transition(LoopState::Sampling(fan), event, config).1 matches Action::Drive(target)
            ==> target != fan,
{
}

/// A tick without a shutdown request and without a failure brings the fan to
/// the state that the hysteresis policy gives for the sample, with one write
/// where that state is new and none where it is not, and ends in a pause.
pub proof fn lemma_tick_follows_policy(fan: FanState, temp: i32, config: ConfigurationView)
    ensures
        ({
            let start = LoopState::Idle(fan);
            let target = next_state(fan, temp as int, config.thresholds);
            let tick = Event::Tick { shutdown_requested: false };
            let sample = Event::Sampled(Ok(temp));
            let written = Event::Driven(Ok(()));
            let pause = pause_after(temp, target, config);
            if target == fan {
                &&& run(start, seq![tick, sample], config) == LoopState::Idle(target)
                &&& answers(start, seq![tick, sample], config) == seq![Action::Sample, pause]
            } else {
                &&& run(start, seq![tick, sample, written], config) == LoopState::Idle(target)
                &&& answers(start, seq![tick, sample, written], config) == seq![
                    Action::Sample,
                    Action::Drive(target),
                    pause,
                ]
            }
        }),
{
    let start = LoopState::Idle(fan);
    let target = next_state(fan, temp as int, config.thresholds);
    let tick = Event::Tick { shutdown_requested: false };
    let sample = Event::Sampled(Ok(temp));
    let written = Event::Driven(Ok(()));
    let pause = pause_after(temp, target, config);
    let none = Seq::<Event>::empty();
    assert(seq![tick].drop_last() =~= none);
    assert(seq![tick, sample].drop_last() =~= seq![tick]);
    assert(seq![tick, sample, written].drop_last() =~= seq![tick, sample]);
    assert(run(start, none, config) == start);
    assert(answers(start, none, config) =~= Seq::<Action>::empty());
    assert(run(start, seq![tick], config) == LoopState::Sampling(fan));
    assert(answers(start, seq![tick], config) =~= seq![Action::Sample]);
    if target == fan {
        assert(answers(start, seq![tick, sample], config) =~= seq![Action::Sample, pause]);
    } else {
        assert(run(start, seq![tick, sample], config) == (LoopState::Switching { target, temp }));
        assert(answers(start, seq![tick, sample], config) =~= seq![
            Action::Sample,
            Action::Drive(target),
        ]);
        assert(answers(start, seq![tick, sample, written], config) =~= seq![
            Action::Sample,
            Action::Drive(target),
            pause,
        ]);
    }
}

/// A shutdown request that a tick finds pending ends the loop whatever the
/// fan's state: the line is driven to the level that stops the fan and then
/// released, the outcome is success whether or not that write went through,
/// and no sample is taken.
pub proof fn lemma_shutdown_ends_the_loop(
    fan: FanState,
    written: Result<(), ActuatorError>,
    config: ConfigurationView,
)
    ensures
        ({
            let events = seq![Event::Tick { shutdown_requested: true }, Event::Driven(written)];
            &&& run(LoopState::Idle(fan), events, config) == LoopState::Terminated
            &&& answers(LoopState::Idle(fan), events, config) == seq![
                Action::Drive(FanState::Off),
                Action::Release(Ok(())),
            ]
        }),
{
    let start = LoopState::Idle(fan);
    let tick = Event::Tick { shutdown_requested: true };
    let none = Seq::<Event>::empty();
    assert(seq![tick].drop_last() =~= none);
    assert(seq![tick, Event::Driven(written)].drop_last() =~= seq![tick]);
    assert(run(start, none, config) == start);
    assert(answers(start, none, config) =~= Seq::<Action>::empty());
    assert(run(start, seq![tick], config) == LoopState::Stopping);
    assert(answers(start, seq![tick], config) =~= seq![Action::Drive(FanState::Off)]);
    assert(answers(start, seq![tick, Event::Driven(written)], config) =~= seq![
        Action::Drive(FanState::Off),
        Action::Release(Ok(())),
    ]);
}

/// Once a shutdown is under way, whatever comes in, the loop only ever stops
/// the fan, releases the line with success, or does nothing: it takes no
/// sample and does not start the fan.
pub proof fn lemma_no_sample_after_shutdown(events: Seq<Event>, config: ConfigurationView)
    ensures
        run(LoopState::Stopping, events, config) is Stopping || run(
            LoopState::Stopping,
            events,
            config,
        ) is Terminated,
        answers(LoopState::Stopping, events, config).len() == events.len(),
        forall|i: int|
            0 <= i < events.len() ==> {
                let action = #[trigger] answers(LoopState::Stopping, events, config)[i];
                ||| action == Action::Drive(FanState::Off)
                ||| action == Action::Release(Ok(()))
                ||| action == Action::Halt
            },
    decreases events.len(),
{
    if events.len() > 0 {
        lemma_no_sample_after_shutdown(events.drop_last(), config);
    }
}

/// A loop that has ended stays ended and answers every event with `Halt`.
pub proof fn lemma_terminated_is_final(events: Seq<Event>, config: ConfigurationView)
    ensures
        run(LoopState::Terminated, events, config) == LoopState::Terminated,
        answers(LoopState::Terminated, events, config).len() == events.len(),
        forall|i: int|
            0 <= i < events.len() ==> #[trigger] answers(LoopState::Terminated, events, config)[i]
                == Action::Halt,
    decreases events.len(),
{
    if events.len() > 0 {
        lemma_terminated_is_final(events.drop_last(), config);
    }
}

/// The output line is released exactly once on every path on which the loop
/// ends, and not at all while it runs.
pub proof fn lemma_released_exactly_once(
    state: LoopState,
    events: Seq<Event>,
    config: ConfigurationView,
)
    requires
        !(state is Terminated),
    ensures
        releases(answers(state, events, config)) == if run(state, events, config) is Terminated {
            1nat
        } else {
            0nat
        },
    decreases events.len(),
{
    if events.len() > 0 {
        let before = events.drop_last();
        lemma_released_exactly_once(state, before, config);
        let earlier = answers(state, before, config);
        let last = transition(run(state, before, config), events.last(), config).1;
        assert(earlier.push(last).drop_last() =~= earlier);
    }
}

/// The level of the output line once the driver has done what `event`
/// reports, where `line` was its level before: a write that went through
/// sets the level, and nothing else is taken to change it.
pub open spec fn line_after(line: FanState, state: LoopState, event: Event) -> FanState {
    match (state, event) {
        (LoopState::Switching { target, .. }, Event::Driven(Ok(_))) => target,
        (LoopState::Stopping, Event::Driven(Ok(_))) => FanState::Off,
        _ => line,
    }
}

/// Whether the loop in `state` is right about an output line at level
/// `line`: between ticks and while sampling, the fan's state is the line's
/// level; while switching, the line is not yet at the target.
pub open spec fn mirrors(state: LoopState, line: FanState) -> bool {
    match state {
        LoopState::Idle(fan) => line == fan,
        LoopState::Sampling(fan) => line == fan,
        LoopState::Switching { target, .. } => line != target,
        LoopState::Stopping => true,
        LoopState::Terminated => true,
    }
}

/// The fan's state that the loop holds is the level of the output line, from
/// the first tick on: a new loop is right about a line that was just
/// claimed, a loop that is right about the line stays right about it
/// whatever comes in, and a shutdown whose write went through leaves the
/// line at the level that stops the fan.
pub proof fn lemma_state_mirrors_line(
    state: LoopState,
    line: FanState,
    event: Event,
    config: ConfigurationView,
)
    requires
        mirrors(state, line),
    ensures
        mirrors(LoopState::Idle(FanState::Off), FanState::Off),
        mirrors(transition(state, event, config).0, line_after(line, state, event)),
        state is Stopping && event == Event::Driven(Ok(())) ==> line_after(line, state, event)
            == FanState::Off,
{
}

} // verus!
