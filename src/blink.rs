use vstd::prelude::*;

verus! {

/// The fixed wait after each pin write, in milliseconds.
pub const DELAY_DURATION_MS: u32 = 500;

/// Logic level of the output pin.
#[derive(Clone, Copy, Debug, PartialEq, Eq, Structural)]
pub enum Level {
    Low,
    High,
}

/// The other level.
pub open spec fn flip(l: Level) -> Level {
    match l {
        Level::Low => Level::High,
        Level::High => Level::Low,
    }
}

impl Level {
    /// The level the pin takes at its next toggle.
    pub fn toggled(self) -> (r: Level)
        ensures
            r == flip(self),
    {
        match self {
            Level::Low => Level::High,
            Level::High => Level::Low,
        }
    }
}

/// Where the firmware is in its life.
#[derive(Clone, Copy, Debug, PartialEq, Eq, Structural)]
pub enum Mode {
    /// Reset, before the entry routine has run.
    Uninitialized,
    /// Acquiring the peripheral tokens and configuring the pin and the timer.
    Initializing,
    /// In the loop, the pin driven to the level held here.
    Blinking(Level),
    /// Halted: a hard fault, a second acquisition or a failed pin write.
    Faulted,
}

/// What the surrounding runtime reports to the controller.
#[derive(Clone, Copy, Debug, PartialEq, Eq, Structural)]
pub enum Event {
    /// The runtime entered the entry routine.
    Boot,
    /// Result of taking the core and the device peripheral tokens.
    Acquired { core: bool, device: bool },
    /// The blocking wait after a pin write has elapsed.
    Waited,
    /// A pin write reported an error.
    PinFailed,
    /// The processor trapped a hard fault.
    HardFault,
}

/// What the controller asks the runtime to do next.
#[derive(Clone, Copy, Debug, PartialEq, Eq, Structural)]
pub enum Action {
    /// Take the core and the device peripheral tokens, then configure.
    Acquire,
    /// Drive the pin to `level`, then block for `wait_ms` milliseconds.
    Drive { level: Level, wait_ms: u32 },
    /// Stop for good; the pin keeps its level.
    Halt,
    /// Nothing to do for this event.
    Idle,
}

/// One transition of the controller, for a loop that waits `delay_ms`
/// after each write.
pub open spec fn next(mode: Mode, event: Event, delay_ms: u32) -> (Mode, Action) {
    match (mode, event) {
        (Mode::Faulted, _) => (Mode::Faulted, Action::Halt),
        (_, Event::HardFault) => (Mode::Faulted, Action::Halt),
        (Mode::Uninitialized, Event::Boot) => (Mode::Initializing, Action::Acquire),
        (Mode::Initializing, Event::Acquired { core, device }) => if core && device {
            (Mode::Blinking(Level::High), Action::Drive { level: Level::High, wait_ms: delay_ms })
        } else {
            (Mode::Faulted, Action::Halt)
        },
        (Mode::Blinking(l), Event::Waited) => (
            Mode::Blinking(flip(l)),
            Action::Drive { level: flip(l), wait_ms: delay_ms },
        ),
        (Mode::Blinking(_), Event::PinFailed) => (Mode::Faulted, Action::Halt),
        _ => (mode, Action::Idle),
    }
}

/// The mode reached after feeding `events` in order, starting from `mode`.
pub open spec fn run_mode(mode: Mode, events: Seq<Event>, delay_ms: u32) -> Mode
    decreases events.len(),
{
    if events.len() == 0 {
        mode
    } else {
        run_mode(next(mode, events[0], delay_ms).0, events.drop_first(), delay_ms)
    }
}

/// The actions asked for while feeding `events` in order, starting from `mode`.
pub open spec fn run_actions(mode: Mode, events: Seq<Event>, delay_ms: u32) -> Seq<Action>
    decreases events.len(),
{
    if events.len() == 0 {
        Seq::empty()
    } else {
        let (m, a) = next(mode, events[0], delay_ms);
        seq![a] + run_actions(m, events.drop_first(), delay_ms)
    }
}

/// Once halted, the controller stays halted whatever comes next: every
/// later event is answered with `Halt`, so the pin is never written again.
pub proof fn fault_is_terminal(events: Seq<Event>, delay_ms: u32)
    ensures
        run_mode(Mode::Faulted, events, delay_ms) == Mode::Faulted,
        run_actions(Mode::Faulted, events, delay_ms).len() == events.len(),
        forall|i: int|
            0 <= i < events.len() ==> #[trigger] run_actions(Mode::Faulted, events, delay_ms)[i]
                == Action::Halt,
    decreases events.len(),
{
    if events.len() > 0 {
        fault_is_terminal(events.drop_first(), delay_ms);
        let rest = run_actions(Mode::Faulted, events.drop_first(), delay_ms);
        assert forall|i: int| 0 <= i < events.len() implies #[trigger] run_actions(
            Mode::Faulted,
            events,
            delay_ms,
        )[i] == Action::Halt by {
            if i > 0 {
                assert(run_actions(Mode::Faulted, events, delay_ms)[i] == rest[i - 1]);
            }
        }
    }
}

/// The blink loop has no exit of its own: from any blinking mode, as long as
/// neither a hard fault nor a failed pin write comes, the controller keeps
/// blinking and never asks to halt.
pub proof fn loop_never_exits(level: Level, events: Seq<Event>, delay_ms: u32)
    requires
        forall|i: int|
            0 <= i < events.len() ==> #[trigger] events[i] != Event::HardFault && events[i]
                != Event::PinFailed,
    ensures
        run_mode(Mode::Blinking(level), events, delay_ms) is Blinking,
        run_actions(Mode::Blinking(level), events, delay_ms).len() == events.len(),
        forall|i: int|
            0 <= i < events.len() ==> #[trigger] run_actions(Mode::Blinking(level), events, delay_ms)[i]
                != Action::Halt,
    decreases events.len(),
{
    if events.len() > 0 {
        let m = next(Mode::Blinking(level), events[0], delay_ms).0;
        let l = m->0;
        let tail = events.drop_first();
        assert forall|i: int| 0 <= i < tail.len() implies #[trigger] tail[i] != Event::HardFault
            && tail[i] != Event::PinFailed by {
            assert(tail[i] == events[i + 1]);
        }
        loop_never_exits(l, tail, delay_ms);
        let rest = run_actions(m, tail, delay_ms);
        assert forall|i: int| 0 <= i < events.len() implies #[trigger] run_actions(
            Mode::Blinking(level),
            events,
            delay_ms,
        )[i] != Action::Halt by {
            if i > 0 {
                assert(run_actions(Mode::Blinking(level), events, delay_ms)[i] == rest[i - 1]);
            }
        }
    }
}

/// The controller of the blink loop.
pub struct Blinker {
    mode: Mode,
    delay_ms: u32,
}

impl Blinker {
    pub closed spec fn mode_spec(&self) -> Mode {
        self.mode
    }

    pub closed spec fn delay_spec(&self) -> u32 {
        self.delay_ms
    }

    /// A controller at reset that waits `delay_ms` after each write.
    pub fn new(delay_ms: u32) -> (r: Blinker)
        ensures
            r.mode_spec() == Mode::Uninitialized,
            r.delay_spec() == delay_ms,
    {
        Blinker { mode: Mode::Uninitialized, delay_ms }
    }

    /// The controller of the firmware, with the fixed delay.
    pub fn firmware() -> (r: Blinker)
        ensures
            r.mode_spec() == Mode::Uninitialized,
            r.delay_spec() == DELAY_DURATION_MS,
    {
        Blinker::new(DELAY_DURATION_MS)
    }

    pub fn mode(&self) -> (r: Mode)
        ensures
            r == self.mode_spec(),
    {
        self.mode
    }

    pub fn delay_ms(&self) -> (r: u32)
        ensures
            r == self.delay_spec(),
    {
        self.delay_ms
    }

    /// Takes one event, moves to the next mode and says what to do.
    pub fn handle(&mut self, event: Event) -> (r: Action)
        ensures
            final(self).delay_spec() == old(self).delay_spec(),
            (final(self).mode_spec(), r) == next(old(self).mode_spec(), event, old(self).delay_spec()),
    {
        let d = self.delay_ms;
        let (m, a) = match (self.mode, event) {
            (Mode::Faulted, _) => (Mode::Faulted, Action::Halt),
            (_, Event::HardFault) => (Mode::Faulted, Action::Halt),
            (Mode::Uninitialized, Event::Boot) => (Mode::Initializing, Action::Acquire),
            (Mode::Initializing, Event::Acquired { core, device }) => if core && device {
                (Mode::Blinking(Level::High), Action::Drive { level: Level::High, wait_ms: d })
            } else {
                (Mode::Faulted, Action::Halt)
            },
            (Mode::Blinking(l), Event::Waited) => {
                let t = l.toggled();
                (Mode::Blinking(t), Action::Drive { level: t, wait_ms: d })
            },
            (Mode::Blinking(_), Event::PinFailed) => (Mode::Faulted, Action::Halt),
            (m, _) => (m, Action::Idle),
        };
        self.mode = m;
        a
    }
}

} // verus!
