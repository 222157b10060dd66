use vstd::prelude::*;
use crate::blink::{Action, Blinker, Event, Level, Mode, flip, next};
use crate::ownership::TakeOnce;

verus! {

/// A stretch of time during which the pin held one level, closed by the next write.
#[derive(Clone, Copy, Debug, PartialEq, Eq, Structural)]
pub struct Phase {
    pub level: Level,
    pub start_ms: u64,
    pub duration_ms: u64,
}

/// What the pin did during a run of the controller.
#[derive(Debug)]
pub struct Trace {
    /// The phases that ended within the run, in order.
    pub phases: Vec<Phase>,
    /// The pin's level when the run ends.
    pub level: Level,
    /// How many times the pin was written.
    pub writes: u64,
}

/// The number of pin writes that start before `total_ms`: one at each
/// multiple of the delay.
pub open spec fn writes_within(delay_ms: u32, total_ms: u64) -> nat
    recommends
        delay_ms > 0,
{
    ((total_ms + delay_ms - 1) / (delay_ms as int)) as nat
}

/// The level written by the pin write numbered `i`, counting from zero.
pub open spec fn written_level(i: int) -> Level {
    if i % 2 == 0 {
        Level::High
    } else {
        Level::Low
    }
}

/// The pin's level after `writes` writes; it comes up low.
pub open spec fn level_after(writes: nat) -> Level {
    if writes == 0 {
        Level::Low
    } else {
        written_level(writes - 1)
    }
}

/// The phase that the write numbered `i` opens.
pub open spec fn expected_phase(i: int, delay_ms: u32) -> Phase {
    Phase {
        level: written_level(i),
        start_ms: (i * delay_ms) as u64,
        duration_ms: delay_ms as u64,
    }
}

/// The phases that end within a run of `total_ms`: each write but the last
/// closes the phase of the write before it.
pub open spec fn expected_phases(delay_ms: u32, total_ms: u64) -> Seq<Phase> {
    let w = writes_within(delay_ms, total_ms);
    let n = if w == 0 {
        0
    } else {
        w - 1
    };
    Seq::new(n as nat, |i: int| expected_phase(i, delay_ms))
}

/// How many phases of `s` held level `l`.
pub open spec fn count_level(s: Seq<Phase>, l: Level) -> nat
    decreases s.len(),
{
    if s.len() == 0 {
        0
    } else {
        count_level(s.drop_last(), l) + if s.last().level == l {
            1nat
        } else {
            0nat
        }
    }
}

proof fn lemma_written_level_alternates(i: int)
    requires
        i >= 0,
    ensures
        written_level(i + 1) == flip(written_level(i)),
{
}

proof fn lemma_writes_count(w: int, d: int, total: int)
    requires
        d > 0,
        total > 0,
        w >= 1,
        (w - 1) * d < total,
        total <= w * d,
    ensures
        (total + d - 1) / d == w,
{
    let q = (total + d - 1) / d;
    let r = (total + d - 1) % d;
    assert(q * d + r == total + d - 1 && 0 <= r < d) by (nonlinear_arith)
        requires
            q == (total + d - 1) / d,
            r == (total + d - 1) % d,
            d > 0,
    ;
    assert(q < w + 1) by (nonlinear_arith)
        requires
            q * d + r == total + d - 1,
            0 <= r,
            total <= w * d,
            d > 0,
    ;
    assert(w < q + 1) by (nonlinear_arith)
        requires
            q * d + r == total + d - 1,
            r < d,
            (w - 1) * d < total,
            d > 0,
    ;
}

/// The two phases of loop iteration `k`: the high one and the low one.
pub open spec fn iteration_of(p: Seq<Phase>, k: int) -> (Phase, Phase) {
    (p[2 * k], p[2 * k + 1])
}

proof fn lemma_count_alternating(n: nat, delay_ms: u32)
    ensures
        count_level(Seq::new(n, |i: int| expected_phase(i, delay_ms)), Level::High) == (n + 1) / 2,
        count_level(Seq::new(n, |i: int| expected_phase(i, delay_ms)), Level::Low) == n / 2,
    decreases n,
{
    if n > 0 {
        let s = Seq::new(n, |i: int| expected_phase(i, delay_ms));
        let shorter = Seq::new((n - 1) as nat, |i: int| expected_phase(i, delay_ms));
        assert(s.drop_last() =~= shorter);
        lemma_count_alternating((n - 1) as nat, delay_ms);
    }
}

/// Duty cycle: in every completed loop iteration the pin is high for one
/// delay and then low for one delay, so it spends equal time at each level.
pub proof fn duty_cycle_is_even(delay_ms: u32, total_ms: u64)
    requires
        delay_ms > 0,
    ensures
        forall|k: int|
            0 <= k && 2 * k + 1 < expected_phases(delay_ms, total_ms).len()
                ==> #[trigger] iteration_of(expected_phases(delay_ms, total_ms), k) == (
            Phase { level: Level::High, start_ms: (2 * k * delay_ms) as u64, duration_ms: delay_ms as u64 },
            Phase {
                level: Level::Low,
                start_ms: ((2 * k + 1) * delay_ms) as u64,
                duration_ms: delay_ms as u64,
            },
        ),
        count_level(expected_phases(delay_ms, total_ms), Level::Low) * 2
            == expected_phases(delay_ms, total_ms).len() - expected_phases(delay_ms, total_ms).len() % 2,
        count_level(expected_phases(delay_ms, total_ms), Level::High) == count_level(
            expected_phases(delay_ms, total_ms),
            Level::Low,
        ) + expected_phases(delay_ms, total_ms).len() % 2,
{
    let p = expected_phases(delay_ms, total_ms);
    lemma_count_alternating(p.len(), delay_ms);
    assert(p =~= Seq::new(p.len(), |i: int| expected_phase(i, delay_ms)));
}

/// Frequency: the pin returns to the same level every two delays, so the
/// signal's period is twice the delay; with the firmware's delay that is
/// one second.
pub proof fn period_is_twice_delay(delay_ms: u32, total_ms: u64)
    requires
        delay_ms > 0,
        total_ms + delay_ms <= u64::MAX,
    ensures
        forall|i: int|
            0 <= i && i + 2 < expected_phases(delay_ms, total_ms).len() ==> {
                &&& (#[trigger] expected_phases(delay_ms, total_ms)[i + 2]).level
                    == expected_phases(delay_ms, total_ms)[i].level
                &&& expected_phases(delay_ms, total_ms)[i + 2].start_ms
                    == expected_phases(delay_ms, total_ms)[i].start_ms + 2 * delay_ms
                &&& expected_phases(delay_ms, total_ms)[i].duration_ms
                    + expected_phases(delay_ms, total_ms)[i + 1].duration_ms == 2 * delay_ms
            },
        2 * crate::blink::DELAY_DURATION_MS == 1000,
{
    let p = expected_phases(delay_ms, total_ms);
    let w = writes_within(delay_ms, total_ms);
    assert forall|i: int| 0 <= i && i + 2 < p.len() implies {
        &&& (#[trigger] p[i + 2]).level == p[i].level
        &&& p[i + 2].start_ms == p[i].start_ms + 2 * delay_ms
        &&& p[i].duration_ms + p[i + 1].duration_ms == 2 * delay_ms
    } by {
        let d = delay_ms as int;
        let t = total_ms as int;
        assert((i + 2) * d <= t + d) by (nonlinear_arith)
            requires
                0 <= i,
                i + 2 < w,
                w == (t + d - 1) / d,
                d > 0,
        ;
        assert((i + 2) * d == i * d + 2 * d) by (nonlinear_arith);
        assert(0 <= i * d) by (nonlinear_arith)
            requires
                0 <= i,
                d > 0,
        ;
    }
}

/// Runs the controller from reset for `total_ms` of simulated time: it boots,
/// takes both peripheral sets, and then writes the pin and waits until the
/// time is spent. Returns what the pin did.
pub fn simulate(delay_ms: u32, total_ms: u64) -> (r: Trace)
    requires
        delay_ms > 0,
        total_ms + delay_ms <= u64::MAX,
    ensures
        r.writes == writes_within(delay_ms, total_ms),
        r.level == level_after(r.writes as nat),
        r.phases@ == expected_phases(delay_ms, total_ms),
{
    let mut phases: Vec<Phase> = Vec::new();
    if total_ms == 0 {
        assert((delay_ms - 1) as int / delay_ms as int == 0) by (nonlinear_arith)
            requires
                delay_ms > 0,
        ;
        assert(phases@ =~= expected_phases(delay_ms, total_ms));
        return Trace { phases, level: Level::Low, writes: 0 };
    }
    let mut core = TakeOnce::new();
    let mut device = TakeOnce::new();
    let mut blinker = Blinker::new(delay_ms);
    let _ = blinker.handle(Event::Boot);
    let core_ok = core.take().is_ok();
    let device_ok = device.take().is_ok();
    let mut action = blinker.handle(Event::Acquired { core: core_ok, device: device_ok });
    let mut level = Level::Low;
    let mut writes: u64 = 0;
    let mut now: u64 = 0;
    let mut last_write: u64 = 0;
    while now < total_ms
        invariant
            delay_ms > 0,
            total_ms + delay_ms <= u64::MAX,
            total_ms > 0,
            blinker.delay_spec() == delay_ms,
            blinker.mode_spec() == Mode::Blinking(written_level(writes as int)),
            action == (Action::Drive { level: written_level(writes as int), wait_ms: delay_ms }),
            now as int == writes as int * delay_ms as int,
            writes <= now,
            now <= total_ms + delay_ms,
            writes == 0 || (writes - 1) * delay_ms < total_ms,
            writes > 0 ==> last_write + delay_ms == now,
            level == level_after(writes as nat),
            phases@.len() == if writes == 0 {
                0
            } else {
                writes - 1
            },
            forall|i: int| 0 <= i < phases@.len() ==> phases@[i] == expected_phase(i, delay_ms),
        decreases total_ms + delay_ms - now,
    {
        let (next_level, wait_ms) = match action {
            Action::Drive { level, wait_ms } => (level, wait_ms),
            _ => {
                assert(false);
                (Level::Low, 0)
            },
        };
        if writes > 0 {
            assert(last_write as int == (writes - 1) as int * delay_ms as int) by (nonlinear_arith)
                requires
                    now as int == writes as int * delay_ms as int,
                    last_write + delay_ms == now,
            ;
            phases.push(Phase { level, start_ms: last_write, duration_ms: now - last_write });
        }
        proof {
            lemma_written_level_alternates(writes as int);
            assert((writes + 1) as int * delay_ms as int == writes as int * delay_ms as int
                + delay_ms) by (nonlinear_arith);
        }
        level = next_level;
        last_write = now;
        now = now + wait_ms as u64;
        writes = writes + 1;
        action = blinker.handle(Event::Waited);
    }
    proof {
        lemma_writes_count(writes as int, delay_ms as int, total_ms as int);
        assert(phases@ =~= expected_phases(delay_ms, total_ms));
    }
    Trace { phases, level, writes }
}

impl Trace {
    /// How many of the completed phases held `level`.
    pub fn full_phases(&self, level: Level) -> (r: usize)
        ensures
            r == count_level(self.phases@, level),
    {
        let mut c: usize = 0;
        let mut i: usize = 0;
        while i < self.phases.len()
            invariant
                i <= self.phases@.len(),
                c <= i,
                c == count_level(self.phases@.subrange(0, i as int), level),
            decreases self.phases@.len() - i,
        {
            proof {
                assert(self.phases@.subrange(0, i + 1).drop_last() =~= self.phases@.subrange(0, i as int));
            }
            if self.phases[i].level == level {
                c = c + 1;
            }
            i = i + 1;
        }
        proof {
            assert(self.phases@.subrange(0, i as int) =~= self.phases@);
        }
        c
    }
}

} // verus!
