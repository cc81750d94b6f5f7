//! The step sequencer's transport: per step, one `/c_set` write of its gate
//! value (1.0 or 0.0) to a gate bus and one of its CV value to a CV
//! bus, the step advancing modulo the fixed pattern length.
//!
//! Values travel as `f64` bit patterns; the sink turns them into the `f32`
//! that the `/c_set` message carries.
use vstd::prelude::*;

verus! {

/// Number of steps in a sequencer pattern.
pub const SEQUENCER_STEP_COUNT: usize = 16;

/// `f64` bit pattern of 1.0, the value of an open gate.
pub const GATE_ON: u64 = 0x3ff0_0000_0000_0000;

/// A fixed-length step pattern: a gate flag and a CV value (`f64` bit
/// pattern) per step.
#[derive(Debug, PartialEq)]
pub struct SequencerPattern {
    pub gate: Vec<bool>,
    pub cv: Vec<u64>,
}

impl SequencerPattern {
    /// Both lanes hold exactly one entry per step.
    pub open spec fn well_formed(&self) -> bool {
        self.gate@.len() == SEQUENCER_STEP_COUNT && self.cv@.len() == SEQUENCER_STEP_COUNT
    }

    /// The empty pattern: every gate closed, every CV at 0.0.
    pub fn new() -> (p: Self)
        ensures
            p.well_formed(),
            forall|i: int| 0 <= i < SEQUENCER_STEP_COUNT ==> !p.gate@[i] && p.cv@[i] == 0,
    {
        let mut gate: Vec<bool> = Vec::new();
        let mut cv: Vec<u64> = Vec::new();
        let mut i: usize = 0;
        while i < SEQUENCER_STEP_COUNT
            invariant
                i <= SEQUENCER_STEP_COUNT,
                gate@.len() == i,
                cv@.len() == i,
                forall|k: int| 0 <= k < i ==> !gate@[k] && cv@[k] == 0,
            decreases SEQUENCER_STEP_COUNT - i,
        {
            gate.push(false);
            cv.push(0);
            i = i + 1;
        }
        SequencerPattern { gate, cv }
    }
}

impl Clone for SequencerPattern {
    fn clone(&self) -> (r: Self)
        ensures
            r.gate@ == self.gate@,
            r.cv@ == self.cv@,
    {
        SequencerPattern { gate: self.gate.clone(), cv: self.cv.clone() }
    }
}

/// The `k`-th `/c_set` write of a run: even writes carry each gate value of
/// step `k / 2` (modulo the pattern length) to `gate_bus`, odd writes its CV to
/// `cv_bus`.
pub open spec fn step_write(gate_bus: i32, cv_bus: i32, p: SequencerPattern, k: int) -> (i32, u64) {
    let step = (k / 2) % (SEQUENCER_STEP_COUNT as int);
    if k % 2 == 0 {
        (gate_bus, if p.gate@[step] { GATE_ON } else { 0u64 })
    } else {
        (cv_bus, p.cv@[step])
    }
}

/// The transport wraps: a tick one full pattern later writes what the
/// earlier tick wrote.
pub proof fn lemma_step_writes_wrap(gate_bus: i32, cv_bus: i32, p: SequencerPattern, k: int)
    requires
        0 <= k,
    ensures
        step_write(gate_bus, cv_bus, p, k + 2 * (SEQUENCER_STEP_COUNT as int)) == step_write(
            gate_bus,
            cv_bus,
            p,
            k,
        ),
{
    assert((k + 32) / 2 == k / 2 + 16 && (k + 32) % 2 == k % 2) by (nonlinear_arith)
        requires
            0 <= k,
    ;
    assert((k / 2 + 16) % 16 == (k / 2) % 16) by (nonlinear_arith)
        requires
            0 <= k,
    ;
}

/// The writes of `steps` transport ticks, in order.
pub fn sequencer_writes(gate_bus: i32, cv_bus: i32, pattern: &SequencerPattern, steps: usize) -> (r:
    Vec<(i32, u64)>)
    requires
        pattern.well_formed(),
        steps <= usize::MAX / 2,
    ensures
        r@.len() == 2 * steps,
        forall|k: int| 0 <= k < r@.len() ==> #[trigger] r@[k] == step_write(gate_bus, cv_bus, *pattern, k),
{
    let mut r: Vec<(i32, u64)> = Vec::new();
    let mut current: usize = 0;
    let mut t: usize = 0;
    while t < steps
        invariant
            pattern.well_formed(),
            t <= steps <= usize::MAX / 2,
            r@.len() == 2 * t,
            current == t % SEQUENCER_STEP_COUNT,
            forall|k: int| 0 <= k < r@.len() ==> #[trigger] r@[k] == step_write(gate_bus, cv_bus, *pattern, k),
        decreases steps - t,
    {
        let gate_value: u64 = if pattern.gate[current] { GATE_ON } else { 0 };
        let cv_value = pattern.cv[current];
        proof {
            assert((2 * t as int) / 2 == t);
            assert((2 * t as int + 1) / 2 == t);
            assert((2 * t as int) % 2 == 0);
            assert((2 * t as int + 1) % 2 == 1);
        }
        r.push((gate_bus, gate_value));
        r.push((cv_bus, cv_value));
        current = (current + 1) % SEQUENCER_STEP_COUNT;
        proof {
            assert((t + 1) % 16 == (t % 16 + 1) % 16) by (nonlinear_arith);
        }
        t = t + 1;
    }
    r
}

/// Where a sequencer sends its `/c_set` writes; `value` is an `f64` bit
/// pattern. A failing write does not stop the transport.
///
/// A sink that keeps a log of what it was sent says so through
/// `logs_writes`, and `write_log` is that log: each write is appended to
/// it. A sink that keeps none (one that sends to a server) leaves both at
/// their defaults, and nothing is claimed of it.
pub trait SequencerTickSink {
    open spec fn logs_writes() -> bool {
        false
    }

    open spec fn write_log(&self) -> Seq<(i32, u64)> {
        Seq::empty()
    }

    fn send_c_set(&mut self, bus: i32, value: u64) -> (r: Result<(), String>)
        ensures
            Self::logs_writes() ==> final(self).write_log() == old(self).write_log().push((bus, value)),
    ;
}

/// Runs `steps` ticks against `sink` at once, sending the writes of
/// `sequencer_writes` in order; a failing write is skipped. A sink that
/// logs its writes ends with exactly those writes appended to its log.
pub fn run_steps_inline<T: SequencerTickSink>(
    sink: &mut T,
    gate_bus: i32,
    cv_bus: i32,
    pattern: &SequencerPattern,
    steps: usize,
)
    requires
        pattern.well_formed(),
        steps <= usize::MAX / 2,
    ensures
        T::logs_writes() ==> final(sink).write_log() == old(sink).write_log() + Seq::new(
            2 * steps as nat,
            |k: int| step_write(gate_bus, cv_bus, *pattern, k),
        ),
{
    let writes = sequencer_writes(gate_bus, cv_bus, pattern, steps);
    let ghost log0 = sink.write_log();
    let mut k: usize = 0;
    while k < writes.len()
        invariant
            k <= writes@.len(),
            writes@.len() == 2 * steps,
            forall|i: int| 0 <= i < writes@.len() ==> #[trigger] writes@[i] == step_write(gate_bus, cv_bus, *pattern, i),
            T::logs_writes() ==> sink.write_log() == log0 + writes@.take(k as int),
        decreases writes.len() - k,
    {
        let (bus, value) = writes[k];
        let _ = sink.send_c_set(bus, value);
        proof {
            if T::logs_writes() {
                assert(writes@.take(k as int + 1) =~= writes@.take(k as int).push((bus, value)));
            }
        }
        k = k + 1;
    }
    proof {
        if T::logs_writes() {
            assert(writes@.take(k as int) =~= writes@);
            assert(writes@ =~= Seq::new(2 * steps as nat, |k: int| step_write(gate_bus, cv_bus, *pattern, k)));
        }
    }
}

/// A sink that records every write, for checking a transport's output.
pub struct RecordingCSetSink {
    sent: Vec<(i32, u64)>,
}

impl RecordingCSetSink {
    pub closed spec fn spec_sent(&self) -> Seq<(i32, u64)> {
        self.sent@
    }

    /// A sink that has recorded nothing.
    pub fn new() -> (s: Self)
        ensures
            s.spec_sent() == Seq::<(i32, u64)>::empty(),
    {
        RecordingCSetSink { sent: Vec::new() }
    }

    /// The writes recorded so far, in order.
    pub fn writes(&self) -> (r: Vec<(i32, u64)>)
        ensures
            r@ == self.spec_sent(),
    {
        let mut r: Vec<(i32, u64)> = Vec::new();
        let mut i: usize = 0;
        while i < self.sent.len()
            invariant
                i <= self.sent@.len(),
                r@ == self.sent@.take(i as int),
            decreases self.sent.len() - i,
        {
            r.push(self.sent[i]);
            i = i + 1;
            assert(r@ =~= self.sent@.take(i as int));
        }
        assert(self.sent@.take(i as int) =~= self.sent@);
        r
    }
}

impl SequencerTickSink for RecordingCSetSink {
    open spec fn logs_writes() -> bool {
        true
    }

    open spec fn write_log(&self) -> Seq<(i32, u64)> {
        self.spec_sent()
    }

    fn send_c_set(&mut self, bus: i32, value: u64) -> (r: Result<(), String>)
        ensures
            final(self).spec_sent() == old(self).spec_sent().push((bus, value)),
            r is Ok,
    {
        self.sent.push((bus, value));
        Ok(())
    }
}

} // verus!
