use vstd::prelude::*;
use crate::decode::{burst_len, burst_len_of};
use crate::rng::{advanced, in_draw_range, output, seeded, Xor128};
use crate::timing::{
    frame_ns, in_stream, requantized, round_div, runnable, sat_i64,
    sat_u64, ticks_ns, valid, Stream, NS_PER_SEC,
};

verus! {

/// Random seeks made before the refinement walk.
pub const PROBE_ROUNDS: u32 = 3;

/// Refinement steps that count as progress.
pub const REFINE_STEPS: u32 = 4;

/// Refinement steps that may be spent recovering from an out-of-range candidate.
pub const REFINE_RECOVERIES: u32 = 2;

/// Frames by which the end-of-stream scan steps back each time.
pub const EOS_STEP: u32 = 5;

/// Drain-and-flush rounds at the end of the stream.
pub const STRESS_ROUNDS: u32 = 2;

/// Largest number of flushes in one drain-and-flush round.
pub const MAX_FLUSHES: u32 = 64;

/// Nanoseconds that one hundredth of the refinement range spans: a refinement
/// step moves by a fraction of `fps * seconds_per_frame` seconds, which is one.
pub const REFINE_UNIT_NS: i64 = 10_000_000;

/// What the orchestrator asks of the program around it.
#[derive(Clone, Copy, Debug, PartialEq, Eq, Structural)]
pub enum Action {
    /// Run the seek procedure to this presentation time (nanoseconds).
    Seek(u64),
    /// Run a decode burst of this many frames (none if zero or less).
    DecodeBurst(i64),
    /// Decode until the demuxer is exhausted.
    DecodeAll,
    /// Flush the decoder this many times, with no input in between.
    Flush(u32),
    /// Close the decoder and the demuxer; the run is over.
    Teardown,
}

/// What came of the last action: whether it succeeded, and the timestamp of
/// the last packet read so far (in timebase ticks).
#[derive(Clone, Copy, Debug, PartialEq, Eq, Structural)]
pub struct Outcome {
    pub ok: bool,
    pub last_ts: i64,
}

/// The step of the run that waits for an outcome.
#[derive(Clone, Copy, Debug, PartialEq, Eq, Structural)]
pub enum Phase {
    ProbeSeek(u32),
    ProbeBurst(u32),
    RefineMid,
    RefineSeek,
    RefineZero,
    RefineBurst,
    EosSeek,
    StressSeek(u32),
    StressDrain(u32),
    StressFlush(u32),
    Done,
    Failed,
}

/// The whole state of a stress run.
#[derive(Clone, Copy, Debug, PartialEq, Eq, Structural)]
pub struct Harness {
    pub stream: Stream,
    pub rng: Xor128,
    pub phase: Phase,
    /// Timestamp of the last packet read, in timebase ticks.
    pub last_ts: i64,
    /// Reference presentation time of the refinement walk, in nanoseconds.
    pub ref_pts: i64,
    /// Refinement steps taken.
    pub attempts: u32,
    /// Refinement steps spent on recoveries.
    pub recoveries: u32,
    /// Frames back from the end that the end-of-stream scan has reached.
    pub shift: u32,
}

/// The run is over.
pub open spec fn is_terminal(p: Phase) -> bool {
    p == Phase::Done || p == Phase::Failed
}

/// A refinement step may still be taken with these counters.
pub open spec fn refine_open(attempts: int, recoveries: int) -> bool {
    attempts - recoveries < REFINE_STEPS && recoveries < REFINE_RECOVERIES
}

/// The low bit of `d` as a two's-complement integer is set.
pub open spec fn low_bit(d: int) -> bool {
    if d >= 0 {
        d % 2 == 1
    } else {
        (-d) % 2 == 1
    }
}

/// Hundredths of the refinement range that a magnitude draw asks for: the
/// truncating remainder of the draw by 100, in `[0, 100)`. A negative draw
/// gives a negative fraction, which the conversion of the offset to an
/// unsigned count of nanoseconds clamps to zero.
pub open spec fn refine_hundredths(frac_draw: int) -> int {
    if frac_draw >= 0 {
        frac_draw % 100
    } else {
        0
    }
}

/// Offset of a refinement candidate from the reference, in nanoseconds,
/// from a sign draw and a magnitude draw.
pub open spec fn refine_offset(sign_draw: int, frac_draw: int) -> int {
    let m = refine_hundredths(frac_draw);
    if low_bit(sign_draw) {
        -(m * REFINE_UNIT_NS)
    } else {
        m * REFINE_UNIT_NS
    }
}

/// Number of flushes in a drain-and-flush round, from one draw.
pub open spec fn flush_count(d: int) -> int {
    1 + d % (MAX_FLUSHES as int)
}

/// Seek target of a random probe, from one draw: a frame picked by the draw
/// read as unsigned.
pub open spec fn probe_target(s: Stream, d: int) -> int {
    let u = if d >= 0 { d } else { d + 0x1_0000_0000 };
    sat_u64(frame_ns(s, u % (s.total_frames as int)))
}

/// The midpoint of the stream, the target of a recovery.
pub open spec fn midpoint_target(s: Stream) -> int {
    sat_u64(frame_ns(s, (s.total_frames / 2) as int))
}

/// Seek target of the end-of-stream scan at `shift` frames before the end.
pub open spec fn eos_target(s: Stream, shift: int) -> int {
    sat_u64(frame_ns(s, s.total_frames - shift))
}

/// `h` after one draw.
pub open spec fn drew(h: Harness) -> Harness {
    Harness { rng: advanced(h.rng), ..h }
}

/// Enters drain-and-flush round `j`.
pub open spec fn begin_stress(h: Harness, j: u32) -> (Harness, Action) {
    if j < STRESS_ROUNDS {
        (
            Harness { phase: Phase::StressSeek(j), ..h },
            Action::Seek(eos_target(h.stream, h.shift as int) as u64),
        )
    } else {
        (Harness { phase: Phase::Done, ..h }, Action::Teardown)
    }
}

/// Steps the end-of-stream scan back by one more step.
pub open spec fn begin_eos(h: Harness) -> (Harness, Action) {
    let grown = h.shift + EOS_STEP;
    let shift = if grown > h.stream.total_frames { h.stream.total_frames as int } else { grown };
    (
        Harness { phase: Phase::EosSeek, shift: shift as u32, ..h },
        Action::Seek(eos_target(h.stream, shift) as u64),
    )
}

/// Starts a refinement step, or the end-of-stream scan once the walk is over.
pub open spec fn begin_refine(h: Harness) -> (Harness, Action) {
    if refine_open(h.attempts as int, h.recoveries as int) {
        let sign_draw = output(h.rng);
        let frac_draw = output(advanced(h.rng));
        let g = Harness { rng: advanced(advanced(h.rng)), ..h };
        let cand = requantized(h.stream, h.ref_pts + refine_offset(sign_draw, frac_draw));
        if in_stream(h.stream, cand) {
            (Harness { phase: Phase::RefineSeek, ..g }, Action::Seek(sat_u64(cand) as u64))
        } else {
            (
                Harness { phase: Phase::RefineMid, ..g },
                Action::Seek(midpoint_target(h.stream) as u64),
            )
        }
    } else {
        begin_eos(h)
    }
}

/// Starts random probe `i`, or the refinement walk after the last one.
pub open spec fn begin_probe(h: Harness, i: u32) -> (Harness, Action) {
    if i < PROBE_ROUNDS {
        (
            Harness { phase: Phase::ProbeSeek(i), ..drew(h) },
            Action::Seek(probe_target(h.stream, output(h.rng)) as u64),
        )
    } else {
        begin_refine(
            Harness { ref_pts: sat_i64(ticks_ns(h.stream, h.last_ts as int)) as i64, ..h },
        )
    }
}

/// Draws the size of a burst and asks for it in `phase`.
pub open spec fn begin_burst(h: Harness, phase: Phase) -> (Harness, Action) {
    (
        Harness { phase, ..drew(h) },
        Action::DecodeBurst(burst_len_of(h.stream, output(h.rng)) as i64),
    )
}

/// The state of a new run and its first action.
pub open spec fn initial(s: Stream, seed: u32) -> (Harness, Action) {
    let h = Harness {
        stream: s,
        rng: seeded(seed),
        phase: Phase::Done,
        last_ts: 0,
        ref_pts: 0,
        attempts: 0,
        recoveries: 0,
        shift: 0,
    };
    if runnable(s) {
        begin_probe(h, 0)
    } else {
        (h, Action::Teardown)
    }
}

/// The state after outcome `ev` of the pending action, and the next action.
pub open spec fn next(h0: Harness, ev: Outcome) -> (Harness, Action) {
    let h = Harness { last_ts: ev.last_ts, ..h0 };
    let updated = sat_i64(ticks_ns(h.stream, ev.last_ts as int)) as i64;
    match h.phase {
        Phase::ProbeSeek(i) => if ev.ok {
            begin_burst(h, Phase::ProbeBurst(i))
        } else {
            begin_probe(h, (i + 1) as u32)
        },
        Phase::ProbeBurst(i) => if ev.ok {
            begin_probe(h, (i + 1) as u32)
        } else {
            (Harness { phase: Phase::Failed, ..h }, Action::Teardown)
        },
        Phase::RefineMid => if ev.ok {
            begin_refine(
                Harness {
                    ref_pts: updated,
                    attempts: (h.attempts + 1) as u32,
                    recoveries: (h.recoveries + 1) as u32,
                    ..h
                },
            )
        } else {
            begin_eos(h)
        },
        Phase::RefineSeek => if ev.ok {
            begin_burst(h, Phase::RefineBurst)
        } else {
            (Harness { phase: Phase::RefineZero, ..h }, Action::Seek(0))
        },
        Phase::RefineZero => if ev.ok {
            begin_burst(h, Phase::RefineBurst)
        } else {
            (Harness { phase: Phase::Failed, ..h }, Action::Teardown)
        },
        Phase::RefineBurst => if ev.ok {
            begin_refine(Harness { ref_pts: updated, attempts: (h.attempts + 1) as u32, ..h })
        } else {
            (Harness { phase: Phase::Failed, ..h }, Action::Teardown)
        },
        Phase::EosSeek => if ev.ok {
            begin_stress(h, 0)
        } else if h.shift >= h.stream.total_frames {
            (Harness { phase: Phase::Failed, ..h }, Action::Teardown)
        } else {
            begin_eos(h)
        },
        Phase::StressSeek(j) => if ev.ok {
            (Harness { phase: Phase::StressDrain(j), ..h }, Action::DecodeAll)
        } else {
            (Harness { phase: Phase::Failed, ..h }, Action::Teardown)
        },
        Phase::StressDrain(j) => if ev.ok {
            (
                Harness { phase: Phase::StressFlush(j), ..drew(h) },
                Action::Flush(flush_count(output(h.rng)) as u32),
            )
        } else {
            (Harness { phase: Phase::Failed, ..h }, Action::Teardown)
        },
        Phase::StressFlush(j) => begin_stress(h, (j + 1) as u32),
        Phase::Done => (h0, Action::Teardown),
        Phase::Failed => (h0, Action::Teardown),
    }
}

impl Harness {
    /// Consistency of a run: counters within their bounds, and a stream the
    /// phases can run on whenever a phase is under way.
    pub open spec fn wf(&self) -> bool {
        &&& !is_terminal(self.phase) ==> runnable(self.stream)
        &&& self.recoveries <= REFINE_RECOVERIES
        &&& self.attempts - self.recoveries <= REFINE_STEPS
        &&& self.recoveries <= self.attempts
        &&& self.shift <= self.stream.total_frames
        &&& match self.phase {
            Phase::ProbeSeek(i) => i < PROBE_ROUNDS,
            Phase::ProbeBurst(i) => i < PROBE_ROUNDS,
            Phase::RefineMid | Phase::RefineSeek | Phase::RefineZero | Phase::RefineBurst =>
                refine_open(self.attempts as int, self.recoveries as int),
            Phase::EosSeek => self.shift > 0,
            Phase::StressSeek(j) => j < STRESS_ROUNDS && self.shift > 0,
            Phase::StressDrain(j) => j < STRESS_ROUNDS && self.shift > 0,
            Phase::StressFlush(j) => j < STRESS_ROUNDS && self.shift > 0,
            Phase::Done | Phase::Failed => true,
        }
    }
}

/// The remainder of `d / m` in `[0, m)`.
fn floor_rem(d: i32, m: i64) -> (r: i64)
    requires
        0 < m <= 100,
    ensures
        r as int == (d as int) % (m as int),
        0 <= r < m,
{
    if d >= 0 {
        (d as i64) % m
    } else {
        let q: i64 = (-(d as i64)) % m;
        proof {
            let dd = d as int;
            let mm = m as int;
            let qq = q as int;
            assert(qq == (-dd) % mm);
            vstd::arithmetic::div_mod::lemma_fundamental_div_mod(-dd, mm);
            vstd::arithmetic::div_mod::lemma_mod_bound(-dd, mm);
            let k = (-dd) / mm;
            assert(dd == mm * (-k) - qq) by (nonlinear_arith)
                requires -dd == mm * k + qq;
            if qq == 0 {
                assert(dd == mm * (-k));
                vstd::arithmetic::div_mod::lemma_mod_multiples_basic(-k, mm);
                assert((-k) * mm == mm * (-k)) by (nonlinear_arith);
            } else {
                assert(dd == mm * (-k - 1) + (mm - qq)) by (nonlinear_arith)
                    requires dd == mm * (-k) - qq;
                vstd::arithmetic::div_mod::lemma_fundamental_div_mod_converse(
                    dd, mm, -k - 1, mm - qq);
            }
        }
        if q == 0 {
            0
        } else {
            m - q
        }
    }
}

/// Offset of a refinement candidate, in nanoseconds.
fn offset_of(sign_draw: i32, frac_draw: i32) -> (r: i64)
    ensures
        r as int == refine_offset(sign_draw as int, frac_draw as int),
        -1_000_000_000 < r < 1_000_000_000,
{
    let m: i64 = if frac_draw >= 0 { (frac_draw % 100) as i64 } else { 0 };
    let odd: bool = if sign_draw >= 0 {
        sign_draw % 2 == 1
    } else {
        (-(sign_draw as i64)) % 2 == 1
    };
    if odd {
        -(m * REFINE_UNIT_NS)
    } else {
        m * REFINE_UNIT_NS
    }
}

impl Harness {
    /// Draws one value from the run's generator.
    fn draw(&mut self) -> (r: i32)
        ensures
            *final(self) == drew(*old(self)),
            r as int == output(old(self).rng),
            in_draw_range(r as int),
    {
        self.rng.next()
    }

    fn stress(&mut self, j: u32) -> (r: Action)
        requires
            valid(old(self).stream),
            old(self).shift <= old(self).stream.total_frames,
        ensures
            (*final(self), r) == begin_stress(*old(self), j),
    {
        if j < STRESS_ROUNDS {
            self.phase = Phase::StressSeek(j);
            let k: u32 = self.stream.total_frames - self.shift;
            Action::Seek(self.stream.frame_to_ns(k))
        } else {
            self.phase = Phase::Done;
            Action::Teardown
        }
    }

    fn eos(&mut self) -> (r: Action)
        requires
            valid(old(self).stream),
            old(self).shift <= old(self).stream.total_frames,
        ensures
            (*final(self), r) == begin_eos(*old(self)),
    {
        let total: u32 = self.stream.total_frames;
        let grown: u64 = self.shift as u64 + EOS_STEP as u64;
        let shift: u32 = if grown > total as u64 { total } else { grown as u32 };
        self.phase = Phase::EosSeek;
        self.shift = shift;
        Action::Seek(self.stream.frame_to_ns(total - shift))
    }

    fn refine(&mut self) -> (r: Action)
        requires
            runnable(old(self).stream),
            old(self).shift <= old(self).stream.total_frames,
        ensures
            (*final(self), r) == begin_refine(*old(self)),
    {
        if (self.attempts as i64) - (self.recoveries as i64) < REFINE_STEPS as i64
            && self.recoveries < REFINE_RECOVERIES {
            let sign_draw: i32 = self.rng.next();
            let frac_draw: i32 = self.rng.next();
            let off: i64 = offset_of(sign_draw, frac_draw);
            let cand: i128 = self.stream.requantize(self.ref_pts as i128 + off as i128);
            if self.stream.contains(cand) {
                self.phase = Phase::RefineSeek;
                let t: u64 = if cand > u64::MAX as i128 { u64::MAX } else { cand as u64 };
                Action::Seek(t)
            } else {
                self.phase = Phase::RefineMid;
                Action::Seek(self.stream.frame_to_ns(self.stream.total_frames / 2))
            }
        } else {
            self.eos()
        }
    }

    fn probe(&mut self, i: u32) -> (r: Action)
        requires
            runnable(old(self).stream),
            old(self).shift <= old(self).stream.total_frames,
        ensures
            (*final(self), r) == begin_probe(*old(self), i),
    {
        if i < PROBE_ROUNDS {
            let d: i32 = self.draw();
            let u: u32 = if d >= 0 { d as u32 } else { (d as i64 + 0x1_0000_0000i64) as u32 };
            self.phase = Phase::ProbeSeek(i);
            Action::Seek(self.stream.frame_to_ns(u % self.stream.total_frames))
        } else {
            self.ref_pts = self.stream.ticks_to_ns(self.last_ts);
            self.refine()
        }
    }

    fn burst(&mut self, phase: Phase) -> (r: Action)
        requires
            runnable(old(self).stream),
        ensures
            (*final(self), r) == begin_burst(*old(self), phase),
    {
        let d: i32 = self.draw();
        self.phase = phase;
        Action::DecodeBurst(burst_len(&self.stream, d))
    }
}

impl Harness {
    /// Starts a run on stream `s` with the generator seeded by `seed`.
    /// A stream the phases cannot run on goes straight to teardown.
    pub fn start(s: Stream, seed: u32) -> (r: (Harness, Action))
        ensures
            r == initial(s, seed),
            r.0.wf(),
    {
        let mut h = Harness {
            stream: s,
            rng: Xor128::new(seed),
            phase: Phase::Done,
            last_ts: 0,
            ref_pts: 0,
            attempts: 0,
            recoveries: 0,
            shift: 0,
        };
        if s.is_runnable() {
            let a = h.probe(0);
            (h, a)
        } else {
            (h, Action::Teardown)
        }
    }

    /// The run is over: the pending action is the teardown.
    pub fn is_finished(&self) -> (r: bool)
        ensures
            r == is_terminal(self.phase),
    {
        match self.phase {
            Phase::Done | Phase::Failed => true,
            _ => false,
        }
    }

    /// Takes the outcome of the pending action and returns the next one.
    pub fn step(&mut self, ev: Outcome) -> (r: Action)
        requires
            old(self).wf(),
        ensures
            (*final(self), r) == next(*old(self), ev),
            final(self).wf(),
    {
        if self.is_finished() {
            return Action::Teardown;
        }
        self.last_ts = ev.last_ts;
        match self.phase {
            Phase::ProbeSeek(i) => {
                if ev.ok {
                    self.burst(Phase::ProbeBurst(i))
                } else {
                    self.probe(i + 1)
                }
            },
            Phase::ProbeBurst(i) => {
                if ev.ok {
                    self.probe(i + 1)
                } else {
                    self.phase = Phase::Failed;
                    Action::Teardown
                }
            },
            Phase::RefineMid => {
                if ev.ok {
                    self.ref_pts = self.stream.ticks_to_ns(ev.last_ts);
                    self.attempts = self.attempts + 1;
                    self.recoveries = self.recoveries + 1;
                    self.refine()
                } else {
                    self.eos()
                }
            },
            Phase::RefineSeek => {
                if ev.ok {
                    self.burst(Phase::RefineBurst)
                } else {
                    self.phase = Phase::RefineZero;
                    Action::Seek(0)
                }
            },
            Phase::RefineZero => {
                if ev.ok {
                    self.burst(Phase::RefineBurst)
                } else {
                    self.phase = Phase::Failed;
                    Action::Teardown
                }
            },
            Phase::RefineBurst => {
                if ev.ok {
                    self.ref_pts = self.stream.ticks_to_ns(ev.last_ts);
                    self.attempts = self.attempts + 1;
                    self.refine()
                } else {
                    self.phase = Phase::Failed;
                    Action::Teardown
                }
            },
            Phase::EosSeek => {
                if ev.ok {
                    self.stress(0)
                } else if self.shift >= self.stream.total_frames {
                    self.phase = Phase::Failed;
                    Action::Teardown
                } else {
                    self.eos()
                }
            },
            Phase::StressSeek(j) => {
                if ev.ok {
                    self.phase = Phase::StressDrain(j);
                    Action::DecodeAll
                } else {
                    self.phase = Phase::Failed;
                    Action::Teardown
                }
            },
            Phase::StressDrain(j) => {
                if ev.ok {
                    let d: i32 = self.draw();
                    self.phase = Phase::StressFlush(j);
                    Action::Flush((1 + floor_rem(d, MAX_FLUSHES as i64)) as u32)
                } else {
                    self.phase = Phase::Failed;
                    Action::Teardown
                }
            },
            Phase::StressFlush(j) => self.stress(j + 1),
            Phase::Done | Phase::Failed => Action::Teardown,
        }
    }
}

/// The actions of a run from `h` answered by `evs` in order.
pub open spec fn actions(h: Harness, evs: Seq<Outcome>) -> Seq<Action>
    decreases evs.len(),
{
    if evs.len() == 0 {
        Seq::empty()
    } else {
        let (g, a) = next(h, evs[0]);
        seq![a].add(actions(g, evs.subrange(1, evs.len() as int)))
    }
}

/// Determinism: two runs on the same stream with the same seed, answered by
/// the same outcomes, ask for the same actions in the same order (seek
/// targets, burst sizes and flush counts alike).
pub proof fn lemma_same_seed_same_run(s: Stream, seed: u32, evs: Seq<Outcome>, h1: Harness, h2: Harness)
    requires
        h1 == initial(s, seed).0,
        h2 == initial(s, seed).0,
    ensures
        actions(h1, evs) == actions(h2, evs),
{
}

/// The start of a frame of the stream lies inside it.
proof fn lemma_frame_in_stream(s: Stream, k: int)
    requires
        valid(s),
        0 <= k < s.total_frames,
    ensures
        in_stream(s, sat_u64(frame_ns(s, k))),
        in_stream(s, frame_ns(s, k)),
{
    let n = s.fps_num as int;
    let a = k * s.fps_den * NS_PER_SEC;
    let end = s.total_frames * s.fps_den * NS_PER_SEC;
    assert(a >= 0 && end >= 1) by (nonlinear_arith)
        requires
            a == k * s.fps_den * NS_PER_SEC,
            end == s.total_frames * s.fps_den * NS_PER_SEC,
            k >= 0,
            s.total_frames >= 1,
            s.fps_den >= 1,
    ;
    vstd::arithmetic::div_mod::lemma_div_pos_is_pos(2 * a + n, 2 * n);
    let last = (end - 1) / n;
    vstd::arithmetic::div_mod::lemma_fundamental_div_mod(end - 1, n);
    vstd::arithmetic::div_mod::lemma_mod_pos_bound(end - 1, n);
    vstd::arithmetic::div_mod::lemma_div_pos_is_pos(end - 1, n);
    assert(last * n <= end - 1) by (nonlinear_arith)
        requires
            end - 1 == n * last + (end - 1) % n,
            (end - 1) % n >= 0,
    ;
    let f = frame_ns(s, k);
    assert(0 <= f <= last);
    let t = sat_u64(f);
    assert(0 <= t <= f);
    assert(t * n <= last * n && f * n <= last * n) by (nonlinear_arith)
        requires
            0 <= t <= f <= last,
            n >= 0,
    ;
}

/// Clamping a target of the stream into `u64` keeps it in the stream.
proof fn lemma_clamp_in_stream(s: Stream)
    ensures
        forall|x: int| #[trigger] in_stream(s, sat_u64(x)) || !in_stream(s, x),
{
    assert forall|x: int| in_stream(s, x) implies #[trigger] in_stream(s, sat_u64(x)) by {
        let t = sat_u64(x);
        assert(t * s.fps_num <= x * s.fps_num) by (nonlinear_arith)
            requires
                0 <= t <= x,
                s.fps_num >= 0,
        ;
    }
}

/// Every seek target the orchestrator asks for lies in the stream:
/// `0 <= t` and `t * fps_num < total_frames * fps_den * 1e9`. A refinement
/// candidate outside that range is never sought; the midpoint is sought instead.
pub proof fn lemma_seek_targets_in_stream(h: Harness, ev: Outcome)
    requires
        h.wf(),
    ensures
        next(h, ev).1 matches Action::Seek(t) ==> in_stream(h.stream, t as int),
{
    let s = h.stream;
    if !is_terminal(h.phase) {
        lemma_clamp_in_stream(s);
        lemma_frame_in_stream(s, 0);
        lemma_frame_in_stream(s, (s.total_frames / 2) as int);
        let d = output(h.rng);
        let u = if d >= 0 { d } else { d + 0x1_0000_0000 };
        lemma_frame_in_stream(s, u % (s.total_frames as int));
        let grown = h.shift + EOS_STEP;
        let shift = if grown > s.total_frames { s.total_frames as int } else { grown };
        lemma_frame_in_stream(s, s.total_frames - shift);
        if h.shift > 0 {
            lemma_frame_in_stream(s, s.total_frames - h.shift);
        }
    }
}

/// The first seek target of a run lies in the stream.
pub proof fn lemma_first_target_in_stream(s: Stream, seed: u32)
    ensures
        initial(s, seed).1 matches Action::Seek(t) ==> in_stream(s, t as int),
{
    if runnable(s) {
        let d = output(seeded(seed));
        let u = if d >= 0 { d } else { d + 0x1_0000_0000 };
        lemma_frame_in_stream(s, u % (s.total_frames as int));
    }
}

/// Every drain-and-flush round asks for between 1 and 64 flushes.
pub proof fn lemma_flush_counts_bounded(h: Harness, ev: Outcome)
    requires
        h.wf(),
    ensures
        next(h, ev).1 matches Action::Flush(c) ==> 1 <= c <= MAX_FLUSHES,
{
}

/// Steps left before the run can be over, at most.
pub open spec fn rank(h: Harness) -> int {
    let b = h.stream.total_frames + 8;
    let i = b + 4 * (6 - h.attempts);
    let p = b + 32;
    match h.phase {
        Phase::ProbeSeek(k) => p + 2 * (3 - k),
        Phase::ProbeBurst(k) => p + 2 * (3 - k) - 1,
        Phase::RefineMid => i + 3,
        Phase::RefineSeek => i + 3,
        Phase::RefineZero => i + 2,
        Phase::RefineBurst => i + 1,
        Phase::EosSeek => 7 + h.stream.total_frames - h.shift,
        Phase::StressSeek(j) => 3 * (2 - j),
        Phase::StressDrain(j) => 3 * (2 - j) - 1,
        Phase::StressFlush(j) => 3 * (2 - j) - 2,
        Phase::Done | Phase::Failed => 0,
    }
}

/// Termination: every step of a run under way lowers the rank, which never
/// goes below zero. In particular the refinement walk takes at most four
/// productive steps and at most two recoveries whatever the generator
/// returns, and the end-of-stream scan gives up once it reaches the start.
pub proof fn lemma_step_progresses(h: Harness, ev: Outcome)
    requires
        h.wf(),
        !is_terminal(h.phase),
    ensures
        0 <= rank(next(h, ev).0) < rank(h),
        next(h, ev).0.recoveries <= REFINE_RECOVERIES,
        next(h, ev).0.attempts - next(h, ev).0.recoveries <= REFINE_STEPS,
        next(h, ev).0.stream == h.stream,
{
}

/// A finished run stays finished and asks only for teardown.
pub proof fn lemma_terminal_stays(h: Harness, ev: Outcome)
    requires
        is_terminal(h.phase),
    ensures
        next(h, ev) == (h, Action::Teardown),
{
}

} // verus!
