use vstd::prelude::*;

verus! {

/// Nanoseconds in one second.
pub const NS_PER_SEC: u64 = 1_000_000_000;

/// What the demuxer reports about the opened stream.
///
/// The frame-rate pair is read as seconds per frame `fps_den / fps_num`, and
/// the timebase pair as seconds per tick `tb_den / tb_num`.
#[derive(Clone, Copy, Debug, PartialEq, Eq, Structural)]
pub struct Stream {
    pub total_frames: u32,
    pub fps_num: u32,
    pub fps_den: u32,
    pub tb_num: u32,
    pub tb_den: u32,
}

/// `a / b` rounded to the nearest integer, halves away from zero.
pub open spec fn round_div(a: int, b: int) -> int
    recommends
        b > 0,
{
    if a >= 0 {
        (2 * a + b) / (2 * b)
    } else {
        -((2 * (-a) + b) / (2 * b))
    }
}

/// `x` clamped into the range of `u64`.
pub open spec fn sat_u64(x: int) -> int {
    if x < 0 {
        0
    } else if x > u64::MAX {
        u64::MAX as int
    } else {
        x
    }
}

/// `x` clamped into the range of `i64`.
pub open spec fn sat_i64(x: int) -> int {
    if x < i64::MIN {
        i64::MIN as int
    } else if x > i64::MAX {
        i64::MAX as int
    } else {
        x
    }
}

/// No rational component of the descriptor is zero.
pub open spec fn valid(s: Stream) -> bool {
    s.fps_num != 0 && s.fps_den != 0 && s.tb_num != 0 && s.tb_den != 0
}

/// The descriptor is valid, plays at one frame per second or faster, and has
/// at least one frame: the stress phases run on it.
pub open spec fn runnable(s: Stream) -> bool {
    valid(s) && s.fps_num >= s.fps_den && s.total_frames > 0
}

/// The last nanosecond inside the stream: the largest `t` with
/// `t * fps_num < total_frames * fps_den * 1e9` (zero for an empty stream).
pub open spec fn last_ns(s: Stream) -> int {
    let end = s.total_frames * s.fps_den * NS_PER_SEC;
    if end > 0 {
        (end - 1) / (s.fps_num as int)
    } else {
        0
    }
}

/// Presentation time of frame `k`, in nanoseconds: `k * spf * 1e9` rounded
/// to the nearest, then clamped to the last nanosecond inside the stream
/// (which matters only when a frame lasts less than a nanosecond).
pub open spec fn frame_ns(s: Stream, k: int) -> int {
    let r = round_div(k * s.fps_den * NS_PER_SEC, s.fps_num as int);
    if r > last_ns(s) {
        last_ns(s)
    } else {
        r
    }
}

/// `ticks` of the timebase, in nanoseconds.
pub open spec fn ticks_ns(s: Stream, ticks: int) -> int {
    round_div(ticks * s.tb_den * NS_PER_SEC, s.tb_num as int)
}

/// `ns` nanoseconds, in ticks of the timebase.
pub open spec fn ns_ticks(s: Stream, ns: int) -> int {
    round_div(ns * s.tb_num, s.tb_den * NS_PER_SEC)
}

/// `ns` rounded to the timebase's granularity and back to nanoseconds.
pub open spec fn requantized(s: Stream, ns: int) -> int {
    ticks_ns(s, sat_i64(ns_ticks(s, ns)))
}

/// A seek target inside the stream: `0 <= ns < total_frames * spf * 1e9`,
/// compared exactly.
pub open spec fn in_stream(s: Stream, ns: int) -> bool {
    0 <= ns && ns * s.fps_num < s.total_frames * s.fps_den * NS_PER_SEC
}

/// Rounds `a / b` to the nearest integer, halves away from zero.
pub fn div_round(a: i128, b: u128) -> (r: i128)
    requires
        0 < b <= 0x1_0000_0000_0000_0000_0000_0000u128,
        -0x2000_0000_0000_0000_0000_0000_0000_0000i128 <= a
            <= 0x2000_0000_0000_0000_0000_0000_0000_0000i128,
    ensures
        r as int == round_div(a as int, b as int),
{
    if a >= 0 {
        let q: u128 = (2 * (a as u128) + b) / (2 * b);
        assert(q <= 2 * (a as u128) + b) by (nonlinear_arith)
            requires
                q == (2 * (a as u128) + b) / (2 * b),
                b > 0,
        ;
        q as i128
    } else {
        let m: u128 = (-a) as u128;
        let q: u128 = (2 * m + b) / (2 * b);
        assert(q <= 2 * m + b) by (nonlinear_arith)
            requires
                q == (2 * m + b) / (2 * b),
                b > 0,
        ;
        -(q as i128)
    }
}

proof fn lemma_mul3_bound(x: int, y: int, z: int, bx: int, by_: int, bz: int)
    requires
        0 <= x <= bx,
        0 <= y <= by_,
        0 <= z <= bz,
    ensures
        0 <= x * y * z <= bx * by_ * bz,
{
    assert(0 <= x * y <= bx * by_) by (nonlinear_arith)
        requires
            0 <= x <= bx,
            0 <= y <= by_,
    ;
    assert(0 <= (x * y) * z <= (bx * by_) * bz) by (nonlinear_arith)
        requires
            0 <= x * y <= bx * by_,
            0 <= z <= bz,
    ;
}

impl Stream {
    /// No rational component is zero.
    pub fn is_valid(&self) -> (r: bool)
        ensures
            r == valid(*self),
    {
        self.fps_num != 0 && self.fps_den != 0 && self.tb_num != 0 && self.tb_den != 0
    }

    /// The stress phases run on this stream.
    pub fn is_runnable(&self) -> (r: bool)
        ensures
            r == runnable(*self),
    {
        self.is_valid() && self.fps_num >= self.fps_den && self.total_frames > 0
    }

    /// Presentation time of frame `k` in nanoseconds, rounded to the nearest,
    /// kept inside the stream, and clamped into `u64`.
    pub fn frame_to_ns(&self, k: u32) -> (r: u64)
        requires
            valid(*self),
        ensures
            r as int == sat_u64(frame_ns(*self, k as int)),
    {
        proof {
            lemma_mul3_bound(k as int, self.fps_den as int, NS_PER_SEC as int,
                0xffff_ffff, 0xffff_ffff, NS_PER_SEC as int);
        }
        let a: u128 = (k as u128) * (self.fps_den as u128) * (NS_PER_SEC as u128);
        let rounded: i128 = div_round(a as i128, self.fps_num as u128);
        proof {
            lemma_mul3_bound(self.total_frames as int, self.fps_den as int, NS_PER_SEC as int,
                0xffff_ffff, 0xffff_ffff, NS_PER_SEC as int);
            vstd::arithmetic::div_mod::lemma_div_pos_is_pos(
                2 * (a as int) + self.fps_num, 2 * (self.fps_num as int));
        }
        let end: u128 = (self.total_frames as u128) * (self.fps_den as u128) * (NS_PER_SEC as u128);
        let last: u128 = if end > 0 { (end - 1) / (self.fps_num as u128) } else { 0 };
        proof {
            if end > 0 {
                let e = end as int - 1;
                let n = self.fps_num as int;
                assert(e / n <= e) by (nonlinear_arith)
                    requires
                        e >= 0,
                        n >= 1,
                ;
            }
        }
        let v: u128 = if rounded as u128 > last { last } else { rounded as u128 };
        if v > u64::MAX as u128 {
            u64::MAX
        } else {
            v as u64
        }
    }

    /// `ns` is a seek target inside the stream.
    pub fn contains(&self, ns: i128) -> (r: bool)
        requires
            valid(*self),
        ensures
            r == in_stream(*self, ns as int),
    {
        proof {
            lemma_mul3_bound(self.total_frames as int, self.fps_den as int, NS_PER_SEC as int,
                0xffff_ffff, 0xffff_ffff, NS_PER_SEC as int);
        }
        let limit: u128 = (self.total_frames as u128) * (self.fps_den as u128) * (NS_PER_SEC as u128);
        if ns < 0 {
            false
        } else if ns >= 0x8000_0000_0000_0000_0000_0000i128 {
            proof {
                assert((ns as int) * self.fps_num >= 0x8000_0000_0000_0000_0000_0000int)
                    by (nonlinear_arith)
                    requires
                        ns >= 0x8000_0000_0000_0000_0000_0000int,
                        self.fps_num >= 1,
                ;
            }
            false
        } else {
            proof {
                assert((ns as int) * self.fps_num <= 0x8000_0000_0000_0000_0000_0000int * 0xffff_ffff)
                    by (nonlinear_arith)
                    requires
                        0 <= ns <= 0x8000_0000_0000_0000_0000_0000int,
                        self.fps_num <= 0xffff_ffff,
                ;
            }
            (ns as u128) * (self.fps_num as u128) < limit
        }
    }

    /// `ticks` of the timebase in nanoseconds, clamped into `i64`.
    pub fn ticks_to_ns(&self, ticks: i64) -> (r: i64)
        requires
            valid(*self),
        ensures
            r as int == sat_i64(ticks_ns(*self, ticks as int)),
    {
        let mag: u64 = if ticks < 0 { (-(ticks as i128)) as u64 } else { ticks as u64 };
        proof {
            lemma_mul3_bound(mag as int, self.tb_den as int, NS_PER_SEC as int,
                0x8000_0000_0000_0000, 0xffff_ffff, NS_PER_SEC as int);
            assert((ticks as int) * self.tb_den * NS_PER_SEC == if ticks < 0 {
                -((mag as int) * self.tb_den * NS_PER_SEC)
            } else {
                (mag as int) * self.tb_den * NS_PER_SEC
            }) by (nonlinear_arith)
                requires
                    mag as int == if ticks < 0 { -(ticks as int) } else { ticks as int },
            ;
        }
        let p: i128 = ((mag as u128) * (self.tb_den as u128) * (NS_PER_SEC as u128)) as i128;
        let a: i128 = if ticks < 0 { -p } else { p };
        let v: i128 = div_round(a, self.tb_num as u128);
        if v > i64::MAX as i128 {
            i64::MAX
        } else if v < i64::MIN as i128 {
            i64::MIN
        } else {
            v as i64
        }
    }

    /// `ns` rounded to the nearest tick of the timebase and back to nanoseconds.
    pub fn requantize(&self, ns: i128) -> (r: i128)
        requires
            valid(*self),
            -0x1_0000_0000_0000_0000i128 <= ns <= 0x1_0000_0000_0000_0000i128,
        ensures
            r as int == requantized(*self, ns as int),
    {
        let mag: u128 = if ns < 0 { (-ns) as u128 } else { ns as u128 };
        proof {
            assert(0 <= (mag as int) * self.tb_num <= 0x1_0000_0000_0000_0000int * 0xffff_ffff)
                by (nonlinear_arith)
                requires
                    0 <= mag <= 0x1_0000_0000_0000_0000int,
                    0 <= self.tb_num <= 0xffff_ffff,
            ;
            assert((ns as int) * self.tb_num == if ns < 0 {
                -((mag as int) * self.tb_num)
            } else {
                (mag as int) * self.tb_num
            }) by (nonlinear_arith)
                requires
                    mag as int == if ns < 0 { -(ns as int) } else { ns as int },
            ;
            assert(0 < (self.tb_den as int) * NS_PER_SEC <= 0xffff_ffff * NS_PER_SEC)
                by (nonlinear_arith)
                requires
                    0 < self.tb_den <= 0xffff_ffff,
            ;
        }
        let p: i128 = ((mag as u128) * (self.tb_num as u128)) as i128;
        let a: i128 = if ns < 0 { -p } else { p };
        let t: i128 = div_round(a, (self.tb_den as u128) * (NS_PER_SEC as u128));
        let ticks: i64 = if t > i64::MAX as i128 {
            i64::MAX
        } else if t < i64::MIN as i128 {
            i64::MIN
        } else {
            t as i64
        };
        let mag2: u64 = if ticks < 0 { (-(ticks as i128)) as u64 } else { ticks as u64 };
        proof {
            lemma_mul3_bound(mag2 as int, self.tb_den as int, NS_PER_SEC as int,
                0x8000_0000_0000_0000, 0xffff_ffff, NS_PER_SEC as int);
            assert((ticks as int) * self.tb_den * NS_PER_SEC == if ticks < 0 {
                -((mag2 as int) * self.tb_den * NS_PER_SEC)
            } else {
                (mag2 as int) * self.tb_den * NS_PER_SEC
            }) by (nonlinear_arith)
                requires
                    mag2 as int == if ticks < 0 { -(ticks as int) } else { ticks as int },
            ;
        }
        let p2: i128 = ((mag2 as u128) * (self.tb_den as u128) * (NS_PER_SEC as u128)) as i128;
        let a2: i128 = if ticks < 0 { -p2 } else { p2 };
        div_round(a2, self.tb_num as u128)
    }

    /// `ns` nanoseconds in ticks of the timebase, clamped into `i64`.
    pub fn ns_to_ticks(&self, ns: u64) -> (r: i64)
        requires
            valid(*self),
        ensures
            r as int == sat_i64(ns_ticks(*self, ns as int)),
    {
        proof {
            assert(0 <= (ns as int) * self.tb_num <= 0xffff_ffff_ffff_ffffint * 0xffff_ffff)
                by (nonlinear_arith)
                requires
                    0 <= self.tb_num <= 0xffff_ffff,
            ;
            assert(0 < (self.tb_den as int) * NS_PER_SEC <= 0xffff_ffff * NS_PER_SEC)
                by (nonlinear_arith)
                requires
                    0 < self.tb_den <= 0xffff_ffff,
            ;
        }
        let a: i128 = ((ns as u128) * (self.tb_num as u128)) as i128;
        let t: i128 = div_round(a, (self.tb_den as u128) * (NS_PER_SEC as u128));
        if t > i64::MAX as i128 {
            i64::MAX
        } else {
            t as i64
        }
    }
}

} // verus!
