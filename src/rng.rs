use vstd::prelude::*;

verus! {

/// State of the 128-bit xorshift generator: four 32-bit words.
#[derive(Clone, Copy, Debug, PartialEq, Eq, Structural)]
pub struct Xor128 {
    pub s0: u32,
    pub s1: u32,
    pub s2: u32,
    pub s3: u32,
}

/// The state that seeding with `v` produces; no seed gives the all-zero state.
pub open spec fn seeded(v: u32) -> Xor128 {
    Xor128 {
        s0: v,
        s1: (v & 0xffff0000u32) | (!v & 0xffffu32),
        s2: (!v & 0xffff0000u32) | (v & 0xffffu32),
        s3: !v,
    }
}

/// The new last word of one xorshift step (all shifts logical).
pub open spec fn mixed(s: Xor128) -> u32 {
    let t: u32 = s.s0 ^ (s.s0 << 11u32);
    s.s3 ^ (s.s3 >> 19u32) ^ (t ^ (t >> 8u32))
}

/// The state after one step.
pub open spec fn advanced(s: Xor128) -> Xor128 {
    Xor128 { s0: s.s1, s1: s.s2, s2: s.s3, s3: mixed(s) }
}

/// `w` read as a signed 32-bit integer, then shifted right arithmetically by one.
pub open spec fn signed_half(w: u32) -> int {
    if w < 0x8000_0000u32 {
        (w / 2) as int
    } else {
        (w / 2) as int - 0x8000_0000int
    }
}

/// The value that one step from `s` returns.
pub open spec fn output(s: Xor128) -> int {
    signed_half(mixed(s))
}

/// The state after `n` steps.
pub open spec fn advanced_by(s: Xor128, n: nat) -> Xor128
    decreases n,
{
    if n == 0 {
        s
    } else {
        advanced_by(advanced(s), (n - 1) as nat)
    }
}

/// The first `n` values that the generator in state `s` returns, in order.
pub open spec fn draws(s: Xor128, n: nat) -> Seq<int>
    decreases n,
{
    if n == 0 {
        Seq::empty()
    } else {
        seq![output(s)].add(draws(advanced(s), (n - 1) as nat))
    }
}

/// Every value the generator returns lies in `[-2^30, 2^30)`.
pub open spec fn in_draw_range(x: int) -> bool {
    -0x4000_0000 <= x < 0x4000_0000
}

impl Xor128 {
    /// Seeds the generator.
    pub fn new(seed: u32) -> (r: Xor128)
        ensures
            r == seeded(seed),
    {
        Xor128 {
            s0: seed,
            s1: (seed & 0xffff0000u32) | (!seed & 0xffffu32),
            s2: (!seed & 0xffff0000u32) | (seed & 0xffffu32),
            s3: !seed,
        }
    }

    /// Performs one xorshift step and returns the new word, halved with sign.
    pub fn next(&mut self) -> (r: i32)
        ensures
            *final(self) == advanced(*old(self)),
            r as int == output(*old(self)),
            in_draw_range(r as int),
    {
        let x: u32 = self.s0;
        let t: u32 = x ^ (x << 11u32);
        self.s0 = self.s1;
        self.s1 = self.s2;
        self.s2 = self.s3;
        let w0: u32 = self.s3;
        let w: u32 = w0 ^ (w0 >> 19u32) ^ (t ^ (t >> 8u32));
        self.s3 = w;
        if w < 0x8000_0000u32 {
            (w / 2) as i32
        } else {
            ((w / 2) as i64 - 0x8000_0000i64) as i32
        }
    }
}

/// The first `n` values of the generator seeded with `seed`.
pub fn first_draws(seed: u32, n: usize) -> (r: Vec<i32>)
    ensures
        r@.len() == n,
        forall|i: int| 0 <= i < n ==> r@[i] as int == draws(seeded(seed), n as nat)[i],
{
    let mut g = Xor128::new(seed);
    let mut out: Vec<i32> = Vec::new();
    let mut k: usize = 0;
    while k < n
        invariant
            k <= n,
            out@.len() == k,
            g == advanced_by(seeded(seed), k as nat),
            forall|i: int| 0 <= i < k ==> out@[i] as int == draws(seeded(seed), n as nat)[i],
        decreases n - k,
    {
        proof {
            lemma_draws_split(seeded(seed), k as nat, n as nat);
        }
        let v = g.next();
        proof {
            lemma_advanced_by_step(seeded(seed), k as nat);
        }
        out.push(v);
        k = k + 1;
    }
    out
}

proof fn lemma_advanced_by_step(s: Xor128, k: nat)
    ensures
        advanced_by(s, k + 1) == advanced(advanced_by(s, k)),
    decreases k,
{
    assert(advanced_by(s, k + 1) == advanced_by(advanced(s), k));
    if k > 0 {
        lemma_advanced_by_step(advanced(s), (k - 1) as nat);
        assert(advanced_by(s, k) == advanced_by(advanced(s), (k - 1) as nat));
    }
}

/// The `k`-th draw of `n` from `s` is the output of the state `k` steps on.
proof fn lemma_draws_split(s: Xor128, k: nat, n: nat)
    requires
        k < n,
    ensures
        draws(s, n).len() == n,
        draws(s, n)[k as int] == output(advanced_by(s, k)),
    decreases k,
{
    lemma_draws_len(s, n);
    lemma_draws_len(advanced(s), (n - 1) as nat);
    if k > 0 {
        lemma_draws_split(advanced(s), (k - 1) as nat, (n - 1) as nat);
    }
}

proof fn lemma_draws_len(s: Xor128, n: nat)
    ensures
        draws(s, n).len() == n,
    decreases n,
{
    if n > 0 {
        lemma_draws_len(advanced(s), (n - 1) as nat);
    }
}

/// A seed from a clock reading: `1e9 * seconds + nanoseconds`, in 64-bit
/// wrapping arithmetic, truncated to 32 bits. Since 2^32 divides 2^64, that is
/// the exact sum reduced modulo 2^32.
pub fn clock_seed(seconds: u64, nanoseconds: u64) -> (r: u32)
    ensures
        r as int == (1_000_000_000 * seconds + nanoseconds) % 0x1_0000_0000,
{
    assert(1_000_000_000 * (seconds as int) <= 1_000_000_000 * 0xffff_ffff_ffff_ffffint)
        by (nonlinear_arith)
        requires
            seconds <= 0xffff_ffff_ffff_ffffint,
    ;
    let total: u128 = 1_000_000_000u128 * (seconds as u128) + nanoseconds as u128;
    (total % 0x1_0000_0000u128) as u32
}

/// Two generators seeded alike return the same values in the same order.
pub proof fn lemma_seed_determines_draws(a: Xor128, b: Xor128, seed: u32, n: nat)
    requires
        a == seeded(seed),
        b == seeded(seed),
    ensures
        draws(a, n) == draws(b, n),
        advanced_by(a, n) == advanced_by(b, n),
{
}

} // verus!
