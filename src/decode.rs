use vstd::prelude::*;
use crate::rng::in_draw_range;
use crate::timing::{valid, Stream};

verus! {

/// Remainder of `a / m` whose sign follows the dividend (truncating division).
pub open spec fn trunc_rem(a: int, m: int) -> int
    recommends
        m > 0,
{
    if a >= 0 {
        a % m
    } else {
        -((-a) % m)
    }
}

/// `floor(fps * 5)`: the modulus that bounds a decode burst; positive when
/// `fps >= 0.2`.
pub open spec fn burst_modulus(s: Stream) -> int {
    (5 * s.fps_num as int) / (s.fps_den as int)
}

/// Number of frames a burst drawn as `draw` asks for; zero or negative asks for none.
pub open spec fn burst_len_of(s: Stream, draw: int) -> int {
    trunc_rem(draw, burst_modulus(s))
}

/// The number of frames to decode in a burst, from one draw of the generator.
pub fn burst_len(s: &Stream, draw: i32) -> (r: i64)
    requires
        valid(*s),
        5 * s.fps_num >= s.fps_den,
        in_draw_range(draw as int),
    ensures
        r as int == burst_len_of(*s, draw as int),
        -0x4000_0000 <= r < 0x4000_0000,
{
    let m: u64 = (5 * (s.fps_num as u64)) / (s.fps_den as u64);
    proof {
        let num = s.fps_num as int;
        let den = s.fps_den as int;
        vstd::arithmetic::div_mod::lemma_div_is_ordered(den, 5 * num, den);
        vstd::arithmetic::div_mod::lemma_div_by_self(den);
        assert((5 * num) / den >= 1);
    }
    let mag: u64 = if draw >= 0 { draw as u64 } else { (-(draw as i64)) as u64 };
    let q: u64 = mag % m;
    assert(q <= mag) by (nonlinear_arith)
        requires
            q == mag % m,
            m > 0,
    ;
    if draw >= 0 {
        q as i64
    } else {
        -(q as i64)
    }
}

/// Relies on libc::EAGAIN: the decoder reports "try again" as the negated
/// value of this positive error number.
#[verifier::external_body]
fn try_again_code() -> (r: i32)
    ensures
        r > 0,
{
    libc::EAGAIN
}

/// A status from the decoder is fatal: negative, and not "try again".
pub open spec fn is_fatal(status: int, try_again: int) -> bool {
    status < 0 && status != -try_again
}

/// What the decode loop asks of the program around it.
#[derive(Clone, Copy, Debug, PartialEq, Eq, Structural)]
pub enum DecodeAction {
    /// Send the current packet to the decoder.
    SendData,
    /// Fetch one picture from the decoder, releasing it at once if one came.
    GetPicture,
    /// Read the next packet from the demuxer.
    ReadPacket,
    /// The loop is over with this status: zero, or the fatal decoder status.
    Finish(i32),
}

/// What came of the last action.
#[derive(Clone, Copy, Debug, PartialEq, Eq, Structural)]
pub enum DecodeEvent {
    /// The decoder's status for the packet sent.
    Sent(i32),
    /// The decoder's status for the picture fetched.
    Picture(i32),
    /// Whether the read succeeded, and the size of the packet read.
    Read(bool, u64),
}

/// Where the decode loop stands.
#[derive(Clone, Copy, Debug, PartialEq, Eq, Structural)]
pub enum DecodeStage {
    AwaitSend,
    AwaitPicture,
    AwaitRead,
    Finished,
}

/// Decodes frames until the demuxer runs dry, a fatal decoder status comes,
/// or (for a burst) the requested number of frames has been decoded.
#[derive(Clone, Copy, Debug, PartialEq, Eq, Structural)]
pub struct DecodeLoop {
    /// For a burst, the number of frames asked for; `None` drains the stream.
    pub limit: Option<i64>,
    /// For a burst, frames decoded and followed by a good read so far.
    pub decoded: i64,
    pub stage: DecodeStage,
    /// Final status once finished.
    pub status: i32,
    /// The decoder's "try again" error number (positive).
    pub try_again: i32,
}

impl DecodeLoop {
    /// Internal consistency of the loop.
    pub open spec fn wf(&self) -> bool {
        &&& self.try_again > 0
        &&& self.decoded >= 0
        &&& match self.limit {
            Some(n) => (self.stage != DecodeStage::Finished ==> self.decoded < n)
                && (self.decoded == 0 || self.decoded <= n),
            None => self.decoded == 0,
        }
    }

    /// The action pending in the current stage.
    pub open spec fn pending(&self) -> DecodeAction {
        match self.stage {
            DecodeStage::AwaitSend => DecodeAction::SendData,
            DecodeStage::AwaitPicture => DecodeAction::GetPicture,
            DecodeStage::AwaitRead => DecodeAction::ReadPacket,
            DecodeStage::Finished => DecodeAction::Finish(self.status),
        }
    }

    fn start(limit: Option<i64>) -> (r: (DecodeLoop, DecodeAction))
        ensures
            r.0.wf(),
            r.0.limit == limit,
            r.0.decoded == 0,
            r.1 == r.0.pending(),
            match limit {
                Some(n) => n <= 0 ==> r.0.stage == DecodeStage::Finished && r.0.status == 0,
                None => true,
            },
            (match limit {
                Some(n) => n > 0,
                None => true,
            }) ==> r.0.stage == DecodeStage::AwaitSend,
    {
        let try_again = try_again_code();
        let go = match limit {
            Some(n) => 0 < n,
            None => true,
        };
        let stage = if go { DecodeStage::AwaitSend } else { DecodeStage::Finished };
        let d = DecodeLoop { limit, decoded: 0, stage, status: 0, try_again };
        let a = if go { DecodeAction::SendData } else { DecodeAction::Finish(0) };
        (d, a)
    }

    /// A burst of `n` frames; a count of zero or less decodes nothing.
    pub fn burst(n: i64) -> (r: (DecodeLoop, DecodeAction))
        ensures
            r.0.wf(),
            r.0.limit == Some(n),
            r.0.decoded == 0,
            r.1 == r.0.pending(),
            n <= 0 ==> r.1 == DecodeAction::Finish(0) && r.0.stage == DecodeStage::Finished,
            n > 0 ==> r.1 == DecodeAction::SendData,
    {
        DecodeLoop::start(Some(n))
    }

    /// Decoding until the demuxer is exhausted or the decoder fails.
    pub fn drain() -> (r: (DecodeLoop, DecodeAction))
        ensures
            r.0.wf(),
            r.0.limit.is_none(),
            r.0.decoded == 0,
            r.1 == DecodeAction::SendData,
            r.1 == r.0.pending(),
    {
        DecodeLoop::start(None)
    }

    /// The loop is over.
    pub fn is_finished(&self) -> (r: bool)
        ensures
            r == (self.stage == DecodeStage::Finished),
    {
        self.stage == DecodeStage::Finished
    }

    /// Takes the outcome of the pending action and returns the next one.
    /// An outcome that does not answer the pending action changes nothing.
    pub fn step(&mut self, ev: DecodeEvent) -> (r: DecodeAction)
        requires
            old(self).wf(),
        ensures
            final(self).wf(),
            r == final(self).pending(),
            final(self).limit == old(self).limit,
            final(self).try_again == old(self).try_again,
            match (old(self).stage, ev) {
                (DecodeStage::AwaitSend, DecodeEvent::Sent(s)) =>
                    if is_fatal(s as int, old(self).try_again as int) {
                        final(self).stage == DecodeStage::Finished && final(self).status == s
                            && final(self).decoded == old(self).decoded
                    } else {
                        final(self).stage == DecodeStage::AwaitPicture
                            && final(self).decoded == old(self).decoded
                    },
                (DecodeStage::AwaitPicture, DecodeEvent::Picture(s)) =>
                    if is_fatal(s as int, old(self).try_again as int) {
                        final(self).stage == DecodeStage::Finished && final(self).status == s
                            && final(self).decoded == old(self).decoded
                    } else {
                        final(self).stage == DecodeStage::AwaitRead
                            && final(self).decoded == old(self).decoded
                    },
                (DecodeStage::AwaitRead, DecodeEvent::Read(ok, size)) =>
                    if !ok || size == 0 {
                        final(self).stage == DecodeStage::Finished && final(self).status == 0
                            && final(self).decoded == old(self).decoded
                    } else {
                        final(self).decoded == old(self).decoded + (if old(self).limit.is_some() { 1int } else { 0 })
                            && final(self).stage == (match old(self).limit {
                                Some(n) => if old(self).decoded + 1 < n {
                                    DecodeStage::AwaitSend
                                } else {
                                    DecodeStage::Finished
                                },
                                None => DecodeStage::AwaitSend,
                            })
                            && (final(self).stage == DecodeStage::Finished ==> final(self).status == 0)
                    },
                _ => *final(self) == *old(self),
            },
    {
        match (self.stage, ev) {
            (DecodeStage::AwaitSend, DecodeEvent::Sent(s)) => {
                if s < 0 && s as i64 != -(self.try_again as i64) {
                    self.stage = DecodeStage::Finished;
                    self.status = s;
                } else {
                    self.stage = DecodeStage::AwaitPicture;
                }
            },
            (DecodeStage::AwaitPicture, DecodeEvent::Picture(s)) => {
                if s < 0 && s as i64 != -(self.try_again as i64) {
                    self.stage = DecodeStage::Finished;
                    self.status = s;
                } else {
                    self.stage = DecodeStage::AwaitRead;
                }
            },
            (DecodeStage::AwaitRead, DecodeEvent::Read(ok, size)) => {
                if !ok || size == 0 {
                    self.stage = DecodeStage::Finished;
                    self.status = 0;
                } else {
                    let more = match self.limit {
                        Some(n) => {
                            self.decoded = self.decoded + 1;
                            self.decoded < n
                        },
                        None => true,
                    };
                    if more {
                        self.stage = DecodeStage::AwaitSend;
                    } else {
                        self.stage = DecodeStage::Finished;
                        self.status = 0;
                    }
                }
            },
            _ => {},
        }
        match self.stage {
            DecodeStage::AwaitSend => DecodeAction::SendData,
            DecodeStage::AwaitPicture => DecodeAction::GetPicture,
            DecodeStage::AwaitRead => DecodeAction::ReadPacket,
            DecodeStage::Finished => DecodeAction::Finish(self.status),
        }
    }
}

} // verus!
