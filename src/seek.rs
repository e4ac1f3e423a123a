use vstd::prelude::*;

verus! {

/// What the seek procedure asks of the program around it.
#[derive(Clone, Copy, Debug, PartialEq, Eq, Structural)]
pub enum SeekAction {
    /// Reposition the demuxer at this presentation time (nanoseconds).
    DemuxSeek(u64),
    /// Read the next packet from the demuxer.
    ReadPacket,
    /// Look for a sequence header in the packet just read.
    ProbeHeader,
    /// Flush the decoder.
    Flush,
    /// The seek is over, with this status: zero on success, else the
    /// demuxer's refusal or the status of the read that failed.
    Finish(i32),
}

/// What came of the last action.
#[derive(Clone, Copy, Debug, PartialEq, Eq, Structural)]
pub enum SeekEvent {
    /// The demuxer's status for the seek; zero when it accepted it.
    Seeked(i32),
    /// The demuxer's status for the read; zero when a packet was read.
    Read(i32),
    /// Whether the packet held a sequence header.
    Probed(bool),
    /// The decoder was flushed.
    Flushed,
}

#[derive(Clone, Copy, Debug, PartialEq, Eq, Structural)]
pub enum SeekStage {
    AwaitSeek,
    AwaitRead,
    AwaitProbe,
    AwaitFlush,
    Finished,
}

/// Seeks the demuxer, reads packets until one holds a sequence header or the
/// reads run out, then flushes the decoder once, header or not.
#[derive(Clone, Copy, Debug, PartialEq, Eq, Structural)]
pub struct SeekProbe {
    pub target: u64,
    pub stage: SeekStage,
    /// The demuxer accepted the seek.
    pub repositioned: bool,
    /// Status of the last demuxer call; once finished, zero exactly when a
    /// sequence header was found after an accepted seek.
    pub status: i32,
    /// Flushes asked for so far.
    pub flushes: u32,
}

impl SeekProbe {
    /// Internal consistency: no flush before the demuxer has moved, one flush
    /// once it has and the resync is over.
    pub open spec fn wf(&self) -> bool {
        match self.stage {
            SeekStage::AwaitSeek => !self.repositioned && self.flushes == 0,
            SeekStage::AwaitRead => self.repositioned && self.flushes == 0,
            SeekStage::AwaitProbe => self.repositioned && self.flushes == 0 && self.status == 0,
            SeekStage::AwaitFlush => self.repositioned && self.flushes == 1,
            SeekStage::Finished => if self.repositioned {
                self.flushes == 1
            } else {
                self.flushes == 0 && self.status != 0
            },
        }
    }

    /// The action pending in the current stage.
    pub open spec fn pending(&self) -> SeekAction {
        match self.stage {
            SeekStage::AwaitSeek => SeekAction::DemuxSeek(self.target),
            SeekStage::AwaitRead => SeekAction::ReadPacket,
            SeekStage::AwaitProbe => SeekAction::ProbeHeader,
            SeekStage::AwaitFlush => SeekAction::Flush,
            SeekStage::Finished => SeekAction::Finish(self.status),
        }
    }

    /// Starts a seek to `target` nanoseconds.
    pub fn start(target: u64) -> (r: (SeekProbe, SeekAction))
        ensures
            r.0.wf(),
            r.0.target == target,
            r.0.stage == SeekStage::AwaitSeek,
            r.1 == SeekAction::DemuxSeek(target),
            r.1 == r.0.pending(),
    {
        let p = SeekProbe {
            target,
            stage: SeekStage::AwaitSeek,
            repositioned: false,
            status: 0,
            flushes: 0,
        };
        (p, SeekAction::DemuxSeek(target))
    }

    /// The seek is over.
    pub fn is_finished(&self) -> (r: bool)
        ensures
            r == (self.stage == SeekStage::Finished),
    {
        self.stage == SeekStage::Finished
    }

    /// Takes the outcome of the pending action and returns the next one.
    /// An outcome that does not answer the pending action changes nothing.
    pub fn step(&mut self, ev: SeekEvent) -> (r: SeekAction)
        requires
            old(self).wf(),
        ensures
            final(self).wf(),
            r == final(self).pending(),
            final(self).target == old(self).target,
            (r == SeekAction::Flush) == (final(self).stage == SeekStage::AwaitFlush),
            final(self).flushes == old(self).flushes + (if old(self).stage != SeekStage::AwaitFlush
                && final(self).stage == SeekStage::AwaitFlush { 1int } else { 0 }),
            match (old(self).stage, ev) {
                (SeekStage::AwaitSeek, SeekEvent::Seeked(st)) => if st == 0 {
                    final(self).stage == SeekStage::AwaitRead
                } else {
                    final(self).stage == SeekStage::Finished && final(self).status == st
                        && r == SeekAction::Finish(st)
                },
                (SeekStage::AwaitRead, SeekEvent::Read(st)) => final(self).status == st && if st
                    == 0 {
                    final(self).stage == SeekStage::AwaitProbe
                } else {
                    final(self).stage == SeekStage::AwaitFlush
                },
                (SeekStage::AwaitProbe, SeekEvent::Probed(found)) => final(self).status == 0 && if found {
                    final(self).stage == SeekStage::AwaitFlush
                } else {
                    final(self).stage == SeekStage::AwaitRead
                },
                (SeekStage::AwaitFlush, SeekEvent::Flushed) => final(self).stage
                    == SeekStage::Finished && final(self).status == old(self).status
                    && r == SeekAction::Finish(old(self).status),
                _ => *final(self) == *old(self),
            },
    {
        match (self.stage, ev) {
            (SeekStage::AwaitSeek, SeekEvent::Seeked(st)) => {
                if st == 0 {
                    self.repositioned = true;
                    self.stage = SeekStage::AwaitRead;
                } else {
                    self.status = st;
                    self.stage = SeekStage::Finished;
                }
            },
            (SeekStage::AwaitRead, SeekEvent::Read(st)) => {
                self.status = st;
                if st == 0 {
                    self.stage = SeekStage::AwaitProbe;
                } else {
                    self.flushes = self.flushes + 1;
                    self.stage = SeekStage::AwaitFlush;
                }
            },
            (SeekStage::AwaitProbe, SeekEvent::Probed(found)) => {
                if found {
                    self.flushes = self.flushes + 1;
                    self.stage = SeekStage::AwaitFlush;
                } else {
                    self.stage = SeekStage::AwaitRead;
                }
            },
            (SeekStage::AwaitFlush, SeekEvent::Flushed) => {
                self.stage = SeekStage::Finished;
            },
            _ => {},
        }
        match self.stage {
            SeekStage::AwaitSeek => SeekAction::DemuxSeek(self.target),
            SeekStage::AwaitRead => SeekAction::ReadPacket,
            SeekStage::AwaitProbe => SeekAction::ProbeHeader,
            SeekStage::AwaitFlush => SeekAction::Flush,
            SeekStage::Finished => SeekAction::Finish(self.status),
        }
    }
}

/// A seek that finished successfully asked for exactly one flush, and the
/// decoder is asked for nothing else after it; a seek the demuxer refused
/// asked for none and finishes with the demuxer's status.
pub proof fn lemma_one_flush_per_seek(p: SeekProbe)
    requires
        p.wf(),
        p.stage == SeekStage::Finished,
    ensures
        p.status == 0 ==> p.repositioned && p.flushes == 1,
        p.repositioned ==> p.flushes == 1,
        !p.repositioned ==> p.flushes == 0 && p.status != 0,
        p.pending() == SeekAction::Finish(p.status),
{
}

} // verus!
