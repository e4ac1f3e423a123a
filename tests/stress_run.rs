use seek_stress::decode::{burst_len, DecodeAction, DecodeEvent, DecodeLoop};
use seek_stress::harness::{Action, Harness, Outcome, Phase};
use seek_stress::rng::{clock_seed, first_draws, Xor128};
use seek_stress::seek::{SeekAction, SeekEvent, SeekProbe};
use seek_stress::timing::{div_round, Stream};

fn stream(total: u32, fps_num: u32, fps_den: u32, tb_num: u32, tb_den: u32) -> Stream {
    Stream { total_frames: total, fps_num, fps_den, tb_num, tb_den }
}

fn pal100() -> Stream {
    stream(100, 25, 1, 25, 1)
}

#[test]
fn seed_one_first_draw_is_fixed() {
    let mut g = Xor128::new(1);
    assert_eq!(g.next(), -3068);
    assert_eq!(g.next(), -66878589);
    assert_eq!(g.next(), -2169);
}

#[test]
fn seed_zero_state_is_not_degenerate() {
    let g = Xor128::new(0);
    assert_eq!(g, Xor128 { s0: 0, s1: 0xffff, s2: 0xffff0000, s3: 0xffffffff });
    let mut g = g;
    assert_eq!(g.next(), -4096);
}

#[test]
fn same_seed_same_draws() {
    let a = first_draws(12345, 50);
    let b = first_draws(12345, 50);
    assert_eq!(a, b);
    assert_eq!(a.len(), 50);
    assert_ne!(first_draws(1, 5), first_draws(2, 5));
    assert_eq!(first_draws(1, 3), vec![-3068, -66878589, -2169]);
}

#[test]
fn negative_draw_gives_empty_burst() {
    let s = pal100();
    assert_eq!(burst_len(&s, -3068), -68);
    let (d, a) = DecodeLoop::burst(-68);
    assert_eq!(a, DecodeAction::Finish(0));
    assert!(d.is_finished());
    assert_eq!(d.decoded, 0);
}

#[test]
fn positive_draw_burst_len() {
    let s = pal100();
    assert_eq!(burst_len(&s, 130), 5);
    assert_eq!(burst_len(&s, 124), 124);
    // fps of 29.97 (30000/1001): floor(149.85) = 149
    let ntsc = stream(100, 30000, 1001, 30000, 1001);
    assert_eq!(burst_len(&ntsc, 300), 2);
}

#[test]
fn probe_target_of_frame_forty() {
    let s = pal100();
    assert_eq!(s.frame_to_ns(40), 1_600_000_000);
    assert!(s.contains(3_999_999_999));
    assert!(!s.contains(4_000_000_000));
    assert!(!s.contains(-1));
    assert!(s.contains(0));
    assert_eq!(s.ticks_to_ns(3), 120_000_000);
    assert_eq!(s.ticks_to_ns(-3), -120_000_000);
}

#[test]
fn rounding_is_half_away_from_zero() {
    assert_eq!(div_round(5, 2), 3);
    assert_eq!(div_round(-5, 2), -3);
    assert_eq!(div_round(4, 3), 1);
    assert_eq!(div_round(-4, 3), -1);
    assert_eq!(div_round(0, 7), 0);
}

#[test]
fn requantize_snaps_to_ticks() {
    let s = pal100();
    // ticks of 40 ms: 130 ms rounds to 3 ticks, 150 ms to 4 ticks (half away from zero)
    assert_eq!(s.requantize(130_000_000), 120_000_000);
    assert_eq!(s.requantize(140_000_000), 160_000_000);
    assert_eq!(s.requantize(-130_000_000), -120_000_000);
}

#[test]
fn zero_fps_den_goes_straight_to_teardown() {
    let s = stream(100, 25, 0, 25, 1);
    assert!(!s.is_valid());
    let (h, a) = Harness::start(s, 1);
    assert_eq!(a, Action::Teardown);
    assert!(h.is_finished());
    assert_eq!(h.phase, Phase::Done);
}

#[test]
fn slow_stream_runs_no_phase() {
    let s = stream(100, 1, 2, 25, 1);
    assert!(s.is_valid());
    let (h, a) = Harness::start(s, 7);
    assert_eq!(a, Action::Teardown);
    assert!(h.is_finished());
}

/// Runs a whole stress run, answering each action with `answer`; returns the actions.
fn run(s: Stream, seed: u32, answer: &dyn Fn(&Harness, &Action) -> bool) -> (Harness, Vec<Action>) {
    let (mut h, mut a) = Harness::start(s, seed);
    let mut acts = vec![a];
    let mut ts: i64 = 0;
    while !h.is_finished() {
        ts += 1;
        let ok = answer(&h, &a);
        a = h.step(Outcome { ok, last_ts: ts });
        acts.push(a);
        assert!(acts.len() < 1000);
    }
    (h, acts)
}

#[test]
fn end_scan_gives_up_at_stream_start() {
    let s = stream(10, 25, 1, 25, 1);
    let (h, acts) = run(s, 99, &|h, _| h.phase != Phase::EosSeek);
    assert_eq!(h.phase, Phase::Failed);
    let n = acts.len();
    assert_eq!(acts[n - 1], Action::Teardown);
    assert_eq!(acts[n - 2], Action::Seek(0));
    assert_eq!(acts[n - 3], Action::Seek(200_000_000));
    assert!(!acts.iter().any(|a| *a == Action::DecodeAll));
    assert!(!acts.iter().any(|a| matches!(a, Action::Flush(_))));
}

#[test]
fn full_run_reaches_done() {
    let s = pal100();
    let (h, acts) = run(s, 1, &|_, _| true);
    assert_eq!(h.phase, Phase::Done);
    assert_eq!(acts.iter().filter(|a| **a == Action::DecodeAll).count(), 2);
    let flushes: Vec<u32> = acts
        .iter()
        .filter_map(|a| if let Action::Flush(c) = a { Some(*c) } else { None })
        .collect();
    assert_eq!(flushes.len(), 2);
    assert!(flushes.iter().all(|c| (1..=64).contains(c)));
    // the end scan settles five frames before the end: 3.8 s
    assert_eq!(acts.iter().filter(|a| **a == Action::Seek(3_800_000_000)).count(), 3);
}

#[test]
fn seek_targets_stay_in_stream() {
    for seed in 0..200u32 {
        let s = stream(37 + seed % 50, 30000, 1001, 90000, 1);
        let (_, acts) = run(s, seed, &|_, _| true);
        for a in &acts {
            if let Action::Seek(t) = a {
                assert!(s.contains(*t as i128), "seed {} target {}", seed, t);
            }
        }
        let (_, acts) = run(s, seed, &|h, _| h.phase != Phase::RefineSeek);
        for a in &acts {
            if let Action::Seek(t) = a {
                assert!(s.contains(*t as i128));
            }
        }
    }
}

#[test]
fn refinement_is_bounded() {
    for seed in 0..200u32 {
        let (h, acts) = run(pal100(), seed, &|_, _| true);
        assert!(h.recoveries <= 2);
        assert!(h.attempts - h.recoveries <= 4);
        assert!(acts.len() < 60);
    }
}

#[test]
fn same_seed_same_run() {
    let (_, a) = run(pal100(), 4242, &|_, _| true);
    let (_, b) = run(pal100(), 4242, &|_, _| true);
    assert_eq!(a, b);
}

#[test]
fn failed_burst_tears_down() {
    let (h, acts) = run(pal100(), 5, &|h, _| !matches!(h.phase, Phase::ProbeBurst(_)));
    if acts.iter().any(|a| matches!(a, Action::DecodeBurst(_))) {
        assert_eq!(h.phase, Phase::Failed);
    }
}

#[test]
fn seek_flushes_once_after_header() {
    let (mut p, a) = SeekProbe::start(500);
    assert_eq!(a, SeekAction::DemuxSeek(500));
    assert_eq!(p.step(SeekEvent::Seeked(0)), SeekAction::ReadPacket);
    assert_eq!(p.step(SeekEvent::Read(0)), SeekAction::ProbeHeader);
    assert_eq!(p.step(SeekEvent::Probed(false)), SeekAction::ReadPacket);
    assert_eq!(p.step(SeekEvent::Read(0)), SeekAction::ProbeHeader);
    assert_eq!(p.step(SeekEvent::Probed(true)), SeekAction::Flush);
    assert_eq!(p.step(SeekEvent::Flushed), SeekAction::Finish(0));
    assert!(p.is_finished());
    assert_eq!(p.flushes, 1);
}

#[test]
fn seek_flushes_once_without_header() {
    let (mut p, _) = SeekProbe::start(7);
    p.step(SeekEvent::Seeked(0));
    assert_eq!(p.step(SeekEvent::Read(-1)), SeekAction::Flush);
    assert_eq!(p.step(SeekEvent::Flushed), SeekAction::Finish(-1));
    assert_eq!(p.flushes, 1);
}

#[test]
fn refused_seek_does_not_flush() {
    let (mut p, _) = SeekProbe::start(7);
    assert_eq!(p.step(SeekEvent::Seeked(-5)), SeekAction::Finish(-5));
    assert_eq!(p.flushes, 0);
}

#[test]
fn decode_try_again_is_not_fatal() {
    let (mut d, a) = DecodeLoop::burst(2);
    assert_eq!(a, DecodeAction::SendData);
    assert_eq!(d.try_again, libc::EAGAIN);
    assert_eq!(d.step(DecodeEvent::Sent(-libc::EAGAIN)), DecodeAction::GetPicture);
    assert_eq!(d.step(DecodeEvent::Picture(-libc::EAGAIN)), DecodeAction::ReadPacket);
    assert_eq!(d.step(DecodeEvent::Read(true, 10)), DecodeAction::SendData);
    assert_eq!(d.step(DecodeEvent::Sent(0)), DecodeAction::GetPicture);
    assert_eq!(d.step(DecodeEvent::Picture(0)), DecodeAction::ReadPacket);
    assert_eq!(d.step(DecodeEvent::Read(true, 10)), DecodeAction::Finish(0));
    assert_eq!(d.decoded, 2);
}

#[test]
fn decode_fatal_status_is_returned() {
    let (mut d, _) = DecodeLoop::drain();
    assert_eq!(d.step(DecodeEvent::Sent(-22)), DecodeAction::Finish(-22));
    let (mut d, _) = DecodeLoop::drain();
    d.step(DecodeEvent::Sent(0));
    assert_eq!(d.step(DecodeEvent::Picture(-12)), DecodeAction::Finish(-12));
}

#[test]
fn drain_stops_on_empty_read() {
    let (mut d, _) = DecodeLoop::drain();
    for _ in 0..5 {
        d.step(DecodeEvent::Sent(0));
        d.step(DecodeEvent::Picture(0));
        assert_eq!(d.step(DecodeEvent::Read(true, 100)), DecodeAction::SendData);
    }
    d.step(DecodeEvent::Sent(0));
    d.step(DecodeEvent::Picture(0));
    assert_eq!(d.step(DecodeEvent::Read(true, 0)), DecodeAction::Finish(0));
}

#[test]
fn sub_nanosecond_frames_stay_in_stream() {
    let s = stream(3, 3_333_333_333, 1, 3_333_333_333, 1);
    for seed in 0..50u32 {
        let (_, acts) = run(s, seed, &|_, _| true);
        for a in &acts {
            if let Action::Seek(t) = a {
                assert!(s.contains(*t as i128), "seed {} target {}", seed, t);
            }
        }
    }
    let (_, a) = Harness::start(s, 1);
    assert_eq!(a, Action::Seek(0));
}

#[test]
fn burst_len_below_one_fps() {
    // fps 0.25: floor(1.25) = 1, so every burst is empty
    let s = stream(0, 1, 4, 1, 1);
    assert_eq!(burst_len(&s, 7), 0);
    assert_eq!(burst_len(&s, -7), 0);
}

#[test]
fn clock_seed_wraps() {
    assert_eq!(clock_seed(1, 5), 1_000_000_005);
    assert_eq!(clock_seed(5, 0), 705_032_704);
    assert_eq!(clock_seed(u64::MAX, 0), 3_294_967_296);
}

#[test]
fn frame_times_round_to_nearest() {
    let ntsc = stream(6, 30000, 1001, 30000, 1001);
    assert_eq!(ntsc.frame_to_ns(1), 33_366_667);
    assert_eq!(ntsc.frame_to_ns(2), 66_733_333);
    // frames shorter than a nanosecond: the last frame's start is kept inside
    let fast = stream(3, 3_333_333_333, 1, 3_333_333_333, 1);
    assert_eq!(fast.frame_to_ns(2), 0);
    let fast2 = stream(4, 2_000_000_000, 1, 1, 1);
    assert_eq!(fast2.frame_to_ns(3), 1);
    assert!(fast2.contains(1));
    assert!(!fast2.contains(2));
}

#[test]
fn end_scan_and_stress_seek_rounded_target() {
    let ntsc = stream(6, 30000, 1001, 30000, 1001);
    let (h, acts) = run(ntsc, 3, &|_, _| true);
    assert_eq!(h.phase, Phase::Done);
    // the end scan settles at shift 5 (frame 1); both stress rounds seek there too
    assert!(acts.iter().filter(|a| **a == Action::Seek(33_366_667)).count() >= 3);
    assert!(!acts.iter().any(|a| *a == Action::Seek(33_366_666)));
}

#[test]
fn midpoint_recovery_rounded_target() {
    let ntsc = stream(3, 30000, 1001, 30000, 1001);
    assert_eq!(ntsc.frame_to_ns(3 / 2), 33_366_667);
}
