use seek_stress::ivf::{parse_file_header, parse_frame_header, seek_position, IvfHeader};
use seek_stress::timing::Stream;

fn file_header() -> Vec<u8> {
    let mut b = b"DKIF".to_vec();
    b.extend_from_slice(&0u16.to_le_bytes());
    b.extend_from_slice(&32u16.to_le_bytes());
    b.extend_from_slice(b"AV01");
    b.extend_from_slice(&352u16.to_le_bytes());
    b.extend_from_slice(&288u16.to_le_bytes());
    b.extend_from_slice(&25u32.to_le_bytes());
    b.extend_from_slice(&1u32.to_le_bytes());
    b.extend_from_slice(&100u32.to_le_bytes());
    b.extend_from_slice(&0u32.to_le_bytes());
    b
}

#[test]
fn file_header_fields() {
    let h = parse_file_header(&file_header()).unwrap();
    assert_eq!(h, IvfHeader { width: 352, height: 288, rate: 25, scale: 1, frames: 100 });
}

#[test]
fn file_header_rejects_short_or_foreign() {
    let b = file_header();
    assert_eq!(parse_file_header(&b[..31]), None);
    let mut wrong = b.clone();
    wrong[0] = b'X';
    assert_eq!(parse_file_header(&wrong), None);
}

#[test]
fn frame_header_fields() {
    let mut b = 1234u32.to_le_bytes().to_vec();
    b.extend_from_slice(&0x0102_0304_0506_0708u64.to_le_bytes());
    assert_eq!(parse_frame_header(&b), Some((1234, 0x0102_0304_0506_0708)));
    assert_eq!(parse_frame_header(&b[..11]), None);
}

#[test]
fn seek_lands_on_first_frame_at_or_after() {
    let ts = vec![0u64, 1, 2, 5, 9];
    assert_eq!(seek_position(&ts, 0), Some(0));
    assert_eq!(seek_position(&ts, 3), Some(3));
    assert_eq!(seek_position(&ts, 9), Some(4));
    assert_eq!(seek_position(&ts, 10), None);
    assert_eq!(seek_position(&Vec::new(), 0), None);
}

#[test]
fn nanoseconds_to_ticks() {
    let s = Stream { total_frames: 100, fps_num: 25, fps_den: 1, tb_num: 25, tb_den: 1 };
    assert_eq!(s.ns_to_ticks(1_600_000_000), 40);
    assert_eq!(s.ns_to_ticks(19_999_999), 0);
    assert_eq!(s.ns_to_ticks(20_000_000), 1);
    let fine = Stream { total_frames: 10, fps_num: 30000, fps_den: 1001, tb_num: 90000, tb_den: 1 };
    assert_eq!(fine.ns_to_ticks(1_000_000_000), 90000);
    assert_eq!(fine.frame_to_ns(3), 100_100_000);
}
