use vstd::prelude::*;

verus! {

/// Size of the IVF file header.
pub const FILE_HEADER_LEN: usize = 32;

/// Size of the header in front of each IVF frame.
pub const FRAME_HEADER_LEN: usize = 12;

/// What the IVF file header says about the stream.
#[derive(Clone, Copy, Debug, PartialEq, Eq, Structural)]
pub struct IvfHeader {
    pub width: u16,
    pub height: u16,
    /// Ticks per `scale` seconds.
    pub rate: u32,
    /// Seconds per `rate` ticks.
    pub scale: u32,
    /// Frame count that the header claims.
    pub frames: u32,
}

/// Little-endian 16-bit value at `i`.
pub open spec fn le16(b: Seq<u8>, i: int) -> int {
    b[i] + 256 * b[i + 1]
}

/// Little-endian 32-bit value at `i`.
pub open spec fn le32(b: Seq<u8>, i: int) -> int {
    le16(b, i) + 65536 * le16(b, i + 2)
}

/// Little-endian 64-bit value at `i`.
pub open spec fn le64(b: Seq<u8>, i: int) -> int {
    le32(b, i) + 0x1_0000_0000 * le32(b, i + 4)
}

/// The bytes start with the IVF signature `DKIF`.
pub open spec fn has_signature(b: Seq<u8>) -> bool {
    b.len() >= 4 && b[0] == 0x44u8 && b[1] == 0x4bu8 && b[2] == 0x49u8 && b[3] == 0x46u8
}

fn read16(b: &[u8], i: usize) -> (r: u16)
    requires
        i + 2 <= b@.len(),
    ensures
        r as int == le16(b@, i as int),
{
    (b[i] as u16) + (b[i + 1] as u16) * 256
}

fn read32(b: &[u8], i: usize) -> (r: u32)
    requires
        i + 4 <= b@.len(),
    ensures
        r as int == le32(b@, i as int),
{
    let len: usize = b.len();
    assert(i + 2 < len);
    let lo: u16 = read16(b, i);
    let hi: u16 = read16(b, i + 2);
    assert((hi as u32) * 65536 <= 0xffff * 65536) by (nonlinear_arith)
        requires
            hi <= 0xffff,
    ;
    (lo as u32) + (hi as u32) * 65536
}

/// Reads the IVF file header; `None` when the bytes are too short or do not
/// start with the signature.
pub fn parse_file_header(b: &[u8]) -> (r: Option<IvfHeader>)
    ensures
        r.is_none() <==> (b@.len() < FILE_HEADER_LEN || !has_signature(b@)),
        r matches Some(h) ==> h.width as int == le16(b@, 12) && h.height as int == le16(b@, 14)
            && h.rate as int == le32(b@, 16) && h.scale as int == le32(b@, 20)
            && h.frames as int == le32(b@, 24),
{
    if b.len() < FILE_HEADER_LEN {
        return None;
    }
    if !(b[0] == 0x44u8 && b[1] == 0x4bu8 && b[2] == 0x49u8 && b[3] == 0x46u8) {
        return None;
    }
    Some(IvfHeader {
        width: read16(b, 12),
        height: read16(b, 14),
        rate: read32(b, 16),
        scale: read32(b, 20),
        frames: read32(b, 24),
    })
}

/// Reads a frame header: the size of the frame's payload and its timestamp
/// in ticks; `None` when fewer than twelve bytes are given.
pub fn parse_frame_header(b: &[u8]) -> (r: Option<(u32, u64)>)
    ensures
        r.is_none() <==> b@.len() < FRAME_HEADER_LEN,
        r matches Some(f) ==> f.0 as int == le32(b@, 0) && f.1 as int == le64(b@, 4),
{
    if b.len() < FRAME_HEADER_LEN {
        return None;
    }
    let size: u32 = read32(b, 0);
    let lo: u32 = read32(b, 4);
    let hi: u32 = read32(b, 8);
    assert((hi as u64) * 0x1_0000_0000 <= 0xffff_ffff * 0x1_0000_0000) by (nonlinear_arith)
        requires
            hi <= 0xffff_ffff,
    ;
    Some((size, (lo as u64) + (hi as u64) * 0x1_0000_0000))
}

/// Where a seek to `target` ticks lands: the first frame whose timestamp is
/// at or after the target; `None` when every frame is earlier.
pub fn seek_position(timestamps: &Vec<u64>, target: u64) -> (r: Option<usize>)
    ensures
        r matches Some(i) ==> i < timestamps@.len() && timestamps@[i as int] >= target
            && forall|j: int| 0 <= j < i ==> timestamps@[j] < target,
        r.is_none() ==> forall|j: int| 0 <= j < timestamps@.len() ==> timestamps@[j] < target,
{
    let mut i: usize = 0;
    while i < timestamps.len()
        invariant
            i <= timestamps@.len(),
            forall|j: int| 0 <= j < i ==> timestamps@[j] < target,
        decreases timestamps@.len() - i,
    {
        if timestamps[i] >= target {
            return Some(i);
        }
        i = i + 1;
    }
    None
}

} // verus!
