//! Layout of the shared-memory region through which the renderer hands
//! frames to the panel: a control block followed by two frame buffers.
//!
//! Integers in the region are little-endian, as on the supported targets.

use vstd::prelude::*;
use crate::bytes::{
    le_u32, le_u64, lemma_u32_roundtrip, lemma_u64_roundtrip, read_u32_le, read_u64_le, splice,
    u32_le_bytes, u64_le_bytes, write_u32_le, write_u64_le,
};

verus! {

/// Name of the shared-memory region.
pub const SHM_NAME: &'static str = "Local\\DemoFrame";
/// Bytes reserved for the header at the start of each frame buffer.
pub const FRAME_HEADER_SIZE: usize = 64;
/// Largest frame payload: a 3840x2160 RGBA image.
pub const MAX_FRAME_DATA: usize = 4 * 3840 * 2160;
/// Bytes of one frame buffer, header included.
pub const BUFFER_SIZE: usize = FRAME_HEADER_SIZE + MAX_FRAME_DATA;
/// Bytes of the control block at the start of the region.
pub const DUAL_CONTROL_SIZE: usize = 64;
/// Bytes of the whole region: control block and two frame buffers.
pub const SHM_MAX_SIZE: usize = DUAL_CONTROL_SIZE + 2 * BUFFER_SIZE;

/// Byte offset of the write index within the control block.
pub const WRITE_INDEX_OFFSET: usize = 0;
/// Byte offset of the ready index within the control block.
pub const READY_INDEX_OFFSET: usize = 4;

/// Byte offsets of the header fields within a frame buffer.
pub const SEQ_OFFSET: usize = 0;
pub const WIDTH_OFFSET: usize = 8;
pub const HEIGHT_OFFSET: usize = 12;
pub const DATA_LEN_OFFSET: usize = 16;

/// Start of frame buffer `index` within the region.
pub open spec fn buffer_offset(index: int) -> int {
    DUAL_CONTROL_SIZE + index * BUFFER_SIZE
}

/// Whether frame buffer `index` lies within a region of `len` bytes.
pub open spec fn buffer_in_range(len: int, index: int) -> bool {
    0 <= index && buffer_offset(index) + BUFFER_SIZE <= len
}

/// The control block: which buffer the writer fills next, and which holds
/// the latest complete frame.
#[derive(Clone, Copy, Debug, PartialEq, Eq, Structural)]
pub struct DualControl {
    pub write_index: u32,
    pub ready_index: u32,
}

/// The control block stored at the start of `s`.
pub open spec fn control_of(s: Seq<u8>) -> DualControl {
    DualControl {
        write_index: le_u32(s, WRITE_INDEX_OFFSET as int) as u32,
        ready_index: le_u32(s, READY_INDEX_OFFSET as int) as u32,
    }
}

/// The bytes of a control block, written over the start of `s`.
pub open spec fn with_control(s: Seq<u8>, write_index: u32, ready_index: u32) -> Seq<u8> {
    splice(splice(s, READY_INDEX_OFFSET as int, u32_le_bytes(ready_index)),
        WRITE_INDEX_OFFSET as int, u32_le_bytes(write_index))
}

/// Reading a control block gives back the indices last stored.
pub proof fn lemma_control_roundtrip(s: Seq<u8>, write_index: u32, ready_index: u32)
    requires
        s.len() >= DUAL_CONTROL_SIZE,
    ensures
        control_of(with_control(s, write_index, ready_index)) == (DualControl {
            write_index,
            ready_index,
        }),
        with_control(s, write_index, ready_index).len() == s.len(),
        forall|i: int|
            DUAL_CONTROL_SIZE <= i < s.len() ==> #[trigger] with_control(
                s,
                write_index,
                ready_index,
            )[i] == s[i],
{
    lemma_u32_roundtrip(write_index);
    lemma_u32_roundtrip(ready_index);
    let s1 = splice(s, READY_INDEX_OFFSET as int, u32_le_bytes(ready_index));
    let s2 = splice(s1, WRITE_INDEX_OFFSET as int, u32_le_bytes(write_index));
    assert(s2.subrange(0, 4) =~= u32_le_bytes(write_index));
    assert(s2.subrange(4, 8) =~= u32_le_bytes(ready_index));
    assert(le_u32(s2, 0) == le_u32(s2.subrange(0, 4), 0));
    assert(le_u32(s2, 4) == le_u32(s2.subrange(4, 8), 0));
}

impl DualControl {
    /// Reads the control block at the start of `slice`.
    pub fn as_bytes(slice: &[u8]) -> (r: DualControl)
        requires
            slice.len() >= DUAL_CONTROL_SIZE,
        ensures
            r == control_of(slice@),
    {
        DualControl {
            write_index: read_u32_le(slice, WRITE_INDEX_OFFSET),
            ready_index: read_u32_le(slice, READY_INDEX_OFFSET),
        }
    }

    /// Stores both indices into the control block at the start of `slice`.
    pub fn store(&self, slice: &mut [u8])
        requires
            old(slice).len() >= DUAL_CONTROL_SIZE,
        ensures
            final(slice)@ == with_control(old(slice)@, self.write_index, self.ready_index),
    {
        write_u32_le(slice, READY_INDEX_OFFSET, self.ready_index);
        write_u32_le(slice, WRITE_INDEX_OFFSET, self.write_index);
    }

    /// Frame buffer `index` of the region `shm`.
    pub fn buffer_slice<'a>(&self, shm: &'a [u8], index: u32) -> (r: &'a [u8])
        requires
            buffer_in_range(shm.len() as int, index as int),
        ensures
            r@ == shm@.subrange(buffer_offset(index as int), buffer_offset(index as int) + BUFFER_SIZE),
    {
        let offset = DUAL_CONTROL_SIZE + index as usize * BUFFER_SIZE;
        &shm[offset..offset + BUFFER_SIZE]
    }

    /// Frame buffer `index` of the region `shm`, for writing; what is written
    /// through the result lands in `shm` and nowhere else.
    pub fn buffer_slice_mut<'a>(&self, shm: &'a mut [u8], index: u32) -> (r: &'a mut [u8])
        requires
            buffer_in_range(old(shm).len() as int, index as int),
        ensures
            r@ == old(shm)@.subrange(buffer_offset(index as int), buffer_offset(index as int) + BUFFER_SIZE),
            final(shm)@ == old(shm)@.subrange(0, buffer_offset(index as int)) + final(r)@
                + old(shm)@.subrange(
                buffer_offset(index as int) + BUFFER_SIZE,
                old(shm)@.len() as int,
            ),
    {
        let offset = DUAL_CONTROL_SIZE + index as usize * BUFFER_SIZE;
        let (head, rest) = shm.split_at_mut(offset);
        let (buf, tail) = rest.split_at_mut(BUFFER_SIZE);
        proof {
            assert(has_resolved(head));
            assert(has_resolved(tail));
            assert(final(head)@ == head@);
            assert(final(tail)@ == tail@);
        }
        buf
    }
}

/// The header at the start of a frame buffer.
#[derive(Clone, Copy, Debug, PartialEq, Eq, Structural)]
pub struct FrameHeader {
    /// Sequence number of the frame; 0 while no frame was written.
    pub seq: u64,
    pub width: u32,
    pub height: u32,
    /// Number of payload bytes that follow the header.
    pub data_len: u32,
}

/// The frame header stored at offset `off` of `s`.
pub open spec fn header_at(s: Seq<u8>, off: int) -> FrameHeader {
    FrameHeader {
        seq: le_u64(s, off + SEQ_OFFSET) as u64,
        width: le_u32(s, off + WIDTH_OFFSET) as u32,
        height: le_u32(s, off + HEIGHT_OFFSET) as u32,
        data_len: le_u32(s, off + DATA_LEN_OFFSET) as u32,
    }
}

/// The stored form of a frame header: its fields in layout order.
pub open spec fn header_bytes(h: FrameHeader) -> Seq<u8> {
    u64_le_bytes(h.seq) + u32_le_bytes(h.width) + u32_le_bytes(h.height) + u32_le_bytes(
        h.data_len,
    )
}

/// Reading a frame header gives back the header last stored there.
pub proof fn lemma_header_roundtrip(s: Seq<u8>, off: int, h: FrameHeader)
    requires
        0 <= off,
        off + FRAME_HEADER_SIZE <= s.len(),
    ensures
        header_at(splice(s, off, header_bytes(h)), off) == h,
        splice(s, off, header_bytes(h)).len() == s.len(),
{
    let t = splice(s, off, header_bytes(h));
    lemma_u64_roundtrip(h.seq);
    lemma_u32_roundtrip(h.width);
    lemma_u32_roundtrip(h.height);
    lemma_u32_roundtrip(h.data_len);
    assert(t.subrange(off, off + 8) =~= u64_le_bytes(h.seq));
    assert(t.subrange(off + 8, off + 12) =~= u32_le_bytes(h.width));
    assert(t.subrange(off + 12, off + 16) =~= u32_le_bytes(h.height));
    assert(t.subrange(off + 16, off + 20) =~= u32_le_bytes(h.data_len));
    assert(le_u32(t, off) == le_u32(t.subrange(off, off + 8), 0));
    assert(le_u32(t, off + 4) == le_u32(t.subrange(off, off + 8), 4));
    assert(le_u32(t, off + 8) == le_u32(t.subrange(off + 8, off + 12), 0));
    assert(le_u32(t, off + 12) == le_u32(t.subrange(off + 12, off + 16), 0));
    assert(le_u32(t, off + 16) == le_u32(t.subrange(off + 16, off + 20), 0));
}

impl FrameHeader {
    /// Reads the header at the start of a frame buffer.
    pub fn from_buffer(buffer: &[u8]) -> (r: FrameHeader)
        requires
            buffer.len() >= FRAME_HEADER_SIZE,
        ensures
            r == header_at(buffer@, 0),
    {
        FrameHeader {
            seq: read_u64_le(buffer, SEQ_OFFSET),
            width: read_u32_le(buffer, WIDTH_OFFSET),
            height: read_u32_le(buffer, HEIGHT_OFFSET),
            data_len: read_u32_le(buffer, DATA_LEN_OFFSET),
        }
    }

    /// Stores this header into `shm` at offset `off`, the start of a frame buffer.
    ///
    /// The fields are stored in the order width, height, payload length and
    /// sequence number last, so that a new sequence number is written only
    /// once the rest of the header describes the new frame. These are plain
    /// byte stores: they carry no memory ordering of their own, so a reader
    /// in another process still depends on the region's synchronisation (the
    /// frame event) to see them in that order.
    pub fn store(&self, shm: &mut [u8], off: usize)
        requires
            off + FRAME_HEADER_SIZE <= old(shm).len(),
        ensures
            final(shm)@ == splice(old(shm)@, off as int, header_bytes(*self)),
    {
        let ghost s0 = shm@;
        write_u32_le(shm, off + WIDTH_OFFSET, self.width);
        write_u32_le(shm, off + HEIGHT_OFFSET, self.height);
        write_u32_le(shm, off + DATA_LEN_OFFSET, self.data_len);
        write_u64_le(shm, off + SEQ_OFFSET, self.seq);
        assert(shm@ =~= splice(s0, off as int, header_bytes(*self)));
    }
}

} // verus!
