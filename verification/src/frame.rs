//! Publishing rendered frames into the shared-memory region, and reading
//! the latest one back out as a packet for the panel.

use vstd::prelude::*;
use crate::bytes::{copy_into, extend_bytes, le_u32, push_u32_le, splice, u32_le_bytes};
use crate::shm::{
    lemma_control_roundtrip, lemma_header_roundtrip, buffer_in_range, buffer_offset, control_of, header_at, header_bytes, with_control,
    DualControl, FrameHeader, BUFFER_SIZE, DUAL_CONTROL_SIZE, FRAME_HEADER_SIZE, MAX_FRAME_DATA,
};

verus! {

/// Bytes of one image row, four per pixel.
pub open spec fn row_bytes(width: u32) -> int {
    width * 4
}

/// Bytes of one image row in a GPU readback, padded up to a multiple of 256.
pub open spec fn padded_row_bytes(width: u32) -> int {
    ((width * 4 + 255) / 256) * 256
}

/// The first `n` rows of a padded image, each cut down to `raw` bytes and
/// laid end to end.
pub open spec fn rows(data: Seq<u8>, raw: int, aligned: int, n: nat) -> Seq<u8>
    decreases n,
{
    if n == 0 {
        Seq::empty()
    } else {
        rows(data, raw, aligned, (n - 1) as nat) + data.subrange(
            (n - 1) * aligned,
            (n - 1) * aligned + raw,
        )
    }
}

/// Whether row `y` is present in the readback and fits in a frame buffer.
pub open spec fn row_fits(y: int, raw: int, aligned: int, data_len: int) -> bool {
    y * aligned + raw <= data_len && FRAME_HEADER_SIZE + (y + 1) * raw <= BUFFER_SIZE
}

/// How many leading rows of a padded readback of `data_len` bytes are copied:
/// those present in the readback, that fit in a buffer, and at most `height`.
pub open spec fn rows_that_fit(data_len: int, width: u32, height: u32) -> int {
    let raw = row_bytes(width);
    let aligned = padded_row_bytes(width);
    let data_rows = if data_len < raw {
        0
    } else {
        (data_len - raw) / aligned + 1
    };
    let buf_rows = MAX_FRAME_DATA as int / raw;
    let m = if data_rows < buf_rows {
        data_rows
    } else {
        buf_rows
    };
    if (height as int) < m {
        height as int
    } else {
        m
    }
}

/// Whether a readback of this width carries padding at the end of its rows.
pub open spec fn is_padded(width: u32) -> bool {
    padded_row_bytes(width) != row_bytes(width)
}

/// The pixel bytes that a readback `data` puts into a frame buffer.
pub open spec fn frame_payload(data: Seq<u8>, width: u32, height: u32) -> Seq<u8> {
    if is_padded(width) {
        rows(
            data,
            row_bytes(width),
            padded_row_bytes(width),
            rows_that_fit(data.len() as int, width, height) as nat,
        )
    } else if data.len() < MAX_FRAME_DATA {
        data
    } else {
        data.subrange(0, MAX_FRAME_DATA as int)
    }
}

/// The payload length that the header of a published frame announces.
pub open spec fn frame_data_len(data: Seq<u8>, width: u32, height: u32) -> int {
    if is_padded(width) {
        row_bytes(width) * height
    } else if data.len() < MAX_FRAME_DATA {
        data.len() as int
    } else {
        MAX_FRAME_DATA as int
    }
}

/// When a frame of this size can be published into `shm`: the write index
/// names one of the two buffers, which lies within the region, and the row
/// arithmetic fits in 32 bits.
pub open spec fn can_publish(shm: Seq<u8>, width: u32, height: u32, frame_count: u64) -> bool {
    &&& shm.len() >= DUAL_CONTROL_SIZE
    &&& control_of(shm).write_index <= 1
    &&& buffer_in_range(shm.len() as int, control_of(shm).write_index as int)
    &&& width * 4 + 255 <= u32::MAX
    &&& is_padded(width) ==> row_bytes(width) * height <= u32::MAX
    &&& frame_count < u64::MAX
}

/// The region after frame `seq` made from readback `data` was published:
/// payload and header written into the buffer named by the write index,
/// which then becomes the ready buffer, and the other one the next to write.
pub open spec fn published(shm: Seq<u8>, data: Seq<u8>, width: u32, height: u32, seq: u64) -> Seq<
    u8,
> {
    let wi = control_of(shm).write_index;
    let off = buffer_offset(wi as int);
    let header = FrameHeader {
        seq,
        width,
        height,
        data_len: frame_data_len(data, width, height) as u32,
    };
    with_control(
        splice(splice(shm, off + FRAME_HEADER_SIZE, frame_payload(data, width, height)), off, header_bytes(header)),
        (1 - wi) as u32,
        wi,
    )
}

/// Whether a header describes a complete frame newer than `last_seq`.
pub open spec fn frame_is_fresh(h: FrameHeader, last_seq: u64) -> bool {
    h.seq != 0 && h.width != 0 && h.height != 0 && h.data_len != 0 && h.seq > last_seq
}

/// The packet sent to the panel for the frame in buffer `buf`: sequence
/// number (low 32 bits), width, height and payload length, little-endian,
/// then the payload as far as the buffer holds it.
pub open spec fn frame_packet(buf: Seq<u8>, h: FrameHeader) -> Seq<u8> {
    let end = if FRAME_HEADER_SIZE + h.data_len < buf.len() {
        FRAME_HEADER_SIZE + h.data_len
    } else {
        buf.len() as int
    };
    u32_le_bytes((h.seq % 0x1_0000_0000) as u32) + u32_le_bytes(h.width) + u32_le_bytes(h.height)
        + u32_le_bytes(h.data_len) + buf.subrange(FRAME_HEADER_SIZE as int, end)
}

/// The frame a reader that last saw `last_seq` takes from `shm`: the one in
/// the ready buffer, if it is fresh.
pub open spec fn ready_frame(shm: Seq<u8>, last_seq: u64) -> Option<(u64, Seq<u8>)> {
    let off = buffer_offset(control_of(shm).ready_index as int);
    let buf = shm.subrange(off, off + BUFFER_SIZE);
    let h = header_at(buf, 0);
    if frame_is_fresh(h, last_seq) {
        Some((h.seq, frame_packet(buf, h)))
    } else {
        None
    }
}

/// Builds the packet for the frame with header `header` in buffer `buf`.
fn packet_of(buf: &[u8], header: FrameHeader) -> (out: Vec<u8>)
    requires
        buf.len() >= FRAME_HEADER_SIZE,
    ensures
        out@ == frame_packet(buf@, header),
{
    let end = if (FRAME_HEADER_SIZE as u64) + (header.data_len as u64) < buf.len() as u64 {
        FRAME_HEADER_SIZE + header.data_len as usize
    } else {
        buf.len()
    };
    let mut out: Vec<u8> = Vec::new();
    push_u32_le(&mut out, (header.seq % 0x1_0000_0000) as u32);
    push_u32_le(&mut out, header.width);
    push_u32_le(&mut out, header.height);
    push_u32_le(&mut out, header.data_len);
    extend_bytes(&mut out, buf, FRAME_HEADER_SIZE, end);
    assert(out@ =~= frame_packet(buf@, header));
    out
}

/// Reads the frame in the ready buffer of `shm`, if it is newer than
/// `last_seq`, and returns its sequence number and its packet.
pub fn read_ready_frame(shm: &[u8], last_seq: u64) -> (r: Option<(u64, Vec<u8>)>)
    requires
        shm.len() >= DUAL_CONTROL_SIZE,
        buffer_in_range(shm.len() as int, control_of(shm@).ready_index as int),
    ensures
        match r {
            None => ready_frame(shm@, last_seq) is None,
            Some((seq, packet)) => ready_frame(shm@, last_seq) == Some((seq, packet@)),
        },
{
    let ctrl = DualControl::as_bytes(shm);
    let buf = ctrl.buffer_slice(shm, ctrl.ready_index);
    let header = FrameHeader::from_buffer(buf);
    if header.seq == 0 || header.width == 0 || header.height == 0 || header.data_len == 0
        || header.seq <= last_seq {
        return None;
    }
    let packet = packet_of(buf, header);
    Some((header.seq, packet))
}

/// Length of the first `n` rows.
pub proof fn lemma_rows_len(data: Seq<u8>, raw: int, aligned: int, n: nat)
    requires
        0 <= raw,
        0 <= aligned,
        forall|k: int| 0 <= k < n ==> #[trigger] (k * aligned) + raw <= data.len(),
    ensures
        rows(data, raw, aligned, n).len() == n * raw,
    decreases n,
{
    if n > 0 {
        let k = n - 1;
        assert(k * aligned + raw <= data.len());
        assert(0 <= k * aligned) by (nonlinear_arith)
            requires
                0 <= k,
                0 <= aligned,
        ;
        lemma_rows_len(data, raw, aligned, (n - 1) as nat);
        assert(rows(data, raw, aligned, n) == rows(data, raw, aligned, (n - 1) as nat)
            + data.subrange(k * aligned, k * aligned + raw));
        let m = (n - 1) as nat;
        assert(rows(data, raw, aligned, m).len() == m * raw);
        assert(data.subrange(k * aligned, k * aligned + raw).len() == raw);
        assert(n * raw == m * raw + raw) by (nonlinear_arith)
            requires
                m == n - 1,
        ;
    } else {
        assert(n * raw == 0) by (nonlinear_arith)
            requires
                n == 0,
        ;
    }
}

/// `k * a <= m` exactly when `k <= m / a`.
proof fn lemma_mul_le_iff_le_div(k: int, a: int, m: int)
    requires
        0 <= k,
        0 < a,
        0 <= m,
    ensures
        k * a <= m <==> k <= m / a,
{
    assert(k * a <= m ==> k <= m / a) by (nonlinear_arith)
        requires
            0 <= k,
            0 < a,
            0 <= m,
    ;
    assert(k <= m / a ==> k * a <= m) by (nonlinear_arith)
        requires
            0 <= k,
            0 < a,
            0 <= m,
    ;
}

/// Row `k` fits exactly when it comes before `rows_that_fit` would stop
/// without a height limit.
proof fn lemma_row_fits_iff(k: int, width: u32, data_len: int)
    requires
        0 <= k,
        0 <= data_len,
        is_padded(width),
        width * 4 + 255 <= u32::MAX,
    ensures
        row_fits(k, row_bytes(width), padded_row_bytes(width), data_len)
            <==> k < rows_that_fit(data_len, width, u32::MAX) && k < u32::MAX,
        rows_that_fit(data_len, width, u32::MAX) <= u32::MAX,
{
    let raw = row_bytes(width);
    let aligned = padded_row_bytes(width);
    assert(raw > 0);
    assert(aligned > 0) by (nonlinear_arith)
        requires
            aligned == ((raw + 255) / 256) * 256,
            raw > 0,
    ;
    if data_len >= raw {
        lemma_mul_le_iff_le_div(k, aligned, data_len - raw);
    } else {
        assert(0 <= k * aligned) by (nonlinear_arith)
            requires
                0 <= k,
                0 < aligned,
        ;
    }
    lemma_mul_le_iff_le_div(k + 1, raw, MAX_FRAME_DATA as int);
    assert(MAX_FRAME_DATA as int / raw <= MAX_FRAME_DATA) by (nonlinear_arith)
        requires
            raw > 0,
    ;
}

/// Writes frames into the shared-memory region and numbers them.
pub struct FrameWriter {
    /// Number of frames published so far; also the last sequence number.
    pub frame_count: u64,
}

/// What publishing a frame did.
#[derive(Clone, Copy, Debug, PartialEq, Eq, Structural)]
pub struct FramePublished {
    /// Sequence number given to the frame.
    pub seq: u64,
    /// The buffer it was written into, now the ready buffer.
    pub buffer_index: u32,
    /// The payload length announced in its header.
    pub bytes_written: usize,
}

impl FrameWriter {
    /// A writer that has published nothing yet.
    pub fn new() -> (r: FrameWriter)
        ensures
            r.frame_count == 0,
    {
        FrameWriter { frame_count: 0 }
    }

    /// Publishes the readback `data` of a `width` x `height` image into the
    /// buffer named by the write index of `shm`, then flips the indices so
    /// that buffer becomes the ready one. Rows of a padded readback are cut
    /// down to their pixel bytes. An empty readback publishes nothing.
    pub fn publish(&mut self, shm: &mut [u8], data: &[u8], width: u32, height: u32) -> (r: Option<
        FramePublished,
    >)
        requires
            can_publish(old(shm)@, width, height, old(self).frame_count),
        ensures
            data@.len() == 0 ==> r is None && final(shm)@ == old(shm)@ && final(self).frame_count
                == old(self).frame_count,
            data@.len() > 0 ==> {
                &&& r == Some(
                    FramePublished {
                        seq: (old(self).frame_count + 1) as u64,
                        buffer_index: control_of(old(shm)@).write_index,
                        bytes_written: frame_data_len(data@, width, height) as usize,
                    },
                )
                &&& final(self).frame_count == old(self).frame_count + 1
                &&& final(shm)@ == published(
                    old(shm)@,
                    data@,
                    width,
                    height,
                    (old(self).frame_count + 1) as u64,
                )
            },
    {
        if data.len() == 0 {
            return None;
        }
        let ghost s0 = shm@;
        let raw: u32 = width * 4;
        assert(((raw + 255) / 256) * 256 <= raw + 255) by (nonlinear_arith);
        let aligned: u32 = ((raw + 255) / 256) * 256;
        let ctrl = DualControl::as_bytes(shm);
        let write_idx = ctrl.write_index;
        let base: usize = DUAL_CONTROL_SIZE + write_idx as usize * BUFFER_SIZE;
        let payload_at: usize = base + FRAME_HEADER_SIZE;
        let bytes_written: usize;
        if aligned != raw {
            let ghost rawi = raw as int;
            let ghost ali = aligned as int;
            let ghost dlen = data@.len() as int;
            let mut y: u32 = 0;
            let mut dst: usize = FRAME_HEADER_SIZE;
            while y < height
                invariant
                    y <= height,
                    rawi == raw,
                    ali == aligned,
                    dlen == data@.len(),
                    raw > 0,
                    base + BUFFER_SIZE <= shm.len(),
                    payload_at == base + FRAME_HEADER_SIZE,
                    dst == FRAME_HEADER_SIZE + y * rawi,
                    dst <= BUFFER_SIZE,
                    shm@.len() == s0.len(),
                    forall|k: int| 0 <= k < y ==> #[trigger] row_fits(k, rawi, ali, dlen),
                    shm@ == splice(s0, payload_at as int, rows(data@, rawi, ali, y as nat)),
                ensures
                    y <= height,
                    dst == FRAME_HEADER_SIZE + y * rawi,
                    forall|k: int| 0 <= k < y ==> #[trigger] row_fits(k, rawi, ali, dlen),
                    y < height ==> !row_fits(y as int, rawi, ali, dlen),
                    shm@ == splice(s0, payload_at as int, rows(data@, rawi, ali, y as nat)),
                decreases height - y,
            {
                assert((y as int) * (aligned as int) <= u64::MAX) by (nonlinear_arith)
                    requires
                        y <= u32::MAX,
                        aligned <= u32::MAX,
                ;
                assert((y as int) * (aligned as int) + (raw as int) <= u64::MAX) by (nonlinear_arith)
                    requires
                        y <= u32::MAX,
                        aligned <= u32::MAX,
                        raw <= u32::MAX,
                ;
                assert((y + 1) * rawi == y * rawi + rawi) by (nonlinear_arith);
                let src: u64 = y as u64 * aligned as u64;
                if src + raw as u64 > data.len() as u64 || dst as u64 + raw as u64
                    > BUFFER_SIZE as u64 {
                    break;
                }
                assert(row_fits(y as int, rawi, ali, dlen));
                proof {
                    assert forall|k: int| 0 <= k < y implies #[trigger] (k * ali) + rawi <= dlen by {
                        assert(row_fits(k, rawi, ali, dlen));
                    }
                    lemma_rows_len(data@, rawi, ali, y as nat);
                }
                copy_into(shm, base + dst, data, src as usize, raw as usize);
                proof {
                    let r0 = rows(data@, rawi, ali, y as nat);
                    let row = data@.subrange(y * ali, y * ali + rawi);
                    assert(rows(data@, rawi, ali, (y + 1) as nat) == r0 + row);
                    assert(shm@ =~= splice(s0, payload_at as int, r0 + row));
                }
                dst = dst + raw as usize;
                y = y + 1;
            }
            proof {
                lemma_row_fits_iff(y as int, width, dlen);
                if y > 0 {
                    assert(row_fits(y - 1, rawi, ali, dlen));
                    lemma_row_fits_iff(y - 1, width, dlen);
                }
                assert(y as int == rows_that_fit(dlen, width, height));
            }
            bytes_written = (raw * height) as usize;
        } else {
            let copy_len: usize = if data.len() < MAX_FRAME_DATA {
                data.len()
            } else {
                MAX_FRAME_DATA
            };
            copy_into(shm, payload_at, data, 0, copy_len);
            assert(data@.subrange(0, copy_len as int) =~= frame_payload(data@, width, height));
            bytes_written = copy_len;
        }
        self.frame_count = self.frame_count + 1;
        let header = FrameHeader {
            seq: self.frame_count,
            width,
            height,
            data_len: bytes_written as u32,
        };
        header.store(shm, base);
        let next = DualControl { write_index: 1 - write_idx, ready_index: write_idx };
        next.store(shm);
        Some(FramePublished { seq: self.frame_count, buffer_index: write_idx, bytes_written })
    }
}

/// Length of what `frame_payload` puts into a buffer: never more than the
/// announced length, nor than a buffer's payload area.
pub proof fn lemma_payload_len(data: Seq<u8>, width: u32, height: u32)
    requires
        width * 4 + 255 <= u32::MAX,
    ensures
        frame_payload(data, width, height).len() <= frame_data_len(data, width, height),
        frame_payload(data, width, height).len() <= MAX_FRAME_DATA,
        width > 0 && height > 0 && data.len() > 0 ==> frame_data_len(data, width, height) > 0,
{
    if is_padded(width) {
        let raw = row_bytes(width);
        let aligned = padded_row_bytes(width);
        let n = rows_that_fit(data.len() as int, width, height);
        assert(raw > 0);
        assert(aligned > 0) by (nonlinear_arith)
            requires
                aligned == ((raw + 255) / 256) * 256,
                raw > 0,
        ;
        assert(0 <= n <= height);
        assert forall|k: int| 0 <= k < n implies #[trigger] (k * aligned) + raw <= data.len() by {
            lemma_row_fits_iff(k, width, data.len() as int);
        }
        lemma_rows_len(data, raw, aligned, n as nat);
        assert(n * raw <= height * raw) by (nonlinear_arith)
            requires
                0 <= n <= height,
                raw > 0,
        ;
        assert(n <= MAX_FRAME_DATA as int / raw);
        assert(n * raw <= MAX_FRAME_DATA) by (nonlinear_arith)
            requires
                0 <= n <= MAX_FRAME_DATA as int / raw,
                raw > 0,
        ;
        if height > 0 {
            assert(raw * height > 0) by (nonlinear_arith)
                requires
                    raw > 0,
                    height > 0,
            ;
        }
    }
}

/// A header read through a buffer slice is the header at the buffer's offset.
proof fn lemma_header_in_buffer(s: Seq<u8>, off: int)
    requires
        0 <= off,
        off + BUFFER_SIZE <= s.len(),
    ensures
        header_at(s.subrange(off, off + BUFFER_SIZE), 0) == header_at(s, off),
{
    let buf = s.subrange(off, off + BUFFER_SIZE);
    assert forall|k: int| 0 <= k <= 16 implies #[trigger] le_u32(buf, k) == le_u32(s, off + k) by {
        assert(buf[k] == s[off + k] && buf[k + 1] == s[off + k + 1]);
        assert(buf[k + 2] == s[off + k + 2] && buf[k + 3] == s[off + k + 3]);
    }
}

/// After a payload and a header are written into buffer `wi` and the
/// indices flipped, that buffer is the ready one and holds both.
#[verifier::spinoff_prover]
#[verifier::rlimit(40)]
proof fn lemma_written_buffer(shm: Seq<u8>, wi: u32, payload: Seq<u8>, header: FrameHeader)
    requires
        shm.len() >= DUAL_CONTROL_SIZE,
        wi <= 1,
        buffer_in_range(shm.len() as int, wi as int),
        payload.len() <= MAX_FRAME_DATA,
    ensures
        ({
            let off = buffer_offset(wi as int);
            let after = with_control(
                splice(splice(shm, off + FRAME_HEADER_SIZE, payload), off, header_bytes(header)),
                (1 - wi) as u32,
                wi,
            );
            let buf = after.subrange(off, off + BUFFER_SIZE);
            &&& after.len() == shm.len()
            &&& control_of(after).ready_index == wi
            &&& header_at(buf, 0) == header
            &&& buf.subrange(FRAME_HEADER_SIZE as int, FRAME_HEADER_SIZE + payload.len()) == payload
        }),
{
    let off = buffer_offset(wi as int);
    let s1 = splice(shm, off + FRAME_HEADER_SIZE, payload);
    let s2 = splice(s1, off, header_bytes(header));
    lemma_header_roundtrip(s1, off, header);
    lemma_control_roundtrip(s2, (1 - wi) as u32, wi);
    let after = with_control(s2, (1 - wi) as u32, wi);
    let buf = after.subrange(off, off + BUFFER_SIZE);
    assert(buf =~= s2.subrange(off, off + BUFFER_SIZE));
    lemma_header_in_buffer(s2, off);
    assert(buf.subrange(FRAME_HEADER_SIZE as int, FRAME_HEADER_SIZE + payload.len()) =~= payload);
}

/// A reader that has seen frames up to `last_seq`, looking right after a
/// frame is published, gets exactly that frame: its sequence number, its
/// dimensions and announced length, and the published pixel bytes at the
/// start of its payload.
#[verifier::spinoff_prover]
#[verifier::rlimit(50)]
pub proof fn law_reader_gets_published_frame(
    shm: Seq<u8>,
    data: Seq<u8>,
    width: u32,
    height: u32,
    frame_count: u64,
    last_seq: u64,
)
    requires
        can_publish(shm, width, height, frame_count),
        data.len() > 0,
        width > 0,
        height > 0,
        last_seq <= frame_count,
    ensures
        ({
            let seq = (frame_count + 1) as u64;
            let after = published(shm, data, width, height, seq);
            let payload = frame_payload(data, width, height);
            &&& buffer_in_range(after.len() as int, control_of(after).ready_index as int)
            &&& ready_frame(after, last_seq) matches Some((s, packet)) && s == seq
                && packet.subrange(0, 16) == u32_le_bytes((seq % 0x1_0000_0000) as u32)
                + u32_le_bytes(width) + u32_le_bytes(height) + u32_le_bytes(
                frame_data_len(data, width, height) as u32,
            ) && packet.subrange(16, 16 + payload.len() as int) == payload
        }),
{
    let seq = (frame_count + 1) as u64;
    let wi = control_of(shm).write_index;
    let off = buffer_offset(wi as int);
    let payload = frame_payload(data, width, height);
    let dl = frame_data_len(data, width, height);
    lemma_payload_len(data, width, height);
    lemma_written_buffer(
        shm,
        wi,
        payload,
        FrameHeader { seq, width, height, data_len: dl as u32 },
    );
    let after = published(shm, data, width, height, seq);
    let buf = after.subrange(off, off + BUFFER_SIZE);
    let header = header_at(buf, 0);
    assert(header.data_len == dl);
    assert(frame_is_fresh(header, last_seq));
    let packet = frame_packet(buf, header);
    assert(ready_frame(after, last_seq) == Some((seq, packet)));
    assert(packet.subrange(0, 16) =~= u32_le_bytes((seq % 0x1_0000_0000) as u32) + u32_le_bytes(
        width,
    ) + u32_le_bytes(height) + u32_le_bytes(dl as u32));
    assert(packet.subrange(16, 16 + payload.len() as int) =~= payload);
}

/// Publishing flips the indices: the buffer just written becomes the ready
/// one, and the writer moves to the other, so the ready buffer is never the
/// one the next frame is written into.
pub proof fn law_publish_flips_buffers(
    shm: Seq<u8>,
    data: Seq<u8>,
    width: u32,
    height: u32,
    seq: u64,
)
    requires
        can_publish(shm, width, height, 0),
    ensures
        control_of(published(shm, data, width, height, seq)).ready_index == control_of(
            shm,
        ).write_index,
        control_of(published(shm, data, width, height, seq)).write_index == 1 - control_of(
            shm,
        ).write_index,
        control_of(published(shm, data, width, height, seq)).write_index != control_of(
            published(shm, data, width, height, seq),
        ).ready_index,
{
    let wi = control_of(shm).write_index;
    let off = buffer_offset(wi as int);
    let header = FrameHeader {
        seq,
        width,
        height,
        data_len: frame_data_len(data, width, height) as u32,
    };
    let s1 = splice(shm, off + FRAME_HEADER_SIZE, frame_payload(data, width, height));
    let s2 = splice(s1, off, header_bytes(header));
    lemma_control_roundtrip(s2, (1 - wi) as u32, wi);
}

/// A reader never takes a frame twice: what it takes is numbered above the
/// last sequence number it saw, so the numbers of the frames it passes on,
/// each becoming the next `last_seq`, strictly increase.
pub proof fn law_reader_seq_increases(shm: Seq<u8>, last_seq: u64)
    ensures
        ready_frame(shm, last_seq) matches Some((s, _)) ==> s > last_seq,
{
}

/// `splice` leaves every byte outside the spliced range as it was.
proof fn lemma_splice_outside(s: Seq<u8>, off: int, t: Seq<u8>)
    requires
        0 <= off,
        off + t.len() <= s.len(),
    ensures
        splice(s, off, t).len() == s.len(),
        forall|i: int|
            0 <= i < s.len() && !(off <= i < off + t.len()) ==> #[trigger] splice(s, off, t)[i]
                == s[i],
{
}

/// Publishing writes only into the control block and the buffer named by the
/// write index: every other byte of the region stays as it was, the whole of
/// the other frame buffer among them.
#[verifier::spinoff_prover]
#[verifier::rlimit(50)]
pub proof fn law_publish_keeps_other_buffer(
    shm: Seq<u8>,
    data: Seq<u8>,
    width: u32,
    height: u32,
    seq: u64,
)
    requires
        can_publish(shm, width, height, 0),
    ensures
        ({
            let wi = control_of(shm).write_index;
            let off = buffer_offset(wi as int);
            let other = buffer_offset(1 - wi);
            let after = published(shm, data, width, height, seq);
            &&& after.len() == shm.len()
            &&& forall|i: int|
                DUAL_CONTROL_SIZE <= i < shm.len() && !(off <= i < off + BUFFER_SIZE)
                    ==> #[trigger] after[i] == shm[i]
            &&& buffer_in_range(shm.len() as int, 1 - wi) ==> after.subrange(
                other,
                other + BUFFER_SIZE,
            ) == shm.subrange(other, other + BUFFER_SIZE)
        }),
{
    let wi = control_of(shm).write_index;
    let off = buffer_offset(wi as int);
    let other = buffer_offset(1 - wi);
    let payload = frame_payload(data, width, height);
    let header = FrameHeader {
        seq,
        width,
        height,
        data_len: frame_data_len(data, width, height) as u32,
    };
    lemma_payload_len(data, width, height);
    let s1 = splice(shm, off + FRAME_HEADER_SIZE, payload);
    lemma_splice_outside(shm, off + FRAME_HEADER_SIZE, payload);
    let s2 = splice(s1, off, header_bytes(header));
    lemma_splice_outside(s1, off, header_bytes(header));
    lemma_control_roundtrip(s2, (1 - wi) as u32, wi);
    let after = published(shm, data, width, height, seq);
    assert(after == with_control(s2, (1 - wi) as u32, wi));
    assert forall|i: int|
        DUAL_CONTROL_SIZE <= i < shm.len() && !(off <= i < off + BUFFER_SIZE) implies #[trigger] after[i]
        == shm[i] by {
        assert(s2[i] == s1[i]);
        assert(s1[i] == shm[i]);
    }
    if buffer_in_range(shm.len() as int, 1 - wi) {
        assert(buffer_offset(0) == DUAL_CONTROL_SIZE) by (nonlinear_arith);
        assert(buffer_offset(1) == DUAL_CONTROL_SIZE + BUFFER_SIZE) by (nonlinear_arith);
        if wi == 0 {
            assert(off == buffer_offset(0));
            assert(other == buffer_offset(1));
        } else {
            assert(off == buffer_offset(1));
            assert(other == buffer_offset(0));
        }
        assert forall|j: int| 0 <= j < BUFFER_SIZE implies #[trigger] after.subrange(
            other,
            other + BUFFER_SIZE,
        )[j] == shm.subrange(other, other + BUFFER_SIZE)[j] by {
            assert(DUAL_CONTROL_SIZE <= other + j < shm.len());
            assert(!(off <= other + j < off + BUFFER_SIZE));
            assert(after[other + j] == shm[other + j]);
        }
        assert(after.subrange(other, other + BUFFER_SIZE) =~= shm.subrange(other, other + BUFFER_SIZE));
    }
}

} // verus!
