use demo_panel::bytes::{push_u32_le, read_u32_le, read_u64_le, write_u32_le, write_u64_le};
use demo_panel::frame::{read_ready_frame, FramePublished, FrameWriter};
use demo_panel::shm::{
    DualControl, FrameHeader, BUFFER_SIZE, DUAL_CONTROL_SIZE, FRAME_HEADER_SIZE, MAX_FRAME_DATA,
    SHM_MAX_SIZE,
};

fn region() -> Vec<u8> {
    vec![0u8; SHM_MAX_SIZE]
}

#[test]
fn layout_sizes() {
    assert_eq!(BUFFER_SIZE, 64 + 4 * 3840 * 2160);
    assert_eq!(SHM_MAX_SIZE, 64 + 2 * BUFFER_SIZE);
    assert_eq!(MAX_FRAME_DATA, 33_177_600);
}

#[test]
fn integers_round_trip_little_endian() {
    let mut b = vec![0u8; 12];
    write_u32_le(&mut b, 1, 0xA1B2_C3D4);
    assert_eq!(&b[1..5], &[0xD4, 0xC3, 0xB2, 0xA1]);
    assert_eq!(read_u32_le(&b, 1), 0xA1B2_C3D4);
    write_u64_le(&mut b, 4, 0x0102_0304_0506_0708);
    assert_eq!(&b[4..12], &[8, 7, 6, 5, 4, 3, 2, 1]);
    assert_eq!(read_u64_le(&b, 4), 0x0102_0304_0506_0708);
    let mut out = vec![9u8];
    push_u32_le(&mut out, 258);
    assert_eq!(out, vec![9, 2, 1, 0, 0]);
}

#[test]
fn control_block_round_trip() {
    let mut shm = vec![0xFFu8; 128];
    let ctrl = DualControl { write_index: 0, ready_index: 1 };
    ctrl.store(&mut shm);
    assert_eq!(&shm[0..8], &[0, 0, 0, 0, 1, 0, 0, 0]);
    assert_eq!(shm[8], 0xFF);
    assert_eq!(DualControl::as_bytes(&shm), ctrl);
}

#[test]
fn buffer_slices_point_at_each_buffer() {
    let mut shm = region();
    let ctrl = DualControl { write_index: 0, ready_index: 1 };
    {
        let buf = ctrl.buffer_slice_mut(&mut shm, 1);
        assert_eq!(buf.len(), BUFFER_SIZE);
        buf[0] = 42;
        buf[BUFFER_SIZE - 1] = 43;
    }
    assert_eq!(shm[DUAL_CONTROL_SIZE + BUFFER_SIZE], 42);
    assert_eq!(shm[SHM_MAX_SIZE - 1], 43);
    let b0 = ctrl.buffer_slice(&shm, 0);
    assert_eq!(b0.len(), BUFFER_SIZE);
    assert_eq!(b0[0], 0);
    let b1 = ctrl.buffer_slice(&shm, 1);
    assert_eq!(b1[0], 42);
}

#[test]
fn header_round_trip() {
    let mut buf = vec![0u8; FRAME_HEADER_SIZE];
    let h = FrameHeader { seq: 0x1_0000_0002, width: 1280, height: 800, data_len: 4_096_000 };
    h.store(&mut buf, 0);
    assert_eq!(FrameHeader::from_buffer(&buf), h);
    assert_eq!(&buf[8..12], &1280u32.to_le_bytes());
}

#[test]
fn empty_readback_publishes_nothing() {
    let mut shm = region();
    let mut w = FrameWriter::new();
    assert_eq!(w.publish(&mut shm, &[], 4, 4), None);
    assert_eq!(w.frame_count, 0);
    assert!(shm.iter().all(|b| *b == 0));
}

#[test]
fn unpadded_frame_is_copied_and_read_back() {
    // 64 pixels per row: 256 bytes, already a multiple of 256.
    let mut shm = region();
    let mut w = FrameWriter::new();
    let data: Vec<u8> = (0..(256 * 2)).map(|i| (i % 251) as u8).collect();
    let r = w.publish(&mut shm, &data, 64, 2).unwrap();
    assert_eq!(r, FramePublished { seq: 1, buffer_index: 0, bytes_written: 512 });
    let ctrl = DualControl::as_bytes(&shm);
    assert_eq!(ctrl, DualControl { write_index: 1, ready_index: 0 });
    let (seq, packet) = read_ready_frame(&shm, 0).unwrap();
    assert_eq!(seq, 1);
    assert_eq!(&packet[0..4], &1u32.to_le_bytes());
    assert_eq!(&packet[4..8], &64u32.to_le_bytes());
    assert_eq!(&packet[8..12], &2u32.to_le_bytes());
    assert_eq!(&packet[12..16], &512u32.to_le_bytes());
    assert_eq!(&packet[16..], &data[..]);
    // Already seen: nothing new.
    assert_eq!(read_ready_frame(&shm, 1), None);
}

#[test]
fn padded_rows_are_cut_down() {
    // 3 pixels per row: 12 bytes of pixels, padded to 256 in the readback.
    let mut shm = region();
    let mut w = FrameWriter::new();
    let mut data = vec![0u8; 256 * 2];
    for i in 0..12 {
        data[i] = i as u8 + 1;
        data[256 + i] = i as u8 + 101;
    }
    let r = w.publish(&mut shm, &data, 3, 2).unwrap();
    assert_eq!(r.bytes_written, 24);
    let (seq, packet) = read_ready_frame(&shm, 0).unwrap();
    assert_eq!(seq, 1);
    let mut expected: Vec<u8> = (1..=12).collect();
    expected.extend(101..=112u8);
    assert_eq!(&packet[16..], &expected[..]);
}

#[test]
fn short_padded_readback_copies_rows_present() {
    let mut shm = region();
    let mut w = FrameWriter::new();
    // Room for the first row only: the second would start at 256.
    let data: Vec<u8> = (1..=20u8).collect();
    let r = w.publish(&mut shm, &data, 3, 2).unwrap();
    // The header still announces both rows.
    assert_eq!(r.bytes_written, 24);
    let (_, packet) = read_ready_frame(&shm, 0).unwrap();
    assert_eq!(&packet[16..28], &data[0..12]);
    assert_eq!(&packet[28..40], &[0u8; 12]);
}

#[test]
fn frames_alternate_between_buffers() {
    let mut shm = region();
    let mut w = FrameWriter::new();
    let a = vec![7u8; 256];
    let b = vec![9u8; 256];
    let r1 = w.publish(&mut shm, &a, 64, 1).unwrap();
    let r2 = w.publish(&mut shm, &b, 64, 1).unwrap();
    assert_eq!((r1.buffer_index, r2.buffer_index), (0, 1));
    assert_eq!((r1.seq, r2.seq), (1, 2));
    let (seq, packet) = read_ready_frame(&shm, 1).unwrap();
    assert_eq!(seq, 2);
    assert_eq!(&packet[16..], &b[..]);
    assert_eq!(DualControl::as_bytes(&shm), DualControl { write_index: 0, ready_index: 1 });
}

#[test]
fn sequence_is_truncated_to_32_bits_in_packet() {
    let mut shm = region();
    let mut w = FrameWriter { frame_count: 0x1_0000_0004 };
    let r = w.publish(&mut shm, &[1u8; 256], 64, 1).unwrap();
    assert_eq!(r.seq, 0x1_0000_0005);
    let (seq, packet) = read_ready_frame(&shm, 0).unwrap();
    assert_eq!(seq, 0x1_0000_0005);
    assert_eq!(&packet[0..4], &5u32.to_le_bytes());
}

#[test]
fn oversized_unpadded_readback_is_capped() {
    let mut shm = region();
    let mut w = FrameWriter::new();
    let data = vec![3u8; MAX_FRAME_DATA + 100];
    let r = w.publish(&mut shm, &data, 64, 1).unwrap();
    assert_eq!(r.bytes_written, MAX_FRAME_DATA);
}

#[test]
fn blank_region_has_no_frame() {
    let shm = region();
    assert_eq!(read_ready_frame(&shm, 0), None);
}

#[test]
fn reader_takes_each_frame_once() {
    let mut shm = region();
    let mut w = FrameWriter::new();
    w.publish(&mut shm, &[3u8; 256], 64, 1).unwrap();
    let (seq, _) = read_ready_frame(&shm, 0).unwrap();
    assert_eq!(seq, 1);
    assert_eq!(read_ready_frame(&shm, seq), None);
    w.publish(&mut shm, &[4u8; 256], 64, 1).unwrap();
    let (next, _) = read_ready_frame(&shm, seq).unwrap();
    assert!(next > seq);
    assert_eq!(next, 2);
}

#[test]
fn header_store_writes_every_field() {
    let mut shm = region();
    let h = FrameHeader { seq: 0x0102_0304_0506_0708, width: 640, height: 480, data_len: 1228800 };
    h.store(&mut shm, DUAL_CONTROL_SIZE);
    assert_eq!(FrameHeader::from_buffer(&shm[DUAL_CONTROL_SIZE..]), h);
    assert_eq!(&shm[DUAL_CONTROL_SIZE..DUAL_CONTROL_SIZE + 8], &[8, 7, 6, 5, 4, 3, 2, 1]);
    assert_eq!(&shm[DUAL_CONTROL_SIZE + 8..DUAL_CONTROL_SIZE + 12], &640u32.to_le_bytes());
}

#[test]
fn publishing_leaves_the_other_buffer_alone() {
    let mut shm = region();
    let mut w = FrameWriter::new();
    w.publish(&mut shm, &[5u8; 256], 64, 1).unwrap();
    let other = DUAL_CONTROL_SIZE + BUFFER_SIZE;
    let before: Vec<u8> = shm[other..other + 300].to_vec();
    let first: Vec<u8> = shm[DUAL_CONTROL_SIZE..DUAL_CONTROL_SIZE + 300].to_vec();
    w.publish(&mut shm, &[6u8; 256], 64, 1).unwrap();
    // The second frame went into buffer 1; buffer 0 kept the first.
    assert_eq!(&shm[DUAL_CONTROL_SIZE..DUAL_CONTROL_SIZE + 300], &first[..]);
    assert_ne!(&shm[other..other + 300], &before[..]);
}
