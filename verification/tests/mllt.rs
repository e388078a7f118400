use vorleser_server::helpers::mllt::{build_mllt, build_mllt_from_frames, push_i16, push_u16, push_u24, push_u32, MlltError, Mp3Frame};

fn frame(size: u32, nanos: u128) -> Mp3Frame {
    Mp3Frame { version: 1, layer: 3, size, duration_nanos: Some(nanos) }
}

#[test]
fn pushes_are_big_endian() {
    let mut v = Vec::new();
    push_u16(&mut v, 0x1234);
    push_u24(&mut v, 0x00ab_cdef);
    push_u32(&mut v, 0x0102_0304);
    push_i16(&mut v, -2);
    assert_eq!(v, vec![0x12, 0x34, 0xab, 0xcd, 0xef, 1, 2, 3, 4, 0xff, 0xfe]);
}

#[test]
fn table_for_constant_frames() {
    // 100 frames of 1152 samples at 44.1 kHz
    let frames: Vec<Mp3Frame> = (0..100).map(|_| frame(417, 26_122_448)).collect();
    let table = build_mllt_from_frames(&frames).unwrap();
    assert_eq!(
        table,
        vec![0, 38, 0x00, 0x3d, 0xe6, 0x00, 0x03, 0xe0, 15, 1, 0, 0, 0, 1]
    );
}

#[test]
fn table_records_byte_deviation() {
    // one frame in the first chunk is bigger than the smallest
    let mut frames: Vec<Mp3Frame> = (0..76).map(|_| frame(417, 26_122_448)).collect();
    frames[0].size = 418;
    let table = build_mllt_from_frames(&frames).unwrap();
    assert_eq!(table.len(), 14);
    // bytes offset 1, shifted left by one; millisecond offset 0
    assert_eq!(&table[10..12], &[0, 2]);
}

#[test]
fn partial_last_chunk_has_no_reference() {
    let frames: Vec<Mp3Frame> = (0..37).map(|_| frame(417, 26_122_448)).collect();
    let table = build_mllt_from_frames(&frames).unwrap();
    assert_eq!(table.len(), 10);
}

#[test]
fn rejects_other_layers() {
    let mut frames: Vec<Mp3Frame> = (0..10).map(|_| frame(417, 26_122_448)).collect();
    frames[3].layer = 2;
    frames[5].duration_nanos = None;
    assert!(matches!(build_mllt_from_frames(&frames), Err(MlltError::NonMp3Frame)));
}

#[test]
fn rejects_unknown_durations() {
    let mut frames: Vec<Mp3Frame> = (0..10).map(|_| frame(417, 26_122_448)).collect();
    frames[2].duration_nanos = None;
    frames[5].version = 2;
    assert!(matches!(build_mllt_from_frames(&frames), Err(MlltError::IncalculableDuration)));
}

#[test]
fn non_mp3_bytes_are_rejected_by_the_reader() {
    let data = vec![0u8; 64];
    match build_mllt(&data) {
        Some(Err(MlltError::Read(code))) => assert!(code < 5),
        other => panic!("unexpected {:?}", other),
    }
}

#[test]
fn leading_ff00_is_read_like_the_rest() {
    // no frames after a leading FF 00 and an unsynchronised ID3v2 header
    let short = vec![0xFF, 0x00, b'I', b'D', b'3', 0x03, 0x00, 0x80];
    assert!(matches!(build_mllt(&short), Some(Err(MlltError::Read(1)))));
    let mut tagged = vec![0xFF, 0x00, 0x00, b'I', b'D', b'3', 0x03, 0x00, 0x80, 0x00, 0x00, 0x00, 0x00];
    tagged.extend_from_slice(&[0u8; 16]);
    assert!(matches!(build_mllt(&tagged), Some(Err(MlltError::Read(1)))));
    // MPEG-1 layer III frames after a leading FF 00 give the same table as
    // after two zero bytes
    let mut frames = Vec::new();
    for _ in 0..50 {
        let mut f = vec![0u8; 417];
        f[..4].copy_from_slice(&[0xFF, 0xFB, 0x90, 0x00]);
        frames.extend_from_slice(&f);
    }
    let mut marked = vec![0xFF, 0x00];
    marked.extend_from_slice(&frames);
    let mut zeroed = vec![0x00, 0x00];
    zeroed.extend_from_slice(&frames);
    let table = build_mllt(&zeroed);
    assert!(matches!(table, Some(Ok(_))));
    assert_eq!(build_mllt(&marked), table);
}
