use vorleser_server::encoder::opusfile::{OggPage, OpusStream, PageFill};
use vorleser_server::encoder::EncoderError;

fn page(h: &[u8], b: &[u8]) -> OggPage {
    OggPage { header: h.to_vec(), body: b.to_vec() }
}

#[test]
fn header_then_pages() {
    let mut s = OpusStream::new();
    assert!(s.needs_header());
    s.set_header(&page(&[1, 2], &[3]));
    assert!(!s.needs_header());
    let mut buf = vec![0u8; 8];
    let h = s.read_header_part(&mut buf);
    assert_eq!(h.wrote, 3);
    // the pages continue right after the header
    assert_eq!(h.pages_from, Some(3));
    assert_eq!(&buf[..3], &[1, 2, 3]);
    assert_eq!(s.fill_from_pages(&mut buf, 3), PageFill::NeedPage(3));
    assert!(s.supply_page(Some(page(&[9], &[8, 7]))));
    assert_eq!(s.fill_from_pages(&mut buf, 3), PageFill::NeedPage(6));
    assert!(s.supply_page(Some(page(&[6, 5], &[4, 3]))));
    assert_eq!(s.fill_from_pages(&mut buf, 6), PageFill::Done(8));
    assert_eq!(buf, vec![1, 2, 3, 9, 8, 7, 6, 5]);
    assert_eq!(s.byte_offset, 8);
    let mut next = vec![0u8; 4];
    assert_eq!(s.fill_from_pages(&mut next, 0), PageFill::NeedPage(2));
    assert_eq!(next, vec![4, 3, 0, 0]);
    assert!(!s.supply_page(None));
}

#[test]
fn short_buffer_reads_header_in_pieces() {
    let mut s = OpusStream::new();
    s.set_header(&page(&[1, 2, 3, 4], &[5]));
    let mut buf = vec![0u8; 2];
    let h = s.read_header_part(&mut buf);
    assert_eq!((h.wrote, h.pages_from), (2, None));
    assert_eq!(buf, vec![1, 2]);
    // the rest of the header, then pages from right after it
    let mut buf5 = vec![0u8; 5];
    let h = s.read_header_part(&mut buf5);
    assert_eq!((h.wrote, h.pages_from), (3, Some(3)));
    assert_eq!(&buf5[..3], &[3, 4, 5]);
    let mut buf1 = vec![0u8; 1];
    let h = s.read_header_part(&mut buf1);
    assert_eq!((h.wrote, h.pages_from), (0, Some(0)));
}

#[test]
fn packet_numbering() {
    let mut s = OpusStream::new();
    let p = s.next_packet();
    assert_eq!((p.packetno, p.granulepos, p.bos), (1, 1920, false));
    let p = s.next_packet();
    assert_eq!((p.packetno, p.granulepos), (2, 2880));
}

#[test]
fn element_errors() {
    let e = EncoderError::from_gstreamer_message("Failed to create element from factory name");
    assert!(matches!(e, EncoderError::FailedToCreateElement(None)));
    match e.maybe_set_element("opusenc") {
        EncoderError::FailedToCreateElement(Some(n)) => assert_eq!(n, "opusenc"),
        other => panic!("unexpected {:?}", other),
    }
    match EncoderError::from_gstreamer_message("boom").maybe_set_element("x") {
        EncoderError::GstreamerError(m) => assert_eq!(m, "boom"),
        other => panic!("unexpected {:?}", other),
    }
}
