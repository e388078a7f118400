use vstd::prelude::*;

verus! {

/// Milliseconds of audio in one Opus frame.
pub const FRAME_SIZE: u32 = 20;

/// Sample rate of the Opus stream.
pub const RATE: u32 = 48_000;

/// Serial number of the Ogg stream.
pub const STREAM_SERIAL: u32 = 0xf01353;

/// One Ogg page as produced by the stream: its header and its body.
#[derive(Debug)]
pub struct OggPage {
    pub header: Vec<u8>,
    pub body: Vec<u8>,
}

/// The byte-stream bookkeeping of an Opus file that is being encoded: the
/// header page (once built), the page being handed out and how much of it
/// has been, and the running byte offset and packet number.
pub struct OpusStream {
    pub byte_offset: usize,
    pub header_data: Option<Vec<u8>>,
    pub cached_page: Option<OggPage>,
    pub wrote_page_header: usize,
    pub wrote_page_body: usize,
    pub packet_num: u32,
}

/// Numbering of the next packet taken from the encoder.
#[derive(Debug, Clone, Copy, PartialEq, Eq, Structural)]
pub struct PacketNumbers {
    pub packetno: i64,
    pub granulepos: i64,
    pub bos: bool,
}

/// The outcome of handing out the header: how many bytes went to the
/// start of the buffer, and, when the header is complete, the position from
/// which the pages are written (right after those bytes).
#[derive(Debug, Clone, Copy, PartialEq, Eq, Structural)]
pub struct HeaderRead {
    pub wrote: usize,
    pub pages_from: Option<usize>,
}

/// The outcome of handing out page data.
#[derive(Debug, Clone, Copy, PartialEq, Eq, Structural)]
pub enum PageFill {
    /// The buffer is full (or the page is not done): reading stops with the
    /// next write position.
    Done(usize),
    /// The current page is out: supply the next one, then fill again from
    /// this position.
    NeedPage(usize),
}

/// What of the current page is still to be handed out.
pub open spec fn page_rest(page: OggPage, wph: int, wpb: int) -> Seq<u8> {
    page.header@.skip(wph) + page.body@.skip(wpb)
}

/// A page's progress is consistent: the body starts only after the header.
pub open spec fn page_progress_ok(page: OggPage, wph: int, wpb: int) -> bool {
    &&& 0 <= wph <= page.header@.len()
    &&& 0 <= wpb <= page.body@.len()
    &&& (wph < page.header@.len() ==> wpb == 0)
}

impl OpusStream {
    /// The state of a freshly created encoder stream.
    pub fn new() -> (s: Self)
        ensures
            s.byte_offset == 0,
            s.header_data is None,
            s.cached_page is None,
            s.wrote_page_header == 0,
            s.wrote_page_body == 0,
            s.packet_num == 1,
    {
        OpusStream {
            byte_offset: 0,
            header_data: None,
            cached_page: None,
            wrote_page_header: 0,
            wrote_page_body: 0,
            packet_num: 1,
        }
    }

    /// Whether the header page still has to be built before reading.
    pub fn needs_header(&self) -> (r: bool)
        ensures
            r == self.header_data is None,
    {
        self.header_data.is_none()
    }

    /// Keeps the header page (its header bytes, then its body bytes).
    pub fn set_header(&mut self, page: &OggPage)
        ensures
            (final(self).header_data matches Some(h) && h@ == page.header@ + page.body@),
            final(self).byte_offset == old(self).byte_offset,
            final(self).cached_page == old(self).cached_page,
            final(self).wrote_page_header == old(self).wrote_page_header,
            final(self).wrote_page_body == old(self).wrote_page_body,
            final(self).packet_num == old(self).packet_num,
    {
        let mut data: Vec<u8> = Vec::new();
        let mut i: usize = 0;
        while i < page.header.len()
            invariant
                0 <= i <= page.header@.len(),
                data@ == page.header@.take(i as int),
            decreases page.header.len() - i,
        {
            data.push(page.header[i]);
            i = i + 1;
            assert(data@ =~= page.header@.take(i as int));
        }
        let mut j: usize = 0;
        while j < page.body.len()
            invariant
                0 <= j <= page.body@.len(),
                data@ == page.header@ + page.body@.take(j as int),
            decreases page.body.len() - j,
        {
            data.push(page.body[j]);
            j = j + 1;
            assert(data@ =~= page.header@ + page.body@.take(j as int));
        }
        assert(page.header@.take(page.header@.len() as int) =~= page.header@);
        assert(page.body@.take(page.body@.len() as int) =~= page.body@);
        self.header_data = Some(data);
    }
}

/// How many header bytes one read hands out into a buffer of `len` bytes.
pub open spec fn header_chunk(s: OpusStream, len: int) -> int {
    let h = s.header_data.unwrap()@.len() as int;
    let off = s.byte_offset as int;
    if off < h {
        if len < h - off { len } else { h - off }
    } else {
        0
    }
}

/// The header bytes one read hands out into a buffer of `len` bytes.
pub open spec fn header_piece(s: OpusStream, len: int) -> Seq<u8> {
    let off = s.byte_offset as int;
    if off < s.header_data.unwrap()@.len() {
        s.header_data.unwrap()@.subrange(off, off + header_chunk(s, len))
    } else {
        Seq::empty()
    }
}

/// Number of page bytes one fill hands out into `space` bytes.
pub open spec fn page_chunk(page: OggPage, wph: int, wpb: int, space: int) -> int {
    let rest = page_rest(page, wph, wpb).len() as int;
    if space < rest { space } else { rest }
}

impl OpusStream {
    /// Hands out what is left of the header page into the start of `buf`.
    pub fn read_header_part(&mut self, buf: &mut Vec<u8>) -> (r: HeaderRead)
        requires
            old(self).header_data is Some,
        ensures
            ({
                let h = old(self).header_data.unwrap()@;
                let off = old(self).byte_offset as int;
                let wh = header_chunk(*old(self), old(buf)@.len() as int);
                &&& r.wrote == wh
                &&& final(buf)@ == header_piece(*old(self), old(buf)@.len() as int) + old(buf)@.skip(wh)
                &&& final(self).byte_offset == off + wh
                &&& r.pages_from == (if off + wh >= h.len() { Some(wh as usize) } else { None::<usize> })
            }),
            final(self).header_data == old(self).header_data,
            final(self).cached_page == old(self).cached_page,
            final(self).wrote_page_header == old(self).wrote_page_header,
            final(self).wrote_page_body == old(self).wrote_page_body,
            final(self).packet_num == old(self).packet_num,
    {
        let ghost h0 = old(self).header_data.unwrap()@;
        let len = buf.len();
        let h = match &self.header_data {
            Some(d) => d.len(),
            None => 0,
        };
        let off = self.byte_offset;
        let wh = if off < h {
            if len < h - off { len } else { h - off }
        } else {
            0
        };
        let mut k: usize = 0;
        while k < wh
            invariant
                0 <= k <= wh,
                wh <= len,
                buf@.len() == len,
                off + wh <= h || wh == 0,
                self.header_data matches Some(d) && d@ == h0 && d@.len() == h,
                self.byte_offset == off,
                forall|i: int| 0 <= i < k ==> buf@[i] == h0[off + i],
                forall|i: int| k <= i < len ==> buf@[i] == old(buf)@[i],
            decreases wh - k,
        {
            let b = match &self.header_data {
                Some(d) => d[off + k],
                None => 0,
            };
            buf[k] = b;
            k = k + 1;
        }
        self.byte_offset = off + wh;
        assert(buf@ =~= header_piece(*old(self), len as int) + old(buf)@.skip(wh as int));
        if off + wh >= h {
            HeaderRead { wrote: wh, pages_from: Some(wh) }
        } else {
            HeaderRead { wrote: wh, pages_from: None }
        }
    }
}

impl OpusStream {
    /// Hands out page data into `buf` from position `pos`: as much of the
    /// current page as fits. When the page is out it is dropped and the
    /// next one is asked for, even when the buffer is full.
    pub fn fill_from_pages(&mut self, buf: &mut Vec<u8>, pos: usize) -> (r: PageFill)
        requires
            pos <= old(buf)@.len(),
            old(self).cached_page matches Some(p) ==> page_progress_ok(
                p,
                old(self).wrote_page_header as int,
                old(self).wrote_page_body as int,
            ),
            old(self).byte_offset + old(buf)@.len() <= usize::MAX,
        ensures
            final(self).header_data == old(self).header_data,
            final(self).packet_num == old(self).packet_num,
            final(buf)@.len() == old(buf)@.len(),
            match old(self).cached_page {
                None => {
                    &&& r == PageFill::NeedPage(pos)
                    &&& final(buf)@ == old(buf)@
                    &&& final(self).cached_page is None
                    &&& final(self).byte_offset == old(self).byte_offset
                },
                Some(p) => {
                    let wph = old(self).wrote_page_header as int;
                    let wpb = old(self).wrote_page_body as int;
                    let rest = page_rest(p, wph, wpb);
                    let n = page_chunk(p, wph, wpb, old(buf)@.len() - pos);
                    &&& final(buf)@ == old(buf)@.take(pos as int) + rest.take(n) + old(buf)@.skip(pos + n)
                    &&& final(self).byte_offset == old(self).byte_offset + n
                    &&& if n == rest.len() {
                        &&& r == PageFill::NeedPage((pos + n) as usize)
                        &&& final(self).cached_page is None
                    } else {
                        &&& r == PageFill::Done((pos + n) as usize)
                        &&& final(self).cached_page == old(self).cached_page
                        &&& page_progress_ok(p, final(self).wrote_page_header as int, final(self).wrote_page_body as int)
                        &&& page_rest(p, final(self).wrote_page_header as int, final(self).wrote_page_body as int)
                            == rest.skip(n)
                    }
                },
            },
    {
        let len = buf.len();
        let page = match self.cached_page.take() {
            None => return PageFill::NeedPage(pos),
            Some(p) => p,
        };
        let ghost rest = page_rest(page, self.wrote_page_header as int, self.wrote_page_body as int);
        let hl = page.header.len();
        let bl = page.body.len();
        let mut wph = self.wrote_page_header;
        let mut wpb = self.wrote_page_body;
        let mut at = pos;
        // the header of the page, then its body
        while wph < hl && at < len
            invariant
                hl == page.header@.len(),
                bl == page.body@.len(),
                rest == page_rest(page, old(self).wrote_page_header as int, old(self).wrote_page_body as int),
                page_progress_ok(page, wph as int, wpb as int),
                old(self).wrote_page_header <= wph,
                wpb == old(self).wrote_page_body,
                pos <= at <= len,
                len == old(buf)@.len(),
                buf@.len() == len,
                at - pos == wph - old(self).wrote_page_header,
                page_rest(page, wph as int, wpb as int) == rest.skip(at - pos),
                at - pos <= rest.len(),
                buf@ == old(buf)@.take(pos as int) + rest.take(at - pos) + old(buf)@.skip(at as int),
            decreases hl - wph,
        {
            let ghost prev = buf@;
            buf[at] = page.header[wph];
            assert(rest[at - pos] == page.header@[wph as int]) by {
                assert(page_rest(page, wph as int, wpb as int)[0] == page.header@[wph as int]);
            }
            wph = wph + 1;
            at = at + 1;
            assert(page_rest(page, wph as int, wpb as int) =~= rest.skip(at - pos));
            assert(buf@ =~= old(buf)@.take(pos as int) + rest.take(at - pos) + old(buf)@.skip(at as int));
        }
        if wph == hl {
            while wpb < bl && at < len
                invariant
                    hl == page.header@.len(),
                    bl == page.body@.len(),
                    wph == hl,
                    rest == page_rest(page, old(self).wrote_page_header as int, old(self).wrote_page_body as int),
                    page_progress_ok(page, wph as int, wpb as int),
                    pos <= at <= len,
                    len == old(buf)@.len(),
                    buf@.len() == len,
                    page_rest(page, wph as int, wpb as int) == rest.skip(at - pos),
                    at - pos <= rest.len(),
                at - pos <= rest.len(),
                    buf@ == old(buf)@.take(pos as int) + rest.take(at - pos) + old(buf)@.skip(at as int),
                decreases bl - wpb,
            {
                buf[at] = page.body[wpb];
                assert(rest[at - pos] == page.body@[wpb as int]) by {
                    assert(page.header@.skip(wph as int) =~= Seq::<u8>::empty());
                    assert(page_rest(page, wph as int, wpb as int) =~= page.body@.skip(wpb as int));
                    assert(page_rest(page, wph as int, wpb as int)[0] == page.body@[wpb as int]);
                }
                let ghost wpb0 = wpb;
                wpb = wpb + 1;
                at = at + 1;
                assert(page.header@.skip(wph as int) =~= Seq::<u8>::empty());
                assert(page_rest(page, wph as int, wpb0 as int) =~= page.body@.skip(wpb0 as int));
                assert(page_rest(page, wph as int, wpb as int) =~= page.body@.skip(wpb as int));
                assert(rest.skip(at - pos) =~= rest.skip(at - 1 - pos).drop_first());
                assert(page.body@.skip(wpb as int) =~= page.body@.skip(wpb0 as int).drop_first());
                assert(page_rest(page, wph as int, wpb as int) =~= rest.skip(at - pos));
                assert(buf@ =~= old(buf)@.take(pos as int) + rest.take(at - pos) + old(buf)@.skip(at as int));
            }
        }
        let n = at - pos;
        proof {
            assert(page_rest(page, wph as int, wpb as int).len() == rest.len() - n);
            if wph < hl || wpb < bl {
                assert(at == len);
            }
            assert(n == page_chunk(page, old(self).wrote_page_header as int, old(self).wrote_page_body as int, len - pos));
        }
        self.wrote_page_header = wph;
        self.wrote_page_body = wpb;
        self.byte_offset = self.byte_offset + n;
        if wph == hl && wpb == bl {
            PageFill::NeedPage(at)
        } else {
            self.cached_page = Some(page);
            PageFill::Done(at)
        }
    }

    /// Takes the next page of the encoder (`None` at the end of the
    /// stream); answers whether there is one to hand out.
    pub fn supply_page(&mut self, page: Option<OggPage>) -> (more: bool)
        ensures
            more == page is Some,
            final(self).cached_page == page,
            final(self).wrote_page_header == 0,
            final(self).wrote_page_body == 0,
            final(self).byte_offset == old(self).byte_offset,
            final(self).header_data == old(self).header_data,
            final(self).packet_num == old(self).packet_num,
    {
        let more = page.is_some();
        self.cached_page = page;
        self.wrote_page_header = 0;
        self.wrote_page_body = 0;
        more
    }

    /// Numbers the next packet taken from the encoder: its packet number is
    /// the current count, which then advances; its granule position counts
    /// 48 kHz samples of 20 ms frames up to the advanced count.
    pub fn next_packet(&mut self) -> (r: PacketNumbers)
        requires
            (old(self).packet_num + 1) * 960 <= u32::MAX,
        ensures
            final(self).packet_num == old(self).packet_num + 1,
            r.packetno == old(self).packet_num,
            r.granulepos == (old(self).packet_num + 1) * 960,
            r.bos == false,
            final(self).byte_offset == old(self).byte_offset,
            final(self).header_data == old(self).header_data,
            final(self).cached_page == old(self).cached_page,
            final(self).wrote_page_header == old(self).wrote_page_header,
            final(self).wrote_page_body == old(self).wrote_page_body,
    {
        let packetno = self.packet_num as i64;
        self.packet_num = self.packet_num + 1;
        let bos = self.packet_num == 0;
        let granule: u32 = self.packet_num * (RATE / (1000 / FRAME_SIZE));
        PacketNumbers { packetno, granulepos: granule as i64, bos }
    }
}

/// A fresh page is handed out whole and in order, its header before its
/// body, into a buffer with room for it.
pub proof fn lemma_fresh_page_whole(page: OggPage, space: int)
    requires
        space >= page.header@.len() + page.body@.len(),
    ensures
        page_rest(page, 0, 0) == page.header@ + page.body@,
        page_chunk(page, 0, 0, space) == page.header@.len() + page.body@.len(),
{
    assert(page.header@.skip(0) =~= page.header@);
    assert(page.body@.skip(0) =~= page.body@);
}

} // verus!
