use vstd::prelude::*;
use vstd::string::StringExecFns;
use crate::responses::Status;
use crate::text::{decimal_digits, opt_string_text, u64_text};
use crate::helpers::content_type::{extension_content_type, content_type_from_extension};

verus! {

/// One byte range of an HTTP `Range: bytes=` header.
#[derive(Debug, Clone, Copy, PartialEq, Eq, Structural)]
pub enum ByteRangeSpec {
    /// `from-to`, both inclusive.
    FromTo(u64, u64),
    /// `from-`: everything from an offset on.
    AllFrom(u64),
    /// `-n`: the last `n` bytes.
    Last(u64),
}

/// Where to position the file before streaming the body.
#[derive(Debug, Clone, Copy, PartialEq, Eq, Structural)]
pub enum FileSeek {
    /// Offset from the start of the file.
    Start(u64),
    /// Offset from the end of the file (zero or negative to go back).
    End(i64),
}

/// How to answer a request for an audio file.
#[derive(Debug, Clone, Copy, PartialEq, Eq, Structural)]
pub enum RangePlan {
    /// Send the whole file with status 200.
    Whole,
    /// Seek, then send `length` bytes with status 206 and a
    /// `Content-Range: bytes first-last/total` header.
    Partial { seek: FileSeek, length: u64, first: u64, last: u64, total: u64 },
}

/// Whether answering `spec` for a file of `size` bytes stays within the
/// arithmetic the server performs (an inclusive end that can be advanced,
/// an end not before the start, an offset within the file, a non-empty
/// file when the last byte is named).
pub open spec fn range_answerable(spec: ByteRangeSpec, size: u64) -> bool {
    match spec {
        ByteRangeSpec::FromTo(from, to) => to < u64::MAX && from <= to + 1,
        ByteRangeSpec::AllFrom(from) => from <= size && size >= 1,
        ByteRangeSpec::Last(n) => n != 0x8000_0000_0000_0000 && n <= size && size >= 1,
    }
}

/// The seek offset from the end for the last `n` bytes: `-(n as i64)`.
pub open spec fn back_offset(n: u64) -> int {
    if n < 0x8000_0000_0000_0000 {
        -(n as int)
    } else {
        0x1_0000_0000_0000_0000 - n
    }
}

/// The answer for the first range of a request (the others are ignored).
pub open spec fn range_plan(spec: ByteRangeSpec, size: u64) -> RangePlan {
    match spec {
        ByteRangeSpec::FromTo(from, to) => RangePlan::Partial {
            seek: FileSeek::Start(from),
            length: (to + 1 - from) as u64,
            first: from,
            last: to,
            total: size,
        },
        ByteRangeSpec::AllFrom(from) => RangePlan::Partial {
            seek: FileSeek::Start(from),
            length: (size - from) as u64,
            first: from,
            last: (size - 1) as u64,
            total: size,
        },
        ByteRangeSpec::Last(n) => RangePlan::Partial {
            seek: FileSeek::End(back_offset(n) as i64),
            length: n,
            first: (size - n) as u64,
            last: (size - 1) as u64,
            total: size,
        },
    }
}

/// What `std::path::Path::extension` gives for a path, as text.
pub uninterp spec fn path_extension(path: Seq<char>) -> Option<Seq<char>>;

/// Calls `std::path::Path::extension` on a path given as text.
/// Claimed: the result is `path_extension` of the text; the extension of a
/// UTF-8 path is UTF-8, so nothing is lost in converting it back.
#[verifier::external_body]
fn file_extension(path: &str) -> (r: Option<String>)
    ensures
        opt_string_text(r) == path_extension(path@),
{
    std::path::Path::new(path).extension().and_then(|e| e.to_str()).map(|e| e.to_owned())
}

/// The Content-Type of the answer for a file: the type its extension names,
/// when it has an extension that names one.
pub open spec fn file_content_type(path: Seq<char>) -> Option<Seq<char>> {
    match path_extension(path) {
        Some(e) => extension_content_type(e),
        None => None,
    }
}

/// The Content-Type sent with the file at `path`; `None`: no Content-Type.
pub fn content_type_of(path: &str) -> (r: Option<String>)
    ensures
        opt_string_text(r) == file_content_type(path@),
{
    match file_extension(path) {
        None => None,
        Some(e) => content_type_from_extension(e.as_str()),
    }
}

/// One header of an answer.
pub struct Header {
    pub name: String,
    pub value: String,
}

/// A header by its texts.
pub open spec fn header_text(h: Header) -> (Seq<char>, Seq<char>) {
    (h.name@, h.value@)
}

/// The value of a `Content-Range` header: `bytes first-last/total`.
pub open spec fn content_range_text(first: u64, last: u64, total: u64) -> Seq<char> {
    "bytes "@ + decimal_digits(first as nat) + "-"@ + decimal_digits(last as nat) + "/"@
        + decimal_digits(total as nat)
}

/// The headers of an answer, in order: its Content-Type when there is one,
/// `Accept-Ranges: bytes` always, and the `Content-Range` of a part.
pub open spec fn answer_header_texts(plan: RangePlan, content_type: Option<Seq<char>>) -> Seq<(Seq<char>, Seq<char>)> {
    let typed = match content_type {
        Some(t) => seq![("Content-Type"@, t)],
        None => Seq::empty(),
    };
    let ranged = match plan {
        RangePlan::Whole => Seq::empty(),
        RangePlan::Partial { first, last, total, .. } => seq![("Content-Range"@, content_range_text(first, last, total))],
    };
    typed + seq![("Accept-Ranges"@, "bytes"@)] + ranged
}

/// The headers sent with an answer planned as `plan` for a file of the
/// given content type.
pub fn answer_headers(plan: &RangePlan, content_type: Option<String>) -> (r: Vec<Header>)
    ensures
        r@.map_values(|h: Header| header_text(h)) == answer_header_texts(*plan, opt_string_text(content_type)),
{
    let mut r: Vec<Header> = Vec::new();
    match content_type {
        Some(t) => {
            r.push(Header { name: String::from_str("Content-Type"), value: t });
        },
        None => {},
    }
    r.push(Header { name: String::from_str("Accept-Ranges"), value: String::from_str("bytes") });
    match plan {
        RangePlan::Whole => {},
        RangePlan::Partial { first, last, total, .. } => {
            let mut v = String::from_str("bytes ");
            let a = u64_text(*first);
            v.append(a.as_str());
            v.append("-");
            let b = u64_text(*last);
            v.append(b.as_str());
            v.append("/");
            let c = u64_text(*total);
            v.append(c.as_str());
            r.push(Header { name: String::from_str("Content-Range"), value: v });
        },
    }
    assert(r@.map_values(|h: Header| header_text(h)) =~= answer_header_texts(*plan, opt_string_text(content_type)));
    r
}

/// Whether a request's ranges can be answered (see `range_answerable`).
pub fn request_answerable(ranges: Option<&Vec<ByteRangeSpec>>, size: u64) -> (r: bool)
    ensures
        r == match ranges {
            Some(v) => v@.len() > 0 && range_answerable(v@[0], size),
            None => true,
        },
{
    match ranges {
        None => true,
        Some(v) => {
            if v.len() == 0 {
                false
            } else {
                match v[0] {
                    ByteRangeSpec::FromTo(from, to) => to < u64::MAX && from <= to + 1,
                    ByteRangeSpec::AllFrom(from) => from <= size && size >= 1,
                    ByteRangeSpec::Last(n) => n != 0x8000_0000_0000_0000 && n <= size && size >= 1,
                }
            }
        },
    }
}

/// Plans the answer to a request for a file of `size` bytes: the whole
/// file without a range header, otherwise the part named by its first
/// byte range.
pub fn plan_range_response(ranges: Option<&Vec<ByteRangeSpec>>, size: u64) -> (r: RangePlan)
    requires
        match ranges {
            Some(v) => v@.len() > 0 && range_answerable(v@[0], size),
            None => true,
        },
    ensures
        r == match ranges {
            Some(v) => range_plan(v@[0], size),
            None => RangePlan::Whole,
        },
{
    match ranges {
        None => RangePlan::Whole,
        Some(v) => match v[0] {
            ByteRangeSpec::FromTo(from, to) => {
                let first_byte_not_sent = to + 1;
                RangePlan::Partial {
                    seek: FileSeek::Start(from),
                    length: first_byte_not_sent - from,
                    first: from,
                    last: to,
                    total: size,
                }
            },
            ByteRangeSpec::AllFrom(from) => RangePlan::Partial {
                seek: FileSeek::Start(from),
                length: size - from,
                first: from,
                last: size - 1,
                total: size,
            },
            ByteRangeSpec::Last(n) => {
                let back: i64 = if n < 0x8000_0000_0000_0000 {
                    -(n as i64)
                } else {
                    (0xffff_ffff_ffff_ffffu64 - n + 1) as i64
                };
                RangePlan::Partial { seek: FileSeek::End(back), length: n, first: size - n, last: size - 1, total: size }
            },
        },
    }
}

impl RangePlan {
    /// The status of the answer: 206 for a part, 200 for the whole file.
    pub fn status(&self) -> (s: Status)
        ensures
            s == (if self is Whole { Status::Okay } else { Status::PartialContent }),
    {
        match self {
            RangePlan::Whole => Status::Okay,
            RangePlan::Partial { .. } => Status::PartialContent,
        }
    }
}

/// The bytes a part sends are the ones its `Content-Range` names: the seek
/// lands on the first byte (from the start for `from-to` and `from-`, from
/// the end for the last `n` bytes), the length runs from the first to the
/// last byte, and these are the bytes the request asked for: `from` to `to`,
/// `from` to the end, or the last `n` bytes. (For the last `n` bytes with
/// `n` of 2^63 or more the seek offset wraps, so those are left out.)
pub proof fn lemma_part_is_requested_bytes(spec: ByteRangeSpec, size: u64)
    requires
        range_answerable(spec, size),
        spec matches ByteRangeSpec::Last(n) ==> n < 0x8000_0000_0000_0000,
    ensures
        range_plan(spec, size) matches RangePlan::Partial { seek, length, first, last, total } && {
            &&& total == size
            &&& length == last - first + 1
            &&& match seek {
                FileSeek::Start(offset) => offset == first,
                FileSeek::End(back) => size + back == first,
            }
            &&& match spec {
                ByteRangeSpec::FromTo(from, to) => first == from && last == to && seek is Start,
                ByteRangeSpec::AllFrom(from) => first == from && last == size - 1 && seek is Start,
                ByteRangeSpec::Last(n) => first == size - n && last == size - 1 && seek is End,
            }
        },
{
}

/// A planned part lies within the file and its length is the number of
/// bytes from its first to its last byte, except where a `from-to` range
/// reaches past the end (the length is then what the client asked for).
pub proof fn lemma_partial_within_file(spec: ByteRangeSpec, size: u64)
    requires
        range_answerable(spec, size),
    ensures
        range_plan(spec, size) matches RangePlan::Partial { length, first, last, total, .. } ==> {
            &&& total == size
            &&& first <= last + 1
            &&& length == last - first + 1
            &&& (spec !is FromTo ==> last < size)
        },
{
}

} // verus!
