use vstd::prelude::*;

verus! {

/// Nanoseconds in a millisecond.
pub const NANOS_PER_MILLI: u128 = 1_000_000;

/// The largest span a `std::time::Duration` can hold, in nanoseconds.
pub const DURATION_MAX_NANOS: u128 = 18_446_744_073_709_551_615_999_999_999;

/// The time span one seek reference aims to cover, in milliseconds.
pub const DESIRED_ACCURACY: u64 = 1000;

/// Bits of each reference that hold the byte deviation.
pub const BITS_FOR_SIZE: u8 = 15;

/// Bits of each reference that hold the millisecond deviation.
pub const BITS_FOR_TIME: u8 = 1;

// ---------------------------------------------------------------------------
// big-endian byte encodings
// ---------------------------------------------------------------------------

/// Two bytes, most significant first.
pub open spec fn be16(x: int) -> Seq<u8> {
    seq![(x / 0x100) as u8, (x % 0x100) as u8]
}

/// Three bytes, most significant first.
pub open spec fn be24(x: int) -> Seq<u8> {
    seq![(x / 0x1_0000) as u8, ((x / 0x100) % 0x100) as u8, (x % 0x100) as u8]
}

/// Four bytes, most significant first.
pub open spec fn be32(x: int) -> Seq<u8> {
    seq![(x / 0x100_0000) as u8, ((x / 0x1_0000) % 0x100) as u8, ((x / 0x100) % 0x100) as u8, (x % 0x100) as u8]
}

/// Appends `x` as two big-endian bytes.
pub fn push_u16(v: &mut Vec<u8>, x: u16)
    ensures
        final(v)@ == old(v)@ + be16(x as int),
{
    let hi = (x >> 8u16) as u8;
    let lo = (x & 0xffu16) as u8;
    assert(((x >> 8u16) as u8) == (x / 0x100) as u8 && ((x & 0xffu16) as u8) == (x % 0x100) as u8)
        by (bit_vector);
    v.push(hi);
    v.push(lo);
    assert(v@ =~= old(v)@ + be16(x as int));
}

/// Appends the two's complement of `x` as two big-endian bytes.
pub fn push_i16(v: &mut Vec<u8>, x: i16)
    ensures
        final(v)@ == old(v)@ + be16(if x < 0 { x + 0x1_0000 } else { x as int }),
{
    let u: u16 = if x < 0 { (x as i32 + 0x1_0000) as u16 } else { x as u16 };
    push_u16(v, u);
}

/// Appends the low three bytes of `x`, big-endian; `x` must fit in 24 bits.
pub fn push_u24(v: &mut Vec<u8>, x: u32)
    requires
        x < 0x100_0000,
    ensures
        final(v)@ == old(v)@ + be24(x as int),
{
    let b0 = (x >> 16u32) as u8;
    let b1 = ((x >> 8u32) & 0xffu32) as u8;
    let b2 = (x & 0xffu32) as u8;
    assert(((x >> 16u32) as u8) == (x / 0x1_0000) as u8 && (((x >> 8u32) & 0xffu32) as u8) == ((x / 0x100) % 0x100) as u8
        && ((x & 0xffu32) as u8) == (x % 0x100) as u8) by (bit_vector);
    v.push(b0);
    v.push(b1);
    v.push(b2);
    assert(v@ =~= old(v)@ + be24(x as int));
}

/// Appends `x` as four big-endian bytes.
pub fn push_u32(v: &mut Vec<u8>, x: u32)
    ensures
        final(v)@ == old(v)@ + be32(x as int),
{
    let b0 = (x >> 24u32) as u8;
    let b1 = ((x >> 16u32) & 0xffu32) as u8;
    let b2 = ((x >> 8u32) & 0xffu32) as u8;
    let b3 = (x & 0xffu32) as u8;
    assert(((x >> 24u32) as u8) == (x / 0x100_0000) as u8 && (((x >> 16u32) & 0xffu32) as u8) == ((x / 0x1_0000) % 0x100) as u8
        && (((x >> 8u32) & 0xffu32) as u8) == ((x / 0x100) % 0x100) as u8 && ((x & 0xffu32) as u8) == (x % 0x100) as u8)
        by (bit_vector);
    v.push(b0);
    v.push(b1);
    v.push(b2);
    v.push(b3);
    assert(v@ =~= old(v)@ + be32(x as int));
}

// ---------------------------------------------------------------------------
// frames as read from an MP3 stream
// ---------------------------------------------------------------------------

/// Position of `MPEG1` in `mp3_metadata::Version`.
pub const VERSION_MPEG1: u8 = 1;

/// Position of `Layer3` in `mp3_metadata::Layer`.
pub const LAYER_3: u8 = 3;

/// One MPEG audio frame: its version and layer (the positions of the
/// variants in `mp3_metadata`'s enums), its size in bytes and its playing
/// time in nanoseconds when that can be computed.
#[derive(Debug, Clone, Copy, PartialEq, Eq, Structural)]
pub struct Mp3Frame {
    pub version: u8,
    pub layer: u8,
    pub size: u32,
    pub duration_nanos: Option<u128>,
}

/// Why no seek table could be built.
#[derive(Debug, Clone, Copy, PartialEq, Eq, Structural)]
pub enum MlltError {
    /// The MP3 reader rejected the data; the position of its error variant.
    Read(u8),
    /// A frame is not MPEG-1 layer III (after concatenation the reader may
    /// take sample data for frame headers).
    NonMp3Frame,
    /// A frame's duration could not be calculated.
    IncalculableDuration,
}

/// The frame is MPEG-1 layer III.
pub open spec fn is_mpeg1_layer3(f: Mp3Frame) -> bool {
    f.version == VERSION_MPEG1 && f.layer == LAYER_3
}

/// A frame's playing time in nanoseconds (zero when unknown).
pub open spec fn frame_nanos(f: Mp3Frame) -> int {
    match f.duration_nanos {
        Some(d) => d as int,
        None => 0,
    }
}

/// Total playing time of frames `lo..hi`, in nanoseconds.
pub open spec fn sum_nanos(frames: Seq<Mp3Frame>, lo: int, hi: int) -> int
    decreases hi - lo,
{
    if hi <= lo {
        0
    } else {
        sum_nanos(frames, lo, hi - 1) + frame_nanos(frames[hi - 1])
    }
}

/// Total size of frames `lo..hi`, in bytes.
pub open spec fn sum_size(frames: Seq<Mp3Frame>, lo: int, hi: int) -> int
    decreases hi - lo,
{
    if hi <= lo {
        0
    } else {
        sum_size(frames, lo, hi - 1) + frames[hi - 1].size
    }
}

/// The smallest size among the first `n` frames (`u32::MAX` for none).
pub open spec fn smallest_size(frames: Seq<Mp3Frame>, n: int) -> int
    decreases n,
{
    if n <= 0 {
        u32::MAX as int
    } else {
        let m = smallest_size(frames, n - 1);
        if frames[n - 1].size < m { frames[n - 1].size as int } else { m }
    }
}

/// What checking the first `n` frames comes to: `Some(Ok(()))` when they are
/// all MPEG-1 layer III with a known duration, the error of the first one
/// that is not, or `None` where the running totals overflow (a `Duration`
/// or a `u64` sum), on which the computation panics.
pub open spec fn frame_check(frames: Seq<Mp3Frame>, n: int) -> Option<Result<(), MlltError>>
    decreases n,
{
    if n <= 0 {
        Some(Ok(()))
    } else {
        match frame_check(frames, n - 1) {
            Some(Ok(())) => {
                let f = frames[n - 1];
                if !is_mpeg1_layer3(f) {
                    Some(Err(MlltError::NonMp3Frame))
                } else if f.duration_nanos is None {
                    Some(Err(MlltError::IncalculableDuration))
                } else if sum_nanos(frames, 0, n) > DURATION_MAX_NANOS || sum_size(frames, 0, n) > u64::MAX {
                    None
                } else {
                    Some(Ok(()))
                }
            },
            other => other,
        }
    }
}

/// The references for the first `j` complete chunks of `fpr` frames:
/// the estimated and the actual elapsed time so far (nanoseconds) and the
/// packed 16-bit references written, or `None` where a `Duration`
/// computation overflows or would go negative.
pub open spec fn refs_upto(frames: Seq<Mp3Frame>, fpr: int, mpr: int, min_bytes: int, j: int) -> Option<(int, int, Seq<u8>)>
    decreases j,
{
    if j <= 0 {
        Some((0, 0, Seq::empty()))
    } else {
        match refs_upto(frames, fpr, mpr, min_bytes, j - 1) {
            None => None,
            Some((est, run, out)) => {
                let lo = (j - 1) * fpr;
                let hi = j * fpr;
                let est1 = est + mpr * NANOS_PER_MILLI;
                let run1 = run + sum_nanos(frames, lo, hi);
                if est1 > DURATION_MAX_NANOS || est1 > run1 {
                    None
                } else {
                    let millis_offset = ((run1 - est1) / NANOS_PER_MILLI as int) % 0x1_0000_0000_0000_0000;
                    let est2 = if millis_offset > 0 { est1 + millis_offset * NANOS_PER_MILLI } else { est1 };
                    let bytes_offset = (sum_size(frames, lo, hi) - min_bytes) % 0x1_0000;
                    let packed = (bytes_offset * 2) % 0x1_0000 + millis_offset % 2;
                    Some((est2, run1, out + be16(packed)))
                }
            },
        }
    }
}

/// Average frame duration in nanoseconds (the count taken as a `u32`).
pub open spec fn avg_frame_nanos(frames: Seq<Mp3Frame>) -> int {
    sum_nanos(frames, 0, frames.len() as int) / (frames.len() as int % 0x1_0000_0000)
}

/// Frames per reference: how many average frames fit in the desired accuracy.
pub open spec fn frames_per_ref(frames: Seq<Mp3Frame>) -> int {
    (DESIRED_ACCURACY as int / ((avg_frame_nanos(frames) / NANOS_PER_MILLI as int) % 0x1_0000_0000_0000_0000)) % 0x1_0000
}

/// Milliseconds per reference, rounded down.
pub open spec fn millis_per_ref(frames: Seq<Mp3Frame>) -> int {
    ((avg_frame_nanos(frames) * frames_per_ref(frames)) / NANOS_PER_MILLI as int) % 0x1_0000_0000
}

/// Minimum bytes per reference: the smallest frame times frames per reference.
pub open spec fn min_bytes_per_ref(frames: Seq<Mp3Frame>) -> int {
    smallest_size(frames, frames.len() as int) * frames_per_ref(frames)
}

/// The MLLT table of frames that are all MPEG-1 layer III: a ten-byte header
/// (frames per reference, minimum bytes and milliseconds per reference, the
/// bit widths 15 and 1) followed by one packed reference per complete chunk;
/// `None` where the computation cannot be carried out (a division by zero, an
/// overflow, a header field that does not fit in 24 bits).
pub open spec fn mllt_table(frames: Seq<Mp3Frame>) -> Option<Seq<u8>> {
    let n = frames.len() as int;
    if n % 0x1_0000_0000 == 0 {
        None
    } else if (avg_frame_nanos(frames) / NANOS_PER_MILLI as int) % 0x1_0000_0000_0000_0000 == 0 {
        None
    } else if frames_per_ref(frames) == 0 {
        None
    } else if min_bytes_per_ref(frames) > u32::MAX {
        None
    } else if avg_frame_nanos(frames) * frames_per_ref(frames) > DURATION_MAX_NANOS {
        None
    } else if min_bytes_per_ref(frames) >= 0x100_0000 || millis_per_ref(frames) >= 0x100_0000 {
        None
    } else {
        let fpr = frames_per_ref(frames);
        match refs_upto(frames, fpr, millis_per_ref(frames), min_bytes_per_ref(frames), n / fpr) {
            None => None,
            Some((_, _, out)) => Some(
                be16(fpr) + be24(min_bytes_per_ref(frames)) + be24(millis_per_ref(frames))
                    + seq![BITS_FOR_SIZE, BITS_FOR_TIME] + out,
            ),
        }
    }
}

/// What building the MLLT table from `frames` comes to: `None` where it
/// panics, otherwise the error of the frame check or the table.
pub open spec fn mllt_outcome(frames: Seq<Mp3Frame>) -> Option<Result<Seq<u8>, MlltError>> {
    match frame_check(frames, frames.len() as int) {
        None => None,
        Some(Err(e)) => Some(Err(e)),
        Some(Ok(())) => match mllt_table(frames) {
            None => None,
            Some(t) => Some(Ok(t)),
        },
    }
}

/// An optional table result with the table as a byte sequence.
pub open spec fn outcome_view(r: Option<Result<Vec<u8>, MlltError>>) -> Option<Result<Seq<u8>, MlltError>> {
    match r {
        None => None,
        Some(Ok(v)) => Some(Ok(v@)),
        Some(Err(e)) => Some(Err(e)),
    }
}

// ---------------------------------------------------------------------------
// lemmas on the frame sums
// ---------------------------------------------------------------------------

proof fn lemma_sums_split(frames: Seq<Mp3Frame>, lo: int, mid: int, hi: int)
    requires
        lo <= mid <= hi,
    ensures
        sum_nanos(frames, lo, hi) == sum_nanos(frames, lo, mid) + sum_nanos(frames, mid, hi),
        sum_size(frames, lo, hi) == sum_size(frames, lo, mid) + sum_size(frames, mid, hi),
    decreases hi - mid,
{
    if hi > mid {
        lemma_sums_split(frames, lo, mid, hi - 1);
    }
}

proof fn lemma_sums_nonneg(frames: Seq<Mp3Frame>, lo: int, hi: int)
    ensures
        sum_nanos(frames, lo, hi) >= 0,
        sum_size(frames, lo, hi) >= 0,
    decreases hi - lo,
{
    if hi > lo {
        lemma_sums_nonneg(frames, lo, hi - 1);
    }
}

proof fn lemma_sums_monotone(frames: Seq<Mp3Frame>, lo: int, mid: int, hi: int)
    requires
        lo <= mid <= hi,
    ensures
        sum_nanos(frames, lo, mid) <= sum_nanos(frames, lo, hi),
        sum_size(frames, lo, mid) <= sum_size(frames, lo, hi),
        sum_nanos(frames, mid, hi) <= sum_nanos(frames, lo, hi),
        sum_size(frames, mid, hi) <= sum_size(frames, lo, hi),
{
    lemma_sums_split(frames, lo, mid, hi);
    lemma_sums_nonneg(frames, lo, mid);
    lemma_sums_nonneg(frames, mid, hi);
}

proof fn lemma_smallest_bounds(frames: Seq<Mp3Frame>, n: int, i: int)
    requires
        0 <= i < n <= frames.len(),
    ensures
        smallest_size(frames, n) <= frames[i].size,
    decreases n,
{
    if i < n - 1 {
        lemma_smallest_bounds(frames, n - 1, i);
    }
}

proof fn lemma_chunk_at_least(frames: Seq<Mp3Frame>, lo: int, hi: int, m: int)
    requires
        lo <= hi,
        forall|i: int| lo <= i < hi ==> frames[i].size >= m,
    ensures
        sum_size(frames, lo, hi) >= (hi - lo) * m,
    decreases hi - lo,
{
    if hi > lo {
        lemma_chunk_at_least(frames, lo, hi - 1, m);
        assert(frames[hi - 1].size >= m);
        assert((hi - lo) * m == (hi - 1 - lo) * m + m) by (nonlinear_arith);
    } else {
        assert((hi - lo) * m == 0) by (nonlinear_arith) requires hi == lo;
    }
}

proof fn lemma_check_prefix(frames: Seq<Mp3Frame>, k: int, n: int)
    requires
        0 <= k <= n,
        frame_check(frames, n) == Some(Ok::<(), MlltError>(())),
    ensures
        frame_check(frames, k) == Some(Ok::<(), MlltError>(())),
    decreases n - k,
{
    if k < n {
        lemma_check_prefix(frames, k, n - 1);
    }
}

proof fn lemma_check_frames(frames: Seq<Mp3Frame>, n: int, i: int)
    requires
        0 <= i < n,
        frame_check(frames, n) == Some(Ok::<(), MlltError>(())),
    ensures
        is_mpeg1_layer3(frames[i]),
        frames[i].duration_nanos is Some,
{
    lemma_check_prefix(frames, i + 1, n);
}

proof fn lemma_check_settles(frames: Seq<Mp3Frame>, k: int, n: int)
    requires
        0 <= k <= n,
        frame_check(frames, k) != Some(Ok::<(), MlltError>(())),
    ensures
        frame_check(frames, n) == frame_check(frames, k),
    decreases n - k,
{
    if k < n {
        lemma_check_settles(frames, k, n - 1);
    }
}

proof fn lemma_refs_settle(frames: Seq<Mp3Frame>, fpr: int, mpr: int, min_bytes: int, j: int, k: int)
    requires
        0 <= j <= k,
        refs_upto(frames, fpr, mpr, min_bytes, j) is None,
    ensures
        refs_upto(frames, fpr, mpr, min_bytes, k) is None,
    decreases k - j,
{
    if j < k {
        lemma_refs_settle(frames, fpr, mpr, min_bytes, j, k - 1);
    }
}

proof fn lemma_sum_within(frames: Seq<Mp3Frame>, lo: int, k: int, n: int)
    requires
        0 <= lo <= k <= n,
    ensures
        sum_nanos(frames, lo, k) <= sum_nanos(frames, 0, n),
        sum_size(frames, lo, k) <= sum_size(frames, 0, n),
{
    lemma_sums_monotone(frames, 0, lo, k);
    lemma_sums_monotone(frames, 0, k, n);
}

/// Checks the frames and builds the table, reporting `None` exactly where
/// the computation would panic.
fn mllt_checked(frames: &Vec<Mp3Frame>) -> (r: Option<Result<Vec<u8>, MlltError>>)
    ensures
        outcome_view(r) == mllt_outcome(frames@),
{
    let n = frames.len();
    let mut duration: u128 = 0;
    let mut size: u64 = 0;
    let mut smallest: u32 = u32::MAX;
    let mut i: usize = 0;
    while i < n
        invariant
            n == frames@.len(),
            0 <= i <= n,
            frame_check(frames@, i as int) == Some(Ok::<(), MlltError>(())),
            duration == sum_nanos(frames@, 0, i as int),
            duration <= DURATION_MAX_NANOS,
            size == sum_size(frames@, 0, i as int),
            smallest == smallest_size(frames@, i as int),
        decreases n - i,
    {
        let f = frames[i];
        if !(f.version == VERSION_MPEG1 && f.layer == LAYER_3) {
            proof {
                assert(frame_check(frames@, i + 1) == Some(Err::<(), MlltError>(MlltError::NonMp3Frame)));
                lemma_check_settles(frames@, i + 1, n as int);
            }
            return Some(Err(MlltError::NonMp3Frame));
        }
        let d = match f.duration_nanos {
            Some(d) => d,
            None => {
                proof {
                    assert(frame_check(frames@, i + 1) == Some(Err::<(), MlltError>(MlltError::IncalculableDuration)));
                    lemma_check_settles(frames@, i + 1, n as int);
                }
                return Some(Err(MlltError::IncalculableDuration));
            },
        };
        if d > DURATION_MAX_NANOS - duration || (f.size as u64) > u64::MAX - size {
            proof {
                assert(frame_check(frames@, i + 1) is None);
                lemma_check_settles(frames@, i + 1, n as int);
            }
            return None;
        }
        duration = duration + d;
        size = size + f.size as u64;
        if f.size < smallest {
            smallest = f.size;
        }
        i = i + 1;
    }
    let ghost fs = frames@;
    let n64 = n as u64;
    let n32 = n64 % 0x1_0000_0000;
    if n32 == 0 {
        return None;
    }
    let frame_nanos: u128 = duration / (n32 as u128);
    assert(frame_nanos == avg_frame_nanos(fs));
    assert(frame_nanos <= duration) by (nonlinear_arith)
        requires frame_nanos == duration / (n32 as u128), n32 >= 1;
    let frame_millis: u64 = ((frame_nanos / NANOS_PER_MILLI) % 0x1_0000_0000_0000_0000) as u64;
    if frame_millis == 0 {
        return None;
    }
    let fpr: u16 = ((DESIRED_ACCURACY / frame_millis) % 0x1_0000) as u16;
    assert(fpr as int == frames_per_ref(fs));
    if fpr == 0 {
        return None;
    }
    assert(smallest as int == smallest_size(fs, n as int));
    assert((smallest as u64) * (fpr as u64) <= 0xffff_ffff * 0xffff) by (nonlinear_arith)
        requires smallest <= 0xffff_ffffu32, fpr <= 0xffffu16;
    let min_bytes: u64 = (smallest as u64) * (fpr as u64);
    assert(min_bytes as int == min_bytes_per_ref(fs));
    if min_bytes > u32::MAX as u64 {
        return None;
    }
    assert(frame_nanos * (fpr as u128) <= DURATION_MAX_NANOS * 0x1_0000) by (nonlinear_arith)
        requires frame_nanos <= DURATION_MAX_NANOS, fpr < 0x1_0000;
    let per_ref: u128 = frame_nanos * (fpr as u128);
    if per_ref > DURATION_MAX_NANOS {
        return None;
    }
    let mpr: u64 = ((per_ref / NANOS_PER_MILLI) % 0x1_0000_0000) as u64;
    assert(mpr as int == millis_per_ref(fs));
    if min_bytes >= 0x100_0000 || mpr >= 0x100_0000 {
        return None;
    }
    let mut res: Vec<u8> = Vec::new();
    push_u16(&mut res, fpr);
    push_u24(&mut res, min_bytes as u32);
    push_u24(&mut res, mpr as u32);
    res.push(BITS_FOR_SIZE);
    res.push(BITS_FOR_TIME);
    let ghost header = res@;
    assert(header =~= be16(fpr as int) + be24(min_bytes as int) + be24(mpr as int) + seq![BITS_FOR_SIZE, BITS_FOR_TIME]);

    let fpr_u = fpr as usize;
    let num_chunks = n / fpr_u;
    let mut est: u128 = 0;
    let mut run: u128 = 0;
    assert(num_chunks as int == fs.len() as int / frames_per_ref(fs));
    assert(mllt_table(fs) == match refs_upto(fs, fpr as int, mpr as int, min_bytes as int, num_chunks as int) {
        None => None,
        Some((_, _, out)) => Some(header + out),
    });
    let mut j: usize = 0;
    assert(j * fpr_u == 0) by (nonlinear_arith) requires j == 0;
    while j < num_chunks
        invariant
            n == fs.len(),
            fs == frames@,
            frame_check(fs, n as int) == Some(Ok::<(), MlltError>(())),
            duration == sum_nanos(fs, 0, n as int),
            duration <= DURATION_MAX_NANOS,
            size == sum_size(fs, 0, n as int),
            smallest == smallest_size(fs, n as int),
            1 <= fpr_u,
            fpr_u == fpr,
            num_chunks == n / fpr_u,
            min_bytes == smallest * fpr,
            mpr < 0x100_0000,
            0 <= j <= num_chunks,
            j * fpr_u <= n,
            est <= run,
            run == sum_nanos(fs, 0, j * fpr_u),
            header.len() == 10,
            res@.len() >= 10,
            refs_upto(fs, fpr as int, mpr as int, min_bytes as int, j as int) == Some(
                (est as int, run as int, res@.subrange(10, res@.len() as int)),
            ),
            res@.subrange(0, 10) == header,
            mllt_table(fs) == match refs_upto(fs, fpr as int, mpr as int, min_bytes as int, num_chunks as int) {
                None => None,
                Some((_, _, out)) => Some(header + out),
            },
        decreases num_chunks - j,
    {
        assert((j + 1) * fpr_u <= n) by (nonlinear_arith)
            requires j < num_chunks, num_chunks == n / fpr_u, fpr_u >= 1;
        assert((j + 1) * fpr_u == j * fpr_u + fpr_u) by (nonlinear_arith);
        let lo = j * fpr_u;
        let hi = lo + fpr_u;
        let mut cb: u64 = 0;
        let mut cd: u128 = 0;
        let mut k = lo;
        while k < hi
            invariant
                n == fs.len(),
                fs == frames@,
                lo <= k <= hi <= n,
                cb == sum_size(fs, lo as int, k as int),
                cd == sum_nanos(fs, lo as int, k as int),
                duration == sum_nanos(fs, 0, n as int),
                duration <= DURATION_MAX_NANOS,
                size == sum_size(fs, 0, n as int),
            decreases hi - k,
        {
            proof {
                lemma_sum_within(fs, lo as int, k + 1, n as int);
            }
            let f = frames[k];
            cb = cb + f.size as u64;
            let d: u128 = match f.duration_nanos {
                Some(d) => d,
                None => 0,
            };
            cd = cd + d;
            k = k + 1;
        }
        proof {
            lemma_sums_split(fs, 0, lo as int, hi as int);
            lemma_sum_within(fs, 0, hi as int, n as int);
            assert forall|t: int| lo <= t < hi implies fs[t].size >= smallest by {
                lemma_smallest_bounds(fs, n as int, t);
            }
            lemma_chunk_at_least(fs, lo as int, hi as int, smallest as int);
            assert((hi - lo) * smallest == smallest * fpr) by (nonlinear_arith)
                requires hi - lo == fpr;
        }
        let ghost prev_out = res@.subrange(10, res@.len() as int);
        let est1 = est + (mpr as u128) * NANOS_PER_MILLI;
        let run1 = run + cd;
        if est1 > DURATION_MAX_NANOS || est1 > run1 {
            proof {
                assert(refs_upto(fs, fpr as int, mpr as int, min_bytes as int, j + 1) is None);
                lemma_refs_settle(fs, fpr as int, mpr as int, min_bytes as int, j + 1, num_chunks as int);
                assert(mllt_table(fs) is None);
            }
            return None;
        }
        let millis_offset: u64 = (((run1 - est1) / NANOS_PER_MILLI) % 0x1_0000_0000_0000_0000) as u64;
        if millis_offset > 0 {
            est = est1 + (millis_offset as u128) * NANOS_PER_MILLI;
        } else {
            est = est1;
        }
        run = run1;
        let bytes_offset: u16 = ((cb - min_bytes) % 0x1_0000) as u16;
        let bit: u16 = (millis_offset & 1) as u16;
        assert(bit == millis_offset % 2) by (bit_vector)
            requires bit == (millis_offset & 1) as u16;
        let packed: u16 = (bytes_offset << 1u16) | bit;
        assert(packed == ((bytes_offset as u32 * 2) % 0x1_0000 + bit as u32) as u16) by (bit_vector)
            requires packed == (bytes_offset << 1u16) | bit, bit <= 1;
        push_u16(&mut res, packed);
        proof {
            assert(res@.subrange(10, res@.len() as int) =~= prev_out + be16(packed as int));
            assert(res@.subrange(0, 10) =~= header);
        }
        j = j + 1;
    }
    proof {
        assert(res@ =~= header + res@.subrange(10, res@.len() as int));
    }
    Some(Ok(res))
}

/// What `mp3_metadata::read_from_slice` makes of a byte buffer: its frames
/// (version and layer as the positions of their enum variants, size,
/// duration in nanoseconds) or the position of its error variant.
/// For a buffer that begins `FF 00` it is what the reader makes of the
/// buffer with its second byte set to `01`. The reader reads those two bytes
/// only to find that no frame and no tag starts at positions 0 and 1, which
/// holds for both buffers, and, when it undoes the unsynchronisation of an
/// ID3v2 tag, it compares them with `FF 00` from the start of the buffer:
/// it panics there on the first buffer (metadata.rs:97) and goes on on the
/// second. Wherever the reader returns on the first buffer, it returns the
/// same on both.
pub uninterp spec fn mp3_frames(data: Seq<u8>) -> Result<Seq<Mp3Frame>, u8>;

/// The largest buffer handed to the reader: its positions are `u32`s that
/// may run past the end by an ID3v2 tag (at most 2^29 bytes with its
/// extended header) and must not overflow.
pub const READER_MAX_LEN: usize = 0xbfff_ffff;

/// The buffer begins with the bytes `FF b`.
pub open spec fn starts_ff(data: Seq<u8>, b: u8) -> bool {
    data.len() >= 2 && data[0] == 0xffu8 && data[1] == b
}

/// Calls `mp3_metadata::read_from_slice` and keeps of each frame what the
/// seek table needs. Claimed: the result is `mp3_frames` of the bytes, and,
/// for bytes beginning `FF 01`, also `mp3_frames` of the same bytes beginning
/// `FF 00` (see `mp3_frames`); a success holds at least one frame (the
/// reader answers `NotMP3` otherwise); an error is one of the five variants
/// of `mp3_metadata::Error`. Left out: bytes beginning `FF 00`, on which the
/// reader may panic, and buffers too long for its `u32` positions.
#[verifier::external_body]
fn read_mp3_frames(data: &[u8]) -> (r: Result<Vec<Mp3Frame>, u8>)
    requires
        data@.len() <= READER_MAX_LEN,
        !starts_ff(data@, 0u8),
    ensures
        match r {
            Ok(v) => mp3_frames(data@) == Ok::<Seq<Mp3Frame>, u8>(v@) && v@.len() > 0,
            Err(e) => mp3_frames(data@) == Err::<Seq<Mp3Frame>, u8>(e) && e < 5,
        },
        starts_ff(data@, 1u8) ==> match r {
            Ok(v) => mp3_frames(data@.update(1, 0u8)) == Ok::<Seq<Mp3Frame>, u8>(v@),
            Err(e) => mp3_frames(data@.update(1, 0u8)) == Err::<Seq<Mp3Frame>, u8>(e),
        },
{
    mp3_metadata::read_from_slice(data).map(|meta| meta.frames.iter().map(|f| Mp3Frame {
        version: f.version as u8,
        layer: f.layer as u8,
        size: f.size,
        duration_nanos: f.duration.map(|d| d.as_nanos()),
    }).collect()).map_err(|e| e as u8)
}

/// Reads the frames of MP3 bytes; bytes beginning `FF 00` are read as the
/// same bytes beginning `FF 01` (see `mp3_frames`).
fn read_frames(data: &[u8]) -> (r: Result<Vec<Mp3Frame>, u8>)
    requires
        data@.len() <= READER_MAX_LEN,
    ensures
        match r {
            Ok(v) => mp3_frames(data@) == Ok::<Seq<Mp3Frame>, u8>(v@),
            Err(e) => mp3_frames(data@) == Err::<Seq<Mp3Frame>, u8>(e),
        },
{
    if data.len() >= 2 && data[0] == 0xff && data[1] == 0 {
        let mut copy = vstd::slice::slice_to_vec(data);
        copy.set(1, 1u8);
        assert(copy@ == data@.update(1, 1u8));
        assert(copy@.update(1, 0u8) =~= data@);
        read_mp3_frames(copy.as_slice())
    } else {
        read_mp3_frames(data)
    }
}

/// A table result with the table as a byte sequence.
pub open spec fn result_view(r: Result<Vec<u8>, MlltError>) -> Result<Seq<u8>, MlltError> {
    match r {
        Ok(v) => Ok(v@),
        Err(e) => Err(e),
    }
}

/// Builds the MLLT (MPEG location lookup table) ID3 frame body for a
/// sequence of MP3 frames: references every `frames_per_ref` frames (about
/// one second) whose 15-bit byte deviation and 1-bit time deviation let a
/// player seek precisely in variable-length streams.
/// The inputs on which the computation panics are left out.
pub fn build_mllt_from_frames(frames: &Vec<Mp3Frame>) -> (r: Result<Vec<u8>, MlltError>)
    requires
        mllt_outcome(frames@) is Some,
    ensures
        Some(result_view(r)) == mllt_outcome(frames@),
{
    match mllt_checked(frames) {
        Some(r) => r,
        None => Err(MlltError::NonMp3Frame),
    }
}

/// Reads the frames of an MP3 file's bytes and builds its MLLT table.
/// `None` where building the table from those frames would panic.
pub fn build_mllt(data: &[u8]) -> (r: Option<Result<Vec<u8>, MlltError>>)
    requires
        data@.len() <= READER_MAX_LEN,
    ensures
        match mp3_frames(data@) {
            Err(e) => r == Some(Err::<Vec<u8>, MlltError>(MlltError::Read(e))),
            Ok(fs) => outcome_view(r) == mllt_outcome(fs),
        },
{
    match read_frames(data) {
        Err(e) => Some(Err(MlltError::Read(e))),
        Ok(frames) => mllt_checked(&frames),
    }
}

proof fn lemma_refs_len(frames: Seq<Mp3Frame>, fpr: int, mpr: int, min_bytes: int, j: int)
    requires
        j >= 0,
        refs_upto(frames, fpr, mpr, min_bytes, j) is Some,
    ensures
        refs_upto(frames, fpr, mpr, min_bytes, j).unwrap().2.len() == 2 * j,
    decreases j,
{
    if j > 0 {
        lemma_refs_len(frames, fpr, mpr, min_bytes, j - 1);
    }
}

/// Layout of a built table: a ten-byte header holding frames per reference,
/// minimum bytes per reference and milliseconds per reference (big-endian)
/// and the bit widths 15 and 1, which add up to the 16 bits of each
/// reference; then one reference per complete chunk of frames.
pub proof fn lemma_mllt_layout(frames: Seq<Mp3Frame>, table: Seq<u8>)
    requires
        mllt_outcome(frames) == Some(Ok::<Seq<u8>, MlltError>(table)),
    ensures
        frames_per_ref(frames) >= 1,
        table.len() == 10 + 2 * (frames.len() as int / frames_per_ref(frames)),
        table.subrange(0, 2) == be16(frames_per_ref(frames)),
        table.subrange(2, 5) == be24(min_bytes_per_ref(frames)),
        table.subrange(5, 8) == be24(millis_per_ref(frames)),
        table[8] == BITS_FOR_SIZE,
        table[9] == BITS_FOR_TIME,
        (BITS_FOR_SIZE + BITS_FOR_TIME) as int == 16,
        forall|i: int| 0 <= i < frames.len() ==> is_mpeg1_layer3(#[trigger] frames[i]),
{
    let fpr = frames_per_ref(frames);
    let j = frames.len() as int / fpr;
    assert(j >= 0) by (nonlinear_arith) requires fpr >= 1, frames.len() >= 0, j == frames.len() as int / fpr;
    lemma_refs_len(frames, fpr, millis_per_ref(frames), min_bytes_per_ref(frames), j);
    assert forall|i: int| 0 <= i < frames.len() implies is_mpeg1_layer3(#[trigger] frames[i]) by {
        lemma_check_frames(frames, frames.len() as int, i);
    }
}

/// A table is built only when every frame is MPEG-1 layer III with a known
/// duration; the first frame that is not decides the error.
pub proof fn lemma_mllt_error_is_first_bad_frame(frames: Seq<Mp3Frame>, k: int)
    requires
        0 <= k < frames.len(),
        forall|i: int| 0 <= i < k ==> is_mpeg1_layer3(#[trigger] frames[i]) && frames[i].duration_nanos is Some,
        !is_mpeg1_layer3(frames[k]) || frames[k].duration_nanos is None,
        sum_nanos(frames, 0, k) <= DURATION_MAX_NANOS,
        sum_size(frames, 0, k) <= u64::MAX,
    ensures
        mllt_outcome(frames) == Some(Err::<Seq<u8>, MlltError>(
            if !is_mpeg1_layer3(frames[k]) { MlltError::NonMp3Frame } else { MlltError::IncalculableDuration },
        )),
{
    lemma_check_good_prefix(frames, k);
    lemma_check_settles(frames, k + 1, frames.len() as int);
}

proof fn lemma_check_good_prefix(frames: Seq<Mp3Frame>, k: int)
    requires
        0 <= k <= frames.len(),
        forall|i: int| 0 <= i < k ==> is_mpeg1_layer3(#[trigger] frames[i]) && frames[i].duration_nanos is Some,
        sum_nanos(frames, 0, k) <= DURATION_MAX_NANOS,
        sum_size(frames, 0, k) <= u64::MAX,
    ensures
        frame_check(frames, k) == Some(Ok::<(), MlltError>(())),
    decreases k,
{
    if k > 0 {
        lemma_sums_monotone(frames, 0, k - 1, k);
        assert(is_mpeg1_layer3(frames[k - 1]) && frames[k - 1].duration_nanos is Some);
        lemma_check_good_prefix(frames, k - 1);
    }
}

/// The running estimate of elapsed time that the references encode never
/// runs ahead of the actual time of the frames covered, and after each
/// reference lags it by less than a millisecond (the lag is what the time
/// bit of the next reference starts from). Holds while the elapsed time,
/// counted in milliseconds, fits in 64 bits.
pub proof fn lemma_mllt_estimate_tracks_time(frames: Seq<Mp3Frame>, fpr: int, mpr: int, min_bytes: int, j: int)
    requires
        j >= 0,
        fpr >= 1,
        mpr >= 0,
        refs_upto(frames, fpr, mpr, min_bytes, j) is Some,
        sum_nanos(frames, 0, j * fpr) < 0x1_0000_0000_0000_0000 * NANOS_PER_MILLI,
    ensures
        ({
            let (est, run, _) = refs_upto(frames, fpr, mpr, min_bytes, j).unwrap();
            &&& run == sum_nanos(frames, 0, j * fpr)
            &&& 0 <= est <= run < est + NANOS_PER_MILLI
        }),
    decreases j,
{
    if j == 0 {
        assert(j * fpr == 0) by (nonlinear_arith) requires j == 0;
    } else {
        assert((j - 1) * fpr + fpr == j * fpr) by (nonlinear_arith);
        assert(0 <= (j - 1) * fpr) by (nonlinear_arith) requires j >= 1, fpr >= 1;
        lemma_sums_split(frames, 0, (j - 1) * fpr, j * fpr);
        lemma_sums_nonneg(frames, (j - 1) * fpr, j * fpr);
        lemma_sums_nonneg(frames, 0, (j - 1) * fpr);
        lemma_mllt_estimate_tracks_time(frames, fpr, mpr, min_bytes, j - 1);
        let (est, run, out) = refs_upto(frames, fpr, mpr, min_bytes, j - 1).unwrap();
        let est1 = est + mpr * NANOS_PER_MILLI;
        let run1 = run + sum_nanos(frames, (j - 1) * fpr, j * fpr);
        assert(run1 == sum_nanos(frames, 0, j * fpr));
        let d = (run1 - est1) / NANOS_PER_MILLI as int;
        assert(d < 0x1_0000_0000_0000_0000);
        assert(d % 0x1_0000_0000_0000_0000 == d);
        assert(run1 - est1 - d * NANOS_PER_MILLI < NANOS_PER_MILLI);
    }
}

} // verus!
