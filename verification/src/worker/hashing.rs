use vstd::prelude::*;
use ring::digest::Context;

verus! {

#[verifier::external_type_specification]
#[verifier::external_body]
pub struct ExDigestContext(ring::digest::Context);

/// The bytes a `ring::digest::Context` has been fed so far.
pub uninterp spec fn digest_fed(ctx: Context) -> Seq<u8>;

/// The SHA-256 digest of a byte sequence.
pub uninterp spec fn sha256(data: Seq<u8>) -> Seq<u8>;

/// Calls `ring::digest::Context::new(&ring::digest::SHA256)`.
/// Claimed: a fresh context has been fed nothing.
#[verifier::external_body]
fn sha256_context() -> (c: Context)
    ensures
        digest_fed(c) == Seq::<u8>::empty(),
{
    Context::new(&ring::digest::SHA256)
}

/// Calls `ring::digest::Context::update`.
/// Claimed: the context has then been fed the old input followed by `data`.
#[verifier::external_body]
fn context_update(ctx: &mut Context, data: &[u8])
    ensures
        digest_fed(*final(ctx)) == digest_fed(*old(ctx)) + data@,
{
    ctx.update(data)
}

/// Calls `ring::digest::Context::finish` and copies the digest out.
/// Claimed: the 32 bytes of the SHA-256 digest of everything fed. `finish`
/// panics on inputs of 2^61 bytes or more, which `requires` leaves out.
#[verifier::external_body]
fn context_finish(ctx: Context) -> (d: Vec<u8>)
    requires
        digest_fed(ctx).len() < 0x2000_0000_0000_0000,
    ensures
        d@ == sha256(digest_fed(ctx)),
        d@.len() == 32,
{
    ctx.finish().as_ref().to_vec()
}

/// An incremental SHA-256 computation over the bytes fed to it.
pub struct Hasher {
    ctx: Context,
}

impl View for Hasher {
    type V = Seq<u8>;

    closed spec fn view(&self) -> Seq<u8> {
        digest_fed(self.ctx)
    }
}

impl Hasher {
    /// A SHA-256 hasher that has been fed nothing.
    pub fn new() -> (h: Self)
        ensures
            h@ == Seq::<u8>::empty(),
    {
        Hasher { ctx: sha256_context() }
    }

    /// Feeds `data` after what was fed before.
    pub fn update(&mut self, data: &[u8])
        ensures
            final(self)@ == old(self)@ + data@,
    {
        context_update(&mut self.ctx, data);
    }

    /// The SHA-256 digest of everything fed.
    pub fn finish(self) -> (d: Vec<u8>)
        requires
            self@.len() < 0x2000_0000_0000_0000,
        ensures
            d@ == sha256(self@),
            d@.len() == 32,
    {
        context_finish(self.ctx)
    }
}

/// Checksum of a file's content.
pub fn checksum_file(content: &[u8]) -> (d: Vec<u8>)
    requires
        content@.len() < 0x2000_0000_0000_0000,
    ensures
        d@ == sha256(content@),
        d@.len() == 32,
{
    let mut h = Hasher::new();
    h.update(content);
    assert(h@ =~= content@);
    h.finish()
}

/// One entry of a directory walk: its path as text bytes and, for a file,
/// its content.
pub struct HashEntry {
    pub path: Vec<u8>,
    pub is_file: bool,
    pub content: Vec<u8>,
}

/// The bytes a directory checksum is computed over: for each entry in walk
/// order, a file's content and then the entry's path.
pub open spec fn dir_digest_input(entries: Seq<HashEntry>) -> Seq<u8>
    decreases entries.len(),
{
    if entries.len() == 0 {
        Seq::empty()
    } else {
        let e = entries.last();
        dir_digest_input(entries.drop_last()) + (if e.is_file { e.content@ } else { Seq::empty() }) + e.path@
    }
}

/// The digest input of one entry: a file's whole content, then its path;
/// a directory's path alone.
pub proof fn lemma_dir_digest_single(e: HashEntry)
    ensures
        dir_digest_input(seq![e]) == (if e.is_file { e.content@ + e.path@ } else { e.path@ }),
{
    let s = seq![e];
    assert(s.drop_last() =~= Seq::<HashEntry>::empty());
    assert(s.last() == e);
    assert(dir_digest_input(s.drop_last()) == Seq::<u8>::empty());
    if e.is_file {
        assert(Seq::<u8>::empty() + e.content@ + e.path@ =~= e.content@ + e.path@);
    } else {
        assert(Seq::<u8>::empty() + Seq::<u8>::empty() + e.path@ =~= e.path@);
    }
}

/// The digest input of a walk is the digest inputs of its parts, one after
/// the other.
pub proof fn lemma_dir_digest_concat(a: Seq<HashEntry>, b: Seq<HashEntry>)
    ensures
        dir_digest_input(a + b) == dir_digest_input(a) + dir_digest_input(b),
    decreases b.len(),
{
    if b.len() == 0 {
        assert(a + b =~= a);
        assert(dir_digest_input(a) + Seq::<u8>::empty() =~= dir_digest_input(a));
    } else {
        assert((a + b).drop_last() =~= a + b.drop_last());
        assert((a + b).last() == b.last());
        lemma_dir_digest_concat(a, b.drop_last());
        let e = b.last();
        let piece = (if e.is_file { e.content@ } else { Seq::<u8>::empty() });
        assert(dir_digest_input(a) + dir_digest_input(b.drop_last()) + piece + e.path@
            =~= dir_digest_input(a) + (dir_digest_input(b.drop_last()) + piece + e.path@));
    }
}

proof fn lemma_dir_digest_around(pre: Seq<HashEntry>, e: HashEntry, post: Seq<HashEntry>)
    requires
        e.is_file,
    ensures
        dir_digest_input(pre + seq![e] + post)
            == dir_digest_input(pre) + (e.content@ + e.path@) + dir_digest_input(post),
{
    lemma_dir_digest_concat(pre + seq![e], post);
    lemma_dir_digest_concat(pre, seq![e]);
    lemma_dir_digest_single(e);
}

/// A change to the content of one file of a walk changes the digest input:
/// a book whose file changed is not taken for the stored one (as far as the
/// hash tells inputs apart).
pub proof fn lemma_dir_digest_sees_content(a: Seq<HashEntry>, b: Seq<HashEntry>, k: int)
    requires
        a.len() == b.len(),
        0 <= k < a.len(),
        forall|i: int| 0 <= i < a.len() && i != k ==> a[i] == b[i],
        a[k].is_file,
        b[k].is_file,
        a[k].path@ == b[k].path@,
        a[k].content@ != b[k].content@,
    ensures
        dir_digest_input(a) != dir_digest_input(b),
{
    let pre = a.take(k);
    let post = a.skip(k + 1);
    assert(b.take(k) =~= pre);
    assert(b.skip(k + 1) =~= post);
    assert(a =~= pre + seq![a[k]] + post);
    assert(b =~= pre + seq![b[k]] + post);
    lemma_dir_digest_around(pre, a[k], post);
    lemma_dir_digest_around(pre, b[k], post);
    let d = dir_digest_input(pre);
    let q = dir_digest_input(post);
    let ca = a[k].content@;
    let cb = b[k].content@;
    let path = a[k].path@;
    let ta = d + (ca + path) + q;
    let tb = d + (cb + path) + q;
    assert(dir_digest_input(a) == ta);
    assert(dir_digest_input(b) == tb);
    if ca.len() != cb.len() {
        assert(ta.len() != tb.len());
    } else {
        assert(exists|j: int| 0 <= j < ca.len() && ca[j] != cb[j]) by {
            if !(exists|j: int| 0 <= j < ca.len() && ca[j] != cb[j]) {
                assert(ca =~= cb);
            }
        }
        let j = choose|j: int| 0 <= j < ca.len() && ca[j] != cb[j];
        assert(ta[d.len() + j] == ca[j]);
        assert(tb[d.len() + j] == cb[j]);
    }
}

/// Checksum of a whole directory from its walk, in the order the walk gave
/// the entries (entries it could not read are left out by the walk).
pub fn checksum_dir(entries: &Vec<HashEntry>) -> (d: Vec<u8>)
    requires
        dir_digest_input(entries@).len() < 0x2000_0000_0000_0000,
    ensures
        d@ == sha256(dir_digest_input(entries@)),
        d@.len() == 32,
{
    let mut h = Hasher::new();
    let mut i: usize = 0;
    while i < entries.len()
        invariant
            0 <= i <= entries@.len(),
            h@ == dir_digest_input(entries@.take(i as int)),
        decreases entries.len() - i,
    {
        let e = &entries[i];
        assert(entries@.take(i + 1).drop_last() =~= entries@.take(i as int));
        if e.is_file {
            h.update(e.content.as_slice());
        }
        h.update(e.path.as_slice());
        proof {
            if !e.is_file {
                assert(h@ =~= dir_digest_input(entries@.take(i as int)) + Seq::<u8>::empty() + e.path@);
            }
        }
        i = i + 1;
    }
    assert(entries@.take(entries@.len() as int) =~= entries@);
    h.finish()
}

} // verus!
