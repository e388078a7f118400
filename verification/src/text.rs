use vstd::prelude::*;

verus! {

/// An optional text by its characters.
pub open spec fn opt_str_text(o: Option<&str>) -> Option<Seq<char>> {
    match o {
        Some(s) => Some(s@),
        None => None,
    }
}

/// An optional string by its characters.
pub open spec fn opt_string_text(o: Option<String>) -> Option<Seq<char>> {
    match o {
        Some(s) => Some(s@),
        None => None,
    }
}

/// The characters of a string slice, in order.
pub fn chars_of(s: &str) -> (v: Vec<char>)
    ensures
        v@ == s@,
{
    let mut v: Vec<char> = Vec::new();
    for c in it: s.chars()
        invariant
            v@ == it.seq().take(it.index() as int),
    {
        v.push(c);
    }
    v
}

/// Calls `String::from_iter` on the characters.
/// Claimed: the string holds exactly those characters, in order.
#[verifier::external_body]
pub(crate) fn string_from_chars(v: &Vec<char>) -> (s: String)
    ensures
        s@ == v@,
{
    String::from_iter(v.iter())
}

/// What `str::to_lowercase` gives for a text.
pub uninterp spec fn unicode_lowercase(text: Seq<char>) -> Seq<char>;

/// Calls `str::to_lowercase`.
/// Claimed: the result is `unicode_lowercase` of the text.
#[verifier::external_body]
pub(crate) fn lowercase(text: &str) -> (r: String)
    ensures
        r@ == unicode_lowercase(text@),
{
    text.to_lowercase()
}

/// Whether `s` begins with `prefix`.
pub open spec fn has_prefix(s: Seq<char>, prefix: Seq<char>) -> bool {
    prefix.len() <= s.len() && s.take(prefix.len() as int) == prefix
}

/// The pieces of `s` between occurrences of `sep`, as `str::split` yields
/// them (an empty text gives one empty piece).
pub open spec fn split_on(s: Seq<char>, sep: char) -> Seq<Seq<char>>
    decreases s.len(),
{
    if s.len() == 0 {
        seq![Seq::empty()]
    } else {
        let init = split_on(s.drop_last(), sep);
        if s.last() == sep {
            init.push(Seq::empty())
        } else {
            init.update(init.len() - 1, init.last().push(s.last()))
        }
    }
}

/// Splitting always gives at least one piece.
pub proof fn lemma_split_nonempty(s: Seq<char>, sep: char)
    ensures
        split_on(s, sep).len() >= 1,
    decreases s.len(),
{
    if s.len() > 0 {
        lemma_split_nonempty(s.drop_last(), sep);
    }
}

/// Whether the character sequences are equal, element by element.
pub fn chars_equal(a: &Vec<char>, b: &Vec<char>) -> (r: bool)
    ensures
        r == (a@ == b@),
{
    if a.len() != b.len() {
        return false;
    }
    let mut i: usize = 0;
    while i < a.len()
        invariant
            a@.len() == b@.len(),
            0 <= i <= a@.len(),
            forall|k: int| 0 <= k < i ==> a@[k] == b@[k],
        decreases a.len() - i,
    {
        if a[i] != b[i] {
            return false;
        }
        i = i + 1;
    }
    assert(a@ =~= b@);
    true
}

/// Whether `s` begins with `prefix`.
pub fn starts_with(s: &Vec<char>, prefix: &Vec<char>) -> (r: bool)
    ensures
        r == has_prefix(s@, prefix@),
{
    if prefix.len() > s.len() {
        return false;
    }
    let mut i: usize = 0;
    while i < prefix.len()
        invariant
            prefix@.len() <= s@.len(),
            0 <= i <= prefix@.len(),
            forall|k: int| 0 <= k < i ==> s@[k] == prefix@[k],
        decreases prefix.len() - i,
    {
        if s[i] != prefix[i] {
            assert(s@.take(prefix@.len() as int)[i as int] != prefix@[i as int]);
            return false;
        }
        i = i + 1;
    }
    assert(s@.take(prefix@.len() as int) =~= prefix@);
    true
}

/// The characters of `s` from position `start` on.
pub fn skip_chars(s: &Vec<char>, start: usize) -> (r: Vec<char>)
    requires
        start <= s@.len(),
    ensures
        r@ == s@.skip(start as int),
{
    let mut r: Vec<char> = Vec::new();
    let mut i: usize = start;
    while i < s.len()
        invariant
            start <= i <= s@.len(),
            r@ == s@.subrange(start as int, i as int),
        decreases s.len() - i,
    {
        r.push(s[i]);
        i = i + 1;
        assert(r@ =~= s@.subrange(start as int, i as int));
    }
    assert(r@ =~= s@.skip(start as int));
    r
}

/// Splitting a longer prefix of `s` keeps the completed pieces of a shorter one.
pub proof fn lemma_split_prefix(s: Seq<char>, sep: char, j: int, k: int)
    requires
        0 <= j <= k <= s.len(),
    ensures
        split_on(s.take(k), sep).len() >= split_on(s.take(j), sep).len(),
        forall|t: int| 0 <= t < split_on(s.take(j), sep).len() - 1
            ==> #[trigger] split_on(s.take(k), sep)[t] == split_on(s.take(j), sep)[t],
    decreases k - j,
{
    if j < k {
        lemma_split_prefix(s, sep, j, k - 1);
        assert(s.take(k).drop_last() =~= s.take(k - 1));
        lemma_split_nonempty(s.take(k - 1), sep);
    }
}

/// Whether two string slices hold the same characters.
pub fn str_equal(a: &str, b: &str) -> (r: bool)
    ensures
        r == (a@ == b@),
{
    let x = chars_of(a);
    let y = chars_of(b);
    chars_equal(&x, &y)
}

/// The decimal digit for `d` (0..10).
pub open spec fn digit_char(d: int) -> char {
    (d + 48) as char
}

/// The decimal digits of a natural number, most significant first.
pub open spec fn decimal_digits(n: nat) -> Seq<char>
    decreases n,
{
    if n < 10 {
        seq![digit_char(n as int)]
    } else {
        decimal_digits(n / 10).push(digit_char((n % 10) as int))
    }
}

/// The decimal text of an integer, with a leading `-` when negative.
pub open spec fn decimal_text(i: int) -> Seq<char> {
    if i < 0 {
        seq!['-'] + decimal_digits((-i) as nat)
    } else {
        decimal_digits(i as nat)
    }
}

fn digits_of(n: u64) -> (r: Vec<char>)
    ensures
        r@ == decimal_digits(n as nat),
    decreases n,
{
    let d = (n % 10) as u8;
    let c = (d + 48) as char;
    if n < 10 {
        let mut r: Vec<char> = Vec::new();
        r.push(c);
        assert(r@ =~= decimal_digits(n as nat));
        r
    } else {
        let mut r = digits_of(n / 10);
        r.push(c);
        assert(r@ =~= decimal_digits(n as nat));
        r
    }
}

/// The decimal text of an `i32`, as `Display` writes it.
pub fn i32_text(i: i32) -> (s: String)
    ensures
        s@ == decimal_text(i as int),
{
    let magnitude: u32 = if i < 0 { (-(i as i64)) as u32 } else { i as u32 };
    let digits = digits_of(magnitude as u64);
    if i < 0 {
        let mut all: Vec<char> = Vec::new();
        all.push('-');
        let mut k: usize = 0;
        while k < digits.len()
            invariant
                0 <= k <= digits@.len(),
                all@ == seq!['-'] + digits@.take(k as int),
            decreases digits.len() - k,
        {
            all.push(digits[k]);
            k = k + 1;
            assert(all@ =~= seq!['-'] + digits@.take(k as int));
        }
        assert(digits@.take(digits@.len() as int) =~= digits@);
        string_from_chars(&all)
    } else {
        string_from_chars(&digits)
    }
}

/// The decimal text of a `u64`, as `Display` writes it.
pub fn u64_text(n: u64) -> (s: String)
    ensures
        s@ == decimal_digits(n as nat),
{
    string_from_chars(&digits_of(n))
}

} // verus!
