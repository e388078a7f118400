use vstd::prelude::*;
use regex::Regex;

verus! {

#[verifier::external_type_specification]
#[verifier::external_body]
pub struct ExRegex(regex::Regex);

/// Whether `regex::Regex::new` accepts a pattern.
pub uninterp spec fn regex_valid(pattern: Seq<char>) -> bool;

/// Whether the regular expression compiled from `pattern` matches somewhere
/// in `text` (`regex::Regex::is_match`).
pub uninterp spec fn regex_matches(pattern: Seq<char>, text: Seq<char>) -> bool;

/// The pattern a library uses when none is given: any name without a slash,
/// that is a top-level file or directory.
pub open spec fn default_audiobook_regex() -> Seq<char> {
    "^[^/]+$"@
}

/// The text of the default pattern.
pub fn default_pattern_text() -> (s: &'static str)
    ensures
        s@ == default_audiobook_regex(),
{
    "^[^/]+$"
}

/// The compiled pattern that tells which paths of a library are audiobooks.
pub struct AudiobookPattern {
    pattern: String,
    regex: Regex,
}

/// A pattern is seen as its text: the compiled expression is the one made
/// from that text (only `compile_pattern` builds a pattern).
impl View for AudiobookPattern {
    type V = Seq<char>;

    closed spec fn view(&self) -> Seq<char> {
        self.pattern@
    }
}

/// Calls `regex::Regex::new` and keeps the pattern beside the compiled
/// expression. Claimed: a pattern is compiled exactly when `regex_valid`
/// holds of it, and the result remembers the pattern's text.
#[verifier::external_body]
fn compile_pattern(pattern: &str) -> (r: Option<AudiobookPattern>)
    ensures
        r is Some <==> regex_valid(pattern@),
        r matches Some(p) ==> p@ == pattern@,
{
    Regex::new(pattern).ok().map(|regex| AudiobookPattern { pattern: pattern.to_owned(), regex })
}

/// Calls `regex::Regex::is_match` on the compiled expression.
/// Claimed: the answer is `regex_matches` of the pattern it was compiled
/// from (only `compile_pattern` makes an `AudiobookPattern`) and the text.
#[verifier::external_body]
fn pattern_matches(p: &AudiobookPattern, text: &str) -> (r: bool)
    ensures
        r == regex_matches(p@, text@),
{
    p.regex.is_match(text)
}

impl AudiobookPattern {
    /// Compiles a library's audiobook pattern; `None` when it is not a
    /// valid regular expression.
    pub fn new(pattern: &str) -> (r: Option<Self>)
        ensures
            r is Some <==> regex_valid(pattern@),
            r matches Some(p) ==> p@ == pattern@,
    {
        compile_pattern(pattern)
    }

    /// The pattern's text.
    pub fn as_str(&self) -> (s: &str)
        ensures
            s@ == self@,
    {
        self.pattern.as_str()
    }
}

/// Whether the path of an entry, relative to the library, is an audiobook.
pub fn is_audiobook(path: &str, pattern: &AudiobookPattern) -> (r: bool)
    ensures
        r == regex_matches(pattern@, path@),
{
    pattern_matches(pattern, path)
}

/// What walking a library does with an entry.
#[derive(Debug, Clone, Copy, PartialEq, Eq, Structural)]
pub enum WalkAction {
    /// Not a book: walk on (into it, if it is a directory).
    Pass,
    /// A book: read it; a directory book is not walked into.
    Book { skip_contents: bool },
}

/// The library's root itself is passed over; an entry whose path relative to
/// the root matches the pattern is a book.
pub fn walk_action(relative_path: &str, is_dir: bool, pattern: &AudiobookPattern) -> (r: WalkAction)
    ensures
        r == (if relative_path@.len() == 0 || !regex_matches(pattern@, relative_path@) {
            WalkAction::Pass
        } else {
            WalkAction::Book { skip_contents: is_dir }
        }),
{
    if relative_path.is_empty() {
        return WalkAction::Pass;
    }
    if is_audiobook(relative_path, pattern) {
        WalkAction::Book { skip_contents: is_dir }
    } else {
        WalkAction::Pass
    }
}

} // verus!
