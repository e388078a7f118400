use vstd::prelude::*;
use crate::worker::error::WorkerError;
use crate::helpers::uuid::{Uuid, hyphenated_text};
use vstd::string::StringExecFns;
use crate::text::{chars_equal, opt_str_text, opt_string_text};

verus! {

// ---------------------------------------------------------------------------
// the most common extension of a multi-file book
// ---------------------------------------------------------------------------

/// How often `e` occurs among the first `n` entries of `s`.
pub open spec fn occurrences(s: Seq<Seq<char>>, e: Seq<char>, n: int) -> int
    decreases n,
{
    if n <= 0 {
        0
    } else {
        occurrences(s, e, n - 1) + if s[n - 1] == e { 1int } else { 0int }
    }
}

/// The texts of a list of strings.
pub open spec fn texts(v: Seq<String>) -> Seq<Seq<char>> {
    v.map_values(|s: String| s@)
}

proof fn lemma_occurrences_bounded(s: Seq<Seq<char>>, e: Seq<char>, n: int)
    requires
        0 <= n,
    ensures
        0 <= occurrences(s, e, n) <= n,
    decreases n,
{
    if n > 0 {
        lemma_occurrences_bounded(s, e, n - 1);
    }
}

fn count_extension(exts: &Vec<String>, e: &String) -> (c: usize)
    ensures
        c == occurrences(texts(exts@), e@, exts@.len() as int),
{
    let mut c: usize = 0;
    let mut i: usize = 0;
    while i < exts.len()
        invariant
            0 <= i <= exts@.len(),
            c == occurrences(texts(exts@), e@, i as int),
        decreases exts.len() - i,
    {
        proof {
            lemma_occurrences_bounded(texts(exts@), e@, i as int);
        }
        if exts[i] == *e {
            c = c + 1;
        }
        i = i + 1;
    }
    c
}

/// The most common extension among the files of a multi-file book: one
/// that occurs at least as often as any other; `None` when there is none.
/// (Among equally common extensions the choice is not fixed.)
pub fn probable_audio_filetype(exts: &Vec<String>) -> (r: Option<String>)
    ensures
        r is None <==> exts@.len() == 0,
        r matches Some(e) ==> {
            &&& texts(exts@).contains(e@)
            &&& forall|x: Seq<char>| #[trigger] occurrences(texts(exts@), x, exts@.len() as int)
                <= occurrences(texts(exts@), e@, exts@.len() as int)
        },
{
    if exts.len() == 0 {
        return None;
    }
    let ghost all = texts(exts@);
    let ghost n = exts@.len() as int;
    let mut best: usize = 0;
    let mut best_count = count_extension(exts, &exts[0]);
    let mut i: usize = 1;
    while i < exts.len()
        invariant
            all == texts(exts@),
            n == exts@.len(),
            1 <= i <= n,
            best < n,
            best_count == occurrences(all, exts@[best as int]@, n),
            forall|j: int| 0 <= j < i ==> occurrences(all, #[trigger] all[j], n) <= best_count,
        decreases exts.len() - i,
    {
        let c = count_extension(exts, &exts[i]);
        if c > best_count {
            best = i;
            best_count = c;
        }
        i = i + 1;
    }
    proof {
        assert forall|x: Seq<char>| occurrences(all, x, n) <= best_count by {
            lemma_absent_never_counts(all, x, n);
            if occurrences(all, x, n) > 0 {
                let j = lemma_present_somewhere(all, x, n);
                assert(all[j] == x);
            }
        }
        assert(all[best as int] == exts@[best as int]@);
    }
    Some(exts[best].clone())
}

proof fn lemma_absent_never_counts(s: Seq<Seq<char>>, x: Seq<char>, n: int)
    requires
        0 <= n,
    ensures
        occurrences(s, x, n) >= 0,
    decreases n,
{
    if n > 0 {
        lemma_absent_never_counts(s, x, n - 1);
    }
}

proof fn lemma_present_somewhere(s: Seq<Seq<char>>, x: Seq<char>, n: int) -> (j: int)
    requires
        0 <= n,
        occurrences(s, x, n) > 0,
    ensures
        0 <= j < n,
        s[j] == x,
    decreases n,
{
    if s[n - 1] == x {
        n - 1
    } else {
        lemma_present_somewhere(s, x, n - 1)
    }
}

// ---------------------------------------------------------------------------
// change times and the decision to rescan
// ---------------------------------------------------------------------------

/// A file modification time: seconds since the epoch and nanoseconds.
#[derive(Debug, Clone, Copy, PartialEq, Eq, Structural)]
pub struct FileTime {
    pub secs: i64,
    pub nanos: u32,
}

/// `a` is no later than `b`.
pub open spec fn not_after(a: FileTime, b: FileTime) -> bool {
    a.secs < b.secs || (a.secs == b.secs && a.nanos <= b.nanos)
}

impl FileTime {
    /// `self` is no later than `other`.
    pub fn not_after(&self, other: &FileTime) -> (r: bool)
        ensures
            r == not_after(*self, *other),
    {
        self.secs < other.secs || (self.secs == other.secs && self.nanos <= other.nanos)
    }
}

/// The latest change time among the files of a book; `None` for no files.
pub fn most_recent_change(times: &Vec<FileTime>) -> (r: Option<FileTime>)
    ensures
        r is None <==> times@.len() == 0,
        r matches Some(t) ==> times@.contains(t) && forall|i: int| 0 <= i < times@.len() ==> not_after(#[trigger] times@[i], t),
{
    if times.len() == 0 {
        return None;
    }
    let mut best = times[0];
    let mut i: usize = 1;
    while i < times.len()
        invariant
            1 <= i <= times@.len(),
            times@.contains(best),
            forall|k: int| 0 <= k < i ==> not_after(#[trigger] times@[k], best),
        decreases times.len() - i,
    {
        let t = times[i];
        if !t.not_after(&best) {
            best = t;
        }
        i = i + 1;
    }
    Some(best)
}

/// A book changed at or after the last scan, or there was no scan, or its
/// files have no change times.
pub open spec fn changed_since(recent_change: Option<FileTime>, last_scan: Option<FileTime>) -> bool {
    match (recent_change, last_scan) {
        (Some(c), Some(l)) => not_after(l, c),
        _ => true,
    }
}

/// Whether a book must be rescanned: it changed at or after the last scan,
/// or there was no scan, or its files have no change times.
pub fn should_scan(recent_change: Option<FileTime>, last_scan: Option<FileTime>) -> (r: bool)
    ensures
        r == changed_since(recent_change, last_scan),
{
    match recent_change {
        Some(recent) => match last_scan {
            Some(last) => last.not_after(&recent),
            None => true,
        },
        None => true,
    }
}

/// An incremental scan takes change times into account; a full scan hashes
/// every book.
#[derive(Debug, Clone, Copy, PartialEq, Eq, Structural)]
pub enum Scan {
    Incremental,
    Full,
}

/// A book is (re)read always in a full scan; in an incremental one when it
/// changed since the last scan or is not yet known.
pub open spec fn processing_needed(scan: Scan, changed: bool, known: bool) -> bool {
    scan == Scan::Full || changed || !known
}

/// Whether the book at a path is (re)read: always in a full scan; in an
/// incremental one when it changed since the last scan or is not yet known.
pub fn needs_processing(scan: Scan, changed: bool, known: bool) -> (r: bool)
    ensures
        r == processing_needed(scan, changed, known),
{
    match scan {
        Scan::Incremental => changed || !known,
        Scan::Full => true,
    }
}

/// The latest change decides: a book whose latest change time is `latest`
/// counts as changed since a scan exactly when one of its files changed at
/// or after that scan.
pub proof fn lemma_latest_change_decides(times: Seq<FileTime>, latest: FileTime, last_scan: FileTime)
    requires
        times.contains(latest),
        forall|i: int| 0 <= i < times.len() ==> not_after(#[trigger] times[i], latest),
    ensures
        changed_since(Some(latest), Some(last_scan)) <==> exists|i: int|
            0 <= i < times.len() && not_after(last_scan, #[trigger] times[i]),
{
    let k = choose|k: int| 0 <= k < times.len() && times[k] == latest;
    if changed_since(Some(latest), Some(last_scan)) {
        assert(not_after(last_scan, times[k]));
    }
}

/// An incremental scan leaves a book alone exactly when the book is known,
/// a scan was made before and every file of the book last changed before it;
/// a full scan reads every book.
pub proof fn lemma_incremental_scan_skips_unchanged(
    recent_change: Option<FileTime>,
    last_scan: Option<FileTime>,
    known: bool,
)
    ensures
        !processing_needed(Scan::Incremental, changed_since(recent_change, last_scan), known) <==> {
            &&& known
            &&& recent_change matches Some(c)
            &&& last_scan matches Some(l)
            &&& !not_after(l, c)
        },
        processing_needed(Scan::Full, changed_since(recent_change, last_scan), known),
{
}

/// What to do about a book's copy in the data directory.
#[derive(Debug, Clone, Copy, PartialEq, Eq, Structural)]
pub enum CacheAction {
    /// Concatenate the files of a multi-file book into one.
    Remux,
    /// Link a single-file book into the data directory.
    Link,
    /// The copy is there.
    Nothing,
}

/// A missing copy is remuxed for a directory and linked for a file.
pub fn cache_action(is_dir: bool, copy_exists: bool) -> (r: CacheAction)
    ensures
        r == (if copy_exists {
            CacheAction::Nothing
        } else if is_dir {
            CacheAction::Remux
        } else {
            CacheAction::Link
        }),
{
    if is_dir && !copy_exists {
        CacheAction::Remux
    } else if !copy_exists {
        CacheAction::Link
    } else {
        CacheAction::Nothing
    }
}

// ---------------------------------------------------------------------------
// books found again by their hash
// ---------------------------------------------------------------------------

/// What looking up a book's hash did.
#[derive(Debug, Clone, Copy, PartialEq, Eq, Structural)]
pub enum Update {
    /// A book with this hash is already at this path.
    Nothing,
    /// A book with this hash was at another path and is moved.
    Path,
    /// No book has this hash.
    NotFound,
}

/// The update for a book found at `new_path` whose content hash is stored
/// for a book at `stored` (`None`: for no book).
pub open spec fn update_for(stored: Option<Seq<char>>, new_path: Seq<char>) -> Update {
    match stored {
        None => Update::NotFound,
        Some(l) => if l == new_path { Update::Nothing } else { Update::Path },
    }
}

/// The update for a book whose hash matches a stored book at
/// `stored_location` (`None`: no stored book has the hash).
pub fn path_update(stored_location: Option<&str>, new_path: &str) -> (r: Update)
    ensures
        r == update_for(opt_str_text(stored_location), new_path@),
{
    match stored_location {
        None => Update::NotFound,
        Some(l) => {
            if crate::text::str_equal(l, new_path) {
                Update::Nothing
            } else {
                Update::Path
            }
        },
    }
}

/// A book whose hash is known needs no further work.
pub open spec fn known_update(u: Update) -> bool {
    u != Update::NotFound
}

/// A book whose hash is known needs no further work.
pub fn already_known(u: Update) -> (r: bool)
    ensures
        r == known_update(u),
{
    match u {
        Update::Nothing | Update::Path => true,
        Update::NotFound => false,
    }
}

/// A book whose content is already stored keeps its record: it is moved
/// when found at another path and left alone at the same path; only content
/// that is stored for no book makes a new record.
pub proof fn lemma_known_content_keeps_record(stored: Option<Seq<char>>, new_path: Seq<char>)
    ensures
        known_update(update_for(stored, new_path)) <==> stored is Some,
        stored matches Some(l) ==> (update_for(stored, new_path) == Update::Path <==> l != new_path),
{
}

/// Whether a stored book is present on disk and whether it is marked deleted.
#[derive(Debug, Clone, Copy, PartialEq, Eq, Structural)]
pub struct BookPresence {
    pub exists: bool,
    pub deleted: bool,
}

/// The positions of the books that have gone from the disk and are not yet
/// marked deleted, in order.
pub fn books_to_mark_deleted(books: &Vec<BookPresence>) -> (r: Vec<usize>)
    ensures
        forall|k: int| 0 <= k < r@.len() ==> {
            &&& r@[k] < books@.len()
            &&& !books@[r@[k] as int].exists && !books@[r@[k] as int].deleted
        },
        forall|i: int| 0 <= i < books@.len() && !books@[i].exists && !books@[i].deleted
            ==> #[trigger] r@.contains(i as usize),
        forall|a: int, b: int| 0 <= a < b < r@.len() ==> r@[a] < r@[b],
{
    let mut r: Vec<usize> = Vec::new();
    let mut i: usize = 0;
    while i < books.len()
        invariant
            0 <= i <= books@.len(),
            forall|k: int| 0 <= k < r@.len() ==> {
                &&& r@[k] < i
                &&& !books@[r@[k] as int].exists && !books@[r@[k] as int].deleted
            },
            forall|j: int| 0 <= j < i && !books@[j].exists && !books@[j].deleted
                ==> #[trigger] r@.contains(j as usize),
            forall|a: int, b: int| 0 <= a < b < r@.len() ==> r@[a] < r@[b],
        decreases books.len() - i,
    {
        let b = books[i];
        if !b.exists && !b.deleted {
            let ghost old_r = r@;
            r.push(i);
            proof {
                assert forall|j: int| 0 <= j < i + 1 && !books@[j].exists && !books@[j].deleted
                    implies #[trigger] r@.contains(j as usize) by {
                    if j < i {
                        assert(old_r.contains(j as usize));
                        let k = choose|k: int| 0 <= k < old_r.len() && old_r[k] == j as usize;
                        assert(r@[k] == j as usize);
                    } else {
                        assert(r@[old_r.len() as int] == j as usize);
                    }
                }
            }
        }
        i = i + 1;
    }
    r
}

/// How marking one missing book as deleted went.
#[derive(Debug, Clone, Copy, PartialEq, Eq, Structural)]
pub enum DeletionReport {
    /// No row changed: something is wrong with the database.
    NothingMarked,
    /// Exactly the book was marked.
    Marked,
    /// Several rows share the identifier: integrity may be compromised.
    SeveralMarked,
}

/// What the number of rows changed by marking one book deleted says.
pub fn deletion_report(rows: usize) -> (r: DeletionReport)
    ensures
        r == (if rows == 0 {
            DeletionReport::NothingMarked
        } else if rows == 1 {
            DeletionReport::Marked
        } else {
            DeletionReport::SeveralMarked
        }),
{
    if rows == 0 {
        DeletionReport::NothingMarked
    } else if rows == 1 {
        DeletionReport::Marked
    } else {
        DeletionReport::SeveralMarked
    }
}

/// A deleted book that is back on disk is recovered when its content hash
/// is the stored one.
pub fn should_recover(stored_hash: &Vec<u8>, current_hash: &Vec<u8>) -> (r: bool)
    ensures
        r == (stored_hash@ == current_hash@),
{
    if stored_hash.len() != current_hash.len() {
        return false;
    }
    let mut i: usize = 0;
    while i < stored_hash.len()
        invariant
            stored_hash@.len() == current_hash@.len(),
            0 <= i <= stored_hash@.len(),
            forall|k: int| 0 <= k < i ==> stored_hash@[k] == current_hash@[k],
        decreases stored_hash.len() - i,
    {
        if stored_hash[i] != current_hash[i] {
            return false;
        }
        i = i + 1;
    }
    assert(stored_hash@ =~= current_hash@);
    true
}

// ---------------------------------------------------------------------------
// handling one book that a scan reaches
// ---------------------------------------------------------------------------

/// Where handling a book that a scan reached stands.
#[derive(Debug, Clone, Copy, PartialEq, Eq, Structural)]
pub enum BookState {
    /// Nothing has been done yet.
    Found,
    /// Its content is being hashed and looked up among the stored books
    /// (a stored book with that content at another path is moved).
    Hashing { is_dir: bool },
    /// A new record is being made from its files.
    Creating { is_dir: bool },
    /// Its record is being looked up by its location.
    Locating { is_dir: bool },
    /// Nothing more is done.
    Finished,
}

/// What the outside work of the last step came to.
#[derive(Debug, Clone, Copy, PartialEq, Eq, Structural)]
pub enum BookEvent {
    /// The scan reached the book: whether it is a directory, whether it
    /// changed since the last scan, whether a record has its location.
    Reached { scan: Scan, is_dir: bool, changed: bool, known: bool },
    /// Its content hash was looked up.
    Looked { update: Update },
    /// Its new record was made.
    Created,
    /// Its record was looked up by location: `None` when there is none,
    /// otherwise whether its copy is in the data directory.
    Located { copy_exists: Option<bool> },
    /// The outside work failed (reading, hashing, the database).
    Failed,
}

/// The outside work to do next.
#[derive(Debug, Clone, Copy, PartialEq, Eq, Structural)]
pub enum BookAction {
    /// Hash the book's content and look the hash up.
    Hash,
    /// Make a record from a single file.
    CreateSingle,
    /// Make a record from a directory of files.
    CreateMultifile,
    /// Look the record up by location.
    Locate,
    /// Concatenate the files into the data directory.
    Remux,
    /// Link the file into the data directory.
    Link,
    /// Nothing more.
    Stop,
}

/// Whether `event` is an answer to the work that `state` waits for.
pub open spec fn book_event_fits(state: BookState, event: BookEvent) -> bool {
    match (state, event) {
        (BookState::Found, BookEvent::Reached { .. }) => true,
        (BookState::Hashing { .. }, BookEvent::Looked { .. }) => true,
        (BookState::Hashing { .. }, BookEvent::Failed) => true,
        (BookState::Creating { .. }, BookEvent::Created) => true,
        (BookState::Creating { .. }, BookEvent::Failed) => true,
        (BookState::Locating { .. }, BookEvent::Located { .. }) => true,
        (BookState::Locating { .. }, BookEvent::Failed) => true,
        _ => false,
    }
}

/// The next state and action of handling a book: a book that needs
/// processing is hashed; a book whose content is stored for no book gets a
/// new record; then its record is looked up by location and a missing copy
/// in the data directory is remuxed (directory) or linked (file). A failure
/// ends the handling.
pub open spec fn book_transition(state: BookState, event: BookEvent) -> (BookState, BookAction) {
    match (state, event) {
        (BookState::Found, BookEvent::Reached { scan, is_dir, changed, known }) =>
            if processing_needed(scan, changed, known) {
                (BookState::Hashing { is_dir }, BookAction::Hash)
            } else {
                (BookState::Locating { is_dir }, BookAction::Locate)
            },
        (BookState::Hashing { is_dir }, BookEvent::Looked { update }) =>
            if known_update(update) {
                (BookState::Locating { is_dir }, BookAction::Locate)
            } else if is_dir {
                (BookState::Creating { is_dir }, BookAction::CreateMultifile)
            } else {
                (BookState::Creating { is_dir }, BookAction::CreateSingle)
            },
        (BookState::Creating { is_dir }, BookEvent::Created) =>
            (BookState::Locating { is_dir }, BookAction::Locate),
        (BookState::Locating { is_dir }, BookEvent::Located { copy_exists }) => match copy_exists {
            None => (BookState::Finished, BookAction::Stop),
            Some(c) => if c {
                (BookState::Finished, BookAction::Stop)
            } else if is_dir {
                (BookState::Finished, BookAction::Remux)
            } else {
                (BookState::Finished, BookAction::Link)
            },
        },
        _ => (BookState::Finished, BookAction::Stop),
    }
}

/// One step of handling a book that a scan reached: from the state and
/// what the last outside work came to, the next state and the work to do.
pub fn book_step(state: BookState, event: BookEvent) -> (r: (BookState, BookAction))
    requires
        book_event_fits(state, event),
    ensures
        r == book_transition(state, event),
{
    match event {
        BookEvent::Reached { scan, is_dir, changed, known } => {
            if needs_processing(scan, changed, known) {
                (BookState::Hashing { is_dir }, BookAction::Hash)
            } else {
                (BookState::Locating { is_dir }, BookAction::Locate)
            }
        },
        BookEvent::Looked { update } => {
            let is_dir = match state {
                BookState::Hashing { is_dir } => is_dir,
                _ => false,
            };
            if already_known(update) {
                (BookState::Locating { is_dir }, BookAction::Locate)
            } else if is_dir {
                (BookState::Creating { is_dir }, BookAction::CreateMultifile)
            } else {
                (BookState::Creating { is_dir }, BookAction::CreateSingle)
            }
        },
        BookEvent::Created => {
            let is_dir = match state {
                BookState::Creating { is_dir } => is_dir,
                _ => false,
            };
            (BookState::Locating { is_dir }, BookAction::Locate)
        },
        BookEvent::Located { copy_exists } => {
            let is_dir = match state {
                BookState::Locating { is_dir } => is_dir,
                _ => false,
            };
            match copy_exists {
                None => (BookState::Finished, BookAction::Stop),
                Some(c) => match cache_action(is_dir, c) {
                    CacheAction::Remux => (BookState::Finished, BookAction::Remux),
                    CacheAction::Link => (BookState::Finished, BookAction::Link),
                    CacheAction::Nothing => (BookState::Finished, BookAction::Stop),
                },
            }
        },
        BookEvent::Failed => (BookState::Finished, BookAction::Stop),
    }
}

/// How many steps handling a book can still take from a state.
pub open spec fn steps_left(state: BookState) -> int {
    match state {
        BookState::Found => 4,
        BookState::Hashing { .. } => 3,
        BookState::Creating { .. } => 2,
        BookState::Locating { .. } => 1,
        BookState::Finished => 0,
    }
}

/// Handling a book ends: every step takes it closer to `Finished`, which
/// waits for nothing, so it takes at most four steps.
pub proof fn lemma_book_handling_ends(state: BookState, event: BookEvent)
    requires
        book_event_fits(state, event),
    ensures
        steps_left(book_transition(state, event).0) < steps_left(state),
        forall|e: BookEvent| !book_event_fits(BookState::Finished, e),
{
}

/// A book whose content is already stored is never given a second record,
/// and a copy is made in the data directory only when the located record
/// has none, by remuxing a directory and linking a file.
pub proof fn lemma_book_step_guards(state: BookState, event: BookEvent)
    requires
        book_event_fits(state, event),
    ensures
        event matches BookEvent::Looked { update } && known_update(update) ==>
            book_transition(state, event).1 == BookAction::Locate,
        book_transition(state, event).1 == BookAction::Remux <==>
            (state matches BookState::Locating { is_dir } && is_dir
                && event == BookEvent::Located { copy_exists: Some(false) }),
        book_transition(state, event).1 == BookAction::Link <==>
            (state matches BookState::Locating { is_dir } && !is_dir
                && event == BookEvent::Located { copy_exists: Some(false) }),
{
}

/// A book that is a directory is made into a record from its files, a
/// book that is a file from that file: the record is made exactly when the
/// hash of the book is stored for no book, multi-file exactly for a
/// directory, and the new record is made for the same kind of book that
/// was hashed.
pub proof fn lemma_book_record_matches_kind(state: BookState, event: BookEvent)
    requires
        book_event_fits(state, event),
    ensures
        book_transition(state, event).1 == BookAction::CreateMultifile <==> {
            &&& state matches BookState::Hashing { is_dir } && is_dir
            &&& event matches BookEvent::Looked { update } && !known_update(update)
        },
        book_transition(state, event).1 == BookAction::CreateSingle <==> {
            &&& state matches BookState::Hashing { is_dir } && !is_dir
            &&& event matches BookEvent::Looked { update } && !known_update(update)
        },
        book_transition(state, event).0 matches BookState::Creating { is_dir: d } ==>
            state == (BookState::Hashing { is_dir: d }),
{
}

/// An incremental scan of a known book that did not change goes straight
/// to checking its copy; a full scan hashes every book.
pub proof fn lemma_book_first_step(is_dir: bool, changed: bool, known: bool)
    ensures
        book_transition(BookState::Found, BookEvent::Reached { scan: Scan::Incremental, is_dir, changed, known })
            == (if !changed && known {
                (BookState::Locating { is_dir }, BookAction::Locate)
            } else {
                (BookState::Hashing { is_dir }, BookAction::Hash)
            }),
        book_transition(BookState::Found, BookEvent::Reached { scan: Scan::Full, is_dir, changed, known })
            == (BookState::Hashing { is_dir }, BookAction::Hash),
{
}

// ---------------------------------------------------------------------------
// locking
// ---------------------------------------------------------------------------

/// What a scan does when another one holds the lock file.
#[derive(Debug, Clone, Copy, PartialEq, Eq, Structural)]
pub enum LockingBehavior {
    Block,
    Error,
    Dont,
}

/// The next step in taking the scan lock.
#[derive(Debug, Clone, Copy, PartialEq, Eq, Structural)]
pub enum LockStep {
    /// Scan without touching the lock file.
    Skip,
    /// Try to take the lock without waiting.
    TryLock,
}

/// What to do once the non-blocking attempt has been made.
#[derive(Debug, Clone, Copy, PartialEq, Eq, Structural)]
pub enum LockDecision {
    /// The lock is held: scan.
    Proceed,
    /// Wait for the lock, then scan.
    Wait,
    /// Give up with `WorkerError::Locked`.
    Fail,
}

/// The first step in taking the lock: none at all for `Dont`, else a
/// non-blocking attempt.
pub fn lock_step(behavior: LockingBehavior) -> (r: LockStep)
    ensures
        r == (if behavior == LockingBehavior::Dont { LockStep::Skip } else { LockStep::TryLock }),
{
    match behavior {
        LockingBehavior::Dont => LockStep::Skip,
        _ => LockStep::TryLock,
    }
}

/// After the non-blocking attempt: scan when the lock is held, else wait for
/// it (`Block`) or give up (`Error`).
pub fn lock_decision(behavior: LockingBehavior, acquired: bool) -> (r: LockDecision)
    requires
        behavior != LockingBehavior::Dont,
    ensures
        r == (if acquired {
            LockDecision::Proceed
        } else if behavior == LockingBehavior::Block {
            LockDecision::Wait
        } else {
            LockDecision::Fail
        }),
{
    if acquired {
        LockDecision::Proceed
    } else {
        match behavior {
            LockingBehavior::Block => LockDecision::Wait,
            _ => LockDecision::Fail,
        }
    }
}

// ---------------------------------------------------------------------------
// paths in the library and the data directory
// ---------------------------------------------------------------------------

/// The data file of a book: `{data}/{id}.{extension}`.
pub open spec fn data_file_text(data_dir: Seq<char>, id: u128, ext: Seq<char>) -> Seq<char> {
    data_dir + seq!['/'] + hyphenated_text(id) + seq!['.'] + ext
}

/// The cover art of a book: `{data}/img/{id}`.
pub open spec fn cover_file_text(data_dir: Seq<char>, id: u128) -> Seq<char> {
    data_dir + "/img/"@ + hyphenated_text(id)
}

/// Path at which to place a data file, where `uuid` is the book's identifier
/// and `filetype` its file type.
pub fn build_target_path(data_path: &str, uuid: &Uuid, filetype: &str) -> (r: String)
    ensures
        r@ == data_file_text(data_path@, uuid.value, filetype@),
{
    let mut r = String::from_str(data_path);
    r.append("/");
    let id = uuid.hyphenated();
    r.append(id.as_str());
    r.append(".");
    r.append(filetype);
    proof {
        reveal_strlit("/");
        reveal_strlit(".");
    }
    assert(r@ =~= data_file_text(data_path@, uuid.value, filetype@));
    r
}

/// Path of the data directory entry of a book; it may or may not be a file.
pub fn data_path_of(data_directory: &str, book_id: &Uuid, file_extension: &str) -> (r: String)
    ensures
        r@ == data_file_text(data_directory@, book_id.value, file_extension@),
{
    build_target_path(data_directory, book_id, file_extension)
}

/// Path where a book's cover art is saved.
pub fn cover_art_path(data_directory: &str, book_id: &Uuid) -> (r: String)
    ensures
        r@ == cover_file_text(data_directory@, book_id.value),
{
    let mut r = String::from_str(data_directory);
    r.append("/img/");
    let id = book_id.hyphenated();
    r.append(id.as_str());
    r
}

/// What `std::path::Path::strip_prefix` gives for a path and a base, as text.
pub uninterp spec fn path_strip_prefix(path: Seq<char>, base: Seq<char>) -> Option<Seq<char>>;

/// Calls `std::path::Path::strip_prefix` on two paths given as text.
/// Claimed: the result is `path_strip_prefix` of the texts; the stripped
/// path of a UTF-8 path is UTF-8, so nothing is lost in converting it back.
#[verifier::external_body]
fn strip_path_prefix(path: &str, base: &str) -> (r: Option<String>)
    ensures
        r matches Some(s) ==> path_strip_prefix(path@, base@) == Some(s@),
        r is None ==> path_strip_prefix(path@, base@) is None,
{
    std::path::Path::new(path).strip_prefix(base).ok().and_then(|p| p.to_str()).map(|p| p.to_owned())
}

/// The path of a book relative to its library's location.
pub fn relative_path_str(path: &str, library_location: &str) -> (r: Result<String, WorkerError>)
    ensures
        match path_strip_prefix(path@, library_location@) {
            Some(rel) => r matches Ok(s) && s@ == rel,
            None => r matches Err(WorkerError::OutsideLibrary),
        },
{
    match strip_path_prefix(path, library_location) {
        Some(p) => Ok(p),
        None => Err(WorkerError::OutsideLibrary),
    }
}

// ---------------------------------------------------------------------------
// chapters of a multi-file book
// ---------------------------------------------------------------------------

/// Whether a walked entry is one of a multi-file book's audio files: a file
/// with the book's extension.
pub fn is_chapter_file(is_dir: bool, extension: Option<&str>, book_extension: &str) -> (r: bool)
    ensures
        r == (!is_dir && match extension {
            Some(e) => e@ == book_extension@,
            None => false,
        }),
{
    if is_dir {
        return false;
    }
    match extension {
        Some(e) => crate::text::str_equal(e, book_extension),
        None => false,
    }
}

/// The chapters of a multi-file book from the titles of its files in order:
/// a file starts a chapter unless its title is that of the chapter before;
/// each chapter is its title and the position of its first file.
pub open spec fn chapter_plan(titles: Seq<Seq<char>>) -> Seq<(Seq<char>, int)>
    decreases titles.len(),
{
    if titles.len() == 0 {
        Seq::empty()
    } else {
        let p = chapter_plan(titles.drop_last());
        if p.len() > 0 && p.last().0 == titles.last() {
            p
        } else {
            p.push((titles.last(), titles.len() - 1))
        }
    }
}

/// Some chapter of `p` starts at file `i`.
pub open spec fn chapter_starts_at(p: Seq<(Seq<char>, int)>, i: int) -> bool {
    exists|k: int| 0 <= k < p.len() && (#[trigger] p[k]).1 == i
}

/// The position after the last file of chapter `k` of `p` in a book of `n`
/// files: where the next chapter starts, or the end.
pub open spec fn chapter_end(p: Seq<(Seq<char>, int)>, k: int, n: int) -> int {
    if k + 1 < p.len() {
        p[k + 1].1
    } else {
        n
    }
}

/// A chapter layout fits the titles of a book's files: there are chapters
/// exactly when there are files; chapters come in file order, each named
/// after its first file; a file starts a chapter exactly when it is the
/// first file or its title differs from the title of the file before;
/// consecutive chapters have different titles; every file of a chapter, up
/// to the next chapter, has the chapter's title.
pub open spec fn plan_follows_titles(titles: Seq<Seq<char>>, p: Seq<(Seq<char>, int)>) -> bool {
    &&& (p.len() == 0 <==> titles.len() == 0)
    &&& forall|k: int| 0 <= k < p.len() ==> {
        &&& 0 <= (#[trigger] p[k]).1 < titles.len()
        &&& p[k].0 == titles[p[k].1]
    }
    &&& forall|a: int, b: int| 0 <= a < b < p.len() ==> (#[trigger] p[a]).1 < (#[trigger] p[b]).1
    &&& forall|i: int| 0 <= i < titles.len() ==> (#[trigger] chapter_starts_at(p, i) <==> (i == 0 || titles[i] != titles[i - 1]))
    &&& forall|k: int| 0 <= k < p.len() - 1 ==> (#[trigger] p[k]).0 != p[k + 1].0
    &&& forall|k: int, i: int| 0 <= k < p.len() && p[k].1 <= i < chapter_end(p, k, titles.len() as int)
        ==> #[trigger] titles[i] == (#[trigger] p[k]).0
}

/// The chapters of a multi-file book follow its files' titles: a file opens
/// a chapter exactly when it is the first or its title differs from the
/// file before, and a chapter runs over the files with its title up to the
/// next one.
pub proof fn lemma_chapter_plan_follows_titles(titles: Seq<Seq<char>>)
    ensures
        plan_follows_titles(titles, chapter_plan(titles)),
    decreases titles.len(),
{
    let n = titles.len() as int;
    let p = chapter_plan(titles);
    if n == 0 {
        assert(p.len() == 0);
        return;
    }
    let t0 = titles.drop_last();
    let p0 = chapter_plan(t0);
    lemma_chapter_plan_follows_titles(t0);
    assert forall|i: int| 0 <= i < n - 1 implies #[trigger] titles[i] == t0[i] by {}
    if p0.len() > 0 {
        let last = p0.len() - 1;
        assert(p0[last].1 <= n - 2 < chapter_end(p0, last, n - 1));
        assert(t0[n - 2] == p0[last].0);
        assert(titles[n - 2] == p0.last().0);
    }
    if p0.len() > 0 && p0.last().0 == titles.last() {
        assert(p == p0);
        assert forall|i: int| 0 <= i < n implies (#[trigger] chapter_starts_at(p, i) <==> (i == 0 || titles[i] != titles[i - 1])) by {
            if i < n - 1 {
                assert(chapter_starts_at(p0, i) <==> (i == 0 || t0[i] != t0[i - 1]));
                if i > 0 {
                    assert(titles[i - 1] == t0[i - 1]);
                }
            } else {
                if chapter_starts_at(p, i) {
                    let k = choose|k: int| 0 <= k < p.len() && (#[trigger] p[k]).1 == i;
                    assert(p0[k].1 < n - 1);
                }
            }
        }
        assert forall|k: int, i: int| 0 <= k < p.len() && p[k].1 <= i < chapter_end(p, k, n)
            implies #[trigger] titles[i] == (#[trigger] p[k]).0 by {
            if i < n - 1 {
                assert(t0[i] == p0[k].0);
            } else {
                assert(k == p0.len() - 1) by {
                    if k + 1 < p0.len() {
                        assert(p0[k + 1].1 < n - 1);
                    }
                }
            }
        }
    } else {
        let c = (titles.last(), n - 1);
        assert(p == p0.push(c));
        assert forall|k: int| 0 <= k < p.len() implies {
            &&& 0 <= (#[trigger] p[k]).1 < n
            &&& p[k].0 == titles[p[k].1]
        } by {
            if k < p0.len() {
                assert(p[k] == p0[k]);
                assert(t0[p0[k].1] == titles[p0[k].1]);
            }
        }
        assert forall|a: int, b: int| 0 <= a < b < p.len() implies (#[trigger] p[a]).1 < (#[trigger] p[b]).1 by {
            assert(p[a] == p0[a]);
            if b < p0.len() {
                assert(p[b] == p0[b]);
            }
        }
        assert forall|i: int| 0 <= i < n implies (#[trigger] chapter_starts_at(p, i) <==> (i == 0 || titles[i] != titles[i - 1])) by {
            if i < n - 1 {
                if chapter_starts_at(p0, i) {
                    let k = choose|k: int| 0 <= k < p0.len() && (#[trigger] p0[k]).1 == i;
                    assert(p[k] == p0[k]);
                }
                if chapter_starts_at(p, i) {
                    let k = choose|k: int| 0 <= k < p.len() && (#[trigger] p[k]).1 == i;
                    assert(k < p0.len());
                    assert(p[k] == p0[k]);
                    assert(chapter_starts_at(p0, i));
                }
                assert(chapter_starts_at(p0, i) <==> (i == 0 || t0[i] != t0[i - 1]));
                if i > 0 {
                    assert(titles[i - 1] == t0[i - 1]);
                }
            } else {
                assert(p[p0.len() as int].1 == i);
                assert(chapter_starts_at(p, i));
            }
        }
        assert forall|k: int| 0 <= k < p.len() - 1 implies (#[trigger] p[k]).0 != p[k + 1].0 by {
            assert(p[k] == p0[k]);
            if k + 1 < p0.len() {
                assert(p[k + 1] == p0[k + 1]);
            }
        }
        assert forall|k: int, i: int| 0 <= k < p.len() && p[k].1 <= i < chapter_end(p, k, n)
            implies #[trigger] titles[i] == (#[trigger] p[k]).0 by {
            if k < p0.len() {
                assert(p[k] == p0[k]);
                if k + 1 < p0.len() {
                    assert(p[k + 1] == p0[k + 1]);
                }
                assert(chapter_end(p, k, n) == chapter_end(p0, k, n - 1));
                assert(t0[i] == p0[k].0);
            }
        }
    }
}

/// A chapter of a multi-file book: its title, the position of the file it
/// starts with and its number.
pub struct ChapterStart {
    pub title: String,
    pub first_file: usize,
    pub number: i64,
}

/// Lays out the chapters of a multi-file book (the start time of a chapter
/// is the total length of the files before its first file).
pub fn plan_chapters(titles: &Vec<String>) -> (r: Vec<ChapterStart>)
    requires
        titles@.len() <= i64::MAX,
    ensures
        r@.len() == chapter_plan(texts(titles@)).len(),
        forall|k: int| 0 <= k < r@.len() ==> {
            &&& (#[trigger] r@[k]).title@ == chapter_plan(texts(titles@))[k].0
            &&& r@[k].first_file == chapter_plan(texts(titles@))[k].1
            &&& r@[k].number == k
        },
        plan_follows_titles(texts(titles@), chapter_plan(texts(titles@))),
{
    proof {
        lemma_chapter_plan_follows_titles(texts(titles@));
    }
    let mut r: Vec<ChapterStart> = Vec::new();
    let mut i: usize = 0;
    while i < titles.len()
        invariant
            0 <= i <= titles@.len(),
            titles@.len() <= i64::MAX,
            r@.len() <= i,
            r@.len() == chapter_plan(texts(titles@.take(i as int))).len(),
            forall|k: int| 0 <= k < r@.len() ==> {
                &&& (#[trigger] r@[k]).title@ == chapter_plan(texts(titles@.take(i as int)))[k].0
                &&& r@[k].first_file == chapter_plan(texts(titles@.take(i as int)))[k].1
                &&& r@[k].number == k
            },
        decreases titles.len() - i,
    {
        let ghost before = texts(titles@.take(i as int));
        let ghost after = texts(titles@.take(i + 1));
        assert(after.drop_last() =~= before);
        assert(after.last() == titles@[i as int]@);
        assert(after.len() - 1 == i);
        let ghost p = chapter_plan(before);
        assert(chapter_plan(after) == (if p.len() > 0 && p.last().0 == after.last() {
            p
        } else {
            p.push((after.last(), after.len() - 1))
        }));
        assert(r@.len() > 0 ==> r@[r@.len() - 1].title@ == p.last().0);
        let ghost old_r = r@;
        let same = if r.len() > 0 {
            let last = r.len() - 1;
            let a = crate::text::chars_of(r[last].title.as_str());
            let b = crate::text::chars_of(titles[i].as_str());
            chars_equal(&a, &b)
        } else {
            false
        };
        if !same {
            let n = r.len();
            r.push(ChapterStart { title: titles[i].clone(), first_file: i, number: n as i64 });
            assert(r@[n as int].title@ == after.last());
            assert(forall|k: int| 0 <= k < n ==> r@[k] == old_r[k]);
        }
        i = i + 1;
    }
    assert(titles@.take(titles@.len() as int) =~= titles@);
    r
}

// ---------------------------------------------------------------------------
// the fields of a newly found book
// ---------------------------------------------------------------------------

/// The descriptive fields of a book as read from its files.
pub struct BookFields {
    pub location: String,
    pub title: String,
    pub artist: Option<String>,
    pub file_extension: String,
}

fn owned(o: Option<&str>) -> (r: Option<String>)
    ensures
        opt_string_text(r) == opt_str_text(o),
{
    match o {
        Some(s) => Some(s.to_owned()),
        None => None,
    }
}

/// A single-file book: titled by its `title` tag or its file name, by the
/// artist of its `artist` tag, with the file's extension (or none).
pub fn single_file_book_fields(
    relative_path: &str,
    title_tag: Option<&str>,
    file_name: &str,
    artist_tag: Option<&str>,
    extension: Option<&str>,
) -> (b: BookFields)
    ensures
        b.location@ == relative_path@,
        b.title@ == match title_tag {
            Some(t) => t@,
            None => file_name@,
        },
        opt_string_text(b.artist) == opt_str_text(artist_tag),
        b.file_extension@ == match extension {
            Some(e) => e@,
            None => Seq::<char>::empty(),
        },
{
    let file_extension = match extension {
        Some(e) => e.to_owned(),
        None => String::new(),
    };
    BookFields {
        location: relative_path.to_owned(),
        title: crate::worker::mediafile::media_title(title_tag, file_name),
        artist: owned(artist_tag),
        file_extension,
    }
}

/// A multi-file book: it needs a common audio file type and a directory
/// name that is text; its first file's `album` and `artist` tags, when
/// present, give its title and artist.
pub fn multifile_book_fields(
    relative_path: &str,
    dir_name: Option<&str>,
    filetype: Option<&str>,
    first_album: Option<&str>,
    first_artist: Option<&str>,
) -> (r: Result<BookFields, WorkerError>)
    ensures
        filetype is None ==> r matches Err(WorkerError::NoValidFileExtensions),
        filetype is Some && dir_name is None ==> r matches Err(WorkerError::InvalidUtf8),
        filetype is Some && dir_name is Some ==> (r matches Ok(b) && {
            &&& b.location@ == relative_path@
            &&& b.file_extension@ == filetype.unwrap()@
            &&& b.title@ == match first_album {
                Some(a) => a@,
                None => dir_name.unwrap()@,
            }
            &&& opt_string_text(b.artist) == opt_str_text(first_artist)
        }),
{
    let ext = match filetype {
        Some(e) => e,
        None => return Err(WorkerError::NoValidFileExtensions),
    };
    let name = match dir_name {
        Some(n) => n,
        None => return Err(WorkerError::InvalidUtf8),
    };
    let title = match first_album {
        Some(a) => a.to_owned(),
        None => name.to_owned(),
    };
    Ok(BookFields {
        location: relative_path.to_owned(),
        title,
        artist: owned(first_artist),
        file_extension: ext.to_owned(),
    })
}

} // verus!
