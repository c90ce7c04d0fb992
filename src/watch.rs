//! What a folder watch does with each filesystem event: filtering of artifacts,
//! per-path debounce, settle delays, and the worker loop's policy.
use vstd::prelude::*;
use crate::classifier::{classification, classify, last_dot, lemma_last_dot_at, lemma_no_dot};
use crate::keyed::KeyedList;
use crate::text::{is_prefix, is_suffix, rfind_char, starts_with, ends_with, text_eq};

verus! {

/// How long after a processed Create event the same path is left alone, in milliseconds.
pub const CREATE_DEBOUNCE_MS: u64 = 5000;
/// How long after a processed Modify or Other event the same path is left alone, in milliseconds.
pub const MODIFY_DEBOUNCE_MS: u64 = 2000;
/// How long to wait for a writer to finish before acting on a Create event, in milliseconds.
pub const CREATE_SETTLE_MS: u64 = 1000;
/// How long to wait for a writer to finish before acting on a Modify or Other event, in milliseconds.
pub const MODIFY_SETTLE_MS: u64 = 500;
/// How long the worker waits for an event before it looks at its stop flag again, in milliseconds.
pub const POLL_TIMEOUT_MS: u64 = 100;

/// The kinds of filesystem event a watch acts on.
#[derive(Debug, Clone, Copy, PartialEq, Eq, Structural)]
pub enum EventClass {
    /// A file appeared.
    Create,
    /// A file's contents or metadata changed.
    Modify,
    /// Anything else the platform reports, such as a rename.
    Other,
}

/// The debounce window of an event class.
pub open spec fn window_of(class: EventClass) -> u64 {
    match class {
        EventClass::Create => CREATE_DEBOUNCE_MS,
        _ => MODIFY_DEBOUNCE_MS,
    }
}

/// The settle delay of an event class.
pub open spec fn settle_of(class: EventClass) -> u64 {
    match class {
        EventClass::Create => CREATE_SETTLE_MS,
        _ => MODIFY_SETTLE_MS,
    }
}

/// The debounce window for events of `class`, in milliseconds.
pub fn debounce_window_ms(class: EventClass) -> (r: u64)
    ensures
        r == window_of(class),
{
    match class {
        EventClass::Create => CREATE_DEBOUNCE_MS,
        _ => MODIFY_DEBOUNCE_MS,
    }
}

/// The settle delay for events of `class`, in milliseconds.
pub fn settle_delay_ms(class: EventClass) -> (r: u64)
    ensures
        r == settle_of(class),
{
    match class {
        EventClass::Create => CREATE_SETTLE_MS,
        _ => MODIFY_SETTLE_MS,
    }
}

/// Dotfiles that are ordinary files, matched as prefixes of the name.
pub open spec fn is_known_dotfile(name: Seq<char>) -> bool {
    is_prefix(".env"@, name) || is_prefix(".gitignore"@, name) || is_prefix(".gitattributes"@, name)
        || is_prefix(".editorconfig"@, name) || is_prefix(".eslintrc"@, name) || is_prefix(".prettierrc"@, name)
        || is_prefix(".babelrc"@, name) || is_prefix(".npmrc"@, name)
}

/// Extensions, with their dot, that mark a finished file.
pub open spec fn is_final_extension(ext: Seq<char>) -> bool {
    ext == ".txt"@ || ext == ".pdf"@ || ext == ".jpg"@ || ext == ".png"@ || ext == ".mp4"@ || ext == ".zip"@
        || ext == ".doc"@ || ext == ".docx"@
}

/// A name, typically a dotfile's, that probably belongs to a finished file: a known dotfile,
/// or a name whose last dot has at least two characters before it and one after it, and
/// whose extension from that dot on is a common finished one.
pub open spec fn likely_final(name: Seq<char>) -> bool {
    let d = last_dot(name);
    is_known_dotfile(name) || (d > 1 && d < name.len() - 1 && is_final_extension(name.subrange(d, name.len() as int)))
}

/// Names skipped whatever the event: resource forks, Finder metadata, Office lock files,
/// short temporary files (under ten bytes), and partial downloads unless the event is a modification.
pub open spec fn always_skipped(name: Seq<char>, byte_len: nat, is_modify: bool) -> bool {
    is_prefix("._"@, name) || name == ".DS_Store"@ || is_prefix("~$"@, name)
        || (is_suffix(".tmp"@, name) && byte_len < 10) || (is_suffix(".part"@, name) && !is_modify)
}

/// Whether an event for a file called `name` (of `byte_len` UTF-8 bytes) is ignored.
/// Besides the names always skipped, Create events skip dotfiles that are not likely final.
pub open spec fn skip_name(name: Seq<char>, byte_len: nat, is_modify: bool) -> bool {
    always_skipped(name, byte_len, is_modify) || (!is_modify && is_prefix("."@, name) && !likely_final(name))
}

/// Whether a dot-prefixed name probably belongs to a finished file.
pub fn is_likely_final_file(file_name: &str) -> (r: bool)
    ensures
        r == likely_final(file_name@),
{
    if starts_with(file_name, ".env") || starts_with(file_name, ".gitignore") || starts_with(file_name, ".gitattributes")
        || starts_with(file_name, ".editorconfig") || starts_with(file_name, ".eslintrc") || starts_with(file_name, ".prettierrc")
        || starts_with(file_name, ".babelrc") || starts_with(file_name, ".npmrc") {
        return true;
    }
    let n = file_name.unicode_len();
    match rfind_char(file_name, '.') {
        Some(d) => {
            proof {
                lemma_last_dot_at(file_name@, d as int);
            }
            if d > 1 && d < n - 1 {
                let ext = file_name.substring_char(d, n);
                text_eq(ext, ".txt") || text_eq(ext, ".pdf") || text_eq(ext, ".jpg") || text_eq(ext, ".png")
                    || text_eq(ext, ".mp4") || text_eq(ext, ".zip") || text_eq(ext, ".doc") || text_eq(ext, ".docx")
            } else {
                false
            }
        },
        None => {
            proof {
                lemma_no_dot(file_name@);
            }
            false
        },
    }
}

/// Whether an event of the given kind for a file called `file_name` is ignored.
pub fn should_skip_file(file_name: &str, is_modify_event: bool) -> (r: bool)
    ensures
        r == skip_name(file_name@, file_name.len() as nat, is_modify_event),
{
    if starts_with(file_name, "._") || text_eq(file_name, ".DS_Store") || starts_with(file_name, "~$")
        || (ends_with(file_name, ".tmp") && file_name.len() < 10) || (ends_with(file_name, ".part") && !is_modify_event) {
        return true;
    }
    if !is_modify_event {
        if starts_with(file_name, ".") && !is_likely_final_file(file_name) {
            return true;
        }
    }
    false
}

/// Whether the debounce table lets an event of `class` for `path` at time `now` through:
/// the path was never processed, or its last processing is at least the class's window ago.
pub open spec fn debounce_admits(seen: Map<Seq<char>, u64>, path: Seq<char>, now: u64, class: EventClass) -> bool {
    !seen.contains_key(path) || (now >= seen[path] && now - seen[path] >= window_of(class))
}

/// When each path was last processed by one watch, in milliseconds of its clock.
pub struct PendingEventCache {
    seen: KeyedList<u64>,
}

impl View for PendingEventCache {
    type V = Map<Seq<char>, u64>;

    closed spec fn view(&self) -> Map<Seq<char>, u64> {
        self.seen@
    }
}

impl PendingEventCache {
    /// Internal consistency of the table.
    pub closed spec fn wf(&self) -> bool {
        self.seen.wf()
    }

    /// An empty table.
    pub fn new() -> (r: Self)
        ensures
            r.wf(),
            r@ == Map::<Seq<char>, u64>::empty(),
    {
        PendingEventCache { seen: KeyedList::new() }
    }

    /// When `path` was last processed, if ever.
    pub fn last_processed(&self, path: &str) -> (r: Option<u64>)
        requires
            self.wf(),
        ensures
            match r {
                Some(t) => self@.contains_key(path@) && t == self@[path@],
                None => !self@.contains_key(path@),
            },
    {
        match self.seen.get(path) {
            Some(t) => Some(*t),
            None => None,
        }
    }

    /// Decides whether an event of `class` for `path` at `now_ms` is processed; if so,
    /// records `now_ms` as the path's last processing time.
    pub fn let_through(&mut self, path: &str, now_ms: u64, class: EventClass) -> (r: bool)
        requires
            old(self).wf(),
        ensures
            final(self).wf(),
            r == debounce_admits(old(self)@, path@, now_ms, class),
            r ==> final(self)@ == old(self)@.insert(path@, now_ms),
            !r ==> final(self)@ == old(self)@,
    {
        let window = debounce_window_ms(class);
        let admitted = match self.seen.get(path) {
            Some(t) => now_ms >= *t && now_ms - *t >= window,
            None => true,
        };
        if admitted {
            self.seen.insert(String::from_str(path), now_ms);
        }
        admitted
    }
}

/// What the watch decided about one path of an event.
#[derive(Debug, Clone, Copy, PartialEq, Eq, Structural)]
pub enum Screening {
    /// The path is not a regular file (a folder, or gone).
    NotAFile,
    /// The file's name marks a temporary or metadata artifact.
    Filtered,
    /// The path was processed too recently; the event is dropped.
    RecentlyProcessed,
    /// The file is handled after waiting `settle_ms` milliseconds.
    Proceed { settle_ms: u64 },
}

/// The screening of an event, as a function of the table before it.
pub open spec fn screening_of(
    seen: Map<Seq<char>, u64>,
    path: Seq<char>,
    name: Seq<char>,
    byte_len: nat,
    is_file: bool,
    class: EventClass,
    now: u64,
) -> Screening {
    if !is_file {
        Screening::NotAFile
    } else if skip_name(name, byte_len, !(class is Create)) {
        Screening::Filtered
    } else if !debounce_admits(seen, path, now, class) {
        Screening::RecentlyProcessed
    } else {
        Screening::Proceed { settle_ms: settle_of(class) }
    }
}

/// What the worker does after one wait on its event channel.
#[derive(Debug, Clone, Copy, PartialEq, Eq, Structural)]
pub enum Poll {
    /// An event of a kind the watch acts on arrived.
    Received(EventClass),
    /// An event of another kind (an access, a removal) arrived.
    Unhandled,
    /// The watcher reported an error instead of an event.
    WatchError,
    /// Nothing arrived within the poll timeout.
    TimedOut,
    /// The event channel is closed.
    Disconnected,
}

/// The worker's next move.
#[derive(Debug, Clone, Copy, PartialEq, Eq, Structural)]
pub enum WorkerStep {
    /// Screen and handle each path of the event.
    Handle(EventClass),
    /// Go back to waiting.
    Continue,
    /// Report the error and go back to waiting.
    ReportAndContinue,
    /// Report the error and leave the loop.
    ReportAndExit,
}

/// The state a watch's background worker owns: its folder, its rules and its debounce table.
pub struct WatchWorker {
    pub folder: String,
    pub categories: Vec<(String, Vec<String>)>,
    pub cache: PendingEventCache,
}

impl WatchWorker {
    /// Internal consistency of the debounce table.
    pub closed spec fn wf(&self) -> bool {
        self.cache.wf()
    }

    /// The debounce table.
    pub closed spec fn seen(&self) -> Map<Seq<char>, u64> {
        self.cache@
    }

    /// A worker for `folder` with the given rules and an empty debounce table.
    pub fn new(folder: String, categories: Vec<(String, Vec<String>)>) -> (r: Self)
        ensures
            r.wf(),
            r.folder == folder,
            r.categories == categories,
            r.seen() == Map::<Seq<char>, u64>::empty(),
    {
        WatchWorker { folder, categories, cache: PendingEventCache::new() }
    }

    /// Screens one path of an event of `class` seen at `now_ms`: `file_name` is the path's
    /// last component and `is_file` whether it is a regular file. Only a path that goes on
    /// to be handled is recorded in the debounce table.
    pub fn screen_event(&mut self, path: &str, file_name: &str, is_file: bool, class: EventClass, now_ms: u64) -> (r: Screening)
        requires
            old(self).wf(),
        ensures
            final(self).wf(),
            final(self).folder == old(self).folder,
            final(self).categories == old(self).categories,
            r == screening_of(old(self).seen(), path@, file_name@, file_name.len() as nat, is_file, class, now_ms),
            r is Proceed ==> final(self).seen() == old(self).seen().insert(path@, now_ms),
            !(r is Proceed) ==> final(self).seen() == old(self).seen(),
    {
        if !is_file {
            return Screening::NotAFile;
        }
        let is_modify = match class {
            EventClass::Create => false,
            _ => true,
        };
        if should_skip_file(file_name, is_modify) {
            return Screening::Filtered;
        }
        if !self.cache.let_through(path, now_ms, class) {
            return Screening::RecentlyProcessed;
        }
        Screening::Proceed { settle_ms: settle_delay_ms(class) }
    }

    /// The category a file called `file_name` is moved into, if any.
    pub fn category_for_file(&self, file_name: &str) -> (r: Option<String>)
        ensures
            match r {
                Some(c) => classification(self.categories@, file_name@) == Some(c@),
                None => classification(self.categories@, file_name@) is None,
            },
    {
        classify(file_name, &self.categories)
    }

    /// The loop's policy after one wait: act on Create, Modify and Other events, ignore other
    /// kinds and timeouts, report watcher errors and go on, and stop when the channel closes.
    pub fn on_poll(poll: Poll) -> (r: WorkerStep)
        ensures
            r == match poll {
                Poll::Received(c) => WorkerStep::Handle(c),
                Poll::Unhandled => WorkerStep::Continue,
                Poll::TimedOut => WorkerStep::Continue,
                Poll::WatchError => WorkerStep::ReportAndContinue,
                Poll::Disconnected => WorkerStep::ReportAndExit,
            },
    {
        match poll {
            Poll::Received(c) => WorkerStep::Handle(c),
            Poll::Unhandled => WorkerStep::Continue,
            Poll::TimedOut => WorkerStep::Continue,
            Poll::WatchError => WorkerStep::ReportAndContinue,
            Poll::Disconnected => WorkerStep::ReportAndExit,
        }
    }
}

/// Once a Create event for a path is handled at `t`, a second Create event for
/// it less than five seconds later is dropped and leaves the table as it was, while a
/// Modify event at least two seconds after `t` is handled, even inside the five seconds.
pub proof fn lemma_debounce_windows(seen: Map<Seq<char>, u64>, path: Seq<char>, t: u64, t2: u64, t3: u64)
    requires
        debounce_admits(seen, path, t, EventClass::Create),
        t <= t2,
        t2 - t < CREATE_DEBOUNCE_MS,
        t3 >= t,
        t3 - t >= MODIFY_DEBOUNCE_MS,
    ensures
        ({
            let after = seen.insert(path, t);
            &&& !debounce_admits(after, path, t2, EventClass::Create)
            &&& debounce_admits(after, path, t3, EventClass::Modify)
            &&& debounce_admits(after, path, t3, EventClass::Other)
        }),
{
}

} // verus!
