//! The records that are persisted: the session and the history log.

use crate::tab::HOME_URL;
use crate::tab::INTERNAL_SCHEME;
use crate::text::same_text;
use crate::text::starts_with;
use vstd::prelude::*;
use vstd::string::*;

verus! {

/// The history log is cut to this many of its newest entries when it is saved.
pub const HISTORY_CAP: usize = 5000;

/// The address of the empty page, which is never recorded.
pub const BLANK_URL: &'static str = "about:blank";

/// The addresses of the open tabs and the index of the active one.
#[derive(Clone, Debug)]
pub struct Session {
    pub tabs: Vec<String>,
    pub active: usize,
}

pub struct SessionView {
    pub tabs: Seq<Seq<char>>,
    pub active: int,
}

/// The texts of a sequence of strings, index by index.
pub open spec fn texts(v: Seq<String>) -> Seq<Seq<char>> {
    Seq::new(v.len(), |i: int| v[i]@)
}

impl View for Session {
    type V = SessionView;

    open spec fn view(&self) -> SessionView {
        SessionView { tabs: texts(self.tabs@), active: self.active as int }
    }
}

impl Default for Session {
    /// A session without tabs.
    fn default() -> (s: Session)
        ensures
            s@.tabs.len() == 0,
            s@.active == 0,
    {
        Session { tabs: Vec::new(), active: 0 }
    }
}

/// One visit in the history log.
#[derive(Clone, Debug)]
pub struct HistoryEntry {
    pub url: String,
    pub title: String,
    pub timestamp: u64,
}

pub struct HistoryEntryView {
    pub url: Seq<char>,
    pub title: Seq<char>,
    pub timestamp: u64,
}

impl View for HistoryEntry {
    type V = HistoryEntryView;

    open spec fn view(&self) -> HistoryEntryView {
        HistoryEntryView { url: self.url@, title: self.title@, timestamp: self.timestamp }
    }
}

/// The views of a history log, index by index.
pub open spec fn entry_views(h: Seq<HistoryEntry>) -> Seq<HistoryEntryView> {
    Seq::new(h.len(), |i: int| h[i]@)
}

/// The session of a shell that has a single tab on the start page.
pub open spec fn default_session() -> SessionView {
    SessionView { tabs: seq![HOME_URL@], active: 0 }
}

/// What is restored from a session read from disk: the session itself, with
/// its active index clamped into range, or the default where nothing was read
/// or no tab was listed.
pub open spec fn restored_session(parsed: Option<SessionView>) -> SessionView {
    match parsed {
        Some(s) => if s.tabs.len() == 0 {
            default_session()
        } else if s.active >= s.tabs.len() {
            SessionView { tabs: s.tabs, active: s.tabs.len() - 1 }
        } else {
            s
        },
        None => default_session(),
    }
}

pub open spec fn session_option_view(parsed: Option<Session>) -> Option<SessionView> {
    match parsed {
        Some(s) => Some(s@),
        None => None,
    }
}

/// Decides what session the shell starts from, given what was read and
/// parsed from the session file (`None` where the file is missing or does not
/// parse).
pub fn load_session(parsed: Option<Session>) -> (s: Session)
    ensures
        s@ == restored_session(session_option_view(parsed)),
        s@.tabs.len() >= 1,
        0 <= s@.active < s@.tabs.len(),
{
    match parsed {
        Some(session) => {
            if session.tabs.len() == 0 {
                let mut tabs: Vec<String> = Vec::new();
                tabs.push(String::from_str(HOME_URL));
                let d = Session { tabs, active: 0 };
                assert(d@.tabs =~= seq![HOME_URL@]);
                d
            } else if session.active >= session.tabs.len() {
                let last = session.tabs.len() - 1;
                Session { tabs: session.tabs, active: last }
            } else {
                session
            }
        },
        None => {
            let mut tabs: Vec<String> = Vec::new();
            tabs.push(String::from_str(HOME_URL));
            let d = Session { tabs, active: 0 };
            assert(d@.tabs =~= seq![HOME_URL@]);
            d
        },
    }
}

/// Decides what history log the shell starts from, given what was read and
/// parsed from the history file (`None` where the file is missing or does not
/// parse): the log that was read, or an empty one.
pub fn load_history(parsed: Option<Vec<HistoryEntry>>) -> (h: Vec<HistoryEntry>)
    ensures
        parsed is Some ==> h == parsed->0,
        parsed is None ==> h@.len() == 0,
{
    match parsed {
        Some(h) => h,
        None => Vec::new(),
    }
}

/// The newest `HISTORY_CAP` entries of a log, or all of it if it has no more.
pub open spec fn capped(h: Seq<HistoryEntryView>) -> Seq<HistoryEntryView> {
    if h.len() > HISTORY_CAP {
        h.skip(h.len() - HISTORY_CAP)
    } else {
        h
    }
}

/// The entries of the log that are written to disk: its newest
/// `HISTORY_CAP`, in order.
pub fn save_history(history: &Vec<HistoryEntry>) -> (kept: Vec<HistoryEntry>)
    ensures
        entry_views(kept@) == capped(entry_views(history@)),
{
    let n = history.len();
    let start: usize = if n > HISTORY_CAP { n - HISTORY_CAP } else { 0 };
    let mut kept: Vec<HistoryEntry> = Vec::new();
    let mut i: usize = start;
    while i < n
        invariant
            n == history@.len(),
            start <= i <= n,
            kept@.len() == i - start,
            entry_views(kept@) == entry_views(history@).subrange(start as int, i as int),
        decreases n - i,
    {
        let ghost before = kept@;
        let e = &history[i];
        kept.push(HistoryEntry { url: e.url.clone(), title: e.title.clone(), timestamp: e.timestamp });
        i += 1;
        assert forall|j: int| 0 <= j < kept@.len() implies #[trigger] entry_views(kept@)[j]
            == entry_views(history@)[start + j] by {
            if j < before.len() {
                assert(entry_views(before)[j] == entry_views(history@).subrange(
                    start as int,
                    i - 1,
                )[j]);
            }
        }
        assert(entry_views(kept@) =~= entry_views(history@).subrange(start as int, i as int));
    }
    assert(entry_views(history@).subrange(start as int, n as int) =~= capped(
        entry_views(history@),
    ));
    kept
}

/// Whether a visit to `url` belongs in the history log: not the empty
/// address, not the blank page, and not a page of the shell's own scheme.
pub open spec fn is_recordable(url: Seq<char>) -> bool {
    url.len() > 0 && url != BLANK_URL@ && !INTERNAL_SCHEME@.is_prefix_of(url)
}

/// The log after a visit to `url`: one entry longer, unless the address is
/// not recordable or the newest entry already has it.
pub open spec fn appended(
    h: Seq<HistoryEntryView>,
    url: Seq<char>,
    title: Seq<char>,
    timestamp: u64,
) -> Seq<HistoryEntryView> {
    if !is_recordable(url) || (h.len() > 0 && h.last().url == url) {
        h
    } else {
        h.push(HistoryEntryView { url, title, timestamp })
    }
}

/// Records a visit to `url` at the time `timestamp` (seconds since the
/// epoch). Returns whether the log grew, which is when it has to be saved.
pub fn append_history(history: &mut Vec<HistoryEntry>, url: &str, title: &str, timestamp: u64) -> (grew: bool)
    ensures
        entry_views(final(history)@) == appended(entry_views(old(history)@), url@, title@, timestamp),
        grew == (final(history)@.len() == old(history)@.len() + 1),
        !grew ==> final(history)@ == old(history)@,
{
    if url.is_empty() || same_text(url, BLANK_URL) || starts_with(url, INTERNAL_SCHEME) {
        return false;
    }
    let n = history.len();
    if n > 0 {
        if same_text(history[n - 1].url.as_str(), url) {
            assert(entry_views(history@).last().url == url@);
            return false;
        }
    }
    history.push(HistoryEntry { url: String::from_str(url), title: String::from_str(title), timestamp });
    assert(entry_views(history@) =~= appended(entry_views(old(history)@), url@, title@, timestamp));
    true
}

/// Recording the same address twice in a row leaves the log as it was after
/// the first time, whatever the titles and times.
pub proof fn lemma_history_dedup(
    h: Seq<HistoryEntryView>,
    url: Seq<char>,
    title1: Seq<char>,
    time1: u64,
    title2: Seq<char>,
    time2: u64,
)
    ensures
        appended(appended(h, url, title1, time1), url, title2, time2) == appended(
            h,
            url,
            title1,
            time1,
        ),
        appended(h, url, title1, time1).len() <= h.len() + 1,
{
}

} // verus!
