//! The documents that the shell renders itself: the start page, the history
//! page, and the script that every page surface starts with.

use crate::adblock::YOUTUBE_DOM_CLEANER_JS;
use crate::storage::HistoryEntry;
use crate::storage::HistoryEntryView;
use crate::storage::entry_views;
use crate::text::fitting_prefix;
use crate::text::prefix_within;
use vstd::prelude::*;
use vstd::string::*;

verus! {

/// The start page lists this many of the newest visits.
pub const HOME_RECENT: usize = 8;

/// The history page lists this many of the newest visits.
pub const HISTORY_ROWS: usize = 300;

/// On the start page a title is cut to this many bytes.
pub const TITLE_CLIP: usize = 45;

/// On the start page an address is cut to this many bytes.
pub const URL_CLIP: usize = 55;

/// The page script up to the place of the cleaner script.
pub const PAGE_INIT_HEAD: &'static str = r#"(function() {
    function ipc(m) { window.ipc.postMessage(m); }
    ipc('url:' + location.href);
    function sendTitle() { if (document.title) ipc('title:' + document.title); }
    sendTitle();
    const titleEl = document.querySelector('title');
    if (titleEl) new MutationObserver(sendTitle).observe(titleEl, {childList:true});
    function sendFavicon() {
        let fav = '';
        for (const l of document.querySelectorAll('link[rel~="icon"],link[rel~="shortcut"]')) {
            if (l.href) { fav = l.href; break; }
        }
        if (!fav && location.origin !== 'null') fav = location.origin + '/favicon.ico';
        if (fav) ipc('favicon:' + fav);
    }
    if (document.readyState === 'loading') document.addEventListener('DOMContentLoaded', sendFavicon);
    else sendFavicon();
    "#;

/// The page script behind the cleaner script.
pub const PAGE_INIT_TAIL: &'static str = r#"
})();"#;

/// A row of the start page, up to the link's address.
pub const HOME_ROW_OPEN: &'static str = r#"<a href=""#;

/// A row of the start page, between the link's address and the title.
pub const HOME_ROW_TITLE: &'static str = r#"" class="hi"><span class="ht">"#;

/// A row of the start page, between the title and the address.
pub const HOME_ROW_URL: &'static str = r#"</span><span class="hu">"#;

/// The end of a row of the start page.
pub const HOME_ROW_CLOSE: &'static str = r#"</span></a>"#;

/// The start page up to its rows.
pub const HOME_PAGE_HEAD: &'static str = r#"<!DOCTYPE html><html><head><meta charset="UTF-8"><title>vccat</title>
<style>
*{margin:0;padding:0;box-sizing:border-box;}
html,body{height:100%;background:#08080f;color:#555;
  font-family:'JetBrains Mono','Fira Code',monospace;
  display:flex;flex-direction:column;align-items:center;justify-content:center;gap:28px;}
.logo{font-size:32px;font-weight:700;letter-spacing:0.2em;color:#1e1630;
  text-shadow:0 0 60px #2a1a4e;}
.logo span{color:#5a3a8a;}
.wrap{display:flex;flex-direction:column;gap:5px;width:460px;max-width:90vw;}
.lbl{font-size:10px;letter-spacing:0.2em;color:#1a1a28;text-transform:uppercase;margin-bottom:4px;}
.hi{display:flex;flex-direction:column;gap:2px;padding:8px 12px;border-radius:8px;
  border:1px solid #100f18;background:#0c0b14;text-decoration:none;transition:all 0.1s;}
.hi:hover{background:#0f0e1c;border-color:#1e1630;}
.ht{font-size:12px;color:#5a3a7a;}
.hu{font-size:10px;color:#1c1c28;}
.ver{font-size:10px;color:#141420;position:fixed;bottom:12px;right:16px;}
</style></head><body>
<div class="logo">vc<span>cat</span></div>
<div class="wrap"><div class="lbl">ostatnio odwiedzone</div>"#;

/// The start page between its rows and the version.
pub const HOME_PAGE_VERSION: &'static str = r#"</div>
<div class="ver">v"#;

/// The start page behind the version.
pub const HOME_PAGE_TAIL: &'static str = r#"</div>
</body></html>"#;

/// A row of the history page, up to the link's address.
pub const HISTORY_ROW_OPEN: &'static str = r#"<tr><td><a href=""#;

/// A row of the history page, between the link's address and the title.
pub const HISTORY_ROW_TEXT: &'static str = r#"">"#;

/// A row of the history page, between the title and the address.
pub const HISTORY_ROW_URL: &'static str = r#"</a></td><td class="u">"#;

/// The end of a row of the history page.
pub const HISTORY_ROW_CLOSE: &'static str = r#"</td></tr>"#;

/// The history page up to its rows.
pub const HISTORY_PAGE_HEAD: &'static str = r#"<!DOCTYPE html><html><head><meta charset="UTF-8"><title>Historia</title>
<style>
*{margin:0;padding:0;box-sizing:border-box;}
body{background:#08080f;color:#555;font-family:'JetBrains Mono','Fira Code',monospace;padding:32px;}
h1{font-size:16px;color:#3a2a5e;margin-bottom:20px;letter-spacing:0.15em;}
table{width:100%;border-collapse:collapse;}
tr{border-bottom:1px solid #0f0e18;}
tr:hover{background:#0c0b14;}
td{padding:7px 10px;font-size:12px;}
a{color:#6a4a9a;text-decoration:none;}
a:hover{color:#8a6abb;}
.u{color:#1e1e2e;font-size:10px;}
</style></head><body>
<h1>// historia</h1><table>"#;

/// The history page behind its rows.
pub const HISTORY_PAGE_TAIL: &'static str = r#"</table>
</body></html>"#;

/// The script that a page surface runs first: it reports the page's address,
/// title and favicon, and ends with the cleaner script.
pub open spec fn page_init_script() -> Seq<char> {
    PAGE_INIT_HEAD@ + YOUTUBE_DOM_CLEANER_JS@ + PAGE_INIT_TAIL@
}

/// The script that the page surface of the tab at `tab_idx` starts with. It
/// is the same for every index: the surface's handlers carry the index.
pub fn page_init_js(tab_idx: usize) -> (js: String)
    ensures
        js@ == page_init_script(),
{
    let mut js = String::from_str(PAGE_INIT_HEAD);
    js.append(YOUTUBE_DOM_CLEANER_JS);
    js.append(PAGE_INIT_TAIL);
    js
}

/// What a visit is listed under: its title, or its address if it has none.
pub open spec fn shown_title(e: HistoryEntryView) -> Seq<char> {
    if e.title.len() == 0 {
        e.url
    } else {
        e.title
    }
}

/// One visit as a row of the start page: a link to its address, with the
/// title and the address cut to length.
pub open spec fn home_row(e: HistoryEntryView) -> Seq<char> {
    HOME_ROW_OPEN@ + e.url + HOME_ROW_TITLE@ + fitting_prefix(shown_title(e), TITLE_CLIP as nat)
        + HOME_ROW_URL@ + fitting_prefix(e.url, URL_CLIP as nat) + HOME_ROW_CLOSE@
}

/// The newest `count` visits as rows of the start page, newest first.
pub open spec fn home_rows(h: Seq<HistoryEntryView>, count: nat) -> Seq<char>
    decreases count,
{
    if count == 0 || h.len() == 0 {
        Seq::empty()
    } else {
        home_row(h.last()) + home_rows(h.drop_last(), (count - 1) as nat)
    }
}

/// The start page for a history log and a version of the shell.
pub open spec fn home_page(h: Seq<HistoryEntryView>, version: Seq<char>) -> Seq<char> {
    HOME_PAGE_HEAD@ + home_rows(h, HOME_RECENT as nat) + HOME_PAGE_VERSION@ + version
        + HOME_PAGE_TAIL@
}

fn push_home_row(out: &mut String, e: &HistoryEntry)
    ensures
        final(out)@ == old(out)@ + home_row(e@),
{
    let title = if e.title.as_str().is_empty() {
        prefix_within(e.url.as_str(), TITLE_CLIP)
    } else {
        prefix_within(e.title.as_str(), TITLE_CLIP)
    };
    let url = prefix_within(e.url.as_str(), URL_CLIP);
    out.append(HOME_ROW_OPEN);
    out.append(e.url.as_str());
    out.append(HOME_ROW_TITLE);
    out.append(title.as_str());
    out.append(HOME_ROW_URL);
    out.append(url.as_str());
    out.append(HOME_ROW_CLOSE);
    assert(out@ =~= old(out)@ + home_row(e@));
}

/// The start page: the newest visits of `history`, newest first, and the
/// version of the shell.
pub fn home_page_html(history: &[HistoryEntry], version: &str) -> (html: String)
    ensures
        html@ == home_page(entry_views(history@), version@),
{
    let ghost hv = entry_views(history@);
    let mut out = String::from_str(HOME_PAGE_HEAD);
    let n = history.len();
    let mut i: usize = n;
    let mut k: usize = 0;
    assert(hv.take(n as int) =~= hv);
    while i > 0 && k < HOME_RECENT
        invariant
            n == history@.len(),
            hv == entry_views(history@),
            i <= n,
            k <= HOME_RECENT,
            out@ + home_rows(hv.take(i as int), (HOME_RECENT - k) as nat) == HOME_PAGE_HEAD@
                + home_rows(hv, HOME_RECENT as nat),
        decreases i,
    {
        let ghost before = out@;
        let ghost rest = hv.take(i as int);
        i -= 1;
        push_home_row(&mut out, &history[i]);
        k += 1;
        assert(rest.last() == history@[i as int]@);
        assert(rest.drop_last() =~= hv.take(i as int));
        assert(out@ + home_rows(hv.take(i as int), (HOME_RECENT - k) as nat) =~= before
            + home_rows(rest, (HOME_RECENT - k + 1) as nat));
    }
    assert(out@ =~= HOME_PAGE_HEAD@ + home_rows(hv, HOME_RECENT as nat));
    out.append(HOME_PAGE_VERSION);
    out.append(version);
    out.append(HOME_PAGE_TAIL);
    out
}

/// One visit as a row of the history page: a link to its address under its
/// title, and the address.
pub open spec fn history_row(e: HistoryEntryView) -> Seq<char> {
    HISTORY_ROW_OPEN@ + e.url + HISTORY_ROW_TEXT@ + shown_title(e) + HISTORY_ROW_URL@ + e.url
        + HISTORY_ROW_CLOSE@
}

/// The newest `count` visits as rows of the history page, newest first.
pub open spec fn history_rows(h: Seq<HistoryEntryView>, count: nat) -> Seq<char>
    decreases count,
{
    if count == 0 || h.len() == 0 {
        Seq::empty()
    } else {
        history_row(h.last()) + history_rows(h.drop_last(), (count - 1) as nat)
    }
}

/// The history page for a history log.
pub open spec fn history_page(h: Seq<HistoryEntryView>) -> Seq<char> {
    HISTORY_PAGE_HEAD@ + history_rows(h, HISTORY_ROWS as nat) + HISTORY_PAGE_TAIL@
}

fn push_history_row(out: &mut String, e: &HistoryEntry)
    ensures
        final(out)@ == old(out)@ + history_row(e@),
{
    out.append(HISTORY_ROW_OPEN);
    out.append(e.url.as_str());
    out.append(HISTORY_ROW_TEXT);
    if e.title.as_str().is_empty() {
        out.append(e.url.as_str());
    } else {
        out.append(e.title.as_str());
    }
    out.append(HISTORY_ROW_URL);
    out.append(e.url.as_str());
    out.append(HISTORY_ROW_CLOSE);
    assert(out@ =~= old(out)@ + history_row(e@));
}

/// The history page: the newest visits of `history`, newest first.
pub fn history_page_html(history: &[HistoryEntry]) -> (html: String)
    ensures
        html@ == history_page(entry_views(history@)),
{
    let ghost hv = entry_views(history@);
    let mut out = String::from_str(HISTORY_PAGE_HEAD);
    let n = history.len();
    let mut i: usize = n;
    let mut k: usize = 0;
    assert(hv.take(n as int) =~= hv);
    while i > 0 && k < HISTORY_ROWS
        invariant
            n == history@.len(),
            hv == entry_views(history@),
            i <= n,
            k <= HISTORY_ROWS,
            out@ + history_rows(hv.take(i as int), (HISTORY_ROWS - k) as nat) == HISTORY_PAGE_HEAD@
                + history_rows(hv, HISTORY_ROWS as nat),
        decreases i,
    {
        let ghost before = out@;
        let ghost rest = hv.take(i as int);
        i -= 1;
        push_history_row(&mut out, &history[i]);
        k += 1;
        assert(rest.last() == history@[i as int]@);
        assert(rest.drop_last() =~= hv.take(i as int));
        assert(out@ + history_rows(hv.take(i as int), (HISTORY_ROWS - k) as nat) =~= before
            + history_rows(rest, (HISTORY_ROWS - k + 1) as nat));
    }
    assert(out@ =~= HISTORY_PAGE_HEAD@ + history_rows(hv, HISTORY_ROWS as nat));
    out.append(HISTORY_PAGE_TAIL);
    out
}

} // verus!
