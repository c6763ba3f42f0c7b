//! The two surfaces of the shell's own chrome, the sidebar and the toolbar:
//! their documents, and the scripts that push the registry's state to them.

use crate::registry::RegistryState;
use crate::registry::TabRegistry;
use crate::tab::Tab;
use crate::tab::TabView;
use crate::tab::tab_views;
use crate::text::decimal;
use crate::text::push_decimal;
use crate::text::replace_all;
use crate::text::replaced;
use vstd::prelude::*;
use vstd::string::*;

verus! {

/// The sidebar's document: the list of tabs and the buttons under it.
pub const SIDEBAR_HTML: &'static str = r#"<!DOCTYPE html><html><head><meta charset="UTF-8">
<style>
*{margin:0;padding:0;box-sizing:border-box;}
html,body{width:52px;height:100%;background:#080810;overflow:hidden;
  display:flex;flex-direction:column;align-items:center;
  border-right:1px solid #111118;}
#tabs{flex:1;width:100%;overflow-y:auto;overflow-x:hidden;
  display:flex;flex-direction:column;align-items:center;padding:8px 0;gap:4px;}
#tabs::-webkit-scrollbar{width:2px;}
#tabs::-webkit-scrollbar-thumb{background:#1e1e2e;border-radius:2px;}
.tab{position:relative;width:36px;height:36px;border-radius:8px;cursor:pointer;
  display:flex;align-items:center;justify-content:center;flex-shrink:0;
  border:1px solid transparent;transition:all 0.1s;}
.tab:hover{background:#111120;border-color:#1e1e2e;}
.tab.active{background:#14102a;border-color:#2a1a4e;box-shadow:inset 0 0 0 1px #2a1a4e;}
.tab.suspended{opacity:0.35;}
.tab img{width:18px;height:18px;border-radius:3px;object-fit:contain;}
.fb{width:20px;height:20px;border-radius:5px;background:#111120;border:1px solid #1e1e2e;
  display:flex;align-items:center;justify-content:center;font-size:10px;font-weight:600;
  color:#3a2a5e;font-family:monospace;text-transform:uppercase;}
.x{display:none;position:absolute;top:-5px;right:-5px;width:14px;height:14px;
  background:#0c0c18;border:1px solid #1e1e2e;border-radius:50%;color:#555;font-size:9px;
  align-items:center;justify-content:center;cursor:pointer;z-index:10;}
.tab:hover .x{display:flex;}
.x:hover{background:#141428;color:#ccc;}
#bottom{width:100%;display:flex;flex-direction:column;align-items:center;gap:4px;padding:6px 0;}
.ib{width:36px;height:36px;border-radius:8px;border:1px solid #111120;background:none;
  color:#252535;font-size:14px;cursor:pointer;display:flex;align-items:center;
  justify-content:center;transition:all 0.1s;}
.ib:hover{border-color:#2a1a4e;color:#7a5aaa;background:#0f0f1e;}
</style></head><body>
<div id="tabs"></div>
<div id="bottom">
  <button class="ib" title="Historia" onclick="send('history')">&#9776;</button>
  <button class="ib" title="Nowa karta" onclick="send('new')">+</button>
</div>
<script>
let state={tabs:[],active:0};
function send(m){window.ipc.postMessage(m);}
function render(){
  const c=document.getElementById('tabs');c.innerHTML='';
  state.tabs.forEach((t,i)=>{
    const el=document.createElement('div');
    el.className='tab'+(i===state.active?' active':'')+(t.suspended?' suspended':'');
    el.title=t.title||t.url||'Nowa karta';
    if(t.favicon){const img=document.createElement('img');img.src=t.favicon;
      img.onerror=()=>img.replaceWith(makeFb(t));el.appendChild(img);}
    else el.appendChild(makeFb(t));
    const x=document.createElement('div');x.className='x';x.textContent='×';
    x.onclick=e=>{e.stopPropagation();send('close:'+i);};
    el.appendChild(x);
    el.onclick=()=>send('switch:'+i);
    c.appendChild(el);
  });
}
function makeFb(t){
  const d=document.createElement('div');d.className='fb';
  try{const h=new URL(t.url||'about:blank').hostname;d.textContent=h?h[0]:'?';}
  catch{d.textContent='?';}
  return d;
}
function update(s){state=s;render();}
</script></body></html>"#;

/// The toolbar's document: the navigation buttons and the address bar.
pub const TOOLBAR_HTML: &'static str = r#"<!DOCTYPE html><html><head><meta charset="UTF-8">
<style>
*{margin:0;padding:0;box-sizing:border-box;}
html,body{height:100%;background:#0a0a12;overflow:hidden;display:flex;align-items:center;
  gap:7px;padding:0 10px;border-bottom:1px solid #111120;
  font-family:'JetBrains Mono','Fira Code',monospace;}
button{background:none;border:1px solid #161625;color:#444;width:28px;height:28px;
  border-radius:6px;cursor:pointer;font-size:13px;display:flex;align-items:center;
  justify-content:center;transition:all 0.1s;flex-shrink:0;}
button:hover{background:#0f0f1e;color:#bbb;border-color:#2a1a4e;}
button:active{transform:scale(0.92);}
#url{flex:1;background:#0d0d18;border:1px solid #161625;color:#aaa;padding:5px 12px;
  border-radius:7px;font-size:12px;font-family:inherit;outline:none;letter-spacing:0.02em;
  transition:border-color 0.15s;}
#url:focus{border-color:#3a2a5e;color:#eee;}
#url::placeholder{color:#1e1e2e;}
#upd{display:none;padding:3px 10px;background:#100e1e;border:1px solid #2a1a4e;
  border-radius:6px;font-size:10px;color:#7a5aaa;cursor:pointer;white-space:nowrap;}
#upd:hover{background:#14102a;}
</style></head><body>
<button title="Wstecz"  onclick="s('back')">&#8592;</button>
<button title="Dalej"   onclick="s('fwd')">&#8594;</button>
<button title="Odśwież" onclick="s('reload')">&#8635;</button>
<input id="url" type="text" placeholder="Adres lub wyszukaj..."
  spellcheck="false"
  onkeydown="if(event.key==='Enter'){s('nav:'+this.value);this.blur();}"
  onfocus="this.select()"/>
<div id="upd" onclick="s('apply-update')"></div>
<script>
function s(m){window.ipc.postMessage(m);}
function setUrl(u){const el=document.getElementById('url');if(document.activeElement!==el)el.value=u;}
function showUpdate(v){const b=document.getElementById('upd');b.textContent='↑ '+v;b.style.display='block';}
let _upd=null;
function setPendingUpdate(v,u){_upd={v,u};showUpdate(v);}
</script></body></html>"#;

/// A tab in the sidebar's state, up to its address.
pub const ITEM_URL: &'static str = r#"{"url":""#;

/// A tab in the sidebar's state, between its address and its favicon.
pub const ITEM_FAVICON: &'static str = r#"","favicon":""#;

/// A tab in the sidebar's state, between its favicon and its title.
pub const ITEM_TITLE: &'static str = r#"","title":""#;

/// A tab in the sidebar's state, between its title and its suspension flag.
pub const ITEM_SUSPENDED: &'static str = r#"","suspended":"#;

/// The end of a tab in the sidebar's state.
pub const ITEM_CLOSE: &'static str = r#"}"#;

pub const ITEM_SEPARATOR: &'static str = ",";

pub const TRUE_TEXT: &'static str = "true";

pub const FALSE_TEXT: &'static str = "false";

pub const QUOTE: &'static str = "\"";

pub const ESCAPED_QUOTE: &'static str = "\\\"";

pub const APOSTROPHE: &'static str = "'";

pub const ESCAPED_APOSTROPHE: &'static str = "\\'";

pub const NEWLINE: &'static str = "\n";

pub const NOTHING: &'static str = "";

pub const BACKSLASH: &'static str = "\\";

pub const ESCAPED_BACKSLASH: &'static str = "\\\\";

pub const BACKTICK: &'static str = "`";

pub const ESCAPED_BACKTICK: &'static str = "\\`";

pub const INTERPOLATION: &'static str = "${";

pub const ESCAPED_INTERPOLATION: &'static str = "\\${";

pub const UPDATE_OPEN: &'static str = "update({tabs:[";

pub const UPDATE_ACTIVE: &'static str = "],active:";

pub const UPDATE_CLOSE: &'static str = "});";

pub const SET_URL_OPEN: &'static str = "setUrl('";

pub const SET_URL_CLOSE: &'static str = "');";

pub const WRITE_OPEN: &'static str = "document.open();document.write(\\`";

pub const WRITE_CLOSE: &'static str = "\\`);document.close();";

pub const PENDING_OPEN: &'static str = "setPendingUpdate('";

pub const PENDING_SEPARATOR: &'static str = "','";

pub const PENDING_CLOSE: &'static str = "');";

/// The document that the sidebar surface is constructed with.
pub fn sidebar_html() -> (html: &'static str)
    ensures
        html@ == SIDEBAR_HTML@,
{
    SIDEBAR_HTML
}

/// The document that the toolbar surface is constructed with.
pub fn toolbar_html() -> (html: &'static str)
    ensures
        html@ == TOOLBAR_HTML@,
{
    TOOLBAR_HTML
}

/// `s` with a backslash before each double quote.
pub open spec fn quoted(s: Seq<char>) -> Seq<char> {
    replaced(s, QUOTE@, ESCAPED_QUOTE@)
}

/// `s` with a backslash before each apostrophe.
pub open spec fn apostrophes_escaped(s: Seq<char>) -> Seq<char> {
    replaced(s, APOSTROPHE@, ESCAPED_APOSTROPHE@)
}

pub open spec fn favicon_text(t: TabView) -> Seq<char> {
    match t.favicon {
        Some(f) => f,
        None => Seq::empty(),
    }
}

pub open spec fn flag_text(b: bool) -> Seq<char> {
    if b {
        TRUE_TEXT@
    } else {
        FALSE_TEXT@
    }
}

/// One tab in the sidebar's state: its address, favicon and title, each with
/// its double quotes escaped, and whether it is suspended.
pub open spec fn sidebar_item(t: TabView) -> Seq<char> {
    ITEM_URL@ + quoted(t.url) + ITEM_FAVICON@ + quoted(favicon_text(t)) + ITEM_TITLE@ + quoted(
        t.title,
    ) + ITEM_SUSPENDED@ + flag_text(t.suspended) + ITEM_CLOSE@
}

/// The first `k` tabs in the sidebar's state, with a comma between them.
pub open spec fn sidebar_items(tabs: Seq<TabView>, k: int) -> Seq<char>
    decreases k,
{
    if k <= 0 {
        Seq::empty()
    } else if k == 1 {
        sidebar_item(tabs[0])
    } else {
        sidebar_items(tabs, k - 1) + ITEM_SEPARATOR@ + sidebar_item(tabs[k - 1])
    }
}

/// The script that replaces the sidebar's state by these tabs and this
/// active index.
pub open spec fn sidebar_script(tabs: Seq<TabView>, active: int) -> Seq<char> {
    UPDATE_OPEN@ + sidebar_items(tabs, tabs.len() as int) + UPDATE_ACTIVE@ + decimal(active as nat)
        + UPDATE_CLOSE@
}

/// The script that puts `url` into the address bar: apostrophes escaped,
/// line feeds left out.
pub open spec fn toolbar_script(url: Seq<char>) -> Seq<char> {
    SET_URL_OPEN@ + replaced(apostrophes_escaped(url), NEWLINE@, NOTHING@) + SET_URL_CLOSE@
}

/// The script that rewrites a surface's document with `html`, which it
/// carries in a template literal: backslashes, backticks and interpolation
/// marks are escaped, in that order.
pub open spec fn write_script(html: Seq<char>) -> Seq<char> {
    WRITE_OPEN@ + replaced(
        replaced(replaced(html, BACKSLASH@, ESCAPED_BACKSLASH@), BACKTICK@, ESCAPED_BACKTICK@),
        INTERPOLATION@,
        ESCAPED_INTERPOLATION@,
    ) + WRITE_CLOSE@
}

/// The script that tells the toolbar of a newer release.
pub open spec fn pending_script(version: Seq<char>, url: Seq<char>) -> Seq<char> {
    PENDING_OPEN@ + apostrophes_escaped(version) + PENDING_SEPARATOR@ + apostrophes_escaped(url)
        + PENDING_CLOSE@
}

fn push_sidebar_item(out: &mut String, t: &Tab)
    ensures
        final(out)@ == old(out)@ + sidebar_item(t@),
{
    let url = replace_all(t.url.as_str(), QUOTE, ESCAPED_QUOTE);
    let favicon = match &t.favicon {
        Some(f) => replace_all(f.as_str(), QUOTE, ESCAPED_QUOTE),
        None => replace_all(NOTHING, QUOTE, ESCAPED_QUOTE),
    };
    let title = replace_all(t.title.as_str(), QUOTE, ESCAPED_QUOTE);
    proof {
        reveal_strlit("");
        assert(NOTHING@ =~= Seq::<char>::empty());
    }
    out.append(ITEM_URL);
    out.append(url.as_str());
    out.append(ITEM_FAVICON);
    out.append(favicon.as_str());
    out.append(ITEM_TITLE);
    out.append(title.as_str());
    out.append(ITEM_SUSPENDED);
    if t.suspended {
        out.append(TRUE_TEXT);
    } else {
        out.append(FALSE_TEXT);
    }
    out.append(ITEM_CLOSE);
    assert(out@ =~= old(out)@ + sidebar_item(t@));
}

/// The script that pushes the whole state of the tabs to the sidebar.
pub fn sync_sidebar(tabs: &[Tab], active: usize) -> (script: String)
    ensures
        script@ == sidebar_script(tab_views(tabs@), active as int),
{
    let ghost tv = tab_views(tabs@);
    let mut out = String::from_str(UPDATE_OPEN);
    let n = tabs.len();
    let mut i: usize = 0;
    assert(out@ =~= UPDATE_OPEN@ + sidebar_items(tv, 0));
    while i < n
        invariant
            n == tabs@.len(),
            tv == tab_views(tabs@),
            i <= n,
            out@ == UPDATE_OPEN@ + sidebar_items(tv, i as int),
        decreases n - i,
    {
        if i > 0 {
            out.append(ITEM_SEPARATOR);
        }
        push_sidebar_item(&mut out, &tabs[i]);
        i += 1;
        assert(out@ =~= UPDATE_OPEN@ + sidebar_items(tv, i as int));
    }
    out.append(UPDATE_ACTIVE);
    push_decimal(&mut out, active);
    out.append(UPDATE_CLOSE);
    assert(out@ =~= sidebar_script(tv, active as int));
    out
}

/// The script that puts `url` into the toolbar's address bar.
pub fn toolbar_set_url(url: &str) -> (script: String)
    ensures
        script@ == toolbar_script(url@),
{
    let escaped = replace_all(url, APOSTROPHE, ESCAPED_APOSTROPHE);
    let safe = replace_all(escaped.as_str(), NEWLINE, NOTHING);
    let mut out = String::from_str(SET_URL_OPEN);
    out.append(safe.as_str());
    out.append(SET_URL_CLOSE);
    out
}

/// The script that rewrites a surface's document with `html`.
pub fn load_html_into(html: &str) -> (script: String)
    ensures
        script@ == write_script(html@),
{
    let a = replace_all(html, BACKSLASH, ESCAPED_BACKSLASH);
    let b = replace_all(a.as_str(), BACKTICK, ESCAPED_BACKTICK);
    let c = replace_all(b.as_str(), INTERPOLATION, ESCAPED_INTERPOLATION);
    let mut out = String::from_str(WRITE_OPEN);
    out.append(c.as_str());
    out.append(WRITE_CLOSE);
    out
}

/// The script that tells the toolbar that `version` can be had from `url`.
pub fn pending_update_script(version: &str, url: &str) -> (script: String)
    ensures
        script@ == pending_script(version@, url@),
{
    let v = replace_all(version, APOSTROPHE, ESCAPED_APOSTROPHE);
    let u = replace_all(url, APOSTROPHE, ESCAPED_APOSTROPHE);
    let mut out = String::from_str(PENDING_OPEN);
    out.append(v.as_str());
    out.append(PENDING_SEPARATOR);
    out.append(u.as_str());
    out.append(PENDING_CLOSE);
    out
}

/// What the sidebar and the toolbar were last told: the scripts of the last
/// push.
pub struct UiProjection {
    pub sidebar: String,
    pub toolbar: String,
}

pub struct UiView {
    pub sidebar: Seq<char>,
    pub toolbar: Seq<char>,
}

impl View for UiProjection {
    type V = UiView;

    open spec fn view(&self) -> UiView {
        UiView { sidebar: self.sidebar@, toolbar: self.toolbar@ }
    }
}

/// What the two surfaces show of a registry: all its tabs with the active
/// index, and the address of the active tab.
pub open spec fn projected(r: RegistryState) -> UiView {
    UiView {
        sidebar: sidebar_script(r.tabs, r.active),
        toolbar: toolbar_script(r.tabs[r.active].url),
    }
}

/// A projection after the state of `r` has been pushed to it: the push is
/// of the whole state, so nothing of what was shown before remains.
pub open spec fn resynced(p: UiView, r: RegistryState) -> UiView {
    projected(r)
}

impl UiProjection {
    /// The projection of surfaces that have been told nothing yet.
    pub fn new() -> (p: UiProjection)
        ensures
            p@ == (UiView { sidebar: Seq::empty(), toolbar: Seq::empty() }),
    {
        UiProjection { sidebar: String::new(), toolbar: String::new() }
    }

    /// Pushes the state of `registry` to both surfaces.
    pub fn resync(&mut self, registry: &TabRegistry)
        requires
            registry@.wf(),
        ensures
            final(self)@ == resynced(old(self)@, registry@),
    {
        self.sidebar = sync_sidebar(registry.tabs.as_slice(), registry.active);
        self.toolbar = toolbar_set_url(registry.tabs[registry.active].url.as_str());
    }
}

/// Pushing the same state twice shows what pushing it once shows, whatever
/// was shown before.
pub proof fn lemma_resync_idempotent(p: UiView, q: UiView, r: RegistryState)
    ensures
        resynced(resynced(p, r), r) == resynced(p, r),
        resynced(p, r) == resynced(q, r),
{
}

} // verus!
