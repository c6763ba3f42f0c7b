//! The tab registry: the ordered tabs, the render surface that each one has
//! or lacks, and the index of the active tab. Every operation keeps the two
//! sequences aligned and says, as a list of commands, what has to be done to
//! the real surfaces.

use crate::storage::HistoryEntry;
use crate::storage::Session;
use crate::storage::SessionView;
use crate::storage::append_history;
use crate::storage::appended;
use crate::storage::entry_views;
use crate::storage::restored_session;
use crate::tab::HOME_URL;
use crate::tab::INTERNAL_SCHEME;
use crate::tab::Tab;
use crate::tab::TabView;
use crate::tab::fresh_tab;
use crate::tab::history_tab;
use crate::tab::tab_views;
use crate::text::same_text;
use crate::text::starts_with;
use vstd::prelude::*;
use vstd::string::*;

verus! {

/// Opening a tab when this many are already open suspends the background
/// tabs.
pub const SUSPEND_THRESHOLD: usize = 4;

/// A live render surface, as the registry knows it: the tab index that it was
/// constructed with and reports in its messages.
#[derive(Clone, Copy, Debug, PartialEq, Eq, Structural)]
pub struct Surface {
    pub bound_index: usize,
}

/// What can be asked of the render surface of one tab.
#[derive(Clone, Copy, Debug, PartialEq, Eq, Structural)]
pub enum SurfaceAction {
    /// Construct a surface that shows the start page.
    CreateHome,
    /// Construct a surface that shows the history page.
    CreateHistory,
    /// Construct a surface that loads the tab's address.
    CreateUrl,
    /// Rewrite the surface's document with the start page.
    LoadHome,
    /// Rewrite the surface's document with the history page.
    LoadHistory,
    /// Have the surface load the tab's address.
    LoadUrl,
    Show,
    Hide,
    /// Tear the surface down; its slot stays.
    Suspend,
    /// Drop the slot, with the surface if it has one; later slots move down.
    Remove,
    Back,
    Forward,
    Reload,
}

/// One action on the surface of the tab at `index`.
#[derive(Clone, Copy, Debug, PartialEq, Eq, Structural)]
pub struct SurfaceCommand {
    pub action: SurfaceAction,
    pub index: usize,
}

pub struct TabRegistry {
    pub tabs: Vec<Tab>,
    /// One slot per tab, in the same order: `None` for a suspended tab.
    pub slots: Vec<Option<Surface>>,
    pub active: usize,
}

/// What a `TabRegistry` holds, as mathematical values.
pub struct RegistryState {
    pub tabs: Seq<TabView>,
    pub slots: Seq<Option<Surface>>,
    pub active: int,
}

impl View for TabRegistry {
    type V = RegistryState;

    open spec fn view(&self) -> RegistryState {
        RegistryState {
            tabs: tab_views(self.tabs@),
            slots: self.slots@,
            active: self.active as int,
        }
    }
}

/// The command that asks `action` of the surface of the tab at `index`.
pub open spec fn command(action: SurfaceAction, index: int) -> SurfaceCommand {
    SurfaceCommand { action, index: index as usize }
}

/// The tab `t` without a surface.
pub open spec fn suspended_tab(t: TabView) -> TabView {
    TabView { suspended: true, ..t }
}

/// The tab `t` with a surface.
pub open spec fn live_tab(t: TabView) -> TabView {
    TabView { suspended: false, ..t }
}

/// One `Suspend` for each live slot among the first `k` other than the one
/// at `active`, in index order.
pub open spec fn suspend_commands(
    slots: Seq<Option<Surface>>,
    active: int,
    k: int,
) -> Seq<SurfaceCommand>
    decreases k,
{
    if k <= 0 {
        Seq::empty()
    } else if k - 1 != active && slots[k - 1] is Some {
        suspend_commands(slots, active, k - 1).push(command(SurfaceAction::Suspend, k - 1))
    } else {
        suspend_commands(slots, active, k - 1)
    }
}

/// How many of the first `k` tabs are live and not at index `active`.
pub open spec fn live_others(tabs: Seq<TabView>, active: int, k: int) -> nat
    decreases k,
{
    if k <= 0 {
        0
    } else if k - 1 != active && !tabs[k - 1].suspended {
        live_others(tabs, active, k - 1) + 1
    } else {
        live_others(tabs, active, k - 1)
    }
}

impl RegistryState {
    /// The registry's invariant: there is a tab, the active index names one,
    /// each tab has its slot, a slot is empty exactly where the tab is
    /// suspended, and the active tab is live.
    pub open spec fn wf(self) -> bool {
        &&& self.tabs.len() >= 1
        &&& self.slots.len() == self.tabs.len()
        &&& 0 <= self.active < self.tabs.len()
        &&& forall|i: int|
            #![trigger self.slots[i]]
            #![trigger self.tabs[i]]
            0 <= i < self.tabs.len() ==> (self.slots[i] is None <==> self.tabs[i].suspended)
        &&& !self.tabs[self.active].suspended
    }

    /// The number of live tabs other than the active one.
    pub open spec fn live_background(self) -> nat {
        live_others(self.tabs, self.active, self.tabs.len() as int)
    }

    /// Every tab but the active one suspended.
    pub open spec fn background_suspended(self) -> RegistryState {
        RegistryState {
            tabs: Seq::new(
                self.tabs.len(),
                |i: int|
                    if i == self.active {
                        self.tabs[i]
                    } else {
                        suspended_tab(self.tabs[i])
                    },
            ),
            slots: Seq::new(
                self.tabs.len(),
                |i: int|
                    if i == self.active {
                        self.slots[i]
                    } else {
                        None
                    },
            ),
            active: self.active,
        }
    }

    /// The tab at `i` live again, on a fresh surface, if it was suspended.
    pub open spec fn woken(self, i: int) -> RegistryState {
        if 0 <= i < self.tabs.len() && self.tabs[i].suspended {
            RegistryState {
                tabs: self.tabs.update(i, live_tab(self.tabs[i])),
                slots: self.slots.update(i, Some(Surface { bound_index: i as usize })),
                active: self.active,
            }
        } else {
            self
        }
    }

    pub open spec fn wake_commands(self, i: int) -> Seq<SurfaceCommand> {
        if 0 <= i < self.tabs.len() && self.tabs[i].suspended {
            seq![command(SurfaceAction::CreateUrl, i)]
        } else {
            Seq::empty()
        }
    }

    /// A new live tab on the start page, appended and active. Where
    /// `SUSPEND_THRESHOLD` tabs or more were open, all of them but the one
    /// that was active are suspended.
    pub open spec fn opened(self) -> RegistryState {
        let n = self.tabs.len() as int;
        let base = if n >= SUSPEND_THRESHOLD {
            self.background_suspended()
        } else {
            self
        };
        RegistryState {
            tabs: base.tabs.push(fresh_tab(HOME_URL@)),
            slots: base.slots.push(Some(Surface { bound_index: n as usize })),
            active: n,
        }
    }

    pub open spec fn open_commands(self) -> Seq<SurfaceCommand> {
        let n = self.tabs.len() as int;
        let first = if n >= SUSPEND_THRESHOLD {
            suspend_commands(self.slots, self.active, n)
        } else {
            Seq::empty()
        };
        first.push(command(SurfaceAction::Hide, self.active)).push(
            command(SurfaceAction::CreateHome, n),
        ).push(command(SurfaceAction::Show, n))
    }

    /// The tab at `i` active, and live. An index out of range changes nothing.
    pub open spec fn switched(self, i: int) -> RegistryState {
        if 0 <= i < self.tabs.len() {
            RegistryState { active: i, ..self.woken(i) }
        } else {
            self
        }
    }

    pub open spec fn switch_commands(self, i: int) -> Seq<SurfaceCommand> {
        if 0 <= i < self.tabs.len() {
            (seq![command(SurfaceAction::Hide, self.active)] + self.wake_commands(i)).push(
                command(SurfaceAction::Show, i),
            )
        } else {
            Seq::empty()
        }
    }

    /// The registry without the tab at `i`. The last remaining tab is not
    /// removed but reset to a fresh start page, on the surface it has. The
    /// active index moves down where the tab it named moved down, or where
    /// it would fall off the end; the tab it then names is woken. An index
    /// out of range changes nothing.
    pub open spec fn closed(self, i: int) -> RegistryState {
        if !(0 <= i < self.tabs.len()) {
            self
        } else if self.tabs.len() == 1 {
            RegistryState { tabs: seq![fresh_tab(HOME_URL@)], slots: self.slots, active: 0 }
        } else {
            let a = self.active_after_close(i);
            RegistryState { tabs: self.tabs.remove(i), slots: self.slots.remove(i), active: a }.woken(
                a,
            )
        }
    }

    /// The active index once the tab at `i`, one of several, is gone.
    pub open spec fn active_after_close(self, i: int) -> int {
        if self.active >= self.tabs.len() - 1 {
            self.tabs.len() - 2
        } else if self.active > i {
            self.active - 1
        } else {
            self.active
        }
    }

    pub open spec fn close_commands(self, i: int) -> Seq<SurfaceCommand> {
        if !(0 <= i < self.tabs.len()) {
            Seq::empty()
        } else if self.tabs.len() == 1 {
            seq![command(SurfaceAction::LoadHome, 0)]
        } else {
            let a = self.active_after_close(i);
            let rest = RegistryState {
                tabs: self.tabs.remove(i),
                slots: self.slots.remove(i),
                active: a,
            };
            (seq![command(SurfaceAction::Remove, i)] + rest.wake_commands(a)).push(
                command(SurfaceAction::Show, a),
            )
        }
    }

    /// The active tab at `url`, its favicon forgotten.
    pub open spec fn navigated(self, url: Seq<char>) -> RegistryState {
        RegistryState {
            tabs: self.tabs.update(
                self.active,
                TabView { url, favicon: None, ..self.tabs[self.active] },
            ),
            ..self
        }
    }

    /// What the active surface is asked to show for `url`: one of the shell's
    /// own pages, rewritten in place, or an outside address, loaded. Nothing
    /// where the active tab has no surface.
    pub open spec fn navigate_commands(self, url: Seq<char>) -> Seq<SurfaceCommand> {
        if self.slots[self.active] is Some {
            seq![command(load_action(url), self.active)]
        } else {
            Seq::empty()
        }
    }

    /// The tab at `i` at `url`. An index out of range changes nothing.
    pub open spec fn with_url(self, i: int, url: Seq<char>) -> RegistryState {
        if 0 <= i < self.tabs.len() {
            RegistryState { tabs: self.tabs.update(i, TabView { url, ..self.tabs[i] }), ..self }
        } else {
            self
        }
    }

    /// The tab at `i` with the title `title`. An index out of range changes
    /// nothing.
    pub open spec fn with_title(self, i: int, title: Seq<char>) -> RegistryState {
        if 0 <= i < self.tabs.len() {
            RegistryState { tabs: self.tabs.update(i, TabView { title, ..self.tabs[i] }), ..self }
        } else {
            self
        }
    }

    /// The tab at `i` with the favicon `favicon`. An index out of range
    /// changes nothing.
    pub open spec fn with_favicon(self, i: int, favicon: Seq<char>) -> RegistryState {
        if 0 <= i < self.tabs.len() {
            RegistryState {
                tabs: self.tabs.update(i, TabView { favicon: Some(favicon), ..self.tabs[i] }),
                ..self
            }
        } else {
            self
        }
    }

    /// A live tab on the history page, appended and active.
    pub open spec fn with_history_tab(self) -> RegistryState {
        let n = self.tabs.len() as int;
        RegistryState {
            tabs: self.tabs.push(history_tab()),
            slots: self.slots.push(Some(Surface { bound_index: n as usize })),
            active: n,
        }
    }

    pub open spec fn history_commands(self) -> Seq<SurfaceCommand> {
        let n = self.tabs.len() as int;
        seq![
            command(SurfaceAction::Hide, self.active),
            command(SurfaceAction::CreateHistory, n),
            command(SurfaceAction::Show, n),
        ]
    }

    /// The addresses of the tabs and the active index.
    pub open spec fn snapshot(self) -> SessionView {
        SessionView { tabs: urls_of(self.tabs), active: self.active }
    }
}

/// The addresses of a sequence of tabs, index by index.
pub open spec fn urls_of(tabs: Seq<TabView>) -> Seq<Seq<char>> {
    Seq::new(tabs.len(), |i: int| tabs[i].url)
}

/// How a surface is brought to `url`.
pub open spec fn load_action(url: Seq<char>) -> SurfaceAction {
    if INTERNAL_SCHEME@.is_prefix_of(url) {
        if url == HOME_URL@ {
            SurfaceAction::LoadHome
        } else {
            SurfaceAction::LoadHistory
        }
    } else {
        SurfaceAction::LoadUrl
    }
}

/// The session that is persisted for these tabs: their addresses, in order,
/// and the active index.
pub fn save_session(tabs: &Vec<Tab>, active: usize) -> (s: Session)
    ensures
        s@ == (SessionView { tabs: urls_of(tab_views(tabs@)), active: active as int }),
{
    let mut urls: Vec<String> = Vec::new();
    let mut i: usize = 0;
    while i < tabs.len()
        invariant
            i <= tabs@.len(),
            urls@.len() == i,
            forall|j: int| 0 <= j < i ==> urls@[j]@ == tabs@[j].url@,
        decreases tabs@.len() - i,
    {
        urls.push(tabs[i].url.clone());
        i += 1;
    }
    let s = Session { tabs: urls, active };
    assert(s@.tabs =~= urls_of(tab_views(tabs@)));
    s
}

impl TabRegistry {
    /// Tells whether the registry meets its invariant.
    pub fn is_consistent(&self) -> (ok: bool)
        ensures
            ok == self@.wf(),
    {
        let n = self.tabs.len();
        if n == 0 || self.slots.len() != n || self.active >= n {
            return false;
        }
        let mut i: usize = 0;
        while i < n
            invariant
                n == self.tabs@.len(),
                n == self.slots@.len(),
                i <= n,
                forall|j: int|
                    0 <= j < i ==> (self@.slots[j] is None <==> (#[trigger] self@.tabs[j]).suspended),
            decreases n - i,
        {
            if self.slots[i].is_none() != self.tabs[i].suspended {
                assert(self@.tabs[i as int].suspended == self.tabs@[i as int].suspended);
                assert(!(self@.slots[i as int] is None <==> self@.tabs[i as int].suspended));
                return false;
            }
            assert(self@.tabs[i as int].suspended == self.tabs@[i as int].suspended);
            i += 1;
        }
        !self.tabs[self.active].suspended
    }

    /// Gives the tab at `i` a fresh surface if it is suspended, and does
    /// nothing otherwise.
    pub fn wake(&mut self, i: usize) -> (cmds: Vec<SurfaceCommand>)
        requires
            old(self)@.wf(),
        ensures
            final(self)@ == old(self)@.woken(i as int),
            final(self)@.wf(),
            cmds@ == old(self)@.wake_commands(i as int),
    {
        let mut cmds: Vec<SurfaceCommand> = Vec::new();
        if i < self.tabs.len() && self.tabs[i].suspended {
            self.slots[i] = Some(Surface { bound_index: i });
            self.tabs[i].suspended = false;
            cmds.push(SurfaceCommand { action: SurfaceAction::CreateUrl, index: i });
            assert(self@.tabs =~= old(self)@.woken(i as int).tabs);
            assert(cmds@ =~= old(self)@.wake_commands(i as int));
        }
        cmds
    }

    /// Opens a tab on the start page and makes it active.
    pub fn open_tab(&mut self) -> (cmds: Vec<SurfaceCommand>)
        requires
            old(self)@.wf(),
        ensures
            final(self)@ == old(self)@.opened(),
            final(self)@.wf(),
            cmds@ == old(self)@.open_commands(),
            final(self)@.live_background() <= SUSPEND_THRESHOLD - 1,
    {
        let n = self.tabs.len();
        let mut cmds: Vec<SurfaceCommand> = Vec::new();
        if n >= SUSPEND_THRESHOLD {
            let mut i: usize = 0;
            while i < n
                invariant
                    n == self.tabs@.len(),
                    n == self.slots@.len(),
                    n == old(self).tabs@.len(),
                    n == old(self).slots@.len(),
                    i <= n,
                    self.active == old(self).active,
                    forall|j: int|
                        0 <= j < i && j != self.active ==> self.tabs@[j]@ == suspended_tab(
                            old(self).tabs@[j]@,
                        ) && self.slots@[j] is None,
                    forall|j: int|
                        (i <= j < n || j == self.active) && 0 <= j < n ==> self.tabs@[j] == old(
                            self,
                        ).tabs@[j] && self.slots@[j] == old(self).slots@[j],
                    cmds@ == suspend_commands(old(self).slots@, self.active as int, i as int),
                decreases n - i,
            {
                if i != self.active {
                    if self.slots[i].is_some() {
                        cmds.push(SurfaceCommand { action: SurfaceAction::Suspend, index: i });
                    }
                    self.slots[i] = None;
                    self.tabs[i].suspended = true;
                }
                i += 1;
            }
            assert(self@.tabs =~= old(self)@.background_suspended().tabs);
            assert(self@.slots =~= old(self)@.background_suspended().slots);
        }
        cmds.push(SurfaceCommand { action: SurfaceAction::Hide, index: self.active });
        self.tabs.push(Tab::new(HOME_URL));
        self.slots.push(Some(Surface { bound_index: n }));
        self.active = n;
        cmds.push(SurfaceCommand { action: SurfaceAction::CreateHome, index: n });
        cmds.push(SurfaceCommand { action: SurfaceAction::Show, index: n });
        proof {
            assert(self@.tabs =~= old(self)@.opened().tabs);
            assert(self@.slots =~= old(self)@.opened().slots);
            lemma_open_bounds_live_background(old(self)@);
        }
        cmds
    }

    /// Makes the tab at `i` active, waking it first if it is suspended. An
    /// index out of range changes nothing.
    pub fn switch_tab(&mut self, i: usize) -> (cmds: Vec<SurfaceCommand>)
        requires
            old(self)@.wf(),
        ensures
            final(self)@ == old(self)@.switched(i as int),
            final(self)@.wf(),
            cmds@ == old(self)@.switch_commands(i as int),
    {
        let mut cmds: Vec<SurfaceCommand> = Vec::new();
        if i >= self.tabs.len() {
            return cmds;
        }
        cmds.push(SurfaceCommand { action: SurfaceAction::Hide, index: self.active });
        let mut woke = self.wake(i);
        cmds.append(&mut woke);
        self.active = i;
        cmds.push(SurfaceCommand { action: SurfaceAction::Show, index: i });
        assert(cmds@ =~= old(self)@.switch_commands(i as int));
        cmds
    }

    /// Closes the tab at `i`.
    pub fn close_tab(&mut self, i: usize) -> (cmds: Vec<SurfaceCommand>)
        requires
            old(self)@.wf(),
        ensures
            final(self)@ == old(self)@.closed(i as int),
            final(self)@.wf(),
            cmds@ == old(self)@.close_commands(i as int),
    {
        let mut cmds: Vec<SurfaceCommand> = Vec::new();
        let n = self.tabs.len();
        if i >= n {
            return cmds;
        }
        if n == 1 {
            self.tabs[0] = Tab::new(HOME_URL);
            self.active = 0;
            cmds.push(SurfaceCommand { action: SurfaceAction::LoadHome, index: 0 });
            assert(self@.tabs =~= seq![fresh_tab(HOME_URL@)]);
            assert(cmds@ =~= old(self)@.close_commands(i as int));
            return cmds;
        }
        self.tabs.remove(i);
        self.slots.remove(i);
        if self.active >= n - 1 {
            self.active = n - 2;
        } else if self.active > i {
            self.active = self.active - 1;
        }
        cmds.push(SurfaceCommand { action: SurfaceAction::Remove, index: i });
        let a = self.active;
        let ghost rest = RegistryState {
            tabs: old(self)@.tabs.remove(i as int),
            slots: old(self)@.slots.remove(i as int),
            active: a as int,
        };
        assert(self@.tabs =~= rest.tabs);
        if self.tabs[a].suspended {
            self.slots[a] = Some(Surface { bound_index: a });
            self.tabs[a].suspended = false;
            cmds.push(SurfaceCommand { action: SurfaceAction::CreateUrl, index: a });
            assert(self@.tabs =~= rest.woken(a as int).tabs);
        }
        cmds.push(SurfaceCommand { action: SurfaceAction::Show, index: a });
        assert(cmds@ =~= old(self)@.close_commands(i as int));
        cmds
    }

    /// Brings the active tab to `url`.
    pub fn navigate(&mut self, url: &str) -> (cmds: Vec<SurfaceCommand>)
        requires
            old(self)@.wf(),
        ensures
            final(self)@ == old(self)@.navigated(url@),
            final(self)@.wf(),
            cmds@ == old(self)@.navigate_commands(url@),
    {
        let mut cmds: Vec<SurfaceCommand> = Vec::new();
        let a = self.active;
        self.tabs[a].url = String::from_str(url);
        self.tabs[a].favicon = None;
        assert(self@.tabs =~= old(self)@.navigated(url@).tabs);
        if self.slots[a].is_some() {
            let action = if starts_with(url, INTERNAL_SCHEME) {
                if same_text(url, HOME_URL) {
                    SurfaceAction::LoadHome
                } else {
                    SurfaceAction::LoadHistory
                }
            } else {
                SurfaceAction::LoadUrl
            };
            cmds.push(SurfaceCommand { action, index: a });
            assert(cmds@ =~= old(self)@.navigate_commands(url@));
        }
        cmds
    }

    /// Notes that the surface of the tab at `i` is now at `url`, and records
    /// the visit in `history` under the tab's title. Returns whether the
    /// history grew. An index out of range changes nothing.
    pub fn record_navigation(
        &mut self,
        history: &mut Vec<HistoryEntry>,
        i: usize,
        url: &str,
        timestamp: u64,
    ) -> (grew: bool)
        requires
            old(self)@.wf(),
        ensures
            final(self)@ == old(self)@.with_url(i as int, url@),
            final(self)@.wf(),
            i < old(self)@.tabs.len() ==> entry_views(final(history)@) == appended(
                entry_views(old(history)@),
                url@,
                old(self)@.tabs[i as int].title,
                timestamp,
            ),
            i >= old(self)@.tabs.len() ==> final(history)@ == old(history)@,
            grew == (final(history)@.len() == old(history)@.len() + 1),
    {
        if i >= self.tabs.len() {
            return false;
        }
        self.tabs[i].url = String::from_str(url);
        assert(self@.tabs =~= old(self)@.with_url(i as int, url@).tabs);
        append_history(history, url, self.tabs[i].title.as_str(), timestamp)
    }

    /// Notes the favicon that the surface of the tab at `i` reported. An index
    /// out of range changes nothing.
    pub fn record_favicon(&mut self, i: usize, favicon: &str)
        requires
            old(self)@.wf(),
        ensures
            final(self)@ == old(self)@.with_favicon(i as int, favicon@),
            final(self)@.wf(),
    {
        if i < self.tabs.len() {
            self.tabs[i].favicon = Some(String::from_str(favicon));
            assert(self@.tabs =~= old(self)@.with_favicon(i as int, favicon@).tabs);
        }
    }

    /// Notes the title that the surface of the tab at `i` reported. Where
    /// that tab is the active one, the visit to its address is recorded in
    /// `history` under the new title first. Returns whether the history grew.
    /// An index out of range changes nothing.
    pub fn record_title(
        &mut self,
        history: &mut Vec<HistoryEntry>,
        i: usize,
        title: &str,
        timestamp: u64,
    ) -> (grew: bool)
        requires
            old(self)@.wf(),
        ensures
            final(self)@ == old(self)@.with_title(i as int, title@),
            final(self)@.wf(),
            i == old(self)@.active ==> entry_views(final(history)@) == appended(
                entry_views(old(history)@),
                old(self)@.tabs[i as int].url,
                title@,
                timestamp,
            ),
            i != old(self)@.active ==> final(history)@ == old(history)@,
            grew == (final(history)@.len() == old(history)@.len() + 1),
    {
        if i >= self.tabs.len() {
            return false;
        }
        let mut grew = false;
        if i == self.active {
            grew = append_history(history, self.tabs[i].url.as_str(), title, timestamp);
        }
        self.tabs[i].title = String::from_str(title);
        assert(self@.tabs =~= old(self)@.with_title(i as int, title@).tabs);
        grew
    }

    /// Opens a tab on the history page and makes it active.
    pub fn show_history(&mut self) -> (cmds: Vec<SurfaceCommand>)
        requires
            old(self)@.wf(),
        ensures
            final(self)@ == old(self)@.with_history_tab(),
            final(self)@.wf(),
            cmds@ == old(self)@.history_commands(),
    {
        let n = self.tabs.len();
        let mut cmds: Vec<SurfaceCommand> = Vec::new();
        cmds.push(SurfaceCommand { action: SurfaceAction::Hide, index: self.active });
        self.tabs.push(Tab::history());
        self.slots.push(Some(Surface { bound_index: n }));
        self.active = n;
        cmds.push(SurfaceCommand { action: SurfaceAction::CreateHistory, index: n });
        cmds.push(SurfaceCommand { action: SurfaceAction::Show, index: n });
        assert(self@.tabs =~= old(self)@.with_history_tab().tabs);
        assert(cmds@ =~= old(self)@.history_commands());
        cmds
    }

    /// The session that is persisted for this registry.
    pub fn session(&self) -> (s: Session)
        ensures
            s@ == self@.snapshot(),
    {
        save_session(&self.tabs, self.active)
    }
}

/// Whether the tab at `i` has no surface when the shell starts: the active
/// tab and the first `SUSPEND_THRESHOLD` tabs have one.
pub open spec fn starts_suspended(i: int, active: int) -> bool {
    i != active && i >= SUSPEND_THRESHOLD
}

/// The registry that the shell starts with from a session that lists a tab
/// and names one of them as active.
pub open spec fn started(s: SessionView) -> RegistryState {
    RegistryState {
        tabs: Seq::new(
            s.tabs.len(),
            |i: int| TabView { suspended: starts_suspended(i, s.active), ..fresh_tab(s.tabs[i]) },
        ),
        slots: Seq::new(
            s.tabs.len(),
            |i: int|
                if starts_suspended(i, s.active) {
                    None
                } else {
                    Some(Surface { bound_index: i as usize })
                },
        ),
        active: s.active,
    }
}

/// The surfaces that are constructed for the first `k` tabs when the shell
/// starts, in index order: the active one shown, on the start page if its
/// address is one of the shell's own; the others hidden.
pub open spec fn start_commands(s: SessionView, k: int) -> Seq<SurfaceCommand>
    decreases k,
{
    if k <= 0 {
        Seq::empty()
    } else {
        let i = k - 1;
        let rest = start_commands(s, i);
        if i == s.active {
            rest.push(
                command(
                    if INTERNAL_SCHEME@.is_prefix_of(s.tabs[i]) {
                        SurfaceAction::CreateHome
                    } else {
                        SurfaceAction::CreateUrl
                    },
                    i,
                ),
            ).push(command(SurfaceAction::Show, i))
        } else if i < SUSPEND_THRESHOLD {
            rest.push(command(SurfaceAction::CreateUrl, i)).push(command(SurfaceAction::Hide, i))
        } else {
            rest
        }
    }
}

impl TabRegistry {
    /// The registry that the shell starts with, and the surfaces to
    /// construct for it. A session without tabs gives a single start page;
    /// an active index out of range is clamped.
    pub fn from_session(session: &Session) -> (r: (TabRegistry, Vec<SurfaceCommand>))
        ensures
            r.0@ == started(restored_session(Some(session@))),
            r.0@.wf(),
            r.1@ == start_commands(
                restored_session(Some(session@)),
                restored_session(Some(session@)).tabs.len() as int,
            ),
    {
        let ghost target = restored_session(Some(session@));
        let mut tabs: Vec<Tab> = Vec::new();
        let mut slots: Vec<Option<Surface>> = Vec::new();
        let mut cmds: Vec<SurfaceCommand> = Vec::new();
        let n = session.tabs.len();
        if n == 0 {
            tabs.push(Tab::new(HOME_URL));
            slots.push(Some(Surface { bound_index: 0 }));
            cmds.push(SurfaceCommand { action: SurfaceAction::CreateHome, index: 0 });
            cmds.push(SurfaceCommand { action: SurfaceAction::Show, index: 0 });
            let r = TabRegistry { tabs, slots, active: 0 };
            proof {
                assert(target.tabs =~= seq![HOME_URL@]);
                assert(INTERNAL_SCHEME@.is_prefix_of(HOME_URL@)) by {
                    reveal_strlit("vccat:");
                    reveal_strlit("vccat:home");
                    assert(INTERNAL_SCHEME@ =~= HOME_URL@.subrange(0, 6));
                }
                assert(r@.tabs =~= started(target).tabs);
                assert(r@.slots =~= started(target).slots);
                assert(start_commands(target, 0) =~= Seq::empty());
                assert(cmds@ =~= start_commands(target, 1));
            }
            return (r, cmds);
        }
        let active: usize = if session.active >= n { n - 1 } else { session.active };
        assert(target.tabs == session@.tabs);
        assert(target.active == active);
        let mut i: usize = 0;
        while i < n
            invariant
                n == session.tabs@.len(),
                target.tabs == session@.tabs,
                target.active == active,
                active < n,
                i <= n,
                tabs@.len() == i,
                slots@.len() == i,
                forall|j: int| 0 <= j < i ==> tabs@[j]@ == started(target).tabs[j],
                forall|j: int| 0 <= j < i ==> slots@[j] == started(target).slots[j],
                cmds@ == start_commands(target, i as int),
            decreases n - i,
        {
            let url = session.tabs[i].as_str();
            let mut tab = Tab::new(url);
            assert(url@ == target.tabs[i as int]);
            if i == active {
                let action = if starts_with(url, INTERNAL_SCHEME) {
                    SurfaceAction::CreateHome
                } else {
                    SurfaceAction::CreateUrl
                };
                slots.push(Some(Surface { bound_index: i }));
                cmds.push(SurfaceCommand { action, index: i });
                cmds.push(SurfaceCommand { action: SurfaceAction::Show, index: i });
            } else if i < SUSPEND_THRESHOLD {
                slots.push(Some(Surface { bound_index: i }));
                cmds.push(SurfaceCommand { action: SurfaceAction::CreateUrl, index: i });
                cmds.push(SurfaceCommand { action: SurfaceAction::Hide, index: i });
            } else {
                slots.push(None);
                tab.suspended = true;
            }
            tabs.push(tab);
            i += 1;
        }
        let r = TabRegistry { tabs, slots, active };
        assert(r@.tabs =~= started(target).tabs);
        assert(r@.slots =~= started(target).slots);
        (r, cmds)
    }
}

/// A session saved from a registry and restored gives back the same
/// addresses and the same active index, and a registry started from it lists
/// the same addresses with the same tab active.
pub proof fn lemma_session_round_trip(r: RegistryState)
    requires
        r.wf(),
    ensures
        restored_session(Some(r.snapshot())) == r.snapshot(),
        started(restored_session(Some(r.snapshot()))).snapshot() == r.snapshot(),
        started(restored_session(Some(r.snapshot()))).wf(),
{
    let s = r.snapshot();
    assert(started(s).snapshot().tabs =~= s.tabs);
}

/// In a registry that meets its invariant the active index names a tab,
/// there are as many slots as tabs and at least one, and a slot is empty
/// exactly where its tab is suspended.
pub proof fn lemma_invariant(r: RegistryState, i: int)
    requires
        r.wf(),
        0 <= i < r.tabs.len(),
    ensures
        0 <= r.active < r.tabs.len(),
        r.tabs.len() == r.slots.len(),
        r.slots.len() >= 1,
        r.slots[i] is None <==> r.tabs[i].suspended,
{
}

/// Where all of the first `k` tabs but the one at `keep` are suspended, at
/// most one of them counts as live.
pub proof fn lemma_one_live(tabs: Seq<TabView>, active: int, keep: int, k: int)
    requires
        0 <= k <= tabs.len(),
        forall|j: int| 0 <= j < k && j != keep ==> tabs[j].suspended,
    ensures
        live_others(tabs, active, k) <= 1,
        k <= keep ==> live_others(tabs, active, k) == 0,
    decreases k,
{
    if k > 0 {
        lemma_one_live(tabs, active, keep, k - 1);
    }
}

/// No more tabs are live among the first `k` than there are.
pub proof fn lemma_live_at_most(tabs: Seq<TabView>, active: int, k: int)
    requires
        0 <= k <= tabs.len(),
    ensures
        live_others(tabs, active, k) <= k,
    decreases k,
{
    if k > 0 {
        lemma_live_at_most(tabs, active, k - 1);
    }
}

/// After a tab has been opened, fewer than `SUSPEND_THRESHOLD` tabs other
/// than the active one are live.
pub proof fn lemma_open_bounds_live_background(s: RegistryState)
    requires
        s.wf(),
    ensures
        s.opened().live_background() <= SUSPEND_THRESHOLD - 1,
{
    let n = s.tabs.len() as int;
    let t = s.opened();
    assert(t.tabs.len() == n + 1);
    assert(t.active == n);
    if n >= SUSPEND_THRESHOLD {
        lemma_one_live(t.tabs, n, s.active, n);
    } else {
        lemma_live_at_most(t.tabs, n, n);
    }
}

} // verus!
