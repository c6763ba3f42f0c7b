//! The event dispatcher: it owns the registry, the history log and the
//! pending update, applies one event at a time, and says what has to be
//! done outside: to the page surfaces, to the two surfaces of the chrome,
//! and to the files.

use crate::chrome::UiProjection;
use crate::chrome::pending_script;
use crate::chrome::pending_update_script;
use crate::chrome::projected;
use crate::message::EventView;
use crate::message::UserEvent;
use crate::registry::RegistryState;
use crate::registry::SurfaceAction;
use crate::registry::SurfaceCommand;
use crate::registry::TabRegistry;
use crate::registry::command;
use crate::registry::start_commands;
use crate::registry::started;
use crate::storage::HistoryEntry;
use crate::storage::HistoryEntryView;
use crate::storage::Session;
use crate::storage::SessionView;
use crate::storage::appended;
use crate::storage::entry_views;
use crate::storage::restored_session;
use crate::text::starts_with;
use crate::updater::UpdateInfo;
use crate::updater::UpdateInfoView;
use crate::updater::update_view;
use crate::url::DATA_SCHEME;
use vstd::prelude::*;
use vstd::string::*;

verus! {

pub struct Shell {
    pub registry: TabRegistry,
    pub history: Vec<HistoryEntry>,
    /// The newer release that the update notifier has reported, if any.
    pub pending_update: Option<UpdateInfo>,
    /// What the sidebar and the toolbar were last told.
    pub ui: UiProjection,
}

/// What one event leaves to be done outside the shell's own state. The
/// scripts in `Shell::ui` are pushed to the sidebar and the toolbar after
/// every event.
pub struct Effects {
    /// What to do to the page surfaces, in order.
    pub commands: Vec<SurfaceCommand>,
    /// The session to persist.
    pub session: Session,
    /// Whether the history log grew and has to be saved.
    pub history_grew: bool,
    /// A script for the toolbar that announces a newer release.
    pub notice: Option<String>,
    /// Whether the pending update is to be downloaded and installed.
    pub apply_update: bool,
}

pub open spec fn text_view(s: Option<String>) -> Option<Seq<char>> {
    match s {
        Some(s) => Some(s@),
        None => None,
    }
}

/// The registry after an event.
pub open spec fn stepped(r: RegistryState, e: EventView) -> RegistryState {
    match e {
        EventView::Navigate(url) => r.navigated(url),
        EventView::NewTab => r.opened(),
        EventView::CloseTab(i) => r.closed(i as int),
        EventView::SwitchTab(i) => r.switched(i as int),
        EventView::ShowHistory => r.with_history_tab(),
        EventView::PageUrlChanged(i, url) => if DATA_SCHEME@.is_prefix_of(url) {
            r
        } else {
            r.with_url(i as int, url)
        },
        EventView::PageFaviconChanged(i, url) => r.with_favicon(i as int, url),
        EventView::PageTitleChanged(i, title) => r.with_title(i as int, title),
        _ => r,
    }
}

/// One action on the active surface, if the active tab has one.
pub open spec fn active_command(r: RegistryState, action: SurfaceAction) -> Seq<SurfaceCommand> {
    if r.slots[r.active] is Some {
        seq![command(action, r.active)]
    } else {
        Seq::empty()
    }
}

/// What an event asks of the page surfaces.
pub open spec fn step_commands(r: RegistryState, e: EventView) -> Seq<SurfaceCommand> {
    match e {
        EventView::Navigate(url) => r.navigate_commands(url),
        EventView::GoBack => active_command(r, SurfaceAction::Back),
        EventView::GoForward => active_command(r, SurfaceAction::Forward),
        EventView::Reload => active_command(r, SurfaceAction::Reload),
        EventView::NewTab => r.open_commands(),
        EventView::CloseTab(i) => r.close_commands(i as int),
        EventView::SwitchTab(i) => r.switch_commands(i as int),
        EventView::ShowHistory => r.history_commands(),
        _ => Seq::empty(),
    }
}

/// The history log after an event: a new address of a tab is recorded
/// under the tab's title, unless it is a `data:` address, and a new title of
/// the active tab is recorded with the tab's address.
pub open spec fn step_history(
    h: Seq<HistoryEntryView>,
    r: RegistryState,
    e: EventView,
    timestamp: u64,
) -> Seq<HistoryEntryView> {
    match e {
        EventView::PageUrlChanged(i, url) => if !DATA_SCHEME@.is_prefix_of(url) && i
            < r.tabs.len() {
            appended(h, url, r.tabs[i as int].title, timestamp)
        } else {
            h
        },
        EventView::PageTitleChanged(i, title) => if i == r.active {
            appended(h, r.tabs[i as int].url, title, timestamp)
        } else {
            h
        },
        _ => h,
    }
}

/// The pending update after an event: the one that was reported last.
pub open spec fn pending_after(p: Option<UpdateInfoView>, e: EventView) -> Option<UpdateInfoView> {
    match e {
        EventView::UpdateAvailable(version, url) => Some(
            UpdateInfoView { version, download_url: url },
        ),
        _ => p,
    }
}

/// The script that tells the toolbar of the release that an event reports.
pub open spec fn notice_for(e: EventView) -> Option<Seq<char>> {
    match e {
        EventView::UpdateAvailable(version, url) => Some(pending_script(version, url)),
        _ => None,
    }
}

impl Shell {
    pub open spec fn wf(&self) -> bool {
        self.registry@.wf()
    }

    /// The shell as it starts from a restored session and history, and the
    /// page surfaces to construct for it.
    pub fn new(session: &Session, history: Vec<HistoryEntry>) -> (r: (Shell, Vec<SurfaceCommand>))
        ensures
            r.0.wf(),
            r.0.registry@ == started(restored_session(Some(session@))),
            r.0.history == history,
            r.0.pending_update is None,
            r.0.ui@ == projected(r.0.registry@),
            r.1@ == start_commands(
                restored_session(Some(session@)),
                restored_session(Some(session@)).tabs.len() as int,
            ),
    {
        let (registry, cmds) = TabRegistry::from_session(session);
        let mut ui = UiProjection::new();
        ui.resync(&registry);
        (Shell { registry, history, pending_update: None, ui }, cmds)
    }

    fn active_surface_command(&self, action: SurfaceAction) -> (cmds: Vec<SurfaceCommand>)
        requires
            self.wf(),
        ensures
            cmds@ == active_command(self.registry@, action),
    {
        let mut cmds: Vec<SurfaceCommand> = Vec::new();
        if self.registry.slots[self.registry.active].is_some() {
            cmds.push(SurfaceCommand { action, index: self.registry.active });
            assert(cmds@ =~= active_command(self.registry@, action));
        }
        cmds
    }

    /// Applies one event, at the time `timestamp` (seconds since the epoch),
    /// then pushes the state to the sidebar and the toolbar and takes the
    /// session to persist.
    pub fn dispatch(&mut self, event: UserEvent, timestamp: u64) -> (fx: Effects)
        requires
            old(self).wf(),
        ensures
            final(self).wf(),
            final(self).registry@ == stepped(old(self).registry@, event@),
            fx.commands@ == step_commands(old(self).registry@, event@),
            entry_views(final(self).history@) == step_history(
                entry_views(old(self).history@),
                old(self).registry@,
                event@,
                timestamp,
            ),
            fx.history_grew == (final(self).history@.len() == old(self).history@.len() + 1),
            final(self).ui@ == projected(final(self).registry@),
            fx.session@ == final(self).registry@.snapshot(),
            update_view(final(self).pending_update) == pending_after(
                update_view(old(self).pending_update),
                event@,
            ),
            text_view(fx.notice) == notice_for(event@),
            fx.apply_update == (event@ is ApplyUpdate && old(self).pending_update is Some),
    {
        let mut commands: Vec<SurfaceCommand> = Vec::new();
        let mut history_grew = false;
        let mut notice: Option<String> = None;
        let mut apply_update = false;
        match event {
            UserEvent::Navigate(url) => {
                commands = self.registry.navigate(url.as_str());
            },
            UserEvent::GoBack => {
                commands = self.active_surface_command(SurfaceAction::Back);
            },
            UserEvent::GoForward => {
                commands = self.active_surface_command(SurfaceAction::Forward);
            },
            UserEvent::Reload => {
                commands = self.active_surface_command(SurfaceAction::Reload);
            },
            UserEvent::NewTab => {
                commands = self.registry.open_tab();
            },
            UserEvent::CloseTab(i) => {
                commands = self.registry.close_tab(i);
            },
            UserEvent::SwitchTab(i) => {
                commands = self.registry.switch_tab(i);
            },
            UserEvent::ShowHistory => {
                commands = self.registry.show_history();
            },
            UserEvent::PageUrlChanged(i, url) => {
                if !starts_with(url.as_str(), DATA_SCHEME) {
                    history_grew =
                    self.registry.record_navigation(&mut self.history, i, url.as_str(), timestamp);
                }
            },
            UserEvent::PageFaviconChanged(i, url) => {
                self.registry.record_favicon(i, url.as_str());
            },
            UserEvent::PageTitleChanged(i, title) => {
                history_grew =
                self.registry.record_title(&mut self.history, i, title.as_str(), timestamp);
            },
            UserEvent::UpdateAvailable(version, url) => {
                notice = Some(pending_update_script(version.as_str(), url.as_str()));
                self.pending_update = Some(UpdateInfo { version, download_url: url });
            },
            UserEvent::ApplyUpdate => {
                apply_update = self.pending_update.is_some();
            },
        }
        self.ui.resync(&self.registry);
        let session = self.registry.session();
        Effects { commands, session, history_grew, notice, apply_update }
    }

    /// The session to persist when the window is closed.
    pub fn shutdown(&self) -> (s: Session)
        ensures
            s@ == self.registry@.snapshot(),
    {
        self.registry.session()
    }
}

/// Every event leaves the registry's invariant in place.
pub proof fn lemma_step_keeps_invariant(r: RegistryState, e: EventView)
    requires
        r.wf(),
    ensures
        stepped(r, e).wf(),
{
}

/// The registry that the shell starts with meets the invariant, whatever
/// was read from the session file.
pub proof fn lemma_start_meets_invariant(parsed: Option<SessionView>)
    requires
        parsed is Some ==> parsed->0.active >= 0,
    ensures
        started(restored_session(parsed)).wf(),
{
}

} // verus!
