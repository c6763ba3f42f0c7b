//! The events that the dispatcher consumes, and the messages of the
//! surfaces that are read into them.

use crate::text::index_value;
use crate::text::parse_index;
use crate::text::same_text;
use crate::text::starts_with;
use crate::text::strip_prefix;
use crate::url::normalize_url;
use crate::url::normalized;
use vstd::prelude::*;
use vstd::string::*;

verus! {

pub const MSG_NEW: &'static str = "new";

pub const MSG_HISTORY: &'static str = "history";

pub const MSG_CLOSE: &'static str = "close:";

pub const MSG_SWITCH: &'static str = "switch:";

pub const MSG_NAV: &'static str = "nav:";

pub const MSG_BACK: &'static str = "back";

pub const MSG_FWD: &'static str = "fwd";

pub const MSG_RELOAD: &'static str = "reload";

pub const MSG_APPLY_UPDATE: &'static str = "apply-update";

pub const MSG_URL: &'static str = "url:";

pub const MSG_FAVICON: &'static str = "favicon:";

pub const MSG_TITLE: &'static str = "title:";

/// What the addresses begin with that a link of the history page may open.
pub const LINK_SCHEME: &'static str = "http";

#[derive(Debug, Clone)]
pub enum UserEvent {
    Navigate(String),
    GoBack,
    GoForward,
    Reload,
    NewTab,
    CloseTab(usize),
    SwitchTab(usize),
    ShowHistory,
    PageUrlChanged(usize, String),
    PageFaviconChanged(usize, String),
    PageTitleChanged(usize, String),
    UpdateAvailable(String, String),
    ApplyUpdate,
}

/// What a `UserEvent` holds, as mathematical values.
pub enum EventView {
    Navigate(Seq<char>),
    GoBack,
    GoForward,
    Reload,
    NewTab,
    CloseTab(usize),
    SwitchTab(usize),
    ShowHistory,
    PageUrlChanged(usize, Seq<char>),
    PageFaviconChanged(usize, Seq<char>),
    PageTitleChanged(usize, Seq<char>),
    UpdateAvailable(Seq<char>, Seq<char>),
    ApplyUpdate,
}

impl View for UserEvent {
    type V = EventView;

    open spec fn view(&self) -> EventView {
        match self {
            UserEvent::Navigate(url) => EventView::Navigate(url@),
            UserEvent::GoBack => EventView::GoBack,
            UserEvent::GoForward => EventView::GoForward,
            UserEvent::Reload => EventView::Reload,
            UserEvent::NewTab => EventView::NewTab,
            UserEvent::CloseTab(i) => EventView::CloseTab(*i),
            UserEvent::SwitchTab(i) => EventView::SwitchTab(*i),
            UserEvent::ShowHistory => EventView::ShowHistory,
            UserEvent::PageUrlChanged(i, url) => EventView::PageUrlChanged(*i, url@),
            UserEvent::PageFaviconChanged(i, url) => EventView::PageFaviconChanged(*i, url@),
            UserEvent::PageTitleChanged(i, title) => EventView::PageTitleChanged(*i, title@),
            UserEvent::UpdateAvailable(version, url) => EventView::UpdateAvailable(version@, url@),
            UserEvent::ApplyUpdate => EventView::ApplyUpdate,
        }
    }
}

pub open spec fn event_view(e: Option<UserEvent>) -> Option<EventView> {
    match e {
        Some(e) => Some(e@),
        None => None,
    }
}

/// The text of `m` behind the prefix `p`.
pub open spec fn behind(m: Seq<char>, p: Seq<char>) -> Seq<char> {
    m.skip(p.len() as int)
}

/// The event that a message of the sidebar stands for: a new tab, the
/// history, or the closing of or the switch to the tab with an index.
pub open spec fn sidebar_event(m: Seq<char>) -> Option<EventView> {
    if m == MSG_NEW@ {
        Some(EventView::NewTab)
    } else if m == MSG_HISTORY@ {
        Some(EventView::ShowHistory)
    } else if MSG_CLOSE@.is_prefix_of(m) && index_value(behind(m, MSG_CLOSE@)) is Some {
        Some(EventView::CloseTab(index_value(behind(m, MSG_CLOSE@))->0))
    } else if MSG_SWITCH@.is_prefix_of(m) && index_value(behind(m, MSG_SWITCH@)) is Some {
        Some(EventView::SwitchTab(index_value(behind(m, MSG_SWITCH@))->0))
    } else {
        None
    }
}

/// The event that a message of the toolbar stands for: a navigation to what
/// was typed, made into an address, or one of the buttons.
pub open spec fn toolbar_event(m: Seq<char>) -> Option<EventView> {
    if MSG_NAV@.is_prefix_of(m) {
        Some(EventView::Navigate(normalized(behind(m, MSG_NAV@))))
    } else if m == MSG_BACK@ {
        Some(EventView::GoBack)
    } else if m == MSG_FWD@ {
        Some(EventView::GoForward)
    } else if m == MSG_RELOAD@ {
        Some(EventView::Reload)
    } else if m == MSG_APPLY_UPDATE@ {
        Some(EventView::ApplyUpdate)
    } else {
        None
    }
}

/// The event that a message of the page surface bound to `index` stands
/// for: its address, its favicon or its title.
pub open spec fn page_event(index: usize, m: Seq<char>) -> Option<EventView> {
    if MSG_URL@.is_prefix_of(m) {
        Some(EventView::PageUrlChanged(index, behind(m, MSG_URL@)))
    } else if MSG_FAVICON@.is_prefix_of(m) {
        Some(EventView::PageFaviconChanged(index, behind(m, MSG_FAVICON@)))
    } else if MSG_TITLE@.is_prefix_of(m) {
        Some(EventView::PageTitleChanged(index, behind(m, MSG_TITLE@)))
    } else {
        None
    }
}

/// Reads a message of the sidebar. A message that is not known gives `None`.
pub fn parse_sidebar_message(msg: &str) -> (e: Option<UserEvent>)
    ensures
        event_view(e) == sidebar_event(msg@),
{
    if same_text(msg, MSG_NEW) {
        return Some(UserEvent::NewTab);
    }
    if same_text(msg, MSG_HISTORY) {
        return Some(UserEvent::ShowHistory);
    }
    if let Some(rest) = strip_prefix(msg, MSG_CLOSE) {
        if let Some(i) = parse_index(rest.as_str()) {
            return Some(UserEvent::CloseTab(i));
        }
    }
    if let Some(rest) = strip_prefix(msg, MSG_SWITCH) {
        if let Some(i) = parse_index(rest.as_str()) {
            return Some(UserEvent::SwitchTab(i));
        }
    }
    None
}

/// Reads a message of the toolbar. A message that is not known gives `None`.
pub fn parse_toolbar_message(msg: &str) -> (e: Option<UserEvent>)
    ensures
        event_view(e) == toolbar_event(msg@),
{
    if let Some(rest) = strip_prefix(msg, MSG_NAV) {
        return Some(UserEvent::Navigate(normalize_url(rest.as_str())));
    }
    if same_text(msg, MSG_BACK) {
        Some(UserEvent::GoBack)
    } else if same_text(msg, MSG_FWD) {
        Some(UserEvent::GoForward)
    } else if same_text(msg, MSG_RELOAD) {
        Some(UserEvent::Reload)
    } else if same_text(msg, MSG_APPLY_UPDATE) {
        Some(UserEvent::ApplyUpdate)
    } else {
        None
    }
}

/// Reads a message of the page surface that is bound to the tab index
/// `index`. A message that is not known gives `None`.
pub fn parse_page_message(index: usize, msg: &str) -> (e: Option<UserEvent>)
    ensures
        event_view(e) == page_event(index, msg@),
{
    if let Some(rest) = strip_prefix(msg, MSG_URL) {
        return Some(UserEvent::PageUrlChanged(index, rest));
    }
    if let Some(rest) = strip_prefix(msg, MSG_FAVICON) {
        return Some(UserEvent::PageFaviconChanged(index, rest));
    }
    if let Some(rest) = strip_prefix(msg, MSG_TITLE) {
        return Some(UserEvent::PageTitleChanged(index, rest));
    }
    None
}

/// What follows when a link of the history page is opened: an address that
/// begins with `http` is taken over by the shell, as a navigation of the
/// active tab, and the surface does not follow the link itself.
pub fn history_link_event(url: &str) -> (e: Option<UserEvent>)
    ensures
        event_view(e) == (if LINK_SCHEME@.is_prefix_of(url@) {
            Some(EventView::Navigate(url@))
        } else {
            None
        }),
{
    if starts_with(url, LINK_SCHEME) {
        Some(UserEvent::Navigate(String::from_str(url)))
    } else {
        None
    }
}

} // verus!
