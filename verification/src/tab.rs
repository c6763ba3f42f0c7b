//! One logical browsing unit.

use vstd::prelude::*;
use vstd::string::*;

verus! {

/// The address of the start page.
pub const HOME_URL: &'static str = "vccat:home";

/// The address of the history page.
pub const HISTORY_URL: &'static str = "vccat:history";

/// The title that the history page's tab carries.
pub const HISTORY_TITLE: &'static str = "Historia";

/// The scheme of the pages that the shell renders itself.
pub const INTERNAL_SCHEME: &'static str = "vccat:";

pub struct Tab {
    pub url: String,
    pub title: String,
    pub favicon: Option<String>,
    pub suspended: bool,
}

/// What a `Tab` holds, as mathematical values.
pub struct TabView {
    pub url: Seq<char>,
    pub title: Seq<char>,
    pub favicon: Option<Seq<char>>,
    pub suspended: bool,
}

impl View for Tab {
    type V = TabView;

    open spec fn view(&self) -> TabView {
        TabView {
            url: self.url@,
            title: self.title@,
            favicon: match self.favicon {
                Some(f) => Some(f@),
                None => None,
            },
            suspended: self.suspended,
        }
    }
}

/// A live tab at `url` with no title and no favicon yet.
pub open spec fn fresh_tab(url: Seq<char>) -> TabView {
    TabView { url, title: Seq::empty(), favicon: None, suspended: false }
}

/// The tab that shows the history page.
pub open spec fn history_tab() -> TabView {
    TabView { url: HISTORY_URL@, title: HISTORY_TITLE@, favicon: None, suspended: false }
}

/// The views of a sequence of tabs, index by index.
pub open spec fn tab_views(tabs: Seq<Tab>) -> Seq<TabView> {
    Seq::new(tabs.len(), |i: int| tabs[i]@)
}

impl Tab {
    pub fn new(url: &str) -> (t: Tab)
        ensures
            t@ == fresh_tab(url@),
    {
        Tab { url: String::from_str(url), title: String::new(), favicon: None, suspended: false }
    }

    /// The tab that shows the history page.
    pub fn history() -> (t: Tab)
        ensures
            t@ == history_tab(),
    {
        Tab {
            url: String::from_str(HISTORY_URL),
            title: String::from_str(HISTORY_TITLE),
            favicon: None,
            suspended: false,
        }
    }
}

} // verus!
