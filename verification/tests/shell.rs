use vccat_browser::chrome::sync_sidebar;
use vccat_browser::chrome::toolbar_set_url;
use vccat_browser::chrome::UiProjection;
use vccat_browser::message::UserEvent;
use vccat_browser::registry::SurfaceAction;
use vccat_browser::registry::SurfaceCommand;
use vccat_browser::registry::TabRegistry;
use vccat_browser::shell::Shell;
use vccat_browser::storage::HistoryEntry;
use vccat_browser::storage::Session;

fn shell(urls: &[&str], active: usize) -> Shell {
    let session = Session { tabs: urls.iter().map(|u| u.to_string()).collect(), active };
    Shell::new(&session, Vec::new()).0
}

fn cmd(action: SurfaceAction, index: usize) -> SurfaceCommand {
    SurfaceCommand { action, index }
}

fn in_sync(s: &Shell) -> bool {
    s.ui.sidebar == sync_sidebar(&s.registry.tabs, s.registry.active)
        && s.ui.toolbar == toolbar_set_url(&s.registry.tabs[s.registry.active].url)
}

#[test]
fn the_shell_starts_in_sync_with_its_session() {
    let session = Session { tabs: vec!["https://a.example/".to_string()], active: 0 };
    let history = vec![HistoryEntry { url: "u".to_string(), title: "t".to_string(), timestamp: 1 }];
    let (s, cmds) = Shell::new(&session, history);
    assert_eq!(cmds, vec![cmd(SurfaceAction::CreateUrl, 0), cmd(SurfaceAction::Show, 0)]);
    assert_eq!(s.history.len(), 1);
    assert!(s.pending_update.is_none());
    assert_eq!(s.ui.toolbar, "setUrl('https://a.example/');");
    assert!(in_sync(&s));
}

#[test]
fn every_event_resyncs_the_chrome_and_gives_the_session() {
    let mut s = shell(&["https://a.example/"], 0);
    let events = vec![
        UserEvent::NewTab,
        UserEvent::Navigate("https://b.example/".to_string()),
        UserEvent::PageTitleChanged(1, "B".to_string()),
        UserEvent::PageFaviconChanged(1, "https://b.example/favicon.ico".to_string()),
        UserEvent::ShowHistory,
        UserEvent::SwitchTab(0),
        UserEvent::GoBack,
        UserEvent::CloseTab(1),
        UserEvent::CloseTab(9),
        UserEvent::PageUrlChanged(0, "https://c.example/".to_string()),
        UserEvent::UpdateAvailable("v2".to_string(), "u".to_string()),
        UserEvent::ApplyUpdate,
    ];
    for (n, e) in events.into_iter().enumerate() {
        let fx = s.dispatch(e, n as u64);
        assert!(in_sync(&s));
        assert_eq!(fx.session.active, s.registry.active);
        let urls: Vec<String> = s.registry.tabs.iter().map(|t| t.url.clone()).collect();
        assert_eq!(fx.session.tabs, urls);
        assert_eq!(s.registry.tabs.len(), s.registry.slots.len());
        assert!(s.registry.active < s.registry.tabs.len());
    }
    assert_eq!(s.registry.tabs.len(), 2);
    assert_eq!(s.registry.tabs[0].url, "https://c.example/");
    assert_eq!(s.registry.tabs[1].url, "vccat:history");
}

#[test]
fn pushing_the_same_state_twice_shows_the_same() {
    let session = Session { tabs: vec!["a".to_string(), "b".to_string()], active: 1 };
    let registry = TabRegistry::from_session(&session).0;
    let mut ui = UiProjection::new();
    assert_eq!(ui.sidebar, "");
    ui.resync(&registry);
    let sidebar = ui.sidebar.clone();
    let toolbar = ui.toolbar.clone();
    ui.resync(&registry);
    assert_eq!(ui.sidebar, sidebar);
    assert_eq!(ui.toolbar, toolbar);
    assert_eq!(toolbar, "setUrl('b');");
    let mut s = shell(&["a", "b"], 1);
    s.dispatch(UserEvent::Reload, 0);
    assert_eq!(s.ui.sidebar, sidebar);
    assert_eq!(s.ui.toolbar, toolbar);
}

#[test]
fn the_page_buttons_act_on_the_active_surface() {
    let mut s = shell(&["a", "b"], 1);
    assert_eq!(s.dispatch(UserEvent::GoBack, 0).commands, vec![cmd(SurfaceAction::Back, 1)]);
    assert_eq!(s.dispatch(UserEvent::GoForward, 0).commands, vec![cmd(SurfaceAction::Forward, 1)]);
    assert_eq!(s.dispatch(UserEvent::Reload, 0).commands, vec![cmd(SurfaceAction::Reload, 1)]);
}

#[test]
fn a_new_address_of_a_page_is_recorded_under_its_title() {
    let mut s = shell(&["vccat:home"], 0);
    s.dispatch(UserEvent::PageTitleChanged(0, "Old".to_string()), 1);
    assert!(s.history.is_empty());
    let fx = s.dispatch(UserEvent::PageUrlChanged(0, "https://a.example/".to_string()), 2);
    assert!(fx.history_grew);
    assert!(fx.commands.is_empty());
    assert_eq!(s.registry.tabs[0].url, "https://a.example/");
    assert_eq!(s.history.len(), 1);
    assert_eq!(s.history[0].url, "https://a.example/");
    assert_eq!(s.history[0].title, "Old");
    assert_eq!(s.history[0].timestamp, 2);
    let again = s.dispatch(UserEvent::PageUrlChanged(0, "https://a.example/".to_string()), 3);
    assert!(!again.history_grew);
    assert_eq!(s.history.len(), 1);
}

#[test]
fn a_data_address_is_ignored() {
    let mut s = shell(&["https://a.example/"], 0);
    let fx = s.dispatch(UserEvent::PageUrlChanged(0, "data:text/html,x".to_string()), 1);
    assert!(!fx.history_grew);
    assert_eq!(s.registry.tabs[0].url, "https://a.example/");
    assert!(s.history.is_empty());
}

#[test]
fn a_title_is_recorded_for_the_active_tab_only() {
    let mut s = shell(&["https://a.example/", "https://b.example/"], 0);
    let other = s.dispatch(UserEvent::PageTitleChanged(1, "B".to_string()), 1);
    assert!(!other.history_grew);
    assert_eq!(s.registry.tabs[1].title, "B");
    let active = s.dispatch(UserEvent::PageTitleChanged(0, "A".to_string()), 2);
    assert!(active.history_grew);
    assert_eq!(s.registry.tabs[0].title, "A");
    assert_eq!(s.history.len(), 1);
    assert_eq!(s.history[0].url, "https://a.example/");
    assert_eq!(s.history[0].title, "A");
}

#[test]
fn an_update_is_announced_and_applied_only_when_pending() {
    let mut s = shell(&["a"], 0);
    let none = s.dispatch(UserEvent::ApplyUpdate, 0);
    assert!(!none.apply_update);
    assert!(none.notice.is_none());
    let fx = s.dispatch(UserEvent::UpdateAvailable("v2.0.0".to_string(), "https://dl/x".to_string()), 0);
    assert_eq!(fx.notice, Some("setPendingUpdate('v2.0.0','https://dl/x');".to_string()));
    assert!(!fx.apply_update);
    let pending = s.pending_update.clone().expect("pending");
    assert_eq!(pending.version, "v2.0.0");
    assert_eq!(pending.download_url, "https://dl/x");
    assert!(s.dispatch(UserEvent::ApplyUpdate, 0).apply_update);
}

#[test]
fn closing_the_window_gives_the_session() {
    let mut s = shell(&["a", "b", "c"], 2);
    s.dispatch(UserEvent::CloseTab(0), 0);
    let session = s.shutdown();
    assert_eq!(session.tabs, vec!["b", "c"]);
    assert_eq!(session.active, 1);
}

fn carry_out(mirror: &mut Vec<Option<bool>>, c: SurfaceCommand) {
    let i = c.index;
    match c.action {
        SurfaceAction::CreateHome | SurfaceAction::CreateHistory | SurfaceAction::CreateUrl => {
            while mirror.len() <= i {
                mirror.push(None);
            }
            mirror[i] = Some(false);
        }
        SurfaceAction::Show => {
            if i < mirror.len() && mirror[i].is_some() {
                mirror[i] = Some(true);
            }
        }
        SurfaceAction::Hide => {
            if i < mirror.len() && mirror[i].is_some() {
                mirror[i] = Some(false);
            }
        }
        SurfaceAction::Suspend => {
            if i < mirror.len() {
                mirror[i] = None;
            }
        }
        SurfaceAction::Remove => {
            if i < mirror.len() {
                mirror.remove(i);
            }
        }
        _ => {}
    }
}

fn called_for(s: &Shell) -> Vec<Option<bool>> {
    (0..s.registry.slots.len())
        .map(|i| s.registry.slots[i].map(|_| i == s.registry.active))
        .collect()
}

#[test]
fn the_commands_keep_the_surfaces_in_step_with_the_registry() {
    let urls: Vec<String> = (0..7).map(|i| format!("https://s{}.example/", i)).collect();
    let session = Session { tabs: urls, active: 5 };
    let (mut s, commands) = Shell::new(&session, Vec::new());
    let mut mirror: Vec<Option<bool>> = vec![None; s.registry.slots.len()];
    for c in commands {
        carry_out(&mut mirror, c);
    }
    assert_eq!(mirror, called_for(&s));
    assert_eq!(
        mirror,
        vec![Some(false), Some(false), Some(false), Some(false), None, Some(true), None]
    );
    let events = vec![
        UserEvent::SwitchTab(6),
        UserEvent::NewTab,
        UserEvent::CloseTab(7),
        UserEvent::CloseTab(0),
        UserEvent::ShowHistory,
        UserEvent::Navigate("vccat:home".to_string()),
        UserEvent::SwitchTab(2),
        UserEvent::CloseTab(2),
        UserEvent::Reload,
        UserEvent::NewTab,
        UserEvent::SwitchTab(40),
        UserEvent::CloseTab(1),
    ];
    for e in events {
        let fx = s.dispatch(e, 0);
        for c in fx.commands {
            carry_out(&mut mirror, c);
        }
        assert_eq!(mirror, called_for(&s));
        assert_eq!(mirror.iter().filter(|m| **m == Some(true)).count(), 1);
    }
}
