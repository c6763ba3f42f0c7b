use vccat_browser::registry::Surface;
use vccat_browser::registry::SurfaceAction;
use vccat_browser::registry::SurfaceCommand;
use vccat_browser::registry::TabRegistry;
use vccat_browser::registry::save_session;
use vccat_browser::storage::load_session;
use vccat_browser::storage::Session;
use vccat_browser::tab::Tab;

fn start(urls: &[&str], active: usize) -> TabRegistry {
    let session = Session { tabs: urls.iter().map(|u| u.to_string()).collect(), active };
    TabRegistry::from_session(&session).0
}

fn cmd(action: SurfaceAction, index: usize) -> SurfaceCommand {
    SurfaceCommand { action, index }
}

fn holds_invariant(r: &TabRegistry) -> bool {
    r.is_consistent()
        && r.tabs.len() >= 1
        && r.tabs.len() == r.slots.len()
        && r.active < r.tabs.len()
        && (0..r.tabs.len()).all(|i| r.slots[i].is_none() == r.tabs[i].suspended)
        && !r.tabs[r.active].suspended
}

fn live_background(r: &TabRegistry) -> usize {
    (0..r.tabs.len()).filter(|&i| i != r.active && !r.tabs[i].suspended).count()
}

#[test]
fn new_tab_is_live_and_untitled() {
    let t = Tab::new("https://example.org");
    assert_eq!(t.url, "https://example.org");
    assert_eq!(t.title, "");
    assert!(t.favicon.is_none());
    assert!(!t.suspended);
}

#[test]
fn the_fifth_tab_suspends_the_background_tabs() {
    let mut r = start(&["vccat:home"], 0);
    for _ in 0..3 {
        r.open_tab();
        assert!(holds_invariant(&r));
    }
    assert!((0..4).all(|i| !r.tabs[i].suspended));
    r.open_tab();
    assert!(holds_invariant(&r));
    assert_eq!(r.tabs.len(), 5);
    assert_eq!(r.active, 4);
    for i in 0..3 {
        assert!(r.tabs[i].suspended);
        assert!(r.slots[i].is_none());
    }
    assert!(!r.tabs[3].suspended);
    assert_eq!(r.slots[3], Some(Surface { bound_index: 3 }));
    assert!(!r.tabs[4].suspended);
    assert_eq!(r.slots[4], Some(Surface { bound_index: 4 }));
    assert_eq!(r.tabs[4].url, "vccat:home");
}

#[test]
fn open_tab_below_the_threshold_suspends_nothing() {
    let mut r = start(&["https://a.example"], 0);
    let cmds = r.open_tab();
    assert_eq!(
        cmds,
        vec![
            cmd(SurfaceAction::Hide, 0),
            cmd(SurfaceAction::CreateHome, 1),
            cmd(SurfaceAction::Show, 1)
        ]
    );
    assert!(!r.tabs[0].suspended);
    assert_eq!(r.active, 1);
}

#[test]
fn open_tab_at_the_threshold_suspends_each_live_background_tab_once() {
    let mut r = start(&["a.example", "b.example", "c.example", "d.example"], 1);
    let cmds = r.open_tab();
    assert_eq!(
        cmds,
        vec![
            cmd(SurfaceAction::Suspend, 0),
            cmd(SurfaceAction::Suspend, 2),
            cmd(SurfaceAction::Suspend, 3),
            cmd(SurfaceAction::Hide, 1),
            cmd(SurfaceAction::CreateHome, 4),
            cmd(SurfaceAction::Show, 4)
        ]
    );
    assert!(!r.tabs[1].suspended);
    let again = r.open_tab();
    assert_eq!(
        again,
        vec![
            cmd(SurfaceAction::Suspend, 1),
            cmd(SurfaceAction::Hide, 4),
            cmd(SurfaceAction::CreateHome, 5),
            cmd(SurfaceAction::Show, 5)
        ]
    );
    assert!(r.tabs[1].suspended);
    assert!(!r.tabs[4].suspended);
    assert!(holds_invariant(&r));
}

#[test]
fn open_tab_bounds_the_live_background_tabs() {
    let mut r = start(&["vccat:home"], 0);
    for _ in 0..9 {
        r.open_tab();
        assert!(live_background(&r) <= 3);
        assert!(holds_invariant(&r));
    }
}

#[test]
fn closing_the_only_tab_resets_it() {
    let mut r = start(&["https://a.example"], 0);
    r.record_title(&mut Vec::new(), 0, "A", 1);
    r.record_favicon(0, "https://a.example/favicon.ico");
    let surface = r.slots[0];
    let cmds = r.close_tab(0);
    assert_eq!(r.tabs.len(), 1);
    assert_eq!(r.tabs[0].url, "vccat:home");
    assert_eq!(r.tabs[0].title, "");
    assert!(r.tabs[0].favicon.is_none());
    assert_eq!(r.active, 0);
    assert_eq!(r.slots[0], surface);
    assert_eq!(cmds, vec![cmd(SurfaceAction::LoadHome, 0)]);
    assert!(holds_invariant(&r));
}

#[test]
fn switching_to_a_suspended_tab_wakes_it_before_it_is_shown() {
    let mut r = start(&["vccat:home"], 0);
    for _ in 0..4 {
        r.open_tab();
    }
    assert!(r.tabs[2].suspended);
    let cmds = r.switch_tab(2);
    assert!(!r.tabs[2].suspended);
    assert_eq!(r.slots[2], Some(Surface { bound_index: 2 }));
    assert_eq!(r.active, 2);
    assert_eq!(
        cmds,
        vec![
            cmd(SurfaceAction::Hide, 4),
            cmd(SurfaceAction::CreateUrl, 2),
            cmd(SurfaceAction::Show, 2)
        ]
    );
    assert!(holds_invariant(&r));
}

#[test]
fn switching_to_a_live_tab_constructs_nothing() {
    let mut r = start(&["a.example", "b.example"], 0);
    let cmds = r.switch_tab(1);
    assert_eq!(cmds, vec![cmd(SurfaceAction::Hide, 0), cmd(SurfaceAction::Show, 1)]);
    assert_eq!(r.active, 1);
}

#[test]
fn an_index_out_of_range_changes_nothing() {
    let mut r = start(&["a.example", "b.example"], 1);
    assert!(r.switch_tab(2).is_empty());
    assert!(r.close_tab(7).is_empty());
    assert!(r.wake(9).is_empty());
    r.record_favicon(5, "x");
    let mut history = Vec::new();
    assert!(!r.record_navigation(&mut history, 2, "https://c.example", 3));
    assert!(!r.record_title(&mut history, 2, "C", 3));
    assert!(history.is_empty());
    assert_eq!(r.tabs.len(), 2);
    assert_eq!(r.active, 1);
    assert_eq!(r.tabs[0].url, "a.example");
    assert_eq!(r.tabs[1].url, "b.example");
}

#[test]
fn closing_a_tab_before_the_active_one_moves_the_index_down() {
    let mut r = start(&["a.example", "b.example", "c.example"], 2);
    let cmds = r.close_tab(0);
    assert_eq!(r.active, 1);
    assert_eq!(r.tabs[1].url, "c.example");
    assert_eq!(cmds, vec![cmd(SurfaceAction::Remove, 0), cmd(SurfaceAction::Show, 1)]);
    assert!(holds_invariant(&r));
}

#[test]
fn closing_the_active_tab_activates_its_successor() {
    let mut r = start(&["a.example", "b.example", "c.example"], 1);
    r.close_tab(1);
    assert_eq!(r.active, 1);
    assert_eq!(r.tabs[1].url, "c.example");
    assert!(holds_invariant(&r));
}

#[test]
fn closing_the_last_active_tab_activates_its_predecessor() {
    let mut r = start(&["a.example", "b.example", "c.example"], 2);
    r.close_tab(2);
    assert_eq!(r.active, 1);
    assert_eq!(r.tabs.len(), 2);
    assert!(holds_invariant(&r));
}

#[test]
fn closing_a_tab_behind_the_active_one_keeps_the_index() {
    let mut r = start(&["a.example", "b.example", "c.example"], 0);
    r.close_tab(2);
    assert_eq!(r.active, 0);
    assert_eq!(r.tabs.len(), 2);
}

#[test]
fn closing_the_active_tab_wakes_the_new_active_one() {
    let mut r = start(&["vccat:home"], 0);
    for _ in 0..4 {
        r.open_tab();
    }
    assert_eq!(r.close_tab(4), vec![cmd(SurfaceAction::Remove, 4), cmd(SurfaceAction::Show, 3)]);
    assert_eq!(r.active, 3);
    assert!(r.tabs[2].suspended);
    let cmds = r.close_tab(3);
    assert_eq!(r.active, 2);
    assert!(!r.tabs[2].suspended);
    assert_eq!(r.slots[2], Some(Surface { bound_index: 2 }));
    assert_eq!(
        cmds,
        vec![
            cmd(SurfaceAction::Remove, 3),
            cmd(SurfaceAction::CreateUrl, 2),
            cmd(SurfaceAction::Show, 2)
        ]
    );
    assert!(holds_invariant(&r));
}

#[test]
fn wake_restores_only_a_suspended_tab() {
    let mut r = start(&["vccat:home"], 0);
    for _ in 0..4 {
        r.open_tab();
    }
    assert_eq!(r.wake(1), vec![cmd(SurfaceAction::CreateUrl, 1)]);
    assert!(!r.tabs[1].suspended);
    assert!(r.wake(1).is_empty());
    assert!(r.wake(4).is_empty());
    assert!(holds_invariant(&r));
}

#[test]
fn navigate_sets_the_address_and_forgets_the_favicon() {
    let mut r = start(&["a.example"], 0);
    r.record_favicon(0, "icon");
    r.record_title(&mut Vec::new(), 0, "A", 1);
    let cmds = r.navigate("https://b.example/");
    assert_eq!(r.tabs[0].url, "https://b.example/");
    assert!(r.tabs[0].favicon.is_none());
    assert_eq!(r.tabs[0].title, "A");
    assert_eq!(cmds, vec![cmd(SurfaceAction::LoadUrl, 0)]);
}

#[test]
fn navigate_to_an_internal_page_rewrites_the_document() {
    let mut r = start(&["a.example"], 0);
    assert_eq!(r.navigate("vccat:home"), vec![cmd(SurfaceAction::LoadHome, 0)]);
    assert_eq!(r.navigate("vccat:history"), vec![cmd(SurfaceAction::LoadHistory, 0)]);
    assert_eq!(r.navigate("vccat:other"), vec![cmd(SurfaceAction::LoadHistory, 0)]);
}

#[test]
fn show_history_appends_an_active_history_tab() {
    let mut r = start(&["a.example"], 0);
    let cmds = r.show_history();
    assert_eq!(r.tabs.len(), 2);
    assert_eq!(r.active, 1);
    assert_eq!(r.tabs[1].url, "vccat:history");
    assert_eq!(r.tabs[1].title, "Historia");
    assert!(!r.tabs[1].suspended);
    assert_eq!(
        cmds,
        vec![
            cmd(SurfaceAction::Hide, 0),
            cmd(SurfaceAction::CreateHistory, 1),
            cmd(SurfaceAction::Show, 1)
        ]
    );
    assert!(holds_invariant(&r));
}

#[test]
fn starting_keeps_the_first_four_tabs_and_the_active_one_live() {
    let urls = ["a.example", "b.example", "c.example", "d.example", "e.example", "vccat:home"];
    let session = Session { tabs: urls.iter().map(|u| u.to_string()).collect(), active: 5 };
    let (r, cmds) = TabRegistry::from_session(&session);
    assert_eq!(r.active, 5);
    for i in 0..4 {
        assert!(!r.tabs[i].suspended);
    }
    assert!(r.tabs[4].suspended);
    assert!(r.slots[4].is_none());
    assert!(!r.tabs[5].suspended);
    assert_eq!(cmds.len(), 10);
    assert_eq!(cmds[0], cmd(SurfaceAction::CreateUrl, 0));
    assert_eq!(cmds[1], cmd(SurfaceAction::Hide, 0));
    assert_eq!(cmds[8], cmd(SurfaceAction::CreateHome, 5));
    assert_eq!(cmds[9], cmd(SurfaceAction::Show, 5));
    assert!(holds_invariant(&r));
}

#[test]
fn starting_from_an_empty_session_gives_one_start_page() {
    let (r, cmds) = TabRegistry::from_session(&Session { tabs: vec![], active: 3 });
    assert_eq!(r.tabs.len(), 1);
    assert_eq!(r.tabs[0].url, "vccat:home");
    assert_eq!(r.active, 0);
    assert_eq!(cmds, vec![cmd(SurfaceAction::CreateHome, 0), cmd(SurfaceAction::Show, 0)]);
}

#[test]
fn starting_clamps_the_active_index() {
    let r = start(&["a.example", "b.example"], 9);
    assert_eq!(r.active, 1);
    assert!(holds_invariant(&r));
}

#[test]
fn a_saved_session_is_restored_as_it_was() {
    let mut r = start(&["https://a.example", "https://b.example"], 1);
    r.open_tab();
    r.switch_tab(0);
    let saved = save_session(&r.tabs, r.active);
    assert_eq!(saved.tabs, vec!["https://a.example", "https://b.example", "vccat:home"]);
    assert_eq!(saved.active, 0);
    let same = r.session();
    assert_eq!(same.tabs, saved.tabs);
    assert_eq!(same.active, saved.active);
    let restored = load_session(Some(saved.clone()));
    assert_eq!(restored.tabs, saved.tabs);
    assert_eq!(restored.active, saved.active);
    let again = TabRegistry::from_session(&restored).0;
    assert_eq!(again.active, r.active);
    assert_eq!(again.tabs.len(), r.tabs.len());
    for i in 0..r.tabs.len() {
        assert_eq!(again.tabs[i].url, r.tabs[i].url);
    }
}

#[test]
fn a_registry_out_of_step_is_not_consistent() {
    let good = start(&["a.example", "b.example"], 0);
    assert!(good.is_consistent());
    let mut no_slot = start(&["a.example", "b.example"], 0);
    no_slot.slots.pop();
    assert!(!no_slot.is_consistent());
    let mut flag_only = start(&["a.example", "b.example"], 0);
    flag_only.tabs[1].suspended = true;
    assert!(!flag_only.is_consistent());
    let mut slot_only = start(&["a.example", "b.example"], 0);
    slot_only.slots[1] = None;
    assert!(!slot_only.is_consistent());
    let mut active_out = start(&["a.example", "b.example"], 0);
    active_out.active = 2;
    assert!(!active_out.is_consistent());
    let mut active_suspended = start(&["a.example", "b.example"], 0);
    active_suspended.tabs[0].suspended = true;
    active_suspended.slots[0] = None;
    assert!(!active_suspended.is_consistent());
    let empty = TabRegistry { tabs: vec![], slots: vec![], active: 0 };
    assert!(!empty.is_consistent());
}
