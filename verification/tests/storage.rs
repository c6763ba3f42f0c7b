use vccat_browser::storage::append_history;
use vccat_browser::storage::load_history;
use vccat_browser::storage::load_session;
use vccat_browser::storage::save_history;
use vccat_browser::storage::HistoryEntry;
use vccat_browser::storage::Session;

fn entry(url: &str, title: &str, timestamp: u64) -> HistoryEntry {
    HistoryEntry { url: url.to_string(), title: title.to_string(), timestamp }
}

#[test]
fn a_visit_is_appended_with_its_title_and_time() {
    let mut h = Vec::new();
    assert!(append_history(&mut h, "https://a.example/", "A", 17));
    assert_eq!(h.len(), 1);
    assert_eq!(h[0].url, "https://a.example/");
    assert_eq!(h[0].title, "A");
    assert_eq!(h[0].timestamp, 17);
}

#[test]
fn the_same_address_twice_in_a_row_is_recorded_once() {
    let mut h = Vec::new();
    assert!(append_history(&mut h, "https://a.example/", "A", 1));
    assert!(!append_history(&mut h, "https://a.example/", "A again", 2));
    assert_eq!(h.len(), 1);
    assert_eq!(h[0].title, "A");
    assert_eq!(h[0].timestamp, 1);
    assert!(append_history(&mut h, "https://b.example/", "B", 3));
    assert!(append_history(&mut h, "https://a.example/", "A", 4));
    assert_eq!(h.len(), 3);
}

#[test]
fn internal_blank_and_empty_addresses_are_not_recorded() {
    let mut h = vec![entry("https://a.example/", "A", 1)];
    assert!(!append_history(&mut h, "", "none", 2));
    assert!(!append_history(&mut h, "about:blank", "blank", 2));
    assert!(!append_history(&mut h, "vccat:home", "home", 2));
    assert!(!append_history(&mut h, "vccat:history", "history", 2));
    assert_eq!(h.len(), 1);
    assert!(append_history(&mut h, "about:blank2", "other", 2));
}

#[test]
fn a_long_history_is_saved_without_its_oldest_entries() {
    let mut h = Vec::new();
    for i in 0..5003u64 {
        h.push(entry(&format!("https://site.example/{}", i), "t", i));
    }
    let kept = save_history(&h);
    assert_eq!(kept.len(), 5000);
    assert_eq!(kept[0].url, "https://site.example/3");
    assert_eq!(kept[0].timestamp, 3);
    assert_eq!(kept[4999].url, "https://site.example/5002");
}

#[test]
fn a_short_history_is_saved_whole() {
    let h = vec![entry("https://a.example/", "A", 1), entry("https://b.example/", "B", 2)];
    let kept = save_history(&h);
    assert_eq!(kept.len(), 2);
    assert_eq!(kept[1].url, "https://b.example/");
    assert_eq!(kept[1].title, "B");
    assert!(save_history(&Vec::new()).is_empty());
}

#[test]
fn a_history_of_exactly_the_cap_is_saved_whole() {
    let mut h = Vec::new();
    for i in 0..5000u64 {
        h.push(entry("u", "t", i));
    }
    let kept = save_history(&h);
    assert_eq!(kept.len(), 5000);
    assert_eq!(kept[0].timestamp, 0);
}

#[test]
fn a_missing_session_gives_the_default() {
    let s = load_session(None);
    assert_eq!(s.tabs, vec!["vccat:home"]);
    assert_eq!(s.active, 0);
}

#[test]
fn a_session_without_tabs_gives_the_default() {
    let s = load_session(Some(Session { tabs: vec![], active: 4 }));
    assert_eq!(s.tabs, vec!["vccat:home"]);
    assert_eq!(s.active, 0);
    let d = load_session(Some(Session::default()));
    assert_eq!(d.tabs, vec!["vccat:home"]);
}

#[test]
fn a_session_is_loaded_with_its_active_index_in_range() {
    let tabs = vec!["https://a.example".to_string(), "https://b.example".to_string()];
    let s = load_session(Some(Session { tabs: tabs.clone(), active: 1 }));
    assert_eq!(s.tabs, tabs);
    assert_eq!(s.active, 1);
    let clamped = load_session(Some(Session { tabs: tabs.clone(), active: 2 }));
    assert_eq!(clamped.tabs, tabs);
    assert_eq!(clamped.active, 1);
}

#[test]
fn a_missing_history_is_empty() {
    assert!(load_history(None).is_empty());
    let h = load_history(Some(vec![entry("https://a.example/", "A", 1)]));
    assert_eq!(h.len(), 1);
    assert_eq!(h[0].url, "https://a.example/");
}
