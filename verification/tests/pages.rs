use vccat_browser::chrome::load_html_into;
use vccat_browser::chrome::pending_update_script;
use vccat_browser::chrome::sidebar_html;
use vccat_browser::chrome::sync_sidebar;
use vccat_browser::chrome::toolbar_html;
use vccat_browser::chrome::toolbar_set_url;
use vccat_browser::pages::history_page_html;
use vccat_browser::pages::home_page_html;
use vccat_browser::pages::page_init_js;
use vccat_browser::pages::HISTORY_PAGE_HEAD;
use vccat_browser::pages::HOME_PAGE_HEAD;
use vccat_browser::storage::HistoryEntry;
use vccat_browser::tab::Tab;

fn entry(url: &str, title: &str) -> HistoryEntry {
    HistoryEntry { url: url.to_string(), title: title.to_string(), timestamp: 0 }
}

#[test]
fn the_start_page_without_history_has_no_rows() {
    let html = home_page_html(&[], "1.2.3");
    assert!(html.starts_with(
        "<!DOCTYPE html><html><head><meta charset=\"UTF-8\"><title>vccat</title>\n<style>\n*{margin:0;"
    ));
    assert!(html.ends_with(
        "<div class=\"wrap\"><div class=\"lbl\">ostatnio odwiedzone</div></div>\n<div class=\"ver\">v1.2.3</div>\n</body></html>"
    ));
    assert_eq!(html.len(), HOME_PAGE_HEAD.len() + "</div>\n<div class=\"ver\">v1.2.3</div>\n</body></html>".len());
}

#[test]
fn the_start_page_lists_the_newest_eight_visits_newest_first() {
    let history: Vec<HistoryEntry> =
        (0..10).map(|i| entry(&format!("https://s{}.example/", i), &format!("Site {}", i))).collect();
    let html = home_page_html(&history, "0.1.0");
    let mut rows = String::new();
    for i in (2..10).rev() {
        rows.push_str(&format!(
            "<a href=\"https://s{i}.example/\" class=\"hi\"><span class=\"ht\">Site {i}</span><span class=\"hu\">https://s{i}.example/</span></a>",
            i = i
        ));
    }
    let expected =
        format!("{}{}</div>\n<div class=\"ver\">v0.1.0</div>\n</body></html>", HOME_PAGE_HEAD, rows);
    assert_eq!(html, expected);
    assert!(!html.contains("s1.example"));
}

#[test]
fn the_start_page_cuts_long_titles_and_addresses() {
    let long_title = "t".repeat(46);
    let long_url = format!("https://{}", "u".repeat(60));
    let html = home_page_html(&[entry(&long_url, &long_title)], "1");
    let row = format!(
        "<a href=\"{}\" class=\"hi\"><span class=\"ht\">{}</span><span class=\"hu\">{}</span></a>",
        long_url,
        "t".repeat(45),
        &long_url[..55]
    );
    assert!(html.contains(&row));
    let exact = home_page_html(&[entry(&"u".repeat(55), &"t".repeat(45))], "1");
    assert!(exact.contains(&format!(
        "<span class=\"ht\">{}</span><span class=\"hu\">{}</span>",
        "t".repeat(45),
        "u".repeat(55)
    )));
    let wide = home_page_html(&[entry("https://a.example/", &"ż".repeat(23))], "1");
    assert!(wide.contains(&format!("<span class=\"ht\">{}</span>", "ż".repeat(22))));
    assert!(!wide.contains(&"ż".repeat(23)));
}

#[test]
fn the_start_page_shows_the_address_where_the_title_is_empty() {
    let html = home_page_html(&[entry("https://a.example/", "")], "1");
    assert!(html.contains(
        "<a href=\"https://a.example/\" class=\"hi\"><span class=\"ht\">https://a.example/</span><span class=\"hu\">https://a.example/</span></a>"
    ));
}

#[test]
fn the_history_page_lists_visits_newest_first() {
    let history = vec![entry("https://a.example/", "A"), entry("https://b.example/", "")];
    let html = history_page_html(&history);
    let expected = format!(
        "{}{}{}</table>\n</body></html>",
        HISTORY_PAGE_HEAD,
        "<tr><td><a href=\"https://b.example/\">https://b.example/</a></td><td class=\"u\">https://b.example/</td></tr>",
        "<tr><td><a href=\"https://a.example/\">A</a></td><td class=\"u\">https://a.example/</td></tr>"
    );
    assert_eq!(html, expected);
    assert!(html.contains("<h1>// historia</h1><table>"));
}

#[test]
fn the_history_page_lists_at_most_three_hundred_visits() {
    let history: Vec<HistoryEntry> =
        (0..305).map(|i| entry(&format!("https://s{}.example/", i), "t")).collect();
    let html = history_page_html(&history);
    assert_eq!(html.matches("<tr><td>").count(), 300);
    assert!(html.contains("https://s5.example/"));
    assert!(!html.contains("https://s4.example/"));
    assert!(html.contains("https://s304.example/"));
}

#[test]
fn the_page_script_reports_and_ends_with_the_cleaner() {
    let js = page_init_js(3);
    assert!(js.starts_with(
        "(function() {\n    function ipc(m) { window.ipc.postMessage(m); }\n    ipc('url:' + location.href);"
    ));
    assert!(js.contains("if (fav) ipc('favicon:' + fav);"));
    assert!(js.contains("new MutationObserver(sendTitle).observe(titleEl, {childList:true});"));
    assert!(js.ends_with("{ childList: true, subtree: true });\n})();\n})();"));
    assert_eq!(js, page_init_js(0));
}

#[test]
fn the_chrome_documents_hold_their_scripts() {
    let sidebar = sidebar_html();
    assert!(sidebar.starts_with("<!DOCTYPE html><html><head><meta charset=\"UTF-8\">"));
    assert!(sidebar.contains("function update(s){state=s;render();}"));
    assert!(sidebar.contains("x.textContent='×';"));
    assert!(sidebar.ends_with("</script></body></html>"));
    let toolbar = toolbar_html();
    assert!(toolbar.contains("function setUrl(u){"));
    assert!(toolbar.contains("function setPendingUpdate(v,u){_upd={v,u};showUpdate(v);}"));
    assert!(toolbar.contains("onclick=\"s('apply-update')\""));
}

#[test]
fn the_sidebar_is_told_every_tab_and_the_active_index() {
    let mut a = Tab::new("https://a.example/\"x\"");
    a.title = "A \"quoted\"".to_string();
    let mut b = Tab::new("vccat:home");
    b.favicon = Some("https://b.example/favicon.ico".to_string());
    b.suspended = true;
    let script = sync_sidebar(&[a, b], 1);
    assert_eq!(
        script,
        "update({tabs:[{\"url\":\"https://a.example/\\\"x\\\"\",\"favicon\":\"\",\"title\":\"A \\\"quoted\\\"\",\"suspended\":false},{\"url\":\"vccat:home\",\"favicon\":\"https://b.example/favicon.ico\",\"title\":\"\",\"suspended\":true}],active:1});"
    );
}

#[test]
fn the_sidebar_script_for_no_tabs_and_a_large_index() {
    assert_eq!(sync_sidebar(&[], 0), "update({tabs:[],active:0});");
    assert_eq!(
        sync_sidebar(&[Tab::new("a")], 120),
        "update({tabs:[{\"url\":\"a\",\"favicon\":\"\",\"title\":\"\",\"suspended\":false}],active:120});"
    );
}

#[test]
fn the_toolbar_script_escapes_apostrophes_and_drops_line_feeds() {
    assert_eq!(toolbar_set_url("https://a.example/"), "setUrl('https://a.example/');");
    assert_eq!(toolbar_set_url("it's\nhere\n"), "setUrl('it\\'shere');");
    assert_eq!(toolbar_set_url(""), "setUrl('');");
}

#[test]
fn the_document_script_escapes_the_template_literal() {
    assert_eq!(
        load_html_into("<p>hi</p>"),
        "document.open();document.write(\\`<p>hi</p>\\`);document.close();"
    );
    assert_eq!(
        load_html_into("a\\b`c${d}"),
        "document.open();document.write(\\`a\\\\b\\`c\\${d}\\`);document.close();"
    );
}

#[test]
fn the_update_script_escapes_apostrophes() {
    assert_eq!(
        pending_update_script("v1.2.0", "https://dl.example/v1.2.0"),
        "setPendingUpdate('v1.2.0','https://dl.example/v1.2.0');"
    );
    assert_eq!(pending_update_script("v'1", "u'"), "setPendingUpdate('v\\'1','u\\'');");
}
