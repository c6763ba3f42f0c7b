use vccat_browser::adblock::builtin_youtube_rules;
use vccat_browser::adblock::filters_are_fresh;
use vccat_browser::adblock::youtube_dom_cleaner_js;
use vccat_browser::updater::check_update;
use vccat_browser::updater::is_platform_asset;
use vccat_browser::updater::select_update;
use vccat_browser::updater::Release;
use vccat_browser::updater::ReleaseAsset;

fn asset(name: &str, url: &str) -> ReleaseAsset {
    ReleaseAsset { name: name.to_string(), browser_download_url: url.to_string() }
}

fn release(tag: &str, assets: Vec<ReleaseAsset>) -> Release {
    Release { tag_name: tag.to_string(), assets }
}

#[test]
fn a_newer_release_with_a_platform_file_is_an_update() {
    let r = release(
        "v1.3.0",
        vec![
            asset("vccat-windows.exe", "https://dl.example/win"),
            asset("vccat-linux-x64", "https://dl.example/linux"),
            asset("vccat-linux-arm", "https://dl.example/arm"),
        ],
    );
    let info = check_update(&r, "1.2.9").expect("an update");
    assert_eq!(info.version, "v1.3.0");
    assert_eq!(info.download_url, "https://dl.example/linux");
}

#[test]
fn a_release_that_is_not_newer_is_no_update() {
    let files = || vec![asset("vccat-linux", "https://dl.example/linux")];
    assert!(check_update(&release("v1.2.0", files()), "1.2.0").is_none());
    assert!(check_update(&release("v1.1.9", files()), "1.2.0").is_none());
    assert!(check_update(&release("1.2.0-beta.1", files()), "1.2.0").is_none());
    assert!(check_update(&release("1.2.1-beta.1", files()), "1.2.0").is_some());
    assert!(check_update(&release("1.10.0", files()), "1.9.0").is_some());
}

#[test]
fn a_tag_that_is_no_version_is_no_update() {
    let files = || vec![asset("vccat-linux", "https://dl.example/linux")];
    assert!(check_update(&release("latest", files()), "1.0.0").is_none());
    assert!(check_update(&release("v2.0", files()), "1.0.0").is_none());
    assert!(check_update(&release("v2.0.0", files()), "unknown").is_none());
    assert!(check_update(&release("V2.0.0", files()), "1.0.0").is_none());
}

#[test]
fn a_release_without_a_platform_file_is_no_update() {
    let r = release("v2.0.0", vec![asset("vccat-windows.exe", "w"), asset("vccat.dmg", "m")]);
    assert!(check_update(&r, "1.0.0").is_none());
    assert!(check_update(&release("v2.0.0", vec![]), "1.0.0").is_none());
}

#[test]
fn file_names_are_compared_in_lower_case() {
    let r = release("v2.0.0", vec![asset("VCCAT-LINUX.AppImage", "https://dl.example/app")]);
    assert_eq!(check_update(&r, "1.0.0").expect("an update").download_url, "https://dl.example/app");
    let bare = release("v2.0.0", vec![asset("Vccat_Browser", "https://dl.example/bare")]);
    assert_eq!(check_update(&bare, "1.0.0").expect("an update").download_url, "https://dl.example/bare");
}

#[test]
fn platform_names_are_recognised() {
    assert!(is_platform_asset("vccat-linux-x64.tar.gz"));
    assert!(is_platform_asset("vccat_browser"));
    assert!(is_platform_asset("vccat-browser"));
    assert!(!is_platform_asset("vccat_browser.exe"));
    assert!(!is_platform_asset("vccat-macos"));
    assert!(!is_platform_asset(""));
}

#[test]
fn only_a_newer_release_is_selected() {
    let r = release("v9", vec![asset("linux", "u")]);
    assert!(select_update(None, &r).is_none());
    assert!(select_update(Some(false), &r).is_none());
    let info = select_update(Some(true), &r).expect("an update");
    assert_eq!(info.version, "v9");
    assert_eq!(info.download_url, "u");
}

#[test]
fn the_builtin_rules_block_the_advertising_hosts() {
    let rules = builtin_youtube_rules();
    assert!(rules.starts_with("[\n  {\"trigger\":{\"url-filter\":\"googlesyndication\\\\.com\"}"));
    assert!(rules.ends_with("\"action\":{\"type\":\"block\"}}\n]"));
    assert_eq!(rules.matches("\"type\":\"block\"").count(), 19);
}

#[test]
fn the_cleaner_script_runs_on_the_video_site_only() {
    let js = youtube_dom_cleaner_js();
    assert!(js.starts_with("(function() {\n  if (!location.hostname.includes('youtube.com')) return;"));
    assert!(js.ends_with("})();"));
    assert!(js.contains("setInterval(run, 300);"));
}

#[test]
fn a_rule_file_is_fresh_for_a_day() {
    assert!(filters_are_fresh(0));
    assert!(filters_are_fresh(86399));
    assert!(!filters_are_fresh(86400));
    assert!(!filters_are_fresh(u64::MAX));
}
