//! Content blocking: the built-in rules and the script that clears what the
//! rules cannot reach.

use vstd::prelude::*;

verus! {

/// A downloaded rule file is used again while it is younger than this many
/// seconds.
pub const FILTER_MAX_AGE_SECS: u64 = 86400;

/// Content-blocker rules for the hosts that serve video advertising.
pub const YOUTUBE_RULES: &'static str = r#"[
  {"trigger":{"url-filter":"googlesyndication\\.com"},"action":{"type":"block"}},
  {"trigger":{"url-filter":"doubleclick\\.net"},"action":{"type":"block"}},
  {"trigger":{"url-filter":"googleadservices\\.com"},"action":{"type":"block"}},
  {"trigger":{"url-filter":"google-analytics\\.com"},"action":{"type":"block"}},
  {"trigger":{"url-filter":"youtube\\.com/pagead"},"action":{"type":"block"}},
  {"trigger":{"url-filter":"youtube\\.com/ptracking"},"action":{"type":"block"}},
  {"trigger":{"url-filter":"youtube\\.com/api/stats/ads"},"action":{"type":"block"}},
  {"trigger":{"url-filter":"yt3\\.ggpht\\.com.*=ytads"},"action":{"type":"block"}},
  {"trigger":{"url-filter":"youtube\\.com/get_video_info.*adformat"},"action":{"type":"block"}},
  {"trigger":{"url-filter":"static\\.doubleclick\\.net"},"action":{"type":"block"}},
  {"trigger":{"url-filter":"ad\\.youtube\\.com"},"action":{"type":"block"}},
  {"trigger":{"url-filter":"s0\\.2mdn\\.net"},"action":{"type":"block"}},
  {"trigger":{"url-filter":"imasdk\\.googleapis\\.com"},"action":{"type":"block"}},
  {"trigger":{"url-filter":"pagead2\\.googlesyndication\\.com"},"action":{"type":"block"}},
  {"trigger":{"url-filter":"tpc\\.googlesyndication\\.com"},"action":{"type":"block"}},
  {"trigger":{"url-filter":"adservice\\.google\\."},"action":{"type":"block"}},
  {"trigger":{"url-filter":"youtube\\.com.*\\/ads\\/"},"action":{"type":"block"}},
  {"trigger":{"url-filter":"youtube\\.com.*adunit"},"action":{"type":"block"}},
  {"trigger":{"url-filter":"fundingchoices\\.google\\.com"},"action":{"type":"block"}}
]"#;

/// A script that skips video advertisements and removes their overlays.
pub const YOUTUBE_DOM_CLEANER_JS: &'static str = r#"(function() {
  if (!location.hostname.includes('youtube.com')) return;

  function skipAds() {
    // Click skip button
    const skip = document.querySelector(
      '.ytp-skip-ad-button, .ytp-ad-skip-button, .ytp-ad-skip-button-modern'
    );
    if (skip) { skip.click(); return; }

    // Force-end video ads
    const video = document.querySelector('video');
    if (video && document.querySelector('.ad-showing')) {
      video.volume = 0;
      video.currentTime = video.duration || 9999;
    }
  }

  function removeOverlays() {
    const sel = [
      '.ytp-ad-overlay-container',
      '.ytp-ad-text-overlay',
      '.ytp-ad-image-overlay',
      '#masthead-ad',
      '.ytd-display-ad-renderer',
      'ytd-display-ad-renderer',
      'ytd-promoted-sparkles-web-renderer',
      'ytd-promoted-video-renderer',
      'ytd-search-pyv-renderer',
      'ytd-in-feed-ad-layout-renderer',
      '.ytd-ad-slot-renderer',
      'ytd-ad-slot-renderer',
      '.ytd-companion-slot-renderer',
      '#player-ads',
      '.ad-showing .ytp-ad-module',
    ];
    sel.forEach(s => document.querySelectorAll(s).forEach(el => el.remove()));
  }

  // Run immediately and on DOM changes
  function run() { skipAds(); removeOverlays(); }
  run();
  setInterval(run, 300);
  new MutationObserver(run)
    .observe(document.documentElement, { childList: true, subtree: true });
})();"#;

/// The rules that are used where no rule file could be had.
pub fn builtin_youtube_rules() -> (rules: &'static str)
    ensures
        rules@ == YOUTUBE_RULES@,
{
    YOUTUBE_RULES
}

/// The script that removes advertising from a page's document.
pub fn youtube_dom_cleaner_js() -> (js: &'static str)
    ensures
        js@ == YOUTUBE_DOM_CLEANER_JS@,
{
    YOUTUBE_DOM_CLEANER_JS
}

/// Whether a rule file that was written `age_secs` seconds ago is used as
/// it is.
pub fn filters_are_fresh(age_secs: u64) -> (fresh: bool)
    ensures
        fresh == (age_secs < FILTER_MAX_AGE_SECS),
{
    age_secs < FILTER_MAX_AGE_SECS
}

} // verus!
