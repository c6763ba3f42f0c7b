//! The update notifier's decision: whether a published release is newer than
//! the running shell, and which of its files is the one for this platform.

use crate::text::contains_text;
use crate::text::occurs_in;
use crate::text::same_text;
use crate::text::strip_leading;
use crate::text::without_leading;
use vstd::prelude::*;
use vstd::string::*;

verus! {

/// A file name with this in it names a build for this platform.
pub const PLATFORM_TOKEN: &'static str = "linux";

pub const BINARY_NAME: &'static str = "vccat_browser";

pub const PACKAGE_NAME: &'static str = "vccat-browser";

/// A newer release and where to download it.
#[derive(Debug, Clone)]
pub struct UpdateInfo {
    pub version: String,
    pub download_url: String,
}

pub struct UpdateInfoView {
    pub version: Seq<char>,
    pub download_url: Seq<char>,
}

impl View for UpdateInfo {
    type V = UpdateInfoView;

    open spec fn view(&self) -> UpdateInfoView {
        UpdateInfoView { version: self.version@, download_url: self.download_url@ }
    }
}

/// One file of a published release.
pub struct ReleaseAsset {
    pub name: String,
    pub browser_download_url: String,
}

pub struct ReleaseAssetView {
    pub name: Seq<char>,
    pub browser_download_url: Seq<char>,
}

impl View for ReleaseAsset {
    type V = ReleaseAssetView;

    open spec fn view(&self) -> ReleaseAssetView {
        ReleaseAssetView { name: self.name@, browser_download_url: self.browser_download_url@ }
    }
}

/// A published release: its tag and its files.
pub struct Release {
    pub tag_name: String,
    pub assets: Vec<ReleaseAsset>,
}

pub open spec fn asset_views(assets: Seq<ReleaseAsset>) -> Seq<ReleaseAssetView> {
    Seq::new(assets.len(), |i: int| assets[i]@)
}

pub open spec fn update_view(u: Option<UpdateInfo>) -> Option<UpdateInfoView> {
    match u {
        Some(u) => Some(u@),
        None => None,
    }
}

/// Whether the version `remote` has precedence over the version `current`,
/// as `semver` reads and orders them; `None` where one of the two is not a
/// version.
pub uninterp spec fn version_newer(remote: Seq<char>, current: Seq<char>) -> Option<bool>;

/// `semver::Version::parse` reads each of the two texts, and the ordering of
/// `semver::Version` tells whether the first is greater than the second.
/// Where either text does not parse there is no answer.
#[verifier::external_body]
fn compare_versions(remote: &str, current: &str) -> (newer: Option<bool>)
    ensures
        newer == version_newer(remote@, current@),
{
    let remote = semver::Version::parse(remote).ok()?;
    let current = semver::Version::parse(current).ok()?;
    Some(remote > current)
}

/// `s` in lower case, as `str::to_lowercase` returns it.
pub uninterp spec fn lowercased(s: Seq<char>) -> Seq<char>;

/// `str::to_lowercase` of std returns the lower-case equivalent of the
/// string.
#[verifier::external_body]
fn to_lowercase(s: &str) -> (lower: String)
    ensures
        lower@ == lowercased(s@),
{
    s.to_lowercase()
}

/// Whether a file with this name, in lower case, is a build for this
/// platform: the name holds the platform's token, or is the bare name of
/// the program.
pub open spec fn is_platform_name(lower: Seq<char>) -> bool {
    occurs_in(PLATFORM_TOKEN@, lower) || lower == BINARY_NAME@ || lower == PACKAGE_NAME@
}

/// The index of the first file from `from` on that is a build for this
/// platform.
pub open spec fn first_platform_asset(assets: Seq<ReleaseAssetView>, from: int) -> Option<int>
    decreases assets.len() - from,
{
    if from < 0 || from >= assets.len() {
        None
    } else if is_platform_name(lowercased(assets[from].name)) {
        Some(from)
    } else {
        first_platform_asset(assets, from + 1)
    }
}

/// The update that a release offers: none unless it is known to be newer,
/// and none unless it has a file for this platform; else the release's tag
/// and the address of the first such file.
pub open spec fn offered_update(
    newer: Option<bool>,
    tag: Seq<char>,
    assets: Seq<ReleaseAssetView>,
) -> Option<UpdateInfoView> {
    if newer == Some(true) && first_platform_asset(assets, 0) is Some {
        Some(
            UpdateInfoView {
                version: tag,
                download_url: assets[first_platform_asset(assets, 0)->0].browser_download_url,
            },
        )
    } else {
        None
    }
}

/// Tells whether a file name, given in lower case, names a build for this
/// platform.
pub fn is_platform_asset(lower: &str) -> (r: bool)
    ensures
        r == is_platform_name(lower@),
{
    contains_text(lower, PLATFORM_TOKEN) || same_text(lower, BINARY_NAME) || same_text(
        lower,
        PACKAGE_NAME,
    )
}

/// The update that `release` offers, given whether it is newer than the
/// running shell.
pub fn select_update(newer: Option<bool>, release: &Release) -> (info: Option<UpdateInfo>)
    ensures
        update_view(info) == offered_update(newer, release.tag_name@, asset_views(release.assets@)),
{
    let ghost av = asset_views(release.assets@);
    match newer {
        Some(true) => {},
        _ => {
            return None;
        },
    }
    let n = release.assets.len();
    let mut i: usize = 0;
    while i < n
        invariant
            newer == Some(true),
            n == release.assets@.len(),
            av == asset_views(release.assets@),
            i <= n,
            first_platform_asset(av, 0) == first_platform_asset(av, i as int),
        decreases n - i,
    {
        let asset = &release.assets[i];
        let lower = to_lowercase(asset.name.as_str());
        assert(av[i as int] == asset@);
        if is_platform_asset(lower.as_str()) {
            assert(first_platform_asset(av, i as int) == Some(i as int));
            return Some(
                UpdateInfo {
                    version: release.tag_name.clone(),
                    download_url: asset.browser_download_url.clone(),
                },
            );
        }
        i += 1;
    }
    None
}

/// Decides whether `release` is an update of the shell at the version
/// `current_version`: its tag, without the `v` before it, has to be the
/// newer version of the two, and it has to have a file for this platform.
pub fn check_update(release: &Release, current_version: &str) -> (info: Option<UpdateInfo>)
    ensures
        update_view(info) == offered_update(
            version_newer(without_leading(release.tag_name@, 'v'), current_version@),
            release.tag_name@,
            asset_views(release.assets@),
        ),
{
    let remote = strip_leading(release.tag_name.as_str(), 'v');
    let newer = compare_versions(remote.as_str(), current_version);
    select_update(newer, release)
}

} // verus!
