//! Finding the release to install.
//!
//! A release comes either from a repository's list of published releases or
//! from a plain web directory. Either way the caller does the fetching and
//! this module decides what the answer means.

use crate::text::{str_eq, trim, trimmed};
use crate::weburl::{join_url, url_joined};
use vstd::prelude::*;

verus! {

/// Repository owner asked when none is configured.
pub const DEFAULT_REPO_OWNER: &'static str = "goatcorp";

/// Repository asked when none is configured.
pub const DEFAULT_REPO_NAME: &'static str = "XIVLauncher.Core";

/// Release asset looked for when none is configured.
pub const DEFAULT_RELEASE_ASSET: &'static str = "XIVLauncher.Core.tar.gz";

/// Name of the plain-text version file below a web release base.
pub const XIVLAUNCHER_VERSION_REMOTE_FILENAME: &'static str = "version";

/// Where to download a release from, and which version it is.
///
/// The version is an opaque text: two versions are the same release exactly
/// when their texts are equal.
#[derive(Debug, PartialEq, Eq)]
pub struct ReleaseAssetInfo {
    pub download_url: String,
    pub version: String,
}

/// Mathematical value of a [`ReleaseAssetInfo`].
pub struct ReleaseAssetInfoView {
    pub download_url: Seq<char>,
    pub version: Seq<char>,
}

impl View for ReleaseAssetInfo {
    type V = ReleaseAssetInfoView;

    open spec fn view(&self) -> ReleaseAssetInfoView {
        ReleaseAssetInfoView { download_url: self.download_url@, version: self.version@ }
    }
}

impl Clone for ReleaseAssetInfo {
    fn clone(&self) -> (r: Self)
        ensures
            r == *self,
    {
        ReleaseAssetInfo { download_url: self.download_url.clone(), version: self.version.clone() }
    }
}

/// One downloadable file attached to a published release.
#[derive(Debug, PartialEq, Eq)]
pub struct ReleaseAsset {
    pub name: String,
    pub browser_download_url: String,
}

/// Mathematical value of a [`ReleaseAsset`].
pub struct ReleaseAssetView {
    pub name: Seq<char>,
    pub browser_download_url: Seq<char>,
}

impl View for ReleaseAsset {
    type V = ReleaseAssetView;

    open spec fn view(&self) -> ReleaseAssetView {
        ReleaseAssetView { name: self.name@, browser_download_url: self.browser_download_url@ }
    }
}

/// The most recent published release of a repository, as the hosting API
/// lists it.
#[derive(Debug, PartialEq, Eq)]
pub struct LatestRelease {
    pub tag_name: String,
    pub assets: Vec<ReleaseAsset>,
}

/// Mathematical value of a [`LatestRelease`].
pub struct LatestReleaseView {
    pub tag_name: Seq<char>,
    pub assets: Seq<ReleaseAssetView>,
}

impl View for LatestRelease {
    type V = LatestReleaseView;

    open spec fn view(&self) -> LatestReleaseView {
        LatestReleaseView {
            tag_name: self.tag_name@,
            assets: self.assets@.map_values(|a: ReleaseAsset| a@),
        }
    }
}

/// Why no release could be resolved.
#[derive(Debug, Clone, Copy, PartialEq, Eq, Structural)]
pub enum ReleaseError {
    /// The hosting API gave no latest release.
    ReleaseNotFound,
    /// The release has no asset of the configured name.
    AssetNotFound,
    /// The base URL cannot be joined with a file name.
    InvalidUrl,
    /// The version file could not be fetched or read at all.
    VersionFetchFailed,
    /// The version file's URL answered with a status outside 200 to 299.
    RemoteVersionUnavailable { status: u16 },
}

/// Views of both sides of a resolution result.
pub open spec fn release_result_view(r: Result<ReleaseAssetInfo, ReleaseError>) -> Result<
    ReleaseAssetInfoView,
    ReleaseError,
> {
    match r {
        Ok(info) => Ok(info@),
        Err(e) => Err(e),
    }
}

/// Download URL of the first asset called `name`, if there is one.
pub open spec fn asset_url(assets: Seq<ReleaseAssetView>, name: Seq<char>) -> Option<Seq<char>>
    decreases assets.len(),
{
    if assets.len() == 0 {
        None
    } else if assets.first().name == name {
        Some(assets.first().browser_download_url)
    } else {
        asset_url(assets.drop_first(), name)
    }
}

/// What a repository's answer resolves to: the release's tag is the version,
/// and the asset whose name equals `release_asset` gives the download URL.
pub open spec fn github_release(latest: Option<LatestReleaseView>, release_asset: Seq<char>) -> Result<
    ReleaseAssetInfoView,
    ReleaseError,
> {
    match latest {
        None => Err(ReleaseError::ReleaseNotFound),
        Some(release) => match asset_url(release.assets, release_asset) {
            Some(url) => Ok(ReleaseAssetInfoView { download_url: url, version: release.tag_name }),
            None => Err(ReleaseError::AssetNotFound),
        },
    }
}

/// `asset_url` finds an asset exactly when one of that name is listed, and
/// then gives the URL of the first such asset.
pub proof fn lemma_asset_url(assets: Seq<ReleaseAssetView>, name: Seq<char>)
    ensures
        asset_url(assets, name) is None <==> forall|i: int|
            0 <= i < assets.len() ==> (#[trigger] assets[i]).name != name,
        asset_url(assets, name) matches Some(url) ==> exists|i: int|
            0 <= i < assets.len() && (#[trigger] assets[i]).name == name && assets[i].browser_download_url
                == url && forall|j: int| 0 <= j < i ==> (#[trigger] assets[j]).name != name,
    decreases assets.len(),
{
    if assets.len() > 0 && assets.first().name != name {
        let rest = assets.drop_first();
        lemma_asset_url(rest, name);
        assert forall|i: int| 0 <= i < rest.len() implies rest[i] == assets[i + 1] by {}
        if asset_url(rest, name) is None {
            assert forall|i: int| 0 <= i < assets.len() implies (#[trigger] assets[i]).name
                != name by {
                if i > 0 {
                    assert(rest[i - 1].name != name);
                }
            }
        } else {
            let url = asset_url(rest, name)->0;
            let k = choose|i: int|
                0 <= i < rest.len() && (#[trigger] rest[i]).name == name && rest[i].browser_download_url
                    == url && forall|j: int| 0 <= j < i ==> (#[trigger] rest[j]).name != name;
            assert forall|j: int| 0 <= j < k + 1 implies (#[trigger] assets[j]).name != name by {
                if j > 0 {
                    assert(rest[j - 1].name != name);
                }
            }
        }
    }
}

/// Whether an HTTP status code reports success.
pub open spec fn status_is_success(code: u16) -> bool {
    200 <= code < 300
}

/// Decides `status_is_success`.
pub fn is_success(code: u16) -> (r: bool)
    ensures
        r == status_is_success(code),
{
    200 <= code && code < 300
}

/// What came back from asking for the version file.
#[derive(Debug, PartialEq, Eq)]
pub struct VersionReply {
    /// The response's status code.
    pub status: u16,
    /// The response's body as text, unless it could not be read.
    pub body: Option<String>,
}

/// The two URLs of a web release: the archive and the version file.
#[derive(Debug, PartialEq, Eq)]
pub struct WebReleaseUrls {
    pub release_url: String,
    pub version_url: String,
}

/// Mathematical value of a [`WebReleaseUrls`].
pub struct WebReleaseUrlsView {
    pub release_url: Seq<char>,
    pub version_url: Seq<char>,
}

impl View for WebReleaseUrls {
    type V = WebReleaseUrlsView;

    open spec fn view(&self) -> WebReleaseUrlsView {
        WebReleaseUrlsView { release_url: self.release_url@, version_url: self.version_url@ }
    }
}

/// Views of both sides of a located pair of URLs.
pub open spec fn urls_result_view(r: Result<WebReleaseUrls, ReleaseError>) -> Result<
    WebReleaseUrlsView,
    ReleaseError,
> {
    match r {
        Ok(urls) => Ok(urls@),
        Err(e) => Err(e),
    }
}

/// The pair of URLs made of two joined URLs, both of which are needed.
pub open spec fn paired_urls(release: Option<Seq<char>>, version: Option<Seq<char>>) -> Result<
    WebReleaseUrlsView,
    ReleaseError,
> {
    match (release, version) {
        (Some(release_url), Some(version_url)) => Ok(
            WebReleaseUrlsView { release_url, version_url },
        ),
        _ => Err(ReleaseError::InvalidUrl),
    }
}

impl WebReleaseUrls {
    /// Pairs the archive's URL with the version file's, if both were made.
    pub fn from_joined(release: Option<String>, version: Option<String>) -> (r: Result<
        WebReleaseUrls,
        ReleaseError,
    >)
        ensures
            urls_result_view(r) == paired_urls(release.deep_view(), version.deep_view()),
    {
        match release {
            Some(release_url) => match version {
                Some(version_url) => Ok(WebReleaseUrls { release_url, version_url }),
                None => Err(ReleaseError::InvalidUrl),
            },
            None => Err(ReleaseError::InvalidUrl),
        }
    }

    /// Joins the base URL with the archive's file name and with the version
    /// file's name.
    pub fn locate(base_url: &str, release_asset: &str, version_asset: &str) -> (r: Result<
        WebReleaseUrls,
        ReleaseError,
    >)
        ensures
            urls_result_view(r) == paired_urls(
                url_joined(base_url@, release_asset@),
                url_joined(base_url@, version_asset@),
            ),
    {
        let release = join_url(base_url, release_asset);
        let version = join_url(base_url, version_asset);
        WebReleaseUrls::from_joined(release, version)
    }
}

/// What a web release resolves to, given the archive's URL and the reply to
/// the request for the version file: the trimmed body is the version.
pub open spec fn web_release(release_url: Seq<char>, reply: Option<(u16, Option<Seq<char>>)>) -> Result<
    ReleaseAssetInfoView,
    ReleaseError,
> {
    match reply {
        None => Err(ReleaseError::VersionFetchFailed),
        Some((status, body)) => if !status_is_success(status) {
            Err(ReleaseError::RemoteVersionUnavailable { status })
        } else {
            match body {
                None => Err(ReleaseError::VersionFetchFailed),
                Some(text) => Ok(
                    ReleaseAssetInfoView { download_url: release_url, version: trimmed(text) },
                ),
            }
        },
    }
}

/// Mathematical value of an optional [`VersionReply`].
pub open spec fn reply_view(reply: Option<VersionReply>) -> Option<(u16, Option<Seq<char>>)> {
    match reply {
        None => None,
        Some(r) => Some((r.status, r.body.deep_view())),
    }
}

impl ReleaseAssetInfo {
    /// Resolves a release from a repository's latest published release, or
    /// from `None` where the hosting API gave none.
    pub fn from_github(latest: Option<LatestRelease>, release_asset: &str) -> (r: Result<
        ReleaseAssetInfo,
        ReleaseError,
    >)
        ensures
            release_result_view(r) == github_release(
                match latest {
                    Some(release) => Some(release@),
                    None => None,
                },
                release_asset@,
            ),
    {
        let release = match latest {
            Some(release) => release,
            None => {
                return Err(ReleaseError::ReleaseNotFound);
            },
        };
        let ghost assets = release@.assets;
        let n: usize = release.assets.len();
        let mut i: usize = 0;
        assert(assets.skip(0) =~= assets);
        while i < n
            invariant
                latest == Some(release),
                n == release.assets.len(),
                assets == release@.assets,
                assets.len() == n,
                i <= n,
                asset_url(assets, release_asset@) == asset_url(assets.skip(i as int), release_asset@),
            decreases n - i,
        {
            proof {
                assert(assets.skip(i as int).drop_first() =~= assets.skip(i + 1));
            }
            if str_eq(release.assets[i].name.as_str(), release_asset) {
                let download_url = release.assets[i].browser_download_url.clone();
                return Ok(ReleaseAssetInfo { download_url, version: release.tag_name });
            }
            i = i + 1;
        }
        Err(ReleaseError::AssetNotFound)
    }

    /// Resolves a web release from the archive's URL and the reply to the
    /// request for the version file, `None` where no reply came at all.
    pub fn from_url(urls: WebReleaseUrls, reply: Option<VersionReply>) -> (r: Result<
        ReleaseAssetInfo,
        ReleaseError,
    >)
        ensures
            release_result_view(r) == web_release(urls.release_url@, reply_view(reply)),
    {
        match reply {
            None => Err(ReleaseError::VersionFetchFailed),
            Some(reply) => {
                if !is_success(reply.status) {
                    Err(ReleaseError::RemoteVersionUnavailable { status: reply.status })
                } else {
                    match reply.body {
                        None => Err(ReleaseError::VersionFetchFailed),
                        Some(text) => Ok(
                            ReleaseAssetInfo {
                                download_url: urls.release_url,
                                version: trim(text.as_str()),
                            },
                        ),
                    }
                }
            },
        }
    }
}

} // verus!
