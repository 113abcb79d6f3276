//! Build descriptors: what the update manifest says of a release, the
//! builds it offers, and where each is fetched from.

use vstd::prelude::*;

verus! {

/// The server that publishes the builds.
pub const UPDATE_DOMAIN: &'static str = "https://music-desktop-application.s3.yandex.net";

/// The user agent sent when the manifest is requested.
pub const USER_AGENT: &'static str =
    "Mozilla/5.0 (Windows NT 10.0; Win64; x64) AppleWebKit/537.36 (KHTML, like Gecko) Chrome/120.0.0.0 Safari/537.36";

/// The view of a text that may be absent.
pub open spec fn optional_text(text: Option<String>) -> Option<Seq<char>> {
    match text {
        Some(t) => Some(t@),
        None => None,
    }
}

/// One file of a release, as the manifest lists it.
#[derive(Debug)]
pub struct UpdateFile {
    pub url: String,
    pub sha512: String,
    pub size: u64,
}

/// The settings that the manifest shares between releases.
#[derive(Debug)]
pub struct CommonConfig {
    pub deprecated_versions: Option<String>,
}

/// A release, as the manifest describes it.
#[derive(Debug)]
pub struct UpdateInfo {
    pub files: Vec<UpdateFile>,
    pub release_date: Option<String>,
    pub version: String,
    pub common_config: Option<CommonConfig>,
}

/// One build of a release: a file with what the release says of it.
#[derive(Debug, Clone)]
pub struct AppBuild {
    pub path: String,
    pub hash: String,
    pub size: u64,
    pub release_date: Option<String>,
    pub version: String,
    pub deprecated_versions: Option<String>,
}

/// The mathematical value of an [`AppBuild`].
pub struct AppBuildView {
    pub path: Seq<char>,
    pub hash: Seq<char>,
    pub size: u64,
    pub release_date: Option<Seq<char>>,
    pub version: Seq<char>,
    pub deprecated_versions: Option<Seq<char>>,
}

impl View for AppBuild {
    type V = AppBuildView;

    open spec fn view(&self) -> AppBuildView {
        AppBuildView {
            path: self.path@,
            hash: self.hash@,
            size: self.size,
            release_date: optional_text(self.release_date),
            version: self.version@,
            deprecated_versions: optional_text(self.deprecated_versions),
        }
    }
}

/// The versions that the release declares deprecated, if it says so.
pub open spec fn deprecated_versions_spec(info: UpdateInfo) -> Option<Seq<char>> {
    match info.common_config {
        Some(config) => optional_text(config.deprecated_versions),
        None => None,
    }
}

/// The build that a release offers with one of its files.
pub open spec fn build_spec(info: UpdateInfo, file: UpdateFile) -> AppBuildView {
    AppBuildView {
        path: file.url@,
        hash: file.sha512@,
        size: file.size,
        release_date: optional_text(info.release_date),
        version: info.version@,
        deprecated_versions: deprecated_versions_spec(info),
    }
}

/// A copy of a text that may be absent.
fn copy_optional(text: &Option<String>) -> (r: Option<String>)
    ensures
        optional_text(r) == optional_text(*text),
{
    match text {
        Some(t) => Some(t.clone()),
        None => None,
    }
}

/// The builds that a release offers: one for each of its files, in the
/// order of the files, each with the release's date, version and
/// deprecated versions.
pub fn builds_from_update(info: &UpdateInfo) -> (r: Vec<AppBuild>)
    ensures
        r@.len() == info.files@.len(),
        forall|i: int| 0 <= i < r@.len() ==> (#[trigger] r@[i])@ == build_spec(*info, info.files@[i]),
{
    let mut builds: Vec<AppBuild> = Vec::new();
    let mut i: usize = 0;
    while i < info.files.len()
        invariant
            i <= info.files.len(),
            builds@.len() == i,
            forall|j: int|
                0 <= j < i ==> (#[trigger] builds@[j])@ == build_spec(*info, info.files@[j]),
        decreases info.files.len() - i,
    {
        let file = &info.files[i];
        let deprecated = match &info.common_config {
            Some(config) => copy_optional(&config.deprecated_versions),
            None => None,
        };
        builds.push(
            AppBuild {
                path: file.url.clone(),
                hash: file.sha512.clone(),
                size: file.size,
                release_date: copy_optional(&info.release_date),
                version: info.version.clone(),
                deprecated_versions: deprecated,
            },
        );
        i += 1;
    }
    builds
}

/// Where the manifest of the stable channel is fetched from.
pub fn manifest_url() -> (r: String)
    ensures
        r@ == UPDATE_DOMAIN@ + "/stable/latest.yml"@,
{
    UPDATE_DOMAIN.to_owned().concat("/stable/latest.yml")
}

/// Where a build is fetched from.
pub fn download_url(build: &AppBuild) -> (r: String)
    ensures
        r@ == UPDATE_DOMAIN@ + "/stable/"@ + build@.path,
{
    UPDATE_DOMAIN.to_owned().concat("/stable/").concat(build.path.as_str())
}

} // verus!
