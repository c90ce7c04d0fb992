//! Release lookup and the schedule of update checks.
use vstd::prelude::*;
use crate::text::{contains, decimal, decimal_string, ends_with, has_infix, is_suffix, lower_of, lowercase, text_eq};

verus! {

/// An update offered by the update service.
#[derive(Debug, Clone)]
pub struct UpdateInfo {
    pub version: String,
    pub notes: String,
    pub pub_date: String,
    pub signature: String,
    pub url: String,
}

/// The outcome of an update check.
#[derive(Debug, Clone)]
pub struct UpdateStatus {
    pub available: bool,
    pub current_version: String,
    pub latest_version: Option<String>,
    pub download_url: Option<String>,
    pub body: Option<String>,
}

/// One published release.
#[derive(Debug, Clone)]
pub struct GitHubRelease {
    pub tag_name: String,
    pub name: String,
    pub body: String,
    pub published_at: String,
    pub prerelease: bool,
    pub assets: Vec<GitHubAsset>,
}

/// One downloadable file of a release.
#[derive(Debug, Clone)]
pub struct GitHubAsset {
    pub name: String,
    pub browser_download_url: String,
    pub size: u64,
    pub content_type: String,
}

/// Whether a lowercased asset name is built for `platform`.
pub open spec fn platform_matches(name: Seq<char>, platform: Seq<char>) -> bool {
    if platform == "windows"@ {
        has_infix("windows"@, name) || is_suffix(".msi"@, name) || is_suffix(".exe"@, name)
    } else if platform == "macos"@ {
        has_infix("darwin"@, name) || has_infix("macos"@, name) || is_suffix(".dmg"@, name) || is_suffix(".app.tar.gz"@, name)
    } else if platform == "linux"@ {
        has_infix("linux"@, name) || is_suffix(".deb"@, name) || is_suffix(".rpm"@, name) || is_suffix(".AppImage"@, name)
    } else {
        false
    }
}

/// Whether a lowercased asset name fits `platform` and `arch` (`universal` fits any name).
pub open spec fn asset_fits(name: Seq<char>, platform: Seq<char>, arch: Seq<char>) -> bool {
    platform_matches(name, platform) && (arch == "universal"@ || has_infix(arch, name))
}

/// Whether the asset with the lowercased name `lower_name` fits `platform` and `arch`.
pub fn asset_name_fits(lower_name: &str, platform: &str, arch: &str) -> (r: bool)
    ensures
        r == asset_fits(lower_name@, platform@, arch@),
{
    let n = lower_name;
    let platform_match = if text_eq(platform, "windows") {
        contains(n, "windows") || ends_with(n, ".msi") || ends_with(n, ".exe")
    } else if text_eq(platform, "macos") {
        contains(n, "darwin") || contains(n, "macos") || ends_with(n, ".dmg") || ends_with(n, ".app.tar.gz")
    } else if text_eq(platform, "linux") {
        contains(n, "linux") || ends_with(n, ".deb") || ends_with(n, ".rpm") || ends_with(n, ".AppImage")
    } else {
        false
    };
    platform_match && (text_eq(arch, "universal") || contains(n, arch))
}

/// The position of the first asset whose lowercased name fits `platform` and `arch`, or -1.
pub open spec fn first_fitting(assets: Seq<GitHubAsset>, platform: Seq<char>, arch: Seq<char>) -> int
    decreases assets.len(),
{
    if assets.len() == 0 {
        -1
    } else if asset_fits(lower_of(assets[0].name@), platform, arch) {
        0
    } else {
        let r = first_fitting(assets.drop_first(), platform, arch);
        if r < 0 {
            -1
        } else {
            r + 1
        }
    }
}

proof fn lemma_first_fitting_bounds(assets: Seq<GitHubAsset>, platform: Seq<char>, arch: Seq<char>)
    ensures
        -1 <= first_fitting(assets, platform, arch) < assets.len(),
    decreases assets.len(),
{
    if assets.len() > 0 {
        lemma_first_fitting_bounds(assets.drop_first(), platform, arch);
    }
}

/// Where releases of one repository are looked up.
pub struct GitHubClient {
    token: Option<String>,
    repo_owner: String,
    repo_name: String,
}

/// The address of the latest release of `owner/name`.
pub open spec fn latest_release_url_of(owner: Seq<char>, name: Seq<char>) -> Seq<char> {
    "https://api.github.com/repos/"@ + owner + "/"@ + name + "/releases/latest"@
}

/// The address of the `per_page` most recent releases of `owner/name`.
pub open spec fn releases_url_of(owner: Seq<char>, name: Seq<char>, per_page: u32) -> Seq<char> {
    "https://api.github.com/repos/"@ + owner + "/"@ + name + "/releases?per_page="@ + decimal(per_page as nat)
}

impl GitHubClient {
    /// The repository owner.
    pub closed spec fn owner(&self) -> Seq<char> {
        self.repo_owner@
    }

    /// The repository name.
    pub closed spec fn repo(&self) -> Seq<char> {
        self.repo_name@
    }

    /// The access token, if any.
    pub closed spec fn access_token(&self) -> Option<String> {
        self.token
    }

    /// A client for the releases of `repo_owner/repo_name`, authenticated with `token` if given.
    pub fn new(repo_owner: String, repo_name: String, token: Option<String>) -> (r: Self)
        ensures
            r.owner() == repo_owner@,
            r.repo() == repo_name@,
            r.access_token() == token,
    {
        GitHubClient { token, repo_owner, repo_name }
    }

    /// The address of the latest release.
    pub fn latest_release_url(&self) -> (r: String)
        ensures
            r@ == latest_release_url_of(self.owner(), self.repo()),
    {
        let mut r = String::from_str("https://api.github.com/repos/");
        r.append(self.repo_owner.as_str());
        r.append("/");
        r.append(self.repo_name.as_str());
        r.append("/releases/latest");
        r
    }

    /// The address of the `per_page` most recent releases.
    pub fn releases_url(&self, per_page: u32) -> (r: String)
        ensures
            r@ == releases_url_of(self.owner(), self.repo(), per_page),
    {
        let mut r = String::from_str("https://api.github.com/repos/");
        r.append(self.repo_owner.as_str());
        r.append("/");
        r.append(self.repo_name.as_str());
        r.append("/releases?per_page=");
        let n = decimal_string(per_page as u64);
        r.append(n.as_str());
        r
    }

    /// The value of the `Authorization` header, when the client has a token: `token <token>`.
    pub fn authorization(&self) -> (r: Option<String>)
        ensures
            match self.access_token() {
                Some(t) => r is Some && r->0@ == "token "@ + t@,
                None => r is None,
            },
    {
        match &self.token {
            Some(t) => {
                let mut h = String::from_str("token ");
                h.append(t.as_str());
                Some(h)
            },
            None => None,
        }
    }

    /// The first asset of `release`, in order, built for `platform` on `arch`; asset
    /// names are compared lowercased.
    pub fn get_platform_asset<'a>(&self, release: &'a GitHubRelease, platform: &str, arch: &str) -> (r: Option<&'a GitHubAsset>)
        ensures
            ({
                let i = first_fitting(release.assets@, platform@, arch@);
                match r {
                    Some(a) => 0 <= i < release.assets@.len() && *a == release.assets@[i],
                    None => i == -1,
                }
            }),
    {
        let assets = &release.assets;
        let mut i: usize = 0;
        proof {
            assert(assets@.skip(0) =~= assets@);
            lemma_first_fitting_bounds(assets@, platform@, arch@);
        }
        while i < assets.len()
            invariant
                assets@ == release.assets@,
                i <= assets@.len(),
                first_fitting(assets@, platform@, arch@) == if first_fitting(assets@.skip(i as int), platform@, arch@) < 0 {
                    -1
                } else {
                    first_fitting(assets@.skip(i as int), platform@, arch@) + i
                },
            decreases assets@.len() - i,
        {
            let ghost rest = assets@.skip(i as int);
            assert(rest.drop_first() =~= assets@.skip(i + 1));
            assert(rest[0] == assets@[i as int]);
            let lower = lowercase(assets[i].name.as_str());
            if asset_name_fits(lower.as_str(), platform, arch) {
                return Some(&assets[i]);
            }
            i = i + 1;
        }
        proof {
            assert(assets@.skip(i as int).len() == 0);
        }
        None
    }
}

/// How often, and whether, updates are looked for.
#[derive(Debug, Clone)]
pub struct UpdateSchedulerConfig {
    pub enabled: bool,
    pub check_interval_hours: u64,
    pub auto_download: bool,
    pub auto_install: bool,
}

impl Default for UpdateSchedulerConfig {
    /// Checks switched off, once a day when switched on, nothing automatic.
    fn default() -> (r: Self)
        ensures
            !r.enabled,
            r.check_interval_hours == 24,
            !r.auto_download,
            !r.auto_install,
    {
        UpdateSchedulerConfig { enabled: false, check_interval_hours: 24, auto_download: false, auto_install: false }
    }
}

/// Milliseconds in an hour.
pub const MS_PER_HOUR: u64 = 3_600_000;

/// Whether a check is due at `now` (milliseconds since the epoch): checks are enabled, and
/// there was no check yet or the last one is at least the interval ago. A clock that went
/// back counts as no time having passed.
pub open spec fn check_due(config: UpdateSchedulerConfig, last_check: Option<u64>, now: u64) -> bool {
    config.enabled && match last_check {
        None => true,
        Some(last) => {
            let elapsed: int = if now >= last { now - last } else { 0 };
            elapsed >= config.check_interval_hours * MS_PER_HOUR
        },
    }
}

/// Decides when the next update check is due.
pub struct UpdateScheduler {
    config: UpdateSchedulerConfig,
    last_check: Option<u64>,
}

impl UpdateScheduler {
    /// The schedule in force.
    pub closed spec fn config(&self) -> UpdateSchedulerConfig {
        self.config
    }

    /// When the last check happened, in milliseconds since the epoch.
    pub closed spec fn last_check(&self) -> Option<u64> {
        self.last_check
    }

    /// A scheduler with no check done yet.
    pub fn new(config: UpdateSchedulerConfig) -> (r: Self)
        ensures
            r.config() == config,
            r.last_check() is None,
    {
        UpdateScheduler { config, last_check: None }
    }

    /// Whether a check is due at `now_ms` milliseconds since the epoch.
    pub fn should_check_for_updates(&self, now_ms: u64) -> (r: bool)
        ensures
            r == check_due(self.config(), self.last_check(), now_ms),
    {
        if !self.config.enabled {
            return false;
        }
        match self.last_check {
            Some(last) => {
                let elapsed = if now_ms >= last { now_ms - last } else { 0 };
                proof {
                    assert(elapsed / MS_PER_HOUR >= self.config.check_interval_hours
                        <==> elapsed >= self.config.check_interval_hours * MS_PER_HOUR) by (nonlinear_arith);
                }
                elapsed / MS_PER_HOUR >= self.config.check_interval_hours
            },
            None => true,
        }
    }

    /// Records a check made at `now_ms`.
    pub fn mark_checked(&mut self, now_ms: u64)
        ensures
            final(self).config() == old(self).config(),
            final(self).last_check() == Some(now_ms),
    {
        self.last_check = Some(now_ms);
    }

    /// Replaces the schedule; the time of the last check is kept.
    pub fn update_config(&mut self, config: UpdateSchedulerConfig)
        ensures
            final(self).config() == config,
            final(self).last_check() == old(self).last_check(),
    {
        self.config = config;
    }
}

} // verus!
