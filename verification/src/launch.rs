//! The launch command: what it is configured with, whether it has to install
//! or update before it starts XIVLauncher, and what it hands to the started
//! program.

use crate::release::{DEFAULT_REPO_NAME, DEFAULT_REPO_OWNER};
use crate::source::{AriaSource, AriaSourceView};
use crate::text::str_eq;
use crate::weburl::{parse_url, url_parsed};
use vstd::prelude::*;

verus! {

/// Where releases of XIVLauncher are looked up.
#[derive(Debug, PartialEq, Eq)]
pub enum ReleaseSource {
    /// The latest published release of a hosted repository.
    Repository { owner: String, name: String },
    /// A web directory that holds a version file and the release archive,
    /// given by its base URL as serialised text.
    Web { base_url: String },
}

/// Mathematical value of a [`ReleaseSource`].
pub enum ReleaseSourceView {
    Repository { owner: Seq<char>, name: Seq<char> },
    Web { base_url: Seq<char> },
}

impl View for ReleaseSource {
    type V = ReleaseSourceView;

    open spec fn view(&self) -> ReleaseSourceView {
        match self {
            ReleaseSource::Repository { owner, name } => ReleaseSourceView::Repository {
                owner: owner@,
                name: name@,
            },
            ReleaseSource::Web { base_url } => ReleaseSourceView::Web { base_url: base_url@ },
        }
    }
}

/// Why a configuration was turned down.
#[derive(Debug, Clone, Copy, PartialEq, Eq, Structural)]
pub enum ConfigError {
    /// A web base URL was given together with a repository owner or name.
    ConflictingReleaseSources,
    /// The web base URL is not a URL.
    InvalidWebUrl,
}

/// Views of both sides of a validated release source.
pub open spec fn source_config_view(r: Result<ReleaseSource, ConfigError>) -> Result<
    ReleaseSourceView,
    ConfigError,
> {
    match r {
        Ok(source) => Ok(source@),
        Err(e) => Err(e),
    }
}

/// The release source that the given options configure.
///
/// `web` is `None` where no base URL was given, and else holds what parsing
/// the given text yields. A base URL excludes a repository owner and name;
/// without one, the repository is used, with its defaults where the owner or
/// the name is not given.
pub open spec fn configured_source(
    owner: Option<Seq<char>>,
    name: Option<Seq<char>>,
    web: Option<Option<Seq<char>>>,
) -> Result<ReleaseSourceView, ConfigError> {
    match web {
        Some(parsed) => if owner is Some || name is Some {
            Err(ConfigError::ConflictingReleaseSources)
        } else {
            match parsed {
                Some(base_url) => Ok(ReleaseSourceView::Web { base_url }),
                None => Err(ConfigError::InvalidWebUrl),
            }
        },
        None => Ok(
            ReleaseSourceView::Repository {
                owner: match owner {
                    Some(o) => o,
                    None => "goatcorp"@,
                },
                name: match name {
                    Some(n) => n,
                    None => "XIVLauncher.Core"@,
                },
            },
        ),
    }
}

/// Mathematical value of a base URL that was perhaps given and perhaps parsed.
pub open spec fn web_view(web: Option<Option<String>>) -> Option<Option<Seq<char>>> {
    match web {
        Some(parsed) => Some(parsed.deep_view()),
        None => None,
    }
}

/// What parsing a perhaps given base URL yields.
pub open spec fn web_parsed(web_base: Option<Seq<char>>) -> Option<Option<Seq<char>>> {
    match web_base {
        Some(text) => Some(url_parsed(text)),
        None => None,
    }
}

impl ReleaseSource {
    /// Validates the options, with the base URL already parsed where one was
    /// given.
    pub fn from_options(owner: Option<String>, name: Option<String>, web: Option<Option<String>>) -> (r:
        Result<ReleaseSource, ConfigError>)
        ensures
            source_config_view(r) == configured_source(
                owner.deep_view(),
                name.deep_view(),
                web_view(web),
            ),
    {
        match web {
            Some(parsed) => {
                if owner.is_some() || name.is_some() {
                    Err(ConfigError::ConflictingReleaseSources)
                } else {
                    match parsed {
                        Some(base_url) => Ok(ReleaseSource::Web { base_url }),
                        None => Err(ConfigError::InvalidWebUrl),
                    }
                }
            },
            None => {
                let owner = match owner {
                    Some(o) => o,
                    None => DEFAULT_REPO_OWNER.to_owned(),
                };
                let name = match name {
                    Some(n) => n,
                    None => DEFAULT_REPO_NAME.to_owned(),
                };
                Ok(ReleaseSource::Repository { owner, name })
            },
        }
    }

    /// Validates the options as they were given on the command line.
    pub fn select(owner: Option<String>, name: Option<String>, web_base: Option<String>) -> (r:
        Result<ReleaseSource, ConfigError>)
        ensures
            source_config_view(r) == configured_source(
                owner.deep_view(),
                name.deep_view(),
                web_parsed(web_base.deep_view()),
            ),
    {
        let web = match web_base {
            Some(text) => Some(parse_url(text.as_str())),
            None => None,
        };
        ReleaseSource::from_options(owner, name, web)
    }
}

/// What is known of the installation when a launch begins.
#[derive(Debug, Clone, Copy, PartialEq, Eq, Structural)]
pub enum InstallState {
    /// The XIVLauncher executable is not in the install root.
    NotInstalled,
    /// The executable is there and the version marker names the remote
    /// version.
    InstalledCurrent,
    /// The executable is there, and the version marker is missing, cannot be
    /// read or names another version.
    InstalledStale,
}

/// What to do before XIVLauncher is started.
#[derive(Debug, Clone, Copy, PartialEq, Eq, Structural)]
pub enum UpdateDecision {
    /// Start what is installed.
    Launch,
    /// Install or update first. `is_update` tells whether a version marker
    /// could be read.
    Install { is_update: bool },
}

/// The state of an installation, from whether the executable is present,
/// what the version marker holds if it can be read, and the remote version.
///
/// Versions are compared as texts, character for character.
pub open spec fn install_state(exe_present: bool, marker: Option<Seq<char>>, remote: Seq<char>) -> InstallState {
    if !exe_present {
        InstallState::NotInstalled
    } else if marker == Some(remote) {
        InstallState::InstalledCurrent
    } else {
        InstallState::InstalledStale
    }
}

/// Whether an installation in `state` is installed or updated before the
/// launch.
pub open spec fn needs_install(state: InstallState, skip_update: bool) -> bool {
    match state {
        InstallState::NotInstalled => true,
        InstallState::InstalledCurrent => false,
        InstallState::InstalledStale => !skip_update,
    }
}

/// The decision for each row of the decision table.
pub open spec fn update_decision(
    exe_present: bool,
    skip_update: bool,
    marker: Option<Seq<char>>,
    remote: Seq<char>,
) -> UpdateDecision {
    if needs_install(install_state(exe_present, marker, remote), skip_update) {
        UpdateDecision::Install { is_update: marker is Some }
    } else {
        UpdateDecision::Launch
    }
}

/// Classifies the installation.
pub fn classify(exe_present: bool, marker: &Option<String>, remote: &str) -> (r: InstallState)
    ensures
        r == install_state(exe_present, marker.deep_view(), remote@),
{
    if !exe_present {
        InstallState::NotInstalled
    } else {
        match marker {
            Some(local) => {
                if str_eq(local.as_str(), remote) {
                    InstallState::InstalledCurrent
                } else {
                    InstallState::InstalledStale
                }
            },
            None => InstallState::InstalledStale,
        }
    }
}

/// One variable set for the started program.
#[derive(Debug, PartialEq, Eq)]
pub struct EnvVar {
    pub name: String,
    pub value: String,
}

/// Mathematical value of an [`EnvVar`].
pub struct EnvVarView {
    pub name: Seq<char>,
    pub value: Seq<char>,
}

impl View for EnvVar {
    type V = EnvVarView;

    open spec fn view(&self) -> EnvVarView {
        EnvVarView { name: self.name@, value: self.value@ }
    }
}

/// How XIVLauncher is started.
#[derive(Debug, PartialEq, Eq)]
pub struct ChildLaunch {
    /// Name of the executable below the install root.
    pub program: String,
    /// Variables to set, in this order.
    pub set: Vec<EnvVar>,
    /// Variables to take out of the environment.
    pub unset: Vec<String>,
}

/// Mathematical value of a [`ChildLaunch`].
pub struct ChildLaunchView {
    pub program: Seq<char>,
    pub set: Seq<EnvVarView>,
    pub unset: Seq<Seq<char>>,
}

impl View for ChildLaunch {
    type V = ChildLaunchView;

    open spec fn view(&self) -> ChildLaunchView {
        ChildLaunchView {
            program: self.program@,
            set: self.set@.map_values(|v: EnvVar| v@),
            unset: self.unset@.map_values(|n: String| n@),
        }
    }
}

/// The variables set for XIVLauncher.
///
/// `XL_SECRET_PROVIDER` selects the file-based secrets provider, `XL_SCT`
/// turns on the compatibility tool mode, and `XL_PRELOAD` carries the value
/// that `LD_PRELOAD` had for the wrapper, empty where it had none.
pub open spec fn child_variables(
    use_fallback_secret_provider: bool,
    run_as_steam_compat_tool: bool,
    ld_preload: Option<Seq<char>>,
) -> Seq<EnvVarView> {
    let secret = if use_fallback_secret_provider {
        seq![EnvVarView { name: "XL_SECRET_PROVIDER"@, value: "FILE"@ }]
    } else {
        Seq::<EnvVarView>::empty()
    };
    let compat = if run_as_steam_compat_tool {
        seq![EnvVarView { name: "XL_SCT"@, value: "1"@ }]
    } else {
        Seq::<EnvVarView>::empty()
    };
    let preload = seq![
        EnvVarView {
            name: "XL_PRELOAD"@,
            value: match ld_preload {
                Some(value) => value,
                None => Seq::<char>::empty(),
            },
        },
    ];
    secret + compat + preload
}

/// How XIVLauncher is started: the executable, the variables set for it, and
/// `LD_PRELOAD` taken out of its environment.
pub open spec fn child_launch(
    use_fallback_secret_provider: bool,
    run_as_steam_compat_tool: bool,
    ld_preload: Option<Seq<char>>,
) -> ChildLaunchView {
    ChildLaunchView {
        program: "XIVLauncher.Core"@,
        set: child_variables(use_fallback_secret_provider, run_as_steam_compat_tool, ld_preload),
        unset: seq!["LD_PRELOAD"@],
    }
}

/// Install or update XIVLauncher and then open it.
#[derive(Debug, PartialEq, Eq)]
pub struct LaunchCommand {
    /// Where releases of XIVLauncher are looked up.
    pub release_source: ReleaseSource,
    /// Name of the release archive that holds a self-contained XIVLauncher.
    pub xlcore_release_asset: String,
    /// Source of the tarball that holds the `aria2c` binary.
    pub aria_source: AriaSource,
    /// Use XIVLauncher's file-based secrets provider in place of the system's.
    pub use_fallback_secret_provider: bool,
    /// Run XIVLauncher in Steam compatibility tool mode.
    pub run_as_steam_compat_tool: bool,
    /// Skip checking for and installing new versions of XIVLauncher. This
    /// does not keep XIVLauncher from being installed when it is not present.
    pub skip_update: bool,
}

/// Mathematical value of a [`LaunchCommand`].
pub struct LaunchCommandView {
    pub release_source: ReleaseSourceView,
    pub xlcore_release_asset: Seq<char>,
    pub aria_source: AriaSourceView,
    pub use_fallback_secret_provider: bool,
    pub run_as_steam_compat_tool: bool,
    pub skip_update: bool,
}

impl View for LaunchCommand {
    type V = LaunchCommandView;

    open spec fn view(&self) -> LaunchCommandView {
        LaunchCommandView {
            release_source: self.release_source@,
            xlcore_release_asset: self.xlcore_release_asset@,
            aria_source: self.aria_source@,
            use_fallback_secret_provider: self.use_fallback_secret_provider,
            run_as_steam_compat_tool: self.run_as_steam_compat_tool,
            skip_update: self.skip_update,
        }
    }
}

impl LaunchCommand {
    /// Decides whether to install or update before the launch.
    pub fn decide(&self, exe_present: bool, marker: &Option<String>, remote: &str) -> (r: UpdateDecision)
        ensures
            r == update_decision(exe_present, self.skip_update, marker.deep_view(), remote@),
    {
        let install = match classify(exe_present, marker, remote) {
            InstallState::NotInstalled => true,
            InstallState::InstalledCurrent => false,
            InstallState::InstalledStale => !self.skip_update,
        };
        if install {
            UpdateDecision::Install { is_update: marker.is_some() }
        } else {
            UpdateDecision::Launch
        }
    }

    /// How to start XIVLauncher, given the value that `LD_PRELOAD` has for
    /// the wrapper.
    pub fn child_launch(&self, ld_preload: &Option<String>) -> (r: ChildLaunch)
        ensures
            r@ == child_launch(
                self.use_fallback_secret_provider,
                self.run_as_steam_compat_tool,
                ld_preload.deep_view(),
            ),
    {
        let mut set: Vec<EnvVar> = Vec::new();
        if self.use_fallback_secret_provider {
            set.push(EnvVar { name: "XL_SECRET_PROVIDER".to_owned(), value: "FILE".to_owned() });
        }
        if self.run_as_steam_compat_tool {
            set.push(EnvVar { name: "XL_SCT".to_owned(), value: "1".to_owned() });
        }
        let value = match ld_preload {
            Some(value) => value.clone(),
            None => String::new(),
        };
        set.push(EnvVar { name: "XL_PRELOAD".to_owned(), value });
        let mut unset: Vec<String> = Vec::new();
        unset.push("LD_PRELOAD".to_owned());
        let r = ChildLaunch { program: "XIVLauncher.Core".to_owned(), set, unset };
        assert(r@.set =~= child_variables(
            self.use_fallback_secret_provider,
            self.run_as_steam_compat_tool,
            ld_preload.deep_view(),
        ));
        assert(r@.unset =~= seq!["LD_PRELOAD"@]);
        r
    }
}

/// An installation counts as current exactly when the executable is present
/// and the version marker holds the remote version, character for character:
/// only then is an update not due. Any difference, be it one space, makes
/// the installation stale.
pub proof fn lemma_current_iff_identical(local: Seq<char>, remote: Seq<char>)
    ensures
        install_state(true, Some(local), remote) == InstallState::InstalledCurrent <==> local
            == remote,
        local != remote ==> install_state(true, Some(local), remote) == InstallState::InstalledStale,
        update_decision(true, false, Some(local), remote) == UpdateDecision::Launch <==> local
            == remote,
        local != remote ==> update_decision(true, false, Some(local), remote)
            == (UpdateDecision::Install { is_update: true }),
{
}

/// A version that differs from another only by a character added at its end
/// is another version.
pub proof fn lemma_appended_character_differs(version: Seq<char>, c: char)
    ensures
        update_decision(true, false, Some(version.push(c)), version) == (UpdateDecision::Install {
            is_update: true,
        }),
{
    assert(version.push(c).len() != version.len());
}

/// Without the executable the decision is to install, whatever the version
/// marker holds and whether or not updates are skipped. So it is for a fresh
/// install root, which holds neither executable nor marker.
pub proof fn lemma_not_installed_installs(skip_update: bool, marker: Option<Seq<char>>, remote: Seq<char>)
    ensures
        update_decision(false, skip_update, marker, remote) is Install,
        update_decision(false, skip_update, None, remote) == (UpdateDecision::Install {
            is_update: false,
        }),
{
}

/// With the executable present and updates skipped, the decision is to
/// launch, whatever the version marker holds.
pub proof fn lemma_skip_update_launches(marker: Option<Seq<char>>, remote: Seq<char>)
    ensures
        update_decision(true, true, marker, remote) == UpdateDecision::Launch,
{
}

/// With the executable present and updates not skipped, a missing version
/// marker leads to an installation.
pub proof fn lemma_missing_marker_installs(remote: Seq<char>)
    ensures
        update_decision(true, false, None, remote) == (UpdateDecision::Install { is_update: false }),
{
}

} // verus!
