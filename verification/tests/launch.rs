use xlm::launch::{
    classify, ChildLaunch, ConfigError, EnvVar, InstallState, LaunchCommand, ReleaseSource,
    UpdateDecision,
};
use xlm::source::AriaSource;

fn command(skip_update: bool) -> LaunchCommand {
    LaunchCommand {
        release_source: ReleaseSource::Repository {
            owner: "goatcorp".to_string(),
            name: "XIVLauncher.Core".to_string(),
        },
        xlcore_release_asset: "XIVLauncher.Core.tar.gz".to_string(),
        aria_source: AriaSource::Embedded,
        use_fallback_secret_provider: false,
        run_as_steam_compat_tool: true,
        skip_update,
    }
}

fn some(s: &str) -> Option<String> {
    Some(s.to_string())
}

fn var(name: &str, value: &str) -> EnvVar {
    EnvVar { name: name.to_string(), value: value.to_string() }
}

#[test]
fn installed_and_skipping_updates_launches() {
    for marker in [None, some("1.0"), some("2.0")] {
        assert_eq!(command(true).decide(true, &marker, "2.0"), UpdateDecision::Launch);
    }
}

#[test]
fn installed_and_current_launches() {
    assert_eq!(command(false).decide(true, &some("2.0"), "2.0"), UpdateDecision::Launch);
}

#[test]
fn installed_and_stale_updates() {
    assert_eq!(
        command(false).decide(true, &some("1.0"), "2.0"),
        UpdateDecision::Install { is_update: true }
    );
}

#[test]
fn installed_without_marker_installs() {
    assert_eq!(
        command(false).decide(true, &None, "2.0"),
        UpdateDecision::Install { is_update: false }
    );
}

#[test]
fn not_installed_always_installs() {
    for skip in [false, true] {
        assert_eq!(
            command(skip).decide(false, &None, "2.0"),
            UpdateDecision::Install { is_update: false }
        );
        assert_eq!(
            command(skip).decide(false, &some("2.0"), "2.0"),
            UpdateDecision::Install { is_update: true }
        );
        assert_eq!(
            command(skip).decide(false, &some("1.0"), "2.0"),
            UpdateDecision::Install { is_update: true }
        );
    }
}

#[test]
fn versions_are_compared_character_for_character() {
    let install = UpdateDecision::Install { is_update: true };
    let remote = "1.2.3";
    for local in ["1.2.3 ", " 1.2.3", "1.2.3\n", "v1.2.3", "1.2.03", "1.2", "", "1.2.3\u{0}"] {
        assert_eq!(command(false).decide(true, &some(local), remote), install, "{local:?}");
        assert_eq!(classify(true, &some(local), remote), InstallState::InstalledStale);
    }
    assert_eq!(command(false).decide(true, &some("1.2.3"), remote), UpdateDecision::Launch);
    assert_eq!(command(false).decide(true, &some(""), ""), UpdateDecision::Launch);
}

#[test]
fn installations_are_classified() {
    assert_eq!(classify(false, &None, "1"), InstallState::NotInstalled);
    assert_eq!(classify(false, &some("1"), "1"), InstallState::NotInstalled);
    assert_eq!(classify(true, &some("1"), "1"), InstallState::InstalledCurrent);
    assert_eq!(classify(true, &some("0"), "1"), InstallState::InstalledStale);
    assert_eq!(classify(true, &None, "1"), InstallState::InstalledStale);
}

#[test]
fn child_gets_the_preload_value_under_another_name() {
    let launch = command(false).child_launch(&some("/usr/lib/overlay.so"));
    assert_eq!(
        launch,
        ChildLaunch {
            program: "XIVLauncher.Core".to_string(),
            set: vec![var("XL_SCT", "1"), var("XL_PRELOAD", "/usr/lib/overlay.so")],
            unset: vec!["LD_PRELOAD".to_string()],
        }
    );
}

#[test]
fn child_environment_follows_the_flags() {
    let mut cmd = command(false);
    cmd.use_fallback_secret_provider = true;
    cmd.run_as_steam_compat_tool = true;
    assert_eq!(
        cmd.child_launch(&None).set,
        vec![var("XL_SECRET_PROVIDER", "FILE"), var("XL_SCT", "1"), var("XL_PRELOAD", "")]
    );
    cmd.run_as_steam_compat_tool = false;
    assert_eq!(
        cmd.child_launch(&None).set,
        vec![var("XL_SECRET_PROVIDER", "FILE"), var("XL_PRELOAD", "")]
    );
    cmd.use_fallback_secret_provider = false;
    assert_eq!(cmd.child_launch(&None).set, vec![var("XL_PRELOAD", "")]);
    assert_eq!(cmd.child_launch(&None).unset, vec!["LD_PRELOAD".to_string()]);
}

#[test]
fn repository_is_the_default_release_source() {
    assert_eq!(
        ReleaseSource::select(None, None, None),
        Ok(ReleaseSource::Repository {
            owner: "goatcorp".to_string(),
            name: "XIVLauncher.Core".to_string(),
        })
    );
    assert_eq!(
        ReleaseSource::select(some("me"), None, None),
        Ok(ReleaseSource::Repository { owner: "me".to_string(), name: "XIVLauncher.Core".to_string() })
    );
    assert_eq!(
        ReleaseSource::select(some("me"), some("fork"), None),
        Ok(ReleaseSource::Repository { owner: "me".to_string(), name: "fork".to_string() })
    );
}

#[test]
fn web_base_url_is_parsed() {
    assert_eq!(
        ReleaseSource::select(None, None, some("HTTPS://Example.net/releases")),
        Ok(ReleaseSource::Web { base_url: "https://example.net/releases".to_string() })
    );
    assert_eq!(
        ReleaseSource::select(None, None, some("https://x")),
        Ok(ReleaseSource::Web { base_url: "https://x/".to_string() })
    );
    assert_eq!(
        ReleaseSource::select(None, None, some("no url")),
        Err(ConfigError::InvalidWebUrl)
    );
}

#[test]
fn web_base_url_excludes_a_repository() {
    let conflict = Err(ConfigError::ConflictingReleaseSources);
    assert_eq!(ReleaseSource::select(some("me"), None, some("https://x/")), conflict);
    assert_eq!(ReleaseSource::select(None, some("fork"), some("https://x/")), conflict);
    assert_eq!(ReleaseSource::select(some("me"), some("fork"), some("https://x/")), conflict);
    assert_eq!(ReleaseSource::select(some("me"), None, some("no url")), conflict);
}

#[test]
fn options_with_a_url_that_was_parsed_before() {
    assert_eq!(
        ReleaseSource::from_options(None, None, Some(some("https://x/"))),
        Ok(ReleaseSource::Web { base_url: "https://x/".to_string() })
    );
    assert_eq!(
        ReleaseSource::from_options(None, None, Some(None)),
        Err(ConfigError::InvalidWebUrl)
    );
}
