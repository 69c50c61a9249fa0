use std::collections::HashMap;
use xlm::install::{
    install_or_update_xlcore, Directive, ErrorClass, InstallError, InstallPhase, Installer,
    Operation, Outcome, ARIA2C_BIN_FILENAME, DEFAULT_INSTALL_DIRNAME, XIVLAUNCHER_BIN_FILENAME,
    XIVLAUNCHER_VERSIONDATA_LOCAL_FILENAME,
};
use xlm::release::ReleaseAssetInfo;
use xlm::source::AriaSource;

fn release(version: &str) -> ReleaseAssetInfo {
    ReleaseAssetInfo {
        download_url: "https://dl.example/XIVLauncher.Core.tar.gz".to_string(),
        version: version.to_string(),
    }
}

fn directive(progress: &str, operation: Operation) -> Directive {
    Directive { progress: Some(progress.to_string()), operation }
}

/// An install root held in memory: `None` while the directory does not exist.
struct Root {
    files: Option<HashMap<String, Vec<u8>>>,
    removable: bool,
}

/// Performs one operation on the root, with the two archives given as the
/// names of the files that they hold.
fn perform(root: &mut Root, operation: &Operation, release: &[&str], payload: &[&str]) -> Outcome {
    match operation {
        Operation::FetchRelease { .. } => Outcome::Succeeded,
        Operation::UseEmbeddedPayload => Outcome::Succeeded,
        Operation::FetchPayload { .. } => Outcome::Succeeded,
        Operation::ReadPayloadFile { .. } => Outcome::Succeeded,
        Operation::RemoveRoot => match (&root.files, root.removable) {
            (None, _) => Outcome::Absent,
            (Some(_), false) => Outcome::Failed,
            (Some(_), true) => {
                root.files = None;
                Outcome::Succeeded
            }
        },
        Operation::CreateRoot => {
            if root.files.is_none() {
                root.files = Some(HashMap::new());
            }
            Outcome::Succeeded
        }
        Operation::ExtractRelease => {
            for name in release {
                root.files.as_mut().unwrap().insert(name.to_string(), vec![1]);
            }
            Outcome::Succeeded
        }
        Operation::ExtractPayload => {
            for name in payload {
                root.files.as_mut().unwrap().insert(name.to_string(), vec![2]);
            }
            Outcome::Succeeded
        }
        Operation::CheckFile { name } => {
            Outcome::of_check(root.files.as_ref().map(|files| files.contains_key(name)))
        }
        Operation::WriteMarker { name, content } => {
            root.files.as_mut().unwrap().insert(name.clone(), content.clone().into_bytes());
            Outcome::Succeeded
        }
        Operation::Finish | Operation::Abort { .. } => unreachable!(),
    }
}

/// Runs an installation to its end on the root and returns the operations
/// that were asked for.
fn install(
    installer: &mut Installer,
    root: &mut Root,
    release: &[&str],
    payload: &[&str],
) -> Vec<Operation> {
    let mut asked = Vec::new();
    let mut next = installer.directive();
    while !installer.is_finished() {
        let outcome = perform(root, &next.operation, release, payload);
        asked.push(next.operation);
        next = install_or_update_xlcore(installer, outcome);
    }
    asked.push(next.operation);
    asked
}

fn marker(root: &Root) -> Option<String> {
    let files = root.files.as_ref()?;
    files.get(XIVLAUNCHER_VERSIONDATA_LOCAL_FILENAME).map(|b| String::from_utf8(b.clone()).unwrap())
}

#[test]
fn installation_goes_through_its_operations_in_order() {
    let mut installer = Installer::new(release("1.2.3"), AriaSource::Embedded, false);
    assert_eq!(installer.phase(), InstallPhase::FetchRelease);
    assert_eq!(
        installer.directive(),
        directive(
            "Updating XIVLauncher (v1.2.3)",
            Operation::FetchRelease { url: "https://dl.example/XIVLauncher.Core.tar.gz".to_string() }
        )
    );
    let expected = vec![
        (InstallPhase::ResolvePayload, directive("Using embedded aria2c", Operation::UseEmbeddedPayload)),
        (InstallPhase::RemoveRoot, directive("Removing previous installation", Operation::RemoveRoot)),
        (InstallPhase::CreateRoot, directive("Creating install directory", Operation::CreateRoot)),
        (InstallPhase::ExtractRelease, directive("Extracting XIVLauncher", Operation::ExtractRelease)),
        (
            InstallPhase::CheckRelease,
            directive(
                "Validating XIVLauncher files",
                Operation::CheckFile { name: "XIVLauncher.Core".to_string() },
            ),
        ),
        (InstallPhase::ExtractPayload, directive("Unpacking aria2c", Operation::ExtractPayload)),
        (
            InstallPhase::CheckPayload,
            directive("Validating aria2c files", Operation::CheckFile { name: "aria2c".to_string() }),
        ),
        (
            InstallPhase::WriteMarker,
            directive(
                "Writing version data",
                Operation::WriteMarker {
                    name: "versiondata".to_string(),
                    content: "1.2.3".to_string(),
                },
            ),
        ),
        (InstallPhase::Done, directive("Finishing up", Operation::Finish)),
    ];
    for (phase, wanted) in expected {
        assert!(!installer.is_finished());
        let next = install_or_update_xlcore(&mut installer, Outcome::Succeeded);
        assert_eq!(installer.phase(), phase);
        assert_eq!(next, wanted);
        assert_eq!(installer.directive(), wanted);
    }
    assert!(installer.is_finished());
    assert_eq!(installer.release(), &release("1.2.3"));
}

#[test]
fn first_text_tells_install_from_update() {
    let fresh = Installer::new(release("9"), AriaSource::Embedded, false);
    assert_eq!(fresh.directive().progress, Some("Updating XIVLauncher (v9)".to_string()));
    let update = Installer::new(release("9"), AriaSource::Embedded, true);
    assert_eq!(update.directive().progress, Some("Downloading XIVLauncher (v9)".to_string()));
}

#[test]
fn payload_operation_follows_the_source() {
    let mut from_url =
        Installer::new(release("1"), AriaSource::Url("https://x/aria2c.tar.gz".to_string()), true);
    assert_eq!(
        install_or_update_xlcore(&mut from_url, Outcome::Succeeded),
        directive(
            "Downloading aria2c",
            Operation::FetchPayload { url: "https://x/aria2c.tar.gz".to_string() }
        )
    );
    let mut from_file =
        Installer::new(release("1"), AriaSource::File("/tmp/aria2c.tar.gz".to_string()), true);
    assert_eq!(
        install_or_update_xlcore(&mut from_file, Outcome::Succeeded),
        directive(
            "Reading aria2c",
            Operation::ReadPayloadFile { path: "/tmp/aria2c.tar.gz".to_string() }
        )
    );
}

#[test]
fn marker_holds_the_installed_version() {
    let mut root = Root { files: None, removable: true };
    let mut installer = Installer::new(release("9.9.9"), AriaSource::Embedded, false);
    let asked = install(&mut installer, &mut root, &["XIVLauncher.Core"], &["aria2c"]);
    assert_eq!(installer.phase(), InstallPhase::Done);
    assert_eq!(asked.last(), Some(&Operation::Finish));
    assert_eq!(marker(&root), Some("9.9.9".to_string()));
    let files = root.files.unwrap();
    assert!(files.contains_key(XIVLAUNCHER_BIN_FILENAME));
    assert!(files.contains_key(ARIA2C_BIN_FILENAME));
}

#[test]
fn marker_is_written_as_it_is() {
    let mut root = Root { files: None, removable: true };
    let mut installer = Installer::new(release(" v1.0\n"), AriaSource::Embedded, true);
    install(&mut installer, &mut root, &["XIVLauncher.Core"], &["aria2c"]);
    assert_eq!(marker(&root), Some(" v1.0\n".to_string()));
}

#[test]
fn update_replaces_what_was_installed() {
    let mut old = HashMap::new();
    old.insert("versiondata".to_string(), b"1.0.0".to_vec());
    old.insert("XIVLauncher.Core".to_string(), vec![0]);
    old.insert("stale.dll".to_string(), vec![0]);
    let mut root = Root { files: Some(old), removable: true };
    let mut installer = Installer::new(release("2.0.0"), AriaSource::Embedded, true);
    install(&mut installer, &mut root, &["XIVLauncher.Core", "new.dll"], &["aria2c"]);
    assert_eq!(installer.phase(), InstallPhase::Done);
    assert_eq!(marker(&root), Some("2.0.0".to_string()));
    let files = root.files.unwrap();
    assert!(!files.contains_key("stale.dll"));
    assert!(files.contains_key("new.dll"));
}

#[test]
fn release_archive_without_the_executable_is_incompatible() {
    let mut root = Root { files: None, removable: true };
    let mut installer = Installer::new(release("3.0"), AriaSource::Embedded, false);
    let asked = install(&mut installer, &mut root, &["README.md"], &["aria2c"]);
    assert_eq!(
        installer.phase(),
        InstallPhase::Failed(InstallError::IncompatibleReleaseArchive)
    );
    assert_eq!(
        InstallError::IncompatibleReleaseArchive.class(),
        ErrorClass::ArchiveContentValidation
    );
    assert_eq!(
        asked.last(),
        Some(&Operation::Abort { error: InstallError::IncompatibleReleaseArchive })
    );
    assert_eq!(marker(&root), None);
    assert!(!asked.iter().any(|op| matches!(op, Operation::WriteMarker { .. })));
    assert!(!asked.contains(&Operation::ExtractPayload));
    assert_eq!(installer.directive().progress, None);
}

#[test]
fn payload_archive_without_the_binary_is_incompatible() {
    let mut root = Root { files: None, removable: true };
    let mut installer = Installer::new(release("3.0"), AriaSource::Embedded, false);
    let asked = install(&mut installer, &mut root, &["XIVLauncher.Core"], &["aria2c.txt"]);
    assert_eq!(
        installer.phase(),
        InstallPhase::Failed(InstallError::IncompatiblePayloadArchive)
    );
    assert_eq!(
        InstallError::IncompatiblePayloadArchive.class(),
        ErrorClass::ArchiveContentValidation
    );
    assert_eq!(marker(&root), None);
    assert!(!asked.iter().any(|op| matches!(op, Operation::WriteMarker { .. })));
}

#[test]
fn missing_install_root_is_no_error() {
    let mut root = Root { files: None, removable: true };
    let mut installer = Installer::new(release("1.0"), AriaSource::Embedded, false);
    let asked = install(&mut installer, &mut root, &["XIVLauncher.Core"], &["aria2c"]);
    assert_eq!(asked[2], Operation::RemoveRoot);
    assert_eq!(asked[3], Operation::CreateRoot);
    assert_eq!(installer.phase(), InstallPhase::Done);
    assert_eq!(marker(&root), Some("1.0".to_string()));
}

#[test]
fn install_root_that_cannot_be_removed_is_no_error() {
    let mut old = HashMap::new();
    old.insert("locked".to_string(), vec![0]);
    let mut root = Root { files: Some(old), removable: false };
    let mut installer = Installer::new(release("1.0"), AriaSource::Embedded, true);
    install(&mut installer, &mut root, &["XIVLauncher.Core"], &["aria2c"]);
    assert_eq!(installer.phase(), InstallPhase::Done);
    assert_eq!(marker(&root), Some("1.0".to_string()));
}

#[test]
fn removal_outcome_never_stops_the_installation() {
    for outcome in [Outcome::Succeeded, Outcome::Failed, Outcome::Absent] {
        let mut installer = Installer::new(release("1"), AriaSource::Embedded, false);
        installer.advance(Outcome::Succeeded);
        installer.advance(Outcome::Succeeded);
        assert_eq!(installer.phase(), InstallPhase::RemoveRoot);
        installer.advance(outcome);
        assert_eq!(installer.phase(), InstallPhase::CreateRoot);
    }
}

/// The phase reached when every operation succeeds but the one at `index`,
/// which has `outcome`.
fn phase_after_failure(source: AriaSource, index: usize, outcome: Outcome) -> InstallPhase {
    let mut installer = Installer::new(release("1"), source, false);
    for i in 0..9 {
        installer.advance(if i == index { outcome } else { Outcome::Succeeded });
    }
    installer.phase()
}

#[test]
fn each_failure_has_its_error() {
    let url = || AriaSource::Url("https://x/a".to_string());
    let file = || AriaSource::File("/a".to_string());
    let failed = |e| InstallPhase::Failed(e);
    assert_eq!(phase_after_failure(url(), 0, Outcome::Failed), failed(InstallError::ReleaseFetchFailed));
    assert_eq!(phase_after_failure(url(), 0, Outcome::Absent), failed(InstallError::ReleaseFetchFailed));
    assert_eq!(phase_after_failure(url(), 1, Outcome::Failed), failed(InstallError::PayloadFetchFailed));
    assert_eq!(phase_after_failure(file(), 1, Outcome::Absent), failed(InstallError::PayloadFileUnreadable));
    assert_eq!(phase_after_failure(file(), 1, Outcome::Failed), failed(InstallError::PayloadFileUnreadable));
    assert_eq!(phase_after_failure(AriaSource::Embedded, 1, Outcome::Failed), InstallPhase::Done);
    assert_eq!(phase_after_failure(url(), 2, Outcome::Failed), InstallPhase::Done);
    assert_eq!(phase_after_failure(url(), 3, Outcome::Failed), failed(InstallError::DirectoryCreateFailed));
    assert_eq!(phase_after_failure(url(), 4, Outcome::Failed), failed(InstallError::ArchiveExtractFailed));
    assert_eq!(phase_after_failure(url(), 5, Outcome::Failed), failed(InstallError::InstallRootUnreadable));
    assert_eq!(phase_after_failure(url(), 5, Outcome::Absent), failed(InstallError::IncompatibleReleaseArchive));
    assert_eq!(phase_after_failure(url(), 6, Outcome::Failed), failed(InstallError::ArchiveExtractFailed));
    assert_eq!(phase_after_failure(url(), 7, Outcome::Failed), failed(InstallError::InstallRootUnreadable));
    assert_eq!(phase_after_failure(url(), 7, Outcome::Absent), failed(InstallError::IncompatiblePayloadArchive));
    assert_eq!(phase_after_failure(url(), 8, Outcome::Failed), failed(InstallError::MarkerWriteFailed));
    assert_eq!(phase_after_failure(url(), 9, Outcome::Failed), InstallPhase::Done);
}

#[test]
fn ended_installation_stays_as_it_is() {
    let mut done = Installer::new(release("1"), AriaSource::Embedded, false);
    for _ in 0..9 {
        done.advance(Outcome::Succeeded);
    }
    assert_eq!(done.phase(), InstallPhase::Done);
    done.advance(Outcome::Failed);
    assert_eq!(done.phase(), InstallPhase::Done);
    let mut failed = Installer::new(release("1"), AriaSource::Embedded, false);
    failed.advance(Outcome::Failed);
    failed.advance(Outcome::Succeeded);
    assert_eq!(failed.phase(), InstallPhase::Failed(InstallError::ReleaseFetchFailed));
    assert_eq!(
        failed.directive(),
        Directive {
            progress: None,
            operation: Operation::Abort { error: InstallError::ReleaseFetchFailed }
        }
    );
}

#[test]
fn outcomes_from_what_was_observed() {
    assert_eq!(Outcome::of(true), Outcome::Succeeded);
    assert_eq!(Outcome::of(false), Outcome::Failed);
    assert_eq!(Outcome::of_check(Some(true)), Outcome::Succeeded);
    assert_eq!(Outcome::of_check(Some(false)), Outcome::Absent);
    assert_eq!(Outcome::of_check(None), Outcome::Failed);
    assert_eq!(Outcome::of_payload_fetch(Some(200)), Outcome::Succeeded);
    assert_eq!(Outcome::of_payload_fetch(Some(299)), Outcome::Succeeded);
    assert_eq!(Outcome::of_payload_fetch(Some(404)), Outcome::Failed);
    assert_eq!(Outcome::of_payload_fetch(Some(300)), Outcome::Failed);
    assert_eq!(Outcome::of_payload_fetch(None), Outcome::Failed);
}

#[test]
fn error_classes_and_messages() {
    let all = [
        (InstallError::ReleaseFetchFailed, ErrorClass::ReleaseResolution),
        (InstallError::PayloadFetchFailed, ErrorClass::PayloadResolution),
        (InstallError::PayloadFileUnreadable, ErrorClass::PayloadResolution),
        (InstallError::DirectoryCreateFailed, ErrorClass::DirectoryMutation),
        (InstallError::ArchiveExtractFailed, ErrorClass::ArchiveExtraction),
        (InstallError::IncompatibleReleaseArchive, ErrorClass::ArchiveContentValidation),
        (InstallError::IncompatiblePayloadArchive, ErrorClass::ArchiveContentValidation),
        (InstallError::InstallRootUnreadable, ErrorClass::DirectoryMutation),
        (InstallError::MarkerWriteFailed, ErrorClass::DirectoryMutation),
    ];
    for (error, class) in all {
        assert_eq!(error.class(), class);
        assert!(!error.message().is_empty());
    }
    assert_eq!(
        InstallError::IncompatibleReleaseArchive.message(),
        "XIVLauncher tarball does not contain a file named 'XIVLauncher.Core' and is incompatible with XLM."
    );
    assert_eq!(
        InstallError::IncompatiblePayloadArchive.message(),
        "aria2c tarball does not contain a file named 'aria2c' and is incompatible with XLM."
    );
}

#[test]
fn install_file_names() {
    assert_eq!(XIVLAUNCHER_BIN_FILENAME, "XIVLauncher.Core");
    assert_eq!(XIVLAUNCHER_VERSIONDATA_LOCAL_FILENAME, "versiondata");
    assert_eq!(ARIA2C_BIN_FILENAME, "aria2c");
    assert_eq!(DEFAULT_INSTALL_DIRNAME, "xlcore");
}
