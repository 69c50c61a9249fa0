//! The installation itself, as a state machine.
//!
//! An [`Installer`] names one operation at a time. The caller performs it,
//! reports the [`Outcome`], and is told the next one. The order is fixed:
//! both archives are obtained before the install root is touched, the root
//! is cleared and made anew, each archive is unpacked and its content
//! checked, and the version marker is written last.

use crate::release::{is_success, status_is_success, ReleaseAssetInfo, ReleaseAssetInfoView};
use crate::source::{AriaSource, AriaSourceView};
use vstd::prelude::*;
use vstd::string::*;

verus! {

/// File that an unpacked XIVLauncher release must hold directly below the
/// install root.
pub const XIVLAUNCHER_BIN_FILENAME: &'static str = "XIVLauncher.Core";

/// File below the install root that records the installed version.
pub const XIVLAUNCHER_VERSIONDATA_LOCAL_FILENAME: &'static str = "versiondata";

/// File that an unpacked aria2c tarball must hold directly below the install
/// root.
pub const ARIA2C_BIN_FILENAME: &'static str = "aria2c";

/// Directory below the user's local data directory that is the install root
/// unless another is configured.
pub const DEFAULT_INSTALL_DIRNAME: &'static str = "xlcore";

/// What the caller reports after performing an operation.
#[derive(Debug, Clone, Copy, PartialEq, Eq, Structural)]
pub enum Outcome {
    /// The operation was done; for a check, the file is there.
    Succeeded,
    /// The operation could not be done.
    Failed,
    /// What the operation is about does not exist; for a check, the file is
    /// missing.
    Absent,
}

impl Outcome {
    /// The outcome of an operation that was done or could not be done.
    pub fn of(done: bool) -> (r: Outcome)
        ensures
            r == if done {
                Outcome::Succeeded
            } else {
                Outcome::Failed
            },
    {
        if done {
            Outcome::Succeeded
        } else {
            Outcome::Failed
        }
    }

    /// The outcome of a check: `found` tells whether the file is there, and
    /// is `None` where the install root could not be looked into.
    pub fn of_check(found: Option<bool>) -> (r: Outcome)
        ensures
            r == match found {
                Some(true) => Outcome::Succeeded,
                Some(false) => Outcome::Absent,
                None => Outcome::Failed,
            },
    {
        match found {
            Some(true) => Outcome::Succeeded,
            Some(false) => Outcome::Absent,
            None => Outcome::Failed,
        }
    }

    /// The outcome of downloading the aria2c tarball: `status` is the
    /// response's status code, and `None` where no response came. Only a
    /// status from 200 to 299 is a success.
    pub fn of_payload_fetch(status: Option<u16>) -> (r: Outcome)
        ensures
            r == match status {
                Some(code) => if status_is_success(code) {
                    Outcome::Succeeded
                } else {
                    Outcome::Failed
                },
                None => Outcome::Failed,
            },
    {
        match status {
            Some(code) => Outcome::of(is_success(code)),
            None => Outcome::Failed,
        }
    }
}

/// Why an installation stopped.
#[derive(Debug, Clone, Copy, PartialEq, Eq, Structural)]
pub enum InstallError {
    /// The release archive could not be downloaded.
    ReleaseFetchFailed,
    /// The aria2c tarball could not be downloaded.
    PayloadFetchFailed,
    /// The aria2c tarball could not be read from its file.
    PayloadFileUnreadable,
    /// The install root could not be created.
    DirectoryCreateFailed,
    /// An archive could not be unpacked.
    ArchiveExtractFailed,
    /// The release archive does not hold the XIVLauncher executable.
    IncompatibleReleaseArchive,
    /// The aria2c tarball does not hold the aria2c executable.
    IncompatiblePayloadArchive,
    /// The install root could not be looked into.
    InstallRootUnreadable,
    /// The version marker could not be written.
    MarkerWriteFailed,
}

/// The kinds of failure that a run can end in.
#[derive(Debug, Clone, Copy, PartialEq, Eq, Structural)]
pub enum ErrorClass {
    ReleaseResolution,
    PayloadResolution,
    DirectoryMutation,
    ArchiveExtraction,
    ArchiveContentValidation,
    ChildProcess,
}

impl InstallError {
    /// The kind of failure this error belongs to.
    pub open spec fn spec_class(self) -> ErrorClass {
        match self {
            InstallError::ReleaseFetchFailed => ErrorClass::ReleaseResolution,
            InstallError::PayloadFetchFailed => ErrorClass::PayloadResolution,
            InstallError::PayloadFileUnreadable => ErrorClass::PayloadResolution,
            InstallError::DirectoryCreateFailed => ErrorClass::DirectoryMutation,
            InstallError::ArchiveExtractFailed => ErrorClass::ArchiveExtraction,
            InstallError::IncompatibleReleaseArchive => ErrorClass::ArchiveContentValidation,
            InstallError::IncompatiblePayloadArchive => ErrorClass::ArchiveContentValidation,
            InstallError::InstallRootUnreadable => ErrorClass::DirectoryMutation,
            InstallError::MarkerWriteFailed => ErrorClass::DirectoryMutation,
        }
    }

    /// The kind of failure this error belongs to.
    #[verifier::when_used_as_spec(spec_class)]
    pub fn class(self) -> (r: ErrorClass)
        ensures
            r == self.spec_class(),
    {
        match self {
            InstallError::ReleaseFetchFailed => ErrorClass::ReleaseResolution,
            InstallError::PayloadFetchFailed => ErrorClass::PayloadResolution,
            InstallError::PayloadFileUnreadable => ErrorClass::PayloadResolution,
            InstallError::DirectoryCreateFailed => ErrorClass::DirectoryMutation,
            InstallError::ArchiveExtractFailed => ErrorClass::ArchiveExtraction,
            InstallError::IncompatibleReleaseArchive => ErrorClass::ArchiveContentValidation,
            InstallError::IncompatiblePayloadArchive => ErrorClass::ArchiveContentValidation,
            InstallError::InstallRootUnreadable => ErrorClass::DirectoryMutation,
            InstallError::MarkerWriteFailed => ErrorClass::DirectoryMutation,
        }
    }

    /// The text shown to the user for this error.
    pub fn message(self) -> (r: String)
        ensures
            r@ == spec_error_message(self),
    {
        match self {
            InstallError::ReleaseFetchFailed => "Failed to download the XIVLauncher tarball.".to_owned(),
            InstallError::PayloadFetchFailed => "Failed to download the aria2c tarball.".to_owned(),
            InstallError::PayloadFileUnreadable => "Failed to read the aria2c tarball.".to_owned(),
            InstallError::DirectoryCreateFailed => "Failed to create the install directory.".to_owned(),
            InstallError::ArchiveExtractFailed => "Failed to unpack a tarball into the install directory.".to_owned(),
            InstallError::IncompatibleReleaseArchive => "XIVLauncher tarball does not contain a file named 'XIVLauncher.Core' and is incompatible with XLM.".to_owned(),
            InstallError::IncompatiblePayloadArchive => "aria2c tarball does not contain a file named 'aria2c' and is incompatible with XLM.".to_owned(),
            InstallError::InstallRootUnreadable => "Failed to look into the install directory.".to_owned(),
            InstallError::MarkerWriteFailed => "Failed to write version data.".to_owned(),
        }
    }
}

/// The text of each error.
pub open spec fn spec_error_message(e: InstallError) -> Seq<char> {
    match e {
        InstallError::ReleaseFetchFailed => "Failed to download the XIVLauncher tarball."@,
        InstallError::PayloadFetchFailed => "Failed to download the aria2c tarball."@,
        InstallError::PayloadFileUnreadable => "Failed to read the aria2c tarball."@,
        InstallError::DirectoryCreateFailed => "Failed to create the install directory."@,
        InstallError::ArchiveExtractFailed => "Failed to unpack a tarball into the install directory."@,
        InstallError::IncompatibleReleaseArchive => "XIVLauncher tarball does not contain a file named 'XIVLauncher.Core' and is incompatible with XLM."@,
        InstallError::IncompatiblePayloadArchive => "aria2c tarball does not contain a file named 'aria2c' and is incompatible with XLM."@,
        InstallError::InstallRootUnreadable => "Failed to look into the install directory."@,
        InstallError::MarkerWriteFailed => "Failed to write version data."@,
    }
}

/// Where an installation stands: the operation that is under way, or how the
/// installation ended.
#[derive(Debug, Clone, Copy, PartialEq, Eq, Structural)]
pub enum InstallPhase {
    FetchRelease,
    ResolvePayload,
    RemoveRoot,
    CreateRoot,
    ExtractRelease,
    CheckRelease,
    ExtractPayload,
    CheckPayload,
    WriteMarker,
    Done,
    Failed(InstallError),
}

/// The phase that follows `phase` once its operation had `outcome`.
///
/// Removing the old install root never stops the installation, whatever came
/// of it, and neither does taking the embedded tarball. A check that finds
/// the file missing marks the archive as incompatible. Every other operation
/// has to succeed. The two final phases stay as they are.
pub open spec fn next_phase(source: AriaSourceView, phase: InstallPhase, outcome: Outcome) -> InstallPhase {
    let ok = outcome == Outcome::Succeeded;
    match phase {
        InstallPhase::FetchRelease => if ok {
            InstallPhase::ResolvePayload
        } else {
            InstallPhase::Failed(InstallError::ReleaseFetchFailed)
        },
        InstallPhase::ResolvePayload => match source {
            AriaSourceView::Embedded => InstallPhase::RemoveRoot,
            AriaSourceView::Url(_) => if ok {
                InstallPhase::RemoveRoot
            } else {
                InstallPhase::Failed(InstallError::PayloadFetchFailed)
            },
            AriaSourceView::File(_) => if ok {
                InstallPhase::RemoveRoot
            } else {
                InstallPhase::Failed(InstallError::PayloadFileUnreadable)
            },
        },
        InstallPhase::RemoveRoot => InstallPhase::CreateRoot,
        InstallPhase::CreateRoot => if ok {
            InstallPhase::ExtractRelease
        } else {
            InstallPhase::Failed(InstallError::DirectoryCreateFailed)
        },
        InstallPhase::ExtractRelease => if ok {
            InstallPhase::CheckRelease
        } else {
            InstallPhase::Failed(InstallError::ArchiveExtractFailed)
        },
        InstallPhase::CheckRelease => match outcome {
            Outcome::Succeeded => InstallPhase::ExtractPayload,
            Outcome::Absent => InstallPhase::Failed(InstallError::IncompatibleReleaseArchive),
            Outcome::Failed => InstallPhase::Failed(InstallError::InstallRootUnreadable),
        },
        InstallPhase::ExtractPayload => if ok {
            InstallPhase::CheckPayload
        } else {
            InstallPhase::Failed(InstallError::ArchiveExtractFailed)
        },
        InstallPhase::CheckPayload => match outcome {
            Outcome::Succeeded => InstallPhase::WriteMarker,
            Outcome::Absent => InstallPhase::Failed(InstallError::IncompatiblePayloadArchive),
            Outcome::Failed => InstallPhase::Failed(InstallError::InstallRootUnreadable),
        },
        InstallPhase::WriteMarker => if ok {
            InstallPhase::Done
        } else {
            InstallPhase::Failed(InstallError::MarkerWriteFailed)
        },
        InstallPhase::Done => InstallPhase::Done,
        InstallPhase::Failed(e) => InstallPhase::Failed(e),
    }
}

/// What the caller is asked to do.
#[derive(Debug, PartialEq, Eq)]
pub enum Operation {
    /// Download the release archive from `url` and keep its bytes.
    FetchRelease { url: String },
    /// Take the aria2c tarball bundled into the wrapper.
    UseEmbeddedPayload,
    /// Download the aria2c tarball from `url` and keep its bytes.
    FetchPayload { url: String },
    /// Read the aria2c tarball from the file at `path`.
    ReadPayloadFile { path: String },
    /// Delete the install root and all below it.
    RemoveRoot,
    /// Create the install root, empty.
    CreateRoot,
    /// Unpack the release archive into the install root.
    ExtractRelease,
    /// Unpack the aria2c tarball into the install root.
    ExtractPayload,
    /// Report whether a file called `name` lies directly below the install
    /// root.
    CheckFile { name: String },
    /// Write `content` to the file `name` below the install root, in place of
    /// whatever the file held.
    WriteMarker { name: String, content: String },
    /// Nothing is left to do: the installation is complete.
    Finish,
    /// Nothing more is to be done: the installation failed.
    Abort { error: InstallError },
}

/// Mathematical value of an [`Operation`].
pub enum OperationView {
    FetchRelease { url: Seq<char> },
    UseEmbeddedPayload,
    FetchPayload { url: Seq<char> },
    ReadPayloadFile { path: Seq<char> },
    RemoveRoot,
    CreateRoot,
    ExtractRelease,
    ExtractPayload,
    CheckFile { name: Seq<char> },
    WriteMarker { name: Seq<char>, content: Seq<char> },
    Finish,
    Abort { error: InstallError },
}

impl View for Operation {
    type V = OperationView;

    open spec fn view(&self) -> OperationView {
        match self {
            Operation::FetchRelease { url } => OperationView::FetchRelease { url: url@ },
            Operation::UseEmbeddedPayload => OperationView::UseEmbeddedPayload,
            Operation::FetchPayload { url } => OperationView::FetchPayload { url: url@ },
            Operation::ReadPayloadFile { path } => OperationView::ReadPayloadFile { path: path@ },
            Operation::RemoveRoot => OperationView::RemoveRoot,
            Operation::CreateRoot => OperationView::CreateRoot,
            Operation::ExtractRelease => OperationView::ExtractRelease,
            Operation::ExtractPayload => OperationView::ExtractPayload,
            Operation::CheckFile { name } => OperationView::CheckFile { name: name@ },
            Operation::WriteMarker { name, content } => OperationView::WriteMarker {
                name: name@,
                content: content@,
            },
            Operation::Finish => OperationView::Finish,
            Operation::Abort { error } => OperationView::Abort { error: *error },
        }
    }
}

/// An operation, and the text to show to the user before it begins.
#[derive(Debug, PartialEq, Eq)]
pub struct Directive {
    pub progress: Option<String>,
    pub operation: Operation,
}

/// Mathematical value of a [`Directive`].
pub struct DirectiveView {
    pub progress: Option<Seq<char>>,
    pub operation: OperationView,
}

impl View for Directive {
    type V = DirectiveView;

    open spec fn view(&self) -> DirectiveView {
        DirectiveView { progress: self.progress.deep_view(), operation: self.operation@ }
    }
}

/// Mathematical value of an [`Installer`].
pub struct InstallerView {
    pub release: ReleaseAssetInfoView,
    pub source: AriaSourceView,
    pub is_update: bool,
    pub phase: InstallPhase,
}

/// The text shown while the release archive is downloaded.
pub open spec fn fetch_release_text(version: Seq<char>, is_update: bool) -> Seq<char> {
    if is_update {
        "Downloading XIVLauncher (v"@ + version + ")"@
    } else {
        "Updating XIVLauncher (v"@ + version + ")"@
    }
}

/// The operation of each phase and the text that announces it.
pub open spec fn directive_of(state: InstallerView) -> DirectiveView {
    match state.phase {
        InstallPhase::FetchRelease => DirectiveView {
            progress: Some(fetch_release_text(state.release.version, state.is_update)),
            operation: OperationView::FetchRelease { url: state.release.download_url },
        },
        InstallPhase::ResolvePayload => match state.source {
            AriaSourceView::Embedded => DirectiveView {
                progress: Some("Using embedded aria2c"@),
                operation: OperationView::UseEmbeddedPayload,
            },
            AriaSourceView::Url(url) => DirectiveView {
                progress: Some("Downloading aria2c"@),
                operation: OperationView::FetchPayload { url },
            },
            AriaSourceView::File(path) => DirectiveView {
                progress: Some("Reading aria2c"@),
                operation: OperationView::ReadPayloadFile { path },
            },
        },
        InstallPhase::RemoveRoot => DirectiveView {
            progress: Some("Removing previous installation"@),
            operation: OperationView::RemoveRoot,
        },
        InstallPhase::CreateRoot => DirectiveView {
            progress: Some("Creating install directory"@),
            operation: OperationView::CreateRoot,
        },
        InstallPhase::ExtractRelease => DirectiveView {
            progress: Some("Extracting XIVLauncher"@),
            operation: OperationView::ExtractRelease,
        },
        InstallPhase::CheckRelease => DirectiveView {
            progress: Some("Validating XIVLauncher files"@),
            operation: OperationView::CheckFile { name: "XIVLauncher.Core"@ },
        },
        InstallPhase::ExtractPayload => DirectiveView {
            progress: Some("Unpacking aria2c"@),
            operation: OperationView::ExtractPayload,
        },
        InstallPhase::CheckPayload => DirectiveView {
            progress: Some("Validating aria2c files"@),
            operation: OperationView::CheckFile { name: "aria2c"@ },
        },
        InstallPhase::WriteMarker => DirectiveView {
            progress: Some("Writing version data"@),
            operation: OperationView::WriteMarker {
                name: "versiondata"@,
                content: state.release.version,
            },
        },
        InstallPhase::Done => DirectiveView {
            progress: Some("Finishing up"@),
            operation: OperationView::Finish,
        },
        InstallPhase::Failed(error) => DirectiveView {
            progress: None,
            operation: OperationView::Abort { error },
        },
    }
}

/// One installation or update of XIVLauncher and aria2c into the install
/// root.
#[derive(Debug, PartialEq, Eq)]
pub struct Installer {
    release: ReleaseAssetInfo,
    source: AriaSource,
    is_update: bool,
    phase: InstallPhase,
}

impl View for Installer {
    type V = InstallerView;

    closed spec fn view(&self) -> InstallerView {
        InstallerView {
            release: self.release@,
            source: self.source@,
            is_update: self.is_update,
            phase: self.phase,
        }
    }
}

fn announce(text: &str, operation: Operation) -> (r: Directive)
    ensures
        r@ == (DirectiveView { progress: Some(text@), operation: operation@ }),
{
    Directive { progress: Some(text.to_owned()), operation }
}

impl Installer {
    /// An installation of `release` with the aria2c tarball from `source`,
    /// about to download the release archive.
    pub fn new(release: ReleaseAssetInfo, source: AriaSource, is_update: bool) -> (r: Installer)
        ensures
            r@ == (InstallerView {
                release: release@,
                source: source@,
                is_update,
                phase: InstallPhase::FetchRelease,
            }),
    {
        Installer { release, source, is_update, phase: InstallPhase::FetchRelease }
    }

    /// Where the installation stands.
    pub fn phase(&self) -> (r: InstallPhase)
        ensures
            r == self@.phase,
    {
        self.phase
    }

    /// The release that is being installed.
    pub fn release(&self) -> (r: &ReleaseAssetInfo)
        ensures
            r@ == self@.release,
    {
        &self.release
    }

    /// Whether the installation has ended, well or not.
    pub fn is_finished(&self) -> (r: bool)
        ensures
            r == (self@.phase is Done || self@.phase is Failed),
    {
        match self.phase {
            InstallPhase::Done => true,
            InstallPhase::Failed(_) => true,
            _ => false,
        }
    }

    /// What the caller is to do now.
    pub fn directive(&self) -> (r: Directive)
        ensures
            r@ == directive_of(self@),
    {
        match self.phase {
            InstallPhase::FetchRelease => {
                let head = if self.is_update {
                    "Downloading XIVLauncher (v"
                } else {
                    "Updating XIVLauncher (v"
                };
                let mut text = head.to_owned();
                text.append(self.release.version.as_str());
                text.append(")");
                Directive {
                    progress: Some(text),
                    operation: Operation::FetchRelease { url: self.release.download_url.clone() },
                }
            },
            InstallPhase::ResolvePayload => match &self.source {
                AriaSource::Embedded => announce(
                    "Using embedded aria2c",
                    Operation::UseEmbeddedPayload,
                ),
                AriaSource::Url(url) => announce(
                    "Downloading aria2c",
                    Operation::FetchPayload { url: url.clone() },
                ),
                AriaSource::File(path) => announce(
                    "Reading aria2c",
                    Operation::ReadPayloadFile { path: path.clone() },
                ),
            },
            InstallPhase::RemoveRoot => announce(
                "Removing previous installation",
                Operation::RemoveRoot,
            ),
            InstallPhase::CreateRoot => announce("Creating install directory", Operation::CreateRoot),
            InstallPhase::ExtractRelease => announce(
                "Extracting XIVLauncher",
                Operation::ExtractRelease,
            ),
            InstallPhase::CheckRelease => announce(
                "Validating XIVLauncher files",
                Operation::CheckFile { name: XIVLAUNCHER_BIN_FILENAME.to_owned() },
            ),
            InstallPhase::ExtractPayload => announce("Unpacking aria2c", Operation::ExtractPayload),
            InstallPhase::CheckPayload => announce(
                "Validating aria2c files",
                Operation::CheckFile { name: ARIA2C_BIN_FILENAME.to_owned() },
            ),
            InstallPhase::WriteMarker => announce(
                "Writing version data",
                Operation::WriteMarker {
                    name: XIVLAUNCHER_VERSIONDATA_LOCAL_FILENAME.to_owned(),
                    content: self.release.version.clone(),
                },
            ),
            InstallPhase::Done => announce("Finishing up", Operation::Finish),
            InstallPhase::Failed(error) => Directive {
                progress: None,
                operation: Operation::Abort { error },
            },
        }
    }

    /// Takes in the outcome of the operation that was under way.
    pub fn advance(&mut self, outcome: Outcome)
        ensures
            final(self)@ == (InstallerView {
                phase: next_phase(old(self)@.source, old(self)@.phase, outcome),
                ..old(self)@
            }),
    {
        let ok = match outcome {
            Outcome::Succeeded => true,
            _ => false,
        };
        let next = match self.phase {
            InstallPhase::FetchRelease => if ok {
                InstallPhase::ResolvePayload
            } else {
                InstallPhase::Failed(InstallError::ReleaseFetchFailed)
            },
            InstallPhase::ResolvePayload => match &self.source {
                AriaSource::Embedded => InstallPhase::RemoveRoot,
                AriaSource::Url(_) => if ok {
                    InstallPhase::RemoveRoot
                } else {
                    InstallPhase::Failed(InstallError::PayloadFetchFailed)
                },
                AriaSource::File(_) => if ok {
                    InstallPhase::RemoveRoot
                } else {
                    InstallPhase::Failed(InstallError::PayloadFileUnreadable)
                },
            },
            InstallPhase::RemoveRoot => InstallPhase::CreateRoot,
            InstallPhase::CreateRoot => if ok {
                InstallPhase::ExtractRelease
            } else {
                InstallPhase::Failed(InstallError::DirectoryCreateFailed)
            },
            InstallPhase::ExtractRelease => if ok {
                InstallPhase::CheckRelease
            } else {
                InstallPhase::Failed(InstallError::ArchiveExtractFailed)
            },
            InstallPhase::CheckRelease => match outcome {
                Outcome::Succeeded => InstallPhase::ExtractPayload,
                Outcome::Absent => InstallPhase::Failed(InstallError::IncompatibleReleaseArchive),
                Outcome::Failed => InstallPhase::Failed(InstallError::InstallRootUnreadable),
            },
            InstallPhase::ExtractPayload => if ok {
                InstallPhase::CheckPayload
            } else {
                InstallPhase::Failed(InstallError::ArchiveExtractFailed)
            },
            InstallPhase::CheckPayload => match outcome {
                Outcome::Succeeded => InstallPhase::WriteMarker,
                Outcome::Absent => InstallPhase::Failed(InstallError::IncompatiblePayloadArchive),
                Outcome::Failed => InstallPhase::Failed(InstallError::InstallRootUnreadable),
            },
            InstallPhase::WriteMarker => if ok {
                InstallPhase::Done
            } else {
                InstallPhase::Failed(InstallError::MarkerWriteFailed)
            },
            InstallPhase::Done => InstallPhase::Done,
            InstallPhase::Failed(e) => InstallPhase::Failed(e),
        };
        self.phase = next;
    }
}

/// Takes in the outcome of the operation that was under way and tells what
/// to do next.
pub fn install_or_update_xlcore(installer: &mut Installer, outcome: Outcome) -> (r: Directive)
    ensures
        final(installer)@ == (InstallerView {
            phase: next_phase(old(installer)@.source, old(installer)@.phase, outcome),
            ..old(installer)@
        }),
        r@ == directive_of(final(installer)@),
{
    installer.advance(outcome);
    installer.directive()
}

} // verus!
