//! What holds of every installation from its first operation on, whatever
//! the outcomes that are reported.

use crate::install::{
    directive_of, next_phase, ErrorClass, InstallError, InstallPhase, InstallerView, OperationView,
    Outcome,
};
use crate::launch::{install_state, update_decision, InstallState, UpdateDecision};
use crate::source::AriaSourceView;
use vstd::prelude::*;

verus! {

/// The phase reached from the start once the outcomes in `outcomes` were
/// reported, one after the other.
pub open spec fn run(source: AriaSourceView, outcomes: Seq<Outcome>) -> InstallPhase
    decreases outcomes.len(),
{
    if outcomes.len() == 0 {
        InstallPhase::FetchRelease
    } else {
        next_phase(source, run(source, outcomes.drop_last()), outcomes.last())
    }
}

/// The phases in the order in which an installation goes through them.
pub open spec fn phase_at(index: int) -> InstallPhase {
    if index <= 0 {
        InstallPhase::FetchRelease
    } else if index == 1 {
        InstallPhase::ResolvePayload
    } else if index == 2 {
        InstallPhase::RemoveRoot
    } else if index == 3 {
        InstallPhase::CreateRoot
    } else if index == 4 {
        InstallPhase::ExtractRelease
    } else if index == 5 {
        InstallPhase::CheckRelease
    } else if index == 6 {
        InstallPhase::ExtractPayload
    } else if index == 7 {
        InstallPhase::CheckPayload
    } else if index == 8 {
        InstallPhase::WriteMarker
    } else {
        InstallPhase::Done
    }
}

/// Whether the outcome of the operation at `index` lets the installation go
/// on: removing the old root and taking the embedded tarball always do, every
/// other operation has to succeed.
pub open spec fn passes(source: AriaSourceView, index: int, outcome: Outcome) -> bool {
    index == 2 || (index == 1 && source is Embedded) || outcome == Outcome::Succeeded
}

/// Whether the first `count` outcomes all let the installation go on.
pub open spec fn all_pass(source: AriaSourceView, outcomes: Seq<Outcome>, count: int) -> bool {
    forall|i: int| 0 <= i < count && i < outcomes.len() ==> passes(source, i, #[trigger] outcomes[i])
}

/// Whether the caller was asked, at some point of the run, to write the
/// version marker.
pub open spec fn marker_write_requested(source: AriaSourceView, outcomes: Seq<Outcome>) -> bool {
    exists|k: int|
        0 <= k <= outcomes.len() && #[trigger] run(source, outcomes.take(k))
            == InstallPhase::WriteMarker
}

/// The operations come in one fixed order: while every outcome lets the
/// installation go on, the phase reached after `n` outcomes is the `n`-th
/// phase, and after the ninth the installation is complete.
pub proof fn lemma_fixed_order(source: AriaSourceView, outcomes: Seq<Outcome>)
    requires
        all_pass(source, outcomes, 9),
    ensures
        run(source, outcomes) == phase_at(outcomes.len() as int),
    decreases outcomes.len(),
{
    if outcomes.len() > 0 {
        let before = outcomes.drop_last();
        assert(all_pass(source, before, 9)) by {
            assert forall|i: int| 0 <= i < before.len() implies before[i] == outcomes[i] by {}
        }
        lemma_fixed_order(source, before);
    }
}

/// A phase is reached only after every earlier operation let the
/// installation go on; a failed installation has one first outcome that did
/// not.
pub proof fn lemma_reached(source: AriaSourceView, outcomes: Seq<Outcome>)
    ensures
        match run(source, outcomes) {
            InstallPhase::Failed(_) => exists|k: int|
                0 <= k < outcomes.len() && k < 9 && !passes(source, k, #[trigger] outcomes[k])
                    && all_pass(source, outcomes, k),
            InstallPhase::Done => outcomes.len() >= 9 && all_pass(source, outcomes, 9),
            phase => phase == phase_at(outcomes.len() as int) && outcomes.len() < 9 && all_pass(
                source,
                outcomes,
                9,
            ),
        },
    decreases outcomes.len(),
{
    if outcomes.len() > 0 {
        let before = outcomes.drop_last();
        lemma_reached(source, before);
        assert forall|i: int| 0 <= i < before.len() implies before[i] == outcomes[i] by {}
    }
}

/// Once an installation has failed it stays failed, with the same error,
/// whatever is reported afterwards.
pub proof fn lemma_failure_is_final(source: AriaSourceView, outcomes: Seq<Outcome>, k: int)
    requires
        0 <= k <= outcomes.len(),
        run(source, outcomes.take(k)) is Failed,
    ensures
        run(source, outcomes) == run(source, outcomes.take(k)),
    decreases outcomes.len() - k,
{
    if k < outcomes.len() {
        assert(outcomes.take(k + 1).drop_last() =~= outcomes.take(k));
        lemma_failure_is_final(source, outcomes, k + 1);
    } else {
        assert(outcomes.take(k) =~= outcomes);
    }
}

/// The version marker is written last: the caller is asked to write it only
/// after eight operations, when the install root was created, both archives
/// were unpacked and both checks found their file.
pub proof fn lemma_marker_written_last(source: AriaSourceView, outcomes: Seq<Outcome>)
    requires
        run(source, outcomes) == InstallPhase::WriteMarker,
    ensures
        outcomes.len() == 8,
        outcomes[0] == Outcome::Succeeded,
        outcomes[3] == Outcome::Succeeded,
        outcomes[4] == Outcome::Succeeded,
        outcomes[5] == Outcome::Succeeded,
        outcomes[6] == Outcome::Succeeded,
        outcomes[7] == Outcome::Succeeded,
{
    lemma_reached(source, outcomes);
}

/// An installation is complete only if the caller was asked to write the
/// version marker as the ninth operation and reported that it did.
pub proof fn lemma_complete_means_marker_written(source: AriaSourceView, outcomes: Seq<Outcome>)
    requires
        run(source, outcomes) == InstallPhase::Done,
    ensures
        outcomes.len() >= 9,
        run(source, outcomes.take(8)) == InstallPhase::WriteMarker,
        outcomes[8] == Outcome::Succeeded,
        marker_write_requested(source, outcomes),
{
    lemma_reached(source, outcomes);
    let first = outcomes.take(8);
    assert(all_pass(source, first, 9)) by {
        assert forall|i: int| 0 <= i < first.len() implies first[i] == outcomes[i] by {}
    }
    lemma_fixed_order(source, first);
}

/// If some operation before the ninth did not let the installation go on, the
/// caller is never asked to write the version marker, and the installation
/// never completes.
pub proof fn lemma_no_marker_after_failure(source: AriaSourceView, outcomes: Seq<Outcome>, at: int)
    requires
        0 <= at < outcomes.len(),
        at < 8,
        !passes(source, at, outcomes[at]),
    ensures
        !marker_write_requested(source, outcomes),
        run(source, outcomes) is Failed,
{
    assert forall|k: int| 0 <= k <= outcomes.len() implies #[trigger] run(source, outcomes.take(k))
        != InstallPhase::WriteMarker by {
        let first = outcomes.take(k);
        lemma_reached(source, first);
        if run(source, first) == InstallPhase::WriteMarker {
            assert(passes(source, at, first[at]));
        }
    }
    lemma_reached(source, outcomes);
}

/// A release archive that unpacks but lacks the XIVLauncher executable ends
/// the installation as an incompatible archive, before anything of the
/// aria2c tarball is unpacked and without the version marker being written.
pub proof fn lemma_incompatible_release(source: AriaSourceView, outcomes: Seq<Outcome>)
    requires
        outcomes.len() > 5,
        run(source, outcomes.take(5)) == InstallPhase::CheckRelease,
        outcomes[5] == Outcome::Absent,
    ensures
        run(source, outcomes) == InstallPhase::Failed(InstallError::IncompatibleReleaseArchive),
        InstallError::IncompatibleReleaseArchive.spec_class() == ErrorClass::ArchiveContentValidation,
        !marker_write_requested(source, outcomes),
{
    assert(outcomes.take(6).drop_last() =~= outcomes.take(5));
    lemma_failure_is_final(source, outcomes, 6);
    lemma_no_marker_after_failure(source, outcomes, 5);
}

/// An aria2c tarball that unpacks but lacks the aria2c executable ends the
/// installation as an incompatible archive, without the version marker being
/// written.
pub proof fn lemma_incompatible_payload(source: AriaSourceView, outcomes: Seq<Outcome>)
    requires
        outcomes.len() > 7,
        run(source, outcomes.take(7)) == InstallPhase::CheckPayload,
        outcomes[7] == Outcome::Absent,
    ensures
        run(source, outcomes) == InstallPhase::Failed(InstallError::IncompatiblePayloadArchive),
        InstallError::IncompatiblePayloadArchive.spec_class() == ErrorClass::ArchiveContentValidation,
        !marker_write_requested(source, outcomes),
{
    assert(outcomes.take(8).drop_last() =~= outcomes.take(7));
    lemma_failure_is_final(source, outcomes, 8);
    lemma_no_marker_after_failure(source, outcomes, 7);
}

/// Whatever comes of removing the old install root, be it missing or not
/// removable, the installation goes on to create the root, and the rest of
/// the run is the same.
pub proof fn lemma_removal_never_fails(
    source: AriaSourceView,
    outcomes: Seq<Outcome>,
    removal: Outcome,
)
    requires
        outcomes.len() > 2,
    ensures
        next_phase(source, InstallPhase::RemoveRoot, removal) == InstallPhase::CreateRoot,
        run(source, outcomes.update(2, removal)) == run(source, outcomes),
    decreases outcomes.len(),
{
    let changed = outcomes.update(2, removal);
    if outcomes.len() == 3 {
        assert(changed.drop_last() =~= outcomes.drop_last());
        lemma_reached(source, outcomes.drop_last());
    } else {
        assert(changed.drop_last() =~= outcomes.drop_last().update(2, removal));
        lemma_removal_never_fails(source, outcomes.drop_last(), removal);
    }
}

/// The version marker is written with the version of the release that is
/// being installed, character for character. Read back unchanged, it makes
/// the installation current for that release, so that the next launch does
/// not install again.
pub proof fn lemma_marker_holds_installed_version(state: InstallerView, skip_update: bool)
    requires
        state.phase == InstallPhase::WriteMarker,
    ensures
        directive_of(state).operation == (OperationView::WriteMarker {
            name: "versiondata"@,
            content: state.release.version,
        }),
        install_state(true, Some(state.release.version), state.release.version)
            == InstallState::InstalledCurrent,
        update_decision(true, skip_update, Some(state.release.version), state.release.version)
            == UpdateDecision::Launch,
{
}

/// Every operation of an installation is announced by a text, and so is its
/// completion; a failure is not.
pub proof fn lemma_every_operation_announced(state: InstallerView)
    ensures
        directive_of(state).progress is Some <==> !(state.phase is Failed),
        directive_of(state).operation is Abort <==> state.phase is Failed,
        directive_of(state).operation is Finish <==> state.phase is Done,
{
}

/// Reporting one more outcome extends the run by one step of the
/// installer.
pub proof fn lemma_advance_extends_run(
    source: AriaSourceView,
    outcomes: Seq<Outcome>,
    outcome: Outcome,
)
    ensures
        run(source, outcomes.push(outcome)) == next_phase(source, run(source, outcomes), outcome),
{
    assert(outcomes.push(outcome).drop_last() =~= outcomes);
}

} // verus!
