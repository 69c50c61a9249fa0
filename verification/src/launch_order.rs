//! What holds of every run of the launch command from its start on,
//! whatever is reported to it.

use crate::launch::LaunchCommandView;
use crate::orchestrator::{
    first_actions, launch_step, ActionView, EventView, LauncherView, StageView,
};
use vstd::prelude::*;

verus! {

/// The stage reached from the start once the events in `events` were
/// reported, one after the other, and all the actions asked for until then.
pub open spec fn launch_run(
    command: LaunchCommandView,
    ld_preload: Option<Seq<char>>,
    events: Seq<EventView>,
) -> (StageView, Seq<ActionView>)
    decreases events.len(),
{
    if events.len() == 0 {
        (StageView::Resolving, first_actions(command))
    } else {
        let (stage, asked) = launch_run(command, ld_preload, events.drop_last());
        let (next, actions) = launch_step(LauncherView { command, ld_preload, stage }, events.last());
        (next, asked + actions)
    }
}

/// Whether none of the actions opens or closes the progress window, performs
/// an operation of an installation or starts XIVLauncher.
pub open spec fn untouched(actions: Seq<ActionView>) -> bool {
    forall|i: int|
        0 <= i < actions.len() ==> !((#[trigger] actions[i]) is Perform) && !(actions[i] is Launch)
            && actions[i] != ActionView::OpenProgress && actions[i] != ActionView::CloseProgress
}

/// Whether the actions are in the order of a run: the progress window is
/// opened before and closed after every operation of an installation, and
/// XIVLauncher is started at most once and after all of them.
pub open spec fn well_ordered(actions: Seq<ActionView>) -> bool {
    &&& forall|i: int, j: int|
        0 <= i < actions.len() && 0 <= j < actions.len() && (#[trigger] actions[i]) is Perform
            && (#[trigger] actions[j]) is Launch ==> i < j
    &&& forall|i: int, j: int|
        0 <= i < actions.len() && 0 <= j < actions.len() && (#[trigger] actions[i]) is Launch
            && (#[trigger] actions[j]) is Launch ==> i == j
    &&& forall|i: int, j: int|
        0 <= i < actions.len() && 0 <= j < actions.len() && (#[trigger] actions[i]) is Perform
            && (#[trigger] actions[j]) == ActionView::OpenProgress ==> j < i
    &&& forall|i: int, j: int|
        0 <= i < actions.len() && 0 <= j < actions.len() && (#[trigger] actions[i]) is Perform
            && (#[trigger] actions[j]) == ActionView::CloseProgress ==> i < j
    &&& forall|i: int, j: int|
        0 <= i < actions.len() && 0 <= j < actions.len() && (#[trigger] actions[i])
            == ActionView::CloseProgress && (#[trigger] actions[j]) is Launch ==> i < j
}

/// Whether an installation is under way after these actions: the progress
/// window was opened, then operations were performed, and the window has not
/// been closed nor XIVLauncher started.
pub open spec fn installing(actions: Seq<ActionView>) -> bool {
    exists|k: int|
        {
            &&& 0 <= k < actions.len()
            &&& #[trigger] actions[k] == ActionView::OpenProgress
            &&& untouched(actions.take(k))
            &&& forall|i: int|
                k < i < actions.len() ==> !((#[trigger] actions[i]) is Launch) && actions[i]
                    != ActionView::OpenProgress && actions[i] != ActionView::CloseProgress
        }
}

/// What holds of the actions asked for until a stage is reached.
pub open spec fn in_order(stage: StageView, actions: Seq<ActionView>) -> bool {
    match stage {
        StageView::Resolving => untouched(actions),
        StageView::Probing(_) => untouched(actions),
        StageView::Installing(_) => installing(actions),
        _ => well_ordered(actions),
    }
}

proof fn lemma_installing_is_well_ordered(actions: Seq<ActionView>)
    requires
        installing(actions),
    ensures
        well_ordered(actions),
{
    let k = choose|k: int|
        {
            &&& 0 <= k < actions.len()
            &&& #[trigger] actions[k] == ActionView::OpenProgress
            &&& untouched(actions.take(k))
            &&& forall|i: int|
                k < i < actions.len() ==> !((#[trigger] actions[i]) is Launch) && actions[i]
                    != ActionView::OpenProgress && actions[i] != ActionView::CloseProgress
        };
    let before = actions.take(k);
    assert forall|i: int| 0 <= i < k implies !((#[trigger] actions[i]) is Perform) && !(actions[i]
        is Launch) && actions[i] != ActionView::OpenProgress && actions[i]
        != ActionView::CloseProgress by {
        assert(before[i] == actions[i]);
    }
}

proof fn lemma_step_keeps_order(state: LauncherView, event: EventView, asked: Seq<ActionView>)
    requires
        in_order(state.stage, asked),
    ensures
        in_order(launch_step(state, event).0, asked + launch_step(state, event).1),
{
    let actions = launch_step(state, event).1;
    let all = asked + actions;
    let n = asked.len() as int;
    assert forall|i: int| 0 <= i < n implies all[i] == asked[i] by {}
    assert forall|i: int| 0 <= i < actions.len() implies all[n + i] == actions[i] by {}
    if state.stage is Installing && actions.len() > 0 {
        let k = choose|k: int|
            {
                &&& 0 <= k < asked.len()
                &&& #[trigger] asked[k] == ActionView::OpenProgress
                &&& untouched(asked.take(k))
                &&& forall|i: int|
                    k < i < asked.len() ==> !((#[trigger] asked[i]) is Launch) && asked[i]
                        != ActionView::OpenProgress && asked[i] != ActionView::CloseProgress
            };
        let before = asked.take(k);
        assert forall|i: int| 0 <= i < k implies !((#[trigger] all[i]) is Perform) && !(all[i]
            is Launch) && all[i] != ActionView::OpenProgress && all[i]
            != ActionView::CloseProgress by {
            assert(before[i] == asked[i]);
        }
    }
}

/// In every run the actions come in order: the progress window is opened
/// before the first operation of an installation and closed after the last,
/// and XIVLauncher is started at most once, after the installation has ended
/// and the window was closed. So XIVLauncher never runs while an
/// installation is under way.
pub proof fn lemma_run_is_well_ordered(
    command: LaunchCommandView,
    ld_preload: Option<Seq<char>>,
    events: Seq<EventView>,
)
    ensures
        in_order(launch_run(command, ld_preload, events).0, launch_run(command, ld_preload, events).1),
        well_ordered(launch_run(command, ld_preload, events).1),
    decreases events.len(),
{
    if events.len() > 0 {
        lemma_run_is_well_ordered(command, ld_preload, events.drop_last());
        let (stage, asked) = launch_run(command, ld_preload, events.drop_last());
        lemma_step_keeps_order(LauncherView { command, ld_preload, stage }, events.last(), asked);
    }
    let (stage, actions) = launch_run(command, ld_preload, events);
    if stage is Installing {
        lemma_installing_is_well_ordered(actions);
    }
}

} // verus!
