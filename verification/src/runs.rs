//! Whole runs of the pipeline: what holds of the states that a sequence of
//! events leads through, whatever the events are.

use crate::command::{fetch_invocation, StageResultModel};
use crate::constructor::is_file_reference;
use crate::pipeline::{
    action_for, after_declare, initial_state, is_terminal, next_state, stage_of, ActionModel,
    ConfigModel, ErrorModel, EventModel, Stage, StateModel,
};
use vstd::prelude::*;

verus! {

/// The state reached from `state` after `events`, in order.
pub open spec fn run_from(config: ConfigModel, state: StateModel, events: Seq<EventModel>) -> StateModel
    decreases events.len(),
{
    if events.len() == 0 {
        state
    } else {
        next_state(config, run_from(config, state, events.drop_last()), events.last())
    }
}

/// The state reached from the start after `events`, in order.
pub open spec fn run(config: ConfigModel, events: Seq<EventModel>) -> StateModel {
    run_from(config, initial_state(), events)
}

/// Position of a stage in the order of the pipeline.
pub open spec fn stage_index(stage: Stage) -> int {
    match stage {
        Stage::ValidateInputs => 0,
        Stage::ReadManifest => 1,
        Stage::Compile => 2,
        Stage::GenerateKeystore => 3,
        Stage::FetchAccount => 4,
        Stage::ResolveAndValidateArtifact => 5,
        Stage::Declare => 6,
        Stage::NormalizeArgs => 7,
        Stage::Deploy => 8,
        Stage::Success => 9,
    }
}

/// Whether an event tells that the work it answers went wrong.
pub open spec fn reports_failure(event: EventModel) -> bool {
    match event {
        EventModel::PathChecked(exists) => !exists,
        EventModel::ManifestRead(outcome) => !(outcome is Loaded),
        EventModel::ConstructorFileRead(contents) => contents is None,
        EventModel::ToolFinished(result) => result.exit_code != 0,
        EventModel::ToolLaunchFailed => true,
    }
}

/// Whether an event is an answer to the action that a state waits for.
pub open spec fn answers(config: ConfigModel, state: StateModel, event: EventModel) -> bool {
    match action_for(config, state) {
        ActionModel::CheckPath(_) => event is PathChecked,
        ActionModel::ReadManifest(_) => event is ManifestRead,
        ActionModel::ReadConstructorFile(_) => event is ConstructorFileRead,
        ActionModel::Invoke(_) => event is ToolFinished || event is ToolLaunchFailed,
        ActionModel::Stop => false,
    }
}

/// A run that has ended stays as it is, and asks for nothing more.
pub proof fn lemma_ended_run_stays(config: ConfigModel, state: StateModel, events: Seq<EventModel>)
    requires
        is_terminal(state),
    ensures
        run_from(config, state, events) == state,
        action_for(config, state) == ActionModel::Stop,
    decreases events.len(),
{
    if events.len() > 0 {
        lemma_ended_run_stays(config, state, events.drop_last());
    }
}

/// An event that does not answer what the state waits for changes nothing.
pub proof fn lemma_other_events_are_ignored(
    config: ConfigModel,
    state: StateModel,
    event: EventModel,
)
    requires
        !answers(config, state, event),
    ensures
        next_state(config, state, event) == state,
{
}

/// Stages are passed in order, none is left out and none comes twice.
///
/// A step that does not end the run stays at its stage (only while the
/// required files are looked for one after the other), or goes to the next
/// one. The one step that goes further is the one after a declare run when no
/// constructor file has to be read: the arguments are then normalized within
/// that step. A step that ends the run in failure records the stage at which
/// it stood.
pub proof fn lemma_stages_in_order(config: ConfigModel, state: StateModel, event: EventModel)
    ensures
        ({
            let next = next_state(config, state, event);
            let from = stage_index(stage_of(state));
            let to = stage_index(stage_of(next));
            &&& next is Failed ==> to == from
            &&& !(next is Failed) ==> {
                ||| next == state
                ||| to == from && state is ResolveAndValidateArtifact
                ||| to == from + 1
                ||| state is Declare && next is Deploy && !(config.constructor_input matches Some(
                    raw,
                ) && is_file_reference(raw))
            }
        }),
{
}

/// The stage of a run never goes back.
pub proof fn lemma_stage_never_goes_back(
    config: ConfigModel,
    state: StateModel,
    events: Seq<EventModel>,
    n: int,
)
    requires
        0 <= n <= events.len(),
    ensures
        stage_index(stage_of(run_from(config, state, events.take(n)))) <= stage_index(
            stage_of(run_from(config, state, events)),
        ),
    decreases events.len() - n,
{
    if n == events.len() {
        assert(events.take(n) =~= events);
    } else {
        let init = events.drop_last();
        assert(init.take(n) =~= events.take(n));
        lemma_stage_never_goes_back(config, state, init, n);
        lemma_stages_in_order(config, run_from(config, state, init), events.last());
    }
}

/// No run goes on after a failure: whatever answers the action of a state
/// with a failure ends the run at the stage of that state. The one exception
/// is the keystore, whose creation may report a failure without ending the
/// run.
pub proof fn lemma_failure_ends_run(config: ConfigModel, state: StateModel, event: EventModel)
    requires
        answers(config, state, event),
        reports_failure(event),
        !(state is GenerateKeystore && event is ToolFinished),
    ensures
        next_state(config, state, event) is Failed,
        stage_of(next_state(config, state, event)) == stage_of(state),
{
}

/// A run whose project path does not exist ends at once with `PathNotFound`,
/// at the first stage, and no state on its way asks for a tool to be run.
pub proof fn lemma_missing_project_path(config: ConfigModel, events: Seq<EventModel>)
    requires
        events.len() > 0,
        events[0] == EventModel::PathChecked(false),
    ensures
        run(config, events) == (StateModel::Failed {
            stage: Stage::ValidateInputs,
            error: ErrorModel::PathNotFound,
        }),
        forall|n: int|
            0 <= n <= events.len() ==> !(action_for(config, #[trigger] run(config, events.take(n)))
                is Invoke),
{
    let failed = StateModel::Failed {
        stage: Stage::ValidateInputs,
        error: ErrorModel::PathNotFound,
    };
    assert forall|n: int| 0 <= n <= events.len() implies #[trigger] run(config, events.take(n))
        == (if n == 0 {
        initial_state()
    } else {
        failed
    }) by {
        lemma_run_after_first(config, events.take(n), failed);
    }
    assert(events.take(events.len() as int) =~= events);
    assert(run(config, events.take(events.len() as int)) == failed);
}

proof fn lemma_run_after_first(config: ConfigModel, events: Seq<EventModel>, ended: StateModel)
    requires
        is_terminal(ended),
        events.len() > 0 ==> next_state(config, initial_state(), events[0]) == ended,
    ensures
        run(config, events) == if events.len() == 0 {
            initial_state()
        } else {
            ended
        },
    decreases events.len(),
{
    if events.len() > 0 {
        let init = events.drop_last();
        lemma_run_after_first(config, init, ended);
        if init.len() > 0 {
            assert(init[0] == events[0]);
        }
    }
}

/// A declare run that exits with a failure ends the pipeline at the declare
/// stage with `DeclareFailed`, holding what the tool wrote to its error
/// output. No event that follows changes that, and the contract is never
/// deployed: no state of the run, before or after, waits for a deploy run.
pub proof fn lemma_declare_failure(
    config: ConfigModel,
    events: Seq<EventModel>,
    at: int,
    result: StageResultModel,
)
    requires
        0 <= at < events.len(),
        run(config, events.take(at)) is Declare,
        events[at] == EventModel::ToolFinished(result),
        result.exit_code != 0,
    ensures
        run(config, events) == (StateModel::Failed {
            stage: Stage::Declare,
            error: ErrorModel::DeclareFailed(result.stderr),
        }),
        action_for(config, run(config, events)) == ActionModel::Stop,
        forall|n: int|
            0 <= n <= events.len() ==> !(#[trigger] run(config, events.take(n)) is Deploy),
{
    let failed = StateModel::Failed {
        stage: Stage::Declare,
        error: ErrorModel::DeclareFailed(result.stderr),
    };
    let upto = events.take(at + 1);
    assert(upto.drop_last() =~= events.take(at));
    assert(upto.last() == events[at]);
    assert(run(config, upto) == failed);
    assert forall|n: int| at < n <= events.len() implies #[trigger] run(config, events.take(n))
        == failed by {
        lemma_run_splits(config, initial_state(), events.take(n), at + 1);
        assert(events.take(n).take(at + 1) =~= upto);
        lemma_ended_run_stays(config, failed, events.take(n).skip(at + 1));
    }
    assert(events.take(events.len() as int) =~= events);
    assert(run(config, events.take(events.len() as int)) == failed);
    assert forall|n: int| 0 <= n <= events.len() implies !(#[trigger] run(config, events.take(n))
        is Deploy) by {
        if n <= at {
            lemma_stage_never_goes_back(config, initial_state(), events.take(at), n);
            assert(events.take(at).take(n) =~= events.take(n));
        }
    }
}

/// A run can be cut in two: the events after the cut continue from the state
/// that the events before it reached.
pub proof fn lemma_run_splits(
    config: ConfigModel,
    state: StateModel,
    events: Seq<EventModel>,
    at: int,
)
    requires
        0 <= at <= events.len(),
    ensures
        run_from(config, state, events) == run_from(
            config,
            run_from(config, state, events.take(at)),
            events.skip(at),
        ),
    decreases events.len() - at,
{
    if at == events.len() {
        assert(events.take(at) =~= events);
        assert(events.skip(at) =~= Seq::<EventModel>::empty());
    } else {
        let init = events.drop_last();
        lemma_run_splits(config, state, init, at);
        assert(init.take(at) =~= events.take(at));
        assert(events.skip(at).drop_last() =~= init.skip(at));
        assert(events.skip(at).last() == events.last());
    }
}

/// A failure to create the keystore does not end the run: whatever the tool
/// reports, the account is fetched next. The failure is noted in the state.
pub proof fn lemma_keystore_failure_is_tolerated(
    config: ConfigModel,
    state: StateModel,
    result: StageResultModel,
)
    requires
        state is GenerateKeystore,
    ensures
        ({
            let next = next_state(config, state, EventModel::ToolFinished(result));
            &&& next == (StateModel::FetchAccount {
                package_name: state->GenerateKeystore_package_name,
                keystore_warning: result.exit_code != 0,
            })
            &&& action_for(config, next) == ActionModel::Invoke(
                fetch_invocation(config.wallet_address, config.rpc_endpoint, config.working_dir),
            )
        }),
{
}

/// Constructor arguments read from a file count as the same text given
/// directly: after the declare run, a run whose input names a file and that
/// is handed `text` as the content of that file stands where a run stands
/// whose input is `text` itself.
pub proof fn lemma_file_text_counts_as_inline(
    with_file: ConfigModel,
    inline: ConfigModel,
    class_hash: Seq<char>,
    text: Seq<char>,
)
    requires
        with_file.constructor_input matches Some(path) && is_file_reference(path),
        inline.constructor_input == Some(text),
        !is_file_reference(text),
    ensures
        next_state(
            with_file,
            after_declare(with_file, class_hash),
            EventModel::ConstructorFileRead(Some(text)),
        ) == after_declare(inline, class_hash),
{
}

} // verus!
