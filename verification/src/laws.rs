//! What holds of every run.
//!
//! A run is described by the events that come in, one for each call that was
//! sent. [`replay`] says where the run stands after them and [`issued`] which
//! calls it asked for on the way. The laws below are proved of all runs, not
//! of examples.

use crate::config::{ConfigFields, ConfigView, EndpointView};
use crate::error::CommitError;
use crate::json::LookupView;
use crate::pipeline::{failure_of, passes, ActionView, EventView, PipelineView, StateView};
use crate::request::{
    blob_request, branch_head_request, branch_request, commit_request, probe_request,
    ref_request, tree_request, BodyView, RequestView, Stage,
};
use crate::text::{lemma_marker_text_injective, marker_text};
use vstd::prelude::*;

verus! {

/// The call that is due in a run, as a sequence of one, or of none where the
/// run has ended.
pub open spec fn due(run: PipelineView) -> Seq<RequestView> {
    match run.pending() {
        ActionView::Send(request) => seq![request],
        _ => Seq::empty(),
    }
}

/// The run after `events` have come in, first to last.
pub open spec fn replay(run: PipelineView, events: Seq<EventView>) -> PipelineView
    decreases events.len(),
{
    if events.len() == 0 {
        run
    } else {
        replay(run.step(events[0]), events.drop_first())
    }
}

/// Every call that the run asks for while `events` come in, in the order in
/// which it asks: the one that is due at the start, and after each event the
/// one that is due then.
pub open spec fn issued(run: PipelineView, events: Seq<EventView>) -> Seq<RequestView>
    decreases events.len(),
{
    if events.len() == 0 {
        due(run)
    } else {
        due(run) + issued(run.step(events[0]), events.drop_first())
    }
}

/// Every call asked for when a run is started from the fields of a
/// configuration file and `events` come in. Where the start is refused there
/// is no run and no call.
pub open spec fn issued_from_start(
    endpoint: EndpointView,
    fields: ConfigFields,
    now_secs: u64,
    events: Seq<EventView>,
) -> Seq<RequestView> {
    match PipelineView::launch(endpoint, fields, now_secs) {
        Ok(run) => issued(run, events),
        Err(_) => Seq::empty(),
    }
}

/// How a run started from the fields of a configuration file stands after
/// `events`: what is due then, or the refusal of the start.
pub open spec fn outcome_from_start(
    endpoint: EndpointView,
    fields: ConfigFields,
    now_secs: u64,
    events: Seq<EventView>,
) -> ActionView {
    match PipelineView::launch(endpoint, fields, now_secs) {
        Ok(run) => replay(run, events).pending(),
        Err(error) => ActionView::Abort(error),
    }
}

/// Seven events, one for the probe and one for each of the six calls to the
/// service, that let every stage go through.
pub open spec fn all_pass(events: Seq<EventView>) -> bool {
    &&& events.len() == 7
    &&& passes(Stage::Preflight, events[0])
    &&& passes(Stage::ResolveHead, events[1])
    &&& passes(Stage::CreateBlob, events[2])
    &&& passes(Stage::CreateTree, events[3])
    &&& passes(Stage::CreateCommit, events[4])
    &&& passes(Stage::UpdateRef, events[5])
    &&& passes(Stage::ConfirmBranch, events[6])
}

/// The stage in place `position` of a run; the last stage for any place
/// beyond it.
pub open spec fn stage_at(position: int) -> Stage {
    if position <= 0 {
        Stage::Preflight
    } else if position == 1 {
        Stage::ResolveHead
    } else if position == 2 {
        Stage::CreateBlob
    } else if position == 3 {
        Stage::CreateTree
    } else if position == 4 {
        Stage::CreateCommit
    } else if position == 5 {
        Stage::UpdateRef
    } else {
        Stage::ConfirmBranch
    }
}

/// The first `count` events let the first `count` stages through.
pub open spec fn passed(events: Seq<EventView>, count: int) -> bool {
    forall|i: int| 0 <= i < count ==> passes(stage_at(i), #[trigger] events[i])
}

/// The state is the one that `events` lead to from the start: it waits at
/// the stage after the last event and holds the identifiers that the events
/// of the stages before carried, or it has ended, with the branch moved after
/// seven events that passed, or failed at the first event that did not pass.
pub open spec fn accounts_for(state: StateView, events: Seq<EventView>) -> bool {
    match state {
        StateView::Preflight => events.len() == 0,
        StateView::ResolveHead => events.len() == 1 && passed(events, 1),
        StateView::CreateBlob { parent } => {
            &&& events.len() == 2
            &&& passed(events, 2)
            &&& events[1].sha() == Some(parent)
        },
        StateView::CreateTree { parent, blob } => {
            &&& events.len() == 3
            &&& passed(events, 3)
            &&& events[1].sha() == Some(parent)
            &&& events[2].sha() == Some(blob)
        },
        StateView::CreateCommit { parent, tree } => {
            &&& events.len() == 4
            &&& passed(events, 4)
            &&& events[1].sha() == Some(parent)
            &&& events[3].sha() == Some(tree)
        },
        StateView::UpdateRef { commit } => {
            &&& events.len() == 5
            &&& passed(events, 5)
            &&& events[4].sha() == Some(commit)
        },
        StateView::ConfirmBranch { commit } => {
            &&& events.len() == 6
            &&& passed(events, 6)
            &&& events[4].sha() == Some(commit)
        },
        StateView::Done { commit, confirmed } => {
            &&& events.len() >= 7
            &&& passed(events, 7)
            &&& events[4].sha() == Some(commit)
            &&& events[6].sha() == confirmed
        },
        StateView::Failed { stage, error } => {
            &&& events.len() > stage.position()
            &&& passed(events, stage.position() as int)
            &&& !passes(stage, events[stage.position() as int])
            &&& error == failure_of(stage)
        },
    }
}

/// The configuration of a run never changes: whatever comes in, the run goes
/// on with the endpoint, the configuration and the starting second that it
/// began with.
pub proof fn law_configuration_is_fixed(run: PipelineView, events: Seq<EventView>)
    ensures
        replay(run, events).endpoint == run.endpoint,
        replay(run, events).config == run.config,
        replay(run, events).now_secs == run.now_secs,
    decreases events.len(),
{
    if events.len() > 0 {
        law_configuration_is_fixed(run.step(events[0]), events.drop_first());
    }
}

/// A run that has ended stays where it is and asks for nothing more,
/// whatever comes in.
pub proof fn law_ended_run_is_final(run: PipelineView, events: Seq<EventView>)
    requires
        run.state.stage() is None,
    ensures
        replay(run, events) == run,
        issued(run, events) == Seq::<RequestView>::empty(),
    decreases events.len(),
{
    if events.len() > 0 {
        law_ended_run_is_final(run, events.drop_first());
    }
}

/// The first failure ends the run. Where the event for the call that is due
/// does not let its stage through, the run fails at that stage with that
/// stage's error, and no call is asked for afterwards, whatever else comes
/// in: the only call on record is the one that failed.
pub proof fn law_first_failure_ends_run(
    run: PipelineView,
    event: EventView,
    later: Seq<EventView>,
)
    requires
        run.state.stage() is Some,
        !passes(run.state.stage()->0, event),
    ensures
        replay(run, seq![event] + later).state == (StateView::Failed {
            stage: run.state.stage()->0,
            error: failure_of(run.state.stage()->0),
        }),
        replay(run, seq![event] + later).pending() == ActionView::Abort(
            failure_of(run.state.stage()->0),
        ),
        issued(run, seq![event] + later) == due(run),
        due(run).len() == 1,
        due(run)[0].stage == run.state.stage()->0,
{
    assert((seq![event] + later).drop_first() =~= later);
    law_ended_run_is_final(run.step(event), later);
}

/// The calls of a run come in the order of the stages and none is left out or
/// repeated: the call asked for in place `i` is the call of the stage in
/// place `i`, counted from the stage that the run starts at.
pub proof fn law_stages_in_order(run: PipelineView, events: Seq<EventView>, i: int)
    requires
        0 <= i < issued(run, events).len(),
    ensures
        run.state.stage() is Some,
        issued(run, events)[i].stage.position() == run.state.stage()->0.position() + i,
    decreases events.len(),
{
    if run.state.stage() is None {
        law_ended_run_is_final(run, events);
    } else if i > 0 {
        law_stages_in_order(run.step(events[0]), events.drop_first(), i - 1);
    }
}

/// Every call is the answer to the replies before it: the call asked for in
/// place `i` is the one that is due when the first `i` events have come in.
pub proof fn law_calls_follow_replies(run: PipelineView, events: Seq<EventView>, i: int)
    requires
        0 <= i < issued(run, events).len(),
    ensures
        i <= events.len(),
        replay(run, events.take(i)).pending() == ActionView::Send(issued(run, events)[i]),
    decreases events.len(),
{
    if run.state.stage() is None {
        law_ended_run_is_final(run, events);
    } else if i > 0 {
        law_calls_follow_replies(run.step(events[0]), events.drop_first(), i - 1);
        assert(events.take(i).drop_first() =~= events.drop_first().take(i - 1));
    }
}

/// One more event at the end of a sequence is one more step at the end of
/// the run.
pub proof fn lemma_replay_push(run: PipelineView, events: Seq<EventView>, event: EventView)
    ensures
        replay(run, events.push(event)) == replay(run, events).step(event),
    decreases events.len(),
{
    let longer = events.push(event);
    if events.len() == 0 {
        assert(replay(run.step(event), longer.drop_first()) == run.step(event));
    } else {
        assert(longer.drop_first() =~= events.drop_first().push(event));
        lemma_replay_push(run.step(events[0]), events.drop_first(), event);
    }
}

/// Every identifier that a stage uses is the one that the stage before it
/// produced. Wherever a run stands after any events, it holds the
/// identifiers that the replies of the earlier stages carried and no others,
/// and it has failed exactly where the first event did not pass.
pub proof fn law_identifiers_come_from_replies(
    endpoint: EndpointView,
    config: ConfigView,
    now_secs: u64,
    events: Seq<EventView>,
)
    ensures
        accounts_for(replay(PipelineView::fresh(endpoint, config, now_secs), events).state, events),
    decreases events.len(),
{
    let start = PipelineView::fresh(endpoint, config, now_secs);
    if events.len() > 0 {
        let earlier = events.drop_last();
        let last = events.last();
        assert(earlier.push(last) =~= events);
        law_identifiers_come_from_replies(endpoint, config, now_secs, earlier);
        lemma_replay_push(start, earlier, last);
        assert forall|i: int| 0 <= i < earlier.len() implies earlier[i] == events[i] by {}
    }
}

/// A run in which the probe and all six calls to the service succeed asks
/// for exactly these calls, in order, and ends with the branch moved: the
/// probe, the branch lookup, the blob, the tree, the commit, the reference
/// update and the confirmation. Each call uses what the replies before it
/// carried: the tree is based on the branch tip of the lookup, the commit has
/// that tip as its parent and the new tree as its tree, and the reference
/// update and the confirmation both carry the identifier that the reply to
/// the commit creation carried.
pub proof fn law_successful_run(
    endpoint: EndpointView,
    fields: ConfigFields,
    now_secs: u64,
    events: Seq<EventView>,
)
    requires
        fields.complete(),
        all_pass(events),
    ensures
        issued_from_start(endpoint, fields, now_secs, events) == seq![
            probe_request(endpoint),
            branch_head_request(endpoint, fields.settled()),
            blob_request(endpoint, fields.settled(), marker_text(now_secs as nat)),
            tree_request(endpoint, fields.settled(), events[1].sha()->0, events[2].sha()->0),
            commit_request(endpoint, fields.settled(), events[1].sha()->0, events[3].sha()->0),
            ref_request(endpoint, fields.settled(), events[4].sha()->0),
            branch_request(endpoint, fields.settled(), events[4].sha()->0),
        ],
        issued_from_start(endpoint, fields, now_secs, events)[5].body == Some(
            BodyView::Reference { sha: events[4].sha()->0 },
        ),
        outcome_from_start(endpoint, fields, now_secs, events) == ActionView::Finish,
        PipelineView::launch(endpoint, fields, now_secs) matches Ok(run) && replay(
            run,
            events,
        ).state == (StateView::Done {
            commit: events[4].sha()->0,
            confirmed: events[6].sha(),
        }),
{
    reveal_with_fuel(replay, 8);
    reveal_with_fuel(issued, 8);
}

/// A branch lookup that is answered with 404 ends the run with
/// [`CommitError::RemoteLookupError`]: the lookup is the last call, and no
/// blob, tree, commit or reference call follows it.
pub proof fn law_missing_branch_ends_run(
    run: PipelineView,
    found: LookupView,
    later: Seq<EventView>,
)
    requires
        run.state == StateView::ResolveHead,
    ensures
        replay(run, seq![EventView::Reply { status: 404, found }] + later).pending()
            == ActionView::Abort(CommitError::RemoteLookupError),
        issued(run, seq![EventView::Reply { status: 404, found }] + later) == seq![
            branch_head_request(run.endpoint, run.config),
        ],
{
    law_first_failure_ends_run(run, EventView::Reply { status: 404, found }, later);
}

/// A blob creation that fails ends the run with
/// [`CommitError::RemoteWriteError`]: the blob call is the last one, and no
/// tree, commit or reference call follows it.
pub proof fn law_failed_blob_ends_run(
    run: PipelineView,
    event: EventView,
    later: Seq<EventView>,
)
    requires
        run.state is CreateBlob,
        !passes(Stage::CreateBlob, event),
    ensures
        replay(run, seq![event] + later).pending() == ActionView::Abort(
            CommitError::RemoteWriteError,
        ),
        issued(run, seq![event] + later) == seq![
            blob_request(run.endpoint, run.config, marker_text(run.now_secs as nat)),
        ],
{
    law_first_failure_ends_run(run, event, later);
}

/// Whenever a run asks for a tree, the tree is based on the identifier that
/// the reply to the branch lookup carried, unchanged, and holds the blob that
/// the reply to the blob creation carried, at the configured path.
pub proof fn law_tree_is_based_on_branch_head(
    endpoint: EndpointView,
    config: ConfigView,
    now_secs: u64,
    events: Seq<EventView>,
)
    requires
        issued(PipelineView::fresh(endpoint, config, now_secs), events).len() > 3,
    ensures
        events.len() >= 3,
        events[1].sha() is Some,
        events[2].sha() is Some,
        issued(PipelineView::fresh(endpoint, config, now_secs), events)[3].body == Some(
            BodyView::Tree {
                base_tree: events[1].sha()->0,
                path: config.github_file_path,
                sha: events[2].sha()->0,
            },
        ),
{
    let start = PipelineView::fresh(endpoint, config, now_secs);
    let first = events.take(3);
    law_calls_follow_replies(start, events, 3);
    law_identifiers_come_from_replies(endpoint, config, now_secs, first);
    law_configuration_is_fixed(start, first);
}

/// A record with a missing field starts no run: the start is refused with
/// [`CommitError::ConfigError`] and no call is asked for, whatever would have
/// come in.
pub proof fn law_incomplete_configuration_sends_nothing(
    endpoint: EndpointView,
    fields: ConfigFields,
    now_secs: u64,
    events: Seq<EventView>,
)
    requires
        !fields.complete(),
    ensures
        PipelineView::launch(endpoint, fields, now_secs) == Err::<PipelineView, CommitError>(
            CommitError::ConfigError,
        ),
        issued_from_start(endpoint, fields, now_secs, events) == Seq::<RequestView>::empty(),
        outcome_from_start(endpoint, fields, now_secs, events) == ActionView::Abort(
            CommitError::ConfigError,
        ),
{
}

/// Two successful runs with one configuration that start at different
/// seconds create blobs with different content.
pub proof fn law_new_second_new_content(
    endpoint: EndpointView,
    fields: ConfigFields,
    first_secs: u64,
    second_secs: u64,
    first_events: Seq<EventView>,
    second_events: Seq<EventView>,
)
    requires
        fields.complete(),
        all_pass(first_events),
        all_pass(second_events),
        first_secs != second_secs,
    ensures
        issued_from_start(endpoint, fields, first_secs, first_events)[2].stage == Stage::CreateBlob,
        issued_from_start(endpoint, fields, second_secs, second_events)[2].stage
            == Stage::CreateBlob,
        issued_from_start(endpoint, fields, first_secs, first_events)[2].body != issued_from_start(
            endpoint,
            fields,
            second_secs,
            second_events,
        )[2].body,
{
    law_successful_run(endpoint, fields, first_secs, first_events);
    law_successful_run(endpoint, fields, second_secs, second_events);
    if marker_text(first_secs as nat) == marker_text(second_secs as nat) {
        lemma_marker_text_injective(first_secs as nat, second_secs as nat);
    }
}

} // verus!
