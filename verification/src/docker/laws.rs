//! What holds of the registry and of the lifecycle of its records, whatever
//! the registry holds and whatever is reported to an operation.

use crate::deployer::rollup::DeployErrorView;
use crate::docker::rollup::{
    create_step, delete_step, distinct, first_from, has_id, has_vm_id, lemma_first_from, lookup,
    missing, not_found, out_of_turn, start_step, stop_step, with_status, without,
    CreateActionView, CreateEventView, CreateRequestView, CreateStage, CreateStateView,
    LifecycleActionView, LifecycleEventView, RollupInfoView, RollupStatusView, ARBISCAN_API_KEY,
    ARBITRUM_RPC_URL, BATCH_POSTER_PRIVATE_KEY, DEPLOYER_PRIVATE_KEY, VALIDATOR_PRIVATE_KEY,
};
use crate::error::ErrorKind;
use crate::text::decimal;
use vstd::prelude::*;

verus! {

/// Two registries of the same length whose records agree, place by place,
/// on whether they are wanted hold the first wanted record at the same
/// place.
pub proof fn lemma_first_from_agrees(
    a: Seq<RollupInfoView>,
    b: Seq<RollupInfoView>,
    wanted: spec_fn(RollupInfoView) -> bool,
    from: int,
)
    requires
        a.len() == b.len(),
        forall|k: int| 0 <= k < a.len() ==> wanted(a[k]) == wanted(b[k]),
        0 <= from,
    ensures
        first_from(a, wanted, from) == first_from(b, wanted, from),
    decreases a.len() - from,
{
    if from < a.len() && !wanted(a[from]) {
        lemma_first_from_agrees(a, b, wanted, from + 1);
    }
}

/// A change of status changes the status of the one record and nothing
/// else: the record is found as before, with the new status; every other
/// record is found as before; and distinct records stay distinct.
pub proof fn lemma_with_status(
    registry: Seq<RollupInfoView>,
    id: Seq<char>,
    status: RollupStatusView,
    other: Seq<char>,
)
    ensures
        with_status(registry, id, status).len() == registry.len(),
        lookup(with_status(registry, id, status), id) == match lookup(registry, id) {
            Some(record) => Some(record.with_status(status)),
            None => None,
        },
        other != id ==> lookup(with_status(registry, id, status), other) == lookup(
            registry,
            other,
        ),
        distinct(registry) ==> distinct(with_status(registry, id, status)),
{
    let after = with_status(registry, id, status);
    lemma_first_from(registry, has_id(id), 0);
    lemma_first_from(registry, has_id(other), 0);
    lemma_first_from_agrees(registry, after, has_id(id), 0);
    lemma_first_from_agrees(registry, after, has_id(other), 0);
}

/// Once the record of a rollup is taken out of a registry of distinct
/// records, the rollup is not found, and the records stay distinct.
pub proof fn lemma_without(registry: Seq<RollupInfoView>, id: Seq<char>)
    requires
        distinct(registry),
    ensures
        lookup(without(registry, id), id) is None,
        distinct(without(registry, id)),
{
    let after = without(registry, id);
    lemma_first_from(registry, has_id(id), 0);
    lemma_first_from(after, has_id(id), 0);
    match first_from(registry, has_id(id), 0) {
        Some(i) => {
            assert forall|k: int| 0 <= k < after.len() implies !has_id(id)(after[k]) by {}
            assert forall|a: int, b: int| 0 <= a < b < after.len() implies {
                &&& (#[trigger] after[a]).rollup_id != (#[trigger] after[b]).rollup_id
                &&& after[a].vm_id != after[b].vm_id
            } by {}
        },
        None => {},
    }
}

/// The place at which a wanted record stands with none wanted before it is
/// the place that `first_from` finds.
pub proof fn lemma_first_is_unique(
    registry: Seq<RollupInfoView>,
    wanted: spec_fn(RollupInfoView) -> bool,
    k: int,
)
    requires
        0 <= k < registry.len(),
        wanted(registry[k]),
        forall|j: int| 0 <= j < k ==> !wanted(registry[j]),
    ensures
        first_from(registry, wanted, 0) == Some(k),
{
    lemma_first_from(registry, wanted, 0);
}

/// Taking the record of one rollup out of a registry of distinct records
/// leaves every other rollup found as before.
pub proof fn lemma_without_keeps_others(
    registry: Seq<RollupInfoView>,
    id: Seq<char>,
    other: Seq<char>,
)
    requires
        other != id,
    ensures
        lookup(without(registry, id), other) == lookup(registry, other),
{
    let after = without(registry, id);
    lemma_first_from(registry, has_id(id), 0);
    lemma_first_from(registry, has_id(other), 0);
    lemma_first_from(after, has_id(other), 0);
    match first_from(registry, has_id(id), 0) {
        Some(i) => {
            assert forall|k: int| 0 <= k < after.len() implies after[k] == registry[if k < i {
                k
            } else {
                k + 1
            }] by {}
            match first_from(registry, has_id(other), 0) {
                Some(j) => {
                    let moved = if j < i {
                        j
                    } else {
                        j - 1
                    };
                    lemma_first_is_unique(after, has_id(other), moved);
                },
                None => {},
            }
        },
        None => {},
    }
}

/// The transitions of a record's status that the lifecycle permits.
pub open spec fn permitted(from: RollupStatusView, to: RollupStatusView) -> bool {
    match from {
        RollupStatusView::Creating => to is Created || to is Failed,
        RollupStatusView::Created => to is Starting,
        RollupStatusView::Stopped => to is Starting,
        RollupStatusView::Starting => to is Running || to is Failed,
        RollupStatusView::Running => to is Stopping || to is Deleting,
        RollupStatusView::Deleting => to is Stopping,
        RollupStatusView::Stopping => to is Stopped || to is Failed,
        RollupStatusView::Failed(_) => false,
    }
}

/// The record `after` is the record `before`, in the same status or in one
/// that the lifecycle permits after it.
pub open spec fn follows(before: RollupInfoView, after: RollupInfoView) -> bool {
    after == before || (after == before.with_status(after.status) && permitted(
        before.status,
        after.status,
    ))
}

/// A lifecycle operation changes the status of a record only as the
/// lifecycle permits, and makes no record: whatever rollup is found after a
/// transition of a start, a stop or a deletion was there before it, with
/// the same status or with one from which the transition is permitted.
pub proof fn law_status_changes_only_as_permitted(
    registry: Seq<RollupInfoView>,
    id: Seq<char>,
    event: LifecycleEventView,
    any: Seq<char>,
)
    requires
        distinct(registry),
    ensures
        lookup(start_step(registry, id, event).0, any) matches Some(after) ==> lookup(
            registry,
            any,
        ) matches Some(before) && follows(before, after),
        lookup(stop_step(registry, id, event).0, any) matches Some(after) ==> lookup(
            registry,
            any,
        ) matches Some(before) && follows(before, after),
        lookup(delete_step(registry, id, event).0, any) matches Some(after) ==> lookup(
            registry,
            any,
        ) matches Some(before) && follows(before, after),
{
    lemma_with_status(registry, id, RollupStatusView::Starting, any);
    lemma_with_status(registry, id, RollupStatusView::Running, any);
    lemma_with_status(registry, id, RollupStatusView::Stopping, any);
    lemma_with_status(registry, id, RollupStatusView::Stopped, any);
    lemma_with_status(registry, id, RollupStatusView::Deleting, any);
    match event {
        LifecycleEventView::Failed(reason) => {
            lemma_with_status(registry, id, RollupStatusView::Failed(reason), any);
        },
        _ => {},
    }
    lemma_without(registry, id);
    if any != id {
        lemma_without_keeps_others(registry, id, any);
    }
}

/// The creation of a rollup changes the status of a record only as the
/// lifecycle permits: whatever rollup is found after a transition either
/// was there before it, with the same status or with one from which the
/// transition is permitted, or is new and `Creating`.
pub proof fn law_creation_changes_status_only_as_permitted(
    registry: Seq<RollupInfoView>,
    state: CreateStateView,
    event: CreateEventView,
    now: Seq<char>,
    any: Seq<char>,
)
    requires
        distinct(registry),
    ensures
        lookup(create_step(registry, state, event, now).0, any) matches Some(after) ==> match lookup(
            registry,
            any,
        ) {
            Some(before) => follows(before, after),
            None => after.status is Creating,
        },
{
    let step = create_step(registry, state, event, now);
    lemma_first_from(registry, has_id(any), 0);
    lemma_first_from(step.0, has_id(any), 0);
    let id = state.rollup_id;
    lemma_with_status(registry, id, RollupStatusView::Created, any);
    lemma_with_status(registry, id, RollupStatusView::Failed(out_of_turn()), any);
    lemma_with_status(registry, id, RollupStatusView::Failed(missing(DEPLOYER_PRIVATE_KEY@)), any);
    lemma_with_status(registry, id, RollupStatusView::Failed(missing(ARBISCAN_API_KEY@)), any);
    lemma_with_status(registry, id, RollupStatusView::Failed(missing(ARBITRUM_RPC_URL@)), any);
    lemma_with_status(registry, id, RollupStatusView::Failed(missing(VALIDATOR_PRIVATE_KEY@)), any);
    lemma_with_status(
        registry,
        id,
        RollupStatusView::Failed(missing(BATCH_POSTER_PRIVATE_KEY@)),
        any,
    );
    match event {
        CreateEventView::Request(request) => {
            lemma_first_from(registry, has_id(request.rollup_id), 0);
            if state.stage is Idle && step.0 != registry {
                let added = registry.push(request.record(now));
                assert(step.0 == added);
                assert(forall|k: int| 0 <= k < registry.len() ==> added[k] == registry[k]);
                match first_from(registry, has_id(any), 0) {
                    Some(j) => {
                        lemma_first_is_unique(added, has_id(any), j);
                    },
                    None => {},
                }
            }
        },
        CreateEventView::DeployFailed(error) => {
            lemma_with_status(
                registry,
                id,
                RollupStatusView::Failed("Contract deployment failed: "@ + error.text()),
                any,
            );
        },
        CreateEventView::RenderFailed(reason) => {
            lemma_with_status(
                registry,
                id,
                RollupStatusView::Failed("Config generation failed: "@ + reason),
                any,
            );
        },
        _ => {},
    }
}

/// Every created record is alone under its rollup identifier and starts as
/// `Creating`.
///
/// A request to create a rollup either is refused and leaves the registry as
/// it is, or adds one record: that of the request, in status `Creating`,
/// under an identifier that no record had before. Either way the records
/// stay distinct.
pub proof fn law_created_record_is_new_and_creating(
    registry: Seq<RollupInfoView>,
    state: CreateStateView,
    request: CreateRequestView,
    now: Seq<char>,
)
    requires
        distinct(registry),
        state.stage is Idle,
    ensures
        ({
            let step = create_step(registry, state, CreateEventView::Request(request), now);
            &&& distinct(step.0)
            &&& if step.2 is ReadDeployKeys {
                &&& lookup(registry, request.rollup_id) is None
                &&& step.0 == registry.push(request.record(now))
                &&& lookup(step.0, request.rollup_id) == Some(request.record(now))
                &&& request.record(now).status is Creating
            } else {
                &&& step.0 == registry
                &&& step.1.stage is Failed
                &&& step.2 is Fail
            }
        }),
{
    let step = create_step(registry, state, CreateEventView::Request(request), now);
    lemma_first_from(registry, has_id(request.rollup_id), 0);
    lemma_first_from(registry, has_vm_id(request.vm_id), 0);
    if step.2 is ReadDeployKeys {
        let after = registry.push(request.record(now));
        lemma_first_from(after, has_id(request.rollup_id), 0);
        assert(after[registry.len() as int] == request.record(now));
    }
}

/// No transition of a lifecycle operation makes two records share an
/// identifier.
pub proof fn law_operations_keep_records_distinct(
    registry: Seq<RollupInfoView>,
    id: Seq<char>,
    event: LifecycleEventView,
)
    requires
        distinct(registry),
    ensures
        distinct(start_step(registry, id, event).0),
        distinct(stop_step(registry, id, event).0),
        distinct(delete_step(registry, id, event).0),
{
    lemma_with_status(registry, id, RollupStatusView::Starting, id);
    lemma_with_status(registry, id, RollupStatusView::Running, id);
    lemma_with_status(registry, id, RollupStatusView::Stopping, id);
    lemma_with_status(registry, id, RollupStatusView::Stopped, id);
    lemma_with_status(registry, id, RollupStatusView::Deleting, id);
    match event {
        LifecycleEventView::Failed(reason) => {
            lemma_with_status(registry, id, RollupStatusView::Failed(reason), id);
        },
        _ => {},
    }
    lemma_without(registry, id);
}

/// A deployment that fails at a step leaves the record `Failed`, with a
/// reason that names the number of that step, and ends the creation: from
/// then on nothing is asked for and the registry stays as it is.
pub proof fn law_failed_deployment_fails_record(
    registry: Seq<RollupInfoView>,
    state: CreateStateView,
    error: DeployErrorView,
    later: CreateEventView,
    now: Seq<char>,
)
    requires
        state.stage is Deploying,
        lookup(registry, state.rollup_id) matches Some(record) && record.status is Creating,
    ensures
        ({
            let step = create_step(registry, state, CreateEventView::DeployFailed(error), now);
            let reason = "Contract deployment failed: "@ + ("step "@ + decimal(error.step.number())
                + ": "@ + error.error.message);
            &&& lookup(step.0, state.rollup_id) matches Some(record)
            &&& record.status == RollupStatusView::Failed(reason)
            &&& step.1.stage is Failed
            &&& step.2 is Fail
            &&& create_step(step.0, step.1, later, now) == (step.0, step.1, CreateActionView::Halt)
        }),
{
    let reason = "Contract deployment failed: "@ + error.text();
    lemma_with_status(
        registry,
        state.rollup_id,
        RollupStatusView::Failed(reason),
        state.rollup_id,
    );
}

/// Once its record is made, a creation leaves the record `Creating` only
/// while it goes on. When it ends well the creation answers with the
/// rollup's identifier and the record is `Created`; when it ends badly it
/// answers with an error and the record is `Failed`, with a reason that is
/// not empty. The record is never removed.
pub proof fn law_creation_ends_created_or_failed(
    registry: Seq<RollupInfoView>,
    state: CreateStateView,
    event: CreateEventView,
    now: Seq<char>,
)
    requires
        !(state.stage is Idle) && !(state.stage is Finished) && !(state.stage is Failed),
        lookup(registry, state.rollup_id) matches Some(record) && record.status is Creating,
    ensures
        ({
            let step = create_step(registry, state, event, now);
            &&& lookup(step.0, state.rollup_id) matches Some(record)
            &&& match step.1.stage {
                CreateStage::Finished => record.status is Created && step.2
                    == CreateActionView::Done(state.rollup_id),
                CreateStage::Failed => {
                    &&& step.2 is Fail
                    &&& record.status matches RollupStatusView::Failed(reason)
                    &&& reason.len() > 0
                },
                _ => record.status is Creating && !(step.2 is Fail) && !(step.2 is Done),
            }
        }),
{
    let id = state.rollup_id;
    reveal_strlit(" environment variable not set");
    reveal_strlit("The event does not answer the request");
    reveal_strlit("Contract deployment failed: ");
    reveal_strlit("Config generation failed: ");
    lemma_with_status(registry, id, RollupStatusView::Created, id);
    lemma_with_status(registry, id, RollupStatusView::Failed(out_of_turn()), id);
    lemma_with_status(registry, id, RollupStatusView::Failed(missing(DEPLOYER_PRIVATE_KEY@)), id);
    lemma_with_status(registry, id, RollupStatusView::Failed(missing(ARBISCAN_API_KEY@)), id);
    lemma_with_status(registry, id, RollupStatusView::Failed(missing(ARBITRUM_RPC_URL@)), id);
    lemma_with_status(registry, id, RollupStatusView::Failed(missing(VALIDATOR_PRIVATE_KEY@)), id);
    lemma_with_status(
        registry,
        id,
        RollupStatusView::Failed(missing(BATCH_POSTER_PRIVATE_KEY@)),
        id,
    );
    match event {
        CreateEventView::DeployFailed(error) => {
            lemma_with_status(
                registry,
                id,
                RollupStatusView::Failed("Contract deployment failed: "@ + error.text()),
                id,
            );
        },
        CreateEventView::RenderFailed(reason) => {
            lemma_with_status(
                registry,
                id,
                RollupStatusView::Failed("Config generation failed: "@ + reason),
                id,
            );
        },
        _ => {},
    }
}

/// A start of a rollup that is `Created` or `Stopped` makes it `Starting`
/// and asks for its node to be brought up; it is `Running` when that ended
/// well and `Failed` with the reason when it did not.
pub proof fn law_start_runs_or_fails(
    registry: Seq<RollupInfoView>,
    id: Seq<char>,
    reason: Seq<char>,
)
    requires
        lookup(registry, id) matches Some(record) && (record.status is Created
            || record.status is Stopped),
    ensures
        ({
            let asked = start_step(registry, id, LifecycleEventView::Requested);
            let well = start_step(asked.0, id, LifecycleEventView::Succeeded);
            let badly = start_step(asked.0, id, LifecycleEventView::Failed(reason));
            &&& lookup(registry, id) matches Some(record)
            &&& asked.1 == LifecycleActionView::Start(record.node())
            &&& lookup(asked.0, id) matches Some(starting)
            &&& starting.status is Starting
            &&& well.1 is Done
            &&& lookup(well.0, id) matches Some(running)
            &&& running.status is Running
            &&& badly.1 is Fail
            &&& lookup(badly.0, id) matches Some(failed)
            &&& failed.status == RollupStatusView::Failed(reason)
        }),
{
    let asked = start_step(registry, id, LifecycleEventView::Requested);
    lemma_with_status(registry, id, RollupStatusView::Starting, id);
    lemma_with_status(asked.0, id, RollupStatusView::Running, id);
    lemma_with_status(asked.0, id, RollupStatusView::Failed(reason), id);
}

/// A start of a rollup that is neither `Created` nor `Stopped`, such as one
/// that is `Running`, is refused with an error of kind `Precondition`, and
/// the registry stays as it is.
pub proof fn law_start_is_refused_elsewhere(registry: Seq<RollupInfoView>, id: Seq<char>)
    requires
        lookup(registry, id) matches Some(record) && !(record.status is Created
            || record.status is Stopped),
    ensures
        ({
            let asked = start_step(registry, id, LifecycleEventView::Requested);
            &&& asked.0 == registry
            &&& asked.1 matches LifecycleActionView::Fail(error)
            &&& error.kind == ErrorKind::Precondition
        }),
{
}

/// A stop of a rollup that is `Running` makes it `Stopping` and asks for its
/// node to be taken down; it is `Stopped` when that ended well and `Failed`
/// with the reason when it did not.
pub proof fn law_stop_stops_or_fails(
    registry: Seq<RollupInfoView>,
    id: Seq<char>,
    reason: Seq<char>,
)
    requires
        lookup(registry, id) matches Some(record) && record.status is Running,
    ensures
        ({
            let asked = stop_step(registry, id, LifecycleEventView::Requested);
            let well = stop_step(asked.0, id, LifecycleEventView::Succeeded);
            let badly = stop_step(asked.0, id, LifecycleEventView::Failed(reason));
            &&& lookup(registry, id) matches Some(record)
            &&& asked.1 == LifecycleActionView::Stop(record.node())
            &&& lookup(asked.0, id) matches Some(stopping)
            &&& stopping.status is Stopping
            &&& well.1 is Done
            &&& lookup(well.0, id) matches Some(stopped)
            &&& stopped.status is Stopped
            &&& badly.1 is Fail
            &&& lookup(badly.0, id) matches Some(failed)
            &&& failed.status == RollupStatusView::Failed(reason)
        }),
{
    let asked = stop_step(registry, id, LifecycleEventView::Requested);
    lemma_with_status(registry, id, RollupStatusView::Stopping, id);
    lemma_with_status(asked.0, id, RollupStatusView::Stopped, id);
    lemma_with_status(asked.0, id, RollupStatusView::Failed(reason), id);
}

/// A stop of a rollup that is neither `Running` nor `Deleting` is refused
/// with an error of kind `Precondition`, and the registry stays as it is.
pub proof fn law_stop_is_refused_elsewhere(registry: Seq<RollupInfoView>, id: Seq<char>)
    requires
        lookup(registry, id) matches Some(record) && !(record.status is Running
            || record.status is Deleting),
    ensures
        ({
            let asked = stop_step(registry, id, LifecycleEventView::Requested);
            &&& asked.0 == registry
            &&& asked.1 matches LifecycleActionView::Fail(error)
            &&& error.kind == ErrorKind::Precondition
        }),
{
}

/// The deletion of a rollup that is `Running` stops it first and removes it
/// after: the request removes nothing and asks for a stop; the stop takes
/// the rollup from `Deleting` over `Stopping` to `Stopped`; only then is the
/// record removed, and the rollup is not found any more.
pub proof fn law_delete_running_stops_then_removes(registry: Seq<RollupInfoView>, id: Seq<char>)
    requires
        distinct(registry),
        lookup(registry, id) matches Some(record) && record.status is Running,
    ensures
        ({
            let asked = delete_step(registry, id, LifecycleEventView::Requested);
            let stopping = stop_step(asked.0, id, LifecycleEventView::Requested);
            let stopped = stop_step(stopping.0, id, LifecycleEventView::Succeeded);
            let deleted = delete_step(stopped.0, id, LifecycleEventView::Succeeded);
            &&& asked.1 is StopFirst
            &&& lookup(asked.0, id) matches Some(marked)
            &&& marked.status is Deleting
            &&& stopping.1 is Stop
            &&& lookup(stopping.0, id) matches Some(going)
            &&& going.status is Stopping
            &&& stopped.1 is Done
            &&& lookup(stopped.0, id) matches Some(gone)
            &&& gone.status is Stopped
            &&& deleted.1 is Done
            &&& lookup(deleted.0, id) is None
        }),
{
    let asked = delete_step(registry, id, LifecycleEventView::Requested);
    lemma_with_status(registry, id, RollupStatusView::Deleting, id);
    let stopping = stop_step(asked.0, id, LifecycleEventView::Requested);
    lemma_with_status(asked.0, id, RollupStatusView::Stopping, id);
    let stopped = stop_step(stopping.0, id, LifecycleEventView::Succeeded);
    lemma_with_status(stopping.0, id, RollupStatusView::Stopped, id);
    lemma_without(stopped.0, id);
}

/// Where the stop that a deletion asked for has failed, the record stays:
/// the deletion fails and removes nothing.
pub proof fn law_delete_keeps_record_when_stop_fails(
    registry: Seq<RollupInfoView>,
    id: Seq<char>,
    reason: Seq<char>,
)
    ensures
        delete_step(registry, id, LifecycleEventView::Failed(reason)).0 == registry,
        delete_step(registry, id, LifecycleEventView::Failed(reason)).1 is Fail,
{
}

/// After the deletion of a rollup that is not `Running`, the rollup is not
/// found.
pub proof fn law_deleted_rollup_is_not_found(registry: Seq<RollupInfoView>, id: Seq<char>)
    requires
        distinct(registry),
        lookup(registry, id) matches Some(record) && !(record.status is Running),
    ensures
        delete_step(registry, id, LifecycleEventView::Requested).1 is Done,
        lookup(delete_step(registry, id, LifecycleEventView::Requested).0, id) is None,
{
    lemma_without(registry, id);
}

/// No transition of a deletion takes a record out of the registry while it
/// is `Running`.
pub proof fn law_running_record_is_never_removed(
    registry: Seq<RollupInfoView>,
    id: Seq<char>,
    event: LifecycleEventView,
)
    requires
        lookup(registry, id) matches Some(record) && record.status is Running,
    ensures
        lookup(delete_step(registry, id, event).0, id) is Some,
{
    lemma_with_status(registry, id, RollupStatusView::Deleting, id);
}

/// An operation on a rollup that the registry does not know fails with an
/// error of kind `NotFound` and leaves the registry as it is.
pub proof fn law_unknown_rollup_is_not_found(registry: Seq<RollupInfoView>, id: Seq<char>)
    requires
        lookup(registry, id) is None,
    ensures
        start_step(registry, id, LifecycleEventView::Requested) == (
            registry,
            LifecycleActionView::Fail(not_found()),
        ),
        stop_step(registry, id, LifecycleEventView::Requested) == (
            registry,
            LifecycleActionView::Fail(not_found()),
        ),
        delete_step(registry, id, LifecycleEventView::Requested) == (
            registry,
            LifecycleActionView::Fail(not_found()),
        ),
{
}

} // verus!
