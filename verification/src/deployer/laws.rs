//! What holds of every deployment, whatever the host replies.

use crate::deployer::rollup::{
    deploy_step, failure, request, DeployActionView, DeployErrorView, DeployStage,
    DeployStateView, DeploymentConfigView,
};
use crate::host::ReplyView;
use crate::text::decimal;
use vstd::prelude::*;

verus! {

/// The state of a deployment after the replies `replies`, in order.
pub open spec fn run(config: DeploymentConfigView, state: DeployStateView, replies: Seq<ReplyView>)
    -> DeployStateView
    decreases replies.len(),
{
    if replies.len() == 0 {
        state
    } else {
        deploy_step(config, run(config, state, replies.drop_last()), replies.last()).0
    }
}

/// What a deployment answers to the reply at position `k` of `replies`.
pub open spec fn answer(
    config: DeploymentConfigView,
    state: DeployStateView,
    replies: Seq<ReplyView>,
    k: int,
) -> DeployActionView {
    deploy_step(config, run(config, state, replies.take(k)), replies[k]).1
}

/// A reply that the deployment finds fault with ends it at the step of the
/// request that the reply answers: the state records that step, and the
/// error names the step by its number and says what went wrong.
pub proof fn law_failure_ends_deployment_at_its_step(
    config: DeploymentConfigView,
    state: DeployStateView,
    reply: ReplyView,
)
    requires
        state.stage.is_active(),
        failure(config, state.stage, reply) is Some,
    ensures
        ({
            let step = state.stage.step();
            let error = failure(config, state.stage, reply).unwrap();
            let next = deploy_step(config, state, reply);
            &&& next.0.stage == DeployStage::Failed(step)
            &&& next.1 == DeployActionView::Abort(DeployErrorView { step, error })
            &&& (DeployErrorView { step, error }).text() == "step "@ + decimal(step.number())
                + ": "@ + error.message
        }),
{
}

/// A reply without fault opens the stage that follows, with the request of
/// that stage, or ends the deployment with its result after the last stage.
pub proof fn law_success_opens_next_stage(
    config: DeploymentConfigView,
    state: DeployStateView,
    reply: ReplyView,
)
    requires
        state.stage.is_active(),
        failure(config, state.stage, reply) is None,
    ensures
        ({
            let next = deploy_step(config, state, reply);
            &&& next.0.stage == state.stage.successor()
            &&& if state.stage is CreatingProxy {
                next.1 is Finish
            } else {
                next.1 == request(config, next.0.stage, next.0.creator, reply)
            }
        }),
{
}

/// The steps of a deployment are gone through in their order: the step of
/// the stage after a reply is never one before the step of the stage that
/// the reply came to.
pub proof fn law_steps_never_go_back(
    config: DeploymentConfigView,
    state: DeployStateView,
    reply: ReplyView,
)
    ensures
        deploy_step(config, state, reply).0.stage.step().number() >= state.stage.step().number(),
{
}

/// A deployment asks something of the host only as long as it has not
/// ended: what it answers is a request exactly when the stage after the
/// reply is one at which a request is out.
pub proof fn law_requests_come_from_active_stages(
    config: DeploymentConfigView,
    state: DeployStateView,
    reply: ReplyView,
)
    ensures
        deploy_step(config, state, reply).1.is_request() <==> deploy_step(
            config,
            state,
            reply,
        ).0.stage.is_active(),
{
}

/// Once a deployment has ended, at whatever step, no later step runs: every
/// further reply is answered with nothing to do, and the state stays as it
/// is.
pub proof fn law_nothing_runs_after_the_end(
    config: DeploymentConfigView,
    state: DeployStateView,
    replies: Seq<ReplyView>,
    ended: int,
    k: int,
)
    requires
        0 <= ended <= k < replies.len(),
        run(config, state, replies.take(ended)).stage.is_final(),
    ensures
        answer(config, state, replies, k) == DeployActionView::Halt,
        run(config, state, replies.take(k + 1)) == run(config, state, replies.take(ended)),
    decreases k - ended,
{
    assert(replies.take(k + 1).drop_last() =~= replies.take(k));
    if ended < k {
        law_nothing_runs_after_the_end(config, state, replies, ended, k - 1);
    }
}

} // verus!
