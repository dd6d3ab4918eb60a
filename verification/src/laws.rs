//! What holds of every acquisition, proved from the definition of one step.

use crate::ebs::{
    attach_request_for, create_volume_request_for, elapsed_ms, fault_tolerated, filters_for,
    located, names_invalid_volume, one_more_fault, poll_request_for, poll_verdict,
    AttachVolumeErrorModel, ConfirmErrorModel, CreateVolumeErrorModel, LocateErrorModel,
};
use crate::orchestrator::{
    confirming, failing, pausing, run, step_spec, ActionModel, ContextModel, EventModel, OrchestratorModel, PhaseModel,
};
use crate::remote::DescribeVolumesResponseModel;
use crate::tags::{distinct_keys, key_set, lemma_key_count, TagModel};
use vstd::prelude::*;

verus! {

/// The request to attach the candidate at place `i`.
pub open spec fn attach_of(ctx: ContextModel, candidates: Seq<Seq<char>>, i: int) -> ActionModel {
    ActionModel::AttachVolume(attach_request_for(candidates[i], ctx.instance_id, ctx.device))
}

/// The number of requests for a new volume among `actions`.
pub open spec fn creations(actions: Seq<ActionModel>) -> nat
    decreases actions.len(),
{
    if actions.len() == 0 {
        0
    } else if actions[0] is CreateVolume {
        1 + creations(actions.drop_first())
    } else {
        creations(actions.drop_first())
    }
}

/// The discovery query has one clause for each tag and one for the status:
/// one more clause than the mapping has keys.
pub proof fn lemma_filter_count(tags: Seq<TagModel>)
    requires
        distinct_keys(tags),
    ensures
        key_set(tags).finite(),
        filters_for(tags).len() == key_set(tags).len() + 1,
{
    lemma_key_count(tags);
}

/// An answer to the discovery query that has further pages is refused,
/// however many volumes it holds.
pub proof fn lemma_pagination_refused(response: DescribeVolumesResponseModel)
    requires
        response.more_pages,
    ensures
        located(Ok(response)) == Err::<Seq<Seq<char>>, LocateErrorModel>(
            LocateErrorModel::PaginationUnsupported,
        ),
{
}

/// A step leaves a well-formed machine well formed and keeps what stays the
/// same through an acquisition.
pub proof fn lemma_step_preserves_wf(m: OrchestratorModel, event: EventModel, now: int)
    requires
        m.wf(),
        m.phase.awaits(event),
    ensures
        step_spec(m, event, now).0.wf(),
        step_spec(m, event, now).0.ctx == m.ctx,
{
}

/// The machine stops exactly when it names the action to finish, and it
/// finishes with a volume exactly in the phase `Done`.
pub proof fn lemma_finish_is_terminal(m: OrchestratorModel, event: EventModel, now: int)
    requires
        m.wf(),
        m.phase.awaits(event),
    ensures
        step_spec(m, event, now).0.phase.terminal() <==> step_spec(m, event, now).1 is Finish,
        step_spec(m, event, now).0.phase is Done <==> (step_spec(m, event, now).1 matches ActionModel::Finish(
            Ok(_),
        )),
{
}

/// Where discovery finds no volume, the machine goes on to create one, and
/// asks for no attachment on the way.
pub proof fn lemma_no_candidates_go_to_creation(
    m: OrchestratorModel,
    outcome: Result<DescribeVolumesResponseModel, Seq<char>>,
    now: int,
)
    requires
        m.phase is Discovering,
        located(outcome) matches Ok(candidates) && candidates.len() == 0,
    ensures
        step_spec(m, EventModel::DescribeVolumes(outcome), now) == (
            OrchestratorModel { ctx: m.ctx, phase: PhaseModel::Creating },
            ActionModel::CreateVolume(create_volume_request_for(m.ctx.zone, m.ctx.spec)),
        ),
{
}

/// Candidates are attached in their order, each once, until one accepts:
/// the candidates from `next` to `k` are asked, none after `k`, and the wait
/// for the attachment of the candidate at `k` begins.
proof fn lemma_attempts_until_success(
    ctx: ContextModel,
    candidates: Seq<Seq<char>>,
    next: int,
    k: int,
    events: Seq<(EventModel, int)>,
)
    requires
        0 <= next <= k < candidates.len(),
        events.len() == k - next + 1,
        forall|i: int|
            0 <= i < k - next ==> (#[trigger] events[i]).0 matches EventModel::AttachVolume(Err(_)),
        events[k - next].0 matches EventModel::AttachVolume(Ok(_)),
    ensures
        run(
            OrchestratorModel { ctx, phase: PhaseModel::AttemptingExisting { candidates, next } },
            events,
        ) == (
            confirming(ctx, candidates[k], events[k - next].1).0,
            Seq::new(
                (k - next + 1) as nat,
                |i: int|
                    if i < k - next {
                        attach_of(ctx, candidates, next + 1 + i)
                    } else {
                        confirming(ctx, candidates[k], events[k - next].1).1
                    },
            ),
        ),
    decreases k - next,
{
    let m = OrchestratorModel { ctx, phase: PhaseModel::AttemptingExisting { candidates, next } };
    let rest = events.drop_first();
    let after = step_spec(m, events[0].0, events[0].1).0;
    if next == k {
        // The candidate at `k` accepts, and no event is left.
        assert(run(after, rest).1 =~= Seq::<ActionModel>::empty());
    } else {
        // The candidate at `next` refuses; the rest is the same course, one
        // candidate on.
        assert forall|i: int| 0 <= i < k - (next + 1) implies (#[trigger] rest[i]).0 matches EventModel::AttachVolume(
            Err(_),
        ) by {
            assert(rest[i] == events[i + 1]);
        }
        lemma_attempts_until_success(ctx, candidates, next + 1, k, rest);
    }
}

/// The first candidate that accepts wins: where the candidates before place
/// `k` refuse and the one at `k` accepts, the machine asks the candidates up
/// to `k` in their order, each once, asks none of those after `k`, and then
/// begins to wait for the attachment of the candidate at `k`.
pub proof fn lemma_first_success_wins(
    m: OrchestratorModel,
    outcome: Result<DescribeVolumesResponseModel, Seq<char>>,
    k: int,
    events: Seq<(EventModel, int)>,
)
    requires
        m.phase is Discovering,
        located(outcome) is Ok,
        0 <= k < located(outcome)->Ok_0.len(),
        events.len() == k + 2,
        events[0].0 == EventModel::DescribeVolumes(outcome),
        forall|i: int|
            1 <= i <= k ==> (#[trigger] events[i]).0 matches EventModel::AttachVolume(Err(_)),
        events[k + 1].0 matches EventModel::AttachVolume(Ok(_)),
    ensures
        ({
            let candidates = located(outcome)->Ok_0;
            let (last, actions) = run(m, events);
            &&& actions.len() == k + 2
            &&& forall|i: int| 0 <= i <= k ==> actions[i] == attach_of(m.ctx, candidates, i)
            &&& (last, actions[k + 1]) == confirming(m.ctx, candidates[k], events[k + 1].1)
        }),
{
    // Discovery leads to the attempt on the first candidate; the rest of the
    // course is that of the attempts.
    let candidates = located(outcome)->Ok_0;
    let rest = events.drop_first();
    assert forall|i: int| 0 <= i < k implies (#[trigger] rest[i]).0 matches EventModel::AttachVolume(
        Err(_),
    ) by {
        assert(rest[i] == events[i + 1]);
    }
    lemma_attempts_until_success(m.ctx, candidates, 0, k, rest);
}

/// Candidates that all refuse are asked in their order, each once, and a new
/// volume is asked for after the last of them.
proof fn lemma_attempts_all_refused(
    ctx: ContextModel,
    candidates: Seq<Seq<char>>,
    next: int,
    events: Seq<(EventModel, int)>,
)
    requires
        0 <= next < candidates.len(),
        events.len() == candidates.len() - next,
        forall|i: int| 0 <= i < events.len() ==> (#[trigger] events[i]).0 matches EventModel::AttachVolume(Err(_)),
    ensures
        run(
            OrchestratorModel { ctx, phase: PhaseModel::AttemptingExisting { candidates, next } },
            events,
        ) == (
            OrchestratorModel { ctx, phase: PhaseModel::Creating },
            Seq::new(
                events.len(),
                |i: int|
                    if i < candidates.len() - next - 1 {
                        attach_of(ctx, candidates, next + 1 + i)
                    } else {
                        ActionModel::CreateVolume(create_volume_request_for(ctx.zone, ctx.spec))
                    },
            ),
        ),
    decreases candidates.len() - next,
{
    let m = OrchestratorModel { ctx, phase: PhaseModel::AttemptingExisting { candidates, next } };
    let rest = events.drop_first();
    let after = step_spec(m, events[0].0, events[0].1).0;
    if next + 1 == candidates.len() {
        // The last candidate refuses, and no event is left.
        assert(run(after, rest).1 =~= Seq::<ActionModel>::empty());
    } else {
        assert forall|i: int| 0 <= i < rest.len() implies (#[trigger] rest[i]).0 matches EventModel::AttachVolume(
            Err(_),
        ) by {
            assert(rest[i] == events[i + 1]);
        }
        lemma_attempts_all_refused(ctx, candidates, next + 1, rest);
    }
}

/// Where every candidate refuses, the machine asks each in its order, once,
/// and then asks for a new volume.
pub proof fn lemma_exhausted_candidates_go_to_creation(
    m: OrchestratorModel,
    outcome: Result<DescribeVolumesResponseModel, Seq<char>>,
    events: Seq<(EventModel, int)>,
)
    requires
        m.phase is Discovering,
        located(outcome) is Ok,
        located(outcome)->Ok_0.len() > 0,
        events.len() == located(outcome)->Ok_0.len() + 1,
        events[0].0 == EventModel::DescribeVolumes(outcome),
        forall|i: int| 1 <= i < events.len() ==> (#[trigger] events[i]).0 matches EventModel::AttachVolume(Err(_)),
    ensures
        ({
            let candidates = located(outcome)->Ok_0;
            let (last, actions) = run(m, events);
            &&& actions.len() == candidates.len() + 1
            &&& forall|i: int| 0 <= i < candidates.len() ==> actions[i] == attach_of(m.ctx, candidates, i)
            &&& actions[candidates.len() as int] == ActionModel::CreateVolume(
                create_volume_request_for(m.ctx.zone, m.ctx.spec),
            )
            &&& last.phase == PhaseModel::Creating
        }),
{
    let candidates = located(outcome)->Ok_0;
    let rest = events.drop_first();
    assert forall|i: int| 0 <= i < rest.len() implies (#[trigger] rest[i]).0 matches EventModel::AttachVolume(
        Err(_),
    ) by {
        assert(rest[i] == events[i + 1]);
    }
    lemma_attempts_all_refused(m.ctx, candidates, 0, rest);
}

/// That no volume exists, or that none could be attached, never ends an
/// acquisition: either leads to the creation of a new volume.
pub proof fn lemma_fallback_errors_never_surface(m: OrchestratorModel, event: EventModel, now: int)
    requires
        m.wf(),
        m.phase.awaits(event),
    ensures
        step_spec(m, event, now).1 != ActionModel::Finish(
            Err(AttachVolumeErrorModel::NoVolumesAvailable),
        ),
        step_spec(m, event, now).1 != ActionModel::Finish(
            Err(AttachVolumeErrorModel::AllAttachesFailed),
        ),
{
}

/// How far an acquisition has come: discovery, the existing volumes, the
/// creation, tagging and attaching of a new volume, the wait for the
/// attachment, the end.
pub open spec fn progress(phase: PhaseModel) -> nat {
    match phase {
        PhaseModel::Discovering => 0,
        PhaseModel::AttemptingExisting { .. } => 1,
        PhaseModel::Creating => 2,
        PhaseModel::Tagging { .. } => 3,
        PhaseModel::AttemptingNew { .. } => 4,
        PhaseModel::Confirming { .. } => 5,
        PhaseModel::Waiting { .. } => 5,
        PhaseModel::Done => 6,
        PhaseModel::Failed => 6,
    }
}

/// The protocol runs once: no step leads back to an earlier stage, and none
/// leads back to discovery.
pub proof fn lemma_phases_only_advance(m: OrchestratorModel, event: EventModel, now: int)
    requires
        m.wf(),
        m.phase.awaits(event),
    ensures
        progress(step_spec(m, event, now).0.phase) >= progress(m.phase),
        !(step_spec(m, event, now).0.phase is Discovering),
{
}

/// The phases in which no new volume has been asked for yet.
pub open spec fn before_creation(phase: PhaseModel) -> bool {
    phase is Discovering || phase is AttemptingExisting
}

/// In the whole course of an acquisition a new volume is asked for at most
/// once, and never again once it has been asked for.
pub proof fn lemma_creates_at_most_once(m: OrchestratorModel, events: Seq<(EventModel, int)>)
    requires
        m.wf(),
    ensures
        creations(run(m, events).1) <= 1,
        !before_creation(m.phase) ==> creations(run(m, events).1) == 0,
    decreases events.len(),
{
    if events.len() == 0 || !m.phase.awaits(events[0].0) {
    } else {
        let (next, action) = step_spec(m, events[0].0, events[0].1);
        let rest = events.drop_first();
        lemma_step_preserves_wf(m, events[0].0, events[0].1);
        lemma_creates_at_most_once(next, rest);
        let actions = run(next, rest).1;
        assert((seq![action] + actions).drop_first() =~= actions);
    }
}

/// A failure to tag the new volume ends the acquisition with the id of that
/// volume and with what the service said.
pub proof fn lemma_tagging_failure_keeps_volume_id(
    m: OrchestratorModel,
    cause: Seq<char>,
    now: int,
)
    requires
        m.phase is Tagging,
    ensures
        step_spec(m, EventModel::CreateTags(Err(cause)), now) == failing(
            m.ctx,
            AttachVolumeErrorModel::Create(
                CreateVolumeErrorModel::TaggingFailed {
                    volume_id: m.phase->Tagging_volume_id,
                    cause,
                },
            ),
        ),
{
}

/// The action with which the machine gives up waiting for an attachment.
pub open spec fn timing_out() -> ActionModel {
    ActionModel::Finish(Err(AttachVolumeErrorModel::Confirm(ConfirmErrorModel::Timeout)))
}

/// No look at an attachment ends the wait with a timeout: a look that shows
/// the volume not attached yet is followed by a pause of the configured
/// length.
pub proof fn lemma_look_never_times_out(m: OrchestratorModel, event: EventModel, now: int)
    requires
        m.phase is Confirming,
        event is DescribeVolumes,
    ensures
        step_spec(m, event, now).1 != timing_out(),
        poll_verdict(event->DescribeVolumes_0) is Pending ==> step_spec(m, event, now) == pausing(
            m.ctx,
            m.phase->Confirming_volume_id,
            m.phase->Confirming_since,
            0,
        ),
{
}

/// A look that fails for a reason that may pass does not end the wait where
/// no limit is set for such looks, and where a limit is set, ends it only
/// once as many looks in a row have failed: the wait goes on with a pause.
pub proof fn lemma_passing_faults_are_tolerated(
    m: OrchestratorModel,
    cause: Seq<char>,
    now: int,
)
    requires
        m.phase is Confirming,
        fault_tolerated(m.ctx.policy, m.phase->Confirming_faults),
        !names_invalid_volume(cause),
    ensures
        step_spec(m, EventModel::DescribeVolumes(Err(cause)), now) == pausing(
            m.ctx,
            m.phase->Confirming_volume_id,
            m.phase->Confirming_since,
            one_more_fault(m.phase->Confirming_faults),
        ),
{
}

/// Where no limit is set for failed looks, a wait ends without a volume in
/// two ways only: with a timeout, or because the service says that the
/// volume does not exist.
pub proof fn lemma_wait_fails_by_timeout_or_unknown_volume(
    m: OrchestratorModel,
    event: EventModel,
    now: int,
)
    requires
        m.phase is Confirming || m.phase is Waiting,
        m.phase.awaits(event),
        m.ctx.policy.fault_cap is None,
        step_spec(m, event, now).0.phase is Failed,
    ensures
        ({
            let action = step_spec(m, event, now).1;
            ||| action == timing_out()
            ||| (event matches EventModel::DescribeVolumes(Err(cause)) && names_invalid_volume(
                cause,
            ) && action == ActionModel::Finish(
                Err(AttachVolumeErrorModel::Confirm(ConfirmErrorModel::RemoteFailure(cause))),
            ))
        }),
{
}

/// After a pause the wait ends with a timeout exactly when the time allowed
/// has passed since the attachment was asked for; before that, the machine
/// looks again.
pub proof fn lemma_timeout_exactly_when_budget_spent(m: OrchestratorModel, now: int)
    requires
        m.phase is Waiting,
    ensures
        step_spec(m, EventModel::Sleep, now).1 == timing_out() <==> elapsed_ms(
            m.phase->Waiting_since,
            now,
        ) >= m.ctx.policy.budget_ms,
        elapsed_ms(m.phase->Waiting_since, now) < m.ctx.policy.budget_ms ==> step_spec(
            m,
            EventModel::Sleep,
            now,
        ) == (
            OrchestratorModel {
                ctx: m.ctx,
                phase: PhaseModel::Confirming {
                    volume_id: m.phase->Waiting_volume_id,
                    since: m.phase->Waiting_since,
                    faults: m.phase->Waiting_faults,
                },
            },
            ActionModel::DescribeVolumes(poll_request_for(m.phase->Waiting_volume_id)),
        ),
{
}

/// The machine waits for the attachment of `volume_id`, asked for at
/// `since`.
pub open spec fn awaiting_attachment(phase: PhaseModel, volume_id: Seq<char>, since: int) -> bool {
    match phase {
        PhaseModel::Confirming { volume_id: v, since: s, .. } => v == volume_id && s == since,
        PhaseModel::Waiting { volume_id: v, since: s, .. } => v == volume_id && s == since,
        _ => false,
    }
}

/// A wait in which every look succeeds and none shows the volume attached
/// ends in one way only: with a timeout, at the first pause that ends when
/// the time allowed has passed, and not before. Until then the machine
/// pauses after each look and looks after each pause, always at the same
/// volume.
pub proof fn lemma_unseen_attachment_times_out(
    m: OrchestratorModel,
    volume_id: Seq<char>,
    since: int,
    events: Seq<(EventModel, int)>,
)
    requires
        awaiting_attachment(m.phase, volume_id, since),
        forall|i: int|
            0 <= i < events.len() && (#[trigger] events[i]).0 is DescribeVolumes ==> poll_verdict(
                events[i].0->DescribeVolumes_0,
            ) is Pending,
    ensures
        ({
            let (last, actions) = run(m, events);
            &&& actions.len() <= events.len()
            &&& forall|i: int|
                0 <= i < actions.len() ==> (#[trigger] actions[i] == timing_out() <==> (
                events[i].0 is Sleep && elapsed_ms(since, events[i].1) >= m.ctx.policy.budget_ms))
            &&& forall|i: int|
                0 <= i < actions.len() && #[trigger] actions[i] != timing_out() ==> {
                    ||| actions[i] == ActionModel::Sleep(m.ctx.policy.interval_ms as int)
                    ||| actions[i] == ActionModel::DescribeVolumes(poll_request_for(volume_id))
                }
            &&& forall|i: int|
                0 <= i < actions.len() && #[trigger] actions[i] == timing_out() ==> i
                    == actions.len() - 1
            &&& last.ctx == m.ctx
        }),
    decreases events.len(),
{
    if events.len() == 0 || !m.phase.awaits(events[0].0) {
    } else {
        let (next, action) = step_spec(m, events[0].0, events[0].1);
        let rest = events.drop_first();
        let later = run(next, rest).1;
        let actions = seq![action] + later;
        if !(next.phase is Failed) {
            // The wait goes on: the rest is the same course, one event on.
            assert forall|i: int|
                0 <= i < rest.len() && (#[trigger] rest[i]).0 is DescribeVolumes implies poll_verdict(
                rest[i].0->DescribeVolumes_0,
            ) is Pending by {
                assert(rest[i] == events[i + 1]);
            }
            lemma_unseen_attachment_times_out(next, volume_id, since, rest);
        }
        // What holds of the actions of the rest holds of the actions after
        // the first.
        assert forall|i: int| 0 < i < actions.len() implies #[trigger] actions[i] == later[i - 1]
            && events[i] == rest[i - 1] by {
        }
    }
}

} // verus!
