//! The protocol by which one volume is acquired and attached, as a state
//! machine. The machine decides; the caller acts. Each step takes what the
//! last action brought and names the next action, until the action is to
//! finish with a volume id or an error.

use crate::config::{EbsBlockProviderConfig, VolumeSpecModel};
use crate::ebs::{
    assess_poll, attach_outcome, attach_request, attach_request_for, attach_result, count_fault,
    create_tags_request, create_tags_request_for, create_volume_request,
    create_volume_request_for, creation_advisable, creation_advisable_for, discovery_request,
    discovery_request_for, fault_tolerated, locate, located, one_more_fault, poll_due,
    poll_request, poll_request_for, poll_verdict, provision_outcome, provisioned, tagged,
    tagging_outcome, within_budget, AttachVolumeError, AttachVolumeErrorModel, Candidate,
    ConfirmError, ConfirmErrorModel, PollPolicy, PollVerdict, PollVerdictModel,
};
use crate::model::{lemma_push_deep_view, outcome_view};
use crate::remote::{
    AttachmentRequest, AttachmentRequestModel, CreateTagsRequest, CreateTagsRequestModel,
    CreateVolumeRequest, CreateVolumeRequestModel, DescribeVolumesRequest,
    DescribeVolumesRequestModel, DescribeVolumesResponse, DescribeVolumesResponseModel,
};
use crate::tags::distinct_keys;
use vstd::prelude::*;
use vstd::string::*;

verus! {

/// What the caller is to do next.
#[derive(Debug, PartialEq, Eq)]
pub enum Action {
    /// Ask the service for volumes.
    DescribeVolumes(DescribeVolumesRequest),
    /// Ask the service to attach a volume.
    AttachVolume(AttachmentRequest),
    /// Ask the service for a new volume.
    CreateVolume(CreateVolumeRequest),
    /// Ask the service to tag a volume.
    CreateTags(CreateTagsRequest),
    /// Let this many milliseconds pass.
    Sleep(u64),
    /// Stop: the volume with this id is attached, or none is.
    Finish(Result<String, AttachVolumeError>),
}

/// What an [`Action`] stands for.
pub enum ActionModel {
    DescribeVolumes(DescribeVolumesRequestModel),
    AttachVolume(AttachmentRequestModel),
    CreateVolume(CreateVolumeRequestModel),
    CreateTags(CreateTagsRequestModel),
    Sleep(int),
    Finish(Result<Seq<char>, AttachVolumeErrorModel>),
}

impl DeepView for Action {
    type V = ActionModel;

    open spec fn deep_view(&self) -> ActionModel {
        match self {
            Action::DescribeVolumes(request) => ActionModel::DescribeVolumes(request@),
            Action::AttachVolume(request) => ActionModel::AttachVolume(request@),
            Action::CreateVolume(request) => ActionModel::CreateVolume(request@),
            Action::CreateTags(request) => ActionModel::CreateTags(request@),
            Action::Sleep(millis) => ActionModel::Sleep(*millis as int),
            Action::Finish(result) => ActionModel::Finish(outcome_view(*result)),
        }
    }
}

impl View for Action {
    type V = ActionModel;

    open spec fn view(&self) -> ActionModel {
        self.deep_view()
    }
}

/// What the last action brought. Each variant answers the action of the same
/// name; a remote call that failed brings what the service said.
#[derive(Debug, PartialEq, Eq)]
pub enum Event {
    DescribeVolumes(Result<DescribeVolumesResponse, String>),
    AttachVolume(Result<(), String>),
    CreateVolume(Result<String, String>),
    CreateTags(Result<(), String>),
    /// The time asked for has passed.
    Sleep,
}

/// What an [`Event`] stands for.
pub enum EventModel {
    DescribeVolumes(Result<DescribeVolumesResponseModel, Seq<char>>),
    AttachVolume(Result<(), Seq<char>>),
    CreateVolume(Result<Seq<char>, Seq<char>>),
    CreateTags(Result<(), Seq<char>>),
    Sleep,
}

impl DeepView for Event {
    type V = EventModel;

    open spec fn deep_view(&self) -> EventModel {
        match self {
            Event::DescribeVolumes(outcome) => EventModel::DescribeVolumes(outcome_view(*outcome)),
            Event::AttachVolume(outcome) => EventModel::AttachVolume(outcome_view(*outcome)),
            Event::CreateVolume(outcome) => EventModel::CreateVolume(outcome_view(*outcome)),
            Event::CreateTags(outcome) => EventModel::CreateTags(outcome_view(*outcome)),
            Event::Sleep => EventModel::Sleep,
        }
    }
}

impl View for Event {
    type V = EventModel;

    open spec fn view(&self) -> EventModel {
        self.deep_view()
    }
}

/// What stays the same through one acquisition.
#[derive(Debug)]
pub struct Context {
    /// The volume wanted.
    pub config: EbsBlockProviderConfig,
    /// The device path under which the volume is attached.
    pub device: String,
    /// The instance to which the volume is attached.
    pub instance_id: String,
    /// The zone of the instance, in which a new volume is created.
    pub zone: String,
    /// How long an attachment is waited for.
    pub policy: PollPolicy,
}

/// What a [`Context`] stands for.
pub struct ContextModel {
    pub spec: VolumeSpecModel,
    pub device: Seq<char>,
    pub instance_id: Seq<char>,
    pub zone: Seq<char>,
    pub policy: PollPolicy,
}

impl DeepView for Context {
    type V = ContextModel;

    open spec fn deep_view(&self) -> ContextModel {
        ContextModel {
            spec: self.config@,
            device: self.device@,
            instance_id: self.instance_id@,
            zone: self.zone@,
            policy: self.policy,
        }
    }
}

impl View for Context {
    type V = ContextModel;

    open spec fn view(&self) -> ContextModel {
        self.deep_view()
    }
}

/// Where an acquisition stands.
#[derive(Debug, PartialEq, Eq)]
pub enum Phase {
    /// The volumes that may serve are being listed.
    Discovering,
    /// The candidate at place `next` is being attached; those before it
    /// refused.
    AttemptingExisting { candidates: Vec<Candidate>, next: usize },
    /// A new volume is being created.
    Creating,
    /// The new volume is being tagged.
    Tagging { volume_id: String },
    /// The new volume is being attached.
    AttemptingNew { volume_id: String },
    /// The attachment asked for at `since` is being looked at; the last
    /// `faults` looks failed.
    Confirming { volume_id: String, since: u64, faults: u32 },
    /// The attachment asked for at `since` was not seen yet; the next look
    /// follows a pause. The last `faults` looks failed.
    Waiting { volume_id: String, since: u64, faults: u32 },
    /// A volume is attached.
    Done,
    /// No volume is attached.
    Failed,
}

/// What a [`Phase`] stands for.
pub enum PhaseModel {
    Discovering,
    AttemptingExisting { candidates: Seq<Seq<char>>, next: int },
    Creating,
    Tagging { volume_id: Seq<char> },
    AttemptingNew { volume_id: Seq<char> },
    Confirming { volume_id: Seq<char>, since: int, faults: int },
    Waiting { volume_id: Seq<char>, since: int, faults: int },
    Done,
    Failed,
}

impl DeepView for Phase {
    type V = PhaseModel;

    open spec fn deep_view(&self) -> PhaseModel {
        match self {
            Phase::Discovering => PhaseModel::Discovering,
            Phase::AttemptingExisting { candidates, next } => PhaseModel::AttemptingExisting {
                candidates: candidates.deep_view(),
                next: *next as int,
            },
            Phase::Creating => PhaseModel::Creating,
            Phase::Tagging { volume_id } => PhaseModel::Tagging { volume_id: volume_id@ },
            Phase::AttemptingNew { volume_id } => PhaseModel::AttemptingNew {
                volume_id: volume_id@,
            },
            Phase::Confirming { volume_id, since, faults } => PhaseModel::Confirming {
                volume_id: volume_id@,
                since: *since as int,
                faults: *faults as int,
            },
            Phase::Waiting { volume_id, since, faults } => PhaseModel::Waiting {
                volume_id: volume_id@,
                since: *since as int,
                faults: *faults as int,
            },
            Phase::Done => PhaseModel::Done,
            Phase::Failed => PhaseModel::Failed,
        }
    }
}

impl View for Phase {
    type V = PhaseModel;

    open spec fn view(&self) -> PhaseModel {
        self.deep_view()
    }
}

impl PhaseModel {
    /// A candidate that is being attached is one of the candidates.
    pub open spec fn wf(self) -> bool {
        self matches PhaseModel::AttemptingExisting { candidates, next } ==> 0 <= next
            < candidates.len()
    }

    /// The machine has stopped.
    pub open spec fn terminal(self) -> bool {
        self is Done || self is Failed
    }

    /// The phase waits for an event of this kind.
    pub open spec fn awaits(self, event: EventModel) -> bool {
        match self {
            PhaseModel::Discovering => event is DescribeVolumes,
            PhaseModel::AttemptingExisting { .. } => event is AttachVolume,
            PhaseModel::Creating => event is CreateVolume,
            PhaseModel::Tagging { .. } => event is CreateTags,
            PhaseModel::AttemptingNew { .. } => event is AttachVolume,
            PhaseModel::Confirming { .. } => event is DescribeVolumes,
            PhaseModel::Waiting { .. } => event is Sleep,
            PhaseModel::Done => false,
            PhaseModel::Failed => false,
        }
    }
}

/// What an [`Orchestrator`] stands for.
pub struct OrchestratorModel {
    pub ctx: ContextModel,
    pub phase: PhaseModel,
}

impl OrchestratorModel {
    /// The tags of the volume wanted have distinct keys, and the phase is
    /// well formed.
    pub open spec fn wf(self) -> bool {
        distinct_keys(self.ctx.spec.tags) && self.phase.wf()
    }
}

/// The machine stops without a volume.
pub open spec fn failing(ctx: ContextModel, error: AttachVolumeErrorModel) -> (
    OrchestratorModel,
    ActionModel,
) {
    (OrchestratorModel { ctx, phase: PhaseModel::Failed }, ActionModel::Finish(Err(error)))
}

/// The volumes that exist gave `error`: a new volume is created where that
/// is advisable, and the machine stops with `error` where it is not.
pub open spec fn falling_back(ctx: ContextModel, error: AttachVolumeErrorModel) -> (
    OrchestratorModel,
    ActionModel,
) {
    if creation_advisable_for(error) {
        (
            OrchestratorModel { ctx, phase: PhaseModel::Creating },
            ActionModel::CreateVolume(create_volume_request_for(ctx.zone, ctx.spec)),
        )
    } else {
        failing(ctx, error)
    }
}

/// The candidates before place `next` are done with: the one at `next` is
/// attached, or, where there is none left, the machine falls back.
pub open spec fn attempting(ctx: ContextModel, candidates: Seq<Seq<char>>, next: int) -> (
    OrchestratorModel,
    ActionModel,
) {
    if next < candidates.len() {
        (
            OrchestratorModel { ctx, phase: PhaseModel::AttemptingExisting { candidates, next } },
            ActionModel::AttachVolume(
                attach_request_for(candidates[next], ctx.instance_id, ctx.device),
            ),
        )
    } else if candidates.len() == 0 {
        falling_back(ctx, AttachVolumeErrorModel::NoVolumesAvailable)
    } else {
        falling_back(ctx, AttachVolumeErrorModel::AllAttachesFailed)
    }
}

/// The attachment of `volume_id` was asked for at `now`: it is looked at,
/// unless no time at all is allowed for it.
pub open spec fn confirming(ctx: ContextModel, volume_id: Seq<char>, now: int) -> (
    OrchestratorModel,
    ActionModel,
) {
    if within_budget(ctx.policy, now, now) {
        (
            OrchestratorModel {
                ctx,
                phase: PhaseModel::Confirming { volume_id, since: now, faults: 0 },
            },
            ActionModel::DescribeVolumes(poll_request_for(volume_id)),
        )
    } else {
        failing(ctx, AttachVolumeErrorModel::Confirm(ConfirmErrorModel::Timeout))
    }
}

/// The attachment of `volume_id`, asked for at `since`, was not seen: the
/// next look follows a pause.
pub open spec fn pausing(ctx: ContextModel, volume_id: Seq<char>, since: int, faults: int) -> (
    OrchestratorModel,
    ActionModel,
) {
    (
        OrchestratorModel { ctx, phase: PhaseModel::Waiting { volume_id, since, faults } },
        ActionModel::Sleep(ctx.policy.interval_ms as int),
    )
}

/// The first state of an acquisition and its first action: the discovery of
/// the volumes that may serve.
pub open spec fn starting(ctx: ContextModel) -> (OrchestratorModel, ActionModel) {
    (
        OrchestratorModel { ctx, phase: PhaseModel::Discovering },
        ActionModel::DescribeVolumes(discovery_request_for(ctx.spec.tags)),
    )
}

/// One step of the protocol: the state and the action that follow when
/// `event` reaches the machine `m` at time `now`. Stated for the events that
/// the phase of `m` awaits.
pub open spec fn step_spec(m: OrchestratorModel, event: EventModel, now: int) -> (
    OrchestratorModel,
    ActionModel,
)
    recommends
        m.phase.awaits(event),
{
    let ctx = m.ctx;
    match (m.phase, event) {
        (PhaseModel::Discovering, EventModel::DescribeVolumes(outcome)) => match located(outcome) {
            Err(error) => failing(ctx, AttachVolumeErrorModel::Locate(error)),
            Ok(candidates) => attempting(ctx, candidates, 0),
        },
        (
            PhaseModel::AttemptingExisting { candidates, next },
            EventModel::AttachVolume(outcome),
        ) => match attach_result(outcome) {
            Ok(_) => confirming(ctx, candidates[next], now),
            Err(_) => attempting(ctx, candidates, next + 1),
        },
        (PhaseModel::Creating, EventModel::CreateVolume(outcome)) => match provisioned(outcome) {
            Ok(volume_id) => (
                OrchestratorModel { ctx, phase: PhaseModel::Tagging { volume_id } },
                ActionModel::CreateTags(create_tags_request_for(volume_id, ctx.spec)),
            ),
            Err(error) => failing(ctx, AttachVolumeErrorModel::Create(error)),
        },
        (PhaseModel::Tagging { volume_id }, EventModel::CreateTags(outcome)) => match tagged(
            volume_id,
            outcome,
        ) {
            Ok(volume_id) => (
                OrchestratorModel { ctx, phase: PhaseModel::AttemptingNew { volume_id } },
                ActionModel::AttachVolume(
                    attach_request_for(volume_id, ctx.instance_id, ctx.device),
                ),
            ),
            Err(error) => failing(ctx, AttachVolumeErrorModel::Create(error)),
        },
        (
            PhaseModel::AttemptingNew { volume_id },
            EventModel::AttachVolume(outcome),
        ) => match attach_result(outcome) {
            Ok(_) => confirming(ctx, volume_id, now),
            Err(error) => failing(ctx, AttachVolumeErrorModel::AttachingCreatedVolumeFailed(error)),
        },
        (
            PhaseModel::Confirming { volume_id, since, faults },
            EventModel::DescribeVolumes(outcome),
        ) => match poll_verdict(outcome) {
            PollVerdictModel::Attached => (
                OrchestratorModel { ctx, phase: PhaseModel::Done },
                ActionModel::Finish(Ok(volume_id)),
            ),
            PollVerdictModel::Invalid(cause) => failing(
                ctx,
                AttachVolumeErrorModel::Confirm(ConfirmErrorModel::RemoteFailure(cause)),
            ),
            PollVerdictModel::Pending => pausing(ctx, volume_id, since, 0),
            PollVerdictModel::Faulted(cause) => if fault_tolerated(ctx.policy, faults) {
                pausing(ctx, volume_id, since, one_more_fault(faults))
            } else {
                failing(
                    ctx,
                    AttachVolumeErrorModel::Confirm(ConfirmErrorModel::RemoteFailure(cause)),
                )
            },
        },
        (PhaseModel::Waiting { volume_id, since, faults }, EventModel::Sleep) => if within_budget(
            ctx.policy,
            since,
            now,
        ) {
            (
                OrchestratorModel {
                    ctx,
                    phase: PhaseModel::Confirming { volume_id, since, faults },
                },
                ActionModel::DescribeVolumes(poll_request_for(volume_id)),
            )
        } else {
            failing(ctx, AttachVolumeErrorModel::Confirm(ConfirmErrorModel::Timeout))
        },
        _ => arbitrary(),
    }
}

/// An acquisition in progress.
#[derive(Debug)]
pub struct Orchestrator {
    ctx: Context,
    phase: Phase,
}

impl View for Orchestrator {
    type V = OrchestratorModel;

    closed spec fn view(&self) -> OrchestratorModel {
        OrchestratorModel { ctx: self.ctx@, phase: self.phase@ }
    }
}

/// Stops without a volume.
fn fail(ctx: Context, error: AttachVolumeError) -> (r: (Orchestrator, Action))
    ensures
        (r.0@, r.1@) == failing(ctx@, error@),
{
    (Orchestrator { ctx, phase: Phase::Failed }, Action::Finish(Err(error)))
}

/// Creates a new volume where that is advisable after `error`, and stops
/// with `error` where it is not.
fn create_and_attach_if_advisable(ctx: Context, error: AttachVolumeError) -> (r: (
    Orchestrator,
    Action,
))
    ensures
        (r.0@, r.1@) == falling_back(ctx@, error@),
{
    if creation_advisable(&error) {
        let request = create_volume_request(ctx.zone.as_str(), &ctx.config);
        (Orchestrator { ctx, phase: Phase::Creating }, Action::CreateVolume(request))
    } else {
        fail(ctx, error)
    }
}

/// Attaches the candidate at place `next`, or falls back where none is left.
fn attach_to_existing_volume(ctx: Context, candidates: Vec<Candidate>, next: usize) -> (r: (
    Orchestrator,
    Action,
))
    ensures
        (r.0@, r.1@) == attempting(ctx@, candidates.deep_view(), next as int),
{
    if next < candidates.len() {
        let request = attach_request(
            candidates[next].volume_id.as_str(),
            ctx.instance_id.as_str(),
            ctx.device.as_str(),
        );
        (
            Orchestrator { ctx, phase: Phase::AttemptingExisting { candidates, next } },
            Action::AttachVolume(request),
        )
    } else if candidates.len() == 0 {
        create_and_attach_if_advisable(ctx, AttachVolumeError::NoVolumesAvailable)
    } else {
        create_and_attach_if_advisable(ctx, AttachVolumeError::AllAttachesFailed)
    }
}

/// Starts to wait for the attachment of `volume_id`, asked for at `now`.
fn ensure_volume_attached(ctx: Context, volume_id: String, now: u64) -> (r: (
    Orchestrator,
    Action,
))
    ensures
        (r.0@, r.1@) == confirming(ctx@, volume_id@, now as int),
{
    if poll_due(ctx.policy, now, now) {
        let request = poll_request(volume_id.as_str());
        (
            Orchestrator { ctx, phase: Phase::Confirming { volume_id, since: now, faults: 0 } },
            Action::DescribeVolumes(request),
        )
    } else {
        fail(ctx, AttachVolumeError::from(ConfirmError::Timeout))
    }
}

/// Pauses before the next look at the attachment of `volume_id`.
fn pause(ctx: Context, volume_id: String, since: u64, faults: u32) -> (r: (Orchestrator, Action))
    ensures
        (r.0@, r.1@) == pausing(ctx@, volume_id@, since as int, faults as int),
{
    let millis = ctx.policy.interval_ms;
    (Orchestrator { ctx, phase: Phase::Waiting { volume_id, since, faults } }, Action::Sleep(millis))
}

/// Starts the acquisition of a volume for `instance_id`, which runs in
/// `availability_zone`, to be attached as `block_device`. The action returned
/// is the first that the caller is to perform; what it brings goes to
/// [`Orchestrator::step`].
pub fn find_and_attach_volume(
    block_device: &str,
    config: &EbsBlockProviderConfig,
    instance_id: &str,
    availability_zone: &str,
    policy: PollPolicy,
) -> (r: (Orchestrator, Action))
    ensures
        (r.0@, r.1@) == starting(
            ContextModel {
                spec: config@,
                device: block_device@,
                instance_id: instance_id@,
                zone: availability_zone@,
                policy,
            },
        ),
        r.0@.wf(),
{
    proof {
        use_type_invariant(&config.ebs_tags);
    }
    let ctx = Context {
        config: config.clone(),
        device: String::from_str(block_device),
        instance_id: String::from_str(instance_id),
        zone: String::from_str(availability_zone),
        policy,
    };
    let request = discovery_request(&ctx.config);
    (Orchestrator { ctx, phase: Phase::Discovering }, Action::DescribeVolumes(request))
}

impl Orchestrator {
    /// A candidate that is being attached is one of the candidates.
    #[verifier::type_invariant]
    closed spec fn inv(&self) -> bool {
        self.phase@.wf()
    }

    /// Where the acquisition stands.
    pub fn phase(&self) -> (phase: &Phase)
        ensures
            phase@ == self@.phase,
    {
        &self.phase
    }

    /// What stays the same through the acquisition.
    pub fn context(&self) -> (ctx: &Context)
        ensures
            ctx@ == self@.ctx,
    {
        &self.ctx
    }

    /// Whether the machine has stopped.
    pub fn is_terminal(&self) -> (r: bool)
        ensures
            r == self@.phase.terminal(),
    {
        match self.phase {
            Phase::Done => true,
            Phase::Failed => true,
            _ => false,
        }
    }

    /// Whether the machine waits for an event of the kind of `event`.
    pub fn awaits(&self, event: &Event) -> (r: bool)
        ensures
            r == self@.phase.awaits(event@),
    {
        match (&self.phase, event) {
            (Phase::Discovering, Event::DescribeVolumes(_)) => true,
            (Phase::AttemptingExisting { .. }, Event::AttachVolume(_)) => true,
            (Phase::Creating, Event::CreateVolume(_)) => true,
            (Phase::Tagging { .. }, Event::CreateTags(_)) => true,
            (Phase::AttemptingNew { .. }, Event::AttachVolume(_)) => true,
            (Phase::Confirming { .. }, Event::DescribeVolumes(_)) => true,
            (Phase::Waiting { .. }, Event::Sleep) => true,
            _ => false,
        }
    }

    /// Takes what the last action brought, where the machine awaits it, and
    /// names the next action; hands the machine and the event back unchanged
    /// where it does not. `now` is read as in [`Orchestrator::step`].
    pub fn try_step(self, event: Event, now: u64) -> (r: Result<
        (Orchestrator, Action),
        (Orchestrator, Event),
    >)
        ensures
            self@.phase.awaits(event@) ==> (r matches Ok(stepped) && (stepped.0@, stepped.1@)
                == step_spec(self@, event@, now as int)),
            !self@.phase.awaits(event@) ==> r == Err::<
                (Orchestrator, Action),
                (Orchestrator, Event),
            >((self, event)),
    {
        if self.awaits(&event) {
            Ok(self.step(event, now))
        } else {
            Err((self, event))
        }
    }

    /// Takes what the last action brought and names the next action. `now`
    /// is the reading, in milliseconds, of a clock that does not run
    /// backwards; the same clock is read for every step of one acquisition.
    pub fn step(self, event: Event, now: u64) -> (r: (Orchestrator, Action))
        requires
            self@.phase.awaits(event@),
        ensures
            (r.0@, r.1@) == step_spec(self@, event@, now as int),
            r.0@.wf(),
    {
        proof {
            use_type_invariant(&self);
            use_type_invariant(&self.ctx.config.ebs_tags);
        }
        let Orchestrator { ctx, phase } = self;
        match (phase, event) {
            (Phase::Discovering, Event::DescribeVolumes(outcome)) => match locate(outcome) {
                Err(error) => fail(ctx, AttachVolumeError::from(error)),
                Ok(candidates) => attach_to_existing_volume(ctx, candidates, 0),
            },
            (Phase::AttemptingExisting { candidates, next }, Event::AttachVolume(outcome)) => {
                // The candidate that was asked is one of the candidates.
                assert(next < candidates.len());
                match attach_outcome(outcome) {
                    Ok(_) => {
                        let volume_id = candidates[next].volume_id.clone();
                        ensure_volume_attached(ctx, volume_id, now)
                    },
                    Err(_) => attach_to_existing_volume(ctx, candidates, next + 1),
                }
            },
            (Phase::Creating, Event::CreateVolume(outcome)) => match provision_outcome(outcome) {
                Ok(volume_id) => {
                    let request = create_tags_request(volume_id.as_str(), &ctx.config);
                    (
                        Orchestrator { ctx, phase: Phase::Tagging { volume_id } },
                        Action::CreateTags(request),
                    )
                },
                Err(error) => fail(ctx, AttachVolumeError::from(error)),
            },
            (Phase::Tagging { volume_id }, Event::CreateTags(outcome)) => match tagging_outcome(
                volume_id,
                outcome,
            ) {
                Ok(volume_id) => {
                    let request = attach_request(
                        volume_id.as_str(),
                        ctx.instance_id.as_str(),
                        ctx.device.as_str(),
                    );
                    (
                        Orchestrator { ctx, phase: Phase::AttemptingNew { volume_id } },
                        Action::AttachVolume(request),
                    )
                },
                Err(error) => fail(ctx, AttachVolumeError::from(error)),
            },
            (Phase::AttemptingNew { volume_id }, Event::AttachVolume(outcome)) => {
                match attach_outcome(outcome) {
                    Ok(_) => ensure_volume_attached(ctx, volume_id, now),
                    Err(error) => fail(ctx, AttachVolumeError::AttachingCreatedVolumeFailed(error)),
                }
            },
            (Phase::Confirming { volume_id, since, faults }, Event::DescribeVolumes(outcome)) => {
                match assess_poll(outcome) {
                    PollVerdict::Attached => (
                        Orchestrator { ctx, phase: Phase::Done },
                        Action::Finish(Ok(volume_id)),
                    ),
                    PollVerdict::Invalid(cause) => fail(
                        ctx,
                        AttachVolumeError::from(ConfirmError::RemoteFailure(cause)),
                    ),
                    PollVerdict::Pending => pause(ctx, volume_id, since, 0),
                    PollVerdict::Faulted(cause) => match count_fault(ctx.policy, faults) {
                        Some(faults) => pause(ctx, volume_id, since, faults),
                        None => fail(
                            ctx,
                            AttachVolumeError::from(ConfirmError::RemoteFailure(cause)),
                        ),
                    },
                }
            },
            (Phase::Waiting { volume_id, since, faults }, Event::Sleep) => {
                if poll_due(ctx.policy, since, now) {
                    let request = poll_request(volume_id.as_str());
                    (
                        Orchestrator { ctx, phase: Phase::Confirming { volume_id, since, faults } },
                        Action::DescribeVolumes(request),
                    )
                } else {
                    fail(ctx, AttachVolumeError::from(ConfirmError::Timeout))
                }
            },
            _ => vstd::pervasive::unreached(),
        }
    }
}

/// The course of an acquisition: the machine `m` takes the events in their
/// order, each with the time at which it arrives, and names an action after
/// each. The course ends with the events, or before the first event that the
/// machine does not await.
pub open spec fn run(m: OrchestratorModel, events: Seq<(EventModel, int)>) -> (
    OrchestratorModel,
    Seq<ActionModel>,
)
    decreases events.len(),
{
    if events.len() == 0 || !m.phase.awaits(events[0].0) {
        (m, Seq::empty())
    } else {
        let (next, action) = step_spec(m, events[0].0, events[0].1);
        let (last, actions) = run(next, events.drop_first());
        (last, seq![action] + actions)
    }
}

/// What a recorded exchange stands for: the events in their order, each with
/// the time at which it arrived.
pub open spec fn timed(events: Seq<(Event, u64)>) -> Seq<(EventModel, int)> {
    Seq::new(events.len(), |i: int| (events[i].0@, events[i].1 as int))
}

/// Replays a recorded exchange: hands the events to the machine in their
/// order, each with the clock reading recorded with it, and collects the
/// actions that the machine names. Events from the first that the machine
/// does not await are left out.
pub fn replay(machine: Orchestrator, events: Vec<(Event, u64)>) -> (r: (Orchestrator, Vec<Action>))
    ensures
        (r.0@, r.1.deep_view()) == run(machine@, timed(events@)),
{
    let ghost all = timed(events@);
    let ghost first = machine@;
    let mut machine = machine;
    let mut actions: Vec<Action> = Vec::new();
    // The machine has refused an event; those after it are passed over.
    let mut stuck = false;
    proof {
        assert(all.skip(0) =~= all);
    }
    for pair in it: events
        invariant
            it.seq() == events@,
            all == timed(events@),
            stuck ==> run(first, all) == (machine@, actions.deep_view()),
            !stuck ==> run(first, all) == (
                run(machine@, all.skip(it.index())).0,
                actions.deep_view() + run(machine@, all.skip(it.index())).1,
            ),
    {
        let (event, now) = pair;
        proof {
            assert(all.skip(it.index()).drop_first() =~= all.skip(it.index() + 1));
        }
        if !stuck {
            if machine.awaits(&event) {
                let (next, action) = machine.step(event, now);
                proof {
                    lemma_push_deep_view(actions, action);
                }
                actions.push(action);
                machine = next;
            } else {
                stuck = true;
            }
        }
    }
    (machine, actions)
}

} // verus!
