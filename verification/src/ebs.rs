//! The parts from which a volume is acquired: the discovery query and the
//! reading of its answer, the requests to attach, create and tag a volume,
//! the reading of an attachment's state, and the errors of each part.

use crate::config::{EbsBlockProviderConfig, VolumeSpecModel};
use crate::model::{lemma_push_deep_view, outcome_view};
use crate::remote::{
    AttachmentRequest, AttachmentRequestModel, CreateTagsRequest, CreateTagsRequestModel,
    CreateVolumeRequest, CreateVolumeRequestModel, DescribeVolumesRequest,
    DescribeVolumesRequestModel, DescribeVolumesResponse, DescribeVolumesResponseModel, Filter,
    FilterModel,
};
use crate::tags::TagModel;
use crate::text::{contains_text, text_contains, text_eq};
use vstd::prelude::*;
use vstd::string::*;

verus! {

/// Why the volumes that exist could not be listed.
#[derive(Debug, PartialEq, Eq)]
pub enum LocateError {
    /// The answer has further pages, which are not followed.
    PaginationUnsupported,
    /// The query failed, with what the service said.
    RemoteFailure(String),
}

/// What a [`LocateError`] stands for.
pub enum LocateErrorModel {
    PaginationUnsupported,
    RemoteFailure(Seq<char>),
}

impl DeepView for LocateError {
    type V = LocateErrorModel;

    open spec fn deep_view(&self) -> LocateErrorModel {
        match self {
            LocateError::PaginationUnsupported => LocateErrorModel::PaginationUnsupported,
            LocateError::RemoteFailure(cause) => LocateErrorModel::RemoteFailure(cause@),
        }
    }
}

impl View for LocateError {
    type V = LocateErrorModel;

    open spec fn view(&self) -> LocateErrorModel {
        self.deep_view()
    }
}

/// Why one volume could not be attached.
#[derive(Debug, PartialEq, Eq)]
pub enum AttachError {
    /// The service refused the request, with what it said.
    Rejected(String),
}

/// What an [`AttachError`] stands for.
pub enum AttachErrorModel {
    Rejected(Seq<char>),
}

impl DeepView for AttachError {
    type V = AttachErrorModel;

    open spec fn deep_view(&self) -> AttachErrorModel {
        match self {
            AttachError::Rejected(cause) => AttachErrorModel::Rejected(cause@),
        }
    }
}

impl View for AttachError {
    type V = AttachErrorModel;

    open spec fn view(&self) -> AttachErrorModel {
        self.deep_view()
    }
}

/// Why no new volume is ready for use.
#[derive(Debug, PartialEq, Eq)]
pub enum CreateVolumeError {
    /// No volume was created, with what the service said.
    ProvisionFailed(String),
    /// The volume `volume_id` was created and could not be tagged. It exists
    /// and no discovery by tags will find it again.
    TaggingFailed { volume_id: String, cause: String },
}

/// What a [`CreateVolumeError`] stands for.
pub enum CreateVolumeErrorModel {
    ProvisionFailed(Seq<char>),
    TaggingFailed { volume_id: Seq<char>, cause: Seq<char> },
}

impl DeepView for CreateVolumeError {
    type V = CreateVolumeErrorModel;

    open spec fn deep_view(&self) -> CreateVolumeErrorModel {
        match self {
            CreateVolumeError::ProvisionFailed(cause) => CreateVolumeErrorModel::ProvisionFailed(
                cause@,
            ),
            CreateVolumeError::TaggingFailed { volume_id, cause } => {
                CreateVolumeErrorModel::TaggingFailed { volume_id: volume_id@, cause: cause@ }
            },
        }
    }
}

impl View for CreateVolumeError {
    type V = CreateVolumeErrorModel;

    open spec fn view(&self) -> CreateVolumeErrorModel {
        self.deep_view()
    }
}

/// Why an attachment that was asked for was not seen to take effect.
#[derive(Debug, PartialEq, Eq)]
pub enum ConfirmError {
    /// The time allowed ran out first.
    Timeout,
    /// The service no longer knows the volume, with what it said.
    RemoteFailure(String),
}

/// What a [`ConfirmError`] stands for.
pub enum ConfirmErrorModel {
    Timeout,
    RemoteFailure(Seq<char>),
}

impl DeepView for ConfirmError {
    type V = ConfirmErrorModel;

    open spec fn deep_view(&self) -> ConfirmErrorModel {
        match self {
            ConfirmError::Timeout => ConfirmErrorModel::Timeout,
            ConfirmError::RemoteFailure(cause) => ConfirmErrorModel::RemoteFailure(cause@),
        }
    }
}

impl View for ConfirmError {
    type V = ConfirmErrorModel;

    open spec fn view(&self) -> ConfirmErrorModel {
        self.deep_view()
    }
}

/// Why no volume was acquired.
#[derive(Debug, PartialEq, Eq)]
pub enum AttachVolumeError {
    /// No volume carries the tags.
    NoVolumesAvailable,
    /// Every volume that carries the tags refused to be attached.
    AllAttachesFailed,
    Locate(LocateError),
    Create(CreateVolumeError),
    Confirm(ConfirmError),
    /// The volume that was created for this instance refused to be attached.
    AttachingCreatedVolumeFailed(AttachError),
}

/// What an [`AttachVolumeError`] stands for.
pub enum AttachVolumeErrorModel {
    NoVolumesAvailable,
    AllAttachesFailed,
    Locate(LocateErrorModel),
    Create(CreateVolumeErrorModel),
    Confirm(ConfirmErrorModel),
    AttachingCreatedVolumeFailed(AttachErrorModel),
}

impl DeepView for AttachVolumeError {
    type V = AttachVolumeErrorModel;

    open spec fn deep_view(&self) -> AttachVolumeErrorModel {
        match self {
            AttachVolumeError::NoVolumesAvailable => AttachVolumeErrorModel::NoVolumesAvailable,
            AttachVolumeError::AllAttachesFailed => AttachVolumeErrorModel::AllAttachesFailed,
            AttachVolumeError::Locate(err) => AttachVolumeErrorModel::Locate(err@),
            AttachVolumeError::Create(err) => AttachVolumeErrorModel::Create(err@),
            AttachVolumeError::Confirm(err) => AttachVolumeErrorModel::Confirm(err@),
            AttachVolumeError::AttachingCreatedVolumeFailed(err) => {
                AttachVolumeErrorModel::AttachingCreatedVolumeFailed(err@)
            },
        }
    }
}

impl View for AttachVolumeError {
    type V = AttachVolumeErrorModel;

    open spec fn view(&self) -> AttachVolumeErrorModel {
        self.deep_view()
    }
}

impl From<LocateError> for AttachVolumeError {
    fn from(err: LocateError) -> (r: AttachVolumeError) {
        AttachVolumeError::Locate(err)
    }
}

impl vstd::std_specs::convert::FromSpecImpl<LocateError> for AttachVolumeError {
    open spec fn obeys_from_spec() -> bool {
        true
    }

    open spec fn from_spec(err: LocateError) -> AttachVolumeError {
        AttachVolumeError::Locate(err)
    }
}

impl From<CreateVolumeError> for AttachVolumeError {
    fn from(err: CreateVolumeError) -> (r: AttachVolumeError) {
        AttachVolumeError::Create(err)
    }
}

impl vstd::std_specs::convert::FromSpecImpl<CreateVolumeError> for AttachVolumeError {
    open spec fn obeys_from_spec() -> bool {
        true
    }

    open spec fn from_spec(err: CreateVolumeError) -> AttachVolumeError {
        AttachVolumeError::Create(err)
    }
}

impl From<ConfirmError> for AttachVolumeError {
    fn from(err: ConfirmError) -> (r: AttachVolumeError) {
        AttachVolumeError::Confirm(err)
    }
}

impl vstd::std_specs::convert::FromSpecImpl<ConfirmError> for AttachVolumeError {
    open spec fn obeys_from_spec() -> bool {
        true
    }

    open spec fn from_spec(err: ConfirmError) -> AttachVolumeError {
        AttachVolumeError::Confirm(err)
    }
}

/// A volume that discovery found and that may serve.
#[derive(Debug, PartialEq, Eq)]
pub struct Candidate {
    pub volume_id: String,
}

impl DeepView for Candidate {
    type V = Seq<char>;

    open spec fn deep_view(&self) -> Seq<char> {
        self.volume_id@
    }
}

impl View for Candidate {
    type V = Seq<char>;

    open spec fn view(&self) -> Seq<char> {
        self.deep_view()
    }
}

/// The clause that asks for one tag.
pub open spec fn tag_filter(tag: TagModel) -> FilterModel {
    FilterModel { name: "tag:"@ + tag.key, values: seq![tag.value] }
}

/// The clause that asks for volumes that are free to be attached.
pub open spec fn status_filter() -> FilterModel {
    FilterModel { name: "status"@, values: seq!["available"@] }
}

/// The clauses for the tags, one for each, in their order.
pub open spec fn tag_filters(tags: Seq<TagModel>) -> Seq<FilterModel> {
    Seq::new(tags.len(), |i: int| tag_filter(tags[i]))
}

/// The clauses of the discovery query: one for each tag, in their order, and
/// the status clause behind them.
pub open spec fn filters_for(tags: Seq<TagModel>) -> Seq<FilterModel> {
    tag_filters(tags).push(status_filter())
}

/// Builds the clauses of the discovery query for the volume wanted.
pub fn create_filters(config: &EbsBlockProviderConfig) -> (filters: Vec<Filter>)
    ensures
        filters.deep_view() == filters_for(config@.tags),
        filters.len() == config@.tags.len() + 1,
{
    let n = config.ebs_tags.len();
    let mut filters: Vec<Filter> = Vec::new();
    let mut i: usize = 0;
    while i < n
        invariant
            i <= n,
            n == config.ebs_tags@.len(),
            filters.deep_view() == tag_filters(config.ebs_tags@.take(i as int)),
        decreases n - i,
    {
        let tag = config.ebs_tags.entry(i);
        let mut values: Vec<String> = Vec::new();
        values.push(tag.value.clone());
        let filter = Filter { name: String::from_str("tag:").concat(tag.key.as_str()), values };
        proof {
            assert(filter.values.deep_view() =~= seq![tag.value@]);
            lemma_push_deep_view(filters, filter);
        }
        filters.push(filter);
        i += 1;
    }
    let mut values: Vec<String> = Vec::new();
    values.push(String::from_str("available"));
    let status = Filter { name: String::from_str("status"), values };
    proof {
        assert(status.values.deep_view() =~= seq!["available"@]);
        lemma_push_deep_view(filters, status);
    }
    filters.push(status);
    filters
}

/// The query that discovers the volumes that may serve.
pub open spec fn discovery_request_for(tags: Seq<TagModel>) -> DescribeVolumesRequestModel {
    DescribeVolumesRequestModel { filters: filters_for(tags), volume_ids: Seq::empty() }
}

/// Builds the query that discovers the volumes that may serve: those that
/// carry every tag of the volume wanted and are free to be attached.
pub fn discovery_request(config: &EbsBlockProviderConfig) -> (request: DescribeVolumesRequest)
    ensures
        request@ == discovery_request_for(config@.tags),
{
    let request = DescribeVolumesRequest { filters: create_filters(config), volume_ids: Vec::new() };
    assert(request.volume_ids.deep_view() =~= Seq::<Seq<char>>::empty());
    request
}

/// The ids of the volumes of a response, in its order.
pub open spec fn volume_ids(response: DescribeVolumesResponseModel) -> Seq<Seq<char>> {
    Seq::new(response.volumes.len(), |i: int| response.volumes[i].volume_id)
}

/// What the answer to the discovery query means: a failure of the call is
/// passed on; an answer with further pages is refused, whatever it holds;
/// any other answer gives its volumes, in its order.
pub open spec fn located(outcome: Result<DescribeVolumesResponseModel, Seq<char>>) -> Result<
    Seq<Seq<char>>,
    LocateErrorModel,
> {
    match outcome {
        Err(cause) => Err(LocateErrorModel::RemoteFailure(cause)),
        Ok(response) => if response.more_pages {
            Err(LocateErrorModel::PaginationUnsupported)
        } else {
            Ok(volume_ids(response))
        },
    }
}

/// Reads the answer to the discovery query.
pub fn locate(outcome: Result<DescribeVolumesResponse, String>) -> (r: Result<
    Vec<Candidate>,
    LocateError,
>)
    ensures
        outcome_view(r) == located(outcome_view(outcome)),
        outcome matches Ok(response) && response.more_pages ==> r == Err::<
            Vec<Candidate>,
            LocateError,
        >(LocateError::PaginationUnsupported),
{
    match outcome {
        Err(cause) => Err(LocateError::RemoteFailure(cause)),
        Ok(response) => {
            if response.more_pages {
                return Err(LocateError::PaginationUnsupported);
            }
            let n = response.volumes.len();
            let mut candidates: Vec<Candidate> = Vec::new();
            let mut i: usize = 0;
            while i < n
                invariant
                    i <= n,
                    n == response.volumes@.len(),
                    candidates.deep_view() == volume_ids(response@).take(i as int),
                decreases n - i,
            {
                let candidate = Candidate { volume_id: response.volumes[i].volume_id.clone() };
                proof {
                    lemma_push_deep_view(candidates, candidate);
                }
                candidates.push(candidate);
                i += 1;
            }
            assert(volume_ids(response@).take(n as int) =~= volume_ids(response@));
            Ok(candidates)
        },
    }
}

/// The request to attach `volume_id` to `instance_id` as `device`.
pub open spec fn attach_request_for(
    volume_id: Seq<char>,
    instance_id: Seq<char>,
    device: Seq<char>,
) -> AttachmentRequestModel {
    AttachmentRequestModel { volume_id, instance_id, device }
}

/// Builds the request to attach one volume.
pub fn attach_request(volume_id: &str, instance_id: &str, device: &str) -> (request:
    AttachmentRequest)
    ensures
        request@ == attach_request_for(volume_id@, instance_id@, device@),
{
    AttachmentRequest {
        volume_id: String::from_str(volume_id),
        instance_id: String::from_str(instance_id),
        device: String::from_str(device),
    }
}

/// What the answer to an attach request means: a refusal is kept with what
/// the service said, whatever the reason.
pub open spec fn attach_result(outcome: Result<(), Seq<char>>) -> Result<(), AttachErrorModel> {
    match outcome {
        Ok(_) => Ok(()),
        Err(cause) => Err(AttachErrorModel::Rejected(cause)),
    }
}

/// Reads the answer to an attach request.
pub fn attach_outcome(outcome: Result<(), String>) -> (r: Result<(), AttachError>)
    ensures
        outcome_view(r) == attach_result(outcome_view(outcome)),
{
    match outcome {
        Ok(()) => Ok(()),
        Err(cause) => Err(AttachError::Rejected(cause)),
    }
}

/// The request for a new volume of the wanted size and class in `zone`.
pub open spec fn create_volume_request_for(
    zone: Seq<char>,
    spec: VolumeSpecModel,
) -> CreateVolumeRequestModel {
    CreateVolumeRequestModel {
        availability_zone: zone,
        size: spec.size,
        volume_type: spec.volume_type,
    }
}

/// Builds the request for a new volume.
pub fn create_volume_request(availability_zone: &str, config: &EbsBlockProviderConfig) -> (request:
    CreateVolumeRequest)
    ensures
        request@ == create_volume_request_for(availability_zone@, config@),
{
    CreateVolumeRequest {
        availability_zone: String::from_str(availability_zone),
        size: config.size,
        volume_type: config.volume_type.clone(),
    }
}

/// The request that puts every tag of the volume wanted on `volume_id`.
pub open spec fn create_tags_request_for(
    volume_id: Seq<char>,
    spec: VolumeSpecModel,
) -> CreateTagsRequestModel {
    CreateTagsRequestModel { volume_id, tags: spec.tags }
}

/// Builds the request that tags a new volume.
pub fn create_tags_request(volume_id: &str, config: &EbsBlockProviderConfig) -> (request:
    CreateTagsRequest)
    ensures
        request@ == create_tags_request_for(volume_id@, config@),
{
    let tags = config.ebs_tags.to_vec();
    CreateTagsRequest { volume_id: String::from_str(volume_id), tags }
}

/// What the answer to a create request means: the id of the new volume, or
/// that there is none, with what the service said.
pub open spec fn provisioned(outcome: Result<Seq<char>, Seq<char>>) -> Result<
    Seq<char>,
    CreateVolumeErrorModel,
> {
    match outcome {
        Ok(volume_id) => Ok(volume_id),
        Err(cause) => Err(CreateVolumeErrorModel::ProvisionFailed(cause)),
    }
}

/// Reads the answer to a create request.
pub fn provision_outcome(outcome: Result<String, String>) -> (r: Result<String, CreateVolumeError>)
    ensures
        outcome_view(r) == provisioned(outcome_view(outcome)),
{
    match outcome {
        Ok(volume_id) => Ok(volume_id),
        Err(cause) => Err(CreateVolumeError::ProvisionFailed(cause)),
    }
}

/// What the answer to the tagging of the new volume `volume_id` means: the
/// volume is ready, or it exists without tags. The failure keeps the id of
/// the volume, with what the service said.
pub open spec fn tagged(volume_id: Seq<char>, outcome: Result<(), Seq<char>>) -> Result<
    Seq<char>,
    CreateVolumeErrorModel,
> {
    match outcome {
        Ok(_) => Ok(volume_id),
        Err(cause) => Err(CreateVolumeErrorModel::TaggingFailed { volume_id, cause }),
    }
}

/// Reads the answer to the tagging of the new volume `volume_id`.
pub fn tagging_outcome(volume_id: String, outcome: Result<(), String>) -> (r: Result<
    String,
    CreateVolumeError,
>)
    ensures
        outcome_view(r) == tagged(volume_id@, outcome_view(outcome)),
{
    match outcome {
        Ok(()) => Ok(volume_id),
        Err(cause) => Err(CreateVolumeError::TaggingFailed { volume_id, cause }),
    }
}

/// Whether a new volume is to be created after the volumes that exist gave
/// `error`: only where there was none, or none could be attached.
pub open spec fn creation_advisable_for(error: AttachVolumeErrorModel) -> bool {
    error is NoVolumesAvailable || error is AllAttachesFailed
}

/// Decides whether a new volume is to be created after `error`.
pub fn creation_advisable(error: &AttachVolumeError) -> (r: bool)
    ensures
        r == creation_advisable_for(error@),
{
    match error {
        AttachVolumeError::NoVolumesAvailable => true,
        AttachVolumeError::AllAttachesFailed => true,
        _ => false,
    }
}

/// The state of an attachment.
#[derive(Debug, Clone, Copy, PartialEq, Eq, Structural)]
pub enum AttachmentState {
    Detached,
    Attaching,
    Attached,
    Detaching,
}

/// The state that the service names with `text`, if it names one.
pub open spec fn state_named(text: Seq<char>) -> Option<AttachmentState> {
    if text == "detached"@ {
        Some(AttachmentState::Detached)
    } else if text == "attaching"@ {
        Some(AttachmentState::Attaching)
    } else if text == "attached"@ {
        Some(AttachmentState::Attached)
    } else if text == "detaching"@ {
        Some(AttachmentState::Detaching)
    } else {
        None
    }
}

impl AttachmentState {
    /// Reads a state as the service words it.
    pub fn parse(text: &str) -> (r: Option<AttachmentState>)
        ensures
            r == state_named(text@),
    {
        if text_eq(text, "detached") {
            Some(AttachmentState::Detached)
        } else if text_eq(text, "attaching") {
            Some(AttachmentState::Attaching)
        } else if text_eq(text, "attached") {
            Some(AttachmentState::Attached)
        } else if text_eq(text, "detaching") {
            Some(AttachmentState::Detaching)
        } else {
            None
        }
    }
}

/// The state text of the first attachment record of the first volume of a
/// response, where the response has a volume, the volume such a record, and
/// the record a state.
pub open spec fn reported_state(response: DescribeVolumesResponseModel) -> Option<Seq<char>> {
    if response.volumes.len() > 0 && response.volumes[0].attachments.len() > 0 {
        response.volumes[0].attachments[0].state
    } else {
        None
    }
}

/// The response shows the volume attached.
pub open spec fn shows_attached(response: DescribeVolumesResponseModel) -> bool {
    reported_state(response) == Some("attached"@)
}

/// Reads the state of the attachment from the description of one volume.
pub fn attachment_state(response: &DescribeVolumesResponse) -> (r: Option<AttachmentState>)
    ensures
        r == match reported_state(response@) {
            Some(text) => state_named(text),
            None => None,
        },
{
    if response.volumes.len() == 0 {
        return None;
    }
    let volume = &response.volumes[0];
    if volume.attachments.len() == 0 {
        return None;
    }
    match &volume.attachments[0].state {
        Some(text) => AttachmentState::parse(text.as_str()),
        None => None,
    }
}

/// Whether the description of one volume shows it attached.
pub fn check_volume_attached(response: &DescribeVolumesResponse) -> (r: bool)
    ensures
        r == shows_attached(response@),
{
    proof {
        reveal_strlit("detached");
        reveal_strlit("attaching");
        reveal_strlit("attached");
        reveal_strlit("detaching");
        // No other state has the name of the attached one.
        assert("detached"@[0] == 'd');
        assert("attaching"@.len() == 9);
    }
    match attachment_state(response) {
        Some(AttachmentState::Attached) => true,
        _ => false,
    }
}

/// The query for the one volume whose attachment is awaited.
pub open spec fn poll_request_for(volume_id: Seq<char>) -> DescribeVolumesRequestModel {
    DescribeVolumesRequestModel { filters: Seq::empty(), volume_ids: seq![volume_id] }
}

/// Builds the query for the one volume whose attachment is awaited.
pub fn poll_request(volume_id: &str) -> (request: DescribeVolumesRequest)
    ensures
        request@ == poll_request_for(volume_id@),
{
    let mut volume_ids: Vec<String> = Vec::new();
    volume_ids.push(String::from_str(volume_id));
    let request = DescribeVolumesRequest { filters: Vec::new(), volume_ids };
    proof {
        assert(request.filters.deep_view() =~= Seq::<FilterModel>::empty());
        assert(request.volume_ids.deep_view() =~= seq![volume_id@]);
    }
    request
}

/// What one look at the awaited attachment showed.
#[derive(Debug, PartialEq, Eq)]
pub enum PollVerdict {
    /// The volume is attached.
    Attached,
    /// The volume is not attached yet.
    Pending,
    /// The look failed for a reason that may pass, with what the service
    /// said.
    Faulted(String),
    /// The service no longer knows the volume, with what it said.
    Invalid(String),
}

/// What a [`PollVerdict`] stands for.
pub enum PollVerdictModel {
    Attached,
    Pending,
    Faulted(Seq<char>),
    Invalid(Seq<char>),
}

impl DeepView for PollVerdict {
    type V = PollVerdictModel;

    open spec fn deep_view(&self) -> PollVerdictModel {
        match self {
            PollVerdict::Attached => PollVerdictModel::Attached,
            PollVerdict::Pending => PollVerdictModel::Pending,
            PollVerdict::Faulted(cause) => PollVerdictModel::Faulted(cause@),
            PollVerdict::Invalid(cause) => PollVerdictModel::Invalid(cause@),
        }
    }
}

impl View for PollVerdict {
    type V = PollVerdictModel;

    open spec fn view(&self) -> PollVerdictModel {
        self.deep_view()
    }
}

/// The service says that it knows no such volume: its answer names an error
/// of the family `InvalidVolume`.
pub open spec fn names_invalid_volume(cause: Seq<char>) -> bool {
    contains_text(cause, "InvalidVolume"@)
}

/// What one look at the awaited attachment means. A look that fails may
/// succeed later, unless the service says that the volume does not exist.
pub open spec fn poll_verdict(
    outcome: Result<DescribeVolumesResponseModel, Seq<char>>,
) -> PollVerdictModel {
    match outcome {
        Ok(response) => if shows_attached(response) {
            PollVerdictModel::Attached
        } else {
            PollVerdictModel::Pending
        },
        Err(cause) => if names_invalid_volume(cause) {
            PollVerdictModel::Invalid(cause)
        } else {
            PollVerdictModel::Faulted(cause)
        },
    }
}

/// Reads the answer to one look at the awaited attachment.
pub fn assess_poll(outcome: Result<DescribeVolumesResponse, String>) -> (r: PollVerdict)
    ensures
        r@ == poll_verdict(outcome_view(outcome)),
{
    match outcome {
        Ok(response) => {
            if check_volume_attached(&response) {
                PollVerdict::Attached
            } else {
                PollVerdict::Pending
            }
        },
        Err(cause) => {
            if text_contains(cause.as_str(), "InvalidVolume") {
                PollVerdict::Invalid(cause)
            } else {
                PollVerdict::Faulted(cause)
            }
        },
    }
}

/// How an attachment is waited for. Times are in milliseconds.
#[derive(Debug, Clone, Copy, PartialEq, Eq)]
pub struct PollPolicy {
    /// The pause between two looks.
    pub interval_ms: u64,
    /// The time after which no further look is taken.
    pub budget_ms: u64,
    /// How many looks in a row may fail for a reason that may pass; one
    /// more ends the wait. Without a limit, only the time allowed bounds
    /// the wait.
    pub fault_cap: Option<u32>,
}

/// The pause between two looks at an attachment: five seconds.
pub const POLL_INTERVAL_MS: u64 = 5_000;

/// The time allowed for an attachment to take effect: five minutes.
pub const POLL_BUDGET_MS: u64 = 300_000;

impl Default for PollPolicy {
    fn default() -> (policy: PollPolicy)
        ensures
            policy == (PollPolicy {
                interval_ms: POLL_INTERVAL_MS,
                budget_ms: POLL_BUDGET_MS,
                fault_cap: None,
            }),
    {
        PollPolicy { interval_ms: POLL_INTERVAL_MS, budget_ms: POLL_BUDGET_MS, fault_cap: None }
    }
}

/// A look may fail after `faults` looks in a row have failed.
pub open spec fn fault_tolerated(policy: PollPolicy, faults: int) -> bool {
    match policy.fault_cap {
        Some(cap) => faults < cap,
        None => true,
    }
}

/// The number of failed looks in a row after one more has failed. The count
/// stops where it can grow no further.
pub open spec fn one_more_fault(faults: int) -> int {
    if faults < u32::MAX {
        faults + 1
    } else {
        faults
    }
}

/// Decides whether the wait goes on after one more look has failed, and
/// counts that look: gives the new count where the wait goes on.
pub fn count_fault(policy: PollPolicy, faults: u32) -> (r: Option<u32>)
    ensures
        r == if fault_tolerated(policy, faults as int) {
            Some(one_more_fault(faults as int) as u32)
        } else {
            None
        },
{
    let tolerated = match policy.fault_cap {
        Some(cap) => faults < cap,
        None => true,
    };
    if tolerated {
        Some(faults.saturating_add(1))
    } else {
        None
    }
}

/// The time that has passed at `now` since `since`, both read from one clock
/// that does not run backwards.
pub open spec fn elapsed_ms(since: int, now: int) -> int {
    if now >= since {
        now - since
    } else {
        0
    }
}

/// At `now` there is time left for another look at an attachment that is
/// awaited since `since`.
pub open spec fn within_budget(policy: PollPolicy, since: int, now: int) -> bool {
    elapsed_ms(since, now) < policy.budget_ms
}

/// Whether another look is due at `now`, or the time allowed has run out.
pub fn poll_due(policy: PollPolicy, since: u64, now: u64) -> (r: bool)
    ensures
        r == within_budget(policy, since as int, now as int),
{
    let elapsed: u64 = if now >= since {
        now - since
    } else {
        0
    };
    elapsed < policy.budget_ms
}

} // verus!
