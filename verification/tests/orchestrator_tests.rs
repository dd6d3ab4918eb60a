use ebs_bootstrap::config::EbsBlockProviderConfig;
use ebs_bootstrap::ebs::{
    create_filters, AttachError, AttachVolumeError, Candidate, ConfirmError, CreateVolumeError,
    LocateError, PollPolicy,
};
use ebs_bootstrap::orchestrator::{
    find_and_attach_volume, replay, Action, Event, Orchestrator, Phase,
};
use ebs_bootstrap::remote::{Attachment, DescribeVolumesResponse, Volume};
use ebs_bootstrap::tags::{Tag, TagMap};

const DEVICE: &str = "/dev/xvdh";
const INSTANCE: &str = "i-1234";
const ZONE: &str = "us-west-2a";

fn volume_spec() -> EbsBlockProviderConfig {
    let mut ebs_tags = TagMap::new();
    ebs_tags.insert(String::from("role"), String::from("db"));
    EbsBlockProviderConfig { volume_type: String::from("io1"), size: 200, ebs_tags }
}

fn policy() -> PollPolicy {
    PollPolicy { interval_ms: 5_000, budget_ms: 300_000, fault_cap: None }
}

fn start() -> (Orchestrator, Action) {
    find_and_attach_volume(DEVICE, &volume_spec(), INSTANCE, ZONE, policy())
}

fn found(ids: &[&str]) -> Event {
    Event::DescribeVolumes(Ok(DescribeVolumesResponse {
        volumes: ids
            .iter()
            .map(|id| Volume { volume_id: String::from(*id), attachments: vec![] })
            .collect(),
        more_pages: false,
    }))
}

fn seen(id: &str, state: &str) -> Event {
    Event::DescribeVolumes(Ok(DescribeVolumesResponse {
        volumes: vec![Volume {
            volume_id: String::from(id),
            attachments: vec![Attachment { state: Some(String::from(state)) }],
        }],
        more_pages: false,
    }))
}

fn refused(cause: &str) -> Event {
    Event::AttachVolume(Err(String::from(cause)))
}

fn attach_of(action: &Action) -> Option<&str> {
    match action {
        Action::AttachVolume(request) => {
            assert_eq!(request.instance_id, INSTANCE);
            assert_eq!(request.device, DEVICE);
            Some(request.volume_id.as_str())
        }
        _ => None,
    }
}

fn poll_of(action: &Action) -> Option<&str> {
    match action {
        Action::DescribeVolumes(request) => {
            assert!(request.filters.is_empty());
            assert_eq!(request.volume_ids.len(), 1);
            Some(request.volume_ids[0].as_str())
        }
        _ => None,
    }
}

fn creations(actions: &[Action]) -> usize {
    actions.iter().filter(|action| matches!(action, Action::CreateVolume(_))).count()
}

#[test]
fn an_acquisition_starts_with_discovery() {
    let (machine, action) = start();
    assert_eq!(*machine.phase(), Phase::Discovering);
    assert!(!machine.is_terminal());
    assert_eq!(machine.context().device, DEVICE);
    assert_eq!(machine.context().instance_id, INSTANCE);
    assert_eq!(machine.context().zone, ZONE);
    assert_eq!(machine.context().policy, policy());
    match action {
        Action::DescribeVolumes(request) => {
            assert_eq!(request.filters, create_filters(&volume_spec()));
            assert!(request.volume_ids.is_empty());
        }
        other => panic!("unexpected action: {:?}", other),
    }
}

#[test]
fn no_candidates_lead_to_creation_without_any_attach() {
    let (machine, _) = start();
    let (machine, action) = machine.step(found(&[]), 0);
    assert_eq!(*machine.phase(), Phase::Creating);
    match action {
        Action::CreateVolume(request) => {
            assert_eq!(request.availability_zone, ZONE);
            assert_eq!(request.size, 200);
            assert_eq!(request.volume_type, "io1");
        }
        other => panic!("unexpected action: {:?}", other),
    }
}

#[test]
fn the_first_candidate_that_accepts_wins() {
    let (machine, _) = start();
    let (machine, actions) = replay(
        machine,
        vec![
            (found(&["A", "B", "C"]), 10),
            (refused("VolumeInUse"), 20),
            (Event::AttachVolume(Ok(())), 30),
        ],
    );
    assert_eq!(actions.len(), 3);
    assert_eq!(attach_of(&actions[0]), Some("A"));
    assert_eq!(attach_of(&actions[1]), Some("B"));
    assert_eq!(poll_of(&actions[2]), Some("B"));
    assert!(actions.iter().all(|action| attach_of(action) != Some("C")));
    assert_eq!(creations(&actions), 0);
    assert_eq!(*machine.phase(), Phase::Confirming { volume_id: String::from("B"), since: 30, faults: 0 });
}

#[test]
fn candidates_are_tried_in_the_order_of_the_answer() {
    let (machine, _) = start();
    let (machine, action) = machine.step(found(&["vol-z", "vol-a"]), 0);
    assert_eq!(attach_of(&action), Some("vol-z"));
    assert_eq!(
        *machine.phase(),
        Phase::AttemptingExisting {
            candidates: vec![
                Candidate { volume_id: String::from("vol-z") },
                Candidate { volume_id: String::from("vol-a") },
            ],
            next: 0,
        }
    );
    let (machine, action) = machine.step(refused("no"), 0);
    assert_eq!(attach_of(&action), Some("vol-a"));
    assert!(matches!(machine.phase(), Phase::AttemptingExisting { next: 1, .. }));
}

#[test]
fn exhausted_candidates_lead_to_one_creation() {
    let (machine, _) = start();
    let (machine, actions) = replay(
        machine,
        vec![(found(&["A", "B"]), 0), (refused("no"), 1), (refused("no"), 2)],
    );
    assert_eq!(actions.len(), 3);
    assert_eq!(attach_of(&actions[0]), Some("A"));
    assert_eq!(attach_of(&actions[1]), Some("B"));
    assert!(matches!(actions[2], Action::CreateVolume(_)));
    assert_eq!(creations(&actions), 1);
    assert_eq!(*machine.phase(), Phase::Creating);

    // The rest of the run asks for no second volume, whatever happens.
    let (machine, rest) = replay(
        machine,
        vec![
            (Event::CreateVolume(Ok(String::from("vol-new"))), 3),
            (Event::CreateTags(Ok(())), 4),
            (refused("no"), 5),
        ],
    );
    assert_eq!(creations(&rest), 0);
    assert_eq!(rest.len(), 3);
    match &rest[0] {
        Action::CreateTags(request) => {
            assert_eq!(request.volume_id, "vol-new");
            assert_eq!(
                request.tags,
                vec![Tag { key: String::from("role"), value: String::from("db") }]
            );
        }
        other => panic!("unexpected action: {:?}", other),
    }
    assert_eq!(attach_of(&rest[1]), Some("vol-new"));
    assert_eq!(
        rest[2],
        Action::Finish(Err(AttachVolumeError::AttachingCreatedVolumeFailed(
            AttachError::Rejected(String::from("no"))
        )))
    );
    assert_eq!(*machine.phase(), Phase::Failed);
    assert!(machine.is_terminal());
}

#[test]
fn a_created_volume_is_tagged_attached_and_confirmed() {
    let (machine, _) = start();
    let (machine, actions) = replay(
        machine,
        vec![
            (found(&[]), 0),
            (Event::CreateVolume(Ok(String::from("vol-new"))), 1),
            (Event::CreateTags(Ok(())), 2),
            (Event::AttachVolume(Ok(())), 3),
            (seen("vol-new", "attaching"), 4),
            (Event::Sleep, 5_004),
            (seen("vol-new", "attached"), 5_005),
        ],
    );
    assert_eq!(actions.len(), 7);
    assert!(matches!(actions[0], Action::CreateVolume(_)));
    assert!(matches!(actions[1], Action::CreateTags(_)));
    assert_eq!(attach_of(&actions[2]), Some("vol-new"));
    assert_eq!(poll_of(&actions[3]), Some("vol-new"));
    assert_eq!(actions[4], Action::Sleep(5_000));
    assert_eq!(poll_of(&actions[5]), Some("vol-new"));
    assert_eq!(actions[6], Action::Finish(Ok(String::from("vol-new"))));
    assert_eq!(*machine.phase(), Phase::Done);
    assert!(machine.is_terminal());
}

#[test]
fn a_failed_discovery_ends_the_acquisition() {
    let (machine, _) = start();
    let (machine, action) =
        machine.step(Event::DescribeVolumes(Err(String::from("connection reset"))), 0);
    assert_eq!(
        action,
        Action::Finish(Err(AttachVolumeError::Locate(LocateError::RemoteFailure(String::from(
            "connection reset"
        )))))
    );
    assert_eq!(*machine.phase(), Phase::Failed);
}

#[test]
fn further_pages_end_the_acquisition() {
    let (machine, _) = start();
    let response = DescribeVolumesResponse {
        volumes: vec![Volume { volume_id: String::from("vol-1"), attachments: vec![] }],
        more_pages: true,
    };
    let (machine, action) = machine.step(Event::DescribeVolumes(Ok(response)), 0);
    assert_eq!(
        action,
        Action::Finish(Err(AttachVolumeError::Locate(LocateError::PaginationUnsupported)))
    );
    assert_eq!(*machine.phase(), Phase::Failed);
}

#[test]
fn a_failed_creation_ends_the_acquisition() {
    let (machine, _) = start();
    let (machine, actions) = replay(
        machine,
        vec![(found(&[]), 0), (Event::CreateVolume(Err(String::from("VolumeLimitExceeded"))), 1)],
    );
    assert_eq!(
        actions[1],
        Action::Finish(Err(AttachVolumeError::Create(CreateVolumeError::ProvisionFailed(
            String::from("VolumeLimitExceeded")
        ))))
    );
    assert_eq!(*machine.phase(), Phase::Failed);
}

#[test]
fn a_tagging_failure_surfaces_the_orphan_id() {
    let (machine, _) = start();
    let (machine, actions) = replay(
        machine,
        vec![
            (found(&[]), 0),
            (Event::CreateVolume(Ok(String::from("vol-1"))), 1),
            (Event::CreateTags(Err(String::from("throttled"))), 2),
        ],
    );
    assert_eq!(actions.len(), 3);
    assert_eq!(
        actions[2],
        Action::Finish(Err(AttachVolumeError::Create(CreateVolumeError::TaggingFailed {
            volume_id: String::from("vol-1"),
            cause: String::from("throttled"),
        })))
    );
    assert_eq!(*machine.phase(), Phase::Failed);
}

#[test]
fn the_wait_times_out_after_the_budget_and_not_before() {
    let (machine, _) = start();
    let since = 1_000_000;
    let (mut machine, actions) =
        replay(machine, vec![(found(&["A"]), 0), (Event::AttachVolume(Ok(())), since)]);
    let mut action = actions.into_iter().last().unwrap();
    let mut now = since;
    let mut looks = 0;
    loop {
        let event = match action {
            Action::DescribeVolumes(request) => {
                assert_eq!(request.volume_ids, vec![String::from("A")]);
                assert!(now - since < 300_000, "a look was taken after the budget was spent");
                looks += 1;
                // The stub never reports the volume attached.
                seen("A", "attaching")
            }
            Action::Sleep(millis) => {
                assert_eq!(millis, 5_000);
                now += millis;
                Event::Sleep
            }
            Action::Finish(result) => {
                assert_eq!(result, Err(AttachVolumeError::Confirm(ConfirmError::Timeout)));
                break;
            }
            other => panic!("unexpected action: {:?}", other),
        };
        assert!(machine.awaits(&event));
        let (next, named) = machine.step(event, now);
        machine = next;
        action = named;
    }
    assert_eq!(now - since, 300_000);
    assert_eq!(looks, 60);
    assert_eq!(*machine.phase(), Phase::Failed);
}

#[test]
fn a_pause_that_ends_just_before_the_budget_is_followed_by_a_look() {
    let (machine, _) = start();
    let (machine, _) = replay(
        machine,
        vec![(found(&["A"]), 0), (Event::AttachVolume(Ok(())), 100), (seen("A", "attaching"), 200)],
    );
    assert_eq!(*machine.phase(), Phase::Waiting { volume_id: String::from("A"), since: 100, faults: 0 });
    let (machine, action) = machine.step(Event::Sleep, 100 + 299_999);
    assert_eq!(poll_of(&action), Some("A"));
    let (machine, action) = machine.step(seen("A", "attaching"), 100 + 299_999);
    assert_eq!(action, Action::Sleep(5_000));
    let (machine, action) = machine.step(Event::Sleep, 100 + 300_000);
    assert_eq!(action, Action::Finish(Err(AttachVolumeError::Confirm(ConfirmError::Timeout))));
    assert!(machine.is_terminal());
}

#[test]
fn no_budget_means_no_look() {
    let none = PollPolicy { interval_ms: 5_000, budget_ms: 0, fault_cap: None };
    let (machine, _) = find_and_attach_volume(DEVICE, &volume_spec(), INSTANCE, ZONE, none);
    let (machine, actions) =
        replay(machine, vec![(found(&["A"]), 0), (Event::AttachVolume(Ok(())), 1)]);
    assert_eq!(
        actions[1],
        Action::Finish(Err(AttachVolumeError::Confirm(ConfirmError::Timeout)))
    );
    assert_eq!(*machine.phase(), Phase::Failed);
}

#[test]
fn a_passing_fault_while_waiting_is_not_fatal() {
    let (machine, _) = start();
    let (machine, actions) = replay(
        machine,
        vec![
            (found(&["A"]), 0),
            (Event::AttachVolume(Ok(())), 0),
            (Event::DescribeVolumes(Err(String::from("connection reset"))), 10),
            (Event::Sleep, 5_010),
            (seen("A", "attached"), 5_020),
        ],
    );
    assert_eq!(actions[2], Action::Sleep(5_000));
    assert_eq!(poll_of(&actions[3]), Some("A"));
    assert_eq!(actions[4], Action::Finish(Ok(String::from("A"))));
    assert_eq!(*machine.phase(), Phase::Done);
}

#[test]
fn an_unknown_volume_ends_the_wait() {
    let (machine, _) = start();
    let (machine, actions) = replay(
        machine,
        vec![
            (found(&["A"]), 0),
            (Event::AttachVolume(Ok(())), 0),
            (Event::DescribeVolumes(Err(String::from("InvalidVolume.NotFound"))), 10),
        ],
    );
    assert_eq!(
        actions[2],
        Action::Finish(Err(AttachVolumeError::Confirm(ConfirmError::RemoteFailure(
            String::from("InvalidVolume.NotFound")
        ))))
    );
    assert_eq!(*machine.phase(), Phase::Failed);
}

#[test]
fn a_timeout_on_an_existing_volume_creates_no_new_one() {
    let (machine, _) = start();
    let (machine, actions) = replay(
        machine,
        vec![
            (found(&["A", "B"]), 0),
            (Event::AttachVolume(Ok(())), 0),
            (seen("A", "attaching"), 1),
            (Event::Sleep, 300_000),
        ],
    );
    assert_eq!(creations(&actions), 0);
    assert!(actions.iter().all(|action| attach_of(action) != Some("B")));
    assert_eq!(
        actions[3],
        Action::Finish(Err(AttachVolumeError::Confirm(ConfirmError::Timeout)))
    );
    assert!(machine.is_terminal());
}

#[test]
fn the_machine_awaits_the_answer_to_its_last_action_only() {
    let (machine, _) = start();
    assert!(machine.awaits(&found(&[])));
    assert!(!machine.awaits(&Event::AttachVolume(Ok(()))));
    assert!(!machine.awaits(&Event::CreateVolume(Ok(String::from("v")))));
    assert!(!machine.awaits(&Event::CreateTags(Ok(()))));
    assert!(!machine.awaits(&Event::Sleep));
    let (machine, _) = machine.step(found(&["A"]), 0);
    assert!(machine.awaits(&Event::AttachVolume(Ok(()))));
    assert!(!machine.awaits(&found(&[])));
}

#[test]
fn replay_stops_at_an_event_that_is_not_awaited() {
    let (machine, _) = start();
    let (machine, actions) = replay(
        machine,
        vec![(found(&["A"]), 0), (Event::Sleep, 1), (Event::AttachVolume(Ok(())), 2)],
    );
    assert_eq!(actions.len(), 1);
    assert_eq!(attach_of(&actions[0]), Some("A"));
    assert!(matches!(machine.phase(), Phase::AttemptingExisting { next: 0, .. }));
}

#[test]
fn a_stopped_machine_awaits_nothing() {
    let (machine, _) = start();
    let (machine, _) = machine.step(Event::DescribeVolumes(Err(String::from("x"))), 0);
    assert!(machine.is_terminal());
    assert!(!machine.awaits(&found(&[])));
    assert!(!machine.awaits(&Event::Sleep));
    let (machine, actions) = replay(machine, vec![(found(&[]), 0)]);
    assert!(actions.is_empty());
    assert_eq!(*machine.phase(), Phase::Failed);
}

#[test]
fn try_step_hands_back_what_it_does_not_take() {
    let (machine, _) = start();
    let (machine, event) = machine.try_step(Event::Sleep, 0).unwrap_err();
    assert_eq!(event, Event::Sleep);
    assert_eq!(*machine.phase(), Phase::Discovering);
    let (machine, action) = machine.try_step(found(&["A"]), 0).unwrap();
    assert_eq!(attach_of(&action), Some("A"));
    assert!(matches!(machine.phase(), Phase::AttemptingExisting { next: 0, .. }));
    let (machine, event) = machine.try_step(found(&["B"]), 0).unwrap_err();
    assert_eq!(event, found(&["B"]));
    assert!(matches!(machine.phase(), Phase::AttemptingExisting { next: 0, .. }));
}

#[test]
fn failed_looks_in_a_row_are_counted_and_a_good_look_starts_anew() {
    let (machine, _) = start();
    let fault = || Event::DescribeVolumes(Err(String::from("connection reset")));
    let (machine, actions) = replay(
        machine,
        vec![
            (found(&["A"]), 0),
            (Event::AttachVolume(Ok(())), 0),
            (fault(), 1),
            (Event::Sleep, 2),
            (fault(), 3),
        ],
    );
    assert_eq!(actions[4], Action::Sleep(5_000));
    assert_eq!(
        *machine.phase(),
        Phase::Waiting { volume_id: String::from("A"), since: 0, faults: 2 }
    );
    let (machine, _) = replay(machine, vec![(Event::Sleep, 4), (seen("A", "attaching"), 5)]);
    assert_eq!(
        *machine.phase(),
        Phase::Waiting { volume_id: String::from("A"), since: 0, faults: 0 }
    );
}

#[test]
fn a_limit_on_failed_looks_ends_the_wait() {
    let capped = PollPolicy { interval_ms: 5_000, budget_ms: 300_000, fault_cap: Some(2) };
    let (machine, _) = find_and_attach_volume(DEVICE, &volume_spec(), INSTANCE, ZONE, capped);
    let fault = |text: &str| Event::DescribeVolumes(Err(String::from(text)));
    let (machine, actions) = replay(
        machine,
        vec![
            (found(&["A"]), 0),
            (Event::AttachVolume(Ok(())), 0),
            (fault("first"), 1),
            (Event::Sleep, 2),
            (fault("second"), 3),
            (Event::Sleep, 4),
            (fault("third"), 5),
        ],
    );
    assert_eq!(actions.len(), 7);
    assert_eq!(actions[2], Action::Sleep(5_000));
    assert_eq!(actions[4], Action::Sleep(5_000));
    assert_eq!(
        actions[6],
        Action::Finish(Err(AttachVolumeError::Confirm(ConfirmError::RemoteFailure(
            String::from("third")
        ))))
    );
    assert_eq!(*machine.phase(), Phase::Failed);
}

#[test]
fn a_limit_of_no_failed_look_ends_the_wait_at_the_first() {
    let strict = PollPolicy { interval_ms: 5_000, budget_ms: 300_000, fault_cap: Some(0) };
    let (machine, _) = find_and_attach_volume(DEVICE, &volume_spec(), INSTANCE, ZONE, strict);
    let (machine, actions) = replay(
        machine,
        vec![
            (found(&["A"]), 0),
            (Event::AttachVolume(Ok(())), 0),
            (seen("A", "attaching"), 1),
            (Event::Sleep, 2),
            (Event::DescribeVolumes(Err(String::from("connection reset"))), 3),
        ],
    );
    assert_eq!(actions[2], Action::Sleep(5_000));
    assert_eq!(
        actions[4],
        Action::Finish(Err(AttachVolumeError::Confirm(ConfirmError::RemoteFailure(
            String::from("connection reset")
        ))))
    );
    assert!(machine.is_terminal());
}

#[test]
fn a_good_look_between_failed_ones_keeps_the_wait_under_the_limit() {
    let capped = PollPolicy { interval_ms: 5_000, budget_ms: 300_000, fault_cap: Some(1) };
    let (machine, _) = find_and_attach_volume(DEVICE, &volume_spec(), INSTANCE, ZONE, capped);
    let fault = || Event::DescribeVolumes(Err(String::from("connection reset")));
    let (machine, actions) = replay(
        machine,
        vec![
            (found(&["A"]), 0),
            (Event::AttachVolume(Ok(())), 0),
            (fault(), 1),
            (Event::Sleep, 2),
            (seen("A", "attaching"), 3),
            (Event::Sleep, 4),
            (fault(), 5),
            (Event::Sleep, 6),
            (seen("A", "attached"), 7),
        ],
    );
    assert_eq!(actions.len(), 9);
    assert_eq!(actions[8], Action::Finish(Ok(String::from("A"))));
    assert_eq!(*machine.phase(), Phase::Done);
}
