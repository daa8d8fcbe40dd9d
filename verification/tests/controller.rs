use installer::controller::{Action, Controller, Event, InstallState, Notice};
use installer::extraction::{Command, Extraction, ExtractionError, Outcome};
use installer::registrar::RegistrarError;
use installer::request::InstallRequest;
use installer::store::ArchivePayload;
use installer::validator::{Parent, Probe, Target, ValidationError};

const EMPTY: Target = Target::Directory { entries: 0 };

fn controller() -> Controller {
    Controller::new(ArchivePayload::new(vec![1, 2, 3], "kube".to_string()))
}

fn confirm(path: &str, parent: &str) -> Event {
    Event::Confirm(InstallRequest::with_parent(path, Some(parent.to_string())))
}

fn found(target: Target) -> Event {
    Event::Probed(Probe { parent: Parent::Present, target })
}

/// Hands the events to the controller one by one, and returns every action
/// that it asked for.
fn feed(controller: &mut Controller, events: Vec<Event>) -> Vec<Action> {
    let mut actions = Vec::new();
    for event in events {
        actions.extend(controller.dispatch(event));
    }
    actions
}

fn percentages(actions: &[Action]) -> Vec<u8> {
    actions
        .iter()
        .filter_map(|action| match action {
            Action::UpdateProgress(percent) => Some(*percent),
            _ => None,
        })
        .collect()
}

/// A controller that has begun to install into `./app`, which was not there.
fn extracting() -> Controller {
    let mut controller = controller();
    feed(&mut controller, vec![confirm("./app", "."), found(Target::Absent)]);
    assert_eq!(controller.state(), InstallState::Extracting(0));
    controller
}

#[test]
fn controller_begins_idle() {
    let controller = controller();
    assert_eq!(controller.state(), InstallState::Idle);
    assert_eq!(controller.request(), None);
    assert_eq!(controller.extraction(), None);
    assert_eq!(controller.warning(), None);
    assert_eq!(controller.archive_path(), None);
    assert_eq!(controller.binary_dir(), None);
    assert_eq!(controller.payload().logical_name(), "kube");
    assert_eq!(controller.payload().bytes(), &vec![1, 2, 3]);
}

#[test]
fn scenario_fresh_destination_installs() {
    let mut controller = controller();

    let actions = controller.dispatch(confirm("./app", "."));
    assert_eq!(actions, vec![Action::Inspect]);
    assert_eq!(controller.state(), InstallState::Validating);

    let actions = controller.dispatch(found(Target::Absent));
    assert_eq!(
        actions,
        vec![
            Action::ShowTerminalView,
            Action::UpdateProgress(0),
            Action::Run(Command::WriteArchive),
        ]
    );
    assert_eq!(controller.state(), InstallState::Extracting(0));
    assert_eq!(controller.archive_path(), Some("./kube.zip".to_string()));

    let actions = controller.dispatch(Event::Stepped(Outcome::Succeeded));
    assert_eq!(
        actions,
        vec![Action::UpdateProgress(20), Action::Run(Command::CreateDestination)]
    );
    assert_eq!(controller.state(), InstallState::Extracting(20));

    let actions = controller.dispatch(Event::Stepped(Outcome::Succeeded));
    assert_eq!(actions, vec![Action::Run(Command::InspectDestination)]);
    assert_eq!(controller.state(), InstallState::Extracting(20));

    let actions = controller.dispatch(Event::Stepped(Outcome::Inspected(EMPTY)));
    assert_eq!(actions, vec![Action::Run(Command::Decompress)]);
    assert_eq!(controller.state(), InstallState::Extracting(20));

    let actions = controller.dispatch(Event::Stepped(Outcome::Succeeded));
    assert_eq!(
        actions,
        vec![Action::UpdateProgress(80), Action::Run(Command::RemoveArchive)]
    );
    assert_eq!(controller.state(), InstallState::Extracting(80));

    let actions = controller.dispatch(Event::Stepped(Outcome::Succeeded));
    assert_eq!(actions, vec![Action::UpdateProgress(100), Action::Register]);
    assert_eq!(controller.state(), InstallState::Registering);
    assert_eq!(controller.binary_dir(), Some("./app/bin".to_string()));

    let actions = controller.dispatch(Event::Registered(Ok(())));
    assert_eq!(actions, vec![Action::EnableContinue]);
    assert_eq!(controller.state(), InstallState::Complete);
    assert_eq!(controller.warning(), None);
    assert_eq!(
        controller.extraction(),
        Some(Extraction::Finished { archive_left: false })
    );
}

#[test]
fn scenario_fresh_destination_reports_0_20_80_100() {
    let mut controller = controller();
    let actions = feed(
        &mut controller,
        vec![
            confirm("./app", "."),
            found(Target::Absent),
            Event::Stepped(Outcome::Succeeded),
            Event::Stepped(Outcome::Succeeded),
            Event::Stepped(Outcome::Inspected(EMPTY)),
            Event::Stepped(Outcome::Succeeded),
            Event::Stepped(Outcome::Succeeded),
            Event::Registered(Ok(())),
        ],
    );
    assert_eq!(percentages(&actions), vec![0, 20, 80, 100]);
    assert_eq!(controller.state(), InstallState::Complete);
}

#[test]
fn scenario_occupied_destination_is_turned_down() {
    let mut controller = controller();
    let occupied = Target::Directory { entries: 1 };
    let actions = feed(&mut controller, vec![confirm("./app", "."), found(occupied)]);
    assert_eq!(
        actions,
        vec![Action::Inspect, Action::ShowWarning(ValidationError::Conflict)]
    );
    assert_eq!(controller.state(), InstallState::AwaitingConfirmation(occupied));
    assert_eq!(controller.extraction(), None);

    // Nothing moves it but another destination.
    let actions = feed(
        &mut controller,
        vec![
            Event::Stepped(Outcome::Succeeded),
            Event::Registered(Ok(())),
            found(Target::Absent),
        ],
    );
    assert_eq!(actions, vec![]);
    assert_eq!(controller.state(), InstallState::AwaitingConfirmation(occupied));

    let actions = controller.dispatch(confirm("./app", "."));
    assert_eq!(actions, vec![Action::ShowWarning(ValidationError::Conflict)]);
    assert_eq!(controller.state(), InstallState::AwaitingConfirmation(occupied));

    let actions = controller.dispatch(confirm("./app2", "."));
    assert_eq!(actions, vec![Action::Inspect]);
    assert_eq!(controller.state(), InstallState::Validating);
    assert_eq!(
        controller.request().map(|request| request.destination_path()),
        Some("./app2")
    );
}

#[test]
fn scenario_corrupt_archive_fails_after_20() {
    let mut controller = controller();
    let actions = feed(
        &mut controller,
        vec![
            confirm("./app", "."),
            found(Target::Absent),
            Event::Stepped(Outcome::Succeeded),
            Event::Stepped(Outcome::Succeeded),
            Event::Stepped(Outcome::Inspected(EMPTY)),
            Event::Stepped(Outcome::ArchiveCorrupt),
        ],
    );
    assert_eq!(percentages(&actions), vec![0, 20]);
    assert_eq!(actions.last(), Some(&Action::ReportFailure(ExtractionError::Corrupt)));
    assert!(!actions.contains(&Action::Register));
    assert!(!actions.contains(&Action::Run(Command::RemoveArchive)));
    assert_eq!(controller.state(), InstallState::Failed(ExtractionError::Corrupt));

    // What failed stays failed, and nothing more is asked for.
    let actions = feed(
        &mut controller,
        vec![
            Event::Stepped(Outcome::Succeeded),
            Event::Registered(Ok(())),
            found(Target::Absent),
        ],
    );
    assert_eq!(actions, vec![]);
    assert_eq!(controller.state(), InstallState::Failed(ExtractionError::Corrupt));
}

#[test]
fn unreachable_destination_is_turned_down() {
    for parent in [Parent::Missing, Parent::Unresolvable] {
        let mut controller = controller();
        let actions = feed(
            &mut controller,
            vec![
                confirm("/nowhere/app", "/nowhere"),
                Event::Probed(Probe { parent, target: Target::Absent }),
            ],
        );
        assert_eq!(
            actions,
            vec![Action::Inspect, Action::ShowWarning(ValidationError::Unreachable)]
        );
        assert_eq!(controller.state(), InstallState::Idle);
        assert_eq!(controller.request(), None);
    }
}

#[test]
fn destination_without_parent_is_turned_down_at_once() {
    let mut controller = controller();
    let actions =
        controller.dispatch(Event::Confirm(InstallRequest::with_parent("/", None)));
    assert_eq!(actions, vec![Action::ShowWarning(ValidationError::Unreachable)]);
    assert_eq!(controller.state(), InstallState::Idle);
    assert_eq!(controller.request(), None);

    let actions = controller.dispatch(Event::Confirm(InstallRequest::new("")));
    assert_eq!(actions, vec![Action::ShowWarning(ValidationError::Unreachable)]);
    assert_eq!(controller.state(), InstallState::Idle);
}

#[test]
fn empty_destination_is_installed_into_without_creating_it() {
    let mut controller = controller();
    let actions = feed(
        &mut controller,
        vec![
            confirm("/tmp/app", "/tmp"),
            found(EMPTY),
            Event::Stepped(Outcome::Succeeded),
        ],
    );
    assert_eq!(
        actions,
        vec![
            Action::Inspect,
            Action::ShowTerminalView,
            Action::UpdateProgress(0),
            Action::Run(Command::WriteArchive),
            Action::UpdateProgress(20),
            Action::Run(Command::InspectDestination),
        ]
    );
    assert_eq!(controller.archive_path(), Some("/tmp/kube.zip".to_string()));
}

#[test]
fn one_installation_at_a_time() {
    let mut validating = controller();
    validating.dispatch(confirm("./app", "."));
    let mut registering = extracting();
    feed(
        &mut registering,
        vec![
            Event::Stepped(Outcome::Succeeded),
            Event::Stepped(Outcome::Succeeded),
            Event::Stepped(Outcome::Inspected(EMPTY)),
            Event::Stepped(Outcome::Succeeded),
            Event::Stepped(Outcome::Succeeded),
        ],
    );
    for mut busy in [validating, extracting(), registering] {
        let state = busy.state();
        assert!(!state.is_open());
        let actions = busy.dispatch(confirm("./other", "."));
        assert_eq!(actions, vec![]);
        assert_eq!(busy.state(), state);
        assert_eq!(
            busy.request().map(|request| request.destination_path()),
            Some("./app")
        );
    }
}

#[test]
fn requests_are_taken_up_when_nothing_is_at_work() {
    assert!(InstallState::Idle.is_open());
    assert!(InstallState::AwaitingConfirmation(Target::NotDirectory).is_open());
    assert!(InstallState::Complete.is_open());
    assert!(InstallState::Failed(ExtractionError::Io).is_open());
    assert!(!InstallState::Validating.is_open());
    assert!(!InstallState::Extracting(20).is_open());
    assert!(!InstallState::Registering.is_open());
}

#[test]
fn destination_filled_meanwhile_fails_the_installation() {
    let mut controller = extracting();
    let actions = feed(
        &mut controller,
        vec![
            Event::Stepped(Outcome::Succeeded),
            Event::Stepped(Outcome::Succeeded),
            Event::Stepped(Outcome::Inspected(Target::Directory { entries: 4 })),
        ],
    );
    assert_eq!(
        actions.last(),
        Some(&Action::ReportFailure(ExtractionError::DestinationConflict))
    );
    assert!(!actions.contains(&Action::Run(Command::Decompress)));
    assert_eq!(
        controller.state(),
        InstallState::Failed(ExtractionError::DestinationConflict)
    );
}

#[test]
fn failed_write_fails_the_installation() {
    let mut controller = extracting();
    let actions = controller.dispatch(Event::Stepped(Outcome::IoFailed));
    assert_eq!(actions, vec![Action::ReportFailure(ExtractionError::Io)]);
    assert_eq!(controller.state(), InstallState::Failed(ExtractionError::Io));
    assert_eq!(controller.extraction(), Some(Extraction::Failed(ExtractionError::Io)));
}

#[test]
fn failure_to_register_is_only_a_warning() {
    let mut controller = extracting();
    feed(
        &mut controller,
        vec![
            Event::Stepped(Outcome::Succeeded),
            Event::Stepped(Outcome::Succeeded),
            Event::Stepped(Outcome::Inspected(EMPTY)),
            Event::Stepped(Outcome::Succeeded),
            Event::Stepped(Outcome::Succeeded),
        ],
    );
    let actions = controller.dispatch(Event::Registered(Err(RegistrarError::PersistFailed)));
    assert_eq!(
        actions,
        vec![Action::LogWarning(Notice::NotRegistered), Action::EnableContinue]
    );
    assert_eq!(controller.state(), InstallState::Complete);
    assert_eq!(controller.warning(), Some(RegistrarError::PersistFailed));
}

#[test]
fn archive_left_behind_is_only_a_warning() {
    let mut controller = extracting();
    feed(
        &mut controller,
        vec![
            Event::Stepped(Outcome::Succeeded),
            Event::Stepped(Outcome::Succeeded),
            Event::Stepped(Outcome::Inspected(EMPTY)),
            Event::Stepped(Outcome::Succeeded),
        ],
    );
    let actions = controller.dispatch(Event::Stepped(Outcome::IoFailed));
    assert_eq!(
        actions,
        vec![
            Action::UpdateProgress(100),
            Action::LogWarning(Notice::ArchiveLeft),
            Action::Register,
        ]
    );
    assert_eq!(controller.state(), InstallState::Registering);
    assert_eq!(
        controller.extraction(),
        Some(Extraction::Finished { archive_left: true })
    );
}

#[test]
fn view_events_leave_the_installation_alone() {
    let mut controller = extracting();
    assert_eq!(controller.dispatch(Event::PickFolder), vec![Action::OpenFolderPicker]);
    assert_eq!(controller.dispatch(Event::CancelView), vec![Action::CloseView]);
    assert_eq!(controller.state(), InstallState::Extracting(0));
    assert_eq!(
        controller.extraction(),
        Some(Extraction::WritingArchive { create_destination: true })
    );
}

#[test]
fn events_out_of_turn_are_passed_over() {
    let mut controller = controller();
    let actions = feed(
        &mut controller,
        vec![
            found(Target::Absent),
            Event::Stepped(Outcome::Succeeded),
            Event::Registered(Ok(())),
        ],
    );
    assert_eq!(actions, vec![]);
    assert_eq!(controller.state(), InstallState::Idle);

    let mut controller = extracting();
    let actions = feed(
        &mut controller,
        vec![
            found(Target::Absent),
            Event::Registered(Ok(())),
            Event::Stepped(Outcome::Inspected(EMPTY)),
        ],
    );
    assert_eq!(actions, vec![]);
    assert_eq!(controller.state(), InstallState::Extracting(0));
}

#[test]
fn new_request_starts_over_after_the_end() {
    let mut failed = extracting();
    failed.dispatch(Event::Stepped(Outcome::IoFailed));
    let mut complete = extracting();
    feed(
        &mut complete,
        vec![
            Event::Stepped(Outcome::Succeeded),
            Event::Stepped(Outcome::Succeeded),
            Event::Stepped(Outcome::Inspected(EMPTY)),
            Event::Stepped(Outcome::Succeeded),
            Event::Stepped(Outcome::Succeeded),
            Event::Registered(Err(RegistrarError::PersistFailed)),
        ],
    );
    for mut ended in [failed, complete] {
        let actions = ended.dispatch(confirm("./app", "."));
        assert_eq!(actions, vec![Action::Inspect]);
        assert_eq!(ended.state(), InstallState::Validating);
        assert_eq!(ended.extraction(), None);
        assert_eq!(ended.warning(), None);
    }
}
