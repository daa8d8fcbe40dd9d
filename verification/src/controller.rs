//! The controller of the installation workflow: the one place that knows how
//! far an installation has come, and that decides what happens next.
//!
//! The controller does nothing on disk and shows nothing on screen. It is
//! handed events and answers each with the actions to carry out. Whoever
//! carries out an action that has an outcome hands the outcome back as the
//! next event.

use vstd::prelude::*;
use crate::extraction::{Command, Extraction, ExtractionError, Outcome, ProgressCheckpoint};
use crate::registrar::RegistrarError;
use crate::request::{text_of, InstallRequest, RequestView};
use crate::store::{ArchivePayload, PayloadView};
use crate::validator::{validate, verdict, Probe, Target, Validation, ValidationError};

verus! {

/// How far the workflow has come.
#[derive(Clone, Copy, Debug, PartialEq, Eq, Structural)]
pub enum InstallState {
    /// No request is at hand.
    Idle,
    /// A request has been taken up, and its destination is being looked at.
    Validating,
    /// The destination of the request is occupied by what is given here.
    /// Nothing happens until another destination is submitted.
    AwaitingConfirmation(Target),
    /// The payload is being installed; so many percent are done.
    Extracting(u8),
    /// The payload is installed, and its binaries are being put on the
    /// search path.
    Registering,
    /// The installation is done.
    Complete,
    /// The installation was given up. Only a new request leads on.
    Failed(ExtractionError),
}

impl InstallState {
    /// Whether a request submitted in this state is taken up. None is while
    /// an earlier one is being worked on.
    pub open spec fn accepts_request(self) -> bool {
        !(self is Validating || self is Extracting || self is Registering)
    }

    /// The place of this state in the course of one request.
    pub open spec fn rank(self) -> nat {
        match self {
            InstallState::Validating => 0,
            InstallState::Idle => 1,
            InstallState::AwaitingConfirmation(_) => 1,
            InstallState::Extracting(progress) => 2 + progress as nat,
            InstallState::Registering => 258,
            InstallState::Complete => 259,
            InstallState::Failed(_) => 260,
        }
    }

    /// Whether a request submitted in this state is taken up.
    pub fn is_open(&self) -> (r: bool)
        ensures
            r == self.accepts_request(),
    {
        match self {
            InstallState::Validating => false,
            InstallState::Extracting(_) => false,
            InstallState::Registering => false,
            _ => true,
        }
    }
}

/// Something that went wrong without stopping the installation.
#[derive(Clone, Copy, Debug, PartialEq, Eq, Structural)]
pub enum Notice {
    /// The temporary archive file could not be deleted.
    ArchiveLeft,
    /// The binaries could not be put on the search path.
    NotRegistered,
}

/// What the controller asks for in answer to an event.
#[derive(Clone, Copy, Debug, PartialEq, Eq, Structural)]
pub enum Action {
    /// Let the user pick a folder.
    OpenFolderPicker,
    /// Close the view.
    CloseView,
    /// Look at the destination of the request and at its parent, and hand
    /// back what was found as [`Event::Probed`].
    Inspect,
    /// Tell the user why the destination was turned down.
    ShowWarning(ValidationError),
    /// Move the view on to its last page, the one that shows the progress.
    ShowTerminalView,
    /// Show that so many percent are done.
    UpdateProgress(u8),
    /// Carry out a step of the installation, and hand back how it ended as
    /// [`Event::Stepped`].
    Run(Command),
    /// Put the binaries on the search path, and hand back how that ended as
    /// [`Event::Registered`].
    Register,
    /// Put on record what went wrong.
    LogWarning(Notice),
    /// Tell the user that the installation was given up, and why.
    ReportFailure(ExtractionError),
    /// Let the user leave the last page.
    EnableContinue,
}

impl Action {
    /// Whether carrying out this action changes anything outside the
    /// process: on disk or in what later sessions see.
    pub open spec fn mutates(self) -> bool {
        match self {
            Action::Run(command) => command.writes(),
            Action::Register => true,
            _ => false,
        }
    }
}

/// What the controller is told.
#[derive(Debug, PartialEq, Eq)]
pub enum Event {
    /// The user asks for the folder picker.
    PickFolder,
    /// The user closes the view.
    CancelView,
    /// The user submits a destination.
    Confirm(InstallRequest),
    /// The destination has been looked at.
    Probed(Probe),
    /// A step of the installation has ended.
    Stepped(Outcome),
    /// Putting the binaries on the search path has ended.
    Registered(Result<(), RegistrarError>),
}

/// An event, as plain values.
pub enum EventView {
    PickFolder,
    CancelView,
    Confirm(RequestView),
    Probed(Probe),
    Stepped(Outcome),
    Registered(Result<(), RegistrarError>),
}

impl View for Event {
    type V = EventView;

    open spec fn view(&self) -> EventView {
        match self {
            Event::PickFolder => EventView::PickFolder,
            Event::CancelView => EventView::CancelView,
            Event::Confirm(request) => EventView::Confirm(request@),
            Event::Probed(probe) => EventView::Probed(*probe),
            Event::Stepped(outcome) => EventView::Stepped(*outcome),
            Event::Registered(result) => EventView::Registered(*result),
        }
    }
}

/// What the controller knows, as plain values.
pub struct Model {
    /// How far the workflow has come.
    pub state: InstallState,
    /// The installation of the request at hand, once it has begun.
    pub engine: Option<Extraction>,
    /// The request at hand.
    pub request: Option<RequestView>,
    /// The payload that is installed.
    pub payload: PayloadView,
    /// Why the binaries are not on the search path, if they are not.
    pub warning: Option<RegistrarError>,
}

/// The action that reports a checkpoint, if one was passed.
pub open spec fn progress_report(passed: Option<ProgressCheckpoint>) -> Seq<Action> {
    match passed {
        Some(checkpoint) => seq![Action::UpdateProgress(checkpoint.spec_percent())],
        None => Seq::empty(),
    }
}

/// The actions that follow when an installation has moved from `before` to
/// `after`: the next step, or what its end calls for.
pub open spec fn follow_up(before: Extraction, after: Extraction) -> Seq<Action> {
    if after == before {
        Seq::empty()
    } else {
        match after {
            Extraction::Failed(error) => seq![Action::ReportFailure(error)],
            Extraction::Finished { archive_left } => if archive_left {
                seq![Action::LogWarning(Notice::ArchiveLeft), Action::Register]
            } else {
                seq![Action::Register]
            },
            _ => seq![Action::Run(after.pending().unwrap())],
        }
    }
}

/// The state of the workflow while the installation is in `engine`.
pub open spec fn state_of(engine: Extraction) -> InstallState {
    match engine {
        Extraction::Failed(error) => InstallState::Failed(error),
        Extraction::Finished { .. } => InstallState::Registering,
        _ => InstallState::Extracting(engine.reached().unwrap().spec_percent()),
    }
}

impl Model {
    /// The model of a controller to which nothing has happened yet.
    pub open spec fn initial(payload: PayloadView) -> Model {
        Model { state: InstallState::Idle, engine: None, request: None, payload, warning: None }
    }

    /// What holds of the model of every controller: a request is at hand
    /// except when idle, it names a parent whenever it is worked on, and the
    /// state agrees with how far the installation has come.
    pub open spec fn wf(self) -> bool {
        match self.state {
            InstallState::Idle => {
                &&& self.request is None
                &&& self.engine is None
                &&& self.warning is None
            },
            InstallState::Validating => {
                &&& self.request is Some
                &&& self.request.unwrap().parent is Some
                &&& self.engine is None
                &&& self.warning is None
            },
            InstallState::AwaitingConfirmation(_) => {
                &&& self.request is Some
                &&& self.engine is None
                &&& self.warning is None
            },
            InstallState::Extracting(_) => {
                &&& self.request is Some
                &&& self.request.unwrap().parent is Some
                &&& self.engine is Some
                &&& !self.engine.unwrap().is_over()
                &&& self.state == state_of(self.engine.unwrap())
                &&& self.warning is None
            },
            InstallState::Registering => {
                &&& self.request is Some
                &&& self.request.unwrap().parent is Some
                &&& self.engine is Some
                &&& self.engine.unwrap() is Finished
                &&& self.warning is None
            },
            InstallState::Complete => {
                &&& self.request is Some
                &&& self.request.unwrap().parent is Some
                &&& self.engine is Some
                &&& self.engine.unwrap() is Finished
            },
            InstallState::Failed(error) => {
                &&& self.request is Some
                &&& self.request.unwrap().parent is Some
                &&& self.engine == Some(Extraction::Failed(error))
                &&& self.warning is None
            },
        }
    }

    /// Whether a destination submitted now is the one that was found
    /// occupied and is still waited on.
    pub open spec fn awaits(self, request: RequestView) -> bool {
        &&& self.state is AwaitingConfirmation
        &&& self.request is Some
        &&& self.request.unwrap().destination == request.destination
    }

    /// The model with no request at hand.
    pub open spec fn cleared(self) -> Model {
        Model::initial(self.payload)
    }

    /// The model after `event`.
    pub open spec fn step(self, event: EventView) -> Model {
        match event {
            EventView::PickFolder => self,
            EventView::CancelView => self,
            EventView::Confirm(request) => if !self.state.accepts_request() || self.awaits(
                request,
            ) {
                self
            } else if request.parent is None {
                self.cleared()
            } else {
                Model {
                    state: InstallState::Validating,
                    engine: None,
                    request: Some(request),
                    payload: self.payload,
                    warning: None,
                }
            },
            EventView::Probed(probe) => if self.state != InstallState::Validating {
                self
            } else {
                match Extraction::initial(verdict(probe)) {
                    Some(engine) => Model {
                        state: InstallState::Extracting(0),
                        engine: Some(engine),
                        ..self
                    },
                    None => if verdict(probe) == Validation::Conflict {
                        Model { state: InstallState::AwaitingConfirmation(probe.target), ..self }
                    } else {
                        self.cleared()
                    },
                }
            },
            EventView::Stepped(outcome) => if !(self.state is Extracting) || self.engine is None {
                self
            } else {
                let after = self.engine.unwrap().next(outcome);
                Model { state: state_of(after), engine: Some(after), ..self }
            },
            EventView::Registered(result) => if self.state != InstallState::Registering {
                self
            } else {
                Model {
                    state: InstallState::Complete,
                    warning: match result {
                        Ok(_) => None,
                        Err(error) => Some(error),
                    },
                    ..self
                }
            },
        }
    }

    /// The actions asked for in answer to `event`, in order.
    pub open spec fn actions(self, event: EventView) -> Seq<Action> {
        match event {
            EventView::PickFolder => seq![Action::OpenFolderPicker],
            EventView::CancelView => seq![Action::CloseView],
            EventView::Confirm(request) => if !self.state.accepts_request() {
                Seq::empty()
            } else if self.awaits(request) {
                seq![Action::ShowWarning(ValidationError::Conflict)]
            } else if request.parent is None {
                seq![Action::ShowWarning(ValidationError::Unreachable)]
            } else {
                seq![Action::Inspect]
            },
            EventView::Probed(probe) => if self.state != InstallState::Validating {
                Seq::empty()
            } else {
                match verdict(probe).refusal() {
                    Some(error) => seq![Action::ShowWarning(error)],
                    None => seq![
                        Action::ShowTerminalView,
                        Action::UpdateProgress(0),
                        Action::Run(Command::WriteArchive),
                    ],
                }
            },
            EventView::Stepped(outcome) => if !(self.state is Extracting) || self.engine is None {
                Seq::empty()
            } else {
                let before = self.engine.unwrap();
                progress_report(before.passed(outcome)) + follow_up(before, before.next(outcome))
            },
            EventView::Registered(result) => if self.state != InstallState::Registering {
                Seq::empty()
            } else {
                match result {
                    Ok(_) => seq![Action::EnableContinue],
                    Err(_) => seq![
                        Action::LogWarning(Notice::NotRegistered),
                        Action::EnableContinue,
                    ],
                }
            },
        }
    }
}

/// What a request that may be missing holds, as plain values.
pub open spec fn request_view(request: Option<InstallRequest>) -> Option<RequestView> {
    match request {
        Some(request) => Some(request@),
        None => None,
    }
}

/// The controller of the installation workflow.
#[derive(Debug)]
pub struct Controller {
    state: InstallState,
    engine: Option<Extraction>,
    request: Option<InstallRequest>,
    payload: ArchivePayload,
    warning: Option<RegistrarError>,
}

impl View for Controller {
    type V = Model;

    closed spec fn view(&self) -> Model {
        Model {
            state: self.state,
            engine: self.engine,
            request: request_view(self.request),
            payload: self.payload@,
            warning: self.warning,
        }
    }
}

/// The state of the workflow while the installation is in `engine`.
fn state_for(engine: Extraction) -> (state: InstallState)
    ensures
        state == state_of(engine),
{
    match engine {
        Extraction::Failed(error) => InstallState::Failed(error),
        Extraction::Finished { .. } => InstallState::Registering,
        _ => match engine.checkpoint() {
            Some(checkpoint) => InstallState::Extracting(checkpoint.percent()),
            None => InstallState::Extracting(0),
        },
    }
}

impl Controller {
    /// What holds of every controller.
    pub open spec fn wf(&self) -> bool {
        self@.wf()
    }

    /// A controller for installing `payload`, with no request at hand.
    pub fn new(payload: ArchivePayload) -> (c: Controller)
        ensures
            c@ == Model::initial(payload@),
            c.wf(),
    {
        Controller {
            state: InstallState::Idle,
            engine: None,
            request: None,
            payload,
            warning: None,
        }
    }

    /// How far the workflow has come.
    pub fn state(&self) -> (r: InstallState)
        ensures
            r == self@.state,
    {
        self.state
    }

    /// The installation of the request at hand, once it has begun.
    pub fn extraction(&self) -> (r: Option<Extraction>)
        ensures
            r == self@.engine,
    {
        self.engine
    }

    /// Why the binaries are not on the search path, if they are not.
    pub fn warning(&self) -> (r: Option<RegistrarError>)
        ensures
            r == self@.warning,
    {
        self.warning
    }

    /// The request at hand.
    pub fn request(&self) -> (r: Option<&InstallRequest>)
        ensures
            r is Some == self@.request is Some,
            r is Some ==> r.unwrap()@ == self@.request.unwrap(),
    {
        match &self.request {
            Some(request) => Some(request),
            None => None,
        }
    }

    /// The payload that is installed.
    pub fn payload(&self) -> (r: &ArchivePayload)
        ensures
            r@ == self@.payload,
    {
        &self.payload
    }

    /// Where the archive lies while the request at hand is installed.
    pub fn archive_path(&self) -> (r: Option<String>)
        ensures
            text_of(r) == match self@.request {
                Some(request) => request.archive_path(self@.payload.logical_name),
                None => None,
            },
    {
        match &self.request {
            Some(request) => request.archive_path(&self.payload),
            None => None,
        }
    }

    /// The directory to put on the search path for the request at hand.
    pub fn binary_dir(&self) -> (r: Option<String>)
        ensures
            text_of(r) == match self@.request {
                Some(request) => Some(request.binary_dir()),
                None => None,
            },
    {
        match &self.request {
            Some(request) => Some(request.binary_dir()),
            None => None,
        }
    }

    /// Forgets the request at hand.
    fn clear(&mut self)
        ensures
            final(self)@ == old(self)@.cleared(),
    {
        self.state = InstallState::Idle;
        self.engine = None;
        self.request = None;
        self.warning = None;
    }

    /// Takes up a submitted destination, unless one is being worked on.
    fn confirm(&mut self, request: InstallRequest) -> (actions: Vec<Action>)
        requires
            old(self).wf(),
        ensures
            final(self)@ == old(self)@.step(EventView::Confirm(request@)),
            actions@ == old(self)@.actions(EventView::Confirm(request@)),
    {
        let mut actions = Vec::new();
        if !self.state.is_open() {
            return actions;
        }
        let awaited = match (&self.state, &self.request) {
            (InstallState::AwaitingConfirmation(_), Some(at_hand)) => at_hand.same_destination(
                &request,
            ),
            _ => false,
        };
        if awaited {
            actions.push(Action::ShowWarning(ValidationError::Conflict));
        } else if request.parent().is_none() {
            self.clear();
            actions.push(Action::ShowWarning(ValidationError::Unreachable));
        } else {
            self.state = InstallState::Validating;
            self.engine = None;
            self.request = Some(request);
            self.warning = None;
            actions.push(Action::Inspect);
        }
        actions
    }

    /// Takes in what was found at the destination, and begins the
    /// installation or turns the destination down.
    fn probed(&mut self, probe: Probe) -> (actions: Vec<Action>)
        requires
            old(self).wf(),
        ensures
            final(self)@ == old(self)@.step(EventView::Probed(probe)),
            actions@ == old(self)@.actions(EventView::Probed(probe)),
    {
        let mut actions = Vec::new();
        if self.state != InstallState::Validating {
            return actions;
        }
        let found = validate(&probe);
        match Extraction::begin(found) {
            Some(engine) => {
                self.state = InstallState::Extracting(0);
                self.engine = Some(engine);
                actions.push(Action::ShowTerminalView);
                actions.push(Action::UpdateProgress(0));
                actions.push(Action::Run(Command::WriteArchive));
            },
            None => {
                match found {
                    Validation::Conflict => {
                        self.state = InstallState::AwaitingConfirmation(probe.target);
                        actions.push(Action::ShowWarning(ValidationError::Conflict));
                    },
                    _ => {
                        self.clear();
                        actions.push(Action::ShowWarning(ValidationError::Unreachable));
                    },
                }
            },
        }
        actions
    }

    /// Takes in how a step of the installation ended.
    fn stepped(&mut self, outcome: Outcome) -> (actions: Vec<Action>)
        requires
            old(self).wf(),
        ensures
            final(self)@ == old(self)@.step(EventView::Stepped(outcome)),
            actions@ == old(self)@.actions(EventView::Stepped(outcome)),
    {
        let mut actions = Vec::new();
        let before = match (self.state, self.engine) {
            (InstallState::Extracting(_), Some(engine)) => engine,
            _ => {
                return actions;
            },
        };
        let mut after = before;
        let passed = after.advance(outcome);
        match passed {
            Some(checkpoint) => {
                actions.push(Action::UpdateProgress(checkpoint.percent()));
            },
            None => {},
        }
        assert(actions@ =~= progress_report(before.passed(outcome)));
        if after != before {
            match after {
                Extraction::Failed(error) => {
                    actions.push(Action::ReportFailure(error));
                },
                Extraction::Finished { archive_left } => {
                    if archive_left {
                        actions.push(Action::LogWarning(Notice::ArchiveLeft));
                    }
                    actions.push(Action::Register);
                },
                _ => {
                    match after.command() {
                        Some(command) => {
                            actions.push(Action::Run(command));
                        },
                        None => {},
                    }
                },
            }
        }
        assert(actions@ =~= progress_report(before.passed(outcome)) + follow_up(before, after));
        self.state = state_for(after);
        self.engine = Some(after);
        actions
    }

    /// Takes in how putting the binaries on the search path ended.
    fn registered(&mut self, result: Result<(), RegistrarError>) -> (actions: Vec<Action>)
        requires
            old(self).wf(),
        ensures
            final(self)@ == old(self)@.step(EventView::Registered(result)),
            actions@ == old(self)@.actions(EventView::Registered(result)),
    {
        let mut actions = Vec::new();
        if self.state != InstallState::Registering {
            return actions;
        }
        self.state = InstallState::Complete;
        match result {
            Ok(_) => {
                self.warning = None;
            },
            Err(error) => {
                self.warning = Some(error);
                actions.push(Action::LogWarning(Notice::NotRegistered));
            },
        }
        actions.push(Action::EnableContinue);
        actions
    }

    /// Takes in an event, and returns the actions to carry out in answer to
    /// it, in order.
    pub fn dispatch(&mut self, event: Event) -> (actions: Vec<Action>)
        requires
            old(self).wf(),
        ensures
            final(self).wf(),
            final(self)@ == old(self)@.step(event@),
            actions@ == old(self)@.actions(event@),
    {
        proof {
            law_step_keeps_wf(self@, event@);
        }
        match event {
            Event::PickFolder => {
                let mut actions = Vec::new();
                actions.push(Action::OpenFolderPicker);
                actions
            },
            Event::CancelView => {
                let mut actions = Vec::new();
                actions.push(Action::CloseView);
                actions
            },
            Event::Confirm(request) => self.confirm(request),
            Event::Probed(probe) => self.probed(probe),
            Event::Stepped(outcome) => self.stepped(outcome),
            Event::Registered(result) => self.registered(result),
        }
    }
}

/// Whatever the event, what holds of every controller holds afterwards too.
pub proof fn law_step_keeps_wf(model: Model, event: EventView)
    requires
        model.wf(),
    ensures
        model.step(event).wf(),
{
}


/// Whether none of `actions` changes anything outside the process.
pub open spec fn harmless(actions: Seq<Action>) -> bool {
    forall|i: int| 0 <= i < actions.len() ==> !(#[trigger] actions[i]).mutates()
}

/// A destination whose parent is missing is turned down, and nothing is
/// changed on its account.
///
/// The verdict is `Invalid`. A controller that waits for the verdict goes
/// back to having no request at hand, and asks only for the warning that the
/// destination cannot be reached.
pub proof fn law_unreachable_changes_nothing(model: Model, probe: Probe)
    requires
        model.wf(),
        model.state == InstallState::Validating,
        probe.parent != crate::validator::Parent::Present,
    ensures
        verdict(probe) == Validation::Invalid,
        model.step(EventView::Probed(probe)) == model.cleared(),
        model.step(EventView::Probed(probe)).state == InstallState::Idle,
        model.actions(EventView::Probed(probe)) == seq![
            Action::ShowWarning(ValidationError::Unreachable),
        ],
        harmless(model.actions(EventView::Probed(probe))),
{
}

/// A destination that is there and is not an empty directory is turned down,
/// and nothing is changed on its account.
///
/// The verdict is `Conflict`. A controller that waits for the verdict goes
/// on to await another destination, and asks only for the warning that the
/// destination is occupied.
pub proof fn law_conflict_changes_nothing(model: Model, probe: Probe)
    requires
        model.wf(),
        model.state == InstallState::Validating,
        probe.parent == crate::validator::Parent::Present,
        probe.target != Target::Absent,
        !probe.target.is_empty_directory(),
    ensures
        verdict(probe) == Validation::Conflict,
        model.step(EventView::Probed(probe)).state == InstallState::AwaitingConfirmation(
            probe.target,
        ),
        model.step(EventView::Probed(probe)).request == model.request,
        model.actions(EventView::Probed(probe)) == seq![
            Action::ShowWarning(ValidationError::Conflict),
        ],
        harmless(model.actions(EventView::Probed(probe))),
{
}

/// A destination that is not there yet, in a parent that is, is created
/// before anything is put into it.
///
/// The verdict is `ProceedAfterCreate`, and the installation that the
/// controller begins on it is one that creates the destination after the
/// archive is written.
pub proof fn law_absent_is_created(model: Model, probe: Probe)
    requires
        model.wf(),
        model.state == InstallState::Validating,
        probe.parent == crate::validator::Parent::Present,
        probe.target == Target::Absent,
    ensures
        verdict(probe) == Validation::ProceedAfterCreate,
        model.step(EventView::Probed(probe)).state == InstallState::Extracting(0),
        model.step(EventView::Probed(probe)).engine == Some(
            Extraction::WritingArchive { create_destination: true },
        ),
        model.step(EventView::Probed(probe)).engine.unwrap().next(Outcome::Succeeded).pending()
            == Some(Command::CreateDestination),
{
}

/// Within one request the workflow never goes back.
///
/// An event that submits no new destination leaves the state where it is or
/// moves it forward: from validating to idle, awaiting or extracting, through
/// rising percentages to registering and complete, or into failure. What is
/// complete or failed stays so.
pub proof fn law_state_never_goes_back(model: Model, event: EventView)
    requires
        model.wf(),
        !(event is Confirm),
    ensures
        model.step(event).state.rank() >= model.state.rank(),
        model.state is Failed || model.state is Complete ==> model.step(event).state
            == model.state,
        model.step(event).request == model.request || model.step(event).state
            == InstallState::Idle,
{
}

/// At most one installation is at work: a destination submitted while one is
/// validated, extracted or registered is not taken up, and nothing is asked
/// for on its account.
pub proof fn law_busy_rejects_request(model: Model, request: RequestView)
    requires
        model.wf(),
        !model.state.accepts_request(),
    ensures
        model.step(EventView::Confirm(request)) == model,
        model.actions(EventView::Confirm(request)) == Seq::<Action>::empty(),
{
}

/// Nothing outside the process is changed unless a destination has been
/// found fit: every action that changes something answers the verdict on a
/// destination that allows the installation, or the outcome of a step of an
/// installation under way.
pub proof fn law_changes_need_a_verdict(model: Model, event: EventView)
    requires
        model.wf(),
        !harmless(model.actions(event)),
    ensures
        event matches EventView::Probed(probe) ==> model.state == InstallState::Validating
            && Extraction::initial(verdict(probe)) is Some,
        event matches EventView::Stepped(_) ==> model.state is Extracting,
        event is Probed || event is Stepped,
{
    let actions = model.actions(event);
    let at = choose|i: int| 0 <= i < actions.len() && (#[trigger] actions[i]).mutates();
    assert(actions[at].mutates());
}

/// A failure is there to be seen: when a step ends so that the installation
/// is given up, the workflow is in the failed state with the reason, the
/// reason is the last thing reported, and 100 percent are not.
pub proof fn law_failure_is_observable(model: Model, outcome: Outcome, error: ExtractionError)
    requires
        model.wf(),
        model.state is Extracting,
        model.engine.unwrap().next(outcome) == Extraction::Failed(error),
    ensures
        model.step(EventView::Stepped(outcome)).state == InstallState::Failed(error),
        model.actions(EventView::Stepped(outcome)) == seq![Action::ReportFailure(error)],
        model.step(EventView::Stepped(outcome)).wf(),
{
    let before = model.engine.unwrap();
    assert(before.passed(outcome) is None);
    assert(progress_report(before.passed(outcome)) + follow_up(before, before.next(outcome))
        =~= seq![Action::ReportFailure(error)]);
}

/// While the payload is installed, the percentage that the state shows is
/// that of the last checkpoint passed, short of the last: 0, 20 or 80.
pub proof fn law_progress_is_a_checkpoint(model: Model)
    requires
        model.wf(),
    ensures
        model.state matches InstallState::Extracting(progress) ==> {
            &&& model.engine.unwrap().reached() is Some
            &&& progress == model.engine.unwrap().reached().unwrap().spec_percent()
            &&& progress == 0 || progress == 20 || progress == 80
        },
{
}

/// The payload is unpacked only into a destination that was found to be an
/// empty directory by the step just before.
pub proof fn law_fills_only_after_empty(model: Model, event: EventView, at: int)
    requires
        model.wf(),
        0 <= at < model.actions(event).len(),
        model.actions(event)[at] == Action::Run(Command::Decompress),
    ensures
        model.state is Extracting,
        model.engine == Some(Extraction::Inspecting),
        event matches EventView::Stepped(Outcome::Inspected(found))
            && found.is_empty_directory(),
{
}

/// The binaries are put on the search path only once the payload is
/// installed: never after a failure, and never before the last checkpoint.
pub proof fn law_registers_only_after_finish(model: Model, event: EventView, at: int)
    requires
        model.wf(),
        0 <= at < model.actions(event).len(),
        model.actions(event)[at] == Action::Register,
    ensures
        model.state is Extracting,
        model.step(event).state == InstallState::Registering,
        model.step(event).engine.unwrap() is Finished,
        model.actions(event)[0] == Action::UpdateProgress(100),
{
}


} // verus!
