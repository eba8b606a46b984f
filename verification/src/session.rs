//! One invocation of the client, as a machine of steps.
//!
//! The program around the library does what cannot be decided: it reads
//! files, talks to the control plane and sleeps. The session decides: it is
//! told what happened, and answers with what to print and what to do next.
//! What a command gives out is kept apart from the notes on how far it has
//! come, and only the step that ends a session gives anything out. A
//! session ends with the action [`Action::Exit`].

use vstd::prelude::*;
use vstd::string::*;
use crate::cli::{SubCommands, SubCommandsView, CONFIG_YAML, DEFAULT_TEMPLATE_FILE};
use crate::document::yaml_document;
use crate::failure::{
    spec_describe, spec_exit_code, Failure, FailureView, EXIT_INPUT, EXIT_SUCCESS,
};
use crate::loader::{parse_run, spec_run_spec, ParseError, ParseErrorView};
use crate::model::{Resource, ResourceSpec, ResourceSpecView, ResourceView, RunSpec, RunSpecView};
use crate::report::{
    accepted_lines, render_list, resource_views, spec_accepted_lines, spec_render_list,
    spec_status_report, status_report, NO_RUNS_LINE,
};
use crate::identity::{spec_valid_name, NAME_PREFIX};
use crate::submission::{
    prepare, refusal, settle, spec_prepare, spec_refusal, spec_settle, Reply, ReplyView,
    Request, RequestView, SubmissionStrategy, SubmissionStrategyView, RUN_DEFINITION,
};
use crate::text::{line_views, no_lines, one_line};
use crate::waiter::{
    begin_wait, spec_wait_step, wait_step, WaitAction, WaitOutcome, WaitState, FIRST_DELAY_MS,
};

verus! {

/// What an invocation is configured with.
#[derive(Clone, Debug, PartialEq, Eq)]
pub struct Settings {
    /// The namespace of the resources.
    pub namespace: String,
    /// How a submitted run gets its name.
    pub strategy: SubmissionStrategy,
    /// How long to wait for the resource definition, in milliseconds.
    pub timeout_ms: u64,
    /// Whether a resource definition that is not established in time ends
    /// the command. Where it does not, the command says so and goes on.
    pub strict: bool,
}

pub struct SettingsView {
    pub namespace: Seq<char>,
    pub strategy: SubmissionStrategyView,
    pub timeout_ms: u64,
    pub strict: bool,
}

impl View for Settings {
    type V = SettingsView;

    open spec fn view(&self) -> SettingsView {
        SettingsView {
            namespace: self.namespace@,
            strategy: self.strategy@,
            timeout_ms: self.timeout_ms,
            strict: self.strict,
        }
    }
}

/// What a command does once the resource definition is established.
#[derive(Clone, Debug, PartialEq, Eq)]
pub enum Pending {
    Submit(Request),
    Fetch { name: String },
    List,
}

pub enum PendingView {
    Submit(RequestView),
    Fetch { name: Seq<char> },
    List,
}

impl View for Pending {
    type V = PendingView;

    open spec fn view(&self) -> PendingView {
        match self {
            Pending::Submit(request) => PendingView::Submit(request@),
            Pending::Fetch { name } => PendingView::Fetch { name: name@ },
            Pending::List => PendingView::List,
        }
    }
}

/// Where a session stands: what it has asked for and waits to be told.
#[derive(Clone, Debug, PartialEq, Eq)]
pub enum Phase {
    /// Nothing was asked yet.
    Idle,
    /// The contents of the input file.
    Reading { path: String },
    /// Whether the resource definition is established.
    Waiting { wait: WaitState, then: Pending },
    /// The answer to a submission of `target`, a name or, where the
    /// control plane is to make the name, the prefix of one.
    Submitting { target: String, generated: bool, namespace: String },
    /// One resource.
    Fetching { name: String },
    /// The resources of the namespace.
    Listing,
    /// Whether the output file exists.
    Probing { path: String, force: bool },
    /// Whether the output file was written.
    Writing { path: String },
    /// The session has ended.
    Done,
}

pub enum PhaseView {
    Idle,
    Reading { path: Seq<char> },
    Waiting { wait: WaitState, then: PendingView },
    Submitting { target: Seq<char>, generated: bool, namespace: Seq<char> },
    Fetching { name: Seq<char> },
    Listing,
    Probing { path: Seq<char>, force: bool },
    Writing { path: Seq<char> },
    Done,
}

impl View for Phase {
    type V = PhaseView;

    open spec fn view(&self) -> PhaseView {
        match self {
            Phase::Idle => PhaseView::Idle,
            Phase::Reading { path } => PhaseView::Reading { path: path@ },
            Phase::Waiting { wait, then } => PhaseView::Waiting { wait: *wait, then: then@ },
            Phase::Submitting { target, generated, namespace } => PhaseView::Submitting {
                target: target@,
                generated: *generated,
                namespace: namespace@,
            },
            Phase::Fetching { name } => PhaseView::Fetching { name: name@ },
            Phase::Listing => PhaseView::Listing,
            Phase::Probing { path, force } => PhaseView::Probing { path: path@, force: *force },
            Phase::Writing { path } => PhaseView::Writing { path: path@ },
            Phase::Done => PhaseView::Done,
        }
    }
}

/// What the program does next.
#[derive(Clone, Debug, PartialEq, Eq)]
pub enum Action {
    /// Read the file and tell its contents.
    ReadFile { path: String },
    /// Sleep `after_ms` milliseconds, then look whether the resource
    /// definition is established. The look may take `within_ms`
    /// milliseconds at most: what is left of the wait after the sleep. A
    /// look that has no answer by then has not seen the definition.
    LookForSchema { definition: String, after_ms: u64, within_ms: u64 },
    /// Send the request to the control plane.
    Submit(Request),
    /// Get the resource of this name.
    Fetch { namespace: String, name: String },
    /// Get all resources of the namespace, every page of them.
    List { namespace: String },
    /// Tell whether the file exists.
    ProbeFile { path: String },
    /// Write the contents to the file.
    WriteFile { path: String, contents: String },
    /// End the program with this exit code.
    Exit { code: u8 },
}

pub enum ActionView {
    ReadFile { path: Seq<char> },
    LookForSchema { definition: Seq<char>, after_ms: u64, within_ms: u64 },
    Submit(RequestView),
    Fetch { namespace: Seq<char>, name: Seq<char> },
    List { namespace: Seq<char> },
    ProbeFile { path: Seq<char> },
    WriteFile { path: Seq<char>, contents: Seq<char> },
    Exit { code: u8 },
}

impl View for Action {
    type V = ActionView;

    open spec fn view(&self) -> ActionView {
        match self {
            Action::ReadFile { path } => ActionView::ReadFile { path: path@ },
            Action::LookForSchema { definition, after_ms, within_ms } => {
                ActionView::LookForSchema {
                    definition: definition@,
                    after_ms: *after_ms,
                    within_ms: *within_ms,
                }
            },
            Action::Submit(request) => ActionView::Submit(request@),
            Action::Fetch { namespace, name } => ActionView::Fetch {
                namespace: namespace@,
                name: name@,
            },
            Action::List { namespace } => ActionView::List { namespace: namespace@ },
            Action::ProbeFile { path } => ActionView::ProbeFile { path: path@ },
            Action::WriteFile { path, contents } => ActionView::WriteFile {
                path: path@,
                contents: contents@,
            },
            Action::Exit { code } => ActionView::Exit { code: *code },
        }
    }
}

impl ActionView {
    /// Whether the action talks to the control plane.
    pub open spec fn on_network(self) -> bool {
        self is LookForSchema || self is Submit || self is Fetch || self is List
    }
}

/// What happened.
#[derive(Clone, Debug, PartialEq, Eq)]
pub enum Event {
    /// The user gave a command.
    Begin(SubCommands),
    /// The file was read.
    FileContents { contents: String },
    /// The file is missing or cannot be read.
    FileUnreadable { message: String },
    /// The control plane was asked for the resource definition,
    /// `elapsed_ms` milliseconds after the first look was asked for.
    SchemaSeen { established: bool, elapsed_ms: u64 },
    /// The control plane answered a submission, or refused or failed
    /// another request.
    Answered(Reply),
    /// The control plane handed out the resource.
    Found(Resource),
    /// The control plane handed out the resources of the namespace.
    Listed(Vec<Resource>),
    /// Whether the file exists.
    Probed { exists: bool },
    /// The file was written.
    Written,
    /// The file cannot be written.
    WriteFailed { message: String },
}

pub enum EventView {
    Begin(SubCommandsView),
    FileContents { contents: Seq<char> },
    FileUnreadable { message: Seq<char> },
    SchemaSeen { established: bool, elapsed_ms: u64 },
    Answered(ReplyView),
    Found(ResourceView),
    Listed(Seq<ResourceView>),
    Probed { exists: bool },
    Written,
    WriteFailed { message: Seq<char> },
}

impl View for Event {
    type V = EventView;

    open spec fn view(&self) -> EventView {
        match self {
            Event::Begin(command) => EventView::Begin(command@),
            Event::FileContents { contents } => EventView::FileContents { contents: contents@ },
            Event::FileUnreadable { message } => EventView::FileUnreadable { message: message@ },
            Event::SchemaSeen { established, elapsed_ms } => EventView::SchemaSeen {
                established: *established,
                elapsed_ms: *elapsed_ms,
            },
            Event::Answered(reply) => EventView::Answered(reply@),
            Event::Found(resource) => EventView::Found(resource@),
            Event::Listed(resources) => EventView::Listed(resource_views(resources@)),
            Event::Probed { exists } => EventView::Probed { exists: *exists },
            Event::Written => EventView::Written,
            Event::WriteFailed { message } => EventView::WriteFailed { message: message@ },
        }
    }
}

/// What a session answers: where it stands now, what to print, what to
/// do next, and the failure if it ends with one.
#[derive(Clone, Debug, PartialEq, Eq)]
pub struct Step {
    pub phase: Phase,
    /// What the command gives out: the result of a success, or what a
    /// failure says.
    pub lines: Vec<String>,
    /// How far the command has come. This is no part of what the command
    /// gives out, and is written apart from it.
    pub notes: Vec<String>,
    pub action: Action,
    pub failure: Option<Failure>,
}

pub struct StepView {
    pub phase: PhaseView,
    pub lines: Seq<Seq<char>>,
    pub notes: Seq<Seq<char>>,
    pub action: ActionView,
    pub failure: Option<FailureView>,
}

impl View for Step {
    type V = StepView;

    open spec fn view(&self) -> StepView {
        StepView {
            phase: self.phase@,
            lines: line_views(self.lines@),
            notes: line_views(self.notes@),
            action: self.action@,
            failure: match self.failure {
                Some(f) => Some(f@),
                None => None,
            },
        }
    }
}

/// What stands in front of the outcome of the wait for the resource
/// definition.
pub const CONNECTING: &'static str =
    "Connecting to cluster and checking for required CRD definition... ";

/// The step that ends a session with a failure: the failure is printed,
/// and the exit code is its own.
pub open spec fn spec_fail(failure: FailureView) -> StepView {
    StepView {
        phase: PhaseView::Done,
        lines: seq![spec_describe(failure)],
        notes: Seq::empty(),
        action: ActionView::Exit { code: spec_exit_code(failure) },
        failure: Some(failure),
    }
}

/// The step that ends a session with a success.
pub open spec fn spec_finish(lines: Seq<Seq<char>>) -> StepView {
    StepView {
        phase: PhaseView::Done,
        lines,
        notes: Seq::empty(),
        action: ActionView::Exit { code: EXIT_SUCCESS },
        failure: None,
    }
}

/// The step that asks for a look at the resource definition. It gives
/// nothing out.
pub open spec fn spec_look(
    wait: WaitState,
    then: PendingView,
    notes: Seq<Seq<char>>,
    after_ms: u64,
    within_ms: u64,
) -> StepView {
    StepView {
        phase: PhaseView::Waiting { wait, then },
        lines: Seq::empty(),
        notes,
        action: ActionView::LookForSchema { definition: RUN_DEFINITION@, after_ms, within_ms },
        failure: None,
    }
}

/// The first step of a command.
pub open spec fn spec_begin(settings: SettingsView, command: SubCommandsView) -> StepView {
    let wait = WaitState { timeout_ms: settings.timeout_ms, delay_ms: FIRST_DELAY_MS };
    match command {
        SubCommandsView::Run { input_file } => if input_file.len() == 0 {
            spec_fail(
                FailureView::Input { path: input_file, message: "YAML file path is missing!"@ },
            )
        } else {
            StepView {
                phase: PhaseView::Reading { path: input_file },
                lines: Seq::empty(),
                notes: Seq::empty(),
                action: ActionView::ReadFile { path: input_file },
                failure: None,
            }
        },
        SubCommandsView::Status { request_name } => spec_look(
            wait,
            PendingView::Fetch { name: request_name },
            Seq::empty(),
            0,
            settings.timeout_ms,
        ),
        SubCommandsView::List => spec_look(
            wait,
            PendingView::List,
            Seq::empty(),
            0,
            settings.timeout_ms,
        ),
        SubCommandsView::Template { output_file, force_overwrite } => {
            let path = if output_file.len() == 0 {
                DEFAULT_TEMPLATE_FILE@
            } else {
                output_file
            };
            StepView {
                phase: PhaseView::Probing { path, force: force_overwrite },
                lines: Seq::empty(),
                notes: Seq::empty(),
                action: ActionView::ProbeFile { path },
                failure: None,
            }
        },
    }
}

/// The step after the input file was loaded: a document that is no
/// specification ends the session before anything is sent.
pub open spec fn spec_loaded(
    settings: SettingsView,
    path: Seq<char>,
    loaded: Result<RunSpecView, ParseErrorView>,
) -> StepView {
    match loaded {
        Err(error) => spec_fail(FailureView::Parse { path, error }),
        Ok(run) => spec_look(
            WaitState { timeout_ms: settings.timeout_ms, delay_ms: FIRST_DELAY_MS },
            PendingView::Submit(
                spec_prepare(ResourceSpecView::Run(run), settings.strategy, settings.namespace),
            ),
            seq!["Parsing YAML file at "@ + path + "... Success!"@],
            0,
            settings.timeout_ms,
        ),
    }
}

/// The step that does what the command was waiting to do. It gives
/// nothing out.
pub open spec fn spec_proceed(settings: SettingsView, then: PendingView, notes: Seq<Seq<char>>) -> StepView {
    match then {
        PendingView::Submit(request) => StepView {
            phase: PhaseView::Submitting {
                target: request.target(),
                generated: request.generated(),
                namespace: request.resource().metadata.namespace,
            },
            lines: Seq::empty(),
            notes,
            action: ActionView::Submit(request),
            failure: None,
        },
        PendingView::Fetch { name } => StepView {
            phase: PhaseView::Fetching { name },
            lines: Seq::empty(),
            notes,
            action: ActionView::Fetch { namespace: settings.namespace, name },
            failure: None,
        },
        PendingView::List => StepView {
            phase: PhaseView::Listing,
            lines: Seq::empty(),
            notes,
            action: ActionView::List { namespace: settings.namespace },
            failure: None,
        },
    }
}

/// The step after a look at the resource definition: sleep and look again,
/// go on, or give up.
pub open spec fn spec_looked(
    settings: SettingsView,
    wait: WaitState,
    then: PendingView,
    established: bool,
    elapsed_ms: u64,
) -> StepView {
    let decided = spec_wait_step(wait, established, elapsed_ms as nat);
    match decided.1 {
        WaitAction::Sleep(ms) => spec_look(
            decided.0,
            then,
            Seq::empty(),
            ms,
            (wait.timeout_ms - elapsed_ms - ms) as u64,
        ),
        WaitAction::Finish(WaitOutcome::Ready) => spec_proceed(
            settings,
            then,
            seq![CONNECTING@ + "Success!"@],
        ),
        WaitAction::Finish(WaitOutcome::TimedOut) => if settings.strict {
            spec_fail(FailureView::SchemaNotReady { definition: RUN_DEFINITION@ })
        } else {
            spec_proceed(settings, then, seq![CONNECTING@ + "Timed out!"@])
        },
    }
}

/// The step after the answer to a submission.
pub open spec fn spec_answered(
    target: Seq<char>,
    generated: bool,
    namespace: Seq<char>,
    reply: ReplyView,
) -> StepView {
    match spec_settle(target, generated, namespace, reply) {
        Ok(accepted) => spec_finish(spec_accepted_lines(accepted.name)),
        Err(failure) => spec_fail(failure),
    }
}

/// The step after a request for `name` got no resource for an answer.
pub open spec fn spec_denied(name: Seq<char>, reply: ReplyView) -> StepView {
    match reply {
        ReplyView::Refused { code, message } => spec_fail(spec_refusal(code, name, message)),
        ReplyView::Unreachable { message } => spec_fail(FailureView::Transport { name, message }),
        ReplyView::Stored { .. } => spec_fail(FailureView::OutOfTurn),
    }
}

/// The step after the output file was looked for: a file that exists is
/// left alone unless the user forces the write.
pub open spec fn spec_probed(path: Seq<char>, force: bool, exists: bool) -> StepView {
    if exists && !force {
        spec_fail(FailureView::Exists { path })
    } else {
        StepView {
            phase: PhaseView::Writing { path },
            lines: Seq::empty(),
            notes: Seq::empty(),
            action: ActionView::WriteFile { path, contents: CONFIG_YAML@ },
            failure: None,
        }
    }
}

/// The whole machine: what a session in `phase` answers to `event`.
/// `loaded` is what the contents of the input file were loaded to, where
/// the event brings them. An event that the phase did not ask for ends the
/// session.
pub open spec fn spec_step(
    settings: SettingsView,
    phase: PhaseView,
    event: EventView,
    loaded: Option<Result<RunSpecView, ParseErrorView>>,
) -> StepView {
    match (phase, event) {
        (PhaseView::Idle, EventView::Begin(command)) => spec_begin(settings, command),
        (PhaseView::Reading { path }, EventView::FileUnreadable { message }) => spec_fail(
            FailureView::Input { path, message },
        ),
        (PhaseView::Reading { path }, EventView::FileContents { .. }) => match loaded {
            Some(l) => spec_loaded(settings, path, l),
            None => spec_fail(FailureView::OutOfTurn),
        },
        (PhaseView::Waiting { wait, then }, EventView::SchemaSeen { established, elapsed_ms }) => {
            spec_looked(settings, wait, then, established, elapsed_ms)
        },
        (PhaseView::Submitting { target, generated, namespace }, EventView::Answered(reply)) => {
            spec_answered(target, generated, namespace, reply)
        },
        (PhaseView::Fetching { name }, EventView::Found(resource)) => spec_finish(
            spec_status_report(resource),
        ),
        (PhaseView::Fetching { name }, EventView::Answered(reply)) => spec_denied(name, reply),
        (PhaseView::Listing, EventView::Listed(resources)) => spec_finish(
            spec_render_list(resources),
        ),
        (PhaseView::Listing, EventView::Answered(reply)) => spec_denied(settings.namespace, reply),
        (PhaseView::Probing { path, force }, EventView::Probed { exists }) => spec_probed(
            path,
            force,
            exists,
        ),
        (PhaseView::Writing { path }, EventView::Written) => spec_finish(
            seq!["Template file copied to: \""@ + path + "\""@],
        ),
        (PhaseView::Writing { path }, EventView::WriteFailed { message }) => spec_fail(
            FailureView::Output { path, message },
        ),
        _ => spec_fail(FailureView::OutOfTurn),
    }
}

/// Ends a session with a failure.
pub fn fail(failure: Failure) -> (step: Step)
    ensures
        step@ == spec_fail(failure@),
        step.action matches Action::Exit { code } && code != EXIT_SUCCESS,
{
    let code = failure.exit_code();
    let lines = one_line(failure.describe());
    Step {
        phase: Phase::Done,
        lines,
        notes: no_lines(),
        action: Action::Exit { code },
        failure: Some(failure),
    }
}

/// Ends a session with a success.
pub fn finish(lines: Vec<String>) -> (step: Step)
    ensures
        step@ == spec_finish(line_views(lines@)),
{
    Step {
        phase: Phase::Done,
        lines,
        notes: no_lines(),
        action: Action::Exit { code: EXIT_SUCCESS },
        failure: None,
    }
}

/// Asks for a look at the resource definition.
pub fn look(
    wait: WaitState,
    then: Pending,
    notes: Vec<String>,
    after_ms: u64,
    within_ms: u64,
) -> (step: Step)
    ensures
        step@ == spec_look(wait, then@, line_views(notes@), after_ms, within_ms),
{
    Step {
        phase: Phase::Waiting { wait, then },
        lines: no_lines(),
        notes,
        action: Action::LookForSchema {
            definition: String::from_str(RUN_DEFINITION),
            after_ms,
            within_ms,
        },
        failure: None,
    }
}

/// Takes the first step of a command.
pub fn begin(settings: &Settings, command: SubCommands) -> (step: Step)
    ensures
        step@ == spec_begin(settings@, command@),
{
    let wait = begin_wait(settings.timeout_ms);
    match command {
        SubCommands::Run(args) => {
            if args.input_file.as_str().is_empty() {
                fail(
                    Failure::Input {
                        path: args.input_file,
                        message: String::from_str("YAML file path is missing!"),
                    },
                )
            } else {
                let path = args.input_file.clone();
                Step {
                    phase: Phase::Reading { path: args.input_file },
                    lines: no_lines(),
                    notes: no_lines(),
                    action: Action::ReadFile { path },
                    failure: None,
                }
            }
        },
        SubCommands::Status(args) => look(
            wait,
            Pending::Fetch { name: args.request_name },
            no_lines(),
            0,
            settings.timeout_ms,
        ),
        SubCommands::List(_) => look(wait, Pending::List, no_lines(), 0, settings.timeout_ms),
        SubCommands::Template(args) => {
            let path = if args.output_file.as_str().is_empty() {
                String::from_str(DEFAULT_TEMPLATE_FILE)
            } else {
                args.output_file
            };
            let target = path.clone();
            Step {
                phase: Phase::Probing { path, force: args.force_overwrite },
                lines: no_lines(),
                notes: no_lines(),
                action: Action::ProbeFile { path: target },
                failure: None,
            }
        },
    }
}

/// The value of what the input file was loaded to.
pub open spec fn loaded_view(loaded: Result<RunSpec, ParseError>) -> Result<
    RunSpecView,
    ParseErrorView,
> {
    match loaded {
        Ok(run) => Ok(run@),
        Err(error) => Err(error@),
    }
}

/// The value of what the input file was loaded to, where it was loaded.
pub open spec fn loading_view(loaded: Option<Result<RunSpec, ParseError>>) -> Option<
    Result<RunSpecView, ParseErrorView>,
> {
    match loaded {
        Some(l) => Some(loaded_view(l)),
        None => None,
    }
}

/// Takes the step after the input file was loaded.
pub fn after_load(settings: &Settings, path: String, loaded: Result<RunSpec, ParseError>) -> (step:
    Step)
    ensures
        step@ == spec_loaded(settings@, path@, loaded_view(loaded)),
{
    match loaded {
        Err(error) => fail(Failure::Parse { path, error }),
        Ok(run) => {
            let request = prepare(
                ResourceSpec::Run(run),
                settings.strategy.duplicate(),
                settings.namespace.clone(),
            );
            let line = String::from_str("Parsing YAML file at ").concat(path.as_str()).concat(
                "... Success!",
            );
            look(
                begin_wait(settings.timeout_ms),
                Pending::Submit(request),
                one_line(line),
                0,
                settings.timeout_ms,
            )
        },
    }
}

/// Does what the command was waiting to do.
pub fn proceed(settings: &Settings, then: Pending, notes: Vec<String>) -> (step: Step)
    ensures
        step@ == spec_proceed(settings@, then@, line_views(notes@)),
{
    match then {
        Pending::Submit(request) => {
            let target = String::from_str(request.target());
            let generated = request.generated();
            let namespace = request.resource().metadata.namespace.clone();
            Step {
                phase: Phase::Submitting { target, generated, namespace },
                lines: no_lines(),
                notes,
                action: Action::Submit(request),
                failure: None,
            }
        },
        Pending::Fetch { name } => {
            let wanted = name.clone();
            Step {
                phase: Phase::Fetching { name },
                lines: no_lines(),
                notes,
                action: Action::Fetch { namespace: settings.namespace.clone(), name: wanted },
                failure: None,
            }
        },
        Pending::List => Step {
            phase: Phase::Listing,
            lines: no_lines(),
            notes,
            action: Action::List { namespace: settings.namespace.clone() },
            failure: None,
        },
    }
}

/// Takes the step after a look at the resource definition.
pub fn after_look(
    settings: &Settings,
    wait: WaitState,
    then: Pending,
    established: bool,
    elapsed_ms: u64,
) -> (step: Step)
    ensures
        step@ == spec_looked(settings@, wait, then@, established, elapsed_ms),
{
    let decided = wait_step(wait, established, elapsed_ms);
    match decided.1 {
        WaitAction::Sleep(ms) => look(
            decided.0,
            then,
            no_lines(),
            ms,
            wait.timeout_ms - elapsed_ms - ms,
        ),
        WaitAction::Finish(WaitOutcome::Ready) => proceed(
            settings,
            then,
            one_line(String::from_str(CONNECTING).concat("Success!")),
        ),
        WaitAction::Finish(WaitOutcome::TimedOut) => {
            if settings.strict {
                fail(Failure::SchemaNotReady { definition: String::from_str(RUN_DEFINITION) })
            } else {
                proceed(settings, then, one_line(String::from_str(CONNECTING).concat("Timed out!")))
            }
        },
    }
}

/// Takes the step after the answer to a submission.
pub fn after_answer(target: String, generated: bool, namespace: String, reply: Reply) -> (step:
    Step)
    ensures
        step@ == spec_answered(target@, generated, namespace@, reply@),
{
    match settle(target.as_str(), generated, namespace, reply) {
        Ok(accepted) => finish(accepted_lines(accepted.name.as_str())),
        Err(failure) => fail(failure),
    }
}

/// Takes the step after a request for `name` got no resource for an
/// answer.
pub fn after_denial(name: &str, reply: Reply) -> (step: Step)
    ensures
        step@ == spec_denied(name@, reply@),
{
    match reply {
        Reply::Refused { code, message } => fail(refusal(code, name, message)),
        Reply::Unreachable { message } => fail(
            Failure::Transport { name: String::from_str(name), message },
        ),
        Reply::Stored { .. } => fail(Failure::OutOfTurn),
    }
}

/// Takes the step after the output file was looked for.
pub fn after_probe(path: String, force: bool, exists: bool) -> (step: Step)
    ensures
        step@ == spec_probed(path@, force, exists),
{
    if exists && !force {
        fail(Failure::Exists { path })
    } else {
        let target = path.clone();
        Step {
            phase: Phase::Writing { path },
            lines: no_lines(),
            notes: no_lines(),
            action: Action::WriteFile { path: target, contents: String::from_str(CONFIG_YAML) },
            failure: None,
        }
    }
}

/// Takes one step of a session, given what the contents of the input file
/// were loaded to where the event brings them.
pub fn step_loaded(
    settings: &Settings,
    phase: Phase,
    event: Event,
    loaded: Option<Result<RunSpec, ParseError>>,
) -> (step: Step)
    ensures
        step@ == spec_step(settings@, phase@, event@, loading_view(loaded)),
        step.action is Exit <==> step.phase is Done,
{
    match (phase, event) {
        (Phase::Idle, Event::Begin(command)) => begin(settings, command),
        (Phase::Reading { path }, Event::FileUnreadable { message }) => fail(
            Failure::Input { path, message },
        ),
        (Phase::Reading { path }, Event::FileContents { .. }) => match loaded {
            Some(l) => after_load(settings, path, l),
            None => fail(Failure::OutOfTurn),
        },
        (Phase::Waiting { wait, then }, Event::SchemaSeen { established, elapsed_ms }) => {
            after_look(settings, wait, then, established, elapsed_ms)
        },
        (Phase::Submitting { target, generated, namespace }, Event::Answered(reply)) => {
            after_answer(target, generated, namespace, reply)
        },
        (Phase::Fetching { name }, Event::Found(resource)) => finish(status_report(&resource)),
        (Phase::Fetching { name }, Event::Answered(reply)) => after_denial(name.as_str(), reply),
        (Phase::Listing, Event::Listed(resources)) => finish(render_list(&resources)),
        (Phase::Listing, Event::Answered(reply)) => after_denial(
            settings.namespace.as_str(),
            reply,
        ),
        (Phase::Probing { path, force }, Event::Probed { exists }) => after_probe(
            path,
            force,
            exists,
        ),
        (Phase::Writing { path }, Event::Written) => finish(
            one_line(String::from_str("Template file copied to: \"").concat(path.as_str()).concat("\"")),
        ),
        (Phase::Writing { path }, Event::WriteFailed { message }) => fail(
            Failure::Output { path, message },
        ),
        _ => fail(Failure::OutOfTurn),
    }
}

/// Takes one step of a session: `phase` is where it stood, `event` what
/// happened since. Where the event brings the contents of the input file,
/// they are loaded here.
pub fn step(settings: &Settings, phase: Phase, event: Event) -> (step: Step)
    ensures
        !(phase@ is Reading && event@ is FileContents) ==> step@ == spec_step(
            settings@,
            phase@,
            event@,
            None,
        ),
        phase@ is Reading ==> (event@ matches EventView::FileContents { contents } ==> (
        match yaml_document(contents) {
            Some(document) => step@ == spec_step(
                settings@,
                phase@,
                event@,
                Some(spec_run_spec(document, Seq::empty())),
            ),
            None => exists|message: Seq<char>|
                step@ == spec_step(
                    settings@,
                    phase@,
                    event@,
                    Some(Err(ParseErrorView::Syntax(message))),
                ),
        })),
        step.action is Exit <==> step.phase is Done,
{
    let loaded = match (&phase, &event) {
        (Phase::Reading { .. }, Event::FileContents { contents }) => Some(
            parse_run(contents.as_str()),
        ),
        _ => None,
    };
    let ghost before = (phase@, event@);
    let ghost what = loading_view(loaded);
    let step = step_loaded(settings, phase, event, loaded);
    proof {
        if before.0 is Reading && before.1 is FileContents {
            if yaml_document(before.1->contents) is None {
                let message = what->0->Err_0->Syntax_0;
                assert(step@ == spec_step(
                    settings@,
                    before.0,
                    before.1,
                    Some(Err(ParseErrorView::Syntax(message))),
                ));
            }
        }
    }
    step
}

/// A session ends exactly with a step to [`PhaseView::Done`]. It ends
/// with the exit code 0 exactly where it ends without a failure; with a
/// failure it prints what the failure says, and nothing else.
pub proof fn lemma_exit_tells_failure(
    settings: SettingsView,
    phase: PhaseView,
    event: EventView,
    loaded: Option<Result<RunSpecView, ParseErrorView>>,
)
    ensures
        ({
            let step = spec_step(settings, phase, event, loaded);
            &&& step.action is Exit <==> step.phase is Done
            &&& step.failure is Some ==> step == spec_fail(step.failure->0)
            &&& step.action matches ActionView::Exit { code } ==> (code == EXIT_SUCCESS
                <==> step.failure is None)
        }),
{
}

/// A session that has ended takes no further step.
pub proof fn lemma_done_is_final(
    settings: SettingsView,
    event: EventView,
    loaded: Option<Result<RunSpecView, ParseErrorView>>,
)
    ensures
        spec_step(settings, PhaseView::Done, event, loaded) == spec_fail(FailureView::OutOfTurn),
{
}

/// A run whose input file cannot be read ends with an input error and a
/// non-zero exit code, and the control plane was never called.
pub proof fn lemma_unreadable_file_makes_no_call(
    settings: SettingsView,
    path: Seq<char>,
    message: Seq<char>,
)
    requires
        path.len() > 0,
    ensures
        ({
            let first = spec_step(
                settings,
                PhaseView::Idle,
                EventView::Begin(SubCommandsView::Run { input_file: path }),
                None,
            );
            let second = spec_step(
                settings,
                first.phase,
                EventView::FileUnreadable { message },
                None,
            );
            &&& first.action == ActionView::ReadFile { path }
            &&& !first.action.on_network()
            &&& second.failure == Some(FailureView::Input { path, message })
            &&& second.action == ActionView::Exit { code: EXIT_INPUT }
            &&& !second.action.on_network()
            &&& second.phase is Done
        }),
{
}

/// Before the input file is loaded to a specification, a run calls the
/// control plane for nothing; what it first sends after that is the
/// loaded specification under a submittable identity.
pub proof fn lemma_nothing_is_sent_unloaded(
    settings: SettingsView,
    path: Seq<char>,
    event: EventView,
    loaded: Option<Result<RunSpecView, ParseErrorView>>,
)
    ensures
        ({
            let step = spec_step(settings, PhaseView::Reading { path }, event, loaded);
            &&& step.action.on_network() ==> event is FileContents && loaded is Some
                && loaded->0 is Ok
            &&& step.phase is Waiting ==> {
                let request = step.phase->then->Submit_0;
                &&& step.phase->then is Submit
                &&& loaded is Some && loaded->0 is Ok
                &&& request.resource().spec == ResourceSpecView::Run(loaded->0->Ok_0)
                &&& request.resource().metadata.submittable()
                &&& request.resource().metadata.namespace == settings.namespace
            }
        }),
{
}

/// Only the step that ends a session gives anything out: whatever is
/// printed before is a note on how far the command has come.
pub proof fn lemma_only_the_end_gives_out(
    settings: SettingsView,
    phase: PhaseView,
    event: EventView,
    loaded: Option<Result<RunSpecView, ParseErrorView>>,
)
    ensures
        !(spec_step(settings, phase, event, loaded).phase is Done) ==> spec_step(
            settings,
            phase,
            event,
            loaded,
        ).lines == Seq::<Seq<char>>::empty(),
        spec_step(settings, phase, event, loaded).phase is Done ==> spec_step(
            settings,
            phase,
            event,
            loaded,
        ).notes == Seq::<Seq<char>>::empty(),
{
}

/// A look that follows a look ends when the wait ends, at the latest: the
/// sleep before it and the time that it may take are what was left of the
/// wait.
pub proof fn lemma_look_keeps_to_the_wait(
    settings: SettingsView,
    wait: WaitState,
    then: PendingView,
    established: bool,
    elapsed_ms: u64,
)
    ensures
        spec_step(
            settings,
            PhaseView::Waiting { wait, then },
            EventView::SchemaSeen { established, elapsed_ms },
            None,
        ).action matches ActionView::LookForSchema { after_ms, within_ms, .. } ==> after_ms >= 1
            && elapsed_ms + after_ms + within_ms == wait.timeout_ms,
{
}

/// A listing of nothing gives out exactly one line, the informational
/// one, and ends with the exit code 0. This holds of the whole command:
/// of its first step, of the step after the look that saw the resource
/// definition established (or, where the session is not strict, gave up
/// on it), and of the step after the empty listing.
pub proof fn lemma_empty_listing_is_one_line(
    settings: SettingsView,
    established: bool,
    elapsed_ms: u64,
)
    requires
        established || (elapsed_ms >= settings.timeout_ms && !settings.strict),
    ensures
        ({
            let first = spec_step(
                settings,
                PhaseView::Idle,
                EventView::Begin(SubCommandsView::List),
                None,
            );
            let second = spec_step(
                settings,
                first.phase,
                EventView::SchemaSeen { established, elapsed_ms },
                None,
            );
            let third = spec_step(
                settings,
                second.phase,
                EventView::Listed(Seq::empty()),
                None,
            );
            &&& first.action is LookForSchema
            &&& second.action == ActionView::List { namespace: settings.namespace }
            &&& third.action == ActionView::Exit { code: EXIT_SUCCESS }
            &&& third.failure is None
            &&& first.lines + second.lines + third.lines == seq![NO_RUNS_LINE@]
        }),
{
    let first = spec_step(settings, PhaseView::Idle, EventView::Begin(SubCommandsView::List), None);
    let second = spec_step(
        settings,
        first.phase,
        EventView::SchemaSeen { established, elapsed_ms },
        None,
    );
    let third = spec_step(settings, second.phase, EventView::Listed(Seq::empty()), None);
    assert(first.lines + second.lines + third.lines =~= seq![NO_RUNS_LINE@]);
}

/// A run that is created under the prefix `run-` and accepted reports the
/// name of the answer, which has the form of a run's name, and ends with
/// the exit code 0.
pub proof fn lemma_created_run_reports_its_name(
    settings: SettingsView,
    namespace: Seq<char>,
    reply: ReplyView,
)
    requires
        spec_settle(NAME_PREFIX@, true, namespace, reply) is Ok,
    ensures
        ({
            let step = spec_step(
                settings,
                PhaseView::Submitting { target: NAME_PREFIX@, generated: true, namespace },
                EventView::Answered(reply),
                None,
            );
            let name = reply->Stored_name->0;
            &&& reply is Stored && reply->Stored_name is Some
            &&& spec_valid_name(name)
            &&& step.lines == spec_accepted_lines(name)
            &&& step.action == ActionView::Exit { code: EXIT_SUCCESS }
            &&& step.failure is None
        }),
{
}

} // verus!
