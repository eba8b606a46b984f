use execd::cli::{
    Arguments, ListCommandArgs, RunCommandArgs, StatusCommandArgs, SubCommands,
    TemplateCommandArgs, CONFIG_YAML,
};
use execd::cluster::Cluster;
use execd::failure::Failure;
use execd::identity::is_valid_name;
use execd::loader::{parse_run, ParseError};
use execd::model::ResourceSpec;
use execd::session::{step, step_loaded, Action, Event, Phase, Settings, Step};
use execd::submission::{Reply, Request, SubmissionStrategy};
use execd::waiter::WaitState;

fn s(text: &str) -> String {
    text.to_string()
}

fn settings() -> Settings {
    Settings {
        namespace: s("execdev"),
        strategy: SubmissionStrategy::CreateWithGeneratedName { prefix: s("run-") },
        timeout_ms: 10_000,
        strict: false,
    }
}

/// Everything outside the library that a session deals with.
struct World {
    files: Vec<(String, String)>,
    cluster: Cluster,
    established_at_ms: Option<u64>,
    unreachable: bool,
    clock_ms: u64,
    calls: Vec<String>,
    printed: Vec<String>,
    noted: Vec<String>,
    suffix: String,
}

impl World {
    fn new() -> World {
        World {
            files: Vec::new(),
            cluster: Cluster::new(),
            established_at_ms: Some(0),
            unreachable: false,
            clock_ms: 0,
            calls: Vec::new(),
            printed: Vec::new(),
            noted: Vec::new(),
            suffix: s("x7k2p"),
        }
    }

    fn file(&self, path: &str) -> Option<String> {
        self.files.iter().find(|(p, _)| p == path).map(|(_, c)| c.clone())
    }

    fn perform(&mut self, action: Action) -> Event {
        match action {
            Action::Exit { .. } => unreachable!(),
            Action::ReadFile { path } => match self.file(&path) {
                Some(contents) => Event::FileContents { contents },
                None => Event::FileUnreadable { message: s("No such file or directory") },
            },
            Action::ProbeFile { path } => Event::Probed { exists: self.file(&path).is_some() },
            Action::WriteFile { path, contents } => {
                self.files.retain(|(p, _)| *p != path);
                self.files.push((path, contents));
                Event::Written
            }
            Action::LookForSchema { definition, after_ms, within_ms } => {
                self.calls.push(format!("look {}", definition));
                self.clock_ms += after_ms;
                assert!(self.clock_ms + within_ms <= 10_000);
                let established = match self.established_at_ms {
                    Some(at) => self.clock_ms >= at,
                    None => false,
                };
                Event::SchemaSeen { established, elapsed_ms: self.clock_ms }
            }
            Action::Submit(request) => {
                self.calls.push(s("submit"));
                if self.unreachable {
                    return Event::Answered(Reply::Unreachable { message: s("connection refused") });
                }
                Event::Answered(self.cluster.submit(request, &self.suffix, "2024-01-01T00:00:00Z"))
            }
            Action::Fetch { namespace, name } => {
                self.calls.push(format!("fetch {}/{}", namespace, name));
                match self.cluster.fetch(&namespace, &name) {
                    Some(resource) => Event::Found(resource.clone()),
                    None => Event::Answered(Reply::Refused {
                        code: 404,
                        message: format!("runs.task.execd.at \"{}\" not found", name),
                    }),
                }
            }
            Action::List { namespace } => {
                self.calls.push(format!("list {}", namespace));
                Event::Listed(self.cluster.list(&namespace).into_iter().cloned().collect())
            }
        }
    }

    fn run(&mut self, settings: &Settings, arguments: Arguments) -> (u8, Option<Failure>) {
        let mut taken = step(settings, Phase::Idle, Event::Begin(arguments.subcommand));
        loop {
            self.printed.append(&mut taken.lines);
            self.noted.append(&mut taken.notes);
            if let Action::Exit { code } = taken.action {
                assert_eq!(taken.phase, Phase::Done);
                return (code, taken.failure);
            }
            let event = self.perform(taken.action);
            taken = step(settings, taken.phase, event);
        }
    }
}

fn run_command(path: &str) -> Arguments {
    Arguments { subcommand: SubCommands::Run(RunCommandArgs { input_file: s(path) }) }
}

fn status_command(name: &str) -> Arguments {
    Arguments { subcommand: SubCommands::Status(StatusCommandArgs { request_name: s(name) }) }
}

fn list_command() -> Arguments {
    Arguments { subcommand: SubCommands::List(ListCommandArgs {}) }
}

fn template_command(output: &str, force: bool) -> Arguments {
    Arguments {
        subcommand: SubCommands::Template(TemplateCommandArgs {
            output_file: s(output),
            force_overwrite: force,
        }),
    }
}

const SCENARIO: &str = "build:\n  baseimage: \"python:latest\"\n  sourcecode:\n    url: \"https://example.org/repo\"\n    entrypoint: python\noutputdata:\n  datapath: \"/data/output\"\n  url: \"https://example.org/out\"\n";

#[test]
fn successful_run_is_created_and_found_again() {
    let mut world = World::new();
    world.files.push((s("run.yaml"), s(SCENARIO)));
    let (code, failure) = world.run(&settings(), run_command("run.yaml"));
    assert_eq!((code, failure), (0, None));
    assert_eq!(
        world.noted,
        vec![
            s("Parsing YAML file at run.yaml... Success!"),
            s("Connecting to cluster and checking for required CRD definition... Success!"),
        ]
    );
    assert_eq!(
        world.printed,
        vec![
            s("Applying run... Success!"),
            s(""),
            s("The ID of you run is 'run-x7k2p'. You can get its status by running the 'execd status <REQUEST_ID>' command."),
            s("See 'execd status --help' for more information."),
        ]
    );
    assert_eq!(world.calls, vec![s("look runs.task.execd.at"), s("submit")]);
    assert!(is_valid_name("run-x7k2p"));
    assert_eq!(world.cluster.count(), 1);

    let submitted = parse_run(SCENARIO).unwrap();
    assert_eq!(submitted.build.base_image, "python:latest");
    assert_eq!(submitted.build.source_code.entrypoint, "python");
    assert_eq!(submitted.output_data.data_path, "/data/output");
    let stored = world.cluster.fetch("execdev", "run-x7k2p").unwrap();
    assert_eq!(stored.spec, ResourceSpec::Run(submitted));

    world.printed.clear();
    world.noted.clear();
    let (code, failure) = world.run(&settings(), status_command("run-x7k2p"));
    assert_eq!((code, failure), (0, None));
    assert_eq!(
        world.noted,
        vec![s("Connecting to cluster and checking for required CRD definition... Success!")]
    );
    assert_eq!(
        world.printed,
        vec![
            s("Name: run-x7k2p"),
            s("Namespace: execdev"),
            s("Created: 2024-01-01T00:00:00Z"),
            s("Phase: "),
            s("Description: "),
            s("Base Image: python:latest"),
            s("Description: "),
            s("Source Code URL: https://example.org/repo"),
            s("Source Code Branch: "),
            s("Dependencies:"),
            s("Entrypoint: python"),
            s("Output Data URL: https://example.org/out"),
            s("Output Data Path: /data/output"),
        ]
    );
}

#[test]
fn missing_file_is_an_input_error_without_a_network_call() {
    let mut world = World::new();
    let (code, failure) = world.run(&settings(), run_command("nonexistent.yaml"));
    assert_eq!(code, 2);
    assert_eq!(
        failure,
        Some(Failure::Input { path: s("nonexistent.yaml"), message: s("No such file or directory") })
    );
    assert_eq!(world.printed, vec![s("cannot read 'nonexistent.yaml': No such file or directory")]);
    assert!(world.calls.is_empty());
    assert_eq!(world.cluster.count(), 0);
}

#[test]
fn missing_path_is_an_input_error() {
    let mut world = World::new();
    let (code, failure) = world.run(&settings(), run_command(""));
    assert_eq!(code, 2);
    assert_eq!(
        failure,
        Some(Failure::Input { path: s(""), message: s("YAML file path is missing!") })
    );
    assert!(world.calls.is_empty());
}

#[test]
fn broken_specification_ends_before_anything_is_sent() {
    let mut world = World::new();
    world.files.push((s("run.yaml"), s("build:\n  baseimage: b\n")));
    let (code, failure) = world.run(&settings(), run_command("run.yaml"));
    assert_eq!(code, 2);
    assert_eq!(
        failure,
        Some(Failure::Parse {
            path: s("run.yaml"),
            error: ParseError::Missing(s("build.sourcecode")),
        })
    );
    assert_eq!(
        world.printed,
        vec![s("'run.yaml' is no specification: missing field 'build.sourcecode'")]
    );
    assert!(world.calls.is_empty());

    world.files.push((s("bad.yaml"), s("a: [")));
    let (code, failure) = world.run(&settings(), run_command("bad.yaml"));
    assert_eq!(code, 2);
    assert!(matches!(
        failure,
        Some(Failure::Parse { error: ParseError::Syntax(_), .. })
    ));
    assert!(world.calls.is_empty());
}

#[test]
fn empty_listing_prints_one_line_and_succeeds() {
    let mut world = World::new();
    let (code, failure) = world.run(&settings(), list_command());
    assert_eq!((code, failure), (0, None));
    assert_eq!(world.printed, vec![s("No runs found.")]);
    assert_eq!(
        world.noted,
        vec![s("Connecting to cluster and checking for required CRD definition... Success!")]
    );
    assert_eq!(world.calls, vec![s("look runs.task.execd.at"), s("list execdev")]);
}

#[test]
fn listing_prints_the_table() {
    let mut world = World::new();
    world.files.push((s("template.yaml"), s(CONFIG_YAML)));
    assert_eq!(world.run(&settings(), run_command("template.yaml")).0, 0);
    world.printed.clear();
    let (code, _) = world.run(&settings(), list_command());
    assert_eq!(code, 0);
    assert_eq!(
        world.printed,
        vec![
            format!("{:<15} {:<25} {:<40}", "NAME", "CREATED", "DESCRIPTION"),
            format!("{:<15} {:<25} {:<40}", "run-x7k2p", "2024-01-01T00:00:00Z", "default run"),
        ]
    );
}

#[test]
fn status_of_an_unknown_name_is_not_found() {
    let mut world = World::new();
    let (code, failure) = world.run(&settings(), status_command("run-none"));
    assert_eq!(code, 3);
    assert_eq!(
        failure,
        Some(Failure::NotFound {
            name: s("run-none"),
            message: s("runs.task.execd.at \"run-none\" not found"),
        })
    );
    assert_eq!(
        world.printed,
        vec![s("'run-none' was not found: runs.task.execd.at \"run-none\" not found")]
    );
}

#[test]
fn applying_the_same_run_twice_leaves_one_resource() {
    let mut world = World::new();
    world.files.push((s("run.yaml"), s(SCENARIO)));
    let applying = Settings {
        strategy: SubmissionStrategy::ApplyWithClientName { name: s("run-mine") },
        ..settings()
    };
    assert_eq!(world.run(&applying, run_command("run.yaml")), (0, None));
    assert_eq!(world.run(&applying, run_command("run.yaml")), (0, None));
    assert_eq!(world.cluster.count(), 1);
    assert!(world.printed.contains(&s(
        "The ID of you run is 'run-mine'. You can get its status by running the 'execd status <REQUEST_ID>' command."
    )));
}

#[test]
fn colliding_generated_name_is_a_conflict() {
    let mut world = World::new();
    world.files.push((s("run.yaml"), s(SCENARIO)));
    assert_eq!(world.run(&settings(), run_command("run.yaml")).0, 0);
    let (code, failure) = world.run(&settings(), run_command("run.yaml"));
    assert_eq!(code, 4);
    assert_eq!(
        failure,
        Some(Failure::Conflict { name: s("run-"), message: s("the name is taken") })
    );
    assert_eq!(world.cluster.count(), 1);
}

#[test]
fn run_against_an_unreachable_control_plane_fails() {
    let mut world = World::new();
    world.unreachable = true;
    world.files.push((s("run.yaml"), s(SCENARIO)));
    let (code, failure) = world.run(&settings(), run_command("run.yaml"));
    assert_eq!(code, 4);
    assert_eq!(
        failure,
        Some(Failure::Transport { name: s("run-"), message: s("connection refused") })
    );
    assert_eq!(world.printed, vec![s("the control plane failed for 'run-': connection refused")]);
}

#[test]
fn schema_that_comes_late_is_waited_for() {
    let mut world = World::new();
    world.established_at_ms = Some(650);
    let (code, _) = world.run(&settings(), list_command());
    assert_eq!(code, 0);
    assert_eq!(world.clock_ms, 700);
    assert_eq!(world.calls.len(), 5);
}

#[test]
fn schema_that_never_comes_times_out_at_the_timeout() {
    let mut world = World::new();
    world.established_at_ms = None;
    let strict = Settings { strict: true, ..settings() };
    let (code, failure) = world.run(&strict, list_command());
    assert_eq!(code, 4);
    assert_eq!(failure, Some(Failure::SchemaNotReady { definition: s("runs.task.execd.at") }));
    assert_eq!(world.clock_ms, 10_000);
    assert_eq!(
        world.printed,
        vec![s("the resource definition 'runs.task.execd.at' is not established")]
    );
    assert!(!world.calls.contains(&s("list execdev")));
}

#[test]
fn lenient_session_says_so_and_goes_on_after_the_timeout() {
    let mut world = World::new();
    world.established_at_ms = None;
    let (code, failure) = world.run(&settings(), list_command());
    assert_eq!((code, failure), (0, None));
    assert_eq!(world.printed, vec![s("No runs found.")]);
    assert_eq!(
        world.noted,
        vec![s("Connecting to cluster and checking for required CRD definition... Timed out!")]
    );
    assert_eq!(world.clock_ms, 10_000);
}

#[test]
fn test_basic_template_command_generates_default_output() {
    let mut world = World::new();
    let (code, failure) = world.run(&settings(), template_command("", false));
    assert!(failure.is_none());
    assert_eq!(code, 0);
    let copied_content = world.file("specs-template.yaml").unwrap();
    assert_eq!(copied_content, CONFIG_YAML);
    assert_eq!(world.printed, vec![s("Template file copied to: \"specs-template.yaml\"")]);
    assert!(world.calls.is_empty());
}

#[test]
fn test_output_file_exists_fails_without_force_overwrite() {
    let mut world = World::new();
    world.files.push((s("existing_output.yaml"), s("Existing content")));
    let (code, failure) = world.run(&settings(), template_command("existing_output.yaml", false));
    assert!(failure.is_some());
    assert_eq!(
        failure.unwrap().describe(),
        "Output file already exists. Use --force to overwrite."
    );
    assert_eq!(code, 1);
    assert_eq!(world.file("existing_output.yaml").unwrap(), "Existing content");
    assert_eq!(world.printed, vec![s("Output file already exists. Use --force to overwrite.")]);
}

#[test]
fn test_output_file_succeeds_with_force_overwrite() {
    let mut world = World::new();
    world.files.push((s("new_output.yaml"), s("Existing content")));
    let (code, failure) = world.run(&settings(), template_command("new_output.yaml", true));
    assert!(failure.is_none());
    assert_eq!(code, 0);
    let copied_content = world.file("new_output.yaml").unwrap();
    assert_eq!(copied_content, CONFIG_YAML);
}

#[test]
fn template_that_cannot_be_written_is_a_failure() {
    let taken = step(
        &settings(),
        Phase::Writing { path: s("out.yaml") },
        Event::WriteFailed { message: s("Permission denied") },
    );
    assert_eq!(taken.action, Action::Exit { code: 2 });
    assert_eq!(
        taken.failure,
        Some(Failure::Output { path: s("out.yaml"), message: s("Permission denied") })
    );
    assert_eq!(taken.lines, vec![s("Failed to copy template file: Permission denied")]);
}

#[test]
fn event_out_of_turn_ends_the_session() {
    let expected = Step {
        phase: Phase::Done,
        lines: vec![s("an answer came that was not asked for")],
        notes: vec![],
        action: Action::Exit { code: 1 },
        failure: Some(Failure::OutOfTurn),
    };
    assert_eq!(step(&settings(), Phase::Done, Event::Written), expected);
    assert_eq!(step(&settings(), Phase::Idle, Event::Probed { exists: true }), expected);
    assert_eq!(
        step(&settings(), Phase::Listing, Event::FileContents { contents: s(SCENARIO) }),
        expected
    );
    assert_eq!(
        step(
            &settings(),
            Phase::Fetching { name: s("a") },
            Event::Answered(Reply::Stored { name: None, namespace: None })
        ),
        expected
    );
    assert_eq!(
        step_loaded(
            &settings(),
            Phase::Reading { path: s("a") },
            Event::FileContents { contents: s(SCENARIO) },
            None
        ),
        expected
    );
}

#[test]
fn loaded_specification_is_what_is_submitted() {
    let loaded = parse_run(SCENARIO).unwrap();
    let taken = step_loaded(
        &settings(),
        Phase::Reading { path: s("run.yaml") },
        Event::FileContents { contents: s("") },
        Some(Ok(loaded.clone())),
    );
    assert_eq!(
        taken.action,
        Action::LookForSchema {
            definition: s("runs.task.execd.at"),
            after_ms: 0,
            within_ms: 10_000,
        }
    );
    assert!(taken.failure.is_none());
    assert!(taken.lines.is_empty());
    assert_eq!(taken.notes, vec![s("Parsing YAML file at run.yaml... Success!")]);
    let (wait, then) = match taken.phase {
        Phase::Waiting { wait, then } => (wait, then),
        other => panic!("{:?}", other),
    };
    assert_eq!(wait, WaitState { timeout_ms: 10_000, delay_ms: 100 });
    let sent = step(
        &settings(),
        Phase::Waiting { wait, then },
        Event::SchemaSeen { established: true, elapsed_ms: 5 },
    );
    assert_eq!(
        sent.phase,
        Phase::Submitting { target: s("run-"), generated: true, namespace: s("execdev") }
    );
    assert!(sent.lines.is_empty());
    match sent.action {
        Action::Submit(Request::Create(resource)) => {
            assert_eq!(resource.spec, ResourceSpec::Run(loaded));
            assert_eq!(resource.metadata.name, None);
            assert_eq!(resource.metadata.generate_name, Some(s("run-")));
            assert_eq!(resource.metadata.namespace, "execdev");
        }
        other => panic!("{:?}", other),
    }
}

#[test]
fn look_after_a_sleep_gets_what_is_left_of_the_wait() {
    let begun = step(
        &settings(),
        Phase::Idle,
        Event::Begin(SubCommands::List(ListCommandArgs {})),
    );
    let again = step(
        &settings(),
        begun.phase,
        Event::SchemaSeen { established: false, elapsed_ms: 40 },
    );
    assert_eq!(
        again.action,
        Action::LookForSchema {
            definition: s("runs.task.execd.at"),
            after_ms: 100,
            within_ms: 9_860,
        }
    );
    let last = step(
        &settings(),
        again.phase,
        Event::SchemaSeen { established: false, elapsed_ms: 9_900 },
    );
    assert_eq!(
        last.action,
        Action::LookForSchema { definition: s("runs.task.execd.at"), after_ms: 100, within_ms: 0 }
    );
    assert!(again.lines.is_empty() && again.notes.is_empty());
}

#[test]
fn answer_with_a_name_of_another_form_is_a_failure() {
    let taken = step(
        &settings(),
        Phase::Submitting { target: s("run-"), generated: true, namespace: s("execdev") },
        Event::Answered(Reply::Stored { name: Some(s("Run_1")), namespace: None }),
    );
    assert_eq!(taken.action, Action::Exit { code: 4 });
    assert_eq!(
        taken.failure,
        Some(Failure::Transport {
            name: s("run-"),
            message: s("the control plane returned the name 'Run_1'"),
        })
    );
    let fine = step(
        &settings(),
        Phase::Submitting { target: s("run-"), generated: true, namespace: s("execdev") },
        Event::Answered(Reply::Stored { name: Some(s("run-b4x9q")), namespace: None }),
    );
    assert_eq!(fine.action, Action::Exit { code: 0 });
    assert!(is_valid_name("run-b4x9q"));
    assert_eq!(fine.lines[2], "The ID of you run is 'run-b4x9q'. You can get its status by running the 'execd status <REQUEST_ID>' command.");
}

#[test]
fn listing_that_is_refused_names_the_namespace() {
    let taken = step(
        &settings(),
        Phase::Listing,
        Event::Answered(Reply::Refused { code: 403, message: s("forbidden") }),
    );
    assert_eq!(taken.action, Action::Exit { code: 4 });
    assert_eq!(
        taken.failure,
        Some(Failure::Transport { name: s("execdev"), message: s("forbidden") })
    );
    let gone = step(
        &settings(),
        Phase::Listing,
        Event::Answered(Reply::Refused { code: 404, message: s("no such kind") }),
    );
    assert_eq!(
        gone.failure,
        Some(Failure::NotFound { name: s("execdev"), message: s("no such kind") })
    );
}
