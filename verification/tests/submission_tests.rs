use execd::cluster::Cluster;
use execd::failure::Failure;
use execd::model::{
    BuildSpec, OutputDataSpec, Resource, ResourceSpec, RunMetadata, RunSpec, SourceCode,
};
use execd::submission::{
    choose_strategy, fits, prepare, refusal, settle, Accepted, Reply, Request, SubmissionStrategy,
    DEFAULT_NAMESPACE, FIELD_MANAGER, RUN_DEFINITION,
};

fn s(text: &str) -> String {
    text.to_string()
}

fn run(description: &str) -> ResourceSpec {
    ResourceSpec::Run(RunSpec {
        build: BuildSpec {
            base_image: s("python:latest"),
            description: None,
            source_code: SourceCode {
                branch: None,
                build_command: None,
                commit: None,
                dependencies: None,
                dependency_command: None,
                entrypoint: s("python"),
                url: s("https://example.org/repo"),
            },
        },
        output_data: OutputDataSpec { data_path: s("/data/output"), url: s("https://example.org") },
        input_data: None,
        description: Some(s(description)),
    })
}

fn create() -> SubmissionStrategy {
    SubmissionStrategy::CreateWithGeneratedName { prefix: s("run-") }
}

fn apply(name: &str) -> SubmissionStrategy {
    SubmissionStrategy::ApplyWithClientName { name: s(name) }
}

#[test]
fn names_of_the_protocol() {
    assert_eq!(FIELD_MANAGER, "execd");
    assert_eq!(RUN_DEFINITION, "runs.task.execd.at");
    assert_eq!(DEFAULT_NAMESPACE, "execdev");
}

#[test]
fn create_sends_a_prefix_and_no_name() {
    let request = prepare(run("a"), create(), s("execdev"));
    assert_eq!(
        request,
        Request::Create(Resource {
            metadata: RunMetadata {
                name: None,
                generate_name: Some(s("run-")),
                namespace: s("execdev"),
                creation_timestamp: None,
            },
            spec: run("a"),
            status: None,
        })
    );
    assert_eq!(request.target(), "run-");
    assert_eq!(request.resource().spec, run("a"));
}

#[test]
fn apply_sends_the_name_and_no_prefix() {
    let request = prepare(run("a"), apply("run-mine"), s("ns"));
    assert_eq!(
        request,
        Request::Apply(Resource {
            metadata: RunMetadata {
                name: Some(s("run-mine")),
                generate_name: None,
                namespace: s("ns"),
                creation_timestamp: None,
            },
            spec: run("a"),
            status: None,
        })
    );
    assert_eq!(request.target(), "run-mine");
}

#[test]
fn strategies_are_duplicated_as_they_are() {
    assert_eq!(create().duplicate(), create());
    assert_eq!(apply("run-mine").duplicate(), apply("run-mine"));
}

#[test]
fn stored_resource_is_accepted_under_its_name() {
    let reply = Reply::Stored { name: Some(s("run-x7k2p")), namespace: Some(s("other")) };
    assert_eq!(
        settle("run-", true, s("execdev"), reply),
        Ok(Accepted { name: s("run-x7k2p"), namespace: s("other") })
    );
    let reply = Reply::Stored { name: Some(s("run-x7k2p")), namespace: None };
    assert_eq!(
        settle("run-", true, s("execdev"), reply),
        Ok(Accepted { name: s("run-x7k2p"), namespace: s("execdev") })
    );
}

#[test]
fn generated_name_has_to_go_on_from_the_prefix() {
    let stored = |name: &str| Reply::Stored { name: Some(s(name)), namespace: None };
    let accepted = |name: &str| Ok(Accepted { name: s(name), namespace: s("ns") });
    let refused = |name: &str| {
        Err(Failure::Transport {
            name: s("run-"),
            message: format!("the control plane returned the name '{}'", name),
        })
    };
    assert_eq!(settle("run-", true, s("ns"), stored("run-a")), accepted("run-a"));
    assert_eq!(settle("run-", true, s("ns"), stored("run-a-0z")), accepted("run-a-0z"));
    assert_eq!(settle("run-", true, s("ns"), stored("run-")), refused("run-"));
    assert_eq!(settle("run-", true, s("ns"), stored("job-abc")), refused("job-abc"));
    assert_eq!(settle("run-", true, s("ns"), stored("run-ABC")), refused("run-ABC"));
    assert_eq!(settle("run-", true, s("ns"), stored("ru")), refused("ru"));
    assert_eq!(settle("", true, s("ns"), stored("abc")), accepted("abc"));
    assert!(fits("build-", true, "build-7"));
    assert!(!fits("build-", true, "build_7"));
}

#[test]
fn applied_name_has_to_be_the_name_that_was_sent() {
    let stored = |name: &str| Reply::Stored { name: Some(s(name)), namespace: None };
    assert_eq!(
        settle("My.Run", false, s("ns"), stored("My.Run")),
        Ok(Accepted { name: s("My.Run"), namespace: s("ns") })
    );
    assert_eq!(
        settle("run-mine", false, s("ns"), stored("run-mine-2")),
        Err(Failure::Transport {
            name: s("run-mine"),
            message: s("the control plane returned the name 'run-mine-2'"),
        })
    );
    assert!(fits("run-mine", false, "run-mine"));
    assert!(!fits("run-mine", false, "run-min"));
}

#[test]
fn strategy_follows_what_the_user_asked_for() {
    assert_eq!(choose_strategy(None, false, s("run-drawn000")), create());
    assert_eq!(choose_strategy(None, true, s("run-drawn000")), apply("run-drawn000"));
    assert_eq!(choose_strategy(Some(s("run-mine")), false, s("run-drawn000")), apply("run-mine"));
    assert_eq!(choose_strategy(Some(s("run-mine")), true, s("run-drawn000")), apply("run-mine"));
}

#[test]
fn requests_know_who_makes_the_name() {
    assert!(prepare(run("a"), create(), s("ns")).generated());
    assert!(!prepare(run("a"), apply("run-mine"), s("ns")).generated());
}

#[test]
fn answer_without_a_name_is_a_failure() {
    let reply = Reply::Stored { name: None, namespace: Some(s("execdev")) };
    assert_eq!(
        settle("run-", true, s("execdev"), reply),
        Err(Failure::Transport {
            name: s("run-"),
            message: s("the control plane returned no name"),
        })
    );
}

#[test]
fn error_statuses_are_told_apart() {
    let refused =
        |code: u16| settle("run-a", false, s("ns"), Reply::Refused { code, message: s("m") });
    assert_eq!(refused(409), Err(Failure::Conflict { name: s("run-a"), message: s("m") }));
    assert_eq!(refused(404), Err(Failure::NotFound { name: s("run-a"), message: s("m") }));
    assert_eq!(refused(400), Err(Failure::Validation { name: s("run-a"), message: s("m") }));
    assert_eq!(refused(422), Err(Failure::Validation { name: s("run-a"), message: s("m") }));
    assert_eq!(refused(401), Err(Failure::Transport { name: s("run-a"), message: s("m") }));
    assert_eq!(refused(403), Err(Failure::Transport { name: s("run-a"), message: s("m") }));
    assert_eq!(refused(500), Err(Failure::Transport { name: s("run-a"), message: s("m") }));
    assert_eq!(refused(503), Err(Failure::Transport { name: s("run-a"), message: s("m") }));
    assert_eq!(refusal(409, "n", s("m")), Failure::Conflict { name: s("n"), message: s("m") });
}

#[test]
fn unreachable_control_plane_is_a_transport_failure() {
    assert_eq!(
        settle("run-", true, s("ns"), Reply::Unreachable { message: s("connection refused") }),
        Err(Failure::Transport { name: s("run-"), message: s("connection refused") })
    );
}

#[test]
fn created_run_is_found_with_its_specification() {
    let mut cluster = Cluster::new();
    let reply = cluster.submit(prepare(run("a"), create(), s("execdev")), "x7k2p", "t0");
    assert_eq!(reply, Reply::Stored { name: Some(s("run-x7k2p")), namespace: Some(s("execdev")) });
    assert_eq!(cluster.count(), 1);
    let found = cluster.fetch("execdev", "run-x7k2p").unwrap();
    assert_eq!(found.spec, run("a"));
    assert_eq!(found.metadata.name, Some(s("run-x7k2p")));
    assert_eq!(found.metadata.generate_name, Some(s("run-")));
    assert_eq!(found.metadata.creation_timestamp, Some(s("t0")));
    assert_eq!(found.status, None);
    assert!(cluster.fetch("execdev", "run-other").is_none());
    assert!(cluster.fetch("elsewhere", "run-x7k2p").is_none());
}

#[test]
fn applying_twice_leaves_one_resource_with_the_last_specification() {
    let mut cluster = Cluster::new();
    cluster.submit(prepare(run("other"), apply("run-other"), s("ns")), "", "t0");
    let first = cluster.submit(prepare(run("first"), apply("run-mine"), s("ns")), "", "t1");
    assert_eq!(first, Reply::Stored { name: Some(s("run-mine")), namespace: Some(s("ns")) });
    assert_eq!(cluster.count(), 2);
    let second = cluster.submit(prepare(run("second"), apply("run-mine"), s("ns")), "", "t2");
    assert_eq!(second, first);
    assert_eq!(cluster.count(), 2);
    let found = cluster.fetch("ns", "run-mine").unwrap();
    assert_eq!(found.spec, run("second"));
    assert_eq!(found.metadata.creation_timestamp, Some(s("t1")));
    assert_eq!(cluster.fetch("ns", "run-other").unwrap().spec, run("other"));
    let names: Vec<Option<String>> =
        cluster.list("ns").iter().map(|r| r.metadata.name.clone()).collect();
    assert_eq!(names, vec![Some(s("run-other")), Some(s("run-mine"))]);
}

#[test]
fn applying_the_same_specification_twice_changes_nothing() {
    let mut cluster = Cluster::new();
    cluster.submit(prepare(run("same"), apply("run-mine"), s("ns")), "", "t1");
    let before: Vec<Resource> = cluster.list("ns").into_iter().cloned().collect();
    cluster.submit(prepare(run("same"), apply("run-mine"), s("ns")), "", "t2");
    let after: Vec<Resource> = cluster.list("ns").into_iter().cloned().collect();
    assert_eq!(before, after);
    assert_eq!(cluster.count(), 1);
}

#[test]
fn taken_generated_name_is_a_conflict_and_overwrites_nothing() {
    let mut cluster = Cluster::new();
    cluster.submit(prepare(run("first"), create(), s("ns")), "aaaaa", "t1");
    let reply = cluster.submit(prepare(run("second"), create(), s("ns")), "aaaaa", "t2");
    assert_eq!(reply, Reply::Refused { code: 409, message: s("the name is taken") });
    assert_eq!(cluster.count(), 1);
    assert_eq!(cluster.fetch("ns", "run-aaaaa").unwrap().spec, run("first"));
    assert_eq!(
        settle("run-", true, s("ns"), reply),
        Err(Failure::Conflict { name: s("run-"), message: s("the name is taken") })
    );
    let elsewhere = cluster.submit(prepare(run("third"), create(), s("other")), "aaaaa", "t3");
    assert_eq!(elsewhere, Reply::Stored { name: Some(s("run-aaaaa")), namespace: Some(s("other")) });
    assert_eq!(cluster.count(), 2);
}

#[test]
fn apply_without_a_name_is_refused() {
    let mut cluster = Cluster::new();
    let nameless = Request::Apply(Resource {
        metadata: RunMetadata {
            name: None,
            generate_name: None,
            namespace: s("ns"),
            creation_timestamp: None,
        },
        spec: run("a"),
        status: None,
    });
    assert_eq!(
        cluster.submit(nameless, "", "t"),
        Reply::Refused { code: 422, message: s("a name is required") }
    );
    assert_eq!(cluster.count(), 0);
}

#[test]
fn listing_keeps_to_the_namespace_and_the_order() {
    let mut cluster = Cluster::new();
    assert!(cluster.list("ns").is_empty());
    cluster.submit(prepare(run("1"), create(), s("ns")), "a", "t1");
    cluster.submit(prepare(run("2"), create(), s("other")), "b", "t2");
    cluster.submit(prepare(run("3"), create(), s("ns")), "c", "t3");
    let names: Vec<Option<String>> =
        cluster.list("ns").iter().map(|r| r.metadata.name.clone()).collect();
    assert_eq!(names, vec![Some(s("run-a")), Some(s("run-c"))]);
    assert_eq!(cluster.list("other").len(), 1);
    assert!(cluster.list("empty").is_empty());
}
