use execd::failure::{describe_parse, Failure};
use execd::loader::ParseError;

fn s(text: &str) -> String {
    text.to_string()
}

#[test]
fn exit_codes_tell_the_kind_of_failure() {
    assert_eq!(Failure::Input { path: s("a"), message: s("m") }.exit_code(), 2);
    assert_eq!(Failure::Parse { path: s("a"), error: ParseError::Missing(s("x")) }.exit_code(), 2);
    assert_eq!(Failure::Output { path: s("a"), message: s("m") }.exit_code(), 2);
    assert_eq!(Failure::NotFound { name: s("a"), message: s("m") }.exit_code(), 3);
    assert_eq!(Failure::SchemaNotReady { definition: s("d") }.exit_code(), 4);
    assert_eq!(Failure::Conflict { name: s("a"), message: s("m") }.exit_code(), 4);
    assert_eq!(Failure::Transport { name: s("a"), message: s("m") }.exit_code(), 4);
    assert_eq!(Failure::Validation { name: s("a"), message: s("m") }.exit_code(), 4);
    assert_eq!(Failure::Exists { path: s("a") }.exit_code(), 1);
    assert_eq!(Failure::OutOfTurn.exit_code(), 1);
}

#[test]
fn failures_say_what_failed_and_where() {
    assert_eq!(
        Failure::Input { path: s("run.yaml"), message: s("No such file") }.describe(),
        "cannot read 'run.yaml': No such file"
    );
    assert_eq!(
        Failure::Parse { path: s("run.yaml"), error: ParseError::Missing(s("build.baseimage")) }
            .describe(),
        "'run.yaml' is no specification: missing field 'build.baseimage'"
    );
    assert_eq!(
        Failure::SchemaNotReady { definition: s("runs.task.execd.at") }.describe(),
        "the resource definition 'runs.task.execd.at' is not established"
    );
    assert_eq!(
        Failure::Conflict { name: s("run-a"), message: s("exists") }.describe(),
        "'run-a' exists already: exists"
    );
    assert_eq!(
        Failure::NotFound { name: s("run-a"), message: s("gone") }.describe(),
        "'run-a' was not found: gone"
    );
    assert_eq!(
        Failure::Transport { name: s("run-a"), message: s("connection refused") }.describe(),
        "the control plane failed for 'run-a': connection refused"
    );
    assert_eq!(
        Failure::Validation { name: s("run-a"), message: s("spec.build: Required value") }
            .describe(),
        "the control plane rejected the specification of 'run-a': spec.build: Required value"
    );
    assert_eq!(
        Failure::Exists { path: s("out.yaml") }.describe(),
        "Output file already exists. Use --force to overwrite."
    );
    assert_eq!(
        Failure::Output { path: s("out.yaml"), message: s("denied") }.describe(),
        "Failed to copy template file: denied"
    );
    assert_eq!(Failure::OutOfTurn.describe(), "an answer came that was not asked for");
}

#[test]
fn parse_errors_name_the_place() {
    assert_eq!(describe_parse(&ParseError::Syntax(s("line 3"))), "line 3");
    assert_eq!(describe_parse(&ParseError::Missing(s("a.b"))), "missing field 'a.b'");
    assert_eq!(describe_parse(&ParseError::WrongType(s("a.b"))), "wrong type of value at 'a.b'");
    assert_eq!(
        describe_parse(&ParseError::Duplicate(s("a.b"))),
        "field 'a.b' occurs more than once"
    );
}
