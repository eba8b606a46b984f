use execd::model::{
    BuildSpec, InputDataSpec, OutputDataSpec, Resource, ResourceSpec, RunMetadata, RunSpec,
    RunStatus, SourceCode,
};
use execd::report::{
    accepted_lines, render_list, resource_row, status_report, table_row,
    DESCRIPTION_PRINT_WIDTH,
};
use execd::text::{pad_right, truncate_chars};

fn build(description: Option<&str>) -> BuildSpec {
    BuildSpec {
        base_image: "python:latest".to_string(),
        description: description.map(|d| d.to_string()),
        source_code: SourceCode {
            branch: None,
            build_command: None,
            commit: None,
            dependencies: None,
            dependency_command: None,
            entrypoint: "python".to_string(),
            url: "https://example.org/repo".to_string(),
        },
    }
}

fn run_resource(name: &str, created: &str, description: Option<&str>) -> Resource {
    Resource {
        metadata: RunMetadata {
            name: Some(name.to_string()),
            generate_name: Some("run-".to_string()),
            namespace: "execdev".to_string(),
            creation_timestamp: Some(created.to_string()),
        },
        spec: ResourceSpec::Run(RunSpec {
            build: build(Some("image")),
            output_data: OutputDataSpec {
                data_path: "/data/output".to_string(),
                url: "https://example.org/out".to_string(),
            },
            input_data: None,
            description: description.map(|d| d.to_string()),
        }),
        status: Some(RunStatus { current_phase: "Running".to_string() }),
    }
}

#[test]
fn multi_byte_description_is_cut_by_characters() {
    let description: String = std::iter::repeat('\u{e9}').take(50).collect();
    let cut = truncate_chars(&description, 40);
    assert_eq!(cut.chars().count(), 40);
    assert_eq!(cut.len(), 80);
    assert_eq!(cut, "\u{e9}".repeat(40));
    assert!(description.starts_with(&cut));
}

#[test]
fn truncation_keeps_short_texts_and_whole_characters() {
    assert_eq!(truncate_chars("default run", 40), "default run");
    assert_eq!(truncate_chars("h\u{e9}llo w\u{f6}rld", 5), "h\u{e9}llo");
    assert_eq!(truncate_chars("\u{1f600}\u{1f601}\u{1f602}", 2), "\u{1f600}\u{1f601}");
    assert_eq!(truncate_chars("abc", 0), "");
    assert_eq!(truncate_chars("abc", 3), "abc");
    assert_eq!(truncate_chars("", 40), "");
    let forty_one = "a".repeat(41);
    assert_eq!(truncate_chars(&forty_one, DESCRIPTION_PRINT_WIDTH), "a".repeat(40));
}

#[test]
fn padding_fills_up_to_the_width() {
    assert_eq!(pad_right("NAME", 15), "NAME           ");
    assert_eq!(pad_right("", 3), "   ");
    assert_eq!(pad_right("abc", 3), "abc");
    assert_eq!(pad_right("abcd", 3), "abcd");
    assert_eq!(pad_right("\u{e9}\u{e9}", 4), "\u{e9}\u{e9}  ");
}

#[test]
fn rows_have_fixed_columns() {
    assert_eq!(
        table_row("NAME", "CREATED", "DESCRIPTION"),
        format!("{:<15} {:<25} {:<40}", "NAME", "CREATED", "DESCRIPTION")
    );
    assert_eq!(table_row("NAME", "CREATED", "DESCRIPTION").chars().count(), 82);
    let long_name = "run-with-a-very-long-name";
    assert_eq!(
        table_row(long_name, "t", "d"),
        format!("{:<15} {:<25} {:<40}", long_name, "t", "d")
    );
}

#[test]
fn empty_listing_is_one_line() {
    assert_eq!(render_list(&vec![]), vec!["No runs found.".to_string()]);
}

#[test]
fn listing_has_a_header_and_a_row_for_each_run() {
    let long: String = "\u{fc}".repeat(50);
    let runs = vec![
        run_resource("run-abc12", "2024-01-01T00:00:00Z", Some("default run")),
        run_resource("run-def34", "2024-01-02T10:30:00Z", Some(&long)),
        run_resource("run-ghi56", "2024-01-03T00:00:00Z", None),
    ];
    let lines = render_list(&runs);
    assert_eq!(
        lines,
        vec![
            format!("{:<15} {:<25} {:<40}", "NAME", "CREATED", "DESCRIPTION"),
            format!("{:<15} {:<25} {:<40}", "run-abc12", "2024-01-01T00:00:00Z", "default run"),
            format!(
                "{:<15} {:<25} {:<40}",
                "run-def34",
                "2024-01-02T10:30:00Z",
                "\u{fc}".repeat(40)
            ),
            format!("{:<15} {:<25} {:<40}", "run-ghi56", "2024-01-03T00:00:00Z", ""),
        ]
    );
    assert_eq!(
        lines[1],
        "run-abc12       2024-01-01T00:00:00Z      default run                             "
    );
    assert_eq!(resource_row(&runs[0]), lines[1]);
}

#[test]
fn status_report_shows_identity_status_and_specification() {
    let resource = run_resource("run-abc12", "2024-01-01T00:00:00Z", Some("default run"));
    assert_eq!(
        status_report(&resource),
        vec![
            "Name: run-abc12".to_string(),
            "Namespace: execdev".to_string(),
            "Created: 2024-01-01T00:00:00Z".to_string(),
            "Phase: Running".to_string(),
            "Description: default run".to_string(),
            "Base Image: python:latest".to_string(),
            "Description: image".to_string(),
            "Source Code URL: https://example.org/repo".to_string(),
            "Source Code Branch: ".to_string(),
            "Dependencies:".to_string(),
            "Entrypoint: python".to_string(),
            "Output Data URL: https://example.org/out".to_string(),
            "Output Data Path: /data/output".to_string(),
        ]
    );
}

#[test]
fn status_report_of_a_build_without_status() {
    let resource = Resource {
        metadata: RunMetadata {
            name: None,
            generate_name: None,
            namespace: "ns".to_string(),
            creation_timestamp: None,
        },
        spec: ResourceSpec::Build(build(None)),
        status: None,
    };
    assert_eq!(
        status_report(&resource),
        vec![
            "Name: ".to_string(),
            "Namespace: ns".to_string(),
            "Created: ".to_string(),
            "Phase: ".to_string(),
            "Description: ".to_string(),
            "Base Image: python:latest".to_string(),
            "Description: ".to_string(),
            "Source Code URL: https://example.org/repo".to_string(),
            "Source Code Branch: ".to_string(),
            "Dependencies:".to_string(),
            "Entrypoint: python".to_string(),
        ]
    );
}

#[test]
fn status_report_shows_every_field_that_is_set() {
    let mut resource = run_resource("run-abc12", "2024-01-01T00:00:00Z", None);
    if let ResourceSpec::Run(run) = &mut resource.spec {
        run.build.source_code.branch = Some("main".to_string());
        run.build.source_code.commit = Some("0a1b2c3".to_string());
        run.build.source_code.build_command = Some("make".to_string());
        run.build.source_code.dependency_command = Some("make deps".to_string());
        run.input_data = Some(InputDataSpec {
            data_path: "/data".to_string(),
            transform_command: Some("echo 'transform'".to_string()),
            url: "https://example.org/in".to_string(),
            data_type: Some("https".to_string()),
        });
    }
    assert_eq!(
        status_report(&resource),
        vec![
            "Name: run-abc12".to_string(),
            "Namespace: execdev".to_string(),
            "Created: 2024-01-01T00:00:00Z".to_string(),
            "Phase: Running".to_string(),
            "Description: ".to_string(),
            "Base Image: python:latest".to_string(),
            "Description: image".to_string(),
            "Source Code URL: https://example.org/repo".to_string(),
            "Source Code Branch: main".to_string(),
            "Dependencies:".to_string(),
            "Entrypoint: python".to_string(),
            "Source Code Commit: 0a1b2c3".to_string(),
            "Build Command: make".to_string(),
            "Dependency Command: make deps".to_string(),
            "Input Data URL: https://example.org/in".to_string(),
            "Input Data Path: /data".to_string(),
            "Input Data Type: https".to_string(),
            "Input Data Transform Command: echo 'transform'".to_string(),
            "Output Data URL: https://example.org/out".to_string(),
            "Output Data Path: /data/output".to_string(),
        ]
    );
    if let ResourceSpec::Run(run) = &mut resource.spec {
        run.build.source_code.commit = None;
        run.build.source_code.dependency_command = None;
        if let Some(input) = &mut run.input_data {
            input.data_type = None;
        }
    }
    let lines = status_report(&resource);
    assert_eq!(lines.len(), 17);
    assert_eq!(lines[11], "Build Command: make");
    assert_eq!(lines[14], "Input Data Transform Command: echo 'transform'");
}

#[test]
fn accepted_run_is_announced() {
    assert_eq!(
        accepted_lines("run-x7k2p"),
        vec![
            "Applying run... Success!".to_string(),
            "".to_string(),
            "The ID of you run is 'run-x7k2p'. You can get its status by running the 'execd status <REQUEST_ID>' command.".to_string(),
            "See 'execd status --help' for more information.".to_string(),
        ]
    );
}
