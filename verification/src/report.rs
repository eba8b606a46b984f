//! What the client prints of the resources it has read: the table of a
//! listing and the fixed-width cells it is made of.

use vstd::prelude::*;
use vstd::string::*;
use crate::text::{
    labelled, lemma_append_twice, line_views, pad_right, push_line, spec_pad, spec_truncate,
    text_of, text_or_empty, truncate_chars,
};
use crate::model::{
    BuildSpec, BuildSpecView, Dependencies, DependenciesView, Dependency, DependencyView,
    InputDataSpec, InputDataSpecView, SourceCode, SourceCodeView, Resource, ResourceSpec, ResourceSpecView, ResourceView, RunSpec,
    RunSpecView, RunStatusView, ecosystem_view, package_views, text_view,
};

verus! {

/// The width of the name column, in characters.
pub const NAME_PRINT_WIDTH: usize = 15;

/// The width of the creation time column, in characters.
pub const CREATED_PRINT_WIDTH: usize = 25;

/// The width of the description column, in characters. A description is
/// cut to this many characters.
pub const DESCRIPTION_PRINT_WIDTH: usize = 40;

/// The one line that stands for an empty listing.
pub const NO_RUNS_LINE: &'static str = "No runs found.";

/// One line of the table: three cells, left-aligned, a blank between them.
pub open spec fn spec_row(name: Seq<char>, created: Seq<char>, description: Seq<char>) -> Seq<char> {
    spec_pad(name, NAME_PRINT_WIDTH as nat) + seq![' '] + spec_pad(
        created,
        CREATED_PRINT_WIDTH as nat,
    ) + seq![' '] + spec_pad(description, DESCRIPTION_PRINT_WIDTH as nat)
}

/// The table line of one resource: its name, its creation time and its
/// description cut to the column's width.
pub open spec fn spec_resource_row(resource: ResourceView) -> Seq<char> {
    spec_row(
        text_or_empty(resource.metadata.name),
        text_or_empty(resource.metadata.creation_timestamp),
        spec_truncate(
            text_or_empty(resource.spec.description()),
            DESCRIPTION_PRINT_WIDTH as nat,
        ),
    )
}

/// The lines of a listing: the informational line where there is nothing
/// to list, else the header and one line for each resource, in order.
pub open spec fn spec_render_list(resources: Seq<ResourceView>) -> Seq<Seq<char>> {
    if resources.len() == 0 {
        seq![NO_RUNS_LINE@]
    } else {
        seq![spec_row("NAME"@, "CREATED"@, "DESCRIPTION"@)] + Seq::new(
            resources.len(),
            |i: int| spec_resource_row(resources[i]),
        )
    }
}

/// One line of the table from its three cells.
pub fn table_row(name: &str, created: &str, description: &str) -> (r: String)
    ensures
        r@ == spec_row(name@, created@, description@),
{
    let mut out = pad_right(name, NAME_PRINT_WIDTH);
    out.push(' ');
    let second = pad_right(created, CREATED_PRINT_WIDTH);
    out.append(second.as_str());
    out.push(' ');
    let third = pad_right(description, DESCRIPTION_PRINT_WIDTH);
    out.append(third.as_str());
    out
}

/// The description of a build or of a run.
pub fn description_of(spec: &ResourceSpec) -> (r: &Option<String>)
    ensures
        text_view(*r) == spec@.description(),
{
    match spec {
        ResourceSpec::Build(b) => &b.description,
        ResourceSpec::Run(r) => &r.description,
    }
}

/// The table line of one resource.
pub fn resource_row(resource: &Resource) -> (r: String)
    ensures
        r@ == spec_resource_row(resource@),
{
    let description = truncate_chars(
        text_of(description_of(&resource.spec)),
        DESCRIPTION_PRINT_WIDTH,
    );
    table_row(
        text_of(&resource.metadata.name),
        text_of(&resource.metadata.creation_timestamp),
        description.as_str(),
    )
}

/// The values of a list of resources.
pub open spec fn resource_views(resources: Seq<Resource>) -> Seq<ResourceView> {
    Seq::new(resources.len(), |i: int| resources[i]@)
}

/// Renders a listing. An empty listing is one informational line, never
/// an empty table.
pub fn render_list(resources: &Vec<Resource>) -> (lines: Vec<String>)
    ensures
        line_views(lines@) == spec_render_list(resource_views(resources@)),
        resources@.len() == 0 ==> lines@.len() == 1 && lines@[0]@ == NO_RUNS_LINE@,
        resources@.len() > 0 ==> lines@.len() == resources@.len() + 1,
{
    let mut lines: Vec<String> = Vec::new();
    if resources.len() == 0 {
        lines.push(String::from_str(NO_RUNS_LINE));
        assert(line_views(lines@) == spec_render_list(resource_views(resources@)));
        return lines;
    }
    lines.push(table_row("NAME", "CREATED", "DESCRIPTION"));
    let mut i: usize = 0;
    while i < resources.len()
        invariant
            i <= resources@.len(),
            lines@.len() == i + 1,
            lines@[0]@ == spec_row("NAME"@, "CREATED"@, "DESCRIPTION"@),
            forall|k: int| 0 <= k < i ==> (#[trigger] lines@[k + 1])@ == spec_resource_row(resources@[k]@),
        decreases resources@.len() - i,
    {
        lines.push(resource_row(&resources[i]));
        i = i + 1;
    }
    proof {
        let views = resource_views(resources@);
        let rows = Seq::new(views.len(), |k: int| spec_resource_row(views[k]));
        let expected = seq![spec_row("NAME"@, "CREATED"@, "DESCRIPTION"@)] + rows;
        assert forall|j: int| 0 <= j < lines@.len() implies line_views(lines@)[j] == expected[j] by {
            if j > 0 {
                let k = j - 1;
                assert(lines@[k + 1]@ == spec_resource_row(resources@[k]@));
            }
        }
        assert(line_views(lines@) =~= expected);
    }
    lines
}

/// The line of one package of the ecosystem `label`.
pub open spec fn spec_package_line(label: Seq<char>, package: DependencyView) -> Seq<char> {
    "- "@ + label + ": "@ + package.name + " ("@ + package.version + ")"@
}

/// The lines of the packages of the ecosystem `label`, in their order.
pub open spec fn spec_package_lines(label: Seq<char>, packages: Option<Seq<DependencyView>>) -> Seq<
    Seq<char>,
> {
    match packages {
        Some(list) => Seq::new(list.len(), |i: int| spec_package_line(label, list[i])),
        None => Seq::empty(),
    }
}

/// The lines of all declared packages, ecosystem by ecosystem.
pub open spec fn spec_dependency_lines(dependencies: Option<DependenciesView>) -> Seq<Seq<char>> {
    match dependencies {
        None => Seq::empty(),
        Some(d) => spec_package_lines("OS"@, d.os) + spec_package_lines("Pip"@, d.pip)
            + spec_package_lines("Npm"@, d.npm) + spec_package_lines("Yarn"@, d.yarn)
            + spec_package_lines("Go"@, d.go) + spec_package_lines("Cargo"@, d.cargo)
            + spec_package_lines("Maven"@, d.maven) + spec_package_lines("Gradle"@, d.gradle)
            + spec_package_lines("Asdf"@, d.asdf),
    }
}

/// What is printed of a build specification.
pub open spec fn spec_build_report(build: BuildSpecView) -> Seq<Seq<char>> {
    seq![
        "Base Image: "@ + build.base_image,
        "Description: "@ + text_or_empty(build.description),
        "Source Code URL: "@ + build.source_code.url,
        "Source Code Branch: "@ + text_or_empty(build.source_code.branch),
        "Dependencies:"@,
    ] + spec_dependency_lines(build.source_code.dependencies) + seq![
        "Entrypoint: "@ + build.source_code.entrypoint,
    ]
}

/// The line of a value that may be absent: none where it is.
pub open spec fn spec_optional_line(label: Seq<char>, text: Option<Seq<char>>) -> Seq<Seq<char>> {
    match text {
        Some(t) => seq![label + t],
        None => Seq::empty(),
    }
}

/// What is printed of the source of a build beyond the build report: the
/// commit and the commands, each where it is set.
pub open spec fn spec_source_lines(source: SourceCodeView) -> Seq<Seq<char>> {
    spec_optional_line("Source Code Commit: "@, source.commit) + spec_optional_line(
        "Build Command: "@,
        source.build_command,
    ) + spec_optional_line("Dependency Command: "@, source.dependency_command)
}

/// What is printed of where a run reads: nothing where it reads nothing,
/// else the place, and the type and the command each where it is set.
pub open spec fn spec_input_lines(input: Option<InputDataSpecView>) -> Seq<Seq<char>> {
    match input {
        Some(i) => seq!["Input Data URL: "@ + i.url, "Input Data Path: "@ + i.data_path]
            + spec_optional_line("Input Data Type: "@, i.data_type) + spec_optional_line(
            "Input Data Transform Command: "@,
            i.transform_command,
        ),
        None => Seq::empty(),
    }
}

/// What is printed of where a run reads and writes.
pub open spec fn spec_data_lines(run: RunSpecView) -> Seq<Seq<char>> {
    spec_input_lines(run.input_data) + seq![
        "Output Data URL: "@ + run.output_data.url,
        "Output Data Path: "@ + run.output_data.data_path,
    ]
}

/// What is printed of the specification of a resource: every field of
/// it that is set.
pub open spec fn spec_spec_report(spec: ResourceSpecView) -> Seq<Seq<char>> {
    match spec {
        ResourceSpecView::Build(build) => spec_build_report(build) + spec_source_lines(
            build.source_code,
        ),
        ResourceSpecView::Run(run) => spec_build_report(run.build) + spec_source_lines(
            run.build.source_code,
        ) + spec_data_lines(run),
    }
}

/// The phase that a status reports; nothing where there is no status yet.
pub open spec fn spec_phase(status: Option<RunStatusView>) -> Seq<char> {
    match status {
        Some(s) => s.current_phase,
        None => Seq::empty(),
    }
}

/// What is printed of one resource: its identity, its status and its
/// specification.
pub open spec fn spec_status_report(resource: ResourceView) -> Seq<Seq<char>> {
    seq![
        "Name: "@ + text_or_empty(resource.metadata.name),
        "Namespace: "@ + resource.metadata.namespace,
        "Created: "@ + text_or_empty(resource.metadata.creation_timestamp),
        "Phase: "@ + spec_phase(resource.status),
        "Description: "@ + text_or_empty(resource.spec.description()),
    ] + spec_spec_report(resource.spec)
}

/// What is printed when a run was accepted under `name`.
pub open spec fn spec_accepted_lines(name: Seq<char>) -> Seq<Seq<char>> {
    seq![
        "Applying run... Success!"@,
        Seq::empty(),
        "The ID of you run is '"@ + name
            + "'. You can get its status by running the 'execd status <REQUEST_ID>' command."@,
        "See 'execd status --help' for more information."@,
    ]
}

/// The line of one package.
pub fn package_line(label: &str, package: &Dependency) -> (r: String)
    ensures
        r@ == spec_package_line(label@, package@),
{
    String::from_str("- ").concat(label).concat(": ").concat(package.name.as_str()).concat(
        " (",
    ).concat(package.version.as_str()).concat(")")
}

/// Appends the lines of the packages of one ecosystem.
pub fn push_package_lines(lines: &mut Vec<String>, label: &str, packages: &Option<Vec<Dependency>>)
    ensures
        line_views(final(lines)@) == line_views(old(lines)@) + spec_package_lines(
            label@,
            ecosystem_view(*packages),
        ),
{
    let ghost before = line_views(lines@);
    match packages {
        None => {
            assert(line_views(lines@) =~= before + Seq::<Seq<char>>::empty());
        },
        Some(list) => {
            let ghost expected = spec_package_lines(label@, ecosystem_view(*packages));
            let mut i: usize = 0;
            assert(line_views(lines@) =~= before + expected.take(0));
            while i < list.len()
                invariant
                    i <= list@.len(),
                    expected == spec_package_lines(label@, Some(package_views(list@))),
                    line_views(lines@) == before + expected.take(i as int),
                decreases list@.len() - i,
            {
                let ghost so_far = line_views(lines@);
                let line = package_line(label, &list[i]);
                lines.push(line);
                assert(line_views(lines@) =~= so_far.push(line@));
                assert(expected.take(i + 1) =~= expected.take(i as int).push(expected[i as int]));
                assert(before + expected.take(i + 1) =~= (before + expected.take(i as int)).push(
                    expected[i as int],
                ));
                i = i + 1;
            }
            assert(expected.take(i as int) =~= expected);
        },
    }
}

/// Appends the lines of all declared packages.
pub fn push_dependency_lines(lines: &mut Vec<String>, dependencies: &Option<Dependencies>)
    ensures
        line_views(final(lines)@) == line_views(old(lines)@) + spec_dependency_lines(
            match *dependencies {
                Some(d) => Some(d@),
                None => None,
            },
        ),
{
    let ghost before = line_views(lines@);
    match dependencies {
        None => {
            assert(line_views(lines@) =~= before + Seq::<Seq<char>>::empty());
        },
        Some(d) => {
            push_package_lines(lines, "OS", &d.os);
            let ghost done = spec_package_lines("OS"@, d@.os);
            push_package_lines(lines, "Pip", &d.pip);
            proof {
                lemma_append_twice(before, done, spec_package_lines("Pip"@, d@.pip));
            }
            let ghost done = done + spec_package_lines("Pip"@, d@.pip);
            push_package_lines(lines, "Npm", &d.npm);
            proof {
                lemma_append_twice(before, done, spec_package_lines("Npm"@, d@.npm));
            }
            let ghost done = done + spec_package_lines("Npm"@, d@.npm);
            push_package_lines(lines, "Yarn", &d.yarn);
            proof {
                lemma_append_twice(before, done, spec_package_lines("Yarn"@, d@.yarn));
            }
            let ghost done = done + spec_package_lines("Yarn"@, d@.yarn);
            push_package_lines(lines, "Go", &d.go);
            proof {
                lemma_append_twice(before, done, spec_package_lines("Go"@, d@.go));
            }
            let ghost done = done + spec_package_lines("Go"@, d@.go);
            push_package_lines(lines, "Cargo", &d.cargo);
            proof {
                lemma_append_twice(before, done, spec_package_lines("Cargo"@, d@.cargo));
            }
            let ghost done = done + spec_package_lines("Cargo"@, d@.cargo);
            push_package_lines(lines, "Maven", &d.maven);
            proof {
                lemma_append_twice(before, done, spec_package_lines("Maven"@, d@.maven));
            }
            let ghost done = done + spec_package_lines("Maven"@, d@.maven);
            push_package_lines(lines, "Gradle", &d.gradle);
            proof {
                lemma_append_twice(before, done, spec_package_lines("Gradle"@, d@.gradle));
            }
            let ghost done = done + spec_package_lines("Gradle"@, d@.gradle);
            push_package_lines(lines, "Asdf", &d.asdf);
            proof {
                lemma_append_twice(before, done, spec_package_lines("Asdf"@, d@.asdf));
            }
        },
    }
}

/// Appends what is printed of a build specification.
pub fn push_build_report(lines: &mut Vec<String>, build: &BuildSpec)
    ensures
        line_views(final(lines)@) == line_views(old(lines)@) + spec_build_report(build@),
{
    let ghost before = line_views(lines@);
    push_line(lines, labelled("Base Image: ", build.base_image.as_str()));
    push_line(lines, labelled("Description: ", text_of(&build.description)));
    push_line(lines, labelled("Source Code URL: ", build.source_code.url.as_str()));
    push_line(lines, labelled("Source Code Branch: ", text_of(&build.source_code.branch)));
    push_line(lines, String::from_str("Dependencies:"));
    push_dependency_lines(lines, &build.source_code.dependencies);
    push_line(lines, labelled("Entrypoint: ", build.source_code.entrypoint.as_str()));
    assert(line_views(lines@) =~= before + spec_build_report(build@));
}

/// What is printed of a build specification.
pub fn build_report(build: &BuildSpec) -> (lines: Vec<String>)
    ensures
        line_views(lines@) == spec_build_report(build@),
{
    let mut lines: Vec<String> = Vec::new();
    assert(line_views(lines@) =~= Seq::<Seq<char>>::empty());
    push_build_report(&mut lines, build);
    assert(Seq::<Seq<char>>::empty() + spec_build_report(build@) =~= spec_build_report(build@));
    lines
}

/// Appends the line of a value that may be absent.
pub fn push_optional_line(lines: &mut Vec<String>, label: &str, text: &Option<String>)
    ensures
        line_views(final(lines)@) == line_views(old(lines)@) + spec_optional_line(
            label@,
            text_view(*text),
        ),
{
    let ghost before = line_views(lines@);
    match text {
        Some(t) => {
            push_line(lines, labelled(label, t.as_str()));
            assert(line_views(lines@) =~= before + seq![label@ + t@]);
        },
        None => {
            assert(line_views(lines@) =~= before + Seq::<Seq<char>>::empty());
        },
    }
}

/// Appends what is printed of the source of a build beyond the build
/// report.
pub fn push_source_lines(lines: &mut Vec<String>, source: &SourceCode)
    ensures
        line_views(final(lines)@) == line_views(old(lines)@) + spec_source_lines(source@),
{
    let ghost before = line_views(lines@);
    let ghost commit = spec_optional_line("Source Code Commit: "@, source@.commit);
    let ghost build = spec_optional_line("Build Command: "@, source@.build_command);
    let ghost dependency = spec_optional_line("Dependency Command: "@, source@.dependency_command);
    push_optional_line(lines, "Source Code Commit: ", &source.commit);
    push_optional_line(lines, "Build Command: ", &source.build_command);
    proof {
        lemma_append_twice(before, commit, build);
    }
    push_optional_line(lines, "Dependency Command: ", &source.dependency_command);
    proof {
        lemma_append_twice(before, commit + build, dependency);
    }
}

/// Appends what is printed of where a run reads.
pub fn push_input_lines(lines: &mut Vec<String>, input: &Option<InputDataSpec>)
    ensures
        line_views(final(lines)@) == line_views(old(lines)@) + spec_input_lines(
            match *input {
                Some(i) => Some(i@),
                None => None,
            },
        ),
{
    let ghost before = line_views(lines@);
    match input {
        Some(i) => {
            let ghost place = seq!["Input Data URL: "@ + i@.url, "Input Data Path: "@ + i@.data_path];
            let ghost kind = spec_optional_line("Input Data Type: "@, i@.data_type);
            let ghost command = spec_optional_line(
                "Input Data Transform Command: "@,
                i@.transform_command,
            );
            push_line(lines, labelled("Input Data URL: ", i.url.as_str()));
            push_line(lines, labelled("Input Data Path: ", i.data_path.as_str()));
            assert(line_views(lines@) =~= before + place);
            push_optional_line(lines, "Input Data Type: ", &i.data_type);
            proof {
                lemma_append_twice(before, place, kind);
            }
            push_optional_line(lines, "Input Data Transform Command: ", &i.transform_command);
            proof {
                lemma_append_twice(before, place + kind, command);
            }
        },
        None => {
            assert(line_views(lines@) =~= before + Seq::<Seq<char>>::empty());
        },
    }
}

/// Appends what is printed of where a run reads and writes.
pub fn push_data_lines(lines: &mut Vec<String>, run: &RunSpec)
    ensures
        line_views(final(lines)@) == line_views(old(lines)@) + spec_data_lines(run@),
{
    let ghost before = line_views(lines@);
    let ghost input = spec_input_lines(run@.input_data);
    push_input_lines(lines, &run.input_data);
    let ghost read = line_views(lines@);
    push_line(lines, labelled("Output Data URL: ", run.output_data.url.as_str()));
    push_line(lines, labelled("Output Data Path: ", run.output_data.data_path.as_str()));
    let ghost output = seq![
        "Output Data URL: "@ + run@.output_data.url,
        "Output Data Path: "@ + run@.output_data.data_path,
    ];
    assert(line_views(lines@) =~= read + output);
    proof {
        lemma_append_twice(before, input, output);
    }
}

/// Appends what is printed of the specification of a resource.
pub fn push_spec_report(lines: &mut Vec<String>, spec: &ResourceSpec)
    ensures
        line_views(final(lines)@) == line_views(old(lines)@) + spec_spec_report(spec@),
{
    let ghost before = line_views(lines@);
    match spec {
        ResourceSpec::Build(build) => {
            push_build_report(lines, build);
            push_source_lines(lines, &build.source_code);
            proof {
                lemma_append_twice(
                    before,
                    spec_build_report(build@),
                    spec_source_lines(build@.source_code),
                );
            }
        },
        ResourceSpec::Run(run) => {
            push_build_report(lines, &run.build);
            push_source_lines(lines, &run.build.source_code);
            proof {
                lemma_append_twice(
                    before,
                    spec_build_report(run@.build),
                    spec_source_lines(run@.build.source_code),
                );
            }
            push_data_lines(lines, run);
            proof {
                lemma_append_twice(
                    before,
                    spec_build_report(run@.build) + spec_source_lines(run@.build.source_code),
                    spec_data_lines(run@),
                );
            }
        },
    }
}

/// What is printed of one resource.
pub fn status_report(resource: &Resource) -> (lines: Vec<String>)
    ensures
        line_views(lines@) == spec_status_report(resource@),
{
    proof {
        reveal_strlit("");
    }
    assert(""@ =~= Seq::<char>::empty());
    let mut lines: Vec<String> = Vec::new();
    assert(line_views(lines@) =~= Seq::<Seq<char>>::empty());
    push_line(&mut lines, labelled("Name: ", text_of(&resource.metadata.name)));
    push_line(&mut lines, labelled("Namespace: ", resource.metadata.namespace.as_str()));
    push_line(&mut lines, labelled("Created: ", text_of(&resource.metadata.creation_timestamp)));
    let phase = match &resource.status {
        Some(status) => status.current_phase.as_str(),
        None => "",
    };
    push_line(&mut lines, labelled("Phase: ", phase));
    push_line(&mut lines, labelled("Description: ", text_of(description_of(&resource.spec))));
    let ghost head = line_views(lines@);
    assert(head =~= seq![
        "Name: "@ + text_or_empty(resource@.metadata.name),
        "Namespace: "@ + resource@.metadata.namespace,
        "Created: "@ + text_or_empty(resource@.metadata.creation_timestamp),
        "Phase: "@ + spec_phase(resource@.status),
        "Description: "@ + text_or_empty(resource@.spec.description()),
    ]);
    push_spec_report(&mut lines, &resource.spec);
    lines
}

/// What is printed when a run was accepted under `name`.
pub fn accepted_lines(name: &str) -> (lines: Vec<String>)
    ensures
        line_views(lines@) == spec_accepted_lines(name@),
{
    let mut lines: Vec<String> = Vec::new();
    lines.push(String::from_str("Applying run... Success!"));
    lines.push(String::new());
    lines.push(
        String::from_str("The ID of you run is '").concat(name).concat(
            "'. You can get its status by running the 'execd status <REQUEST_ID>' command.",
        ),
    );
    lines.push(String::from_str("See 'execd status --help' for more information."));
    assert(line_views(lines@) =~= spec_accepted_lines(name@));
    lines
}

} // verus!
