//! Loading a document that was written from a specification gives that
//! specification back.

use vstd::prelude::*;
use crate::document::NodeView;
use crate::loader::{
    lemma_found_at, lookup, spec_build_spec, spec_dependencies, spec_dependency,
    spec_ecosystem, spec_input_data, spec_join, spec_optional_text, spec_output_data,
    spec_packages, spec_run_spec, spec_source_code, Lookup, ParseErrorView,
};
use crate::model::{
    BuildSpecView, DependenciesView, DependencyView, InputDataSpecView, OutputDataSpecView,
    RunSpecView, SourceCodeView,
};
use crate::render::{
    spec_build_spec_node, spec_dependencies_node, spec_dependency_node, spec_ecosystem_node,
    spec_input_data_node, spec_optional_text_node, spec_output_data_node, spec_package_nodes,
    spec_run_spec_node, spec_source_code_node,
};

verus! {

/// The keys of a package are all different.
proof fn lemma_dependency_keys_differ()
    ensures
        "name"@ != "version"@,
{
    reveal_strlit("name");
    reveal_strlit("version");
    assert("name"@.len() == 4);
    assert("version"@.len() == 7);
}

/// A package is read back from its document.
pub proof fn lemma_dependency_round_trip(package: DependencyView, path: Seq<char>)
    ensures
        spec_dependency(spec_dependency_node(package), path) == Ok::<
            DependencyView,
            ParseErrorView,
        >(package),
{
    lemma_dependency_keys_differ();
    let entries = spec_dependency_node(package)->Mapping_0;
    assert(entries.len() == 2);
    assert(entries[0].0 == NodeView::Text("name"@));
    assert(entries[1].0 == NodeView::Text("version"@));
    lemma_found_at(entries, 0, "name"@);
    lemma_found_at(entries, 1, "version"@);
}

/// A list of packages is read back from its documents.
pub proof fn lemma_packages_round_trip(packages: Seq<DependencyView>, path: Seq<char>)
    ensures
        spec_packages(spec_package_nodes(packages), path) == Ok::<
            Seq<DependencyView>,
            ParseErrorView,
        >(packages),
    decreases packages.len(),
{
    let nodes = spec_package_nodes(packages);
    if packages.len() == 0 {
        assert(packages =~= Seq::empty());
    } else {
        assert(nodes.drop_last() =~= spec_package_nodes(packages.drop_last()));
        lemma_packages_round_trip(packages.drop_last(), path);
        lemma_dependency_round_trip(packages.last(), path);
        assert(packages.drop_last().push(packages.last()) =~= packages);
    }
}

/// The packages of an ecosystem are read back from a field that holds
/// their node, wherever the key is found with that node.
pub proof fn lemma_ecosystem_round_trip(
    entries: Seq<(NodeView, NodeView)>,
    key: Seq<char>,
    path: Seq<char>,
    packages: Option<Seq<DependencyView>>,
)
    requires
        lookup(entries, key) == Lookup::Found(spec_ecosystem_node(packages)),
    ensures
        spec_ecosystem(entries, key, path) == Ok::<Option<Seq<DependencyView>>, ParseErrorView>(
            packages,
        ),
{
    match packages {
        Some(list) => {
            lemma_packages_round_trip(list, spec_join(path, key));
        },
        None => {},
    }
}

/// An optional text is read back from a field that holds its node.
pub proof fn lemma_optional_text_round_trip(
    entries: Seq<(NodeView, NodeView)>,
    key: Seq<char>,
    path: Seq<char>,
    text: Option<Seq<char>>,
)
    requires
        lookup(entries, key) == Lookup::Found(spec_optional_text_node(text)),
    ensures
        spec_optional_text(entries, key, path) == Ok::<Option<Seq<char>>, ParseErrorView>(text),
{
}

/// The keys of the declared dependencies are all different.
proof fn lemma_dependencies_keys_differ()
    ensures
        "asdf"@ != "cargo"@,
        "asdf"@ != "go"@,
        "asdf"@ != "gradle"@,
        "asdf"@ != "maven"@,
        "asdf"@ != "npm"@,
        "asdf"@ != "os"@,
        "asdf"@ != "pip"@,
        "asdf"@ != "yarn"@,
        "cargo"@ != "go"@,
        "cargo"@ != "gradle"@,
        "cargo"@ != "maven"@,
        "cargo"@ != "npm"@,
        "cargo"@ != "os"@,
        "cargo"@ != "pip"@,
        "cargo"@ != "yarn"@,
        "go"@ != "gradle"@,
        "go"@ != "maven"@,
        "go"@ != "npm"@,
        "go"@ != "os"@,
        "go"@ != "pip"@,
        "go"@ != "yarn"@,
        "gradle"@ != "maven"@,
        "gradle"@ != "npm"@,
        "gradle"@ != "os"@,
        "gradle"@ != "pip"@,
        "gradle"@ != "yarn"@,
        "maven"@ != "npm"@,
        "maven"@ != "os"@,
        "maven"@ != "pip"@,
        "maven"@ != "yarn"@,
        "npm"@ != "os"@,
        "npm"@ != "pip"@,
        "npm"@ != "yarn"@,
        "os"@ != "pip"@,
        "os"@ != "yarn"@,
        "pip"@ != "yarn"@,
{
    reveal_strlit("asdf");
    reveal_strlit("cargo");
    reveal_strlit("go");
    reveal_strlit("gradle");
    reveal_strlit("maven");
    reveal_strlit("npm");
    reveal_strlit("os");
    reveal_strlit("pip");
    reveal_strlit("yarn");
    assert("asdf"@.len() == 4);
    assert("cargo"@.len() == 5);
    assert("go"@.len() == 2);
    assert("gradle"@.len() == 6);
    assert("maven"@.len() == 5);
    assert("npm"@.len() == 3);
    assert("os"@.len() == 2);
    assert("pip"@.len() == 3);
    assert("yarn"@.len() == 4);
    assert("asdf"@[0] != "yarn"@[0]);
    assert("cargo"@[0] != "maven"@[0]);
    assert("go"@[0] != "os"@[0]);
    assert("npm"@[0] != "pip"@[0]);
}

/// The declared dependencies are read back from their document.
pub proof fn lemma_dependencies_round_trip(dependencies: DependenciesView, path: Seq<char>)
    ensures
        spec_dependencies(spec_dependencies_node(dependencies), path) == Ok::<
            DependenciesView,
            ParseErrorView,
        >(dependencies),
{
    lemma_dependencies_keys_differ();
    let entries = spec_dependencies_node(dependencies)->Mapping_0;
    assert(entries.len() == 9);
    assert(entries[0].0 == NodeView::Text("asdf"@));
    assert(entries[1].0 == NodeView::Text("cargo"@));
    assert(entries[2].0 == NodeView::Text("go"@));
    assert(entries[3].0 == NodeView::Text("gradle"@));
    assert(entries[4].0 == NodeView::Text("maven"@));
    assert(entries[5].0 == NodeView::Text("npm"@));
    assert(entries[6].0 == NodeView::Text("os"@));
    assert(entries[7].0 == NodeView::Text("pip"@));
    assert(entries[8].0 == NodeView::Text("yarn"@));
    lemma_found_at(entries, 0, "asdf"@);
    lemma_found_at(entries, 1, "cargo"@);
    lemma_found_at(entries, 2, "go"@);
    lemma_found_at(entries, 3, "gradle"@);
    lemma_found_at(entries, 4, "maven"@);
    lemma_found_at(entries, 5, "npm"@);
    lemma_found_at(entries, 6, "os"@);
    lemma_found_at(entries, 7, "pip"@);
    lemma_found_at(entries, 8, "yarn"@);
    lemma_ecosystem_round_trip(entries, "asdf"@, path, dependencies.asdf);
    lemma_ecosystem_round_trip(entries, "cargo"@, path, dependencies.cargo);
    lemma_ecosystem_round_trip(entries, "go"@, path, dependencies.go);
    lemma_ecosystem_round_trip(entries, "gradle"@, path, dependencies.gradle);
    lemma_ecosystem_round_trip(entries, "maven"@, path, dependencies.maven);
    lemma_ecosystem_round_trip(entries, "npm"@, path, dependencies.npm);
    lemma_ecosystem_round_trip(entries, "os"@, path, dependencies.os);
    lemma_ecosystem_round_trip(entries, "pip"@, path, dependencies.pip);
    lemma_ecosystem_round_trip(entries, "yarn"@, path, dependencies.yarn);
}

/// The keys of the source of a build are all different.
proof fn lemma_source_code_keys_differ()
    ensures
        "branch"@ != "buildcmd"@,
        "branch"@ != "commit"@,
        "branch"@ != "dependencies"@,
        "branch"@ != "depencencycmd"@,
        "branch"@ != "entrypoint"@,
        "branch"@ != "url"@,
        "buildcmd"@ != "commit"@,
        "buildcmd"@ != "dependencies"@,
        "buildcmd"@ != "depencencycmd"@,
        "buildcmd"@ != "entrypoint"@,
        "buildcmd"@ != "url"@,
        "commit"@ != "dependencies"@,
        "commit"@ != "depencencycmd"@,
        "commit"@ != "entrypoint"@,
        "commit"@ != "url"@,
        "dependencies"@ != "depencencycmd"@,
        "dependencies"@ != "entrypoint"@,
        "dependencies"@ != "url"@,
        "depencencycmd"@ != "entrypoint"@,
        "depencencycmd"@ != "url"@,
        "entrypoint"@ != "url"@,
{
    reveal_strlit("branch");
    reveal_strlit("buildcmd");
    reveal_strlit("commit");
    reveal_strlit("dependencies");
    reveal_strlit("depencencycmd");
    reveal_strlit("entrypoint");
    reveal_strlit("url");
    assert("branch"@.len() == 6);
    assert("buildcmd"@.len() == 8);
    assert("commit"@.len() == 6);
    assert("dependencies"@.len() == 12);
    assert("depencencycmd"@.len() == 13);
    assert("entrypoint"@.len() == 10);
    assert("url"@.len() == 3);
    assert("branch"@[0] != "commit"@[0]);
}

/// The source of a build is read back from its document.
pub proof fn lemma_source_code_round_trip(source: SourceCodeView, path: Seq<char>)
    ensures
        spec_source_code(spec_source_code_node(source), path) == Ok::<
            SourceCodeView,
            ParseErrorView,
        >(source),
{
    lemma_source_code_keys_differ();
    let entries = spec_source_code_node(source)->Mapping_0;
    assert(entries.len() == 7);
    assert(entries[0].0 == NodeView::Text("branch"@));
    assert(entries[1].0 == NodeView::Text("buildcmd"@));
    assert(entries[2].0 == NodeView::Text("commit"@));
    assert(entries[3].0 == NodeView::Text("dependencies"@));
    assert(entries[4].0 == NodeView::Text("depencencycmd"@));
    assert(entries[5].0 == NodeView::Text("entrypoint"@));
    assert(entries[6].0 == NodeView::Text("url"@));
    lemma_found_at(entries, 0, "branch"@);
    lemma_found_at(entries, 1, "buildcmd"@);
    lemma_found_at(entries, 2, "commit"@);
    lemma_found_at(entries, 3, "dependencies"@);
    lemma_found_at(entries, 4, "depencencycmd"@);
    lemma_found_at(entries, 5, "entrypoint"@);
    lemma_found_at(entries, 6, "url"@);
    lemma_optional_text_round_trip(entries, "branch"@, path, source.branch);
    lemma_optional_text_round_trip(entries, "buildcmd"@, path, source.build_command);
    lemma_optional_text_round_trip(entries, "commit"@, path, source.commit);
    lemma_optional_text_round_trip(entries, "depencencycmd"@, path, source.dependency_command);
    match source.dependencies {
        Some(d) => {
            lemma_dependencies_round_trip(d, spec_join(path, "dependencies"@));
        },
        None => {},
    }
}

/// The keys of a build specification are all different.
proof fn lemma_build_spec_keys_differ()
    ensures
        "baseimage"@ != "description"@,
        "baseimage"@ != "sourcecode"@,
        "description"@ != "sourcecode"@,
{
    reveal_strlit("baseimage");
    reveal_strlit("description");
    reveal_strlit("sourcecode");
    assert("baseimage"@.len() == 9);
    assert("description"@.len() == 11);
    assert("sourcecode"@.len() == 10);
}

/// A build specification is read back from its document.
pub proof fn lemma_build_spec_round_trip(build: BuildSpecView, path: Seq<char>)
    ensures
        spec_build_spec(spec_build_spec_node(build), path) == Ok::<BuildSpecView, ParseErrorView>(
            build,
        ),
{
    lemma_build_spec_keys_differ();
    let entries = spec_build_spec_node(build)->Mapping_0;
    assert(entries.len() == 3);
    assert(entries[0].0 == NodeView::Text("baseimage"@));
    assert(entries[1].0 == NodeView::Text("description"@));
    assert(entries[2].0 == NodeView::Text("sourcecode"@));
    lemma_found_at(entries, 0, "baseimage"@);
    lemma_found_at(entries, 1, "description"@);
    lemma_found_at(entries, 2, "sourcecode"@);
    lemma_optional_text_round_trip(entries, "description"@, path, build.description);
    lemma_source_code_round_trip(build.source_code, spec_join(path, "sourcecode"@));
}

/// The keys of the output of a run are all different.
proof fn lemma_output_data_keys_differ()
    ensures
        "datapath"@ != "url"@,
{
    reveal_strlit("datapath");
    reveal_strlit("url");
    assert("datapath"@.len() == 8);
    assert("url"@.len() == 3);
}

/// Where a run writes what it produces is read back from its document.
pub proof fn lemma_output_data_round_trip(output: OutputDataSpecView, path: Seq<char>)
    ensures
        spec_output_data(spec_output_data_node(output), path) == Ok::<
            OutputDataSpecView,
            ParseErrorView,
        >(output),
{
    lemma_output_data_keys_differ();
    let entries = spec_output_data_node(output)->Mapping_0;
    assert(entries.len() == 2);
    assert(entries[0].0 == NodeView::Text("datapath"@));
    assert(entries[1].0 == NodeView::Text("url"@));
    lemma_found_at(entries, 0, "datapath"@);
    lemma_found_at(entries, 1, "url"@);
}

/// The keys of the input of a run are all different.
proof fn lemma_input_data_keys_differ()
    ensures
        "datapath"@ != "transformcmd"@,
        "datapath"@ != "url"@,
        "datapath"@ != "type"@,
        "transformcmd"@ != "url"@,
        "transformcmd"@ != "type"@,
        "url"@ != "type"@,
{
    reveal_strlit("datapath");
    reveal_strlit("transformcmd");
    reveal_strlit("url");
    reveal_strlit("type");
    assert("datapath"@.len() == 8);
    assert("transformcmd"@.len() == 12);
    assert("url"@.len() == 3);
    assert("type"@.len() == 4);
}

/// Where the input of a run comes from is read back from its document.
pub proof fn lemma_input_data_round_trip(input: InputDataSpecView, path: Seq<char>)
    ensures
        spec_input_data(spec_input_data_node(input), path) == Ok::<
            InputDataSpecView,
            ParseErrorView,
        >(input),
{
    lemma_input_data_keys_differ();
    let entries = spec_input_data_node(input)->Mapping_0;
    assert(entries.len() == 4);
    assert(entries[0].0 == NodeView::Text("datapath"@));
    assert(entries[1].0 == NodeView::Text("transformcmd"@));
    assert(entries[2].0 == NodeView::Text("url"@));
    assert(entries[3].0 == NodeView::Text("type"@));
    lemma_found_at(entries, 0, "datapath"@);
    lemma_found_at(entries, 1, "transformcmd"@);
    lemma_found_at(entries, 2, "url"@);
    lemma_found_at(entries, 3, "type"@);
    lemma_optional_text_round_trip(entries, "transformcmd"@, path, input.transform_command);
    lemma_optional_text_round_trip(entries, "type"@, path, input.data_type);
}

/// The keys of a run specification are all different.
proof fn lemma_run_spec_keys_differ()
    ensures
        "build"@ != "outputdata"@,
        "build"@ != "inputdata"@,
        "build"@ != "description"@,
        "outputdata"@ != "inputdata"@,
        "outputdata"@ != "description"@,
        "inputdata"@ != "description"@,
{
    reveal_strlit("build");
    reveal_strlit("outputdata");
    reveal_strlit("inputdata");
    reveal_strlit("description");
    assert("build"@.len() == 5);
    assert("outputdata"@.len() == 10);
    assert("inputdata"@.len() == 9);
    assert("description"@.len() == 11);
}

/// A run specification is read back from its document: writing and then
/// loading changes no field.
pub proof fn lemma_run_spec_round_trip(run: RunSpecView, path: Seq<char>)
    ensures
        spec_run_spec(spec_run_spec_node(run), path) == Ok::<RunSpecView, ParseErrorView>(run),
{
    lemma_run_spec_keys_differ();
    let entries = spec_run_spec_node(run)->Mapping_0;
    assert(entries.len() == 4);
    assert(entries[0].0 == NodeView::Text("build"@));
    assert(entries[1].0 == NodeView::Text("outputdata"@));
    assert(entries[2].0 == NodeView::Text("inputdata"@));
    assert(entries[3].0 == NodeView::Text("description"@));
    lemma_found_at(entries, 0, "build"@);
    lemma_found_at(entries, 1, "outputdata"@);
    lemma_found_at(entries, 2, "inputdata"@);
    lemma_found_at(entries, 3, "description"@);
    lemma_optional_text_round_trip(entries, "description"@, path, run.description);
    lemma_build_spec_round_trip(run.build, spec_join(path, "build"@));
    lemma_output_data_round_trip(run.output_data, spec_join(path, "outputdata"@));
    match run.input_data {
        Some(i) => {
            lemma_input_data_round_trip(i, spec_join(path, "inputdata"@));
        },
        None => {},
    }
}

/// Whatever document a run specification was loaded from, the document
/// that is written from it loads to the same specification.
pub proof fn lemma_load_write_load(document: NodeView, path: Seq<char>)
    requires
        spec_run_spec(document, path) is Ok,
    ensures
        spec_run_spec(spec_run_spec_node(spec_run_spec(document, path)->Ok_0), path)
            == spec_run_spec(document, path),
{
    lemma_run_spec_round_trip(spec_run_spec(document, path)->Ok_0, path);
}

} // verus!
