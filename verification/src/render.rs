//! From the specification model back to a document. A field that is
//! absent is written as a key without a value, so every document of one
//! kind has the same keys in the same order.

use vstd::prelude::*;
use vstd::string::*;
use crate::document::{entry_views, item_views, lemma_mapping_view, lemma_sequence_view, Node, NodeView};
use crate::model::{
    BuildSpec, BuildSpecView, Dependencies, DependenciesView, Dependency, DependencyView,
    InputDataSpec, InputDataSpecView, OutputDataSpec, OutputDataSpecView, RunSpec, RunSpecView,
    SourceCode, SourceCodeView, ecosystem_view, package_views, text_view,
};

verus! {

/// The entry of a field: its key as a text, and its value.
pub open spec fn spec_field(key: Seq<char>, value: NodeView) -> (NodeView, NodeView) {
    (NodeView::Text(key), value)
}

/// The node of an optional text.
pub open spec fn spec_optional_text_node(text: Option<Seq<char>>) -> NodeView {
    match text {
        Some(t) => NodeView::Text(t),
        None => NodeView::Null,
    }
}

/// The document of a package.
pub open spec fn spec_dependency_node(package: DependencyView) -> NodeView {
    NodeView::Mapping(
        seq![
            spec_field("name"@, NodeView::Text(package.name)),
            spec_field("version"@, NodeView::Text(package.version)),
        ],
    )
}

/// The documents of the packages of a list, in its order.
pub open spec fn spec_package_nodes(packages: Seq<DependencyView>) -> Seq<NodeView> {
    Seq::new(packages.len(), |i: int| spec_dependency_node(packages[i]))
}

/// The node of the packages of one ecosystem.
pub open spec fn spec_ecosystem_node(packages: Option<Seq<DependencyView>>) -> NodeView {
    match packages {
        Some(list) => NodeView::Sequence(spec_package_nodes(list)),
        None => NodeView::Null,
    }
}

/// The document of the declared dependencies.
pub open spec fn spec_dependencies_node(dependencies: DependenciesView) -> NodeView {
    NodeView::Mapping(
        seq![
            spec_field("asdf"@, spec_ecosystem_node(dependencies.asdf)),
            spec_field("cargo"@, spec_ecosystem_node(dependencies.cargo)),
            spec_field("go"@, spec_ecosystem_node(dependencies.go)),
            spec_field("gradle"@, spec_ecosystem_node(dependencies.gradle)),
            spec_field("maven"@, spec_ecosystem_node(dependencies.maven)),
            spec_field("npm"@, spec_ecosystem_node(dependencies.npm)),
            spec_field("os"@, spec_ecosystem_node(dependencies.os)),
            spec_field("pip"@, spec_ecosystem_node(dependencies.pip)),
            spec_field("yarn"@, spec_ecosystem_node(dependencies.yarn)),
        ],
    )
}

/// The document of the source of a build.
pub open spec fn spec_source_code_node(source: SourceCodeView) -> NodeView {
    NodeView::Mapping(
        seq![
            spec_field("branch"@, spec_optional_text_node(source.branch)),
            spec_field("buildcmd"@, spec_optional_text_node(source.build_command)),
            spec_field("commit"@, spec_optional_text_node(source.commit)),
            spec_field(
                "dependencies"@,
                match source.dependencies {
                    Some(d) => spec_dependencies_node(d),
                    None => NodeView::Null,
                },
            ),
            spec_field("depencencycmd"@, spec_optional_text_node(source.dependency_command)),
            spec_field("entrypoint"@, NodeView::Text(source.entrypoint)),
            spec_field("url"@, NodeView::Text(source.url)),
        ],
    )
}

/// The document of a build specification.
pub open spec fn spec_build_spec_node(build: BuildSpecView) -> NodeView {
    NodeView::Mapping(
        seq![
            spec_field("baseimage"@, NodeView::Text(build.base_image)),
            spec_field("description"@, spec_optional_text_node(build.description)),
            spec_field("sourcecode"@, spec_source_code_node(build.source_code)),
        ],
    )
}

/// The document of where a run writes what it produces.
pub open spec fn spec_output_data_node(output: OutputDataSpecView) -> NodeView {
    NodeView::Mapping(
        seq![
            spec_field("datapath"@, NodeView::Text(output.data_path)),
            spec_field("url"@, NodeView::Text(output.url)),
        ],
    )
}

/// The document of where the input of a run comes from.
pub open spec fn spec_input_data_node(input: InputDataSpecView) -> NodeView {
    NodeView::Mapping(
        seq![
            spec_field("datapath"@, NodeView::Text(input.data_path)),
            spec_field("transformcmd"@, spec_optional_text_node(input.transform_command)),
            spec_field("url"@, NodeView::Text(input.url)),
            spec_field("type"@, spec_optional_text_node(input.data_type)),
        ],
    )
}

/// The document of a run specification.
pub open spec fn spec_run_spec_node(run: RunSpecView) -> NodeView {
    NodeView::Mapping(
        seq![
            spec_field("build"@, spec_build_spec_node(run.build)),
            spec_field("outputdata"@, spec_output_data_node(run.output_data)),
            spec_field(
                "inputdata"@,
                match run.input_data {
                    Some(i) => spec_input_data_node(i),
                    None => NodeView::Null,
                },
            ),
            spec_field("description"@, spec_optional_text_node(run.description)),
        ],
    )
}

/// The entry of a field.
pub fn field(key: &str, value: Node) -> (r: (Node, Node))
    ensures
        (r.0@, r.1@) == spec_field(key@, value@),
{
    (Node::Text(String::from_str(key)), value)
}

/// The node of a text.
pub fn text_node(text: &String) -> (r: Node)
    ensures
        r@ == NodeView::Text(text@),
{
    Node::Text(text.clone())
}

/// The node of an optional text.
pub fn optional_text_node(text: &Option<String>) -> (r: Node)
    ensures
        r@ == spec_optional_text_node(text_view(*text)),
{
    match text {
        Some(t) => Node::Text(t.clone()),
        None => Node::Null,
    }
}

/// A mapping node of the given entries.
pub fn mapping_node(entries: Vec<(Node, Node)>) -> (r: Node)
    ensures
        r@ == NodeView::Mapping(entry_views(entries@)),
{
    proof {
        lemma_mapping_view(entries);
    }
    Node::Mapping(entries)
}

/// Writes a package as a document.
pub fn dependency_node(package: &Dependency) -> (r: Node)
    ensures
        r@ == spec_dependency_node(package@),
{
    let mut entries: Vec<(Node, Node)> = Vec::new();
    entries.push(field("name", text_node(&package.name)));
    entries.push(field("version", text_node(&package.version)));
    assert(entry_views(entries@) =~= spec_dependency_node(package@)->Mapping_0);
    mapping_node(entries)
}

/// Writes the packages of one ecosystem as a node.
pub fn ecosystem_node(packages: &Option<Vec<Dependency>>) -> (r: Node)
    ensures
        r@ == spec_ecosystem_node(ecosystem_view(*packages)),
{
    match packages {
        None => Node::Null,
        Some(list) => {
            let mut items: Vec<Node> = Vec::new();
            let mut i: usize = 0;
            while i < list.len()
                invariant
                    i <= list@.len(),
                    items@.len() == i,
                    forall|k: int| 0 <= k < i ==> (#[trigger] items@[k])@ == spec_dependency_node(list@[k]@),
                decreases list@.len() - i,
            {
                items.push(dependency_node(&list[i]));
                i = i + 1;
            }
            proof {
                lemma_sequence_view(items);
                assert(item_views(items@) =~= spec_package_nodes(package_views(list@)));
            }
            Node::Sequence(items)
        },
    }
}

/// Writes the declared dependencies as a document.
pub fn dependencies_node(dependencies: &Dependencies) -> (r: Node)
    ensures
        r@ == spec_dependencies_node(dependencies@),
{
    let mut entries: Vec<(Node, Node)> = Vec::new();
    entries.push(field("asdf", ecosystem_node(&dependencies.asdf)));
    entries.push(field("cargo", ecosystem_node(&dependencies.cargo)));
    entries.push(field("go", ecosystem_node(&dependencies.go)));
    entries.push(field("gradle", ecosystem_node(&dependencies.gradle)));
    entries.push(field("maven", ecosystem_node(&dependencies.maven)));
    entries.push(field("npm", ecosystem_node(&dependencies.npm)));
    entries.push(field("os", ecosystem_node(&dependencies.os)));
    entries.push(field("pip", ecosystem_node(&dependencies.pip)));
    entries.push(field("yarn", ecosystem_node(&dependencies.yarn)));
    assert(entry_views(entries@) =~= spec_dependencies_node(dependencies@)->Mapping_0);
    mapping_node(entries)
}

/// Writes the source of a build as a document.
pub fn source_code_node(source: &SourceCode) -> (r: Node)
    ensures
        r@ == spec_source_code_node(source@),
{
    let mut entries: Vec<(Node, Node)> = Vec::new();
    entries.push(field("branch", optional_text_node(&source.branch)));
    entries.push(field("buildcmd", optional_text_node(&source.build_command)));
    entries.push(field("commit", optional_text_node(&source.commit)));
    let dependencies = match &source.dependencies {
        Some(d) => dependencies_node(d),
        None => Node::Null,
    };
    entries.push(field("dependencies", dependencies));
    entries.push(field("depencencycmd", optional_text_node(&source.dependency_command)));
    entries.push(field("entrypoint", text_node(&source.entrypoint)));
    entries.push(field("url", text_node(&source.url)));
    assert(entry_views(entries@) =~= spec_source_code_node(source@)->Mapping_0);
    mapping_node(entries)
}

/// Writes a build specification as a document.
pub fn build_spec_node(build: &BuildSpec) -> (r: Node)
    ensures
        r@ == spec_build_spec_node(build@),
{
    let mut entries: Vec<(Node, Node)> = Vec::new();
    entries.push(field("baseimage", text_node(&build.base_image)));
    entries.push(field("description", optional_text_node(&build.description)));
    entries.push(field("sourcecode", source_code_node(&build.source_code)));
    assert(entry_views(entries@) =~= spec_build_spec_node(build@)->Mapping_0);
    mapping_node(entries)
}

/// Writes where a run writes what it produces as a document.
pub fn output_data_node(output: &OutputDataSpec) -> (r: Node)
    ensures
        r@ == spec_output_data_node(output@),
{
    let mut entries: Vec<(Node, Node)> = Vec::new();
    entries.push(field("datapath", text_node(&output.data_path)));
    entries.push(field("url", text_node(&output.url)));
    assert(entry_views(entries@) =~= spec_output_data_node(output@)->Mapping_0);
    mapping_node(entries)
}

/// Writes where the input of a run comes from as a document.
pub fn input_data_node(input: &InputDataSpec) -> (r: Node)
    ensures
        r@ == spec_input_data_node(input@),
{
    let mut entries: Vec<(Node, Node)> = Vec::new();
    entries.push(field("datapath", text_node(&input.data_path)));
    entries.push(field("transformcmd", optional_text_node(&input.transform_command)));
    entries.push(field("url", text_node(&input.url)));
    entries.push(field("type", optional_text_node(&input.data_type)));
    assert(entry_views(entries@) =~= spec_input_data_node(input@)->Mapping_0);
    mapping_node(entries)
}

/// Writes a run specification as a document.
pub fn run_spec_node(run: &RunSpec) -> (r: Node)
    ensures
        r@ == spec_run_spec_node(run@),
{
    let mut entries: Vec<(Node, Node)> = Vec::new();
    entries.push(field("build", build_spec_node(&run.build)));
    entries.push(field("outputdata", output_data_node(&run.output_data)));
    let input = match &run.input_data {
        Some(i) => input_data_node(i),
        None => Node::Null,
    };
    entries.push(field("inputdata", input));
    entries.push(field("description", optional_text_node(&run.description)));
    assert(entry_views(entries@) =~= spec_run_spec_node(run@)->Mapping_0);
    mapping_node(entries)
}

} // verus!
