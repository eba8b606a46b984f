//! The specification loader: from a document to the specification model.
//!
//! A specification is a mapping whose keys are written in lower case
//! without separators. Keys that the model does not know are ignored, a key
//! without a value counts as absent, and loading is all or nothing.
//!
//! A text is loaded as it was written, or not at all. Where the model asks
//! for a text, a value that the document writes as a number or as a truth
//! value is of the wrong type, and the error names its place: `3.10` is
//! the number 3.1 and `True` the truth value, and to take either for a
//! text would change what the author wrote. A version, a commit or a
//! description that looks like one of them is written in quotes:
//! `version: "3.10"`.

use vstd::prelude::*;
use vstd::string::*;
use crate::document::{
    entry_views, item_views, lemma_mapping_view, lemma_sequence_view, parse_document,
    yaml_document, Node, NodeView,
};
use crate::model::{
    BuildSpec, BuildSpecView, Dependencies, DependenciesView, Dependency, DependencyView,
    InputDataSpec, InputDataSpecView, OutputDataSpec, OutputDataSpecView, RunSpec, RunSpecView,
    SourceCode, SourceCodeView, ecosystem_view, package_views, text_view,
};

use crate::report::{build_report, spec_build_report};
use crate::text::line_views;

verus! {

/// Why a document is no specification. Each variant but the first names
/// the place by its path of keys, joined by dots.
#[derive(Clone, Debug, PartialEq, Eq)]
pub enum ParseError {
    /// The text is no YAML document; the reader's message.
    Syntax(String),
    /// A required field is absent or has no value.
    Missing(String),
    /// A value is not of the type that the model asks for.
    WrongType(String),
    /// A field of the model occurs more than once.
    Duplicate(String),
}

pub enum ParseErrorView {
    Syntax(Seq<char>),
    Missing(Seq<char>),
    WrongType(Seq<char>),
    Duplicate(Seq<char>),
}

impl View for ParseError {
    type V = ParseErrorView;

    open spec fn view(&self) -> ParseErrorView {
        match self {
            ParseError::Syntax(m) => ParseErrorView::Syntax(m@),
            ParseError::Missing(p) => ParseErrorView::Missing(p@),
            ParseError::WrongType(p) => ParseErrorView::WrongType(p@),
            ParseError::Duplicate(p) => ParseErrorView::Duplicate(p@),
        }
    }
}

/// What a mapping holds under a key.
pub enum Lookup {
    /// No entry has the key.
    Absent,
    /// Exactly one entry has the key; its value.
    Found(NodeView),
    /// More than one entry has the key.
    Repeated,
}

/// Whether entry `i` of a mapping has the text `key` as its key.
pub open spec fn key_at(entries: Seq<(NodeView, NodeView)>, i: int, key: Seq<char>) -> bool {
    0 <= i < entries.len() && entries[i].0 == NodeView::Text(key)
}

/// What a mapping holds under `key`, wherever in the mapping it stands.
pub open spec fn lookup(entries: Seq<(NodeView, NodeView)>, key: Seq<char>) -> Lookup {
    if forall|i: int| !key_at(entries, i, key) {
        Lookup::Absent
    } else {
        let i = choose|i: int| key_at(entries, i, key);
        if forall|j: int| key_at(entries, j, key) ==> j == i {
            Lookup::Found(entries[i].1)
        } else {
            Lookup::Repeated
        }
    }
}

/// Whether entry `i` is the one entry of a mapping that has the text `key`
/// as its key.
pub open spec fn key_only_at(entries: Seq<(NodeView, NodeView)>, i: int, key: Seq<char>) -> bool {
    key_at(entries, i, key) && forall|j: int| key_at(entries, j, key) ==> j == i
}

/// A key that stands at one place only is found there.
pub proof fn lemma_found_at(entries: Seq<(NodeView, NodeView)>, i: int, key: Seq<char>)
    requires
        key_only_at(entries, i, key),
    ensures
        lookup(entries, key) == Lookup::Found(entries[i].1),
{
}

/// The path of the field `key` below `path`.
pub open spec fn spec_join(path: Seq<char>, key: Seq<char>) -> Seq<char> {
    if path.len() == 0 {
        key
    } else {
        path + seq!['.'] + key
    }
}

/// The value of an optional field: `None` where the key is absent or has
/// no value.
pub open spec fn spec_optional(
    entries: Seq<(NodeView, NodeView)>,
    key: Seq<char>,
    path: Seq<char>,
) -> Result<Option<NodeView>, ParseErrorView> {
    match lookup(entries, key) {
        Lookup::Absent => Ok(None),
        Lookup::Found(NodeView::Null) => Ok(None),
        Lookup::Found(value) => Ok(Some(value)),
        Lookup::Repeated => Err(ParseErrorView::Duplicate(spec_join(path, key))),
    }
}

/// The value of a required field.
pub open spec fn spec_required(
    entries: Seq<(NodeView, NodeView)>,
    key: Seq<char>,
    path: Seq<char>,
) -> Result<NodeView, ParseErrorView> {
    match spec_optional(entries, key, path) {
        Err(e) => Err(e),
        Ok(None) => Err(ParseErrorView::Missing(spec_join(path, key))),
        Ok(Some(value)) => Ok(value),
    }
}

/// The text that a node stands for where the model asks for a text. Only
/// a text is one, with or without a tag in front of it. A number or a truth
/// value is of the wrong type: the document tree holds the value of such a
/// scalar, not the way it was written, and the value is not the text.
pub open spec fn spec_text(node: NodeView, path: Seq<char>) -> Result<Seq<char>, ParseErrorView>
    decreases node,
{
    match node {
        NodeView::Text(t) => Ok(t),
        NodeView::Tagged(_, inner) => spec_text(*inner, path),
        _ => Err(ParseErrorView::WrongType(path)),
    }
}

/// The text of a required field.
pub open spec fn spec_required_text(
    entries: Seq<(NodeView, NodeView)>,
    key: Seq<char>,
    path: Seq<char>,
) -> Result<Seq<char>, ParseErrorView> {
    match spec_required(entries, key, path) {
        Err(e) => Err(e),
        Ok(value) => spec_text(value, spec_join(path, key)),
    }
}

/// The text of an optional field.
pub open spec fn spec_optional_text(
    entries: Seq<(NodeView, NodeView)>,
    key: Seq<char>,
    path: Seq<char>,
) -> Result<Option<Seq<char>>, ParseErrorView> {
    match spec_optional(entries, key, path) {
        Err(e) => Err(e),
        Ok(None) => Ok(None),
        Ok(Some(value)) => match spec_text(value, spec_join(path, key)) {
            Err(e) => Err(e),
            Ok(t) => Ok(Some(t)),
        },
    }
}

/// The entries of a mapping node.
pub open spec fn spec_entries(node: NodeView, path: Seq<char>) -> Result<
    Seq<(NodeView, NodeView)>,
    ParseErrorView,
> {
    match node {
        NodeView::Mapping(entries) => Ok(entries),
        _ => Err(ParseErrorView::WrongType(path)),
    }
}

/// The value of what a loader returned.
pub open spec fn loaded<T: View>(r: Result<T, ParseError>) -> Result<T::V, ParseErrorView> {
    match r {
        Ok(value) => Ok(value@),
        Err(e) => Err(e@),
    }
}

/// The value of an optional node that a loader returned.
pub open spec fn loaded_node(r: Result<Option<&Node>, ParseError>) -> Result<
    Option<NodeView>,
    ParseErrorView,
> {
    match r {
        Ok(Some(node)) => Ok(Some(node@)),
        Ok(None) => Ok(None),
        Err(e) => Err(e@),
    }
}

/// The value of an optional text that a loader returned.
pub open spec fn loaded_text(r: Result<Option<String>, ParseError>) -> Result<
    Option<Seq<char>>,
    ParseErrorView,
> {
    match r {
        Ok(text) => Ok(text_view(text)),
        Err(e) => Err(e@),
    }
}

/// The values of the entries that a mapping holds.
pub open spec fn entries_view(entries: &Vec<(Node, Node)>) -> Seq<(NodeView, NodeView)> {
    entry_views(entries@)
}

/// The values of the entries that a loader returned.
pub open spec fn loaded_entries(r: Result<&Vec<(Node, Node)>, ParseError>) -> Result<
    Seq<(NodeView, NodeView)>,
    ParseErrorView,
> {
    match r {
        Ok(entries) => Ok(entries_view(entries)),
        Err(e) => Err(e@),
    }
}

/// The path of the field `key` below `path`.
pub fn join(path: &str, key: &str) -> (r: String)
    ensures
        r@ == spec_join(path@, key@),
{
    if path.is_empty() {
        String::from_str(key)
    } else {
        proof {
            reveal_strlit(".");
        }
        assert("."@ == seq!['.']);
        String::from_str(path).concat(".").concat(key)
    }
}

/// Looks `key` up among the entries of a mapping. `Ok(None)` says that no
/// entry has it, `Err(())` that more than one has.
pub fn find<'a>(entries: &'a Vec<(Node, Node)>, key: &str) -> (r: Result<Option<&'a Node>, ()>)
    ensures
        match r {
            Ok(None) => lookup(entry_views(entries@), key@) is Absent,
            Ok(Some(node)) => lookup(entry_views(entries@), key@) == Lookup::Found(node@),
            Err(_) => lookup(entry_views(entries@), key@) is Repeated,
        },
{
    let wanted = String::from_str(key);
    let ghost views = entry_views(entries@);
    let mut found: Option<usize> = None;
    let mut i: usize = 0;
    while i < entries.len()
        invariant
            i <= entries@.len(),
            views == entry_views(entries@),
            wanted@ == key@,
            found is None ==> forall|j: int| 0 <= j < i ==> !key_at(views, j, key@),
            found matches Some(f) ==> f < i && key_at(views, f as int, key@) && forall|j: int|
                0 <= j < i && key_at(views, j, key@) ==> j == f,
        decreases entries@.len() - i,
    {
        let is_key = match &entries[i].0 {
            Node::Text(t) => *t == wanted,
            _ => false,
        };
        assert(is_key == key_at(views, i as int, key@));
        if is_key {
            match found {
                Some(f) => {
                    assert(key_at(views, f as int, key@) && key_at(views, i as int, key@));
                    return Err(());
                },
                None => {
                    found = Some(i);
                },
            }
        }
        i = i + 1;
    }
    match found {
        Some(f) => {
            assert(key_at(views, f as int, key@));
            Ok(Some(&entries[f].1))
        },
        None => Ok(None),
    }
}

/// The value of an optional field.
pub fn optional<'a>(entries: &'a Vec<(Node, Node)>, key: &str, path: &str) -> (r: Result<
    Option<&'a Node>,
    ParseError,
>)
    ensures
        loaded_node(r) == spec_optional(entries_view(entries), key@, path@),
{
    match find(entries, key) {
        Ok(None) => Ok(None),
        Ok(Some(node)) => match node {
            Node::Null => Ok(None),
            _ => Ok(Some(node)),
        },
        Err(_) => Err(ParseError::Duplicate(join(path, key))),
    }
}

/// The value of a required field.
pub fn required<'a>(entries: &'a Vec<(Node, Node)>, key: &str, path: &str) -> (r: Result<
    &'a Node,
    ParseError,
>)
    ensures
        loaded(r) == spec_required(entries_view(entries), key@, path@),
{
    match optional(entries, key, path) {
        Ok(None) => Err(ParseError::Missing(join(path, key))),
        Ok(Some(node)) => Ok(node),
        Err(e) => Err(e),
    }
}

/// The text that a node stands for where the model asks for a text.
pub fn text_of_node(node: &Node, path: &str) -> (r: Result<String, ParseError>)
    ensures
        loaded(r) == spec_text(node@, path@),
    decreases node,
{
    match node {
        Node::Text(t) => Ok(t.clone()),
        Node::Tagged(_, inner) => text_of_node(inner, path),
        _ => Err(ParseError::WrongType(String::from_str(path))),
    }
}

/// The text of a required field.
pub fn required_text(entries: &Vec<(Node, Node)>, key: &str, path: &str) -> (r: Result<
    String,
    ParseError,
>)
    ensures
        loaded(r) == spec_required_text(entries_view(entries), key@, path@),
{
    match required(entries, key, path) {
        Ok(node) => {
            let place = join(path, key);
            text_of_node(node, place.as_str())
        },
        Err(e) => Err(e),
    }
}

/// The text of an optional field.
pub fn optional_text(entries: &Vec<(Node, Node)>, key: &str, path: &str) -> (r: Result<
    Option<String>,
    ParseError,
>)
    ensures
        loaded_text(r) == spec_optional_text(entries_view(entries), key@, path@),
{
    match optional(entries, key, path) {
        Ok(None) => Ok(None),
        Ok(Some(node)) => {
            let place = join(path, key);
            match text_of_node(node, place.as_str()) {
                Ok(t) => Ok(Some(t)),
                Err(e) => Err(e),
            }
        },
        Err(e) => Err(e),
    }
}

/// The entries of a mapping node.
pub fn entries_of<'a>(node: &'a Node, path: &str) -> (r: Result<&'a Vec<(Node, Node)>, ParseError>)
    ensures
        loaded_entries(r) == spec_entries(node@, path@),
{
    match node {
        Node::Mapping(entries) => {
            proof {
                lemma_mapping_view(*entries);
            }
            Ok(entries)
        },
        _ => Err(ParseError::WrongType(String::from_str(path))),
    }
}

/// A package: a mapping with the texts `name` and `version`.
pub open spec fn spec_dependency(node: NodeView, path: Seq<char>) -> Result<
    DependencyView,
    ParseErrorView,
> {
    match spec_entries(node, path) {
        Err(e) => Err(e),
        Ok(entries) => {
            let name = spec_required_text(entries, "name"@, path);
            let version = spec_required_text(entries, "version"@, path);
            if name is Err {
                Err(name->Err_0)
            } else if version is Err {
                Err(version->Err_0)
            } else {
                Ok(DependencyView { name: name->Ok_0, version: version->Ok_0 })
            }
        },
    }
}

/// The packages of a list, in its order; the first item that is no
/// package decides the error.
pub open spec fn spec_packages(items: Seq<NodeView>, path: Seq<char>) -> Result<
    Seq<DependencyView>,
    ParseErrorView,
>
    decreases items.len(),
{
    if items.len() == 0 {
        Ok(Seq::empty())
    } else {
        match spec_packages(items.drop_last(), path) {
            Err(e) => Err(e),
            Ok(front) => match spec_dependency(items.last(), path) {
                Err(e) => Err(e),
                Ok(package) => Ok(front.push(package)),
            },
        }
    }
}

/// The packages of one ecosystem: an optional field that holds a list.
pub open spec fn spec_ecosystem(
    entries: Seq<(NodeView, NodeView)>,
    key: Seq<char>,
    path: Seq<char>,
) -> Result<Option<Seq<DependencyView>>, ParseErrorView> {
    match spec_optional(entries, key, path) {
        Err(e) => Err(e),
        Ok(None) => Ok(None),
        Ok(Some(NodeView::Sequence(items))) => match spec_packages(items, spec_join(path, key)) {
            Err(e) => Err(e),
            Ok(packages) => Ok(Some(packages)),
        },
        Ok(Some(_)) => Err(ParseErrorView::WrongType(spec_join(path, key))),
    }
}

/// The declared dependencies: a mapping from the name of an ecosystem to
/// its packages.
pub open spec fn spec_dependencies(node: NodeView, path: Seq<char>) -> Result<
    DependenciesView,
    ParseErrorView,
> {
    match spec_entries(node, path) {
        Err(e) => Err(e),
        Ok(entries) => {
            let asdf = spec_ecosystem(entries, "asdf"@, path);
            let cargo = spec_ecosystem(entries, "cargo"@, path);
            let go = spec_ecosystem(entries, "go"@, path);
            let gradle = spec_ecosystem(entries, "gradle"@, path);
            let maven = spec_ecosystem(entries, "maven"@, path);
            let npm = spec_ecosystem(entries, "npm"@, path);
            let os = spec_ecosystem(entries, "os"@, path);
            let pip = spec_ecosystem(entries, "pip"@, path);
            let yarn = spec_ecosystem(entries, "yarn"@, path);
            if asdf is Err {
                Err(asdf->Err_0)
            } else if cargo is Err {
                Err(cargo->Err_0)
            } else if go is Err {
                Err(go->Err_0)
            } else if gradle is Err {
                Err(gradle->Err_0)
            } else if maven is Err {
                Err(maven->Err_0)
            } else if npm is Err {
                Err(npm->Err_0)
            } else if os is Err {
                Err(os->Err_0)
            } else if pip is Err {
                Err(pip->Err_0)
            } else if yarn is Err {
                Err(yarn->Err_0)
            } else {
                Ok(
                    DependenciesView {
                        asdf: asdf->Ok_0,
                        cargo: cargo->Ok_0,
                        go: go->Ok_0,
                        gradle: gradle->Ok_0,
                        maven: maven->Ok_0,
                        npm: npm->Ok_0,
                        os: os->Ok_0,
                        pip: pip->Ok_0,
                        yarn: yarn->Ok_0,
                    },
                )
            }
        },
    }
}

/// The dependencies of a source: an optional field that holds a mapping.
pub open spec fn spec_optional_dependencies(
    entries: Seq<(NodeView, NodeView)>,
    key: Seq<char>,
    path: Seq<char>,
) -> Result<Option<DependenciesView>, ParseErrorView> {
    match spec_optional(entries, key, path) {
        Err(e) => Err(e),
        Ok(None) => Ok(None),
        Ok(Some(value)) => match spec_dependencies(value, spec_join(path, key)) {
            Err(e) => Err(e),
            Ok(dependencies) => Ok(Some(dependencies)),
        },
    }
}

/// The source of a build.
pub open spec fn spec_source_code(node: NodeView, path: Seq<char>) -> Result<
    SourceCodeView,
    ParseErrorView,
> {
    match spec_entries(node, path) {
        Err(e) => Err(e),
        Ok(entries) => {
            let branch = spec_optional_text(entries, "branch"@, path);
            let build_command = spec_optional_text(entries, "buildcmd"@, path);
            let commit = spec_optional_text(entries, "commit"@, path);
            let dependencies = spec_optional_dependencies(entries, "dependencies"@, path);
            let dependency_command = spec_optional_text(entries, "depencencycmd"@, path);
            let entrypoint = spec_required_text(entries, "entrypoint"@, path);
            let url = spec_required_text(entries, "url"@, path);
            if branch is Err {
                Err(branch->Err_0)
            } else if build_command is Err {
                Err(build_command->Err_0)
            } else if commit is Err {
                Err(commit->Err_0)
            } else if dependencies is Err {
                Err(dependencies->Err_0)
            } else if dependency_command is Err {
                Err(dependency_command->Err_0)
            } else if entrypoint is Err {
                Err(entrypoint->Err_0)
            } else if url is Err {
                Err(url->Err_0)
            } else {
                Ok(
                    SourceCodeView {
                        branch: branch->Ok_0,
                        build_command: build_command->Ok_0,
                        commit: commit->Ok_0,
                        dependencies: dependencies->Ok_0,
                        dependency_command: dependency_command->Ok_0,
                        entrypoint: entrypoint->Ok_0,
                        url: url->Ok_0,
                    },
                )
            }
        },
    }
}

/// A required field that holds the source of a build.
pub open spec fn spec_required_source_code(
    entries: Seq<(NodeView, NodeView)>,
    key: Seq<char>,
    path: Seq<char>,
) -> Result<SourceCodeView, ParseErrorView> {
    match spec_required(entries, key, path) {
        Err(e) => Err(e),
        Ok(value) => spec_source_code(value, spec_join(path, key)),
    }
}

/// A build specification.
pub open spec fn spec_build_spec(node: NodeView, path: Seq<char>) -> Result<
    BuildSpecView,
    ParseErrorView,
> {
    match spec_entries(node, path) {
        Err(e) => Err(e),
        Ok(entries) => {
            let base_image = spec_required_text(entries, "baseimage"@, path);
            let description = spec_optional_text(entries, "description"@, path);
            let source_code = spec_required_source_code(entries, "sourcecode"@, path);
            if base_image is Err {
                Err(base_image->Err_0)
            } else if description is Err {
                Err(description->Err_0)
            } else if source_code is Err {
                Err(source_code->Err_0)
            } else {
                Ok(
                    BuildSpecView {
                        base_image: base_image->Ok_0,
                        description: description->Ok_0,
                        source_code: source_code->Ok_0,
                    },
                )
            }
        },
    }
}

/// Where a run writes what it produces.
pub open spec fn spec_output_data(node: NodeView, path: Seq<char>) -> Result<
    OutputDataSpecView,
    ParseErrorView,
> {
    match spec_entries(node, path) {
        Err(e) => Err(e),
        Ok(entries) => {
            let data_path = spec_required_text(entries, "datapath"@, path);
            let url = spec_required_text(entries, "url"@, path);
            if data_path is Err {
                Err(data_path->Err_0)
            } else if url is Err {
                Err(url->Err_0)
            } else {
                Ok(OutputDataSpecView { data_path: data_path->Ok_0, url: url->Ok_0 })
            }
        },
    }
}

/// Where the input of a run comes from.
pub open spec fn spec_input_data(node: NodeView, path: Seq<char>) -> Result<
    InputDataSpecView,
    ParseErrorView,
> {
    match spec_entries(node, path) {
        Err(e) => Err(e),
        Ok(entries) => {
            let data_path = spec_required_text(entries, "datapath"@, path);
            let transform_command = spec_optional_text(entries, "transformcmd"@, path);
            let url = spec_required_text(entries, "url"@, path);
            let data_type = spec_optional_text(entries, "type"@, path);
            if data_path is Err {
                Err(data_path->Err_0)
            } else if transform_command is Err {
                Err(transform_command->Err_0)
            } else if url is Err {
                Err(url->Err_0)
            } else if data_type is Err {
                Err(data_type->Err_0)
            } else {
                Ok(
                    InputDataSpecView {
                        data_path: data_path->Ok_0,
                        transform_command: transform_command->Ok_0,
                        url: url->Ok_0,
                        data_type: data_type->Ok_0,
                    },
                )
            }
        },
    }
}

/// A run specification.
pub open spec fn spec_run_spec(node: NodeView, path: Seq<char>) -> Result<
    RunSpecView,
    ParseErrorView,
> {
    match spec_entries(node, path) {
        Err(e) => Err(e),
        Ok(entries) => {
            let build = match spec_required(entries, "build"@, path) {
                Err(e) => Err(e),
                Ok(value) => spec_build_spec(value, spec_join(path, "build"@)),
            };
            let output_data = match spec_required(entries, "outputdata"@, path) {
                Err(e) => Err(e),
                Ok(value) => spec_output_data(value, spec_join(path, "outputdata"@)),
            };
            let input_data = match spec_optional(entries, "inputdata"@, path) {
                Err(e) => Err(e),
                Ok(None) => Ok(None),
                Ok(Some(value)) => match spec_input_data(value, spec_join(path, "inputdata"@)) {
                    Err(e) => Err(e),
                    Ok(input) => Ok(Some(input)),
                },
            };
            let description = spec_optional_text(entries, "description"@, path);
            if build is Err {
                Err(build->Err_0)
            } else if output_data is Err {
                Err(output_data->Err_0)
            } else if input_data is Err {
                Err(input_data->Err_0)
            } else if description is Err {
                Err(description->Err_0)
            } else {
                Ok(
                    RunSpecView {
                        build: build->Ok_0,
                        output_data: output_data->Ok_0,
                        input_data: input_data->Ok_0,
                        description: description->Ok_0,
                    },
                )
            }
        },
    }
}

/// Reads a package.
pub fn read_dependency(node: &Node, path: &str) -> (r: Result<Dependency, ParseError>)
    ensures
        loaded(r) == spec_dependency(node@, path@),
{
    let entries = match entries_of(node, path) {
        Ok(entries) => entries,
        Err(e) => return Err(e),
    };
    let name = match required_text(entries, "name", path) {
        Ok(v) => v,
        Err(e) => return Err(e),
    };
    let version = match required_text(entries, "version", path) {
        Ok(v) => v,
        Err(e) => return Err(e),
    };
    Ok(Dependency { name, version })
}

/// An item that is no package makes the whole list fail with its error.
pub proof fn lemma_packages_fail(items: Seq<NodeView>, k: int, path: Seq<char>)
    requires
        0 <= k <= items.len(),
        spec_packages(items.take(k), path) is Err,
    ensures
        spec_packages(items, path) == spec_packages(items.take(k), path),
    decreases items.len(),
{
    if k == items.len() {
        assert(items.take(k) =~= items);
    } else {
        assert(items.drop_last().take(k) =~= items.take(k));
        lemma_packages_fail(items.drop_last(), k, path);
    }
}

/// The value of a list of packages that a loader returned.
pub open spec fn loaded_packages(r: Result<Vec<Dependency>, ParseError>) -> Result<
    Seq<DependencyView>,
    ParseErrorView,
> {
    match r {
        Ok(packages) => Ok(package_views(packages@)),
        Err(e) => Err(e@),
    }
}

/// Reads the packages of a list.
pub fn read_packages(items: &Vec<Node>, path: &str) -> (r: Result<Vec<Dependency>, ParseError>)
    ensures
        loaded_packages(r) == spec_packages(item_views(items@), path@),
{
    let ghost views = item_views(items@);
    let mut packages: Vec<Dependency> = Vec::new();
    let mut i: usize = 0;
    assert(package_views(packages@) =~= Seq::empty());
    while i < items.len()
        invariant
            i <= items@.len(),
            views == item_views(items@),
            spec_packages(views.take(i as int), path@) == Ok::<Seq<DependencyView>, ParseErrorView>(
                package_views(packages@),
            ),
        decreases items@.len() - i,
    {
        let ghost before = package_views(packages@);
        proof {
            assert(views.take(i + 1).drop_last() =~= views.take(i as int));
            assert(views.take(i + 1).last() == items@[i as int]@);
        }
        match read_dependency(&items[i], path) {
            Ok(package) => {
                packages.push(package);
                assert(package_views(packages@) =~= before.push(package@));
            },
            Err(e) => {
                proof {
                    lemma_packages_fail(views, i + 1, path@);
                }
                return Err(e);
            },
        }
        i = i + 1;
    }
    assert(views.take(i as int) =~= views);
    Ok(packages)
}

/// The value of the packages of an ecosystem that a loader returned.
pub open spec fn loaded_ecosystem(r: Result<Option<Vec<Dependency>>, ParseError>) -> Result<
    Option<Seq<DependencyView>>,
    ParseErrorView,
> {
    match r {
        Ok(packages) => Ok(ecosystem_view(packages)),
        Err(e) => Err(e@),
    }
}

/// Reads the packages of one ecosystem.
pub fn read_ecosystem(entries: &Vec<(Node, Node)>, key: &str, path: &str) -> (r: Result<
    Option<Vec<Dependency>>,
    ParseError,
>)
    ensures
        loaded_ecosystem(r) == spec_ecosystem(entries_view(entries), key@, path@),
{
    match optional(entries, key, path) {
        Err(e) => Err(e),
        Ok(None) => Ok(None),
        Ok(Some(node)) => {
            let place = join(path, key);
            match node {
                Node::Sequence(items) => {
                    proof {
                        lemma_sequence_view(*items);
                    }
                    match read_packages(items, place.as_str()) {
                        Ok(packages) => Ok(Some(packages)),
                        Err(e) => Err(e),
                    }
                },
                _ => Err(ParseError::WrongType(place)),
            }
        },
    }
}

/// Reads the declared dependencies.
pub fn read_dependencies(node: &Node, path: &str) -> (r: Result<Dependencies, ParseError>)
    ensures
        loaded(r) == spec_dependencies(node@, path@),
{
    let entries = match entries_of(node, path) {
        Ok(entries) => entries,
        Err(e) => return Err(e),
    };
    let asdf = match read_ecosystem(entries, "asdf", path) {
        Ok(v) => v,
        Err(e) => return Err(e),
    };
    let cargo = match read_ecosystem(entries, "cargo", path) {
        Ok(v) => v,
        Err(e) => return Err(e),
    };
    let go = match read_ecosystem(entries, "go", path) {
        Ok(v) => v,
        Err(e) => return Err(e),
    };
    let gradle = match read_ecosystem(entries, "gradle", path) {
        Ok(v) => v,
        Err(e) => return Err(e),
    };
    let maven = match read_ecosystem(entries, "maven", path) {
        Ok(v) => v,
        Err(e) => return Err(e),
    };
    let npm = match read_ecosystem(entries, "npm", path) {
        Ok(v) => v,
        Err(e) => return Err(e),
    };
    let os = match read_ecosystem(entries, "os", path) {
        Ok(v) => v,
        Err(e) => return Err(e),
    };
    let pip = match read_ecosystem(entries, "pip", path) {
        Ok(v) => v,
        Err(e) => return Err(e),
    };
    let yarn = match read_ecosystem(entries, "yarn", path) {
        Ok(v) => v,
        Err(e) => return Err(e),
    };
    Ok(Dependencies { asdf, cargo, go, gradle, maven, npm, os, pip, yarn })
}

/// Reads the source of a build.
pub fn read_source_code(node: &Node, path: &str) -> (r: Result<SourceCode, ParseError>)
    ensures
        loaded(r) == spec_source_code(node@, path@),
{
    let entries = match entries_of(node, path) {
        Ok(entries) => entries,
        Err(e) => return Err(e),
    };
    let branch = match optional_text(entries, "branch", path) {
        Ok(v) => v,
        Err(e) => return Err(e),
    };
    let build_command = match optional_text(entries, "buildcmd", path) {
        Ok(v) => v,
        Err(e) => return Err(e),
    };
    let commit = match optional_text(entries, "commit", path) {
        Ok(v) => v,
        Err(e) => return Err(e),
    };
    let dependencies = match optional(entries, "dependencies", path) {
        Err(e) => return Err(e),
        Ok(None) => None,
        Ok(Some(value)) => {
            let place = join(path, "dependencies");
            match read_dependencies(value, place.as_str()) {
                Ok(v) => Some(v),
                Err(e) => return Err(e),
            }
        },
    };
    let dependency_command = match optional_text(entries, "depencencycmd", path) {
        Ok(v) => v,
        Err(e) => return Err(e),
    };
    let entrypoint = match required_text(entries, "entrypoint", path) {
        Ok(v) => v,
        Err(e) => return Err(e),
    };
    let url = match required_text(entries, "url", path) {
        Ok(v) => v,
        Err(e) => return Err(e),
    };
    Ok(
        SourceCode {
            branch,
            build_command,
            commit,
            dependencies,
            dependency_command,
            entrypoint,
            url,
        },
    )
}

/// Reads a build specification.
pub fn read_build_spec(node: &Node, path: &str) -> (r: Result<BuildSpec, ParseError>)
    ensures
        loaded(r) == spec_build_spec(node@, path@),
{
    let entries = match entries_of(node, path) {
        Ok(entries) => entries,
        Err(e) => return Err(e),
    };
    let base_image = match required_text(entries, "baseimage", path) {
        Ok(v) => v,
        Err(e) => return Err(e),
    };
    let description = match optional_text(entries, "description", path) {
        Ok(v) => v,
        Err(e) => return Err(e),
    };
    let source_code = match required(entries, "sourcecode", path) {
        Err(e) => return Err(e),
        Ok(value) => {
            let place = join(path, "sourcecode");
            match read_source_code(value, place.as_str()) {
                Ok(v) => v,
                Err(e) => return Err(e),
            }
        },
    };
    Ok(BuildSpec { base_image, description, source_code })
}

/// Reads where a run writes what it produces.
pub fn read_output_data(node: &Node, path: &str) -> (r: Result<OutputDataSpec, ParseError>)
    ensures
        loaded(r) == spec_output_data(node@, path@),
{
    let entries = match entries_of(node, path) {
        Ok(entries) => entries,
        Err(e) => return Err(e),
    };
    let data_path = match required_text(entries, "datapath", path) {
        Ok(v) => v,
        Err(e) => return Err(e),
    };
    let url = match required_text(entries, "url", path) {
        Ok(v) => v,
        Err(e) => return Err(e),
    };
    Ok(OutputDataSpec { data_path, url })
}

/// Reads where the input of a run comes from.
pub fn read_input_data(node: &Node, path: &str) -> (r: Result<InputDataSpec, ParseError>)
    ensures
        loaded(r) == spec_input_data(node@, path@),
{
    let entries = match entries_of(node, path) {
        Ok(entries) => entries,
        Err(e) => return Err(e),
    };
    let data_path = match required_text(entries, "datapath", path) {
        Ok(v) => v,
        Err(e) => return Err(e),
    };
    let transform_command = match optional_text(entries, "transformcmd", path) {
        Ok(v) => v,
        Err(e) => return Err(e),
    };
    let url = match required_text(entries, "url", path) {
        Ok(v) => v,
        Err(e) => return Err(e),
    };
    let data_type = match optional_text(entries, "type", path) {
        Ok(v) => v,
        Err(e) => return Err(e),
    };
    Ok(InputDataSpec { data_path, transform_command, url, data_type })
}

/// Reads a run specification.
pub fn read_run_spec(node: &Node, path: &str) -> (r: Result<RunSpec, ParseError>)
    ensures
        loaded(r) == spec_run_spec(node@, path@),
{
    let entries = match entries_of(node, path) {
        Ok(entries) => entries,
        Err(e) => return Err(e),
    };
    let build = match required(entries, "build", path) {
        Err(e) => return Err(e),
        Ok(value) => {
            let place = join(path, "build");
            match read_build_spec(value, place.as_str()) {
                Ok(v) => v,
                Err(e) => return Err(e),
            }
        },
    };
    let output_data = match required(entries, "outputdata", path) {
        Err(e) => return Err(e),
        Ok(value) => {
            let place = join(path, "outputdata");
            match read_output_data(value, place.as_str()) {
                Ok(v) => v,
                Err(e) => return Err(e),
            }
        },
    };
    let input_data = match optional(entries, "inputdata", path) {
        Err(e) => return Err(e),
        Ok(None) => None,
        Ok(Some(value)) => {
            let place = join(path, "inputdata");
            match read_input_data(value, place.as_str()) {
                Ok(v) => Some(v),
                Err(e) => return Err(e),
            }
        },
    };
    let description = match optional_text(entries, "description", path) {
        Ok(v) => v,
        Err(e) => return Err(e),
    };
    Ok(RunSpec { build, output_data, input_data, description })
}

/// Reads the run specification that a YAML text holds. The text is read
/// whole: there is a specification or an error, never a part of one.
pub fn parse_run(text: &str) -> (r: Result<RunSpec, ParseError>)
    ensures
        yaml_document(text@) is None ==> r matches Err(ParseError::Syntax(_)),
        yaml_document(text@) matches Some(document) ==> loaded(r) == spec_run_spec(
            document,
            Seq::empty(),
        ),
{
    proof {
        reveal_strlit("");
    }
    assert(""@ =~= Seq::<char>::empty());
    match parse_document(text) {
        Ok(document) => read_run_spec(&document, ""),
        Err(message) => Err(ParseError::Syntax(message)),
    }
}

/// Reads the build specification that a YAML text holds.
pub fn parse_build(text: &str) -> (r: Result<BuildSpec, ParseError>)
    ensures
        yaml_document(text@) is None ==> r matches Err(ParseError::Syntax(_)),
        yaml_document(text@) matches Some(document) ==> loaded(r) == spec_build_spec(
            document,
            Seq::empty(),
        ),
{
    proof {
        reveal_strlit("");
    }
    assert(""@ =~= Seq::<char>::empty());
    match parse_document(text) {
        Ok(document) => read_build_spec(&document, ""),
        Err(message) => Err(ParseError::Syntax(message)),
    }
}

/// Reads the build specification that a YAML text holds and gives the
/// lines that say what it holds.
pub fn parse_devfile(text: &str) -> (r: Result<Vec<String>, ParseError>)
    ensures
        yaml_document(text@) is None ==> r matches Err(ParseError::Syntax(_)),
        yaml_document(text@) matches Some(document) ==> match spec_build_spec(
            document,
            Seq::empty(),
        ) {
            Ok(build) => r is Ok && line_views(r->Ok_0@) == spec_build_report(build),
            Err(error) => r is Err && r->Err_0@ == error,
        },
{
    match parse_build(text) {
        Ok(build) => Ok(build_report(&build)),
        Err(error) => Err(error),
    }
}

} // verus!
