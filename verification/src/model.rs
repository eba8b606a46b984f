//! The specification model: what a Build and a Run are made of, and the
//! envelope in which the control plane keeps them.

use vstd::prelude::*;

verus! {

/// One package of one ecosystem. The version is free-form text.
#[derive(Clone, Debug, PartialEq, Eq)]
pub struct Dependency {
    pub name: String,
    pub version: String,
}

pub struct DependencyView {
    pub name: Seq<char>,
    pub version: Seq<char>,
}

impl View for Dependency {
    type V = DependencyView;

    open spec fn view(&self) -> DependencyView {
        DependencyView { name: self.name@, version: self.version@ }
    }
}

/// The packages of each ecosystem, in the order in which they were declared.
/// An ecosystem that is `None` declares nothing.
#[derive(Clone, Debug, PartialEq, Eq)]
pub struct Dependencies {
    pub asdf: Option<Vec<Dependency>>,
    pub cargo: Option<Vec<Dependency>>,
    pub go: Option<Vec<Dependency>>,
    pub gradle: Option<Vec<Dependency>>,
    pub maven: Option<Vec<Dependency>>,
    pub npm: Option<Vec<Dependency>>,
    pub os: Option<Vec<Dependency>>,
    pub pip: Option<Vec<Dependency>>,
    pub yarn: Option<Vec<Dependency>>,
}

pub struct DependenciesView {
    pub asdf: Option<Seq<DependencyView>>,
    pub cargo: Option<Seq<DependencyView>>,
    pub go: Option<Seq<DependencyView>>,
    pub gradle: Option<Seq<DependencyView>>,
    pub maven: Option<Seq<DependencyView>>,
    pub npm: Option<Seq<DependencyView>>,
    pub os: Option<Seq<DependencyView>>,
    pub pip: Option<Seq<DependencyView>>,
    pub yarn: Option<Seq<DependencyView>>,
}

/// The values of a list of packages.
pub open spec fn package_views(list: Seq<Dependency>) -> Seq<DependencyView> {
    Seq::new(list.len(), |i: int| list[i]@)
}

/// The values of the packages of one ecosystem.
pub open spec fn ecosystem_view(list: Option<Vec<Dependency>>) -> Option<Seq<DependencyView>> {
    match list {
        Some(packages) => Some(package_views(packages@)),
        None => None,
    }
}

impl View for Dependencies {
    type V = DependenciesView;

    open spec fn view(&self) -> DependenciesView {
        DependenciesView {
            asdf: ecosystem_view(self.asdf),
            cargo: ecosystem_view(self.cargo),
            go: ecosystem_view(self.go),
            gradle: ecosystem_view(self.gradle),
            maven: ecosystem_view(self.maven),
            npm: ecosystem_view(self.npm),
            os: ecosystem_view(self.os),
            pip: ecosystem_view(self.pip),
            yarn: ecosystem_view(self.yarn),
        }
    }
}

/// The characters of an optional text.
pub open spec fn text_view(text: Option<String>) -> Option<Seq<char>> {
    match text {
        Some(t) => Some(t@),
        None => None,
    }
}

/// Where the source of a build lives and how it is built and started.
/// A branch and a commit may both be given: which of the two counts is for
/// the one who builds to say.
#[derive(Clone, Debug, PartialEq, Eq)]
pub struct SourceCode {
    pub branch: Option<String>,
    pub build_command: Option<String>,
    pub commit: Option<String>,
    pub dependencies: Option<Dependencies>,
    pub dependency_command: Option<String>,
    pub entrypoint: String,
    pub url: String,
}

pub struct SourceCodeView {
    pub branch: Option<Seq<char>>,
    pub build_command: Option<Seq<char>>,
    pub commit: Option<Seq<char>>,
    pub dependencies: Option<DependenciesView>,
    pub dependency_command: Option<Seq<char>>,
    pub entrypoint: Seq<char>,
    pub url: Seq<char>,
}

impl View for SourceCode {
    type V = SourceCodeView;

    open spec fn view(&self) -> SourceCodeView {
        SourceCodeView {
            branch: text_view(self.branch),
            build_command: text_view(self.build_command),
            commit: text_view(self.commit),
            dependencies: match self.dependencies {
                Some(d) => Some(d@),
                None => None,
            },
            dependency_command: text_view(self.dependency_command),
            entrypoint: self.entrypoint@,
            url: self.url@,
        }
    }
}

/// How to produce an executable image from source.
#[derive(Clone, Debug, PartialEq, Eq)]
pub struct BuildSpec {
    pub base_image: String,
    pub description: Option<String>,
    pub source_code: SourceCode,
}

pub struct BuildSpecView {
    pub base_image: Seq<char>,
    pub description: Option<Seq<char>>,
    pub source_code: SourceCodeView,
}

impl View for BuildSpec {
    type V = BuildSpecView;

    open spec fn view(&self) -> BuildSpecView {
        BuildSpecView {
            base_image: self.base_image@,
            description: text_view(self.description),
            source_code: self.source_code@,
        }
    }
}

/// Where the input of a run comes from and how it is prepared.
#[derive(Clone, Debug, PartialEq, Eq)]
pub struct InputDataSpec {
    pub data_path: String,
    pub transform_command: Option<String>,
    pub url: String,
    pub data_type: Option<String>,
}

pub struct InputDataSpecView {
    pub data_path: Seq<char>,
    pub transform_command: Option<Seq<char>>,
    pub url: Seq<char>,
    pub data_type: Option<Seq<char>>,
}

impl View for InputDataSpec {
    type V = InputDataSpecView;

    open spec fn view(&self) -> InputDataSpecView {
        InputDataSpecView {
            data_path: self.data_path@,
            transform_command: text_view(self.transform_command),
            url: self.url@,
            data_type: text_view(self.data_type),
        }
    }
}

/// Where a run has to write what it produces.
#[derive(Clone, Debug, PartialEq, Eq)]
pub struct OutputDataSpec {
    pub data_path: String,
    pub url: String,
}

pub struct OutputDataSpecView {
    pub data_path: Seq<char>,
    pub url: Seq<char>,
}

impl View for OutputDataSpec {
    type V = OutputDataSpecView;

    open spec fn view(&self) -> OutputDataSpecView {
        OutputDataSpecView { data_path: self.data_path@, url: self.url@ }
    }
}

/// One execution request. A run always carries the whole description of
/// its build.
#[derive(Clone, Debug, PartialEq, Eq)]
pub struct RunSpec {
    pub build: BuildSpec,
    pub output_data: OutputDataSpec,
    pub input_data: Option<InputDataSpec>,
    pub description: Option<String>,
}

pub struct RunSpecView {
    pub build: BuildSpecView,
    pub output_data: OutputDataSpecView,
    pub input_data: Option<InputDataSpecView>,
    pub description: Option<Seq<char>>,
}

impl View for RunSpec {
    type V = RunSpecView;

    open spec fn view(&self) -> RunSpecView {
        RunSpecView {
            build: self.build@,
            output_data: self.output_data@,
            input_data: match self.input_data {
                Some(i) => Some(i@),
                None => None,
            },
            description: text_view(self.description),
        }
    }
}

/// What the controller reports of a run. The client only reads it.
#[derive(Clone, Debug, PartialEq, Eq)]
pub struct RunStatus {
    pub current_phase: String,
}

pub struct RunStatusView {
    pub current_phase: Seq<char>,
}

impl View for RunStatus {
    type V = RunStatusView;

    open spec fn view(&self) -> RunStatusView {
        RunStatusView { current_phase: self.current_phase@ }
    }
}

/// The identity of a resource: the name it has, or the prefix from which
/// the control plane is to make one, and the namespace it lives in.
#[derive(Clone, Debug, PartialEq, Eq)]
pub struct RunMetadata {
    pub name: Option<String>,
    pub generate_name: Option<String>,
    pub namespace: String,
    pub creation_timestamp: Option<String>,
}

pub struct RunMetadataView {
    pub name: Option<Seq<char>>,
    pub generate_name: Option<Seq<char>>,
    pub namespace: Seq<char>,
    pub creation_timestamp: Option<Seq<char>>,
}

impl View for RunMetadata {
    type V = RunMetadataView;

    open spec fn view(&self) -> RunMetadataView {
        RunMetadataView {
            name: text_view(self.name),
            generate_name: text_view(self.generate_name),
            namespace: self.namespace@,
            creation_timestamp: text_view(self.creation_timestamp),
        }
    }
}

impl RunMetadataView {
    /// An identity may be submitted when exactly one of the name and the
    /// prefix is set.
    pub open spec fn submittable(self) -> bool {
        (self.name is Some) != (self.generate_name is Some)
    }

    /// An identity that the control plane has accepted carries a name.
    pub open spec fn accepted(self) -> bool {
        self.name is Some
    }
}

/// What a resource describes: a build or a run.
#[derive(Clone, Debug, PartialEq, Eq)]
pub enum ResourceSpec {
    Build(BuildSpec),
    Run(RunSpec),
}

pub enum ResourceSpecView {
    Build(BuildSpecView),
    Run(RunSpecView),
}

impl View for ResourceSpec {
    type V = ResourceSpecView;

    open spec fn view(&self) -> ResourceSpecView {
        match self {
            ResourceSpec::Build(b) => ResourceSpecView::Build(b@),
            ResourceSpec::Run(r) => ResourceSpecView::Run(r@),
        }
    }
}

impl ResourceSpecView {
    /// The description that the author gave, if any.
    pub open spec fn description(self) -> Option<Seq<char>> {
        match self {
            ResourceSpecView::Build(b) => b.description,
            ResourceSpecView::Run(r) => r.description,
        }
    }
}

/// A build or a run as the control plane keeps it.
#[derive(Clone, Debug, PartialEq, Eq)]
pub struct Resource {
    pub metadata: RunMetadata,
    pub spec: ResourceSpec,
    pub status: Option<RunStatus>,
}

pub struct ResourceView {
    pub metadata: RunMetadataView,
    pub spec: ResourceSpecView,
    pub status: Option<RunStatusView>,
}

impl View for Resource {
    type V = ResourceView;

    open spec fn view(&self) -> ResourceView {
        ResourceView {
            metadata: self.metadata@,
            spec: self.spec@,
            status: match self.status {
                Some(s) => Some(s@),
                None => None,
            },
        }
    }
}

} // verus!
