//! The submission engine: what is sent to the control plane for a
//! specification, and what its answer means.
//!
//! There are two ways to submit. To create with a generated name is to send
//! no name but a prefix, and to let the control plane make the name: this
//! cannot meet a resource of the same name. To apply with a client name is
//! to send the name and to force the write: a resource of that name which
//! the same field manager wrote before is overwritten without a word, so
//! that a submission which is sent twice leaves one resource, not two.

use vstd::prelude::*;
use vstd::string::*;
use crate::failure::{Failure, FailureView};
use crate::identity::{extends, spec_extends, spec_valid_name, NAME_PREFIX};
use crate::model::{
    Resource, ResourceSpec, ResourceSpecView, ResourceView, RunMetadata, RunMetadataView,
    text_view,
};

verus! {

/// The field manager under which this client applies.
pub const FIELD_MANAGER: &'static str = "execd";

/// The resource definition of runs.
pub const RUN_DEFINITION: &'static str = "runs.task.execd.at";

/// The namespace that is used where none is configured.
pub const DEFAULT_NAMESPACE: &'static str = "execdev";

/// The status with which the control plane refuses a name that is taken.
pub const STATUS_CONFLICT: u16 = 409;

/// The status with which the control plane says that there is no such
/// resource.
pub const STATUS_NOT_FOUND: u16 = 404;

/// The status with which the control plane refuses a malformed request.
pub const STATUS_BAD_REQUEST: u16 = 400;

/// The status with which the control plane refuses a specification that
/// does not fit its schema.
pub const STATUS_UNPROCESSABLE: u16 = 422;

/// How a resource gets its name.
#[derive(Clone, Debug, PartialEq, Eq)]
pub enum SubmissionStrategy {
    /// The control plane makes the name, beginning with the prefix.
    CreateWithGeneratedName { prefix: String },
    /// The caller gives the name; the write is forced.
    ApplyWithClientName { name: String },
}

pub enum SubmissionStrategyView {
    CreateWithGeneratedName { prefix: Seq<char> },
    ApplyWithClientName { name: Seq<char> },
}

impl View for SubmissionStrategy {
    type V = SubmissionStrategyView;

    open spec fn view(&self) -> SubmissionStrategyView {
        match self {
            SubmissionStrategy::CreateWithGeneratedName { prefix } => {
                SubmissionStrategyView::CreateWithGeneratedName { prefix: prefix@ }
            },
            SubmissionStrategy::ApplyWithClientName { name } => {
                SubmissionStrategyView::ApplyWithClientName { name: name@ }
            },
        }
    }
}

/// What is sent to the control plane.
#[derive(Clone, Debug, PartialEq, Eq)]
pub enum Request {
    /// Create the resource; it carries a prefix and no name.
    Create(Resource),
    /// Apply the resource under [`FIELD_MANAGER`], forced; it carries its
    /// name.
    Apply(Resource),
}

pub enum RequestView {
    Create(ResourceView),
    Apply(ResourceView),
}

impl View for Request {
    type V = RequestView;

    open spec fn view(&self) -> RequestView {
        match self {
            Request::Create(resource) => RequestView::Create(resource@),
            Request::Apply(resource) => RequestView::Apply(resource@),
        }
    }
}

impl RequestView {
    /// The resource that the request carries.
    pub open spec fn resource(self) -> ResourceView {
        match self {
            RequestView::Create(resource) => resource,
            RequestView::Apply(resource) => resource,
        }
    }

    /// Whether the control plane is to make the name.
    pub open spec fn generated(self) -> bool {
        self is Create
    }

    /// The name that the request asks for, or the prefix of it.
    pub open spec fn target(self) -> Seq<char> {
        match self {
            RequestView::Create(resource) => match resource.metadata.generate_name {
                Some(prefix) => prefix,
                None => Seq::empty(),
            },
            RequestView::Apply(resource) => match resource.metadata.name {
                Some(name) => name,
                None => Seq::empty(),
            },
        }
    }
}

/// What the control plane answered.
#[derive(Clone, Debug, PartialEq, Eq)]
pub enum Reply {
    /// It stored the resource; the identity that its answer carries.
    Stored { name: Option<String>, namespace: Option<String> },
    /// It answered with an error status.
    Refused { code: u16, message: String },
    /// No answer came.
    Unreachable { message: String },
}

pub enum ReplyView {
    Stored { name: Option<Seq<char>>, namespace: Option<Seq<char>> },
    Refused { code: u16, message: Seq<char> },
    Unreachable { message: Seq<char> },
}

impl View for Reply {
    type V = ReplyView;

    open spec fn view(&self) -> ReplyView {
        match self {
            Reply::Stored { name, namespace } => ReplyView::Stored {
                name: text_view(*name),
                namespace: text_view(*namespace),
            },
            Reply::Refused { code, message } => ReplyView::Refused {
                code: *code,
                message: message@,
            },
            Reply::Unreachable { message } => ReplyView::Unreachable { message: message@ },
        }
    }
}

/// The identity of a resource that the control plane accepted.
#[derive(Clone, Debug, PartialEq, Eq)]
pub struct Accepted {
    pub name: String,
    pub namespace: String,
}

pub struct AcceptedView {
    pub name: Seq<char>,
    pub namespace: Seq<char>,
}

impl View for Accepted {
    type V = AcceptedView;

    open spec fn view(&self) -> AcceptedView {
        AcceptedView { name: self.name@, namespace: self.namespace@ }
    }
}

/// How a run gets its name: under the name that the user gave, if any;
/// else, where the user asked for a fresh name, under the name that was
/// drawn; else the control plane makes the name from the prefix `run-`.
pub open spec fn spec_choose_strategy(
    name: Option<Seq<char>>,
    fresh: bool,
    drawn: Seq<char>,
) -> SubmissionStrategyView {
    match name {
        Some(given) => SubmissionStrategyView::ApplyWithClientName { name: given },
        None => if fresh {
            SubmissionStrategyView::ApplyWithClientName { name: drawn }
        } else {
            SubmissionStrategyView::CreateWithGeneratedName { prefix: NAME_PREFIX@ }
        },
    }
}

/// The identity with which a specification is submitted: the prefix or the
/// name, never both and never neither.
pub open spec fn spec_identity(strategy: SubmissionStrategyView, namespace: Seq<char>) -> RunMetadataView {
    match strategy {
        SubmissionStrategyView::CreateWithGeneratedName { prefix } => RunMetadataView {
            name: None,
            generate_name: Some(prefix),
            namespace,
            creation_timestamp: None,
        },
        SubmissionStrategyView::ApplyWithClientName { name } => RunMetadataView {
            name: Some(name),
            generate_name: None,
            namespace,
            creation_timestamp: None,
        },
    }
}

/// The request that submits `spec`: the specification unchanged, under the
/// identity of the strategy, without a status.
pub open spec fn spec_prepare(
    spec: ResourceSpecView,
    strategy: SubmissionStrategyView,
    namespace: Seq<char>,
) -> RequestView {
    let resource = ResourceView {
        metadata: spec_identity(strategy, namespace),
        spec,
        status: None,
    };
    match strategy {
        SubmissionStrategyView::CreateWithGeneratedName { .. } => RequestView::Create(resource),
        SubmissionStrategyView::ApplyWithClientName { .. } => RequestView::Apply(resource),
    }
}

/// What an error status means for the resource `name`.
pub open spec fn spec_refusal(code: u16, name: Seq<char>, message: Seq<char>) -> FailureView {
    if code == STATUS_CONFLICT {
        FailureView::Conflict { name, message }
    } else if code == STATUS_NOT_FOUND {
        FailureView::NotFound { name, message }
    } else if code == STATUS_BAD_REQUEST || code == STATUS_UNPROCESSABLE {
        FailureView::Validation { name, message }
    } else {
        FailureView::Transport { name, message }
    }
}

/// Whether the name of an answer fits the request: a generated name is
/// the prefix and at least one character more, each out of `a-z`, `0-9`
/// and `-`; a name that the client chose is that name.
pub open spec fn spec_fits(target: Seq<char>, generated: bool, name: Seq<char>) -> bool {
    if generated {
        spec_extends(target, name)
    } else {
        name == target
    }
}

/// What the answer to a submission means: the accepted identity, whose
/// namespace is that of the request where the answer names none, or the
/// failure. `target` is the name that was asked for, or the prefix of it
/// where the name is `generated` by the control plane. An answer without
/// a name, or with a name that does not fit the request, is a failure.
pub open spec fn spec_settle(
    target: Seq<char>,
    generated: bool,
    namespace: Seq<char>,
    reply: ReplyView,
) -> Result<AcceptedView, FailureView> {
    match reply {
        ReplyView::Stored { name: Some(name), namespace: answered } => if spec_fits(
            target,
            generated,
            name,
        ) {
            Ok(
                AcceptedView {
                    name,
                    namespace: match answered {
                        Some(n) => n,
                        None => namespace,
                    },
                },
            )
        } else {
            Err(
                FailureView::Transport {
                    name: target,
                    message: "the control plane returned the name '"@ + name + "'"@,
                },
            )
        },
        ReplyView::Stored { name: None, .. } => Err(
            FailureView::Transport {
                name: target,
                message: "the control plane returned no name"@,
            },
        ),
        ReplyView::Refused { code, message } => Err(spec_refusal(code, target, message)),
        ReplyView::Unreachable { message } => Err(FailureView::Transport { name: target, message }),
    }
}

/// Chooses how a run gets its name. `name` is the name that the user
/// gave, `fresh` whether the user asked for a fresh one, `drawn` a name
/// from the identity generator.
pub fn choose_strategy(name: Option<String>, fresh: bool, drawn: String) -> (r: SubmissionStrategy)
    ensures
        r@ == spec_choose_strategy(text_view(name), fresh, drawn@),
{
    match name {
        Some(given) => SubmissionStrategy::ApplyWithClientName { name: given },
        None => {
            if fresh {
                SubmissionStrategy::ApplyWithClientName { name: drawn }
            } else {
                SubmissionStrategy::CreateWithGeneratedName {
                    prefix: String::from_str(NAME_PREFIX),
                }
            }
        },
    }
}

/// Makes the request that submits `spec`.
pub fn prepare(spec: ResourceSpec, strategy: SubmissionStrategy, namespace: String) -> (request:
    Request)
    ensures
        request@ == spec_prepare(spec@, strategy@, namespace@),
        request@.resource().metadata.submittable(),
        request@.resource().spec == spec@,
{
    match strategy {
        SubmissionStrategy::CreateWithGeneratedName { prefix } => Request::Create(
            Resource {
                metadata: RunMetadata {
                    name: None,
                    generate_name: Some(prefix),
                    namespace,
                    creation_timestamp: None,
                },
                spec,
                status: None,
            },
        ),
        SubmissionStrategy::ApplyWithClientName { name } => Request::Apply(
            Resource {
                metadata: RunMetadata {
                    name: Some(name),
                    generate_name: None,
                    namespace,
                    creation_timestamp: None,
                },
                spec,
                status: None,
            },
        ),
    }
}

/// What an error status means for the resource `name`.
pub fn refusal(code: u16, name: &str, message: String) -> (failure: Failure)
    ensures
        failure@ == spec_refusal(code, name@, message@),
{
    if code == STATUS_CONFLICT {
        Failure::Conflict { name: String::from_str(name), message }
    } else if code == STATUS_NOT_FOUND {
        Failure::NotFound { name: String::from_str(name), message }
    } else if code == STATUS_BAD_REQUEST || code == STATUS_UNPROCESSABLE {
        Failure::Validation { name: String::from_str(name), message }
    } else {
        Failure::Transport { name: String::from_str(name), message }
    }
}

impl SubmissionStrategy {
    /// A strategy of the same kind with the same text.
    pub fn duplicate(&self) -> (r: SubmissionStrategy)
        ensures
            r@ == self@,
    {
        match self {
            SubmissionStrategy::CreateWithGeneratedName { prefix } => {
                SubmissionStrategy::CreateWithGeneratedName { prefix: prefix.clone() }
            },
            SubmissionStrategy::ApplyWithClientName { name } => {
                SubmissionStrategy::ApplyWithClientName { name: name.clone() }
            },
        }
    }
}

impl Request {
    /// The resource that the request carries.
    pub fn resource(&self) -> (resource: &Resource)
        ensures
            resource@ == self@.resource(),
    {
        match self {
            Request::Create(resource) => resource,
            Request::Apply(resource) => resource,
        }
    }

    /// Whether the control plane is to make the name.
    pub fn generated(&self) -> (r: bool)
        ensures
            r == self@.generated(),
    {
        match self {
            Request::Create(_) => true,
            Request::Apply(_) => false,
        }
    }

    /// The name that the request asks for, or the prefix of it.
    pub fn target(&self) -> (target: &str)
        ensures
            target@ == self@.target(),
    {
        proof {
            reveal_strlit("");
        }
        assert(""@ =~= Seq::<char>::empty());
        match self {
            Request::Create(resource) => match &resource.metadata.generate_name {
                Some(prefix) => prefix.as_str(),
                None => "",
            },
            Request::Apply(resource) => match &resource.metadata.name {
                Some(name) => name.as_str(),
                None => "",
            },
        }
    }
}

/// Whether the name of an answer fits the request.
pub fn fits(target: &str, generated: bool, name: &str) -> (r: bool)
    ensures
        r == spec_fits(target@, generated, name@),
{
    if generated {
        extends(target, name)
    } else {
        String::from_str(name) == String::from_str(target)
    }
}

/// Says what the answer to a submission means. A success is owed exactly
/// where the control plane stored the resource under a name that fits the
/// request.
pub fn settle(target: &str, generated: bool, namespace: String, reply: Reply) -> (r: Result<
    Accepted,
    Failure,
>)
    ensures
        match r {
            Ok(accepted) => spec_settle(target@, generated, namespace@, reply@) == Ok::<
                AcceptedView,
                FailureView,
            >(accepted@),
            Err(failure) => spec_settle(target@, generated, namespace@, reply@) == Err::<
                AcceptedView,
                FailureView,
            >(failure@),
        },
        r is Ok <==> reply@ is Stored && reply@->Stored_name is Some && spec_fits(
            target@,
            generated,
            reply@->Stored_name->0,
        ),
        r matches Ok(accepted) ==> spec_fits(target@, generated, accepted.name@),
{
    match reply {
        Reply::Stored { name: Some(name), namespace: answered } => {
            if fits(target, generated, name.as_str()) {
                let namespace = match answered {
                    Some(n) => n,
                    None => namespace,
                };
                Ok(Accepted { name, namespace })
            } else {
                Err(
                    Failure::Transport {
                        name: String::from_str(target),
                        message: String::from_str("the control plane returned the name '").concat(
                            name.as_str(),
                        ).concat("'"),
                    },
                )
            }
        },
        Reply::Stored { name: None, .. } => Err(
            Failure::Transport {
                name: String::from_str(target),
                message: String::from_str("the control plane returned no name"),
            },
        ),
        Reply::Refused { code, message } => Err(refusal(code, target, message)),
        Reply::Unreachable { message } => Err(
            Failure::Transport { name: String::from_str(target), message },
        ),
    }
}

/// A run that was created under the prefix `run-` and accepted has a name
/// of the form of a run's name: `run-` and at least one character out of
/// `a-z`, `0-9` and `-`.
pub proof fn lemma_accepted_name_has_the_form(namespace: Seq<char>, reply: ReplyView)
    requires
        spec_settle(NAME_PREFIX@, true, namespace, reply) is Ok,
    ensures
        spec_valid_name(spec_settle(NAME_PREFIX@, true, namespace, reply)->Ok_0.name),
        reply matches ReplyView::Stored { name: Some(name), .. } && name == spec_settle(
            NAME_PREFIX@,
            true,
            namespace,
            reply,
        )->Ok_0.name,
{
}

} // verus!
