//! A model of the control plane's object store, as far as the client relies
//! on it: what a submission does to the resources of a cluster, and what a
//! later reading finds. It runs in memory, for rehearsals and tests.

use vstd::prelude::*;
use vstd::string::*;
use crate::model::{Resource, ResourceSpecView, ResourceView, RunMetadata, RunMetadataView};
use crate::report::resource_views;
use crate::submission::{
    spec_prepare, Reply, ReplyView, Request, RequestView, SubmissionStrategyView,
    STATUS_CONFLICT, STATUS_UNPROCESSABLE,
};

verus! {

/// Whether the resource lives in `namespace` under `name`.
pub open spec fn spec_named(resource: ResourceView, namespace: Seq<char>, name: Seq<char>) -> bool {
    resource.metadata.namespace == namespace && resource.metadata.name == Some(name)
}

/// Whether a resource lives in `namespace` under `name`.
pub open spec fn spec_holds(resources: Seq<ResourceView>, namespace: Seq<char>, name: Seq<char>) -> bool {
    exists|i: int| 0 <= i < resources.len() && spec_named(#[trigger] resources[i], namespace, name)
}

/// The place of a resource that lives in `namespace` under `name`.
pub open spec fn spec_place(resources: Seq<ResourceView>, namespace: Seq<char>, name: Seq<char>) -> int {
    choose|i: int| 0 <= i < resources.len() && spec_named(#[trigger] resources[i], namespace, name)
}

/// Every resource has a name, and no two resources of one namespace have
/// the same.
pub open spec fn spec_distinct(resources: Seq<ResourceView>) -> bool {
    &&& forall|i: int| 0 <= i < resources.len() ==> (#[trigger] resources[i]).metadata.name is Some
    &&& forall|i: int, j: int|
        0 <= i < resources.len() && 0 <= j < resources.len() && i != j ==> !spec_named(
            #[trigger] resources[i],
            (#[trigger] resources[j]).metadata.namespace,
            resources[j].metadata.name->0,
        )
}

/// A resource as it is stored for the first time, at the time `now`.
pub open spec fn spec_fresh(request: ResourceView, name: Seq<char>, now: Seq<char>) -> ResourceView {
    ResourceView {
        metadata: RunMetadataView {
            name: Some(name),
            generate_name: request.metadata.generate_name,
            namespace: request.metadata.namespace,
            creation_timestamp: Some(now),
        },
        spec: request.spec,
        status: None,
    }
}

/// What a request does to the resources, and the answer to it.
///
/// To create is to add a resource under the prefix followed by `suffix`,
/// the characters that the control plane chose; a name that is taken is
/// refused as a conflict and nothing changes. To apply is to add the
/// resource under its name, or to put its specification in the place of
/// the one that the resource of that name has.
pub open spec fn spec_submit(
    resources: Seq<ResourceView>,
    request: RequestView,
    suffix: Seq<char>,
    now: Seq<char>,
) -> (Seq<ResourceView>, ReplyView) {
    let namespace = request.resource().metadata.namespace;
    match request {
        RequestView::Create(resource) => {
            let name = request.target() + suffix;
            if spec_holds(resources, namespace, name) {
                (
                    resources,
                    ReplyView::Refused { code: STATUS_CONFLICT, message: "the name is taken"@ },
                )
            } else {
                (
                    resources.push(spec_fresh(resource, name, now)),
                    ReplyView::Stored { name: Some(name), namespace: Some(namespace) },
                )
            }
        },
        RequestView::Apply(resource) => match resource.metadata.name {
            None => (
                resources,
                ReplyView::Refused { code: STATUS_UNPROCESSABLE, message: "a name is required"@ },
            ),
            Some(name) => {
                let reply = ReplyView::Stored { name: Some(name), namespace: Some(namespace) };
                if spec_holds(resources, namespace, name) {
                    let place = spec_place(resources, namespace, name);
                    let kept = resources[place];
                    (
                        resources.update(
                            place,
                            ResourceView {
                                metadata: kept.metadata,
                                spec: resource.spec,
                                status: kept.status,
                            },
                        ),
                        reply,
                    )
                } else {
                    (resources.push(spec_fresh(resource, name, now)), reply)
                }
            },
        },
    }
}

/// The resources of one namespace, in the order in which they were stored.
pub open spec fn spec_in_namespace(resources: Seq<ResourceView>, namespace: Seq<char>) -> Seq<
    ResourceView,
>
    decreases resources.len(),
{
    if resources.len() == 0 {
        Seq::empty()
    } else if resources.last().metadata.namespace == namespace {
        spec_in_namespace(resources.drop_last(), namespace).push(resources.last())
    } else {
        spec_in_namespace(resources.drop_last(), namespace)
    }
}

/// The resources of a cluster.
pub struct Cluster {
    resources: Vec<Resource>,
}

impl View for Cluster {
    type V = Seq<ResourceView>;

    closed spec fn view(&self) -> Seq<ResourceView> {
        resource_views(self.resources@)
    }
}

impl Cluster {
    /// What holds of every cluster that was made by [`Cluster::new`] and
    /// changed by [`Cluster::submit`]: its resources are distinct.
    pub open spec fn wf(&self) -> bool {
        spec_distinct(self@)
    }

    /// A cluster without resources.
    pub fn new() -> (cluster: Cluster)
        ensures
            cluster@ == Seq::<ResourceView>::empty(),
            cluster.wf(),
    {
        let cluster = Cluster { resources: Vec::new() };
        assert(cluster@ =~= Seq::<ResourceView>::empty());
        cluster
    }

    /// The number of resources.
    pub fn count(&self) -> (n: usize)
        ensures
            n == self@.len(),
    {
        self.resources.len()
    }

    /// The place of the resource that lives in `namespace` under `name`.
    fn place(&self, namespace: &str, name: &str) -> (r: Option<usize>)
        ensures
            match r {
                Some(i) => i < self@.len() && spec_named(self@[i as int], namespace@, name@),
                None => !spec_holds(self@, namespace@, name@),
            },
    {
        let wanted_namespace = String::from_str(namespace);
        let wanted_name = String::from_str(name);
        let mut i: usize = 0;
        while i < self.resources.len()
            invariant
                i <= self.resources@.len(),
                wanted_namespace@ == namespace@,
                wanted_name@ == name@,
                forall|k: int| 0 <= k < i ==> !spec_named(#[trigger] self@[k], namespace@, name@),
            decreases self.resources@.len() - i,
        {
            let resource = &self.resources[i];
            let found = match &resource.metadata.name {
                Some(n) => *n == wanted_name && resource.metadata.namespace == wanted_namespace,
                None => false,
            };
            assert(found == spec_named(self@[i as int], namespace@, name@));
            if found {
                return Some(i);
            }
            i = i + 1;
        }
        None
    }

    /// The resource that lives in `namespace` under `name`, if there is
    /// one.
    pub fn fetch(&self, namespace: &str, name: &str) -> (r: Option<&Resource>)
        requires
            self.wf(),
        ensures
            r is Some <==> spec_holds(self@, namespace@, name@),
            r matches Some(resource) ==> resource@ == self@[spec_place(self@, namespace@, name@)],
    {
        match self.place(namespace, name) {
            Some(i) => {
                proof {
                    lemma_one_place(self@, i as int, namespace@, name@);
                }
                Some(&self.resources[i])
            },
            None => None,
        }
    }

    /// The resources of `namespace`, in the order in which they were
    /// stored.
    pub fn list(&self, namespace: &str) -> (r: Vec<&Resource>)
        ensures
            r@.len() == spec_in_namespace(self@, namespace@).len(),
            forall|k: int|
                0 <= k < r@.len() ==> (#[trigger] r@[k])@ == spec_in_namespace(self@, namespace@)[k],
    {
        let wanted = String::from_str(namespace);
        let mut out: Vec<&Resource> = Vec::new();
        let mut i: usize = 0;
        while i < self.resources.len()
            invariant
                i <= self.resources@.len(),
                wanted@ == namespace@,
                out@.len() == spec_in_namespace(self@.take(i as int), namespace@).len(),
                forall|k: int|
                    0 <= k < out@.len() ==> (#[trigger] out@[k])@ == spec_in_namespace(
                        self@.take(i as int),
                        namespace@,
                    )[k],
            decreases self.resources@.len() - i,
        {
            proof {
                assert(self@.take(i + 1).drop_last() =~= self@.take(i as int));
                assert(self@.take(i + 1).last() == self@[i as int]);
            }
            if self.resources[i].metadata.namespace == wanted {
                out.push(&self.resources[i]);
            }
            i = i + 1;
        }
        assert(self@.take(i as int) =~= self@);
        out
    }

    /// Does what the request asks for and answers it. `suffix` is what
    /// the cluster puts behind the prefix of a resource that is created,
    /// `now` the time that it writes on a resource that is new.
    pub fn submit(&mut self, request: Request, suffix: &str, now: &str) -> (reply: Reply)
        requires
            old(self).wf(),
        ensures
            (final(self)@, reply@) == spec_submit(old(self)@, request@, suffix@, now@),
            final(self).wf(),
    {
        let ghost before = self@;
        match request {
            Request::Create(resource) => {
                let prefix = match &resource.metadata.generate_name {
                    Some(p) => p.clone(),
                    None => String::new(),
                };
                let name = prefix.concat(suffix);
                match self.place(resource.metadata.namespace.as_str(), name.as_str()) {
                    Some(_) => Reply::Refused {
                        code: STATUS_CONFLICT,
                        message: String::from_str("the name is taken"),
                    },
                    None => {
                        let answered_name = name.clone();
                        let answered_namespace = resource.metadata.namespace.clone();
                        let fresh = Resource {
                            metadata: RunMetadata {
                                name: Some(name),
                                generate_name: resource.metadata.generate_name,
                                namespace: resource.metadata.namespace,
                                creation_timestamp: Some(String::from_str(now)),
                            },
                            spec: resource.spec,
                            status: None,
                        };
                        proof {
                            lemma_push_keeps_distinct(before, fresh@);
                        }
                        self.resources.push(fresh);
                        assert(self@ =~= before.push(fresh@));
                        Reply::Stored {
                            name: Some(answered_name),
                            namespace: Some(answered_namespace),
                        }
                    },
                }
            },
            Request::Apply(resource) => {
                let name = match &resource.metadata.name {
                    Some(n) => n.clone(),
                    None => {
                        return Reply::Refused {
                            code: STATUS_UNPROCESSABLE,
                            message: String::from_str("a name is required"),
                        };
                    },
                };
                let answered_namespace = resource.metadata.namespace.clone();
                match self.place(resource.metadata.namespace.as_str(), name.as_str()) {
                    Some(i) => {
                        proof {
                            lemma_one_place(before, i as int, answered_namespace@, name@);
                        }
                        let kept = self.resources.remove(i);
                        let renewed = Resource {
                            metadata: kept.metadata,
                            spec: resource.spec,
                            status: kept.status,
                        };
                        proof {
                            lemma_update_keeps_distinct(before, i as int, renewed@);
                        }
                        self.resources.insert(i, renewed);
                        assert(self@ =~= before.update(i as int, renewed@));
                    },
                    None => {
                        let fresh = Resource {
                            metadata: RunMetadata {
                                name: Some(name.clone()),
                                generate_name: resource.metadata.generate_name,
                                namespace: resource.metadata.namespace,
                                creation_timestamp: Some(String::from_str(now)),
                            },
                            spec: resource.spec,
                            status: None,
                        };
                        proof {
                            lemma_push_keeps_distinct(before, fresh@);
                        }
                        self.resources.push(fresh);
                        assert(self@ =~= before.push(fresh@));
                    },
                }
                Reply::Stored { name: Some(name), namespace: Some(answered_namespace) }
            },
        }
    }
}

/// Among distinct resources, the place of a name is the one place where
/// it stands.
pub proof fn lemma_one_place(
    resources: Seq<ResourceView>,
    i: int,
    namespace: Seq<char>,
    name: Seq<char>,
)
    requires
        spec_distinct(resources),
        0 <= i < resources.len(),
        spec_named(resources[i], namespace, name),
    ensures
        spec_holds(resources, namespace, name),
        spec_place(resources, namespace, name) == i,
{
    let j = spec_place(resources, namespace, name);
    assert(spec_named(resources[j], namespace, name));
    if i != j {
        assert(spec_named(resources[i], resources[j].metadata.namespace, resources[j].metadata.name->0));
    }
}

/// A resource under a name that is free may join distinct resources.
pub proof fn lemma_push_keeps_distinct(resources: Seq<ResourceView>, fresh: ResourceView)
    requires
        spec_distinct(resources),
        fresh.metadata.name is Some,
        !spec_holds(resources, fresh.metadata.namespace, fresh.metadata.name->0),
    ensures
        spec_distinct(resources.push(fresh)),
{
    let after = resources.push(fresh);
    assert forall|i: int, j: int|
        0 <= i < after.len() && 0 <= j < after.len() && i != j implies !spec_named(
        #[trigger] after[i],
        (#[trigger] after[j]).metadata.namespace,
        after[j].metadata.name->0,
    ) by {
        if i < resources.len() && j < resources.len() {
            assert(after[i] == resources[i] && after[j] == resources[j]);
        } else if i < resources.len() {
            assert(after[i] == resources[i]);
        } else {
            assert(after[j] == resources[j]);
        }
    }
}

/// A resource may take the place of one that has its name.
pub proof fn lemma_update_keeps_distinct(
    resources: Seq<ResourceView>,
    place: int,
    renewed: ResourceView,
)
    requires
        spec_distinct(resources),
        0 <= place < resources.len(),
        renewed.metadata == resources[place].metadata,
    ensures
        spec_distinct(resources.update(place, renewed)),
{
    let after = resources.update(place, renewed);
    assert forall|i: int, j: int|
        0 <= i < after.len() && 0 <= j < after.len() && i != j implies !spec_named(
        #[trigger] after[i],
        (#[trigger] after[j]).metadata.namespace,
        after[j].metadata.name->0,
    ) by {
        assert(after[i].metadata == resources[i].metadata);
        assert(after[j].metadata == resources[j].metadata);
    }
}

/// Whatever is submitted, the resources stay distinct.
pub proof fn lemma_submit_keeps_distinct(
    resources: Seq<ResourceView>,
    request: RequestView,
    suffix: Seq<char>,
    now: Seq<char>,
)
    requires
        spec_distinct(resources),
    ensures
        spec_distinct(spec_submit(resources, request, suffix, now).0),
{
    let namespace = request.resource().metadata.namespace;
    match request {
        RequestView::Create(resource) => {
            let name = request.target() + suffix;
            if !spec_holds(resources, namespace, name) {
                lemma_push_keeps_distinct(resources, spec_fresh(resource, name, now));
            }
        },
        RequestView::Apply(resource) => {
            if resource.metadata.name is Some {
                let name = resource.metadata.name->0;
                if spec_holds(resources, namespace, name) {
                    let place = spec_place(resources, namespace, name);
                    let renewed = ResourceView {
                        metadata: resources[place].metadata,
                        spec: resource.spec,
                        status: resources[place].status,
                    };
                    lemma_update_keeps_distinct(resources, place, renewed);
                } else {
                    lemma_push_keeps_distinct(resources, spec_fresh(resource, name, now));
                }
            }
        },
    }
}

/// A request that is answered with a stored resource adds one resource or
/// changes one, and leaves every other as it was; a request that is not
/// changes nothing.
pub proof fn lemma_submit_touches_one(
    resources: Seq<ResourceView>,
    request: RequestView,
    suffix: Seq<char>,
    now: Seq<char>,
)
    ensures
        ({
            let after = spec_submit(resources, request, suffix, now);
            &&& !(after.1 is Stored) ==> after.0 == resources
            &&& after.1 is Stored ==> {
                ||| after.0.len() == resources.len() + 1 && after.0.drop_last() == resources
                ||| exists|place: int|
                    0 <= place < resources.len() && after.0 == resources.update(
                        place,
                        #[trigger] after.0[place],
                    )
            }
        }),
{
    let after = spec_submit(resources, request, suffix, now);
    if after.1 is Stored {
        if after.0.len() == resources.len() + 1 {
            assert(after.0.drop_last() =~= resources);
        } else {
            let namespace = request.resource().metadata.namespace;
            let name = request.resource().metadata.name->0;
            let place = spec_place(resources, namespace, name);
            assert(after.0 =~= resources.update(place, after.0[place]));
        }
    }
}

/// A resource that was accepted is found under the name of the answer,
/// with the specification that was submitted.
pub proof fn lemma_accepted_is_found(
    resources: Seq<ResourceView>,
    request: RequestView,
    suffix: Seq<char>,
    now: Seq<char>,
)
    requires
        spec_distinct(resources),
        spec_submit(resources, request, suffix, now).1 is Stored,
    ensures
        ({
            let after = spec_submit(resources, request, suffix, now);
            let namespace = request.resource().metadata.namespace;
            &&& after.1 matches ReplyView::Stored { name: Some(name), namespace: answered }
            &&& after.1->Stored_namespace == Some(namespace)
            &&& spec_holds(after.0, namespace, after.1->Stored_name->0)
            &&& after.0[spec_place(after.0, namespace, after.1->Stored_name->0)].spec
                == request.resource().spec
        }),
{
    let after = spec_submit(resources, request, suffix, now);
    let namespace = request.resource().metadata.namespace;
    let name = after.1->Stored_name->0;
    lemma_submit_keeps_distinct(resources, request, suffix, now);
    if spec_holds(resources, namespace, name) {
        let place = spec_place(resources, namespace, name);
        assert(spec_named(after.0[place], namespace, name));
        lemma_one_place(after.0, place, namespace, name);
    } else {
        let last = resources.len() as int;
        assert(spec_named(after.0[last], namespace, name));
        lemma_one_place(after.0, last, namespace, name);
    }
}

/// To create under a name that is taken changes nothing and is refused
/// as a conflict: a collision of two generated names overwrites nothing.
pub proof fn lemma_taken_name_is_refused(
    resources: Seq<ResourceView>,
    resource: ResourceView,
    suffix: Seq<char>,
    now: Seq<char>,
)
    requires
        spec_holds(
            resources,
            resource.metadata.namespace,
            RequestView::Create(resource).target() + suffix,
        ),
    ensures
        spec_submit(resources, RequestView::Create(resource), suffix, now).0 == resources,
        spec_submit(resources, RequestView::Create(resource), suffix, now).1 matches ReplyView::Refused {
            code,
            ..
        } && code == STATUS_CONFLICT,
{
}

/// To apply twice under one name leaves one resource of that name, and it
/// holds the specification that was applied last. Every other resource is
/// as it was, and where both specifications are the same, the second
/// submission changes nothing at all.
pub proof fn lemma_apply_twice_leaves_one(
    resources: Seq<ResourceView>,
    first: ResourceSpecView,
    second: ResourceSpecView,
    name: Seq<char>,
    namespace: Seq<char>,
    now: Seq<char>,
    later: Seq<char>,
    suffix: Seq<char>,
)
    requires
        spec_distinct(resources),
    ensures
        ({
            let strategy = SubmissionStrategyView::ApplyWithClientName { name };
            let once = spec_submit(
                resources,
                spec_prepare(first, strategy, namespace),
                suffix,
                now,
            ).0;
            let twice = spec_submit(once, spec_prepare(second, strategy, namespace), suffix, later).0;
            &&& spec_distinct(twice)
            &&& twice.len() == once.len()
            &&& spec_holds(twice, namespace, name)
            &&& twice[spec_place(twice, namespace, name)].spec == second
            &&& forall|i: int|
                0 <= i < twice.len() && i != spec_place(twice, namespace, name) ==> twice[i]
                    == once[i] && !spec_named(#[trigger] twice[i], namespace, name)
            &&& first == second ==> twice == once
        }),
{
    let strategy = SubmissionStrategyView::ApplyWithClientName { name };
    let request = spec_prepare(first, strategy, namespace);
    let again = spec_prepare(second, strategy, namespace);
    let once = spec_submit(resources, request, suffix, now).0;
    let twice = spec_submit(once, again, suffix, later).0;
    lemma_submit_keeps_distinct(resources, request, suffix, now);
    lemma_accepted_is_found(resources, request, suffix, now);
    lemma_submit_keeps_distinct(once, again, suffix, later);
    lemma_accepted_is_found(once, again, suffix, later);
    let place = spec_place(once, namespace, name);
    assert(spec_named(once[place], namespace, name));
    assert(spec_named(twice[place], namespace, name));
    lemma_one_place(twice, place, namespace, name);
    assert forall|i: int| 0 <= i < twice.len() && i != place implies twice[i] == once[i]
        && !spec_named(#[trigger] twice[i], namespace, name) by {
        assert(!spec_named(
            twice[i],
            twice[place].metadata.namespace,
            twice[place].metadata.name->0,
        ));
    }
    if first == second {
        assert(twice =~= once);
    }
}

} // verus!
