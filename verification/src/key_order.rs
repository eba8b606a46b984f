//! The order of the keys of a document does not matter: two documents that
//! hold the same values under the same keys load to the same
//! specification, or fail with the same error.

use vstd::prelude::*;
use crate::document::NodeView;
use crate::loader::{
    key_at, key_only_at, lemma_found_at, lookup, spec_build_spec, spec_dependencies,
    spec_dependency, spec_ecosystem, spec_entries, spec_input_data, spec_join, spec_optional,
    spec_optional_text, spec_output_data, spec_packages, spec_required, spec_required_text,
    spec_run_spec, spec_source_code, spec_text, Lookup,
};

verus! {

/// Whether two documents say the same, whatever the order of the entries
/// of their mappings: mappings hold the same under every text key,
/// sequences hold the same at every place, and all else is equal.
pub open spec fn spec_same_fields(a: NodeView, b: NodeView) -> bool
    decreases a,
{
    match a {
        NodeView::Mapping(x) => match b {
            NodeView::Mapping(y) => forall|key: Seq<char>|
                match #[trigger] lookup(y, key) {
                    Lookup::Absent => lookup(x, key) is Absent,
                    Lookup::Repeated => lookup(x, key) is Repeated,
                    Lookup::Found(w) => exists|i: int|
                        0 <= i < x.len() && key_only_at(x, i, key) && spec_same_fields(
                            (#[trigger] x[i]).1,
                            w,
                        ),
                },
            _ => false,
        },
        NodeView::Sequence(x) => match b {
            NodeView::Sequence(y) => x.len() == y.len() && forall|i: int|
                0 <= i < x.len() ==> spec_same_fields(#[trigger] x[i], y[i]),
            _ => false,
        },
        _ => a == b,
    }
}

/// A key that stands at two places is repeated.
pub proof fn lemma_repeated_at(entries: Seq<(NodeView, NodeView)>, i: int, j: int, key: Seq<char>)
    requires
        key_at(entries, i, key),
        key_at(entries, j, key),
        i != j,
    ensures
        lookup(entries, key) is Repeated,
{
}

/// What a lookup says of the places of the key.
pub proof fn lemma_lookup_places(entries: Seq<(NodeView, NodeView)>, key: Seq<char>)
    ensures
        lookup(entries, key) is Absent ==> forall|i: int| !key_at(entries, i, key),
        lookup(entries, key) matches Lookup::Found(value) ==> exists|i: int|
            key_only_at(entries, i, key) && entries[i].1 == value,
        lookup(entries, key) is Repeated ==> exists|i: int, j: int|
            key_at(entries, i, key) && key_at(entries, j, key) && i != j,
{
    if !(forall|i: int| !key_at(entries, i, key)) {
        let i = choose|i: int| key_at(entries, i, key);
        if forall|j: int| key_at(entries, j, key) ==> j == i {
            assert(key_only_at(entries, i, key) && entries[i].1 == lookup(entries, key)->Found_0);
        } else {
            let j = choose|j: int| key_at(entries, j, key) && j != i;
            assert(key_at(entries, i, key) && key_at(entries, j, key) && i != j);
        }
    }
}

/// Every document says the same as itself.
pub proof fn lemma_same_fields_reflexive(a: NodeView)
    ensures
        spec_same_fields(a, a),
    decreases a,
{
    match a {
        NodeView::Mapping(x) => {
            assert forall|key: Seq<char>|
                match #[trigger] lookup(x, key) {
                    Lookup::Absent => lookup(x, key) is Absent,
                    Lookup::Repeated => lookup(x, key) is Repeated,
                    Lookup::Found(w) => exists|i: int|
                        0 <= i < x.len() && key_only_at(x, i, key) && spec_same_fields(
                            (#[trigger] x[i]).1,
                            w,
                        ),
                } by {
                lemma_lookup_places(x, key);
                if lookup(x, key) is Found {
                    let i = choose|i: int|
                        key_only_at(x, i, key) && x[i].1 == lookup(x, key)->Found_0;
                    lemma_same_fields_reflexive(x[i].1);
                    assert(0 <= i < x.len() && key_only_at(x, i, key) && spec_same_fields(
                        x[i].1,
                        lookup(x, key)->Found_0,
                    ));
                }
            }
        },
        NodeView::Sequence(x) => {
            assert forall|i: int| 0 <= i < x.len() implies spec_same_fields(#[trigger] x[i], x[i]) by {
                lemma_same_fields_reflexive(x[i]);
            }
        },
        _ => {},
    }
}

/// Two mappings say the same where the entries of the one are the entries
/// of the other in another order, each value saying the same as the value
/// in its place. `to` gives for each place of the first mapping the place
/// in the second, `from` the way back.
pub proof fn lemma_rearranged_says_the_same(
    x: Seq<(NodeView, NodeView)>,
    y: Seq<(NodeView, NodeView)>,
    to: Seq<int>,
    from: Seq<int>,
)
    requires
        x.len() == y.len(),
        to.len() == x.len(),
        from.len() == x.len(),
        forall|i: int| 0 <= i < x.len() ==> 0 <= #[trigger] to[i] < x.len() && from[to[i]] == i,
        forall|j: int| 0 <= j < x.len() ==> 0 <= #[trigger] from[j] < x.len() && to[from[j]] == j,
        forall|i: int|
            0 <= i < x.len() ==> y[#[trigger] to[i]].0 == x[i].0 && spec_same_fields(
                x[i].1,
                y[to[i]].1,
            ),
    ensures
        spec_same_fields(NodeView::Mapping(x), NodeView::Mapping(y)),
{
    assert forall|key: Seq<char>|
        match #[trigger] lookup(y, key) {
            Lookup::Absent => lookup(x, key) is Absent,
            Lookup::Repeated => lookup(x, key) is Repeated,
            Lookup::Found(w) => exists|i: int|
                0 <= i < x.len() && key_only_at(x, i, key) && spec_same_fields(
                    (#[trigger] x[i]).1,
                    w,
                ),
        } by {
        lemma_lookup_places(y, key);
        assert forall|i: int| key_at(x, i, key) implies key_at(y, to[i], key) by {}
        match lookup(y, key) {
            Lookup::Absent => {
                assert forall|i: int| !key_at(x, i, key) by {
                    if key_at(x, i, key) {
                        assert(key_at(y, to[i], key));
                    }
                }
            },
            Lookup::Repeated => {
                let (j1, j2) = choose|j1: int, j2: int|
                    key_at(y, j1, key) && key_at(y, j2, key) && j1 != j2;
                assert(to[from[j1]] == j1 && to[from[j2]] == j2);
                assert(key_at(x, from[j1], key));
                assert(key_at(x, from[j2], key));
                lemma_repeated_at(x, from[j1], from[j2], key);
            },
            Lookup::Found(w) => {
                let j = choose|j: int| key_only_at(y, j, key) && y[j].1 == w;
                let i = from[j];
                assert(to[i] == j);
                assert(key_at(x, i, key));
                assert forall|k: int| key_at(x, k, key) implies k == i by {
                    assert(key_at(y, to[k], key));
                    assert(from[to[k]] == k);
                }
                assert(0 <= i < x.len() && key_only_at(x, i, key) && spec_same_fields(x[i].1, w));
            },
        }
    }
}

/// How the values of one field in two documents go together: both are in
/// error alike, both are absent, or both are there and say the same.
pub open spec fn spec_alike<E>(
    a: Result<Option<NodeView>, E>,
    b: Result<Option<NodeView>, E>,
) -> bool {
    match a {
        Err(e) => b == Err::<Option<NodeView>, E>(e),
        Ok(None) => b == Ok::<Option<NodeView>, E>(None),
        Ok(Some(v)) => b is Ok && b->Ok_0 is Some && spec_same_fields(v, b->Ok_0->0),
    }
}

/// Documents that say the same are of the same kind.
pub proof fn lemma_same_kind(a: NodeView, b: NodeView)
    requires
        spec_same_fields(a, b),
    ensures
        a is Mapping <==> b is Mapping,
        a is Sequence <==> b is Sequence,
        !(a is Mapping) && !(a is Sequence) ==> a == b,
        !(b is Mapping) && !(b is Sequence) ==> a == b,
{
}

/// An optional field is alike in two mappings that say the same.
pub proof fn lemma_same_optional(
    x: Seq<(NodeView, NodeView)>,
    y: Seq<(NodeView, NodeView)>,
    key: Seq<char>,
    path: Seq<char>,
)
    requires
        spec_same_fields(NodeView::Mapping(x), NodeView::Mapping(y)),
    ensures
        spec_alike(spec_optional(x, key, path), spec_optional(y, key, path)),
{
    match lookup(y, key) {
        Lookup::Found(w) => {
            let i = choose|i: int|
                0 <= i < x.len() && key_only_at(x, i, key) && spec_same_fields(
                    (#[trigger] x[i]).1,
                    w,
                );
            lemma_found_at(x, i, key);
            lemma_same_kind(x[i].1, w);
        },
        _ => {},
    }
}

/// A required field is alike in two mappings that say the same.
pub proof fn lemma_same_required(
    x: Seq<(NodeView, NodeView)>,
    y: Seq<(NodeView, NodeView)>,
    key: Seq<char>,
    path: Seq<char>,
)
    requires
        spec_same_fields(NodeView::Mapping(x), NodeView::Mapping(y)),
    ensures
        match spec_required(x, key, path) {
            Err(e) => spec_required(y, key, path) == Err::<NodeView, _>(e),
            Ok(v) => spec_required(y, key, path) is Ok && spec_same_fields(
                v,
                spec_required(y, key, path)->Ok_0,
            ),
        },
{
    lemma_same_optional(x, y, key, path);
}

/// A text is the same in two documents that say the same.
pub proof fn lemma_same_text(a: NodeView, b: NodeView, path: Seq<char>)
    requires
        spec_same_fields(a, b),
    ensures
        spec_text(a, path) == spec_text(b, path),
{
    lemma_same_kind(a, b);
}

/// A required text is the same in two mappings that say the same.
pub proof fn lemma_same_required_text(
    x: Seq<(NodeView, NodeView)>,
    y: Seq<(NodeView, NodeView)>,
    key: Seq<char>,
    path: Seq<char>,
)
    requires
        spec_same_fields(NodeView::Mapping(x), NodeView::Mapping(y)),
    ensures
        spec_required_text(x, key, path) == spec_required_text(y, key, path),
{
    lemma_same_required(x, y, key, path);
    if spec_required(x, key, path) is Ok {
        lemma_same_text(
            spec_required(x, key, path)->Ok_0,
            spec_required(y, key, path)->Ok_0,
            spec_join(path, key),
        );
    }
}

/// An optional text is the same in two mappings that say the same.
pub proof fn lemma_same_optional_text(
    x: Seq<(NodeView, NodeView)>,
    y: Seq<(NodeView, NodeView)>,
    key: Seq<char>,
    path: Seq<char>,
)
    requires
        spec_same_fields(NodeView::Mapping(x), NodeView::Mapping(y)),
    ensures
        spec_optional_text(x, key, path) == spec_optional_text(y, key, path),
{
    lemma_same_optional(x, y, key, path);
    if spec_optional(x, key, path) is Ok && spec_optional(x, key, path)->Ok_0 is Some {
        lemma_same_text(
            spec_optional(x, key, path)->Ok_0->0,
            spec_optional(y, key, path)->Ok_0->0,
            spec_join(path, key),
        );
    }
}

/// Documents that say the same are both mappings or both none.
pub proof fn lemma_same_entries(a: NodeView, b: NodeView, path: Seq<char>)
    requires
        spec_same_fields(a, b),
    ensures
        spec_entries(a, path) is Err ==> spec_entries(b, path) == spec_entries(a, path),
        spec_entries(a, path) is Ok ==> spec_entries(b, path) is Ok,
{
    lemma_same_kind(a, b);
}

/// A package is the same in two documents that say the same.
pub proof fn lemma_same_dependency(a: NodeView, b: NodeView, path: Seq<char>)
    requires
        spec_same_fields(a, b),
    ensures
        spec_dependency(a, path) == spec_dependency(b, path),
{
    lemma_same_entries(a, b, path);
    if a is Mapping {
        let x = a->Mapping_0;
        let y = b->Mapping_0;
        lemma_same_required_text(x, y, "name"@, path);
        lemma_same_required_text(x, y, "version"@, path);
    }
}

/// A list of packages is the same in two lists that say the same.
pub proof fn lemma_same_packages(x: Seq<NodeView>, y: Seq<NodeView>, path: Seq<char>)
    requires
        spec_same_fields(NodeView::Sequence(x), NodeView::Sequence(y)),
    ensures
        spec_packages(x, path) == spec_packages(y, path),
    decreases x.len(),
{
    if x.len() > 0 {
        assert forall|i: int| 0 <= i < x.drop_last().len() implies spec_same_fields(
            #[trigger] x.drop_last()[i],
            y.drop_last()[i],
        ) by {
            assert(spec_same_fields(x[i], y[i]));
        }
        lemma_same_packages(x.drop_last(), y.drop_last(), path);
        assert(spec_same_fields(x[x.len() - 1], y[x.len() - 1]));
        lemma_same_dependency(x.last(), y.last(), path);
    }
}

/// The packages of an ecosystem are the same in two mappings that say the
/// same.
pub proof fn lemma_same_ecosystem(
    x: Seq<(NodeView, NodeView)>,
    y: Seq<(NodeView, NodeView)>,
    key: Seq<char>,
    path: Seq<char>,
)
    requires
        spec_same_fields(NodeView::Mapping(x), NodeView::Mapping(y)),
    ensures
        spec_ecosystem(x, key, path) == spec_ecosystem(y, key, path),
{
    lemma_same_optional(x, y, key, path);
    if spec_optional(x, key, path) is Ok && spec_optional(x, key, path)->Ok_0 is Some {
        let v = spec_optional(x, key, path)->Ok_0->0;
        let w = spec_optional(y, key, path)->Ok_0->0;
        lemma_same_kind(v, w);
        if v is Sequence {
            lemma_same_packages(v->Sequence_0, w->Sequence_0, spec_join(path, key));
        }
    }
}

/// The declared dependencies are the same in two documents that say the
/// same.
pub proof fn lemma_same_dependencies(a: NodeView, b: NodeView, path: Seq<char>)
    requires
        spec_same_fields(a, b),
    ensures
        spec_dependencies(a, path) == spec_dependencies(b, path),
{
    lemma_same_entries(a, b, path);
    if a is Mapping {
        let x = a->Mapping_0;
        let y = b->Mapping_0;
        lemma_same_ecosystem(x, y, "asdf"@, path);
        lemma_same_ecosystem(x, y, "cargo"@, path);
        lemma_same_ecosystem(x, y, "go"@, path);
        lemma_same_ecosystem(x, y, "gradle"@, path);
        lemma_same_ecosystem(x, y, "maven"@, path);
        lemma_same_ecosystem(x, y, "npm"@, path);
        lemma_same_ecosystem(x, y, "os"@, path);
        lemma_same_ecosystem(x, y, "pip"@, path);
        lemma_same_ecosystem(x, y, "yarn"@, path);
    }
}

/// The source of a build is the same in two documents that say the same.
pub proof fn lemma_same_source_code(a: NodeView, b: NodeView, path: Seq<char>)
    requires
        spec_same_fields(a, b),
    ensures
        spec_source_code(a, path) == spec_source_code(b, path),
{
    lemma_same_entries(a, b, path);
    if a is Mapping {
        let x = a->Mapping_0;
        let y = b->Mapping_0;
        lemma_same_optional_text(x, y, "branch"@, path);
        lemma_same_optional_text(x, y, "buildcmd"@, path);
        lemma_same_optional_text(x, y, "commit"@, path);
        lemma_same_optional_text(x, y, "depencencycmd"@, path);
        lemma_same_required_text(x, y, "entrypoint"@, path);
        lemma_same_required_text(x, y, "url"@, path);
        lemma_same_optional(x, y, "dependencies"@, path);
        let found = spec_optional(x, "dependencies"@, path);
        if found is Ok && found->Ok_0 is Some {
            lemma_same_dependencies(
                found->Ok_0->0,
                spec_optional(y, "dependencies"@, path)->Ok_0->0,
                spec_join(path, "dependencies"@),
            );
        }
    }
}

/// A build specification is the same in two documents that say the same.
pub proof fn lemma_same_build_spec(a: NodeView, b: NodeView, path: Seq<char>)
    requires
        spec_same_fields(a, b),
    ensures
        spec_build_spec(a, path) == spec_build_spec(b, path),
{
    lemma_same_entries(a, b, path);
    if a is Mapping {
        let x = a->Mapping_0;
        let y = b->Mapping_0;
        lemma_same_required_text(x, y, "baseimage"@, path);
        lemma_same_optional_text(x, y, "description"@, path);
        lemma_same_required(x, y, "sourcecode"@, path);
        let found = spec_required(x, "sourcecode"@, path);
        if found is Ok {
            lemma_same_source_code(
                found->Ok_0,
                spec_required(y, "sourcecode"@, path)->Ok_0,
                spec_join(path, "sourcecode"@),
            );
        }
    }
}

/// Where a run writes is the same in two documents that say the same.
pub proof fn lemma_same_output_data(a: NodeView, b: NodeView, path: Seq<char>)
    requires
        spec_same_fields(a, b),
    ensures
        spec_output_data(a, path) == spec_output_data(b, path),
{
    lemma_same_entries(a, b, path);
    if a is Mapping {
        let x = a->Mapping_0;
        let y = b->Mapping_0;
        lemma_same_required_text(x, y, "datapath"@, path);
        lemma_same_required_text(x, y, "url"@, path);
    }
}

/// Where the input of a run comes from is the same in two documents that
/// say the same.
pub proof fn lemma_same_input_data(a: NodeView, b: NodeView, path: Seq<char>)
    requires
        spec_same_fields(a, b),
    ensures
        spec_input_data(a, path) == spec_input_data(b, path),
{
    lemma_same_entries(a, b, path);
    if a is Mapping {
        let x = a->Mapping_0;
        let y = b->Mapping_0;
        lemma_same_required_text(x, y, "datapath"@, path);
        lemma_same_optional_text(x, y, "transformcmd"@, path);
        lemma_same_required_text(x, y, "url"@, path);
        lemma_same_optional_text(x, y, "type"@, path);
    }
}

/// Two documents that say the same load to the same run specification, or
/// fail with the same error: the order of the keys, at whatever depth, is
/// of no account.
pub proof fn lemma_same_run_spec(a: NodeView, b: NodeView, path: Seq<char>)
    requires
        spec_same_fields(a, b),
    ensures
        spec_run_spec(a, path) == spec_run_spec(b, path),
{
    lemma_same_entries(a, b, path);
    if a is Mapping {
        let x = a->Mapping_0;
        let y = b->Mapping_0;
        lemma_same_optional_text(x, y, "description"@, path);
        lemma_same_required(x, y, "build"@, path);
        let build = spec_required(x, "build"@, path);
        if build is Ok {
            lemma_same_build_spec(
                build->Ok_0,
                spec_required(y, "build"@, path)->Ok_0,
                spec_join(path, "build"@),
            );
        }
        lemma_same_required(x, y, "outputdata"@, path);
        let output = spec_required(x, "outputdata"@, path);
        if output is Ok {
            lemma_same_output_data(
                output->Ok_0,
                spec_required(y, "outputdata"@, path)->Ok_0,
                spec_join(path, "outputdata"@),
            );
        }
        lemma_same_optional(x, y, "inputdata"@, path);
        let input = spec_optional(x, "inputdata"@, path);
        if input is Ok && input->Ok_0 is Some {
            lemma_same_input_data(
                input->Ok_0->0,
                spec_optional(y, "inputdata"@, path)->Ok_0->0,
                spec_join(path, "inputdata"@),
            );
        }
    }
}

/// A document whose entries are put in another order loads to the same
/// run specification. `to` gives for each entry its new place, `from` the
/// way back.
pub proof fn lemma_key_order_is_of_no_account(
    x: Seq<(NodeView, NodeView)>,
    y: Seq<(NodeView, NodeView)>,
    to: Seq<int>,
    from: Seq<int>,
    path: Seq<char>,
)
    requires
        x.len() == y.len(),
        to.len() == x.len(),
        from.len() == x.len(),
        forall|i: int| 0 <= i < x.len() ==> 0 <= #[trigger] to[i] < x.len() && from[to[i]] == i,
        forall|j: int| 0 <= j < x.len() ==> 0 <= #[trigger] from[j] < x.len() && to[from[j]] == j,
        forall|i: int| 0 <= i < x.len() ==> y[#[trigger] to[i]] == x[i],
    ensures
        spec_run_spec(NodeView::Mapping(x), path) == spec_run_spec(NodeView::Mapping(y), path),
        spec_build_spec(NodeView::Mapping(x), path) == spec_build_spec(NodeView::Mapping(y), path),
{
    assert forall|i: int| 0 <= i < x.len() implies y[#[trigger] to[i]].0 == x[i].0
        && spec_same_fields(x[i].1, y[to[i]].1) by {
        lemma_same_fields_reflexive(x[i].1);
    }
    lemma_rearranged_says_the_same(x, y, to, from);
    lemma_same_run_spec(NodeView::Mapping(x), NodeView::Mapping(y), path);
    lemma_same_build_spec(NodeView::Mapping(x), NodeView::Mapping(y), path);
}

} // verus!
