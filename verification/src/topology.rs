//! The call graph seen during an experiment: its nodes are derived from the
//! edges that the trace backend reports.

use crate::models::{edges_view, strings_view, Edge, EdgeView};
use vstd::prelude::*;

verus! {

/// `nodes`, with `name` added at the end unless it is already there.
pub open spec fn with_node(nodes: Seq<Seq<char>>, name: Seq<char>) -> Seq<Seq<char>> {
    if nodes.contains(name) {
        nodes
    } else {
        nodes.push(name)
    }
}

/// The distinct endpoints of `edges`, each at the place where it is first
/// seen when the edges are read in order, `from` before `to`.
pub open spec fn nodes_of(edges: Seq<EdgeView>) -> Seq<Seq<char>>
    decreases edges.len(),
{
    if edges.len() == 0 {
        Seq::empty()
    } else {
        with_node(with_node(nodes_of(edges.drop_last()), edges.last().from), edges.last().to)
    }
}

/// The endpoints of `edges` in reading order: `from` and `to` of the first
/// edge, then of the second, and so on.
pub open spec fn endpoints(edges: Seq<EdgeView>) -> Seq<Seq<char>>
    decreases edges.len(),
{
    if edges.len() == 0 {
        Seq::empty()
    } else {
        endpoints(edges.drop_last()).push(edges.last().from).push(edges.last().to)
    }
}

/// The endpoints in reading order are two for each edge: where the edge is
/// from, then where it goes to.
pub proof fn lemma_endpoints(edges: Seq<EdgeView>)
    ensures
        endpoints(edges).len() == 2 * edges.len(),
        forall|k: int|
            0 <= k < edges.len() ==> endpoints(edges)[2 * k] == (#[trigger] edges[k]).from
                && endpoints(edges)[2 * k + 1] == edges[k].to,
    decreases edges.len(),
{
    if edges.len() > 0 {
        let rest = edges.drop_last();
        lemma_endpoints(rest);
        assert forall|k: int| 0 <= k < edges.len() implies endpoints(edges)[2 * k] == (
        #[trigger] edges[k]).from && endpoints(edges)[2 * k + 1] == edges[k].to by {
            if k < rest.len() {
                assert(rest[k] == edges[k]);
            }
        }
    }
}

/// Whether `name` is first seen at place `at` of `names`.
pub open spec fn first_seen_at(names: Seq<Seq<char>>, name: Seq<char>, at: int) -> bool {
    &&& 0 <= at < names.len()
    &&& names[at] == name
    &&& forall|k: int| 0 <= k < at ==> names[k] != name
}

/// Whether `nodes` lists exactly the distinct members of `names`, ordered by
/// where each is first seen.
pub open spec fn lists_in_first_seen_order(nodes: Seq<Seq<char>>, names: Seq<Seq<char>>) -> bool {
    &&& nodes.no_duplicates()
    &&& forall|k: int| 0 <= k < names.len() ==> nodes.contains(#[trigger] names[k])
    &&& forall|i: int| 0 <= i < nodes.len() ==> names.contains(#[trigger] nodes[i])
    &&& forall|i: int, j: int, a: int, b: int|
        0 <= i < j < nodes.len() && #[trigger] first_seen_at(names, nodes[i], a)
            && #[trigger] first_seen_at(names, nodes[j], b) ==> a < b
}

/// Adding a name keeps a first-seen listing a first-seen listing.
proof fn lemma_with_node_lists(nodes: Seq<Seq<char>>, names: Seq<Seq<char>>, name: Seq<char>)
    requires
        lists_in_first_seen_order(nodes, names),
    ensures
        lists_in_first_seen_order(with_node(nodes, name), names.push(name)),
{
    let nodes2 = with_node(nodes, name);
    let names2 = names.push(name);
    assert forall|k: int| 0 <= k < names2.len() implies nodes2.contains(#[trigger] names2[k]) by {
        if k < names.len() {
            assert(names2[k] == names[k]);
            let w = choose|w: int| 0 <= w < nodes.len() && nodes[w] == names[k];
            assert(nodes2[w] == names[k]);
        } else {
            if nodes.contains(name) {
            } else {
                assert(nodes2[nodes.len() as int] == name);
            }
        }
    }
    assert forall|i: int| 0 <= i < nodes2.len() implies names2.contains(#[trigger] nodes2[i]) by {
        if i < nodes.len() {
            assert(nodes2[i] == nodes[i]);
            let w = choose|w: int| 0 <= w < names.len() && names[w] == nodes[i];
            assert(names2[w] == nodes[i]);
        } else {
            assert(names2[names.len() as int] == name);
        }
    }
    assert(nodes2.no_duplicates()) by {
        assert forall|i: int, j: int| 0 <= i < nodes2.len() && 0 <= j < nodes2.len() && i
            != j implies nodes2[i] != nodes2[j] by {
            if i < nodes.len() && j < nodes.len() {
            } else if i < nodes.len() {
                assert(nodes2[j] == name);
                assert(!nodes.contains(name));
            } else {
                assert(nodes2[i] == name);
                assert(!nodes.contains(name));
            }
        }
    }
    assert forall|i: int, j: int, a: int, b: int|
        0 <= i < j < nodes2.len() && #[trigger] first_seen_at(names2, nodes2[i], a)
            && #[trigger] first_seen_at(names2, nodes2[j], b) implies a < b by {
        // nodes2[i] is an old node, so it is first seen within `names`.
        assert(nodes2[i] == nodes[i]);
        let w = choose|w: int| 0 <= w < names.len() && names[w] == nodes[i];
        assert(names2[w] == nodes[i]);
        assert(a < names.len());
        assert(first_seen_at(names, nodes[i], a)) by {
            assert forall|k: int| 0 <= k < a implies names[k] != nodes[i] by {
                assert(names2[k] == names[k]);
            }
            assert(names2[a] == names[a]);
        }
        if j < nodes.len() {
            assert(nodes2[j] == nodes[j]);
            let v = choose|v: int| 0 <= v < names.len() && names[v] == nodes[j];
            assert(names2[v] == nodes[j]);
            assert(b < names.len());
            assert(first_seen_at(names, nodes[j], b)) by {
                assert forall|k: int| 0 <= k < b implies names[k] != nodes[j] by {
                    assert(names2[k] == names[k]);
                }
                assert(names2[b] == names[b]);
            }
        } else {
            // The new node is seen nowhere in `names`.
            assert(nodes2[j] == name);
            assert(!nodes.contains(name));
            if b < names.len() {
                assert(names2[b] == names[b]);
                assert(nodes.contains(names[b]));
            }
        }
    }
}

/// The nodes derived from a sequence of edges are its distinct endpoints, in
/// the order in which they are first seen.
pub proof fn lemma_nodes_in_first_seen_order(edges: Seq<EdgeView>)
    ensures
        lists_in_first_seen_order(nodes_of(edges), endpoints(edges)),
    decreases edges.len(),
{
    if edges.len() > 0 {
        let rest = edges.drop_last();
        lemma_nodes_in_first_seen_order(rest);
        lemma_with_node_lists(nodes_of(rest), endpoints(rest), edges.last().from);
        lemma_with_node_lists(
            with_node(nodes_of(rest), edges.last().from),
            endpoints(rest).push(edges.last().from),
            edges.last().to,
        );
    }
}

/// Every edge begins and ends at a derived node, and there are at most two
/// nodes for each edge.
pub proof fn lemma_nodes_cover_edges(edges: Seq<EdgeView>)
    ensures
        forall|k: int|
            0 <= k < edges.len() ==> nodes_of(edges).contains((#[trigger] edges[k]).from)
                && nodes_of(edges).contains(edges[k].to),
        nodes_of(edges).len() <= 2 * edges.len(),
    decreases edges.len(),
{
    if edges.len() > 0 {
        let rest = edges.drop_last();
        lemma_nodes_cover_edges(rest);
        let mid = with_node(nodes_of(rest), edges.last().from);
        let all = with_node(mid, edges.last().to);
        assert forall|x: Seq<char>| nodes_of(rest).contains(x) implies all.contains(x) by {
            let w = choose|w: int| 0 <= w < nodes_of(rest).len() && nodes_of(rest)[w] == x;
            assert(mid[w] == x);
            assert(all[w] == x);
        }
        assert(all.contains(edges.last().from)) by {
            if nodes_of(rest).contains(edges.last().from) {
            } else {
                assert(mid[nodes_of(rest).len() as int] == edges.last().from);
                assert(all[nodes_of(rest).len() as int] == edges.last().from);
            }
        }
        assert(all.contains(edges.last().to)) by {
            if mid.contains(edges.last().to) {
            } else {
                assert(all[mid.len() as int] == edges.last().to);
            }
        }
        assert forall|k: int| 0 <= k < edges.len() implies nodes_of(edges).contains(
            (#[trigger] edges[k]).from,
        ) && nodes_of(edges).contains(edges[k].to) by {
            if k < rest.len() {
                assert(rest[k] == edges[k]);
            }
        }
    }
}

/// Tells whether `name` is among `nodes`.
fn contains_name(nodes: &Vec<String>, name: &String) -> (found: bool)
    ensures
        found == strings_view(nodes@).contains(name@),
{
    let mut i: usize = 0;
    while i < nodes.len()
        invariant
            i <= nodes.len(),
            forall|k: int| 0 <= k < i ==> strings_view(nodes@)[k] != name@,
        decreases nodes.len() - i,
    {
        if nodes[i] == *name {
            assert(strings_view(nodes@)[i as int] == name@);
            return true;
        }
        i += 1;
    }
    false
}

/// Adds a copy of `name` at the end of `nodes` unless it is already there.
fn add_node(nodes: &mut Vec<String>, name: &String)
    ensures
        strings_view(final(nodes)@) == with_node(strings_view(old(nodes)@), name@),
{
    if !contains_name(nodes, name) {
        nodes.push(name.clone());
        assert(strings_view(nodes@) =~= strings_view(old(nodes)@).push(name@));
    }
}

/// Collects the distinct endpoints of `edges`, in first-seen order.
pub fn collect_nodes(edges: &[Edge]) -> (nodes: Vec<String>)
    ensures
        strings_view(nodes@) == nodes_of(edges_view(edges@)),
        lists_in_first_seen_order(strings_view(nodes@), endpoints(edges_view(edges@))),
{
    let mut nodes: Vec<String> = Vec::new();
    let mut i: usize = 0;
    assert(strings_view(nodes@) =~= nodes_of(edges_view(edges@).take(0)));
    while i < edges.len()
        invariant
            i <= edges.len(),
            strings_view(nodes@) == nodes_of(edges_view(edges@).take(i as int)),
        decreases edges.len() - i,
    {
        let ghost before = edges_view(edges@).take(i as int);
        let ghost upto = edges_view(edges@).take(i + 1);
        assert(upto.drop_last() =~= before);
        assert(upto.last() == edges@[i as int]@);
        add_node(&mut nodes, &edges[i].from);
        add_node(&mut nodes, &edges[i].to);
        i += 1;
    }
    assert(edges_view(edges@).take(i as int) =~= edges_view(edges@));
    proof {
        lemma_nodes_in_first_seen_order(edges_view(edges@));
    }
    nodes
}

} // verus!
