//! What a root collection reaches in a snapshot of the service, and the
//! proof that the rounds of a resolver end and find exactly that.

use crate::collection::{
    absorb_child, absorb_children, absorb_details, absorbed, node_of, start, Node, Resolution,
};
use vstd::prelude::*;

verus! {

/// The children that a snapshot reports for a collection: none for a
/// collection it does not know.
pub open spec fn children_of(
    graph: Map<Seq<char>, Seq<(i32, Seq<char>)>>,
    collection: Seq<char>,
) -> Seq<(i32, Seq<char>)> {
    if graph.contains_key(collection) {
        graph[collection]
    } else {
        Seq::empty()
    }
}

/// The collection has the other collection among its children.
pub open spec fn links_to(
    graph: Map<Seq<char>, Seq<(i32, Seq<char>)>>,
    collection: Seq<char>,
    linked: Seq<char>,
) -> bool {
    exists|k: int|
        0 <= k < children_of(graph, collection).len() && node_of(
            #[trigger] children_of(graph, collection)[k],
        ) == Node::NestedCollection(linked)
}

/// The collection has the item among its children.
pub open spec fn holds_item(
    graph: Map<Seq<char>, Seq<(i32, Seq<char>)>>,
    collection: Seq<char>,
    item: Seq<char>,
) -> bool {
    exists|k: int|
        0 <= k < children_of(graph, collection).len() && node_of(
            #[trigger] children_of(graph, collection)[k],
        ) == Node::Item(item)
}

/// A chain of collections, each linking to the next.
pub open spec fn is_chain(graph: Map<Seq<char>, Seq<(i32, Seq<char>)>>, chain: Seq<Seq<char>>) -> bool {
    &&& chain.len() > 0
    &&& forall|k: int| 0 <= k < chain.len() - 1 ==> links_to(graph, #[trigger] chain[k], chain[k + 1])
}

/// The root is the collection, or links to it through other collections.
pub open spec fn reaches(
    graph: Map<Seq<char>, Seq<(i32, Seq<char>)>>,
    root: Seq<char>,
    collection: Seq<char>,
) -> bool {
    exists|chain: Seq<Seq<char>>|
        #[trigger] is_chain(graph, chain) && chain[0] == root && chain.last() == collection
}

/// The item is a child of the root or of a collection that the root reaches.
pub open spec fn reaches_item(
    graph: Map<Seq<char>, Seq<(i32, Seq<char>)>>,
    root: Seq<char>,
    item: Seq<char>,
) -> bool {
    exists|collection: Seq<char>| #[trigger]
        reaches(graph, root, collection) && holds_item(graph, collection, item)
}

/// What the service answers when asked about the given collections: the
/// children of each, in the order asked.
pub open spec fn answer(graph: Map<Seq<char>, Seq<(i32, Seq<char>)>>, asked: Seq<Seq<char>>) -> Seq<
    Seq<(i32, Seq<char>)>,
> {
    asked.map_values(|collection: Seq<char>| children_of(graph, collection))
}

/// The state after one round against a snapshot.
pub open spec fn round(graph: Map<Seq<char>, Seq<(i32, Seq<char>)>>, state: Resolution) -> Resolution {
    absorbed(state, answer(graph, state.pending))
}

/// The state after at most `limit` rounds against a snapshot, stopping as
/// soon as no collection is pending.
pub open spec fn rounds(
    graph: Map<Seq<char>, Seq<(i32, Seq<char>)>>,
    state: Resolution,
    limit: nat,
) -> Resolution
    decreases limit,
{
    if limit == 0 || state.pending.len() == 0 {
        state
    } else {
        rounds(graph, round(graph, state), (limit - 1) as nat)
    }
}

/// The state knows the child: as an item found, or as a collection seen.
pub open spec fn covers(state: Resolution, child: Node) -> bool {
    match child {
        Node::Item(id) => state.items.contains(id),
        Node::NestedCollection(id) => state.visited.contains(id),
    }
}

/// The state knows every child of the collection.
pub open spec fn expanded(
    graph: Map<Seq<char>, Seq<(i32, Seq<char>)>>,
    state: Resolution,
    collection: Seq<char>,
) -> bool {
    forall|k: int|
        0 <= k < children_of(graph, collection).len() ==> covers(
            state,
            node_of(#[trigger] children_of(graph, collection)[k]),
        )
}

/// Nothing is in the state that the root does not reach, and nothing is in
/// it twice.
pub open spec fn sound(
    graph: Map<Seq<char>, Seq<(i32, Seq<char>)>>,
    root: Seq<char>,
    state: Resolution,
) -> bool {
    &&& state.pending.no_duplicates()
    &&& state.items.no_duplicates()
    &&& forall|c: Seq<char>| #[trigger] state.visited.contains(c) ==> reaches(graph, root, c)
    &&& forall|i: Seq<char>| #[trigger] state.items.contains(i) ==> reaches_item(graph, root, i)
}

/// The pending collections are exactly the ones seen since the round began.
pub open spec fn fresh(state: Resolution, base: Set<Seq<char>>) -> bool {
    &&& forall|c: Seq<char>| #[trigger]
        state.visited.contains(c) <==> base.contains(c) || state.pending.contains(c)
    &&& forall|c: Seq<char>| #[trigger] state.pending.contains(c) ==> !base.contains(c)
}

/// The second state knows all that the first knows.
pub open spec fn grows(first: Resolution, second: Resolution) -> bool {
    &&& forall|c: Seq<char>| #[trigger] first.visited.contains(c) ==> second.visited.contains(c)
    &&& forall|i: Seq<char>| #[trigger] first.items.contains(i) ==> second.items.contains(i)
}

/// What holds between rounds: the state is sound, the root has been seen,
/// and every collection seen and no longer pending has been expanded.
pub open spec fn between_rounds(
    graph: Map<Seq<char>, Seq<(i32, Seq<char>)>>,
    root: Seq<char>,
    state: Resolution,
) -> bool {
    &&& sound(graph, root, state)
    &&& state.visited.contains(root)
    &&& forall|c: Seq<char>| #[trigger] state.pending.contains(c) ==> state.visited.contains(c)
    &&& forall|c: Seq<char>|
        #[trigger] state.visited.contains(c) && !state.pending.contains(c) ==> expanded(
            graph,
            state,
            c,
        )
}

/// The collections that have been asked about.
pub open spec fn asked_about(state: Resolution) -> Set<Seq<char>> {
    state.visited.difference(state.pending.to_set())
}

/// A chain that ends in a collection goes on to every collection that one
/// links to.
pub proof fn lemma_reaches_step(
    graph: Map<Seq<char>, Seq<(i32, Seq<char>)>>,
    root: Seq<char>,
    collection: Seq<char>,
    linked: Seq<char>,
)
    requires
        reaches(graph, root, collection),
        links_to(graph, collection, linked),
    ensures
        reaches(graph, root, linked),
{
    let chain = choose|chain: Seq<Seq<char>>|
        #[trigger] is_chain(graph, chain) && chain[0] == root && chain.last() == collection;
    let longer = chain.push(linked);
    assert forall|k: int| 0 <= k < longer.len() - 1 implies links_to(
        graph,
        #[trigger] longer[k],
        longer[k + 1],
    ) by {
        if k < chain.len() - 1 {
            assert(links_to(graph, chain[k], chain[k + 1]));
        }
    }
    assert(is_chain(graph, longer) && longer[0] == root && longer.last() == linked);
}

/// Every collection is reached from itself.
pub proof fn lemma_reaches_itself(graph: Map<Seq<char>, Seq<(i32, Seq<char>)>>, root: Seq<char>)
    ensures
        reaches(graph, root, root),
{
    let chain = seq![root];
    assert(is_chain(graph, chain) && chain[0] == root && chain.last() == root);
}

/// Looking at one child of a reached collection keeps a sound state sound
/// and makes it know the child.
proof fn lemma_absorb_child(
    graph: Map<Seq<char>, Seq<(i32, Seq<char>)>>,
    root: Seq<char>,
    base: Set<Seq<char>>,
    state: Resolution,
    collection: Seq<char>,
    k: int,
)
    requires
        sound(graph, root, state),
        fresh(state, base),
        reaches(graph, root, collection),
        0 <= k < children_of(graph, collection).len(),
    ensures
        ({
            let next = absorb_child(state, node_of(children_of(graph, collection)[k]));
            &&& sound(graph, root, next)
            &&& fresh(next, base)
            &&& grows(state, next)
            &&& covers(next, node_of(children_of(graph, collection)[k]))
        }),
{
    let child = node_of(children_of(graph, collection)[k]);
    let next = absorb_child(state, child);
    match child {
        Node::Item(id) => {
            assert(holds_item(graph, collection, id));
            assert(reaches_item(graph, root, id));
            if !state.items.contains(id) {
                assert(next.items == state.items.push(id));
                assert(next.items.contains(id)) by {
                    assert(next.items[state.items.len() as int] == id);
                }
                assert forall|i: Seq<char>| #[trigger] next.items.contains(i) implies reaches_item(
                    graph,
                    root,
                    i,
                ) by {
                    if i != id {
                        let j = choose|j: int| 0 <= j < next.items.len() && next.items[j] == i;
                        assert(state.items[j] == i);
                        assert(state.items.contains(i));
                    }
                }
                assert forall|i: Seq<char>| #[trigger] state.items.contains(i) implies next.items.contains(
                    i,
                ) by {
                    let j = choose|j: int| 0 <= j < state.items.len() && state.items[j] == i;
                    assert(next.items[j] == i);
                }
                assert(next.items.no_duplicates()) by {
                    assert forall|a: int, b: int|
                        0 <= a < next.items.len() && 0 <= b < next.items.len() && a != b implies next.items[a]
                        != next.items[b] by {
                        if a == state.items.len() {
                            assert(state.items[b] == next.items[b]);
                        } else if b == state.items.len() {
                            assert(state.items[a] == next.items[a]);
                        }
                    }
                }
            }
        },
        Node::NestedCollection(id) => {
            assert(links_to(graph, collection, id));
            lemma_reaches_step(graph, root, collection, id);
            if !state.visited.contains(id) {
                assert(next.pending == state.pending.push(id));
                assert(!state.pending.contains(id));
                assert forall|c: Seq<char>| #[trigger]
                    next.pending.contains(c) <==> state.pending.contains(c) || c == id by {
                    if next.pending.contains(c) {
                        let j = choose|j: int| 0 <= j < next.pending.len() && next.pending[j] == c;
                        if j < state.pending.len() {
                            assert(state.pending[j] == c);
                        }
                    }
                    if state.pending.contains(c) {
                        let j = choose|j: int| 0 <= j < state.pending.len() && state.pending[j] == c;
                        assert(next.pending[j] == c);
                    }
                    if c == id {
                        assert(next.pending[state.pending.len() as int] == c);
                    }
                }
                assert(next.pending.no_duplicates()) by {
                    assert forall|a: int, b: int|
                        0 <= a < next.pending.len() && 0 <= b < next.pending.len() && a != b implies next.pending[a]
                        != next.pending[b] by {
                        if a == state.pending.len() {
                            assert(state.pending[b] == next.pending[b]);
                            assert(state.pending.contains(next.pending[b]));
                        } else if b == state.pending.len() {
                            assert(state.pending[a] == next.pending[a]);
                            assert(state.pending.contains(next.pending[a]));
                        }
                    }
                }
            }
        },
    }
}

/// Looking at the first children of a reached collection keeps a sound
/// state sound and makes it know each of them.
proof fn lemma_absorb_children(
    graph: Map<Seq<char>, Seq<(i32, Seq<char>)>>,
    root: Seq<char>,
    base: Set<Seq<char>>,
    state: Resolution,
    collection: Seq<char>,
    count: int,
)
    requires
        sound(graph, root, state),
        fresh(state, base),
        reaches(graph, root, collection),
        0 <= count <= children_of(graph, collection).len(),
    ensures
        ({
            let next = absorb_children(state, children_of(graph, collection).take(count));
            &&& sound(graph, root, next)
            &&& fresh(next, base)
            &&& grows(state, next)
            &&& forall|k: int|
                0 <= k < count ==> covers(next, node_of(#[trigger] children_of(graph, collection)[k]))
        }),
    decreases count,
{
    let children = children_of(graph, collection);
    if count > 0 {
        lemma_absorb_children(graph, root, base, state, collection, count - 1);
        let earlier = absorb_children(state, children.take(count - 1));
        assert(children.take(count).drop_last() == children.take(count - 1));
        assert(children.take(count).last() == children[count - 1]);
        lemma_absorb_child(graph, root, base, earlier, collection, count - 1);
        let next = absorb_children(state, children.take(count));
        assert(next == absorb_child(earlier, node_of(children[count - 1])));
        assert forall|k: int| 0 <= k < count implies covers(next, node_of(#[trigger] children[k])) by {
            if k < count - 1 {
                assert(covers(earlier, node_of(children[k])));
            }
        }
    }
}

/// Looking at the answers for the first of the collections asked about
/// keeps a sound state sound and expands each of them.
proof fn lemma_absorb_details(
    graph: Map<Seq<char>, Seq<(i32, Seq<char>)>>,
    root: Seq<char>,
    base: Set<Seq<char>>,
    state: Resolution,
    asked: Seq<Seq<char>>,
    count: int,
)
    requires
        sound(graph, root, state),
        fresh(state, base),
        forall|k: int| 0 <= k < asked.len() ==> reaches(graph, root, #[trigger] asked[k]),
        0 <= count <= asked.len(),
    ensures
        ({
            let next = absorb_details(state, answer(graph, asked).take(count));
            &&& sound(graph, root, next)
            &&& fresh(next, base)
            &&& grows(state, next)
            &&& forall|k: int| 0 <= k < count ==> expanded(graph, next, #[trigger] asked[k])
        }),
    decreases count,
{
    let answers = answer(graph, asked);
    if count > 0 {
        lemma_absorb_details(graph, root, base, state, asked, count - 1);
        let earlier = absorb_details(state, answers.take(count - 1));
        let collection = asked[count - 1];
        let children = children_of(graph, collection);
        assert(answers.take(count).drop_last() == answers.take(count - 1));
        assert(answers.take(count).last() == children);
        assert(children.take(children.len() as int) == children);
        lemma_absorb_children(graph, root, base, earlier, collection, children.len() as int);
        let next = absorb_details(state, answers.take(count));
        assert(next == absorb_children(earlier, children));
        assert forall|k: int| 0 <= k < count implies expanded(graph, next, #[trigger] asked[k]) by {
            if k < count - 1 {
                assert(expanded(graph, earlier, asked[k]));
                assert forall|j: int| 0 <= j < children_of(graph, asked[k]).len() implies covers(
                    next,
                    node_of(#[trigger] children_of(graph, asked[k])[j]),
                ) by {
                    assert(covers(earlier, node_of(children_of(graph, asked[k])[j])));
                }
            }
        }
    }
}

/// A round keeps what holds between rounds, and afterwards the collections
/// asked about are the ones that had been seen before it.
proof fn lemma_round(
    graph: Map<Seq<char>, Seq<(i32, Seq<char>)>>,
    root: Seq<char>,
    state: Resolution,
)
    requires
        between_rounds(graph, root, state),
    ensures
        between_rounds(graph, root, round(graph, state)),
        asked_about(round(graph, state)) == state.visited,
{
    let cleared = Resolution { pending: Seq::empty(), ..state };
    let asked = state.pending;
    let base = state.visited;
    assert forall|k: int| 0 <= k < asked.len() implies reaches(graph, root, #[trigger] asked[k]) by {
        assert(state.pending.contains(asked[k]));
    }
    assert(answer(graph, asked).take(asked.len() as int) == answer(graph, asked));
    lemma_absorb_details(graph, root, base, cleared, asked, asked.len() as int);
    let next = round(graph, state);
    assert(next == absorb_details(cleared, answer(graph, asked)));
    assert forall|c: Seq<char>|
        #[trigger] next.visited.contains(c) && !next.pending.contains(c) implies expanded(
        graph,
        next,
        c,
    ) by {
        assert(base.contains(c));
        if state.pending.contains(c) {
            let k = choose|k: int| 0 <= k < asked.len() && asked[k] == c;
            assert(expanded(graph, next, asked[k]));
        } else {
            assert(expanded(graph, state, c));
            assert forall|j: int| 0 <= j < children_of(graph, c).len() implies covers(
                next,
                node_of(#[trigger] children_of(graph, c)[j]),
            ) by {
                assert(covers(state, node_of(children_of(graph, c)[j])));
                match node_of(children_of(graph, c)[j]) {
                    Node::Item(id) => {
                        assert(cleared.items.contains(id));
                    },
                    Node::NestedCollection(id) => {
                        assert(cleared.visited.contains(id));
                    },
                }
            }
        }
    }
    assert(asked_about(next) =~= state.visited);
}

/// In a set of collections that is closed under links, whatever one of its
/// members reaches is a member too.
proof fn lemma_reach_stays_inside(
    graph: Map<Seq<char>, Seq<(i32, Seq<char>)>>,
    universe: Set<Seq<char>>,
    chain: Seq<Seq<char>>,
    k: int,
)
    requires
        is_chain(graph, chain),
        universe.contains(chain[0]),
        forall|c: Seq<char>, d: Seq<char>|
            universe.contains(c) && #[trigger] links_to(graph, c, d) ==> universe.contains(d),
        0 <= k < chain.len(),
    ensures
        universe.contains(chain[k]),
    decreases k,
{
    if k > 0 {
        lemma_reach_stays_inside(graph, universe, chain, k - 1);
        assert(links_to(graph, chain[k - 1], chain[k]));
    }
}

/// Once no collection is pending, every collection on a chain from the
/// root has been seen.
proof fn lemma_chain_is_seen(
    graph: Map<Seq<char>, Seq<(i32, Seq<char>)>>,
    root: Seq<char>,
    state: Resolution,
    chain: Seq<Seq<char>>,
    k: int,
)
    requires
        between_rounds(graph, root, state),
        state.pending.len() == 0,
        is_chain(graph, chain),
        chain[0] == root,
        0 <= k < chain.len(),
    ensures
        state.visited.contains(chain[k]),
    decreases k,
{
    if k > 0 {
        lemma_chain_is_seen(graph, root, state, chain, k - 1);
        assert(links_to(graph, chain[k - 1], chain[k]));
        assert(!state.pending.contains(chain[k - 1]));
        assert(expanded(graph, state, chain[k - 1]));
        let j = choose|j: int|
            0 <= j < children_of(graph, chain[k - 1]).len() && node_of(
                #[trigger] children_of(graph, chain[k - 1])[j],
            ) == Node::NestedCollection(chain[k]);
        assert(covers(state, node_of(children_of(graph, chain[k - 1])[j])));
    }
}

/// The rounds end before their limit when the limit is at least the number
/// of collections not asked about yet, and they keep what holds between
/// rounds.
proof fn lemma_rounds_end(
    graph: Map<Seq<char>, Seq<(i32, Seq<char>)>>,
    universe: Set<Seq<char>>,
    root: Seq<char>,
    state: Resolution,
    limit: nat,
)
    requires
        universe.finite(),
        universe.contains(root),
        forall|c: Seq<char>, d: Seq<char>|
            universe.contains(c) && #[trigger] links_to(graph, c, d) ==> universe.contains(d),
        between_rounds(graph, root, state),
        universe.len() - asked_about(state).len() <= limit,
    ensures
        between_rounds(graph, root, rounds(graph, state, limit)),
        rounds(graph, state, limit).pending.len() == 0,
    decreases limit,
{
    assert forall|c: Seq<char>| #[trigger] state.visited.contains(c) implies universe.contains(c) by {
        let chain = choose|chain: Seq<Seq<char>>|
            #[trigger] is_chain(graph, chain) && chain[0] == root && chain.last() == c;
        lemma_reach_stays_inside(graph, universe, chain, chain.len() - 1);
    }
    if state.pending.len() > 0 {
        let first = state.pending[0];
        assert(state.pending.contains(first));
        assert(state.pending.to_set().contains(first));
        let next = round(graph, state);
        lemma_round(graph, root, state);
        assert(asked_about(state).subset_of(state.visited.remove(first)));
        assert(state.visited.subset_of(universe));
        vstd::set_lib::lemma_len_subset(state.visited, universe);
        vstd::set_lib::lemma_len_subset(asked_about(state), state.visited.remove(first));
        assert(asked_about(next).len() >= asked_about(state).len() + 1);
        assert(limit > 0);
        lemma_rounds_end(graph, universe, root, next, (limit - 1) as nat);
    }
}

/// On every finite graph of collections, with or without cycles, the rounds
/// of a resolver end within as many rounds as the graph has collections.
/// What it has found then is exactly what the root reaches: each item that
/// is a child of the root or of a collection linked from it through any
/// number of collections, once, and no identifier that the service tagged
/// as a collection.
///
/// The graph is finite when the root lies in a finite set of collections
/// that holds every collection that one of its members links to.
pub proof fn lemma_resolution_is_complete(
    graph: Map<Seq<char>, Seq<(i32, Seq<char>)>>,
    universe: Set<Seq<char>>,
    root: Seq<char>,
)
    requires
        universe.finite(),
        universe.contains(root),
        forall|c: Seq<char>, d: Seq<char>|
            universe.contains(c) && #[trigger] links_to(graph, c, d) ==> universe.contains(d),
    ensures
        ({
            let end = rounds(graph, start(root), universe.len());
            &&& end.pending.len() == 0
            &&& end.items.no_duplicates()
            &&& forall|item: Seq<char>|
                end.items.contains(item) <==> reaches_item(graph, root, item)
            &&& forall|collection: Seq<char>|
                end.visited.contains(collection) <==> reaches(graph, root, collection)
        }),
{
    let begin = start(root);
    lemma_reaches_itself(graph, root);
    assert(begin.pending.contains(root)) by {
        assert(begin.pending[0] == root);
    }
    assert forall|c: Seq<char>| #[trigger] begin.pending.contains(c) implies c == root by {
        let j = choose|j: int| 0 <= j < begin.pending.len() && begin.pending[j] == c;
    }
    assert(between_rounds(graph, root, begin));
    assert(asked_about(begin) =~= Set::<Seq<char>>::empty());
    lemma_rounds_end(graph, universe, root, begin, universe.len());
    let end = rounds(graph, begin, universe.len());
    assert forall|collection: Seq<char>| reaches(graph, root, collection) implies end.visited.contains(
        collection,
    ) by {
        let chain = choose|chain: Seq<Seq<char>>|
            #[trigger] is_chain(graph, chain) && chain[0] == root && chain.last() == collection;
        lemma_chain_is_seen(graph, root, end, chain, chain.len() - 1);
    }
    assert forall|item: Seq<char>| reaches_item(graph, root, item) implies end.items.contains(
        item,
    ) by {
        let collection = choose|collection: Seq<char>| #[trigger]
            reaches(graph, root, collection) && holds_item(graph, collection, item);
        assert(end.visited.contains(collection));
        assert(!end.pending.contains(collection));
        assert(expanded(graph, end, collection));
        let j = choose|j: int|
            0 <= j < children_of(graph, collection).len() && node_of(
                #[trigger] children_of(graph, collection)[j],
            ) == Node::Item(item);
        assert(covers(end, node_of(children_of(graph, collection)[j])));
    }
}

} // verus!
