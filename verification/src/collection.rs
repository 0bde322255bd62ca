//! The expansion of a collection into the items it holds, directly or
//! through the collections it links to.
//!
//! The service answers one batched request for each round: the resolver
//! names the collections to ask about, takes the answer, and keeps the
//! items and the collections it has not asked about yet. Every collection is
//! asked about once, so a collection that links back to one already seen
//! ends nothing and repeats nothing.

use crate::form::{collection_request, indexed_form};
use crate::tables::{set_insert, set_members, set_new};
use rustc_hash::FxHashSet;
use vstd::prelude::*;

verus! {

/// A child of a collection as the service reports it: a numeric tag and an
/// identifier.
#[derive(Debug)]
pub struct CollectionChildren {
    pub filetype: i32,
    pub publishedfileid: String,
}

impl View for CollectionChildren {
    type V = (i32, Seq<char>);

    open spec fn view(&self) -> (i32, Seq<char>) {
        (self.filetype, self.publishedfileid@)
    }
}

impl DeepView for CollectionChildren {
    type V = (i32, Seq<char>);

    open spec fn deep_view(&self) -> (i32, Seq<char>) {
        self@
    }
}

impl CollectionChildren {
    /// The identifier of the child, whatever it is tagged as.
    pub fn into_file_id(self) -> (id: String)
        ensures
            id == self.publishedfileid,
    {
        self.publishedfileid
    }
}

/// The children that the service reports for one collection.
#[derive(Debug)]
pub struct CollectionDetails {
    pub children: Vec<CollectionChildren>,
}

impl View for CollectionDetails {
    type V = Seq<(i32, Seq<char>)>;

    open spec fn view(&self) -> Seq<(i32, Seq<char>)> {
        self.children.deep_view()
    }
}

impl DeepView for CollectionDetails {
    type V = Seq<(i32, Seq<char>)>;

    open spec fn deep_view(&self) -> Seq<(i32, Seq<char>)> {
        self@
    }
}

/// A child of a collection: an item, or a collection that it links to.
#[derive(Debug)]
pub enum CollectionNode {
    Item(String),
    NestedCollection(String),
}

/// A child of a collection, with its identifier as a sequence of characters.
pub enum Node {
    Item(Seq<char>),
    NestedCollection(Seq<char>),
}

impl View for CollectionNode {
    type V = Node;

    open spec fn view(&self) -> Node {
        match self {
            CollectionNode::Item(id) => Node::Item(id@),
            CollectionNode::NestedCollection(id) => Node::NestedCollection(id@),
        }
    }
}

/// What a reported child is: tag 0 marks an item, and every other tag a
/// linked collection (the service uses 2).
pub open spec fn node_of(child: (i32, Seq<char>)) -> Node {
    if child.0 == 0 {
        Node::Item(child.1)
    } else {
        Node::NestedCollection(child.1)
    }
}

impl CollectionNode {
    /// Reads the tag of a reported child, once and for all.
    pub fn decode(child: CollectionChildren) -> (node: CollectionNode)
        ensures
            node@ == node_of(child@),
    {
        if child.filetype == 0 {
            CollectionNode::Item(child.publishedfileid)
        } else {
            CollectionNode::NestedCollection(child.publishedfileid)
        }
    }

    /// Reads the tag of a reported child that is only borrowed.
    pub fn decode_ref(child: &CollectionChildren) -> (node: CollectionNode)
        ensures
            node@ == node_of(child@),
    {
        if child.filetype == 0 {
            CollectionNode::Item(child.publishedfileid.clone())
        } else {
            CollectionNode::NestedCollection(child.publishedfileid.clone())
        }
    }
}

/// The state of an expansion.
pub struct Resolution {
    /// The collections to ask about in the next round.
    pub pending: Seq<Seq<char>>,
    /// Every collection that was asked about or is about to be.
    pub visited: Set<Seq<char>>,
    /// The items found so far, each once, in the order of discovery.
    pub items: Seq<Seq<char>>,
}

/// The state in which nothing is to be asked about and nothing was found.
pub open spec fn nothing() -> Resolution {
    Resolution { pending: Seq::empty(), visited: Set::empty(), items: Seq::empty() }
}

/// The state before the first round: only the root is to be asked about.
pub open spec fn start(root: Seq<char>) -> Resolution {
    Resolution { pending: seq![root], visited: set![root], items: Seq::empty() }
}

/// The state after one more child has been looked at: a new item is kept,
/// a collection not seen before is queued, and anything seen before
/// changes nothing.
pub open spec fn absorb_child(state: Resolution, child: Node) -> Resolution {
    match child {
        Node::Item(id) => if state.items.contains(id) {
            state
        } else {
            Resolution { items: state.items.push(id), ..state }
        },
        Node::NestedCollection(id) => if state.visited.contains(id) {
            state
        } else {
            Resolution {
                pending: state.pending.push(id),
                visited: state.visited.insert(id),
                ..state
            }
        },
    }
}

/// The state after the children of one collection have been looked at, in
/// order.
pub open spec fn absorb_children(state: Resolution, children: Seq<(i32, Seq<char>)>) -> Resolution
    decreases children.len(),
{
    if children.len() == 0 {
        state
    } else {
        absorb_child(absorb_children(state, children.drop_last()), node_of(children.last()))
    }
}

/// The state after the children of several collections have been looked at,
/// in order.
pub open spec fn absorb_details(state: Resolution, details: Seq<Seq<(i32, Seq<char>)>>) -> Resolution
    decreases details.len(),
{
    if details.len() == 0 {
        state
    } else {
        absorb_children(absorb_details(state, details.drop_last()), details.last())
    }
}

/// The state after a round: the collections that were asked about are no
/// longer pending, and the answer has been looked at.
pub open spec fn absorbed(state: Resolution, details: Seq<Seq<(i32, Seq<char>)>>) -> Resolution {
    absorb_details(Resolution { pending: Seq::empty(), ..state }, details)
}

/// The items found so far: their list, and the set of the list's members
/// for looking them up.
struct FoundItems {
    list: Vec<String>,
    index: FxHashSet<String>,
}

impl FoundItems {
    /// The set holds exactly the members of the list.
    #[verifier::type_invariant]
    spec fn consistent(self) -> bool {
        set_members(self.index) == self.list.deep_view().to_set()
    }

    /// The items, in the order of discovery.
    closed spec fn view(&self) -> Seq<Seq<char>> {
        self.list.deep_view()
    }

    /// No items.
    fn new() -> (found: Self)
        ensures
            found.view() == Seq::<Seq<char>>::empty(),
    {
        let list: Vec<String> = Vec::new();
        let index = set_new();
        assert(list.deep_view() =~= Seq::<Seq<char>>::empty());
        assert(list.deep_view().to_set() =~= Set::<Seq<char>>::empty());
        FoundItems { list, index }
    }

    /// The items with one more, unless it is among them already.
    fn with(self, id: String) -> (found: Self)
        ensures
            found.view() == (if self.view().contains(id@) {
                self.view()
            } else {
                self.view().push(id@)
            }),
    {
        proof {
            use_type_invariant(&self);
        }
        let FoundItems { mut list, mut index } = self;
        let ghost before = list.deep_view();
        if set_insert(&mut index, id.clone()) {
            list.push(id);
            proof {
                assert(list.deep_view() =~= before.push(id@));
                before.lemma_push_to_set_commute(id@);
            }
        } else {
            assert(set_members(index) =~= before.to_set());
        }
        FoundItems { list, index }
    }
}

/// Expands a root collection, round by round.
pub struct CollectionResolver {
    pending: Vec<String>,
    visited: FxHashSet<String>,
    found: FoundItems,
}

impl View for CollectionResolver {
    type V = Resolution;

    closed spec fn view(&self) -> Resolution {
        Resolution {
            pending: self.pending.deep_view(),
            visited: set_members(self.visited),
            items: self.found.view(),
        }
    }
}

impl CollectionResolver {
    /// A resolver that has nothing to ask about and has found nothing.
    pub fn empty() -> (resolver: Self)
        ensures
            resolver@ == nothing(),
    {
        let resolver = CollectionResolver {
            pending: Vec::new(),
            visited: set_new(),
            found: FoundItems::new(),
        };
        assert(resolver.pending.deep_view() =~= Seq::<Seq<char>>::empty());
        resolver
    }

    /// A resolver that is about to ask for the root collection.
    pub fn new(root: String) -> (resolver: Self)
        ensures
            resolver@ == start(root@),
    {
        let mut visited = set_new();
        set_insert(&mut visited, root.clone());
        let mut pending: Vec<String> = Vec::new();
        pending.push(root);
        let resolver = CollectionResolver { pending, visited, found: FoundItems::new() };
        assert(resolver.pending.deep_view() =~= seq![root@]);
        assert(set_members(resolver.visited) =~= set![root@]);
        resolver
    }

    /// Whether every collection has been asked about.
    pub fn is_done(&self) -> (done: bool)
        ensures
            done == (self@.pending.len() == 0),
    {
        self.pending.len() == 0
    }

    /// The collections to ask about in the next round.
    pub fn pending(&self) -> (pending: &Vec<String>)
        ensures
            pending.deep_view() == self@.pending,
    {
        &self.pending
    }

    /// The form parameters of the request of the next round.
    pub fn request(&self) -> (form: Vec<(String, String)>)
        ensures
            form.deep_view() == indexed_form("collectioncount"@, self@.pending),
    {
        collection_request(&self.pending)
    }

    /// The items found so far.
    pub fn items(&self) -> (items: &Vec<String>)
        ensures
            items.deep_view() == self@.items,
    {
        &self.found.list
    }

    /// Ends the expansion and hands out the items found.
    pub fn into_items(self) -> (items: Vec<String>)
        ensures
            items.deep_view() == self@.items,
    {
        self.found.list
    }

    /// Looks at one child.
    fn absorb_node(&mut self, node: CollectionNode)
        ensures
            final(self)@ == absorb_child(old(self)@, node@),
    {
        match node {
            CollectionNode::Item(id) => {
                let mut found = FoundItems::new();
                core::mem::swap(&mut self.found, &mut found);
                self.found = found.with(id);
            },
            CollectionNode::NestedCollection(id) => {
                let ghost before = self.pending.deep_view();
                let ghost seen = set_members(self.visited);
                if set_insert(&mut self.visited, id.clone()) {
                    self.pending.push(id);
                    assert(self.pending.deep_view() =~= before.push(id@));
                } else {
                    assert(set_members(self.visited) =~= seen);
                }
            },
        }
    }

    /// Takes the answer to the request of this round: one entry for each
    /// collection asked about, with the children the service reports for it.
    pub fn absorb(&mut self, details: &Vec<CollectionDetails>)
        ensures
            final(self)@ == absorbed(old(self)@, details.deep_view()),
    {
        self.pending = Vec::new();
        assert(self.pending.deep_view() =~= Seq::<Seq<char>>::empty());
        let ghost cleared = self@;
        let mut i: usize = 0;
        while i < details.len()
            invariant
                i <= details.len(),
                self@ == absorb_details(cleared, details.deep_view().take(i as int)),
            decreases details.len() - i,
        {
            let children = &details[i].children;
            let ghost round = self@;
            let mut j: usize = 0;
            while j < children.len()
                invariant
                    j <= children.len(),
                    self@ == absorb_children(round, children.deep_view().take(j as int)),
                decreases children.len() - j,
            {
                self.absorb_node(CollectionNode::decode_ref(&children[j]));
                proof {
                    let next = children.deep_view().take(j + 1);
                    assert(next.drop_last() == children.deep_view().take(j as int));
                    assert(next.last() == children[j as int]@);
                }
                j += 1;
            }
            proof {
                assert(children.deep_view().take(j as int) == children.deep_view());
                let next = details.deep_view().take(i + 1);
                assert(next.drop_last() == details.deep_view().take(i as int));
                assert(next.last() == details[i as int]@);
            }
            i += 1;
        }
        assert(details.deep_view().take(i as int) == details.deep_view());
    }
}

} // verus!
