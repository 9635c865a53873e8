//! The conversation graph and its referential integrity.
//!
//! A graph holds its nodes in the order in which they were added and finds a
//! node by its id. Where two nodes share an id the one added last is found,
//! as in a map that was filled by successive insertions; a graph that passed
//! validation has no such pair.

use crate::dialogue::node::{
    choices_view, copy_nodes, copy_speakers, nodes_view, speakers_view, Choice, ChoiceView,
    DialogueNode, NodeView, Speaker, SpeakerView,
};
use crate::search::{
    first_index, last_index, lemma_first_index, lemma_first_index_is, lemma_first_index_none,
    lemma_last_index, lemma_last_index_is, lemma_last_index_none,
};
use vstd::prelude::*;

verus! {

/// The mathematical value of a conversation graph.
pub struct TreeView {
    pub title: Seq<char>,
    pub start_node: Seq<char>,
    pub speakers: Seq<SpeakerView>,
    pub nodes: Seq<NodeView>,
}

/// The predicate "the node at this position has the id `id`".
pub open spec fn node_has_id(nodes: Seq<NodeView>, id: Seq<char>) -> spec_fn(int) -> bool {
    |i: int| nodes[i].id() == id
}

/// The position at which a lookup of `id` ends: the last node with that id.
pub open spec fn find_node(nodes: Seq<NodeView>, id: Seq<char>) -> Option<int> {
    last_index(nodes.len() as int, node_has_id(nodes, id))
}

/// Whether some node has the id `id`.
pub open spec fn has_node(nodes: Seq<NodeView>, id: Seq<char>) -> bool {
    find_node(nodes, id) is Some
}

/// The predicate "the speaker at this position has the id `id`".
pub open spec fn speaker_has_id(speakers: Seq<SpeakerView>, id: Seq<char>) -> spec_fn(int) -> bool {
    |i: int| speakers[i].id == id
}

/// The position at which a lookup of the speaker `id` ends: the last speaker
/// with that id.
pub open spec fn find_speaker(speakers: Seq<SpeakerView>, id: Seq<char>) -> Option<int> {
    last_index(speakers.len() as int, speaker_has_id(speakers, id))
}

impl TreeView {
    /// The node found under `id`.
    pub open spec fn node(self, id: Seq<char>) -> Option<NodeView> {
        match find_node(self.nodes, id) {
            Some(k) => Some(self.nodes[k]),
            None => None,
        }
    }

    /// The speaker found under `id`.
    pub open spec fn speaker(self, id: Seq<char>) -> Option<SpeakerView> {
        match find_speaker(self.speakers, id) {
            Some(k) => Some(self.speakers[k]),
            None => None,
        }
    }
}

/// `has_node` holds exactly where a node with that id exists.
pub proof fn lemma_has_node(nodes: Seq<NodeView>, id: Seq<char>)
    ensures
        has_node(nodes, id) <==> exists|i: int| 0 <= i < nodes.len() && (#[trigger] nodes[i]).id() == id,
        find_node(nodes, id) matches Some(k) ==> 0 <= k < nodes.len() && nodes[k].id() == id,
{
    let p = node_has_id(nodes, id);
    lemma_last_index(nodes.len() as int, p);
    if !has_node(nodes, id) {
        assert forall|i: int| 0 <= i < nodes.len() implies (#[trigger] nodes[i]).id() != id by {
            assert(!p(i));
        }
    }
}

/// Why a graph was refused.
#[derive(Clone, Debug)]
pub enum GraphError {
    /// The graph has no node.
    EmptyGraph,
    /// Two nodes share this id.
    DuplicateNodeId(String),
    /// No node has the id that the graph names as its start.
    StartNodeNotFound(String),
    /// The text node `node` leads on to `target`, which no node has as its id.
    UnknownNextNode { node: String, target: String },
    /// An option of the choice node `node` leads to `target`, which no node
    /// has as its id.
    UnknownChoiceTarget { node: String, target: String },
}

/// The mathematical value of a [`GraphError`].
pub enum GraphErrorView {
    EmptyGraph,
    DuplicateNodeId(Seq<char>),
    StartNodeNotFound(Seq<char>),
    UnknownNextNode { node: Seq<char>, target: Seq<char> },
    UnknownChoiceTarget { node: Seq<char>, target: Seq<char> },
}

impl View for GraphError {
    type V = GraphErrorView;

    open spec fn view(&self) -> GraphErrorView {
        match *self {
            GraphError::EmptyGraph => GraphErrorView::EmptyGraph,
            GraphError::DuplicateNodeId(id) => GraphErrorView::DuplicateNodeId(id@),
            GraphError::StartNodeNotFound(id) => GraphErrorView::StartNodeNotFound(id@),
            GraphError::UnknownNextNode { node, target } => GraphErrorView::UnknownNextNode {
                node: node@,
                target: target@,
            },
            GraphError::UnknownChoiceTarget { node, target } => GraphErrorView::UnknownChoiceTarget {
                node: node@,
                target: target@,
            },
        }
    }
}

/// The mathematical value of an optional [`GraphError`].
pub open spec fn opt_error_view(e: Option<GraphError>) -> Option<GraphErrorView> {
    match e {
        Some(err) => Some(err@),
        None => None,
    }
}

/// Whether an earlier node has the id of the node at `j`.
pub open spec fn repeats_earlier(nodes: Seq<NodeView>, j: int) -> bool {
    exists|i: int| 0 <= i < j && (#[trigger] nodes[i]).id() == nodes[j].id()
}

/// The predicate "the node at this position repeats an earlier id".
pub open spec fn repeats_earlier_at(nodes: Seq<NodeView>) -> spec_fn(int) -> bool {
    |j: int| repeats_earlier(nodes, j)
}

/// The predicate "the option at this position leads to no node".
pub open spec fn dangling_option(nodes: Seq<NodeView>, choices: Seq<ChoiceView>) -> spec_fn(int) -> bool {
    |j: int| !has_node(nodes, choices[j].next_node)
}

/// What is wrong with the outgoing edges of the node at `k`, if anything: a
/// text node whose `next_node` leads nowhere, or a choice node of which an
/// option leads nowhere (the first such option is reported).
pub open spec fn node_error(nodes: Seq<NodeView>, k: int) -> Option<GraphErrorView> {
    match nodes[k] {
        NodeView::Text { id, next_node: Some(target), .. } => {
            if has_node(nodes, target) {
                None
            } else {
                Some(GraphErrorView::UnknownNextNode { node: id, target })
            }
        },
        NodeView::Text { next_node: None, .. } => None,
        NodeView::Choice { id, choices, .. } => {
            match first_index(0, choices.len() as int, dangling_option(nodes, choices)) {
                Some(j) => Some(
                    GraphErrorView::UnknownChoiceTarget { node: id, target: choices[j].next_node },
                ),
                None => None,
            }
        },
        NodeView::End { .. } => None,
    }
}

/// The predicate "the node at this position has a dangling edge".
pub open spec fn node_fails(nodes: Seq<NodeView>) -> spec_fn(int) -> bool {
    |k: int| node_error(nodes, k) is Some
}

/// The error with which validation refuses a graph, or nothing for a graph
/// that it accepts. The checks are made in this order: the graph is not
/// empty; no id occurs twice (the first node that repeats an earlier id is
/// reported); the start node exists; no edge dangles (the first node with a
/// dangling edge is reported).
pub open spec fn validation_error(t: TreeView) -> Option<GraphErrorView> {
    let n = t.nodes.len() as int;
    if n == 0 {
        Some(GraphErrorView::EmptyGraph)
    } else {
        match first_index(0, n, repeats_earlier_at(t.nodes)) {
            Some(j) => Some(GraphErrorView::DuplicateNodeId(t.nodes[j].id())),
            None => {
                if !has_node(t.nodes, t.start_node) {
                    Some(GraphErrorView::StartNodeNotFound(t.start_node))
                } else {
                    match first_index(0, n, node_fails(t.nodes)) {
                        Some(k) => node_error(t.nodes, k),
                        None => None,
                    }
                }
            },
        }
    }
}

/// Every edge that leaves `node` leads to a node of `nodes`.
pub open spec fn edges_resolve(nodes: Seq<NodeView>, node: NodeView) -> bool {
    match node {
        NodeView::Text { next_node: Some(target), .. } => has_node(nodes, target),
        NodeView::Text { next_node: None, .. } => true,
        NodeView::Choice { choices, .. } => forall|j: int|
            0 <= j < choices.len() ==> has_node(nodes, (#[trigger] choices[j]).next_node),
        NodeView::End { .. } => true,
    }
}

/// Referential integrity: the graph has a node, no two nodes share an id, the
/// start node exists, and every `next_node` and every choice target is the id
/// of a node.
pub open spec fn well_formed(t: TreeView) -> bool {
    &&& t.nodes.len() > 0
    &&& forall|i: int, j: int|
        0 <= i < j < t.nodes.len() ==> (#[trigger] t.nodes[i]).id() != (#[trigger] t.nodes[j]).id()
    &&& has_node(t.nodes, t.start_node)
    &&& forall|k: int| 0 <= k < t.nodes.len() ==> edges_resolve(t.nodes, #[trigger] t.nodes[k])
}

/// A node's edges resolve exactly where `node_error` finds nothing.
pub proof fn lemma_node_error(nodes: Seq<NodeView>, k: int)
    ensures
        node_error(nodes, k) is None <==> edges_resolve(nodes, nodes[k]),
{
    match nodes[k] {
        NodeView::Choice { choices, .. } => {
            let p = dangling_option(nodes, choices);
            lemma_first_index(0, choices.len() as int, p);
            if first_index(0, choices.len() as int, p) is None {
                assert forall|j: int| 0 <= j < choices.len() implies has_node(
                    nodes,
                    (#[trigger] choices[j]).next_node,
                ) by {
                    assert(!p(j));
                }
            }
        },
        _ => {},
    }
}

/// Validation accepts exactly the graphs with referential integrity.
pub proof fn lemma_validation_accepts_well_formed(t: TreeView)
    ensures
        validation_error(t) is None <==> well_formed(t),
{
    let n = t.nodes.len() as int;
    let dup = repeats_earlier_at(t.nodes);
    let bad = node_fails(t.nodes);
    lemma_first_index(0, n, dup);
    lemma_first_index(0, n, bad);
    if validation_error(t) is None {
        assert forall|i: int, j: int| 0 <= i < j < n implies (#[trigger] t.nodes[i]).id() != (
        #[trigger] t.nodes[j]).id() by {
            assert(!dup(j));
        }
        assert forall|k: int| 0 <= k < n implies edges_resolve(t.nodes, #[trigger] t.nodes[k]) by {
            assert(!bad(k));
            lemma_node_error(t.nodes, k);
        }
    }
    if well_formed(t) {
        match first_index(0, n, dup) {
            Some(j) => {
                assert(dup(j));
                let i = choose|i: int| 0 <= i < j && (#[trigger] t.nodes[i]).id() == t.nodes[j].id();
                assert(t.nodes[i].id() != t.nodes[j].id());
            },
            None => {},
        }
        match first_index(0, n, bad) {
            Some(k) => {
                assert(bad(k));
                lemma_node_error(t.nodes, k);
                assert(edges_resolve(t.nodes, t.nodes[k]));
            },
            None => {},
        }
    }
}

/// A conversation graph: a title, the id of the node at which a conversation
/// starts, the speakers, and the nodes. Once built it does not change.
#[derive(Clone, Debug)]
pub struct DialogueTree {
    title: String,
    start_node: String,
    speakers: Vec<Speaker>,
    nodes: Vec<DialogueNode>,
}

impl View for DialogueTree {
    type V = TreeView;

    closed spec fn view(&self) -> TreeView {
        TreeView {
            title: self.title@,
            start_node: self.start_node@,
            speakers: speakers_view(self.speakers@),
            nodes: nodes_view(self.nodes@),
        }
    }
}

/// The position of the last node of `nodes` with the id `id`.
fn find_in_nodes(nodes: &Vec<DialogueNode>, id: &String) -> (r: Option<usize>)
    ensures
        match r {
            Some(k) => find_node(nodes_view(nodes@), id@) == Some(k as int) && k < nodes.len(),
            None => find_node(nodes_view(nodes@), id@) is None,
        },
{
    let ghost nv = nodes_view(nodes@);
    let ghost p = node_has_id(nv, id@);
    let mut i: usize = nodes.len();
    while i > 0
        invariant
            i <= nodes.len(),
            nv == nodes_view(nodes@),
            p == node_has_id(nv, id@),
            forall|j: int| i <= j < nodes.len() ==> !#[trigger] p(j),
        decreases i,
    {
        i -= 1;
        if *nodes[i].id() == *id {
            proof {
                assert(p(i as int));
                lemma_last_index_is(nodes.len() as int, p, i as int);
            }
            return Some(i);
        }
        assert(!p(i as int));
    }
    proof {
        lemma_last_index_none(nodes.len() as int, p);
    }
    None
}

/// The position of the last speaker of `speakers` with the id `id`.
fn find_in_speakers(speakers: &Vec<Speaker>, id: &String) -> (r: Option<usize>)
    ensures
        match r {
            Some(k) => find_speaker(speakers_view(speakers@), id@) == Some(k as int) && k
                < speakers.len(),
            None => find_speaker(speakers_view(speakers@), id@) is None,
        },
{
    let ghost sv = speakers_view(speakers@);
    let ghost p = speaker_has_id(sv, id@);
    let mut i: usize = speakers.len();
    while i > 0
        invariant
            i <= speakers.len(),
            sv == speakers_view(speakers@),
            p == speaker_has_id(sv, id@),
            forall|j: int| i <= j < speakers.len() ==> !#[trigger] p(j),
        decreases i,
    {
        i -= 1;
        if speakers[i].id == *id {
            proof {
                assert(p(i as int));
                lemma_last_index_is(speakers.len() as int, p, i as int);
            }
            return Some(i);
        }
        assert(!p(i as int));
    }
    proof {
        lemma_last_index_none(speakers.len() as int, p);
    }
    None
}

/// Whether a node before position `j` has the id of the node at `j`.
fn repeats_earlier_id(nodes: &Vec<DialogueNode>, j: usize) -> (r: bool)
    requires
        j < nodes.len(),
    ensures
        r == repeats_earlier(nodes_view(nodes@), j as int),
{
    let ghost nv = nodes_view(nodes@);
    let mut i: usize = 0;
    while i < j
        invariant
            i <= j < nodes.len(),
            nv == nodes_view(nodes@),
            forall|m: int| 0 <= m < i ==> (#[trigger] nv[m]).id() != nv[j as int].id(),
        decreases j - i,
    {
        if *nodes[i].id() == *nodes[j].id() {
            assert(nv[i as int].id() == nv[j as int].id());
            return true;
        }
        i += 1;
    }
    false
}

/// The first option of `choices` that leads to no node of `nodes`.
fn first_dangling_option(nodes: &Vec<DialogueNode>, choices: &Vec<Choice>) -> (r: Option<usize>)
    ensures
        match r {
            Some(j) => j < choices.len() && first_index(
                0,
                choices.len() as int,
                dangling_option(nodes_view(nodes@), choices_view(choices@)),
            ) == Some(j as int),
            None => first_index(
                0,
                choices.len() as int,
                dangling_option(nodes_view(nodes@), choices_view(choices@)),
            ) is None,
        },
{
    let ghost nv = nodes_view(nodes@);
    let ghost cv = choices_view(choices@);
    let ghost p = dangling_option(nv, cv);
    let mut j: usize = 0;
    while j < choices.len()
        invariant
            j <= choices.len(),
            nv == nodes_view(nodes@),
            cv == choices_view(choices@),
            p == dangling_option(nv, cv),
            forall|m: int| 0 <= m < j ==> !#[trigger] p(m),
        decreases choices.len() - j,
    {
        let found = find_in_nodes(nodes, &choices[j].next_node);
        assert(cv[j as int].next_node == choices@[j as int].next_node@);
        if found.is_none() {
            proof {
                assert(p(j as int));
                lemma_first_index_is(0, choices.len() as int, p, j as int);
            }
            return Some(j);
        }
        assert(!p(j as int));
        j += 1;
    }
    proof {
        lemma_first_index_none(0, choices.len() as int, p);
    }
    None
}

/// What is wrong with the outgoing edges of the node at `k`, if anything.
fn check_node(nodes: &Vec<DialogueNode>, k: usize) -> (r: Option<GraphError>)
    requires
        k < nodes.len(),
    ensures
        opt_error_view(r) == node_error(nodes_view(nodes@), k as int),
{
    let ghost nv = nodes_view(nodes@);
    assert(nv[k as int] == nodes@[k as int]@);
    match &nodes[k] {
        DialogueNode::Text { id, next_node, .. } => {
            match next_node {
                Some(target) => {
                    if find_in_nodes(nodes, target).is_some() {
                        None
                    } else {
                        Some(GraphError::UnknownNextNode { node: id.clone(), target: target.clone() })
                    }
                },
                None => None,
            }
        },
        DialogueNode::Choice { id, choices, .. } => {
            match first_dangling_option(nodes, choices) {
                Some(j) => {
                    assert(choices_view(choices@)[j as int].next_node == choices@[j as int].next_node@);
                    Some(
                        GraphError::UnknownChoiceTarget {
                            node: id.clone(),
                            target: choices[j].next_node.clone(),
                        },
                    )
                },
                None => None,
            }
        },
        DialogueNode::End { .. } => None,
    }
}

impl DialogueTree {
    /// The title of the conversation.
    pub fn title(&self) -> (r: &str)
        ensures
            r@ == self@.title,
    {
        self.title.as_str()
    }

    /// The id of the node at which a conversation starts.
    pub fn start_node(&self) -> (r: &str)
        ensures
            r@ == self@.start_node,
    {
        self.start_node.as_str()
    }

    /// The number of nodes.
    pub fn node_count(&self) -> (r: usize)
        ensures
            r == self@.nodes.len(),
    {
        self.nodes.len()
    }

    /// The nodes, in the order in which they were added.
    pub fn nodes(&self) -> (r: &Vec<DialogueNode>)
        ensures
            nodes_view(r@) == self@.nodes,
    {
        &self.nodes
    }

    /// The speakers, in the order in which they were added.
    pub fn speakers(&self) -> (r: &Vec<Speaker>)
        ensures
            speakers_view(r@) == self@.speakers,
    {
        &self.speakers
    }

    /// The node found under `id`, if any.
    pub fn node(&self, id: &str) -> (r: Option<&DialogueNode>)
        ensures
            match r {
                Some(n) => self@.node(id@) == Some(n@),
                None => self@.node(id@) is None,
            },
    {
        let key = id.to_owned();
        match find_in_nodes(&self.nodes, &key) {
            Some(k) => Some(&self.nodes[k]),
            None => None,
        }
    }

    /// The speaker found under `id`, if any.
    pub fn speaker(&self, id: &str) -> (r: Option<&Speaker>)
        ensures
            match r {
                Some(s) => self@.speaker(id@) == Some(s@),
                None => self@.speaker(id@) is None,
            },
    {
        let key = id.to_owned();
        match find_in_speakers(&self.speakers, &key) {
            Some(k) => Some(&self.speakers[k]),
            None => None,
        }
    }

    /// Checks referential integrity: `Ok` exactly for a graph that is
    /// `well_formed`, and otherwise the error that `validation_error` names.
    pub fn validate(&self) -> (r: Result<(), GraphError>)
        ensures
            r is Ok <==> well_formed(self@),
            match r {
                Ok(_) => validation_error(self@) is None,
                Err(e) => validation_error(self@) == Some(e@),
            },
    {
        let ghost nv = self@.nodes;
        let ghost dup = repeats_earlier_at(nv);
        let ghost bad = node_fails(nv);
        let n = self.nodes.len();
        proof {
            lemma_validation_accepts_well_formed(self@);
        }
        if n == 0 {
            return Err(GraphError::EmptyGraph);
        }
        let mut j: usize = 0;
        while j < n
            invariant
                j <= n == self.nodes.len(),
                nv == nodes_view(self.nodes@),
                dup == repeats_earlier_at(nv),
                forall|m: int| 0 <= m < j ==> !#[trigger] dup(m),
            decreases n - j,
        {
            if repeats_earlier_id(&self.nodes, j) {
                proof {
                    assert(dup(j as int));
                    lemma_first_index_is(0, n as int, dup, j as int);
                }
                return Err(GraphError::DuplicateNodeId(self.nodes[j].id().clone()));
            }
            assert(!dup(j as int));
            j += 1;
        }
        proof {
            lemma_first_index_none(0, n as int, dup);
        }
        if find_in_nodes(&self.nodes, &self.start_node).is_none() {
            return Err(GraphError::StartNodeNotFound(self.start_node.clone()));
        }
        let mut k: usize = 0;
        while k < n
            invariant
                k <= n == self.nodes.len(),
                nv == nodes_view(self.nodes@),
                nv == self@.nodes,
                bad == node_fails(nv),
                first_index(0, n as int, repeats_earlier_at(nv)) is None,
                has_node(nv, self@.start_node),
                validation_error(self@) is None <==> well_formed(self@),
                forall|m: int| 0 <= m < k ==> !#[trigger] bad(m),
            decreases n - k,
        {
            match check_node(&self.nodes, k) {
                Some(e) => {
                    proof {
                        assert(bad(k as int));
                        lemma_first_index_is(0, n as int, bad, k as int);
                    }
                    return Err(e);
                },
                None => {
                    assert(!bad(k as int));
                },
            }
            k += 1;
        }
        proof {
            lemma_first_index_none(0, n as int, bad);
        }
        Ok(())
    }

    /// A copy of this graph.
    pub fn copy(&self) -> (t: DialogueTree)
        ensures
            t@ == self@,
    {
        DialogueTree {
            title: self.title.clone(),
            start_node: self.start_node.clone(),
            speakers: copy_speakers(&self.speakers),
            nodes: copy_nodes(&self.nodes),
        }
    }
}

/// The views of a sequence of graphs.
pub open spec fn trees_view(s: Seq<DialogueTree>) -> Seq<TreeView> {
    Seq::new(s.len(), |i: int| s[i]@)
}

/// A copy of a list of graphs.
pub fn copy_trees(v: &Vec<DialogueTree>) -> (r: Vec<DialogueTree>)
    ensures
        trees_view(r@) == trees_view(v@),
{
    let mut out: Vec<DialogueTree> = Vec::new();
    let mut i: usize = 0;
    while i < v.len()
        invariant
            i <= v.len(),
            out@.len() == i,
            forall|k: int| 0 <= k < i ==> out@[k]@ == v@[k]@,
        decreases v.len() - i,
    {
        out.push(v[i].copy());
        i += 1;
    }
    assert(trees_view(out@) =~= trees_view(v@));
    out
}

/// Collects the parts of a conversation graph. Nodes may be added in any
/// order.
pub struct DialogueBuilder {
    title: String,
    start_node: String,
    speakers: Vec<Speaker>,
    nodes: Vec<DialogueNode>,
}

impl View for DialogueBuilder {
    type V = TreeView;

    closed spec fn view(&self) -> TreeView {
        TreeView {
            title: self.title@,
            start_node: self.start_node@,
            speakers: speakers_view(self.speakers@),
            nodes: nodes_view(self.nodes@),
        }
    }
}

impl DialogueBuilder {
    /// A builder for a graph that starts at `start_node`, with an empty title
    /// and neither speakers nor nodes.
    pub fn new(start_node: &str) -> (b: DialogueBuilder)
        ensures
            b@ == (TreeView {
                title: Seq::empty(),
                start_node: start_node@,
                speakers: Seq::empty(),
                nodes: Seq::empty(),
            }),
    {
        let b = DialogueBuilder {
            title: String::new(),
            start_node: start_node.to_owned(),
            speakers: Vec::new(),
            nodes: Vec::new(),
        };
        assert(b@.speakers =~= Seq::empty());
        assert(b@.nodes =~= Seq::empty());
        b
    }

    /// Sets the title.
    pub fn title(self, title: &str) -> (b: DialogueBuilder)
        ensures
            b@ == (TreeView { title: title@, ..self@ }),
    {
        DialogueBuilder {
            title: title.to_owned(),
            start_node: self.start_node,
            speakers: self.speakers,
            nodes: self.nodes,
        }
    }

    /// Adds a speaker.
    pub fn speaker(self, speaker: Speaker) -> (b: DialogueBuilder)
        ensures
            b@ == (TreeView { speakers: self@.speakers.push(speaker@), ..self@ }),
    {
        let mut out = self;
        out.speakers.push(speaker);
        assert(out@.speakers =~= self@.speakers.push(speaker@));
        out
    }

    /// Adds a node.
    pub fn node(self, node: DialogueNode) -> (b: DialogueBuilder)
        ensures
            b@ == (TreeView { nodes: self@.nodes.push(node@), ..self@ }),
    {
        let mut out = self;
        out.nodes.push(node);
        assert(out@.nodes =~= self@.nodes.push(node@));
        out
    }

    /// The graph that was collected, without any check. An edge that leads
    /// nowhere is found only when a conversation follows it.
    pub fn build_unchecked(self) -> (t: DialogueTree)
        ensures
            t@ == self@,
    {
        DialogueTree {
            title: self.title,
            start_node: self.start_node,
            speakers: self.speakers,
            nodes: self.nodes,
        }
    }

    /// The graph that was collected, if it has referential integrity, and
    /// otherwise the first error that validation finds.
    pub fn build(self) -> (r: Result<DialogueTree, GraphError>)
        ensures
            r is Ok <==> well_formed(self@),
            match r {
                Ok(t) => t@ == self@ && validation_error(self@) is None,
                Err(e) => validation_error(self@) == Some(e@),
            },
    {
        let tree = self.build_unchecked();
        match tree.validate() {
            Ok(_) => Ok(tree),
            Err(e) => Err(e),
        }
    }
}

} // verus!
