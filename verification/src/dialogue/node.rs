//! The nodes of a conversation graph.
//!
//! A graph is made of three kinds of node: a line of text that leads on to
//! another node, a choice among several options, and an end. Every exec type
//! here has a view that replaces each string by its sequence of characters and
//! each vector by a sequence; contracts are stated over those views.

use vstd::prelude::*;

verus! {

/// The mathematical value of an optional string.
pub open spec fn opt_str_view(s: Option<String>) -> Option<Seq<char>> {
    match s {
        Some(t) => Some(t@),
        None => None,
    }
}

/// A copy of an optional string.
pub fn copy_opt_string(s: &Option<String>) -> (r: Option<String>)
    ensures
        opt_str_view(r) == opt_str_view(*s),
{
    match s {
        Some(t) => Some(t.clone()),
        None => None,
    }
}

/// A named participant of a conversation. Speakers are looked up for
/// presentation only and never influence which node comes next.
#[derive(Clone, Debug)]
pub struct Speaker {
    pub id: String,
    pub display_name: String,
}

/// The mathematical value of a [`Speaker`].
pub struct SpeakerView {
    pub id: Seq<char>,
    pub display_name: Seq<char>,
}

impl View for Speaker {
    type V = SpeakerView;

    open spec fn view(&self) -> SpeakerView {
        SpeakerView { id: self.id@, display_name: self.display_name@ }
    }
}

impl Speaker {
    /// A speaker with the given id and display name.
    pub fn new(id: &str, display_name: &str) -> (s: Speaker)
        ensures
            s@ == (SpeakerView { id: id@, display_name: display_name@ }),
    {
        Speaker { id: id.to_owned(), display_name: display_name.to_owned() }
    }

    /// The name shown for this speaker.
    pub fn display_name(&self) -> (r: &str)
        ensures
            r@ == self@.display_name,
    {
        self.display_name.as_str()
    }

    /// A copy of this speaker.
    pub fn copy(&self) -> (s: Speaker)
        ensures
            s@ == self@,
    {
        Speaker { id: self.id.clone(), display_name: self.display_name.clone() }
    }
}

/// The views of a sequence of speakers.
pub open spec fn speakers_view(s: Seq<Speaker>) -> Seq<SpeakerView> {
    Seq::new(s.len(), |i: int| s[i]@)
}

/// A copy of a list of speakers.
pub fn copy_speakers(v: &Vec<Speaker>) -> (r: Vec<Speaker>)
    ensures
        speakers_view(r@) == speakers_view(v@),
{
    let mut out: Vec<Speaker> = Vec::new();
    let mut i: usize = 0;
    while i < v.len()
        invariant
            i <= v.len(),
            out@.len() == i,
            forall|k: int| 0 <= k < i ==> out@[k]@ == v@[k]@,
        decreases v.len() - i,
    {
        out.push(v[i].copy());
        i += 1;
    }
    assert(speakers_view(out@) =~= speakers_view(v@));
    out
}

/// An amount added to a named variable when a choice option is taken.
#[derive(Clone, Debug)]
pub struct VariableDelta {
    pub name: String,
    pub delta: i32,
}

/// The mathematical value of a [`VariableDelta`].
pub struct DeltaView {
    pub name: Seq<char>,
    pub delta: int,
}

impl View for VariableDelta {
    type V = DeltaView;

    open spec fn view(&self) -> DeltaView {
        DeltaView { name: self.name@, delta: self.delta as int }
    }
}

/// The views of a sequence of deltas.
pub open spec fn deltas_view(s: Seq<VariableDelta>) -> Seq<DeltaView> {
    Seq::new(s.len(), |i: int| s[i]@)
}

/// No variable is named twice in `deltas`.
pub open spec fn distinct_names(deltas: Seq<DeltaView>) -> bool {
    forall|i: int, j: int|
        0 <= i < j < deltas.len() ==> (#[trigger] deltas[i]).name != (#[trigger] deltas[j]).name
}

/// The position of `name` in `deltas`: the first entry that names it.
pub open spec fn delta_position(deltas: Seq<DeltaView>, name: Seq<char>) -> Option<int>
    decreases deltas.len(),
{
    if deltas.len() == 0 {
        None
    } else if deltas[0].name == name {
        Some(0int)
    } else {
        match delta_position(deltas.drop_first(), name) {
            Some(k) => Some(k + 1),
            None => None,
        }
    }
}

/// `deltas` with the amount for `name` set to `delta`: an entry that already
/// names the variable is overwritten in place, otherwise one is appended.
pub open spec fn with_delta(deltas: Seq<DeltaView>, name: Seq<char>, delta: int) -> Seq<DeltaView> {
    match delta_position(deltas, name) {
        Some(k) => deltas.update(k, DeltaView { name, delta }),
        None => deltas.push(DeltaView { name, delta }),
    }
}

/// What `delta_position` finds: an index at which `name` stands, with no
/// earlier entry of that name; or nothing, when no entry has that name.
pub proof fn lemma_delta_position(deltas: Seq<DeltaView>, name: Seq<char>)
    ensures
        match delta_position(deltas, name) {
            Some(k) => 0 <= k < deltas.len() && deltas[k].name == name && forall|j: int|
                0 <= j < k ==> (#[trigger] deltas[j]).name != name,
            None => forall|j: int| 0 <= j < deltas.len() ==> (#[trigger] deltas[j]).name != name,
        },
    decreases deltas.len(),
{
    if deltas.len() == 0 {
    } else if deltas[0].name == name {
    } else {
        let rest = deltas.drop_first();
        lemma_delta_position(rest, name);
        match delta_position(rest, name) {
            Some(k) => {
                assert(deltas[k + 1] == rest[k]);
                assert forall|j: int| 0 <= j < k + 1 implies (#[trigger] deltas[j]).name
                    != name by {
                    if j > 0 {
                        assert(deltas[j] == rest[j - 1]);
                    }
                }
            },
            None => {
                assert forall|j: int| 0 <= j < deltas.len() implies (#[trigger] deltas[j]).name
                    != name by {
                    if j > 0 {
                        assert(deltas[j] == rest[j - 1]);
                    }
                }
            },
        }
    }
}

/// Setting a delta keeps the names distinct.
pub proof fn lemma_with_delta_distinct(deltas: Seq<DeltaView>, name: Seq<char>, delta: int)
    requires
        distinct_names(deltas),
    ensures
        distinct_names(with_delta(deltas, name, delta)),
{
    lemma_delta_position(deltas, name);
    let out = with_delta(deltas, name, delta);
    match delta_position(deltas, name) {
        Some(k) => {
            assert forall|i: int, j: int| 0 <= i < j < out.len() implies (#[trigger] out[i]).name
                != (#[trigger] out[j]).name by {
                assert(out[i].name == deltas[i].name);
                assert(out[j].name == deltas[j].name);
            }
        },
        None => {
            assert forall|i: int, j: int| 0 <= i < j < out.len() implies (#[trigger] out[i]).name
                != (#[trigger] out[j]).name by {
                if j < deltas.len() {
                    assert(out[i] == deltas[i]);
                    assert(out[j] == deltas[j]);
                } else {
                    assert(out[i] == deltas[i]);
                }
            }
        },
    }
}

/// One option of a choice node: what is shown, where it leads, and what it
/// adds to which variables. The deltas are applied in the order in which they
/// stand.
#[derive(Clone, Debug)]
pub struct Choice {
    pub text: String,
    pub next_node: String,
    pub deltas: Vec<VariableDelta>,
}

/// The mathematical value of a [`Choice`].
pub struct ChoiceView {
    pub text: Seq<char>,
    pub next_node: Seq<char>,
    pub deltas: Seq<DeltaView>,
}

impl View for Choice {
    type V = ChoiceView;

    open spec fn view(&self) -> ChoiceView {
        ChoiceView {
            text: self.text@,
            next_node: self.next_node@,
            deltas: deltas_view(self.deltas@),
        }
    }
}

/// The views of a sequence of choice options.
pub open spec fn choices_view(s: Seq<Choice>) -> Seq<ChoiceView> {
    Seq::new(s.len(), |i: int| s[i]@)
}

/// A copy of a list of deltas.
pub fn copy_deltas(v: &Vec<VariableDelta>) -> (r: Vec<VariableDelta>)
    ensures
        deltas_view(r@) == deltas_view(v@),
{
    let mut out: Vec<VariableDelta> = Vec::new();
    let mut i: usize = 0;
    while i < v.len()
        invariant
            i <= v.len(),
            out@.len() == i,
            forall|k: int| 0 <= k < i ==> out@[k]@ == v@[k]@,
        decreases v.len() - i,
    {
        out.push(VariableDelta { name: v[i].name.clone(), delta: v[i].delta });
        i += 1;
    }
    assert(deltas_view(out@) =~= deltas_view(v@));
    out
}

impl Choice {
    /// An option that shows `text`, leads to `next_node` and changes nothing.
    pub fn new(text: &str, next_node: &str) -> (c: Choice)
        ensures
            c@ == (ChoiceView { text: text@, next_node: next_node@, deltas: Seq::empty() }),
    {
        let c = Choice { text: text.to_owned(), next_node: next_node.to_owned(), deltas: Vec::new() };
        assert(c@.deltas =~= Seq::empty());
        c
    }

    /// This option, with `delta` as the amount that it adds to the variable
    /// `name`. A second call for the same variable overwrites the first.
    pub fn sets(self, name: &str, delta: i32) -> (c: Choice)
        ensures
            c@ == (ChoiceView { deltas: with_delta(self@.deltas, name@, delta as int), ..self@ }),
            distinct_names(self@.deltas) ==> distinct_names(c@.deltas),
    {
        let ghost before = self@.deltas;
        let key = name.to_owned();
        let mut out = self;
        let mut i: usize = 0;
        proof {
            if distinct_names(before) {
                lemma_with_delta_distinct(before, name@, delta as int);
            }
            assert(before.subrange(0, before.len() as int) =~= before);
        }
        while i < out.deltas.len()
            invariant
                i <= out.deltas.len(),
                out@ == self@,
                before == self@.deltas,
                key@ == name@,
                delta_position(before, name@) == match delta_position(
                    before.subrange(i as int, before.len() as int),
                    name@,
                ) {
                    Some(k) => Some(k + i),
                    None => None,
                },
            decreases out.deltas.len() - i,
        {
            let ghost tail = before.subrange(i as int, before.len() as int);
            assert(tail[0] == before[i as int]);
            assert(before[i as int] == out.deltas@[i as int]@);
            if out.deltas[i].name == key {
                assert(delta_position(tail, name@) == Some(0int));
                let entry = VariableDelta { name: key, delta };
                out.deltas.set(i, entry);
                assert(out@.deltas =~= with_delta(before, name@, delta as int));
                return out;
            }
            assert(tail.drop_first() =~= before.subrange(i + 1, before.len() as int));
            i += 1;
        }
        assert(before.subrange(i as int, before.len() as int).len() == 0);
        out.deltas.push(VariableDelta { name: key, delta });
        assert(out@.deltas =~= with_delta(before, name@, delta as int));
        out
    }

    /// A copy of this option.
    pub fn copy(&self) -> (c: Choice)
        ensures
            c@ == self@,
    {
        Choice {
            text: self.text.clone(),
            next_node: self.next_node.clone(),
            deltas: copy_deltas(&self.deltas),
        }
    }
}

/// A copy of a list of choice options.
pub fn copy_choices(v: &Vec<Choice>) -> (r: Vec<Choice>)
    ensures
        choices_view(r@) == choices_view(v@),
{
    let mut out: Vec<Choice> = Vec::new();
    let mut i: usize = 0;
    while i < v.len()
        invariant
            i <= v.len(),
            out@.len() == i,
            forall|k: int| 0 <= k < i ==> out@[k]@ == v@[k]@,
        decreases v.len() - i,
    {
        out.push(v[i].copy());
        i += 1;
    }
    assert(choices_view(out@) =~= choices_view(v@));
    out
}

/// One node of a conversation graph.
#[derive(Clone, Debug)]
pub enum DialogueNode {
    /// A line that is shown and then left for `next_node`. Without a
    /// `next_node` the conversation ends when the line is left.
    Text { id: String, speaker: Option<String>, text: String, next_node: Option<String> },
    /// A set of options, of which the player takes one. The index of an
    /// option in `choices` is the index by which it is selected.
    Choice { id: String, prompt: Option<String>, choices: Vec<Choice> },
    /// The end of the conversation.
    End { id: String },
}

/// The mathematical value of a [`DialogueNode`].
pub enum NodeView {
    Text { id: Seq<char>, speaker: Option<Seq<char>>, text: Seq<char>, next_node: Option<Seq<char>> },
    Choice { id: Seq<char>, prompt: Option<Seq<char>>, choices: Seq<ChoiceView> },
    End { id: Seq<char> },
}

impl NodeView {
    /// The id under which the node is found.
    pub open spec fn id(self) -> Seq<char> {
        match self {
            NodeView::Text { id, .. } => id,
            NodeView::Choice { id, .. } => id,
            NodeView::End { id } => id,
        }
    }
}

impl View for DialogueNode {
    type V = NodeView;

    open spec fn view(&self) -> NodeView {
        match *self {
            DialogueNode::Text { id, speaker, text, next_node } => NodeView::Text {
                id: id@,
                speaker: opt_str_view(speaker),
                text: text@,
                next_node: opt_str_view(next_node),
            },
            DialogueNode::Choice { id, prompt, choices } => NodeView::Choice {
                id: id@,
                prompt: opt_str_view(prompt),
                choices: choices_view(choices@),
            },
            DialogueNode::End { id } => NodeView::End { id: id@ },
        }
    }
}

/// The views of a sequence of nodes.
pub open spec fn nodes_view(s: Seq<DialogueNode>) -> Seq<NodeView> {
    Seq::new(s.len(), |i: int| s[i]@)
}

impl DialogueNode {
    /// A text node spoken by `speaker` that leads on to `next_node`.
    pub fn text(id: &str, speaker: &str, text: &str, next_node: &str) -> (n: DialogueNode)
        ensures
            n@ == (NodeView::Text {
                id: id@,
                speaker: Some(speaker@),
                text: text@,
                next_node: Some(next_node@),
            }),
    {
        DialogueNode::Text {
            id: id.to_owned(),
            speaker: Some(speaker.to_owned()),
            text: text.to_owned(),
            next_node: Some(next_node.to_owned()),
        }
    }

    /// A choice node with the given prompt and options.
    pub fn choice(id: &str, prompt: &str, choices: Vec<Choice>) -> (n: DialogueNode)
        ensures
            n@ == (NodeView::Choice {
                id: id@,
                prompt: Some(prompt@),
                choices: choices_view(choices@),
            }),
    {
        DialogueNode::Choice { id: id.to_owned(), prompt: Some(prompt.to_owned()), choices }
    }

    /// An end node.
    pub fn end(id: &str) -> (n: DialogueNode)
        ensures
            n@ == (NodeView::End { id: id@ }),
    {
        DialogueNode::End { id: id.to_owned() }
    }

    /// The id under which this node is found.
    pub fn id(&self) -> (r: &String)
        ensures
            r@ == self@.id(),
    {
        match self {
            DialogueNode::Text { id, .. } => id,
            DialogueNode::Choice { id, .. } => id,
            DialogueNode::End { id } => id,
        }
    }

    /// A copy of this node.
    pub fn copy(&self) -> (n: DialogueNode)
        ensures
            n@ == self@,
    {
        match self {
            DialogueNode::Text { id, speaker, text, next_node } => DialogueNode::Text {
                id: id.clone(),
                speaker: copy_opt_string(speaker),
                text: text.clone(),
                next_node: copy_opt_string(next_node),
            },
            DialogueNode::Choice { id, prompt, choices } => DialogueNode::Choice {
                id: id.clone(),
                prompt: copy_opt_string(prompt),
                choices: copy_choices(choices),
            },
            DialogueNode::End { id } => DialogueNode::End { id: id.clone() },
        }
    }
}

/// A copy of a list of nodes.
pub fn copy_nodes(v: &Vec<DialogueNode>) -> (r: Vec<DialogueNode>)
    ensures
        nodes_view(r@) == nodes_view(v@),
{
    let mut out: Vec<DialogueNode> = Vec::new();
    let mut i: usize = 0;
    while i < v.len()
        invariant
            i <= v.len(),
            out@.len() == i,
            forall|k: int| 0 <= k < i ==> out@[k]@ == v@[k]@,
        decreases v.len() - i,
    {
        out.push(v[i].copy());
        i += 1;
    }
    assert(nodes_view(out@) =~= nodes_view(v@));
    out
}

} // verus!
