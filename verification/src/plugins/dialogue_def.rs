//! A conversation as a script writes it down.
//!
//! Scripts can only hand over strings, numbers and lists of them, so this
//! reduced form of a conversation graph is made of nothing else. Lowering it
//! gives the graph that the runner walks. Nothing is checked on the way: an
//! edge that leads nowhere ends the conversation when it is followed.

use crate::dialogue::node::{
    choices_view, Choice, ChoiceView, DeltaView, DialogueNode, NodeView, Speaker, SpeakerView,
};
use crate::dialogue::tree::{DialogueBuilder, DialogueTree, TreeView};
use crate::plugins::script::{ScriptMap, ScriptValue};
use vstd::prelude::*;

verus! {

/// One option of a choice, as a script gives it.
#[derive(Clone, Debug)]
pub struct ChoiceOptionDef {
    pub text: String,
    pub next: String,
    pub affection: i32,
}

/// The mathematical value of a [`ChoiceOptionDef`].
pub struct ChoiceOptionDefView {
    pub text: Seq<char>,
    pub next: Seq<char>,
    pub affection: int,
}

impl View for ChoiceOptionDef {
    type V = ChoiceOptionDefView;

    open spec fn view(&self) -> ChoiceOptionDefView {
        ChoiceOptionDefView { text: self.text@, next: self.next@, affection: self.affection as int }
    }
}

/// The views of a sequence of options.
pub open spec fn option_defs_view(s: Seq<ChoiceOptionDef>) -> Seq<ChoiceOptionDefView> {
    Seq::new(s.len(), |i: int| s[i]@)
}

/// One node, as a script gives it.
#[derive(Clone, Debug)]
pub enum NodeDef {
    Text { id: String, speaker: String, text: String, next: String },
    Choice { id: String, prompt: String, options: Vec<ChoiceOptionDef> },
    End { id: String },
}

/// The mathematical value of a [`NodeDef`].
pub enum NodeDefView {
    Text { id: Seq<char>, speaker: Seq<char>, text: Seq<char>, next: Seq<char> },
    Choice { id: Seq<char>, prompt: Seq<char>, options: Seq<ChoiceOptionDefView> },
    End { id: Seq<char> },
}

impl NodeDefView {
    /// The id of the node.
    pub open spec fn id(self) -> Seq<char> {
        match self {
            NodeDefView::Text { id, .. } => id,
            NodeDefView::Choice { id, .. } => id,
            NodeDefView::End { id } => id,
        }
    }
}

impl View for NodeDef {
    type V = NodeDefView;

    open spec fn view(&self) -> NodeDefView {
        match *self {
            NodeDef::Text { id, speaker, text, next } => NodeDefView::Text {
                id: id@,
                speaker: speaker@,
                text: text@,
                next: next@,
            },
            NodeDef::Choice { id, prompt, options } => NodeDefView::Choice {
                id: id@,
                prompt: prompt@,
                options: option_defs_view(options@),
            },
            NodeDef::End { id } => NodeDefView::End { id: id@ },
        }
    }
}

/// The views of a sequence of node definitions.
pub open spec fn node_defs_view(s: Seq<NodeDef>) -> Seq<NodeDefView> {
    Seq::new(s.len(), |i: int| s[i]@)
}

/// The views of a sequence of pairs of an id and a display name.
pub open spec fn speaker_pairs_view(s: Seq<(String, String)>) -> Seq<(Seq<char>, Seq<char>)> {
    Seq::new(s.len(), |i: int| (s[i].0@, s[i].1@))
}

/// A conversation, as a script gives it: a title, the speakers as pairs of
/// an id and a display name, and the nodes. The first node is where the
/// conversation starts.
#[derive(Clone, Debug)]
pub struct DialogueDef {
    pub title: String,
    pub speakers: Vec<(String, String)>,
    pub nodes: Vec<NodeDef>,
}

/// The mathematical value of a [`DialogueDef`].
pub struct DialogueDefView {
    pub title: Seq<char>,
    pub speakers: Seq<(Seq<char>, Seq<char>)>,
    pub nodes: Seq<NodeDefView>,
}

impl View for DialogueDef {
    type V = DialogueDefView;

    open spec fn view(&self) -> DialogueDefView {
        DialogueDefView {
            title: self.title@,
            speakers: speaker_pairs_view(self.speakers@),
            nodes: node_defs_view(self.nodes@),
        }
    }
}

/// The name of the one variable that a script's option can change.
pub open spec fn affection_name() -> Seq<char> {
    "affection"@
}

/// The id at which a conversation without nodes is said to start.
pub open spec fn default_start() -> Seq<char> {
    "start"@
}

/// The option of the graph that stands for a script's option: an affection
/// of zero stands for no delta at all.
pub open spec fn lower_option(o: ChoiceOptionDefView) -> ChoiceView {
    ChoiceView {
        text: o.text,
        next_node: o.next,
        deltas: if o.affection != 0 {
            seq![DeltaView { name: affection_name(), delta: o.affection }]
        } else {
            Seq::empty()
        },
    }
}

/// The node of the graph that stands for a script's node.
pub open spec fn lower_node(n: NodeDefView) -> NodeView {
    match n {
        NodeDefView::Text { id, speaker, text, next } => NodeView::Text {
            id,
            speaker: Some(speaker),
            text,
            next_node: Some(next),
        },
        NodeDefView::Choice { id, prompt, options } => NodeView::Choice {
            id,
            prompt: Some(prompt),
            choices: Seq::new(options.len(), |i: int| lower_option(options[i])),
        },
        NodeDefView::End { id } => NodeView::End { id },
    }
}

/// The graph that stands for a script's conversation. It starts at the first
/// node, or at `"start"` where there is none.
pub open spec fn lower_dialogue(d: DialogueDefView) -> TreeView {
    TreeView {
        title: d.title,
        start_node: if d.nodes.len() > 0 {
            d.nodes[0].id()
        } else {
            default_start()
        },
        speakers: Seq::new(
            d.speakers.len(),
            |i: int| SpeakerView { id: d.speakers[i].0, display_name: d.speakers[i].1 },
        ),
        nodes: Seq::new(d.nodes.len(), |i: int| lower_node(d.nodes[i])),
    }
}

impl ChoiceOptionDef {
    /// The option of the graph that stands for this one.
    pub fn to_choice(&self) -> (c: Choice)
        ensures
            c@ == lower_option(self@),
    {
        let c = Choice::new(self.text.as_str(), self.next.as_str());
        if self.affection != 0 {
            let c = c.sets("affection", self.affection);
            assert(c@.deltas =~= lower_option(self@).deltas);
            c
        } else {
            c
        }
    }
}

impl NodeDef {
    /// The id of the node.
    pub fn id(&self) -> (r: &str)
        ensures
            r@ == self@.id(),
    {
        match self {
            NodeDef::Text { id, .. } => id.as_str(),
            NodeDef::Choice { id, .. } => id.as_str(),
            NodeDef::End { id } => id.as_str(),
        }
    }

    /// The node of the graph that stands for this one.
    pub fn to_node(&self) -> (n: DialogueNode)
        ensures
            n@ == lower_node(self@),
    {
        match self {
            NodeDef::Text { id, speaker, text, next } => DialogueNode::text(
                id.as_str(),
                speaker.as_str(),
                text.as_str(),
                next.as_str(),
            ),
            NodeDef::Choice { id, prompt, options } => {
                let mut choices: Vec<Choice> = Vec::new();
                let mut i: usize = 0;
                while i < options.len()
                    invariant
                        i <= options.len(),
                        choices@.len() == i,
                        forall|k: int| 0 <= k < i ==> choices@[k]@ == lower_option(options@[k]@),
                    decreases options.len() - i,
                {
                    choices.push(options[i].to_choice());
                    i += 1;
                }
                let n = DialogueNode::choice(id.as_str(), prompt.as_str(), choices);
                assert(choices_view(choices@) =~= lower_node(self@)->Choice_choices);
                n
            },
            NodeDef::End { id } => DialogueNode::end(id.as_str()),
        }
    }
}

impl DialogueDef {
    /// A conversation with the given title and nothing else.
    pub fn new(title: &str) -> (d: DialogueDef)
        ensures
            d@ == (DialogueDefView { title: title@, speakers: Seq::empty(), nodes: Seq::empty() }),
    {
        let d = DialogueDef { title: title.to_owned(), speakers: Vec::new(), nodes: Vec::new() };
        assert(d@.speakers =~= Seq::empty());
        assert(d@.nodes =~= Seq::empty());
        d
    }

    /// Adds a speaker.
    pub fn add_speaker(&mut self, id: &str, display_name: &str)
        ensures
            final(self)@ == (DialogueDefView {
                speakers: old(self)@.speakers.push((id@, display_name@)),
                ..old(self)@
            }),
    {
        self.speakers.push((id.to_owned(), display_name.to_owned()));
        assert(final(self)@.speakers =~= old(self)@.speakers.push((id@, display_name@)));
        assert(final(self)@.nodes =~= old(self)@.nodes);
    }

    /// Adds a text node.
    pub fn add_text(&mut self, id: &str, speaker: &str, text: &str, next: &str)
        ensures
            final(self)@ == (DialogueDefView {
                nodes: old(self)@.nodes.push(
                    NodeDefView::Text { id: id@, speaker: speaker@, text: text@, next: next@ },
                ),
                ..old(self)@
            }),
    {
        self.nodes.push(
            NodeDef::Text {
                id: id.to_owned(),
                speaker: speaker.to_owned(),
                text: text.to_owned(),
                next: next.to_owned(),
            },
        );
        assert(final(self)@.nodes =~= old(self)@.nodes.push(
            NodeDefView::Text { id: id@, speaker: speaker@, text: text@, next: next@ },
        ));
        assert(final(self)@.speakers =~= old(self)@.speakers);
    }

    /// Adds a choice node.
    pub fn add_choice(&mut self, id: &str, prompt: &str, options: Vec<ChoiceOptionDef>)
        ensures
            final(self)@ == (DialogueDefView {
                nodes: old(self)@.nodes.push(
                    NodeDefView::Choice {
                        id: id@,
                        prompt: prompt@,
                        options: option_defs_view(options@),
                    },
                ),
                ..old(self)@
            }),
    {
        self.nodes.push(NodeDef::Choice { id: id.to_owned(), prompt: prompt.to_owned(), options });
        assert(final(self)@.nodes =~= old(self)@.nodes.push(
            NodeDefView::Choice { id: id@, prompt: prompt@, options: option_defs_view(options@) },
        ));
        assert(final(self)@.speakers =~= old(self)@.speakers);
    }

    /// Adds an end node.
    pub fn add_end(&mut self, id: &str)
        ensures
            final(self)@ == (DialogueDefView {
                nodes: old(self)@.nodes.push(NodeDefView::End { id: id@ }),
                ..old(self)@
            }),
    {
        self.nodes.push(NodeDef::End { id: id.to_owned() });
        assert(final(self)@.nodes =~= old(self)@.nodes.push(NodeDefView::End { id: id@ }));
        assert(final(self)@.speakers =~= old(self)@.speakers);
    }

    /// The graph that stands for this conversation.
    pub fn to_dialogue_tree(&self) -> (t: DialogueTree)
        ensures
            t@ == lower_dialogue(self@),
    {
        let ghost target = lower_dialogue(self@);
        let start = if self.nodes.len() > 0 {
            self.nodes[0].id()
        } else {
            "start"
        };
        let mut builder = DialogueBuilder::new(start).title(self.title.as_str());
        let mut i: usize = 0;
        assert(target.speakers.take(0) =~= Seq::empty());
        while i < self.speakers.len()
            invariant
                i <= self.speakers.len(),
                target == lower_dialogue(self@),
                builder@ == (TreeView {
                    speakers: target.speakers.take(i as int),
                    nodes: Seq::empty(),
                    ..target
                }),
            decreases self.speakers.len() - i,
        {
            let pair = &self.speakers[i];
            builder = builder.speaker(Speaker::new(pair.0.as_str(), pair.1.as_str()));
            assert(target.speakers.take(i as int).push(target.speakers[i as int])
                =~= target.speakers.take(i + 1));
            i += 1;
        }
        assert(target.speakers.take(i as int) =~= target.speakers);
        let mut j: usize = 0;
        assert(target.nodes.take(0) =~= Seq::empty());
        while j < self.nodes.len()
            invariant
                j <= self.nodes.len(),
                target == lower_dialogue(self@),
                builder@ == (TreeView { nodes: target.nodes.take(j as int), ..target }),
            decreases self.nodes.len() - j,
        {
            builder = builder.node(self.nodes[j].to_node());
            assert(target.nodes.take(j as int).push(target.nodes[j as int]) =~= target.nodes.take(
                j + 1,
            ));
            j += 1;
        }
        assert(target.nodes.take(j as int) =~= target.nodes);
        builder.build_unchecked()
    }

    /// A copy of this conversation.
    pub fn copy(&self) -> (d: DialogueDef)
        ensures
            d@ == self@,
    {
        let mut speakers: Vec<(String, String)> = Vec::new();
        let mut i: usize = 0;
        while i < self.speakers.len()
            invariant
                i <= self.speakers.len(),
                speakers@.len() == i,
                forall|k: int|
                    0 <= k < i ==> speakers@[k].0@ == self.speakers@[k].0@ && speakers@[k].1@
                        == self.speakers@[k].1@,
            decreases self.speakers.len() - i,
        {
            speakers.push((self.speakers[i].0.clone(), self.speakers[i].1.clone()));
            i += 1;
        }
        let mut nodes: Vec<NodeDef> = Vec::new();
        let mut j: usize = 0;
        while j < self.nodes.len()
            invariant
                j <= self.nodes.len(),
                nodes@.len() == j,
                forall|k: int| 0 <= k < j ==> nodes@[k]@ == self.nodes@[k]@,
            decreases self.nodes.len() - j,
        {
            nodes.push(copy_node_def(&self.nodes[j]));
            j += 1;
        }
        let d = DialogueDef { title: self.title.clone(), speakers, nodes };
        assert(d@.speakers =~= self@.speakers);
        assert(d@.nodes =~= self@.nodes);
        d
    }
}

/// A copy of a node definition.
pub fn copy_node_def(n: &NodeDef) -> (r: NodeDef)
    ensures
        r@ == n@,
{
    match n {
        NodeDef::Text { id, speaker, text, next } => NodeDef::Text {
            id: id.clone(),
            speaker: speaker.clone(),
            text: text.clone(),
            next: next.clone(),
        },
        NodeDef::Choice { id, prompt, options } => {
            let mut out: Vec<ChoiceOptionDef> = Vec::new();
            let mut i: usize = 0;
            while i < options.len()
                invariant
                    i <= options.len(),
                    out@.len() == i,
                    forall|k: int| 0 <= k < i ==> out@[k]@ == options@[k]@,
                decreases options.len() - i,
            {
                out.push(
                    ChoiceOptionDef {
                        text: options[i].text.clone(),
                        next: options[i].next.clone(),
                        affection: options[i].affection,
                    },
                );
                i += 1;
            }
            assert(option_defs_view(out@) =~= option_defs_view(options@));
            NodeDef::Choice { id: id.clone(), prompt: prompt.clone(), options: out }
        },
        NodeDef::End { id } => NodeDef::End { id: id.clone() },
    }
}

/// The affection that an option's record gives: the integer under
/// `affection`, cut to 32 bits, or zero where there is none.
pub open spec fn affection_of(map: ScriptMap) -> int {
    match map.lookup("affection"@) {
        Some(v) => match v.integer() {
            Some(i) => (i as i32) as int,
            None => 0,
        },
        None => 0,
    }
}

/// The option that a script's value stands for: a map with strings under
/// `text` and `next`. Any other value stands for none.
pub open spec fn option_of(item: ScriptValue) -> Option<ChoiceOptionDefView> {
    match item {
        ScriptValue::Object(map) => match (map.text_at("text"@), map.text_at("next"@)) {
            (Some(text), Some(next)) => Some(
                ChoiceOptionDefView { text, next, affection: affection_of(map) },
            ),
            _ => None,
        },
        _ => None,
    }
}

/// The options that the elements of a script's array stand for, in order; an
/// element that stands for none is passed over.
pub open spec fn options_of(items: Seq<ScriptValue>) -> Seq<ChoiceOptionDefView>
    decreases items.len(),
{
    if items.len() == 0 {
        Seq::empty()
    } else {
        let before = options_of(items.drop_last());
        match option_of(items.last()) {
            Some(o) => before.push(o),
            None => before,
        }
    }
}

/// The option that a script's value stands for, if it stands for one.
fn parse_choice_option(item: &ScriptValue) -> (r: Option<ChoiceOptionDef>)
    ensures
        match r {
            Some(o) => option_of(*item) == Some(o@),
            None => option_of(*item) is None,
        },
{
    match item {
        ScriptValue::Object(map) => {
            let text = match map.get("text") {
                Some(v) => match v.as_text() {
                    Some(s) => s,
                    None => {
                        return None;
                    },
                },
                None => {
                    return None;
                },
            };
            let next = match map.get("next") {
                Some(v) => match v.as_text() {
                    Some(s) => s,
                    None => {
                        return None;
                    },
                },
                None => {
                    return None;
                },
            };
            let affection: i32 = match map.get("affection") {
                Some(v) => match v.as_int() {
                    Some(i) => #[verifier::truncate]
                    (i as i32),
                    None => 0,
                },
                None => 0,
            };
            Some(ChoiceOptionDef { text, next, affection })
        },
        _ => None,
    }
}

/// Reads the options of a choice out of the array that a script gave. Each
/// option is a map with the keys `text` and `next`, and `affection` if the
/// option changes the affection.
pub fn parse_choice_options(arr: &Vec<ScriptValue>) -> (r: Vec<ChoiceOptionDef>)
    ensures
        option_defs_view(r@) == options_of(arr@),
{
    let mut out: Vec<ChoiceOptionDef> = Vec::new();
    let mut i: usize = 0;
    assert(arr@.take(0) =~= Seq::empty());
    assert(option_defs_view(out@) =~= options_of(arr@.take(0)));
    while i < arr.len()
        invariant
            i <= arr.len(),
            option_defs_view(out@) == options_of(arr@.take(i as int)),
        decreases arr.len() - i,
    {
        let ghost before = option_defs_view(out@);
        assert(arr@.take(i + 1).drop_last() =~= arr@.take(i as int));
        assert(arr@.take(i + 1).last() == arr@[i as int]);
        match parse_choice_option(&arr[i]) {
            Some(o) => {
                let ghost ov = o@;
                out.push(o);
                assert(option_defs_view(out@) =~= before.push(ov));
            },
            None => {},
        }
        i += 1;
    }
    assert(arr@.take(i as int) =~= arr@);
    out
}

} // verus!
