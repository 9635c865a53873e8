//! The record of one dateable character that a script defines.

use crate::dialogue::node::{
    Choice, ChoiceView, DeltaView, DialogueNode, NodeView, Speaker, SpeakerView,
};
use crate::dialogue::tree::{copy_trees, trees_view, DialogueBuilder, DialogueTree, TreeView};
use crate::plugins::script::ScriptNumber;
use vstd::prelude::*;

verus! {

/// A colour as a script gives it: red, green, blue and alpha.
#[derive(Clone, Copy, Debug, PartialEq, Eq, Structural)]
pub struct ScriptColor {
    pub r: ScriptNumber,
    pub g: ScriptNumber,
    pub b: ScriptNumber,
    pub a: ScriptNumber,
}

/// Everything that defines a dateable character.
#[derive(Clone, Debug)]
pub struct FishDef {
    /// The id under which the character is registered.
    pub id: String,
    pub name: String,
    pub species: String,
    pub description: String,
    /// How hard the character is to catch, from 0 (easy) to 1 (hard).
    pub difficulty: ScriptNumber,
    pub color: ScriptColor,
    /// The art shown at an affection above 20.
    pub art_happy: String,
    /// The art shown at an affection above 10.
    pub art_neutral: String,
    /// The art shown at an affection of 10 or less.
    pub art_sad: String,
    pub art_small: String,
    pub date_location: String,
    pub date_scene_art: String,
    pub pond_name: String,
    /// The conversations of the dates, which rotate with the date number.
    pub dialogues: Vec<DialogueTree>,
}

/// The mathematical value of a [`FishDef`].
pub struct FishDefView {
    pub id: Seq<char>,
    pub name: Seq<char>,
    pub species: Seq<char>,
    pub description: Seq<char>,
    pub difficulty: ScriptNumber,
    pub color: ScriptColor,
    pub art_happy: Seq<char>,
    pub art_neutral: Seq<char>,
    pub art_sad: Seq<char>,
    pub art_small: Seq<char>,
    pub date_location: Seq<char>,
    pub date_scene_art: Seq<char>,
    pub pond_name: Seq<char>,
    pub dialogues: Seq<TreeView>,
}

impl View for FishDef {
    type V = FishDefView;

    open spec fn view(&self) -> FishDefView {
        FishDefView {
            id: self.id@,
            name: self.name@,
            species: self.species@,
            description: self.description@,
            difficulty: self.difficulty,
            color: self.color,
            art_happy: self.art_happy@,
            art_neutral: self.art_neutral@,
            art_sad: self.art_sad@,
            art_small: self.art_small@,
            date_location: self.date_location@,
            date_scene_art: self.date_scene_art@,
            pond_name: self.pond_name@,
            dialogues: trees_view(self.dialogues@),
        }
    }
}

/// The views of a sequence of characters.
pub open spec fn fish_defs_view(s: Seq<FishDef>) -> Seq<FishDefView> {
    Seq::new(s.len(), |i: int| s[i]@)
}

/// The lower-case form of a string: what `str::to_lowercase` of the standard
/// library returns for it.
pub uninterp spec fn lowercase_of(s: Seq<char>) -> Seq<char>;

/// Calls `str::to_lowercase` of the standard library. Nothing is proved of
/// the result; it is only given the name `lowercase_of`.
#[verifier::external_body]
fn lowercase(s: &str) -> (r: String)
    ensures
        r@ == lowercase_of(s@),
{
    s.to_lowercase()
}

/// The art that goes with an affection: the happy one above 20, the neutral
/// one above 10, the sad one otherwise.
pub open spec fn art_for(fish: FishDefView, affection: int) -> Seq<char> {
    if affection > 20 {
        fish.art_happy
    } else if affection > 10 {
        fish.art_neutral
    } else {
        fish.art_sad
    }
}

/// The conversation of a character without conversations of its own: a
/// greeting, one choice between two answers that add 3 and 2 to the
/// affection, and a farewell.
pub open spec fn fallback_tree(name: Seq<char>) -> TreeView {
    let speaker = lowercase_of(name);
    TreeView {
        title: "Date with "@ + name,
        start_node: "start"@,
        speakers: seq![
            SpeakerView { id: speaker, display_name: name },
            SpeakerView { id: "player"@, display_name: "You"@ },
        ],
        nodes: seq![
            NodeView::Text {
                id: "start"@,
                speaker: Some(speaker),
                text: "Hi there! I'm "@ + name + ". Thanks for taking me out!"@,
                next_node: Some("q1"@),
            },
            NodeView::Choice {
                id: "q1"@,
                prompt: Some(name + " smiles at you."@),
                choices: seq![
                    ChoiceView {
                        text: "This is nice!"@,
                        next_node: "ending"@,
                        deltas: seq![DeltaView { name: "affection"@, delta: 3 }],
                    },
                    ChoiceView {
                        text: "Let's do this again sometime."@,
                        next_node: "ending"@,
                        deltas: seq![DeltaView { name: "affection"@, delta: 2 }],
                    },
                ],
            },
            NodeView::Text {
                id: "ending"@,
                speaker: Some(speaker),
                text: "I had a great time! See you around!"@,
                next_node: Some("end"@),
            },
            NodeView::End { id: "end"@ },
        ],
    }
}

/// The conversation of the date with the number `date_number`: the
/// character's conversations in rotation, or the fallback where it has none.
pub open spec fn dialogue_for(fish: FishDefView, date_number: int) -> TreeView {
    if fish.dialogues.len() == 0 {
        fallback_tree(fish.name)
    } else {
        fish.dialogues[date_number % (fish.dialogues.len() as int)]
    }
}

impl FishDef {
    /// The art that goes with `affection`.
    pub fn art_for_affection(&self, affection: i32) -> (r: &str)
        ensures
            r@ == art_for(self@, affection as int),
    {
        if affection > 20 {
            self.art_happy.as_str()
        } else if affection > 10 {
            self.art_neutral.as_str()
        } else {
            self.art_sad.as_str()
        }
    }

    /// The conversation of the date with the number `date_number`.
    pub fn dialogue_for_date(&self, date_number: u32) -> (t: DialogueTree)
        ensures
            t@ == dialogue_for(self@, date_number as int),
    {
        if self.dialogues.len() == 0 {
            return Self::fallback_dialogue(self.name.as_str());
        }
        let idx = (date_number as usize) % self.dialogues.len();
        self.dialogues[idx].copy()
    }

    /// The conversation of a character named `name` that has none of its
    /// own.
    pub fn fallback_dialogue_for(name: &str) -> (t: DialogueTree)
        ensures
            t@ == fallback_tree(name@),
    {
        Self::fallback_dialogue(name)
    }

    fn fallback_dialogue(name: &str) -> (t: DialogueTree)
        ensures
            t@ == fallback_tree(name@),
    {
        let speaker_id = lowercase(name);
        let title = "Date with ".to_owned().concat(name);
        let greeting = "Hi there! I'm ".to_owned().concat(name).concat(
            ". Thanks for taking me out!",
        );
        let prompt = name.to_owned().concat(" smiles at you.");
        let mut choices: Vec<Choice> = Vec::new();
        let first = Choice::new("This is nice!", "ending").sets("affection", 3);
        let second = Choice::new("Let's do this again sometime.", "ending").sets("affection", 2);
        assert(first@.deltas =~= seq![DeltaView { name: "affection"@, delta: 3 }]);
        assert(second@.deltas =~= seq![DeltaView { name: "affection"@, delta: 2 }]);
        choices.push(first);
        choices.push(second);
        let question = DialogueNode::choice("q1", prompt.as_str(), choices);
        assert(question@->Choice_choices =~= fallback_tree(name@).nodes[1]->Choice_choices);
        let tree = DialogueBuilder::new("start")
            .title(title.as_str())
            .speaker(Speaker::new(speaker_id.as_str(), name))
            .speaker(Speaker::new("player", "You"))
            .node(DialogueNode::text("start", speaker_id.as_str(), greeting.as_str(), "q1"))
            .node(question)
            .node(
                DialogueNode::text(
                    "ending",
                    speaker_id.as_str(),
                    "I had a great time! See you around!",
                    "end",
                ),
            )
            .node(DialogueNode::end("end"))
            .build_unchecked();
        assert(tree@.speakers =~= fallback_tree(name@).speakers);
        assert(tree@.nodes =~= fallback_tree(name@).nodes);
        tree
    }

    /// A copy of this record.
    pub fn copy(&self) -> (f: FishDef)
        ensures
            f@ == self@,
    {
        FishDef {
            id: self.id.clone(),
            name: self.name.clone(),
            species: self.species.clone(),
            description: self.description.clone(),
            difficulty: self.difficulty,
            color: self.color,
            art_happy: self.art_happy.clone(),
            art_neutral: self.art_neutral.clone(),
            art_sad: self.art_sad.clone(),
            art_small: self.art_small.clone(),
            date_location: self.date_location.clone(),
            date_scene_art: self.date_scene_art.clone(),
            pond_name: self.pond_name.clone(),
            dialogues: copy_trees(&self.dialogues),
        }
    }
}

} // verus!
