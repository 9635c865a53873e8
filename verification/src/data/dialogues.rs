//! The conversations of the built-in characters.
//!
//! Each character has three conversations, which rotate with the number of
//! the date. All of them have one shape: a greeting, then three rounds of a
//! question with three answers and a reply to each, then the end. What is
//! said is kept in tables; one function builds the graph of that shape from
//! the tables of a conversation. A graph of that shape has referential
//! integrity if its ids are distinct, which is proved once for the shape and
//! once for the ids of each conversation.

use crate::data::fish_id::{FishId, FishIdView};
use crate::dialogue::node::{
    choices_view, Choice, ChoiceView, DeltaView, DialogueNode, NodeView, Speaker, SpeakerView,
};
use crate::dialogue::tree::{
    edges_resolve, has_node, lemma_has_node, well_formed, DialogueBuilder, DialogueTree, TreeView,
};
use crate::plugins::fish_def::{dialogue_for, fallback_tree, FishDef, FishDefView};
use crate::dialogue::runner::{apply_deltas, RunnerView};
use crate::dialogue::tree::{find_node, node_has_id};
use crate::dialogue::variables::{clamp_i32, value_of};
use crate::plugins::registry::{lookup_fish, FishRegistry};
use crate::search::lemma_last_index_is;
use vstd::prelude::*;

verus! {

/// The number of conversations of each built-in character.
pub const DIALOGUES_PER_FISH: u32 = 3;

/// The number of nodes of a built-in conversation.
pub const DATE_NODES: usize = 14;

/// What is said in one built-in conversation.
pub struct DateScript {
    pub title: Seq<char>,
    /// The id and the name of the character that speaks.
    pub speaker_id: Seq<char>,
    pub speaker_name: Seq<char>,
    /// The ids of the nodes, in order.
    pub ids: Seq<Seq<char>>,
    /// The greeting, then the three replies of each round.
    pub texts: Seq<Seq<char>>,
    /// The question of each round.
    pub prompts: Seq<Seq<char>>,
    /// The three answers of each round.
    pub options: Seq<Seq<char>>,
    /// What each answer adds to the affection; zero for an answer that
    /// leaves it as it is.
    pub affection: Seq<int>,
}

/// The views of a sequence of static strings.
pub open spec fn strs(s: Seq<&'static str>) -> Seq<Seq<char>> {
    Seq::new(s.len(), |i: int| s[i]@)
}

/// A sequence of `i32` as integers.
pub open spec fn ints(s: Seq<i32>) -> Seq<int> {
    Seq::new(s.len(), |i: int| s[i] as int)
}

impl DateScript {
    /// The answer `j` of the round `round`: it leads to the reply that is
    /// meant for it.
    pub open spec fn option(self, round: int, j: int) -> ChoiceView {
        let amount = self.affection[3 * round + j];
        ChoiceView {
            text: self.options[3 * round + j],
            next_node: self.ids[4 * round + 2 + j],
            deltas: if amount != 0 {
                seq![DeltaView { name: "affection"@, delta: amount }]
            } else {
                Seq::empty()
            },
        }
    }

    /// The node at position `k`: the greeting at 0; the question of a round
    /// at 1, 5 and 9, each followed by its three replies; the end at 13.
    pub open spec fn node(self, k: int) -> NodeView {
        if k == 0 {
            NodeView::Text {
                id: self.ids[0],
                speaker: Some(self.speaker_id),
                text: self.texts[0],
                next_node: Some(self.ids[1]),
            }
        } else if k == 13 {
            NodeView::End { id: self.ids[13] }
        } else {
            let round = (k - 1) / 4;
            let place = (k - 1) % 4;
            if place == 0 {
                NodeView::Choice {
                    id: self.ids[k],
                    prompt: Some(self.prompts[round]),
                    choices: Seq::new(3, |j: int| self.option(round, j)),
                }
            } else {
                NodeView::Text {
                    id: self.ids[k],
                    speaker: Some(self.speaker_id),
                    text: self.texts[3 * round + place],
                    next_node: Some(self.ids[4 * round + 5]),
                }
            }
        }
    }

    /// The graph of the conversation.
    pub open spec fn tree(self) -> TreeView {
        TreeView {
            title: self.title,
            start_node: self.ids[0],
            speakers: seq![
                SpeakerView { id: self.speaker_id, display_name: self.speaker_name },
                SpeakerView { id: "player"@, display_name: "You"@ },
            ],
            nodes: Seq::new(DATE_NODES as nat, |k: int| self.node(k)),
        }
    }
}

/// `node` is a text that leads on to `target`.
pub open spec fn leads_to(node: NodeView, target: Seq<char>) -> bool {
    node matches NodeView::Text { next_node: Some(t), .. } && t == target
}

/// `node` is a choice among three options that lead to `a`, `b` and `c`.
pub open spec fn offers(node: NodeView, a: Seq<char>, b: Seq<char>, c: Seq<char>) -> bool {
    node matches NodeView::Choice { choices, .. } && choices.len() == 3 && choices[0].next_node
        == a && choices[1].next_node == b && choices[2].next_node == c
}

/// The shape of a built-in conversation whose nodes have the ids `ids`, in
/// order: a greeting; three times a question, whose three options lead to
/// the three replies that follow it, each of which leads to the next
/// question or, in the last round, to the end; and the end.
pub open spec fn date_shape(nodes: Seq<NodeView>, ids: Seq<Seq<char>>) -> bool {
    &&& nodes.len() == 14
    &&& ids.len() == 14
    &&& forall|k: int| 0 <= k < 14 ==> (#[trigger] nodes[k]).id() == ids[k]
    &&& leads_to(nodes[0], ids[1])
    &&& offers(nodes[1], ids[2], ids[3], ids[4])
    &&& leads_to(nodes[2], ids[5])
    &&& leads_to(nodes[3], ids[5])
    &&& leads_to(nodes[4], ids[5])
    &&& offers(nodes[5], ids[6], ids[7], ids[8])
    &&& leads_to(nodes[6], ids[9])
    &&& leads_to(nodes[7], ids[9])
    &&& leads_to(nodes[8], ids[9])
    &&& offers(nodes[9], ids[10], ids[11], ids[12])
    &&& leads_to(nodes[10], ids[13])
    &&& leads_to(nodes[11], ids[13])
    &&& leads_to(nodes[12], ids[13])
    &&& nodes[13] is End
}

/// No id occurs twice in `ids`.
pub open spec fn distinct_ids(ids: Seq<Seq<char>>) -> bool {
    forall|i: int, j: int| 0 <= i < j < ids.len() ==> #[trigger] ids[i] != #[trigger] ids[j]
}

/// A conversation of the built-in shape whose ids are distinct and which
/// starts at its first node has referential integrity.
pub proof fn lemma_date_shape(t: TreeView, ids: Seq<Seq<char>>)
    requires
        date_shape(t.nodes, ids),
        distinct_ids(ids),
        t.start_node == ids[0],
    ensures
        well_formed(t),
{
    let nodes = t.nodes;
    assert forall|k: int| 0 <= k < 14 implies has_node(nodes, #[trigger] ids[k]) by {
        lemma_has_node(nodes, ids[k]);
        assert(nodes[k].id() == ids[k]);
    }
    assert forall|i: int, j: int| 0 <= i < j < nodes.len() implies (#[trigger] nodes[i]).id() != (
    #[trigger] nodes[j]).id() by {
        assert(ids[i] != ids[j]);
    }
    assert(has_node(nodes, ids[0]));
    assert forall|k: int| 0 <= k < nodes.len() implies edges_resolve(
        nodes,
        #[trigger] nodes[k],
    ) by {
        assert(has_node(nodes, ids[1]));
        assert(has_node(nodes, ids[2]));
        assert(has_node(nodes, ids[3]));
        assert(has_node(nodes, ids[4]));
        assert(has_node(nodes, ids[5]));
        assert(has_node(nodes, ids[6]));
        assert(has_node(nodes, ids[7]));
        assert(has_node(nodes, ids[8]));
        assert(has_node(nodes, ids[9]));
        assert(has_node(nodes, ids[10]));
        assert(has_node(nodes, ids[11]));
        assert(has_node(nodes, ids[12]));
        assert(has_node(nodes, ids[13]));
        if k == 1 || k == 5 || k == 9 {
            let choices = nodes[k]->Choice_choices;
            assert forall|j: int| 0 <= j < choices.len() implies has_node(
                nodes,
                (#[trigger] choices[j]).next_node,
            ) by {
                if j == 0 {
                } else if j == 1 {
                } else {
                    assert(j == 2);
                }
            }
        }
    }
}

/// The graph of a script with fourteen ids has the built-in shape; where
/// its ids are distinct it has referential integrity.
pub proof fn lemma_script_tree(script: DateScript)
    requires
        script.ids.len() == 14,
    ensures
        date_shape(script.tree().nodes, script.ids),
        distinct_ids(script.ids) ==> well_formed(script.tree()),
{
    let nodes = script.tree().nodes;
    assert(nodes[0] == script.node(0));
    assert(nodes[1] == script.node(1));
    assert(nodes[2] == script.node(2));
    assert(nodes[3] == script.node(3));
    assert(nodes[4] == script.node(4));
    assert(nodes[5] == script.node(5));
    assert(nodes[6] == script.node(6));
    assert(nodes[7] == script.node(7));
    assert(nodes[8] == script.node(8));
    assert(nodes[9] == script.node(9));
    assert(nodes[10] == script.node(10));
    assert(nodes[11] == script.node(11));
    assert(nodes[12] == script.node(12));
    assert(nodes[13] == script.node(13));
    assert forall|k: int| 0 <= k < 14 implies (#[trigger] nodes[k]).id() == script.ids[k] by {
        assert(nodes[k] == script.node(k));
    }
    if distinct_ids(script.ids) {
        lemma_date_shape(script.tree(), script.ids);
    }
}

/// In a conversation of the built-in shape with distinct ids, each id finds
/// the node at its own position.
pub proof fn lemma_date_lookup(script: DateScript, k: int)
    requires
        script.ids.len() == 14,
        distinct_ids(script.ids),
        0 <= k < 14,
    ensures
        find_node(script.tree().nodes, script.ids[k]) == Some(k),
        script.tree().node(script.ids[k]) == Some(script.node(k)),
{
    let nodes = script.tree().nodes;
    lemma_script_tree(script);
    let p = node_has_id(nodes, script.ids[k]);
    assert(p(k));
    assert forall|j: int| k < j < 14 implies !#[trigger] p(j) by {
        assert(nodes[j].id() == script.ids[j]);
        assert(script.ids[k] != script.ids[j]);
    }
    lemma_last_index_is(14, p, k);
}

/// The value of the affection after an answer that adds `amount` to it.
pub open spec fn affection_after(before: int, amount: int) -> int {
    if amount != 0 {
        clamp_i32(before + amount)
    } else {
        before
    }
}

/// Every built-in conversation runs the same course, whatever is answered:
/// the greeting, then three rounds of a question, an answer and the reply
/// to it, and with the last reply it ends, not before. The affection then
/// stands at what the three answers added, one after the other.
pub proof fn law_builtin_date_runs_its_course(script: DateScript, a: int, b: int, c: int)
    requires
        script.ids.len() == 14,
        distinct_ids(script.ids),
        0 <= a < 3,
        0 <= b < 3,
        0 <= c < 3,
    ensures
        ({
            let r0 = RunnerView::start(script.tree());
            let r1 = r0.advance().0;
            let r2 = r1.select_choice(a).0;
            let r3 = r2.advance().0;
            let r4 = r3.select_choice(b).0;
            let r5 = r4.advance().0;
            let r6 = r5.select_choice(c).0;
            let r7 = r6.advance().0;
            &&& r0.current_node() == Some(script.node(0))
            &&& r1.current_node() == Some(script.node(1))
            &&& r2.current_node() == Some(script.node(2 + a))
            &&& r3.current_node() == Some(script.node(5))
            &&& r4.current_node() == Some(script.node(6 + b))
            &&& r5.current_node() == Some(script.node(9))
            &&& r6.current_node() == Some(script.node(10 + c))
            &&& r7.current_node() == Some(script.node(13))
            &&& !r6.is_ended()
            &&& r7.is_ended()
            &&& value_of(r7.variables, "affection"@) == affection_after(
                affection_after(affection_after(0, script.affection[a]), script.affection[3 + b]),
                script.affection[6 + c],
            )
        }),
{
    let t = script.tree();
    lemma_script_tree(script);
    lemma_date_lookup(script, 0);
    lemma_date_lookup(script, 1);
    lemma_date_lookup(script, 2 + a);
    lemma_date_lookup(script, 5);
    lemma_date_lookup(script, 6 + b);
    lemma_date_lookup(script, 9);
    lemma_date_lookup(script, 10 + c);
    lemma_date_lookup(script, 13);
    let r0 = RunnerView::start(t);
    let r1 = r0.advance().0;
    assert(r1.current == Some(script.ids[1]));
    let r2 = r1.select_choice(a).0;
    assert(script.node(1)->Choice_choices[a] == script.option(0, a));
    assert(r2.current == Some(script.ids[2 + a]));
    lemma_option_effect(r1.variables, script, 0, a);
    let r3 = r2.advance().0;
    assert(r3.current == Some(script.ids[5]));
    let r4 = r3.select_choice(b).0;
    assert(script.node(5)->Choice_choices[b] == script.option(1, b));
    assert(r4.current == Some(script.ids[6 + b]));
    lemma_option_effect(r3.variables, script, 1, b);
    let r5 = r4.advance().0;
    assert(r5.current == Some(script.ids[9]));
    let r6 = r5.select_choice(c).0;
    assert(script.node(9)->Choice_choices[c] == script.option(2, c));
    assert(r6.current == Some(script.ids[10 + c]));
    lemma_option_effect(r5.variables, script, 2, c);
    let r7 = r6.advance().0;
    assert(r7.current == Some(script.ids[13]));
    assert(value_of(r0.variables, "affection"@) == 0);
}

/// What an answer of a built-in conversation does to the affection.
proof fn lemma_option_effect(vars: Map<Seq<char>, int>, script: DateScript, round: int, j: int)
    ensures
        value_of(apply_deltas(vars, script.option(round, j).deltas), "affection"@)
            == affection_after(value_of(vars, "affection"@), script.affection[3 * round + j]),
{
    let deltas = script.option(round, j).deltas;
    let amount = script.affection[3 * round + j];
    if amount != 0 {
        assert(deltas.drop_last() =~= Seq::empty());
        assert(deltas.last() == DeltaView { name: "affection"@, delta: amount });
        assert(apply_deltas(vars, deltas.drop_last()) == vars);
    }
}

/// A text node spoken by `speaker` that leads on to `next`.
fn text_node(id: &str, speaker: &str, text: &str, next: &str) -> (n: DialogueNode)
    ensures
        n@ == (NodeView::Text {
            id: id@,
            speaker: Some(speaker@),
            text: text@,
            next_node: Some(next@),
        }),
{
    DialogueNode::text(id, speaker, text, next)
}

/// The script that the tables of a conversation stand for.
pub open spec fn script_of(
    title: Seq<char>,
    speaker_id: Seq<char>,
    speaker_name: Seq<char>,
    ids: [&'static str; 14],
    texts: [&'static str; 10],
    prompts: [&'static str; 3],
    options: [&'static str; 9],
    affection: [i32; 9],
) -> DateScript {
    DateScript {
        title,
        speaker_id,
        speaker_name,
        ids: strs(ids@),
        texts: strs(texts@),
        prompts: strs(prompts@),
        options: strs(options@),
        affection: ints(affection@),
    }
}

/// Builds the graph of a conversation from its tables.
pub fn build_date(
    title: &str,
    speaker_id: &str,
    speaker_name: &str,
    ids: &[&'static str; 14],
    texts: &[&'static str; 10],
    prompts: &[&'static str; 3],
    options: &[&'static str; 9],
    affection: &[i32; 9],
) -> (t: DialogueTree)
    ensures
        t@ == script_of(
            title@,
            speaker_id@,
            speaker_name@,
            *ids,
            *texts,
            *prompts,
            *options,
            *affection,
        ).tree(),
{
    let ghost script = script_of(
        title@,
        speaker_id@,
        speaker_name@,
        *ids,
        *texts,
        *prompts,
        *options,
        *affection,
    );
    let ghost target = script.tree();
    let mut builder = DialogueBuilder::new(ids[0]).title(title).speaker(
        Speaker::new(speaker_id, speaker_name),
    ).speaker(Speaker::new("player", "You")).node(text_node(ids[0], speaker_id, texts[0], ids[1]));
    assert(builder@.speakers =~= target.speakers);
    assert(builder@.nodes =~= target.nodes.take(1));
    let mut round: usize = 0;
    while round < 3
        invariant
            round <= 3,
            script == script_of(
                title@,
                speaker_id@,
                speaker_name@,
                *ids,
                *texts,
                *prompts,
                *options,
                *affection,
            ),
            target == script.tree(),
            builder@ == (TreeView { nodes: target.nodes.take(1 + 4 * round), ..target }),
        decreases 3 - round,
    {
        let k: usize = 1 + 4 * round;
        let mut choices: Vec<Choice> = Vec::new();
        let mut j: usize = 0;
        while j < 3
            invariant
                j <= 3,
                round < 3,
                k == 1 + 4 * round,
                script == script_of(
                    title@,
                    speaker_id@,
                    speaker_name@,
                    *ids,
                    *texts,
                    *prompts,
                    *options,
                    *affection,
                ),
                choices@.len() == j,
                forall|m: int| 0 <= m < j ==> (#[trigger] choices@[m])@ == script.option(round as int, m),
            decreases 3 - j,
        {
            let amount = affection[3 * round + j];
            let plain = Choice::new(options[3 * round + j], ids[k + 1 + j]);
            let choice = if amount != 0 {
                let with = plain.sets("affection", amount);
                assert(with@.deltas =~= seq![DeltaView { name: "affection"@, delta: amount as int }]);
                with
            } else {
                plain
            };
            choices.push(choice);
            j += 1;
        }
        let question = DialogueNode::choice(ids[k], prompts[round], choices);
        assert(question@ == script.node(k as int)) by {
            assert(choices_view(choices@) =~= Seq::new(3, |m: int| script.option(round as int, m)));
        }
        builder = builder.node(question);
        assert(target.nodes.take(k as int).push(target.nodes[k as int]) =~= target.nodes.take(
            k + 1,
        ));
        let mut place: usize = 1;
        while place < 4
            invariant
                1 <= place <= 4,
                round < 3,
                k == 1 + 4 * round,
                script == script_of(
                    title@,
                    speaker_id@,
                    speaker_name@,
                    *ids,
                    *texts,
                    *prompts,
                    *options,
                    *affection,
                ),
                target == script.tree(),
                builder@ == (TreeView { nodes: target.nodes.take(k + place), ..target }),
            decreases 4 - place,
        {
            let reply = text_node(ids[k + place], speaker_id, texts[3 * round + place], ids[k + 4]);
            assert(reply@ == script.node(k + place));
            builder = builder.node(reply);
            assert(target.nodes.take(k + place).push(target.nodes[k + place]) =~= target.nodes.take(
                k + place + 1,
            ));
            place += 1;
        }
        round += 1;
    }
    builder = builder.node(DialogueNode::end(ids[13]));
    assert(target.nodes.take(13).push(target.nodes[13]) =~= target.nodes);
    builder.build_unchecked()
}

/// The ids of the nodes of the first conversation with Bubbles.
pub const BUBBLES_DATE1_IDS: [&'static str; 14] = [
    "start",
    "q1",
    "q1_good",
    "q1_neutral",
    "q1_funny",
    "q2",
    "q2_deep",
    "q2_hobby",
    "q2_silence",
    "q3",
    "ending_good",
    "ending_great",
    "ending_meh",
    "end",
];

/// What Bubbles says in the first conversation: the greeting, then the
/// replies.
pub const BUBBLES_DATE1_TEXTS: [&'static str; 10] = [
    "Hey hey hey! Thanks for bringing me to the Coral Cafe! I LOVE this place!",
    "Oh em gee, EVERYTHING! But the kelp smoothie is to DIE for. Get it? Die? Like... fish don't actually die from kelp... okay that was dark.",
    "Oh... yeah, I guess you're right. *fidgets* I just get excited, you know?",
    "HA! You're funny! I like funny. The breadsticks here are actually shaped like little seahorses!",
    "Aww, you want to know ME? Well, I'm a clownfish! I live in an anemone with my family. I love making others laugh because... honestly? The ocean can be scary sometimes. Laughter helps.",
    "I collect shiny things! Bottle caps, coins, once I found a whole spoon! I keep them in my anemone. My roommate hates it.",
    "... ... ... Soooo this is awkward! I'll just keep talking then! Did you know clownfish can change gender? Nature is WILD!",
    "Me too! Can we do this again? I know this great place where the bioluminescent plankton glow at night!",
    "*turns bright orange* Stop it, you're making me blush! ...Wait, I'm ALWAYS orange. BUT THE POINT STANDS!",
    "Oh... okay! Well, the offer stands if you ever want to hang out! No pressure! *nervous laugh*",
];

/// The questions of the first conversation with Bubbles.
pub const BUBBLES_DATE1_PROMPTS: [&'static str; 3] = [
    "Bubbles is bouncing excitedly. What do you say?",
    "Bubbles looks at you expectantly.",
    "The date is going well. Final moment...",
];

/// The answers to choose from in the first conversation with Bubbles.
pub const BUBBLES_DATE1_OPTIONS: [&'static str; 9] = [
    "Your enthusiasm is contagious! What's good here?",
    "Calm down, it's just a cafe.",
    "I mostly came for the free breadsticks.",
    "Tell me about yourself, Bubbles.",
    "So... do you have any hobbies?",
    "*stare at menu in silence*",
    "I had a really great time tonight, Bubbles.",
    "You're the funniest fish I've ever met.",
    "Well, this was... something.",
];

/// What each answer of the first conversation with Bubbles adds to
/// the affection.
pub const BUBBLES_DATE1_AFFECTION: [i32; 9] = [
    3,
    0,
    2,
    4,
    2,
    0,
    5,
    4,
    1,
];

/// The first conversation with Bubbles.
pub open spec fn bubbles_date1() -> DateScript {
    script_of(
        "Date with Bubbles"@,
        "bubbles"@,
        "Bubbles"@,
        BUBBLES_DATE1_IDS,
        BUBBLES_DATE1_TEXTS,
        BUBBLES_DATE1_PROMPTS,
        BUBBLES_DATE1_OPTIONS,
        BUBBLES_DATE1_AFFECTION,
    )
}

/// The ids of the first conversation with Bubbles are distinct.
proof fn lemma_bubbles_date1_ids()
    ensures
        distinct_ids(bubbles_date1().ids),
{
    reveal_strlit("start");
    reveal_strlit("q1");
    reveal_strlit("q1_good");
    reveal_strlit("q1_neutral");
    reveal_strlit("q1_funny");
    reveal_strlit("q2");
    reveal_strlit("q2_deep");
    reveal_strlit("q2_hobby");
    reveal_strlit("q2_silence");
    reveal_strlit("q3");
    reveal_strlit("ending_good");
    reveal_strlit("ending_great");
    reveal_strlit("ending_meh");
    reveal_strlit("end");
    assert("start"@.len() == 5);
    assert("q1"@.len() == 2);
    assert("q1_good"@.len() == 7);
    assert("q1_neutral"@.len() == 10);
    assert("q1_funny"@.len() == 8);
    assert("q2"@.len() == 2);
    assert("q2_deep"@.len() == 7);
    assert("q2_hobby"@.len() == 8);
    assert("q2_silence"@.len() == 10);
    assert("q3"@.len() == 2);
    assert("ending_good"@.len() == 11);
    assert("ending_great"@.len() == 12);
    assert("ending_meh"@.len() == 10);
    assert("end"@.len() == 3);
    assert("q1"@[1] != "q2"@[1]);
    assert("q1"@[1] != "q3"@[1]);
    assert("q1_good"@[1] != "q2_deep"@[1]);
    assert("q1_neutral"@[1] != "q2_silence"@[1]);
    assert("q1_neutral"@[0] != "ending_meh"@[0]);
    assert("q1_funny"@[1] != "q2_hobby"@[1]);
    assert("q2"@[1] != "q3"@[1]);
    assert("q2_silence"@[0] != "ending_meh"@[0]);
    let ids = bubbles_date1().ids;
    assert(ids[0] == "start"@);
    assert(ids[1] == "q1"@);
    assert(ids[2] == "q1_good"@);
    assert(ids[3] == "q1_neutral"@);
    assert(ids[4] == "q1_funny"@);
    assert(ids[5] == "q2"@);
    assert(ids[6] == "q2_deep"@);
    assert(ids[7] == "q2_hobby"@);
    assert(ids[8] == "q2_silence"@);
    assert(ids[9] == "q3"@);
    assert(ids[10] == "ending_good"@);
    assert(ids[11] == "ending_great"@);
    assert(ids[12] == "ending_meh"@);
    assert(ids[13] == "end"@);
}

/// The first of the three conversations with Bubbles.
pub fn build_bubbles_date1() -> (t: DialogueTree)
    ensures
        t@ == bubbles_date1().tree(),
        well_formed(t@),
{
    proof {
        lemma_bubbles_date1_ids();
        lemma_script_tree(bubbles_date1());
    }
    build_date(
        "Date with Bubbles",
        "bubbles",
        "Bubbles",
        &BUBBLES_DATE1_IDS,
        &BUBBLES_DATE1_TEXTS,
        &BUBBLES_DATE1_PROMPTS,
        &BUBBLES_DATE1_OPTIONS,
        &BUBBLES_DATE1_AFFECTION,
    )
}

/// The ids of the nodes of the second conversation with Bubbles.
pub const BUBBLES_DATE2_IDS: [&'static str; 14] = [
    "start",
    "q1",
    "q1_concern",
    "q1_match",
    "q1_worried",
    "q2",
    "q2_phone",
    "q2_posting",
    "q2_stern",
    "q3",
    "ending_good",
    "ending_great",
    "ending_meh",
    "end",
];

/// What Bubbles says in the second conversation: the greeting, then the
/// replies.
pub const BUBBLES_DATE2_TEXTS: [&'static str; 10] = [
    "GATHER ROUND my precious little land-dweller because MAMA BUBBLES hath returned with the ENERGY today. I have had three kelp espressos and I am VIBRATING.",
    "They're doing INFINITY SYMBOLS actually, which I think means I've achieved enlightenment? Or a medical emergency. Either way I'm having the time of my LIFE.",
    "FOUR?! Oh we are DANGEROUS together. This is the energy. THIS IS THE ENERGY RIGHT HERE. Consider this your only warning, the ocean is not ready for us.",
    "Call someone?? Baby I AM the someone people call. I'm entering dangerous thresholds of 'lights up a room' and I should probably fear for my life but I simply choose not to.",
    "It's my DEVICE. I found it in a shipwreck and honestly? The ghosts in here post better takes than half the reef. Some fish said pineapple doesn't belong on pizza and I have been SCREAMING for three full minutes.",
    "I'm LIVE-THREADING this date actually. 'Currently on a date with someone who makes my heart do the thing. Thread below.' I've got forty-seven likes. The ocean is INVESTED in us.",
    "I-- okay fine. *puts phone away* *immediately takes it back out* Sorry I lied, this clam influencer just said working from your anemone kills productivity and I need to ratio them IMMEDIATELY.",
    "UNHINGED?? Every time you are nice to me my fins grow even more luscious and powerful. I'm reaching levels of radiance that are genuinely concerning. Thank you for enabling this.",
    "*slams fin on table* YOURS?? Oh I'm posting about this. 'They called me THEIRS. I am ascending. Goodbye mortal reef.' This is the best date I've EVER had and I've had SEVERAL.",
    "A MISTAKE?! The espressos were the only correct decision I made today. The first mistake was when evolution gave me a mouth this powerful. I cannot be stopped, only contained.",
];

/// The questions of the second conversation with Bubbles.
pub const BUBBLES_DATE2_PROMPTS: [&'static str; 3] = [
    "Bubbles is vibrating at a frequency that concerns you.",
    "Bubbles pulls out a barnacle-encrusted phone.",
    "Bubbles has somehow gotten louder.",
];

/// The answers to choose from in the second conversation with Bubbles.
pub const BUBBLES_DATE2_OPTIONS: [&'static str; 9] = [
    "Three?? Bubbles, your pupils are doing figure eights.",
    "Match my energy. I had four.",
    "Should I call someone?",
    "What is that.",
    "Are you posting right now? On a DATE?",
    "Bubbles. Put the phone down.",
    "I love that you're completely unhinged.",
    "You're a lot. But you're MY a lot.",
    "I think the kelp espressos were a mistake.",
];

/// What each answer of the second conversation with Bubbles adds to
/// the affection.
pub const BUBBLES_DATE2_AFFECTION: [i32; 9] = [
    3,
    5,
    0,
    3,
    4,
    1,
    6,
    5,
    2,
];

/// The second conversation with Bubbles.
pub open spec fn bubbles_date2() -> DateScript {
    script_of(
        "Date with Bubbles II"@,
        "bubbles"@,
        "Bubbles"@,
        BUBBLES_DATE2_IDS,
        BUBBLES_DATE2_TEXTS,
        BUBBLES_DATE2_PROMPTS,
        BUBBLES_DATE2_OPTIONS,
        BUBBLES_DATE2_AFFECTION,
    )
}

/// The ids of the second conversation with Bubbles are distinct.
proof fn lemma_bubbles_date2_ids()
    ensures
        distinct_ids(bubbles_date2().ids),
{
    reveal_strlit("start");
    reveal_strlit("q1");
    reveal_strlit("q1_concern");
    reveal_strlit("q1_match");
    reveal_strlit("q1_worried");
    reveal_strlit("q2");
    reveal_strlit("q2_phone");
    reveal_strlit("q2_posting");
    reveal_strlit("q2_stern");
    reveal_strlit("q3");
    reveal_strlit("ending_good");
    reveal_strlit("ending_great");
    reveal_strlit("ending_meh");
    reveal_strlit("end");
    assert("start"@.len() == 5);
    assert("q1"@.len() == 2);
    assert("q1_concern"@.len() == 10);
    assert("q1_match"@.len() == 8);
    assert("q1_worried"@.len() == 10);
    assert("q2"@.len() == 2);
    assert("q2_phone"@.len() == 8);
    assert("q2_posting"@.len() == 10);
    assert("q2_stern"@.len() == 8);
    assert("q3"@.len() == 2);
    assert("ending_good"@.len() == 11);
    assert("ending_great"@.len() == 12);
    assert("ending_meh"@.len() == 10);
    assert("end"@.len() == 3);
    assert("q1"@[1] != "q2"@[1]);
    assert("q1"@[1] != "q3"@[1]);
    assert("q1_concern"@[3] != "q1_worried"@[3]);
    assert("q1_concern"@[1] != "q2_posting"@[1]);
    assert("q1_concern"@[0] != "ending_meh"@[0]);
    assert("q1_match"@[1] != "q2_phone"@[1]);
    assert("q1_match"@[1] != "q2_stern"@[1]);
    assert("q1_worried"@[1] != "q2_posting"@[1]);
    assert("q1_worried"@[0] != "ending_meh"@[0]);
    assert("q2"@[1] != "q3"@[1]);
    assert("q2_phone"@[3] != "q2_stern"@[3]);
    assert("q2_posting"@[0] != "ending_meh"@[0]);
    let ids = bubbles_date2().ids;
    assert(ids[0] == "start"@);
    assert(ids[1] == "q1"@);
    assert(ids[2] == "q1_concern"@);
    assert(ids[3] == "q1_match"@);
    assert(ids[4] == "q1_worried"@);
    assert(ids[5] == "q2"@);
    assert(ids[6] == "q2_phone"@);
    assert(ids[7] == "q2_posting"@);
    assert(ids[8] == "q2_stern"@);
    assert(ids[9] == "q3"@);
    assert(ids[10] == "ending_good"@);
    assert(ids[11] == "ending_great"@);
    assert(ids[12] == "ending_meh"@);
    assert(ids[13] == "end"@);
}

/// The second of the three conversations with Bubbles.
pub fn build_bubbles_date2() -> (t: DialogueTree)
    ensures
        t@ == bubbles_date2().tree(),
        well_formed(t@),
{
    proof {
        lemma_bubbles_date2_ids();
        lemma_script_tree(bubbles_date2());
    }
    build_date(
        "Date with Bubbles II",
        "bubbles",
        "Bubbles",
        &BUBBLES_DATE2_IDS,
        &BUBBLES_DATE2_TEXTS,
        &BUBBLES_DATE2_PROMPTS,
        &BUBBLES_DATE2_OPTIONS,
        &BUBBLES_DATE2_AFFECTION,
    )
}

/// The ids of the nodes of the third conversation with Bubbles.
pub const BUBBLES_DATE3_IDS: [&'static str; 14] = [
    "start",
    "q1",
    "q1_ready",
    "q1_scared",
    "q1_tired",
    "q2",
    "q2_crowd",
    "q2_notes",
    "q2_therapy",
    "q3",
    "ending_good",
    "ending_great",
    "ending_meh",
    "end",
];

/// What Bubbles says in the third conversation: the greeting, then the
/// replies.
pub const BUBBLES_DATE3_TEXTS: [&'static str; 10] = [
    "Okay so. I need you to sit down. Actually you're already sitting. I need you to sit down HARDER because I have LORE to drop and the ocean is NOT ready.",
    "So you know that seahorse that runs the kelp stand on 3rd reef? His name is ALREADY an objectively hilarious name. It's Greg. GREG. A seahorse named GREG. I've been thinking about this for six days and I need someone to validate that this is the funniest thing in the entire ocean.",
    "SCARED?! You should be HONORED. I don't drop lore for just anyone. Last time I told someone a secret this good they physically ascended. Just floated right up. Might have been dead actually. ANYWAY--",
    "AND?! Time is a construct invented by sundials to sell more shadows. I didn't pick up my coral supplements this morning which means I didn't have any to take and I am UNLEASHED. This is me at full power. Consider this your only warning.",
    "Let them STARE. They're here for the SHOW. I've gotta dim this charisma soon. I'm entering dangerous levels of 'brightens every room' and frankly the coral is starting to bleach from proximity to me.",
    "NOTES!! YES!! Document this! Future generations need to know about the time Bubbles the Clownfish single-handedly discovered that the real treasure was the AUDACITY we found along the way. Also Greg the seahorse is a cop, I said what I said.",
    "Therapy?? Baby I AM therapy. Fish see me swimming by and their serotonin levels SPIKE. I'm not the one who needs help. I'm the help. I'm the whole emergency response team. I'm the 911 of good vibes and I am HERE.",
    "NEEDS me?! Oh I'm going to CRY. Not sad cry. POWERFUL cry. The kind where a single tear rolls down and a rainbow appears and somewhere a baby dolphin learns to flip. That's the energy you just gave me. I love you. Wait I said that out loud. I'M NOT TAKING IT BACK.",
    "MAIN CHARACTER?! *knocks over three drinks* PLEASE join me in screaming for three full minutes because THAT is the most correct thing anyone has EVER said. This is canon now. WE are canon. I'm updating my reef bio IMMEDIATELY.",
    "The TABLE is my STAGE and this cafe is my VENUE. You can't contain this. Really is a shame that once fish realize the vibes contradict them on suppressing my energy, they lean into 'calm down' like PLEASE stop lying to my face. Just say you can't handle the glow.",
];

/// The questions of the third conversation with Bubbles.
pub const BUBBLES_DATE3_PROMPTS: [&'static str; 3] = [
    "Bubbles has the energy of someone about to reveal a conspiracy.",
    "Bubbles is pacing back and forth. A small crowd has gathered.",
    "Bubbles has climbed onto the table. The waiter is concerned.",
];

/// The answers to choose from in the third conversation with Bubbles.
pub const BUBBLES_DATE3_OPTIONS: [&'static str; 9] = [
    "I'm sitting as hard as I can. Drop the lore.",
    "Should I be scared?",
    "Bubbles it's 7 AM.",
    "Bubbles there are fish staring at us.",
    "Please continue, I'm taking notes.",
    "Have you considered therapy?",
    "Never change, Bubbles. The ocean needs you.",
    "You're the main character and everyone knows it.",
    "I'm going to need you to get off the table.",
];

/// What each answer of the third conversation with Bubbles adds to
/// the affection.
pub const BUBBLES_DATE3_AFFECTION: [i32; 9] = [
    4,
    3,
    2,
    4,
    5,
    2,
    7,
    6,
    2,
];

/// The third conversation with Bubbles.
pub open spec fn bubbles_date3() -> DateScript {
    script_of(
        "Date with Bubbles III"@,
        "bubbles"@,
        "Bubbles"@,
        BUBBLES_DATE3_IDS,
        BUBBLES_DATE3_TEXTS,
        BUBBLES_DATE3_PROMPTS,
        BUBBLES_DATE3_OPTIONS,
        BUBBLES_DATE3_AFFECTION,
    )
}

/// The ids of the third conversation with Bubbles are distinct.
proof fn lemma_bubbles_date3_ids()
    ensures
        distinct_ids(bubbles_date3().ids),
{
    reveal_strlit("start");
    reveal_strlit("q1");
    reveal_strlit("q1_ready");
    reveal_strlit("q1_scared");
    reveal_strlit("q1_tired");
    reveal_strlit("q2");
    reveal_strlit("q2_crowd");
    reveal_strlit("q2_notes");
    reveal_strlit("q2_therapy");
    reveal_strlit("q3");
    reveal_strlit("ending_good");
    reveal_strlit("ending_great");
    reveal_strlit("ending_meh");
    reveal_strlit("end");
    assert("start"@.len() == 5);
    assert("q1"@.len() == 2);
    assert("q1_ready"@.len() == 8);
    assert("q1_scared"@.len() == 9);
    assert("q1_tired"@.len() == 8);
    assert("q2"@.len() == 2);
    assert("q2_crowd"@.len() == 8);
    assert("q2_notes"@.len() == 8);
    assert("q2_therapy"@.len() == 10);
    assert("q3"@.len() == 2);
    assert("ending_good"@.len() == 11);
    assert("ending_great"@.len() == 12);
    assert("ending_meh"@.len() == 10);
    assert("end"@.len() == 3);
    assert("q1"@[1] != "q2"@[1]);
    assert("q1"@[1] != "q3"@[1]);
    assert("q1_ready"@[3] != "q1_tired"@[3]);
    assert("q1_ready"@[1] != "q2_crowd"@[1]);
    assert("q1_ready"@[1] != "q2_notes"@[1]);
    assert("q1_tired"@[1] != "q2_crowd"@[1]);
    assert("q1_tired"@[1] != "q2_notes"@[1]);
    assert("q2"@[1] != "q3"@[1]);
    assert("q2_crowd"@[3] != "q2_notes"@[3]);
    assert("q2_therapy"@[0] != "ending_meh"@[0]);
    let ids = bubbles_date3().ids;
    assert(ids[0] == "start"@);
    assert(ids[1] == "q1"@);
    assert(ids[2] == "q1_ready"@);
    assert(ids[3] == "q1_scared"@);
    assert(ids[4] == "q1_tired"@);
    assert(ids[5] == "q2"@);
    assert(ids[6] == "q2_crowd"@);
    assert(ids[7] == "q2_notes"@);
    assert(ids[8] == "q2_therapy"@);
    assert(ids[9] == "q3"@);
    assert(ids[10] == "ending_good"@);
    assert(ids[11] == "ending_great"@);
    assert(ids[12] == "ending_meh"@);
    assert(ids[13] == "end"@);
}

/// The third of the three conversations with Bubbles.
pub fn build_bubbles_date3() -> (t: DialogueTree)
    ensures
        t@ == bubbles_date3().tree(),
        well_formed(t@),
{
    proof {
        lemma_bubbles_date3_ids();
        lemma_script_tree(bubbles_date3());
    }
    build_date(
        "Date with Bubbles III",
        "bubbles",
        "Bubbles",
        &BUBBLES_DATE3_IDS,
        &BUBBLES_DATE3_TEXTS,
        &BUBBLES_DATE3_PROMPTS,
        &BUBBLES_DATE3_OPTIONS,
        &BUBBLES_DATE3_AFFECTION,
    )
}

/// The ids of the nodes of the first conversation with Marina.
pub const MARINA_DATE1_IDS: [&'static str; 14] = [
    "start",
    "q1",
    "q1_flirt",
    "q1_compete",
    "q1_snarky",
    "q2",
    "q2_deep",
    "q2_race",
    "q2_blunt",
    "q3",
    "ending_good",
    "ending_great",
    "ending_meh",
    "end",
];

/// What Marina says in the first conversation: the greeting, then the
/// replies.
pub const MARINA_DATE1_TEXTS: [&'static str; 10] = [
    "Hmph. The Moonlit Reef. Acceptable choice. I've seen better, but... the view isn't terrible tonight.",
    "*pauses* ...That was... smoother than I expected. Don't think flattery will make me go easy on you, though.",
    "The fastest? Please. I'm the fastest in the ENTIRE eastern reef system. I clocked 60 knots last Tuesday. Care to race?",
    "Careful with that attitude. I have a sword on my face and I'm not afraid to use it. ...I'm kidding. Mostly.",
    "...Nobody asks me that. They just see the speed, the sword, the attitude. But... I push myself because stopping means being forgotten. And I refuse to be forgotten.",
    "Ha! Now you're speaking my language! Three laps around that coral formation. Loser buys dinner. Ready? ...Actually, let's finish our date first. Then I'll destroy you.",
    "Intense is how legends are made. But... maybe tonight I can dial it down. Just a notch. For you.",
    "*long pause* ...You might be the first person to say that to me. *looks away* ...Same time next week?",
    "Deal. But I'm warning you - I don't lose. *small genuine smile* This was... not terrible. At all.",
    "Educational. Right. Well... good night then. *swims away quickly*",
];

/// The questions of the first conversation with Marina.
pub const MARINA_DATE1_PROMPTS: [&'static str; 3] = [
    "Marina gazes at the moonlit water with cool detachment.",
    "Marina seems to be warming up slightly.",
    "The moonlight glitters across the reef.",
];

/// The answers to choose from in the first conversation with Marina.
pub const MARINA_DATE1_OPTIONS: [&'static str; 9] = [
    "I picked it because the moonlight matches your silver scales.",
    "I hear you're the fastest fish in these waters.",
    "What, too fancy for you?",
    "What drives you to be the best at everything?",
    "Want to have a race right now?",
    "You seem really intense.",
    "You don't have to perform for me, Marina. I like who you really are.",
    "Next time, I choose the spot. And we're racing.",
    "Thanks for the evening. It was... educational.",
];

/// What each answer of the first conversation with Marina adds to
/// the affection.
pub const MARINA_DATE1_AFFECTION: [i32; 9] = [
    4,
    3,
    1,
    4,
    3,
    1,
    5,
    4,
    1,
];

/// The first conversation with Marina.
pub open spec fn marina_date1() -> DateScript {
    script_of(
        "Date with Marina"@,
        "marina"@,
        "Marina"@,
        MARINA_DATE1_IDS,
        MARINA_DATE1_TEXTS,
        MARINA_DATE1_PROMPTS,
        MARINA_DATE1_OPTIONS,
        MARINA_DATE1_AFFECTION,
    )
}

/// The ids of the first conversation with Marina are distinct.
proof fn lemma_marina_date1_ids()
    ensures
        distinct_ids(marina_date1().ids),
{
    reveal_strlit("start");
    reveal_strlit("q1");
    reveal_strlit("q1_flirt");
    reveal_strlit("q1_compete");
    reveal_strlit("q1_snarky");
    reveal_strlit("q2");
    reveal_strlit("q2_deep");
    reveal_strlit("q2_race");
    reveal_strlit("q2_blunt");
    reveal_strlit("q3");
    reveal_strlit("ending_good");
    reveal_strlit("ending_great");
    reveal_strlit("ending_meh");
    reveal_strlit("end");
    assert("start"@.len() == 5);
    assert("q1"@.len() == 2);
    assert("q1_flirt"@.len() == 8);
    assert("q1_compete"@.len() == 10);
    assert("q1_snarky"@.len() == 9);
    assert("q2"@.len() == 2);
    assert("q2_deep"@.len() == 7);
    assert("q2_race"@.len() == 7);
    assert("q2_blunt"@.len() == 8);
    assert("q3"@.len() == 2);
    assert("ending_good"@.len() == 11);
    assert("ending_great"@.len() == 12);
    assert("ending_meh"@.len() == 10);
    assert("end"@.len() == 3);
    assert("q1"@[1] != "q2"@[1]);
    assert("q1"@[1] != "q3"@[1]);
    assert("q1_flirt"@[1] != "q2_blunt"@[1]);
    assert("q1_compete"@[0] != "ending_meh"@[0]);
    assert("q2"@[1] != "q3"@[1]);
    assert("q2_deep"@[3] != "q2_race"@[3]);
    let ids = marina_date1().ids;
    assert(ids[0] == "start"@);
    assert(ids[1] == "q1"@);
    assert(ids[2] == "q1_flirt"@);
    assert(ids[3] == "q1_compete"@);
    assert(ids[4] == "q1_snarky"@);
    assert(ids[5] == "q2"@);
    assert(ids[6] == "q2_deep"@);
    assert(ids[7] == "q2_race"@);
    assert(ids[8] == "q2_blunt"@);
    assert(ids[9] == "q3"@);
    assert(ids[10] == "ending_good"@);
    assert(ids[11] == "ending_great"@);
    assert(ids[12] == "ending_meh"@);
    assert(ids[13] == "end"@);
}

/// The first of the three conversations with Marina.
pub fn build_marina_date1() -> (t: DialogueTree)
    ensures
        t@ == marina_date1().tree(),
        well_formed(t@),
{
    proof {
        lemma_marina_date1_ids();
        lemma_script_tree(marina_date1());
    }
    build_date(
        "Date with Marina",
        "marina",
        "Marina",
        &MARINA_DATE1_IDS,
        &MARINA_DATE1_TEXTS,
        &MARINA_DATE1_PROMPTS,
        &MARINA_DATE1_OPTIONS,
        &MARINA_DATE1_AFFECTION,
    )
}

/// The ids of the nodes of the second conversation with Marina.
pub const MARINA_DATE2_IDS: [&'static str; 14] = [
    "start",
    "q1",
    "q1_ask",
    "q1_name",
    "q1_concern",
    "q2",
    "q2_aftermath",
    "q2_challenge",
    "q2_date",
    "q3",
    "ending_good",
    "ending_great",
    "ending_meh",
    "end",
];

/// What Marina says in the second conversation: the greeting, then the
/// replies.
pub const MARINA_DATE2_TEXTS: [&'static str; 10] = [
    "So I raced that barracuda from the north reef today. He talked SO much trash beforehand. Posted about it. 'Marina wouldn't last two seconds in open water.' Oh really? OH REALLY DARREN?",
    "I beat him by FOURTEEN body lengths. FOURTEEN. He's currently posting about how 'the current was unfair' and honestly I need everyone to block this guy like his bowels because he clearly refuses to eat fiber.",
    "RIGHT?! We don't even need a trash nickname for him. Darren. DARREN. It's already an objectively hilarious name. A barracuda named DARREN. The jokes write themselves. Do less, nature.",
    "Am I OKAY? I just achieved the single greatest victory in eastern reef racing history and you're asking if I'm OKAY? I'm not okay. I'm LEGENDARY. There's a difference.",
    "He posted a FIVE paragraph essay about 'the state of competitive swimming' and it's just... Darren. My guy. You lost to a fish with a sword on her face. The content writes itself. I screenshot everything.",
    "*stops swimming* ...Did you just... You know what? I RESPECT that. Completely delusional confidence. That's MY love language. You'd lose catastrophically but the AUDACITY? Chef's kiss. With a fin.",
    "A sports debrief IS a date when you're dating ME. Really is a shame that once fish realize I'm not going to stop talking about winning, they just lean into the 'can we discuss something else' thing. Like PLEASE. Just say you can't handle glory.",
    "BOOST ME?! *slams sword on table* We are a POWER COUPLE now. Darren doesn't stand a chance against our combined energy. This is the greatest alliance since... I don't know, I don't do history, I do WINNING.",
    "Terrifying and you're INTO it. That's it. That's the whole personality test. You passed. Most fish fail right around 'the sword is kind of scary' but you just LEANED IN. I'm keeping you.",
    "Feel BAD for-- Darren posted 'Marina only won because of hydrodynamic privilege' and you feel BAD for him?! We're going to need to have a conversation about where your loyalties lie.",
];

/// The questions of the second conversation with Marina.
pub const MARINA_DATE2_PROMPTS: [&'static str; 3] = [
    "Marina's eye is twitching slightly. She seems fired up.",
    "Marina is now doing victory laps around your table.",
    "Marina has pulled up Darren's post on a waterproof tablet.",
];

/// The answers to choose from in the second conversation with Marina.
pub const MARINA_DATE2_OPTIONS: [&'static str; 9] = [
    "What happened?",
    "His name is Darren? That's already funny.",
    "Are you okay?",
    "What did Darren say after?",
    "I bet I could beat you.",
    "This is a date, not a sports debrief.",
    "Ratio him. I'll boost you.",
    "You're terrifying and I'm into it.",
    "I feel bad for Darren honestly.",
];

/// What each answer of the second conversation with Marina adds to
/// the affection.
pub const MARINA_DATE2_AFFECTION: [i32; 9] = [
    3,
    5,
    2,
    4,
    5,
    1,
    6,
    5,
    1,
];

/// The second conversation with Marina.
pub open spec fn marina_date2() -> DateScript {
    script_of(
        "Date with Marina II"@,
        "marina"@,
        "Marina"@,
        MARINA_DATE2_IDS,
        MARINA_DATE2_TEXTS,
        MARINA_DATE2_PROMPTS,
        MARINA_DATE2_OPTIONS,
        MARINA_DATE2_AFFECTION,
    )
}

/// The ids of the second conversation with Marina are distinct.
proof fn lemma_marina_date2_ids()
    ensures
        distinct_ids(marina_date2().ids),
{
    reveal_strlit("start");
    reveal_strlit("q1");
    reveal_strlit("q1_ask");
    reveal_strlit("q1_name");
    reveal_strlit("q1_concern");
    reveal_strlit("q2");
    reveal_strlit("q2_aftermath");
    reveal_strlit("q2_challenge");
    reveal_strlit("q2_date");
    reveal_strlit("q3");
    reveal_strlit("ending_good");
    reveal_strlit("ending_great");
    reveal_strlit("ending_meh");
    reveal_strlit("end");
    assert("start"@.len() == 5);
    assert("q1"@.len() == 2);
    assert("q1_ask"@.len() == 6);
    assert("q1_name"@.len() == 7);
    assert("q1_concern"@.len() == 10);
    assert("q2"@.len() == 2);
    assert("q2_aftermath"@.len() == 12);
    assert("q2_challenge"@.len() == 12);
    assert("q2_date"@.len() == 7);
    assert("q3"@.len() == 2);
    assert("ending_good"@.len() == 11);
    assert("ending_great"@.len() == 12);
    assert("ending_meh"@.len() == 10);
    assert("end"@.len() == 3);
    assert("q1"@[1] != "q2"@[1]);
    assert("q1"@[1] != "q3"@[1]);
    assert("q1_name"@[1] != "q2_date"@[1]);
    assert("q1_concern"@[0] != "ending_meh"@[0]);
    assert("q2"@[1] != "q3"@[1]);
    assert("q2_aftermath"@[3] != "q2_challenge"@[3]);
    assert("q2_aftermath"@[0] != "ending_great"@[0]);
    assert("q2_challenge"@[0] != "ending_great"@[0]);
    let ids = marina_date2().ids;
    assert(ids[0] == "start"@);
    assert(ids[1] == "q1"@);
    assert(ids[2] == "q1_ask"@);
    assert(ids[3] == "q1_name"@);
    assert(ids[4] == "q1_concern"@);
    assert(ids[5] == "q2"@);
    assert(ids[6] == "q2_aftermath"@);
    assert(ids[7] == "q2_challenge"@);
    assert(ids[8] == "q2_date"@);
    assert(ids[9] == "q3"@);
    assert(ids[10] == "ending_good"@);
    assert(ids[11] == "ending_great"@);
    assert(ids[12] == "ending_meh"@);
    assert(ids[13] == "end"@);
}

/// The second of the three conversations with Marina.
pub fn build_marina_date2() -> (t: DialogueTree)
    ensures
        t@ == marina_date2().tree(),
        well_formed(t@),
{
    proof {
        lemma_marina_date2_ids();
        lemma_script_tree(marina_date2());
    }
    build_date(
        "Date with Marina II",
        "marina",
        "Marina",
        &MARINA_DATE2_IDS,
        &MARINA_DATE2_TEXTS,
        &MARINA_DATE2_PROMPTS,
        &MARINA_DATE2_OPTIONS,
        &MARINA_DATE2_AFFECTION,
    )
}

/// The ids of the nodes of the third conversation with Marina.
pub const MARINA_DATE3_IDS: [&'static str; 14] = [
    "start",
    "q1",
    "q1_outrage",
    "q1_fair",
    "q1_hobbies",
    "q2",
    "q2_league",
    "q2_profound",
    "q2_normal",
    "q3",
    "ending_good",
    "ending_great",
    "ending_meh",
    "end",
];

/// What Marina says in the third conversation: the greeting, then the
/// replies.
pub const MARINA_DATE3_TEXTS: [&'static str; 10] = [
    "I have been BANNED from the reef racing league. Permanently. They said I was 'too intimidating.' I showed up to qualifiers and three fish forfeited on SIGHT. Apparently that's 'bad for the sport.'",
    "THANK YOU. This is a clip from 'The Fabulous Life of Eastern Reef Champions' featuring ME and I need everyone to understand that banning excellence is a CHOICE that reflects on THEM not on this sword right here on my FACE.",
    "He cried because I looked at him. I LOOKED. AT HIM. With my EYES. My regular eyes that are on my regular face. If maintaining eye contact is intimidation then I guess I'm a WAR CRIMINAL, Darren. I GUESS I'M A WAR CRIMINAL.",
    "HOBBIES?! My hobby is being the fastest thing in this ocean and the league just said 'no thank you we prefer mediocrity' like it's a PREFERENCE. You don't get to prefer mediocrity when GREATNESS is right here OFFERING ITSELF.",
    "MY OWN LEAGUE. With MY rules. Rule one: I always win. Rule two: see rule one. Rule three: Darren is banned from even WATCHING. This is the greatest idea anyone has ever had and I'm furious I didn't think of it. Wait. I'm claiming I thought of it.",
    "*stops pacing* ...That's... actually kind of deep. The enemies I made along the way. *stares into distance* Darren. The league officials. That jellyfish who said I 'try too hard.' You know what? They're all just CHARACTERS in MY story. I'm the PROTAGONIST.",
    "My favorite-- IT'S WINNING. The color of winning. Which is whatever color I am when I WIN. This is who you signed up to date and I will NOT be diminished by small talk. Ask me something that MATTERS.",
    "INTO BATTLE?! *sword gleaming* We ride at DAWN. Or whenever the tide is right. We ride at... high tide probably. The point is we're riding SOMEWHERE and Darren is going to SEE us and WEEP. You complete me. In a tactical sense.",
    "Can't look away? That's called RESPECT and also maybe FEAR and honestly both are valid expressions of love in this economy. I accept your devotion. Now help me workshop this post about Darren, I need it to hit different.",
    "A professional what? A professional WINNER? Because that's what I AM. The Darren situation isn't a PROBLEM it's a NARRATIVE and every good narrative needs an antagonist. He should be THANKING me for making him relevant.",
];

/// The questions of the third conversation with Marina.
pub const MARINA_DATE3_PROMPTS: [&'static str; 3] = [
    "Marina is vibrating with a rage that feels almost philosophical.",
    "Marina has drafted and deleted eleven angry posts.",
    "Marina has somehow gotten a whiteboard and is drawing race strategies.",
];

/// The answers to choose from in the third conversation with Marina.
pub const MARINA_DATE3_OPTIONS: [&'static str; 9] = [
    "They banned you for being TOO GOOD?",
    "To be fair, you did make that one fish cry.",
    "Maybe this is a sign to find new hobbies.",
    "Start your own league. With your own rules.",
    "What if the real race was the enemies you made along the way?",
    "Marina this is our third date and I still don't know your favorite color.",
    "I'd follow you into any battle, Marina. Even against Darren.",
    "You are genuinely the most intense fish alive and I can't look away.",
    "I think you might need to talk to a professional about Darren.",
];

/// What each answer of the third conversation with Marina adds to
/// the affection.
pub const MARINA_DATE3_AFFECTION: [i32; 9] = [
    5,
    3,
    1,
    6,
    5,
    2,
    7,
    6,
    2,
];

/// The third conversation with Marina.
pub open spec fn marina_date3() -> DateScript {
    script_of(
        "Date with Marina III"@,
        "marina"@,
        "Marina"@,
        MARINA_DATE3_IDS,
        MARINA_DATE3_TEXTS,
        MARINA_DATE3_PROMPTS,
        MARINA_DATE3_OPTIONS,
        MARINA_DATE3_AFFECTION,
    )
}

/// The ids of the third conversation with Marina are distinct.
proof fn lemma_marina_date3_ids()
    ensures
        distinct_ids(marina_date3().ids),
{
    reveal_strlit("start");
    reveal_strlit("q1");
    reveal_strlit("q1_outrage");
    reveal_strlit("q1_fair");
    reveal_strlit("q1_hobbies");
    reveal_strlit("q2");
    reveal_strlit("q2_league");
    reveal_strlit("q2_profound");
    reveal_strlit("q2_normal");
    reveal_strlit("q3");
    reveal_strlit("ending_good");
    reveal_strlit("ending_great");
    reveal_strlit("ending_meh");
    reveal_strlit("end");
    assert("start"@.len() == 5);
    assert("q1"@.len() == 2);
    assert("q1_outrage"@.len() == 10);
    assert("q1_fair"@.len() == 7);
    assert("q1_hobbies"@.len() == 10);
    assert("q2"@.len() == 2);
    assert("q2_league"@.len() == 9);
    assert("q2_profound"@.len() == 11);
    assert("q2_normal"@.len() == 9);
    assert("q3"@.len() == 2);
    assert("ending_good"@.len() == 11);
    assert("ending_great"@.len() == 12);
    assert("ending_meh"@.len() == 10);
    assert("end"@.len() == 3);
    assert("q1"@[1] != "q2"@[1]);
    assert("q1"@[1] != "q3"@[1]);
    assert("q1_outrage"@[3] != "q1_hobbies"@[3]);
    assert("q1_outrage"@[0] != "ending_meh"@[0]);
    assert("q1_hobbies"@[0] != "ending_meh"@[0]);
    assert("q2"@[1] != "q3"@[1]);
    assert("q2_league"@[3] != "q2_normal"@[3]);
    assert("q2_profound"@[0] != "ending_good"@[0]);
    let ids = marina_date3().ids;
    assert(ids[0] == "start"@);
    assert(ids[1] == "q1"@);
    assert(ids[2] == "q1_outrage"@);
    assert(ids[3] == "q1_fair"@);
    assert(ids[4] == "q1_hobbies"@);
    assert(ids[5] == "q2"@);
    assert(ids[6] == "q2_league"@);
    assert(ids[7] == "q2_profound"@);
    assert(ids[8] == "q2_normal"@);
    assert(ids[9] == "q3"@);
    assert(ids[10] == "ending_good"@);
    assert(ids[11] == "ending_great"@);
    assert(ids[12] == "ending_meh"@);
    assert(ids[13] == "end"@);
}

/// The third of the three conversations with Marina.
pub fn build_marina_date3() -> (t: DialogueTree)
    ensures
        t@ == marina_date3().tree(),
        well_formed(t@),
{
    proof {
        lemma_marina_date3_ids();
        lemma_script_tree(marina_date3());
    }
    build_date(
        "Date with Marina III",
        "marina",
        "Marina",
        &MARINA_DATE3_IDS,
        &MARINA_DATE3_TEXTS,
        &MARINA_DATE3_PROMPTS,
        &MARINA_DATE3_OPTIONS,
        &MARINA_DATE3_AFFECTION,
    )
}

/// The ids of the nodes of the first conversation with Gill.
pub const GILL_DATE1_IDS: [&'static str; 14] = [
    "start",
    "q1",
    "q1_kind",
    "q1_cute",
    "q1_confused",
    "q2",
    "q2_deep",
    "q2_place",
    "q2_question",
    "q3",
    "ending_good",
    "ending_great",
    "ending_meh",
    "end",
];

/// What Gill says in the first conversation: the greeting, then the
/// replies.
pub const GILL_DATE1_TEXTS: [&'static str; 10] = [
    "Oh! H-hi! I didn't think you'd actually show up... *puffs up slightly* S-sorry, that happens when I'm nervous...",
    "*slowly deflates* ...Thank you. That's... really nice of you. Most fish get scared when I puff up. This sunken ship is actually my favorite place.",
    "*PUFFS UP MORE* D-don't say that! *tiny voice* ...but thank you... nobody's ever called it adorable before...",
    "I dunno... I'm not exactly the most exciting fish in the sea. I'm small, I puff up weird, and I mostly just... think about stuff.",
    "Everything... and nothing. Like... do fish dream? If we do, what does the ocean dream about? Sometimes I sit in this shipwreck and imagine all the humans who once sailed on it. Where were they going? ...Sorry, is that weird?",
    "I found this place three tides ago. It's quiet. The wood creaks sometimes and it sounds like the ship is breathing. I come here to read the barnacles. ...They tell stories if you look closely.",
    "...Sometimes. But then I think... a swordfish can't puff up. A clownfish can't disappear into the sand. We all have our thing. Mine just happens to be... round.",
    "*completely deflates to normal size* ...Really? You... you mean that? *tiny smile* ...Next time I'll show you the part of the ship where the starlight comes through the hull. It's... it's beautiful.",
    "*blushes* ...Thank you. That means more than you know. Maybe... maybe next time I won't puff up so much. *puffs up* ...Okay maybe a little.",
    "Oh... okay. Yeah. It was nice of you to come. *sinks a little* I'll just... be here. With the ship. It's fine.",
];

/// The questions of the first conversation with Gill.
pub const GILL_DATE1_PROMPTS: [&'static str; 3] = [
    "Gill is visibly nervous, slightly puffed up.",
    "Gill has calmed down and seems more comfortable.",
    "The old ship creaks gently around you.",
];

/// The answers to choose from in the first conversation with Gill.
pub const GILL_DATE1_OPTIONS: [&'static str; 9] = [
    "It's okay, take your time. I'm in no rush.",
    "You look adorable when you puff up like that!",
    "Why would I not show up?",
    "What do you think about?",
    "I like quiet. Tell me about this shipwreck.",
    "Do you ever wish you were a different kind of fish?",
    "I could listen to you think out loud all night, Gill.",
    "You're a lot deeper than people give you credit for.",
    "This has been... interesting. I should go.",
];

/// What each answer of the first conversation with Gill adds to
/// the affection.
pub const GILL_DATE1_AFFECTION: [i32; 9] = [
    4,
    3,
    2,
    5,
    3,
    2,
    6,
    4,
    1,
];

/// The first conversation with Gill.
pub open spec fn gill_date1() -> DateScript {
    script_of(
        "Date with Gill"@,
        "gill"@,
        "Gill"@,
        GILL_DATE1_IDS,
        GILL_DATE1_TEXTS,
        GILL_DATE1_PROMPTS,
        GILL_DATE1_OPTIONS,
        GILL_DATE1_AFFECTION,
    )
}

/// The ids of the first conversation with Gill are distinct.
proof fn lemma_gill_date1_ids()
    ensures
        distinct_ids(gill_date1().ids),
{
    reveal_strlit("start");
    reveal_strlit("q1");
    reveal_strlit("q1_kind");
    reveal_strlit("q1_cute");
    reveal_strlit("q1_confused");
    reveal_strlit("q2");
    reveal_strlit("q2_deep");
    reveal_strlit("q2_place");
    reveal_strlit("q2_question");
    reveal_strlit("q3");
    reveal_strlit("ending_good");
    reveal_strlit("ending_great");
    reveal_strlit("ending_meh");
    reveal_strlit("end");
    assert("start"@.len() == 5);
    assert("q1"@.len() == 2);
    assert("q1_kind"@.len() == 7);
    assert("q1_cute"@.len() == 7);
    assert("q1_confused"@.len() == 11);
    assert("q2"@.len() == 2);
    assert("q2_deep"@.len() == 7);
    assert("q2_place"@.len() == 8);
    assert("q2_question"@.len() == 11);
    assert("q3"@.len() == 2);
    assert("ending_good"@.len() == 11);
    assert("ending_great"@.len() == 12);
    assert("ending_meh"@.len() == 10);
    assert("end"@.len() == 3);
    assert("q1"@[1] != "q2"@[1]);
    assert("q1"@[1] != "q3"@[1]);
    assert("q1_kind"@[3] != "q1_cute"@[3]);
    assert("q1_kind"@[1] != "q2_deep"@[1]);
    assert("q1_cute"@[1] != "q2_deep"@[1]);
    assert("q1_confused"@[1] != "q2_question"@[1]);
    assert("q1_confused"@[0] != "ending_good"@[0]);
    assert("q2"@[1] != "q3"@[1]);
    assert("q2_question"@[0] != "ending_good"@[0]);
    let ids = gill_date1().ids;
    assert(ids[0] == "start"@);
    assert(ids[1] == "q1"@);
    assert(ids[2] == "q1_kind"@);
    assert(ids[3] == "q1_cute"@);
    assert(ids[4] == "q1_confused"@);
    assert(ids[5] == "q2"@);
    assert(ids[6] == "q2_deep"@);
    assert(ids[7] == "q2_place"@);
    assert(ids[8] == "q2_question"@);
    assert(ids[9] == "q3"@);
    assert(ids[10] == "ending_good"@);
    assert(ids[11] == "ending_great"@);
    assert(ids[12] == "ending_meh"@);
    assert(ids[13] == "end"@);
}

/// The first of the three conversations with Gill.
pub fn build_gill_date1() -> (t: DialogueTree)
    ensures
        t@ == gill_date1().tree(),
        well_formed(t@),
{
    proof {
        lemma_gill_date1_ids();
        lemma_script_tree(gill_date1());
    }
    build_date(
        "Date with Gill",
        "gill",
        "Gill",
        &GILL_DATE1_IDS,
        &GILL_DATE1_TEXTS,
        &GILL_DATE1_PROMPTS,
        &GILL_DATE1_OPTIONS,
        &GILL_DATE1_AFFECTION,
    )
}

/// The ids of the nodes of the second conversation with Gill.
pub const GILL_DATE2_IDS: [&'static str; 14] = [
    "start",
    "q1",
    "q1_support",
    "q1_hype",
    "q1_unsure",
    "q2",
    "q2_read",
    "q2_hate",
    "q2_encourage",
    "q3",
    "ending_good",
    "ending_great",
    "ending_meh",
    "end",
];

/// What Gill says in the second conversation: the greeting, then the
/// replies.
pub const GILL_DATE2_TEXTS: [&'static str; 10] = [
    "So um. I... I started posting. On the reef network. Like... my thoughts. Publicly. *puffs up* I have forty-seven followers and I am TERRIFIED.",
    "Just... thoughts? Like yesterday I posted 'do crabs know they're walking sideways or do they think everyone else is wrong' and someone REPLIED. A real fish. They said 'I've never thought about this before' and I puffed up so hard I hit the ceiling.",
    "V-VIRAL?! *MAXIMUM PUFF* Don't say that! One of my posts got twelve likes and I had to lie down in a kelp bed for an hour. If I go viral I will literally, physically, medically explode. That's not hyperbole. I'm a pufferfish. It could happen.",
    "I don't know?! Is it?! Forty-seven fish chose to see my thoughts ON PURPOSE. That's forty-seven more than I expected which was ZERO. I'm having a crisis about it. A good crisis? Is that a thing? I think that's a thing.",
    "*clears throat* 'I had to pick up my sea supplements today which means I didn't have any to take this morning. So if I seem more puffed than usual please understand I am running on raw, unmedicated Gill right now. This is me at full unfiltered power. I am so sorry.' ...It got twenty-three likes.",
    "ONE angelfish said my posts are 'too existential for 7 AM' and I immediately puffed up and couldn't fit through my door for three hours. But then?? Twelve fish DEFENDED me?? They said 'let Gill think at whatever hour he wants' and I cried. I'm crying now actually.",
    "*stares at you* ...You think the ocean needs... me? My thoughts? The things that rattle around in my weird little pufferfish brain at 3 AM? Like 'what if barnacles have a rich inner life we'll never understand' and 'is sand just really old rocks that gave up'? ...You really think so?",
    "*puffs up* *deflates* *puffs up again* ...Okay. *typing* 'Currently on a date with someone who makes me forget to be scared. If you don't hear from me it's because I've ascended. Or my puffing finally reached critical mass. Either way. I'm happy.' ...Posted. *hides face in fins*",
    "A... gift? *tiny puff* I've never thought of it as a gift. I thought it was just... the broken parts of my brain leaking out. But if the leaks are... beautiful? Then maybe I'm not broken. Maybe I'm just... dripping with content. Wait that sounds gross. I'm keeping it.",
    "Private? ...Yeah. You're probably right. Some things should stay in the dark parts of the shipwreck. Where nobody can judge them. Where nobody can judge... me. *deflates completely* It's fine. This is fine.",
];

/// The questions of the second conversation with Gill.
pub const GILL_DATE2_PROMPTS: [&'static str; 3] = [
    "Gill is showing you his reef profile. His bio says 'just a fish thinking thoughts. please be gentle.'",
    "Gill is scrolling through his posts nervously.",
    "Gill is typing something. He looks up at you.",
];

/// The answers to choose from in the second conversation with Gill.
pub const GILL_DATE2_OPTIONS: [&'static str; 9] = [
    "Gill that's amazing! What do you post about?",
    "Forty-seven! You're going viral!",
    "Is that... a lot?",
    "Read me your favorite post.",
    "Have you gotten any hate?",
    "You should post more. The ocean needs your energy.",
    "Post about tonight. About us. I dare you.",
    "You have a gift, Gill. Own it.",
    "Maybe keep some thoughts private though.",
];

/// What each answer of the second conversation with Gill adds to
/// the affection.
pub const GILL_DATE2_AFFECTION: [i32; 9] = [
    4,
    5,
    2,
    5,
    3,
    4,
    7,
    5,
    1,
];

/// The second conversation with Gill.
pub open spec fn gill_date2() -> DateScript {
    script_of(
        "Date with Gill II"@,
        "gill"@,
        "Gill"@,
        GILL_DATE2_IDS,
        GILL_DATE2_TEXTS,
        GILL_DATE2_PROMPTS,
        GILL_DATE2_OPTIONS,
        GILL_DATE2_AFFECTION,
    )
}

/// The ids of the second conversation with Gill are distinct.
proof fn lemma_gill_date2_ids()
    ensures
        distinct_ids(gill_date2().ids),
{
    reveal_strlit("start");
    reveal_strlit("q1");
    reveal_strlit("q1_support");
    reveal_strlit("q1_hype");
    reveal_strlit("q1_unsure");
    reveal_strlit("q2");
    reveal_strlit("q2_read");
    reveal_strlit("q2_hate");
    reveal_strlit("q2_encourage");
    reveal_strlit("q3");
    reveal_strlit("ending_good");
    reveal_strlit("ending_great");
    reveal_strlit("ending_meh");
    reveal_strlit("end");
    assert("start"@.len() == 5);
    assert("q1"@.len() == 2);
    assert("q1_support"@.len() == 10);
    assert("q1_hype"@.len() == 7);
    assert("q1_unsure"@.len() == 9);
    assert("q2"@.len() == 2);
    assert("q2_read"@.len() == 7);
    assert("q2_hate"@.len() == 7);
    assert("q2_encourage"@.len() == 12);
    assert("q3"@.len() == 2);
    assert("ending_good"@.len() == 11);
    assert("ending_great"@.len() == 12);
    assert("ending_meh"@.len() == 10);
    assert("end"@.len() == 3);
    assert("q1"@[1] != "q2"@[1]);
    assert("q1"@[1] != "q3"@[1]);
    assert("q1_support"@[0] != "ending_meh"@[0]);
    assert("q1_hype"@[1] != "q2_read"@[1]);
    assert("q1_hype"@[1] != "q2_hate"@[1]);
    assert("q2"@[1] != "q3"@[1]);
    assert("q2_read"@[3] != "q2_hate"@[3]);
    assert("q2_encourage"@[0] != "ending_great"@[0]);
    let ids = gill_date2().ids;
    assert(ids[0] == "start"@);
    assert(ids[1] == "q1"@);
    assert(ids[2] == "q1_support"@);
    assert(ids[3] == "q1_hype"@);
    assert(ids[4] == "q1_unsure"@);
    assert(ids[5] == "q2"@);
    assert(ids[6] == "q2_read"@);
    assert(ids[7] == "q2_hate"@);
    assert(ids[8] == "q2_encourage"@);
    assert(ids[9] == "q3"@);
    assert(ids[10] == "ending_good"@);
    assert(ids[11] == "ending_great"@);
    assert(ids[12] == "ending_meh"@);
    assert(ids[13] == "end"@);
}

/// The second of the three conversations with Gill.
pub fn build_gill_date2() -> (t: DialogueTree)
    ensures
        t@ == gill_date2().tree(),
        well_formed(t@),
{
    proof {
        lemma_gill_date2_ids();
        lemma_script_tree(gill_date2());
    }
    build_date(
        "Date with Gill II",
        "gill",
        "Gill",
        &GILL_DATE2_IDS,
        &GILL_DATE2_TEXTS,
        &GILL_DATE2_PROMPTS,
        &GILL_DATE2_OPTIONS,
        &GILL_DATE2_AFFECTION,
    )
}

/// The ids of the nodes of the third conversation with Gill.
pub const GILL_DATE3_IDS: [&'static str; 14] = [
    "start",
    "q1",
    "q1_calm",
    "q1_famous",
    "q1_validate",
    "q2",
    "q2_list",
    "q2_philosopher",
    "q2_worry",
    "q3",
    "ending_good",
    "ending_great",
    "ending_meh",
    "end",
];

/// What Gill says in the third conversation: the greeting, then the
/// replies.
pub const GILL_DATE3_TEXTS: [&'static str; 10] = [
    "I have two thousand followers now. Two. Thousand. I posted 'what if water is just the sky for ground' at 4 AM and I woke up to CHAOS. Fish are DEBATING it. Marine biologists are WEIGHING IN. I've started something I cannot stop.",
    "I've... transcended the puffing. I've been puffed so many times in the last week that I think I used up all my puffs. I'm in the eye of the storm. The calm center of the anxiety hurricane. I have achieved inner peace through sheer exhaustion. It's beautiful and also I might need medical attention.",
    "Famous. Me. The fish who couldn't order food without puffing up at the waiter. Someone made FAN ART of me. A little drawing of me mid-puff with the caption 'he contains multitudes.' I looked at it and cried for forty-five minutes and then posted about crying and THAT got more likes than the original post.",
    "Right?? I typed it half asleep and I thought 'this is the dumbest thing I've ever thought' and then I thought 'no actually what IF though' and then I posted it and now a philosophy professor from the deep trench is writing a PAPER about it. I've accidentally become an intellectual. This was never the plan.",
    "Number 5: 'if an octopus loses an arm and it grows back, is it the same arm? Does the arm remember?' Number 4: 'sand is just rocks that got too tired to be mountains.' Number 3: 'somewhere right now a fish is living its best day and it doesn't even know.' Number 2: 'we are all just water that learned to be lonely.' And number 1... *deep breath* ...'I think the ocean loves us back.'",
    "I don't WANT to be. I just think things and the things WON'T STOP. It's like my brain is a content machine and the off switch is broken. Yesterday I posted 'is it still swimming if you're not going anywhere' and Bubbles replied 'please join me in screaming for three full minutes' and honestly that energy matched.",
    "Run out?! The thoughts are INFINITE. That's the problem. Every time I have one thought it splits into four more thoughts. It's thought mitosis. I am MULTIPLYING mentally. There are so many thoughts in here that some of them are just standing in the back going 'we're probably not going to get posted' and that makes me SAD for those thoughts.",
    "*for the first time in three dates, puffs up on purpose* You love my... my brain. The part of me I was most scared of. The loud messy 3 AM thought tornado. You love THAT. *single tear* I'm going to post 'someone loves the broken parts and suddenly they're not broken anymore' and it's going to get so many likes and I deserve every single one.",
    "The LORE?! You want to be in MY lore?! *typing furiously* 'Plot twist: the main character found a co-author. The sequel is going to hit different.' Posted. We're canon. The comments are already going insane. Someone said 'GILL HAS A PARTNER?!' and four fish puffed up in solidarity.",
    "Log... off? *thousand yard stare* I can't log off. The thoughts don't stop when I log off. They just... happen without an audience. And if a pufferfish thinks in a shipwreck and nobody's around to read it... did the thought even matter? ...I'm posting that. That's going to SLAP at 2 AM.",
];

/// The questions of the third conversation with Gill.
pub const GILL_DATE3_PROMPTS: [&'static str; 3] = [
    "Gill is not puffed up. For the first time, he seems... calm? No. Eerily calm.",
    "Gill pulls out a list. It's titled 'THINGS I HAVE THOUGHT AT 3 AM (RANKED)'.",
    "The shipwreck creaks. Gill looks at you with unprecedented clarity.",
];

/// The answers to choose from in the third conversation with Gill.
pub const GILL_DATE3_OPTIONS: [&'static str; 9] = [
    "You're not puffed up. Are you okay?",
    "TWO THOUSAND?! Gill you're famous!",
    "'What if water is just the sky for ground' is objectively incredible.",
    "Read me the list. All of it.",
    "Gill, are you the ocean's philosopher now?",
    "Do you ever worry you'll run out of thoughts?",
    "I think I'm in love with your brain, Gill.",
    "Post about us. I want to be in the lore.",
    "Maybe log off for a bit?",
];

/// What each answer of the third conversation with Gill adds to
/// the affection.
pub const GILL_DATE3_AFFECTION: [i32; 9] = [
    4,
    5,
    6,
    6,
    5,
    3,
    8,
    6,
    1,
];

/// The third conversation with Gill.
pub open spec fn gill_date3() -> DateScript {
    script_of(
        "Date with Gill III"@,
        "gill"@,
        "Gill"@,
        GILL_DATE3_IDS,
        GILL_DATE3_TEXTS,
        GILL_DATE3_PROMPTS,
        GILL_DATE3_OPTIONS,
        GILL_DATE3_AFFECTION,
    )
}

/// The ids of the third conversation with Gill are distinct.
proof fn lemma_gill_date3_ids()
    ensures
        distinct_ids(gill_date3().ids),
{
    reveal_strlit("start");
    reveal_strlit("q1");
    reveal_strlit("q1_calm");
    reveal_strlit("q1_famous");
    reveal_strlit("q1_validate");
    reveal_strlit("q2");
    reveal_strlit("q2_list");
    reveal_strlit("q2_philosopher");
    reveal_strlit("q2_worry");
    reveal_strlit("q3");
    reveal_strlit("ending_good");
    reveal_strlit("ending_great");
    reveal_strlit("ending_meh");
    reveal_strlit("end");
    assert("start"@.len() == 5);
    assert("q1"@.len() == 2);
    assert("q1_calm"@.len() == 7);
    assert("q1_famous"@.len() == 9);
    assert("q1_validate"@.len() == 11);
    assert("q2"@.len() == 2);
    assert("q2_list"@.len() == 7);
    assert("q2_philosopher"@.len() == 14);
    assert("q2_worry"@.len() == 8);
    assert("q3"@.len() == 2);
    assert("ending_good"@.len() == 11);
    assert("ending_great"@.len() == 12);
    assert("ending_meh"@.len() == 10);
    assert("end"@.len() == 3);
    assert("q1"@[1] != "q2"@[1]);
    assert("q1"@[1] != "q3"@[1]);
    assert("q1_calm"@[1] != "q2_list"@[1]);
    assert("q1_validate"@[0] != "ending_good"@[0]);
    assert("q2"@[1] != "q3"@[1]);
    let ids = gill_date3().ids;
    assert(ids[0] == "start"@);
    assert(ids[1] == "q1"@);
    assert(ids[2] == "q1_calm"@);
    assert(ids[3] == "q1_famous"@);
    assert(ids[4] == "q1_validate"@);
    assert(ids[5] == "q2"@);
    assert(ids[6] == "q2_list"@);
    assert(ids[7] == "q2_philosopher"@);
    assert(ids[8] == "q2_worry"@);
    assert(ids[9] == "q3"@);
    assert(ids[10] == "ending_good"@);
    assert(ids[11] == "ending_great"@);
    assert(ids[12] == "ending_meh"@);
    assert(ids[13] == "end"@);
}

/// The third of the three conversations with Gill.
pub fn build_gill_date3() -> (t: DialogueTree)
    ensures
        t@ == gill_date3().tree(),
        well_formed(t@),
{
    proof {
        lemma_gill_date3_ids();
        lemma_script_tree(gill_date3());
    }
    build_date(
        "Date with Gill III",
        "gill",
        "Gill",
        &GILL_DATE3_IDS,
        &GILL_DATE3_TEXTS,
        &GILL_DATE3_PROMPTS,
        &GILL_DATE3_OPTIONS,
        &GILL_DATE3_AFFECTION,
    )
}

/// Which of a built-in character's conversations the date with the number
/// `date_number` uses.
pub open spec fn date_variant(date_number: int) -> int {
    date_number % (DIALOGUES_PER_FISH as int)
}

/// The conversation `variant` of a built-in character.
pub open spec fn builtin_date(id: FishIdView, variant: int) -> DateScript {
    match id {
        FishIdView::Bubbles => if variant == 0 {
            bubbles_date1()
        } else if variant == 1 {
            bubbles_date2()
        } else {
            bubbles_date3()
        },
        FishIdView::Marina => if variant == 0 {
            marina_date1()
        } else if variant == 1 {
            marina_date2()
        } else {
            marina_date3()
        },
        _ => if variant == 0 {
            gill_date1()
        } else if variant == 1 {
            gill_date2()
        } else {
            gill_date3()
        },
    }
}

/// The conversation of the date with the number `date_number` with a
/// character that a script defined: its own, in rotation, if the registry
/// knows it, and the fallback under its id otherwise.
pub open spec fn plugin_date(registry: Seq<FishDefView>, id: Seq<char>, date_number: int) -> TreeView {
    match lookup_fish(registry, id) {
        Some(fish) => dialogue_for(fish, date_number),
        None => fallback_tree(id),
    }
}

/// The conversation of the date with the number `date_number` with `id`.
pub open spec fn date_tree(id: FishIdView, date_number: int, registry: Seq<FishDefView>) -> TreeView {
    match id {
        FishIdView::Plugin(plugin_id) => plugin_date(registry, plugin_id, date_number),
        builtin => builtin_date(builtin, date_variant(date_number)).tree(),
    }
}

/// The conversation of the date with the number `date_number` with
/// `fish_id`. That of a built-in character has referential integrity.
pub fn build_dialogue(fish_id: &FishId, date_number: u32, registry: &FishRegistry) -> (t: DialogueTree)
    ensures
        t@ == date_tree(fish_id@, date_number as int, registry@),
        !(fish_id@ is Plugin) ==> well_formed(t@),
{
    let variant = date_number % DIALOGUES_PER_FISH;
    match fish_id {
        FishId::Bubbles => {
            if variant == 0 {
                build_bubbles_date1()
            } else if variant == 1 {
                build_bubbles_date2()
            } else {
                build_bubbles_date3()
            }
        },
        FishId::Marina => {
            if variant == 0 {
                build_marina_date1()
            } else if variant == 1 {
                build_marina_date2()
            } else {
                build_marina_date3()
            }
        },
        FishId::Gill => {
            if variant == 0 {
                build_gill_date1()
            } else if variant == 1 {
                build_gill_date2()
            } else {
                build_gill_date3()
            }
        },
        FishId::Plugin(plugin_id) => {
            match registry.get(plugin_id.as_str()) {
                Some(fish) => fish.dialogue_for_date(date_number),
                None => FishDef::fallback_dialogue_for(fish_id.name()),
            }
        },
    }
}

} // verus!
