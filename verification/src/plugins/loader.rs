//! Running scripts and reading what they submit.
//!
//! A script submits a character as a map. Three fields are required and must
//! be strings: `id`, `name` and `species`. Every other field has a default
//! that takes its place where the field is missing or of the wrong type.
//!
//! Each script runs in an interpreter of its own, which gives up after a
//! fixed number of operations. What a script submitted is registered only if
//! the script ran to its end; a script that failed changes nothing, and the
//! scripts after it run all the same.

use crate::dialogue::tree::{trees_view, DialogueTree, TreeView};
use crate::plugins::dialogue_def::{
    lower_dialogue, options_of, parse_choice_options, DialogueDef, DialogueDefView, NodeDefView,
};
use crate::plugins::engine::{
    dynamic_array, dynamic_dialogue, dynamic_entries, dynamic_float_bits, dynamic_int,
    dynamic_string, eval_script, new_engine, new_sink, register_dialogue_api,
    register_dialogue_type, register_fish_api, set_max_operations, sink_push, sink_take,
};
use crate::plugins::fish_def::{FishDef, FishDefView, ScriptColor};
use crate::plugins::registry::{lemma_register_fish, register_fish, unique_ids, FishRegistry};
use crate::plugins::script::{ScriptMap, ScriptNumber, ScriptValue};
use std::cell::RefCell;
use std::rc::Rc;
use vstd::prelude::*;

verus! {

/// The bits of the double-precision number one half.
pub const HALF_BITS: u64 = 0x3FE0_0000_0000_0000;

/// The bits of the double-precision number one.
pub const ONE_BITS: u64 = 0x3FF0_0000_0000_0000;

/// The difficulty of a character whose record gives none: one half.
pub open spec fn default_difficulty() -> ScriptNumber {
    ScriptNumber::Float(HALF_BITS)
}

/// The value of a colour channel that the record does not give as a number:
/// one, which for alpha is fully opaque.
pub open spec fn default_channel() -> ScriptNumber {
    ScriptNumber::Float(ONE_BITS)
}

/// The colour of a character whose record gives none: opaque white.
pub open spec fn default_color() -> ScriptColor {
    ScriptColor {
        r: default_channel(),
        g: default_channel(),
        b: default_channel(),
        a: default_channel(),
    }
}

/// The error for a required field that is missing.
pub open spec fn missing_field(key: Seq<char>) -> Seq<char> {
    "missing required field '"@ + key + "'"@
}

/// The error for a required field that is not a string.
pub open spec fn not_a_string(key: Seq<char>) -> Seq<char> {
    "field '"@ + key + "' must be a string"@
}

/// The required string under `key`, or the error that says what is wrong.
pub open spec fn required_text(map: ScriptMap, key: Seq<char>) -> Result<Seq<char>, Seq<char>> {
    match map.lookup(key) {
        None => Err(missing_field(key)),
        Some(v) => match v.text() {
            Some(s) => Ok(s),
            None => Err(not_a_string(key)),
        },
    }
}

/// The string under `key`, or `default` where there is none.
pub open spec fn text_or(map: ScriptMap, key: Seq<char>, default: Seq<char>) -> Seq<char> {
    match map.text_at(key) {
        Some(s) => s,
        None => default,
    }
}

/// The number under `key`, or `default` where there is none.
pub open spec fn number_or(map: ScriptMap, key: Seq<char>, default: ScriptNumber) -> ScriptNumber {
    match map.lookup(key) {
        Some(v) => match v.number() {
            Some(n) => n,
            None => default,
        },
        None => default,
    }
}

/// The channel at `index` of a colour's array: the number there, or the
/// default where the element is no number.
pub open spec fn channel_at(items: Seq<ScriptValue>, index: int) -> ScriptNumber {
    match items[index].number() {
        Some(n) => n,
        None => default_channel(),
    }
}

/// The colour that a value stands for: an array of at least three elements
/// gives red, green and blue, and alpha where it has a fourth; anything else
/// gives no colour.
pub open spec fn color_of(value: Option<ScriptValue>) -> Option<ScriptColor> {
    match value {
        Some(ScriptValue::Array(items)) => {
            if items@.len() >= 3 {
                Some(
                    ScriptColor {
                        r: channel_at(items@, 0),
                        g: channel_at(items@, 1),
                        b: channel_at(items@, 2),
                        a: if items@.len() >= 4 {
                            channel_at(items@, 3)
                        } else {
                            default_channel()
                        },
                    },
                )
            } else {
                None
            }
        },
        _ => None,
    }
}

/// The graphs of the conversations among `items`, in order; an element that
/// is no conversation is passed over.
pub open spec fn dates_of(items: Seq<ScriptValue>) -> Seq<TreeView>
    decreases items.len(),
{
    if items.len() == 0 {
        Seq::empty()
    } else {
        let before = dates_of(items.drop_last());
        match items.last() {
            ScriptValue::Dialogue(def) => before.push(lower_dialogue(def@)),
            _ => before,
        }
    }
}

/// The conversations of a record: those of the array under `dates`, or none
/// where there is no such array.
pub open spec fn dialogues_of(map: ScriptMap) -> Seq<TreeView> {
    match map.lookup("dates"@) {
        Some(ScriptValue::Array(items)) => dates_of(items@),
        _ => Seq::empty(),
    }
}

/// The character that a record stands for, or the error for the first of
/// `id`, `name` and `species` that is missing or no string.
pub open spec fn parse_fish(map: ScriptMap) -> Result<FishDefView, Seq<char>> {
    match required_text(map, "id"@) {
        Err(e) => Err(e),
        Ok(id) => match required_text(map, "name"@) {
            Err(e) => Err(e),
            Ok(name) => match required_text(map, "species"@) {
                Err(e) => Err(e),
                Ok(species) => Ok(
                    FishDefView {
                        id,
                        name,
                        species,
                        description: text_or(map, "description"@, "A mysterious fish."@),
                        difficulty: number_or(map, "difficulty"@, default_difficulty()),
                        color: match color_of(map.lookup("color"@)) {
                            Some(c) => c,
                            None => default_color(),
                        },
                        art_happy: text_or(map, "art_happy"@, "  ><(((o>"@),
                        art_neutral: text_or(map, "art_neutral"@, "  ><(((o>"@),
                        art_sad: text_or(map, "art_sad"@, "  ><(((o>"@),
                        art_small: text_or(map, "art_small"@, "><>"@),
                        date_location: text_or(map, "date_location"@, "The Deep"@),
                        date_scene_art: text_or(
                            map,
                            "date_scene_art"@,
                            "  ~~~~~~~~\n  ~ ~ ~ ~ ~\n  ~~~~~~~~"@,
                        ),
                        pond_name: text_or(map, "pond_name"@, name + "'s Pond"@),
                        dialogues: dialogues_of(map),
                    },
                ),
            },
        },
    }
}

/// The required string under `key`.
fn get_str(map: &ScriptMap, key: &str) -> (r: Result<String, String>)
    ensures
        match r {
            Ok(s) => required_text(*map, key@) == Ok::<Seq<char>, Seq<char>>(s@),
            Err(e) => required_text(*map, key@) == Err::<Seq<char>, Seq<char>>(e@),
        },
{
    match map.get(key) {
        None => Err("missing required field '".to_owned().concat(key).concat("'")),
        Some(v) => match v.as_text() {
            Some(s) => Ok(s),
            None => Err("field '".to_owned().concat(key).concat("' must be a string")),
        },
    }
}

/// The string under `key`, or `default`.
fn get_str_or(map: &ScriptMap, key: &str, default: &str) -> (r: String)
    ensures
        r@ == text_or(*map, key@, default@),
{
    match map.get(key) {
        Some(v) => match v.as_text() {
            Some(s) => s,
            None => default.to_owned(),
        },
        None => default.to_owned(),
    }
}

/// The channel at `index` of a colour's array.
fn get_channel(items: &Vec<ScriptValue>, index: usize) -> (r: ScriptNumber)
    requires
        index < items.len(),
    ensures
        r == channel_at(items@, index as int),
{
    match items[index].as_number() {
        Some(n) => n,
        None => ScriptNumber::Float(ONE_BITS),
    }
}

/// The colour that a value stands for, if it stands for one.
pub fn parse_color(value: Option<&ScriptValue>) -> (r: Option<ScriptColor>)
    ensures
        r == color_of(
            match value {
                Some(v) => Some(*v),
                None => None,
            },
        ),
{
    match value {
        Some(ScriptValue::Array(items)) => {
            if items.len() >= 3 {
                let r = get_channel(items, 0);
                let g = get_channel(items, 1);
                let b = get_channel(items, 2);
                let a = if items.len() >= 4 {
                    get_channel(items, 3)
                } else {
                    ScriptNumber::Float(ONE_BITS)
                };
                Some(ScriptColor { r, g, b, a })
            } else {
                None
            }
        },
        _ => None,
    }
}

/// The conversations of a record.
fn parse_dates(map: &ScriptMap) -> (r: Vec<DialogueTree>)
    ensures
        trees_view(r@) == dialogues_of(*map),
{
    let mut out: Vec<DialogueTree> = Vec::new();
    match map.get("dates") {
        Some(ScriptValue::Array(items)) => {
            let mut i: usize = 0;
            assert(items@.take(0) =~= Seq::empty());
            assert(trees_view(out@) =~= dates_of(items@.take(0)));
            while i < items.len()
                invariant
                    i <= items.len(),
                    trees_view(out@) == dates_of(items@.take(i as int)),
                decreases items.len() - i,
            {
                let ghost before = trees_view(out@);
                assert(items@.take(i + 1).drop_last() =~= items@.take(i as int));
                assert(items@.take(i + 1).last() == items@[i as int]);
                match &items[i] {
                    ScriptValue::Dialogue(def) => {
                        out.push(def.to_dialogue_tree());
                        assert(trees_view(out@) =~= before.push(
                            lower_dialogue(def@),
                        ));
                    },
                    _ => {},
                }
                i += 1;
            }
            assert(items@.take(i as int) =~= items@);
        },
        _ => {
            assert(trees_view(out@) =~= Seq::empty());
        },
    }
    out
}

/// Reads a character out of the record that a script submitted.
pub fn parse_fish_def(map: &ScriptMap) -> (r: Result<FishDef, String>)
    ensures
        match r {
            Ok(f) => parse_fish(*map) == Ok::<FishDefView, Seq<char>>(f@),
            Err(e) => parse_fish(*map) == Err::<FishDefView, Seq<char>>(e@),
        },
{
    let id = match get_str(map, "id") {
        Ok(s) => s,
        Err(e) => {
            return Err(e);
        },
    };
    let name = match get_str(map, "name") {
        Ok(s) => s,
        Err(e) => {
            return Err(e);
        },
    };
    let species = match get_str(map, "species") {
        Ok(s) => s,
        Err(e) => {
            return Err(e);
        },
    };
    let description = get_str_or(map, "description", "A mysterious fish.");
    let difficulty = match map.get("difficulty") {
        Some(v) => match v.as_number() {
            Some(n) => n,
            None => ScriptNumber::Float(HALF_BITS),
        },
        None => ScriptNumber::Float(HALF_BITS),
    };
    let color = match parse_color(map.get("color")) {
        Some(c) => c,
        None => {
            let one = ScriptNumber::Float(ONE_BITS);
            ScriptColor { r: one, g: one, b: one, a: one }
        },
    };
    let art_happy = get_str_or(map, "art_happy", "  ><(((o>");
    let art_neutral = get_str_or(map, "art_neutral", "  ><(((o>");
    let art_sad = get_str_or(map, "art_sad", "  ><(((o>");
    let art_small = get_str_or(map, "art_small", "><>");
    let date_location = get_str_or(map, "date_location", "The Deep");
    let date_scene_art = get_str_or(
        map,
        "date_scene_art",
        "  ~~~~~~~~\n  ~ ~ ~ ~ ~\n  ~~~~~~~~",
    );
    let default_pond = name.clone().concat("'s Pond");
    let pond_name = get_str_or(map, "pond_name", default_pond.as_str());
    let dialogues = parse_dates(map);
    Ok(
        FishDef {
            id,
            name,
            species,
            description,
            difficulty,
            color,
            art_happy,
            art_neutral,
            art_sad,
            art_small,
            date_location,
            date_scene_art,
            pond_name,
            dialogues,
        },
    )
}

/// How deep a script's value is read: arrays and maps that are nested deeper
/// count as values of another type. A submitted character is read three
/// levels deep.
pub const VALUE_DEPTH: usize = 4;

/// The number of operations after which the interpreter gives up on a
/// script.
pub const MAX_OPERATIONS: u64 = 100_000;

/// The name under which scripts know the type of a conversation.
pub const DIALOGUE_TYPE_NAME: &'static str = "DialogueDef";

/// The names of the functions with which a script builds a conversation: a
/// new conversation from its title, then the methods that add a speaker, a
/// text node, a choice node and an end node.
pub const DIALOGUE_FUNCTIONS: [&'static str; 5] = ["new_dialogue", "speaker", "text", "choice", "end"];

/// The name of the function with which a script submits a character.
pub const REGISTER_FUNCTION: &'static str = "register_fish";

/// Reads a value of the interpreter, down to `depth` levels of arrays and
/// maps.
pub(crate) fn script_value(value: &rhai::Dynamic, depth: usize) -> (r: ScriptValue)
    ensures
        within_depth(r, depth as nat),
    decreases depth, 0nat,
{
    if let Some(i) = dynamic_int(value) {
        return ScriptValue::Int(i);
    }
    if let Some(bits) = dynamic_float_bits(value) {
        return ScriptValue::Float(bits);
    }
    if let Some(s) = dynamic_string(value) {
        return ScriptValue::Str(s);
    }
    if let Some(def) = dynamic_dialogue(value) {
        return ScriptValue::Dialogue(def);
    }
    if depth == 0 {
        return ScriptValue::Other;
    }
    if let Some(items) = dynamic_array(value) {
        return ScriptValue::Array(script_values(&items, depth - 1));
    }
    if let Some(entries) = dynamic_entries(value) {
        let mut map = ScriptMap::new();
        let mut i: usize = 0;
        while i < entries.len()
            invariant
                i <= entries.len(),
                depth > 0,
                map.entries@.len() == i,
                forall|k: int|
                    0 <= k < i ==> within_depth((#[trigger] map.entries@[k]).1, (depth - 1) as nat),
            decreases entries.len() - i,
        {
            let ghost before = map.entries@;
            map.push(entries[i].0.as_str(), script_value(&entries[i].1, depth - 1));
            assert forall|k: int| 0 <= k < i + 1 implies within_depth(
                (#[trigger] map.entries@[k]).1,
                (depth - 1) as nat,
            ) by {
                if k < i {
                    assert(map.entries@[k] == map.entries@.drop_last()[k]);
                } else {
                    assert(map.entries@[k] == map.entries@.last());
                }
            }
            i += 1;
        }
        return ScriptValue::Object(map);
    }
    ScriptValue::Other
}

/// Reads the values of an array of the interpreter.
pub(crate) fn script_values(items: &Vec<rhai::Dynamic>, depth: usize) -> (r: Vec<ScriptValue>)
    ensures
        r@.len() == items@.len(),
        forall|k: int| 0 <= k < r@.len() ==> within_depth(#[trigger] r@[k], depth as nat),
    decreases depth, 1nat,
{
    let mut out: Vec<ScriptValue> = Vec::new();
    let mut i: usize = 0;
    while i < items.len()
        invariant
            i <= items.len(),
            out@.len() == i,
            forall|k: int| 0 <= k < i ==> within_depth(#[trigger] out@[k], depth as nat),
        decreases items.len() - i,
    {
        out.push(script_value(&items[i], depth));
        i += 1;
    }
    out
}

/// Whether a value is nested no deeper than `depth` levels of arrays and
/// maps: a number, a string, a conversation or a value of another type at
/// any depth; an array or a map only while a level is left, with elements
/// that are nested no deeper than the levels that remain.
pub open spec fn within_depth(value: ScriptValue, depth: nat) -> bool
    decreases depth,
{
    match value {
        ScriptValue::Array(items) => depth > 0 && forall|k: int|
            0 <= k < items@.len() ==> within_depth(#[trigger] items@[k], (depth - 1) as nat),
        ScriptValue::Object(map) => depth > 0 && forall|k: int|
            0 <= k < map.entries@.len() ==> within_depth(
                (#[trigger] map.entries@[k]).1,
                (depth - 1) as nat,
            ),
        _ => true,
    }
}

/// What the script function `choice` does: reads the options out of the
/// array and adds a choice node with them.
pub(crate) fn add_choice_from_script(
    def: &mut DialogueDef,
    id: &str,
    prompt: &str,
    options: &Vec<rhai::Dynamic>,
)
    ensures
        exists|values: Seq<ScriptValue>|
            values.len() == options@.len() && final(def)@ == (DialogueDefView {
                nodes: old(def)@.nodes.push(
                    NodeDefView::Choice {
                        id: id@,
                        prompt: prompt@,
                        options: #[trigger] options_of(values),
                    },
                ),
                ..old(def)@
            }),
{
    let values = script_values(options, VALUE_DEPTH);
    let parsed = parse_choice_options(&values);
    def.add_choice(id, prompt, parsed);
    assert(values@.len() == options@.len() && final(def)@ == (DialogueDefView {
        nodes: old(def)@.nodes.push(
            NodeDefView::Choice { id: id@, prompt: prompt@, options: options_of(values@) },
        ),
        ..old(def)@
    }));
}

/// What the script function `register_fish` does: reads the submitted record
/// and puts the character, or the error, on the list of what the script
/// submitted.
pub(crate) fn submit_fish(sink: &Rc<RefCell<Vec<Result<FishDef, String>>>>, record: &rhai::Dynamic) {
    let outcome = match script_value(record, VALUE_DEPTH) {
        ScriptValue::Object(map) => parse_fish_def(&map),
        _ => Err("a character is submitted as a map".to_owned()),
    };
    sink_push(sink, outcome);
}

/// How the run of one script ended.
#[derive(Debug)]
pub enum ScriptOutcome {
    /// The script ran to its end. For each call of `register_fish` that it
    /// made, in order: the character, or what was wrong with the record.
    Finished(Vec<Result<FishDef, String>>),
    /// The script stopped with this error. Whatever it submitted before is
    /// dropped.
    Failed(String),
}

/// The mathematical value of a [`ScriptOutcome`].
pub enum OutcomeView {
    Finished(Seq<Result<FishDefView, Seq<char>>>),
    Failed(Seq<char>),
}

/// The mathematical value of one submission.
pub open spec fn submission_view(s: Result<FishDef, String>) -> Result<FishDefView, Seq<char>> {
    match s {
        Ok(f) => Ok(f@),
        Err(e) => Err(e@),
    }
}

/// The views of a sequence of submissions.
pub open spec fn submissions_view(s: Seq<Result<FishDef, String>>) -> Seq<
    Result<FishDefView, Seq<char>>,
> {
    Seq::new(s.len(), |i: int| submission_view(s[i]))
}

impl View for ScriptOutcome {
    type V = OutcomeView;

    open spec fn view(&self) -> OutcomeView {
        match *self {
            ScriptOutcome::Finished(subs) => OutcomeView::Finished(submissions_view(subs@)),
            ScriptOutcome::Failed(e) => OutcomeView::Failed(e@),
        }
    }
}

/// The views of a sequence of outcomes.
pub open spec fn outcomes_view(s: Seq<ScriptOutcome>) -> Seq<OutcomeView> {
    Seq::new(s.len(), |i: int| s[i]@)
}

/// The registry after the submissions of one script were registered, in
/// order; a record that was refused is passed over.
pub open spec fn submissions_effect(
    reg: Seq<FishDefView>,
    subs: Seq<Result<FishDefView, Seq<char>>>,
) -> Seq<FishDefView>
    decreases subs.len(),
{
    if subs.len() == 0 {
        reg
    } else {
        let before = submissions_effect(reg, subs.drop_last());
        match subs.last() {
            Ok(fish) => register_fish(before, fish).0,
            Err(_) => before,
        }
    }
}

/// The registry after one script: its submissions are registered if it ran
/// to its end, and nothing changes if it failed.
pub open spec fn outcome_effect(reg: Seq<FishDefView>, outcome: OutcomeView) -> Seq<FishDefView> {
    match outcome {
        OutcomeView::Finished(subs) => submissions_effect(reg, subs),
        OutcomeView::Failed(_) => reg,
    }
}

/// The registry after a batch of scripts, one after the other.
pub open spec fn batch_effect(reg: Seq<FishDefView>, outcomes: Seq<OutcomeView>) -> Seq<FishDefView>
    decreases outcomes.len(),
{
    if outcomes.len() == 0 {
        reg
    } else {
        outcome_effect(batch_effect(reg, outcomes.drop_last()), outcomes.last())
    }
}

/// Registering submissions keeps the ids unique and keeps every character
/// that was there at its place.
pub proof fn lemma_submissions_effect(
    reg: Seq<FishDefView>,
    subs: Seq<Result<FishDefView, Seq<char>>>,
)
    requires
        unique_ids(reg),
    ensures
        unique_ids(submissions_effect(reg, subs)),
        reg.len() <= submissions_effect(reg, subs).len(),
        forall|i: int| 0 <= i < reg.len() ==> submissions_effect(reg, subs)[i] == reg[i],
    decreases subs.len(),
{
    if subs.len() > 0 {
        lemma_submissions_effect(reg, subs.drop_last());
        let before = submissions_effect(reg, subs.drop_last());
        match subs.last() {
            Ok(fish) => {
                lemma_register_fish(before, fish);
            },
            Err(_) => {},
        }
    }
}

/// A batch keeps the ids unique and keeps every character that was there at
/// its place.
pub proof fn lemma_batch_effect(reg: Seq<FishDefView>, outcomes: Seq<OutcomeView>)
    requires
        unique_ids(reg),
    ensures
        unique_ids(batch_effect(reg, outcomes)),
        reg.len() <= batch_effect(reg, outcomes).len(),
        forall|i: int| 0 <= i < reg.len() ==> batch_effect(reg, outcomes)[i] == reg[i],
    decreases outcomes.len(),
{
    if outcomes.len() > 0 {
        lemma_batch_effect(reg, outcomes.drop_last());
        let before = batch_effect(reg, outcomes.drop_last());
        match outcomes.last() {
            OutcomeView::Finished(subs) => {
                lemma_submissions_effect(before, subs);
            },
            OutcomeView::Failed(_) => {},
        }
    }
}

/// Isolation of scripts. A script that failed leaves no trace: the registry
/// after the batch is the one that the batch without that script gives. So
/// every character that another script of the batch registers is registered
/// all the same.
pub proof fn law_failed_script_is_isolated(reg: Seq<FishDefView>, outcomes: Seq<OutcomeView>, k: int)
    requires
        0 <= k < outcomes.len(),
        outcomes[k] is Failed,
    ensures
        batch_effect(reg, outcomes) == batch_effect(reg, outcomes.remove(k)),
    decreases outcomes.len(),
{
    if k == outcomes.len() - 1 {
        assert(outcomes.remove(k) =~= outcomes.drop_last());
    } else {
        let shorter = outcomes.remove(k);
        assert(shorter.drop_last() =~= outcomes.drop_last().remove(k));
        assert(shorter.last() == outcomes.last());
        law_failed_script_is_isolated(reg, outcomes.drop_last(), k);
    }
}

/// A record that was refused leaves no trace either: the other submissions
/// of the same script are registered as if it had not been submitted.
pub proof fn law_refused_record_is_isolated(
    reg: Seq<FishDefView>,
    subs: Seq<Result<FishDefView, Seq<char>>>,
    k: int,
)
    requires
        0 <= k < subs.len(),
        subs[k] is Err,
    ensures
        submissions_effect(reg, subs) == submissions_effect(reg, subs.remove(k)),
    decreases subs.len(),
{
    if k == subs.len() - 1 {
        assert(subs.remove(k) =~= subs.drop_last());
    } else {
        let shorter = subs.remove(k);
        assert(shorter.drop_last() =~= subs.drop_last().remove(k));
        assert(shorter.last() == subs.last());
        law_refused_record_is_isolated(reg, subs.drop_last(), k);
    }
}

/// Runs one script in an interpreter of its own and returns how it ended.
/// Nothing is known of the outcome beforehand: it is whatever the script
/// does.
pub fn run_script(source: &str) -> ScriptOutcome {
    let sink = new_sink();
    let mut engine = new_engine();
    register_dialogue_type(&mut engine, DIALOGUE_TYPE_NAME);
    register_dialogue_api(&mut engine, &DIALOGUE_FUNCTIONS);
    register_fish_api(&mut engine, REGISTER_FUNCTION, sink.clone());
    set_max_operations(&mut engine, MAX_OPERATIONS);
    let result = eval_script(&engine, source);
    script_outcome(result, sink_take(&sink))
}

/// How a script ended, given what the interpreter returned for it and what
/// the script submitted while it ran: a script that ran to its end finished
/// with its submissions; one that stopped with an error failed with that
/// error, and its submissions are dropped.
pub fn script_outcome(result: Result<(), String>, submissions: Vec<Result<FishDef, String>>) -> (outcome:
    ScriptOutcome)
    ensures
        outcome@ == match result {
            Ok(_) => OutcomeView::Finished(submissions_view(submissions@)),
            Err(e) => OutcomeView::Failed(e@),
        },
{
    match result {
        Ok(_) => ScriptOutcome::Finished(submissions),
        Err(e) => ScriptOutcome::Failed(e),
    }
}

/// Registers what one script submitted.
pub fn apply_outcome(registry: &mut FishRegistry, outcome: &ScriptOutcome)
    ensures
        final(registry)@ == outcome_effect(old(registry)@, outcome@),
        old(registry).wf() ==> final(registry).wf(),
{
    proof {
        if registry.wf() {
            match outcome@ {
                OutcomeView::Finished(subs) => {
                    lemma_submissions_effect(registry@, subs);
                },
                OutcomeView::Failed(_) => {},
            }
        }
    }
    match outcome {
        ScriptOutcome::Finished(subs) => {
            let ghost all = submissions_view(subs@);
            let ghost start = registry@;
            let mut i: usize = 0;
            assert(all.take(0) =~= Seq::empty());
            while i < subs.len()
                invariant
                    i <= subs.len(),
                    all == submissions_view(subs@),
                    registry@ == submissions_effect(start, all.take(i as int)),
                decreases subs.len() - i,
            {
                assert(all.take(i + 1).drop_last() =~= all.take(i as int));
                assert(all.take(i + 1).last() == all[i as int]);
                match &subs[i] {
                    Ok(fish) => {
                        registry.register(fish.copy());
                    },
                    Err(_) => {},
                }
                i += 1;
            }
            assert(all.take(i as int) =~= all);
        },
        ScriptOutcome::Failed(_) => {},
    }
}

/// Runs one script and registers what it submitted, if it ran to its end.
/// Returns how the script ended; whatever that is, the registry is changed
/// by it as `outcome_effect` says.
pub fn load_single_plugin(source: &str, registry: &mut FishRegistry) -> (outcome: ScriptOutcome)
    ensures
        final(registry)@ == outcome_effect(old(registry)@, outcome@),
        old(registry).wf() ==> final(registry).wf(),
{
    let outcome = run_script(source);
    apply_outcome(registry, &outcome);
    outcome
}

/// Runs the scripts of a batch, one after the other and each in an
/// interpreter of its own, and registers what they submitted. Returns how
/// each script ended.
pub fn load_plugins(sources: &Vec<String>, registry: &mut FishRegistry) -> (outcomes: Vec<
    ScriptOutcome,
>)
    ensures
        outcomes@.len() == sources@.len(),
        final(registry)@ == batch_effect(old(registry)@, outcomes_view(outcomes@)),
        old(registry).wf() ==> final(registry).wf(),
{
    let ghost start = registry@;
    let mut outcomes: Vec<ScriptOutcome> = Vec::new();
    let mut i: usize = 0;
    assert(outcomes_view(outcomes@) =~= Seq::empty());
    while i < sources.len()
        invariant
            i <= sources.len(),
            outcomes@.len() == i,
            registry@ == batch_effect(start, outcomes_view(outcomes@)),
            old(registry).wf() ==> registry.wf(),
        decreases sources.len() - i,
    {
        let ghost before = outcomes_view(outcomes@);
        let outcome = load_single_plugin(sources[i].as_str(), registry);
        let ghost ov = outcome@;
        outcomes.push(outcome);
        proof {
            let after = outcomes_view(outcomes@);
            assert(after.drop_last() =~= before);
            assert(after.last() == ov);
        }
        i += 1;
    }
    outcomes
}

} // verus!
