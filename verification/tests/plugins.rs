use fish_dating::dialogue::node::DialogueNode;
use fish_dating::dialogue::runner::{DialogueRunner, DialogueState};
use fish_dating::dialogue::variables::DialogueEvent;
use fish_dating::plugins::dialogue_def::{parse_choice_options, ChoiceOptionDef, DialogueDef, NodeDef};
use fish_dating::plugins::fish_def::FishDef;
use fish_dating::plugins::loader::{
    apply_outcome, load_plugins, load_single_plugin, parse_color, parse_fish_def, run_script,
    script_outcome, ScriptOutcome, HALF_BITS, ONE_BITS,
};
use fish_dating::plugins::registry::FishRegistry;
use fish_dating::plugins::script::{ScriptMap, ScriptNumber, ScriptValue};

fn text_value(s: &str) -> ScriptValue {
    ScriptValue::Str(s.to_string())
}

fn float_value(f: f64) -> ScriptValue {
    ScriptValue::Float(f.to_bits())
}

fn map_of(entries: Vec<(&str, ScriptValue)>) -> ScriptMap {
    let mut map = ScriptMap::new();
    for (key, value) in entries {
        map.push(key, value);
    }
    map
}

fn minimal_record(id: &str) -> ScriptMap {
    map_of(vec![
        ("id", text_value(id)),
        ("name", text_value("Coral")),
        ("species", text_value("Seahorse")),
    ])
}

fn fish(id: &str, name: &str, pond: &str) -> FishDef {
    let mut record = minimal_record(id);
    record.entries[1].1 = text_value(name);
    record.push("pond_name", text_value(pond));
    parse_fish_def(&record).unwrap()
}

#[test]
fn def_lowers_to_tree() {
    let mut def = DialogueDef::new("First date");
    def.add_speaker("coral", "Coral");
    def.add_text("hello", "coral", "Hi!", "q");
    def.add_choice(
        "q",
        "Well?",
        vec![
            ChoiceOptionDef { text: "Nice".to_string(), next: "bye".to_string(), affection: 3 },
            ChoiceOptionDef { text: "Meh".to_string(), next: "bye".to_string(), affection: 0 },
            ChoiceOptionDef { text: "Ugh".to_string(), next: "bye".to_string(), affection: -2 },
        ],
    );
    def.add_end("bye");
    let tree = def.to_dialogue_tree();
    assert_eq!(tree.title(), "First date");
    assert_eq!(tree.start_node(), "hello");
    assert_eq!(tree.node_count(), 3);
    assert!(tree.validate().is_ok());
    assert_eq!(tree.speaker("coral").unwrap().display_name(), "Coral");
    match tree.node("q") {
        Some(DialogueNode::Choice { prompt, choices, .. }) => {
            assert_eq!(prompt.as_deref(), Some("Well?"));
            assert_eq!(choices.len(), 3);
            assert_eq!(choices[0].deltas.len(), 1);
            assert_eq!(choices[0].deltas[0].name, "affection");
            assert_eq!(choices[0].deltas[0].delta, 3);
            assert!(choices[1].deltas.is_empty());
            assert_eq!(choices[2].deltas[0].delta, -2);
        }
        other => panic!("expected a choice, got {:?}", other),
    }
}

#[test]
fn empty_def_starts_at_start() {
    let tree = DialogueDef::new("Nothing").to_dialogue_tree();
    assert_eq!(tree.start_node(), "start");
    assert_eq!(tree.node_count(), 0);
    assert!(matches!(DialogueRunner::new(tree).current(), DialogueState::End));
}

#[test]
fn option_without_affection_emits_no_event() {
    let options = parse_choice_options(&vec![ScriptValue::Object(map_of(vec![
        ("text", text_value("Hm")),
        ("next", text_value("end")),
    ]))]);
    assert_eq!(options.len(), 1);
    assert_eq!(options[0].affection, 0);
    let mut def = DialogueDef::new("Quiet");
    def.add_choice("start", "Say something", options);
    def.add_end("end");
    let tree = def.to_dialogue_tree();
    match tree.node("start") {
        Some(DialogueNode::Choice { choices, .. }) => assert!(choices[0].deltas.is_empty()),
        other => panic!("expected a choice, got {:?}", other),
    }
    let mut runner = DialogueRunner::new(tree);
    assert_eq!(runner.select_choice(0), Ok(()));
    assert_eq!(runner.poll_event(), None);
    assert_eq!(runner.variable("affection"), 0);
    assert!(runner.is_ended());
}

#[test]
fn choice_options_skip_what_is_no_option() {
    let items = vec![
        ScriptValue::Object(map_of(vec![
            ("text", text_value("A")),
            ("next", text_value("a")),
            ("affection", ScriptValue::Int(4)),
        ])),
        ScriptValue::Int(7),
        ScriptValue::Object(map_of(vec![("text", text_value("no next"))])),
        ScriptValue::Object(map_of(vec![("text", ScriptValue::Int(1)), ("next", text_value("b"))])),
        ScriptValue::Object(map_of(vec![
            ("next", text_value("c")),
            ("text", text_value("C")),
            ("affection", text_value("lots")),
        ])),
        ScriptValue::Object(map_of(vec![
            ("text", text_value("D")),
            ("next", text_value("d")),
            ("affection", float_value(2.5)),
        ])),
    ];
    let options = parse_choice_options(&items);
    assert_eq!(options.len(), 3);
    assert_eq!((options[0].text.as_str(), options[0].next.as_str(), options[0].affection), ("A", "a", 4));
    assert_eq!((options[1].text.as_str(), options[1].next.as_str(), options[1].affection), ("C", "c", 0));
    assert_eq!((options[2].text.as_str(), options[2].next.as_str(), options[2].affection), ("D", "d", 0));
}

#[test]
fn choice_option_affection_is_cut_to_32_bits() {
    let items = vec![ScriptValue::Object(map_of(vec![
        ("text", text_value("A")),
        ("next", text_value("a")),
        ("affection", ScriptValue::Int((1i64 << 32) + 5)),
    ]))];
    assert_eq!(parse_choice_options(&items)[0].affection, 5);
}

#[test]
fn record_with_defaults() {
    let fish = parse_fish_def(&minimal_record("coral")).unwrap();
    assert_eq!(fish.id, "coral");
    assert_eq!(fish.name, "Coral");
    assert_eq!(fish.species, "Seahorse");
    assert_eq!(fish.description, "A mysterious fish.");
    assert_eq!(fish.difficulty, ScriptNumber::Float(HALF_BITS));
    assert_eq!(f64::from_bits(HALF_BITS), 0.5);
    assert_eq!(f64::from_bits(ONE_BITS), 1.0);
    let one = ScriptNumber::Float(ONE_BITS);
    assert_eq!((fish.color.r, fish.color.g, fish.color.b, fish.color.a), (one, one, one, one));
    assert_eq!(fish.art_happy, "  ><(((o>");
    assert_eq!(fish.art_neutral, "  ><(((o>");
    assert_eq!(fish.art_sad, "  ><(((o>");
    assert_eq!(fish.art_small, "><>");
    assert_eq!(fish.date_location, "The Deep");
    assert_eq!(fish.date_scene_art, "  ~~~~~~~~\n  ~ ~ ~ ~ ~\n  ~~~~~~~~");
    assert_eq!(fish.pond_name, "Coral's Pond");
    assert!(fish.dialogues.is_empty());
}

#[test]
fn record_with_everything() {
    let mut date = DialogueDef::new("Date");
    date.add_end("only");
    let record = map_of(vec![
        ("id", text_value("coral")),
        ("name", text_value("Coral")),
        ("species", text_value("Seahorse")),
        ("description", text_value("Shy.")),
        ("difficulty", ScriptValue::Int(1)),
        ("color", ScriptValue::Array(vec![float_value(0.25), ScriptValue::Int(0), text_value("x")])),
        ("art_happy", text_value(":)")),
        ("art_neutral", text_value(":|")),
        ("art_sad", text_value(":(")),
        ("art_small", text_value("~")),
        ("date_location", text_value("Kelp Garden")),
        ("date_scene_art", text_value("###")),
        ("pond_name", text_value("Kelp Pond")),
        ("dates", ScriptValue::Array(vec![ScriptValue::Int(3), ScriptValue::Dialogue(date)])),
    ]);
    let fish = parse_fish_def(&record).unwrap();
    assert_eq!(fish.description, "Shy.");
    assert_eq!(fish.difficulty, ScriptNumber::Int(1));
    assert_eq!(fish.color.r, ScriptNumber::Float(0.25f64.to_bits()));
    assert_eq!(fish.color.g, ScriptNumber::Int(0));
    assert_eq!(fish.color.b, ScriptNumber::Float(ONE_BITS));
    assert_eq!(fish.color.a, ScriptNumber::Float(ONE_BITS));
    assert_eq!(fish.pond_name, "Kelp Pond");
    assert_eq!(fish.date_location, "Kelp Garden");
    assert_eq!(fish.dialogues.len(), 1);
    assert_eq!(fish.dialogues[0].title(), "Date");
    assert_eq!(fish.art_for_affection(21), ":)");
    assert_eq!(fish.art_for_affection(20), ":|");
    assert_eq!(fish.art_for_affection(11), ":|");
    assert_eq!(fish.art_for_affection(10), ":(");
    assert_eq!(fish.art_for_affection(-3), ":(");
}

#[test]
fn record_missing_required_field() {
    let record = map_of(vec![("id", text_value("coral")), ("name", text_value("Coral"))]);
    assert_eq!(parse_fish_def(&record).unwrap_err(), "missing required field 'species'");
    let record = map_of(vec![("name", text_value("Coral")), ("species", text_value("Seahorse"))]);
    assert_eq!(parse_fish_def(&record).unwrap_err(), "missing required field 'id'");
    let record = map_of(vec![("id", text_value("coral")), ("species", text_value("Seahorse"))]);
    assert_eq!(parse_fish_def(&record).unwrap_err(), "missing required field 'name'");
}

#[test]
fn record_with_required_field_of_wrong_type() {
    let record = map_of(vec![
        ("id", text_value("coral")),
        ("name", ScriptValue::Int(5)),
        ("species", text_value("Seahorse")),
    ]);
    assert_eq!(parse_fish_def(&record).unwrap_err(), "field 'name' must be a string");
}

#[test]
fn optional_field_of_wrong_type_gets_default() {
    let mut record = minimal_record("coral");
    record.push("description", ScriptValue::Int(1));
    record.push("difficulty", text_value("hard"));
    record.push("color", ScriptValue::Array(vec![ScriptValue::Int(1), ScriptValue::Int(1)]));
    record.push("dates", text_value("none"));
    let fish = parse_fish_def(&record).unwrap();
    assert_eq!(fish.description, "A mysterious fish.");
    assert_eq!(fish.difficulty, ScriptNumber::Float(HALF_BITS));
    assert_eq!(fish.color.r, ScriptNumber::Float(ONE_BITS));
    assert!(fish.dialogues.is_empty());
}

#[test]
fn color_from_three_or_four_elements() {
    let three = ScriptValue::Array(vec![ScriptValue::Int(0), float_value(0.5), ScriptValue::Int(1)]);
    let c = parse_color(Some(&three)).unwrap();
    assert_eq!(c.r, ScriptNumber::Int(0));
    assert_eq!(c.g, ScriptNumber::Float(HALF_BITS));
    assert_eq!(c.b, ScriptNumber::Int(1));
    assert_eq!(c.a, ScriptNumber::Float(ONE_BITS));
    let four = ScriptValue::Array(vec![
        ScriptValue::Int(0),
        ScriptValue::Int(0),
        ScriptValue::Int(0),
        float_value(0.25),
        ScriptValue::Int(9),
    ]);
    assert_eq!(parse_color(Some(&four)).unwrap().a, ScriptNumber::Float(0.25f64.to_bits()));
    let two = ScriptValue::Array(vec![ScriptValue::Int(0), ScriptValue::Int(0)]);
    assert!(parse_color(Some(&two)).is_none());
    assert!(parse_color(Some(&ScriptValue::Int(3))).is_none());
    assert!(parse_color(None).is_none());
}

#[test]
fn dialogues_rotate_with_date_number() {
    let mut first = DialogueDef::new("one");
    first.add_end("e");
    let mut second = DialogueDef::new("two");
    second.add_end("e");
    let mut record = minimal_record("coral");
    record.push(
        "dates",
        ScriptValue::Array(vec![ScriptValue::Dialogue(first), ScriptValue::Dialogue(second)]),
    );
    let fish = parse_fish_def(&record).unwrap();
    assert_eq!(fish.dialogue_for_date(0).title(), "one");
    assert_eq!(fish.dialogue_for_date(1).title(), "two");
    assert_eq!(fish.dialogue_for_date(2).title(), "one");
    assert_eq!(fish.dialogue_for_date(u32::MAX).title(), "two");
}

#[test]
fn fallback_dialogue_is_playable() {
    let fish = parse_fish_def(&minimal_record("coral")).unwrap();
    let tree = fish.dialogue_for_date(4);
    assert_eq!(tree.title(), "Date with Coral");
    assert!(tree.validate().is_ok());
    assert_eq!(tree.speaker("coral").unwrap().display_name(), "Coral");
    assert_eq!(tree.speaker("player").unwrap().display_name(), "You");
    let mut runner = DialogueRunner::new(tree);
    match runner.current() {
        DialogueState::Text { speaker, text } => {
            assert_eq!(speaker.unwrap().display_name(), "Coral");
            assert_eq!(text, "Hi there! I'm Coral. Thanks for taking me out!");
        }
        other => panic!("expected a text, got {:?}", other),
    }
    runner.advance().unwrap();
    match runner.current() {
        DialogueState::Choices { prompt, choices } => {
            assert_eq!(prompt.as_deref(), Some("Coral smiles at you."));
            assert_eq!(choices[0].text, "This is nice!");
            assert_eq!(choices[1].text, "Let's do this again sometime.");
        }
        other => panic!("expected a choice, got {:?}", other),
    }
    runner.select_choice(1).unwrap();
    assert_eq!(
        runner.poll_event(),
        Some(DialogueEvent::VariableChanged { name: "affection".to_string(), old_value: 0, new_value: 2 })
    );
    match runner.current() {
        DialogueState::Text { text, .. } => assert_eq!(text, "I had a great time! See you around!"),
        other => panic!("expected a text, got {:?}", other),
    }
    runner.advance().unwrap();
    assert!(runner.is_ended());
    let other = FishDef::fallback_dialogue_for("Big Al");
    assert_eq!(other.title(), "Date with Big Al");
    assert!(other.speaker("big al").is_some());
}

#[test]
fn registry_keeps_first_of_duplicate_ids() {
    let mut registry = FishRegistry::new();
    assert_eq!(registry.count(), 0);
    assert!(registry.register(fish("coral", "First", "Pond A")));
    assert!(registry.register(fish("pearl", "Pearl", "Pond B")));
    assert_eq!(registry.count(), 2);
    assert!(!registry.register(fish("coral", "Second", "Pond C")));
    assert_eq!(registry.count(), 2);
    assert_eq!(registry.get("coral").unwrap().name, "First");
    assert_eq!(registry.plugin_ids(), vec!["coral".to_string(), "pearl".to_string()]);
    assert_eq!(registry.pond_names(), vec!["Pond A", "Pond B"]);
    let names: Vec<&str> = registry.all_fish().iter().map(|f| f.name.as_str()).collect();
    assert_eq!(names, vec!["First", "Pearl"]);
    assert!(registry.get("nobody").is_none());
}

#[test]
fn registry_finds_fish_by_pond() {
    let mut registry = FishRegistry::new();
    registry.register(fish("a", "A", "Shared Pond"));
    registry.register(fish("b", "B", "Shared Pond"));
    registry.register(fish("c", "C", "Own Pond"));
    assert_eq!(registry.fish_by_pond("Shared Pond").unwrap().id, "a");
    assert_eq!(registry.fish_by_pond("Own Pond").unwrap().id, "c");
    assert!(registry.fish_by_pond("No Pond").is_none());
}

const CORAL_SCRIPT: &str = r##"
let d = new_dialogue("Tea with Coral");
d.speaker("coral", "Coral");
d.text("start", "coral", "Tea?", "q");
d.choice("q", "Coral waits.", [
    #{ text: "Yes please", next: "end", affection: 5 },
    #{ text: "No", next: "end" },
    "not an option",
    #{ text: "Broken" }
]);
d.end("end");
register_fish(#{
    id: "coral",
    name: "Coral",
    species: "Seahorse",
    difficulty: 0.75,
    color: [1, 0.5, 0],
    pond_name: "Kelp Pond",
    dates: [d, 42]
});
"##;

#[test]
fn script_registers_a_fish() {
    let mut registry = FishRegistry::new();
    let outcome = load_single_plugin(CORAL_SCRIPT, &mut registry);
    match &outcome {
        ScriptOutcome::Finished(subs) => {
            assert_eq!(subs.len(), 1);
            assert!(subs[0].is_ok());
        }
        other => panic!("expected the script to finish, got {:?}", other),
    }
    assert_eq!(registry.count(), 1);
    let coral = registry.get("coral").unwrap();
    assert_eq!(coral.name, "Coral");
    assert_eq!(coral.species, "Seahorse");
    assert_eq!(coral.difficulty, ScriptNumber::Float(0.75f64.to_bits()));
    assert_eq!(coral.color.r, ScriptNumber::Int(1));
    assert_eq!(coral.color.g, ScriptNumber::Float(HALF_BITS));
    assert_eq!(coral.color.b, ScriptNumber::Int(0));
    assert_eq!(coral.color.a, ScriptNumber::Float(ONE_BITS));
    assert_eq!(coral.pond_name, "Kelp Pond");
    assert_eq!(coral.description, "A mysterious fish.");
    assert_eq!(coral.dialogues.len(), 1);
    let tree = coral.dialogue_for_date(7);
    assert_eq!(tree.title(), "Tea with Coral");
    let mut runner = DialogueRunner::new(tree);
    runner.advance().unwrap();
    match runner.current() {
        DialogueState::Choices { choices, .. } => {
            assert_eq!(choices.len(), 2);
            assert_eq!(choices[0].text, "Yes please");
            assert_eq!(choices[1].text, "No");
        }
        other => panic!("expected a choice, got {:?}", other),
    }
    runner.select_choice(0).unwrap();
    assert_eq!(runner.variable("affection"), 5);
    assert!(runner.is_ended());
}

#[test]
fn record_missing_species_fails_alone() {
    let script = r##"
        register_fish(#{ id: "ghost", name: "Ghost" });
        register_fish(#{ id: "pearl", name: "Pearl", species: "Oyster" });
    "##;
    let mut registry = FishRegistry::new();
    match load_single_plugin(script, &mut registry) {
        ScriptOutcome::Finished(subs) => {
            assert_eq!(subs.len(), 2);
            assert_eq!(subs[0].as_ref().unwrap_err(), "missing required field 'species'");
            assert_eq!(subs[1].as_ref().unwrap().id, "pearl");
        }
        other => panic!("expected the script to finish, got {:?}", other),
    }
    assert_eq!(registry.count(), 1);
    assert!(registry.get("ghost").is_none());
    assert_eq!(registry.get("pearl").unwrap().species, "Oyster");
}

#[test]
fn failing_scripts_do_not_stop_the_batch() {
    let sources = vec![
        r##"register_fish(#{ id: "a", name: "A", species: "Fish" });"##.to_string(),
        r##"register_fish(#{ id: "lost", name: "L", species: "Fish" }); throw "oops";"##.to_string(),
        r##"let x = 0; loop { x += 1; }"##.to_string(),
        r##"this is not a script"##.to_string(),
        r##"let quiet = 1;"##.to_string(),
        r##"register_fish(#{ id: "b", name: "B", species: "Fish" });"##.to_string(),
    ];
    let mut registry = FishRegistry::new();
    let outcomes = load_plugins(&sources, &mut registry);
    assert_eq!(outcomes.len(), 6);
    assert!(matches!(outcomes[0], ScriptOutcome::Finished(_)));
    assert!(matches!(outcomes[1], ScriptOutcome::Failed(_)));
    assert!(matches!(outcomes[2], ScriptOutcome::Failed(_)));
    assert!(matches!(outcomes[3], ScriptOutcome::Failed(_)));
    match &outcomes[4] {
        ScriptOutcome::Finished(subs) => assert!(subs.is_empty()),
        other => panic!("expected the script to finish, got {:?}", other),
    }
    assert_eq!(registry.plugin_ids(), vec!["a".to_string(), "b".to_string()]);
}

#[test]
fn first_script_wins_a_shared_id() {
    let sources = vec![
        r##"register_fish(#{ id: "coral", name: "From the first", species: "Fish" });"##.to_string(),
        r##"register_fish(#{ id: "coral", name: "From the second", species: "Fish" });"##.to_string(),
    ];
    let mut registry = FishRegistry::new();
    load_plugins(&sources, &mut registry);
    assert_eq!(registry.count(), 1);
    assert_eq!(registry.get("coral").unwrap().name, "From the first");
}

#[test]
fn outcome_is_applied_as_given() {
    let mut registry = FishRegistry::new();
    registry.register(fish("old", "Old", "Pond"));
    apply_outcome(&mut registry, &ScriptOutcome::Failed("broken".to_string()));
    assert_eq!(registry.count(), 1);
    let outcome = ScriptOutcome::Finished(vec![
        Ok(fish("new", "New", "Pond")),
        Err("bad record".to_string()),
        Ok(fish("old", "Impostor", "Pond")),
        Ok(fish("new", "Twin", "Pond")),
    ]);
    apply_outcome(&mut registry, &outcome);
    assert_eq!(registry.plugin_ids(), vec!["old".to_string(), "new".to_string()]);
    assert_eq!(registry.get("old").unwrap().name, "Old");
    assert_eq!(registry.get("new").unwrap().name, "New");
}

#[test]
fn script_that_submits_no_map_is_refused() {
    match run_script(r##"register_fish(3);"##) {
        ScriptOutcome::Failed(_) => {}
        other => panic!("expected the script to fail, got {:?}", other),
    }
}

#[test]
fn node_defs_keep_their_ids() {
    let mut def = DialogueDef::new("t");
    def.add_text("a", "s", "x", "b");
    def.add_choice("b", "p", Vec::new());
    def.add_end("c");
    let ids: Vec<&str> = def.nodes.iter().map(|n: &NodeDef| n.id()).collect();
    assert_eq!(ids, vec!["a", "b", "c"]);
    let copy = def.copy();
    assert_eq!(copy.title, "t");
    assert_eq!(copy.nodes.len(), 3);
}

#[test]
fn outcome_follows_the_interpreter() {
    match script_outcome(Ok(()), vec![Ok(fish("a", "A", "Pond")), Err("bad".to_string())]) {
        ScriptOutcome::Finished(subs) => {
            assert_eq!(subs.len(), 2);
            assert_eq!(subs[0].as_ref().unwrap().id, "a");
            assert_eq!(subs[1].as_ref().unwrap_err(), "bad");
        }
        other => panic!("expected the script to finish, got {:?}", other),
    }
    match script_outcome(Err("boom".to_string()), vec![Ok(fish("a", "A", "Pond"))]) {
        ScriptOutcome::Failed(e) => assert_eq!(e, "boom"),
        other => panic!("expected the script to fail, got {:?}", other),
    }
}

#[test]
fn deeply_nested_values_are_cut_off() {
    let script = r##"
        register_fish(#{
            id: "deep", name: "Deep", species: "Fish",
            color: [1, 1, 1],
            dates: [[[[[new_dialogue("too deep")]]]], new_dialogue("fine")]
        });
    "##;
    let mut registry = FishRegistry::new();
    load_single_plugin(script, &mut registry);
    let deep = registry.get("deep").unwrap();
    assert_eq!(deep.dialogues.len(), 1);
    assert_eq!(deep.dialogues[0].title(), "fine");
}
