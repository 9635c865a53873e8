use fish_dating::data::dialogues::{
    build_bubbles_date1, build_bubbles_date2, build_bubbles_date3, build_dialogue,
    build_gill_date1, build_gill_date2, build_gill_date3, build_marina_date1, build_marina_date2,
    build_marina_date3,
};
use fish_dating::data::fish_id::FishId;
use fish_dating::dating::scene::{DateAction, DatingState};
use fish_dating::dialogue::node::DialogueNode;
use fish_dating::dialogue::runner::{DialogueRunner, DialogueState};
use fish_dating::dialogue::tree::DialogueTree;
use fish_dating::input::Key;
use fish_dating::plugins::loader::load_single_plugin;
use fish_dating::plugins::registry::FishRegistry;

fn all_builtin() -> Vec<DialogueTree> {
    vec![
        build_bubbles_date1(),
        build_bubbles_date2(),
        build_bubbles_date3(),
        build_marina_date1(),
        build_marina_date2(),
        build_marina_date3(),
        build_gill_date1(),
        build_gill_date2(),
        build_gill_date3(),
    ]
}

#[test]
fn builtin_dialogues_are_valid() {
    for tree in all_builtin() {
        assert!(tree.validate().is_ok(), "{} is not valid", tree.title());
        assert_eq!(tree.start_node(), "start");
        assert_eq!(tree.node_count(), 14);
        assert!(tree.speaker("player").is_some());
        assert!(matches!(tree.node("end"), Some(DialogueNode::End { .. })));
    }
}

#[test]
fn builtin_dialogues_have_their_titles() {
    let titles: Vec<String> = all_builtin().iter().map(|t| t.title().to_string()).collect();
    assert_eq!(
        titles,
        vec![
            "Date with Bubbles",
            "Date with Bubbles II",
            "Date with Bubbles III",
            "Date with Marina",
            "Date with Marina II",
            "Date with Marina III",
            "Date with Gill",
            "Date with Gill II",
            "Date with Gill III",
        ]
    );
}

#[test]
fn builtin_dialogues_end_after_three_rounds() {
    for pick in 0..3 {
        for tree in all_builtin() {
            let mut runner = DialogueRunner::new(tree);
            for _ in 0..3 {
                assert!(matches!(runner.current(), DialogueState::Text { .. }));
                runner.advance().unwrap();
                match runner.current() {
                    DialogueState::Choices { choices, .. } => assert_eq!(choices.len(), 3),
                    other => panic!("expected a choice, got {:?}", other),
                }
                runner.select_choice(pick).unwrap();
            }
            assert!(matches!(runner.current(), DialogueState::Text { .. }));
            runner.advance().unwrap();
            assert!(runner.is_ended());
        }
    }
}

#[test]
fn first_date_with_bubbles() {
    let mut runner = DialogueRunner::new(build_bubbles_date1());
    match runner.current() {
        DialogueState::Text { speaker, text } => {
            assert_eq!(speaker.unwrap().display_name(), "Bubbles");
            assert_eq!(
                text,
                "Hey hey hey! Thanks for bringing me to the Coral Cafe! I LOVE this place!"
            );
        }
        other => panic!("expected a text, got {:?}", other),
    }
    runner.advance().unwrap();
    match runner.current() {
        DialogueState::Choices { prompt, choices } => {
            assert_eq!(prompt.as_deref(), Some("Bubbles is bouncing excitedly. What do you say?"));
            assert_eq!(choices[0].text, "Your enthusiasm is contagious! What's good here?");
            assert_eq!(choices[1].text, "Calm down, it's just a cafe.");
            assert!(choices[1].deltas.is_empty());
            assert_eq!(choices[2].deltas[0].delta, 2);
        }
        other => panic!("expected a choice, got {:?}", other),
    }
    runner.select_choice(0).unwrap();
    assert_eq!(runner.variable("affection"), 3);
    runner.advance().unwrap();
    runner.select_choice(0).unwrap();
    assert_eq!(runner.variable("affection"), 7);
    runner.advance().unwrap();
    runner.select_choice(0).unwrap();
    assert_eq!(runner.variable("affection"), 12);
}

#[test]
fn dialogues_rotate_by_date_number() {
    let registry = FishRegistry::new();
    assert_eq!(build_dialogue(&FishId::Bubbles, 0, &registry).title(), "Date with Bubbles");
    assert_eq!(build_dialogue(&FishId::Bubbles, 1, &registry).title(), "Date with Bubbles II");
    assert_eq!(build_dialogue(&FishId::Bubbles, 2, &registry).title(), "Date with Bubbles III");
    assert_eq!(build_dialogue(&FishId::Bubbles, 3, &registry).title(), "Date with Bubbles");
    assert_eq!(build_dialogue(&FishId::Marina, 4, &registry).title(), "Date with Marina II");
    assert_eq!(build_dialogue(&FishId::Gill, 5, &registry).title(), "Date with Gill III");
    assert_eq!(build_dialogue(&FishId::Gill, u32::MAX, &registry).title(), "Date with Gill");
}

#[test]
fn plugin_dialogue_comes_from_the_registry() {
    let mut registry = FishRegistry::new();
    load_single_plugin(
        r##"
        let a = new_dialogue("A"); a.end("start");
        let b = new_dialogue("B"); b.end("start");
        register_fish(#{ id: "coral", name: "Coral", species: "Seahorse", dates: [a, b] });
        register_fish(#{ id: "plain", name: "Plain", species: "Fish" });
        "##,
        &mut registry,
    );
    let coral = FishId::Plugin("coral".to_string());
    assert_eq!(build_dialogue(&coral, 0, &registry).title(), "A");
    assert_eq!(build_dialogue(&coral, 1, &registry).title(), "B");
    assert_eq!(build_dialogue(&coral, 2, &registry).title(), "A");
    let plain = FishId::Plugin("plain".to_string());
    assert_eq!(build_dialogue(&plain, 0, &registry).title(), "Date with Plain");
    let ghost = FishId::Plugin("Ghost".to_string());
    let fallback = build_dialogue(&ghost, 0, &registry);
    assert_eq!(fallback.title(), "Date with Ghost");
    assert!(fallback.speaker("ghost").is_some());
}

#[test]
fn a_date_from_start_to_finish() {
    let registry = FishRegistry::new();
    let mut date = DatingState::new(FishId::Bubbles, 0, &registry);
    assert_eq!(date.fish_id, FishId::Bubbles);
    assert_eq!(date.current_speaker(), "Bubbles");
    assert!(date.current_text().starts_with("Hey hey hey!"));
    assert!(date.choice_menu().is_none());
    assert_eq!(date.affection_gained(), 0);
    assert_eq!(date.update(None, false), DateAction::Stay);
    assert_eq!(date.update(Some(Key::ArrowDown), false), DateAction::Stay);
    assert_eq!(date.update(Some(Key::Enter), false), DateAction::RevealAll);
    assert!(date.current_text().starts_with("Hey hey hey!"));
    assert_eq!(date.update(Some(Key::Space), true), DateAction::Restart);
    assert_eq!(date.current_text(), "Bubbles is bouncing excitedly. What do you say?");
    assert_eq!(date.current_speaker(), "");
    let menu = date.choice_menu().as_ref().unwrap();
    assert_eq!(menu.items.len(), 3);
    assert_eq!(menu.items[1], "Calm down, it's just a cafe.");
    assert_eq!(date.update(Some(Key::Escape), true), DateAction::Stay);
    assert_eq!(date.update(Some(Key::KeyS), true), DateAction::Stay);
    assert_eq!(date.update(Some(Key::ArrowDown), true), DateAction::Stay);
    assert_eq!(date.update(Some(Key::ArrowDown), true), DateAction::Stay);
    assert_eq!(date.choice_menu().as_ref().unwrap().selected_index(), 2);
    assert_eq!(date.update(Some(Key::KeyW), true), DateAction::Stay);
    assert_eq!(date.update(Some(Key::ArrowUp), true), DateAction::Stay);
    assert_eq!(date.choice_menu().as_ref().unwrap().selected_index(), 0);
    assert_eq!(date.update(Some(Key::Enter), false), DateAction::Restart);
    assert_eq!(date.affection_gained(), 3);
    assert!(date.choice_menu().is_none());
    assert_eq!(date.current_speaker(), "Bubbles");
    date.update(Some(Key::Enter), true);
    date.update(Some(Key::ArrowDown), true);
    date.update(Some(Key::Enter), true);
    assert_eq!(date.affection_gained(), 5);
    date.update(Some(Key::Enter), true);
    date.update(Some(Key::Enter), true);
    assert_eq!(date.affection_gained(), 10);
    assert!(!date.is_ended());
    let last = date.current_text().to_string();
    assert_eq!(date.update(Some(Key::Enter), true), DateAction::Stay);
    assert!(date.is_ended());
    assert_eq!(date.current_text(), last);
    assert_eq!(date.update(Some(Key::ArrowUp), true), DateAction::Stay);
    assert_eq!(date.update(Some(Key::Escape), true), DateAction::Stay);
    assert_eq!(date.update(Some(Key::Enter), true), DateAction::Finish { affection: 10 });
    assert_eq!(date.update(Some(Key::Space), false), DateAction::Finish { affection: 10 });
}

#[test]
fn a_date_can_be_left_at_a_text() {
    let registry = FishRegistry::new();
    let mut date = DatingState::new(FishId::Gill, 1, &registry);
    date.update(Some(Key::Enter), true);
    date.update(Some(Key::Enter), true);
    let gained = date.affection_gained();
    assert_eq!(date.update(Some(Key::Escape), false), DateAction::Finish { affection: gained });
    assert!(!date.is_ended());
}

#[test]
fn a_date_with_an_empty_dialogue_is_over_at_once() {
    let mut registry = FishRegistry::new();
    load_single_plugin(
        r##"register_fish(#{ id: "mute", name: "Mute", species: "Fish", dates: [new_dialogue("Silence")] });"##,
        &mut registry,
    );
    let mut date = DatingState::new(FishId::Plugin("mute".to_string()), 0, &registry);
    assert!(date.is_ended());
    assert_eq!(date.current_text(), "");
    assert_eq!(date.update(Some(Key::Enter), true), DateAction::Finish { affection: 0 });
}
