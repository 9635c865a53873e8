use fish_dating::achievements::catalog::{achievement_at, find_achievement, total_count};
use fish_dating::achievements::ids;
use fish_dating::achievements::rules::{
    check_state, find_due, on_catch_size, on_moon_battle_started, on_moon_victory, unlocked_count,
};
use fish_dating::achievements::unlocked::UnlockedAchievements;
use fish_dating::data::fish_id::FishId;
use fish_dating::data::player::{relationship_label, FishSize, PlayerState};
use fish_dating::data::table::FishTable;
use fish_dating::dating::fish::{date_location, date_scene_art, fish_art, fish_small_art};
use fish_dating::easter_egg::{BattleAction, MoonBattleState, Phase, SecretSequence};
use fish_dating::fishing::minigame::{key_action, pull, MinigameAction, Phase as MinigamePhase, Pull};
use fish_dating::fishing::pond::{pond_name_at, PondAction, PondSelectState};
use fish_dating::game::{
    after_result, commit_catch, commit_date, date_fits, date_menu_items, dateable_fish,
    main_menu_items, menu_command, start_menu_items, update_collection, AfterResult, MenuCommand,
};
use fish_dating::input::Key;
use fish_dating::plugins::loader::parse_fish_def;
use fish_dating::plugins::registry::FishRegistry;
use fish_dating::plugins::script::{ScriptMap, ScriptValue};
use fish_dating::ui::menu::SelectionMenu;
use fish_dating::ui::layout::{box_lines, full_hearts, menu_lines, repeat_text};
use fish_dating::ui::text::{truncate_to_width, word_wrap, wrap_words};

fn plugin(id: &str) -> FishId {
    FishId::Plugin(id.to_string())
}

fn registry_with(entries: Vec<(&str, &str, &str)>) -> FishRegistry {
    let mut registry = FishRegistry::new();
    for (id, name, pond) in entries {
        let mut record = ScriptMap::new();
        record.push("id", ScriptValue::Str(id.to_string()));
        record.push("name", ScriptValue::Str(name.to_string()));
        record.push("species", ScriptValue::Str("Seahorse".to_string()));
        record.push("description", ScriptValue::Str("From a script.".to_string()));
        record.push("pond_name", ScriptValue::Str(pond.to_string()));
        record.push("art_happy", ScriptValue::Str(":)".to_string()));
        record.push("art_neutral", ScriptValue::Str(":|".to_string()));
        record.push("art_sad", ScriptValue::Str(":(".to_string()));
        record.push("art_small", ScriptValue::Str("~".to_string()));
        record.push("date_location", ScriptValue::Str("Kelp Garden".to_string()));
        record.push("date_scene_art", ScriptValue::Str("###".to_string()));
        assert!(registry.register(parse_fish_def(&record).unwrap()));
    }
    registry
}

#[test]
fn fish_id_basics() {
    assert!(!FishId::Bubbles.is_plugin());
    assert!(plugin("coral").is_plugin());
    assert_eq!(FishId::Bubbles.pond_index(), 0);
    assert_eq!(FishId::Marina.pond_index(), 1);
    assert_eq!(FishId::Gill.pond_index(), 2);
    assert_eq!(plugin("coral").pond_index(), usize::MAX);
    assert_eq!(FishId::Bubbles.name(), "Bubbles");
    assert_eq!(FishId::Marina.name(), "Marina");
    assert_eq!(FishId::Gill.name(), "Gill");
    assert_eq!(plugin("coral").name(), "coral");
    assert_eq!(FishId::Bubbles.species(), "Clownfish");
    assert_eq!(FishId::Marina.species(), "Swordfish");
    assert_eq!(FishId::Gill.species(), "Pufferfish");
    assert_eq!(plugin("coral").species(), "Fish");
    assert!(FishId::Bubbles.description().starts_with("A cheerful clownfish"));
    assert!(FishId::Marina.description().starts_with("An elegant swordfish"));
    assert!(FishId::Gill.description().starts_with("A shy pufferfish"));
    assert_eq!(plugin("coral").description(), "A mysterious fish.");
}

#[test]
fn fish_id_same_as_agrees_with_eq() {
    let ids = vec![FishId::Bubbles, FishId::Marina, FishId::Gill, plugin("a"), plugin("b")];
    for x in &ids {
        for y in &ids {
            assert_eq!(x.same_as(y), x == y);
        }
        assert_eq!(&x.copy(), x);
    }
}

#[test]
fn fish_id_with_registry() {
    let registry = registry_with(vec![("coral", "Coral", "Kelp Pond")]);
    let all = FishId::all_with_plugins(&registry);
    assert_eq!(all, vec![FishId::Bubbles, FishId::Marina, FishId::Gill, plugin("coral")]);
    assert_eq!(FishId::builtin(), vec![FishId::Bubbles, FishId::Marina, FishId::Gill]);
    assert_eq!(FishId::Bubbles.name_with_registry(&registry), "Bubbles");
    assert_eq!(plugin("coral").name_with_registry(&registry), "Coral");
    assert_eq!(plugin("ghost").name_with_registry(&registry), "ghost");
    assert_eq!(FishId::Gill.species_with_registry(&registry), "Pufferfish");
    assert_eq!(plugin("coral").species_with_registry(&registry), "Seahorse");
    assert_eq!(plugin("ghost").species_with_registry(&registry), "Fish");
    assert_eq!(plugin("coral").description_with_registry(&registry), "From a script.");
    assert_eq!(plugin("ghost").description_with_registry(&registry), "A mysterious fish.");
    assert_eq!(FishId::Marina.description_with_registry(&registry), FishId::Marina.description());
}

#[test]
fn fish_size_labels() {
    assert_eq!(FishSize::Small.label(), "Small");
    assert_eq!(FishSize::Medium.label(), "Medium");
    assert_eq!(FishSize::Large.label(), "Large");
}

#[test]
fn relationship_labels_at_their_bounds() {
    assert_eq!(relationship_label(i32::MIN), "Stranger");
    assert_eq!(relationship_label(0), "Stranger");
    assert_eq!(relationship_label(1), "Acquaintance");
    assert_eq!(relationship_label(5), "Acquaintance");
    assert_eq!(relationship_label(6), "Friend");
    assert_eq!(relationship_label(15), "Friend");
    assert_eq!(relationship_label(16), "Close Friend");
    assert_eq!(relationship_label(25), "Close Friend");
    assert_eq!(relationship_label(26), "Romantic Interest");
    assert_eq!(relationship_label(40), "Romantic Interest");
    assert_eq!(relationship_label(41), "Soulmate");
    assert_eq!(relationship_label(i32::MAX), "Soulmate");
}

#[test]
fn new_player_state() {
    let player = PlayerState::new();
    assert!(player.fish_collection.is_empty());
    assert_eq!(player.current_day, 1);
    assert_eq!(player.dates_completed, 0);
    assert_eq!(player.achievements.count(), 0);
    assert_eq!(player.relationship(&FishId::Bubbles), 0);
    assert_eq!(player.date_count(&FishId::Bubbles), 0);
    assert!(!player.has_won());
    assert!(player.closest_fish().is_none());
    let other = PlayerState::default();
    assert_eq!(other.current_day, 1);
    assert!(other.fish_collection.is_empty());
}

#[test]
fn catches_are_counted() {
    let mut player = PlayerState::new();
    assert!(!player.has_caught(&FishId::Bubbles));
    player.add_catch(FishId::Bubbles, "Sunny Shallows", FishSize::Small);
    player.add_catch(plugin("coral"), "Kelp Pond", FishSize::Large);
    player.add_catch(FishId::Bubbles, "Sunny Shallows", FishSize::Medium);
    assert!(player.has_caught(&FishId::Bubbles));
    assert!(player.has_caught(&plugin("coral")));
    assert!(!player.has_caught(&plugin("pearl")));
    assert!(!player.has_caught(&FishId::Gill));
    assert_eq!(player.catch_count(&FishId::Bubbles), 2);
    assert_eq!(player.catch_count(&plugin("coral")), 1);
    assert_eq!(player.catch_count(&FishId::Marina), 0);
    assert_eq!(player.fish_collection[1].caught_at, "Kelp Pond");
    assert_eq!(player.fish_collection[1].size, FishSize::Large);
    assert_eq!(player.fish_collection[2].id, FishId::Bubbles);
}

#[test]
fn affection_does_not_fall_below_zero() {
    let mut player = PlayerState::new();
    player.add_affection(FishId::Marina, 5);
    assert_eq!(player.relationship(&FishId::Marina), 5);
    player.add_affection(FishId::Marina, -2);
    assert_eq!(player.relationship(&FishId::Marina), 3);
    player.add_affection(FishId::Marina, -10);
    assert_eq!(player.relationship(&FishId::Marina), 0);
    player.add_affection(FishId::Gill, -1);
    assert_eq!(player.relationship(&FishId::Gill), 0);
    player.add_affection(plugin("coral"), i32::MAX);
    assert_eq!(player.relationship(&plugin("coral")), i32::MAX);
    assert_eq!(player.relationship(&FishId::Bubbles), 0);
}

#[test]
fn dates_are_counted_per_fish() {
    let mut player = PlayerState::new();
    player.increment_date_count(FishId::Gill);
    player.increment_date_count(FishId::Gill);
    player.increment_date_count(plugin("coral"));
    assert_eq!(player.date_count(&FishId::Gill), 2);
    assert_eq!(player.date_count(&plugin("coral")), 1);
    assert_eq!(player.date_count(&FishId::Bubbles), 0);
}

#[test]
fn winning_takes_a_soulmate() {
    let mut player = PlayerState::new();
    player.add_affection(FishId::Bubbles, 40);
    player.add_affection(FishId::Gill, 12);
    assert!(!player.has_won());
    assert_eq!(after_result(&player), AfterResult::MainMenu);
    assert_eq!(player.closest_fish(), Some((FishId::Bubbles, 40)));
    player.add_affection(FishId::Gill, 29);
    assert!(player.has_won());
    assert_eq!(after_result(&player), AfterResult::GameOver);
    assert_eq!(player.closest_fish(), Some((FishId::Gill, 41)));
}

#[test]
fn closest_fish_has_the_highest_score() {
    let mut player = PlayerState::new();
    player.add_affection(FishId::Bubbles, 7);
    player.add_affection(plugin("coral"), 9);
    player.add_affection(FishId::Marina, 9);
    player.add_affection(FishId::Gill, 2);
    let (id, score) = player.closest_fish().unwrap();
    assert_eq!(score, 9);
    assert!(id == plugin("coral") || id == FishId::Marina);
}

#[test]
fn fish_table_is_a_map() {
    let mut table: FishTable<u32> = FishTable::new();
    assert_eq!(table.len(), 0);
    assert_eq!(table.get(&FishId::Bubbles), None);
    table.set(FishId::Bubbles, 1);
    table.set(plugin("a"), 2);
    table.set(FishId::Bubbles, 3);
    assert_eq!(table.len(), 2);
    assert_eq!(table.get(&FishId::Bubbles), Some(3));
    assert_eq!(table.get(&plugin("a")), Some(2));
    assert_eq!(table.get(&plugin("b")), None);
    assert_eq!(table.key_at(0), &FishId::Bubbles);
    assert_eq!(table.key_at(1), &plugin("a"));
}

#[test]
fn menu_cursor_stops_at_both_ends() {
    let mut menu = SelectionMenu::new(vec!["a".to_string(), "b".to_string(), "c".to_string()]);
    assert_eq!(menu.selected_index(), 0);
    menu.move_up();
    assert_eq!(menu.selected_index(), 0);
    menu.move_down();
    assert_eq!(menu.selected_index(), 1);
    menu.move_down();
    assert_eq!(menu.selected_index(), 2);
    menu.move_down();
    assert_eq!(menu.selected_index(), 2);
    menu.move_up();
    assert_eq!(menu.selected_index(), 1);
    assert_eq!(menu.items.len(), 3);
    let mut empty = SelectionMenu::new(Vec::new());
    empty.move_down();
    empty.move_up();
    assert_eq!(empty.selected_index(), 0);
}

#[test]
fn art_follows_mood() {
    let registry = registry_with(vec![("coral", "Coral", "Kelp Pond")]);
    let happy = fish_art(&FishId::Bubbles, 21, &registry);
    let neutral = fish_art(&FishId::Bubbles, 20, &registry);
    let shy = fish_art(&FishId::Bubbles, 10, &registry);
    assert_eq!(happy, fish_dating::ascii_art::BUBBLES_HAPPY);
    assert_eq!(neutral, fish_dating::ascii_art::BUBBLES_ART);
    assert_eq!(neutral, fish_art(&FishId::Bubbles, 11, &registry));
    assert_eq!(shy, fish_dating::ascii_art::BUBBLES_SHY);
    assert_eq!(fish_art(&FishId::Marina, 30, &registry), fish_dating::ascii_art::MARINA_HAPPY);
    assert_eq!(fish_art(&FishId::Marina, 15, &registry), fish_dating::ascii_art::MARINA_ART);
    assert_eq!(fish_art(&FishId::Marina, 0, &registry), fish_dating::ascii_art::MARINA_ANGRY);
    assert_eq!(fish_art(&FishId::Gill, 30, &registry), fish_dating::ascii_art::GILL_ART);
    assert_eq!(fish_art(&FishId::Gill, 15, &registry), fish_dating::ascii_art::GILL_SHY);
    assert_eq!(fish_art(&FishId::Gill, 0, &registry), fish_dating::ascii_art::GILL_PUFFED);
    assert_eq!(fish_art(&plugin("coral"), 25, &registry), ":)");
    assert_eq!(fish_art(&plugin("coral"), 12, &registry), ":|");
    assert_eq!(fish_art(&plugin("coral"), 3, &registry), ":(");
    assert_eq!(fish_art(&plugin("ghost"), 25, &registry), "  ><(((o>");
}

#[test]
fn places_and_small_art() {
    let registry = registry_with(vec![("coral", "Coral", "Kelp Pond")]);
    assert_eq!(date_location(&FishId::Bubbles, &registry), "Coral Cafe");
    assert_eq!(date_location(&FishId::Marina, &registry), "Moonlit Reef");
    assert_eq!(date_location(&FishId::Gill, &registry), "Sunken Ship");
    assert_eq!(date_location(&plugin("coral"), &registry), "Kelp Garden");
    assert_eq!(date_location(&plugin("ghost"), &registry), "The Deep");
    assert_eq!(date_scene_art(&FishId::Bubbles, &registry), fish_dating::ascii_art::CORAL_CAFE);
    assert_eq!(date_scene_art(&FishId::Marina, &registry), fish_dating::ascii_art::MOONLIT_REEF);
    assert_eq!(date_scene_art(&FishId::Gill, &registry), fish_dating::ascii_art::SUNKEN_SHIP);
    assert_eq!(date_scene_art(&plugin("coral"), &registry), "###");
    assert_eq!(
        date_scene_art(&plugin("ghost"), &registry),
        "  ~~~~~~~~\n  ~ ~ ~ ~ ~\n  ~~~~~~~~"
    );
    assert_eq!(fish_small_art(&FishId::Bubbles, &registry), "  ><(((o>");
    assert_eq!(fish_small_art(&FishId::Marina, &registry), " --====>");
    assert_eq!(fish_small_art(&FishId::Gill, &registry), "  <o))><");
    assert_eq!(fish_small_art(&plugin("coral"), &registry), "~");
    assert_eq!(fish_small_art(&plugin("ghost"), &registry), "><>");
}

#[test]
fn secret_is_moon() {
    let mut secret = SecretSequence::new();
    assert!(!secret.feed(Key::KeyM));
    assert!(!secret.feed(Key::KeyO));
    assert!(!secret.feed(Key::KeyO));
    assert!(secret.feed(Key::KeyN));
    assert!(!secret.feed(Key::KeyN));
    for key in [Key::KeyM, Key::KeyO, Key::Enter, Key::KeyM, Key::KeyO, Key::KeyO] {
        assert!(!secret.feed(key));
    }
    assert!(secret.feed(Key::KeyN));
}

#[test]
fn secret_restarts_on_m() {
    let mut secret = SecretSequence::new();
    for key in [Key::KeyM, Key::KeyO, Key::KeyM, Key::KeyO, Key::KeyO] {
        assert!(!secret.feed(key));
    }
    assert!(secret.feed(Key::KeyN));
    for key in [Key::KeyM, Key::KeyO, Key::KeyO] {
        assert!(!secret.feed(key));
    }
    secret.reset();
    assert!(!secret.feed(Key::KeyN));
}

#[test]
fn moon_battle_runs_its_phases() {
    let mut battle = MoonBattleState::new();
    assert_eq!(battle.phase(), Phase::Stargazing);
    assert_eq!(battle.update(None), BattleAction::Stay);
    assert_eq!(battle.update(Some(Key::KeyA)), BattleAction::Stay);
    assert_eq!(battle.update(Some(Key::Enter)), BattleAction::NextPhase { shake: false });
    assert_eq!(battle.phase(), Phase::Lasso);
    assert_eq!(battle.update(Some(Key::Space)), BattleAction::NextPhase { shake: false });
    assert_eq!(battle.phase(), Phase::Capture);
    assert_eq!(battle.update(Some(Key::ArrowRight)), BattleAction::NextPhase { shake: true });
    assert_eq!(battle.phase(), Phase::MoonFalls);
    assert_eq!(battle.update(Some(Key::ArrowDown)), BattleAction::NextPhase { shake: false });
    assert_eq!(battle.phase(), Phase::DrawSwords);
    assert_eq!(battle.update(Some(Key::Enter)), BattleAction::NextPhase { shake: true });
    assert_eq!(battle.phase(), Phase::Clash(0));
    assert_eq!(battle.update(Some(Key::Enter)), BattleAction::NextPhase { shake: true });
    assert_eq!(battle.phase(), Phase::Clash(1));
    battle.update(Some(Key::Enter));
    assert_eq!(battle.phase(), Phase::Clash(2));
    battle.update(Some(Key::Enter));
    assert_eq!(battle.phase(), Phase::Clash(0));
    assert!(!battle.take_victory_flag());
    battle.update(Some(Key::Enter));
    assert_eq!(battle.phase(), Phase::Victory);
    assert!(battle.take_victory_flag());
    assert!(!battle.take_victory_flag());
    assert_eq!(battle.update(Some(Key::Enter)), BattleAction::Leave);
    assert_eq!(battle.phase(), Phase::Victory);
}

#[test]
fn moon_battle_can_be_left() {
    let mut battle = MoonBattleState::new();
    assert_eq!(battle.update(Some(Key::Escape)), BattleAction::Leave);
    assert_eq!(battle.phase(), Phase::Stargazing);
}

#[test]
fn ponds_follow_the_registry() {
    let registry = registry_with(vec![("coral", "Coral", "Kelp Pond"), ("pearl", "Pearl", "Shell Bay")]);
    assert_eq!(pond_name_at(0, &registry), "Sunny Shallows");
    assert_eq!(pond_name_at(1, &registry), "Misty Depths");
    assert_eq!(pond_name_at(2, &registry), "Crystal Cove");
    assert_eq!(pond_name_at(3, &registry), "Kelp Pond");
    assert_eq!(pond_name_at(4, &registry), "Shell Bay");
    assert_eq!(pond_name_at(5, &registry), "Unknown Pond");
    assert_eq!(pond_name_at(usize::MAX, &registry), "Unknown Pond");
    let mut ponds = PondSelectState::new(&registry);
    assert_eq!(
        ponds.menu().items,
        vec!["Sunny Shallows", "Misty Depths", "Crystal Cove", "Kelp Pond", "Shell Bay"]
    );
    assert_eq!(ponds.selected_fish(), Some(&FishId::Bubbles));
    assert!(matches!(ponds.update(Key::ArrowUp), PondAction::Stay));
    assert!(matches!(ponds.update(Key::KeyS), PondAction::Stay));
    assert!(matches!(ponds.update(Key::Other), PondAction::Stay));
    match ponds.update(Key::Enter) {
        PondAction::Cast { fish_id, pond_index } => {
            assert_eq!(fish_id, FishId::Marina);
            assert_eq!(pond_index, 1);
        }
        other => panic!("expected a cast, got {:?}", other),
    }
    for _ in 0..10 {
        ponds.update(Key::ArrowDown);
    }
    match ponds.update(Key::Space) {
        PondAction::Cast { fish_id, pond_index } => {
            assert_eq!(fish_id, plugin("pearl"));
            assert_eq!(pond_index, 4);
        }
        other => panic!("expected a cast, got {:?}", other),
    }
    ponds.update(Key::KeyW);
    assert_eq!(ponds.selected_fish(), Some(&plugin("coral")));
    assert!(matches!(ponds.update(Key::Escape), PondAction::Back));
}

#[test]
fn menus_and_commands() {
    assert_eq!(start_menu_items(false), vec!["Go Fishing", "Quit"]);
    assert_eq!(
        start_menu_items(true),
        vec!["Go Fishing", "Go on a Date", "Fish Collection", "New Game", "Quit"]
    );
    assert_eq!(main_menu_items(false), vec!["Go Fishing", "Save Game", "Quit"]);
    assert_eq!(
        main_menu_items(true),
        vec!["Go Fishing", "Go on a Date", "Fish Collection", "Save Game", "Quit"]
    );
    assert_eq!(menu_command("Go Fishing"), MenuCommand::GoFishing);
    assert_eq!(menu_command("Go on a Date"), MenuCommand::GoOnDate);
    assert_eq!(menu_command("Fish Collection"), MenuCommand::FishCollection);
    assert_eq!(menu_command("Save Game"), MenuCommand::SaveGame);
    assert_eq!(menu_command("New Game"), MenuCommand::NewGame);
    assert_eq!(menu_command("Quit"), MenuCommand::Quit);
    assert_eq!(menu_command("quit"), MenuCommand::Nothing);
}

#[test]
fn caught_fish_can_be_dated() {
    let registry = registry_with(vec![("coral", "Coral", "Kelp Pond"), ("pearl", "Pearl", "Shell Bay")]);
    let mut player = PlayerState::new();
    assert!(dateable_fish(&player, &registry).is_empty());
    assert!(date_menu_items(&player, &registry).is_empty());
    player.add_catch(plugin("pearl"), "Shell Bay", FishSize::Small);
    player.add_catch(FishId::Gill, "Crystal Cove", FishSize::Small);
    player.add_catch(plugin("ghost"), "Nowhere", FishSize::Small);
    player.add_affection(FishId::Gill, 17);
    assert_eq!(dateable_fish(&player, &registry), vec![FishId::Gill, plugin("pearl")]);
    assert_eq!(
        date_menu_items(&player, &registry),
        vec!["Gill (Pufferfish) - Close Friend [17]", "Pearl (Seahorse) - Stranger [0]"]
    );
}

#[test]
fn catch_is_committed() {
    let registry = registry_with(vec![("coral", "Coral", "Kelp Pond")]);
    let mut player = PlayerState::new();
    commit_catch(&mut player, &plugin("coral"), 3, FishSize::Large, &registry);
    commit_catch(&mut player, &FishId::Bubbles, 0, FishSize::Small, &registry);
    commit_catch(&mut player, &FishId::Bubbles, 9, FishSize::Medium, &registry);
    assert_eq!(player.fish_collection.len(), 3);
    assert_eq!(player.fish_collection[0].caught_at, "Kelp Pond");
    assert_eq!(player.fish_collection[1].caught_at, "Sunny Shallows");
    assert_eq!(player.fish_collection[2].caught_at, "Unknown Pond");
    assert_eq!(player.relationship(&plugin("coral")), 1);
    assert_eq!(player.relationship(&FishId::Bubbles), 2);
}

#[test]
fn date_is_committed() {
    let mut player = PlayerState::new();
    assert!(date_fits(&player, &FishId::Marina, 7));
    commit_date(&mut player, &FishId::Marina, 7);
    commit_date(&mut player, &FishId::Marina, -3);
    commit_date(&mut player, &FishId::Gill, 0);
    assert_eq!(player.relationship(&FishId::Marina), 4);
    assert_eq!(player.date_count(&FishId::Marina), 2);
    assert_eq!(player.date_count(&FishId::Gill), 1);
    assert_eq!(player.dates_completed, 3);
    assert_eq!(player.current_day, 4);
    player.add_affection(FishId::Bubbles, i32::MAX);
    assert!(!date_fits(&player, &FishId::Bubbles, 1));
    assert!(date_fits(&player, &FishId::Bubbles, 0));
    assert!(date_fits(&player, &FishId::Bubbles, i32::MIN));
    player.current_day = u32::MAX;
    assert!(!date_fits(&player, &FishId::Gill, 1));
}

#[test]
fn achievements_catalog() {
    assert_eq!(total_count(), 12);
    assert_eq!(achievement_at(0).id, "ACH_FIRST_CATCH");
    assert_eq!(achievement_at(0).name, "Gone Fishin'");
    assert_eq!(achievement_at(11).id, "ACH_PLUGIN_FISH");
    let hidden: Vec<&str> =
        (0..total_count()).map(|i| achievement_at(i)).filter(|d| d.hidden).map(|d| d.id).collect();
    assert_eq!(hidden, vec![ids::MOON_BATTLE, ids::MOON_VICTORY]);
    let def = find_achievement(ids::SOULMATE).unwrap();
    assert_eq!(def.name, "Fish Soulmate");
    assert_eq!(def.description, "Reach soulmate status with any fish.");
    assert!(find_achievement("ACH_NONE").is_none());
    for i in 0..total_count() {
        assert_eq!(find_achievement(achievement_at(i).id).unwrap().name, achievement_at(i).name);
    }
}

#[test]
fn unlocking_happens_once() {
    let mut unlocked = UnlockedAchievements::new();
    assert!(!unlocked.contains(ids::BIG_CATCH));
    assert!(!on_catch_size(FishSize::Medium, &mut unlocked));
    assert!(!on_catch_size(FishSize::Small, &mut unlocked));
    assert_eq!(unlocked_count(&unlocked), 0);
    assert!(on_catch_size(FishSize::Large, &mut unlocked));
    assert!(!on_catch_size(FishSize::Large, &mut unlocked));
    assert!(unlocked.contains(ids::BIG_CATCH));
    assert!(on_moon_battle_started(&mut unlocked));
    assert!(!on_moon_battle_started(&mut unlocked));
    assert!(on_moon_victory(&mut unlocked));
    assert!(!on_moon_victory(&mut unlocked));
    assert_eq!(unlocked_count(&unlocked), 3);
    assert_eq!(unlocked.ids(), &vec![ids::BIG_CATCH, ids::MOON_BATTLE, ids::MOON_VICTORY]);
    assert!(unlocked.unlock("custom"));
    assert!(!unlocked.unlock("custom"));
}

#[test]
fn achievements_follow_the_state() {
    let registry = registry_with(vec![("coral", "Coral", "Kelp Pond")]);
    let mut player = PlayerState::new();
    assert!(find_due(&player, &registry).is_empty());
    assert!(check_state(&mut player, &registry).is_empty());
    player.add_catch(FishId::Bubbles, "Sunny Shallows", FishSize::Small);
    assert_eq!(check_state(&mut player, &registry), vec![ids::FIRST_CATCH]);
    assert!(check_state(&mut player, &registry).is_empty());
    player.add_catch(FishId::Marina, "Misty Depths", FishSize::Small);
    player.add_catch(FishId::Gill, "Crystal Cove", FishSize::Small);
    assert!(check_state(&mut player, &registry).is_empty());
    player.add_catch(plugin("coral"), "Kelp Pond", FishSize::Small);
    player.dates_completed = 1;
    assert_eq!(
        check_state(&mut player, &registry),
        vec![ids::CATCH_ALL, ids::PLUGIN_FISH, ids::FIRST_DATE]
    );
    player.dates_completed = 10;
    player.current_day = 30;
    for id in FishId::all_with_plugins(&registry) {
        player.add_affection(id, 6);
    }
    assert_eq!(check_state(&mut player, &registry), vec![ids::DATE_10, ids::ALL_FRIENDS, ids::DAY_30]);
    player.add_affection(FishId::Gill, 35);
    for _ in 0..46 {
        player.add_catch(FishId::Gill, "Crystal Cove", FishSize::Small);
    }
    assert_eq!(
        find_due(&player, &registry),
        vec![
            ids::FIRST_CATCH,
            ids::CATCH_50,
            ids::CATCH_ALL,
            ids::PLUGIN_FISH,
            ids::FIRST_DATE,
            ids::DATE_10,
            ids::SOULMATE,
            ids::ALL_FRIENDS,
            ids::DAY_30
        ]
    );
    assert_eq!(check_state(&mut player, &registry), vec![ids::CATCH_50, ids::SOULMATE]);
    assert_eq!(player.achievements.count(), 9);
}

#[test]
fn all_friends_needs_everyone() {
    let registry = registry_with(vec![("coral", "Coral", "Kelp Pond")]);
    let mut player = PlayerState::new();
    player.add_affection(FishId::Bubbles, 6);
    player.add_affection(FishId::Marina, 6);
    player.add_affection(FishId::Gill, 6);
    assert!(find_due(&player, &registry).is_empty());
    assert_eq!(find_due(&player, &FishRegistry::new()), vec![ids::ALL_FRIENDS]);
    player.add_affection(plugin("coral"), 5);
    assert!(find_due(&player, &registry).is_empty());
}

#[test]
fn words_are_wrapped() {
    assert_eq!(word_wrap("the quick brown fox", 9), vec!["the quick", "brown fox"]);
    assert_eq!(word_wrap("the quick brown fox", 10), vec!["the quick", "brown fox"]);
    assert_eq!(word_wrap("the quick brown fox", 8), vec!["the", "quick", "brown", "fox"]);
    assert_eq!(word_wrap("the quick brown fox", 100), vec!["the quick brown fox"]);
    assert_eq!(word_wrap("  spaced \n out\ttext  ", 11), vec!["spaced out", "text"]);
    assert_eq!(word_wrap("extraordinary day", 5), vec!["extraordinary", "day"]);
    assert_eq!(word_wrap("a b", 0), vec!["a", "b"]);
    assert_eq!(word_wrap("", 10), vec![""]);
    assert_eq!(word_wrap("   ", 10), vec![""]);
    let words = vec!["ab".to_string(), "cd".to_string(), "".to_string(), "ef".to_string()];
    assert_eq!(wrap_words(&words, 5), vec!["ab cd", "ef"]);
    assert_eq!(wrap_words(&words, 6), vec!["ab cd ", "ef"]);
    assert_eq!(wrap_words(&Vec::new(), 5), vec![""]);
}

#[test]
fn long_text_is_truncated() {
    assert_eq!(truncate_to_width("hello", 5), "hello");
    assert_eq!(truncate_to_width("hello", 10), "hello");
    assert_eq!(truncate_to_width("hello world", 8), "hello...");
    assert_eq!(truncate_to_width("hello world", 3), "...");
    assert_eq!(truncate_to_width("", 0), "");
}

#[test]
fn boxes_are_made_of_rows() {
    assert_eq!(repeat_text("ab", 3), "ababab");
    assert_eq!(repeat_text("ab", 0), "");
    assert_eq!(box_lines(5, 3), vec!["+---+", "|   |", "+---+"]);
    assert_eq!(box_lines(4, 4), vec!["+--+", "|  |", "|  |", "+--+"]);
    assert_eq!(box_lines(6, 2), vec!["+----+", "+----+"]);
    assert_eq!(box_lines(3, 1), vec!["+-+"]);
    assert_eq!(box_lines(3, 0), vec!["+-+"]);
    assert_eq!(box_lines(1, 3), vec!["++", "||", "++"]);
    assert_eq!(box_lines(0, 2), vec!["++", "++"]);
}

#[test]
fn hearts_fill_with_the_score() {
    assert_eq!(full_hearts(0, 5), 0);
    assert_eq!(full_hearts(9, 5), 0);
    assert_eq!(full_hearts(10, 5), 1);
    assert_eq!(full_hearts(49, 5), 4);
    assert_eq!(full_hearts(50, 5), 5);
    assert_eq!(full_hearts(i32::MAX, 5), 5);
    assert_eq!(full_hearts(-5, 5), 0);
    assert_eq!(full_hearts(-25, 5), -2);
    assert_eq!(full_hearts(i32::MIN, 5), i32::MIN / 10);
    assert_eq!(full_hearts(30, -1), -1);
}

#[test]
fn menu_lines_mark_the_cursor() {
    let mut menu = SelectionMenu::new(vec!["New".to_string(), "Load".to_string(), "Quit".to_string()]);
    assert_eq!(menu_lines(&menu), vec!["> New", "  Load", "  Quit"]);
    menu.move_down();
    assert_eq!(menu_lines(&menu), vec!["  New", "> Load", "  Quit"]);
    menu.selected = 7;
    assert_eq!(menu_lines(&menu), vec!["  New", "  Load", "  Quit"]);
}

#[test]
fn minigame_keys() {
    assert_eq!(pull(Some(Key::KeyA)), Pull::Left);
    assert_eq!(pull(Some(Key::ArrowLeft)), Pull::Left);
    assert_eq!(pull(Some(Key::KeyD)), Pull::Right);
    assert_eq!(pull(Some(Key::ArrowRight)), Pull::Right);
    assert_eq!(pull(Some(Key::Enter)), Pull::Neither);
    assert_eq!(pull(None), Pull::Neither);
    for phase in [MinigamePhase::Casting, MinigamePhase::Waiting, MinigamePhase::Reeling] {
        assert_eq!(key_action(phase, false, Some(Key::Escape)), MinigameAction::BackToPonds);
        assert_eq!(key_action(phase, true, Some(Key::Enter)), MinigameAction::Stay);
        assert_eq!(key_action(phase, true, None), MinigameAction::Stay);
    }
    assert_eq!(key_action(MinigamePhase::Result, true, Some(Key::Enter)), MinigameAction::ShowCatch);
    assert_eq!(key_action(MinigamePhase::Result, true, Some(Key::Space)), MinigameAction::ShowCatch);
    assert_eq!(key_action(MinigamePhase::Result, false, Some(Key::Enter)), MinigameAction::BackToPonds);
    assert_eq!(key_action(MinigamePhase::Result, true, Some(Key::Escape)), MinigameAction::BackToPonds);
    assert_eq!(key_action(MinigamePhase::Result, true, Some(Key::KeyA)), MinigameAction::Stay);
    assert_eq!(key_action(MinigamePhase::Result, true, None), MinigameAction::Stay);
}

#[test]
fn collection_scrolls() {
    assert_eq!(update_collection(0, Key::ArrowUp), (0, false));
    assert_eq!(update_collection(3, Key::KeyW), (2, false));
    assert_eq!(update_collection(3, Key::ArrowDown), (4, false));
    assert_eq!(update_collection(0, Key::KeyS), (1, false));
    assert_eq!(update_collection(3, Key::Escape), (3, true));
    assert_eq!(update_collection(3, Key::Enter), (3, true));
    assert_eq!(update_collection(3, Key::Space), (3, false));
}
