//! The texts and pictures of the game: characters, places and scenes.

use vstd::prelude::*;

verus! {

pub const TITLE_ART: &'static str = r#"
             _ _                          
   ___ _   _| | |_      _ __   __ _ _ __   __ _ 
  / __| | | | | __|    | '_ \ / _` | '_ \ / _` |
 | (__| |_| | | |_     | |_) | (_| | |_) | (_| |
  \___|\__,_|_|\__|____| .__/ \__,_| .__/ \__,_|
    ______ _     _|_____|_|  ____  |_|  _   _
   |  ____(_)   | |     |  _ \      | | (_)
   | |__   _ ___| |__   | | | | __ _| |_ _ _ __   __ _
   |  __| | / __| '_ \  | | | |/ _` | __| | '_ \ / _` |
   | |    | \__ \ | | | | |_| | (_| | |_| | | | | (_| |
   |_|    |_|___/_| |_| |____/ \__,_|\__|_|_| |_|\__, |
      _____ _                 _       _            __/ |
     / ____(_)               | |     | |          |___/
    | (___  _ _ __ ___  _   _| | __ _| |_ ___  _ __
     \___ \| | '_ ` _ \| | | | |/ _` | __/ _ \| '__|
     ____) | | | | | | | |_| | | (_| | || (_) | |
    |_____/|_|_| |_| |_|\__,_|_|\__,_|\__\___/|_|
"#;

pub const SUBTITLE: &'static str = "~ Catch fish. Date fish. Find love. ~";

pub const MENU_FISH: &'static str = r#"
           o  o
      ___/|    |
 ><> /    |    |  ><>
     \____|    |
          |    |
     ><>  |    |  o  o
    ~~~~~~|~~~~|~~~~~~~~~
   ~~~~~~~|~~~~|~~~~~~~~~~
  ~~~~~~~~~\~~/ ~~~~~~~~~~~
"#;


pub const BUBBLES_SMALL: &'static str = r#"  ><(((o>"#;
pub const MARINA_SMALL: &'static str = r#" --====>"#;
pub const GILL_SMALL: &'static str = r#"  <o))><"#;

pub const BUBBLES_ART: &'static str = r#"
       .----.
      / o  o \
     |  .__.  |
     |  |  |  |
      \ '--' /
       '----'
       /|||||\
"#;

pub const BUBBLES_HAPPY: &'static str = r#"
       .----.
      / ^  ^ \
     |  .__.  |
     |  |><|  |
      \ '--' /
       '----'
       /|||||\
"#;

pub const BUBBLES_SHY: &'static str = r#"
       .----.
      / -  - \
     |  .__.  |
     |  |..|  |
      \ '--' /
       '----'
       /|||||\
"#;

pub const MARINA_ART: &'static str = r#"
            _____
    ,------'     '-----.
   /  o               /
  |    ___     ___   <
   \      '---'    \  \
    '-------.------'   |
             \________/
"#;

pub const MARINA_HAPPY: &'static str = r#"
            _____
    ,------'     '-----.
   /  ^               /
  |    ___     ___   <
   \      '---'    \  \
    '-------.------'   |
             \________/
"#;

pub const MARINA_ANGRY: &'static str = r#"
            _____
    ,------'     '-----.
   / >/               /
  |    ___     ___   <
   \      '---'    \  \
    '-------.------'   |
             \________/
"#;

pub const GILL_ART: &'static str = r#"
      .---.
     / o o \
    |   ~   |
     \ ___ /
      '---'
"#;

pub const GILL_PUFFED: &'static str = r#"
    .--------.
   /  O    O  \
  |            |
  |     ~~     |
  |            |
   \  .----.  /
    '--------'
"#;

pub const GILL_SHY: &'static str = r#"
      .---.
     / - - \
    |   ~   |
     \ ___ /
      '---'
"#;


pub const POND_SCENE: &'static str = r#"
     __|__
    /     \           .
   | () () |    *         .
    \_____/
       |               .
       |     .
  _____|_____________________
 /                           \
|  ~~~  ><>  ~~~ ~~  ><>  ~~  |
|  ~~ ~~  ~~ ><> ~~ ~~  ~~ ~~ |
|  ~~~ ~~  ~~ ~~  ~~~ ><>  ~~ |
 \___________________________/
"#;

pub const CASTING_ART: &'static str = r#"
    O
   /|\  ~*
   / \    \
          |
  ~~~~~~~~|~~~~~~~~~
  ~~ ~~ ~~|~~ ~~ ~~~
  ~~~ ~~ ~|~ ~~ ~~~~
"#;

pub const FISH_ON_LINE: &'static str = r#"
    O     !
   /|\ /--+
   / \    |
          |
  ~~~~~~~~|~~~~~~~~~
  ~~ ~~ ~~|~~ ~~ ~~~
  ~~~ ><(((*~ ~~ ~~~~
"#;

pub const CATCH_SUCCESS: &'static str = r#"
    \O/
     |  ><(((o>
    / \
  ~~~~~~~~~~~~~~~~~~~~~~
  ~~ ~~ ~~ ~~ ~~ ~~ ~~~~
"#;

pub const CATCH_FAIL: &'static str = r#"
    _O_
     |     ><>...
    / \
  ~~~~~~~~~~~~~~~~~~~~~~
  ~~ ~~ ~~ ~~ ~~ ~~ ~~~~
"#;


pub const HOOK_BAR_LEFT: &'static str = "[";
pub const HOOK_BAR_RIGHT: &'static str = "]";
pub const HOOK_BAR_FILL: &'static str = "=";
pub const HOOK_BAR_EMPTY: &'static str = "-";
pub const HOOK_CURSOR: &'static str = "|";
pub const HOOK_ZONE: &'static str = "#";


pub const CORAL_CAFE: &'static str = r#"
  .=====================.
  |   CORAL CAFE        |
  |  ___          ___   |
  | |   |  {~~}  |   |  |
  | | c |  {~~}  | c |  |
  | |___|________|___|  |
  |   []    []    []    |
  '====================='
"#;

pub const MOONLIT_REEF: &'static str = r#"
        *  .  *     *  .
     .    *    .  *
   *   .      *     .  *
  ~~~~~~~~~~~~~~~~~~~~~~~~~~~~
  ~~ /\  ~~  /\ ~~  /\  ~~~~~
  ~ /  \ ~~ /  \ ~ /  \ ~~~~~
  ~/    \~~/    \~/    \~~~~~~
"#;

pub const SUNKEN_SHIP: &'static str = r#"
  ~~~~~~~~~~~~~~~~~~~~~~~~
  ~~  _______________  ~~~
  ~~ /    |     |    \ ~~~
  ~ |     |  X  |     | ~~
  ~ |_____|_____|_____| ~~
  ~~~~~~~~~~~~~~~~~~~~~~~~
  ~~~ ~~ ~~ ~~ ~~ ~~ ~~~~~
"#;


pub const HEART_FULL: &'static str = "<3";
pub const HEART_EMPTY: &'static str = "</3";

pub const DIALOGUE_TOP: &'static str = ".----------------------------------------------------.";
pub const DIALOGUE_BOT: &'static str = "'----------------------------------------------------'";
pub const DIALOGUE_SIDE: &'static str = "|";


pub const POND_NAMES: [&'static str; 3] = ["Sunny Shallows", "Misty Depths", "Crystal Cove"];


pub const CULT_PAPA_STANDING: &'static str = r#"
     ___
    /   \
   | o_o |
    \___/
     /|\
    / | \
     / \
    /   \
"#;

pub const CULT_PAPA_LASSO: &'static str = r#"
     ___          .-~~~-.
    /   \    .--o/       \
   | >_< |  |   \       /
    \___/   '    '-...-'
     /|\  ~~~~>
    / | \
     / \
    /   \
"#;

pub const CULT_PAPA_CAPTURE: &'static str = r#"
             .---.
     ___    / O   \
    /   \  |  ___  |
   | ^_^ | | /   \ |
    \___/  |/     \|
     /|\   '-------'
    / | \     |||
     / \      |||
    /   \  ~~~|||~~~
"#;

pub const MOON_FALLING: &'static str = r#"
        .---.
       / O   \
      |  ___  |      !!!
      | /   \ |
       \     /    WHAT THE--
        '---'
         \
          \
           V
"#;

pub const CULT_PAPA_SWORD: &'static str = r#"
     ___
    /   \
   | >_< |
    \___/       +
     /|\      //
    /*| \   //
     / \ ===
    /   \
"#;

pub const MOON_SWORD: &'static str = r#"
      .---.
     / X_X \
    |  ___  |
    | /   \ |
     \     /
  +   '---'
   \\  /|\
    \\/ | \
  === / \
"#;

pub const DUEL_CLASH_1: &'static str = r#"
     ___                    .---.
    /   \                  / >_< \
   | >_< |        *      |  ___  |
    \___/       * | *     | /   \ |
     /|\      //  *  \\    \     /
    /*| \   //  CLANG! \\   '---'
     / \ ===            === /|\
    /   \                  / | \
"#;

pub const DUEL_CLASH_2: &'static str = r#"
     ___                    .---.
    /   \    ===>>>        / @_@ \
   | o_O |     SLASH!     |  ___  |
    \___/                 | /   \ |
     /|\                   \     /
    /*| \     *  *  *       '---'
     / \   *  SPARKS  *     /|\
    /   \    *  *  *       / | \
"#;

pub const DUEL_CLASH_3: &'static str = r#"
     ___                    .---.
    /   \                  / >o< \
   | 0_0 |     <<<===    |  ___  |
    \___/      PARRY!     | /   \ |
     /|\                   \     /
    / |\     *  *  *       '---'
     / \   *  CLANK  *     /|*\
    /   \    *  *  *       / | \
"#;

pub const CULT_PAPA_VICTORY: &'static str = r#"
         *  *  *  *
     ___   \|/
    /   \  -O-
   | ^_^ | /|\   .---.
    \___/       / x_x \
     /|\       |  ___  |
    /*| \      |       |
     / \        \_____/
    /   \     (defeated)
      CULT_PAPA WINS!
"#;

pub const MOON_NIGHT_SKY: &'static str = r#"
  *       .  *    *       .   *
      *       .---.    *
   .     *   / O   \      .    *
     *      |  ___  |  .     *
  .      *  | /   \ |    .
     .       \     /  *      .
   *     .    '---'       *
  .   *      .    .   *     .
"#;

pub const STARS_ONLY: &'static str = r#"
  *       .  *    *       .   *
      *         .     *
   .     *              .    *
     *               .     *
  .      *              .
     .            *      .
   *     .            *
  .   *      .    .   *     .
"#;


pub const BUBBLES_DESC: &'static str = "A cheerful clownfish who loves puns and always\nlooks on the bright side. Energetic and warm.";
pub const MARINA_DESC: &'static str = "An elegant swordfish with a sharp wit and a\ncompetitive streak. Beneath the edge, she cares.";
pub const GILL_DESC: &'static str = "A shy pufferfish who puffs up when nervous.\nQuiet on the surface, but deeply thoughtful.";

} // verus!
