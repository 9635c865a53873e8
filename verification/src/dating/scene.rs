//! The course of one date.
//!
//! A date walks one conversation. After every step it drains the runner's
//! events, adds up what the conversation did to the affection, and takes
//! over what the runner presents. Drawing and the timing of the text's
//! appearance are left to the caller, who is told what to do by a
//! [`DateAction`].

use crate::data::dialogues::{build_dialogue, date_tree};
use crate::data::fish_id::{FishId, FishIdView};
use crate::dialogue::node::{choices_view, Choice, ChoiceView};
use crate::dialogue::node::{DeltaView, NodeView};
use crate::dialogue::runner::{
    apply_deltas, delta_events, event_seq, DialogueRunner, DialogueState, RunnerView, StateView,
};
use crate::dialogue::variables::{clamp_i32, delta_event, value_of, DialogueEvent, EventView};
use crate::input::Key;
use crate::dialogue::tree::TreeView;
use crate::plugins::registry::FishRegistry;
use crate::ui::menu::{after_down, after_up, SelectionMenu};
use vstd::prelude::*;

verus! {

/// What the caller is to do after a key was handled.
#[derive(Debug, Clone, Copy, PartialEq, Eq, Structural)]
pub enum DateAction {
    /// Nothing.
    Stay,
    /// A new text or prompt is shown: let it appear from its start.
    Restart,
    /// Show the rest of the text at once.
    RevealAll,
    /// The date is over: go on to its result, with the affection gained.
    Finish { affection: i32 },
}

/// The affection gained after one more event: a change of the variable
/// `affection` adds the difference of its new and its old value, kept in the
/// range of `i32`; a change of another variable adds nothing.
pub open spec fn gained_after_event(gained: int, event: EventView) -> int {
    match event {
        EventView::VariableChanged { name, old_value, new_value } => {
            if name == "affection"@ {
                clamp_i32(gained + (new_value - old_value))
            } else {
                gained
            }
        },
    }
}

/// The affection gained after the events, in order.
pub open spec fn gained_after(gained: int, events: Seq<EventView>) -> int
    decreases events.len(),
{
    if events.len() == 0 {
        gained
    } else {
        gained_after_event(gained_after(gained, events.drop_last()), events.last())
    }
}

/// The texts of the options, which are the items of the menu of a choice.
pub open spec fn option_texts(choices: Seq<ChoiceView>) -> Seq<Seq<char>> {
    Seq::new(choices.len(), |i: int| choices[i].text)
}

/// The views of the items of a menu.
pub open spec fn items_view(items: Seq<String>) -> Seq<Seq<char>> {
    Seq::new(items.len(), |i: int| items[i]@)
}

/// A menu, as far as a date is concerned: its items and its cursor.
pub struct MenuView {
    pub items: Seq<Seq<char>>,
    pub selected: int,
}

/// The mathematical value of a date.
pub struct DateView {
    pub fish_id: FishIdView,
    pub runner: RunnerView,
    /// The text or prompt that is shown.
    pub current_text: Seq<char>,
    /// The name of who speaks, empty where nobody is named.
    pub current_speaker: Seq<char>,
    /// The menu of the choice at which the conversation is, if it is at one.
    pub menu: Option<MenuView>,
    pub affection_gained: int,
    pub ended: bool,
}

impl DateView {
    /// A date with `fish_id` at the start of the conversation `tree`.
    pub open spec fn begin(fish_id: FishIdView, tree: TreeView) -> DateView {
        (DateView {
            fish_id,
            runner: RunnerView::start(tree),
            current_text: Seq::empty(),
            current_speaker: Seq::empty(),
            menu: None,
            affection_gained: 0,
            ended: false,
        }).synced()
    }

    /// The date after it caught up with its runner: the pending events are
    /// drained and added up, and what the runner presents is taken over. At
    /// the end of the conversation the date is marked as ended and keeps
    /// what it showed last.
    pub open spec fn synced(self) -> DateView {
        let gained = gained_after(self.affection_gained, self.runner.events);
        let runner = RunnerView { events: Seq::empty(), ..self.runner };
        match runner.state() {
            StateView::Text { speaker, text } => DateView {
                runner,
                current_text: text,
                current_speaker: match speaker {
                    Some(s) => s.display_name,
                    None => Seq::empty(),
                },
                menu: None,
                affection_gained: gained,
                ..self
            },
            StateView::Choices { prompt, choices } => DateView {
                runner,
                current_text: match prompt {
                    Some(p) => p,
                    None => Seq::empty(),
                },
                current_speaker: Seq::empty(),
                menu: Some(MenuView { items: option_texts(choices), selected: 0 }),
                affection_gained: gained,
                ..self
            },
            StateView::End => DateView { runner, affection_gained: gained, ended: true, ..self },
        }
    }

    /// What a caller does after a sync: nothing at the end, and otherwise
    /// let the new text appear from its start.
    pub open spec fn sync_action(self) -> DateAction {
        if self.synced().runner.state() is End {
            DateAction::Stay
        } else {
            DateAction::Restart
        }
    }

    /// The action that ends the date.
    pub open spec fn finish(self) -> DateAction {
        DateAction::Finish { affection: self.affection_gained as i32 }
    }

    /// The date after a key, and what the caller is to do. `revealed` says
    /// whether the current text has appeared in full.
    ///
    /// Once the date has ended, a confirming key finishes it. At a choice,
    /// the cursor keys move the cursor and a confirming key takes the option
    /// under it. At a text, a confirming key shows the rest of a text that
    /// has not appeared in full, and leaves a text that has; escape finishes
    /// the date at once.
    pub open spec fn update(self, key: Option<Key>, revealed: bool) -> (DateView, DateAction) {
        if self.ended {
            if key matches Some(k) && k.is_confirm() {
                (self, self.finish())
            } else {
                (self, DateAction::Stay)
            }
        } else {
            match key {
                None => (self, DateAction::Stay),
                Some(k) => match self.menu {
                    Some(menu) => {
                        if k.is_up() {
                            (
                                DateView {
                                    menu: Some(
                                        MenuView { selected: after_up(menu.selected), ..menu },
                                    ),
                                    ..self
                                },
                                DateAction::Stay,
                            )
                        } else if k.is_down() {
                            (
                                DateView {
                                    menu: Some(
                                        MenuView {
                                            selected: after_down(
                                                menu.selected,
                                                menu.items.len() as int,
                                            ),
                                            ..menu
                                        },
                                    ),
                                    ..self
                                },
                                DateAction::Stay,
                            )
                        } else if k.is_confirm() {
                            let moved = DateView {
                                runner: self.runner.select_choice(menu.selected).0,
                                ..self
                            };
                            (moved.synced(), moved.sync_action())
                        } else {
                            (self, DateAction::Stay)
                        }
                    },
                    None => {
                        if k.is_confirm() {
                            if !revealed {
                                (self, DateAction::RevealAll)
                            } else {
                                let moved = DateView { runner: self.runner.advance().0, ..self };
                                (moved.synced(), moved.sync_action())
                            }
                        } else if k == Key::Escape {
                            (self, self.finish())
                        } else {
                            (self, DateAction::Stay)
                        }
                    },
                },
            }
        }
    }
}

/// A date with one character.
#[derive(Debug)]
pub struct DatingState {
    pub fish_id: FishId,
    runner: DialogueRunner,
    current_text: String,
    current_speaker: String,
    choice_menu: Option<SelectionMenu>,
    affection_gained: i32,
    ended: bool,
}

/// The mathematical value of an optional menu.
pub open spec fn opt_menu_view(menu: Option<SelectionMenu>) -> Option<MenuView> {
    match menu {
        Some(m) => Some(MenuView { items: items_view(m.items@), selected: m.selected as int }),
        None => None,
    }
}

impl View for DatingState {
    type V = DateView;

    closed spec fn view(&self) -> DateView {
        DateView {
            fish_id: self.fish_id@,
            runner: self.runner@,
            current_text: self.current_text@,
            current_speaker: self.current_speaker@,
            menu: opt_menu_view(self.choice_menu),
            affection_gained: self.affection_gained as int,
            ended: self.ended,
        }
    }
}

/// The texts of the options of a choice.
fn choice_texts(choices: &Vec<Choice>) -> (r: Vec<String>)
    ensures
        items_view(r@) == option_texts(choices_view(choices@)),
{
    let mut items: Vec<String> = Vec::new();
    let mut i: usize = 0;
    while i < choices.len()
        invariant
            i <= choices.len(),
            items@.len() == i,
            forall|k: int| 0 <= k < i ==> (#[trigger] items@[k])@ == choices@[k].text@,
        decreases choices.len() - i,
    {
        items.push(choices[i].text.clone());
        i += 1;
    }
    assert(items_view(items@) =~= option_texts(choices_view(choices@)));
    items
}

impl DatingState {
    /// A date with `fish_id`, the one with the number `date_number`, at the
    /// start of its conversation.
    pub fn new(fish_id: FishId, date_number: u32, registry: &FishRegistry) -> (state: DatingState)
        ensures
            state@ == DateView::begin(
                fish_id@,
                date_tree(fish_id@, date_number as int, registry@),
            ),
            state@.affection_gained == 0,
            state@.runner.events.len() == 0,
            state@.balanced(),
    {
        let tree = build_dialogue(&fish_id, date_number, registry);
        let runner = DialogueRunner::new(tree);
        let mut state = DatingState {
            fish_id,
            runner,
            current_text: String::new(),
            current_speaker: String::new(),
            choice_menu: None,
            affection_gained: 0,
            ended: false,
        };
        assert(state@.runner.events =~= Seq::empty());
        state.sync_state();
        state
    }

    /// Catches up with the runner.
    fn sync_state(&mut self) -> (action: DateAction)
        ensures
            final(self)@ == old(self)@.synced(),
            action == old(self)@.sync_action(),
    {
        let ghost start = self@;
        let ghost pending = self@.runner.events;
        assert(pending.take(0) =~= Seq::empty());
        assert(pending.skip(0) =~= pending);
        loop
            invariant
                pending == start.runner.events,
                exists|n: int|
                    0 <= n <= pending.len() && self@ == (DateView {
                        runner: RunnerView { events: pending.skip(n), ..start.runner },
                        affection_gained: gained_after(start.affection_gained, pending.take(n)),
                        ..start
                    }),
            ensures
                self@ == (DateView {
                    runner: RunnerView { events: Seq::empty(), ..start.runner },
                    affection_gained: gained_after(start.affection_gained, pending),
                    ..start
                }),
            decreases self@.runner.events.len(),
        {
            let ghost n = choose|n: int|
                0 <= n <= pending.len() && self@ == (DateView {
                    runner: RunnerView { events: pending.skip(n), ..start.runner },
                    affection_gained: gained_after(start.affection_gained, pending.take(n)),
                    ..start
                });
            match self.runner.poll_event() {
                Some(event) => {
                    proof {
                        assert(pending.skip(n).drop_first() =~= pending.skip(n + 1));
                        assert(pending.take(n + 1).drop_last() =~= pending.take(n));
                        assert(pending.take(n + 1).last() == pending[n]);
                        assert(pending.skip(n)[0] == pending[n]);
                    }
                    match event {
                        DialogueEvent::VariableChanged { name, old_value, new_value } => {
                            if name == "affection".to_owned() {
                                let sum: i64 = self.affection_gained as i64 + (new_value as i64
                                    - old_value as i64);
                                self.affection_gained = if sum < i32::MIN as i64 {
                                    i32::MIN
                                } else if sum > i32::MAX as i64 {
                                    i32::MAX
                                } else {
                                    sum as i32
                                };
                            }
                        },
                    }
                    assert(self@ == (DateView {
                        runner: RunnerView { events: pending.skip(n + 1), ..start.runner },
                        affection_gained: gained_after(start.affection_gained, pending.take(n + 1)),
                        ..start
                    }));
                },
                None => {
                    proof {
                        assert(pending.skip(n).len() == 0);
                        assert(pending.take(n) =~= pending);
                        assert(pending.skip(n) =~= Seq::empty());
                    }
                    break ;
                },
            }
        }
        match self.runner.current() {
            DialogueState::Text { speaker, text } => {
                self.current_speaker = match speaker {
                    Some(s) => s.display_name,
                    None => String::new(),
                };
                self.current_text = text;
                self.choice_menu = None;
                DateAction::Restart
            },
            DialogueState::Choices { prompt, choices } => {
                self.current_text = match prompt {
                    Some(p) => p,
                    None => String::new(),
                };
                self.current_speaker = String::new();
                self.choice_menu = Some(SelectionMenu::new(choice_texts(&choices)));
                DateAction::Restart
            },
            DialogueState::End => {
                self.ended = true;
                DateAction::Stay
            },
        }
    }

    /// The affection that the date has gained so far.
    pub fn affection_gained(&self) -> (r: i32)
        ensures
            r == self@.affection_gained,
    {
        self.affection_gained
    }

    /// Whether the conversation has ended.
    pub fn is_ended(&self) -> (r: bool)
        ensures
            r == self@.ended,
    {
        self.ended
    }

    /// The text or prompt that is shown.
    pub fn current_text(&self) -> (r: &str)
        ensures
            r@ == self@.current_text,
    {
        self.current_text.as_str()
    }

    /// The name of who speaks, empty where nobody is named.
    pub fn current_speaker(&self) -> (r: &str)
        ensures
            r@ == self@.current_speaker,
    {
        self.current_speaker.as_str()
    }

    /// The menu of the choice at which the conversation is, if it is at one.
    pub fn choice_menu(&self) -> (r: &Option<SelectionMenu>)
        ensures
            opt_menu_view(*r) == self@.menu,
    {
        &self.choice_menu
    }

    /// Handles a key. `revealed` says whether the current text has appeared
    /// in full.
    pub fn update(&mut self, key: Option<Key>, revealed: bool) -> (action: DateAction)
        ensures
            (final(self)@, action) == old(self)@.update(key, revealed),
            old(self)@.balanced() ==> final(self)@.balanced(),
    {
        proof {
            if self@.balanced() {
                law_gain_matches_variable(self@, key, revealed);
            }
        }
        if self.ended {
            return match key {
                Some(k) => if k.confirms() {
                    DateAction::Finish { affection: self.affection_gained }
                } else {
                    DateAction::Stay
                },
                None => DateAction::Stay,
            };
        }
        let k = match key {
            Some(k) => k,
            None => {
                return DateAction::Stay;
            },
        };
        let at_choice = self.choice_menu.is_some();
        if at_choice {
            if k.moves_up() {
                let mut menu = self.choice_menu.take().unwrap();
                menu.move_up();
                self.choice_menu = Some(menu);
                DateAction::Stay
            } else if k.moves_down() {
                let mut menu = self.choice_menu.take().unwrap();
                menu.move_down();
                self.choice_menu = Some(menu);
                DateAction::Stay
            } else if k.confirms() {
                let idx = match &self.choice_menu {
                    Some(menu) => menu.selected_index(),
                    None => 0,
                };
                let _ = self.runner.select_choice(idx);
                self.sync_state()
            } else {
                DateAction::Stay
            }
        } else {
            if k.confirms() {
                if !revealed {
                    DateAction::RevealAll
                } else {
                    let _ = self.runner.advance();
                    self.sync_state()
                }
            } else if k == Key::Escape {
                DateAction::Finish { affection: self.affection_gained }
            } else {
                DateAction::Stay
            }
        }
    }
}

impl DateView {
    /// The books balance: once the pending events are added up, the
    /// affection gained is the value of the runner's variable `affection`.
    pub open spec fn balanced(self) -> bool {
        gained_after(self.affection_gained, self.runner.events) == value_of(
            self.runner.variables,
            "affection"@,
        )
    }
}

/// Adding up events that are followed by at most one more.
proof fn lemma_gained_after_append(gained: int, events: Seq<EventView>, more: Option<EventView>)
    ensures
        gained_after(gained, events + event_seq(more)) == match more {
            Some(e) => gained_after_event(gained_after(gained, events), e),
            None => gained_after(gained, events),
        },
{
    match more {
        Some(e) => {
            let all = events + event_seq(more);
            assert(all.drop_last() =~= events);
            assert(all.last() == e);
        },
        None => {
            assert(events + event_seq(more) =~= events);
        },
    }
}

/// Adding deltas keeps the books balanced: the events of the deltas add up
/// to what the deltas did to the variable `affection`.
proof fn lemma_deltas_keep_balance(
    gained: int,
    events: Seq<EventView>,
    vars: Map<Seq<char>, int>,
    deltas: Seq<DeltaView>,
)
    requires
        gained_after(gained, events) == value_of(vars, "affection"@),
    ensures
        gained_after(gained, events + delta_events(vars, deltas)) == value_of(
            apply_deltas(vars, deltas),
            "affection"@,
        ),
    decreases deltas.len(),
{
    if deltas.len() == 0 {
        assert(events + delta_events(vars, deltas) =~= events);
    } else {
        let before = deltas.drop_last();
        let d = deltas.last();
        lemma_deltas_keep_balance(gained, events, vars, before);
        let mid = apply_deltas(vars, before);
        let more = delta_event(mid, d.name, d.delta);
        assert(events + delta_events(vars, deltas) =~= (events + delta_events(vars, before))
            + event_seq(more));
        lemma_gained_after_append(gained, events + delta_events(vars, before), more);
    }
}

/// What a date has gained is what its conversation did to the variable
/// `affection`. The books of a new date balance; every key keeps them
/// balanced; and whenever no event is pending, the affection gained is the
/// value of the variable.
pub proof fn law_gain_matches_variable(d: DateView, key: Option<Key>, revealed: bool)
    requires
        d.balanced(),
    ensures
        d.update(key, revealed).0.balanced(),
        d.synced().balanced(),
        d.synced().affection_gained == value_of(d.runner.variables, "affection"@),
        d.runner.events.len() == 0 ==> d.affection_gained == value_of(
            d.runner.variables,
            "affection"@,
        ),
{
    lemma_sync_keeps_balance(d);
    if !d.ended {
        match key {
            Some(k) => match d.menu {
                Some(menu) => {
                    if !k.is_up() && !k.is_down() && k.is_confirm() {
                        let moved = DateView {
                            runner: d.runner.select_choice(menu.selected).0,
                            ..d
                        };
                        match d.runner.current_node() {
                            Some(NodeView::Choice { choices, .. }) => {
                                if 0 <= menu.selected < choices.len() {
                                    lemma_deltas_keep_balance(
                                        d.affection_gained,
                                        d.runner.events,
                                        d.runner.variables,
                                        choices[menu.selected].deltas,
                                    );
                                }
                            },
                            _ => {},
                        }
                        lemma_sync_keeps_balance(moved);
                    }
                },
                None => {
                    if k.is_confirm() && revealed {
                        let moved = DateView { runner: d.runner.advance().0, ..d };
                        lemma_sync_keeps_balance(moved);
                    }
                },
            },
            None => {},
        }
    }
}

/// Catching up with the runner keeps the books balanced.
proof fn lemma_sync_keeps_balance(d: DateView)
    requires
        d.balanced(),
    ensures
        d.synced().balanced(),
        d.synced().affection_gained == value_of(d.runner.variables, "affection"@),
        d.synced().runner.events.len() == 0,
{
    let s = d.synced();
    assert(s.runner.events =~= Seq::<EventView>::empty());
    assert(s.runner.variables == d.runner.variables);
}

} // verus!
