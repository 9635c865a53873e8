//! The choice of a pond.
//!
//! There is one pond for each character: the three built-in ponds come
//! first, then the ponds of the characters that scripts defined, in
//! registration order.

use crate::ascii_art::POND_NAMES;
use crate::data::fish_id::{all_ids, fish_ids_view, FishId, FishIdView};
use crate::dating::scene::items_view;
use crate::input::Key;
use crate::plugins::fish_def::FishDefView;
use crate::plugins::registry::FishRegistry;
use crate::ui::menu::{after_down, after_up, SelectionMenu};
use vstd::prelude::*;

verus! {

/// The names of the three built-in ponds.
pub open spec fn builtin_ponds() -> Seq<Seq<char>> {
    seq!["Sunny Shallows"@, "Misty Depths"@, "Crystal Cove"@]
}

/// The names of all ponds: the built-in ones, then one for each character of
/// the registry.
pub open spec fn all_ponds(registry: Seq<FishDefView>) -> Seq<Seq<char>> {
    builtin_ponds() + Seq::new(registry.len(), |i: int| registry[i].pond_name)
}

/// The name of the pond with the index `pond_index`, or "Unknown Pond" where
/// there is no such pond.
pub open spec fn pond_name_of(pond_index: int, registry: Seq<FishDefView>) -> Seq<char> {
    if 0 <= pond_index < all_ponds(registry).len() {
        all_ponds(registry)[pond_index]
    } else {
        "Unknown Pond"@
    }
}

/// The name of the pond with the index `pond_index`.
pub fn pond_name_at(pond_index: usize, registry: &FishRegistry) -> (r: String)
    ensures
        r@ == pond_name_of(pond_index as int, registry@),
{
    if pond_index < 3 {
        let name = if pond_index == 0 {
            "Sunny Shallows"
        } else if pond_index == 1 {
            "Misty Depths"
        } else {
            "Crystal Cove"
        };
        name.to_owned()
    } else {
        let names = registry.pond_names();
        if pond_index - 3 < names.len() {
            names[pond_index - 3].to_owned()
        } else {
            "Unknown Pond".to_owned()
        }
    }
}

/// What the caller is to do after a key of the pond selection was handled.
#[derive(Debug, Clone)]
pub enum PondAction {
    /// Nothing.
    Stay,
    /// Start fishing for `fish_id` in the pond with the index `pond_index`.
    Cast { fish_id: FishId, pond_index: usize },
    /// Go back to the main menu.
    Back,
}

/// The mathematical value of a [`PondAction`].
pub enum PondActionView {
    Stay,
    Cast { fish_id: FishIdView, pond_index: int },
    Back,
}

impl View for PondAction {
    type V = PondActionView;

    open spec fn view(&self) -> PondActionView {
        match *self {
            PondAction::Stay => PondActionView::Stay,
            PondAction::Cast { fish_id, pond_index } => PondActionView::Cast {
                fish_id: fish_id@,
                pond_index: pond_index as int,
            },
            PondAction::Back => PondActionView::Back,
        }
    }
}

/// The mathematical value of a pond selection.
pub struct PondSelectView {
    pub ponds: Seq<Seq<char>>,
    pub selected: int,
    pub fish: Seq<FishIdView>,
}

impl PondSelectView {
    /// The selection after a key, and what the caller is to do. The cursor
    /// keys move the cursor; a confirming key casts in the pond under it;
    /// escape goes back.
    pub open spec fn update(self, key: Key) -> (PondSelectView, PondActionView) {
        if key.is_up() {
            (PondSelectView { selected: after_up(self.selected), ..self }, PondActionView::Stay)
        } else if key.is_down() {
            (
                PondSelectView {
                    selected: after_down(self.selected, self.ponds.len() as int),
                    ..self
                },
                PondActionView::Stay,
            )
        } else if key.is_confirm() {
            if 0 <= self.selected < self.fish.len() {
                (
                    self,
                    PondActionView::Cast {
                        fish_id: self.fish[self.selected],
                        pond_index: self.selected,
                    },
                )
            } else {
                (self, PondActionView::Stay)
            }
        } else if key == Key::Escape {
            (self, PondActionView::Back)
        } else {
            (self, PondActionView::Stay)
        }
    }
}

/// The screen on which a pond is chosen.
#[derive(Debug, Clone)]
pub struct PondSelectState {
    menu: SelectionMenu,
    fish_map: Vec<FishId>,
}

impl View for PondSelectState {
    type V = PondSelectView;

    closed spec fn view(&self) -> PondSelectView {
        PondSelectView {
            ponds: items_view(self.menu.items@),
            selected: self.menu.selected as int,
            fish: fish_ids_view(self.fish_map@),
        }
    }
}

impl PondSelectState {
    /// The selection among all ponds, with the cursor on the first.
    pub fn new(registry: &FishRegistry) -> (s: PondSelectState)
        ensures
            s@ == (PondSelectView {
                ponds: all_ponds(registry@),
                selected: 0,
                fish: all_ids(registry@),
            }),
    {
        let mut pond_names: Vec<String> = Vec::new();
        let mut b: usize = 0;
        while b < 3
            invariant
                b <= 3,
                pond_names@.len() == b,
                forall|k: int| 0 <= k < b ==> (#[trigger] pond_names@[k])@ == builtin_ponds()[k],
            decreases 3 - b,
        {
            pond_names.push(POND_NAMES[b].to_owned());
            b += 1;
        }
        let extra = registry.pond_names();
        let mut i: usize = 0;
        while i < extra.len()
            invariant
                i <= extra.len() == registry@.len(),
                forall|k: int| 0 <= k < extra@.len() ==> (#[trigger] extra@[k])@ == registry@[k].pond_name,
                pond_names@.len() == 3 + i,
                forall|k: int| 0 <= k < 3 ==> (#[trigger] pond_names@[k])@ == builtin_ponds()[k],
                forall|k: int| 0 <= k < i ==> (#[trigger] pond_names@[3 + k])@ == registry@[k].pond_name,
            decreases extra.len() - i,
        {
            pond_names.push(extra[i].to_owned());
            i += 1;
        }
        assert(items_view(pond_names@) =~= all_ponds(registry@)) by {
            assert forall|k: int| 0 <= k < pond_names@.len() implies items_view(pond_names@)[k]
                == all_ponds(registry@)[k] by {
                if k >= 3 {
                    assert(pond_names@[3 + (k - 3)]@ == registry@[k - 3].pond_name);
                }
            }
        }
        let fish_map = FishId::all_with_plugins(registry);
        PondSelectState { menu: SelectionMenu::new(pond_names), fish_map }
    }

    /// The menu of the ponds.
    pub fn menu(&self) -> (m: &SelectionMenu)
        ensures
            items_view(m.items@) == self@.ponds,
            m.selected == self@.selected,
    {
        &self.menu
    }

    /// The character that swims in the pond under the cursor, if any.
    pub fn selected_fish(&self) -> (r: Option<&FishId>)
        ensures
            match r {
                Some(f) => 0 <= self@.selected < self@.fish.len() && f@
                    == self@.fish[self@.selected],
                None => self@.selected >= self@.fish.len(),
            },
    {
        let idx = self.menu.selected_index();
        if idx < self.fish_map.len() {
            assert(fish_ids_view(self.fish_map@)[idx as int] == self.fish_map@[idx as int]@);
            Some(&self.fish_map[idx])
        } else {
            None
        }
    }

    /// Handles a key.
    pub fn update(&mut self, key: Key) -> (action: PondAction)
        ensures
            (final(self)@, action@) == old(self)@.update(key),
    {
        if key.moves_up() {
            self.menu.move_up();
            PondAction::Stay
        } else if key.moves_down() {
            self.menu.move_down();
            PondAction::Stay
        } else if key.confirms() {
            let pond_index = self.menu.selected_index();
            if pond_index < self.fish_map.len() {
                assert(fish_ids_view(self.fish_map@)[pond_index as int]
                    == self.fish_map@[pond_index as int]@);
                PondAction::Cast { fish_id: self.fish_map[pond_index].copy(), pond_index }
            } else {
                PondAction::Stay
            }
        } else if key == Key::Escape {
            PondAction::Back
        } else {
            PondAction::Stay
        }
    }
}

} // verus!
