//! Who a character is: one of the three built-in ones, or one that a script
//! defined and that is known by its id.

use crate::ascii_art::{BUBBLES_DESC, GILL_DESC, MARINA_DESC};
use crate::plugins::fish_def::FishDefView;
use crate::plugins::registry::{lookup_fish, FishRegistry};
use vstd::prelude::*;

verus! {

/// The identity of a character.
#[derive(Debug, Clone, PartialEq, Eq, Hash)]
pub enum FishId {
    Bubbles,
    Marina,
    Gill,
    /// A character that a script defined, by its id in the registry.
    Plugin(String),
}

/// The mathematical value of a [`FishId`].
pub enum FishIdView {
    Bubbles,
    Marina,
    Gill,
    Plugin(Seq<char>),
}

impl View for FishId {
    type V = FishIdView;

    open spec fn view(&self) -> FishIdView {
        match *self {
            FishId::Bubbles => FishIdView::Bubbles,
            FishId::Marina => FishIdView::Marina,
            FishId::Gill => FishIdView::Gill,
            FishId::Plugin(id) => FishIdView::Plugin(id@),
        }
    }
}

impl FishIdView {
    /// The name by which the character is known without a registry: a
    /// script's character goes by its id.
    pub open spec fn name(self) -> Seq<char> {
        match self {
            FishIdView::Bubbles => "Bubbles"@,
            FishIdView::Marina => "Marina"@,
            FishIdView::Gill => "Gill"@,
            FishIdView::Plugin(id) => id,
        }
    }

    /// The species, which for a script's character is just "Fish".
    pub open spec fn species(self) -> Seq<char> {
        match self {
            FishIdView::Bubbles => "Clownfish"@,
            FishIdView::Marina => "Swordfish"@,
            FishIdView::Gill => "Pufferfish"@,
            FishIdView::Plugin(_) => "Fish"@,
        }
    }

    /// The description.
    pub open spec fn description(self) -> Seq<char> {
        match self {
            FishIdView::Bubbles => BUBBLES_DESC@,
            FishIdView::Marina => MARINA_DESC@,
            FishIdView::Gill => GILL_DESC@,
            FishIdView::Plugin(_) => "A mysterious fish."@,
        }
    }

    /// The pond of a built-in character; a script's character has no fixed
    /// pond, for which `usize::MAX` stands.
    pub open spec fn pond_index(self) -> int {
        match self {
            FishIdView::Bubbles => 0,
            FishIdView::Marina => 1,
            FishIdView::Gill => 2,
            FishIdView::Plugin(_) => usize::MAX as int,
        }
    }
}

impl FishId {
    /// Whether a script defined this character.
    pub fn is_plugin(&self) -> (r: bool)
        ensures
            r == (self@ is Plugin),
    {
        match self {
            FishId::Plugin(_) => true,
            _ => false,
        }
    }

    /// Whether `self` and `other` are the same character.
    pub fn same_as(&self, other: &FishId) -> (r: bool)
        ensures
            r == (self@ == other@),
    {
        match (self, other) {
            (FishId::Bubbles, FishId::Bubbles) => true,
            (FishId::Marina, FishId::Marina) => true,
            (FishId::Gill, FishId::Gill) => true,
            (FishId::Plugin(a), FishId::Plugin(b)) => *a == *b,
            _ => false,
        }
    }

    /// A copy of this identity.
    pub fn copy(&self) -> (r: FishId)
        ensures
            r@ == self@,
    {
        match self {
            FishId::Bubbles => FishId::Bubbles,
            FishId::Marina => FishId::Marina,
            FishId::Gill => FishId::Gill,
            FishId::Plugin(id) => FishId::Plugin(id.clone()),
        }
    }

    /// The pond in which the character swims.
    pub fn pond_index(&self) -> (r: usize)
        ensures
            r == self@.pond_index(),
    {
        match self {
            FishId::Bubbles => 0,
            FishId::Marina => 1,
            FishId::Gill => 2,
            FishId::Plugin(_) => usize::MAX,
        }
    }

    /// The name by which the character is known without a registry.
    pub fn name(&self) -> (r: &str)
        ensures
            r@ == self@.name(),
    {
        match self {
            FishId::Bubbles => "Bubbles",
            FishId::Marina => "Marina",
            FishId::Gill => "Gill",
            FishId::Plugin(id) => id.as_str(),
        }
    }

    /// The species, as far as it is known without a registry.
    pub fn species(&self) -> (r: &str)
        ensures
            r@ == self@.species(),
    {
        match self {
            FishId::Bubbles => "Clownfish",
            FishId::Marina => "Swordfish",
            FishId::Gill => "Pufferfish",
            FishId::Plugin(_) => "Fish",
        }
    }

    /// The description, as far as it is known without a registry.
    pub fn description(&self) -> (r: &str)
        ensures
            r@ == self@.description(),
    {
        match self {
            FishId::Bubbles => BUBBLES_DESC,
            FishId::Marina => MARINA_DESC,
            FishId::Gill => GILL_DESC,
            FishId::Plugin(_) => "A mysterious fish.",
        }
    }
}

/// The three built-in characters, in the order of their ponds.
pub open spec fn builtin_ids() -> Seq<FishIdView> {
    seq![FishIdView::Bubbles, FishIdView::Marina, FishIdView::Gill]
}

/// All characters: the built-in ones, then those of the registry in
/// registration order.
pub open spec fn all_ids(registry: Seq<FishDefView>) -> Seq<FishIdView> {
    builtin_ids() + Seq::new(registry.len(), |i: int| FishIdView::Plugin(registry[i].id))
}

/// The views of a sequence of identities.
pub open spec fn fish_ids_view(s: Seq<FishId>) -> Seq<FishIdView> {
    Seq::new(s.len(), |i: int| s[i]@)
}

impl FishIdView {
    /// The name of the character: for one that a script defined, the name
    /// that the registry has for it, and its id where the registry does not
    /// know it.
    pub open spec fn name_in(self, registry: Seq<FishDefView>) -> Seq<char> {
        match self {
            FishIdView::Plugin(id) => match lookup_fish(registry, id) {
                Some(fish) => fish.name,
                None => id,
            },
            _ => self.name(),
        }
    }

    /// The species of the character, from the registry where a script
    /// defined it.
    pub open spec fn species_in(self, registry: Seq<FishDefView>) -> Seq<char> {
        match self {
            FishIdView::Plugin(id) => match lookup_fish(registry, id) {
                Some(fish) => fish.species,
                None => "Fish"@,
            },
            _ => self.species(),
        }
    }

    /// The description of the character, from the registry where a script
    /// defined it.
    pub open spec fn description_in(self, registry: Seq<FishDefView>) -> Seq<char> {
        match self {
            FishIdView::Plugin(id) => match lookup_fish(registry, id) {
                Some(fish) => fish.description,
                None => "A mysterious fish."@,
            },
            _ => self.description(),
        }
    }
}

impl FishId {
    /// The three built-in characters, in the order of their ponds.
    pub fn builtin() -> (r: Vec<FishId>)
        ensures
            fish_ids_view(r@) == builtin_ids(),
    {
        let mut all: Vec<FishId> = Vec::new();
        all.push(FishId::Bubbles);
        all.push(FishId::Marina);
        all.push(FishId::Gill);
        assert(fish_ids_view(all@) =~= builtin_ids());
        all
    }

    /// All characters: the built-in ones, then those of the registry.
    pub fn all_with_plugins(registry: &FishRegistry) -> (r: Vec<FishId>)
        ensures
            fish_ids_view(r@) == all_ids(registry@),
    {
        let mut all = Self::builtin();
        let ids = registry.plugin_ids();
        let mut i: usize = 0;
        assert(all@.len() == fish_ids_view(all@).len());
        assert forall|k: int| 0 <= k < 3 implies (#[trigger] all@[k])@ == builtin_ids()[k] by {
            assert(fish_ids_view(all@)[k] == all@[k]@);
        }
        while i < ids.len()
            invariant
                i <= ids.len() == registry@.len(),
                forall|k: int| 0 <= k < ids@.len() ==> (#[trigger] ids@[k])@ == registry@[k].id,
                all@.len() == 3 + i,
                forall|k: int| 0 <= k < 3 ==> (#[trigger] all@[k])@ == builtin_ids()[k],
                forall|k: int|
                    0 <= k < i ==> (#[trigger] all@[3 + k])@ == FishIdView::Plugin(registry@[k].id),
            decreases ids.len() - i,
        {
            all.push(FishId::Plugin(ids[i].clone()));
            i += 1;
        }
        assert(fish_ids_view(all@) =~= all_ids(registry@)) by {
            assert forall|k: int| 0 <= k < all@.len() implies fish_ids_view(all@)[k] == all_ids(
                registry@,
            )[k] by {
                if k >= 3 {
                    assert(all@[3 + (k - 3)]@ == FishIdView::Plugin(registry@[k - 3].id));
                }
            }
        }
        all
    }

    /// The name of the character, from the registry where a script defined
    /// it.
    pub fn name_with_registry(&self, registry: &FishRegistry) -> (r: String)
        ensures
            r@ == self@.name_in(registry@),
    {
        match self {
            FishId::Plugin(id) => match registry.get(id.as_str()) {
                Some(fish) => fish.name.clone(),
                None => id.clone(),
            },
            _ => self.name().to_owned(),
        }
    }

    /// The species of the character, from the registry where a script
    /// defined it.
    pub fn species_with_registry(&self, registry: &FishRegistry) -> (r: String)
        ensures
            r@ == self@.species_in(registry@),
    {
        match self {
            FishId::Plugin(id) => match registry.get(id.as_str()) {
                Some(fish) => fish.species.clone(),
                None => "Fish".to_owned(),
            },
            _ => self.species().to_owned(),
        }
    }

    /// The description of the character, from the registry where a script
    /// defined it.
    pub fn description_with_registry(&self, registry: &FishRegistry) -> (r: String)
        ensures
            r@ == self@.description_in(registry@),
    {
        match self {
            FishId::Plugin(id) => match registry.get(id.as_str()) {
                Some(fish) => fish.description.clone(),
                None => "A mysterious fish.".to_owned(),
            },
            _ => self.description().to_owned(),
        }
    }
}

} // verus!
