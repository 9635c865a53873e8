//! The secret of the main menu: typing "moon" starts a battle with the moon,
//! which is told in phases.

use crate::input::Key;
use vstd::prelude::*;

verus! {

/// The number of keys of the secret.
pub const SECRET_LEN: usize = 4;

/// The key at `position` of the secret: M, O, O, N.
pub open spec fn secret_key(position: int) -> Key {
    if position == 0 {
        Key::KeyM
    } else if position == 1 {
        Key::KeyO
    } else if position == 2 {
        Key::KeyO
    } else {
        Key::KeyN
    }
}

/// The progress after `key`, and whether the secret is complete with it. A
/// key that continues the secret takes it one step on; the last key
/// completes it, and the detector starts over. Any other key starts over,
/// and counts as the first key if it is one.
pub open spec fn feed_key(progress: int, key: Key) -> (int, bool) {
    if 0 <= progress < SECRET_LEN && key == secret_key(progress) {
        if progress + 1 >= SECRET_LEN {
            (0, true)
        } else {
            (progress + 1, false)
        }
    } else if key == secret_key(0) {
        (1, false)
    } else {
        (0, false)
    }
}

/// Listens for the secret.
#[derive(Debug, Clone, Copy)]
pub struct SecretSequence {
    progress: usize,
}

impl SecretSequence {
    #[verifier::type_invariant]
    spec fn in_range(self) -> bool {
        self.progress < SECRET_LEN
    }

    /// How many keys of the secret were typed.
    pub closed spec fn progress(&self) -> int {
        self.progress as int
    }

    /// A detector that has heard nothing.
    pub fn new() -> (s: SecretSequence)
        ensures
            s.progress() == 0,
    {
        SecretSequence { progress: 0 }
    }

    /// The key at `position` of the secret.
    fn target(position: usize) -> (k: Key)
        ensures
            k == secret_key(position as int),
    {
        if position == 0 {
            Key::KeyM
        } else if position == 1 {
            Key::KeyO
        } else if position == 2 {
            Key::KeyO
        } else {
            Key::KeyN
        }
    }

    /// Hears a key. Returns whether the secret is complete with it.
    pub fn feed(&mut self, key: Key) -> (r: bool)
        ensures
            (final(self).progress(), r) == feed_key(old(self).progress(), key),
            0 <= old(self).progress() < SECRET_LEN,
    {
        proof {
            use_type_invariant(&*self);
        }
        if key == Self::target(self.progress) {
            if self.progress + 1 >= SECRET_LEN {
                self.progress = 0;
                return true;
            }
            self.progress = self.progress + 1;
        } else {
            self.progress = if key == Self::target(0) {
                1
            } else {
                0
            };
        }
        false
    }

    /// Forgets what was heard.
    pub fn reset(&mut self)
        ensures
            final(self).progress() == 0,
    {
        self.progress = 0;
    }
}

/// The progress after a run of keys, and whether the last of them completed
/// the secret.
pub open spec fn feed_keys(progress: int, keys: Seq<Key>) -> (int, bool)
    decreases keys.len(),
{
    if keys.len() == 0 {
        (progress, false)
    } else {
        feed_key(feed_keys(progress, keys.drop_last()).0, keys.last())
    }
}

/// Typing M, O, O, N completes the secret, whatever was typed before.
pub proof fn law_moon_completes_the_secret(progress: int)
    requires
        0 <= progress < SECRET_LEN,
    ensures
        feed_keys(progress, seq![Key::KeyM, Key::KeyO, Key::KeyO, Key::KeyN]) == (0int, true),
{
    let keys = seq![Key::KeyM, Key::KeyO, Key::KeyO, Key::KeyN];
    let k3 = keys.drop_last();
    let k2 = k3.drop_last();
    let k1 = k2.drop_last();
    let k0 = k1.drop_last();
    assert(k0.len() == 0);
    assert(k1.last() == Key::KeyM);
    assert(k2.last() == Key::KeyO);
    assert(k3.last() == Key::KeyO);
    assert(keys.last() == Key::KeyN);
    assert(feed_keys(progress, k0) == (progress, false));
    assert(feed_keys(progress, k1).0 == 1);
    assert(feed_keys(progress, k2).0 == 2);
    assert(feed_keys(progress, k3).0 == 3);
}

/// A phase of the battle with the moon.
#[derive(Debug, Clone, Copy, PartialEq, Eq, Structural)]
pub enum Phase {
    Stargazing,
    Lasso,
    Capture,
    MoonFalls,
    DrawSwords,
    /// The swords clash; the number says which of three pictures is shown.
    Clash(u8),
    Victory,
}

/// The number of clashes after which the moon is beaten.
pub const CLASHES_TO_WIN: u8 = 4;

/// What the caller is to do after a key of the battle was handled.
#[derive(Debug, Clone, Copy, PartialEq, Eq, Structural)]
pub enum BattleAction {
    /// Nothing.
    Stay,
    /// A new phase began; `shake` says whether it begins with an impact.
    NextPhase { shake: bool },
    /// Leave the battle for the main menu.
    Leave,
}

/// The mathematical value of a battle.
pub struct BattleView {
    pub phase: Phase,
    pub clash_cycles: int,
    pub victory_just_reached: bool,
}

/// One more clash, counted in a `u8`.
pub open spec fn one_more(cycles: int) -> int {
    if cycles < u8::MAX {
        cycles + 1
    } else {
        cycles
    }
}

impl BattleView {
    /// A battle at its beginning.
    pub open spec fn start() -> BattleView {
        BattleView { phase: Phase::Stargazing, clash_cycles: 0, victory_just_reached: false }
    }

    /// The battle one phase on. The phases follow one another; the clash
    /// repeats, with its three pictures in turn, until the swords have
    /// clashed four times, which is victory. Victory is the last phase.
    pub open spec fn advance_phase(self) -> BattleView {
        match self.phase {
            Phase::Stargazing => BattleView { phase: Phase::Lasso, ..self },
            Phase::Lasso => BattleView { phase: Phase::Capture, ..self },
            Phase::Capture => BattleView { phase: Phase::MoonFalls, ..self },
            Phase::MoonFalls => BattleView { phase: Phase::DrawSwords, ..self },
            Phase::DrawSwords => BattleView { phase: Phase::Clash(0), ..self },
            Phase::Clash(n) => {
                let cycles = one_more(self.clash_cycles);
                if cycles >= CLASHES_TO_WIN {
                    BattleView {
                        phase: Phase::Victory,
                        clash_cycles: cycles,
                        victory_just_reached: true,
                    }
                } else {
                    BattleView {
                        phase: Phase::Clash(((n as int + 1) % 3) as u8),
                        clash_cycles: cycles,
                        ..self
                    }
                }
            },
            Phase::Victory => self,
        }
    }

    /// Whether the phase that `advance_phase` leads to begins with an
    /// impact: the fall of the moon and every clash do.
    pub open spec fn shakes(self) -> bool {
        self.phase == Phase::Capture || self.phase == Phase::DrawSwords || self.phase is Clash
    }

    /// The battle after a key, and what the caller is to do. Escape leaves
    /// at once. Enter, space, and the arrows right and down go one phase on,
    /// and leave once the battle is won.
    pub open spec fn update(self, key: Option<Key>) -> (BattleView, BattleAction) {
        match key {
            Some(Key::Escape) => (self, BattleAction::Leave),
            Some(k) => {
                if k.is_confirm() || k == Key::ArrowRight || k == Key::ArrowDown {
                    if self.phase == Phase::Victory {
                        (self, BattleAction::Leave)
                    } else {
                        (self.advance_phase(), BattleAction::NextPhase { shake: self.shakes() })
                    }
                } else {
                    (self, BattleAction::Stay)
                }
            },
            None => (self, BattleAction::Stay),
        }
    }
}

/// The battle with the moon, as far as its course goes.
#[derive(Debug, Clone)]
pub struct MoonBattleState {
    phase: Phase,
    clash_cycles: u8,
    victory_just_reached: bool,
}

impl View for MoonBattleState {
    type V = BattleView;

    closed spec fn view(&self) -> BattleView {
        BattleView {
            phase: self.phase,
            clash_cycles: self.clash_cycles as int,
            victory_just_reached: self.victory_just_reached,
        }
    }
}

impl MoonBattleState {
    /// A battle at its beginning.
    pub fn new() -> (s: MoonBattleState)
        ensures
            s@ == BattleView::start(),
    {
        MoonBattleState { phase: Phase::Stargazing, clash_cycles: 0, victory_just_reached: false }
    }

    /// The phase that the battle is in.
    pub fn phase(&self) -> (p: Phase)
        ensures
            p == self@.phase,
    {
        self.phase
    }

    /// How often the swords have clashed.
    pub fn clash_cycles(&self) -> (r: u8)
        ensures
            r == self@.clash_cycles,
    {
        self.clash_cycles
    }

    /// Whether victory was reached since this was last asked. The answer is
    /// yes once.
    pub fn take_victory_flag(&mut self) -> (r: bool)
        ensures
            r == old(self)@.victory_just_reached,
            final(self)@ == (BattleView { victory_just_reached: false, ..old(self)@ }),
    {
        if self.victory_just_reached {
            self.victory_just_reached = false;
            true
        } else {
            false
        }
    }

    /// Goes one phase on.
    fn advance_phase(&mut self)
        ensures
            final(self)@ == old(self)@.advance_phase(),
    {
        match self.phase {
            Phase::Stargazing => {
                self.phase = Phase::Lasso;
            },
            Phase::Lasso => {
                self.phase = Phase::Capture;
            },
            Phase::Capture => {
                self.phase = Phase::MoonFalls;
            },
            Phase::MoonFalls => {
                self.phase = Phase::DrawSwords;
            },
            Phase::DrawSwords => {
                self.phase = Phase::Clash(0);
            },
            Phase::Clash(n) => {
                if self.clash_cycles < u8::MAX {
                    self.clash_cycles += 1;
                }
                if self.clash_cycles >= CLASHES_TO_WIN {
                    self.victory_just_reached = true;
                    self.phase = Phase::Victory;
                } else {
                    let next: u8 = if n >= 2 {
                        ((n as u16 + 1) % 3) as u8
                    } else {
                        n + 1
                    };
                    self.phase = Phase::Clash(next);
                }
            },
            Phase::Victory => {},
        }
    }

    /// Handles a key.
    pub fn update(&mut self, key: Option<Key>) -> (action: BattleAction)
        ensures
            (final(self)@, action) == old(self)@.update(key),
    {
        match key {
            Some(Key::Escape) => BattleAction::Leave,
            Some(k) => {
                if k.confirms() || k == Key::ArrowRight || k == Key::ArrowDown {
                    if self.phase == Phase::Victory {
                        BattleAction::Leave
                    } else {
                        let shake = match self.phase {
                            Phase::Capture => true,
                            Phase::DrawSwords => true,
                            Phase::Clash(_) => true,
                            _ => false,
                        };
                        self.advance_phase();
                        BattleAction::NextPhase { shake }
                    }
                } else {
                    BattleAction::Stay
                }
            },
            None => BattleAction::Stay,
        }
    }
}

/// The battle after `n` steps on.
pub open spec fn advanced(b: BattleView, n: nat) -> BattleView
    decreases n,
{
    if n == 0 {
        b
    } else {
        advanced(b, (n - 1) as nat).advance_phase()
    }
}

/// A battle is won after nine steps: five phases lead to the first clash,
/// and the fourth clash ends it.
pub proof fn law_battle_is_won_in_nine_steps()
    ensures
        advanced(BattleView::start(), 9).phase == Phase::Victory,
        advanced(BattleView::start(), 9).victory_just_reached,
        forall|n: nat| n < 9 ==> advanced(BattleView::start(), n).phase != Phase::Victory,
{
    let s = BattleView::start();
    reveal_with_fuel(advanced, 10);
    assert(advanced(s, 5).phase == Phase::Clash(0));
    assert(advanced(s, 6).phase == Phase::Clash(1));
    assert(advanced(s, 7).phase == Phase::Clash(2));
    assert(advanced(s, 8).phase == Phase::Clash(0));
    assert(advanced(s, 9).phase == Phase::Victory);
    assert forall|n: nat| n < 9 implies advanced(s, n).phase != Phase::Victory by {
        if n == 0 {
        } else if n == 1 {
        } else if n == 2 {
        } else if n == 3 {
        } else if n == 4 {
        } else if n == 5 {
        } else if n == 6 {
        } else if n == 7 {
        } else {
            assert(n == 8);
        }
    }
}

} // verus!
