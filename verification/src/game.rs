use vstd::prelude::*;
use crate::arsenal::{Buildable, Weapon};
use crate::player::Player;

verus! {

/// Where a turn stands.
#[derive(Clone, Copy, PartialEq, Eq, Debug, Structural)]
pub enum TurnPhase {
    /// The current player chooses a weapon or a structure and acts.
    Aiming,
    /// Reserved for placing structures; turns never enter it.
    Building,
    /// The shot is in the air; the turn ends when everything has landed.
    ProjectileInFlight,
    /// The short pause before the other player's turn.
    TurnEnding,
    /// A base was destroyed; the match is decided.
    GameOver,
}

/// The state of a match, as far as it decides what happens next. The pause
/// at the end of a turn is timed by the caller.
#[derive(Clone, Copy, PartialEq, Eq, Debug, Structural)]
pub struct GameState {
    pub current_player: Player,
    pub selected_weapon: Option<Weapon>,
    pub selected_buildable: Option<Buildable>,
    pub phase: TurnPhase,
    pub winner: Option<Player>,
    /// Whether projectiles have been seen in flight since the shot; their
    /// spawning is deferred by a frame.
    pub projectiles_seen: bool,
    /// Whether the structures have had their turn-start update this turn.
    pub turn_start_processed: bool,
}

impl GameState {
    /// The states a match can be in: a winner exactly when the match is
    /// over, a selection only while the current player is acting and never
    /// a weapon and a structure at once, and projectiles only counted while
    /// a shot is in flight.
    pub open spec fn wf(self) -> bool {
        &&& (self.phase == TurnPhase::GameOver <==> self.winner is Some)
        &&& !(self.selected_weapon is Some && self.selected_buildable is Some)
        &&& self.phase != TurnPhase::Aiming ==> self.selected_weapon is None && self.selected_buildable is None
        &&& self.projectiles_seen ==> self.phase == TurnPhase::ProjectileInFlight
        &&& self.phase != TurnPhase::Building
    }

    /// The state of a new match: Blue to act, nothing chosen.
    pub open spec fn spec_initial() -> GameState {
        GameState {
            current_player: Player::Blue,
            selected_weapon: None,
            selected_buildable: None,
            phase: TurnPhase::Aiming,
            winner: None,
            projectiles_seen: false,
            turn_start_processed: true,
        }
    }

    pub open spec fn spec_selection_enabled(self) -> bool {
        self.phase == TurnPhase::Aiming
    }

    pub open spec fn spec_toggle_weapon(self, w: Weapon) -> GameState {
        if self.phase != TurnPhase::Aiming {
            self
        } else if self.selected_weapon == Some(w) {
            GameState { selected_weapon: None, ..self }
        } else {
            GameState { selected_weapon: Some(w), selected_buildable: None, ..self }
        }
    }

    pub open spec fn spec_toggle_buildable(self, b: Buildable) -> GameState {
        if self.phase != TurnPhase::Aiming {
            self
        } else if self.selected_buildable == Some(b) {
            GameState { selected_buildable: None, ..self }
        } else {
            GameState { selected_buildable: Some(b), selected_weapon: None, ..self }
        }
    }

    pub open spec fn spec_aiming(self) -> bool {
        self.phase == TurnPhase::Aiming && self.selected_weapon is Some
    }

    pub open spec fn spec_placing(self) -> bool {
        self.phase == TurnPhase::Aiming && self.selected_buildable is Some
    }

    pub open spec fn spec_fire(self) -> GameState {
        if self.spec_aiming() {
            GameState { selected_weapon: None, phase: TurnPhase::ProjectileInFlight, ..self }
        } else {
            self
        }
    }

    pub open spec fn spec_place(self) -> GameState {
        if self.spec_placing() {
            GameState { selected_buildable: None, phase: TurnPhase::TurnEnding, ..self }
        } else {
            self
        }
    }

    pub open spec fn spec_check_projectiles(self, projectiles: bool, missiles: bool, pending_shots: bool) -> GameState {
        if self.phase != TurnPhase::ProjectileInFlight {
            self
        } else {
            let seen = self.projectiles_seen || projectiles;
            if !projectiles && !missiles && !pending_shots && seen {
                GameState { phase: TurnPhase::TurnEnding, projectiles_seen: false, ..self }
            } else {
                GameState { projectiles_seen: seen, ..self }
            }
        }
    }

    pub open spec fn spec_check_bases(self, destroyed: Seq<Player>) -> GameState {
        if self.phase == TurnPhase::TurnEnding && destroyed.len() > 0 {
            GameState { winner: Some(destroyed[0].spec_next()), phase: TurnPhase::GameOver, ..self }
        } else {
            self
        }
    }

    pub open spec fn spec_end_turn(self) -> GameState {
        if self.phase == TurnPhase::TurnEnding {
            GameState {
                current_player: self.current_player.spec_next(),
                selected_weapon: None,
                phase: TurnPhase::Aiming,
                turn_start_processed: false,
                ..self
            }
        } else {
            self
        }
    }

    pub open spec fn spec_turn_start_pending(self) -> bool {
        self.phase == TurnPhase::Aiming && !self.turn_start_processed
    }

    /// Whether the weapon and structure buttons respond: only while the
    /// current player is acting.
    pub fn selection_enabled(&self) -> (r: bool)
        ensures
            r == self.spec_selection_enabled(),
            r <==> self.phase == TurnPhase::Aiming,
    {
        match self.phase {
            TurnPhase::Aiming => true,
            _ => false,
        }
    }

    /// The weapon button of `w` was pressed: while the player is acting,
    /// this selects `w` (and drops a chosen structure), or deselects it if
    /// it was already selected.
    pub fn toggle_weapon(&mut self, w: Weapon)
        ensures
            *final(self) == old(self).spec_toggle_weapon(w),
            old(self).phase != TurnPhase::Aiming ==> *final(self) == *old(self),
            old(self).phase == TurnPhase::Aiming ==> final(self).selected_weapon == (if old(self).selected_weapon == Some(w) {
                None
            } else {
                Some(w)
            }),
            old(self).phase == TurnPhase::Aiming && old(self).selected_weapon != Some(w) ==> final(self).selected_buildable is None,
            old(self).selected_weapon == Some(w) ==> final(self).selected_buildable == old(self).selected_buildable,
            final(self).phase == old(self).phase,
            final(self).current_player == old(self).current_player,
            final(self).winner == old(self).winner,
            old(self).wf() ==> final(self).wf(),
    {
        if self.selection_enabled() {
            let same = match self.selected_weapon {
                Some(s) => s == w,
                None => false,
            };
            if same {
                self.selected_weapon = None;
            } else {
                self.selected_weapon = Some(w);
                self.selected_buildable = None;
            }
        }
    }

    /// The structure button of `b` was pressed: while the player is acting,
    /// this selects `b` (and drops a chosen weapon), or deselects it if it
    /// was already selected.
    pub fn toggle_buildable(&mut self, b: Buildable)
        ensures
            *final(self) == old(self).spec_toggle_buildable(b),
            old(self).phase != TurnPhase::Aiming ==> *final(self) == *old(self),
            old(self).phase == TurnPhase::Aiming ==> final(self).selected_buildable == (if old(self).selected_buildable == Some(b) {
                None
            } else {
                Some(b)
            }),
            old(self).phase == TurnPhase::Aiming && old(self).selected_buildable != Some(b) ==> final(self).selected_weapon is None,
            old(self).selected_buildable == Some(b) ==> final(self).selected_weapon == old(self).selected_weapon,
            final(self).phase == old(self).phase,
            final(self).current_player == old(self).current_player,
            final(self).winner == old(self).winner,
            old(self).wf() ==> final(self).wf(),
    {
        if self.selection_enabled() {
            let same = match self.selected_buildable {
                Some(s) => s == b,
                None => false,
            };
            if same {
                self.selected_buildable = None;
            } else {
                self.selected_buildable = Some(b);
                self.selected_weapon = None;
            }
        }
    }

    /// Whether the player is aiming: acting, with a weapon chosen.
    pub fn is_aiming(&self) -> (r: bool)
        ensures
            r == self.spec_aiming(),
            r <==> (self.phase == TurnPhase::Aiming && self.selected_weapon is Some),
    {
        self.selection_enabled() && self.selected_weapon.is_some()
    }

    /// Whether the player is placing a structure: acting, with a structure
    /// chosen.
    pub fn is_placing(&self) -> (r: bool)
        ensures
            r == self.spec_placing(),
            r <==> (self.phase == TurnPhase::Aiming && self.selected_buildable is Some),
    {
        self.selection_enabled() && self.selected_buildable.is_some()
    }

    /// The player releases the shot: the chosen weapon is fired and the
    /// turn waits for it to land. Returns the weapon fired, or `None` (and
    /// changes nothing) when the player is not aiming.
    pub fn fire(&mut self) -> (r: Option<Weapon>)
        ensures
            *final(self) == old(self).spec_fire(),
            r == (if old(self).spec_aiming() { old(self).selected_weapon } else { None }),
            r is Some <==> (old(self).phase == TurnPhase::Aiming && old(self).selected_weapon is Some),
            r is Some ==> r == old(self).selected_weapon && final(self).phase == TurnPhase::ProjectileInFlight
                && final(self).selected_weapon is None && final(self).current_player == old(self).current_player,
            r is None ==> *final(self) == *old(self),
            old(self).wf() ==> final(self).wf(),
    {
        if self.is_aiming() {
            let w = self.selected_weapon;
            self.selected_weapon = None;
            self.phase = TurnPhase::ProjectileInFlight;
            w
        } else {
            None
        }
    }

    /// The player places the chosen structure at a valid spot: building
    /// takes the whole turn. Returns the structure built, or `None` (and
    /// changes nothing) when the player is not placing one.
    pub fn place(&mut self) -> (r: Option<Buildable>)
        ensures
            *final(self) == old(self).spec_place(),
            r == (if old(self).spec_placing() { old(self).selected_buildable } else { None }),
            r is Some <==> (old(self).phase == TurnPhase::Aiming && old(self).selected_buildable is Some),
            r is Some ==> r == old(self).selected_buildable && final(self).phase == TurnPhase::TurnEnding
                && final(self).selected_buildable is None && final(self).current_player == old(self).current_player,
            r is None ==> *final(self) == *old(self),
            old(self).wf() ==> final(self).wf(),
    {
        if self.is_placing() {
            let b = self.selected_buildable;
            self.selected_buildable = None;
            self.phase = TurnPhase::TurnEnding;
            b
        } else {
            None
        }
    }

    /// While a shot is in flight: notes whether projectiles exist, and once
    /// some have been seen and no projectile, anti-air missile or delayed
    /// burst shot is left, begins the end of the turn. Returns whether it
    /// did.
    pub fn check_projectiles(&mut self, projectiles: bool, missiles: bool, pending_shots: bool) -> (r: bool)
        ensures
            *final(self) == old(self).spec_check_projectiles(projectiles, missiles, pending_shots),
            r == (old(self).phase == TurnPhase::ProjectileInFlight && final(self).phase == TurnPhase::TurnEnding),
            r <==> (old(self).phase == TurnPhase::ProjectileInFlight && !projectiles && !missiles && !pending_shots
                && old(self).projectiles_seen),
            !r ==> final(self).phase == old(self).phase,
            r ==> final(self).phase == TurnPhase::TurnEnding && !final(self).projectiles_seen,
            projectiles || missiles || pending_shots ==> !r,
            old(self).phase == TurnPhase::ProjectileInFlight && projectiles ==> final(self).projectiles_seen,
            final(self).current_player == old(self).current_player,
            final(self).selected_weapon == old(self).selected_weapon,
            final(self).selected_buildable == old(self).selected_buildable,
            final(self).winner == old(self).winner,
            old(self).wf() ==> final(self).wf(),
    {
        match self.phase {
            TurnPhase::ProjectileInFlight => {
                if projectiles {
                    self.projectiles_seen = true;
                }
                if !projectiles && !missiles && !pending_shots && self.projectiles_seen {
                    self.phase = TurnPhase::TurnEnding;
                    self.projectiles_seen = false;
                    true
                } else {
                    false
                }
            },
            _ => false,
        }
    }

    /// At the end of a turn, `destroyed` lists the sides whose base has no
    /// health left, in the order they were found: the first one loses and
    /// the other side wins. Returns whether the match ended.
    pub fn check_bases(&mut self, destroyed: &Vec<Player>) -> (r: bool)
        ensures
            *final(self) == old(self).spec_check_bases(destroyed@),
            r == (old(self).phase == TurnPhase::TurnEnding && destroyed@.len() > 0),
            r ==> final(self).phase == TurnPhase::GameOver && final(self).winner is Some
                && final(self).winner != Some(destroyed@[0]),
            !r ==> *final(self) == *old(self),
            final(self).current_player == old(self).current_player,
            old(self).wf() ==> final(self).wf(),
    {
        match self.phase {
            TurnPhase::TurnEnding => {
                if destroyed.len() > 0 {
                    self.winner = Some(destroyed[0].next());
                    self.phase = TurnPhase::GameOver;
                    true
                } else {
                    false
                }
            },
            _ => false,
        }
    }

    /// The pause at the end of the turn is over: the other side acts next,
    /// with no weapon chosen, and its structures get their turn-start
    /// update. Returns whether a turn ended.
    pub fn end_turn(&mut self) -> (r: bool)
        ensures
            *final(self) == old(self).spec_end_turn(),
            r == (old(self).phase == TurnPhase::TurnEnding),
            r ==> final(self).current_player != old(self).current_player && final(self).phase == TurnPhase::Aiming
                && final(self).selected_weapon is None && !final(self).turn_start_processed,
            !r ==> *final(self) == *old(self),
            final(self).winner == old(self).winner,
            old(self).wf() ==> final(self).wf(),
    {
        match self.phase {
            TurnPhase::TurnEnding => {
                self.current_player = self.current_player.next();
                self.selected_weapon = None;
                self.phase = TurnPhase::Aiming;
                self.turn_start_processed = false;
                true
            },
            _ => false,
        }
    }

    /// Whether the structures still need their update for the turn that has
    /// just begun.
    pub fn turn_start_pending(&self) -> (r: bool)
        ensures
            r == self.spec_turn_start_pending(),
            r <==> (self.phase == TurnPhase::Aiming && !self.turn_start_processed),
    {
        self.selection_enabled() && !self.turn_start_processed
    }

    /// Records that the structures have had their turn-start update.
    pub fn finish_turn_start(&mut self)
        ensures
            *final(self) == (GameState { turn_start_processed: true, ..*old(self) }),
            old(self).wf() ==> final(self).wf(),
    {
        self.turn_start_processed = true;
    }
}

impl Default for GameState {
    /// The state of a new match: Blue to act, nothing chosen, and the first
    /// turn's start already handled.
    fn default() -> (r: GameState)
        ensures
            r == GameState::spec_initial(),
            r.wf(),
            r.current_player == Player::Blue,
            r.phase == TurnPhase::Aiming,
            r.selected_weapon is None,
            r.selected_buildable is None,
            r.winner is None,
            !r.projectiles_seen,
            r.turn_start_processed,
    {
        GameState {
            current_player: Player::Blue,
            selected_weapon: None,
            selected_buildable: None,
            phase: TurnPhase::Aiming,
            winner: None,
            projectiles_seen: false,
            turn_start_processed: true,
        }
    }
}

/// Every move of a match keeps it well formed, starting from a new match:
/// there is a winner exactly when the match is over, a weapon and a
/// structure are never chosen together, and nothing stays chosen once the
/// player has acted.
pub proof fn lemma_transitions_keep_wf(
    s: GameState,
    w: Weapon,
    b: Buildable,
    projectiles: bool,
    missiles: bool,
    pending_shots: bool,
    destroyed: Seq<Player>,
)
    requires
        s.wf(),
    ensures
        GameState::spec_initial().wf(),
        s.spec_toggle_weapon(w).wf(),
        s.spec_toggle_buildable(b).wf(),
        s.spec_fire().wf(),
        s.spec_place().wf(),
        s.spec_check_projectiles(projectiles, missiles, pending_shots).wf(),
        s.spec_check_bases(destroyed).wf(),
        s.spec_end_turn().wf(),
        (GameState { turn_start_processed: true, ..s }).wf(),
{
}

/// Once a base has been destroyed the match is decided: no action, shot,
/// turn change or further destruction alters the state.
pub proof fn lemma_game_over_is_final(
    s: GameState,
    w: Weapon,
    b: Buildable,
    projectiles: bool,
    missiles: bool,
    pending_shots: bool,
    destroyed: Seq<Player>,
)
    requires
        s.phase == TurnPhase::GameOver,
    ensures
        s.spec_toggle_weapon(w) == s,
        s.spec_toggle_buildable(b) == s,
        s.spec_fire() == s,
        s.spec_place() == s,
        s.spec_check_projectiles(projectiles, missiles, pending_shots) == s,
        s.spec_check_bases(destroyed) == s,
        s.spec_end_turn() == s,
{
}

/// A shot passes the turn: once the player fires, the projectiles are seen
/// in flight and then have all landed, the turn ends, and after the pause the
/// other side acts with nothing chosen and its structures due their
/// turn-start update. Before any projectile has been seen in flight, an
/// empty sky does not end the turn, since projectiles appear a frame late.
pub proof fn lemma_shot_passes_turn(s: GameState, missiles: bool, pending_shots: bool)
    requires
        s.wf(),
        s.spec_aiming(),
    ensures
        s.spec_fire().phase == TurnPhase::ProjectileInFlight,
        s.spec_fire().spec_check_projectiles(false, false, false) == s.spec_fire(),
        ({
            let landed = s.spec_fire().spec_check_projectiles(true, missiles, pending_shots).spec_check_projectiles(false, false, false);
            let next = landed.spec_end_turn();
            &&& landed.phase == TurnPhase::TurnEnding
            &&& next.phase == TurnPhase::Aiming
            &&& next.current_player == s.current_player.spec_next()
            &&& next.selected_weapon is None
            &&& next.selected_buildable is None
            &&& !next.turn_start_processed
            &&& next.spec_turn_start_pending()
            &&& next.wf()
        }),
{
}

/// Building passes the turn: once the player places the chosen structure
/// the turn ends, and after the pause the other side acts with nothing
/// chosen.
pub proof fn lemma_building_passes_turn(s: GameState)
    requires
        s.wf(),
        s.spec_placing(),
    ensures
        s.spec_place().phase == TurnPhase::TurnEnding,
        s.spec_place().spec_end_turn().phase == TurnPhase::Aiming,
        s.spec_place().spec_end_turn().current_player == s.current_player.spec_next(),
        (s.spec_place().spec_end_turn().selected_weapon is None),
        (s.spec_place().spec_end_turn().selected_buildable is None),
        s.spec_place().spec_end_turn().wf(),
{
}

/// The match is won by the side whose base survives: when the first
/// destroyed base found belongs to `loser`, the other side wins, and never
/// the loser.
pub proof fn lemma_loser_never_wins(s: GameState, destroyed: Seq<Player>)
    requires
        s.phase == TurnPhase::TurnEnding,
        destroyed.len() > 0,
    ensures
        s.spec_check_bases(destroyed).winner == Some(destroyed[0].spec_next()),
        s.spec_check_bases(destroyed).winner != Some(destroyed[0]),
        s.spec_check_bases(destroyed).phase == TurnPhase::GameOver,
{
}

/// Pressing the same button twice while acting leaves the selection as it
/// was when nothing was selected from that group, and selecting a weapon
/// and then a structure (or the reverse) keeps only the latter.
pub proof fn lemma_selection_toggles(s: GameState, w: Weapon, b: Buildable)
    requires
        s.wf(),
        s.phase == TurnPhase::Aiming,
    ensures
        s.selected_weapon is None ==> s.spec_toggle_weapon(w).spec_toggle_weapon(w) == (GameState { selected_buildable: None, ..s }),
        s.selected_buildable is None ==> s.spec_toggle_buildable(b).spec_toggle_buildable(b) == (GameState { selected_weapon: None, ..s }),
        s.spec_toggle_weapon(w).spec_toggle_buildable(b).selected_buildable == Some(b),
        (s.spec_toggle_weapon(w).spec_toggle_buildable(b).selected_weapon is None),
        s.spec_toggle_buildable(b).spec_toggle_weapon(w).selected_weapon == Some(w),
        (s.spec_toggle_buildable(b).spec_toggle_weapon(w).selected_buildable is None),
{
}

/// A toolbar button toggles its own item: while the player acts, pressing
/// the button of a structure selects it (dropping any weapon) unless that very
/// structure was selected, which deselects it; another structure that was
/// selected is replaced. Weapon buttons behave the same way. Outside the
/// player's action the buttons change nothing.
pub proof fn lemma_toggle_selects_pressed(s: GameState, w: Weapon, b: Buildable)
    ensures
        s.phase == TurnPhase::Aiming && s.selected_buildable != Some(b)
            ==> s.spec_toggle_buildable(b).selected_buildable == Some(b) && s.spec_toggle_buildable(b).selected_weapon is None,
        s.phase == TurnPhase::Aiming && s.selected_buildable == Some(b) ==> s.spec_toggle_buildable(b).selected_buildable is None,
        s.phase == TurnPhase::Aiming && s.selected_weapon != Some(w)
            ==> s.spec_toggle_weapon(w).selected_weapon == Some(w) && s.spec_toggle_weapon(w).selected_buildable is None,
        s.phase == TurnPhase::Aiming && s.selected_weapon == Some(w) ==> s.spec_toggle_weapon(w).selected_weapon is None,
        s.phase != TurnPhase::Aiming ==> s.spec_toggle_buildable(b) == s && s.spec_toggle_weapon(w) == s,
        s.spec_toggle_buildable(b).phase == s.phase && s.spec_toggle_weapon(w).phase == s.phase,
        s.spec_toggle_buildable(b).current_player == s.current_player,
        s.spec_toggle_weapon(w).current_player == s.current_player,
{
}

/// The turn never ends while anything of the shot is still in the air: a
/// projectile, an anti-air missile or a delayed burst shot keeps the shot in
/// flight. It ends exactly when all three are gone and projectiles were seen
/// in flight at an earlier check.
pub proof fn lemma_turn_waits_for_sky(s: GameState, projectiles: bool, missiles: bool, pending_shots: bool)
    requires
        s.phase == TurnPhase::ProjectileInFlight,
    ensures
        projectiles || missiles || pending_shots
            ==> s.spec_check_projectiles(projectiles, missiles, pending_shots).phase == TurnPhase::ProjectileInFlight,
        projectiles ==> s.spec_check_projectiles(projectiles, missiles, pending_shots).projectiles_seen,
        s.spec_check_projectiles(projectiles, missiles, pending_shots).phase == TurnPhase::TurnEnding
            <==> (!projectiles && !missiles && !pending_shots && s.projectiles_seen),
        s.spec_check_projectiles(projectiles, missiles, pending_shots).current_player == s.current_player,
{
}

/// Acting: firing needs a chosen weapon and sends the shot into flight with
/// the weapon no longer chosen; building needs a chosen structure and ends
/// the turn. Without the choice, neither changes anything. Ending a turn
/// gives the other side the action.
pub proof fn lemma_actions(s: GameState)
    ensures
        s.phase == TurnPhase::Aiming && s.selected_weapon is Some
            ==> s.spec_fire().phase == TurnPhase::ProjectileInFlight && s.spec_fire().selected_weapon is None
                && s.spec_fire().current_player == s.current_player,
        !(s.phase == TurnPhase::Aiming && s.selected_weapon is Some) ==> s.spec_fire() == s,
        s.phase == TurnPhase::Aiming && s.selected_buildable is Some
            ==> s.spec_place().phase == TurnPhase::TurnEnding && s.spec_place().selected_buildable is None
                && s.spec_place().current_player == s.current_player,
        !(s.phase == TurnPhase::Aiming && s.selected_buildable is Some) ==> s.spec_place() == s,
        s.phase == TurnPhase::TurnEnding ==> s.spec_end_turn().current_player != s.current_player
            && s.spec_end_turn().phase == TurnPhase::Aiming,
        s.phase != TurnPhase::TurnEnding ==> s.spec_end_turn() == s,
{
}

} // verus!
