use vstd::prelude::*;
use crate::arsenal::{Weapon, EMP_DISABLE_TURNS};
use crate::player::Player;

verus! {

/// Distance within which an anti-air launcher detects enemy projectiles,
/// in world units.
pub const AA_DETECTION_RANGE: u32 = 800;

/// Radius of a shield arc, in world units.
pub const SHIELD_RADIUS: u32 = 200;

/// Strength of a fresh or fully recharged shield.
pub const SHIELD_MAX_HEALTH: u32 = 10;

/// Shield strength regained at the start of each turn while the generator
/// is not disabled.
pub const SHIELD_RECHARGE_PER_TURN: u32 = 3;

/// The disabled countdown one turn start later: one less, down to zero.
pub open spec fn spec_count_down(d: u32) -> u32 {
    if d > 0 { (d - 1) as u32 } else { 0 }
}

/// An anti-air launcher that fires one tracking missile per turn at an enemy
/// projectile in range.
#[derive(Clone, Copy, PartialEq, Eq, Debug, Structural)]
pub struct AALauncher {
    pub player: Player,
    pub fired_this_turn: bool,
    pub disabled_turns: u32,
}

impl AALauncher {
    /// No EMP leaves a launcher disabled for longer than an EMP lasts.
    pub open spec fn wf(self) -> bool {
        self.disabled_turns <= EMP_DISABLE_TURNS
    }

    pub open spec fn spec_can_fire(self, current_player: Player) -> bool {
        &&& self.player != current_player
        &&& self.disabled_turns == 0
        &&& !self.fired_this_turn
    }

    pub open spec fn spec_start_turn(self) -> AALauncher {
        AALauncher { disabled_turns: spec_count_down(self.disabled_turns), ..self }
    }

    /// A launcher as it is built: ready, and not disabled.
    pub fn new(player: Player) -> (r: AALauncher)
        ensures
            r == (AALauncher { player, fired_this_turn: false, disabled_turns: 0 }),
            r.wf(),
    {
        AALauncher { player, fired_this_turn: false, disabled_turns: 0 }
    }

    /// Whether the launcher may fire while `current_player` has projectiles
    /// in flight: it only shoots at the enemy's, when not disabled, and once
    /// per turn.
    pub fn can_fire(&self, current_player: Player) -> (r: bool)
        ensures
            r == self.spec_can_fire(current_player),
            r <==> (self.player != current_player && self.disabled_turns == 0 && !self.fired_this_turn),
    {
        self.player != current_player && self.disabled_turns == 0 && !self.fired_this_turn
    }

    /// Records that the launcher has used its missile for this turn.
    pub fn mark_fired(&mut self)
        ensures
            *final(self) == (AALauncher { fired_this_turn: true, ..*old(self) }),
            forall|p: Player| !#[trigger] final(self).spec_can_fire(p),
            old(self).wf() ==> final(self).wf(),
    {
        self.fired_this_turn = true;
    }

    /// Makes the launcher's missile available again at the start of a turn.
    pub fn reset_for_turn(&mut self)
        ensures
            *final(self) == (AALauncher { fired_this_turn: false, ..*old(self) }),
            old(self).wf() ==> final(self).wf(),
    {
        self.fired_this_turn = false;
    }

    /// An EMP went off in range: the launcher is disabled for the full time.
    pub fn emp_hit(&mut self)
        ensures
            *final(self) == (AALauncher { disabled_turns: EMP_DISABLE_TURNS, ..*old(self) }),
            final(self).wf(),
    {
        self.disabled_turns = EMP_DISABLE_TURNS;
    }

    /// Counts one turn off the disabled time; returns whether the launcher
    /// came back into service with this turn.
    pub fn start_turn(&mut self) -> (revived: bool)
        ensures
            *final(self) == old(self).spec_start_turn(),
            final(self).disabled_turns == (if old(self).disabled_turns > 0 { old(self).disabled_turns - 1 } else { 0 }),
            final(self).player == old(self).player,
            final(self).fired_this_turn == old(self).fired_this_turn,
            revived == (old(self).disabled_turns == 1),
            old(self).wf() ==> final(self).wf(),
    {
        if self.disabled_turns > 0 {
            self.disabled_turns = self.disabled_turns - 1;
            self.disabled_turns == 0
        } else {
            false
        }
    }
}

/// A generator that projects a shield arc absorbing enemy projectiles.
#[derive(Clone, Copy, PartialEq, Eq, Debug, Structural)]
pub struct ShieldGenerator {
    pub player: Player,
    pub shield_health: u32,
    pub disabled_turns: u32,
}

impl ShieldGenerator {
    /// The shield never holds more than its maximum, and no EMP leaves it
    /// disabled for longer than an EMP lasts.
    pub open spec fn wf(self) -> bool {
        &&& self.shield_health <= SHIELD_MAX_HEALTH
        &&& self.disabled_turns <= EMP_DISABLE_TURNS
    }

    pub open spec fn spec_is_active(self) -> bool {
        self.disabled_turns == 0 && self.shield_health > 0
    }

    pub open spec fn spec_blocks(self, projectile_owner: Player) -> bool {
        self.player != projectile_owner && self.spec_is_active()
    }

    pub open spec fn spec_recharged(health: u32) -> u32 {
        if health + SHIELD_RECHARGE_PER_TURN <= SHIELD_MAX_HEALTH {
            (health + SHIELD_RECHARGE_PER_TURN) as u32
        } else if health < SHIELD_MAX_HEALTH {
            SHIELD_MAX_HEALTH
        } else {
            health
        }
    }

    pub open spec fn spec_start_turn(self) -> ShieldGenerator {
        let d: u32 = spec_count_down(self.disabled_turns);
        ShieldGenerator {
            disabled_turns: d,
            shield_health: if d == 0 { Self::spec_recharged(self.shield_health) } else { self.shield_health },
            ..self
        }
    }

    pub open spec fn spec_absorb(self, w: Weapon) -> ShieldGenerator {
        let dmg: u32 = w.spec_shield_damage();
        ShieldGenerator {
            shield_health: if self.shield_health >= dmg { (self.shield_health - dmg) as u32 } else { 0 },
            ..self
        }
    }

    /// A generator as it is built: full shield, not disabled.
    pub fn new(player: Player) -> (r: ShieldGenerator)
        ensures
            r == (ShieldGenerator { player, shield_health: SHIELD_MAX_HEALTH, disabled_turns: 0 }),
            r.wf(),
    {
        ShieldGenerator { player, shield_health: SHIELD_MAX_HEALTH, disabled_turns: 0 }
    }

    /// Whether the shield is up: not disabled and not depleted.
    pub fn is_active(&self) -> (r: bool)
        ensures
            r == self.spec_is_active(),
            r <==> (self.disabled_turns == 0 && self.shield_health > 0),
    {
        self.disabled_turns == 0 && self.shield_health > 0
    }

    /// Whether the shield stops a projectile of `projectile_owner` that
    /// reaches its arc: projectiles pass through their own side's shields.
    pub fn blocks(&self, projectile_owner: Player) -> (r: bool)
        ensures
            r == self.spec_blocks(projectile_owner),
            r <==> (self.player != projectile_owner && self.disabled_turns == 0 && self.shield_health > 0),
            self.shield_health == 0 ==> !r,
    {
        self.player != projectile_owner && self.is_active()
    }

    /// The shield absorbs a projectile of weapon `w`, losing the weapon's
    /// shield damage, down to zero.
    pub fn absorb_hit(&mut self, w: Weapon)
        ensures
            *final(self) == old(self).spec_absorb(w),
            final(self).shield_health as int == (if old(self).shield_health >= w.spec_shield_damage() {
                old(self).shield_health - w.spec_shield_damage()
            } else {
                0
            }),
            final(self).player == old(self).player,
            final(self).disabled_turns == old(self).disabled_turns,
            final(self).shield_health <= old(self).shield_health,
            old(self).shield_health > 0 ==> final(self).shield_health < old(self).shield_health,
            old(self).wf() ==> final(self).wf(),
    {
        let dmg: u32 = w.shield_damage();
        if self.shield_health >= dmg {
            self.shield_health = self.shield_health - dmg;
        } else {
            self.shield_health = 0;
        }
    }

    /// An EMP went off in range: the generator is disabled for the full time.
    pub fn emp_hit(&mut self)
        ensures
            *final(self) == (ShieldGenerator { disabled_turns: EMP_DISABLE_TURNS, ..*old(self) }),
            old(self).wf() ==> final(self).wf(),
    {
        self.disabled_turns = EMP_DISABLE_TURNS;
    }

    /// Counts one turn off the disabled time and, if the generator is then
    /// in service, recharges the shield; returns whether the generator came
    /// back into service with this turn.
    pub fn start_turn(&mut self) -> (revived: bool)
        ensures
            *final(self) == old(self).spec_start_turn(),
            final(self).disabled_turns == (if old(self).disabled_turns > 0 { old(self).disabled_turns - 1 } else { 0 }),
            final(self).disabled_turns > 0 ==> final(self).shield_health == old(self).shield_health,
            final(self).disabled_turns == 0 ==> final(self).shield_health == (if old(self).shield_health + SHIELD_RECHARGE_PER_TURN <= SHIELD_MAX_HEALTH {
                old(self).shield_health + SHIELD_RECHARGE_PER_TURN
            } else if old(self).shield_health < SHIELD_MAX_HEALTH {
                SHIELD_MAX_HEALTH as int
            } else {
                old(self).shield_health as int
            }),
            final(self).player == old(self).player,
            revived == (old(self).disabled_turns == 1),
            old(self).wf() ==> final(self).wf(),
    {
        let mut revived = false;
        if self.disabled_turns > 0 {
            self.disabled_turns = self.disabled_turns - 1;
            revived = self.disabled_turns == 0;
        }
        if self.disabled_turns == 0 && self.shield_health < SHIELD_MAX_HEALTH {
            if self.shield_health + SHIELD_RECHARGE_PER_TURN <= SHIELD_MAX_HEALTH {
                self.shield_health = self.shield_health + SHIELD_RECHARGE_PER_TURN;
            } else {
                self.shield_health = SHIELD_MAX_HEALTH;
            }
        }
        revived
    }
}

/// A shield stops a projectile exactly when the projectile is the enemy's
/// and the shield is up: a shield with no strength left, or one disabled by
/// an EMP, stops nothing, and no shield stops its own side's projectiles.
pub proof fn lemma_shield_blocking(g: ShieldGenerator, owner: Player)
    ensures
        g.shield_health == 0 ==> !g.spec_blocks(owner),
        g.disabled_turns > 0 ==> !g.spec_blocks(owner),
        owner == g.player ==> !g.spec_blocks(owner),
        g.spec_blocks(owner) ==> owner != g.player && g.disabled_turns == 0 && g.shield_health > 0,
        owner != g.player && g.disabled_turns == 0 && g.shield_health > 0 ==> g.spec_blocks(owner),
        g.spec_is_active() <==> (g.disabled_turns == 0 && g.shield_health > 0),
{
}

/// A hit takes the weapon's shield damage (at least one point) off the
/// shield, down to zero, and changes nothing else; a full shield that is
/// in service gains three points per turn start up to ten.
pub proof fn lemma_shield_hit_and_recharge(g: ShieldGenerator, w: Weapon)
    ensures
        g.spec_absorb(w).shield_health == (if g.shield_health >= w.spec_shield_damage() {
            g.shield_health - w.spec_shield_damage()
        } else {
            0
        }),
        g.shield_health > 0 ==> g.spec_absorb(w).shield_health < g.shield_health,
        g.spec_absorb(w).player == g.player,
        g.spec_absorb(w).disabled_turns == g.disabled_turns,
        g.disabled_turns <= 1 && g.shield_health <= SHIELD_MAX_HEALTH ==> g.spec_start_turn().shield_health == (if g.shield_health + 3 <= 10 {
            g.shield_health + 3
        } else {
            10
        }),
        g.disabled_turns > 1 ==> g.spec_start_turn().shield_health == g.shield_health,
        g.spec_start_turn().disabled_turns == (if g.disabled_turns > 0 { g.disabled_turns - 1 } else { 0 }),
{
}

/// A launcher fires only at the enemy's projectiles, only when not
/// disabled, and only once per turn: after firing it cannot fire again until
/// its missile is reset at the start of a turn.
pub proof fn lemma_launcher_firing(l: AALauncher, current: Player)
    ensures
        l.spec_can_fire(current) ==> l.player != current && l.disabled_turns == 0 && !l.fired_this_turn,
        l.player != current && l.disabled_turns == 0 && !l.fired_this_turn ==> l.spec_can_fire(current),
        !(AALauncher { fired_this_turn: true, ..l }).spec_can_fire(current),
        l.spec_start_turn().disabled_turns == (if l.disabled_turns > 0 { l.disabled_turns - 1 } else { 0 }),
{
}

/// A launcher after `n` turn starts.
pub open spec fn launcher_after_turns(l: AALauncher, n: nat) -> AALauncher
    decreases n,
{
    if n == 0 {
        l
    } else {
        launcher_after_turns(l, (n - 1) as nat).spec_start_turn()
    }
}

/// A generator after `n` turn starts.
pub open spec fn generator_after_turns(g: ShieldGenerator, n: nat) -> ShieldGenerator
    decreases n,
{
    if n == 0 {
        g
    } else {
        generator_after_turns(g, (n - 1) as nat).spec_start_turn()
    }
}

/// The number of turn starts among the first `n` at which a generator that
/// is disabled for `d` more turns is in service (and so recharges).
pub open spec fn recharging_turns(d: nat, n: nat) -> nat {
    if n < d {
        0
    } else if d == 0 {
        n
    } else {
        (n - d + 1) as nat
    }
}

/// A structure disabled for `d` turns is back in service after exactly `d`
/// turn starts: the countdown goes down by one per turn, to zero, and
/// nothing else about the launcher changes.
pub proof fn lemma_launcher_recovers(l: AALauncher, n: nat)
    ensures
        launcher_after_turns(l, n).disabled_turns == (if n >= l.disabled_turns { 0 } else { l.disabled_turns - n }),
        launcher_after_turns(l, n).player == l.player,
        launcher_after_turns(l, n).fired_this_turn == l.fired_this_turn,
    decreases n,
{
    if n > 0 {
        lemma_launcher_recovers(l, (n - 1) as nat);
    }
}

/// A shield regains its recharge at every turn start at which its generator
/// is in service, up to its maximum; while the generator is disabled the
/// shield keeps its strength, and the disabled countdown goes down by one
/// per turn start, to zero.
pub proof fn lemma_shield_recharge(g: ShieldGenerator, n: nat)
    requires
        g.wf(),
    ensures
        generator_after_turns(g, n).disabled_turns == (if n >= g.disabled_turns { 0 } else { g.disabled_turns - n }),
        generator_after_turns(g, n).shield_health == (if g.shield_health + SHIELD_RECHARGE_PER_TURN * recharging_turns(g.disabled_turns as nat, n) <= SHIELD_MAX_HEALTH {
            g.shield_health + SHIELD_RECHARGE_PER_TURN * recharging_turns(g.disabled_turns as nat, n)
        } else {
            SHIELD_MAX_HEALTH as int
        }),
        generator_after_turns(g, n).player == g.player,
        generator_after_turns(g, n).wf(),
    decreases n,
{
    if n > 0 {
        lemma_shield_recharge(g, (n - 1) as nat);
    }
}

} // verus!
