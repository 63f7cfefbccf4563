use vstd::prelude::*;
use crate::arsenal::{ImpactEffect, Weapon};

verus! {

/// What becomes of a projectile in one step of its flight.
#[derive(Clone, Copy, PartialEq, Eq, Debug, Structural)]
pub enum ProjectileFate {
    /// It flies on.
    InFlight,
    /// A cluster grenade at the top of its arc: it is replaced by its
    /// submunitions.
    Split,
    /// It left the sides of the world and is removed without effect.
    LeftWorld,
    /// An enemy shield absorbed it (and takes the weapon's shield damage);
    /// an EMP still pulses with the given radius.
    Absorbed { pulse: Option<u32> },
    /// It struck a base, a wall or the ground.
    Impact(ImpactEffect),
}

/// The checks of a flight step in the order they apply: the split at the
/// top of a cluster grenade's arc, leaving the world, an enemy shield, and
/// last a base, wall or the ground.
pub open spec fn spec_projectile_fate(
    w: Weapon,
    passed_apex: bool,
    outside_world: bool,
    hit_enemy_shield: bool,
    hit_solid: bool,
) -> ProjectileFate {
    if w == Weapon::ClusterGrenade && passed_apex {
        ProjectileFate::Split
    } else if outside_world {
        ProjectileFate::LeftWorld
    } else if hit_enemy_shield {
        ProjectileFate::Absorbed {
            pulse: if w == Weapon::EMP { Some(w.spec_stats().blast_radius) } else { None },
        }
    } else if hit_solid {
        ProjectileFate::Impact(w.spec_impact_effect())
    } else {
        ProjectileFate::InFlight
    }
}

/// Decides what becomes of a projectile of weapon `w` in one step of its
/// flight, from what the step found: whether its vertical speed turned from
/// rising to falling (`passed_apex`), whether it is beyond the sides of the
/// world, whether it is inside the arc of an enemy shield that is up, and
/// whether it is inside a base or a wall or below the ground.
pub fn projectile_fate(
    w: Weapon,
    passed_apex: bool,
    outside_world: bool,
    hit_enemy_shield: bool,
    hit_solid: bool,
) -> (r: ProjectileFate)
    ensures
        r == spec_projectile_fate(w, passed_apex, outside_world, hit_enemy_shield, hit_solid),
        w == Weapon::ClusterGrenade && passed_apex ==> r == ProjectileFate::Split,
        !(w == Weapon::ClusterGrenade && passed_apex) && outside_world ==> r == ProjectileFate::LeftWorld,
        !(w == Weapon::ClusterGrenade && passed_apex) && !outside_world && hit_enemy_shield ==> r == (ProjectileFate::Absorbed {
            pulse: if w == Weapon::EMP { Some(300u32) } else { None },
        }),
        !(w == Weapon::ClusterGrenade && passed_apex) && !outside_world && !hit_enemy_shield && hit_solid
            ==> r == ProjectileFate::Impact(w.spec_impact_effect()),
        !(w == Weapon::ClusterGrenade && passed_apex) && !outside_world && !hit_enemy_shield && !hit_solid
            ==> r == ProjectileFate::InFlight,
{
    let is_cluster = match w {
        Weapon::ClusterGrenade => true,
        _ => false,
    };
    if is_cluster && passed_apex {
        ProjectileFate::Split
    } else if outside_world {
        ProjectileFate::LeftWorld
    } else if hit_enemy_shield {
        let pulse = match w {
            Weapon::EMP => Some(w.stats().blast_radius),
            _ => None,
        };
        ProjectileFate::Absorbed { pulse }
    } else if hit_solid {
        ProjectileFate::Impact(w.impact_effect())
    } else {
        ProjectileFate::InFlight
    }
}

/// Only cluster grenades split; a shield stops every blast (only an EMP's
/// pulse gets through); and a projectile that has touched nothing flies on.
pub proof fn lemma_fates(w: Weapon, apex: bool, outside: bool, shield: bool, solid: bool)
    ensures
        spec_projectile_fate(w, apex, outside, shield, solid) is Split ==> w == Weapon::ClusterGrenade,
        spec_projectile_fate(w, apex, outside, shield, solid) matches ProjectileFate::Absorbed { pulse }
            ==> (pulse is Some <==> w == Weapon::EMP),
        !(w == Weapon::ClusterGrenade && apex) && !outside && !shield && !solid
            ==> spec_projectile_fate(w, apex, outside, shield, solid) is InFlight,
        !(w == Weapon::ClusterGrenade && apex) && !outside && shield
            ==> !(spec_projectile_fate(w, apex, outside, shield, solid) is Impact),
{
}

/// What becomes of a projectile, check by check: a cluster grenade at the
/// top of its arc splits; otherwise a projectile beyond the world's sides is
/// removed; otherwise one that reaches an enemy shield that is up is
/// absorbed, whatever its weapon (an EMP still pulsing with its full
/// radius); otherwise one that strikes a base, a wall or the ground has its
/// weapon's impact effect; and one that touched nothing flies on.
pub proof fn lemma_fate_by_check(w: Weapon, apex: bool, outside: bool, shield: bool, solid: bool)
    ensures
        w == Weapon::ClusterGrenade && apex ==> spec_projectile_fate(w, apex, outside, shield, solid) == ProjectileFate::Split,
        !(w == Weapon::ClusterGrenade && apex) && outside
            ==> spec_projectile_fate(w, apex, outside, shield, solid) == ProjectileFate::LeftWorld,
        !(w == Weapon::ClusterGrenade && apex) && !outside && shield
            ==> spec_projectile_fate(w, apex, outside, shield, solid) == (ProjectileFate::Absorbed {
                pulse: if w == Weapon::EMP { Some(300u32) } else { None },
            }),
        !(w == Weapon::ClusterGrenade && apex) && !outside && !shield && solid
            ==> spec_projectile_fate(w, apex, outside, shield, solid) == ProjectileFate::Impact(w.spec_impact_effect()),
        !(w == Weapon::ClusterGrenade && apex) && !outside && !shield && !solid
            ==> spec_projectile_fate(w, apex, outside, shield, solid) == ProjectileFate::InFlight,
{
}

} // verus!
