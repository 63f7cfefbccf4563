use vstd::prelude::*;

verus! {

/// Time a structure stays disabled after an EMP, in turns (one player action
/// is one turn).
pub const EMP_DISABLE_TURNS: u32 = 5;

/// Projectiles fired by one Burst shot.
pub const BURST_SHOTS: u32 = 3;

/// Submunitions a cluster grenade splits into at the top of its arc.
pub const CLUSTER_SUBMUNITIONS: u32 = 5;

/// What can be fired from a base.
#[derive(Clone, Copy, PartialEq, Eq, Debug, Structural)]
pub enum Weapon {
    Artillery,
    ClusterGrenade,
    ClusterSubmunition,
    EMP,
    Burst,
}

/// Damage dealt at the centre of a blast and the radius of the blast, in
/// world units.
#[derive(Clone, Copy, PartialEq, Eq, Debug, Structural)]
pub struct WeaponStats {
    pub damage: u32,
    pub blast_radius: u32,
}

/// What happens where a projectile hits something or is intercepted.
#[derive(Clone, Copy, PartialEq, Eq, Debug, Structural)]
pub enum ImpactEffect {
    /// A pulse that disables defensive structures within the radius.
    Emp { blast_radius: u32 },
    /// A blast that damages structures and terrain within the radius.
    Explosion { damage: u32, blast_radius: u32 },
    /// Nothing happens; the projectile is simply removed.
    Fizzle,
}

impl Weapon {
    pub open spec fn spec_stats(self) -> WeaponStats {
        match self {
            Weapon::Artillery => WeaponStats { damage: 10, blast_radius: 100 },
            Weapon::ClusterGrenade => WeaponStats { damage: 0, blast_radius: 0 },
            Weapon::ClusterSubmunition => WeaponStats { damage: 4, blast_radius: 50 },
            Weapon::EMP => WeaponStats { damage: 0, blast_radius: 300 },
            Weapon::Burst => WeaponStats { damage: 6, blast_radius: 60 },
        }
    }

    pub open spec fn spec_name(self) -> Seq<char> {
        match self {
            Weapon::Artillery => "Artillery"@,
            Weapon::ClusterGrenade => "Cluster"@,
            Weapon::ClusterSubmunition => "Submunition"@,
            Weapon::EMP => "EMP"@,
            Weapon::Burst => "Burst"@,
        }
    }

    /// Whether a player can pick the weapon; submunitions only come out of a
    /// cluster grenade.
    pub open spec fn spec_is_selectable(self) -> bool {
        self != Weapon::ClusterSubmunition
    }

    /// The effect of the weapon where it lands: an EMP pulses, anything with
    /// a blast explodes, and a cluster grenade (which has none) fizzles.
    pub open spec fn spec_impact_effect(self) -> ImpactEffect {
        let s = self.spec_stats();
        if self == Weapon::EMP {
            ImpactEffect::Emp { blast_radius: s.blast_radius }
        } else if s.blast_radius > 0 {
            ImpactEffect::Explosion { damage: s.damage, blast_radius: s.blast_radius }
        } else {
            ImpactEffect::Fizzle
        }
    }

    /// The damage a hit takes off an enemy shield: the weapon's damage, and
    /// at least one point.
    pub open spec fn spec_shield_damage(self) -> u32 {
        let d: u32 = self.spec_stats().damage;
        if d >= 1 { d } else { 1 }
    }

    /// Projectiles launched by one shot of the weapon.
    pub open spec fn spec_shots_per_fire(self) -> u32 {
        if self == Weapon::Burst { BURST_SHOTS } else { 1 }
    }

    /// Submunitions the projectile splits into at the top of its arc.
    pub open spec fn spec_split_count(self) -> u32 {
        if self == Weapon::ClusterGrenade { CLUSTER_SUBMUNITIONS } else { 0 }
    }

    /// Damage and blast radius of the weapon.
    pub fn stats(&self) -> (r: WeaponStats)
        ensures
            r == self.spec_stats(),
            *self == Weapon::Artillery ==> r.damage == 10 && r.blast_radius == 100,
            *self == Weapon::ClusterGrenade ==> r.damage == 0 && r.blast_radius == 0,
            *self == Weapon::ClusterSubmunition ==> r.damage == 4 && r.blast_radius == 50,
            *self == Weapon::EMP ==> r.damage == 0 && r.blast_radius == 300,
            *self == Weapon::Burst ==> r.damage == 6 && r.blast_radius == 60,
    {
        match self {
            Weapon::Artillery => WeaponStats { damage: 10, blast_radius: 100 },
            Weapon::ClusterGrenade => WeaponStats { damage: 0, blast_radius: 0 },
            Weapon::ClusterSubmunition => WeaponStats { damage: 4, blast_radius: 50 },
            Weapon::EMP => WeaponStats { damage: 0, blast_radius: 300 },
            Weapon::Burst => WeaponStats { damage: 6, blast_radius: 60 },
        }
    }

    /// The label of the weapon's button and tooltip.
    pub fn name(&self) -> (r: &'static str)
        ensures
            r@ == self.spec_name(),
    {
        match self {
            Weapon::Artillery => "Artillery",
            Weapon::ClusterGrenade => "Cluster",
            Weapon::ClusterSubmunition => "Submunition",
            Weapon::EMP => "EMP",
            Weapon::Burst => "Burst",
        }
    }

    /// Whether the weapon can be chosen from the toolbar.
    pub fn is_selectable(&self) -> (r: bool)
        ensures
            r == self.spec_is_selectable(),
    {
        match self {
            Weapon::Artillery | Weapon::ClusterGrenade | Weapon::EMP | Weapon::Burst => true,
            Weapon::ClusterSubmunition => false,
        }
    }

    /// What the projectile does where it lands, is caught in a blast, or is
    /// intercepted by an anti-air missile.
    pub fn impact_effect(&self) -> (r: ImpactEffect)
        ensures
            r == self.spec_impact_effect(),
            *self == Weapon::EMP ==> r == (ImpactEffect::Emp { blast_radius: 300 }),
            *self == Weapon::ClusterGrenade ==> r == ImpactEffect::Fizzle,
            *self != Weapon::EMP && *self != Weapon::ClusterGrenade ==> r == (ImpactEffect::Explosion {
                damage: self.spec_stats().damage,
                blast_radius: self.spec_stats().blast_radius,
            }),
    {
        let s = self.stats();
        match self {
            Weapon::EMP => ImpactEffect::Emp { blast_radius: s.blast_radius },
            _ => {
                if s.blast_radius > 0 {
                    ImpactEffect::Explosion { damage: s.damage, blast_radius: s.blast_radius }
                } else {
                    ImpactEffect::Fizzle
                }
            },
        }
    }

    /// The damage an enemy shield takes when the projectile hits it.
    pub fn shield_damage(&self) -> (r: u32)
        ensures
            r == self.spec_shield_damage(),
            r >= 1,
            r == (if self.spec_stats().damage >= 1 { self.spec_stats().damage } else { 1 }),
    {
        let d: u32 = self.stats().damage;
        if d >= 1 {
            d
        } else {
            1
        }
    }

    /// Projectiles launched by one shot: three for Burst, one otherwise.
    pub fn shots_per_fire(&self) -> (r: u32)
        ensures
            r == self.spec_shots_per_fire(),
            *self != Weapon::Burst ==> r == 1,
            *self == Weapon::Burst ==> r == 3,
    {
        match self {
            Weapon::Burst => BURST_SHOTS,
            _ => 1,
        }
    }

    /// Submunitions the projectile splits into at the top of its arc: five
    /// for a cluster grenade, none otherwise.
    pub fn split_count(&self) -> (r: u32)
        ensures
            r == self.spec_split_count(),
            *self != Weapon::ClusterGrenade ==> r == 0,
            *self == Weapon::ClusterGrenade ==> r == 5,
    {
        match self {
            Weapon::ClusterGrenade => CLUSTER_SUBMUNITIONS,
            _ => 0,
        }
    }
}

/// Every impact that explodes does so with a positive radius, and every
/// weapon that fires a projectile with a positive radius has an effect where
/// it lands; only a cluster grenade fizzles.
pub proof fn lemma_impact_effects(w: Weapon)
    ensures
        w.spec_impact_effect() matches ImpactEffect::Explosion { damage, blast_radius } ==> blast_radius > 0
            && damage == w.spec_stats().damage,
        w.spec_impact_effect() is Fizzle <==> w == Weapon::ClusterGrenade,
        w.spec_impact_effect() is Emp <==> w == Weapon::EMP,
{
}

/// One shot launches a single projectile for every weapon but Burst, which
/// launches three; only a cluster grenade splits, into five submunitions.
pub proof fn lemma_projectiles_per_shot(w: Weapon)
    ensures
        w != Weapon::Burst ==> w.spec_shots_per_fire() == 1,
        w == Weapon::Burst ==> w.spec_shots_per_fire() == 3,
        w != Weapon::ClusterGrenade ==> w.spec_split_count() == 0,
        w == Weapon::ClusterGrenade ==> w.spec_split_count() == 5,
{
}

/// The weapons' numbers: damage and blast radius of each weapon, and the
/// effect it has where it lands.
pub proof fn lemma_weapon_table(w: Weapon)
    ensures
        w == Weapon::Artillery ==> w.spec_stats().damage == 10 && w.spec_stats().blast_radius == 100,
        w == Weapon::ClusterGrenade ==> w.spec_stats().damage == 0 && w.spec_stats().blast_radius == 0,
        w == Weapon::ClusterSubmunition ==> w.spec_stats().damage == 4 && w.spec_stats().blast_radius == 50,
        w == Weapon::EMP ==> w.spec_stats().damage == 0 && w.spec_stats().blast_radius == 300,
        w == Weapon::Burst ==> w.spec_stats().damage == 6 && w.spec_stats().blast_radius == 60,
        w == Weapon::EMP ==> w.spec_impact_effect() == (ImpactEffect::Emp { blast_radius: 300 }),
        w == Weapon::ClusterGrenade ==> w.spec_impact_effect() == ImpactEffect::Fizzle,
        w != Weapon::EMP && w != Weapon::ClusterGrenade ==> w.spec_impact_effect() == (ImpactEffect::Explosion {
            damage: w.spec_stats().damage,
            blast_radius: w.spec_stats().blast_radius,
        }),
        w.spec_is_selectable() <==> w != Weapon::ClusterSubmunition,
{
}

/// Every hit on an enemy shield costs it at least one point, and never more
/// than the weapon's damage unless that damage is zero.
pub proof fn lemma_shield_damage_positive(w: Weapon)
    ensures
        w.spec_shield_damage() >= 1,
        w.spec_stats().damage >= 1 ==> w.spec_shield_damage() == w.spec_stats().damage,
{
}

/// What a player can build next to their structures.
#[derive(Clone, Copy, PartialEq, Eq, Debug, Structural)]
pub enum Buildable {
    AALauncher,
    Wall,
    ShieldGenerator,
}

impl Buildable {
    pub open spec fn spec_name(self) -> Seq<char> {
        match self {
            Buildable::AALauncher => "AA Launcher"@,
            Buildable::Wall => "Wall"@,
            Buildable::ShieldGenerator => "Shield Generator"@,
        }
    }

    pub open spec fn spec_health(self) -> u32 {
        match self {
            Buildable::AALauncher => 3,
            Buildable::Wall => 8,
            Buildable::ShieldGenerator => 4,
        }
    }

    pub open spec fn spec_size(self) -> u32 {
        match self {
            Buildable::AALauncher => 30,
            Buildable::Wall => 40,
            Buildable::ShieldGenerator => 30,
        }
    }

    /// The name of the structure.
    pub fn name(&self) -> (r: &'static str)
        ensures
            r@ == self.spec_name(),
    {
        match self {
            Buildable::AALauncher => "AA Launcher",
            Buildable::Wall => "Wall",
            Buildable::ShieldGenerator => "Shield Generator",
        }
    }

    /// Hit points the structure is built with.
    pub fn health(&self) -> (r: u32)
        ensures
            r == self.spec_health(),
            *self == Buildable::AALauncher ==> r == 3,
            *self == Buildable::Wall ==> r == 8,
            *self == Buildable::ShieldGenerator ==> r == 4,
    {
        match self {
            Buildable::AALauncher => 3,
            Buildable::Wall => 8,
            Buildable::ShieldGenerator => 4,
        }
    }

    /// Width of the structure in world units (a wall is one and a half
    /// times as tall as it is wide).
    pub fn size(&self) -> (r: u32)
        ensures
            r == self.spec_size(),
            *self == Buildable::AALauncher ==> r == 30,
            *self == Buildable::Wall ==> r == 40,
            *self == Buildable::ShieldGenerator ==> r == 30,
    {
        match self {
            Buildable::AALauncher => 30,
            Buildable::Wall => 40,
            Buildable::ShieldGenerator => 30,
        }
    }
}

} // verus!
