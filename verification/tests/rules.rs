use slugs::arsenal::{Buildable, ImpactEffect, Weapon, WeaponStats, BURST_SHOTS, CLUSTER_SUBMUNITIONS, EMP_DISABLE_TURNS};
use slugs::flight::{projectile_fate, ProjectileFate};
use slugs::player::Player;
use slugs::world::{base_segment, TERRAIN_SEGMENTS};

#[test]
fn next_player_alternates() {
    assert_eq!(Player::Blue.next(), Player::Red);
    assert_eq!(Player::Red.next(), Player::Blue);
    for p in [Player::Blue, Player::Red] {
        assert_eq!(p.next().next(), p);
        assert_ne!(p.next(), p);
    }
}

#[test]
fn player_names() {
    assert_eq!(Player::Blue.name(), "Blue");
    assert_eq!(Player::Red.name(), "Red");
}

#[test]
fn weapon_stats_table() {
    assert_eq!(Weapon::Artillery.stats(), WeaponStats { damage: 10, blast_radius: 100 });
    assert_eq!(Weapon::ClusterGrenade.stats(), WeaponStats { damage: 0, blast_radius: 0 });
    assert_eq!(Weapon::ClusterSubmunition.stats(), WeaponStats { damage: 4, blast_radius: 50 });
    assert_eq!(Weapon::EMP.stats(), WeaponStats { damage: 0, blast_radius: 300 });
    assert_eq!(Weapon::Burst.stats(), WeaponStats { damage: 6, blast_radius: 60 });
}

#[test]
fn weapon_names_and_selectability() {
    assert_eq!(Weapon::Artillery.name(), "Artillery");
    assert_eq!(Weapon::ClusterGrenade.name(), "Cluster");
    assert_eq!(Weapon::ClusterSubmunition.name(), "Submunition");
    assert_eq!(Weapon::EMP.name(), "EMP");
    assert_eq!(Weapon::Burst.name(), "Burst");
    assert!(Weapon::Artillery.is_selectable());
    assert!(Weapon::ClusterGrenade.is_selectable());
    assert!(Weapon::EMP.is_selectable());
    assert!(Weapon::Burst.is_selectable());
    assert!(!Weapon::ClusterSubmunition.is_selectable());
}

#[test]
fn impact_effects_by_weapon() {
    assert_eq!(Weapon::Artillery.impact_effect(), ImpactEffect::Explosion { damage: 10, blast_radius: 100 });
    assert_eq!(Weapon::ClusterGrenade.impact_effect(), ImpactEffect::Fizzle);
    assert_eq!(Weapon::ClusterSubmunition.impact_effect(), ImpactEffect::Explosion { damage: 4, blast_radius: 50 });
    assert_eq!(Weapon::EMP.impact_effect(), ImpactEffect::Emp { blast_radius: 300 });
    assert_eq!(Weapon::Burst.impact_effect(), ImpactEffect::Explosion { damage: 6, blast_radius: 60 });
}

#[test]
fn shield_damage_is_at_least_one() {
    assert_eq!(Weapon::Artillery.shield_damage(), 10);
    assert_eq!(Weapon::ClusterGrenade.shield_damage(), 1);
    assert_eq!(Weapon::ClusterSubmunition.shield_damage(), 4);
    assert_eq!(Weapon::EMP.shield_damage(), 1);
    assert_eq!(Weapon::Burst.shield_damage(), 6);
}

#[test]
fn shots_and_splits() {
    assert_eq!(Weapon::Burst.shots_per_fire(), BURST_SHOTS);
    assert_eq!(BURST_SHOTS, 3);
    assert_eq!(Weapon::Artillery.shots_per_fire(), 1);
    assert_eq!(Weapon::EMP.shots_per_fire(), 1);
    assert_eq!(Weapon::ClusterGrenade.split_count(), CLUSTER_SUBMUNITIONS);
    assert_eq!(CLUSTER_SUBMUNITIONS, 5);
    assert_eq!(Weapon::ClusterSubmunition.split_count(), 0);
    assert_eq!(Weapon::Burst.split_count(), 0);
    assert_eq!(EMP_DISABLE_TURNS, 5);
}

#[test]
fn buildable_table() {
    assert_eq!(Buildable::AALauncher.name(), "AA Launcher");
    assert_eq!(Buildable::Wall.name(), "Wall");
    assert_eq!(Buildable::ShieldGenerator.name(), "Shield Generator");
    assert_eq!(Buildable::AALauncher.health(), 3);
    assert_eq!(Buildable::Wall.health(), 8);
    assert_eq!(Buildable::ShieldGenerator.health(), 4);
    assert_eq!(Buildable::AALauncher.size(), 30);
    assert_eq!(Buildable::Wall.size(), 40);
    assert_eq!(Buildable::ShieldGenerator.size(), 30);
}

#[test]
fn bases_stand_at_fifteen_and_eighty_five_percent() {
    assert_eq!(TERRAIN_SEGMENTS, 384);
    assert_eq!(base_segment(Player::Blue), 57);
    assert_eq!(base_segment(Player::Red), 326);
}

#[test]
fn fate_split_only_for_cluster_at_apex() {
    assert_eq!(projectile_fate(Weapon::ClusterGrenade, true, true, true, true), ProjectileFate::Split);
    assert_eq!(projectile_fate(Weapon::ClusterGrenade, false, false, false, false), ProjectileFate::InFlight);
    assert_eq!(projectile_fate(Weapon::Artillery, true, false, false, false), ProjectileFate::InFlight);
}

#[test]
fn fate_leaving_world_comes_before_hits() {
    assert_eq!(projectile_fate(Weapon::Artillery, false, true, true, true), ProjectileFate::LeftWorld);
}

#[test]
fn fate_shield_absorbs_and_emp_still_pulses() {
    assert_eq!(projectile_fate(Weapon::Artillery, false, false, true, true), ProjectileFate::Absorbed { pulse: None });
    assert_eq!(projectile_fate(Weapon::EMP, false, false, true, false), ProjectileFate::Absorbed { pulse: Some(300) });
}

#[test]
fn fate_impact_uses_weapon_effect() {
    assert_eq!(
        projectile_fate(Weapon::Burst, false, false, false, true),
        ProjectileFate::Impact(ImpactEffect::Explosion { damage: 6, blast_radius: 60 })
    );
    assert_eq!(projectile_fate(Weapon::ClusterGrenade, false, false, false, true), ProjectileFate::Impact(ImpactEffect::Fizzle));
    assert_eq!(projectile_fate(Weapon::EMP, false, false, false, true), ProjectileFate::Impact(ImpactEffect::Emp { blast_radius: 300 }));
}
