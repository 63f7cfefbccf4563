use slugs::arsenal::{Buildable, Weapon};
use slugs::player::Player;
use slugs::text::{decimal_string, tooltip_subject, tooltip_text, turn_label, winner_label, TooltipSubject};

#[test]
fn decimal_numbers() {
    assert_eq!(decimal_string(0), "0");
    assert_eq!(decimal_string(7), "7");
    assert_eq!(decimal_string(10), "10");
    assert_eq!(decimal_string(300), "300");
    assert_eq!(decimal_string(4294967295), "4294967295");
}

#[test]
fn tooltip_prefers_weapon_button() {
    assert_eq!(tooltip_subject(Some(Weapon::EMP), Some(Buildable::Wall)), Some(TooltipSubject::Weapon(Weapon::EMP)));
    assert_eq!(tooltip_subject(None, Some(Buildable::Wall)), Some(TooltipSubject::Buildable(Buildable::Wall)));
    assert_eq!(tooltip_subject(None, None), None);
}

#[test]
fn weapon_tooltips() {
    assert_eq!(tooltip_text(TooltipSubject::Weapon(Weapon::Artillery)), "Artillery\nDamage: 10\nBlast Radius: 100");
    assert_eq!(
        tooltip_text(TooltipSubject::Weapon(Weapon::ClusterGrenade)),
        "Cluster\n5x Submunitions\nDamage: 4 each\nBlast Radius: 50"
    );
    assert_eq!(tooltip_text(TooltipSubject::Weapon(Weapon::EMP)), "EMP\nDisables AA for 5 turns\nBlast Radius: 300");
    assert_eq!(tooltip_text(TooltipSubject::Weapon(Weapon::Burst)), "Burst\n3x Projectiles\nDamage: 6 each\nBlast Radius: 60");
    assert_eq!(tooltip_text(TooltipSubject::Weapon(Weapon::ClusterSubmunition)), "Submunition\nDamage: 4\nBlast Radius: 50");
}

#[test]
fn structure_tooltips() {
    assert_eq!(
        tooltip_text(TooltipSubject::Buildable(Buildable::AALauncher)),
        "AA Launcher\nHealth: 3\nDetection Range: 800\nFires tracking missiles at\nenemy projectiles (1/turn)"
    );
    assert_eq!(
        tooltip_text(TooltipSubject::Buildable(Buildable::Wall)),
        "Wall\nHealth: 8\nDefensive barrier that\nblocks projectiles"
    );
    assert_eq!(
        tooltip_text(TooltipSubject::Buildable(Buildable::ShieldGenerator)),
        "Shield Generator\nHealth: 4\nShield: 10 (recharges 3/ turn)\nRadius: 200\nProjects protective dome\nthat absorbs damage"
    );
}

#[test]
fn tooltips_match_float_formatting() {
    // Whole-number floats print exactly like the integers.
    assert_eq!(format!("{}", 10.0f32), decimal_string(10));
    assert_eq!(format!("{}", 300.0f32), decimal_string(300));
}

#[test]
fn labels() {
    assert_eq!(turn_label(Player::Blue), "Blue's Turn");
    assert_eq!(turn_label(Player::Red), "Red's Turn");
    assert_eq!(winner_label(Player::Blue), "Blue Wins!");
    assert_eq!(winner_label(Player::Red), "Red Wins!");
}
