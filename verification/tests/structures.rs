use slugs::arsenal::Weapon;
use slugs::player::Player;
use slugs::structures::{AALauncher, ShieldGenerator, AA_DETECTION_RANGE, SHIELD_MAX_HEALTH, SHIELD_RADIUS, SHIELD_RECHARGE_PER_TURN};

#[test]
fn launcher_fires_once_per_turn_at_enemy() {
    let mut l = AALauncher::new(Player::Red);
    assert_eq!(l, AALauncher { player: Player::Red, fired_this_turn: false, disabled_turns: 0 });
    assert!(l.can_fire(Player::Blue));
    assert!(!l.can_fire(Player::Red));
    l.mark_fired();
    assert!(!l.can_fire(Player::Blue));
    l.reset_for_turn();
    assert!(l.can_fire(Player::Blue));
}

#[test]
fn emp_disables_launcher_for_five_turns() {
    let mut l = AALauncher::new(Player::Blue);
    l.emp_hit();
    assert_eq!(l.disabled_turns, 5);
    assert!(!l.can_fire(Player::Red));
    for _ in 0..4 {
        assert!(!l.start_turn());
        assert!(!l.can_fire(Player::Red));
    }
    assert!(l.start_turn());
    assert_eq!(l.disabled_turns, 0);
    assert!(l.can_fire(Player::Red));
    assert!(!l.start_turn());
    assert_eq!(l.disabled_turns, 0);
}

#[test]
fn shield_blocks_only_enemy_when_up() {
    let g = ShieldGenerator::new(Player::Blue);
    assert_eq!(g.shield_health, SHIELD_MAX_HEALTH);
    assert!(g.is_active());
    assert!(g.blocks(Player::Red));
    assert!(!g.blocks(Player::Blue));
    let mut d = g;
    d.emp_hit();
    assert!(!d.is_active());
    assert!(!d.blocks(Player::Red));
}

#[test]
fn shield_absorbs_until_depleted() {
    let mut g = ShieldGenerator::new(Player::Red);
    g.absorb_hit(Weapon::Burst);
    assert_eq!(g.shield_health, 4);
    g.absorb_hit(Weapon::EMP);
    assert_eq!(g.shield_health, 3);
    g.absorb_hit(Weapon::ClusterSubmunition);
    assert_eq!(g.shield_health, 0);
    assert!(!g.is_active());
    g.absorb_hit(Weapon::Artillery);
    assert_eq!(g.shield_health, 0);
}

#[test]
fn shield_recharges_three_per_turn_to_max() {
    let mut g = ShieldGenerator::new(Player::Red);
    g.absorb_hit(Weapon::Artillery);
    assert_eq!(g.shield_health, 0);
    let mut seen = vec![];
    for _ in 0..5 {
        g.start_turn();
        seen.push(g.shield_health);
    }
    assert_eq!(seen, vec![3, 6, 9, 10, 10]);
    assert_eq!(SHIELD_RECHARGE_PER_TURN, 3);
}

#[test]
fn disabled_shield_recharges_from_the_turn_it_returns() {
    let mut g = ShieldGenerator::new(Player::Blue);
    g.absorb_hit(Weapon::Artillery);
    g.emp_hit();
    let mut seen = vec![];
    for _ in 0..6 {
        let revived = g.start_turn();
        seen.push((revived, g.disabled_turns, g.shield_health));
    }
    assert_eq!(
        seen,
        vec![(false, 4, 0), (false, 3, 0), (false, 2, 0), (false, 1, 0), (true, 0, 3), (false, 0, 6)]
    );
}

#[test]
fn structure_constants() {
    assert_eq!(AA_DETECTION_RANGE, 800);
    assert_eq!(SHIELD_RADIUS, 200);
    assert_eq!(SHIELD_MAX_HEALTH, 10);
}
