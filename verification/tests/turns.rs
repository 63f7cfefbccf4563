use slugs::arsenal::{Buildable, Weapon};
use slugs::game::{GameState, TurnPhase};
use slugs::player::Player;

#[test]
fn new_match_state() {
    let s = GameState::default();
    assert_eq!(s.current_player, Player::Blue);
    assert_eq!(s.selected_weapon, None);
    assert_eq!(s.selected_buildable, None);
    assert_eq!(s.phase, TurnPhase::Aiming);
    assert_eq!(s.winner, None);
    assert!(!s.projectiles_seen);
    assert!(s.turn_start_processed);
    assert!(!s.turn_start_pending());
    assert!(s.selection_enabled());
}

#[test]
fn toggling_weapon_selects_and_deselects() {
    let mut s = GameState::default();
    s.toggle_weapon(Weapon::Artillery);
    assert_eq!(s.selected_weapon, Some(Weapon::Artillery));
    assert!(s.is_aiming());
    s.toggle_weapon(Weapon::Burst);
    assert_eq!(s.selected_weapon, Some(Weapon::Burst));
    s.toggle_weapon(Weapon::Burst);
    assert_eq!(s.selected_weapon, None);
    assert!(!s.is_aiming());
}

#[test]
fn weapon_and_structure_exclude_each_other() {
    let mut s = GameState::default();
    s.toggle_weapon(Weapon::EMP);
    s.toggle_buildable(Buildable::Wall);
    assert_eq!(s.selected_weapon, None);
    assert_eq!(s.selected_buildable, Some(Buildable::Wall));
    assert!(s.is_placing());
    s.toggle_weapon(Weapon::EMP);
    assert_eq!(s.selected_weapon, Some(Weapon::EMP));
    assert_eq!(s.selected_buildable, None);
    s.toggle_weapon(Weapon::EMP);
    s.toggle_buildable(Buildable::ShieldGenerator);
    s.toggle_buildable(Buildable::ShieldGenerator);
    assert_eq!(s.selected_buildable, None);
}

#[test]
fn buttons_ignored_outside_aiming() {
    let mut s = GameState::default();
    s.toggle_weapon(Weapon::Artillery);
    assert_eq!(s.fire(), Some(Weapon::Artillery));
    assert!(!s.selection_enabled());
    let before = s;
    s.toggle_weapon(Weapon::Burst);
    s.toggle_buildable(Buildable::Wall);
    assert_eq!(s, before);
}

#[test]
fn fire_without_weapon_does_nothing() {
    let mut s = GameState::default();
    let before = s;
    assert_eq!(s.fire(), None);
    assert_eq!(s, before);
    assert_eq!(s.place(), None);
    assert_eq!(s, before);
}

#[test]
fn shot_turn_cycle() {
    let mut s = GameState::default();
    s.toggle_weapon(Weapon::Artillery);
    assert_eq!(s.fire(), Some(Weapon::Artillery));
    assert_eq!(s.phase, TurnPhase::ProjectileInFlight);
    assert_eq!(s.selected_weapon, None);
    // The projectile appears a frame late: an empty sky does not end the turn yet.
    assert!(!s.check_projectiles(false, false, false));
    assert_eq!(s.phase, TurnPhase::ProjectileInFlight);
    assert!(!s.check_projectiles(true, false, false));
    assert!(s.projectiles_seen);
    // A missile still in the air keeps the turn going.
    assert!(!s.check_projectiles(false, true, false));
    // So does a delayed burst shot.
    assert!(!s.check_projectiles(false, false, true));
    assert!(s.check_projectiles(false, false, false));
    assert_eq!(s.phase, TurnPhase::TurnEnding);
    assert!(!s.projectiles_seen);
    assert!(!s.check_bases(&vec![]));
    assert!(s.end_turn());
    assert_eq!(s.current_player, Player::Red);
    assert_eq!(s.phase, TurnPhase::Aiming);
    assert!(!s.turn_start_processed);
    assert!(s.turn_start_pending());
    s.finish_turn_start();
    assert!(!s.turn_start_pending());
}

#[test]
fn building_turn_cycle() {
    let mut s = GameState::default();
    s.toggle_buildable(Buildable::AALauncher);
    assert_eq!(s.place(), Some(Buildable::AALauncher));
    assert_eq!(s.phase, TurnPhase::TurnEnding);
    assert_eq!(s.selected_buildable, None);
    assert!(s.end_turn());
    assert_eq!(s.current_player, Player::Red);
    assert!(!s.end_turn());
    assert_eq!(s.current_player, Player::Red);
}

#[test]
fn destroyed_base_loses() {
    let mut s = GameState::default();
    s.toggle_buildable(Buildable::Wall);
    s.place();
    assert!(s.check_bases(&vec![Player::Red, Player::Blue]));
    assert_eq!(s.winner, Some(Player::Blue));
    assert_eq!(s.phase, TurnPhase::GameOver);
    // Nothing moves once the match is over.
    let before = s;
    assert!(!s.end_turn());
    assert!(!s.check_bases(&vec![Player::Blue]));
    s.toggle_weapon(Weapon::Artillery);
    assert_eq!(s, before);
}

#[test]
fn bases_only_checked_when_turn_ends() {
    let mut s = GameState::default();
    assert!(!s.check_bases(&vec![Player::Blue]));
    assert_eq!(s.winner, None);
    assert_eq!(s.phase, TurnPhase::Aiming);
}

#[test]
fn two_turns_return_to_first_player() {
    let mut s = GameState::default();
    for _ in 0..2 {
        s.toggle_buildable(Buildable::Wall);
        s.place();
        s.end_turn();
    }
    assert_eq!(s.current_player, Player::Blue);
}
