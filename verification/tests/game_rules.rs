use crash_site::character_controls::{Character, StatusEffect, StatusEffects};
use crash_site::collision::placement_collider;
use crash_site::dialog::closes_dialog;
use crash_site::dog::Dog;
use crash_site::enemies::{flee_direction, resolve_attack};
use crash_site::items::{CollectedItems, Item};
use crash_site::menu::starts_game;
use crash_site::room::{ROOM_HEIGHT, ROOM_WIDTH};
use crash_site::sanity::{grief_for, notices_body, Grief};
use crash_site::ui::{newly_dead, status_icon};
use crash_site::win::{CurrentState, GameState, SignalSent, SignalStatus};

#[test]
fn parts_check_needs_all_three() {
    let mut s = CurrentState::new();
    assert!(!s.check_parts(2));
    assert_eq!(s.0, GameState::Collecting);
    assert!(s.check_parts(3));
    assert_eq!(s.0, GameState::Collected);
    assert!(!s.check_parts(3));
    assert_eq!(s.0, GameState::Collected);
}

#[test]
fn parts_collected_counts_the_collection() {
    let mut items = CollectedItems::new();
    items.collect_item(Item::Antenna);
    items.collect_item(Item::Chip);
    items.collect_item(Item::Flower);
    let mut s = CurrentState::new();
    assert!(!s.parts_collected(&items));
    assert_eq!(s.0, GameState::Collecting);
    items.collect_item(Item::Plate);
    assert!(s.parts_collected(&items));
    assert_eq!(s.0, GameState::Collected);
}

#[test]
fn rescue_only_after_collecting() {
    let mut s = CurrentState::new();
    assert!(!s.check_rescue(true));
    assert_eq!(s.0, GameState::Collecting);
    s.check_parts(3);
    assert!(!s.check_rescue(false));
    assert_eq!(s.0, GameState::Collected);
    assert!(s.ship_calling());
    assert!(s.check_rescue(true));
    assert_eq!(s.0, GameState::Finished);
    assert!(!s.ship_calling());
    assert!(!s.check_rescue(true));
    assert!(!s.check_parts(3));
    assert_eq!(s.0, GameState::Finished);
}

#[test]
fn signal_goes_out_once_when_finished() {
    let mut sig = SignalSent::new();
    let mut s = CurrentState::new();
    assert!(!sig.send_if_finished(&s));
    s.check_parts(3);
    assert!(!sig.send_if_finished(&s));
    assert_eq!(sig.0, SignalStatus::NotSent);
    s.check_rescue(true);
    assert!(sig.send_if_finished(&s));
    assert_eq!(sig.0, SignalStatus::Sent);
    assert!(!sig.send_if_finished(&s));
}

#[test]
fn dog_barks_once() {
    let mut d = Dog::new();
    assert!(!d.is_collected());
    assert!(d.meet_player());
    assert!(d.is_collected());
    assert!(!d.meet_player());
    let mut e = Dog::new();
    e.collect_dog();
    assert!(!e.meet_player());
}

#[test]
fn attack_hits_only_in_reach_and_ready() {
    let mut ch = Character::new();
    let mut fx = StatusEffects::new();
    assert!(!resolve_attack(true, false, Some(StatusEffect::Slowed), &mut ch, &mut fx));
    assert!(!resolve_attack(false, true, Some(StatusEffect::Slowed), &mut ch, &mut fx));
    assert_eq!(ch.health, 3);
    assert!(!ch.is_hurt);
    assert!(!fx.is_slowed());
    assert!(resolve_attack(true, true, Some(StatusEffect::Slowed), &mut ch, &mut fx));
    assert_eq!(ch.health, 2);
    assert!(ch.is_hurt);
    assert!(fx.is_slowed());
}

#[test]
fn attack_without_status_only_hurts() {
    let mut ch = Character { health: 1, is_hurt: false };
    let mut fx = StatusEffects::new();
    assert!(resolve_attack(true, true, None, &mut ch, &mut fx));
    assert_eq!(ch.health, 0);
    assert!(fx.iter().is_empty());
    assert!(newly_dead(&ch, false));
    assert!(!newly_dead(&ch, true));
}

#[test]
fn flee_direction_keeps_or_changes_course() {
    assert_eq!(flee_direction(None, false, (1.0f32, 0.0f32)), ((1.0, 0.0), Some((1.0, 0.0))));
    assert_eq!(
        flee_direction(Some((0.0f32, 1.0f32)), false, (1.0, 0.0)),
        ((0.0, 1.0), Some((0.0, 1.0)))
    );
    assert_eq!(
        flee_direction(Some((0.0f32, 1.0f32)), true, (1.0, 0.0)),
        ((1.0, 0.0), Some((1.0, 0.0)))
    );
}

#[test]
fn status_icons() {
    assert_eq!(status_icon(StatusEffect::Slowed), "cripple_icon.png");
    assert_eq!(status_icon(StatusEffect::Stalked), "insanity_icon.png");
    assert_eq!(status_icon(StatusEffect::Insane), "insanity_icon.png");
}

#[test]
fn healthy_player_is_not_dead() {
    assert!(!newly_dead(&Character::new(), false));
}

#[test]
fn dialog_and_menu_keys() {
    assert!(closes_dialog(true, true, false));
    assert!(closes_dialog(true, false, true));
    assert!(!closes_dialog(true, false, false));
    assert!(!closes_dialog(false, true, true));
    assert!(starts_game(true, true));
    assert!(!starts_game(true, false));
    assert!(!starts_game(false, true));
}

#[test]
fn placement_collider_choices() {
    let sprite = (200.0f32, 200.0f32);
    assert_eq!(
        placement_collider(sprite, Some((200.0, 70.0)), Some((0.0, -60.0))),
        ((200.0, 70.0), Some((0.0, -60.0)))
    );
    assert_eq!(placement_collider(sprite, Some((75.0, 10.0)), None), ((75.0, 10.0), None));
    assert_eq!(placement_collider(sprite, None, Some((0.0, -45.0))), (sprite, Some((0.0, -45.0))));
    assert_eq!(placement_collider(sprite, None, None), (sprite, None));
}

#[test]
fn body_reactions() {
    assert!(notices_body(true, true, false));
    assert!(!notices_body(false, true, false));
    assert!(notices_body(false, false, true));
    assert!(!notices_body(true, false, false));
    assert_eq!(grief_for(true, true), Grief::Partner);
    assert_eq!(grief_for(true, false), Grief::Partner);
    assert_eq!(grief_for(false, true), Grief::Friend);
    assert_eq!(grief_for(false, false), Grief::Stranger);
}

#[test]
fn room_size() {
    assert_eq!(ROOM_HEIGHT, 700);
    assert_eq!(ROOM_WIDTH, 1100);
}
