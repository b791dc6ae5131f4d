use bevy_fighter::collision::hitbox::manage_hitboxes;
use bevy_fighter::collision::AttackProperty;
use bevy_fighter::collision::BlockEvent;
use bevy_fighter::collision::BlockModifier;
use bevy_fighter::collision::BlockState;
use bevy_fighter::collision::BlockType;
use bevy_fighter::collision::CollisionEvent;
use bevy_fighter::collision::HitEvent;
use bevy_fighter::collision::HitState;
use bevy_fighter::collision::Hitbox;
use bevy_fighter::collision::HitboxData;
use bevy_fighter::collision::Hurtbox;
use bevy_fighter::math::Vec2;

fn hitbox(owner: u8, property: AttackProperty, air_blockable: bool) -> Hitbox {
    Hitbox::new(owner, air_blockable, HitboxData::jab(7), property, 5)
}

fn hurtbox(owner: u8, grounded: bool, block: Option<BlockType>) -> Hurtbox {
    Hurtbox::new(owner, grounded, block, None, Vec::new())
}

fn hit(attacker: u8, defender: u8) -> Option<CollisionEvent> {
    Some(CollisionEvent::Hit(HitEvent::new(HitboxData::jab(7), attacker, defender)))
}

fn block(attacker: u8, defender: u8) -> Option<CollisionEvent> {
    Some(CollisionEvent::Block(BlockEvent::new(HitboxData::jab(7), attacker, defender)))
}

#[test]
fn jab_carries_damage_and_defaults() {
    let data = HitboxData::jab(7);
    assert_eq!(data.damage, 7);
    assert_eq!(data.attack_level, 0);
    assert_eq!(data.bonus_hitstun, 0);
    assert_eq!(data.starting_proration, 1000);
    assert_eq!(data.mid_proration, 700);
    assert_eq!(data.force, Vec2::new(0, 0));
    assert_eq!(data.hit_state, HitState::STANDING);
    assert_eq!(data.block_state, BlockState::BLOCKING);
    assert_eq!(HitboxData::default(), HitboxData::jab(0));
}

#[test]
fn new_hitbox_is_active() {
    let h = hitbox(1, AttackProperty::MID, false);
    assert!(h.active);
    assert_eq!(h.duration, 5);
    assert_eq!(h.player_id, 1);
    assert!(!h.is_finished());
}

#[test]
fn hitbox_is_retired_after_exactly_its_duration() {
    let mut h = hitbox(1, AttackProperty::MID, false);
    let target = hurtbox(2, true, None);
    for left in [4u8, 3, 2, 1] {
        h.update();
        assert_eq!(h.duration, left);
        assert!(h.active);
        assert!(!h.is_finished());
        assert_eq!(h.collide_with_hurtbox(&target), hit(1, 2));
    }
    h.update();
    assert_eq!(h.duration, 0);
    assert!(!h.active);
    assert!(h.is_finished());
    assert_eq!(h.collide_with_hurtbox(&target), None);
    h.update();
    assert_eq!(h.duration, 0);
    assert!(!h.active);
    assert_eq!(h.collide_with_hurtbox(&target), None);
}

#[test]
fn a_hitbox_without_frames_hits_nothing() {
    let h = Hitbox::new(1, false, HitboxData::jab(7), AttackProperty::MID, 0);
    assert!(h.active);
    assert!(h.is_finished());
    assert_eq!(h.collide_with_hurtbox(&hurtbox(2, true, None)), None);
}

#[test]
fn tick_is_a_frame_like_update() {
    let mut a = hitbox(1, AttackProperty::LOW, true);
    let mut b = a;
    a.update();
    b.tick();
    assert_eq!(a, b);
}

#[test]
fn a_hitbox_switched_off_is_finished_and_hits_nothing() {
    let mut h = hitbox(1, AttackProperty::MID, false);
    h.active = false;
    assert!(h.is_finished());
    assert_eq!(h.collide_with_hurtbox(&hurtbox(2, true, None)), None);
    h.update();
    assert!(!h.active);
    assert_eq!(h.duration, 4);
}

#[test]
fn manage_hitboxes_retires_and_ticks() {
    let mut off = hitbox(1, AttackProperty::MID, false);
    off.active = false;
    let done = Hitbox::new(2, false, HitboxData::jab(1), AttackProperty::LOW, 0);
    let last = Hitbox::new(2, false, HitboxData::jab(2), AttackProperty::LOW, 1);
    let fresh = hitbox(1, AttackProperty::HIGH, true);
    let mut all = vec![fresh, off, last, done];
    manage_hitboxes(&mut all);
    assert_eq!(all.len(), 2);
    assert_eq!(all[0].duration, 4);
    assert!(all[0].active);
    assert_eq!(all[0].property, AttackProperty::HIGH);
    assert_eq!(all[1].duration, 0);
    assert!(!all[1].active);
    assert_eq!(all[1].hitbox_data, HitboxData::jab(2));
    manage_hitboxes(&mut all);
    assert_eq!(all.len(), 1);
    assert_eq!(all[0].duration, 3);
    let mut none: Vec<Hitbox> = Vec::new();
    manage_hitboxes(&mut none);
    assert!(none.is_empty());
}

#[test]
fn own_hitbox_never_touches_own_hurtbox() {
    for property in [AttackProperty::HIGH, AttackProperty::MID, AttackProperty::LOW] {
        for grounded in [true, false] {
            for guard in [None, Some(BlockType::HIGH), Some(BlockType::LOW)] {
                let h = hitbox(1, property, false);
                assert_eq!(h.collide_with_hurtbox(&hurtbox(1, grounded, guard)), None);
            }
        }
    }
}

#[test]
fn low_guard_blocks_mid_and_is_hit_by_high() {
    let guard = hurtbox(2, true, Some(BlockType::LOW));
    let mid = hitbox(1, AttackProperty::MID, false);
    assert!(mid.does_connect(&guard));
    assert!(mid.is_blocked(&guard));
    assert_eq!(mid.collide_with_hurtbox(&guard), block(1, 2));
    let high = hitbox(1, AttackProperty::HIGH, false);
    assert!(high.does_connect(&guard));
    assert!(!high.is_blocked(&guard));
    assert_eq!(high.collide_with_hurtbox(&guard), hit(1, 2));
}

#[test]
fn grounded_block_matrix() {
    let cases = [
        (AttackProperty::HIGH, BlockType::HIGH, true),
        (AttackProperty::HIGH, BlockType::LOW, false),
        (AttackProperty::MID, BlockType::HIGH, true),
        (AttackProperty::MID, BlockType::LOW, true),
        (AttackProperty::LOW, BlockType::HIGH, false),
        (AttackProperty::LOW, BlockType::LOW, true),
    ];
    for (property, guard, blocked) in cases {
        let h = hitbox(1, property, false);
        assert_eq!(h.is_blocked(&hurtbox(2, true, Some(guard))), blocked);
        assert!(!h.is_blocked(&hurtbox(2, true, None)));
    }
}

#[test]
fn airborne_block_rules() {
    let plain = hurtbox(2, false, Some(BlockType::HIGH));
    assert!(hitbox(1, AttackProperty::LOW, true).is_blocked(&plain));
    assert!(!hitbox(1, AttackProperty::LOW, false).is_blocked(&plain));
    assert_eq!(hitbox(1, AttackProperty::LOW, false).collide_with_hurtbox(&plain), hit(1, 2));
    for modifier in [BlockModifier::BARRIER, BlockModifier::INSTANT] {
        let guarded = Hurtbox::new(2, false, Some(BlockType::LOW), Some(modifier), Vec::new());
        assert!(hitbox(1, AttackProperty::HIGH, false).is_blocked(&guarded));
        assert_eq!(hitbox(1, AttackProperty::HIGH, false).collide_with_hurtbox(&guarded), block(1, 2));
    }
    let open = Hurtbox::new(2, false, None, Some(BlockModifier::BARRIER), Vec::new());
    assert!(!hitbox(1, AttackProperty::MID, true).is_blocked(&open));
}

#[test]
fn ignored_properties_pass_through() {
    let ghost = Hurtbox::new(
        2,
        true,
        Some(BlockType::HIGH),
        None,
        vec![AttackProperty::LOW, AttackProperty::MID],
    );
    assert!(ghost.ignores(&AttackProperty::LOW));
    assert!(ghost.ignores(&AttackProperty::MID));
    assert!(!ghost.ignores(&AttackProperty::HIGH));
    assert!(!ghost.does_connect(&AttackProperty::LOW));
    assert!(ghost.does_connect(&AttackProperty::HIGH));
    assert!(!hitbox(1, AttackProperty::MID, false).does_connect(&ghost));
    assert_eq!(hitbox(1, AttackProperty::MID, false).collide_with_hurtbox(&ghost), None);
    assert_eq!(hitbox(1, AttackProperty::HIGH, false).collide_with_hurtbox(&ghost), block(1, 2));
}

#[test]
fn events_carry_payload_and_both_players() {
    let data = HitboxData::jab(9);
    let h = Hitbox::new(4, false, data, AttackProperty::LOW, 3);
    match h.collide_with_hurtbox(&hurtbox(6, true, Some(BlockType::HIGH))) {
        Some(CollisionEvent::Hit(event)) => {
            assert_eq!(event.hitbox_data, data);
            assert_eq!(event.player_id, 4);
            assert_eq!(event.recieving_player_id, 6);
        }
        other => panic!("expected a hit, got {:?}", other),
    }
    let blocked = BlockEvent::new(data, 4, 6);
    assert_eq!(blocked.hitbox_data.damage, 9);
    assert_eq!(blocked.player_id, 4);
    assert_eq!(blocked.recieving_player_id, 6);
}
