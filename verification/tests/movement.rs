use bevy_fighter::attacks::Attack;
use bevy_fighter::character::apply_character_velocity;
use bevy_fighter::character::manage_character_velocity;
use bevy_fighter::character::movement::attack_pattern;
use bevy_fighter::character::movement::first_hit;
use bevy_fighter::character::movement::name_hits;
use bevy_fighter::character::ActionState;
use bevy_fighter::character::Backdash;
use bevy_fighter::character::BeatChain;
use bevy_fighter::character::CharacterMovement;
use bevy_fighter::character::PlayerId;
use bevy_fighter::inputs::buffer::FighterInputBuffer;
use bevy_fighter::inputs::input_events::ButtonPress;
use bevy_fighter::inputs::PlayerData;
use bevy_fighter::math::Vec2;
use bevy_fighter::math::Vec3;
use bevy_fighter::physics::InterpolatedForce;

fn names(list: &[&str]) -> Vec<String> {
    list.iter().map(|name| name.to_string()).collect()
}

fn movement() -> CharacterMovement {
    let mut moving = CharacterMovement::default();
    moving.walk_speed = 4_000;
    moving.back_walk_speed = 2_500;
    moving.dash_speed = 8_000;
    moving.gravity = 1_000;
    moving.jump_height = 15_000;
    moving.airdashes = 2;
    moving.air_jumps = 1;
    moving.facing_vector = 1;
    moving.attacks = vec![
        ("5A".to_string(), Attack::new("five a".to_string(), Vec::new(), 10)),
        ("2B".to_string(), Attack::new("two b".to_string(), Vec::new(), 14)),
        ("5A".to_string(), Attack::new("shadowed".to_string(), Vec::new(), 99)),
        ("236C".to_string(), Attack::new("fireball".to_string(), Vec::new(), 40)),
        ("5AB".to_string(), Attack::new("both".to_string(), Vec::new(), 20)),
    ];
    moving.beat_chain = BeatChain::from_attack_names(names(&["5AB", "5A", "2B", "236C"]));
    moving
}

#[test]
fn default_movement_is_empty() {
    let moving = CharacterMovement::default();
    assert_eq!(moving.walk_speed, 0);
    assert_eq!(moving.facing_vector, 0);
    assert_eq!(moving.velocity, Vec2::zero());
    assert_eq!(moving.backdash, Backdash::default());
    assert!(moving.attacks.is_empty());
    assert!(moving.beat_chain.all_attacks.is_empty());
    assert!(moving.beat_chain.available_attacks.is_empty());
    assert!(moving.interpolated_force.is_none());
    assert!(!moving.can_turn);
}

#[test]
fn clone_copies_everything() {
    let mut moving = movement();
    moving.velocity = Vec2::new(1, 2);
    moving.interpolated_force = Some(InterpolatedForce::new(Vec2::new(3, 4), Vec2::zero(), 5));
    moving.beat_chain.available_attacks.remove(0);
    let copy = moving.clone();
    assert_eq!(copy.walk_speed, 4_000);
    assert_eq!(copy.velocity, Vec2::new(1, 2));
    assert_eq!(copy.interpolated_force, moving.interpolated_force);
    assert_eq!(copy.attacks.len(), 5);
    assert_eq!(copy.attacks[4].0, "5AB");
    assert_eq!(copy.attacks[4].1.name, "both");
    assert_eq!(copy.beat_chain.all_attacks, names(&["5AB", "5A", "2B", "236C"]));
    assert_eq!(copy.beat_chain.available_attacks, names(&["5A", "2B", "236C"]));
}

#[test]
fn beat_chain_resets_to_all() {
    let mut chain = BeatChain::from_attack_names(names(&["5A", "2B"]));
    assert_eq!(chain.all_attacks, names(&["5A", "2B"]));
    assert_eq!(chain.available_attacks, names(&["5A", "2B"]));
    chain.available_attacks.clear();
    chain.reset();
    assert_eq!(chain.available_attacks, names(&["5A", "2B"]));
    assert_eq!(chain.all_attacks, names(&["5A", "2B"]));
    let copy = chain.clone();
    assert_eq!(copy.all_attacks, chain.all_attacks);
    assert!(BeatChain::default().all_attacks.is_empty());
}

#[test]
fn attack_pattern_is_motion_anything_button() {
    assert_eq!(attack_pattern(5, 'A'), "(5).*(A)");
    assert_eq!(attack_pattern(236, 'C'), "(236).*(C)");
    assert_eq!(attack_pattern(0, 'z'), "(0).*(z)");
}

#[test]
fn name_hits_and_first_hit() {
    let list = names(&["2B", "5A", "j5A", "5AB", "A5"]);
    let hits = name_hits(&list, "(5).*(A)");
    assert_eq!(hits, vec![false, true, true, true, false]);
    assert_eq!(first_hit(&hits), Some(1));
    assert_eq!(first_hit(&vec![false, false]), None);
    assert_eq!(first_hit(&Vec::new()), None);
    assert_eq!(first_hit(&vec![true]), Some(0));
    assert_eq!(name_hits(&list, "(5"), vec![false; 5]);
}

#[test]
fn lookup_finds_the_first_entry_of_a_name() {
    let moving = movement();
    assert_eq!(moving.lookup_attack(&"5A".to_string()).unwrap().name, "five a");
    assert_eq!(moving.lookup_attack(&"5AB".to_string()).unwrap().name, "both");
    assert!(moving.lookup_attack(&"5".to_string()).is_none());
    assert!(moving.lookup_attack(&"".to_string()).is_none());
}

#[test]
fn find_attack_tries_the_last_button_first() {
    let mut moving = movement();
    let found = moving.find_attack(5, "AB".to_string()).unwrap();
    assert_eq!(found.name, "both");
    assert_eq!(moving.beat_chain.available_attacks, names(&["5A", "2B", "236C"]));
    let found = moving.find_attack(5, "AB".to_string()).unwrap();
    assert_eq!(found.name, "five a");
    assert_eq!(moving.beat_chain.available_attacks, names(&["2B", "236C"]));
    assert!(moving.find_attack(5, "AB".to_string()).is_none());
    assert_eq!(moving.beat_chain.available_attacks, names(&["2B", "236C"]));
    let found = moving.find_attack(2, "ABC".to_string()).unwrap();
    assert_eq!(found.name, "fireball");
    assert_eq!(moving.beat_chain.available_attacks, names(&["2B"]));
    assert_eq!(moving.beat_chain.all_attacks.len(), 4);
}

#[test]
fn find_attack_takes_the_first_name_for_a_button() {
    let mut moving = movement();
    let found = moving.find_attack(5, "A".to_string()).unwrap();
    assert_eq!(found.name, "both");
    let mut other = movement();
    assert!(other.find_attack(5, String::new()).is_none());
    assert!(other.find_attack(6, "A".to_string()).is_none());
    assert!(other.find_attack(5, "(".to_string()).is_none());
    assert_eq!(other.beat_chain.available_attacks.len(), 4);
    assert_eq!(other.find_attack(2, "(B".to_string()).unwrap().name, "two b");
}

#[test]
fn attack_to_execute_needs_a_button() {
    let mut moving = movement();
    let mut buffer = FighterInputBuffer::new(PlayerId::P1);
    buffer.current_motion = 2;
    assert!(moving.attack_to_execute(&buffer, false).is_none());
    assert_eq!(moving.beat_chain.available_attacks.len(), 4);
    buffer.current_press = ButtonPress::new(0b0000_0010);
    assert_eq!(moving.attack_to_execute(&buffer, true).unwrap().name, "two b");
    assert_eq!(moving.beat_chain.available_attacks, names(&["5AB", "5A", "236C"]));
    assert!(moving.attack_to_execute(&buffer, false).is_none());
}

#[test]
fn velocity_by_state() {
    let at = |state: ActionState, facing: i32, before: Vec2| {
        let mut moving = movement();
        moving.facing_vector = facing;
        moving.velocity = before;
        moving.determine_velocity(&state);
        moving.velocity
    };
    let zero = Vec2::zero();
    assert_eq!(at(ActionState::Walking, 1, zero), Vec2::new(4_000, 0));
    assert_eq!(at(ActionState::Walking, -1, zero), Vec2::new(-4_000, 0));
    assert_eq!(at(ActionState::BackWalking, 1, Vec2::new(9, 9)), Vec2::new(-4_000, 0));
    assert_eq!(at(ActionState::BackWalking, -1, zero), Vec2::new(4_000, 0));
    assert_eq!(at(ActionState::Dashing, 1, zero), Vec2::new(8_000, 0));
    assert_eq!(at(ActionState::Dashing, -1, zero), Vec2::new(-8_000, 0));
    assert_eq!(at(ActionState::Rising { busy: 3 }, 1, Vec2::new(4_000, 15_000)), Vec2::new(4_000, 14_000));
    assert_eq!(at(ActionState::Falling, 1, Vec2::new(-7, -2_000)), Vec2::new(-7, -3_000));
    assert_eq!(at(ActionState::Falling, 1, Vec2::new(0, i32::MIN)), Vec2::new(0, i32::MIN));
    assert_eq!(at(ActionState::BackDashing { duration: 4 }, 1, Vec2::new(5_000, 5_000)), zero);
    let dash = Vec2::new(10_000, 0);
    assert_eq!(at(ActionState::AirDashing { busy: 0, duration: 1, velocity: dash }, 1, zero), dash);
    assert_eq!(at(ActionState::AirBackDashing { busy: 0, duration: 1, velocity: dash }, -1, zero), dash);
    assert_eq!(at(ActionState::Idle, 1, Vec2::new(8_000, -3)), Vec2::new(4_000, -2));
    assert_eq!(at(ActionState::Crouching, 1, Vec2::new(12, 16)), zero);
    assert_eq!(at(ActionState::Jumpsquat { duration: 1, velocity: dash }, 1, Vec2::new(-101, 0)), Vec2::new(-51, 0));
}

#[test]
fn manage_character_velocity_sets_velocity_and_turning() {
    let mut moving = movement();
    manage_character_velocity(&ActionState::Dashing, &mut moving);
    assert_eq!(moving.velocity, Vec2::new(8_000, 0));
    assert!(!moving.can_turn);
    manage_character_velocity(&ActionState::Walking, &mut moving);
    assert_eq!(moving.velocity, Vec2::new(4_000, 0));
    assert!(moving.can_turn);
}

#[test]
fn force_takes_precedence_and_is_dropped_when_done() {
    let mut moving = movement();
    moving.velocity = Vec2::new(777, 0);
    assert_eq!(moving.get_target_velo(), Vec2::new(777, 0));
    moving.set_interpolated_force(InterpolatedForce::new(Vec2::new(-25_000, 0), Vec2::new(-2_000, 0), 3));
    assert_eq!(moving.get_target_velo(), Vec2::new(-17_334, 0));
    assert!(moving.interpolated_force.is_some());
    assert_eq!(moving.get_target_velo(), Vec2::new(-7_112, 0));
    assert_eq!(moving.get_target_velo(), Vec2::new(-2_000, 0));
    assert!(moving.interpolated_force.is_none());
    assert_eq!(moving.get_target_velo(), Vec2::new(777, 0));
    assert_eq!(moving.velocity, Vec2::new(777, 0));
}

#[test]
fn a_force_without_frames_is_dropped_unused() {
    let mut moving = movement();
    moving.velocity = Vec2::new(5, 6);
    moving.set_interpolated_force(InterpolatedForce::new(Vec2::new(9_000, 0), Vec2::zero(), 0));
    assert_eq!(moving.get_target_velo(), Vec2::new(5, 6));
    assert!(moving.interpolated_force.is_none());
}

#[test]
fn charges() {
    let mut moving = movement();
    assert!(!moving.can_airdash());
    moving.land();
    assert!(moving.can_airdash());
    assert_eq!(moving.airdashes_remaining, 2);
    assert_eq!(moving.air_jumps_remaining, 1);
    moving.spend_airdash();
    moving.spend_airdash();
    assert!(!moving.can_airdash());
    moving.spend_airdash();
    assert_eq!(moving.airdashes_remaining, 0);
    moving.beat_chain.available_attacks.clear();
    moving.land();
    assert_eq!(moving.airdashes_remaining, 2);
    assert_eq!(moving.beat_chain.available_attacks.len(), 4);
    assert!(!moving.is_falling());
    moving.velocity = Vec2::new(0, -1);
    assert!(moving.is_falling());
}

#[test]
fn facing_follows_the_positions() {
    let mut data = PlayerData::default();
    assert_eq!(data.get_position(&PlayerId::P1), Vec3::new(-50_000, 0, 0));
    assert_eq!(data.get_position(&PlayerId::P2), Vec3::new(50_000, 0, 0));
    assert_eq!(data.get_facing_vector(&PlayerId::P1), 1);
    assert_eq!(data.get_facing_vector(&PlayerId::P2), -1);
    data.set_position(&PlayerId::P1, Vec3::new(60_000, 1, 2));
    assert_eq!(data.get_position(&PlayerId::P1), Vec3::new(60_000, 1, 2));
    assert_eq!(data.positions[0].player_id, PlayerId::P1);
    assert_eq!(data.get_facing_vector(&PlayerId::P1), -1);
    assert_eq!(data.get_facing_vector(&PlayerId::P2), 1);
    data.set_position(&PlayerId::P2, Vec3::new(60_000, 0, 0));
    assert_eq!(data.get_facing_vector(&PlayerId::P1), 1);
    assert_eq!(data.get_facing_vector(&PlayerId::P2), -1);
}

#[test]
fn apply_velocity_moves_clamps_to_the_ground_and_turns() {
    let mut data = PlayerData::default();
    let mut moving = movement();
    moving.can_turn = true;
    moving.velocity = Vec2::new(120_000, -3_000);
    let start = Vec3::new(-50_000, 1_000, 7);
    let moved = apply_character_velocity(&mut data, &PlayerId::P1, &mut moving, start);
    assert_eq!(moved, Vec3::new(70_000, 0, 7));
    assert_eq!(data.get_position(&PlayerId::P1), moved);
    assert_eq!(moving.facing_vector, -1);
    moving.can_turn = false;
    moving.velocity = Vec2::new(-120_000, 500);
    let back = apply_character_velocity(&mut data, &PlayerId::P1, &mut moving, moved);
    assert_eq!(back, Vec3::new(-50_000, 500, 7));
    assert_eq!(moving.facing_vector, -1);
    moving.set_interpolated_force(InterpolatedForce::new(Vec2::new(1_000, 0), Vec2::new(3_000, 0), 2));
    let pushed = apply_character_velocity(&mut data, &PlayerId::P2, &mut moving, Vec3::new(0, 0, 0));
    assert_eq!(pushed, Vec3::new(2_000, 0, 0));
    assert_eq!(data.get_position(&PlayerId::P2), pushed);
}

#[test]
fn read_fighter_inputs_reaches_the_players_buffer() {
    let mut data = PlayerData::default();
    let event = bevy_fighter::inputs::FighterInputEvent::new(6, PlayerId::P2, ButtonPress::new(4));
    data.read_fighter_inputs(&event);
    assert!(data.buffers[0].motions.is_empty());
    assert_eq!(data.buffers[0].current_motion, 5);
    assert_eq!(data.buffers[1].motions, vec![6]);
    assert_eq!(data.buffers[1].current_input(), "6C");
}
