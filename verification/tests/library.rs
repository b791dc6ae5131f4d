use bevy_fighter::animation::Animation;
use bevy_fighter::animation::AnimationController;
use bevy_fighter::animation::AnimationSerialized;
use bevy_fighter::animation::AnimationState;
use bevy_fighter::animation::AnimationTransition;
use bevy_fighter::attacks::Attack;
use bevy_fighter::attacks::AttackSerialized;
use bevy_fighter::attacks::HitboxEvent;
use bevy_fighter::attacks::HitboxEventSerialized;
use bevy_fighter::character::movement::CharacterMovementSerialized;
use bevy_fighter::character::Backdash;
use bevy_fighter::character::CharacterMovement;
use bevy_fighter::character_library::CharacterLibrary;
use bevy_fighter::character_library::CharacterSheetSerialized;
use bevy_fighter::character_library::LoadError;
use bevy_fighter::collision::hitbox::HitboxSerialized;
use bevy_fighter::collision::AttackProperty;
use bevy_fighter::collision::Hitbox;
use bevy_fighter::collision::HitboxData;
use bevy_fighter::math::Vec2;
use bevy_fighter::text::namespaced;
use bevy_fighter::text::own_pattern;
use bevy_fighter::text::push_decimal;
use bevy_fighter::text::reads_at;
use bevy_fighter::text::trimmed;
use bevy_fighter::text::without;
use bevy_fighter::text::without_char;

fn animation(name: &str, first_frame: usize, length: usize, hold: u8) -> AnimationSerialized {
    AnimationSerialized { name: name.to_string(), first_frame, length, loopable: true, hold }
}

fn hitbox(name: &str, damage: u8) -> HitboxSerialized {
    HitboxSerialized {
        name: name.to_string(),
        attack_level: 2,
        damage,
        proration: 900,
        force: Vec2::new(3_000, 1_000),
        air_blockable: true,
        property: AttackProperty::LOW,
        duration: 4,
        chip: 1,
        projectile: false,
    }
}

fn event(hitbox: &str, frame: u8) -> HitboxEventSerialized {
    HitboxEventSerialized {
        hitbox: hitbox.to_string(),
        position: Vec2::new(10_000, 0),
        size: Vec2::new(20_000, 5_000),
        frame,
    }
}

fn attack(name: &str, busy: u8, events: Vec<HitboxEventSerialized>) -> AttackSerialized {
    AttackSerialized { name: name.to_string(), hitbox_events: events, busy }
}

fn movement() -> CharacterMovementSerialized {
    CharacterMovementSerialized {
        jumpsquat: 3,
        air_jumps: 1,
        airdashes: 2,
        air_dash_speed: 10_000,
        air_back_dash_speed: 6_000,
        walk_speed: 4_000,
        back_walk_speed: 2_500,
        dash_speed: 8_000,
        gravity: 1_000,
        jump_height: 15_000,
        max_airdash_time: 12,
        max_air_backdash_time: 9,
        backdash: Backdash::Standard { busy: 20, speed: 25_000, motion_duration: 20 },
    }
}

fn sheet() -> CharacterSheetSerialized {
    CharacterSheetSerialized {
        animations: vec![
            animation("idle", 0, 4, 2),
            animation("walk", 4, 6, 1),
            animation("idle<>walk", 10, 2, 0),
            animation("5A", 12, 3, 1),
        ],
        hitboxes: vec![hitbox("jab", 5), hitbox("sweep", 9)],
        attacks: vec![
            attack("5A", 10, vec![event("jab", 3)]),
            attack("2_B", 14, vec![event("sweep", 5), event("jab", 7)]),
        ],
        movement: movement(),
    }
}

fn loaded() -> CharacterLibrary {
    let mut library = CharacterLibrary::new();
    library.load_character_data("roa", sheet()).unwrap();
    library
}

#[test]
fn text_helpers() {
    assert_eq!(namespaced("roa", "5A"), "roa_5A");
    assert_eq!(namespaced("", ""), "_");
    assert_eq!(own_pattern("roa"), "(^roa.+)");
    assert_eq!(without("roa_5A", "roa"), "_5A");
    assert_eq!(without("aaa", "aa"), "a");
    assert_eq!(without("abab", "ab"), "");
    assert_eq!(without("xabyabz", "ab"), "xyz");
    assert_eq!(without("abc", ""), "abc");
    assert_eq!(without("", "ab"), "");
    assert_eq!(without("ab", "abc"), "ab");
    assert_eq!(without("aab", "ab"), "a");
    assert_eq!(without_char("a_b__c_", '_'), "abc");
    assert_eq!(without_char("", '_'), "");
    assert_eq!(trimmed("roa_idle<>walk", "roa"), "idle<>walk");
    assert_eq!(trimmed("roa_2_B", "roa"), "2B");
    assert_eq!(trimmed("aroa_roa", "roa"), "a");
    assert!(reads_at("hello", 1, "ell"));
    assert!(!reads_at("hello", 1, "elo"));
    assert!(!reads_at("hello", 3, "lox"));
    assert!(reads_at("hello", 5, ""));
    let mut text = String::from("n");
    for n in [0u8, 7, 10, 42, 99, 100, 109, 255] {
        push_decimal(&mut text, n);
    }
    assert_eq!(text, "n07104299100109255");
}

#[test]
fn animation_from_serialized_finds_its_last_cell() {
    let built = Animation::from_serialized(animation("walk", 4, 6, 1));
    assert_eq!(
        built,
        Animation { first_frame: 4, length: 6, loopable: true, final_frame: 9, hold: 1 }
    );
    assert_eq!(Animation::from_serialized(animation("one", 0, 1, 0)).final_frame, 0);
    assert_eq!(Animation::from_serialized(animation("none", 3, 0, 0)).final_frame, 2);
    assert!(animation("ok", usize::MAX, 1, 0).is_sound());
    assert_eq!(Animation::from_serialized(animation("ok", usize::MAX, 1, 0)).final_frame, usize::MAX);
    assert!(!animation("empty", 0, 0, 0).is_sound());
    assert!(!animation("far", usize::MAX, 2, 0).is_sound());
    assert!(!animation("far", 2, usize::MAX, 0).is_sound());
    assert_eq!(
        Animation::default(),
        Animation { first_frame: 0, length: 0, loopable: false, final_frame: 0, hold: 0 }
    );
}

#[test]
fn hitbox_from_serialized() {
    let built = Hitbox::from_serialized(hitbox("sweep", 9));
    assert_eq!(built.player_id, 0);
    assert!(built.active);
    assert!(built.air_blockable);
    assert_eq!(built.property, AttackProperty::LOW);
    assert_eq!(built.duration, 4);
    let mut data = HitboxData::jab(9);
    data.attack_level = 2;
    data.starting_proration = 900;
    data.force = Vec2::new(3_000, 1_000);
    assert_eq!(built.hitbox_data, data);
}

#[test]
fn new_library_is_empty() {
    let library = CharacterLibrary::new();
    assert!(library.read_animations().is_empty());
    assert!(library.read_hitboxes().is_empty());
    assert!(library.read_attacks().is_empty());
    assert!(library.movements.is_empty());
    assert_eq!(library.get_animation("roa_idle".to_string()), None);
    assert_eq!(library.get_hitbox("roa_jab".to_string()), None);
    assert!(library.get_movement("roa").is_none());
}

#[test]
fn load_namespaces_everything() {
    let library = loaded();
    let ids: Vec<&str> = library.read_animations().iter().map(|e| e.0.as_str()).collect();
    assert_eq!(ids, vec!["roa_idle", "roa_walk", "roa_idle<>walk", "roa_5A"]);
    assert_eq!(
        library.get_animation("roa_walk".to_string()),
        Some(Animation { first_frame: 4, length: 6, loopable: true, final_frame: 9, hold: 1 })
    );
    assert_eq!(library.get_animation("walk".to_string()), None);
    let ids: Vec<&str> = library.read_hitboxes().iter().map(|e| e.0.as_str()).collect();
    assert_eq!(ids, vec!["roa_jab", "roa_sweep"]);
    assert_eq!(library.get_hitbox("roa_sweep".to_string()), Some(Hitbox::from_serialized(hitbox("sweep", 9))));
    let ids: Vec<&str> = library.read_attacks().iter().map(|e| e.0.as_str()).collect();
    assert_eq!(ids, vec!["roa_5A", "roa_2_B"]);
    let sweep = &library.read_attacks()[1].1;
    assert_eq!(sweep.name, "2_B");
    assert_eq!(sweep.busy, 14);
    assert_eq!(
        sweep.hitbox_events,
        vec![
            HitboxEvent {
                hitbox: Hitbox::from_serialized(hitbox("sweep", 9)),
                position: Vec2::new(10_000, 0),
                size: Vec2::new(20_000, 5_000),
                frame: 5,
            },
            HitboxEvent {
                hitbox: Hitbox::from_serialized(hitbox("jab", 5)),
                position: Vec2::new(10_000, 0),
                size: Vec2::new(20_000, 5_000),
                frame: 7,
            },
        ]
    );
}

#[test]
fn load_builds_the_movement() {
    let library = loaded();
    let moving = library.get_movement("roa").unwrap();
    assert_eq!(moving.jumpsquat, 3);
    assert_eq!(moving.jump_lockout, 10);
    assert_eq!((moving.air_jumps, moving.air_jumps_remaining), (1, 1));
    assert_eq!((moving.airdashes, moving.airdashes_remaining), (2, 2));
    assert_eq!(moving.air_dash_speed, 10_000);
    assert_eq!(moving.air_back_dash_speed, 6_000);
    assert_eq!(moving.walk_speed, 4_000);
    assert_eq!(moving.back_walk_speed, 2_500);
    assert_eq!(moving.dash_speed, 8_000);
    assert_eq!(moving.gravity, 1_000);
    assert_eq!(moving.jump_height, 15_000);
    assert_eq!((moving.max_airdash_time, moving.max_air_backdash_time), (12, 9));
    assert_eq!(moving.backdash, Backdash::Standard { busy: 20, speed: 25_000, motion_duration: 20 });
    assert_eq!(moving.facing_vector, 1);
    assert_eq!(moving.velocity, Vec2::zero());
    assert!(moving.interpolated_force.is_none());
    assert!(moving.can_turn);
    let keys: Vec<&str> = moving.attacks.iter().map(|e| e.0.as_str()).collect();
    assert_eq!(keys, vec!["5A", "2B"]);
    assert_eq!(moving.attacks[1].1.name, "2_B");
    assert_eq!(moving.beat_chain.all_attacks, vec!["5A".to_string(), "2B".to_string()]);
    assert_eq!(moving.beat_chain.available_attacks, vec!["5A".to_string(), "2B".to_string()]);
    assert!(library.get_movement("aoko").is_none());
}

#[test]
fn a_second_character_keeps_its_own() {
    let mut library = loaded();
    let mut other = sheet();
    other.attacks = vec![attack("6C", 30, vec![event("jab", 1)])];
    other.animations.truncate(1);
    library.load_character_data("aoko", other).unwrap();
    assert_eq!(library.read_attacks().len(), 3);
    assert_eq!(library.read_animations().len(), 5);
    let roa = library.get_movement("roa").unwrap();
    assert_eq!(roa.beat_chain.all_attacks, vec!["5A".to_string(), "2B".to_string()]);
    let aoko = library.get_movement("aoko").unwrap();
    assert_eq!(aoko.beat_chain.all_attacks, vec!["6C".to_string()]);
    assert_eq!(aoko.attacks[0].1.busy, 30);
}

#[test]
fn loading_again_replaces_in_place() {
    let mut library = loaded();
    let mut again = sheet();
    again.animations = vec![animation("walk", 40, 2, 7)];
    again.hitboxes = vec![hitbox("jab", 50)];
    again.attacks = vec![attack("5A", 11, vec![event("jab", 1)])];
    again.movement.walk_speed = 1;
    library.load_character_data("roa", again).unwrap();
    let ids: Vec<&str> = library.read_animations().iter().map(|e| e.0.as_str()).collect();
    assert_eq!(ids, vec!["roa_idle", "roa_walk", "roa_idle<>walk", "roa_5A"]);
    assert_eq!(library.get_animation("roa_walk".to_string()).unwrap().final_frame, 41);
    assert_eq!(library.get_hitbox("roa_jab".to_string()).unwrap().hitbox_data.damage, 50);
    assert_eq!(library.read_attacks().len(), 2);
    assert_eq!(library.read_attacks()[0].1.busy, 11);
    assert_eq!(library.read_attacks()[0].1.hitbox_events[0].hitbox.hitbox_data.damage, 50);
    assert_eq!(library.movements.len(), 1);
    assert_eq!(library.get_movement("roa").unwrap().walk_speed, 1);
}

#[test]
fn unsound_animation_is_refused_and_nothing_changes() {
    let mut library = loaded();
    let mut bad = sheet();
    bad.animations = vec![animation("fine", 90, 1, 0), animation("broken", 0, 0, 0), animation("worse", 0, 0, 0)];
    match library.load_character_data("aoko", bad) {
        Err(LoadError::BadAnimation { name }) => assert_eq!(name, "aoko_broken"),
        other => panic!("unexpected {:?}", other),
    }
    assert_eq!(library.read_animations().len(), 4);
    assert_eq!(library.read_hitboxes().len(), 2);
    assert_eq!(library.read_attacks().len(), 2);
    assert!(library.get_movement("aoko").is_none());
}

#[test]
fn missing_hitbox_is_refused_and_nothing_changes() {
    let mut library = loaded();
    let mut bad = sheet();
    bad.animations = vec![animation("extra", 90, 1, 0)];
    bad.hitboxes = vec![hitbox("kick", 1)];
    bad.attacks = vec![
        attack("5A", 10, vec![event("kick", 3)]),
        attack("6A", 10, vec![event("kick", 3), event("jab", 3), event("sweep", 4)]),
    ];
    match library.load_character_data("aoko", bad) {
        Err(LoadError::MissingHitbox { name }) => assert_eq!(name, "aoko_jab"),
        other => panic!("unexpected {:?}", other),
    }
    assert_eq!(library.read_animations().len(), 4);
    assert_eq!(library.get_animation("aoko_extra".to_string()), None);
    assert_eq!(library.read_hitboxes().len(), 2);
    assert_eq!(library.get_hitbox("aoko_kick".to_string()), None);
    assert_eq!(library.read_attacks().len(), 2);
    assert!(library.movements.len() == 1);
}

#[test]
fn attack_from_serialized_resolves_hitboxes() {
    let library = loaded();
    let built = Attack::from_serialized(attack("x", 7, vec![event("sweep", 2)]), &library, "roa").unwrap();
    assert_eq!(built.name, "x");
    assert_eq!(built.busy, 7);
    assert_eq!(built.hitbox_events.len(), 1);
    assert_eq!(built.hitbox_events[0].hitbox.hitbox_data.damage, 9);
    assert_eq!(built.hitbox_events[0].frame, 2);
    let empty = Attack::from_serialized(attack("y", 1, Vec::new()), &library, "nobody").unwrap();
    assert!(empty.hitbox_events.is_empty());
    match Attack::from_serialized(attack("z", 1, vec![event("jab", 1), event("nope", 2)]), &library, "roa") {
        Err(LoadError::MissingHitbox { name }) => assert_eq!(name, "roa_nope"),
        other => panic!("unexpected {:?}", other),
    }
    match HitboxEvent::from_serialized(event("jab", 1), &library, "aoko") {
        Err(LoadError::MissingHitbox { name }) => assert_eq!(name, "aoko_jab"),
        other => panic!("unexpected {:?}", other),
    }
    assert_eq!(HitboxEvent::from_serialized(event("jab", 1), &library, "roa").unwrap().hitbox.hitbox_data.damage, 5);
}

#[test]
fn movement_from_serialized_takes_only_its_own_attacks() {
    let mut library = CharacterLibrary::new();
    library.add_attacks(vec![
        ("roa_5A".to_string(), Attack::new("a".to_string(), Vec::new(), 1)),
        ("aoko_5A".to_string(), Attack::new("b".to_string(), Vec::new(), 2)),
        ("roa".to_string(), Attack::new("c".to_string(), Vec::new(), 3)),
        ("xroa_5B".to_string(), Attack::new("d".to_string(), Vec::new(), 4)),
        ("roa_5_A".to_string(), Attack::new("e".to_string(), Vec::new(), 5)),
        ("roa5C".to_string(), Attack::new("f".to_string(), Vec::new(), 6)),
    ]);
    let moving = CharacterMovement::from_serialized(movement(), &library, "roa");
    assert_eq!(
        moving.beat_chain.all_attacks,
        vec!["5A".to_string(), "5A".to_string(), "5C".to_string()]
    );
    let keys: Vec<(&str, &str)> = moving.attacks.iter().map(|e| (e.0.as_str(), e.1.name.as_str())).collect();
    assert_eq!(keys, vec![("5A", "e"), ("5C", "f")]);
}

#[test]
fn add_puts_in_order_and_replaces() {
    let mut library = CharacterLibrary::new();
    let cell = |n: usize| Animation { first_frame: n, length: 1, loopable: false, final_frame: n, hold: 0 };
    library.add_animations(vec![("a".to_string(), cell(1)), ("b".to_string(), cell(2)), ("a".to_string(), cell(3))]);
    assert_eq!(library.read_animations().len(), 2);
    assert_eq!(library.get_animation("a".to_string()), Some(cell(3)));
    assert_eq!(library.get_animation("b".to_string()), Some(cell(2)));
    library.add_animations(vec![("b".to_string(), cell(9))]);
    assert_eq!(library.read_animations()[1], ("b".to_string(), cell(9)));
    let box_of = |d: u8| Hitbox::new(0, false, HitboxData::jab(d), AttackProperty::MID, 1);
    library.add_hitboxes(vec![("h".to_string(), box_of(1)), ("h".to_string(), box_of(2))]);
    assert_eq!(library.get_hitbox("h".to_string()), Some(box_of(2)));
    assert_eq!(library.read_hitboxes().len(), 1);
}

fn controller() -> AnimationController {
    AnimationController::new("roa", &loaded()).unwrap()
}

#[test]
fn controller_starts_on_idle_with_its_own_animations() {
    let c = controller();
    assert_eq!(c.character_prefix, "roa");
    assert_eq!(c.animation_state, AnimationState::LOOPING);
    assert_eq!(c.core_animation.final_frame, 3);
    assert_eq!(c.smear_animation, None);
    assert_eq!((c.current_index, c.current_hold, c.hold_counter), (0, 2, 0));
    let names: Vec<&str> = c.animations.iter().map(|e| e.0.as_str()).collect();
    assert_eq!(names, vec!["idle", "walk", "idle<>walk", "5A"]);
    assert_eq!(c.get_animation("walk".to_string()).unwrap().first_frame, 4);
    assert_eq!(c.get_animation("roa_walk".to_string()), None);
    assert_eq!(AnimationState::default(), AnimationState::LOOPING);
}

#[test]
fn controller_needs_an_idle_animation() {
    match AnimationController::new("aoko", &loaded()) {
        Err(LoadError::MissingAnimation { name }) => assert_eq!(name, "aoko_idle"),
        other => panic!("unexpected {:?}", other),
    }
}

#[test]
fn looping_holds_each_cell_and_wraps() {
    let mut c = controller();
    let frames: Vec<usize> = (0..14).map(|_| c.get_next_frame()).collect();
    assert_eq!(frames, vec![0, 0, 1, 1, 1, 2, 2, 2, 3, 3, 3, 0, 0, 0]);
    assert_eq!(c.current_hold, 2);
}

#[test]
fn transition_smears_then_loops() {
    let mut c = controller();
    c.get_next_frame();
    c.transition(AnimationTransition::ToWalk);
    assert_eq!(c.animation_state, AnimationState::SMEARING);
    assert_eq!(c.smear_animation.unwrap().first_frame, 10);
    assert_eq!(c.core_animation.first_frame, 4);
    assert_eq!((c.current_index, c.hold_counter), (10, 0));
    let frames: Vec<usize> = (0..6).map(|_| c.get_next_frame()).collect();
    assert_eq!(frames, vec![11, 4, 4, 5, 5, 6]);
    assert_eq!(c.animation_state, AnimationState::LOOPING);
    assert_eq!(c.smear_animation, None);
}

#[test]
fn transition_without_smear_loops_at_once() {
    let mut c = controller();
    c.transition(AnimationTransition::ToAttack { name: "5A".to_string() });
    assert_eq!(c.animation_state, AnimationState::LOOPING);
    assert_eq!(c.core_animation.first_frame, 12);
    assert_eq!(c.current_index, 12);
    c.transition(AnimationTransition::WalkToIdle);
    assert_eq!(c.animation_state, AnimationState::LOOPING);
    assert_eq!(c.smear_animation, None);
    assert_eq!(c.core_animation.first_frame, 0);
    assert_eq!(c.current_index, 0);
}

#[test]
fn a_transition_to_an_unknown_animation_keeps_the_core() {
    let mut c = controller();
    c.transition(AnimationTransition::ToWalk);
    c.transition(AnimationTransition::ToDash);
    assert_eq!(c.animation_state, AnimationState::LOOPING);
    assert_eq!(c.core_animation.first_frame, 4);
    assert_eq!(c.current_index, 4);
    c.transition(AnimationTransition::ToAttack { name: "9Z".to_string() });
    assert_eq!(c.core_animation.first_frame, 4);
}

#[test]
fn reset_goes_back_to_the_first_cell() {
    let mut c = controller();
    c.loop_animation("walk".to_string());
    assert_eq!(c.current_index, 0);
    c.reset();
    assert_eq!(c.current_index, 4);
    c.get_next_frame();
    c.smear_animation("idle<>walk".to_string(), "idle".to_string());
    assert_eq!(c.animation_state, AnimationState::SMEARING);
    assert_eq!(c.hold_counter, 1);
    c.reset();
    assert_eq!((c.current_index, c.hold_counter), (10, 0));
    c.update_animation(None, "5A".to_string());
    c.reset();
    assert_eq!(c.current_index, 12);
}

#[test]
fn owned_marks_the_entries_of_a_character() {
    let library = loaded();
    assert_eq!(bevy_fighter::table::owned(library.read_attacks(), "roa"), vec![true, true]);
    assert_eq!(bevy_fighter::table::owned(library.read_attacks(), "ro"), vec![true, true]);
    assert_eq!(bevy_fighter::table::owned(library.read_attacks(), "oa"), vec![false, false]);
    assert_eq!(bevy_fighter::table::owned(library.read_attacks(), "roa_5A"), vec![false, false]);
    assert_eq!(bevy_fighter::table::owned(library.read_attacks(), "("), vec![false, false]);
    assert_eq!(
        bevy_fighter::table::owned(library.read_animations(), "roa_idle"),
        vec![false, false, true, false]
    );
}

#[test]
fn take_own_goes_by_the_marks() {
    let library = loaded();
    let (names, table) = bevy_fighter::character::movement::take_own_attacks(
        library.read_attacks(),
        &vec![false, true],
        "roa",
    );
    assert_eq!(names, vec!["2B".to_string()]);
    assert_eq!(table.len(), 1);
    assert_eq!((table[0].0.as_str(), table[0].1.name.as_str()), ("2B", "2_B"));
    let (names, table) = bevy_fighter::character::movement::take_own_attacks(
        library.read_attacks(),
        &vec![true, true],
        "_",
    );
    assert_eq!(names, vec!["roa5A".to_string(), "roa2B".to_string()]);
    assert_eq!(table.len(), 2);
    let own = bevy_fighter::animation::controller::take_own_animations(
        library.read_animations(),
        &vec![true, false, false, true],
        "roa",
    );
    let names: Vec<&str> = own.iter().map(|e| e.0.as_str()).collect();
    assert_eq!(names, vec!["idle", "5A"]);
    let none = bevy_fighter::animation::controller::take_own_animations(
        library.read_animations(),
        &vec![false; 4],
        "roa",
    );
    assert!(none.is_empty());
}

#[test]
fn table_put_and_position() {
    let mut entries: Vec<(String, Hitbox)> = Vec::new();
    let box_of = |d: u8| Hitbox::new(0, false, HitboxData::jab(d), AttackProperty::MID, 1);
    bevy_fighter::table::put(&mut entries, "a".to_string(), box_of(1));
    bevy_fighter::table::put(&mut entries, "b".to_string(), box_of(2));
    bevy_fighter::table::put(&mut entries, "a".to_string(), box_of(3));
    assert_eq!(entries, vec![("a".to_string(), box_of(3)), ("b".to_string(), box_of(2))]);
    assert_eq!(bevy_fighter::table::position(&entries, &"b".to_string()), Some(1));
    assert_eq!(bevy_fighter::table::position(&entries, &"c".to_string()), None);
    entries.push(("b".to_string(), box_of(9)));
    assert_eq!(bevy_fighter::table::position(&entries, &"b".to_string()), Some(1));
}
