//! A character: its state from frame to frame, and how it moves.

pub mod movement;
pub mod state;

pub use movement::Backdash;
pub use movement::BeatChain;
pub use movement::CharacterMovement;
pub use state::ActionState;
pub use state::CharacterState;

use vstd::prelude::*;
use crate::animation::AnimationTransitionEvent;
use crate::character::movement::CharacterMovementView;
use crate::inputs::mapping::FighterCharacterPosition;
use crate::inputs::mapping::PlayerData;
use crate::inputs::mapping::spec_slot;
use crate::math::Vec3;

verus! {

/// The two sides of a match.
#[derive(Debug, Clone, Copy, PartialEq, Eq, Structural)]
pub enum PlayerId {
    P1,
    P2,
}

impl PlayerId {
    /// The slot of the player in the tables of a match: 0 for the first
    /// player, 1 for the second.
    pub fn slot(&self) -> (slot: usize)
        ensures
            slot == spec_slot(*self),
    {
        match self {
            PlayerId::P1 => 0,
            PlayerId::P2 => 1,
        }
    }
}

impl Default for PlayerId {
    fn default() -> (id: Self)
        ensures
            id == PlayerId::P1,
    {
        PlayerId::P1
    }
}

/// Where a character that moves by `velocity` from `position` comes to
/// stand: it never sinks below the ground.
pub open spec fn spec_step_from(position: Vec3, velocity: crate::math::Vec2) -> Vec3 {
    let moved = position.spec_moved(velocity);
    if moved.y < 0 {
        Vec3 { y: 0, ..moved }
    } else {
        moved
    }
}

/// One frame of the state of the character of `player_id`: the state takes
/// in the player's buffer and the character's position. Hands out what the
/// renderer is to be told, if anything.
pub fn manage_character_state(
    player_data: &mut PlayerData,
    player_id: &PlayerId,
    state: &mut ActionState,
    movement: &mut CharacterMovement,
) -> (event: Option<AnimationTransitionEvent>)
    requires
        old(player_data).wf(),
    ensures
        ({
            let slot = spec_slot(*player_id);
            let step = old(state)@.spec_update(
                old(player_data).buffers[slot]@,
                old(movement)@,
                old(player_data).positions[slot].position,
            );
            &&& final(state)@ == step.0.state
            &&& final(movement)@ == step.0.movement
            &&& final(player_data).buffers[slot]@ == step.0.buffer
            &&& final(player_data).buffers[1 - slot] == old(player_data).buffers[1 - slot]
            &&& final(player_data).positions == old(player_data).positions
            &&& match event {
                Some(told) => told.player_id == *player_id && Some(told.transition@) == step.1,
                None => step.1 is None,
            }
        }),
        final(player_data).wf(),
{
    let position = player_data.get_position(player_id);
    let i = player_id.slot();
    let transition = state.update(&mut player_data.buffers[i], movement, position);
    match transition {
        Some(t) => Some(AnimationTransitionEvent::new(*player_id, t)),
        None => None,
    }
}

/// One frame of a character's velocity: it is set for `state`, and the
/// character may turn where the state lets it.
pub fn manage_character_velocity(state: &ActionState, movement: &mut CharacterMovement)
    ensures
        final(movement)@ == (CharacterMovementView {
            can_turn: state@.spec_can_turn(),
            ..old(movement)@.spec_determine_velocity(state@)
        }),
{
    movement.determine_velocity(state);
    movement.can_turn = state.get_can_turn();
}

/// One frame of a character's motion: it moves from `position` by its
/// force or its velocity and stays above the ground, the match notes where
/// it stands, and the character turns toward the other if it may. Hands out
/// where it now stands.
pub fn apply_character_velocity(
    player_data: &mut PlayerData,
    player_id: &PlayerId,
    movement: &mut CharacterMovement,
    position: Vec3,
) -> (moved: Vec3)
    requires
        old(player_data).wf(),
    ensures
        ({
            let read = old(movement)@.spec_target_velo();
            let slot = spec_slot(*player_id);
            &&& moved == spec_step_from(position, read.0)
            &&& final(player_data).buffers == old(player_data).buffers
            &&& final(player_data).positions@ == old(player_data).positions@.update(
                slot,
                FighterCharacterPosition { position: moved, ..old(player_data).positions[slot] },
            )
            &&& final(movement)@ == (CharacterMovementView {
                facing_vector: if read.1.can_turn {
                    final(player_data).spec_facing_vector(*player_id)
                } else {
                    read.1.facing_vector
                },
                ..read.1
            })
        }),
        final(player_data).wf(),
{
    let tv = movement.get_target_velo();
    let mut moved = position.moved(tv);
    if moved.y < 0 {
        moved.y = 0;
    }
    player_data.set_position(player_id, moved);
    let facing_vector = player_data.get_facing_vector(player_id);
    if movement.can_turn {
        movement.facing_vector = facing_vector;
    }
    moved
}

} // verus!
