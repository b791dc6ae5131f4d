use vstd::prelude::*;
use vstd::std_specs::cmp::PartialEqSpecImpl;
use crate::animation::AnimationTransition;
use crate::animation::AnimationTransitionView;
use crate::attacks::Attack;
use crate::attacks::AttackView;
use crate::attacks::HitboxEvent;
use crate::collision::hitbox::Hitbox;
use crate::character::movement::Backdash;
use crate::character::movement::CharacterMovement;
use crate::character::movement::CharacterMovementView;
use crate::inputs::buffer::FighterInputBuffer;
use crate::inputs::buffer::FighterInputBufferView;
use crate::inputs::input_events::CommandType;
use crate::math::UNIT;
use crate::math::Vec2;
use crate::math::Vec3;
use crate::math::back_directed;
use crate::math::directed;
use crate::math::scale;
use crate::math::spec_directed;
use crate::math::spec_scale;
use crate::physics::InterpolatedForce;
use crate::utils::countdown;
use crate::utils::y_negative;
use crate::utils::y_positive;

verus! {

/// What a character is doing. Two states are equal when they are the same
/// kind of state, whatever they carry.
#[derive(Debug)]
pub enum ActionState {
    Idle,
    Walking,
    BackWalking,
    Attacking {
        /// The number of frames until the attack completes.
        duration: u8,
        /// The attack that is performed.
        attack: Attack,
        /// Whether the attack can be cut short.
        cancellable: bool,
    },
    Crouching,
    Jumpsquat {
        /// The number of frames until the character leaves the ground.
        duration: u8,
        /// The velocity of the jump to come.
        velocity: Vec2,
    },
    AirJumpsquat {
        /// The number of frames until the character jumps again.
        duration: u8,
        /// The velocity of the jump to come.
        velocity: Vec2,
    },
    Rising {
        /// The number of frames until the player can act.
        busy: u8,
    },
    Falling,
    Dashing,
    BackDashing {
        /// The number of frames until the backdash completes.
        duration: u8,
    },
    AirDashing {
        /// The number of frames until the player can act.
        busy: u8,
        /// The number of frames until the dash completes.
        duration: u8,
        /// The velocity of the dash.
        velocity: Vec2,
    },
    AirBackDashing {
        /// The number of frames until the player can act.
        busy: u8,
        /// The number of frames until the dash completes.
        duration: u8,
        /// The velocity of the dash.
        velocity: Vec2,
    },
}

/// The state of a character: another name for [`ActionState`].
pub type CharacterState = ActionState;

/// A state as plain values.
pub enum ActionStateView {
    Idle,
    Walking,
    BackWalking,
    Attacking { duration: u8, attack: AttackView, cancellable: bool },
    Crouching,
    Jumpsquat { duration: u8, velocity: Vec2 },
    AirJumpsquat { duration: u8, velocity: Vec2 },
    Rising { busy: u8 },
    Falling,
    Dashing,
    BackDashing { duration: u8 },
    AirDashing { busy: u8, duration: u8, velocity: Vec2 },
    AirBackDashing { busy: u8, duration: u8, velocity: Vec2 },
}

impl View for ActionState {
    type V = ActionStateView;

    open spec fn view(&self) -> ActionStateView {
        match *self {
            ActionState::Idle => ActionStateView::Idle,
            ActionState::Walking => ActionStateView::Walking,
            ActionState::BackWalking => ActionStateView::BackWalking,
            ActionState::Attacking { duration, attack, cancellable } => ActionStateView::Attacking {
                duration,
                attack: attack@,
                cancellable,
            },
            ActionState::Crouching => ActionStateView::Crouching,
            ActionState::Jumpsquat { duration, velocity } => ActionStateView::Jumpsquat {
                duration,
                velocity,
            },
            ActionState::AirJumpsquat { duration, velocity } => ActionStateView::AirJumpsquat {
                duration,
                velocity,
            },
            ActionState::Rising { busy } => ActionStateView::Rising { busy },
            ActionState::Falling => ActionStateView::Falling,
            ActionState::Dashing => ActionStateView::Dashing,
            ActionState::BackDashing { duration } => ActionStateView::BackDashing { duration },
            ActionState::AirDashing { busy, duration, velocity } => ActionStateView::AirDashing {
                busy,
                duration,
                velocity,
            },
            ActionState::AirBackDashing {
                busy,
                duration,
                velocity,
            } => ActionStateView::AirBackDashing { busy, duration, velocity },
        }
    }
}

impl ActionStateView {
    /// A number for each kind of state.
    pub open spec fn kind(self) -> int {
        match self {
            ActionStateView::Idle => 0,
            ActionStateView::Walking => 1,
            ActionStateView::BackWalking => 2,
            ActionStateView::Attacking { .. } => 3,
            ActionStateView::Crouching => 4,
            ActionStateView::Jumpsquat { .. } => 5,
            ActionStateView::AirJumpsquat { .. } => 6,
            ActionStateView::Rising { .. } => 7,
            ActionStateView::Falling => 8,
            ActionStateView::Dashing => 9,
            ActionStateView::BackDashing { .. } => 10,
            ActionStateView::AirDashing { .. } => 11,
            ActionStateView::AirBackDashing { .. } => 12,
        }
    }

    /// Whether two states are of the same kind.
    pub open spec fn same_kind(self, other: ActionStateView) -> bool {
        self.kind() == other.kind()
    }

    /// The state one frame later, as far as its own counters go: each steps
    /// down and stops at zero.
    pub open spec fn spec_tick(self) -> ActionStateView {
        match self {
            ActionStateView::Attacking { duration, attack, cancellable } => ActionStateView::Attacking {
                duration: countdown(duration),
                attack,
                cancellable,
            },
            ActionStateView::Jumpsquat { duration, velocity } => ActionStateView::Jumpsquat {
                duration: countdown(duration),
                velocity,
            },
            ActionStateView::AirJumpsquat { duration, velocity } => ActionStateView::AirJumpsquat {
                duration: countdown(duration),
                velocity,
            },
            ActionStateView::BackDashing { duration } => ActionStateView::BackDashing {
                duration: countdown(duration),
            },
            ActionStateView::Rising { busy } => ActionStateView::Rising { busy: countdown(busy) },
            ActionStateView::AirDashing { busy, duration, velocity } => ActionStateView::AirDashing {
                busy: countdown(busy),
                duration: countdown(duration),
                velocity,
            },
            ActionStateView::AirBackDashing {
                busy,
                duration,
                velocity,
            } => ActionStateView::AirBackDashing {
                busy: countdown(busy),
                duration: countdown(duration),
                velocity,
            },
            _ => self,
        }
    }

    /// Whether the character is off the ground.
    pub open spec fn spec_is_airborne(self) -> bool {
        self is AirJumpsquat || self is Rising || self is Falling || self is AirDashing
            || self is AirBackDashing
    }

    /// Whether the character may turn to face the opponent.
    pub open spec fn spec_can_turn(self) -> bool {
        self is Idle || self is Walking || self is BackWalking || self is Crouching
            || self is Rising || self is Falling
    }

    /// Whether a jump squat has run out.
    pub open spec fn spec_is_finished_jumping(self) -> bool {
        match self {
            ActionStateView::Jumpsquat { duration, .. } => duration == 0,
            ActionStateView::AirJumpsquat { duration, .. } => duration == 0,
            _ => false,
        }
    }

    /// Whether an air dash has run out.
    pub open spec fn spec_is_finished_airdashing(self) -> bool {
        match self {
            ActionStateView::AirDashing { duration, .. } => duration == 0,
            ActionStateView::AirBackDashing { duration, .. } => duration == 0,
            _ => false,
        }
    }

    /// Whether an attack has run out.
    pub open spec fn spec_is_finished_attacking(self) -> bool {
        match self {
            ActionStateView::Attacking { duration, .. } => duration == 0,
            _ => false,
        }
    }

    /// Whether the player can act during an air dash.
    pub open spec fn spec_can_act_out_of_airdash(self) -> bool {
        match self {
            ActionStateView::AirDashing { busy, .. } => busy == 0,
            ActionStateView::AirBackDashing { busy, .. } => busy == 0,
            _ => false,
        }
    }

    /// The velocity of the jump that a jump squat prepares; zero elsewhere.
    pub open spec fn spec_jump_velocity(self) -> Vec2 {
        match self {
            ActionStateView::Jumpsquat { velocity, .. } => velocity,
            ActionStateView::AirJumpsquat { velocity, .. } => velocity,
            _ => Vec2 { x: 0, y: 0 },
        }
    }

    /// What the renderer is told when a character goes from `self` to a
    /// state `other` of another kind.
    pub open spec fn spec_transition(self, other: ActionStateView) -> Option<
        AnimationTransitionView,
    > {
        match other {
            ActionStateView::Falling => if self is Rising {
                Some(AnimationTransitionView::RiseToFall)
            } else if self is AirDashing {
                Some(AnimationTransitionView::AirdashToFall)
            } else if self is AirBackDashing {
                Some(AnimationTransitionView::AirbackdashToFall)
            } else {
                None
            },
            ActionStateView::Idle => if self is Falling || self is Rising {
                Some(AnimationTransitionView::FallToIdle)
            } else if self is Crouching {
                Some(AnimationTransitionView::CrouchToIdle)
            } else if self is Walking {
                Some(AnimationTransitionView::WalkToIdle)
            } else if self is BackWalking {
                Some(AnimationTransitionView::BackwalkToIdle)
            } else if self is Dashing {
                Some(AnimationTransitionView::DashToIdle)
            } else if self is BackDashing {
                Some(AnimationTransitionView::BackDashToIdle)
            } else {
                Some(AnimationTransitionView::ToIdle)
            },
            ActionStateView::Jumpsquat { .. } => Some(AnimationTransitionView::ToRise),
            ActionStateView::Walking => Some(AnimationTransitionView::ToWalk),
            ActionStateView::BackWalking => Some(AnimationTransitionView::ToBackwalk),
            ActionStateView::Dashing => Some(AnimationTransitionView::ToDash),
            ActionStateView::BackDashing { .. } => Some(AnimationTransitionView::ToBackdash),
            ActionStateView::AirDashing { .. } => Some(AnimationTransitionView::ToAirdash),
            ActionStateView::AirBackDashing { .. } => Some(AnimationTransitionView::ToAirBackdash),
            ActionStateView::Crouching => Some(AnimationTransitionView::ToCrouch),
            ActionStateView::Attacking { attack, .. } => Some(
                AnimationTransitionView::ToAttack { name: attack.name },
            ),
            ActionStateView::AirJumpsquat { .. } => None,
            ActionStateView::Rising { .. } => None,
        }
    }

    /// The hitbox events of `events` that fall on the frame at which an
    /// attack that keeps its character busy for `busy` frames has `duration`
    /// frames left.
    pub open spec fn spec_events_at(events: Seq<HitboxEvent>, busy: u8, duration: u8) -> Seq<
        HitboxEvent,
    >
        decreases events.len(),
    {
        if events.len() == 0 {
            Seq::empty()
        } else {
            let before = Self::spec_events_at(events.drop_last(), busy, duration);
            if busy - events.last().frame == duration {
                before.push(events.last())
            } else {
                before
            }
        }
    }

    /// The hitboxes that appear in this frame.
    pub open spec fn spec_hitbox_events(self) -> Seq<HitboxEvent> {
        match self {
            ActionStateView::Attacking { duration, attack, .. } => Self::spec_events_at(
                attack.hitbox_events,
                attack.busy,
                duration,
            ),
            _ => Seq::empty(),
        }
    }
}

/// The plain values of a transition that may be absent.
pub open spec fn spec_transition_view(transition: Option<AnimationTransition>) -> Option<
    AnimationTransitionView,
> {
    match transition {
        Some(t) => Some(t@),
        None => None,
    }
}

impl Clone for ActionState {
    fn clone(&self) -> (copy: Self)
        ensures
            copy@ == self@,
    {
        match self {
            ActionState::Idle => ActionState::Idle,
            ActionState::Walking => ActionState::Walking,
            ActionState::BackWalking => ActionState::BackWalking,
            ActionState::Attacking { duration, attack, cancellable } => ActionState::Attacking {
                duration: *duration,
                attack: attack.clone(),
                cancellable: *cancellable,
            },
            ActionState::Crouching => ActionState::Crouching,
            ActionState::Jumpsquat { duration, velocity } => ActionState::Jumpsquat {
                duration: *duration,
                velocity: *velocity,
            },
            ActionState::AirJumpsquat { duration, velocity } => ActionState::AirJumpsquat {
                duration: *duration,
                velocity: *velocity,
            },
            ActionState::Rising { busy } => ActionState::Rising { busy: *busy },
            ActionState::Falling => ActionState::Falling,
            ActionState::Dashing => ActionState::Dashing,
            ActionState::BackDashing { duration } => ActionState::BackDashing {
                duration: *duration,
            },
            ActionState::AirDashing { busy, duration, velocity } => ActionState::AirDashing {
                busy: *busy,
                duration: *duration,
                velocity: *velocity,
            },
            ActionState::AirBackDashing { busy, duration, velocity } => ActionState::AirBackDashing {
                busy: *busy,
                duration: *duration,
                velocity: *velocity,
            },
        }
    }
}

impl PartialEq for ActionState {
    fn eq(&self, other: &Self) -> (same: bool) {
        match (self, other) {
            (ActionState::Idle, ActionState::Idle) => true,
            (ActionState::Walking, ActionState::Walking) => true,
            (ActionState::BackWalking, ActionState::BackWalking) => true,
            (ActionState::Attacking { .. }, ActionState::Attacking { .. }) => true,
            (ActionState::Crouching, ActionState::Crouching) => true,
            (ActionState::Jumpsquat { .. }, ActionState::Jumpsquat { .. }) => true,
            (ActionState::AirJumpsquat { .. }, ActionState::AirJumpsquat { .. }) => true,
            (ActionState::Rising { .. }, ActionState::Rising { .. }) => true,
            (ActionState::Falling, ActionState::Falling) => true,
            (ActionState::Dashing, ActionState::Dashing) => true,
            (ActionState::BackDashing { .. }, ActionState::BackDashing { .. }) => true,
            (ActionState::AirDashing { .. }, ActionState::AirDashing { .. }) => true,
            (ActionState::AirBackDashing { .. }, ActionState::AirBackDashing { .. }) => true,
            _ => false,
        }
    }
}

impl PartialEqSpecImpl for ActionState {
    open spec fn obeys_eq_spec() -> bool {
        true
    }

    open spec fn eq_spec(&self, other: &Self) -> bool {
        self@.same_kind(other@)
    }
}

impl Default for ActionState {
    fn default() -> (state: Self)
        ensures
            state@ == ActionStateView::Idle,
    {
        ActionState::Idle
    }
}

impl ActionState {
    /// Lets one frame pass for the state's own counters.
    pub fn tick(&mut self)
        ensures
            final(self)@ == old(self)@.spec_tick(),
    {
        match self {
            ActionState::Attacking { duration, attack: _, cancellable: _ } => {
                *duration = countdown(*duration);
            },
            ActionState::Jumpsquat { duration, velocity: _ } => {
                *duration = countdown(*duration);
            },
            ActionState::AirJumpsquat { duration, velocity: _ } => {
                *duration = countdown(*duration);
            },
            ActionState::BackDashing { duration } => {
                *duration = countdown(*duration);
            },
            ActionState::Rising { busy } => {
                *busy = countdown(*busy);
            },
            ActionState::AirDashing { busy, duration, velocity: _ } => {
                *busy = countdown(*busy);
                *duration = countdown(*duration);
            },
            ActionState::AirBackDashing { busy, duration, velocity: _ } => {
                *busy = countdown(*busy);
                *duration = countdown(*duration);
            },
            _ => (),
        }
    }

    /// Tells whether the character is off the ground.
    pub fn is_airborne(&self) -> (airborne: bool)
        ensures
            airborne == self@.spec_is_airborne(),
    {
        match self {
            ActionState::AirJumpsquat { .. }
            | ActionState::Rising { .. }
            | ActionState::Falling
            | ActionState::AirDashing { .. }
            | ActionState::AirBackDashing { .. } => true,
            _ => false,
        }
    }

    /// Tells whether the character is off the ground.
    pub fn get_airborne(&self) -> (airborne: bool)
        ensures
            airborne == self@.spec_is_airborne(),
    {
        self.is_airborne()
    }

    /// Tells whether the character may turn to face the opponent.
    pub fn get_can_turn(&self) -> (can_turn: bool)
        ensures
            can_turn == self@.spec_can_turn(),
    {
        match self {
            ActionState::Idle
            | ActionState::Walking
            | ActionState::BackWalking
            | ActionState::Crouching
            | ActionState::Rising { .. }
            | ActionState::Falling => true,
            _ => false,
        }
    }

    /// Tells whether a jump squat has run out.
    pub fn is_finished_jumping(&self) -> (finished: bool)
        ensures
            finished == self@.spec_is_finished_jumping(),
    {
        match self {
            ActionState::Jumpsquat { duration, velocity: _ } => *duration == 0,
            ActionState::AirJumpsquat { duration, velocity: _ } => *duration == 0,
            _ => false,
        }
    }

    /// Tells whether an air dash has run out.
    pub fn is_finished_airdashing(&self) -> (finished: bool)
        ensures
            finished == self@.spec_is_finished_airdashing(),
    {
        match self {
            ActionState::AirDashing { busy: _, duration, velocity: _ } => *duration == 0,
            ActionState::AirBackDashing { busy: _, duration, velocity: _ } => *duration == 0,
            _ => false,
        }
    }

    /// Tells whether an attack has run out.
    pub fn is_finished_attacking(&self) -> (finished: bool)
        ensures
            finished == self@.spec_is_finished_attacking(),
    {
        match self {
            ActionState::Attacking { duration, attack: _, cancellable: _ } => *duration == 0,
            _ => false,
        }
    }

    /// Tells whether the player can act during an air dash.
    pub fn can_act_out_of_airdash(&self) -> (free: bool)
        ensures
            free == self@.spec_can_act_out_of_airdash(),
    {
        match self {
            ActionState::AirDashing { busy, duration: _, velocity: _ } => *busy == 0,
            ActionState::AirBackDashing { busy, duration: _, velocity: _ } => *busy == 0,
            _ => false,
        }
    }

    /// The velocity of the jump that a jump squat prepares; zero elsewhere.
    pub fn get_jump_velocity(&self) -> (velocity: Vec2)
        ensures
            velocity == self@.spec_jump_velocity(),
    {
        match self {
            ActionState::AirJumpsquat { duration: _, velocity } => *velocity,
            ActionState::Jumpsquat { duration: _, velocity } => *velocity,
            _ => Vec2::zero(),
        }
    }

    /// Puts the character on the ground, at rest.
    pub fn land(&mut self)
        ensures
            final(self)@ == ActionStateView::Idle,
    {
        *self = ActionState::Idle;
    }

    /// Names what the renderer is told when the character goes from this
    /// state to a state `other` of another kind.
    pub fn calculate_transition(&self, other: &Self) -> (transition: Option<AnimationTransition>)
        ensures
            spec_transition_view(transition) == self@.spec_transition(other@),
    {
        match (self, other) {
            (ActionState::Rising { .. }, ActionState::Falling) => Some(
                AnimationTransition::RiseToFall,
            ),
            (ActionState::Falling, ActionState::Idle) | (
                ActionState::Rising { .. },
                ActionState::Idle,
            ) => Some(AnimationTransition::FallToIdle),
            (ActionState::Crouching, ActionState::Idle) => Some(AnimationTransition::CrouchToIdle),
            (ActionState::Walking, ActionState::Idle) => Some(AnimationTransition::WalkToIdle),
            (ActionState::BackWalking, ActionState::Idle) => Some(
                AnimationTransition::BackwalkToIdle,
            ),
            (ActionState::Dashing, ActionState::Idle) => Some(AnimationTransition::DashToIdle),
            (ActionState::BackDashing { .. }, ActionState::Idle) => Some(
                AnimationTransition::BackDashToIdle,
            ),
            (ActionState::AirDashing { .. }, ActionState::Falling) => Some(
                AnimationTransition::AirdashToFall,
            ),
            (ActionState::AirBackDashing { .. }, ActionState::Falling) => Some(
                AnimationTransition::AirbackdashToFall,
            ),
            (_, ActionState::Idle) => Some(AnimationTransition::ToIdle),
            (_, ActionState::Jumpsquat { .. }) => Some(AnimationTransition::ToRise),
            (_, ActionState::Walking) => Some(AnimationTransition::ToWalk),
            (_, ActionState::BackWalking) => Some(AnimationTransition::ToBackwalk),
            (_, ActionState::Dashing) => Some(AnimationTransition::ToDash),
            (_, ActionState::BackDashing { .. }) => Some(AnimationTransition::ToBackdash),
            (_, ActionState::AirDashing { .. }) => Some(AnimationTransition::ToAirdash),
            (_, ActionState::AirBackDashing { .. }) => Some(AnimationTransition::ToAirBackdash),
            (_, ActionState::Crouching) => Some(AnimationTransition::ToCrouch),
            (_, ActionState::Attacking { duration: _, attack, cancellable: _ }) => Some(
                AnimationTransition::ToAttack { name: attack.name.clone() },
            ),
            (_, _) => None,
        }
    }

    /// Brings the hitboxes of this frame into play for the player
    /// `player_id`: each is the hitbox of its moment, now that player's.
    pub fn perform_hitbox_events(&self, player_id: u8) -> (hitboxes: Vec<Hitbox>)
        ensures
            hitboxes@ == self@.spec_hitbox_events().map_values(
                |event: HitboxEvent| Hitbox { player_id, ..event.hitbox },
            ),
    {
        let mut hitboxes: Vec<Hitbox> = Vec::new();
        if let Some(events) = self.get_hitbox_events_this_frame() {
            let mut i: usize = 0;
            while i < events.len()
                invariant
                    i <= events.len(),
                    events@ == self@.spec_hitbox_events(),
                    hitboxes@ == events@.take(i as int).map_values(
                        |event: HitboxEvent| Hitbox { player_id, ..event.hitbox },
                    ),
                decreases events.len() - i,
            {
                hitboxes.push(events[i].spawn(player_id));
                i += 1;
                assert(hitboxes@ =~= events@.take(i as int).map_values(
                    |event: HitboxEvent| Hitbox { player_id, ..event.hitbox },
                ));
            }
            assert(events@.take(i as int) =~= events@);
        } else {
            assert(hitboxes@ =~= self@.spec_hitbox_events().map_values(
                |event: HitboxEvent| Hitbox { player_id, ..event.hitbox },
            ));
        }
        hitboxes
    }

    /// Lists the hitboxes that appear in this frame, if there are any: those
    /// of the attack under way whose frame has come.
    pub fn get_hitbox_events_this_frame(&self) -> (events: Option<Vec<HitboxEvent>>)
        ensures
            match events {
                Some(list) => list@ == self@.spec_hitbox_events() && list@.len() > 0,
                None => self@.spec_hitbox_events().len() == 0,
            },
    {
        if let ActionState::Attacking { duration, attack, cancellable: _ } = self {
            let mut events: Vec<HitboxEvent> = Vec::new();
            let mut i: usize = 0;
            while i < attack.hitbox_events.len()
                invariant
                    i <= attack.hitbox_events.len(),
                    events@ == ActionStateView::spec_events_at(
                        attack.hitbox_events@.take(i as int),
                        attack.busy,
                        *duration,
                    ),
                decreases attack.hitbox_events.len() - i,
            {
                let event = attack.hitbox_events[i];
                proof {
                    let upto = attack.hitbox_events@.take(i + 1);
                    assert(upto.drop_last() =~= attack.hitbox_events@.take(i as int));
                    assert(upto.last() == event);
                }
                if event.frame <= attack.busy && attack.busy - event.frame == *duration {
                    events.push(event);
                }
                i += 1;
            }
            assert(attack.hitbox_events@.take(i as int) =~= attack.hitbox_events@);
            if events.len() != 0 {
                Some(events)
            } else {
                None
            }
        } else {
            None
        }
    }
}

} // verus!

verus! {

/// How long the squat before a jump lasts, in frames.
pub const JUMPSQUAT_FRAMES: u8 = 3;

/// How long an air dash keeps the player from acting, in frames.
pub const AIRDASH_BUSY: u8 = 10;

/// What one frame of a character leaves: its state, its movement and its
/// input buffer.
pub struct Outcome {
    pub state: ActionStateView,
    pub movement: CharacterMovementView,
    pub buffer: FighterInputBufferView,
}

impl ActionStateView {
    /// The state of a character that begins `attack`.
    pub open spec fn spec_buffer_attack(attack: AttackView) -> ActionStateView {
        ActionStateView::Attacking { duration: attack.busy, attack, cancellable: false }
    }

    /// The force of a standard backdash of `speed` over `motion_duration`
    /// frames: it starts at `speed` away from where the character faces and
    /// eases to 2 world units per frame.
    pub open spec fn spec_backdash_force(
        facing_vector: i32,
        speed: i32,
        motion_duration: u8,
    ) -> InterpolatedForce {
        let start = Vec2 { x: spec_directed(-facing_vector, speed as int) as i32, y: 0 };
        InterpolatedForce {
            current_velocity: start,
            starting_velocity: start,
            ending_velocity: Vec2 { x: spec_directed(-facing_vector, 2 * UNIT) as i32, y: 0 },
            duration: motion_duration,
            frames_elapsed: 0,
        }
    }

    /// The state and movement of a character that begins its backdash. Only
    /// the standard backdash moves; the other kinds leave the character idle.
    pub open spec fn spec_buffer_backdash(movement: CharacterMovementView) -> (
        ActionStateView,
        CharacterMovementView,
    ) {
        match movement.backdash {
            Backdash::Standard { busy, speed, motion_duration } => (
                ActionStateView::BackDashing { duration: busy },
                CharacterMovementView {
                    interpolated_force: Some(
                        Self::spec_backdash_force(movement.facing_vector, speed, motion_duration),
                    ),
                    ..movement
                },
            ),
            _ => (ActionStateView::Idle, movement),
        }
    }

    /// The state of a character that begins an air dash, forward or back.
    pub open spec fn spec_buffer_airdash(
        movement: CharacterMovementView,
        forward: bool,
    ) -> ActionStateView {
        if forward {
            ActionStateView::AirDashing {
                busy: AIRDASH_BUSY,
                duration: movement.max_airdash_time,
                velocity: Vec2 {
                    x: spec_directed(
                        movement.facing_vector as int,
                        movement.air_dash_speed as int,
                    ) as i32,
                    y: 0,
                },
            }
        } else {
            ActionStateView::AirBackDashing {
                busy: AIRDASH_BUSY,
                duration: movement.max_air_backdash_time,
                velocity: Vec2 {
                    x: spec_directed(-movement.facing_vector, movement.air_dash_speed as int) as i32,
                    y: 0,
                },
            }
        }
    }

    /// How high a jump goes: a super jump a quarter higher.
    pub open spec fn spec_jump_rise(movement: CharacterMovementView, superjump: bool) -> i32 {
        if superjump {
            spec_scale(movement.jump_height as int, 5, 4) as i32
        } else {
            movement.jump_height
        }
    }

    /// The jump squat of a jump from a neutral state with the direction
    /// `motion`: up-back jumps back at 1.75 times the back-walk speed,
    /// up-forward jumps forward at walk speed, and up jumps straight.
    pub open spec fn spec_buffer_jump(
        motion: u8,
        movement: CharacterMovementView,
        superjump: bool,
    ) -> ActionStateView {
        let x = if motion == 7 {
            spec_directed(
                movement.facing_vector as int,
                spec_scale(movement.back_walk_speed as int, -7, 4),
            )
        } else if motion == 9 {
            spec_directed(movement.facing_vector as int, movement.walk_speed as int)
        } else {
            0
        };
        ActionStateView::Jumpsquat {
            duration: JUMPSQUAT_FRAMES,
            velocity: Vec2 { x: x as i32, y: Self::spec_jump_rise(movement, superjump) },
        }
    }

    /// The jump squat of a jump out of a dash with the direction `motion`:
    /// up-back jumps back at back-walk speed, up-forward jumps forward at
    /// twice the walk speed, and up drifts forward at half the walk speed.
    pub open spec fn spec_buffer_dash_jump(
        motion: u8,
        movement: CharacterMovementView,
        superjump: bool,
    ) -> ActionStateView {
        let along = if motion == 7 {
            spec_scale(movement.back_walk_speed as int, -1, 1)
        } else if motion == 9 {
            spec_scale(movement.walk_speed as int, 2, 1)
        } else {
            spec_scale(movement.walk_speed as int, 1, 2)
        };
        ActionStateView::Jumpsquat {
            duration: JUMPSQUAT_FRAMES,
            velocity: Vec2 {
                x: spec_directed(movement.facing_vector as int, along) as i32,
                y: Self::spec_jump_rise(movement, superjump),
            },
        }
    }

    /// The state that the held direction `motion` asks for on the ground.
    pub open spec fn spec_from_motion(
        motion: u8,
        movement: CharacterMovementView,
    ) -> ActionStateView {
        if motion == 4 {
            ActionStateView::BackWalking
        } else if motion == 6 {
            ActionStateView::Walking
        } else if y_negative(motion) {
            ActionStateView::Crouching
        } else if y_positive(motion) {
            Self::spec_buffer_jump(motion, movement, false)
        } else {
            ActionStateView::Idle
        }
    }

    /// A frame of a character that is free on the ground. An attack that the
    /// held buttons perform comes first; then a dash or a backdash that the
    /// buffer has recognized, which is consumed; then the held direction.
    pub open spec fn spec_from_neutral_states(
        buffer: FighterInputBufferView,
        movement: CharacterMovementView,
    ) -> Outcome {
        let searched = movement.spec_attack_to_execute(buffer);
        match searched.0 {
            Some(attack) => Outcome {
                state: Self::spec_buffer_attack(attack),
                movement: searched.1,
                buffer,
            },
            None => if buffer.command_type == Some(CommandType::DASH) {
                Outcome {
                    state: ActionStateView::Dashing,
                    movement: searched.1,
                    buffer: buffer.spec_consume(),
                }
            } else if buffer.command_type == Some(CommandType::BACK_DASH) {
                let dashed = Self::spec_buffer_backdash(searched.1);
                Outcome { state: dashed.0, movement: dashed.1, buffer: buffer.spec_consume() }
            } else {
                Outcome {
                    state: Self::spec_from_motion(buffer.current_motion, searched.1),
                    movement: searched.1,
                    buffer,
                }
            },
        }
    }

    /// A frame of a character in its jump squat: when the squat has run out
    /// the character takes the jump's velocity and rises; until then it
    /// stays.
    pub open spec fn spec_from_jump_squat(self, movement: CharacterMovementView) -> (
        ActionStateView,
        CharacterMovementView,
    ) {
        match self {
            ActionStateView::Jumpsquat { duration, velocity } => if duration == 0 {
                (
                    ActionStateView::Rising { busy: movement.jump_lockout },
                    CharacterMovementView { velocity, ..movement },
                )
            } else {
                (self, movement)
            },
            _ => (self, movement),
        }
    }

    /// A frame of a character that dashes: it goes on while forward is held,
    /// and else follows the held direction.
    pub open spec fn spec_from_dashing(
        buffer: FighterInputBufferView,
        movement: CharacterMovementView,
    ) -> ActionStateView {
        let motion = buffer.current_motion;
        if motion == 4 {
            ActionStateView::BackWalking
        } else if motion == 6 {
            ActionStateView::Dashing
        } else if y_negative(motion) {
            ActionStateView::Crouching
        } else if y_positive(motion) {
            Self::spec_buffer_dash_jump(motion, movement, false)
        } else {
            ActionStateView::Idle
        }
    }

    /// A frame of a character that is free in the air. An attack that the
    /// held buttons perform comes first; then an air dash, if one is left and
    /// the buffer has recognized a dash or a backdash, which is consumed.
    /// Else an air dash that has run out, and a rise that has turned
    /// downward, become a fall.
    pub open spec fn spec_from_airborne_input(
        self,
        buffer: FighterInputBufferView,
        movement: CharacterMovementView,
    ) -> Outcome {
        let searched = movement.spec_attack_to_execute(buffer);
        match searched.0 {
            Some(attack) => Outcome {
                state: Self::spec_buffer_attack(attack),
                movement: searched.1,
                buffer,
            },
            None => if searched.1.spec_can_airdash() && buffer.command_type == Some(
                CommandType::DASH,
            ) {
                let spent = searched.1.spec_spend_airdash();
                Outcome {
                    state: Self::spec_buffer_airdash(spent, true),
                    movement: spent,
                    buffer: buffer.spec_consume(),
                }
            } else if searched.1.spec_can_airdash() && buffer.command_type == Some(
                CommandType::BACK_DASH,
            ) {
                let spent = searched.1.spec_spend_airdash();
                Outcome {
                    state: Self::spec_buffer_airdash(spent, false),
                    movement: spent,
                    buffer: buffer.spec_consume(),
                }
            } else {
                Outcome {
                    state: if self.spec_is_finished_airdashing() {
                        ActionStateView::Falling
                    } else if self is Rising && searched.1.spec_is_falling() {
                        ActionStateView::Falling
                    } else {
                        self
                    },
                    movement: searched.1,
                    buffer,
                }
            },
        }
    }

    /// A frame of a character in the air. At or below the ground it lands:
    /// it is idle, and it has its air jumps, air dashes and attacks back.
    /// Above the ground a fall and an air dash take input at once, a rise
    /// once the player can act.
    pub open spec fn spec_from_neutral_airborne(
        self,
        buffer: FighterInputBufferView,
        movement: CharacterMovementView,
        position: Vec3,
    ) -> Outcome {
        if position.y <= 0 {
            Outcome { state: ActionStateView::Idle, movement: movement.spec_land(), buffer }
        } else {
            match self {
                ActionStateView::Rising { busy } => if busy == 0 {
                    self.spec_from_airborne_input(buffer, movement)
                } else {
                    Outcome { state: self, movement, buffer }
                },
                ActionStateView::Falling
                | ActionStateView::AirDashing { .. }
                | ActionStateView::AirBackDashing { .. } => self.spec_from_airborne_input(
                    buffer,
                    movement,
                ),
                _ => Outcome { state: self, movement, buffer },
            }
        }
    }

    /// A frame of a character that dashes in the air: it stays until the dash
    /// has run out, and is then free in the air.
    pub open spec fn spec_from_air_dashing(
        self,
        buffer: FighterInputBufferView,
        movement: CharacterMovementView,
        position: Vec3,
    ) -> Outcome {
        if self.spec_is_finished_airdashing() {
            self.spec_from_neutral_airborne(buffer, movement, position)
        } else {
            Outcome { state: self, movement, buffer }
        }
    }

    /// A frame of a character in its backdash: it stays until the backdash
    /// has run out, and is then free on the ground.
    pub open spec fn spec_from_backdashing(
        self,
        buffer: FighterInputBufferView,
        movement: CharacterMovementView,
    ) -> Outcome {
        match self {
            ActionStateView::BackDashing { duration } => if duration == 0 {
                Self::spec_from_neutral_states(buffer, movement)
            } else {
                Outcome { state: self, movement, buffer }
            },
            _ => Outcome { state: self, movement, buffer },
        }
    }

    /// A frame of a character that attacks: it stays until the attack has run
    /// out or can be cut short, and is then free on the ground.
    pub open spec fn spec_from_attacking(
        self,
        buffer: FighterInputBufferView,
        movement: CharacterMovementView,
    ) -> Outcome {
        match self {
            ActionStateView::Attacking { duration, cancellable, .. } => if duration == 0
                || cancellable {
                Self::spec_from_neutral_states(buffer, movement)
            } else {
                Outcome { state: self, movement, buffer }
            },
            _ => Outcome { state: self, movement, buffer },
        }
    }

    /// What the state that has ticked goes to, by its kind.
    pub open spec fn spec_resolve(
        self,
        buffer: FighterInputBufferView,
        movement: CharacterMovementView,
        position: Vec3,
    ) -> Outcome {
        match self {
            ActionStateView::Idle
            | ActionStateView::Walking
            | ActionStateView::BackWalking
            | ActionStateView::Crouching => Self::spec_from_neutral_states(buffer, movement),
            ActionStateView::Dashing => Outcome {
                state: Self::spec_from_dashing(buffer, movement),
                movement,
                buffer,
            },
            ActionStateView::Jumpsquat { .. } => {
                let jumped = self.spec_from_jump_squat(movement);
                Outcome { state: jumped.0, movement: jumped.1, buffer }
            },
            ActionStateView::Rising { .. } | ActionStateView::Falling => self.spec_from_neutral_airborne(
                buffer,
                movement,
                position,
            ),
            ActionStateView::BackDashing { .. } => self.spec_from_backdashing(buffer, movement),
            ActionStateView::Attacking { .. } => self.spec_from_attacking(buffer, movement),
            ActionStateView::AirDashing { .. }
            | ActionStateView::AirBackDashing { .. } => self.spec_from_air_dashing(
                buffer,
                movement,
                position,
            ),
            ActionStateView::AirJumpsquat { .. } => Outcome { state: self, movement, buffer },
        }
    }

    /// One frame of a character, and what the renderer is told of it. The
    /// state's counters tick, then the state goes where its kind, the input
    /// and the movement lead. A character that comes to idle has all its
    /// attacks available again. The renderer is told only of a change of
    /// kind.
    pub open spec fn spec_update(
        self,
        buffer: FighterInputBufferView,
        movement: CharacterMovementView,
        position: Vec3,
    ) -> (Outcome, Option<AnimationTransitionView>) {
        let ticked = self.spec_tick();
        let resolved = ticked.spec_resolve(buffer, movement, position);
        let changed = !ticked.same_kind(resolved.state);
        (
            Outcome {
                movement: if changed && resolved.state is Idle {
                    resolved.movement.spec_reset_chain()
                } else {
                    resolved.movement
                },
                ..resolved
            },
            if changed {
                ticked.spec_transition(resolved.state)
            } else {
                None
            },
        )
    }
}

impl ActionState {
    /// One frame of the character: lets its counters tick, moves it to the
    /// state that input and movement lead to, and names what the renderer is
    /// to be told.
    pub fn update(
        &mut self,
        buffer: &mut FighterInputBuffer,
        movement: &mut CharacterMovement,
        position: Vec3,
    ) -> (transition: Option<AnimationTransition>)
        ensures
            ({
                let step = old(self)@.spec_update(old(buffer)@, old(movement)@, position);
                &&& final(self)@ == step.0.state
                &&& final(movement)@ == step.0.movement
                &&& final(buffer)@ == step.0.buffer
                &&& spec_transition_view(transition) == step.1
            }),
    {
        self.tick();
        let new_state = match self {
            ActionState::Idle
            | ActionState::Walking
            | ActionState::BackWalking
            | ActionState::Crouching => self.from_neutral_states(buffer, movement),
            ActionState::Dashing => self.from_dashing(buffer, movement),
            ActionState::Jumpsquat { .. } => self.from_jump_squat(movement),
            ActionState::Rising { .. } | ActionState::Falling => self.from_neutral_airborne(
                buffer,
                movement,
                position,
            ),
            ActionState::BackDashing { .. } => self.from_backdashing(buffer, movement),
            ActionState::Attacking { .. } => self.from_attacking(buffer, movement),
            ActionState::AirDashing { .. } | ActionState::AirBackDashing { .. } => self.from_air_dashing(
                buffer,
                movement,
                position,
            ),
            _ => self.clone(),
        };
        let transition = if *self != new_state {
            if new_state.is_idle() {
                movement.beat_chain.reset();
            }
            self.calculate_transition(&new_state)
        } else {
            None
        };
        *self = new_state;
        transition
    }

    /// Tells whether the character is idle.
    pub fn is_idle(&self) -> (idle: bool)
        ensures
            idle == (self@ is Idle),
    {
        match self {
            ActionState::Idle => true,
            _ => false,
        }
    }

    /// Resolves a frame from a neutral state on the ground: idle, walking,
    /// back-walking or crouching.
    pub fn from_neutral_states(
        &self,
        buffer: &mut FighterInputBuffer,
        movement: &mut CharacterMovement,
    ) -> (next: Self)
        ensures
            (Outcome { state: next@, movement: final(movement)@, buffer: final(buffer)@ })
                == ActionStateView::spec_from_neutral_states(old(buffer)@, old(movement)@),
    {
        if let Some(attack) = movement.attack_to_execute(buffer, false) {
            return Self::buffer_attack(attack);
        }
        if let Some(ct) = buffer.command_type {
            match ct {
                CommandType::DASH => {
                    buffer.consume_motion();
                    return ActionState::Dashing;
                },
                CommandType::BACK_DASH => {
                    buffer.consume_motion();
                    return Self::buffer_backdash(movement);
                },
                _ => (),
            }
        }
        let motion = buffer.current_motion;
        if motion == 4 {
            ActionState::BackWalking
        } else if motion == 6 {
            ActionState::Walking
        } else if y_negative(motion) {
            ActionState::Crouching
        } else if y_positive(motion) {
            Self::buffer_jump(motion, movement, false)
        } else {
            ActionState::Idle
        }
    }

    /// Resolves a frame of the jump squat.
    pub fn from_jump_squat(&self, movement: &mut CharacterMovement) -> (next: Self)
        ensures
            (next@, final(movement)@) == self@.spec_from_jump_squat(old(movement)@),
    {
        match self {
            ActionState::Jumpsquat { duration, velocity } => {
                if *duration == 0 {
                    movement.velocity = *velocity;
                    ActionState::Rising { busy: movement.jump_lockout }
                } else {
                    self.clone()
                }
            },
            _ => self.clone(),
        }
    }

    /// Resolves a frame of a dash.
    pub fn from_dashing(&self, buffer: &FighterInputBuffer, movement: &CharacterMovement) -> (next:
        Self)
        ensures
            next@ == ActionStateView::spec_from_dashing(buffer@, movement@),
    {
        let motion = buffer.current_motion;
        if motion == 4 {
            ActionState::BackWalking
        } else if motion == 6 {
            ActionState::Dashing
        } else if y_negative(motion) {
            ActionState::Crouching
        } else if y_positive(motion) {
            Self::buffer_dash_jump(motion, movement, false)
        } else {
            ActionState::Idle
        }
    }

    /// Resolves a frame of an air dash, forward or back.
    pub fn from_air_dashing(
        &self,
        buffer: &mut FighterInputBuffer,
        movement: &mut CharacterMovement,
        position: Vec3,
    ) -> (next: Self)
        ensures
            (Outcome { state: next@, movement: final(movement)@, buffer: final(buffer)@ })
                == self@.spec_from_air_dashing(old(buffer)@, old(movement)@, position),
    {
        if self.is_finished_airdashing() {
            self.from_neutral_airborne(buffer, movement, position)
        } else {
            self.clone()
        }
    }

    /// Resolves a frame in the air: rising, falling, or at the end of an air
    /// dash.
    pub fn from_neutral_airborne(
        &self,
        buffer: &mut FighterInputBuffer,
        movement: &mut CharacterMovement,
        position: Vec3,
    ) -> (next: Self)
        ensures
            (Outcome { state: next@, movement: final(movement)@, buffer: final(buffer)@ })
                == self@.spec_from_neutral_airborne(old(buffer)@, old(movement)@, position),
    {
        if position.y <= 0 {
            movement.land();
            return ActionState::Idle;
        }
        match self {
            ActionState::Rising { busy } => {
                if *busy == 0 {
                    self.from_airborne_input(buffer, movement)
                } else {
                    self.clone()
                }
            },
            ActionState::Falling
            | ActionState::AirDashing { .. }
            | ActionState::AirBackDashing { .. } => self.from_airborne_input(buffer, movement),
            _ => self.clone(),
        }
    }

    /// Resolves a frame of a backdash.
    pub fn from_backdashing(
        &self,
        buffer: &mut FighterInputBuffer,
        movement: &mut CharacterMovement,
    ) -> (next: Self)
        ensures
            (Outcome { state: next@, movement: final(movement)@, buffer: final(buffer)@ })
                == self@.spec_from_backdashing(old(buffer)@, old(movement)@),
    {
        match self {
            ActionState::BackDashing { duration } => {
                if *duration == 0 {
                    self.from_neutral_states(buffer, movement)
                } else {
                    self.clone()
                }
            },
            _ => self.clone(),
        }
    }

    /// Resolves a frame of an attack.
    pub fn from_attacking(
        &self,
        buffer: &mut FighterInputBuffer,
        movement: &mut CharacterMovement,
    ) -> (next: Self)
        ensures
            (Outcome { state: next@, movement: final(movement)@, buffer: final(buffer)@ })
                == self@.spec_from_attacking(old(buffer)@, old(movement)@),
    {
        match self {
            ActionState::Attacking { duration, attack: _, cancellable } => {
                if *duration == 0 || *cancellable {
                    self.from_neutral_states(buffer, movement)
                } else {
                    self.clone()
                }
            },
            _ => self.clone(),
        }
    }

    /// Resolves the input of a character that is free in the air.
    pub fn from_airborne_input(
        &self,
        buffer: &mut FighterInputBuffer,
        movement: &mut CharacterMovement,
    ) -> (next: Self)
        ensures
            (Outcome { state: next@, movement: final(movement)@, buffer: final(buffer)@ })
                == self@.spec_from_airborne_input(old(buffer)@, old(movement)@),
    {
        if let Some(attack) = movement.attack_to_execute(buffer, true) {
            return Self::buffer_attack(attack);
        }
        if movement.can_airdash() {
            if let Some(ct) = buffer.command_type {
                match ct {
                    CommandType::DASH => {
                        movement.spend_airdash();
                        buffer.consume_motion();
                        return Self::buffer_airdash(movement, true);
                    },
                    CommandType::BACK_DASH => {
                        movement.spend_airdash();
                        buffer.consume_motion();
                        return Self::buffer_airdash(movement, false);
                    },
                    _ => (),
                }
            }
        }
        match self {
            ActionState::AirDashing { .. } | ActionState::AirBackDashing { .. } => {
                if self.is_finished_airdashing() {
                    ActionState::Falling
                } else {
                    self.clone()
                }
            },
            ActionState::Rising { .. } => {
                if movement.is_falling() {
                    ActionState::Falling
                } else {
                    self.clone()
                }
            },
            _ => self.clone(),
        }
    }

    /// The state of a character that begins `attack`.
    pub fn buffer_attack(attack: Attack) -> (next: Self)
        ensures
            next@ == ActionStateView::spec_buffer_attack(attack@),
    {
        ActionState::Attacking { duration: attack.busy, attack, cancellable: false }
    }

    /// Begins the character's backdash: puts it under the backdash's force.
    pub fn buffer_backdash(movement: &mut CharacterMovement) -> (next: Self)
        ensures
            (next@, final(movement)@) == ActionStateView::spec_buffer_backdash(old(movement)@),
    {
        match movement.backdash {
            Backdash::Standard { speed, busy, motion_duration } => {
                let i_force = InterpolatedForce::new(
                    Vec2::new(back_directed(movement.facing_vector, speed), 0),
                    Vec2::new(back_directed(movement.facing_vector, 2 * UNIT), 0),
                    motion_duration,
                );
                movement.set_interpolated_force(i_force);
                ActionState::BackDashing { duration: busy }
            },
            _ => ActionState::Idle,
        }
    }

    /// The state of a character that begins an air dash.
    pub fn buffer_airdash(movement: &CharacterMovement, forward: bool) -> (next: Self)
        ensures
            next@ == ActionStateView::spec_buffer_airdash(movement@, forward),
    {
        if forward {
            ActionState::AirDashing {
                busy: AIRDASH_BUSY,
                duration: movement.max_airdash_time,
                velocity: Vec2::new(directed(movement.facing_vector, movement.air_dash_speed), 0),
            }
        } else {
            ActionState::AirBackDashing {
                busy: AIRDASH_BUSY,
                duration: movement.max_air_backdash_time,
                velocity: Vec2::new(
                    back_directed(movement.facing_vector, movement.air_dash_speed),
                    0,
                ),
            }
        }
    }

    /// The jump squat of a jump out of a dash.
    pub fn buffer_dash_jump(motion: u8, movement: &CharacterMovement, superjump: bool) -> (next:
        Self)
        ensures
            next@ == ActionStateView::spec_buffer_dash_jump(motion, movement@, superjump),
    {
        let along = match motion {
            7 => scale(movement.back_walk_speed, -1, 1),
            9 => scale(movement.walk_speed, 2, 1),
            _ => scale(movement.walk_speed, 1, 2),
        };
        let x_velocity = directed(movement.facing_vector, along);
        let y_velocity = if superjump {
            scale(movement.jump_height, 5, 4)
        } else {
            movement.jump_height
        };
        ActionState::Jumpsquat {
            duration: JUMPSQUAT_FRAMES,
            velocity: Vec2::new(x_velocity, y_velocity),
        }
    }

    /// The jump squat of a jump from a neutral state.
    pub fn buffer_jump(motion: u8, movement: &CharacterMovement, superjump: bool) -> (next: Self)
        ensures
            next@ == ActionStateView::spec_buffer_jump(motion, movement@, superjump),
    {
        let x_velocity = match motion {
            7 => directed(movement.facing_vector, scale(movement.back_walk_speed, -7, 4)),
            9 => directed(movement.facing_vector, movement.walk_speed),
            _ => 0,
        };
        let y_velocity = if superjump {
            scale(movement.jump_height, 5, 4)
        } else {
            movement.jump_height
        };
        ActionState::Jumpsquat {
            duration: JUMPSQUAT_FRAMES,
            velocity: Vec2::new(x_velocity, y_velocity),
        }
    }
}

} // verus!

verus! {

/// Two states of one kind are equal for the machine, whatever they carry:
/// jump squats with different velocities, for one.
pub proof fn lemma_kind_ignores_payload(
    duration: u8,
    velocity: Vec2,
    other_duration: u8,
    other_velocity: Vec2,
)
    ensures
        (ActionStateView::Jumpsquat { duration, velocity }).same_kind(
            ActionStateView::Jumpsquat { duration: other_duration, velocity: other_velocity },
        ),
{
}

/// The renderer is told something only when the kind of state changes, and
/// then what the table holds for the two kinds.
pub proof fn lemma_signal_only_on_change(
    state: ActionStateView,
    buffer: FighterInputBufferView,
    movement: CharacterMovementView,
    position: Vec3,
)
    ensures
        ({
            let step = state.spec_update(buffer, movement, position);
            &&& state.same_kind(step.0.state) ==> step.1 is None
            &&& step.1 is Some ==> step.1 == state.spec_tick().spec_transition(step.0.state)
        }),
{
}

/// A jump is signalled once. Coming into the jump squat from any other kind
/// of state tells the renderer `ToRise`. The jump squat itself either stays
/// or gives way to rising, and neither tells the renderer anything.
pub proof fn lemma_jump_signals_once(
    state: ActionStateView,
    buffer: FighterInputBufferView,
    movement: CharacterMovementView,
    position: Vec3,
)
    ensures
        ({
            let step = state.spec_update(buffer, movement, position);
            &&& !(state is Jumpsquat) && step.0.state is Jumpsquat ==> step.1 == Some(
                AnimationTransitionView::ToRise,
            )
            &&& state is Jumpsquat ==> (step.0.state is Jumpsquat || step.0.state is Rising)
                && step.1 is None
        }),
{
}

/// A character that rises or falls and is at or below the ground lands: it
/// is idle, its air jumps, air dashes and attacks are whole again, and the
/// renderer is told `FallToIdle`.
pub proof fn lemma_landing(
    state: ActionStateView,
    buffer: FighterInputBufferView,
    movement: CharacterMovementView,
    position: Vec3,
)
    requires
        state is Rising || state is Falling,
        position.y <= 0,
    ensures
        ({
            let step = state.spec_update(buffer, movement, position);
            &&& step.0.state is Idle
            &&& step.0.movement == movement.spec_land()
            &&& step.0.buffer == buffer
            &&& step.1 == Some(AnimationTransitionView::FallToIdle)
        }),
{
}

/// A frame of a character touches the input buffer only to consume a
/// command, and keeps it well formed.
pub proof fn lemma_update_consumes_or_keeps(
    state: ActionStateView,
    buffer: FighterInputBufferView,
    movement: CharacterMovementView,
    position: Vec3,
)
    ensures
        ({
            let after = state.spec_update(buffer, movement, position).0.buffer;
            &&& after == buffer || after == buffer.spec_consume()
            &&& buffer.wf() ==> after.wf()
            &&& after != buffer ==> buffer.command_type == Some(CommandType::DASH)
                || buffer.command_type == Some(CommandType::BACK_DASH)
        }),
{
}

/// An air dash costs one air dash, and none is begun when none is left: a
/// frame that takes a character into an air dash from another kind of state
/// had one left and leaves one less.
pub proof fn lemma_airdash_costs(
    state: ActionStateView,
    buffer: FighterInputBufferView,
    movement: CharacterMovementView,
    position: Vec3,
)
    requires
        !(state is AirDashing) && !(state is AirBackDashing),
        ({
            let next = state.spec_update(buffer, movement, position).0.state;
            next is AirDashing || next is AirBackDashing
        }),
    ensures
        movement.airdashes_remaining > 0,
        state.spec_update(buffer, movement, position).0.movement.airdashes_remaining
            == movement.airdashes_remaining - 1,
{
}

} // verus!
