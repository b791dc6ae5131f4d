//! What is shown: the signals that the kernel gives the renderer, and the
//! cells of the sprite sheet that answer them.

pub mod controller;

pub use controller::AnimationController;
pub use controller::AnimationState;

use vstd::prelude::*;
use vstd::std_specs::cmp::PartialEqSpecImpl;
use crate::character::PlayerId;

verus! {

/// What the renderer is told when a character changes state.
#[derive(Debug)]
pub enum AnimationTransition {
    WalkToIdle,
    BackwalkToIdle,
    CrouchToIdle,
    DashToIdle,
    BackDashToIdle,
    RiseToFall,
    FallToIdle,
    AirdashToFall,
    AirbackdashToFall,
    ToCrouch,
    ToWalk,
    ToBackwalk,
    ToDash,
    ToBackdash,
    ToRise,
    ToIdle,
    ToAirdash,
    ToAirBackdash,
    ToAttack { name: String },
}

/// A transition as plain values.
pub enum AnimationTransitionView {
    WalkToIdle,
    BackwalkToIdle,
    CrouchToIdle,
    DashToIdle,
    BackDashToIdle,
    RiseToFall,
    FallToIdle,
    AirdashToFall,
    AirbackdashToFall,
    ToCrouch,
    ToWalk,
    ToBackwalk,
    ToDash,
    ToBackdash,
    ToRise,
    ToIdle,
    ToAirdash,
    ToAirBackdash,
    ToAttack { name: Seq<char> },
}

impl View for AnimationTransition {
    type V = AnimationTransitionView;

    open spec fn view(&self) -> AnimationTransitionView {
        match *self {
            AnimationTransition::WalkToIdle => AnimationTransitionView::WalkToIdle,
            AnimationTransition::BackwalkToIdle => AnimationTransitionView::BackwalkToIdle,
            AnimationTransition::CrouchToIdle => AnimationTransitionView::CrouchToIdle,
            AnimationTransition::DashToIdle => AnimationTransitionView::DashToIdle,
            AnimationTransition::BackDashToIdle => AnimationTransitionView::BackDashToIdle,
            AnimationTransition::RiseToFall => AnimationTransitionView::RiseToFall,
            AnimationTransition::FallToIdle => AnimationTransitionView::FallToIdle,
            AnimationTransition::AirdashToFall => AnimationTransitionView::AirdashToFall,
            AnimationTransition::AirbackdashToFall => AnimationTransitionView::AirbackdashToFall,
            AnimationTransition::ToCrouch => AnimationTransitionView::ToCrouch,
            AnimationTransition::ToWalk => AnimationTransitionView::ToWalk,
            AnimationTransition::ToBackwalk => AnimationTransitionView::ToBackwalk,
            AnimationTransition::ToDash => AnimationTransitionView::ToDash,
            AnimationTransition::ToBackdash => AnimationTransitionView::ToBackdash,
            AnimationTransition::ToRise => AnimationTransitionView::ToRise,
            AnimationTransition::ToIdle => AnimationTransitionView::ToIdle,
            AnimationTransition::ToAirdash => AnimationTransitionView::ToAirdash,
            AnimationTransition::ToAirBackdash => AnimationTransitionView::ToAirBackdash,
            AnimationTransition::ToAttack { name } => AnimationTransitionView::ToAttack {
                name: name@,
            },
        }
    }
}

impl Clone for AnimationTransition {
    fn clone(&self) -> (copy: Self)
        ensures
            copy@ == self@,
    {
        match self {
            AnimationTransition::WalkToIdle => AnimationTransition::WalkToIdle,
            AnimationTransition::BackwalkToIdle => AnimationTransition::BackwalkToIdle,
            AnimationTransition::CrouchToIdle => AnimationTransition::CrouchToIdle,
            AnimationTransition::DashToIdle => AnimationTransition::DashToIdle,
            AnimationTransition::BackDashToIdle => AnimationTransition::BackDashToIdle,
            AnimationTransition::RiseToFall => AnimationTransition::RiseToFall,
            AnimationTransition::FallToIdle => AnimationTransition::FallToIdle,
            AnimationTransition::AirdashToFall => AnimationTransition::AirdashToFall,
            AnimationTransition::AirbackdashToFall => AnimationTransition::AirbackdashToFall,
            AnimationTransition::ToCrouch => AnimationTransition::ToCrouch,
            AnimationTransition::ToWalk => AnimationTransition::ToWalk,
            AnimationTransition::ToBackwalk => AnimationTransition::ToBackwalk,
            AnimationTransition::ToDash => AnimationTransition::ToDash,
            AnimationTransition::ToBackdash => AnimationTransition::ToBackdash,
            AnimationTransition::ToRise => AnimationTransition::ToRise,
            AnimationTransition::ToIdle => AnimationTransition::ToIdle,
            AnimationTransition::ToAirdash => AnimationTransition::ToAirdash,
            AnimationTransition::ToAirBackdash => AnimationTransition::ToAirBackdash,
            AnimationTransition::ToAttack { name } => AnimationTransition::ToAttack {
                name: name.clone(),
            },
        }
    }
}

impl PartialEq for AnimationTransition {
    fn eq(&self, other: &Self) -> (same: bool) {
        match (self, other) {
            (AnimationTransition::WalkToIdle, AnimationTransition::WalkToIdle) => true,
            (AnimationTransition::BackwalkToIdle, AnimationTransition::BackwalkToIdle) => true,
            (AnimationTransition::CrouchToIdle, AnimationTransition::CrouchToIdle) => true,
            (AnimationTransition::DashToIdle, AnimationTransition::DashToIdle) => true,
            (AnimationTransition::BackDashToIdle, AnimationTransition::BackDashToIdle) => true,
            (AnimationTransition::RiseToFall, AnimationTransition::RiseToFall) => true,
            (AnimationTransition::FallToIdle, AnimationTransition::FallToIdle) => true,
            (AnimationTransition::AirdashToFall, AnimationTransition::AirdashToFall) => true,
            (
                AnimationTransition::AirbackdashToFall,
                AnimationTransition::AirbackdashToFall,
            ) => true,
            (AnimationTransition::ToCrouch, AnimationTransition::ToCrouch) => true,
            (AnimationTransition::ToWalk, AnimationTransition::ToWalk) => true,
            (AnimationTransition::ToBackwalk, AnimationTransition::ToBackwalk) => true,
            (AnimationTransition::ToDash, AnimationTransition::ToDash) => true,
            (AnimationTransition::ToBackdash, AnimationTransition::ToBackdash) => true,
            (AnimationTransition::ToRise, AnimationTransition::ToRise) => true,
            (AnimationTransition::ToIdle, AnimationTransition::ToIdle) => true,
            (AnimationTransition::ToAirdash, AnimationTransition::ToAirdash) => true,
            (AnimationTransition::ToAirBackdash, AnimationTransition::ToAirBackdash) => true,
            (
                AnimationTransition::ToAttack { name },
                AnimationTransition::ToAttack { name: other_name },
            ) => *name == *other_name,
            _ => false,
        }
    }
}

impl PartialEqSpecImpl for AnimationTransition {
    open spec fn obeys_eq_spec() -> bool {
        true
    }

    open spec fn eq_spec(&self, other: &Self) -> bool {
        self@ == other@
    }
}

/// A transition, and the player whose character makes it.
#[derive(Debug)]
pub struct AnimationTransitionEvent {
    pub player_id: PlayerId,
    pub transition: AnimationTransition,
}

impl AnimationTransitionEvent {
    pub fn new(player_id: PlayerId, transition: AnimationTransition) -> (event: Self)
        ensures
            event.player_id == player_id,
            event.transition == transition,
    {
        AnimationTransitionEvent { player_id, transition }
    }
}

/// The cells of a sprite sheet that show one action.
#[derive(Clone, Copy, PartialEq, Eq, Structural, Debug)]
pub struct Animation {
    /// The cell at which the animation starts.
    pub first_frame: usize,
    /// How many cells the animation takes up.
    pub length: usize,
    /// Whether the animation starts over when it ends.
    pub loopable: bool,
    /// The last cell of the animation.
    pub final_frame: usize,
    /// For how many frames each cell is shown beyond its first.
    pub hold: u8,
}

impl View for Animation {
    type V = Animation;

    open spec fn view(&self) -> Animation {
        *self
    }
}

/// An animation as character data describes it.
#[derive(Debug)]
pub struct AnimationSerialized {
    pub name: String,
    pub first_frame: usize,
    pub length: usize,
    pub loopable: bool,
    pub hold: u8,
}

impl AnimationSerialized {
    /// Whether the animation has a last cell that a `usize` can hold.
    pub open spec fn spec_is_sound(&self) -> bool {
        1 <= self.first_frame + self.length <= usize::MAX + 1
    }

    /// Tells whether the animation has a last cell.
    pub fn is_sound(&self) -> (sound: bool)
        ensures
            sound == self.spec_is_sound(),
    {
        if self.length == 0 {
            self.first_frame >= 1
        } else {
            self.first_frame <= usize::MAX - (self.length - 1)
        }
    }
}

impl Animation {
    /// The animation that `s` describes.
    pub open spec fn spec_from_serialized(s: AnimationSerialized) -> Animation
        recommends
            s.spec_is_sound(),
    {
        Animation {
            first_frame: s.first_frame,
            length: s.length,
            loopable: s.loopable,
            final_frame: (s.first_frame + s.length - 1) as usize,
            hold: s.hold,
        }
    }

    /// Builds the animation that `s` describes: its last cell is the one
    /// `length` cells from the first.
    pub fn from_serialized(s: AnimationSerialized) -> (animation: Self)
        requires
            s.spec_is_sound(),
        ensures
            animation == Animation::spec_from_serialized(s),
    {
        let final_frame: usize = if s.length == 0 {
            s.first_frame - 1
        } else {
            s.first_frame + (s.length - 1)
        };
        Animation {
            first_frame: s.first_frame,
            length: s.length,
            loopable: s.loopable,
            final_frame,
            hold: s.hold,
        }
    }
}

impl Default for Animation {
    fn default() -> (animation: Self)
        ensures
            animation == (Animation {
                first_frame: 0,
                length: 0,
                loopable: false,
                final_frame: 0,
                hold: 0,
            }),
    {
        Animation { first_frame: 0, length: 0, loopable: false, final_frame: 0, hold: 0 }
    }
}

} // verus!
