use vstd::prelude::*;
use crate::animation::Animation;
use crate::animation::AnimationTransition;
use crate::animation::AnimationTransitionView;
use crate::character_library::CharacterLibrary;
use crate::character_library::LoadError;
use crate::table::position;
use crate::table::put;
use crate::table::lemma_own_distinct;
use crate::table::owned;
use crate::table::spec_distinct;
use crate::table::spec_get;
use crate::table::spec_own;
use crate::table::spec_owned;
use crate::table::spec_table;
use crate::table::spec_take_own;
use crate::text::namespaced;
use crate::text::spec_namespaced;
use crate::text::trimmed;

verus! {

/// How a controller shows its animations: the core animation over and over,
/// or first a smear that leads into it.
#[allow(non_camel_case_types)]
#[derive(Debug, PartialEq, Eq, Structural, Clone, Copy)]
pub enum AnimationState {
    LOOPING,
    SMEARING,
}

impl Default for AnimationState {
    fn default() -> (state: Self)
        ensures
            state == AnimationState::LOOPING,
    {
        AnimationState::LOOPING
    }
}

/// Picks the cell of the sprite sheet that shows a character in each frame.
#[derive(Debug)]
pub struct AnimationController {
    pub character_prefix: String,
    pub animation_state: AnimationState,
    /// The animation that is shown over and over.
    pub core_animation: Animation,
    /// The animation that leads into the core animation, while it is shown.
    pub smear_animation: Option<Animation>,
    pub current_hold: u8,
    /// For how many frames the cell has been held.
    pub hold_counter: u8,
    /// The cell that is shown.
    pub current_index: usize,
    /// The character's animations under the names that it calls them.
    pub animations: Vec<(String, Animation)>,
}

/// A controller as plain values.
pub struct AnimationControllerView {
    pub character_prefix: Seq<char>,
    pub animation_state: AnimationState,
    pub core_animation: Animation,
    pub smear_animation: Option<Animation>,
    pub current_hold: u8,
    pub hold_counter: u8,
    pub current_index: usize,
    pub animations: Seq<(Seq<char>, Animation)>,
}

impl View for AnimationController {
    type V = AnimationControllerView;

    open spec fn view(&self) -> AnimationControllerView {
        AnimationControllerView {
            character_prefix: self.character_prefix@,
            animation_state: self.animation_state,
            core_animation: self.core_animation,
            smear_animation: self.smear_animation,
            current_hold: self.current_hold,
            hold_counter: self.hold_counter,
            current_index: self.current_index,
            animations: spec_table(self.animations@),
        }
    }
}

/// The smear, if any, and the core animation that a transition asks for, by
/// the names that the character calls them.
pub open spec fn spec_names_of(transition: AnimationTransitionView) -> (
    Option<Seq<char>>,
    Seq<char>,
) {
    match transition {
        AnimationTransitionView::ToIdle => (None, "idle"@),
        AnimationTransitionView::ToAttack { name } => (None, name),
        AnimationTransitionView::ToDash => (Some("idle<>dash"@), "dash"@),
        AnimationTransitionView::ToBackdash => (Some("idle<>backdash"@), "backdash"@),
        AnimationTransitionView::ToRise => (Some("jumpsquat"@), "rise"@),
        AnimationTransitionView::ToWalk => (Some("idle<>walk"@), "walk"@),
        AnimationTransitionView::ToBackwalk => (Some("idle<>backwalk"@), "backwalk"@),
        AnimationTransitionView::ToCrouch => (Some("idle<>crouch"@), "crouch"@),
        AnimationTransitionView::WalkToIdle => (Some("walk<>idle"@), "idle"@),
        AnimationTransitionView::BackwalkToIdle => (Some("backwalk<>idle"@), "idle"@),
        AnimationTransitionView::DashToIdle => (Some("dash<>idle"@), "idle"@),
        AnimationTransitionView::BackDashToIdle => (Some("backdash<>idle"@), "idle"@),
        AnimationTransitionView::ToAirdash => (Some("fall<>airdash"@), "airdash"@),
        AnimationTransitionView::ToAirBackdash => (Some("fall<>backairdash"@), "backairdash"@),
        AnimationTransitionView::RiseToFall => (Some("rise<>fall"@), "fall"@),
        AnimationTransitionView::FallToIdle => (Some("fall<>idle"@), "idle"@),
        AnimationTransitionView::AirdashToFall => (Some("airdash<>fall"@), "fall"@),
        AnimationTransitionView::AirbackdashToFall => (Some("backairdash<>fall"@), "fall"@),
        AnimationTransitionView::CrouchToIdle => (Some("crouch<>idle"@), "idle"@),
    }
}

/// The names of a smear, if any, and of a core animation as plain values.
pub open spec fn spec_names_view(names: (Option<String>, String)) -> (Option<Seq<char>>, Seq<char>) {
    (
        match names.0 {
            Some(smear) => Some(smear@),
            None => None,
        },
        names.1@,
    )
}

/// Names the smear, if any, and the core animation that `transition` asks
/// for.
pub fn names_of(transition: AnimationTransition) -> (names: (Option<String>, String))
    ensures
        spec_names_view(names) == spec_names_of(transition@),
{
    match transition {
        AnimationTransition::ToIdle => (None, String::from_str("idle")),
        AnimationTransition::ToAttack { name } => (None, name),
        AnimationTransition::ToDash => (
            Some(String::from_str("idle<>dash")),
            String::from_str("dash"),
        ),
        AnimationTransition::ToBackdash => (
            Some(String::from_str("idle<>backdash")),
            String::from_str("backdash"),
        ),
        AnimationTransition::ToRise => (
            Some(String::from_str("jumpsquat")),
            String::from_str("rise"),
        ),
        AnimationTransition::ToWalk => (
            Some(String::from_str("idle<>walk")),
            String::from_str("walk"),
        ),
        AnimationTransition::ToBackwalk => (
            Some(String::from_str("idle<>backwalk")),
            String::from_str("backwalk"),
        ),
        AnimationTransition::ToCrouch => (
            Some(String::from_str("idle<>crouch")),
            String::from_str("crouch"),
        ),
        AnimationTransition::WalkToIdle => (
            Some(String::from_str("walk<>idle")),
            String::from_str("idle"),
        ),
        AnimationTransition::BackwalkToIdle => (
            Some(String::from_str("backwalk<>idle")),
            String::from_str("idle"),
        ),
        AnimationTransition::DashToIdle => (
            Some(String::from_str("dash<>idle")),
            String::from_str("idle"),
        ),
        AnimationTransition::BackDashToIdle => (
            Some(String::from_str("backdash<>idle")),
            String::from_str("idle"),
        ),
        AnimationTransition::ToAirdash => (
            Some(String::from_str("fall<>airdash")),
            String::from_str("airdash"),
        ),
        AnimationTransition::ToAirBackdash => (
            Some(String::from_str("fall<>backairdash")),
            String::from_str("backairdash"),
        ),
        AnimationTransition::RiseToFall => (
            Some(String::from_str("rise<>fall")),
            String::from_str("fall"),
        ),
        AnimationTransition::FallToIdle => (
            Some(String::from_str("fall<>idle")),
            String::from_str("idle"),
        ),
        AnimationTransition::AirdashToFall => (
            Some(String::from_str("airdash<>fall")),
            String::from_str("fall"),
        ),
        AnimationTransition::AirbackdashToFall => (
            Some(String::from_str("backairdash<>fall")),
            String::from_str("fall"),
        ),
        AnimationTransition::CrouchToIdle => (
            Some(String::from_str("crouch<>idle")),
            String::from_str("idle"),
        ),
    }
}

impl AnimationControllerView {
    /// For how many frames beyond its first a cell is held.
    pub open spec fn spec_hold(self) -> u8 {
        match self.animation_state {
            AnimationState::SMEARING => match self.smear_animation {
                Some(smear) => smear.hold,
                None => 2,
            },
            AnimationState::LOOPING => self.core_animation.hold,
        }
    }

    /// A controller that smears has a smear, and a cell is never held for
    /// longer than its animation says.
    pub open spec fn wf(self) -> bool {
        &&& self.animation_state == AnimationState::SMEARING ==> self.smear_animation is Some
        &&& self.hold_counter <= self.spec_hold()
    }

    /// The controller of a character whose core animation is `idle`, with
    /// the character's own animations among `animations`.
    pub open spec fn spec_new(
        character_prefix: Seq<char>,
        animations: Seq<(Seq<char>, Animation)>,
        idle: Animation,
    ) -> AnimationControllerView {
        AnimationControllerView {
            character_prefix,
            animation_state: AnimationState::LOOPING,
            core_animation: idle,
            smear_animation: None,
            current_index: 0,
            current_hold: 2,
            hold_counter: 0,
            animations: spec_own(animations, character_prefix).1,
        }
    }

    /// The controller one frame later. A cell is held for its hold, then the
    /// next cell is shown. Past its last cell the core animation starts
    /// over, and a smear gives way to the core animation.
    pub open spec fn spec_next_frame(self) -> AnimationControllerView {
        let hold = self.spec_hold();
        if self.hold_counter == hold {
            match self.animation_state {
                AnimationState::LOOPING => AnimationControllerView {
                    current_hold: hold,
                    hold_counter: 0,
                    current_index: if self.current_index >= self.core_animation.final_frame {
                        self.core_animation.first_frame
                    } else {
                        (self.current_index + 1) as usize
                    },
                    ..self
                },
                AnimationState::SMEARING => match self.smear_animation {
                    Some(smear) => if self.current_index >= smear.final_frame {
                        AnimationControllerView {
                            current_hold: hold,
                            hold_counter: 0,
                            current_index: self.core_animation.first_frame,
                            animation_state: AnimationState::LOOPING,
                            smear_animation: None,
                            ..self
                        }
                    } else {
                        AnimationControllerView {
                            current_hold: hold,
                            hold_counter: 0,
                            current_index: (self.current_index + 1) as usize,
                            ..self
                        }
                    },
                    None => AnimationControllerView {
                        current_hold: hold,
                        hold_counter: 0,
                        ..self
                    },
                },
            }
        } else {
            AnimationControllerView {
                current_hold: hold,
                hold_counter: (self.hold_counter + 1) as u8,
                ..self
            }
        }
    }

    /// The controller at the first cell of what it shows.
    pub open spec fn spec_reset(self) -> AnimationControllerView {
        AnimationControllerView {
            hold_counter: 0,
            current_index: match self.animation_state {
                AnimationState::SMEARING => match self.smear_animation {
                    Some(smear) => smear.first_frame,
                    None => self.core_animation.first_frame,
                },
                AnimationState::LOOPING => self.core_animation.first_frame,
            },
            ..self
        }
    }

    /// The controller once it shows the core animation `core`, led into by
    /// `smear` if that is given. A name that the character has no animation
    /// for changes nothing: without the smear the core animation is shown at
    /// once, and without the core animation the old one stays.
    pub open spec fn spec_update_animation(
        self,
        smear: Option<Seq<char>>,
        core: Seq<char>,
    ) -> AnimationControllerView {
        let found = match smear {
            Some(name) => spec_get(self.animations, name),
            None => None,
        };
        AnimationControllerView {
            animation_state: if found is Some {
                AnimationState::SMEARING
            } else {
                AnimationState::LOOPING
            },
            smear_animation: found,
            core_animation: match spec_get(self.animations, core) {
                Some(animation) => animation,
                None => self.core_animation,
            },
            ..self
        }
    }

    /// The controller once the renderer was told `transition`.
    pub open spec fn spec_transition(
        self,
        transition: AnimationTransitionView,
    ) -> AnimationControllerView {
        let names = spec_names_of(transition);
        self.spec_update_animation(names.0, names.1).spec_reset()
    }
}

/// Takes from `animations` the entries that `owned` marks, under the names
/// that `character_prefix` calls them.
pub fn take_own_animations(
    animations: &Vec<(String, Animation)>,
    owned: &Vec<bool>,
    character_prefix: &str,
) -> (own: Vec<(String, Animation)>)
    requires
        owned.len() == animations.len(),
    ensures
        spec_table(own@) == spec_take_own(
            spec_table(animations@),
            owned@,
            character_prefix@,
        ).1,
{
    let mut own: Vec<(String, Animation)> = Vec::new();
    let mut i: usize = 0;
    assert(spec_table(own@) =~= Seq::empty());
    while i < animations.len()
        invariant
            i <= animations.len(),
            owned.len() == animations.len(),
            spec_table(own@) == spec_take_own(
                spec_table(animations@).take(i as int),
                owned@.take(i as int),
                character_prefix@,
            ).1,
        decreases animations.len() - i,
    {
        proof {
            let upto = spec_table(animations@).take(i + 1);
            assert(upto.drop_last() =~= spec_table(animations@).take(i as int));
            assert(upto.last() == (animations@[i as int].0@, animations@[i as int].1@));
            assert(owned@.take(i + 1).drop_last() =~= owned@.take(i as int));
        }
        if owned[i] {
            let trimmed_animation_name = trimmed(animations[i].0.as_str(), character_prefix);
            put(&mut own, trimmed_animation_name, animations[i].1);
        }
        i += 1;
    }
    proof {
        assert(spec_table(animations@).take(i as int) =~= spec_table(animations@));
        assert(owned@.take(i as int) =~= owned@);
    }
    own
}

impl AnimationController {
    /// Builds the controller of the character `character_prefix` from the
    /// animations of `library`. It shows the character's idle animation, and
    /// it is an error if the library has none.
    pub fn new(character_prefix: &str, library: &CharacterLibrary) -> (controller: Result<
        Self,
        LoadError,
    >)
        ensures
            match spec_get(
                library@.animations,
                spec_namespaced(character_prefix@, "idle"@),
            ) {
                Some(idle) => controller matches Ok(built) && built@
                    == AnimationControllerView::spec_new(
                    character_prefix@,
                    library@.animations,
                    idle,
                ) && built@.wf() && spec_distinct(built@.animations),
                None => controller matches Err(LoadError::MissingAnimation { name }) && name@
                    == spec_namespaced(character_prefix@, "idle"@),
            },
    {
        proof {
            lemma_own_distinct(
                library@.animations,
                spec_owned(library@.animations, character_prefix@),
                character_prefix@,
            );
        }
        let idle_id = namespaced(character_prefix, "idle");
        let core_animation = match position(&library.animations, &idle_id) {
            Some(i) => library.animations[i].1,
            None => {
                return Err(LoadError::MissingAnimation { name: idle_id });
            },
        };
        let marks = owned(&library.animations, character_prefix);
        let animations = take_own_animations(&library.animations, &marks, character_prefix);
        Ok(
            AnimationController {
                character_prefix: String::from_str(character_prefix),
                animation_state: AnimationState::LOOPING,
                core_animation,
                smear_animation: None,
                current_index: 0,
                current_hold: 2,
                hold_counter: 0,
                animations,
            },
        )
    }

    /// Tells whether the controller is well formed.
    pub fn is_wf(&self) -> (well_formed: bool)
        ensures
            well_formed == self@.wf(),
    {
        let hold = match self.animation_state {
            AnimationState::SMEARING => {
                match self.smear_animation {
                    Some(smear) => smear.hold,
                    None => {
                        return false;
                    },
                }
            },
            AnimationState::LOOPING => self.core_animation.hold,
        };
        self.hold_counter <= hold
    }

    /// Lets one frame pass and tells which cell to show.
    pub fn get_next_frame(&mut self) -> (index: usize)
        requires
            old(self)@.wf(),
        ensures
            final(self)@ == old(self)@.spec_next_frame(),
            index == final(self).current_index,
            final(self)@.wf(),
    {
        self.current_hold = match self.animation_state {
            AnimationState::SMEARING => {
                if let Some(sa) = self.smear_animation {
                    sa.hold
                } else {
                    2
                }
            },
            AnimationState::LOOPING => self.core_animation.hold,
        };
        if self.hold_counter == self.current_hold {
            match self.animation_state {
                AnimationState::LOOPING => {
                    if self.current_index >= self.core_animation.final_frame {
                        self.current_index = self.core_animation.first_frame;
                    } else {
                        self.current_index = self.current_index + 1;
                    }
                },
                AnimationState::SMEARING => {
                    if let Some(smear) = self.smear_animation {
                        if self.current_index >= smear.final_frame {
                            self.animation_state = AnimationState::LOOPING;
                            self.smear_animation = None;
                            self.current_index = self.core_animation.first_frame;
                        } else {
                            self.current_index = self.current_index + 1;
                        }
                    }
                },
            }
            self.hold_counter = 0;
        } else {
            self.hold_counter += 1;
        }
        self.current_index
    }

    /// Goes back to the first cell of what is shown.
    pub fn reset(&mut self)
        ensures
            final(self)@ == old(self)@.spec_reset(),
            (old(self)@.animation_state == AnimationState::SMEARING ==> old(
                self,
            )@.smear_animation is Some) ==> final(self)@.wf(),
    {
        self.hold_counter = 0;
        self.current_index = match self.animation_state {
            AnimationState::SMEARING => {
                if let Some(sa) = self.smear_animation {
                    sa.first_frame
                } else {
                    self.core_animation.first_frame
                }
            },
            AnimationState::LOOPING => self.core_animation.first_frame,
        };
    }

    /// Hands out the animation that the character calls `anim_id`.
    pub fn get_animation(&self, anim_id: String) -> (animation: Option<Animation>)
        ensures
            animation == spec_get(self@.animations, anim_id@),
    {
        match position(&self.animations, &anim_id) {
            Some(i) => Some(self.animations[i].1),
            None => None,
        }
    }

    /// Shows what `transition` asks for, from its first cell.
    pub fn transition(&mut self, transition: AnimationTransition)
        ensures
            final(self)@ == old(self)@.spec_transition(transition@),
            final(self)@.wf(),
    {
        let names = names_of(transition);
        self.update_animation(names.0, names.1);
        self.reset();
    }

    /// Shows the core animation `core`, led into by `smear` if that is given.
    pub fn update_animation(&mut self, smear: Option<String>, core: String)
        ensures
            final(self)@ == old(self)@.spec_update_animation(
                match smear {
                    Some(name) => Some(name@),
                    None => None,
                },
                core@,
            ),
    {
        self.smear_animation = match smear {
            Some(name) => self.get_animation(name),
            None => None,
        };
        self.animation_state = if self.smear_animation.is_some() {
            AnimationState::SMEARING
        } else {
            AnimationState::LOOPING
        };
        if let Some(ca) = self.get_animation(core) {
            self.core_animation = ca;
        }
    }

    /// Shows `animation` over and over.
    pub fn loop_animation(&mut self, animation: String)
        ensures
            final(self)@ == old(self)@.spec_update_animation(None, animation@),
    {
        self.update_animation(None, animation);
    }

    /// Shows `core_animation`, led into by `smear_animation`.
    pub fn smear_animation(&mut self, smear_animation: String, core_animation: String)
        ensures
            final(self)@ == old(self)@.spec_update_animation(
                Some(smear_animation@),
                core_animation@,
            ),
    {
        self.update_animation(Some(smear_animation), core_animation);
    }
}

} // verus!
