use vstd::prelude::*;
use crate::math::Vec2;
use crate::math::lemma_lerp_complete;

verus! {

/// A push that eases from one velocity to another over a fixed number of
/// frames. While a character carries one, it moves by the force alone.
#[derive(Clone, Copy, Debug, PartialEq, Eq, Structural)]
pub struct InterpolatedForce {
    pub current_velocity: Vec2,
    pub starting_velocity: Vec2,
    pub ending_velocity: Vec2,
    pub duration: u8,
    pub frames_elapsed: u8,
}

impl InterpolatedForce {
    /// A force never runs past its duration.
    pub open spec fn wf(&self) -> bool {
        self.frames_elapsed <= self.duration
    }

    pub open spec fn spec_is_finished(&self) -> bool {
        self.duration == self.frames_elapsed
    }

    /// The force one frame later.
    pub open spec fn spec_update(self) -> InterpolatedForce
        recommends
            self.frames_elapsed < self.duration,
    {
        let elapsed = self.frames_elapsed + 1;
        InterpolatedForce {
            current_velocity: self.current_velocity.spec_custom_lerp(
                self.ending_velocity,
                elapsed,
                self.duration as int,
            ),
            frames_elapsed: elapsed as u8,
            ..self
        }
    }

    /// The force `frames` frames later.
    pub open spec fn spec_update_by(self, frames: nat) -> InterpolatedForce
        decreases frames,
    {
        if frames == 0 {
            self
        } else {
            self.spec_update().spec_update_by((frames - 1) as nat)
        }
    }

    /// A force that starts at `starting_velocity` and reaches
    /// `ending_velocity` after `duration` frames.
    pub fn new(starting_velocity: Vec2, ending_velocity: Vec2, duration: u8) -> (force: Self)
        ensures
            force == (InterpolatedForce {
                current_velocity: starting_velocity,
                starting_velocity,
                ending_velocity,
                duration,
                frames_elapsed: 0,
            }),
            force.wf(),
    {
        InterpolatedForce {
            current_velocity: starting_velocity,
            starting_velocity,
            ending_velocity,
            duration,
            frames_elapsed: 0,
        }
    }

    /// Advances the force by one frame and returns the velocity it now gives.
    pub fn update(&mut self) -> (velocity: Vec2)
        requires
            old(self).frames_elapsed < old(self).duration,
        ensures
            *final(self) == old(self).spec_update(),
            velocity == final(self).current_velocity,
            final(self).wf(),
    {
        self.tick();
        self.current_velocity = self.current_velocity.custom_lerp(
            self.ending_velocity,
            self.frames_elapsed,
            self.duration,
        );
        self.current_velocity
    }

    /// Counts one more frame.
    pub fn tick(&mut self)
        requires
            old(self).frames_elapsed < old(self).duration,
        ensures
            *final(self) == (InterpolatedForce {
                frames_elapsed: (old(self).frames_elapsed + 1) as u8,
                ..*old(self)
            }),
            final(self).wf(),
    {
        self.frames_elapsed += 1;
    }

    /// Tells whether the force has run for its whole duration.
    #[verifier::when_used_as_spec(spec_is_finished)]
    pub fn is_finished(&self) -> (finished: bool)
        ensures
            finished == self.spec_is_finished(),
    {
        self.duration == self.frames_elapsed
    }
}

/// Updating a force leaves its ends and its duration alone, and counts
/// exactly the frames that passed.
pub proof fn lemma_update_by_counts(force: InterpolatedForce, frames: nat)
    requires
        force.frames_elapsed + frames <= force.duration,
    ensures
        force.spec_update_by(frames).frames_elapsed == force.frames_elapsed + frames,
        force.spec_update_by(frames).duration == force.duration,
        force.spec_update_by(frames).starting_velocity == force.starting_velocity,
        force.spec_update_by(frames).ending_velocity == force.ending_velocity,
    decreases frames,
{
    if frames > 0 {
        lemma_update_by_counts(force.spec_update(), (frames - 1) as nat);
    }
}

/// A force that is updated once per frame for the rest of its duration ends
/// finished, and exactly on its ending velocity.
pub proof fn lemma_force_converges(force: InterpolatedForce)
    requires
        force.frames_elapsed < force.duration,
    ensures
        ({
            let last = force.spec_update_by((force.duration - force.frames_elapsed) as nat);
            &&& last.is_finished()
            &&& last.current_velocity == force.ending_velocity
            &&& !last.current_velocity.is_far_from(force.ending_velocity)
        }),
    decreases force.duration - force.frames_elapsed,
{
    let rest = (force.duration - force.frames_elapsed) as nat;
    let next = force.spec_update();
    assert(force.spec_update_by(rest) == next.spec_update_by((rest - 1) as nat));
    if rest == 1 {
        let end = force.ending_velocity;
        let d = force.duration as int;
        lemma_lerp_complete(force.current_velocity.x as int, end.x as int, d);
        lemma_lerp_complete(force.current_velocity.y as int, end.y as int, d);
        assert(next.spec_update_by(0) == next);
        assert(next.current_velocity == end);
    } else {
        lemma_force_converges(next);
    }
}

/// A force finishes no sooner than its duration: as long as frames remain,
/// it is not finished.
pub proof fn lemma_force_lasts(force: InterpolatedForce, frames: nat)
    requires
        force.frames_elapsed + frames < force.duration,
    ensures
        !force.spec_update_by(frames).is_finished(),
{
    lemma_update_by_counts(force, frames);
}

} // verus!
