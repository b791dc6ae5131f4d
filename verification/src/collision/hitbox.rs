use vstd::prelude::*;
use crate::collision::hurtbox::BlockType;
use crate::collision::hurtbox::Hurtbox;
use crate::math::Vec2;
use crate::utils::countdown;

verus! {

/// Which part of the body an attack hits.
#[allow(non_camel_case_types)]
#[derive(Debug, PartialEq, Eq, Structural, Clone, Copy)]
pub enum AttackProperty {
    HIGH,
    MID,
    LOW,
}

/// How a character that was hit reels.
#[allow(non_camel_case_types)]
#[derive(Debug, PartialEq, Eq, Structural, Clone, Copy)]
pub enum HitState {
    STANDING,
    FLOATING,
    TUMBLING,
}

/// What an attack does to a guard.
#[allow(non_camel_case_types)]
#[derive(Debug, PartialEq, Eq, Structural, Clone, Copy)]
pub enum BlockState {
    BLOCKING,
    BUCKLED,
    BROKEN,
}

/// What an attack does when it lands. Prorations are in thousandths.
#[derive(Debug, PartialEq, Eq, Structural, Clone, Copy)]
pub struct HitboxData {
    pub attack_level: u8,
    pub damage: u8,
    pub bonus_hitstun: u8,
    pub starting_proration: i32,
    pub mid_proration: i32,
    pub force: Vec2,
    pub hit_state: HitState,
    pub block_state: BlockState,
}

impl HitboxData {
    pub open spec fn spec_default() -> HitboxData {
        HitboxData {
            attack_level: 0,
            damage: 0,
            bonus_hitstun: 0,
            starting_proration: 1000,
            mid_proration: 700,
            force: Vec2 { x: 0, y: 0 },
            hit_state: HitState::STANDING,
            block_state: BlockState::BLOCKING,
        }
    }

    /// A light attack that deals `damage` and nothing else.
    pub fn jab(damage: u8) -> (data: Self)
        ensures
            data == (HitboxData { damage, ..HitboxData::spec_default() }),
    {
        HitboxData {
            attack_level: 0,
            damage,
            bonus_hitstun: 0,
            starting_proration: 1000,
            mid_proration: 700,
            force: Vec2::new(0, 0),
            hit_state: HitState::STANDING,
            block_state: BlockState::BLOCKING,
        }
    }
}

impl Default for HitboxData {
    fn default() -> (data: Self)
        ensures
            data == HitboxData::spec_default(),
    {
        HitboxData::jab(0)
    }
}

/// An attack that landed.
#[derive(Debug, PartialEq, Eq, Structural, Clone, Copy)]
pub struct HitEvent {
    pub hitbox_data: HitboxData,
    /// The attacker.
    pub player_id: u8,
    /// The defender.
    pub recieving_player_id: u8,
}

impl HitEvent {
    pub fn new(hitbox_data: HitboxData, player_id: u8, recieving_player_id: u8) -> (event: Self)
        ensures
            event == (HitEvent { hitbox_data, player_id, recieving_player_id }),
    {
        HitEvent { hitbox_data, player_id, recieving_player_id }
    }
}

/// An attack that was blocked.
#[derive(Debug, PartialEq, Eq, Structural, Clone, Copy)]
pub struct BlockEvent {
    pub hitbox_data: HitboxData,
    /// The attacker.
    pub player_id: u8,
    /// The defender.
    pub recieving_player_id: u8,
}

impl BlockEvent {
    pub fn new(hitbox_data: HitboxData, player_id: u8, recieving_player_id: u8) -> (event: Self)
        ensures
            event == (BlockEvent { hitbox_data, player_id, recieving_player_id }),
    {
        BlockEvent { hitbox_data, player_id, recieving_player_id }
    }
}

/// What comes of a hitbox meeting a hurtbox.
#[derive(Debug, PartialEq, Eq, Structural, Clone, Copy)]
pub enum CollisionEvent {
    Hit(HitEvent),
    Block(BlockEvent),
}

/// The region in which an attack lands, for as long as it is active.
#[derive(Debug, PartialEq, Eq, Structural, Clone, Copy)]
pub struct Hitbox {
    /// The player that attacks.
    pub player_id: u8,
    pub air_blockable: bool,
    pub property: AttackProperty,
    /// For how many more frames the hitbox stays.
    pub duration: u8,
    pub active: bool,
    pub hitbox_data: HitboxData,
}

impl View for Hitbox {
    type V = Hitbox;

    open spec fn view(&self) -> Hitbox {
        *self
    }
}

/// A hitbox as character data describes it. The proration is in thousandths.
#[derive(Debug)]
pub struct HitboxSerialized {
    pub name: String,
    pub attack_level: u8,
    pub damage: u8,
    pub proration: i32,
    pub force: Vec2,
    pub air_blockable: bool,
    pub property: AttackProperty,
    pub duration: u8,
    pub chip: u8,
    pub projectile: bool,
}

impl Hitbox {
    /// The hitbox that `s` describes. It is on, and belongs to no player
    /// until an attack brings it into play.
    pub open spec fn spec_from_serialized(s: HitboxSerialized) -> Hitbox {
        Hitbox {
            player_id: 0,
            air_blockable: s.air_blockable,
            property: s.property,
            duration: s.duration,
            active: true,
            hitbox_data: HitboxData {
                attack_level: s.attack_level,
                damage: s.damage,
                starting_proration: s.proration,
                force: s.force,
                ..HitboxData::spec_default()
            },
        }
    }

    /// Builds the hitbox that `s` describes.
    pub fn from_serialized(s: HitboxSerialized) -> (hitbox: Self)
        ensures
            hitbox == Hitbox::spec_from_serialized(s),
    {
        let mut hitbox_data = HitboxData::jab(s.damage);
        hitbox_data.attack_level = s.attack_level;
        hitbox_data.starting_proration = s.proration;
        hitbox_data.force = s.force;
        Hitbox::new(0, s.air_blockable, hitbox_data, s.property, s.duration)
    }

    pub fn new(
        player_id: u8,
        air_blockable: bool,
        hitbox_data: HitboxData,
        property: AttackProperty,
        duration: u8,
    ) -> (hitbox: Self)
        ensures
            hitbox == (Hitbox {
                player_id,
                air_blockable,
                property,
                duration,
                active: true,
                hitbox_data,
            }),
    {
        Hitbox { player_id, air_blockable, hitbox_data, property, duration, active: true }
    }

    /// The hitbox one frame later.
    pub open spec fn spec_update(self) -> Hitbox {
        let duration = countdown(self.duration);
        Hitbox { duration, active: self.active && duration != 0, ..self }
    }

    /// The hitbox `frames` frames later.
    pub open spec fn spec_update_by(self, frames: nat) -> Hitbox
        decreases frames,
    {
        if frames == 0 {
            self
        } else {
            self.spec_update().spec_update_by((frames - 1) as nat)
        }
    }

    /// Whether the hitbox is to be retired: its frames are used up, or it
    /// was switched off.
    pub open spec fn spec_is_finished(&self) -> bool {
        self.duration == 0 || !self.active
    }

    /// Whether an attack of this hitbox reaches `hurtbox`.
    pub open spec fn spec_does_connect(&self, hurtbox: &Hurtbox) -> bool {
        !hurtbox.spec_ignores(self.property)
    }

    /// Whether `hurtbox` blocks this hitbox. A hurtbox that does not guard
    /// blocks nothing. On the ground a mid attack is always blocked, and a
    /// high or low one by the guard of its own height. In the air an attack
    /// is blocked if it can be blocked in the air, and otherwise only by a
    /// guard that has a modifier.
    pub open spec fn spec_is_blocked(&self, hurtbox: &Hurtbox) -> bool {
        match hurtbox.block_type {
            None => false,
            Some(block_type) => if hurtbox.is_grounded {
                match self.property {
                    AttackProperty::MID => true,
                    AttackProperty::HIGH => block_type == BlockType::HIGH,
                    AttackProperty::LOW => block_type == BlockType::LOW,
                }
            } else {
                self.air_blockable || hurtbox.block_modifier is Some
            },
        }
    }

    /// What comes of this hitbox meeting `hurtbox`: nothing if the hitbox is
    /// to be retired, if both belong to one player or if the attack passes
    /// through; else a block or a hit.
    pub open spec fn spec_collide(&self, hurtbox: &Hurtbox) -> Option<CollisionEvent> {
        if self.spec_is_finished() || self.player_id == hurtbox.player_id
            || !self.spec_does_connect(hurtbox) {
            None
        } else if self.spec_is_blocked(hurtbox) {
            Some(
                CollisionEvent::Block(
                    BlockEvent {
                        hitbox_data: self.hitbox_data,
                        player_id: self.player_id,
                        recieving_player_id: hurtbox.player_id,
                    },
                ),
            )
        } else {
            Some(
                CollisionEvent::Hit(
                    HitEvent {
                        hitbox_data: self.hitbox_data,
                        player_id: self.player_id,
                        recieving_player_id: hurtbox.player_id,
                    },
                ),
            )
        }
    }

    /// Lets one frame pass: the duration steps down, and at zero the hitbox
    /// goes off.
    pub fn update(&mut self)
        ensures
            *final(self) == old(self).spec_update(),
    {
        self.duration = countdown(self.duration);
        if self.duration == 0 {
            self.active = false;
        }
    }

    /// Lets one frame pass.
    pub fn tick(&mut self)
        ensures
            *final(self) == old(self).spec_update(),
    {
        self.update();
    }

    /// Tells whether the hitbox is to be retired.
    #[verifier::when_used_as_spec(spec_is_finished)]
    pub fn is_finished(&self) -> (finished: bool)
        ensures
            finished == self.spec_is_finished(),
    {
        self.duration == 0 || !self.active
    }

    /// Resolves this hitbox against `hurtbox`.
    pub fn collide_with_hurtbox(&self, hurtbox: &Hurtbox) -> (event: Option<CollisionEvent>)
        ensures
            event == self.spec_collide(hurtbox),
    {
        if !self.is_finished() && self.player_id != hurtbox.player_id {
            if self.does_connect(hurtbox) {
                if self.is_blocked(hurtbox) {
                    return Some(
                        CollisionEvent::Block(
                            BlockEvent::new(self.hitbox_data, self.player_id, hurtbox.player_id),
                        ),
                    );
                } else {
                    return Some(
                        CollisionEvent::Hit(
                            HitEvent::new(self.hitbox_data, self.player_id, hurtbox.player_id),
                        ),
                    );
                }
            }
        }
        None
    }

    /// Tells whether an attack of this hitbox reaches `hurtbox`.
    pub fn does_connect(&self, hurtbox: &Hurtbox) -> (connects: bool)
        ensures
            connects == self.spec_does_connect(hurtbox),
    {
        !hurtbox.ignores(&self.property)
    }

    /// Tells whether `hurtbox` blocks this hitbox.
    pub fn is_blocked(&self, hurtbox: &Hurtbox) -> (blocked: bool)
        ensures
            blocked == self.spec_is_blocked(hurtbox),
    {
        if let Some(block_type) = hurtbox.block_type {
            if hurtbox.is_grounded {
                match self.property {
                    AttackProperty::MID => true,
                    AttackProperty::HIGH => block_type == BlockType::HIGH,
                    AttackProperty::LOW => block_type == BlockType::LOW,
                }
            } else {
                if self.air_blockable {
                    true
                } else {
                    hurtbox.block_modifier.is_some()
                }
            }
        } else {
            false
        }
    }
}

/// The hitboxes of `hitboxes` that are still to be kept, each one frame
/// older, in their order.
pub open spec fn spec_manage_hitboxes(hitboxes: Seq<Hitbox>) -> Seq<Hitbox>
    decreases hitboxes.len(),
{
    if hitboxes.len() == 0 {
        Seq::empty()
    } else {
        let before = spec_manage_hitboxes(hitboxes.drop_last());
        if hitboxes.last().is_finished() {
            before
        } else {
            before.push(hitboxes.last().spec_update())
        }
    }
}

/// Ends a frame for the hitboxes in play: retires those that are finished,
/// and lets a frame pass for the others.
pub fn manage_hitboxes(hitboxes: &mut Vec<Hitbox>)
    ensures
        final(hitboxes)@ == spec_manage_hitboxes(old(hitboxes)@),
{
    let mut kept: Vec<Hitbox> = Vec::new();
    let mut i: usize = 0;
    while i < hitboxes.len()
        invariant
            i <= hitboxes.len(),
            hitboxes@ == old(hitboxes)@,
            kept@ == spec_manage_hitboxes(hitboxes@.take(i as int)),
        decreases hitboxes.len() - i,
    {
        proof {
            let upto = hitboxes@.take(i + 1);
            assert(upto.drop_last() =~= hitboxes@.take(i as int));
            assert(upto.last() == hitboxes@[i as int]);
        }
        let mut hitbox = hitboxes[i];
        if !hitbox.is_finished() {
            hitbox.tick();
            kept.push(hitbox);
        }
        i += 1;
    }
    assert(hitboxes@.take(i as int) =~= hitboxes@);
    *hitboxes = kept;
}

/// A hitbox that is on, with frames left, stays on while frames remain and
/// counts them down.
pub proof fn lemma_hitbox_stays(hitbox: Hitbox, frames: nat)
    requires
        hitbox.active,
        frames < hitbox.duration,
    ensures
        hitbox.spec_update_by(frames).active,
        hitbox.spec_update_by(frames).duration == hitbox.duration - frames,
        !hitbox.spec_update_by(frames).is_finished(),
    decreases frames,
{
    if frames > 0 {
        lemma_hitbox_stays(hitbox.spec_update(), (frames - 1) as nat);
    }
}

/// A hitbox is retired once its frames have passed, and then it stays
/// retired and collides with nothing.
pub proof fn lemma_hitbox_lifetime(hitbox: Hitbox, frames: nat, hurtbox: &Hurtbox)
    requires
        frames >= hitbox.duration,
        frames > 0,
    ensures
        hitbox.spec_update_by(frames).is_finished(),
        !hitbox.spec_update_by(frames).active,
        hitbox.spec_update_by(frames).spec_collide(hurtbox) is None,
    decreases frames,
{
    if frames > 1 {
        lemma_hitbox_lifetime(hitbox.spec_update(), (frames - 1) as nat, hurtbox);
    } else {
        assert(hitbox.spec_update().spec_update_by(0) == hitbox.spec_update());
    }
}

/// A hitbox never touches a hurtbox of its own player.
pub proof fn lemma_no_self_hit(hitbox: Hitbox, hurtbox: &Hurtbox)
    requires
        hitbox.player_id == hurtbox.player_id,
    ensures
        hitbox.spec_collide(hurtbox) is None,
{
}

/// A hitbox in play that reaches a hurtbox of the other player gives exactly
/// one event, and it carries the hitbox's data and both players.
pub proof fn lemma_one_event(hitbox: Hitbox, hurtbox: &Hurtbox)
    requires
        !hitbox.is_finished(),
        hitbox.player_id != hurtbox.player_id,
        hitbox.spec_does_connect(hurtbox),
    ensures
        hitbox.spec_is_blocked(hurtbox) ==> hitbox.spec_collide(hurtbox) == Some(
            CollisionEvent::Block(
                BlockEvent {
                    hitbox_data: hitbox.hitbox_data,
                    player_id: hitbox.player_id,
                    recieving_player_id: hurtbox.player_id,
                },
            ),
        ),
        !hitbox.spec_is_blocked(hurtbox) ==> hitbox.spec_collide(hurtbox) == Some(
            CollisionEvent::Hit(
                HitEvent {
                    hitbox_data: hitbox.hitbox_data,
                    player_id: hitbox.player_id,
                    recieving_player_id: hurtbox.player_id,
                },
            ),
        ),
{
}

/// What comes of `hitbox` meeting each of `hurtboxes`, in their order.
pub open spec fn spec_collide_each(hitbox: Hitbox, hurtboxes: Seq<Hurtbox>) -> Seq<CollisionEvent>
    decreases hurtboxes.len(),
{
    if hurtboxes.len() == 0 {
        Seq::empty()
    } else {
        let before = spec_collide_each(hitbox, hurtboxes.drop_last());
        match hitbox.spec_collide(&hurtboxes.last()) {
            Some(event) => before.push(event),
            None => before,
        }
    }
}

/// What comes of each of `hitboxes` meeting each of `hurtboxes`: the events
/// of the first hitbox in the order of the hurtboxes, then those of the
/// second, and so on.
pub open spec fn spec_resolve_collisions(hitboxes: Seq<Hitbox>, hurtboxes: Seq<Hurtbox>) -> Seq<
    CollisionEvent,
>
    decreases hitboxes.len(),
{
    if hitboxes.len() == 0 {
        Seq::empty()
    } else {
        spec_resolve_collisions(hitboxes.drop_last(), hurtboxes) + spec_collide_each(
            hitboxes.last(),
            hurtboxes,
        )
    }
}

/// Resolves every hitbox in play against every hurtbox.
pub fn resolve_collisions(hitboxes: &Vec<Hitbox>, hurtboxes: &Vec<Hurtbox>) -> (events: Vec<
    CollisionEvent,
>)
    ensures
        events@ == spec_resolve_collisions(hitboxes@, hurtboxes@),
{
    let mut events: Vec<CollisionEvent> = Vec::new();
    let mut i: usize = 0;
    while i < hitboxes.len()
        invariant
            i <= hitboxes.len(),
            events@ == spec_resolve_collisions(hitboxes@.take(i as int), hurtboxes@),
        decreases hitboxes.len() - i,
    {
        let ghost done = events@;
        let mut j: usize = 0;
        while j < hurtboxes.len()
            invariant
                i < hitboxes.len(),
                j <= hurtboxes.len(),
                events@ == done + spec_collide_each(hitboxes@[i as int], hurtboxes@.take(j as int)),
            decreases hurtboxes.len() - j,
        {
            proof {
                let upto = hurtboxes@.take(j + 1);
                assert(upto.drop_last() =~= hurtboxes@.take(j as int));
                assert(upto.last() == hurtboxes@[j as int]);
            }
            let ghost each = spec_collide_each(hitboxes@[i as int], hurtboxes@.take(j as int));
            if let Some(event) = hitboxes[i].collide_with_hurtbox(&hurtboxes[j]) {
                events.push(event);
                assert(events@ =~= done + each.push(event));
            }
            j += 1;
        }
        proof {
            assert(hurtboxes@.take(j as int) =~= hurtboxes@);
            let upto = hitboxes@.take(i + 1);
            assert(upto.drop_last() =~= hitboxes@.take(i as int));
            assert(upto.last() == hitboxes@[i as int]);
        }
        i += 1;
    }
    assert(hitboxes@.take(i as int) =~= hitboxes@);
    events
}

/// Nothing comes of a pass in which every hitbox and every hurtbox belong to
/// one player.
pub proof fn lemma_no_self_hits(hitboxes: Seq<Hitbox>, hurtboxes: Seq<Hurtbox>, player_id: u8)
    requires
        forall|i: int| 0 <= i < hitboxes.len() ==> (#[trigger] hitboxes[i]).player_id == player_id,
        forall|j: int| 0 <= j < hurtboxes.len() ==> (#[trigger] hurtboxes[j]).player_id == player_id,
    ensures
        spec_resolve_collisions(hitboxes, hurtboxes) == Seq::<CollisionEvent>::empty(),
    decreases hitboxes.len(),
{
    if hitboxes.len() > 0 {
        lemma_no_self_hits(hitboxes.drop_last(), hurtboxes, player_id);
        lemma_none_of_own(hitboxes.last(), hurtboxes);
    }
}

/// Nothing comes of a hitbox meeting hurtboxes of its own player.
pub proof fn lemma_none_of_own(hitbox: Hitbox, hurtboxes: Seq<Hurtbox>)
    requires
        forall|j: int|
            0 <= j < hurtboxes.len() ==> (#[trigger] hurtboxes[j]).player_id == hitbox.player_id,
    ensures
        spec_collide_each(hitbox, hurtboxes) == Seq::<CollisionEvent>::empty(),
    decreases hurtboxes.len(),
{
    if hurtboxes.len() > 0 {
        lemma_none_of_own(hitbox, hurtboxes.drop_last());
    }
}

} // verus!
