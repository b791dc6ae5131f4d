use vstd::prelude::*;
use crate::attacks::Attack;
use crate::attacks::AttackView;
use crate::character_library::CharacterLibrary;
use crate::character::state::ActionState;
use crate::character::state::ActionStateView;
use crate::inputs::buffer::FighterInputBuffer;
use crate::inputs::buffer::FighterInputBufferView;
use crate::inputs::input_events::spec_letters;
use crate::math::Vec2;
use crate::math::back_directed;
use crate::math::directed;
use crate::math::spec_directed;
use crate::pattern::is_match;
use crate::pattern::spec_is_match;
use crate::physics::InterpolatedForce;
use crate::table::position;
use crate::table::lemma_own_distinct;
use crate::table::owned;
use crate::table::spec_distinct;
use crate::table::spec_get;
use crate::table::spec_own;
use crate::table::spec_owned;
use crate::table::put;
use crate::table::spec_table;
use crate::table::spec_take_own;
use crate::text::trimmed;
use crate::text::push_char;
use crate::text::push_decimal;
use crate::text::spec_decimal;
use crate::utils::countdown;

verus! {

/// How a character dashes backward.
#[derive(Debug, PartialEq, Eq, Structural, Clone, Copy)]
pub enum Backdash {
    /// A slide that eases out over `motion_duration` frames.
    Standard { busy: u8, speed: i32, motion_duration: u8 },
    Teleport { busy: u8, distance: i32, motion_duration: u8 },
    Leap { busy: u8, motion_duration: u8 },
}

impl Default for Backdash {
    fn default() -> (backdash: Self)
        ensures
            backdash == (Backdash::Standard { busy: 0, speed: 0, motion_duration: 0 }),
    {
        Backdash::Standard { busy: 0, speed: 0, motion_duration: 0 }
    }
}

impl Backdash {
    /// For how many frames the backdash keeps the character busy.
    pub fn get_duration(&self) -> (busy: u8)
        ensures
            busy == match *self {
                Backdash::Standard { busy, .. } => busy,
                Backdash::Teleport { busy, .. } => busy,
                Backdash::Leap { busy, .. } => busy,
            },
    {
        match self {
            Backdash::Standard { busy, speed: _, motion_duration: _ } => *busy,
            Backdash::Teleport { busy, distance: _, motion_duration: _ } => *busy,
            Backdash::Leap { busy, motion_duration: _ } => *busy,
        }
    }
}

/// The texts of a list of names.
pub open spec fn spec_names(names: Seq<String>) -> Seq<Seq<char>> {
    names.map_values(|name: String| name@)
}

/// Copies a list of names.
pub fn copy_names(names: &Vec<String>) -> (copy: Vec<String>)
    ensures
        spec_names(copy@) == spec_names(names@),
{
    let mut copy: Vec<String> = Vec::new();
    let mut i: usize = 0;
    while i < names.len()
        invariant
            i <= names.len(),
            copy.len() == i,
            forall|j: int| 0 <= j < i ==> copy@[j]@ == names@[j]@,
        decreases names.len() - i,
    {
        copy.push(names[i].clone());
        i += 1;
    }
    assert(spec_names(copy@) =~= spec_names(names@));
    copy
}

/// The attacks of a character: all of them, and those not yet used in the
/// sequence that is under way.
#[derive(Debug)]
pub struct BeatChain {
    pub all_attacks: Vec<String>,
    pub available_attacks: Vec<String>,
}

/// A beat chain as plain values.
pub struct BeatChainView {
    pub all_attacks: Seq<Seq<char>>,
    pub available_attacks: Seq<Seq<char>>,
}

impl View for BeatChain {
    type V = BeatChainView;

    open spec fn view(&self) -> BeatChainView {
        BeatChainView {
            all_attacks: spec_names(self.all_attacks@),
            available_attacks: spec_names(self.available_attacks@),
        }
    }
}

impl BeatChainView {
    /// The chain with every attack available again.
    pub open spec fn spec_reset(self) -> BeatChainView {
        BeatChainView { available_attacks: self.all_attacks, ..self }
    }
}

impl BeatChain {
    /// A chain over `attack_names`, all of them available.
    pub fn from_attack_names(attack_names: Vec<String>) -> (chain: Self)
        ensures
            chain@ == (BeatChainView {
                all_attacks: spec_names(attack_names@),
                available_attacks: spec_names(attack_names@),
            }),
    {
        let available_attacks = copy_names(&attack_names);
        BeatChain { all_attacks: attack_names, available_attacks }
    }

    /// Makes every attack available again.
    pub fn reset(&mut self)
        ensures
            final(self)@ == old(self)@.spec_reset(),
    {
        self.available_attacks = copy_names(&self.all_attacks);
    }
}

impl Clone for BeatChain {
    fn clone(&self) -> (copy: Self)
        ensures
            copy@ == self@,
    {
        BeatChain {
            all_attacks: copy_names(&self.all_attacks),
            available_attacks: copy_names(&self.available_attacks),
        }
    }
}

impl Default for BeatChain {
    fn default() -> (chain: Self)
        ensures
            chain@ == (BeatChainView { all_attacks: Seq::empty(), available_attacks: Seq::empty() }),
    {
        let chain = BeatChain { all_attacks: Vec::new(), available_attacks: Vec::new() };
        assert(spec_names(chain.all_attacks@) =~= Seq::empty());
        assert(spec_names(chain.available_attacks@) =~= Seq::empty());
        chain
    }
}

/// The pattern that an attack's name has to match to be performed with the
/// direction `motion` and the button `button`: the direction, then
/// anything, then the button.
pub open spec fn spec_attack_pattern(motion: u8, button: char) -> Seq<char> {
    seq!['('] + spec_decimal(motion) + seq![')', '.', '*', '(', button, ')']
}

/// Writes the pattern for `motion` and `button`.
pub fn attack_pattern(motion: u8, button: char) -> (pattern: String)
    ensures
        pattern@ == spec_attack_pattern(motion, button),
{
    let mut pattern = String::new();
    push_char(&mut pattern, '(');
    push_decimal(&mut pattern, motion);
    push_char(&mut pattern, ')');
    push_char(&mut pattern, '.');
    push_char(&mut pattern, '*');
    push_char(&mut pattern, '(');
    push_char(&mut pattern, button);
    push_char(&mut pattern, ')');
    assert(pattern@ =~= spec_attack_pattern(motion, button));
    pattern
}

/// For each name of `names`, whether `pattern` matches somewhere in it.
pub open spec fn spec_name_hits(names: Seq<Seq<char>>, pattern: Seq<char>) -> Seq<bool> {
    Seq::new(names.len(), |i: int| spec_is_match(pattern, names[i]))
}

/// The place of the first `true` in `hits`.
pub open spec fn spec_first_hit(hits: Seq<bool>) -> Option<int>
    decreases hits.len(),
{
    if hits.len() == 0 {
        None
    } else {
        match spec_first_hit(hits.drop_last()) {
            Some(i) => Some(i),
            None => if hits.last() {
                Some(hits.len() - 1)
            } else {
                None
            },
        }
    }
}

/// The place in `names` of the attack that `buttons` perform with the
/// direction `motion`. The last button of `buttons` is tried first; for each
/// button the first name that matches its pattern is taken.
pub open spec fn spec_choose_attack(names: Seq<Seq<char>>, motion: u8, buttons: Seq<char>) -> Option<
    int,
>
    decreases buttons.len(),
{
    if buttons.len() == 0 {
        None
    } else {
        match spec_first_hit(spec_name_hits(names, spec_attack_pattern(motion, buttons.last()))) {
            Some(i) => Some(i),
            None => spec_choose_attack(names, motion, buttons.drop_last()),
        }
    }
}

/// Tries `pattern` on every name of `names`.
pub fn name_hits(names: &Vec<String>, pattern: &str) -> (hits: Vec<bool>)
    ensures
        hits@ == spec_name_hits(spec_names(names@), pattern@),
{
    let mut hits: Vec<bool> = Vec::new();
    let mut i: usize = 0;
    while i < names.len()
        invariant
            i <= names.len(),
            hits@ == spec_name_hits(spec_names(names@), pattern@).take(i as int),
        decreases names.len() - i,
    {
        let found = is_match(pattern, names[i].as_str());
        hits.push(found);
        i += 1;
        assert(hits@ =~= spec_name_hits(spec_names(names@), pattern@).take(i as int));
    }
    assert(hits@ =~= spec_name_hits(spec_names(names@), pattern@));
    hits
}

/// Finds the first `true` in `hits`.
pub fn first_hit(hits: &Vec<bool>) -> (place: Option<usize>)
    ensures
        match place {
            Some(i) => spec_first_hit(hits@) == Some(i as int) && i < hits.len(),
            None => spec_first_hit(hits@) is None,
        },
{
    let mut i: usize = 0;
    while i < hits.len()
        invariant
            i <= hits.len(),
            spec_first_hit(hits@.take(i as int)) is None,
        decreases hits.len() - i,
    {
        proof {
            assert(hits@.take(i + 1).drop_last() =~= hits@.take(i as int));
            assert(hits@.take(i + 1).last() == hits@[i as int]);
        }
        if hits[i] {
            proof {
                lemma_first_hit_stays(hits@, i + 1);
            }
            return Some(i);
        }
        i += 1;
    }
    assert(hits@.take(i as int) =~= hits@);
    None
}

/// The attack that is chosen is the first name that matches the pattern of
/// some button, and no name matches the pattern of any button after that
/// one. No attack is chosen exactly if no name matches the pattern of any
/// button.
pub proof fn lemma_choose_attack(names: Seq<Seq<char>>, motion: u8, buttons: Seq<char>)
    ensures
        match spec_choose_attack(names, motion, buttons) {
            Some(i) => exists|k: int|
                {
                    &&& 0 <= k < buttons.len()
                    &&& #[trigger] spec_first_hit(
                        spec_name_hits(names, spec_attack_pattern(motion, buttons[k])),
                    ) == Some(i)
                    &&& forall|later: int|
                        k < later < buttons.len() ==> #[trigger] spec_first_hit(
                            spec_name_hits(names, spec_attack_pattern(motion, buttons[later])),
                        ) is None
                },
            None => forall|k: int|
                0 <= k < buttons.len() ==> #[trigger] spec_first_hit(
                    spec_name_hits(names, spec_attack_pattern(motion, buttons[k])),
                ) is None,
        },
    decreases buttons.len(),
{
    if buttons.len() > 0 {
        let last = buttons.len() - 1;
        let front = buttons.drop_last();
        let here = spec_first_hit(spec_name_hits(names, spec_attack_pattern(motion, buttons[last])));
        assert(buttons.last() == buttons[last]);
        assert(forall|k: int| 0 <= k < front.len() ==> front[k] == buttons[k]);
        match here {
            Some(i) => {
                assert(spec_first_hit(
                    spec_name_hits(names, spec_attack_pattern(motion, buttons[last])),
                ) == Some(i));
            },
            None => {
                lemma_choose_attack(names, motion, front);
                match spec_choose_attack(names, motion, front) {
                    Some(i) => {
                        let k = choose|k: int|
                            {
                                &&& 0 <= k < front.len()
                                &&& #[trigger] spec_first_hit(
                                    spec_name_hits(names, spec_attack_pattern(motion, front[k])),
                                ) == Some(i)
                                &&& forall|later: int|
                                    k < later < front.len() ==> #[trigger] spec_first_hit(
                                        spec_name_hits(
                                            names,
                                            spec_attack_pattern(motion, front[later]),
                                        ),
                                    ) is None
                            };
                        assert(spec_first_hit(
                            spec_name_hits(names, spec_attack_pattern(motion, buttons[k])),
                        ) == Some(i));
                        assert forall|later: int| k < later < buttons.len() implies #[trigger] spec_first_hit(
                            spec_name_hits(names, spec_attack_pattern(motion, buttons[later])),
                        ) is None by {
                            if later < last {
                                assert(front[later] == buttons[later]);
                                assert(spec_first_hit(
                                    spec_name_hits(names, spec_attack_pattern(motion, front[later])),
                                ) is None);
                            }
                        }
                    },
                    None => {
                        assert forall|k: int| 0 <= k < buttons.len() implies #[trigger] spec_first_hit(
                            spec_name_hits(names, spec_attack_pattern(motion, buttons[k])),
                        ) is None by {
                            if k < last {
                                assert(front[k] == buttons[k]);
                                assert(spec_first_hit(
                                    spec_name_hits(names, spec_attack_pattern(motion, front[k])),
                                ) is None);
                            }
                        }
                    },
                }
            },
        }
    }
}

/// A first hit within a front part of `hits` is the first hit of all.
pub proof fn lemma_first_hit_stays(hits: Seq<bool>, front: int)
    requires
        0 <= front <= hits.len(),
        spec_first_hit(hits.take(front)) is Some,
    ensures
        spec_first_hit(hits) == spec_first_hit(hits.take(front)),
    decreases hits.len() - front,
{
    if front < hits.len() {
        assert(hits.take(front + 1).drop_last() =~= hits.take(front));
        lemma_first_hit_stays(hits, front + 1);
    } else {
        assert(hits.take(front) =~= hits);
    }
}

/// The first hit is a hit, and nothing before it is.
pub proof fn lemma_first_hit(hits: Seq<bool>)
    ensures
        match spec_first_hit(hits) {
            Some(i) => 0 <= i < hits.len() && hits[i] && forall|j: int|
                0 <= j < i ==> !#[trigger] hits[j],
            None => forall|j: int| 0 <= j < hits.len() ==> !#[trigger] hits[j],
        },
    decreases hits.len(),
{
    if hits.len() > 0 {
        let front = hits.drop_last();
        lemma_first_hit(front);
        assert(forall|j: int| 0 <= j < front.len() ==> front[j] == hits[j]);
    }
}

} // verus!

verus! {

/// How long a jump keeps the player from acting, in frames.
pub const JUMP_LOCKOUT: u8 = 10;

/// How a character moves: what it was built with, and what changes during a
/// match. Speeds and heights are in thousandths of a world unit per frame.
#[derive(Debug)]
pub struct CharacterMovement {
    pub jumpsquat: u8,
    pub air_jumps: u8,
    pub air_jumps_remaining: u8,
    pub airdashes: u8,
    pub airdashes_remaining: u8,
    pub air_dash_speed: i32,
    pub air_back_dash_speed: i32,
    pub jump_lockout: u8,
    pub walk_speed: i32,
    pub back_walk_speed: i32,
    pub dash_speed: i32,
    pub gravity: i32,
    pub jump_height: i32,
    pub max_airdash_time: u8,
    pub max_air_backdash_time: u8,
    pub backdash: Backdash,
    /// The character's attacks under their names. Of two entries with one
    /// name only the first is ever found.
    pub attacks: Vec<(String, Attack)>,
    pub beat_chain: BeatChain,
    /// Where forward is: 1 toward positive x, -1 toward negative x.
    pub facing_vector: i32,
    pub velocity: Vec2,
    pub interpolated_force: Option<InterpolatedForce>,
    pub can_turn: bool,
}

/// A character's movement as plain values.
pub struct CharacterMovementView {
    pub jumpsquat: u8,
    pub air_jumps: u8,
    pub air_jumps_remaining: u8,
    pub airdashes: u8,
    pub airdashes_remaining: u8,
    pub air_dash_speed: i32,
    pub air_back_dash_speed: i32,
    pub jump_lockout: u8,
    pub walk_speed: i32,
    pub back_walk_speed: i32,
    pub dash_speed: i32,
    pub gravity: i32,
    pub jump_height: i32,
    pub max_airdash_time: u8,
    pub max_air_backdash_time: u8,
    pub backdash: Backdash,
    pub attacks: Seq<(Seq<char>, AttackView)>,
    pub beat_chain: BeatChainView,
    pub facing_vector: i32,
    pub velocity: Vec2,
    pub interpolated_force: Option<InterpolatedForce>,
    pub can_turn: bool,
}

impl View for CharacterMovement {
    type V = CharacterMovementView;

    open spec fn view(&self) -> CharacterMovementView {
        CharacterMovementView {
            jumpsquat: self.jumpsquat,
            air_jumps: self.air_jumps,
            air_jumps_remaining: self.air_jumps_remaining,
            airdashes: self.airdashes,
            airdashes_remaining: self.airdashes_remaining,
            air_dash_speed: self.air_dash_speed,
            air_back_dash_speed: self.air_back_dash_speed,
            jump_lockout: self.jump_lockout,
            walk_speed: self.walk_speed,
            back_walk_speed: self.back_walk_speed,
            dash_speed: self.dash_speed,
            gravity: self.gravity,
            jump_height: self.jump_height,
            max_airdash_time: self.max_airdash_time,
            max_air_backdash_time: self.max_air_backdash_time,
            backdash: self.backdash,
            attacks: spec_table(self.attacks@),
            beat_chain: self.beat_chain@,
            facing_vector: self.facing_vector,
            velocity: self.velocity,
            interpolated_force: self.interpolated_force,
            can_turn: self.can_turn,
        }
    }
}

impl CharacterMovementView {
    /// A movement with nothing set: all counters and speeds zero, no
    /// attacks, and the first kind of backdash.
    pub open spec fn spec_default() -> CharacterMovementView {
        CharacterMovementView {
            jumpsquat: 0,
            air_jumps: 0,
            air_jumps_remaining: 0,
            airdashes: 0,
            airdashes_remaining: 0,
            air_dash_speed: 0,
            air_back_dash_speed: 0,
            jump_lockout: 0,
            walk_speed: 0,
            back_walk_speed: 0,
            dash_speed: 0,
            gravity: 0,
            jump_height: 0,
            max_airdash_time: 0,
            max_air_backdash_time: 0,
            backdash: Backdash::Standard { busy: 0, speed: 0, motion_duration: 0 },
            attacks: Seq::empty(),
            beat_chain: BeatChainView { all_attacks: Seq::empty(), available_attacks: Seq::empty() },
            facing_vector: 0,
            velocity: Vec2 { x: 0, y: 0 },
            interpolated_force: None,
            can_turn: false,
        }
    }

    /// Whether the character moves downward.
    pub open spec fn spec_is_falling(self) -> bool {
        self.velocity.y < 0
    }

    /// Whether an air dash is left.
    pub open spec fn spec_can_airdash(self) -> bool {
        self.airdashes_remaining > 0
    }

    /// The movement with one air dash less.
    pub open spec fn spec_spend_airdash(self) -> CharacterMovementView {
        CharacterMovementView {
            airdashes_remaining: countdown(self.airdashes_remaining),
            ..self
        }
    }

    /// The movement of a character that has come down: its air jumps and air
    /// dashes are whole again, and so is its beat chain.
    pub open spec fn spec_land(self) -> CharacterMovementView {
        CharacterMovementView {
            air_jumps_remaining: self.air_jumps,
            airdashes_remaining: self.airdashes,
            beat_chain: self.beat_chain.spec_reset(),
            ..self
        }
    }

    /// The movement with every attack of its beat chain available again.
    pub open spec fn spec_reset_chain(self) -> CharacterMovementView {
        CharacterMovementView { beat_chain: self.beat_chain.spec_reset(), ..self }
    }

    /// The velocity that a character in `state` takes for one frame. Walking,
    /// dashing and air dashing set it; gravity pulls on a character that
    /// rises or falls; a backdash leaves all motion to its force; in any
    /// other state the character slows to a halt.
    pub open spec fn spec_velocity_in(self, state: ActionStateView) -> Vec2 {
        match state {
            ActionStateView::Walking => Vec2 {
                x: spec_directed(self.facing_vector as int, self.walk_speed as int) as i32,
                y: 0,
            },
            ActionStateView::BackWalking => Vec2 {
                x: spec_directed(-self.facing_vector, self.walk_speed as int) as i32,
                y: 0,
            },
            ActionStateView::Rising { .. } | ActionStateView::Falling => self.velocity.spec_minus(
                Vec2 { x: 0, y: self.gravity },
            ),
            ActionStateView::Dashing => Vec2 {
                x: spec_directed(self.facing_vector as int, self.dash_speed as int) as i32,
                y: 0,
            },
            ActionStateView::BackDashing { .. } => Vec2 { x: 0, y: 0 },
            ActionStateView::AirDashing { velocity, .. } => velocity,
            ActionStateView::AirBackDashing { velocity, .. } => velocity,
            _ => self.velocity.spec_custom_lerp(Vec2 { x: 0, y: 0 }, 1, 2),
        }
    }

    /// The movement once its velocity was set for `state`.
    pub open spec fn spec_determine_velocity(
        self,
        state: ActionStateView,
    ) -> CharacterMovementView {
        CharacterMovementView { velocity: self.spec_velocity_in(state), ..self }
    }

    /// The movement after a frame's velocity was read, and that velocity. A
    /// force that still runs is updated and gives the velocity alone; it is
    /// dropped once it has finished. Without a force the character's own
    /// velocity stands.
    pub open spec fn spec_target_velo(self) -> (Vec2, CharacterMovementView) {
        match self.interpolated_force {
            Some(force) => if force.frames_elapsed < force.duration {
                let next = force.spec_update();
                (
                    next.current_velocity,
                    CharacterMovementView {
                        interpolated_force: if next.is_finished() {
                            None
                        } else {
                            Some(next)
                        },
                        ..self
                    },
                )
            } else {
                (self.velocity, CharacterMovementView { interpolated_force: None, ..self })
            },
            None => (self.velocity, self),
        }
    }

    /// What `find_attack` gives, and the movement it leaves: the attack that
    /// the table holds under the name chosen from the available ones, and
    /// that name no longer available. If no name is chosen, or the table does
    /// not hold it, there is no attack and nothing changes.
    pub open spec fn spec_find_attack(self, motion: u8, buttons: Seq<char>) -> (
        Option<AttackView>,
        CharacterMovementView,
    ) {
        let available = self.beat_chain.available_attacks;
        match spec_choose_attack(available, motion, buttons) {
            None => (None, self),
            Some(i) => match spec_get(self.attacks, available[i]) {
                None => (None, self),
                Some(attack) => (
                    Some(attack),
                    CharacterMovementView {
                        beat_chain: BeatChainView {
                            available_attacks: available.remove(i),
                            ..self.beat_chain
                        },
                        ..self
                    },
                ),
            },
        }
    }

    /// What `attack_to_execute` gives, and the movement it leaves: with no
    /// button held there is no attack; else the held buttons choose one.
    pub open spec fn spec_attack_to_execute(self, buffer: FighterInputBufferView) -> (
        Option<AttackView>,
        CharacterMovementView,
    ) {
        if buffer.current_press.value != 0 {
            self.spec_find_attack(buffer.current_motion, spec_letters(buffer.current_press.value, 8))
        } else {
            (None, self)
        }
    }
}

/// The plain values of an attack that may be absent.
pub open spec fn spec_attack_view(attack: Option<Attack>) -> Option<AttackView> {
    match attack {
        Some(a) => Some(a@),
        None => None,
    }
}

/// Copies an attack table.
pub fn copy_attacks(attacks: &Vec<(String, Attack)>) -> (copy: Vec<(String, Attack)>)
    ensures
        spec_table(copy@) == spec_table(attacks@),
{
    let mut copy: Vec<(String, Attack)> = Vec::new();
    let mut i: usize = 0;
    while i < attacks.len()
        invariant
            i <= attacks.len(),
            copy.len() == i,
            forall|j: int| 0 <= j < i ==> copy@[j].0@ == attacks@[j].0@ && copy@[j].1@ == attacks@[j].1@,
        decreases attacks.len() - i,
    {
        copy.push((attacks[i].0.clone(), attacks[i].1.clone()));
        i += 1;
    }
    assert(spec_table(copy@) =~= spec_table(attacks@));
    copy
}

impl Clone for CharacterMovement {
    fn clone(&self) -> (copy: Self)
        ensures
            copy@ == self@,
    {
        CharacterMovement {
            jumpsquat: self.jumpsquat,
            air_jumps: self.air_jumps,
            air_jumps_remaining: self.air_jumps_remaining,
            airdashes: self.airdashes,
            airdashes_remaining: self.airdashes_remaining,
            air_dash_speed: self.air_dash_speed,
            air_back_dash_speed: self.air_back_dash_speed,
            jump_lockout: self.jump_lockout,
            walk_speed: self.walk_speed,
            back_walk_speed: self.back_walk_speed,
            dash_speed: self.dash_speed,
            gravity: self.gravity,
            jump_height: self.jump_height,
            max_airdash_time: self.max_airdash_time,
            max_air_backdash_time: self.max_air_backdash_time,
            backdash: self.backdash,
            attacks: copy_attacks(&self.attacks),
            beat_chain: self.beat_chain.clone(),
            facing_vector: self.facing_vector,
            velocity: self.velocity,
            interpolated_force: self.interpolated_force,
            can_turn: self.can_turn,
        }
    }
}

impl Default for CharacterMovement {
    fn default() -> (movement: Self)
        ensures
            movement@ == CharacterMovementView::spec_default(),
    {
        let movement = CharacterMovement {
            jumpsquat: 0,
            air_jumps: 0,
            air_jumps_remaining: 0,
            airdashes: 0,
            airdashes_remaining: 0,
            air_dash_speed: 0,
            air_back_dash_speed: 0,
            jump_lockout: 0,
            walk_speed: 0,
            back_walk_speed: 0,
            dash_speed: 0,
            gravity: 0,
            jump_height: 0,
            max_airdash_time: 0,
            max_air_backdash_time: 0,
            backdash: Backdash::Standard { busy: 0, speed: 0, motion_duration: 0 },
            attacks: Vec::new(),
            beat_chain: BeatChain::default(),
            facing_vector: 0,
            velocity: Vec2::zero(),
            interpolated_force: None,
            can_turn: false,
        };
        assert(spec_table(movement.attacks@) =~= Seq::empty());
        movement
    }
}

impl CharacterMovement {
    /// Sets the velocity that the character takes in `state` for one frame.
    pub fn determine_velocity(&mut self, state: &ActionState)
        ensures
            final(self)@ == old(self)@.spec_determine_velocity(state@),
    {
        self.velocity = match state {
            ActionState::Walking => Vec2::new(directed(self.facing_vector, self.walk_speed), 0),
            ActionState::BackWalking => Vec2::new(back_directed(self.facing_vector, self.walk_speed), 0),
            ActionState::Rising { .. } | ActionState::Falling => self.velocity.minus(
                Vec2::new(0, self.gravity),
            ),
            ActionState::Dashing => Vec2::new(directed(self.facing_vector, self.dash_speed), 0),
            ActionState::BackDashing { .. } => Vec2::zero(),
            ActionState::AirDashing { busy: _, duration: _, velocity } => *velocity,
            ActionState::AirBackDashing { busy: _, duration: _, velocity } => *velocity,
            _ => self.velocity.custom_lerp(Vec2::zero(), 1, 2),
        };
    }

    /// Reads the velocity by which the character moves in this frame, and
    /// lets a frame pass for its force.
    pub fn get_target_velo(&mut self) -> (velocity: Vec2)
        ensures
            (velocity, final(self)@) == old(self)@.spec_target_velo(),
    {
        match self.interpolated_force {
            Some(force) => {
                if force.frames_elapsed < force.duration {
                    let mut next = force;
                    let i_force_velo = next.update();
                    if next.is_finished() {
                        self.interpolated_force = None;
                    } else {
                        self.interpolated_force = Some(next);
                    }
                    i_force_velo
                } else {
                    self.interpolated_force = None;
                    self.velocity
                }
            },
            None => self.velocity,
        }
    }

    /// Tells whether the character moves downward.
    pub fn is_falling(&self) -> (falling: bool)
        ensures
            falling == self@.spec_is_falling(),
    {
        self.velocity.y < 0
    }

    /// Tells whether an air dash is left.
    pub fn can_airdash(&self) -> (can: bool)
        ensures
            can == self@.spec_can_airdash(),
    {
        self.airdashes_remaining > 0
    }

    /// Spends one air dash.
    pub fn spend_airdash(&mut self)
        ensures
            final(self)@ == old(self)@.spec_spend_airdash(),
    {
        self.airdashes_remaining = countdown(self.airdashes_remaining);
    }

    /// Restores what a character has back once it comes down.
    pub fn land(&mut self)
        ensures
            final(self)@ == old(self)@.spec_land(),
    {
        self.air_jumps_remaining = self.air_jumps;
        self.airdashes_remaining = self.airdashes;
        self.beat_chain.reset();
    }

    /// Puts the character under `i_force`.
    pub fn set_interpolated_force(&mut self, i_force: InterpolatedForce)
        ensures
            final(self)@ == (CharacterMovementView {
                interpolated_force: Some(i_force),
                ..old(self)@
            }),
    {
        self.interpolated_force = Some(i_force);
    }

    /// Looks `name` up in the attack table and hands out a copy of what is
    /// found.
    pub fn lookup_attack(&self, name: &String) -> (found: Option<Attack>)
        ensures
            spec_attack_view(found) == spec_get(self@.attacks, name@),
    {
        match position(&self.attacks, name) {
            Some(i) => Some(self.attacks[i].1.clone()),
            None => None,
        }
    }

    /// Picks among the available names the attack that `hits` points at and
    /// hands it out; the name is then no longer available. `hits` tells which
    /// of the available names matched.
    pub fn take_attack(&mut self, hits: &Vec<bool>) -> (found: Option<Attack>)
        requires
            hits.len() == old(self).beat_chain.available_attacks.len(),
        ensures
            match spec_first_hit(hits@) {
                None => found is None && final(self)@ == old(self)@,
                Some(i) => match spec_get(
                    old(self)@.attacks,
                    old(self)@.beat_chain.available_attacks[i],
                ) {
                    None => found is None && final(self)@ == old(self)@,
                    Some(attack) => spec_attack_view(found) == Some(attack) && final(self)@ == (
                    CharacterMovementView {
                        beat_chain: BeatChainView {
                            available_attacks: old(self)@.beat_chain.available_attacks.remove(i),
                            ..old(self)@.beat_chain
                        },
                        ..old(self)@
                    }),
                },
            },
    {
        match first_hit(hits) {
            None => None,
            Some(i) => {
                let found = self.lookup_attack(&self.beat_chain.available_attacks[i]);
                if found.is_some() {
                    self.beat_chain.available_attacks.remove(i);
                    assert(spec_names(self.beat_chain.available_attacks@) =~= spec_names(
                        old(self).beat_chain.available_attacks@,
                    ).remove(i as int));
                }
                found
            },
        }
    }

    /// Finds the attack that `buttons` perform with the direction `motion`
    /// among those still available, hands it out, and takes its name from
    /// the available ones.
    pub fn find_attack(&mut self, motion: u8, buttons: String) -> (found: Option<Attack>)
        ensures
            (spec_attack_view(found), final(self)@) == old(self)@.spec_find_attack(motion, buttons@),
    {
        let mut remaining: usize = buttons.as_str().unicode_len();
        proof {
            assert(buttons@.take(remaining as int) =~= buttons@);
        }
        while remaining > 0
            invariant
                remaining <= buttons@.len(),
                *self == *old(self),
                spec_choose_attack(self@.beat_chain.available_attacks, motion, buttons@)
                    == spec_choose_attack(
                    self@.beat_chain.available_attacks,
                    motion,
                    buttons@.take(remaining as int),
                ),
            decreases remaining,
        {
            let button = buttons.as_str().get_char(remaining - 1);
            let pattern = attack_pattern(motion, button);
            let hits = name_hits(&self.beat_chain.available_attacks, pattern.as_str());
            proof {
                let upto = buttons@.take(remaining as int);
                assert(upto.last() == button);
                assert(upto.drop_last() =~= buttons@.take(remaining - 1));
            }
            if first_hit(&hits).is_some() {
                return self.take_attack(&hits);
            }
            remaining -= 1;
        }
        None
    }

    /// Finds the attack that the held buttons perform, if any is held.
    pub fn attack_to_execute(&mut self, buffer: &FighterInputBuffer, _airborne: bool) -> (found:
        Option<Attack>)
        ensures
            (spec_attack_view(found), final(self)@) == old(self)@.spec_attack_to_execute(buffer@),
    {
        if buffer.current_press.any_pressed() {
            self.find_attack(buffer.current_motion, buffer.current_press.to_string())
        } else {
            None
        }
    }
}

/// A character's movement as character data describes it.
#[derive(Debug, Clone, Copy, PartialEq, Eq, Structural)]
pub struct CharacterMovementSerialized {
    pub jumpsquat: u8,
    pub air_jumps: u8,
    pub airdashes: u8,
    pub air_dash_speed: i32,
    pub air_back_dash_speed: i32,
    pub walk_speed: i32,
    pub back_walk_speed: i32,
    pub dash_speed: i32,
    pub gravity: i32,
    pub jump_height: i32,
    pub max_airdash_time: u8,
    pub max_air_backdash_time: u8,
    pub backdash: Backdash,
}

impl CharacterMovementView {
    /// The movement that `s` describes for `character`, with the character's
    /// own attacks among `attacks`. The character faces toward positive x,
    /// stands still, may turn, and has all its air jumps, air dashes and
    /// attacks.
    pub open spec fn spec_from_serialized(
        s: CharacterMovementSerialized,
        attacks: Seq<(Seq<char>, AttackView)>,
        character: Seq<char>,
    ) -> CharacterMovementView {
        let own = spec_own(attacks, character);
        CharacterMovementView {
            jumpsquat: s.jumpsquat,
            air_jumps: s.air_jumps,
            air_jumps_remaining: s.air_jumps,
            airdashes: s.airdashes,
            airdashes_remaining: s.airdashes,
            air_dash_speed: s.air_dash_speed,
            air_back_dash_speed: s.air_back_dash_speed,
            jump_lockout: JUMP_LOCKOUT,
            walk_speed: s.walk_speed,
            back_walk_speed: s.back_walk_speed,
            dash_speed: s.dash_speed,
            gravity: s.gravity,
            jump_height: s.jump_height,
            max_airdash_time: s.max_airdash_time,
            max_air_backdash_time: s.max_air_backdash_time,
            backdash: s.backdash,
            attacks: own.1,
            beat_chain: BeatChainView { all_attacks: own.0, available_attacks: own.0 },
            facing_vector: 1,
            velocity: Vec2 { x: 0, y: 0 },
            interpolated_force: None,
            can_turn: true,
        }
    }
}

/// The names in `names.0` and the table in `names.1` as plain values.
pub open spec fn spec_own_view(own: (Vec<String>, Vec<(String, Attack)>)) -> (
    Seq<Seq<char>>,
    Seq<(Seq<char>, AttackView)>,
) {
    (spec_names(own.0@), spec_table(own.1@))
}

/// Takes from `attacks` the entries that `owned` marks, under the names that
/// `character_name` calls them: the names in order, and the attacks under
/// these names.
pub fn take_own_attacks(
    attacks: &Vec<(String, Attack)>,
    owned: &Vec<bool>,
    character_name: &str,
) -> (own: (Vec<String>, Vec<(String, Attack)>))
    requires
        owned.len() == attacks.len(),
    ensures
        spec_own_view(own) == spec_take_own(spec_table(attacks@), owned@, character_name@),
{
    let mut table: Vec<(String, Attack)> = Vec::new();
    let mut attack_names: Vec<String> = Vec::new();
    let mut i: usize = 0;
    assert(spec_table(table@) =~= Seq::empty());
    assert(spec_names(attack_names@) =~= Seq::empty());
    while i < attacks.len()
        invariant
            i <= attacks.len(),
            owned.len() == attacks.len(),
            (spec_names(attack_names@), spec_table(table@)) == spec_take_own(
                spec_table(attacks@).take(i as int),
                owned@.take(i as int),
                character_name@,
            ),
        decreases attacks.len() - i,
    {
        proof {
            let upto = spec_table(attacks@).take(i + 1);
            assert(upto.drop_last() =~= spec_table(attacks@).take(i as int));
            assert(upto.last() == (attacks@[i as int].0@, attacks@[i as int].1@));
            assert(owned@.take(i + 1).drop_last() =~= owned@.take(i as int));
        }
        if owned[i] {
            let trimmed_attack_name = trimmed(attacks[i].0.as_str(), character_name);
            let ghost names_before = spec_names(attack_names@);
            attack_names.push(trimmed_attack_name.clone());
            assert(spec_names(attack_names@) =~= names_before.push(trimmed_attack_name@));
            put(&mut table, trimmed_attack_name, attacks[i].1.clone());
        }
        i += 1;
    }
    proof {
        assert(spec_table(attacks@).take(i as int) =~= spec_table(attacks@));
        assert(owned@.take(i as int) =~= owned@);
    }
    (attack_names, table)
}

impl CharacterMovement {
    /// Builds the movement that `s` describes for `character_name`, with the
    /// character's own attacks among those of `library`.
    pub fn from_serialized(
        s: CharacterMovementSerialized,
        library: &CharacterLibrary,
        character_name: &str,
    ) -> (movement: Self)
        ensures
            movement@ == CharacterMovementView::spec_from_serialized(
                s,
                library@.attacks,
                character_name@,
            ),
            spec_distinct(movement@.attacks),
    {
        proof {
            lemma_own_distinct(
                library@.attacks,
                spec_owned(library@.attacks, character_name@),
                character_name@,
            );
        }
        let marks = owned(&library.attacks, character_name);
        let own = take_own_attacks(&library.attacks, &marks, character_name);
        CharacterMovement {
            jumpsquat: s.jumpsquat,
            jump_lockout: JUMP_LOCKOUT,
            air_jumps: s.air_jumps,
            airdashes: s.airdashes,
            air_dash_speed: s.air_dash_speed,
            air_back_dash_speed: s.air_back_dash_speed,
            walk_speed: s.walk_speed,
            back_walk_speed: s.back_walk_speed,
            dash_speed: s.dash_speed,
            gravity: s.gravity,
            jump_height: s.jump_height,
            max_airdash_time: s.max_airdash_time,
            max_air_backdash_time: s.max_air_backdash_time,
            backdash: s.backdash,
            facing_vector: 1,
            air_jumps_remaining: s.air_jumps,
            airdashes_remaining: s.airdashes,
            velocity: Vec2::zero(),
            interpolated_force: None,
            attacks: own.1,
            beat_chain: BeatChain::from_attack_names(own.0),
            can_turn: true,
        }
    }
}

} // verus!
