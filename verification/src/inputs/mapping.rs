use vstd::prelude::*;
use crate::character::PlayerId;
use crate::constants::spec_motions;
use crate::inputs::buffer::FighterInputBuffer;
use crate::inputs::buffer::FighterInputBufferView;
use crate::inputs::input_events::FighterInputEvent;
use crate::math::UNIT;
use crate::math::Vec3;

verus! {

/// Which of a player's twelve actions are held.
#[derive(Debug, Clone, Copy, PartialEq, Eq, Structural)]
pub struct InputActionsPressed {
    pub a: bool,
    pub b: bool,
    pub c: bool,
    pub d: bool,
    pub e: bool,
    pub f: bool,
    pub macro_1: bool,
    pub macro_2: bool,
    pub right: bool,
    pub left: bool,
    pub up: bool,
    pub down: bool,
}

/// Where a player's character stands.
#[derive(Debug, Clone, Copy, PartialEq, Eq, Structural)]
pub struct FighterCharacterPosition {
    pub player_id: PlayerId,
    pub position: Vec3,
}

impl FighterCharacterPosition {
    pub fn new(player_id: PlayerId, position: Vec3) -> (place: Self)
        ensures
            place == (FighterCharacterPosition { player_id, position }),
    {
        FighterCharacterPosition { player_id, position }
    }

    pub fn set_position(&mut self, position: Vec3)
        ensures
            *final(self) == (FighterCharacterPosition { position, ..*old(self) }),
    {
        self.position = position;
    }

    pub fn get_position(&self) -> (position: Vec3)
        ensures
            position == self.position,
    {
        self.position
    }
}

/// Where a player's character faces: 1 toward positive x, -1 toward
/// negative x.
#[derive(Debug, Clone, Copy, PartialEq, Eq, Structural)]
pub struct FighterFacingVector {
    pub player_id: PlayerId,
    pub vector: i32,
}

impl FighterFacingVector {
    pub fn new(player_id: PlayerId, vector: i32) -> (facing: Self)
        ensures
            facing == (FighterFacingVector { player_id, vector }),
    {
        FighterFacingVector { player_id, vector }
    }
}

/// What a match keeps for its two players: an input buffer and a position
/// each, the first player's in slot 0 and the second's in slot 1.
#[derive(Debug)]
pub struct PlayerData {
    pub buffers: Vec<FighterInputBuffer>,
    pub positions: Vec<FighterCharacterPosition>,
}

/// The slot of a player.
pub open spec fn spec_slot(player_id: PlayerId) -> int {
    match player_id {
        PlayerId::P1 => 0,
        PlayerId::P2 => 1,
    }
}

/// The input buffers of a list as plain values.
pub open spec fn spec_buffers(buffers: Seq<FighterInputBuffer>) -> Seq<FighterInputBufferView> {
    buffers.map_values(|buffer: FighterInputBuffer| buffer@)
}

/// The buffers after a frame in which `event` arrived: each buffer of the
/// event's player has taken it in, the others are untouched.
pub open spec fn spec_read_inputs(
    buffers: Seq<FighterInputBufferView>,
    event: FighterInputEvent,
) -> Seq<FighterInputBufferView> {
    Seq::new(
        buffers.len(),
        |i: int|
            if buffers[i].player_id == event.player_id {
                buffers[i].spec_update(event, spec_motions())
            } else {
                buffers[i]
            },
    )
}

impl PlayerData {
    /// A match has two buffers and two positions, the first player's in
    /// slot 0 and the second's in slot 1.
    pub open spec fn wf(&self) -> bool {
        &&& self.buffers.len() == 2
        &&& self.buffers[0].player_id == PlayerId::P1
        &&& self.buffers[1].player_id == PlayerId::P2
        &&& self.positions.len() == 2
        &&& self.positions[0].player_id == PlayerId::P1
        &&& self.positions[1].player_id == PlayerId::P2
    }

    /// Tells whether the match is well formed.
    pub fn is_wf(&self) -> (well_formed: bool)
        ensures
            well_formed == self.wf(),
    {
        self.buffers.len() == 2 && self.buffers[0].player_id == PlayerId::P1
            && self.buffers[1].player_id == PlayerId::P2 && self.positions.len() == 2
            && self.positions[0].player_id == PlayerId::P1 && self.positions[1].player_id
            == PlayerId::P2
    }

    /// Where `player_id` faces: toward the other player. The first player
    /// faces toward positive x unless it stands at the greater x, and the
    /// second player faces the other way.
    pub open spec fn spec_facing_vector(&self, player_id: PlayerId) -> i32
        recommends
            self.wf(),
    {
        let first_is_right = self.positions[0].position.x > self.positions[1].position.x;
        if first_is_right == (player_id == PlayerId::P1) {
            -1i32
        } else {
            1i32
        }
    }

    /// Tells where `player_id` faces.
    pub fn get_facing_vector(&self, player_id: &PlayerId) -> (facing: i32)
        requires
            self.wf(),
        ensures
            facing == self.spec_facing_vector(*player_id),
            facing == 1 || facing == -1,
    {
        let p1_x_pos = self.positions[0].get_position().x;
        let p2_x_pos = self.positions[1].get_position().x;
        if p1_x_pos > p2_x_pos {
            if *player_id == PlayerId::P1 {
                -1
            } else {
                1
            }
        } else {
            if *player_id == PlayerId::P1 {
                1
            } else {
                -1
            }
        }
    }

    /// Notes where the character of `player_id` stands.
    pub fn set_position(&mut self, player_id: &PlayerId, position: Vec3)
        requires
            old(self).wf(),
        ensures
            final(self).buffers == old(self).buffers,
            final(self).positions@ == old(self).positions@.update(
                spec_slot(*player_id),
                FighterCharacterPosition {
                    position,
                    ..old(self).positions[spec_slot(*player_id)]
                },
            ),
            final(self).wf(),
    {
        let i = player_id.slot();
        let mut place = self.positions[i];
        place.set_position(position);
        self.positions.set(i, place);
    }

    /// Tells where the character of `player_id` stands.
    pub fn get_position(&self, player_id: &PlayerId) -> (position: Vec3)
        requires
            self.wf(),
        ensures
            position == self.positions[spec_slot(*player_id)].position,
    {
        let i = player_id.slot();
        self.positions[i].get_position()
    }

    /// Hands `event` to the buffers of its player.
    pub fn read_fighter_inputs(&mut self, event: &FighterInputEvent)
        ensures
            spec_buffers(final(self).buffers@) == spec_read_inputs(
                spec_buffers(old(self).buffers@),
                *event,
            ),
            final(self).positions == old(self).positions,
            old(self).wf() ==> final(self).wf(),
    {
        let mut i: usize = 0;
        while i < self.buffers.len()
            invariant
                i <= self.buffers.len(),
                self.positions == old(self).positions,
                self.buffers.len() == old(self).buffers.len(),
                forall|j: int|
                    0 <= j < self.buffers.len() ==> self.buffers@[j].player_id == old(
                        self,
                    ).buffers@[j].player_id,
                forall|j: int|
                    0 <= j < i ==> self.buffers@[j]@ == spec_read_inputs(
                        spec_buffers(old(self).buffers@),
                        *event,
                    )[j],
                forall|j: int|
                    i <= j < self.buffers.len() ==> self.buffers@[j]@ == old(self).buffers@[j]@,
            decreases self.buffers.len() - i,
        {
            if event.player_id == self.buffers[i].player_id {
                self.buffers[i].update(event);
            }
            i += 1;
        }
        assert(spec_buffers(self.buffers@) =~= spec_read_inputs(
            spec_buffers(old(self).buffers@),
            *event,
        ));
    }
}

impl Default for PlayerData {
    fn default() -> (data: Self)
        ensures
            data.wf(),
            spec_buffers(data.buffers@) == seq![
                FighterInputBufferView::spec_new(PlayerId::P1),
                FighterInputBufferView::spec_new(PlayerId::P2),
            ],
            data.positions@ == seq![
                FighterCharacterPosition {
                    player_id: PlayerId::P1,
                    position: Vec3 { x: -50_000i32, y: 0, z: 0 },
                },
                FighterCharacterPosition {
                    player_id: PlayerId::P2,
                    position: Vec3 { x: 50_000, y: 0, z: 0 },
                },
            ],
    {
        let mut buffers: Vec<FighterInputBuffer> = Vec::new();
        buffers.push(FighterInputBuffer::new(PlayerId::P1));
        buffers.push(FighterInputBuffer::new(PlayerId::P2));
        let mut positions: Vec<FighterCharacterPosition> = Vec::new();
        positions.push(FighterCharacterPosition::new(PlayerId::P1, Vec3::new(-50 * UNIT, 0, 0)));
        positions.push(FighterCharacterPosition::new(PlayerId::P2, Vec3::new(50 * UNIT, 0, 0)));
        let data = PlayerData { buffers, positions };
        assert(spec_buffers(data.buffers@) =~= seq![
            FighterInputBufferView::spec_new(PlayerId::P1),
            FighterInputBufferView::spec_new(PlayerId::P2),
        ]);
        assert(data.positions@ =~= seq![
            FighterCharacterPosition {
                player_id: PlayerId::P1,
                position: Vec3 { x: -50_000i32, y: 0, z: 0 },
            },
            FighterCharacterPosition {
                player_id: PlayerId::P2,
                position: Vec3 { x: 50_000, y: 0, z: 0 },
            },
        ]);
        data
    }
}

} // verus!
