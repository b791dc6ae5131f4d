use vstd::prelude::*;
use crate::collision::hitbox::AttackProperty;

verus! {

/// The height at which a defender blocks.
#[allow(non_camel_case_types)]
#[derive(Debug, PartialEq, Eq, Structural, Clone, Copy)]
pub enum BlockType {
    HIGH,
    LOW,
}

/// What a defender adds to a block.
#[allow(non_camel_case_types)]
#[derive(Debug, PartialEq, Eq, Structural, Clone, Copy)]
pub enum BlockModifier {
    BARRIER,
    INSTANT,
}

/// A region of a character that attacks can reach.
#[derive(Debug)]
pub struct Hurtbox {
    /// The player that the hurtbox belongs to.
    pub player_id: u8,
    pub is_grounded: bool,
    pub block_type: Option<BlockType>,
    pub block_modifier: Option<BlockModifier>,
    /// The attack properties that pass through the hurtbox.
    pub ignored_properties: Vec<AttackProperty>,
}

impl Hurtbox {
    pub fn new(
        player_id: u8,
        is_grounded: bool,
        block_type: Option<BlockType>,
        block_modifier: Option<BlockModifier>,
        ignored_properties: Vec<AttackProperty>,
    ) -> (hurtbox: Self)
        ensures
            hurtbox.player_id == player_id,
            hurtbox.is_grounded == is_grounded,
            hurtbox.block_type == block_type,
            hurtbox.block_modifier == block_modifier,
            hurtbox.ignored_properties@ == ignored_properties@,
    {
        Hurtbox { player_id, is_grounded, block_type, block_modifier, ignored_properties }
    }

    /// Whether attacks of `attack_property` pass through this hurtbox.
    pub open spec fn spec_ignores(&self, attack_property: AttackProperty) -> bool {
        self.ignored_properties@.contains(attack_property)
    }

    /// Tells whether attacks of `attack_property` pass through this hurtbox.
    pub fn ignores(&self, attack_property: &AttackProperty) -> (ignored: bool)
        ensures
            ignored == self.spec_ignores(*attack_property),
    {
        let mut i: usize = 0;
        while i < self.ignored_properties.len()
            invariant
                i <= self.ignored_properties.len(),
                forall|j: int| 0 <= j < i ==> self.ignored_properties@[j] != *attack_property,
            decreases self.ignored_properties.len() - i,
        {
            if self.ignored_properties[i] == *attack_property {
                return true;
            }
            i += 1;
        }
        false
    }

    /// Tells whether an attack of `attack_property` reaches this hurtbox.
    pub fn does_connect(&self, attack_property: &AttackProperty) -> (connects: bool)
        ensures
            connects == !self.spec_ignores(*attack_property),
    {
        !self.ignores(attack_property)
    }
}

} // verus!
