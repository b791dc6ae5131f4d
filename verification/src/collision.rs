//! Hitboxes against hurtboxes: who is hit, who blocks, and for how long a
//! hitbox stays.

pub mod hitbox;
pub mod hurtbox;

pub use hitbox::AttackProperty;
pub use hitbox::BlockEvent;
pub use hitbox::BlockState;
pub use hitbox::CollisionEvent;
pub use hitbox::HitEvent;
pub use hitbox::HitState;
pub use hitbox::Hitbox;
pub use hitbox::HitboxData;
pub use hurtbox::BlockModifier;
pub use hurtbox::BlockType;
pub use hurtbox::Hurtbox;
