//! What the players press, frame by frame, and the commands it spells.

pub mod buffer;
pub mod input_events;
pub mod mapping;

pub use buffer::FighterInputBuffer;


pub use input_events::ButtonPress;
pub use input_events::CommandMotion;
pub use input_events::CommandType;
pub use input_events::FighterInputEvent;

pub use mapping::FighterCharacterPosition;
pub use mapping::InputActionsPressed;
pub use mapping::PlayerData;

