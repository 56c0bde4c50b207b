pub mod clock;
pub mod event;
pub mod input;
pub mod json;
pub mod mouse;
pub mod state;
pub mod text;
