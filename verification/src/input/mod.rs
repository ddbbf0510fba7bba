pub mod kbd;
pub mod mouse;
