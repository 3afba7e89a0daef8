pub mod greeting;
pub mod shortcut;
