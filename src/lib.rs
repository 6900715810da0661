pub mod dispatch;
pub mod events;
pub mod log;
pub mod modifiers;
pub mod translate;
pub mod transport;
