//! What the operations of the library do, stated of their arguments and results alone.

pub mod calls;
pub mod client;
pub mod control;
pub mod directory;
pub mod endpoints;
pub mod errors;
pub mod members;
pub mod meta;
pub mod names;
pub mod node;
pub mod objects;
pub mod records;
pub mod services;
pub mod sessions;
pub mod texts;
pub mod values;
