//! Wire-level schema: command names and the frame shapes exchanged
//! with the server.

pub mod commands;
pub mod enums;
pub mod messages;
