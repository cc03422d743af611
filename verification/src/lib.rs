//! The decisions of a chat bot that answers commands in rooms of a
//! federated messaging protocol: who may ask for what, how a message is
//! read as a command, how long a burst of messages may be, and how a failed
//! join is tried again. Everything here works on plain values; sending,
//! sleeping and rendering are left to the program around it.

pub mod bridge;
pub mod campaign;
pub mod command;
pub mod content;
pub mod handlers;
pub mod image;
pub mod join;
pub mod message;
pub mod router;
pub mod settings;
pub mod text;
pub mod typing;
pub mod users;
