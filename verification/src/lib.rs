//! A real-time group-messaging hub: the connection registry, the broadcast
//! fan-out, the message protocol and the file relay, with the rules of the
//! account endpoints that sit in front of them.

pub mod auth;
pub mod chat;
pub mod codec;
pub mod handling_files;
pub mod ident;
pub mod message;
pub mod registry;
pub mod shared;
pub mod text;
