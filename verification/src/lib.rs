//! Ticket management building blocks: a saturating counter type, ticket
//! statuses parsed from user input, an in-memory ticket store, and the
//! request handling that sits behind the channel-based and HTTP-like servers.

pub mod saturating;
pub mod text;
pub mod status;
pub mod data;
pub mod store;
pub mod channels;
pub mod bounded;
pub mod json_codec;
pub mod web;
pub mod pong;
