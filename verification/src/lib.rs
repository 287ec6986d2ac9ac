//! A bot for the lobby of a card game server.
//!
//! The server and the bot exchange frames of text over one connection. This
//! library holds what the bot knows and decides: how a frame is written and
//! read ([`command`], [`server_command`], on top of [`json`] and [`text`]),
//! and how the lobby is mirrored and the wishes of the bot's owner are met
//! ([`hanabi_client`]). It sends and receives nothing itself: the owner of a
//! session feeds it the lines that come in, and carries out what it returns.

pub mod command;
pub mod hanabi_client;
pub mod json;
pub mod server_command;
pub mod text;
