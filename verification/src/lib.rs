//! A verified starboard engine.
//!
//! The library keeps an authoritative record of votes ("stars") on chat
//! messages, decides when a message has enough votes to deserve a mirror
//! message in a dedicated channel, and drives the mirror's lifecycle
//! (create, update, retract) through directives that an unverified shell
//! carries out against the remote chat API.

pub mod starboard_message;
pub mod starboard;
pub mod starboard_manager;
pub mod embed;
pub mod text;
pub mod time_parse;
