//! Decides what a "now playing" chat status should say.
//!
//! The crate holds the rules of a small status updater: how the report of a
//! media player is read, which of the player's states leads to a status
//! update, and what that update and the reply to it mean. Spawning the
//! player query, reading the clock and talking to the network are left to the
//! caller, which hands plain values in and takes plain values back.
//!
//! One run goes through the modules in this order:
//!
//! - [`probe`] takes what came of running the player query and gives a
//!   [`player::PlayerState`], reading the query's output with [`record`];
//! - [`pipeline`] decides what follows, a status update or a mere report,
//!   and picks the update's emoji from [`emoji`];
//! - [`status`] builds the update, writes the request and judges the reply.
//!
//! [`json`] and [`text`] hold what the others need of JSON and of text.
//! Every function is verified against its contract. The few contracts that
//! are believed rather than proved stand in [`json`], [`text`] and
//! [`emoji`], each with a note of what it claims.

pub mod emoji;
pub mod json;
pub mod pipeline;
pub mod player;
pub mod probe;
pub mod record;
pub mod status;
pub mod text;
