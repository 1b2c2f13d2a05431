//! Client-side logic for a game-mod catalog: a model of JSON documents as
//! the listing API returns them, decoding of the provider's wire schema,
//! and the mapping of wire records into the unified `GameMod` record.
//! Network I/O stays outside this crate; everything here is verified.

pub mod decimal;
pub mod error;
pub mod game_mod;
pub mod gamebanana;
pub mod json;
pub mod service;
pub mod wire;
