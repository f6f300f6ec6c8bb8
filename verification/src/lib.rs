//! The store of a companion for a game: the accounts of a player, their
//! skills and training tracks, the gold they spend and a ledger of changes,
//! kept in one SQLite file.
//!
//! The engine does the storing; what this crate proves is its own part.
//! [`statement`] fixes, for every operation, the text and the values that are
//! sent. [`records`] reads what comes back, cell by cell. [`listing`], with
//! [`order`] and [`bounds`], holds every list against the request before it
//! is handed out: the records come in their order, none twice, and each is
//! one that was asked for. [`schema`] holds the tables and the migrations, none of which
//! can keep a store from opening, and [`spend`] decides that a spend is kept
//! whole or not at all. [`state`] is the store itself, [`commands`] the
//! operations as callers name them, and [`location`] the rule that says
//! where the file lies. [`engine`] binds the engine, and holds all that is
//! believed without proof.

pub mod bounds;
pub mod commands;
pub mod engine;
pub mod listing;
pub mod location;
pub mod order;
pub mod records;
pub mod schema;
pub mod spend;
pub mod state;
pub mod statement;
pub mod text;
pub mod value;
