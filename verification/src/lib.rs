//! A small items service: request routing decisions, validation, reply
//! building, notification payloads, database bootstrap planning and the
//! command-line client's request planning and output, all verified.
//! Network, database and file work is done by the embedding program, which
//! hands this library plain values and performs the actions it returns.

pub mod text;
pub mod assets;
pub mod handlers;
pub mod app_server;
pub mod data_plane;
pub mod db;
pub mod migration;
pub mod cli;
pub mod startup;
