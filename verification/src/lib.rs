//! Group-join verification and AI spam screening for Telegram groups:
//! the decisions, parsers and renderers of the bot, with their contracts.
pub mod chars;
pub mod text;
pub mod commands;
pub mod config;
pub mod metrics;
pub mod verify;
pub mod group;
pub mod session;
pub mod ai;
pub mod settings;
pub mod gateway;
pub mod spam;
pub mod web;
pub mod routes;
