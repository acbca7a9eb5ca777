//! Koaai: the queue, track, source and report logic of a Discord music bot.

pub mod text;
pub mod web;
pub mod json;
pub mod state;
pub mod settings;
pub mod config;
pub mod sources;
pub mod reports;
pub mod ui;
pub mod player;
pub mod commands;
pub mod logger;
pub mod memory;
pub mod bot;
