//! Core of a real-time chat service: command grammar, content pipeline,
//! bot registry, presence announcements and the feed adapter.

pub mod bots;
pub mod commands;
pub mod content;
pub mod feed;
pub mod hub;
pub mod models;
pub mod orchestrator;
pub mod registry;
pub mod session;
pub mod templates;
pub mod text;
