//! Group management logic of a Telegram bot: command arguments, member
//! permissions, moderation decisions, warnings, filters, blacklists and the
//! per-chat settings they rest on.
pub mod text;
pub mod numparse;
pub mod database;
pub mod model;
pub mod permissions;
pub mod custom_types;
pub mod html;
pub mod extract;
pub mod moderation;
pub mod patterns;
pub mod settings;
pub mod warnings;
pub mod filters;
pub mod disable;
pub mod admin;
pub mod sudo;
pub mod locks;
pub mod commands;
pub mod user;
pub mod files;
pub mod chat;
pub mod misc;
pub mod logs;
pub mod deletion;
pub mod start;
pub mod dispatch;
