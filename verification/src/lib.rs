//! Data types for the dating app API and database, with the binary
//! WebSocket protocol that carries server events to clients.
use vstd::prelude::*;

pub mod backend;
pub mod outside;
pub mod text;
pub mod minimal_i64;
pub mod common;
pub mod sync_version;
pub mod search;
pub mod search_group;
pub mod profile_info;
pub mod ip_address;
pub mod login;
pub mod media;
pub mod time;
pub mod report;
pub mod notification;
pub mod interaction;
pub mod chat;
pub mod client;
pub mod api_usage;
pub mod admin_bot;
pub mod admin;
pub mod client_features;
pub mod demo;
pub mod setup;
pub mod push_notifications;
pub mod custom_reports;
pub mod profile;
pub mod admin_notification;
pub mod account;
pub mod websocket;
pub mod websocket_parser;
pub mod markers;

verus! {

/// Error for a number that names no variant of an enum.
#[derive(Debug, Clone, Copy, PartialEq, Eq, Structural)]
pub enum EnumParsingError {
    ParsingError(i64),
}

} // verus!
