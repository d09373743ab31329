//! Inbound mail turned into feed entries: the recipient-domain gate, the
//! entry builder, the per-connection SMTP session state, the persistence loop's
//! decisions, and the small rules of the web front that republishes entries.

pub mod address;
pub mod config;
pub mod feed;
pub mod mail;
pub mod servo;
pub mod smtp;
pub mod text;
pub mod web;
