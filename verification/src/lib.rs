//! Alert relay service core: alert models and validation, Zulip message
//! rendering, configuration, and the fingerprint → message-id store.

pub mod config;
pub mod datetime;
pub mod formatter;
pub mod json;
pub mod message_store;
pub mod models;
pub mod output;
pub mod processing;
pub mod text;
