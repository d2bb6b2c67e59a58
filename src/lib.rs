//! An in-memory repository of travel guides, the request rules that sit in
//! front of it, and the offline chat assistant.

pub mod error;
pub mod models;
pub mod outside;
pub mod store;
pub mod handlers;
pub mod chat;
pub mod laws;
