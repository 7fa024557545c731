//! Multi-provider OAuth2 sign-in and cookie-backed sessions, written as
//! pure decisions: every function here maps plain values to plain values,
//! and the caller performs the network and storage work in between.

pub mod auth_dto;
pub mod auth_routes;
pub mod config;
pub mod cookie;
pub mod errors;
pub mod extractor;
pub mod flow_laws;
pub mod handlers;
pub mod memory_store;
pub mod oauth;
pub mod session;
pub mod store_model;
pub mod text;
