//! Verified core of a small user-management and blog-reading service.
//!
//! The crate holds the rules of the service as executable functions with
//! contracts that Verus proves:
//!
//! - `validation` checks the shape of user requests;
//! - `flows` and `content_flows` are the operations of the service, each a
//!   conversation with a store: a flow asks one statement at a time and
//!   decides from each answer how to go on, so that whoever holds the store
//!   only runs statements;
//! - `user_table` and `content_store` are stores held in memory, with the
//!   uniqueness rules, references and orders of the persisted schema;
//!   `repositories`, `services` and `handlers` run the flows on them, and
//!   `user_laws` states what then holds of every table and request;
//! - `auth` issues and verifies bearer credentials;
//! - `blogs` shapes the paginated listing and the reading of a post;
//! - `errors` maps each error to its HTTP status and public message;
//! - `client` holds what the browser client decides and computes;
//! - `text`, `decimal` and `clock` are the helpers underneath.
//!
//! The outside crates that the core calls are `jsonwebtoken` (signatures),
//! `validator` (the e-mail grammar), `chrono` (the clock and RFC 3339) and
//! `uuid` (fresh identifiers), each behind one small function whose contract
//! is believed and not proved.

pub mod auth;
pub mod blogs;
pub mod client;
pub mod clock;
pub mod config;
pub mod content_flows;
pub mod content_rules;
pub mod content_store;
pub mod decimal;
pub mod entities;
pub mod errors;
pub mod flows;
pub mod graphql;
pub mod handlers;
pub mod models;
pub mod repositories;
pub mod services;
pub mod text;
pub mod user_laws;
pub mod user_table;
pub mod validation;
