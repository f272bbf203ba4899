//! A read-only directory of user records served over HTTP.
//!
//! The crate holds the decisions of the service as plain functions: which
//! settings make a usable store connection, how a stored row becomes a
//! [`models::User`], what the two endpoints answer and in which order a
//! request touches the shared store connection. Network and store traffic
//! are left to the program that embeds the crate.

pub mod db;
pub mod decimal;
pub mod handlers;
pub mod json;
pub mod listing;
pub mod models;
pub mod store;
