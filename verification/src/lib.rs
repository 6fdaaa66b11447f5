//! A small items service: request validation, bearer-token credentials, an
//! in-memory store with a monotonic id counter, and status-coded replies.

pub mod api;
pub mod auth;
pub mod db;
pub mod env;
pub mod models;
pub mod requests;
pub mod responses;
pub mod validators;
