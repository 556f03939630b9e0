//! Verified core of a todo-list HTTP service: request validation, error
//! mapping, response envelopes and configuration rules.

pub mod text;
pub mod todos;
pub mod error;
pub mod response;
pub mod handlers;
pub mod config;
pub mod app_config;
pub mod health;
