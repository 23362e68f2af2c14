//! The Cloudflare API: its payloads, and the decisions the operator makes around its calls.

pub mod types;
pub mod api;
