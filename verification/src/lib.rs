//! Verified core of the Cloudflare tunnel operator.

pub mod text;
pub mod go_parser;
pub mod crd;
pub mod cloudflared_config;
pub mod resources;
pub mod cloudflare;
pub mod controller;
pub mod laws;
pub mod parser_laws;
