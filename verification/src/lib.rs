//! Verified core of a Model Context Protocol adapter for the Deribit
//! derivatives exchange: configuration resolution, effect-class gating of
//! tools, order validation, prompt rendering, bearer-token checking and the
//! bookkeeping of live resource subscriptions.
#![allow(unused_imports)]

pub mod config;
pub mod context;
pub mod error;
pub mod http_transport;
pub mod number;
pub mod observability;
pub mod prompts;
pub mod registry;
pub mod resources;
pub mod text;
pub mod tools;
