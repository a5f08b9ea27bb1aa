//! An HTTP request tool: resolution of loosely typed input into canonical
//! requests, rendering of response bodies, and the state machine of the
//! interactive session.

pub mod cli;
pub mod collections;
pub mod config;
pub mod display;
pub mod error;
pub mod fields;
pub mod history;
pub mod json;
pub mod lines;
pub mod request;
pub mod response;
pub mod session;
pub mod text;
