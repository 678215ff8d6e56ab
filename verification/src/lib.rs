//! Decision logic of an auto-compounding proxy contract for NEAR.

pub mod account;
pub mod action;
pub mod calls;
pub mod config;
pub mod contract;
pub mod error;
pub mod json;
pub mod laws;
pub mod laws_calls;
pub mod laws_flow;
pub mod laws_parse;
pub mod preference;
pub mod text;
