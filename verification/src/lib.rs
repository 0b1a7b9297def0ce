//! Transactional notification business ledger: intent validation, delivery
//! state, observation rules, redacted projections and catalog adoption.

pub mod admin;
pub mod agent_tools;
pub mod answers;
pub mod business_api;
pub mod catalog;
pub mod config;
pub mod consumption;
pub mod contracts;
pub mod creation;
pub mod delivery;
pub mod digest;
pub mod dispatch;
pub mod domain;
pub mod email;
pub mod error;
pub mod events;
pub mod faults;
pub mod history;
pub mod host_ledger;
pub mod intent;
pub mod json;
pub mod laws;
pub mod module;
pub mod observation;
pub mod operator;
pub mod projection;
pub mod public;
pub mod redacted;
pub mod render;
pub mod repository;
pub mod requests;
pub mod runtime;
pub mod snapshot;
pub mod template;
pub mod text;
pub mod time;
pub mod transactional;
pub mod worker;
