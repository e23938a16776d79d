//! Verified export pipeline for a synthetic-monitor inventory: flattening
//! tagged monitor entities into manifest records, rendering the manifest,
//! building script-fetch queries and unwrapping their responses, and
//! aggregating per-task outcomes.
pub mod errors;
pub mod export;
pub mod json;
pub mod manifest;
pub mod monitor;
pub mod response;
pub mod script;
pub mod strutil;
