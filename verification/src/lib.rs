//! Acquisition core of a package manager for coding-agent "skills":
//! reference classification and validation, name resolution against
//! project configuration, cache-key and cache-layout computation,
//! convention detection, and the configuration records that every
//! mutating command leaves behind.

pub mod cache;
pub mod cli;
pub mod config;
pub mod conventions;
pub mod error;
pub mod json;
pub mod manager;
pub mod reference;
pub mod registry;
pub mod skill_types;
pub mod sources;
pub mod strutil;
