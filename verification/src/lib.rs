//! Verified core logic of the Rusteron Aeron toolkit.
pub mod text;
pub mod chars;
pub mod errors;
pub mod status;
pub mod counters;
pub mod uri;
pub mod endpoint;
pub mod publication;
pub mod resource;
pub mod generator;
pub mod handlers;
pub mod constructor;
pub mod fields;
pub mod class_code;
pub mod async_code;
pub mod once;
pub mod docs;
pub mod parse;
pub mod parser;
pub mod bindings;
pub mod inventory;
pub mod service;
pub mod dpdk_config;
pub mod dpdk_env;
pub mod dpdk_native;
pub mod build_config;
