//! Verified core of an enterprise-data desktop workspace: permission and
//! role checks, prompt and URL screening, text chunking for retrieval,
//! document text extraction, tool dispatch and the decisions that the
//! connectors, database layer and agent take around their outside calls.

pub mod text;
pub mod json;
pub mod permissions;
pub mod retrieval;
pub mod embed;
pub mod tools;
pub mod commands;
pub mod connectors;
pub mod agent;
pub mod discovery;
pub mod db;
pub mod mcp;
pub mod shared;
