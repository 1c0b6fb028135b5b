//! The rules of the business handlers that stand behind the gateway.
//!
//! Reading and writing the stores is left to the caller; what is decided
//! before and after stands here.

pub mod account_service;
pub mod agent_service;
pub mod auth_service;
pub mod filestorage_service;
pub mod printfile_service;
pub mod strategies;
pub mod user_service;
