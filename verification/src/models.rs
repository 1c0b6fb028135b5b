//! The records the backend stores and the views of them that it shows.

pub mod account_model;
pub mod agent_model;
pub mod agent_service;
pub mod printfile_model;
pub mod view_model;
