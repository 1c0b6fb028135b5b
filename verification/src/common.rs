//! Errors, identity claims and model mapping shared by every component.

pub mod app_error;
pub mod clock;
pub mod ident;
pub mod jwt_token;
pub mod mapper;
pub mod text;
