//! Authentication and session gateway of the Printerlynx backend.
//!
//! The library issues and checks signed identity claims, decides whether an
//! HTTP request may pass, and drives the handshake that turns an anonymous
//! duplex connection into an authenticated session.

pub mod common;
pub mod middlewares;
pub mod models;
pub mod services;
pub mod websockets;
