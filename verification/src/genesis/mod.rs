//! The genesis state that a configuration describes.

pub mod config;
pub mod construct;
pub mod deploy;
pub mod error;
pub mod faucets;
pub mod laws;
pub mod secrets;
pub mod state;
pub mod wallets;
