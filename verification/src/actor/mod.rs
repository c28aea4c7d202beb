//! The actor that runs the network transactions of one account.

pub mod candidate;
pub mod config;
pub mod data_store;
pub mod error;
pub mod execute;
pub mod lifecycle;
pub mod outcome;
pub mod script;
