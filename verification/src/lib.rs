//! Decision logic of a Miden node: the genesis state that a configuration describes, the network
//! transaction actor, the remote prover's settings and the validator's block rules.

pub mod account;
pub mod actor;
pub mod assets;
pub mod count;
pub mod genesis;
pub mod index;
pub mod keys;
pub mod server;
pub mod text;
pub mod token;
pub mod validator;
pub mod word;
