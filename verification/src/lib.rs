//! A verified core for a batch blockchain workflow: a driver that fans out a
//! configured number of independent workflow attempts, each of which generates
//! an identity, persists its secret, imports a funding account, resolves a
//! funding object, submits a transfer, resolves the recipient's new object and
//! submits a mint call. All blockchain and filesystem work is performed by the
//! surrounding program; this crate holds the decisions, formats and state
//! machine, each with a contract.

pub mod config;
pub mod dec;
pub mod driver;
pub mod ident;
pub mod keystore;
pub mod resolve;
pub mod secret;
pub mod workflow;
