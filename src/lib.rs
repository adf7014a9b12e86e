//! Disposable e-mail aliases on top of a provider's e-mail routing rules.
//!
//! The library holds the provider's routing-rule model, its reading as
//! the tool's `RMAlias` records, the resolution of an alias address to a rule
//! id, and the decisions of each alias operation. Sending requests, reading
//! files and decoding JSON belong to the caller.
pub mod account;
pub mod alias;
pub mod config;
pub mod error;
pub mod ops;
pub mod request;
pub mod resolve;
pub mod route;
