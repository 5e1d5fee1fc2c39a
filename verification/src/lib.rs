//! A local, single-user secret store: named vaults of alias/secret pairs that
//! are sealed under a master passphrase.

pub mod command;
pub mod config;
pub mod store;
pub mod string_map;
pub mod vault;
