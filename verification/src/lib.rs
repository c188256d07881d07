pub mod cli;
pub mod error;
pub mod keys;
pub mod ledger;
pub mod repo;
pub mod server;
pub mod text;
pub mod types;
