//! Verified core of the Wasm runner and of the cycles price table.

pub mod cli;
pub mod costs;
pub mod format;
pub mod table;
pub mod testnet;
pub mod text;
pub mod wasmtime;
pub mod wat_parse;
pub mod wat_source;
