//! Bridge between an interactive front-end and the TaxGlide calculation
//! engine, which runs as a separate process and answers with JSON envelopes.

pub mod args;
pub mod cli_integration;
pub mod cli_types;
pub mod codec;
pub mod error;
pub mod invoker;
pub mod json;
pub mod resolver;
pub mod session;
pub mod text;
pub mod validate;
