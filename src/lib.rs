//! Account store, bearer tokens and cached-identity freshness for a web
//! application that delegates identity to a credential service.

pub mod error;
pub mod validate;
pub mod number;
pub mod strmap;
pub mod bridge;
pub mod token;
pub mod store;
pub mod server;
pub mod user;
pub mod freshness;
pub mod remote;
pub mod scaffold;
pub mod service;
pub mod laws;
