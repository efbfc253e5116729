//! Protocol client for enrolling a second factor with an authentication
//! server and approving its pending challenges.
//!
//! The library holds the protocol's decisions and data transformations;
//! the transport (HTTP, JSON bodies, files) is driven by the caller.
pub mod client;
pub mod crypto;
pub mod dtos;
pub mod error;
pub mod retry;
pub mod ticket;
pub mod uri;

pub use client::Client;
pub use error::{ClientError, CryptoFault, InputFault};
pub use ticket::Ticket;
