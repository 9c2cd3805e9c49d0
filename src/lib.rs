//! A reinforcement ledger of directed pathways between agents, each with a
//! bounded strength score, and of token records that snapshot a pathway's
//! strength when they are issued.

pub mod error;
pub mod laws;
pub mod ledger;
pub mod pubkey;
pub mod state;
pub mod store;
pub mod token;
pub mod validation;

pub use error::NeuralPathwayError;
pub use pubkey::Pubkey;
pub use state::{NeuralPathway, Outcome, PathwayKey};
pub use store::PathwayStore;
pub use token::{TokenMetadata, TokenRegistry};
pub use ledger::{Ledger, Request, Response};
