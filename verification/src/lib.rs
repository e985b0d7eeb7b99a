//! An access-gated record store for "transparency posts".
//!
//! Holders of a non-fungible token from a configured collection may publish,
//! modify or remove a single post per (topic, author) pair. The post's storage
//! address is derived deterministically from that pair, membership in the
//! collection gates every mutation, and a closed error taxonomy names every
//! rejection reason.

pub mod errors;
pub mod laws;
pub mod nft_validation;
pub mod pda;
pub mod program;
pub mod pubkey;
pub mod state;
pub mod store;

pub use errors::ErrorCode;
pub use pubkey::Pubkey;
pub use state::Post;
