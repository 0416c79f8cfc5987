//! A marketplace contract: a store with a name, an admin and a rating, users
//! who register under a name, listings that registered users put up for sale,
//! purchases, and ratings given by buyers to the store.
//!
//! The whole contract state is held by [`state::Marketplace`]; every request
//! is a verified transition of that state whose outcome is described by a spec
//! function in [`contract`].

pub mod error;
pub mod text;
pub mod keys;
pub mod decimal;
pub mod helpers;
pub mod state;
pub mod msg;
pub mod contract;
pub mod laws;
