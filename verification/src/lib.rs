//! Escrow engine of an NFT marketplace: items are taken into custody, listed at
//! a fixed price, and released to a buyer against payment in a native coin or
//! in the marketplace token.
//!
//! The operations are in [`contract`]; [`rules`] says on which inputs each is
//! rejected and what it changes, and [`laws`] what follows over any run of
//! calls. The state between calls is in [`state`] and [`store`], the values
//! exchanged with the host in [`host`], [`msg`] and [`package`]. Two messages
//! to other contracts are encoded by the host's own library, in [`wire`].

pub mod asset;
pub mod contract;
pub mod decimal;
pub mod error;
pub mod host;
pub mod laws;
pub mod msg;
pub mod order;
pub mod package;
pub mod rules;
pub mod state;
pub mod store;
pub mod wire;
