//! Rules of an on-chain raffle and NFT auction: ticket sales, winner draws,
//! reward claims and bidding, stated over plain account values and proved.
pub mod accounts;
pub mod address;
pub mod auction;
pub mod constants;
pub mod error;
pub mod external;
pub mod laws;
pub mod pubkey;
pub mod raffle;
pub mod state;
