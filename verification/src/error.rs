//! Why an instruction is refused.
use vstd::prelude::*;

verus! {

/// Errors of the raffle rules.
#[derive(Clone, Copy, Debug, PartialEq, Eq, Structural)]
pub enum RaffleError {
    /// Fewer tickets are left than were asked for.
    InsufficientTickets,
    /// The signer is not the administrator recorded in the global state.
    InvalidAdmin,
}

/// Errors of the auction rules.
#[derive(Clone, Copy, Debug, PartialEq, Eq, Structural)]
pub enum AuctionError {
    /// A bid must be strictly above the current price.
    BidPirceTooLow,
}

/// An account constraint of an instruction that the given accounts break.
#[derive(Clone, Copy, Debug, PartialEq, Eq, Structural)]
pub enum ConstraintViolation {
    /// A `constraint = ..` expression is false.
    Raw,
    /// An account is not owned by the program it must belong to.
    Owner,
    /// An account is not at the address derived from its seeds.
    Seeds,
    /// An account is not at the address it must have.
    Address,
    /// A token account's authority is not the expected one.
    TokenOwner,
    /// A token account holds another mint than the expected one.
    TokenMint,
}

/// Every way an instruction of this program can be refused.
#[derive(Clone, Copy, Debug, PartialEq, Eq, Structural)]
pub enum Error {
    Raffle(RaffleError),
    Auction(AuctionError),
    Constraint(ConstraintViolation),
    /// The cluster clock could not be read.
    ClockUnavailable,
}

} // verus!
