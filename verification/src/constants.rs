//! Seeds of the program's derived account addresses.
use vstd::prelude::*;

verus! {

/// Seed of the global state account, which also signs for the program's vaults.
pub const GLOBAL_STATE_SEED: &'static str = "global-state";

/// Seed prefix of a raffle account, followed by the raffle id in little-endian bytes.
pub const RAFFLE_SEED: &'static str = "raffle";

/// Seed prefix of a ticket purchase record.
pub const BUYER_STATE_SEED: &'static str = "buyer-state";

/// Seed prefix of the vault that holds a raffle's reward mint.
pub const REWARD_VAULT_SEED: &'static str = "reward-vault";

/// Seed prefix of the vault that collects ticket payments in the program's own mint.
pub const ZZZ_VAULT_SEED: &'static str = "zzz-vault";

/// Seed prefix of an auction account, followed by the auction id in little-endian bytes.
pub const AUCTION_SEED: &'static str = "auction";

} // verus!
