use vstd::prelude::*;

verus! {

/// Maximum length, in bytes, of a donation message.
pub const MAX_MESSAGE_BYTES: usize = 280;

/// An opaque party identity: a 32-byte key held as four 64-bit words.
/// The core only ever compares identities for equality.
#[derive(Clone, Copy, Debug, PartialEq, Eq, Structural)]
pub struct Identity {
    pub w0: u64,
    pub w1: u64,
    pub w2: u64,
    pub w3: u64,
}

/// The singleton ledger account: the registered owner plus the lifetime
/// donation aggregates. The held balance itself lives in the storage
/// substrate and is handed to the core as a plain value.
#[derive(Clone, Copy, PartialEq, Eq, Structural)]
pub struct CoffeeAccount {
    pub owner: Identity,
    pub total_donations: u64,
    pub donation_count: u64,
}

/// One immutable donation record.
pub struct Donation {
    pub from: Identity,
    pub amount: u64,
    pub message: Vec<u8>,
    pub timestamp: i64,
}

impl Donation {
    /// A donation record is well formed when its message fits the bound.
    pub open spec fn wf(self) -> bool {
        self.message@.len() <= MAX_MESSAGE_BYTES
    }
}

} // verus!
