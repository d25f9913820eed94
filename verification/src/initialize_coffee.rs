use vstd::prelude::*;

use crate::states::CoffeeAccount;
use crate::states::Identity;

verus! {

/// Creates the ledger account: the caller-supplied identity becomes the
/// immutable owner and both lifetime counters start at zero. The storage
/// substrate guarantees the account is created at most once.
pub fn initialize_coffee(owner: Identity) -> (account: CoffeeAccount)
    ensures
        account.owner == owner,
        account.total_donations == 0,
        account.donation_count == 0,
{
    CoffeeAccount { owner, total_donations: 0, donation_count: 0 }
}

} // verus!
