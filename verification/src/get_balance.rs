use vstd::prelude::*;

verus! {

/// The spendable part of a held balance: whatever exceeds the minimum
/// reserve, floored at zero.
pub open spec fn spendable(held_balance: int, min_reserve: int) -> int {
    if held_balance >= min_reserve {
        held_balance - min_reserve
    } else {
        0
    }
}

/// Reserve calculator: the balance available for withdrawal, given the raw
/// held balance and the minimum reserve the storage substrate demands for
/// the account record. Never underflows: a held balance below the reserve
/// yields zero, not an error. Balance inspection and withdrawal both use
/// this function, so the two can never disagree.
pub fn get_balance(held_balance: u64, min_reserve: u64) -> (available: u64)
    ensures
        available == spendable(held_balance as int, min_reserve as int),
        held_balance >= min_reserve ==> available == held_balance - min_reserve,
        held_balance < min_reserve ==> available == 0,
{
    if held_balance >= min_reserve {
        held_balance - min_reserve
    } else {
        0
    }
}

/// Balance inspection is idempotent: two available balances computed from
/// the same held balance and the same reserve, with no mutation in between,
/// are equal.
pub proof fn lemma_get_balance_idempotent(
    held_balance: u64,
    min_reserve: u64,
    first: u64,
    second: u64,
)
    requires
        first == spendable(held_balance as int, min_reserve as int),
        second == spendable(held_balance as int, min_reserve as int),
    ensures
        first == second,
{
}

} // verus!
