use vstd::prelude::*;

use crate::errors::ErrorCode;
use crate::get_balance::get_balance;
use crate::get_balance::spendable;
use crate::states::CoffeeAccount;
use crate::states::Identity;

verus! {

/// Authorization guard: a withdrawal is permitted exactly when the caller's
/// authenticated identity equals the stored owner. A pure equality
/// comparison; that the caller's identity is genuine is the substrate's
/// guarantee.
pub fn authorize_withdrawal(coffee_account: &CoffeeAccount, caller: Identity) -> (permitted: bool)
    ensures
        permitted == (caller == coffee_account.owner),
{
    caller == coffee_account.owner
}

/// Withdrawal engine: moves the whole spendable balance — what the held
/// balance exceeds the minimum reserve by — from the account's held balance
/// to the owner's external balance, and returns the amount moved. A caller
/// other than the owner fails with `Unauthorized` and changes nothing. A
/// zero spendable balance succeeds as a no-op. The lifetime counters are
/// read-only here: withdrawal never touches them. The held balance never
/// drops below the reserve: when it covered the reserve before, exactly the
/// reserve remains.
pub fn withdraw(
    coffee_account: &CoffeeAccount,
    caller: Identity,
    held_balance: &mut u64,
    owner_balance: &mut u64,
    min_reserve: u64,
) -> (result: Result<u64, ErrorCode>)
    requires
        *old(held_balance) + *old(owner_balance) <= u64::MAX,
    ensures
        match result {
            Ok(moved) => {
                &&& caller == coffee_account.owner
                &&& moved == spendable(*old(held_balance) as int, min_reserve as int)
                &&& *final(held_balance) == *old(held_balance) - moved
                &&& *final(owner_balance) == *old(owner_balance) + moved
                &&& *final(held_balance) + *final(owner_balance)
                    == *old(held_balance) + *old(owner_balance)
                &&& *old(held_balance) >= min_reserve ==> *final(held_balance) >= min_reserve
                &&& *old(held_balance) >= min_reserve ==> *final(held_balance) == min_reserve
            },
            Err(code) => {
                &&& code == ErrorCode::Unauthorized
                &&& caller != coffee_account.owner
                &&& *final(held_balance) == *old(held_balance)
                &&& *final(owner_balance) == *old(owner_balance)
            },
        },
{
    if !authorize_withdrawal(coffee_account, caller) {
        return Err(ErrorCode::Unauthorized);
    }
    let withdrawable = get_balance(*held_balance, min_reserve);
    if withdrawable > 0 {
        *held_balance = *held_balance - withdrawable;
        *owner_balance = *owner_balance + withdrawable;
    }
    Ok(withdrawable)
}

} // verus!
