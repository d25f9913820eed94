use vstd::prelude::*;

use crate::errors::ErrorCode;
use crate::states::CoffeeAccount;
use crate::states::Donation;
use crate::states::Identity;
use crate::states::MAX_MESSAGE_BYTES;

verus! {

/// The effect of one successful donation on the ledger account: the owner
/// is untouched, the amount joins the running total and the record count
/// grows by one.
pub open spec fn recorded(pre: CoffeeAccount, donation: Donation, post: CoffeeAccount) -> bool {
    &&& post.owner == pre.owner
    &&& post.total_donations == pre.total_donations + donation.amount
    &&& post.donation_count == pre.donation_count + 1
}

/// Donation recorder: builds the immutable record of one donation and
/// updates the account's lifetime aggregates with overflow-checked
/// addition. On overflow of either counter nothing changes and the
/// operation fails with `ArithmeticOverflow`; the substrate then aborts the
/// whole transaction, including the value transfer it performed. A
/// zero-amount donation is accepted and simply yields a zero-value record.
/// The timestamp is supplied by the substrate's clock and is informational
/// only.
pub fn send_coffee(
    coffee_account: &mut CoffeeAccount,
    donor: Identity,
    amount: u64,
    message: Vec<u8>,
    timestamp: i64,
) -> (result: Result<Donation, ErrorCode>)
    requires
        message@.len() <= MAX_MESSAGE_BYTES,
    ensures
        match result {
            Ok(donation) => {
                &&& old(coffee_account).total_donations + amount <= u64::MAX
                &&& old(coffee_account).donation_count < u64::MAX
                &&& recorded(*old(coffee_account), donation, *final(coffee_account))
                &&& donation.from == donor
                &&& donation.amount == amount
                &&& donation.message@ == message@
                &&& donation.timestamp == timestamp
                &&& donation.wf()
            },
            Err(code) => {
                &&& code == ErrorCode::ArithmeticOverflow
                &&& old(coffee_account).total_donations + amount > u64::MAX
                    || old(coffee_account).donation_count == u64::MAX
                &&& *final(coffee_account) == *old(coffee_account)
            },
        },
{
    if amount <= u64::MAX - coffee_account.total_donations
        && coffee_account.donation_count < u64::MAX
    {
        let donation = Donation { from: donor, amount, message, timestamp };
        coffee_account.total_donations = coffee_account.total_donations + amount;
        coffee_account.donation_count = coffee_account.donation_count + 1;
        Ok(donation)
    } else {
        Err(ErrorCode::ArithmeticOverflow)
    }
}

/// The sum of the amounts over a history of donation records.
pub open spec fn sum_of_amounts(history: Seq<Donation>) -> int
    decreases history.len(),
{
    if history.len() == 0 {
        0
    } else {
        sum_of_amounts(history.drop_last()) + history.last().amount
    }
}

/// For every sequence of successful donations, `total_donations` equals the
/// sum of their amounts and `donation_count` equals their count. `trace`
/// holds the ledger account before and after each donation: it starts with
/// zeroed counters, as initialization leaves them, and each step is
/// `recorded`, the exact effect `send_coffee` guarantees on success.
pub proof fn lemma_counters_equal_history_totals(
    trace: Seq<CoffeeAccount>,
    history: Seq<Donation>,
)
    requires
        trace.len() == history.len() + 1,
        trace[0].total_donations == 0,
        trace[0].donation_count == 0,
        forall|i: int|
            0 <= i < history.len() ==> #[trigger] recorded(trace[i], history[i], trace[i + 1]),
    ensures
        trace.last().total_donations == sum_of_amounts(history),
        trace.last().donation_count == history.len(),
    decreases history.len(),
{
    if history.len() > 0 {
        let n = history.len() as int;
        assert forall|j: int| 0 <= j < history.drop_last().len() implies #[trigger] recorded(
            trace.drop_last()[j],
            history.drop_last()[j],
            trace.drop_last()[j + 1],
        ) by {
            assert(recorded(trace[j], history[j], trace[j + 1]));
        }
        lemma_counters_equal_history_totals(trace.drop_last(), history.drop_last());
        assert(recorded(trace[n - 1], history[n - 1], trace[n]));
        assert(trace.drop_last().last() == trace[n - 1]);
    }
}

} // verus!
