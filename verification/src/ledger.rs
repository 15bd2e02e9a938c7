//! The fund-transfer primitive, modeled on two account balances.
//!
//! On the hosting chain the transfer is executed by the native value
//! ledger; the host resolves the payer's and the recipient's accounts and
//! hands their balances to this operation, which is atomic with the
//! surrounding transition: either both balances move or neither does.

use crate::errors::ErrorCode;
use vstd::prelude::*;

verus! {

/// Moves `amount` native value units from the payer's balance to the
/// recipient's. Fails, moving nothing, if the payer's balance does not
/// cover the amount or the recipient's balance would exceed the value
/// type's range. On success the total of the two balances is unchanged.
pub fn transfer_funds(from_balance: &mut u64, to_balance: &mut u64, amount: u64) -> (r: Result<
    (),
    ErrorCode,
>)
    ensures
        r is Ok <==> *old(from_balance) >= amount && *old(to_balance) + amount <= u64::MAX,
        r is Ok ==> *final(from_balance) == *old(from_balance) - amount && *final(to_balance)
            == *old(to_balance) + amount,
        r is Err ==> *final(from_balance) == *old(from_balance) && *final(to_balance) == *old(
            to_balance,
        ),
        *old(from_balance) < amount ==> r == Err::<(), ErrorCode>(ErrorCode::InsuffisantFunds),
        *old(from_balance) >= amount && *old(to_balance) + amount > u64::MAX ==> r == Err::<
            (),
            ErrorCode,
        >(ErrorCode::ArithmeticOverflow),
        *final(from_balance) + *final(to_balance) == *old(from_balance) + *old(to_balance),
{
    if *from_balance < amount {
        return Err(ErrorCode::InsuffisantFunds);
    }
    match to_balance.checked_add(amount) {
        Some(new_to) => {
            *from_balance = *from_balance - amount;
            *to_balance = new_to;
            Ok(())
        },
        None => Err(ErrorCode::ArithmeticOverflow),
    }
}

} // verus!
