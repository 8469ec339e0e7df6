//! The arithmetic of a buy: how many tokens a received amount is worth, and
//! whether the contract can pay them.

use vstd::prelude::*;
use crate::error::ContractError;

verus! {

/// The number of tokens paid for `native_amount_received` at `price`:
/// the quotient, rounded down. The remainder stays with the contract.
pub open spec fn payout_amount(price: u64, native_amount_received: u128) -> nat
    recommends
        price > 0,
{
    (native_amount_received as nat) / (price as nat)
}

/// What a buy comes to, given the price, the amount received and the
/// balance that the contract holds on the token ledger.
pub open spec fn settlement(
    price: u64,
    native_amount_received: u128,
    ledger_balance_of_contract: u128,
) -> Result<u128, ContractError> {
    if native_amount_received == 0 {
        Err(ContractError::CoinMismatch)
    } else if price == 0 {
        Err(ContractError::InvalidPrice)
    } else if ledger_balance_of_contract < payout_amount(price, native_amount_received) {
        Err(ContractError::InsufficientCoinsInContract)
    } else {
        Ok(payout_amount(price, native_amount_received) as u128)
    }
}

/// Computes the payout of a buy, or the reason why there is none.
pub fn settle(price: u64, native_amount_received: u128, ledger_balance_of_contract: u128) -> (res:
    Result<u128, ContractError>)
    ensures
        res == settlement(price, native_amount_received, ledger_balance_of_contract),
{
    if native_amount_received == 0 {
        return Err(ContractError::CoinMismatch);
    }
    if price == 0 {
        return Err(ContractError::InvalidPrice);
    }
    let payout: u128 = native_amount_received / (price as u128);
    if ledger_balance_of_contract < payout {
        return Err(ContractError::InsufficientCoinsInContract);
    }
    Ok(payout)
}

/// The payout is the quotient of the received amount by the price, rounded
/// down: at that price it costs no more than was received, and what is left
/// over is less than the price of one more token.
pub proof fn payout_rounds_down(price: u64, native_amount_received: u128)
    requires
        price > 0,
    ensures
        payout_amount(price, native_amount_received) == (native_amount_received as int) / (
        price as int),
        payout_amount(price, native_amount_received) * price <= native_amount_received,
        native_amount_received - payout_amount(price, native_amount_received) * price < price,
{
    let received = native_amount_received as int;
    let divisor = price as int;
    assert(received == divisor * (received / divisor) + received % divisor && 0 <= received
        % divisor < divisor) by (nonlinear_arith)
        requires
            divisor > 0,
    ;
    assert(divisor * (received / divisor) == (received / divisor) * divisor)
        by (nonlinear_arith);
}

/// A settlement that succeeds pays exactly the rounded-down quotient, which
/// the contract holds.
pub proof fn settlement_pays_the_quotient(
    price: u64,
    native_amount_received: u128,
    ledger_balance_of_contract: u128,
)
    requires
        settlement(price, native_amount_received, ledger_balance_of_contract) is Ok,
    ensures
        price > 0,
        native_amount_received > 0,
        settlement(price, native_amount_received, ledger_balance_of_contract)->Ok_0
            == payout_amount(price, native_amount_received),
        payout_amount(price, native_amount_received) <= ledger_balance_of_contract,
        payout_amount(price, native_amount_received) * price <= native_amount_received,
{
    payout_rounds_down(price, native_amount_received);
}

/// A price of zero is rejected as `InvalidPrice`, whatever was received
/// (but nothing, which is rejected before the price is looked at) and
/// whatever the contract holds.
pub proof fn zero_price_is_invalid(native_amount_received: u128, ledger_balance_of_contract: u128)
    requires
        native_amount_received != 0,
    ensures
        settlement(0, native_amount_received, ledger_balance_of_contract) == Err::<
            u128,
            ContractError,
        >(ContractError::InvalidPrice),
{
}

/// Where nothing of the native denomination was received, the buy is
/// rejected as `CoinMismatch`, at any price and balance.
pub proof fn nothing_received_is_a_mismatch(price: u64, ledger_balance_of_contract: u128)
    ensures
        settlement(price, 0, ledger_balance_of_contract) == Err::<u128, ContractError>(
            ContractError::CoinMismatch,
        ),
{
}

/// A payout that is more than the contract holds is rejected as
/// `InsufficientCoinsInContract`.
pub proof fn payout_over_balance_is_rejected(
    price: u64,
    native_amount_received: u128,
    ledger_balance_of_contract: u128,
)
    requires
        price > 0,
        payout_amount(price, native_amount_received) > ledger_balance_of_contract,
    ensures
        settlement(price, native_amount_received, ledger_balance_of_contract) == Err::<
            u128,
            ContractError,
        >(ContractError::InsufficientCoinsInContract),
{
    assert(native_amount_received != 0) by {
        if native_amount_received == 0 {
            assert(0int / (price as int) == 0) by (nonlinear_arith)
                requires
                    price > 0,
            ;
        }
    }
}

} // verus!
