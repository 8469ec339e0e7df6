//! The payloads that leave a contract as JSON. The bytes are written by
//! `cosmwasm_std`, whose serializer this crate calls and does not verify.

use vstd::prelude::*;
use crate::decimal::decimal_bytes;

verus! {

/// The JSON text of the ledger message that transfers `amount` tokens to
/// `recipient`, as `cosmwasm_std::to_binary` writes it for
/// `cw20::Cw20ExecuteMsg::Transfer`.
pub uninterp spec fn cw20_transfer_json(recipient: Seq<char>, amount: u128) -> Seq<u8>;

/// Calls `cosmwasm_std::to_binary` on `cw20::Cw20ExecuteMsg::Transfer` with
/// the given recipient and amount. Trusted: the call succeeds, and the
/// bytes are the JSON text of that message, which depends on the recipient
/// and the amount alone. The serializer of `serde_json_wasm` has no error
/// path for a message made of a variant name, a string and a `Uint128`,
/// which it writes as a string.
#[verifier::external_body]
pub(crate) fn transfer_to_binary(recipient: &str, amount: u128) -> (res: Result<
    Vec<u8>,
    cosmwasm_std::StdError,
>)
    ensures
        res is Ok,
        res matches Ok(bytes) ==> bytes@ == cw20_transfer_json(recipient@, amount),
{
    let msg = cw20::Cw20ExecuteMsg::Transfer {
        recipient: recipient.to_string(),
        amount: cosmwasm_std::Uint128::from(amount),
    };
    match cosmwasm_std::to_binary(&msg) {
        Ok(binary) => Ok(binary.0),
        Err(e) => Err(e),
    }
}

/// Calls `cosmwasm_std::to_binary` on a `u64`. Trusted: the call succeeds,
/// and the bytes are the decimal digits of the number, which is how the
/// serializer of `serde_json_wasm` writes an unsigned integer of that
/// width.
#[verifier::external_body]
pub(crate) fn price_to_binary(price: u64) -> (res: Result<Vec<u8>, cosmwasm_std::StdError>)
    ensures
        res is Ok,
        res matches Ok(bytes) ==> bytes@ == decimal_bytes(price as nat),
{
    match cosmwasm_std::to_binary(&price) {
        Ok(binary) => Ok(binary.0),
        Err(e) => Err(e),
    }
}

} // verus!
