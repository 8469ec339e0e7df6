//! The entry points of the oracle.

use vstd::prelude::*;
use crate::decimal::{decimal_bytes, decimal_digits, u128_to_string};
use crate::encoding::price_to_binary;
use crate::error::{ContractError, ContractErrorView};
use crate::host::{attr, result_view, Env, MessageInfo, Response, ResponseView};
use crate::oracle::msg::{ExecuteMsg, InstantiateMsg, QueryMsg};
use crate::oracle::state::{State, StateView};
use crate::store::StateStore;

verus! {

/// The response to `instantiate`.
pub open spec fn instantiated(sender: Seq<char>, price: u64) -> ResponseView {
    ResponseView {
        messages: Seq::empty(),
        attributes: seq![
            attr("method"@, "instantiate"@),
            attr("owner"@, sender),
            attr("price"@, decimal_digits(price as nat)),
        ],
    }
}

/// The response to a price update that was accepted.
pub open spec fn price_updated() -> ResponseView {
    ResponseView {
        messages: Seq::empty(),
        attributes: seq![attr("method"@, "try_updating_price"@)],
    }
}

/// The record after `sender` asked for the price `price`, and the answer
/// given: only the owner changes the price, and nothing else changes.
pub open spec fn price_update(before: Option<StateView>, sender: Seq<char>, price: u64) -> (
    Option<StateView>,
    Result<ResponseView, ContractErrorView>,
) {
    match before {
        None => (before, Err(ContractErrorView::NotFound)),
        Some(state) => if sender == state.owner {
            (Some(StateView { owner: state.owner, price }), Ok(price_updated()))
        } else {
            (before, Err(ContractErrorView::Unauthorized))
        },
    }
}

/// What the owner check makes of one record: the record with the new price
/// for the owner, `Unauthorized` for anyone else.
pub open spec fn owner_sets_price(
    state: State,
    sender: Seq<char>,
    price: u64,
    next: Result<State, ContractError>,
) -> bool {
    if sender == state.owner@ {
        next matches Ok(s) && s@ == (StateView { owner: state.owner@, price })
    } else {
        next matches Err(e) && e == ContractError::Unauthorized
    }
}

/// The price that a read of the record gives.
pub open spec fn price_reading(record: Option<StateView>) -> Result<u64, ContractErrorView> {
    match record {
        Some(state) => Ok(state.price),
        None => Err(ContractErrorView::NotFound),
    }
}

/// Creates the oracle: the sender becomes the owner, and the price is the
/// one in the message. Any price is accepted.
pub fn instantiate(
    store: &mut StateStore<State>,
    _env: &Env,
    info: &MessageInfo,
    msg: InstantiateMsg,
) -> (res: Result<Response, ContractError>)
    ensures
        final(store).stored() == Some(StateView { owner: info.sender@, price: msg.price }),
        res matches Ok(response) && response@ == instantiated(info.sender@, msg.price),
{
    let state = State { owner: info.sender.clone(), price: msg.price };
    store.save(state);
    let response = Response::new().add_attribute(
        "method",
        String::from_str("instantiate"),
    ).add_attribute("owner", info.sender.clone()).add_attribute(
        "price",
        u128_to_string(msg.price as u128),
    );
    assert(response@.attributes =~= instantiated(info.sender@, msg.price).attributes);
    Ok(response)
}

/// Carries out one message.
pub fn execute(store: &mut StateStore<State>, _env: &Env, info: &MessageInfo, msg: ExecuteMsg) -> (res:
    Result<Response, ContractError>)
    ensures
        msg matches ExecuteMsg::UpdatePrice { price } && (final(store).stored(), result_view(res))
            == price_update(old(store).stored(), info.sender@, price),
        res is Err ==> final(store)@ == old(store)@,
{
    match msg {
        ExecuteMsg::UpdatePrice { price } => try_updating_price(store, info, price),
    }
}

/// Sets the price, if the sender is the owner. Where it is not, or the
/// oracle was never created, the record stays as it was.
pub fn try_updating_price(store: &mut StateStore<State>, info: &MessageInfo, price: u64) -> (res:
    Result<Response, ContractError>)
    ensures
        (final(store).stored(), result_view(res)) == price_update(
            old(store).stored(),
            info.sender@,
            price,
        ),
        res is Err ==> final(store)@ == old(store)@,
{
    let action = |state: &State| -> (next: Result<State, ContractError>)
        ensures
            owner_sets_price(*state, info.sender@, price, next),
        {
            if info.sender == state.owner {
                Ok(State { owner: state.owner.clone(), price })
            } else {
                Err(ContractError::Unauthorized)
            }
        };
    let outcome = store.update(action);
    match outcome {
        Ok(_) => {
            let response = Response::new().add_attribute(
                "method",
                String::from_str("try_updating_price"),
            );
            Ok(response)
        },
        Err(e) => Err(e),
    }
}

/// The price, or `NotFound` where the oracle was never created. The answer
/// depends on the record alone.
pub fn query_price(store: &StateStore<State>) -> (res: Result<u64, ContractError>)
    ensures
        match price_reading(store.stored()) {
            Ok(price) => res matches Ok(p) && p == price,
            Err(e) => res matches Err(err) && err@ == e,
        },
{
    match store.load() {
        Ok(state) => Ok(state.price),
        Err(e) => Err(e),
    }
}

/// Answers one query: the price, written in base ten, as the payload.
pub fn query(store: &StateStore<State>, _env: &Env, msg: QueryMsg) -> (res: Result<
    Vec<u8>,
    ContractError,
>)
    ensures
        match price_reading(store.stored()) {
            Ok(price) => res matches Ok(payload) && payload@ == decimal_bytes(price as nat),
            Err(e) => res matches Err(err) && err@ == e,
        },
{
    match msg {
        QueryMsg::QueryPrice {  } => {
            let price = query_price(store)?;
            match price_to_binary(price) {
                Ok(payload) => Ok(payload),
                Err(e) => Err(ContractError::Std(e)),
            }
        },
    }
}

/// A caller who is not the owner cannot set the price: the update fails
/// with `Unauthorized`, and the record stays as it was.
pub proof fn stranger_cannot_update(state: StateView, sender: Seq<char>, price: u64)
    requires
        sender != state.owner,
    ensures
        price_update(Some(state), sender, price) == (
            Some(state),
            Err::<ResponseView, ContractErrorView>(ContractErrorView::Unauthorized),
        ),
{
}

/// The owner sets the price: afterwards a read gives the new price, and
/// the owner is the same.
pub proof fn owner_update_is_read_back(state: StateView, price: u64)
    ensures
        price_update(Some(state), state.owner, price).1 is Ok,
        price_update(Some(state), state.owner, price).0 == Some(
            StateView { owner: state.owner, price },
        ),
        price_reading(price_update(Some(state), state.owner, price).0) == Ok::<
            u64,
            ContractErrorView,
        >(price),
{
}

/// No update changes the owner, whoever asks for it.
pub proof fn owner_never_changes(state: StateView, sender: Seq<char>, price: u64)
    ensures
        price_update(Some(state), sender, price).0 matches Some(after) && after.owner
            == state.owner,
{
}

/// Two reads of the price with no update in between give the same answer.
pub proof fn repeated_reads_agree(
    record: Option<StateView>,
    first: Result<u64, ContractErrorView>,
    second: Result<u64, ContractErrorView>,
)
    requires
        first == price_reading(record),
        second == price_reading(record),
    ensures
        first == second,
{
}

/// An update that was rejected changes no later read.
pub proof fn rejected_update_keeps_reading(before: Option<StateView>, sender: Seq<char>, price: u64)
    requires
        price_update(before, sender, price).1 is Err,
    ensures
        price_reading(price_update(before, sender, price).0) == price_reading(before),
{
}

} // verus!
