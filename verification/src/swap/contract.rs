//! The entry points of the swap.
//!
//! `execute` goes as far as it can without an answer from another contract.
//! For a buy it returns the query that has to be run, with the stage the
//! buy has reached; the host runs the query and calls `resume` with the
//! answer, until the call has `Finished`.

use vstd::prelude::*;
use crate::decimal::u128_to_string;
use crate::encoding::transfer_to_binary;
use crate::error::{ContractError, ContractErrorView};
use crate::host::{
    attr,
    coins_view,
    empty_response,
    result_view,
    Coin,
    CoinView,
    CosmosMsg,
    CosmosMsgView,
    Env,
    MessageInfo,
    Response,
    ResponseView,
};
use crate::store::StateStore;
use crate::swap::flow::{
    answer_view,
    balance_query,
    bought,
    buy_resumed,
    buy_started,
    carries_out,
    native_denom,
    price_query,
    uluna_received,
    unexpected_answer,
    BuyStage,
    Next,
    NextView,
    QueryAnswer,
    WasmQuery,
    NATIVE_DENOM,
};
use crate::swap::msg::{Empty, ExecuteMsg, InstantiateMsg, QueryMsg};
use crate::swap::settlement::settle;
use crate::swap::state::{State, StateView};

verus! {

/// The result of a withdrawal of `amount` asked for by `sender`. Only the
/// owner may withdraw, and no amount below zero: then it is one instruction
/// to send exactly that many native coins to the owner, whatever the
/// contract holds.
pub open spec fn withdrawal(record: Option<StateView>, sender: Seq<char>, amount: i32) -> Result<
    ResponseView,
    ContractErrorView,
> {
    match record {
        None => Err(ContractErrorView::NotFound),
        Some(state) => if state.owner != sender {
            Err(ContractErrorView::Unauthorized)
        } else if amount < 0 {
            Err(ContractErrorView::InvalidAmount)
        } else {
            Ok(
                ResponseView {
                    messages: seq![
                        CosmosMsgView::BankSend {
                            to_address: sender,
                            amount: seq![CoinView { denom: native_denom(), amount: amount as u128 }],
                        },
                    ],
                    attributes: Seq::empty(),
                },
            )
        },
    }
}

/// Creates the swap: the sender becomes the owner, and the two addresses
/// are those in the message.
pub fn instantiate(
    store: &mut StateStore<State>,
    _env: &Env,
    info: &MessageInfo,
    msg: InstantiateMsg,
) -> (res: Result<Response, ContractError>)
    ensures
        final(store).stored() == Some(
            StateView {
                owner: info.sender@,
                token_address: msg.token_address@,
                oracle_address: msg.oracle_address@,
            },
        ),
        res matches Ok(response) && response@.messages == Seq::<CosmosMsgView>::empty()
            && response@.attributes == seq![attr("method"@, "instantiate"@)],
{
    store.save(
        State {
            owner: info.sender.clone(),
            token_address: msg.token_address,
            oracle_address: msg.oracle_address,
        },
    );
    let response = Response::new().add_attribute("method", String::from_str("instantiate"));
    Ok(response)
}

/// Carries out one message, as far as it goes without an answer from
/// another contract.
pub fn execute(store: &StateStore<State>, env: &Env, info: &MessageInfo, msg: ExecuteMsg) -> (next:
    Next)
    ensures
        match msg {
            ExecuteMsg::Buy {  } => carries_out(next@, buy_started(store.stored())),
            ExecuteMsg::Withdraw { amount } => next@ == NextView::Finished(
                withdrawal(store.stored(), info.sender@, amount),
            ),
        },
{
    match msg {
        ExecuteMsg::Buy {  } => try_buy(store, env, info, msg),
        ExecuteMsg::Withdraw { amount } => Next::Finished(try_withdraw(store, info, env, amount)),
    }
}

/// Starts a buy: the oracle is to be asked for the price.
pub fn try_buy(store: &StateStore<State>, _env: &Env, _info: &MessageInfo, _msg: ExecuteMsg) -> (next:
    Next)
    ensures
        carries_out(next@, buy_started(store.stored())),
{
    match get_price(store) {
        Ok(request) => Next::Query { stage: BuyStage::ReceivedFunds, request },
        Err(e) => Next::Finished(Err(e)),
    }
}

/// Goes on with a buy that waited at `stage`, now that `answer` is there.
pub fn resume(
    store: &StateStore<State>,
    env: &Env,
    info: &MessageInfo,
    stage: BuyStage,
    answer: Result<QueryAnswer, String>,
) -> (next: Next)
    ensures
        carries_out(
            next@,
            buy_resumed(store.stored(), env.contract.address@, info@, stage, answer_view(answer)),
        ),
{
    let state = match store.load() {
        Ok(state) => state,
        Err(e) => {
            return Next::Finished(Err(e));
        },
    };
    let answered = match answer {
        Ok(answered) => answered,
        Err(reason) => {
            return Next::Finished(Err(ContractError::QueryFailed(reason)));
        },
    };
    match answered {
        QueryAnswer::Price(answered) => match stage {
            BuyStage::ReceivedFunds => match get_balance_of_cw20(
                store,
                env.contract.address.as_str(),
            ) {
                Ok(request) => Next::Query {
                    stage: BuyStage::PriceQueried { price: answered.price },
                    request,
                },
                Err(e) => Next::Finished(Err(e)),
            },
            BuyStage::PriceQueried { .. } => Next::Finished(Err(unexpected())),
        },
        QueryAnswer::Balance(answered) => match stage {
            BuyStage::ReceivedFunds => Next::Finished(Err(unexpected())),
            BuyStage::PriceQueried { price } => {
                let received = native_amount_received(&info.funds);
                match settle(price, received, answered.balance) {
                    Ok(payout) => {
                        let encoded = transfer_to_binary(info.sender.as_str(), payout);
                        Next::Finished(buy_response(state, price, received, payout, encoded))
                    },
                    Err(e) => Next::Finished(Err(e)),
                }
            },
        },
    }
}

fn unexpected() -> (e: ContractError)
    ensures
        e@ == ContractErrorView::QueryFailed(unexpected_answer()),
{
    ContractError::QueryFailed(String::from_str("unexpected answer to a query"))
}

/// The amount of the first coin of the native denomination among `funds`,
/// or zero where there is none.
pub fn native_amount_received(funds: &Vec<Coin>) -> (amount: u128)
    ensures
        amount == uluna_received(coins_view(funds@)),
{
    let denom = String::from_str(NATIVE_DENOM);
    let ghost all = coins_view(funds@);
    let mut i: usize = 0;
    assert(all.skip(0) =~= all);
    while i < funds.len()
        invariant
            i <= funds.len(),
            denom@ == native_denom(),
            all == coins_view(funds@),
            uluna_received(all) == uluna_received(all.skip(i as int)),
        decreases funds.len() - i,
    {
        if funds[i].denom == denom {
            return funds[i].amount;
        }
        assert(all.skip(i as int).drop_first() =~= all.skip(i + 1));
        i += 1;
    }
    0
}

/// The query for the price, to the oracle of the record.
pub fn get_price(store: &StateStore<State>) -> (res: Result<WasmQuery, ContractError>)
    ensures
        match store.stored() {
            Some(state) => res matches Ok(request) && request@ == price_query(state),
            None => res matches Err(e) && e@ == ContractErrorView::NotFound,
        },
{
    let state = store.load()?;
    Ok(WasmQuery { contract_addr: state.oracle_address.clone(), msg: QueryMsg::QueryPrice {  } })
}

/// The query for the balance of `address`, to the ledger of the record.
pub fn get_balance_of_cw20(store: &StateStore<State>, address: &str) -> (res: Result<
    WasmQuery,
    ContractError,
>)
    ensures
        match store.stored() {
            Some(state) => res matches Ok(request) && request@ == balance_query(state, address@),
            None => res matches Err(e) && e@ == ContractErrorView::NotFound,
        },
{
    let state = store.load()?;
    Ok(
        WasmQuery {
            contract_addr: state.token_address.clone(),
            msg: QueryMsg::Balance { address: String::from_str(address) },
        },
    )
}

/// The result of a buy that pays out, given what the serializer made of
/// the ledger's transfer message: the response with those bytes as the
/// payload, or the serializer's error.
pub fn buy_response(
    state: &State,
    price: u64,
    native_amount_received: u128,
    payout_amount: u128,
    encoded: Result<Vec<u8>, cosmwasm_std::StdError>,
) -> (res: Result<Response, ContractError>)
    ensures
        match encoded {
            Ok(payload) => res matches Ok(response) && response@ == bought(
                state.token_address@,
                price,
                native_amount_received,
                payout_amount,
                payload@,
            ),
            Err(e) => res matches Err(err) && err@ == ContractErrorView::Std(e),
        },
{
    let payload = match encoded {
        Ok(payload) => payload,
        Err(e) => {
            return Err(ContractError::Std(e));
        },
    };
    let transfer = CosmosMsg::WasmExecute {
        contract_addr: state.token_address.clone(),
        msg: payload,
        funds: Vec::new(),
    };
    assert(coins_view(transfer->funds@) =~= Seq::empty());
    let response = Response::new().add_attribute(
        "price",
        u128_to_string(price as u128),
    ).add_attribute("luna_received", u128_to_string(native_amount_received)).add_attribute(
        "coins_sent",
        u128_to_string(payout_amount),
    ).add_message(transfer);
    assert(response@.attributes =~= bought(
        state.token_address@,
        price,
        native_amount_received,
        payout_amount,
        payload@,
    ).attributes);
    Ok(response)
}

/// Sends `amount` native coins to the sender, if the sender is the owner
/// and the amount is not below zero. The amount is not held against what
/// the contract has.
pub fn try_withdraw(store: &StateStore<State>, info: &MessageInfo, _env: &Env, amount: i32) -> (res:
    Result<Response, ContractError>)
    ensures
        result_view(res) == withdrawal(store.stored(), info.sender@, amount),
{
    let state = store.load()?;
    if !(state.owner == info.sender) {
        return Err(ContractError::Unauthorized);
    }
    if amount < 0 {
        return Err(ContractError::InvalidAmount);
    }
    let mut coins: Vec<Coin> = Vec::new();
    coins.push(Coin { denom: String::from_str(NATIVE_DENOM), amount: amount as u128 });
    assert(coins_view(coins@) =~= seq![
        CoinView { denom: native_denom(), amount: amount as u128 },
    ]);
    let msg = CosmosMsg::BankSend { to_address: info.sender.clone(), amount: coins };
    Ok(Response::new().add_message(msg))
}

/// Migrates the contract: nothing changes, and the response is empty.
pub fn migrate(_store: &StateStore<State>, _env: &Env, _msg: Empty) -> (res: Result<
    Response,
    ContractError,
>)
    ensures
        res matches Ok(response) && response@ == empty_response(),
{
    Ok(Response::default())
}

/// Reserved: every query to the swap is answered with `NotImplemented`.
pub fn query(_store: &StateStore<State>, _env: &Env, _msg: QueryMsg) -> (res: Result<
    Vec<u8>,
    ContractError,
>)
    ensures
        res matches Err(e) && e@ == ContractErrorView::NotImplemented,
{
    Err(ContractError::NotImplemented)
}

/// A caller who is not the owner cannot withdraw: the call fails with
/// `Unauthorized`, whatever the amount.
pub proof fn stranger_cannot_withdraw(state: StateView, sender: Seq<char>, amount: i32)
    requires
        sender != state.owner,
    ensures
        withdrawal(Some(state), sender, amount) == Err::<ResponseView, ContractErrorView>(
            ContractErrorView::Unauthorized,
        ),
{
}

/// The owner's withdrawal of an amount that is not below zero is one
/// instruction for exactly that amount, which is never held against a
/// balance.
pub proof fn owner_withdraws_what_was_asked(state: StateView, amount: i32)
    requires
        amount >= 0,
    ensures
        withdrawal(Some(state), state.owner, amount) matches Ok(response)
            && response.messages.len() == 1 && response.messages[0] == (CosmosMsgView::BankSend {
            to_address: state.owner,
            amount: seq![CoinView { denom: native_denom(), amount: amount as u128 }],
        }),
        (amount as u128) == amount,
{
}

/// A withdrawal of an amount below zero sends nothing: the owner's call
/// fails with `InvalidAmount`, and nobody's call is `Ok`.
pub proof fn negative_withdrawal_is_rejected(
    record: Option<StateView>,
    sender: Seq<char>,
    amount: i32,
)
    requires
        amount < 0,
    ensures
        withdrawal(record, sender, amount) is Err,
        record matches Some(state) && state.owner == sender ==> withdrawal(record, sender, amount)
            == Err::<ResponseView, ContractErrorView>(ContractErrorView::InvalidAmount),
{
}

/// Whatever is withdrawn, the one coin that is sent has the amount that
/// was asked for.
pub proof fn withdrawal_sends_exactly_the_amount(
    record: Option<StateView>,
    sender: Seq<char>,
    amount: i32,
)
    requires
        withdrawal(record, sender, amount) is Ok,
    ensures
        withdrawal(record, sender, amount) matches Ok(response) && response.messages
            == seq![
            CosmosMsgView::BankSend {
                to_address: sender,
                amount: seq![CoinView { denom: native_denom(), amount: amount as u128 }],
            },
        ],
        0 <= amount,
        (amount as u128) == amount,
{
}

} // verus!
