//! The course of a buy.
//!
//! A buy needs two answers from other contracts: the price from the oracle
//! and the swap's balance from the token ledger. The swap does not fetch
//! them. At each step it decides what comes next: a query for the host to
//! run, a rejection, or the payout. This module says what is decided when.

use vstd::prelude::*;
use crate::decimal::decimal_digits;
use crate::encoding::cw20_transfer_json;
use crate::error::{ContractError, ContractErrorView};
use crate::host::{
    attr,
    result_view,
    CoinView,
    CosmosMsgView,
    MessageInfoView,
    Response,
    ResponseView,
};
use crate::swap::msg::{BalanceResponse, PriceResponse, QueryMsg, QueryMsgView};
use crate::swap::settlement::{
    payout_amount,
    payout_over_balance_is_rejected,
    settlement,
    settlement_pays_the_quotient,
};
use crate::swap::state::StateView;

verus! {

/// A query to the contract at `contract_addr`.
#[derive(Debug, Clone, PartialEq, Eq)]
pub struct WasmQuery {
    pub contract_addr: String,
    pub msg: QueryMsg,
}

/// A `WasmQuery` as a mathematical value.
pub struct WasmQueryView {
    pub contract_addr: Seq<char>,
    pub msg: QueryMsgView,
}

impl View for WasmQuery {
    type V = WasmQueryView;

    open spec fn view(&self) -> WasmQueryView {
        WasmQueryView { contract_addr: self.contract_addr@, msg: self.msg@ }
    }
}

/// What another contract answered.
#[derive(Debug, Clone, PartialEq, Eq)]
pub enum QueryAnswer {
    Price(PriceResponse),
    Balance(BalanceResponse),
}

/// How far a buy has come.
#[derive(Debug, Clone, Copy, PartialEq, Eq)]
pub enum BuyStage {
    /// The funds are in; the oracle has been asked for the price.
    ReceivedFunds,
    /// The price is known; the ledger has been asked for the balance.
    PriceQueried { price: u64 },
}

/// What the host has to do after a call into the swap.
#[derive(Debug, PartialEq)]
pub enum Next {
    /// Run `request` and call `resume` with `stage` and the answer.
    Query { stage: BuyStage, request: WasmQuery },
    /// The call is over, with this result.
    Finished(Result<Response, ContractError>),
}

/// A `Next` as a mathematical value.
pub enum NextView {
    Query { stage: BuyStage, request: WasmQueryView },
    Finished(Result<ResponseView, ContractErrorView>),
}

impl View for Next {
    type V = NextView;

    open spec fn view(&self) -> NextView {
        match self {
            Next::Query { stage, request } => NextView::Query { stage: *stage, request: request@ },
            Next::Finished(res) => NextView::Finished(result_view(*res)),
        }
    }
}

/// What the swap decides at one step of a buy.
pub enum Decision {
    /// Ask another contract, and go on at `stage` with its answer.
    Ask { stage: BuyStage, request: WasmQueryView },
    /// Reject the buy.
    Reject(ContractErrorView),
    /// Pay `payout_amount` tokens of the ledger at `token_address` to
    /// `buyer`.
    Pay {
        token_address: Seq<char>,
        buyer: Seq<char>,
        price: u64,
        native_amount_received: u128,
        payout_amount: u128,
    },
}

/// The denomination of the native coin that the swap takes.
pub const NATIVE_DENOM: &'static str = "uluna";

/// The denomination of the native coin that the swap takes.
pub open spec fn native_denom() -> Seq<char> {
    NATIVE_DENOM@
}

/// The text of the error for an answer that does not fit the query.
pub open spec fn unexpected_answer() -> Seq<char> {
    "unexpected answer to a query"@
}

/// The answer of the host as a mathematical value.
pub open spec fn answer_view(answer: Result<QueryAnswer, String>) -> Result<
    QueryAnswer,
    Seq<char>,
> {
    match answer {
        Ok(a) => Ok(a),
        Err(reason) => Err(reason@),
    }
}

/// The amount of the first coin of the native denomination among `funds`,
/// or zero where there is none.
pub open spec fn uluna_received(funds: Seq<CoinView>) -> u128
    decreases funds.len(),
{
    if funds.len() == 0 {
        0
    } else if funds[0].denom == native_denom() {
        funds[0].amount
    } else {
        uluna_received(funds.drop_first())
    }
}

/// The query that asks the oracle of `state` for its price.
pub open spec fn price_query(state: StateView) -> WasmQueryView {
    WasmQueryView { contract_addr: state.oracle_address, msg: QueryMsgView::QueryPrice }
}

/// The query that asks the ledger of `state` for the balance of `holder`.
pub open spec fn balance_query(state: StateView, holder: Seq<char>) -> WasmQueryView {
    WasmQueryView {
        contract_addr: state.token_address,
        msg: QueryMsgView::Balance { address: holder },
    }
}

/// The decision at the start of a buy: ask the oracle for the price.
pub open spec fn buy_started(record: Option<StateView>) -> Decision {
    match record {
        None => Decision::Reject(ContractErrorView::NotFound),
        Some(state) => Decision::Ask {
            stage: BuyStage::ReceivedFunds,
            request: price_query(state),
        },
    }
}

/// The decision once `answer` has come in at `stage`. A failed query ends
/// the buy with the host's text; the price leads on to the balance query,
/// for the balance of `holder`; the balance leads to the settlement.
pub open spec fn buy_resumed(
    record: Option<StateView>,
    holder: Seq<char>,
    info: MessageInfoView,
    stage: BuyStage,
    answer: Result<QueryAnswer, Seq<char>>,
) -> Decision {
    match record {
        None => Decision::Reject(ContractErrorView::NotFound),
        Some(state) => match answer {
            Err(reason) => Decision::Reject(ContractErrorView::QueryFailed(reason)),
            Ok(QueryAnswer::Price(answered)) => match stage {
                BuyStage::ReceivedFunds => Decision::Ask {
                    stage: BuyStage::PriceQueried { price: answered.price },
                    request: balance_query(state, holder),
                },
                BuyStage::PriceQueried { .. } => Decision::Reject(
                    ContractErrorView::QueryFailed(unexpected_answer()),
                ),
            },
            Ok(QueryAnswer::Balance(answered)) => match stage {
                BuyStage::ReceivedFunds => Decision::Reject(
                    ContractErrorView::QueryFailed(unexpected_answer()),
                ),
                BuyStage::PriceQueried { price } => match settlement(
                    price,
                    uluna_received(info.funds),
                    answered.balance,
                ) {
                    Ok(payout_amount) => Decision::Pay {
                        token_address: state.token_address,
                        buyer: info.sender,
                        price,
                        native_amount_received: uluna_received(info.funds),
                        payout_amount,
                    },
                    Err(e) => Decision::Reject(e@),
                },
            },
        },
    }
}

/// The response to a buy that pays out: one instruction to the ledger,
/// with `payload` as its message and no funds, and the three attributes.
pub open spec fn bought(
    token_address: Seq<char>,
    price: u64,
    native_amount_received: u128,
    payout_amount: u128,
    payload: Seq<u8>,
) -> ResponseView {
    ResponseView {
        messages: seq![
            CosmosMsgView::WasmExecute {
                contract_addr: token_address,
                msg: payload,
                funds: Seq::empty(),
            },
        ],
        attributes: seq![
            attr("price"@, decimal_digits(price as nat)),
            attr("luna_received"@, decimal_digits(native_amount_received as nat)),
            attr("coins_sent"@, decimal_digits(payout_amount as nat)),
        ],
    }
}

/// Whether `next` carries out `decision`. A payout becomes the response
/// `bought`, with the ledger's transfer message to the buyer as its payload.
pub open spec fn carries_out(next: NextView, decision: Decision) -> bool {
    match decision {
        Decision::Ask { stage, request } => next == NextView::Query { stage, request },
        Decision::Reject(e) => next == NextView::Finished(Err(e)),
        Decision::Pay { token_address, buyer, price, native_amount_received, payout_amount } => {
            next == NextView::Finished(
                Ok(
                    bought(
                        token_address,
                        price,
                        native_amount_received,
                        payout_amount,
                        cw20_transfer_json(buyer, payout_amount),
                    ),
                ),
            )
        },
    }
}

/// The decision of a buy whose price and balance are both in.
pub open spec fn buy_settled(
    state: StateView,
    holder: Seq<char>,
    info: MessageInfoView,
    price: u64,
    ledger_balance_of_contract: u128,
) -> Decision {
    buy_resumed(
        Some(state),
        holder,
        info,
        BuyStage::PriceQueried { price },
        Ok(QueryAnswer::Balance(BalanceResponse { balance: ledger_balance_of_contract })),
    )
}

/// A buy that pays out pays the received amount divided by the price,
/// rounded down, to the sender, from the ledger of the record. The
/// remainder is kept: the payout times the price is no more than was
/// received. And the contract holds what it pays.
pub proof fn buy_pays_the_quotient(
    state: StateView,
    holder: Seq<char>,
    info: MessageInfoView,
    price: u64,
    ledger_balance_of_contract: u128,
)
    requires
        buy_settled(state, holder, info, price, ledger_balance_of_contract) is Pay,
    ensures
        price > 0,
        buy_settled(state, holder, info, price, ledger_balance_of_contract) == (Decision::Pay {
            token_address: state.token_address,
            buyer: info.sender,
            price,
            native_amount_received: uluna_received(info.funds),
            payout_amount: payout_amount(price, uluna_received(info.funds)) as u128,
        }),
        payout_amount(price, uluna_received(info.funds)) == (uluna_received(info.funds) as int)
            / (price as int),
        payout_amount(price, uluna_received(info.funds)) * price <= uluna_received(info.funds),
        payout_amount(price, uluna_received(info.funds)) <= ledger_balance_of_contract,
{
    settlement_pays_the_quotient(price, uluna_received(info.funds), ledger_balance_of_contract);
}

/// With a price above zero, something received and a balance that covers
/// the payout, the buy pays out.
pub proof fn covered_buy_pays(
    state: StateView,
    holder: Seq<char>,
    info: MessageInfoView,
    price: u64,
    ledger_balance_of_contract: u128,
)
    requires
        price > 0,
        uluna_received(info.funds) > 0,
        payout_amount(price, uluna_received(info.funds)) <= ledger_balance_of_contract,
    ensures
        buy_settled(state, holder, info, price, ledger_balance_of_contract) is Pay,
{
}

/// A covered buy ends well: whatever carries it out is the response with
/// one instruction, to the ledger of the record, whose payload is the
/// transfer of the quotient to the sender, and with the price, the amount
/// received and the amount sent as its attributes.
pub proof fn covered_buy_sends_one_transfer(
    state: StateView,
    holder: Seq<char>,
    info: MessageInfoView,
    price: u64,
    ledger_balance_of_contract: u128,
    next: NextView,
)
    requires
        price > 0,
        uluna_received(info.funds) > 0,
        payout_amount(price, uluna_received(info.funds)) <= ledger_balance_of_contract,
        carries_out(next, buy_settled(state, holder, info, price, ledger_balance_of_contract)),
    ensures
        next matches NextView::Finished(Ok(response)) && response.messages == seq![
            CosmosMsgView::WasmExecute {
                contract_addr: state.token_address,
                msg: cw20_transfer_json(
                    info.sender,
                    payout_amount(price, uluna_received(info.funds)) as u128,
                ),
                funds: Seq::empty(),
            },
        ] && response.attributes == seq![
            attr("price"@, decimal_digits(price as nat)),
            attr("luna_received"@, decimal_digits(uluna_received(info.funds) as nat)),
            attr(
                "coins_sent"@,
                decimal_digits(payout_amount(price, uluna_received(info.funds))),
            ),
        ],
{
}

/// At a price of zero the buy fails with `InvalidPrice`. (A buy that
/// received nothing has failed before the price is looked at.)
pub proof fn buy_at_zero_price_is_rejected(
    state: StateView,
    holder: Seq<char>,
    info: MessageInfoView,
    ledger_balance_of_contract: u128,
)
    requires
        uluna_received(info.funds) != 0,
    ensures
        buy_settled(state, holder, info, 0, ledger_balance_of_contract) == Decision::Reject(
            ContractErrorView::InvalidPrice,
        ),
{
}

/// A buy that came with no coin of the native denomination fails with
/// `CoinMismatch`.
pub proof fn buy_without_native_coin_is_rejected(
    state: StateView,
    holder: Seq<char>,
    info: MessageInfoView,
    price: u64,
    ledger_balance_of_contract: u128,
)
    requires
        uluna_received(info.funds) == 0,
    ensures
        buy_settled(state, holder, info, price, ledger_balance_of_contract) == Decision::Reject(
            ContractErrorView::CoinMismatch,
        ),
{
}

/// A buy whose payout is more than the contract holds on the ledger fails
/// with `InsufficientCoinsInContract`, and whatever carries that decision
/// out is an error: no instruction goes to the ledger.
pub proof fn buy_over_balance_is_rejected(
    state: StateView,
    holder: Seq<char>,
    info: MessageInfoView,
    price: u64,
    ledger_balance_of_contract: u128,
)
    requires
        price > 0,
        payout_amount(price, uluna_received(info.funds)) > ledger_balance_of_contract,
    ensures
        buy_settled(state, holder, info, price, ledger_balance_of_contract) == Decision::Reject(
            ContractErrorView::InsufficientCoinsInContract,
        ),
        forall|next: NextView|
            carries_out(next, buy_settled(state, holder, info, price, ledger_balance_of_contract))
                ==> next == NextView::Finished(
                Err(ContractErrorView::InsufficientCoinsInContract),
            ),
{
    payout_over_balance_is_rejected(price, uluna_received(info.funds), ledger_balance_of_contract);
}

/// A buy takes two answers at most. The first answer leads to a rejection
/// or to the balance query, at the stage with the price just answered, and
/// never to a payout; the second ends the buy.
pub proof fn buy_ends_with_the_second_answer(
    record: Option<StateView>,
    holder: Seq<char>,
    info: MessageInfoView,
    stage: BuyStage,
    answer: Result<QueryAnswer, Seq<char>>,
)
    ensures
        stage is PriceQueried ==> !(buy_resumed(record, holder, info, stage, answer) is Ask),
        stage is ReceivedFunds ==> !(buy_resumed(record, holder, info, stage, answer) is Pay),
        buy_resumed(record, holder, info, stage, answer) matches Decision::Ask { stage: next, .. }
            ==> answer matches Ok(QueryAnswer::Price(answered)) && next == (BuyStage::PriceQueried {
            price: answered.price,
        }),
{
}

/// A query that failed ends the buy with the text that the host gave, at
/// either stage.
pub proof fn failed_query_ends_the_buy(
    state: StateView,
    holder: Seq<char>,
    info: MessageInfoView,
    stage: BuyStage,
    reason: Seq<char>,
)
    ensures
        buy_resumed(Some(state), holder, info, stage, Err(reason)) == Decision::Reject(
            ContractErrorView::QueryFailed(reason),
        ),
{
}

} // verus!
