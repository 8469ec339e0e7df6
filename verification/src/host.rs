//! The values that pass between the host and a contract: who called, with
//! which coins, and what the contract asks the host to do in return.

use vstd::prelude::*;
use crate::error::{ContractError, ContractErrorView};

verus! {

/// An amount of one native denomination.
#[derive(Debug, Clone, PartialEq, Eq)]
pub struct Coin {
    pub denom: String,
    pub amount: u128,
}

/// A `Coin` as a mathematical value.
pub struct CoinView {
    pub denom: Seq<char>,
    pub amount: u128,
}

impl View for Coin {
    type V = CoinView;

    open spec fn view(&self) -> CoinView {
        CoinView { denom: self.denom@, amount: self.amount }
    }
}

/// The views of a list of coins, in order.
pub open spec fn coins_view(coins: Seq<Coin>) -> Seq<CoinView> {
    coins.map_values(|c: Coin| c@)
}

/// A key and a value that the host records with the result of a call.
#[derive(Debug, Clone, PartialEq, Eq)]
pub struct Attribute {
    pub key: String,
    pub value: String,
}

/// An `Attribute` as a mathematical value.
pub struct AttributeView {
    pub key: Seq<char>,
    pub value: Seq<char>,
}

impl View for Attribute {
    type V = AttributeView;

    open spec fn view(&self) -> AttributeView {
        AttributeView { key: self.key@, value: self.value@ }
    }
}

/// An instruction that the host carries out after the contract returned.
#[derive(Debug, Clone, PartialEq, Eq)]
pub enum CosmosMsg {
    /// Send native coins from the contract to `to_address`.
    BankSend { to_address: String, amount: Vec<Coin> },
    /// Call the contract at `contract_addr` with the payload `msg`.
    WasmExecute { contract_addr: String, msg: Vec<u8>, funds: Vec<Coin> },
}

/// A `CosmosMsg` as a mathematical value.
pub enum CosmosMsgView {
    BankSend { to_address: Seq<char>, amount: Seq<CoinView> },
    WasmExecute { contract_addr: Seq<char>, msg: Seq<u8>, funds: Seq<CoinView> },
}

impl View for CosmosMsg {
    type V = CosmosMsgView;

    open spec fn view(&self) -> CosmosMsgView {
        match self {
            CosmosMsg::BankSend { to_address, amount } => CosmosMsgView::BankSend {
                to_address: to_address@,
                amount: coins_view(amount@),
            },
            CosmosMsg::WasmExecute { contract_addr, msg, funds } => CosmosMsgView::WasmExecute {
                contract_addr: contract_addr@,
                msg: msg@,
                funds: coins_view(funds@),
            },
        }
    }
}

/// What a successful call hands back to the host: the instructions to carry
/// out, and the attributes to record.
#[derive(Debug, Clone, PartialEq, Eq)]
pub struct Response {
    pub messages: Vec<CosmosMsg>,
    pub attributes: Vec<Attribute>,
}

/// A `Response` as a mathematical value.
pub struct ResponseView {
    pub messages: Seq<CosmosMsgView>,
    pub attributes: Seq<AttributeView>,
}

impl View for Response {
    type V = ResponseView;

    open spec fn view(&self) -> ResponseView {
        ResponseView {
            messages: self.messages@.map_values(|m: CosmosMsg| m@),
            attributes: self.attributes@.map_values(|a: Attribute| a@),
        }
    }
}

/// The response with no instruction and no attribute.
pub open spec fn empty_response() -> ResponseView {
    ResponseView { messages: Seq::empty(), attributes: Seq::empty() }
}

/// The attribute with the given key and value.
pub open spec fn attr(key: Seq<char>, value: Seq<char>) -> AttributeView {
    AttributeView { key, value }
}

impl Response {
    /// A response with no instruction and no attribute.
    pub fn new() -> (res: Response)
        ensures
            res@ == empty_response(),
    {
        let res = Response { messages: Vec::new(), attributes: Vec::new() };
        assert(res@.messages =~= Seq::empty());
        assert(res@.attributes =~= Seq::empty());
        res
    }

    /// Adds one attribute after those already there.
    pub fn add_attribute(self, key: &str, value: String) -> (res: Response)
        ensures
            res@.messages == self@.messages,
            res@.attributes == self@.attributes.push(attr(key@, value@)),
    {
        let mut res = self;
        res.attributes.push(Attribute { key: String::from_str(key), value });
        res
    }

    /// Adds one instruction after those already there.
    pub fn add_message(self, msg: CosmosMsg) -> (res: Response)
        ensures
            res@.messages == self@.messages.push(msg@),
            res@.attributes == self@.attributes,
    {
        let mut res = self;
        res.messages.push(msg);
        res
    }
}

impl Default for Response {
    /// The response with no instruction and no attribute.
    fn default() -> (res: Response)
        ensures
            res@ == empty_response(),
    {
        Response::new()
    }
}

/// The result of a call as a mathematical value.
pub open spec fn result_view(res: Result<Response, ContractError>) -> Result<
    ResponseView,
    ContractErrorView,
> {
    match res {
        Ok(response) => Ok(response@),
        Err(e) => Err(e@),
    }
}

/// The contract that is being called.
#[derive(Debug, Clone, PartialEq, Eq)]
pub struct ContractInfo {
    pub address: String,
}

/// What the host tells a contract about the call's surroundings.
#[derive(Debug, Clone, PartialEq, Eq)]
pub struct Env {
    pub contract: ContractInfo,
}

/// Who called, and which coins came with the call.
#[derive(Debug, Clone, PartialEq, Eq)]
pub struct MessageInfo {
    pub sender: String,
    pub funds: Vec<Coin>,
}

/// A `MessageInfo` as a mathematical value.
pub struct MessageInfoView {
    pub sender: Seq<char>,
    pub funds: Seq<CoinView>,
}

impl View for MessageInfo {
    type V = MessageInfoView;

    open spec fn view(&self) -> MessageInfoView {
        MessageInfoView { sender: self.sender@, funds: coins_view(self.funds@) }
    }
}

} // verus!
