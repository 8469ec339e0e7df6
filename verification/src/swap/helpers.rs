//! Stand-ins for the contracts that the swap talks to, for use where no
//! chain is at hand: a token ledger, a tax table, a vault and a boost table,
//! each filled from plain lists.
//!
//! A table is kept as a list of entries with the newest first, and a lookup
//! takes the first entry with the key: an entry put in later replaces an
//! earlier one with the same key.

use vstd::prelude::*;

verus! {

/// The queries that the stand-ins know of.
#[derive(Debug, Clone, PartialEq, Eq)]
pub enum QueryMsg {
    Balance { address: String },
    TokenInfo {},
    State {},
    RewardAssetWhitelist {},
    GetBoost { user: String },
}

/// What a table of amounts holds: for each key the amount of the first
/// entry that has it.
pub open spec fn amounts_view(entries: Seq<(String, u128)>) -> Map<Seq<char>, u128>
    decreases entries.len(),
{
    if entries.len() == 0 {
        Map::empty()
    } else {
        amounts_view(entries.drop_first()).insert(entries[0].0@, entries[0].1)
    }
}

/// What a table of tables holds: for each key the table of the first entry
/// that has it.
pub open spec fn ledgers_view(entries: Seq<(String, Vec<(String, u128)>)>) -> Map<
    Seq<char>,
    Map<Seq<char>, u128>,
>
    decreases entries.len(),
{
    if entries.len() == 0 {
        Map::empty()
    } else {
        ledgers_view(entries.drop_first()).insert(entries[0].0@, amounts_view(entries[0].1@))
    }
}

/// The table that comes of putting `pairs` into an empty one in order.
pub open spec fn amounts_put(pairs: Seq<(&String, &u128)>) -> Map<Seq<char>, u128>
    decreases pairs.len(),
{
    if pairs.len() == 0 {
        Map::empty()
    } else {
        amounts_put(pairs.drop_last()).insert(pairs.last().0@, *pairs.last().1)
    }
}

/// The table of tables that comes of putting `pairs` into an empty one in
/// order, each with the table made of its own pairs.
pub open spec fn ledgers_put(pairs: Seq<(&String, &[(&String, &u128)])>) -> Map<
    Seq<char>,
    Map<Seq<char>, u128>,
>
    decreases pairs.len(),
{
    if pairs.len() == 0 {
        Map::empty()
    } else {
        ledgers_put(pairs.drop_last()).insert(pairs.last().0@, amounts_put(pairs.last().1@))
    }
}

/// The amount that `table` has for `key`, or zero.
pub open spec fn amount_or_zero(table: Map<Seq<char>, u128>, key: Seq<char>) -> u128 {
    if table.contains_key(key) {
        table[key]
    } else {
        0
    }
}

/// The first entry of `entries` with the key `key`.
fn find_amount<'a>(entries: &'a Vec<(String, u128)>, key: &String) -> (res: Option<&'a u128>)
    ensures
        match res {
            Some(amount) => amounts_view(entries@).contains_key(key@) && amounts_view(
                entries@,
            )[key@] == *amount,
            None => !amounts_view(entries@).contains_key(key@),
        },
{
    let mut i: usize = 0;
    assert(entries@.skip(0) =~= entries@);
    while i < entries.len()
        invariant
            i <= entries.len(),
            amounts_view(entries@).contains_key(key@) == amounts_view(
                entries@.skip(i as int),
            ).contains_key(key@),
            amounts_view(entries@).contains_key(key@) ==> amounts_view(entries@)[key@]
                == amounts_view(entries@.skip(i as int))[key@],
        decreases entries.len() - i,
    {
        assert(entries@.skip(i as int).drop_first() =~= entries@.skip(i + 1));
        if entries[i].0 == *key {
            return Some(&entries[i].1);
        }
        i += 1;
    }
    None
}

/// The first entry of `entries` with the key `key`.
fn find_ledger<'a>(entries: &'a Vec<(String, Vec<(String, u128)>)>, key: &String) -> (res: Option<
    &'a Vec<(String, u128)>,
>)
    ensures
        match res {
            Some(accounts) => ledgers_view(entries@).contains_key(key@) && ledgers_view(
                entries@,
            )[key@] == amounts_view(accounts@),
            None => !ledgers_view(entries@).contains_key(key@),
        },
{
    let mut i: usize = 0;
    assert(entries@.skip(0) =~= entries@);
    while i < entries.len()
        invariant
            i <= entries.len(),
            ledgers_view(entries@).contains_key(key@) == ledgers_view(
                entries@.skip(i as int),
            ).contains_key(key@),
            ledgers_view(entries@).contains_key(key@) ==> ledgers_view(entries@)[key@]
                == ledgers_view(entries@.skip(i as int))[key@],
        decreases entries.len() - i,
    {
        assert(entries@.skip(i as int).drop_first() =~= entries@.skip(i + 1));
        if entries[i].0 == *key {
            return Some(&entries[i].1);
        }
        i += 1;
    }
    None
}

/// Makes the table of `caps`: a later pair replaces an earlier one with the
/// same key.
pub fn _caps_to_map(caps: &[(&String, &u128)]) -> (res: Vec<(String, u128)>)
    ensures
        amounts_view(res@) == amounts_put(caps@),
{
    let mut owner_map: Vec<(String, u128)> = Vec::new();
    let mut i: usize = 0;
    while i < caps.len()
        invariant
            i <= caps.len(),
            amounts_view(owner_map@) == amounts_put(caps@.take(i as int)),
        decreases caps.len() - i,
    {
        let ghost before = owner_map@;
        let (denom, cap) = caps[i];
        owner_map.insert(0, (denom.clone(), *cap));
        proof {
            assert(owner_map@.drop_first() =~= before);
            assert(caps@.take(i + 1).drop_last() =~= caps@.take(i as int));
        }
        i += 1;
    }
    assert(caps@.take(caps.len() as int) =~= caps@);
    owner_map
}

/// Makes the table of tables of `balances`: a later pair replaces an
/// earlier one with the same key.
pub fn balances_to_map(balances: &[(&String, &[(&String, &u128)])]) -> (res: Vec<
    (String, Vec<(String, u128)>),
>)
    ensures
        ledgers_view(res@) == ledgers_put(balances@),
{
    let mut balances_map: Vec<(String, Vec<(String, u128)>)> = Vec::new();
    let mut i: usize = 0;
    while i < balances.len()
        invariant
            i <= balances.len(),
            ledgers_view(balances_map@) == ledgers_put(balances@.take(i as int)),
        decreases balances.len() - i,
    {
        let ghost before = balances_map@;
        let (contract_addr, accounts) = balances[i];
        let contract_balances_map = _caps_to_map(accounts);
        balances_map.insert(0, (contract_addr.clone(), contract_balances_map));
        proof {
            assert(balances_map@.drop_first() =~= before);
            assert(balances@.take(i + 1).drop_last() =~= balances@.take(i as int));
        }
        i += 1;
    }
    assert(balances@.take(balances.len() as int) =~= balances@);
    balances_map
}

/// A tax rate and, for each denomination, the most that is taxed. The rate
/// is a fixed-point number with eighteen decimal places, held as the
/// integer that counts its units of 10^-18.
#[derive(Debug, Clone, PartialEq, Eq)]
pub struct TaxQuerier {
    rate: u128,
    caps: Vec<(String, u128)>,
}

impl TaxQuerier {
    /// The caps, by denomination.
    pub closed spec fn caps(&self) -> Map<Seq<char>, u128> {
        amounts_view(self.caps@)
    }

    /// The rate.
    pub closed spec fn rate(&self) -> u128 {
        self.rate
    }

    /// A tax table with the given rate and caps.
    pub fn _new(rate: u128, caps: &[(&String, &u128)]) -> (res: Self)
        ensures
            res.rate() == rate,
            res.caps() == amounts_put(caps@),
    {
        TaxQuerier { rate, caps: _caps_to_map(caps) }
    }
}

impl Default for TaxQuerier {
    /// The tax table with a rate of zero and no cap.
    fn default() -> (res: Self)
        ensures
            res.rate() == 0,
            res.caps() == Map::<Seq<char>, u128>::empty(),
    {
        TaxQuerier { rate: 0, caps: Vec::new() }
    }
}

/// A token ledger for each of several token contracts: who holds how much.
#[derive(Debug, Clone, PartialEq, Eq)]
pub struct TokenQuerier {
    balances: Vec<(String, Vec<(String, u128)>)>,
}

impl View for TokenQuerier {
    type V = Map<Seq<char>, Map<Seq<char>, u128>>;

    closed spec fn view(&self) -> Map<Seq<char>, Map<Seq<char>, u128>> {
        ledgers_view(self.balances@)
    }
}

impl TokenQuerier {
    /// The balance that the ledger of `token_addr` has for `addr`: zero
    /// where the ledger or the holder is not known.
    pub open spec fn balance(&self, token_addr: Seq<char>, addr: Seq<char>) -> u128 {
        if self@.contains_key(token_addr) {
            amount_or_zero(self@[token_addr], addr)
        } else {
            0
        }
    }

    /// The ledgers with the given balances.
    pub fn new(balances: &[(&String, &[(&String, &u128)])]) -> (res: Self)
        ensures
            res@ == ledgers_put(balances@),
    {
        TokenQuerier { balances: balances_to_map(balances) }
    }

    /// The balance of `addr` on the ledger of `token_addr`, or zero.
    pub fn get_balance(&self, token_addr: &str, addr: &str) -> (res: u128)
        ensures
            res == self.balance(token_addr@, addr@),
    {
        let contract_balances = find_ledger(&self.balances, &String::from_str(token_addr));
        match contract_balances {
            Some(balances) => match find_amount(balances, &String::from_str(addr)) {
                Some(balance) => *balance,
                None => 0,
            },
            None => 0,
        }
    }
}

impl Default for TokenQuerier {
    /// No ledger at all: every balance is zero.
    fn default() -> (res: Self)
        ensures
            res@ == Map::<Seq<char>, Map<Seq<char>, u128>>::empty(),
    {
        TokenQuerier { balances: Vec::new() }
    }
}

/// The total that is bonded in a vault.
#[derive(Debug, Clone, PartialEq, Eq)]
pub struct VaultStateQuerier {
    total_bond_amount: u128,
}

impl VaultStateQuerier {
    /// The bonded total.
    pub closed spec fn total_bond_amount(&self) -> u128 {
        self.total_bond_amount
    }

    /// A vault with the given bonded total.
    pub fn new(total_bond_amount: &u128) -> (res: Self)
        ensures
            res.total_bond_amount() == *total_bond_amount,
    {
        VaultStateQuerier { total_bond_amount: *total_bond_amount }
    }
}

impl Default for VaultStateQuerier {
    /// A vault in which nothing is bonded.
    fn default() -> (res: Self)
        ensures
            res.total_bond_amount() == 0,
    {
        VaultStateQuerier { total_bond_amount: 0 }
    }
}

/// The boost of each address.
#[derive(Debug, Clone, PartialEq, Eq)]
pub struct BoostQuerier {
    /// address to boost amount
    pub boost_map: Vec<(String, u128)>,
}

impl BoostQuerier {
    /// The boost of `addr`, or zero where it has none. Never an error.
    pub fn get_boost(&self, addr: &String) -> (res: Result<u128, String>)
        ensures
            res matches Ok(boost) && boost == amount_or_zero(amounts_view(self.boost_map@), addr@),
    {
        match find_amount(&self.boost_map, addr) {
            Some(boost) => Ok(*boost),
            None => Ok(0),
        }
    }
}

impl Default for BoostQuerier {
    /// No boost for anyone.
    fn default() -> (res: Self)
        ensures
            res.boost_map@ == Seq::<(String, u128)>::empty(),
    {
        BoostQuerier { boost_map: Vec::new() }
    }
}

} // verus!
