//! The token ledger: balances, allowances, and the events of each change.
use vstd::prelude::*;
use crate::table::{amount_in, entries_map, entries_sum, unique_keys, Table};
use crate::{AccountId, Balance};

verus! {

/// The errors that the ledger's operations report.
#[derive(Debug, Clone, Copy, PartialEq, Eq)]
pub enum Error {
    /// Returned if not enough balance to fulfill a request is available.
    InsufficientBalance,
    /// Returned if not enough allowance to fulfill a request is available.
    InsufficientAllowance,
}

/// Tokens moved from one account to another; `from` is `None` where the
/// tokens were created.
#[derive(Debug, Clone, Copy, PartialEq, Eq)]
pub struct Transfer {
    pub from: Option<AccountId>,
    pub to: Option<AccountId>,
    pub value: Balance,
}

/// An owner allowed a spender to withdraw up to `value` of its tokens.
#[derive(Debug, Clone, Copy, PartialEq, Eq)]
pub struct Approval {
    pub owner: AccountId,
    pub spender: AccountId,
    pub value: Balance,
}

/// An event that the ledger records for the host to publish.
#[derive(Debug, Clone, Copy, PartialEq, Eq)]
pub enum Event {
    Transfer(Transfer),
    Approval(Approval),
}

/// What a ledger holds, as mathematical values.
///
/// `balances` and `allowances` hold every key that was ever written; a key
/// that was never written reads as zero.
pub struct Erc20Model {
    pub name: Seq<char>,
    pub symbol: Seq<char>,
    pub decimals: u8,
    pub total_supply: Balance,
    pub balances: Map<AccountId, Balance>,
    pub allowances: Map<(AccountId, AccountId), Balance>,
    pub events: Seq<Event>,
}

impl Erc20Model {
    /// The ledger right after `owner` created it with `supply` tokens.
    pub open spec fn initial(
        owner: AccountId,
        supply: Balance,
        name: Seq<char>,
        symbol: Seq<char>,
        decimals: u8,
    ) -> Erc20Model {
        Erc20Model {
            name,
            symbol,
            decimals,
            total_supply: supply,
            balances: Map::<AccountId, Balance>::empty().insert(owner, supply),
            allowances: Map::<(AccountId, AccountId), Balance>::empty(),
            events: seq![Event::Transfer(Transfer { from: None, to: Some(owner), value: supply })],
        }
    }

    /// The balance of `owner`; zero for an account never written.
    pub open spec fn balance_of(self, owner: AccountId) -> Balance {
        amount_in(self.balances, owner)
    }

    /// How much `spender` may still withdraw from `owner`.
    pub open spec fn allowance(self, owner: AccountId, spender: AccountId) -> Balance {
        amount_in(self.allowances, (owner, spender))
    }

    /// The ledger with its balances replaced.
    pub open spec fn with_balances(self, balances: Map<AccountId, Balance>) -> Erc20Model {
        Erc20Model { balances, ..self }
    }

    /// The ledger with its allowances replaced.
    pub open spec fn with_allowances(
        self,
        allowances: Map<(AccountId, AccountId), Balance>,
    ) -> Erc20Model {
        Erc20Model { allowances, ..self }
    }

    /// The ledger with one more event recorded.
    pub open spec fn with_event(self, event: Event) -> Erc20Model {
        Erc20Model { events: self.events.push(event), ..self }
    }

    /// Moving `value` tokens from `from` to `to`: the new ledger and the
    /// result. The balance of `from` is written first, then that of `to`,
    /// read after the first write.
    pub open spec fn transfer_outcome(self, from: AccountId, to: AccountId, value: Balance) -> (
        Erc20Model,
        Result<(), Error>,
    ) {
        if self.balance_of(from) < value {
            (self, Err(Error::InsufficientBalance))
        } else {
            let debited = self.balances.insert(from, (self.balance_of(from) - value) as Balance);
            let credited = debited.insert(to, (amount_in(debited, to) + value) as Balance);
            (
                self.with_balances(credited).with_event(
                    Event::Transfer(Transfer { from: Some(from), to: Some(to), value }),
                ),
                Ok(()),
            )
        }
    }

    /// `owner` allowing `spender` to withdraw up to `value`.
    pub open spec fn approve_outcome(
        self,
        owner: AccountId,
        spender: AccountId,
        value: Balance,
    ) -> Erc20Model {
        self.with_allowances(self.allowances.insert((owner, spender), value)).with_event(
            Event::Approval(Approval { owner, spender, value }),
        )
    }

    /// `caller` moving `value` tokens from `from` to `to` on the allowance
    /// that `from` gave it: the new ledger and the result.
    pub open spec fn transfer_from_outcome(
        self,
        caller: AccountId,
        from: AccountId,
        to: AccountId,
        value: Balance,
    ) -> (Erc20Model, Result<(), Error>) {
        let allowance: Balance = self.allowance(from, caller);
        if allowance < value {
            (self, Err(Error::InsufficientAllowance))
        } else {
            let (moved, result) = self.transfer_outcome(from, to, value);
            match result {
                Err(e) => (self, Err(e)),
                Ok(()) => (
                    moved.with_allowances(
                        moved.allowances.insert((from, caller), (allowance - value) as Balance),
                    ),
                    Ok(()),
                ),
            }
        }
    }
}

/// A ledger spelled out as plain values, for storing it and loading it
/// again.
pub struct Erc20Parts {
    pub name: String,
    pub symbol: String,
    pub decimals: u8,
    pub total_supply: Balance,
    /// Each account's balance, each account at most once.
    pub balances: Vec<(AccountId, Balance)>,
    /// Each `(owner, spender)` pair's allowance, each pair at most once.
    pub allowances: Vec<((AccountId, AccountId), Balance)>,
}

impl Erc20Parts {
    /// The parts describe a consistent ledger: no account or pair occurs
    /// twice, and the balances add up to the total supply.
    pub open spec fn valid(&self) -> bool {
        &&& unique_keys(self.balances@)
        &&& unique_keys(self.allowances@)
        &&& entries_sum(self.balances@) == self.total_supply as int
    }

    /// The ledger that the parts describe, with no events recorded.
    pub open spec fn model(&self) -> Erc20Model {
        Erc20Model {
            name: self.name@,
            symbol: self.symbol@,
            decimals: self.decimals,
            total_supply: self.total_supply,
            balances: entries_map(self.balances@),
            allowances: entries_map(self.allowances@),
            events: Seq::empty(),
        }
    }
}

/// An ERC-20 token ledger.
pub struct Erc20 {
    /// Name of the token.
    name: String,
    /// Symbol of the token.
    symbol: String,
    /// Decimals of the token.
    decimal: u8,
    /// Total token supply.
    total_supply: Balance,
    /// Amount of tokens that each owner holds.
    balances: Table<AccountId>,
    /// Amount that a spender may withdraw from an owner, keyed by
    /// `(owner, spender)`.
    allowances: Table<(AccountId, AccountId)>,
    /// Events recorded and not yet handed out.
    events: Vec<Event>,
}

impl View for Erc20 {
    type V = Erc20Model;

    closed spec fn view(&self) -> Erc20Model {
        Erc20Model {
            name: self.name@,
            symbol: self.symbol@,
            decimals: self.decimal,
            total_supply: self.total_supply,
            balances: self.balances@,
            allowances: self.allowances@,
            events: self.events@,
        }
    }
}

impl Erc20 {
    /// The ledger is consistent: its tables hold no key twice, and the
    /// balances of all accounts add up to the total supply.
    pub closed spec fn wf(&self) -> bool {
        &&& self.balances.wf()
        &&& self.allowances.wf()
        &&& self.balances.total() == self.total_supply as int
    }

    /// The sum of the balances of all accounts.
    pub closed spec fn balance_sum(&self) -> int {
        self.balances.total()
    }

    /// In a consistent ledger the balances of all accounts add up to the
    /// total supply; so no balance exceeds it, nor do the balances of two
    /// distinct accounts together.
    pub proof fn lemma_supply_conserved(&self, a: AccountId, b: AccountId)
        requires
            self.wf(),
        ensures
            self.balance_sum() == self@.total_supply as int,
            self@.balance_of(a) <= self@.total_supply,
            a != b ==> self@.balance_of(a) + self@.balance_of(b) <= self@.total_supply,
    {
        self.balances.lemma_total_bounds(a, b);
    }

    /// Creates a ledger in which `owner` holds all `total_supply` tokens.
    pub fn new_as(
        owner: AccountId,
        total_supply: Balance,
        name: &str,
        symbol: &str,
        decimal: u8,
    ) -> (token: Self)
        ensures
            token.wf(),
            token@ == Erc20Model::initial(owner, total_supply, name@, symbol@, decimal),
            token@.name == name@,
            token@.symbol == symbol@,
            token@.decimals == decimal,
            token@.total_supply == total_supply,
    {
        let mut balances = Table::new();
        balances.insert(owner, total_supply);
        let mut events = Vec::new();
        events.push(Event::Transfer(Transfer { from: None, to: Some(owner), value: total_supply }));
        let token = Erc20 {
            name: name.to_owned(),
            symbol: symbol.to_owned(),
            decimal,
            total_supply,
            balances,
            allowances: Table::new(),
            events,
        };
        assert(token@.events =~= seq![
            Event::Transfer(Transfer { from: None, to: Some(owner), value: total_supply }),
        ]);
        token
    }

    /// The ledger that `parts` describe, or `None` where they are not
    /// consistent.
    pub fn from_parts(parts: Erc20Parts) -> (token: Option<Self>)
        ensures
            token is Some <==> parts.valid(),
            token matches Some(t) ==> t.wf() && t@ == parts.model(),
    {
        let Erc20Parts { name, symbol, decimals, total_supply, balances, allowances } = parts;
        let balances = match Table::from_entries(balances) {
            Some(table) => table,
            None => {
                return None;
            },
        };
        let allowances = match Table::from_entries(allowances) {
            Some(table) => table,
            None => {
                return None;
            },
        };
        if !balances.total_is(total_supply) {
            return None;
        }
        Some(
            Erc20 {
                name,
                symbol,
                decimal: decimals,
                total_supply,
                balances,
                allowances,
                events: Vec::new(),
            },
        )
    }

    /// Spells the ledger out as plain values, and hands out the events
    /// recorded and not yet taken, oldest first.
    pub fn into_parts(self) -> (parts_and_events: (Erc20Parts, Vec<Event>))
        requires
            self.wf(),
        ensures
            parts_and_events.0.valid(),
            parts_and_events.0.model() == (Erc20Model { events: Seq::empty(), ..self@ }),
            parts_and_events.1@ == self@.events,
    {
        let Erc20 { name, symbol, decimal, total_supply, balances, allowances, events } = self;
        let parts = Erc20Parts {
            name,
            symbol,
            decimals: decimal,
            total_supply,
            balances: balances.into_entries(),
            allowances: allowances.into_entries(),
        };
        (parts, events)
    }

    /// The name of the token.
    pub fn name(&self) -> (name: String)
        ensures
            name@ == self@.name,
    {
        self.name.clone()
    }

    /// The symbol of the token.
    pub fn symbol(&self) -> (symbol: String)
        ensures
            symbol@ == self@.symbol,
    {
        self.symbol.clone()
    }

    /// The decimals of the token.
    pub fn decimals(&self) -> (decimals: u8)
        ensures
            decimals == self@.decimals,
    {
        self.decimal
    }

    /// The total token supply.
    pub fn total_supply(&self) -> (supply: Balance)
        ensures
            supply == self@.total_supply,
    {
        self.total_supply
    }

    /// The balance of `owner`; zero for an account that never held tokens.
    pub fn balance_of(&self, owner: AccountId) -> (balance: Balance)
        requires
            self.wf(),
        ensures
            balance == self@.balance_of(owner),
    {
        self.balance_of_impl(&owner)
    }

    fn balance_of_impl(&self, owner: &AccountId) -> (balance: Balance)
        requires
            self.balances.wf(),
        ensures
            balance == self@.balance_of(*owner),
    {
        self.balances.get(owner).unwrap_or(0)
    }

    /// How much `spender` may still withdraw from `owner`.
    pub fn allowance(&self, owner: AccountId, spender: AccountId) -> (allowance: Balance)
        requires
            self.wf(),
        ensures
            allowance == self@.allowance(owner, spender),
    {
        self.allowance_impl(&owner, &spender)
    }

    fn allowance_impl(&self, owner: &AccountId, spender: &AccountId) -> (allowance: Balance)
        requires
            self.allowances.wf(),
        ensures
            allowance == self@.allowance(*owner, *spender),
    {
        self.allowances.get(&(*owner, *spender)).unwrap_or(0)
    }

    /// `owner` allows `spender` to withdraw up to `value` of its tokens,
    /// replacing any earlier allowance.
    pub fn approve_as(&mut self, owner: AccountId, spender: AccountId, value: Balance)
        requires
            old(self).wf(),
        ensures
            final(self).wf(),
            final(self)@ == old(self)@.approve_outcome(owner, spender, value),
    {
        self.allowances.insert((owner, spender), value);
        self.events.push(Event::Approval(Approval { owner, spender, value }));
    }

    /// `caller` moves `value` tokens from `from` to `to`, using the
    /// allowance that `from` gave it.
    pub fn transfer_from_as(
        &mut self,
        caller: AccountId,
        from: AccountId,
        to: AccountId,
        value: Balance,
    ) -> (result: Result<(), Error>)
        requires
            old(self).wf(),
        ensures
            final(self).wf(),
            (final(self)@, result) == old(self)@.transfer_from_outcome(caller, from, to, value),
    {
        let allowance: Balance = self.allowance_impl(&from, &caller);
        if allowance < value {
            return Err(Error::InsufficientAllowance);
        }
        match self.transfer_from_to(&from, &to, value) {
            Err(e) => {
                return Err(e);
            },
            Ok(()) => {},
        }
        self.allowances.insert((from, caller), allowance - value);
        Ok(())
    }

    /// Moves `value` tokens from `from` to `to`.
    pub fn transfer_from_to(&mut self, from: &AccountId, to: &AccountId, value: Balance) -> (result:
        Result<(), Error>)
        requires
            old(self).wf(),
        ensures
            final(self).wf(),
            (final(self)@, result) == old(self)@.transfer_outcome(*from, *to, value),
    {
        let from_balance: Balance = self.balance_of_impl(from);
        if from_balance < value {
            return Err(Error::InsufficientBalance);
        }
        self.balances.insert(*from, from_balance - value);
        let to_balance: Balance = self.balance_of_impl(to);
        proof {
            self.balances.lemma_total_bounds(*to, *to);
        }
        self.balances.insert(*to, to_balance.checked_add(value).unwrap());
        self.events.push(Event::Transfer(Transfer { from: Some(*from), to: Some(*to), value }));
        Ok(())
    }

    /// The events recorded and not yet taken, oldest first.
    pub fn events(&self) -> (events: &Vec<Event>)
        ensures
            events@ == self@.events,
    {
        &self.events
    }

    /// Hands out the recorded events, oldest first, and forgets them.
    pub fn take_events(&mut self) -> (events: Vec<Event>)
        requires
            old(self).wf(),
        ensures
            final(self).wf(),
            events@ == old(self)@.events,
            final(self)@ == (Erc20Model { events: Seq::empty(), ..old(self)@ }),
    {
        let mut taken = Vec::new();
        std::mem::swap(&mut taken, &mut self.events);
        taken
    }
}

} // verus!
