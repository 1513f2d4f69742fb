//! Properties of the ledger that span its operations.
use vstd::prelude::*;
use crate::token::{Approval, Erc20, Erc20Model, Error, Event, Transfer};
use crate::{AccountId, Balance};

verus! {

/// A new ledger reports exactly the name, symbol, decimals and total
/// supply it was created with, gives its creator the whole supply, every
/// other account a zero balance, no allowances, and records one `Transfer`
/// event that creates the supply.
pub proof fn law_new_ledger(
    owner: AccountId,
    supply: Balance,
    name: Seq<char>,
    symbol: Seq<char>,
    decimals: u8,
    other: AccountId,
    spender: AccountId,
)
    ensures
        ({
            let m = Erc20Model::initial(owner, supply, name, symbol, decimals);
            &&& m.balance_of(owner) == supply
            &&& other != owner ==> m.balance_of(other) == 0
            &&& m.allowance(other, spender) == 0
            &&& m.total_supply == supply
            &&& m.name == name
            &&& m.symbol == symbol
            &&& m.decimals == decimals
            &&& m.events == seq![Event::Transfer(Transfer { from: None, to: Some(owner), value: supply })]
        }),
{
}

/// No operation changes the total supply, the name, the symbol or the
/// decimals.
pub proof fn law_supply_never_changes(
    m: Erc20Model,
    caller: AccountId,
    from: AccountId,
    to: AccountId,
    value: Balance,
)
    ensures
        m.transfer_outcome(from, to, value).0.total_supply == m.total_supply,
        m.transfer_from_outcome(caller, from, to, value).0.total_supply == m.total_supply,
        m.approve_outcome(from, to, value).total_supply == m.total_supply,
        m.transfer_outcome(from, to, value).0.name == m.name,
        m.transfer_outcome(from, to, value).0.symbol == m.symbol,
        m.transfer_outcome(from, to, value).0.decimals == m.decimals,
        m.transfer_from_outcome(caller, from, to, value).0.name == m.name,
        m.transfer_from_outcome(caller, from, to, value).0.decimals == m.decimals,
        m.approve_outcome(from, to, value).name == m.name,
        m.transfer_from_outcome(caller, from, to, value).0.symbol == m.symbol,
        m.approve_outcome(from, to, value).symbol == m.symbol,
        m.approve_outcome(from, to, value).decimals == m.decimals,
{
}

/// A transfer succeeds exactly when the sender holds at least the amount.
/// Then it takes `value` from the sender, gives it to the receiver, leaves
/// every other balance and all allowances as they were, and records one
/// `Transfer` event. A transfer to oneself changes no balance.
pub proof fn law_transfer_moves_value(
    token: &Erc20,
    from: AccountId,
    to: AccountId,
    value: Balance,
    other: AccountId,
)
    requires
        token.wf(),
    ensures
        ({
            let m = token@;
            let (after, result) = m.transfer_outcome(from, to, value);
            &&& (result is Ok <==> value <= m.balance_of(from))
            &&& result is Ok && from != to ==> {
                &&& after.balance_of(from) == m.balance_of(from) - value
                &&& after.balance_of(to) == m.balance_of(to) + value
            }
            &&& result is Ok && from == to ==> after.balance_of(from) == m.balance_of(from)
            &&& other != from && other != to ==> after.balance_of(other) == m.balance_of(other)
            &&& after.allowances == m.allowances
            &&& result is Ok ==> after.events == m.events.push(
                Event::Transfer(Transfer { from: Some(from), to: Some(to), value }),
            )
        }),
{
    token.lemma_supply_conserved(from, to);
}

/// A refused transfer changes nothing, records no event, and reports
/// `InsufficientBalance`.
pub proof fn law_failed_transfer_changes_nothing(
    m: Erc20Model,
    from: AccountId,
    to: AccountId,
    value: Balance,
)
    ensures
        m.transfer_outcome(from, to, value).1 is Err ==> {
            &&& m.transfer_outcome(from, to, value).0 == m
            &&& m.transfer_outcome(from, to, value).1 == Err::<(), Error>(
                Error::InsufficientBalance,
            )
        },
{
}

/// A refused `transfer_from` changes nothing: balances, allowances and
/// events stay as they were. It reports `InsufficientAllowance` when the
/// allowance is short, and otherwise `InsufficientBalance`.
pub proof fn law_failed_transfer_from_changes_nothing(
    m: Erc20Model,
    caller: AccountId,
    from: AccountId,
    to: AccountId,
    value: Balance,
)
    ensures
        ({
            let (after, result) = m.transfer_from_outcome(caller, from, to, value);
            &&& result is Err ==> after == m
            &&& m.allowance(from, caller) < value ==> result == Err::<(), Error>(
                Error::InsufficientAllowance,
            )
            &&& value <= m.allowance(from, caller) && m.balance_of(from) < value ==> result
                == Err::<(), Error>(Error::InsufficientBalance)
        }),
{
}

/// `transfer_from` succeeds exactly when both the allowance that `from`
/// gave the caller and the balance of `from` cover the amount. Then it
/// moves the tokens as a transfer does and lowers that allowance by the
/// amount, leaving every other allowance as it was.
pub proof fn law_transfer_from_spends_allowance(
    token: &Erc20,
    caller: AccountId,
    from: AccountId,
    to: AccountId,
    value: Balance,
    owner: AccountId,
    spender: AccountId,
)
    requires
        token.wf(),
    ensures
        ({
            let m = token@;
            let (after, result) = m.transfer_from_outcome(caller, from, to, value);
            &&& (result is Ok <==> value <= m.allowance(from, caller) && value <= m.balance_of(
                from,
            ))
            &&& result is Ok ==> {
                &&& after.allowance(from, caller) == m.allowance(from, caller) - value
                &&& (owner, spender) != (from, caller) ==> after.allowance(owner, spender)
                    == m.allowance(owner, spender)
                &&& after.balances == m.transfer_outcome(from, to, value).0.balances
                &&& after.events == m.transfer_outcome(from, to, value).0.events
            }
        }),
{
    token.lemma_supply_conserved(from, to);
}

/// An approval sets the allowance of the pair to exactly `value`,
/// whatever it was, leaves balances and every other allowance as they
/// were, and records one `Approval` event.
pub proof fn law_approve_sets_allowance(
    m: Erc20Model,
    owner: AccountId,
    spender: AccountId,
    value: Balance,
    other_owner: AccountId,
    other_spender: AccountId,
)
    ensures
        ({
            let after = m.approve_outcome(owner, spender, value);
            &&& after.allowance(owner, spender) == value
            &&& (other_owner, other_spender) != (owner, spender) ==> after.allowance(
                other_owner,
                other_spender,
            ) == m.allowance(other_owner, other_spender)
            &&& after.balances == m.balances
            &&& after.events == m.events.push(
                Event::Approval(Approval { owner, spender, value }),
            )
        }),
{
}

/// Sending tokens and sending the same amount back restores every
/// account's balance; the way back cannot be refused.
pub proof fn law_transfer_round_trip(
    token: &Erc20,
    a: AccountId,
    b: AccountId,
    value: Balance,
    any: AccountId,
)
    requires
        token.wf(),
        token@.transfer_outcome(a, b, value).1 is Ok,
    ensures
        ({
            let there = token@.transfer_outcome(a, b, value).0;
            let back = there.transfer_outcome(b, a, value);
            &&& back.1 is Ok
            &&& back.0.balance_of(any) == token@.balance_of(any)
        }),
{
    token.lemma_supply_conserved(a, b);
}

/// One request to the ledger, with the account that makes it.
pub enum Request {
    /// `from` sends `value` tokens to `to`.
    Transfer { from: AccountId, to: AccountId, value: Balance },
    /// `owner` allows `spender` to withdraw up to `value`.
    Approve { owner: AccountId, spender: AccountId, value: Balance },
    /// `caller` moves `value` tokens from `from` to `to` on an allowance.
    TransferFrom { caller: AccountId, from: AccountId, to: AccountId, value: Balance },
}

/// The ledger after one request.
pub open spec fn apply(m: Erc20Model, request: Request) -> Erc20Model {
    match request {
        Request::Transfer { from, to, value } => m.transfer_outcome(from, to, value).0,
        Request::Approve { owner, spender, value } => m.approve_outcome(owner, spender, value),
        Request::TransferFrom { caller, from, to, value } => m.transfer_from_outcome(
            caller,
            from,
            to,
            value,
        ).0,
    }
}

/// The ledger after a sequence of requests, made in order.
pub open spec fn run(m: Erc20Model, requests: Seq<Request>) -> Erc20Model
    decreases requests.len(),
{
    if requests.len() == 0 {
        m
    } else {
        apply(run(m, requests.drop_last()), requests.last())
    }
}

/// The sum of the amounts that `spender` withdrew from `owner` with
/// successful `TransferFrom` requests in a sequence of requests.
pub open spec fn withdrawn(
    m: Erc20Model,
    requests: Seq<Request>,
    owner: AccountId,
    spender: AccountId,
) -> int
    decreases requests.len(),
{
    if requests.len() == 0 {
        0
    } else {
        let before = run(m, requests.drop_last());
        let earlier = withdrawn(m, requests.drop_last(), owner, spender);
        match requests.last() {
            Request::TransferFrom { caller, from, to, value } => {
                if caller == spender && from == owner && before.transfer_from_outcome(
                    caller,
                    from,
                    to,
                    value,
                ).1 is Ok {
                    earlier + value
                } else {
                    earlier
                }
            },
            _ => earlier,
        }
    }
}

/// The request is a new approval by `owner` for `spender`.
pub open spec fn reapproves(request: Request, owner: AccountId, spender: AccountId) -> bool {
    request matches Request::Approve { owner: o, spender: s, .. } && o == owner && s == spender
}

/// After `owner` approved `value` for `spender`, and as long as `owner`
/// does not approve `spender` again, the successful withdrawals of
/// `spender` from `owner` add up to at most `value`, and the allowance left
/// is `value` minus what was withdrawn, after every request.
pub proof fn law_allowance_bounds_withdrawals(
    m: Erc20Model,
    owner: AccountId,
    spender: AccountId,
    value: Balance,
    requests: Seq<Request>,
)
    requires
        forall|i: int| 0 <= i < requests.len() ==> !reapproves(#[trigger] requests[i], owner, spender),
    ensures
        ({
            let approved = m.approve_outcome(owner, spender, value);
            &&& withdrawn(approved, requests, owner, spender) <= value
            &&& run(approved, requests).allowance(owner, spender) == value - withdrawn(
                approved,
                requests,
                owner,
                spender,
            )
        }),
    decreases requests.len(),
{
    let approved = m.approve_outcome(owner, spender, value);
    if requests.len() > 0 {
        let earlier = requests.drop_last();
        assert forall|i: int| 0 <= i < earlier.len() implies !reapproves(
            #[trigger] earlier[i],
            owner,
            spender,
        ) by {
            assert(earlier[i] == requests[i]);
        }
        law_allowance_bounds_withdrawals(m, owner, spender, value, earlier);
        assert(!reapproves(requests[requests.len() - 1], owner, spender));
    }
}

} // verus!
