//! Transfer orders against the value ledger, and what a sequence of them
//! does to the balances of the accounts it names.

use vstd::prelude::*;
use crate::address::Address;

verus! {

/// An account on the value ledger, named by its role in an auction.
#[derive(Clone, Copy, Debug, PartialEq, Eq)]
pub enum Account {
    /// The auction's custody account for the asset.
    AssetEscrow,
    /// The auction's custody account for the bid currency.
    BidEscrow,
    /// The account in which a party holds the asset.
    AssetHolding(Address),
    /// The account in which a party holds the bid currency.
    PaymentHolding(Address),
    /// The platform's fee account.
    Treasury,
}

/// An order to move `amount` units from one account to another.
#[derive(Clone, Copy, Debug, PartialEq, Eq)]
pub struct TransferOrder {
    pub from: Account,
    pub to: Account,
    pub amount: u64,
}

/// What one order adds to the balance of `account`.
pub open spec fn effect_on(order: TransferOrder, account: Account) -> int {
    (if order.to == account {
        order.amount as int
    } else {
        0
    }) - (if order.from == account {
        order.amount as int
    } else {
        0
    })
}

/// What carrying out `orders`, all of them, adds to the balance of `account`.
pub open spec fn net_effect(orders: Seq<TransferOrder>, account: Account) -> int
    decreases orders.len(),
{
    if orders.len() == 0 {
        0
    } else {
        net_effect(orders.drop_last(), account) + effect_on(orders.last(), account)
    }
}

/// How many of `orders` pay into `account`.
pub open spec fn credits_to(orders: Seq<TransferOrder>, account: Account) -> nat
    decreases orders.len(),
{
    if orders.len() == 0 {
        0
    } else {
        credits_to(orders.drop_last(), account) + (if orders.last().to == account {
            1nat
        } else {
            0nat
        })
    }
}

/// Appending an order adds its effect.
pub proof fn lemma_net_effect_push(orders: Seq<TransferOrder>, order: TransferOrder, account: Account)
    ensures
        net_effect(orders.push(order), account) == net_effect(orders, account) + effect_on(
            order,
            account,
        ),
        credits_to(orders.push(order), account) == credits_to(orders, account) + (if order.to
            == account {
            1nat
        } else {
            0nat
        }),
{
    assert(orders.push(order).drop_last() =~= orders);
    assert(orders.push(order).last() == order);
}

/// The effect of one, two and three orders, written out.
pub proof fn lemma_net_effect_short(
    first: TransferOrder,
    second: TransferOrder,
    third: TransferOrder,
    account: Account,
)
    ensures
        net_effect(seq![first], account) == effect_on(first, account),
        net_effect(seq![first, second], account) == effect_on(first, account) + effect_on(
            second,
            account,
        ),
        net_effect(seq![first, second, third], account) == effect_on(first, account) + effect_on(
            second,
            account,
        ) + effect_on(third, account),
{
    let none = Seq::<TransferOrder>::empty();
    lemma_net_effect_push(none, first, account);
    lemma_net_effect_push(seq![first], second, account);
    lemma_net_effect_push(seq![first, second], third, account);
    assert(none.push(first) =~= seq![first]);
    assert(seq![first].push(second) =~= seq![first, second]);
    assert(seq![first, second].push(third) =~= seq![first, second, third]);
}

/// The number of orders that pay into an account, among one and among two,
/// written out.
pub proof fn lemma_credits_short(first: TransferOrder, second: TransferOrder, account: Account)
    ensures
        credits_to(seq![first], account) == (if first.to == account {
            1nat
        } else {
            0nat
        }),
        credits_to(seq![first, second], account) == (if first.to == account {
            1nat
        } else {
            0nat
        }) + (if second.to == account {
            1nat
        } else {
            0nat
        }),
{
    let none = Seq::<TransferOrder>::empty();
    lemma_net_effect_push(none, first, account);
    lemma_net_effect_push(seq![first], second, account);
    assert(none.push(first) =~= seq![first]);
    assert(seq![first].push(second) =~= seq![first, second]);
}

impl TransferOrder {
    /// An order to move `amount` units from `from` to `to`.
    pub fn new(from: Account, to: Account, amount: u64) -> (r: TransferOrder)
        ensures
            r == (TransferOrder { from, to, amount }),
    {
        TransferOrder { from, to, amount }
    }
}

} // verus!
