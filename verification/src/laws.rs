//! What holds of an auction over any sequence of calls.

use vstd::prelude::*;
use crate::address::Address;
use crate::auction::{
    create_rejection, is_created_auction, refund_order, Auction, AuctionError, AuctionStatus,
    CreateAuction,
};
use crate::fee::lemma_fee_split_exact;
use crate::ledger::{
    credits_to, lemma_credits_short, lemma_net_effect_short, net_effect, Account, TransferOrder,
};

verus! {

/// One call on an existing auction, with the caller and the time it reads.
pub enum Call {
    Bid { bidder: Address, amount: u64, now: i64 },
    Settle { now: i64 },
    Cancel { caller: Address },
}

/// The error with which `call` is rejected in state `auction`, if it is.
pub open spec fn rejection(auction: Auction, call: Call) -> Option<AuctionError> {
    match call {
        Call::Bid { bidder, amount, now } => auction.bid_rejection(bidder, amount, now),
        Call::Settle { now } => auction.settle_rejection(now),
        Call::Cancel { caller } => auction.cancel_rejection(caller),
    }
}

/// The record after `call`: changed if the call is accepted, as it was if
/// not.
pub open spec fn state_after_call(auction: Auction, call: Call) -> Auction {
    if rejection(auction, call) is Some {
        auction
    } else {
        match call {
            Call::Bid { bidder, amount, now } => auction.after_bid(bidder, amount),
            Call::Settle { now } => auction.after_settle(),
            Call::Cancel { caller } => auction.after_cancel(),
        }
    }
}

/// The transfers that `call` orders: none if it is rejected.
pub open spec fn transfers_of_call(auction: Auction, call: Call) -> Seq<TransferOrder> {
    if rejection(auction, call) is Some {
        Seq::empty()
    } else {
        match call {
            Call::Bid { bidder, amount, now } => auction.bid_transfers(bidder, amount),
            Call::Settle { now } => auction.settle_transfers(),
            Call::Cancel { caller } => auction.cancel_transfers(),
        }
    }
}

/// The record after `calls`, made one after another.
pub open spec fn state_after(auction: Auction, calls: Seq<Call>) -> Auction
    decreases calls.len(),
{
    if calls.len() == 0 {
        auction
    } else {
        state_after_call(state_after(auction, calls.drop_last()), calls.last())
    }
}

/// The balance of `account` after `calls`, where it was `balance` before
/// them and the ledger carried out every transfer ordered.
pub open spec fn balance_after(
    auction: Auction,
    account: Account,
    balance: int,
    calls: Seq<Call>,
) -> int
    decreases calls.len(),
{
    if calls.len() == 0 {
        balance
    } else {
        balance_after(auction, account, balance, calls.drop_last()) + net_effect(
            transfers_of_call(state_after(auction, calls.drop_last()), calls.last()),
            account,
        )
    }
}

/// The balance of the bid escrow after `calls`, where it was `balance`
/// before them.
pub open spec fn escrow_after(auction: Auction, balance: int, calls: Seq<Call>) -> int {
    balance_after(auction, Account::BidEscrow, balance, calls)
}

/// The number of asset units in the asset escrow after `calls`, where it was
/// `units` before them.
pub open spec fn asset_escrow_after(auction: Auction, units: int, calls: Seq<Call>) -> int {
    balance_after(auction, Account::AssetEscrow, units, calls)
}

/// No call breaks the record's invariant.
pub proof fn lemma_call_keeps_well_formed(auction: Auction, call: Call)
    requires
        auction.well_formed(),
    ensures
        state_after_call(auction, call).well_formed(),
{
}

/// Every state reached from a well-formed record is well formed: it has a
/// highest bidder exactly when it has a bid.
pub proof fn lemma_reachable_states_well_formed(auction: Auction, calls: Seq<Call>)
    requires
        auction.well_formed(),
    ensures
        state_after(auction, calls).well_formed(),
        state_after(auction, calls).current_bid == 0 <==> state_after(
            auction,
            calls,
        ).highest_bidder.is_null(),
    decreases calls.len(),
{
    if calls.len() > 0 {
        lemma_reachable_states_well_formed(auction, calls.drop_last());
        lemma_call_keeps_well_formed(state_after(auction, calls.drop_last()), calls.last());
    }
}

/// What one call does to the two escrows. On an active auction it adds to
/// the bid escrow the difference between the new standing bid and the old
/// one and leaves the asset in its escrow; a call that ends the auction
/// empties both.
pub proof fn lemma_call_escrow_effect(auction: Auction, call: Call)
    requires
        auction.status == AuctionStatus::Active,
    ensures
        state_after_call(auction, call).status == AuctionStatus::Active ==> {
            &&& auction.current_bid + net_effect(
                transfers_of_call(auction, call),
                Account::BidEscrow,
            ) == state_after_call(auction, call).current_bid
            &&& net_effect(transfers_of_call(auction, call), Account::AssetEscrow) == 0
        },
        state_after_call(auction, call).status.is_terminal() ==> {
            &&& auction.current_bid + net_effect(
                transfers_of_call(auction, call),
                Account::BidEscrow,
            ) == 0
            &&& net_effect(transfers_of_call(auction, call), Account::AssetEscrow) == -1
        },
{
    let orders = transfers_of_call(auction, call);
    if rejection(auction, call) is Some {
        assert(orders =~= Seq::<TransferOrder>::empty());
    } else {
        lemma_fee_split_exact(auction.current_bid as nat);
        if orders.len() == 1 {
            lemma_net_effect_short(orders[0], orders[0], orders[0], Account::BidEscrow);
            lemma_net_effect_short(orders[0], orders[0], orders[0], Account::AssetEscrow);
            assert(orders =~= seq![orders[0]]);
        } else if orders.len() == 2 {
            lemma_net_effect_short(orders[0], orders[1], orders[1], Account::BidEscrow);
            lemma_net_effect_short(orders[0], orders[1], orders[1], Account::AssetEscrow);
            assert(orders =~= seq![orders[0], orders[1]]);
        } else {
            lemma_net_effect_short(orders[0], orders[1], orders[2], Account::BidEscrow);
            lemma_net_effect_short(orders[0], orders[1], orders[2], Account::AssetEscrow);
            assert(orders =~= seq![orders[0], orders[1], orders[2]]);
        }
    }
}

/// The transfers of a call on an active auction can be carried out in their
/// order: after any number of them the bid escrow, which held the standing
/// bid, and the asset escrow, which held the asset, are not overdrawn.
pub proof fn lemma_escrows_never_overdrawn(auction: Auction, call: Call, done: int)
    requires
        auction.status == AuctionStatus::Active,
        0 <= done <= transfers_of_call(auction, call).len(),
    ensures
        auction.current_bid + net_effect(
            transfers_of_call(auction, call).subrange(0, done),
            Account::BidEscrow,
        ) >= 0,
        1 + net_effect(
            transfers_of_call(auction, call).subrange(0, done),
            Account::AssetEscrow,
        ) >= 0,
{
    let orders = transfers_of_call(auction, call);
    let carried = orders.subrange(0, done);
    if rejection(auction, call) is Some {
        assert(orders =~= Seq::<TransferOrder>::empty());
    } else {
        lemma_fee_split_exact(auction.current_bid as nat);
        if done == 1 {
            lemma_net_effect_short(orders[0], orders[0], orders[0], Account::BidEscrow);
            lemma_net_effect_short(orders[0], orders[0], orders[0], Account::AssetEscrow);
            assert(carried =~= seq![orders[0]]);
        } else if done == 2 {
            lemma_net_effect_short(orders[0], orders[1], orders[1], Account::BidEscrow);
            lemma_net_effect_short(orders[0], orders[1], orders[1], Account::AssetEscrow);
            assert(carried =~= seq![orders[0], orders[1]]);
        } else if done == 3 {
            lemma_net_effect_short(orders[0], orders[1], orders[2], Account::BidEscrow);
            lemma_net_effect_short(orders[0], orders[1], orders[2], Account::AssetEscrow);
            assert(carried =~= seq![orders[0], orders[1], orders[2]]);
        }
    }
}

/// A call on an auction that has ended orders no transfer.
pub proof fn lemma_terminal_escrow_untouched(auction: Auction, call: Call, account: Account)
    requires
        auction.status.is_terminal(),
    ensures
        net_effect(transfers_of_call(auction, call), account) == 0,
{
    lemma_terminal_rejects_every_call(auction, call);
    assert(transfers_of_call(auction, call) =~= Seq::<TransferOrder>::empty());
}

/// While an auction is active the bid escrow holds exactly the standing bid,
/// and once it has ended the escrow is empty: for an auction that starts
/// active with its standing bid in escrow, after any calls.
pub proof fn lemma_escrow_holds_current_bid(auction: Auction, calls: Seq<Call>)
    requires
        auction.status == AuctionStatus::Active,
    ensures
        state_after(auction, calls).status == AuctionStatus::Active ==> escrow_after(
            auction,
            auction.current_bid as int,
            calls,
        ) == state_after(auction, calls).current_bid,
        state_after(auction, calls).status.is_terminal() ==> escrow_after(
            auction,
            auction.current_bid as int,
            calls,
        ) == 0,
    decreases calls.len(),
{
    if calls.len() > 0 {
        let before = state_after(auction, calls.drop_last());
        lemma_escrow_holds_current_bid(auction, calls.drop_last());
        if before.status == AuctionStatus::Active {
            lemma_call_escrow_effect(before, calls.last());
        } else {
            lemma_terminal_rejects_every_call(before, calls.last());
            lemma_terminal_escrow_untouched(before, calls.last(), Account::BidEscrow);
        }
    }
}

/// While an auction is active the asset escrow holds the one asset unit, and
/// once it has ended the asset has left the escrow: for an auction that
/// starts active with the asset in escrow, after any calls.
pub proof fn lemma_asset_escrow_holds_the_asset(auction: Auction, calls: Seq<Call>)
    requires
        auction.status == AuctionStatus::Active,
    ensures
        state_after(auction, calls).status == AuctionStatus::Active ==> asset_escrow_after(
            auction,
            1,
            calls,
        ) == 1,
        state_after(auction, calls).status.is_terminal() ==> asset_escrow_after(
            auction,
            1,
            calls,
        ) == 0,
    decreases calls.len(),
{
    if calls.len() > 0 {
        let before = state_after(auction, calls.drop_last());
        lemma_asset_escrow_holds_the_asset(auction, calls.drop_last());
        if before.status == AuctionStatus::Active {
            lemma_call_escrow_effect(before, calls.last());
        } else {
            lemma_terminal_rejects_every_call(before, calls.last());
            lemma_terminal_escrow_untouched(before, calls.last(), Account::AssetEscrow);
        }
    }
}

/// From its creation on, whatever calls are made, an auction has a highest
/// bidder exactly when it has a bid, and while it is active its bid escrow,
/// empty at creation, holds exactly the standing bid and its asset escrow
/// holds the asset.
pub proof fn lemma_invariants_hold_from_creation(
    auction: Auction,
    ctx: CreateAuction,
    starting_price: u64,
    reserve_price: u64,
    duration_seconds: i64,
    now: i64,
    calls: Seq<Call>,
)
    requires
        create_rejection(duration_seconds, now) is None,
        is_created_auction(auction, ctx, starting_price, reserve_price, duration_seconds, now),
    ensures
        state_after(auction, calls).current_bid == 0 <==> state_after(
            auction,
            calls,
        ).highest_bidder.is_null(),
        state_after(auction, calls).status == AuctionStatus::Active ==> escrow_after(
            auction,
            0,
            calls,
        ) == state_after(auction, calls).current_bid,
        state_after(auction, calls).status == AuctionStatus::Active ==> asset_escrow_after(
            auction,
            1,
            calls,
        ) == 1,
{
    lemma_reachable_states_well_formed(auction, calls);
    lemma_escrow_holds_current_bid(auction, calls);
    lemma_asset_escrow_holds_the_asset(auction, calls);
}

/// An accepted bid raises the standing bid.
pub proof fn lemma_accepted_bid_raises(auction: Auction, bidder: Address, amount: u64, now: i64)
    requires
        auction.bid_rejection(bidder, amount, now) is None,
    ensures
        auction.after_bid(bidder, amount).current_bid > auction.current_bid,
{
}

/// The standing bid never decreases, whatever calls are made.
pub proof fn lemma_current_bid_never_decreases(auction: Auction, calls: Seq<Call>)
    ensures
        state_after(auction, calls).current_bid >= auction.current_bid,
    decreases calls.len(),
{
    if calls.len() > 0 {
        lemma_current_bid_never_decreases(auction, calls.drop_last());
    }
}

/// On an auction that is settled or cancelled every call is rejected and
/// changes nothing.
pub proof fn lemma_terminal_rejects_every_call(auction: Auction, call: Call)
    requires
        auction.status.is_terminal(),
    ensures
        rejection(auction, call) is Some,
        state_after_call(auction, call) == auction,
        transfers_of_call(auction, call) == Seq::<TransferOrder>::empty(),
{
}

/// An auction that is settled or cancelled stays as it is, whatever calls
/// are made.
pub proof fn lemma_terminal_state_is_final(auction: Auction, calls: Seq<Call>)
    requires
        auction.status.is_terminal(),
    ensures
        state_after(auction, calls) == auction,
    decreases calls.len(),
{
    if calls.len() > 0 {
        lemma_terminal_state_is_final(auction, calls.drop_last());
        lemma_terminal_rejects_every_call(auction, calls.last());
    }
}

/// The status of an auction only moves from active to settled or cancelled.
pub proof fn lemma_status_moves_forward(auction: Auction, call: Call)
    ensures
        state_after_call(auction, call).status != auction.status ==> auction.status
            == AuctionStatus::Active && state_after_call(auction, call).status.is_terminal(),
{
}

/// A bidder who is outbid is refunded once, and exactly the amount of the
/// bid that stood: of the transfers of the accepted bid, the first pays that
/// amount from the escrow to the bidder, and no other pays to that bidder.
pub proof fn lemma_outbid_bidder_refunded_once(
    auction: Auction,
    bidder: Address,
    amount: u64,
    now: i64,
)
    requires
        auction.current_bid > 0,
        auction.bid_rejection(bidder, amount, now) is None,
    ensures
        auction.bid_transfers(bidder, amount)[0] == refund_order(
            auction.highest_bidder,
            auction.current_bid,
        ),
        credits_to(
            auction.bid_transfers(bidder, amount),
            Account::PaymentHolding(auction.highest_bidder),
        ) == 1,
{
    let orders = auction.bid_transfers(bidder, amount);
    lemma_credits_short(orders[0], orders[1], Account::PaymentHolding(auction.highest_bidder));
    assert(orders =~= seq![orders[0], orders[1]]);
}

/// A bidder whose bid stands when the auction ends below its reserve is
/// refunded once, and exactly that bid: of the transfers of the settlement,
/// the first pays it from the escrow to the bidder, and no other pays to
/// that bidder.
pub proof fn lemma_losing_bidder_refunded_once(auction: Auction, now: i64)
    requires
        auction.current_bid > 0,
        !auction.reserve_met(),
        auction.settle_rejection(now) is None,
    ensures
        auction.settle_transfers()[0] == refund_order(auction.highest_bidder, auction.current_bid),
        credits_to(auction.settle_transfers(), Account::PaymentHolding(auction.highest_bidder))
            == 1,
{
    let orders = auction.settle_transfers();
    lemma_credits_short(orders[0], orders[1], Account::PaymentHolding(auction.highest_bidder));
    assert(orders =~= seq![orders[0], orders[1]]);
}

/// Where the reserve is met, the seller's payment and the fee together are
/// the winning bid, and the fee is the rate applied to it, rounded down.
pub proof fn lemma_sale_pays_out_winning_bid(auction: Auction)
    requires
        auction.reserve_met(),
    ensures
        auction.settle_transfers()[0].amount + auction.settle_transfers()[1].amount
            == auction.current_bid,
        auction.settle_transfers()[1].amount == (auction.current_bid * 250) / 10000,
{
    lemma_fee_split_exact(auction.current_bid as nat);
}

} // verus!
