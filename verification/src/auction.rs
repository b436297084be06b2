//! The auction record and its four transitions: create, bid, settle, cancel.
//!
//! A transition reads the record, the caller and the time, and either rejects
//! the call and leaves the record as it was, or updates the record and
//! returns the transfers that the ledger is to carry out, in order, and the
//! notification to append. The host applies all of it or none.

use vstd::prelude::*;
use crate::address::Address;
use crate::fee::{fee_of, seller_amount_of, split_proceeds};
use crate::ledger::{Account, TransferOrder};

verus! {

/// Where an auction stands. `Settled` and `Cancelled` are terminal.
#[derive(Clone, Copy, Debug, PartialEq, Eq, Structural)]
pub enum AuctionStatus {
    Active,
    Settled,
    Cancelled,
}

/// Why a call was rejected.
#[derive(Clone, Copy, Debug, PartialEq, Eq, Structural)]
pub enum AuctionError {
    /// The auction is settled or cancelled.
    AuctionNotActive,
    /// The end time has been reached.
    AuctionEnded,
    /// The end time has not been reached.
    AuctionNotEnded,
    /// The amount is zero or below the minimum bid.
    BidTooLow,
    /// A time or an amount does not fit its type.
    CalculationError,
    /// The caller may not make this call.
    Unauthorized,
    /// The auction has a bid and can only be settled.
    CannotCancelWithBids,
    /// The duration is not positive.
    InvalidDuration,
}

/// The persistent record of one auction.
#[derive(Clone, Copy, Debug, PartialEq, Eq)]
pub struct Auction {
    pub creator: Address,
    pub mint: Address,
    pub payment_mint: Address,
    pub starting_price: u64,
    pub reserve_price: u64,
    pub current_bid: u64,
    pub highest_bidder: Address,
    pub start_time: i64,
    pub end_time: i64,
    pub status: AuctionStatus,
    pub escrow_token_account: Address,
    pub bid_escrow: Address,
    pub bump: u8,
}

/// Notification of a new auction.
#[derive(Clone, Copy, Debug, PartialEq, Eq)]
pub struct AuctionCreated {
    pub mint: Address,
    pub creator: Address,
    pub starting_price: u64,
    pub reserve_price: u64,
    pub end_time: i64,
    pub payment_mint: Address,
}

/// Notification of an accepted bid.
#[derive(Clone, Copy, Debug, PartialEq, Eq)]
pub struct BidPlaced {
    pub mint: Address,
    pub bidder: Address,
    pub amount: u64,
    pub timestamp: i64,
}

/// Notification of a sale.
#[derive(Clone, Copy, Debug, PartialEq, Eq)]
pub struct AuctionSettled {
    pub mint: Address,
    pub winner: Address,
    pub price: u64,
    pub fee: u64,
}

/// Notification of an auction that ended without a sale.
#[derive(Clone, Debug, PartialEq, Eq)]
pub struct AuctionCancelled {
    pub mint: Address,
    pub reason: String,
}

/// The notification that a transition appends to the event log.
#[derive(Clone, Debug, PartialEq, Eq)]
pub enum AuctionEvent {
    Created(AuctionCreated),
    Bid(BidPlaced),
    Settled(AuctionSettled),
    Cancelled(AuctionCancelled),
}

/// What an accepted call asks of the host: the transfers, in the order in
/// which the ledger is to carry them out, and the notification.
#[derive(Clone, Debug, PartialEq, Eq)]
pub struct Outcome {
    pub transfers: Vec<TransferOrder>,
    pub event: AuctionEvent,
}

/// What `create_auction` reads of its caller and accounts.
#[derive(Clone, Copy, Debug, PartialEq, Eq)]
pub struct CreateAuction {
    pub creator: Address,
    pub nft_mint: Address,
    pub payment_mint: Address,
    pub escrow_nft: Address,
    pub bid_escrow: Address,
    pub bump: u8,
}

/// What `place_bid` reads and updates: the record, and the caller.
#[derive(Clone, Copy, Debug, PartialEq, Eq)]
pub struct PlaceBid {
    pub auction: Auction,
    pub bidder: Address,
}

/// What `settle_auction` reads and updates: the record. Anyone may call.
#[derive(Clone, Copy, Debug, PartialEq, Eq)]
pub struct SettleAuction {
    pub auction: Auction,
}

/// What `cancel_auction` reads and updates: the record, and the caller.
#[derive(Clone, Copy, Debug, PartialEq, Eq)]
pub struct CancelAuction {
    pub auction: Auction,
    pub creator: Address,
}

/// The reason given when an auction ends below its reserve or without bids.
pub open spec fn reason_reserve_not_met() -> Seq<char> {
    "reserve not met"@
}

/// The reason given when the creator withdraws the auction.
pub open spec fn reason_cancelled_by_creator() -> Seq<char> {
    "cancelled by creator"@
}

/// The order that refunds `amount` from the bid escrow to `bidder`.
pub open spec fn refund_order(bidder: Address, amount: u64) -> TransferOrder {
    TransferOrder { from: Account::BidEscrow, to: Account::PaymentHolding(bidder), amount }
}

/// The order that moves the asset unit out of escrow to `party`.
pub open spec fn release_asset_order(party: Address) -> TransferOrder {
    TransferOrder { from: Account::AssetEscrow, to: Account::AssetHolding(party), amount: 1 }
}

impl AuctionStatus {
    /// Whether no transition leaves this status.
    pub open spec fn is_terminal(self) -> bool {
        self != AuctionStatus::Active
    }
}

impl AuctionEvent {
    /// Whether this is a cancellation notice for `mint` with the given reason.
    pub open spec fn is_cancellation(self, mint: Address, reason: Seq<char>) -> bool {
        match self {
            AuctionEvent::Cancelled(c) => c.mint == mint && c.reason@ == reason,
            _ => false,
        }
    }
}

impl Auction {
    /// The invariant of the record: it ends after it starts, it has a highest
    /// bidder exactly when it has a bid, and it is settled only on a bid that
    /// met the reserve.
    pub open spec fn well_formed(self) -> bool {
        &&& self.end_time > self.start_time
        &&& (self.current_bid == 0 <==> self.highest_bidder.is_null())
        &&& (self.status == AuctionStatus::Settled ==> self.reserve_met())
    }

    /// The least amount that the next bid must offer: one more than the
    /// standing bid, or the starting price where there is none.
    pub open spec fn min_bid(self) -> int {
        if self.current_bid > 0 {
            self.current_bid + 1
        } else {
            self.starting_price as int
        }
    }

    /// Whether the standing bid exists and reaches the reserve.
    pub open spec fn reserve_met(self) -> bool {
        self.current_bid > 0 && self.current_bid >= self.reserve_price
    }

    /// The error with which a bid is rejected, if it is.
    pub open spec fn bid_rejection(self, bidder: Address, amount: u64, now: i64) -> Option<
        AuctionError,
    > {
        if self.status != AuctionStatus::Active {
            Some(AuctionError::AuctionNotActive)
        } else if now >= self.end_time {
            Some(AuctionError::AuctionEnded)
        } else if amount == 0 || amount < self.min_bid() {
            Some(AuctionError::BidTooLow)
        } else if bidder.is_null() {
            Some(AuctionError::Unauthorized)
        } else {
            None
        }
    }

    /// The record after an accepted bid.
    pub open spec fn after_bid(self, bidder: Address, amount: u64) -> Auction {
        Auction { current_bid: amount, highest_bidder: bidder, ..self }
    }

    /// The transfers of an accepted bid: the standing bid, if any, goes back
    /// to its bidder first; the new amount enters the escrow after that.
    pub open spec fn bid_transfers(self, bidder: Address, amount: u64) -> Seq<TransferOrder> {
        let debit = TransferOrder {
            from: Account::PaymentHolding(bidder),
            to: Account::BidEscrow,
            amount,
        };
        if self.current_bid > 0 {
            seq![refund_order(self.highest_bidder, self.current_bid), debit]
        } else {
            seq![debit]
        }
    }

    /// The error with which settlement is rejected, if it is.
    pub open spec fn settle_rejection(self, now: i64) -> Option<AuctionError> {
        if self.status != AuctionStatus::Active {
            Some(AuctionError::AuctionNotActive)
        } else if now < self.end_time {
            Some(AuctionError::AuctionNotEnded)
        } else {
            None
        }
    }

    /// The record after settlement: sold if the reserve was met, cancelled
    /// otherwise.
    pub open spec fn after_settle(self) -> Auction {
        Auction {
            status: if self.reserve_met() {
                AuctionStatus::Settled
            } else {
                AuctionStatus::Cancelled
            },
            ..self
        }
    }

    /// The transfers of settlement. Sold: the seller's amount to the creator,
    /// the fee to the treasury, the asset to the winner. Not sold: the
    /// standing bid, if any, back to its bidder, and the asset back to the
    /// creator.
    pub open spec fn settle_transfers(self) -> Seq<TransferOrder> {
        if self.reserve_met() {
            seq![
                TransferOrder {
                    from: Account::BidEscrow,
                    to: Account::PaymentHolding(self.creator),
                    amount: seller_amount_of(self.current_bid as nat) as u64,
                },
                TransferOrder {
                    from: Account::BidEscrow,
                    to: Account::Treasury,
                    amount: fee_of(self.current_bid as nat) as u64,
                },
                release_asset_order(self.highest_bidder),
            ]
        } else if self.current_bid > 0 {
            seq![
                refund_order(self.highest_bidder, self.current_bid),
                release_asset_order(self.creator),
            ]
        } else {
            seq![release_asset_order(self.creator)]
        }
    }

    /// The error with which a cancellation by `caller` is rejected, if it is.
    pub open spec fn cancel_rejection(self, caller: Address) -> Option<AuctionError> {
        if caller != self.creator {
            Some(AuctionError::Unauthorized)
        } else if self.current_bid > 0 {
            Some(AuctionError::CannotCancelWithBids)
        } else if self.status != AuctionStatus::Active {
            Some(AuctionError::AuctionNotActive)
        } else {
            None
        }
    }

    /// The record after an accepted cancellation.
    pub open spec fn after_cancel(self) -> Auction {
        Auction { status: AuctionStatus::Cancelled, ..self }
    }

    /// The transfers of an accepted cancellation: the asset back to the
    /// creator.
    pub open spec fn cancel_transfers(self) -> Seq<TransferOrder> {
        seq![release_asset_order(self.creator)]
    }

    /// Whether the record satisfies its invariant.
    pub fn is_well_formed(&self) -> (r: bool)
        ensures
            r == self.well_formed(),
    {
        let no_bidder = self.highest_bidder.is_default();
        let met = self.current_bid > 0 && self.current_bid >= self.reserve_price;
        self.end_time > self.start_time && ((self.current_bid == 0) == no_bidder) && (self.status
            != AuctionStatus::Settled || met)
    }

    /// The least amount that the next bid must offer, or `None` where no
    /// amount can outbid the standing one.
    pub fn next_min_bid(&self) -> (r: Option<u64>)
        ensures
            match r {
                Some(m) => m == self.min_bid(),
                None => self.min_bid() > u64::MAX,
            },
    {
        if self.current_bid > 0 {
            self.current_bid.checked_add(1)
        } else {
            Some(self.starting_price)
        }
    }
}

/// The error with which the creation of an auction is rejected, if it is: a
/// duration that is not positive, or an end beyond the last timestamp.
pub open spec fn create_rejection(duration_seconds: i64, now: i64) -> Option<AuctionError> {
    if duration_seconds <= 0 {
        Some(AuctionError::InvalidDuration)
    } else if now + duration_seconds > i64::MAX {
        Some(AuctionError::CalculationError)
    } else {
        None
    }
}

/// Whether `auction` is the record of a new auction made from these inputs:
/// active, without a bid or a bidder, running from `now` for the duration.
pub open spec fn is_created_auction(
    auction: Auction,
    ctx: CreateAuction,
    starting_price: u64,
    reserve_price: u64,
    duration_seconds: i64,
    now: i64,
) -> bool {
    &&& auction.creator == ctx.creator
    &&& auction.mint == ctx.nft_mint
    &&& auction.payment_mint == ctx.payment_mint
    &&& auction.starting_price == starting_price
    &&& auction.reserve_price == reserve_price
    &&& auction.current_bid == 0
    &&& auction.highest_bidder.is_null()
    &&& auction.start_time == now
    &&& auction.end_time == now + duration_seconds
    &&& auction.status == AuctionStatus::Active
    &&& auction.escrow_token_account == ctx.escrow_nft
    &&& auction.bid_escrow == ctx.bid_escrow
    &&& auction.bump == ctx.bump
}

/// The transfers of creation: the asset unit from the creator into escrow.
pub open spec fn create_transfers(ctx: CreateAuction) -> Seq<TransferOrder> {
    seq![
        TransferOrder {
            from: Account::AssetHolding(ctx.creator),
            to: Account::AssetEscrow,
            amount: 1,
        },
    ]
}

/// Creates an auction that starts at `now` and runs for `duration_seconds`.
/// The asset unit moves from the creator into escrow.
pub fn create_auction(
    ctx: &CreateAuction,
    starting_price: u64,
    reserve_price: u64,
    duration_seconds: i64,
    now: i64,
) -> (r: Result<(Auction, Outcome), AuctionError>)
    ensures
        match r {
            Ok((auction, out)) => {
                &&& create_rejection(duration_seconds, now) is None
                &&& is_created_auction(
                    auction,
                    *ctx,
                    starting_price,
                    reserve_price,
                    duration_seconds,
                    now,
                )
                &&& auction.well_formed()
                &&& out.transfers@ == create_transfers(*ctx)
                &&& out.event == AuctionEvent::Created(
                    AuctionCreated {
                        mint: ctx.nft_mint,
                        creator: ctx.creator,
                        starting_price,
                        reserve_price,
                        end_time: auction.end_time,
                        payment_mint: ctx.payment_mint,
                    },
                )
            },
            Err(e) => create_rejection(duration_seconds, now) == Some(e),
        },
{
    if duration_seconds <= 0 {
        return Err(AuctionError::InvalidDuration);
    }
    let end_time: i64 = match now.checked_add(duration_seconds) {
        Some(t) => t,
        None => {
            return Err(AuctionError::CalculationError);
        },
    };
    let auction = Auction {
        creator: ctx.creator,
        mint: ctx.nft_mint,
        payment_mint: ctx.payment_mint,
        starting_price,
        reserve_price,
        current_bid: 0,
        highest_bidder: Address::null(),
        start_time: now,
        end_time,
        status: AuctionStatus::Active,
        escrow_token_account: ctx.escrow_nft,
        bid_escrow: ctx.bid_escrow,
        bump: ctx.bump,
    };
    let mut transfers: Vec<TransferOrder> = Vec::new();
    transfers.push(
        TransferOrder::new(Account::AssetHolding(ctx.creator), Account::AssetEscrow, 1),
    );
    assert(transfers@ =~= create_transfers(*ctx));
    let event = AuctionEvent::Created(
        AuctionCreated {
            mint: ctx.nft_mint,
            creator: ctx.creator,
            starting_price,
            reserve_price,
            end_time,
            payment_mint: ctx.payment_mint,
        },
    );
    Ok((auction, Outcome { transfers, event }))
}

/// Places a bid of `amount` by `ctx.bidder` at time `now`. The bid is
/// accepted while the auction is active and not yet ended, if it is positive
/// and reaches the minimum. An amount of zero is too low whatever the
/// starting price, and the null identity cannot bid: a record has a bidder
/// exactly when it has a bid. The standing bid is refunded before the new
/// one is taken. A rejected bid changes nothing.
pub fn place_bid(ctx: &mut PlaceBid, amount: u64, now: i64) -> (r: Result<Outcome, AuctionError>)
    ensures
        final(ctx).bidder == old(ctx).bidder,
        old(ctx).auction.well_formed() ==> final(ctx).auction.well_formed(),
        match r {
            Ok(out) => {
                &&& old(ctx).auction.bid_rejection(old(ctx).bidder, amount, now) is None
                &&& final(ctx).auction == old(ctx).auction.after_bid(old(ctx).bidder, amount)
                &&& out.transfers@ == old(ctx).auction.bid_transfers(old(ctx).bidder, amount)
                &&& out.event == AuctionEvent::Bid(
                    BidPlaced {
                        mint: old(ctx).auction.mint,
                        bidder: old(ctx).bidder,
                        amount,
                        timestamp: now,
                    },
                )
            },
            Err(e) => {
                &&& old(ctx).auction.bid_rejection(old(ctx).bidder, amount, now) == Some(e)
                &&& final(ctx).auction == old(ctx).auction
            },
        },
{
    let auction = ctx.auction;
    let bidder = ctx.bidder;
    if auction.status != AuctionStatus::Active {
        return Err(AuctionError::AuctionNotActive);
    }
    if now >= auction.end_time {
        return Err(AuctionError::AuctionEnded);
    }
    let reaches_minimum = if auction.current_bid > 0 {
        amount > auction.current_bid
    } else {
        amount >= auction.starting_price
    };
    if amount == 0 || !reaches_minimum {
        return Err(AuctionError::BidTooLow);
    }
    if bidder.is_default() {
        return Err(AuctionError::Unauthorized);
    }
    let mut transfers: Vec<TransferOrder> = Vec::new();
    if auction.current_bid > 0 {
        transfers.push(
            TransferOrder::new(
                Account::BidEscrow,
                Account::PaymentHolding(auction.highest_bidder),
                auction.current_bid,
            ),
        );
    }
    transfers.push(TransferOrder::new(Account::PaymentHolding(bidder), Account::BidEscrow, amount));
    assert(transfers@ =~= auction.bid_transfers(bidder, amount));
    ctx.auction.current_bid = amount;
    ctx.auction.highest_bidder = bidder;
    let event = AuctionEvent::Bid(
        BidPlaced { mint: auction.mint, bidder, amount, timestamp: now },
    );
    Ok(Outcome { transfers, event })
}

/// Settles the auction at time `now`, which must not be before its end.
/// Where the standing bid meets the reserve, the auction is sold: the seller
/// is paid the bid less the fee, the treasury the fee, and the asset goes to
/// the winner. Otherwise the auction is cancelled: the standing bid, if any,
/// is refunded and the asset returns to the creator. A rejected call changes
/// nothing; an arithmetic error never occurs.
pub fn settle_auction(ctx: &mut SettleAuction, now: i64) -> (r: Result<Outcome, AuctionError>)
    ensures
        old(ctx).auction.well_formed() ==> final(ctx).auction.well_formed(),
        match r {
            Ok(out) => {
                &&& old(ctx).auction.settle_rejection(now) is None
                &&& final(ctx).auction == old(ctx).auction.after_settle()
                &&& out.transfers@ == old(ctx).auction.settle_transfers()
                &&& if old(ctx).auction.reserve_met() {
                    out.event == AuctionEvent::Settled(
                        AuctionSettled {
                            mint: old(ctx).auction.mint,
                            winner: old(ctx).auction.highest_bidder,
                            price: old(ctx).auction.current_bid,
                            fee: fee_of(old(ctx).auction.current_bid as nat) as u64,
                        },
                    )
                } else {
                    out.event.is_cancellation(old(ctx).auction.mint, reason_reserve_not_met())
                }
            },
            Err(e) => {
                &&& old(ctx).auction.settle_rejection(now) == Some(e)
                &&& final(ctx).auction == old(ctx).auction
            },
        },
{
    let auction = ctx.auction;
    if auction.status != AuctionStatus::Active {
        return Err(AuctionError::AuctionNotActive);
    }
    if now < auction.end_time {
        return Err(AuctionError::AuctionNotEnded);
    }
    let mut transfers: Vec<TransferOrder> = Vec::new();
    if auction.current_bid >= auction.reserve_price && auction.current_bid > 0 {
        let (seller_amount, fee) = match split_proceeds(auction.current_bid) {
            Some(parts) => parts,
            None => {
                return Err(AuctionError::CalculationError);
            },
        };
        transfers.push(
            TransferOrder::new(
                Account::BidEscrow,
                Account::PaymentHolding(auction.creator),
                seller_amount,
            ),
        );
        transfers.push(TransferOrder::new(Account::BidEscrow, Account::Treasury, fee));
        transfers.push(
            TransferOrder::new(
                Account::AssetEscrow,
                Account::AssetHolding(auction.highest_bidder),
                1,
            ),
        );
        assert(transfers@ =~= auction.settle_transfers());
        ctx.auction.status = AuctionStatus::Settled;
        let event = AuctionEvent::Settled(
            AuctionSettled {
                mint: auction.mint,
                winner: auction.highest_bidder,
                price: auction.current_bid,
                fee,
            },
        );
        Ok(Outcome { transfers, event })
    } else {
        if auction.current_bid > 0 {
            transfers.push(
                TransferOrder::new(
                    Account::BidEscrow,
                    Account::PaymentHolding(auction.highest_bidder),
                    auction.current_bid,
                ),
            );
        }
        transfers.push(
            TransferOrder::new(Account::AssetEscrow, Account::AssetHolding(auction.creator), 1),
        );
        assert(transfers@ =~= auction.settle_transfers());
        ctx.auction.status = AuctionStatus::Cancelled;
        let event = AuctionEvent::Cancelled(
            AuctionCancelled { mint: auction.mint, reason: "reserve not met".to_owned() },
        );
        Ok(Outcome { transfers, event })
    }
}

/// Cancels the auction on behalf of `ctx.creator`, who must be its creator,
/// while it is active and has no bid. The asset returns to the creator. The
/// caller is checked first, the bid next, the status last. A rejected call
/// changes nothing.
pub fn cancel_auction(ctx: &mut CancelAuction) -> (r: Result<Outcome, AuctionError>)
    ensures
        final(ctx).creator == old(ctx).creator,
        old(ctx).auction.well_formed() ==> final(ctx).auction.well_formed(),
        match r {
            Ok(out) => {
                &&& old(ctx).auction.cancel_rejection(old(ctx).creator) is None
                &&& final(ctx).auction == old(ctx).auction.after_cancel()
                &&& out.transfers@ == old(ctx).auction.cancel_transfers()
                &&& out.event.is_cancellation(
                    old(ctx).auction.mint,
                    reason_cancelled_by_creator(),
                )
            },
            Err(e) => {
                &&& old(ctx).auction.cancel_rejection(old(ctx).creator) == Some(e)
                &&& final(ctx).auction == old(ctx).auction
            },
        },
{
    let auction = ctx.auction;
    if !ctx.creator.same(&auction.creator) {
        return Err(AuctionError::Unauthorized);
    }
    if auction.current_bid > 0 {
        return Err(AuctionError::CannotCancelWithBids);
    }
    if auction.status != AuctionStatus::Active {
        return Err(AuctionError::AuctionNotActive);
    }
    let mut transfers: Vec<TransferOrder> = Vec::new();
    transfers.push(
        TransferOrder::new(Account::AssetEscrow, Account::AssetHolding(auction.creator), 1),
    );
    assert(transfers@ =~= auction.cancel_transfers());
    ctx.auction.status = AuctionStatus::Cancelled;
    let event = AuctionEvent::Cancelled(
        AuctionCancelled { mint: auction.mint, reason: "cancelled by creator".to_owned() },
    );
    Ok(Outcome { transfers, event })
}

impl AuctionError {
    /// The message that goes with this error.
    pub fn message(&self) -> (r: String)
        ensures
            r@ == self.message_text(),
    {
        match self {
            AuctionError::AuctionNotActive => "Auction is not active".to_owned(),
            AuctionError::AuctionEnded => "Auction has already ended".to_owned(),
            AuctionError::AuctionNotEnded => "Auction has not ended yet".to_owned(),
            AuctionError::BidTooLow => "Bid is too low".to_owned(),
            AuctionError::CalculationError => "Calculation error".to_owned(),
            AuctionError::Unauthorized => "Unauthorized".to_owned(),
            AuctionError::CannotCancelWithBids => "Cannot cancel auction with existing bids".to_owned(),
            AuctionError::InvalidDuration => "Auction duration must be positive".to_owned(),
        }
    }

    /// The text of the message that goes with this error.
    pub open spec fn message_text(self) -> Seq<char> {
        match self {
            AuctionError::AuctionNotActive => "Auction is not active"@,
            AuctionError::AuctionEnded => "Auction has already ended"@,
            AuctionError::AuctionNotEnded => "Auction has not ended yet"@,
            AuctionError::BidTooLow => "Bid is too low"@,
            AuctionError::CalculationError => "Calculation error"@,
            AuctionError::Unauthorized => "Unauthorized"@,
            AuctionError::CannotCancelWithBids => "Cannot cancel auction with existing bids"@,
            AuctionError::InvalidDuration => "Auction duration must be positive"@,
        }
    }
}

} // verus!
