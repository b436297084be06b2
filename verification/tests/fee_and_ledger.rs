use rwa_auction::address::Address;
use rwa_auction::fee::{platform_fee, split_proceeds, BASIS_POINT_SCALE, FEE_BASIS_POINTS};
use rwa_auction::ledger::{Account, TransferOrder};

#[test]
fn fee_rate_is_two_and_a_half_percent() {
    assert_eq!(FEE_BASIS_POINTS, 250);
    assert_eq!(BASIS_POINT_SCALE, 10000);
}

#[test]
fn fee_is_floored() {
    assert_eq!(platform_fee(0), 0);
    assert_eq!(platform_fee(1), 0);
    assert_eq!(platform_fee(39), 0);
    assert_eq!(platform_fee(40), 1);
    assert_eq!(platform_fee(79), 1);
    assert_eq!(platform_fee(1000), 25);
    assert_eq!(platform_fee(150), 3);
    assert_eq!(platform_fee(u64::MAX), 461168601842738790);
}

#[test]
fn proceeds_and_fee_add_up_to_the_price() {
    for price in [0u64, 1, 39, 40, 41, 150, 999, 1000, 123_456_789, u64::MAX - 1, u64::MAX] {
        let (seller_amount, fee) = split_proceeds(price).unwrap();
        assert_eq!(fee, ((price as u128) * 250 / 10000) as u64);
        assert_eq!(seller_amount as u128 + fee as u128, price as u128);
    }
    assert_eq!(split_proceeds(1000), Some((975, 25)));
}

#[test]
fn address_equality_and_null() {
    let a = Address::new([7; 32]);
    let mut bytes = [7u8; 32];
    assert!(a.same(&Address::new(bytes)));
    bytes[31] = 8;
    assert!(!a.same(&Address::new(bytes)));
    assert!(Address::null().is_default());
    assert!(Address::default().same(&Address::null()));
    assert_eq!(Address::null().bytes, [0u8; 32]);
    assert!(!a.is_default());
    let mut almost = [0u8; 32];
    almost[17] = 1;
    assert!(!Address::new(almost).is_default());
}

#[test]
fn transfer_order_holds_its_fields() {
    let a = Address::new([1; 32]);
    let t = TransferOrder::new(Account::BidEscrow, Account::PaymentHolding(a), 42);
    assert_eq!(
        t,
        TransferOrder { from: Account::BidEscrow, to: Account::PaymentHolding(a), amount: 42 }
    );
}
