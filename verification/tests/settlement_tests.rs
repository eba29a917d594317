use solcards_nft::errors::CustomError;
use solcards_nft::settlement::{compute_fee_split, compute_royalty, transfer_lamports};

#[test]
fn royalty_of_1000_is_30() {
    assert_eq!(compute_royalty(1000), Ok(30));
}

#[test]
fn fee_split_of_1000_is_30_and_970() {
    assert_eq!(compute_fee_split(1000), Ok((30, 970)));
}

#[test]
fn fee_split_rounds_the_royalty_down() {
    // 33 * 3 = 99, so the royalty floors to zero and the seller keeps it all.
    assert_eq!(compute_fee_split(33), Ok((0, 33)));
    // 34 * 3 = 102, the first price with a non-zero royalty.
    assert_eq!(compute_fee_split(34), Ok((1, 33)));
}

#[test]
fn fee_split_of_one_unit_price() {
    assert_eq!(compute_fee_split(1), Ok((0, 1)));
}

#[test]
fn fee_split_always_reassembles_the_price() {
    let prices: Vec<u64> = vec![1, 33, 34, 99, 100, 101, 1000, 12345, 6148914691236517205];
    for price in prices {
        let (royalty, seller_amount) = compute_fee_split(price).unwrap();
        assert_eq!(royalty, price / 100 * 3 + price % 100 * 3 / 100);
        assert_eq!(royalty + seller_amount, price);
    }
}

#[test]
fn fee_split_overflow_is_rejected() {
    assert_eq!(compute_fee_split(u64::MAX), Err(CustomError::Overflow));
    // The largest price whose tripling still fits.
    let limit: u64 = u64::MAX / 3;
    assert!(compute_fee_split(limit).is_ok());
    assert_eq!(compute_fee_split(limit + 1), Err(CustomError::Overflow));
}

#[test]
fn lamport_transfer_moves_the_exact_amount() {
    let mut from: u64 = 1000;
    let mut to: u64 = 7;
    transfer_lamports(&mut from, &mut to, 250);
    assert_eq!(from, 750);
    assert_eq!(to, 257);
}
