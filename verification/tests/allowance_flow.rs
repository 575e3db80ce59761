use token_agent::AccountId;
use token_agent::ErrorCode;
use token_agent::allowance::{TokenAllowance, consume, consume_charge, grant, update};

fn key(n: u8) -> AccountId {
    AccountId::new([n; 32])
}

fn granted(amount: u64, recipient: Option<AccountId>) -> TokenAllowance {
    grant(key(1), key(2), recipient, key(3), key(4), 0, 0, amount)
}

#[test]
fn grant_binds_the_tuple() {
    let a = granted(200, None);
    assert_eq!(a.user_key.bytes, [1u8; 32]);
    assert_eq!(a.delegate_key.bytes, [2u8; 32]);
    assert_eq!(a.token_mint.bytes, [3u8; 32]);
    assert_eq!(a.token_account.bytes, [4u8; 32]);
    assert!(a.recipient_key.is_none());
    assert_eq!(a.amount, 200);
}

#[test]
fn consume_decrements_and_then_exhausts() {
    let a = granted(200, None);
    let a = consume(&a, &key(2), &key(1), &key(3), &key(4), &key(9), 1000, 150).unwrap();
    assert_eq!(a.amount, 50);
    let again = consume(&a, &key(2), &key(1), &key(3), &key(4), &key(9), 1000, 100);
    assert_eq!(again.unwrap_err(), ErrorCode::AllowanceExceeded);
    // The failed spend left the record untouched.
    assert_eq!(a.amount, 50);
    let rest = consume(&a, &key(2), &key(1), &key(3), &key(4), &key(9), 1000, 50).unwrap();
    assert_eq!(rest.amount, 0);
}

#[test]
fn consume_requires_the_bound_delegate() {
    let a = granted(200, None);
    let r = consume(&a, &key(22), &key(1), &key(3), &key(4), &key(9), 1000, 10);
    assert_eq!(r.unwrap_err(), ErrorCode::AccessDenied);
}

#[test]
fn consume_checks_the_funding_tuple() {
    let a = granted(200, None);
    assert_eq!(
        consume(&a, &key(2), &key(11), &key(3), &key(4), &key(9), 1000, 10).unwrap_err(),
        ErrorCode::InvalidAccount
    );
    assert_eq!(
        consume(&a, &key(2), &key(1), &key(33), &key(4), &key(9), 1000, 10).unwrap_err(),
        ErrorCode::InvalidAccount
    );
    assert_eq!(
        consume(&a, &key(2), &key(1), &key(3), &key(44), &key(9), 1000, 10).unwrap_err(),
        ErrorCode::InvalidAccount
    );
}

#[test]
fn consume_respects_the_validity_window() {
    let a = grant(key(1), key(2), None, key(3), key(4), 500, 900, 200);
    assert_eq!(
        consume(&a, &key(2), &key(1), &key(3), &key(4), &key(9), 400, 10).unwrap_err(),
        ErrorCode::NotValidYet
    );
    assert_eq!(
        consume(&a, &key(2), &key(1), &key(3), &key(4), &key(9), 1000, 10).unwrap_err(),
        ErrorCode::Expired
    );
    assert_eq!(
        consume(&a, &key(2), &key(1), &key(3), &key(4), &key(9), 700, 10).unwrap().amount,
        190
    );
}

#[test]
fn recipient_restriction_pins_the_destination() {
    let a = granted(200, Some(key(9)));
    assert_eq!(
        consume(&a, &key(2), &key(1), &key(3), &key(4), &key(8), 1000, 10).unwrap_err(),
        ErrorCode::InvalidAccount
    );
    assert_eq!(
        consume(&a, &key(2), &key(1), &key(3), &key(4), &key(9), 1000, 10).unwrap().amount,
        190
    );
}

#[test]
fn update_is_owner_only_and_rewrites_terms() {
    let a = granted(200, None);
    let r = update(&a, &key(1), Some(key(9)), 100, 900, 75).unwrap();
    assert_eq!(r.amount, 75);
    assert_eq!(r.not_valid_before, 100);
    assert_eq!(r.not_valid_after, 900);
    assert_eq!(r.recipient_key.map(|k| k.bytes), Some([9u8; 32]));
    // The funding relationship is fixed at grant time.
    assert_eq!(r.user_key.bytes, [1u8; 32]);
    assert_eq!(r.delegate_key.bytes, [2u8; 32]);
    let denied = update(&a, &key(5), None, 0, 0, 75);
    assert_eq!(denied.unwrap_err(), ErrorCode::AccessDenied);
}

#[test]
fn a_charge_draws_fee_then_net_on_the_allowance() {
    let a = granted(200, None);
    let r = consume_charge(&a, &key(2), &key(1), &key(3), &key(4), &key(8), &key(9), 1000, 5, 145)
        .unwrap();
    assert_eq!(r.amount, 50);
    // A charge beyond the remaining balance fails as a whole.
    let over = consume_charge(&r, &key(2), &key(1), &key(3), &key(4), &key(8), &key(9), 1000, 1, 50);
    assert_eq!(over.unwrap_err(), ErrorCode::AllowanceExceeded);
    assert_eq!(r.amount, 50);
    // The remainder can still be drawn exactly.
    let rest =
        consume_charge(&r, &key(2), &key(1), &key(3), &key(4), &key(8), &key(9), 1000, 0, 50)
            .unwrap();
    assert_eq!(rest.amount, 0);
}

#[test]
fn a_charge_respects_the_recipient_restriction_per_leg() {
    let a = granted(200, Some(key(9)));
    // The net leg goes to the bound recipient, but the fee leg does not.
    let r = consume_charge(&a, &key(2), &key(1), &key(3), &key(4), &key(8), &key(9), 1000, 5, 145);
    assert_eq!(r.unwrap_err(), ErrorCode::InvalidAccount);
    // With both legs at the bound recipient the charge goes through.
    let ok = consume_charge(&a, &key(2), &key(1), &key(3), &key(4), &key(9), &key(9), 1000, 5, 145)
        .unwrap();
    assert_eq!(ok.amount, 50);
}
