use token_agent::AccountId;
use token_agent::ErrorCode;
use token_agent::approvals::{
    ManagerApproval, MerchantApproval, verify_manager_approval, verify_matching_accounts,
    verify_merchant_approval,
};

fn key(n: u8) -> AccountId {
    AccountId::new([n; 32])
}

/// Finds a bump seed for which real address derivation succeeds, and the
/// derived address, or one for which it fails — mirroring what wallets do
/// off-chain before submitting an instruction.
fn derive(a: &AccountId, b: &AccountId, c: &AccountId, owner: &AccountId) -> (AccountId, u8) {
    for bump in 0..=255u8 {
        if let Ok(k) = solana_program::pubkey::Pubkey::create_program_address(
            &[&a.bytes, &b.bytes, &c.bytes, &[bump]],
            &solana_program::pubkey::Pubkey::new_from_array(owner.bytes),
        ) {
            return (AccountId::new(k.to_bytes()), bump);
        }
    }
    panic!("no valid bump seed");
}

fn failing_bump(a: &AccountId, b: &AccountId, c: &AccountId, owner: &AccountId) -> u8 {
    for bump in 0..=255u8 {
        if solana_program::pubkey::Pubkey::create_program_address(
            &[&a.bytes, &b.bytes, &c.bytes, &[bump]],
            &solana_program::pubkey::Pubkey::new_from_array(owner.bytes),
        )
        .is_err()
        {
            return bump;
        }
    }
    panic!("no failing bump seed");
}

fn approval() -> MerchantApproval {
    MerchantApproval {
        active: true,
        merchant_key: key(10),
        token_mint: key(11),
        fees_account: key(12),
        fees_bps: 100,
        dest_account: key(13),
        tx_count: 5,
    }
}

#[test]
fn accounts_match_byte_for_byte() {
    assert_eq!(verify_matching_accounts(&key(1), &key(1)), Ok(()));
    assert_eq!(verify_matching_accounts(&key(1), &key(2)), Err(ErrorCode::InvalidAccount));
    let mut almost = [7u8; 32];
    almost[31] = 8;
    assert_eq!(
        verify_matching_accounts(&key(7), &AccountId::new(almost)),
        Err(ErrorCode::InvalidAccount)
    );
}

#[test]
fn merchant_approval_accepts_the_derived_token_account() {
    let mrch = approval();
    let netauth = key(22);
    let token_prog = key(20);
    let ata_prog = key(21);
    let (merchant_token, bump) =
        derive(&mrch.dest_account, &token_prog, &mrch.token_mint, &ata_prog);
    // The derived address is a digest, never one of the seeds.
    assert_ne!(merchant_token.bytes, mrch.dest_account.bytes);
    let r = verify_merchant_approval(
        bump, &netauth, &netauth, &mrch, &merchant_token, &key(12), &token_prog, &ata_prog,
    );
    assert_eq!(r, Ok(100));
}

#[test]
fn merchant_approval_rejects_substituted_token_account() {
    let mrch = approval();
    let netauth = key(22);
    let token_prog = key(20);
    let ata_prog = key(21);
    let (_, bump) = derive(&mrch.dest_account, &token_prog, &mrch.token_mint, &ata_prog);
    let r = verify_merchant_approval(
        bump, &netauth, &netauth, &mrch, &key(99), &key(12), &token_prog, &ata_prog,
    );
    assert_eq!(r, Err(ErrorCode::InvalidDerivedAccount));
}

#[test]
fn merchant_approval_rejects_bad_bump() {
    let mrch = approval();
    let netauth = key(22);
    let token_prog = key(20);
    let ata_prog = key(21);
    let bad = failing_bump(&mrch.dest_account, &token_prog, &mrch.token_mint, &ata_prog);
    let r = verify_merchant_approval(
        bad, &netauth, &netauth, &mrch, &key(99), &key(12), &token_prog, &ata_prog,
    );
    assert_eq!(r, Err(ErrorCode::InvalidNonce));
}

#[test]
fn merchant_approval_rejects_wrong_owner() {
    let mrch = approval();
    let r = verify_merchant_approval(
        0, &key(22), &key(33), &mrch, &key(99), &key(12), &key(20), &key(21),
    );
    assert_eq!(r, Err(ErrorCode::InvalidAccount));
}

#[test]
fn merchant_approval_rejects_inactive() {
    let mut mrch = approval();
    mrch.active = false;
    let netauth = key(22);
    let r = verify_merchant_approval(
        0, &netauth, &netauth, &mrch, &key(99), &key(12), &key(20), &key(21),
    );
    assert_eq!(r, Err(ErrorCode::NotApproved));
}

#[test]
fn merchant_approval_rejects_wrong_fees_account() {
    let mrch = approval();
    let netauth = key(22);
    let r = verify_merchant_approval(
        0, &netauth, &netauth, &mrch, &key(99), &key(44), &key(20), &key(21),
    );
    assert_eq!(r, Err(ErrorCode::InvalidAccount));
}

#[test]
fn manager_approval_checks_owner_then_flag() {
    let mgr = ManagerApproval { active: true, manager_key: key(6) };
    assert_eq!(verify_manager_approval(&key(22), &key(22), &mgr), Ok(()));
    assert_eq!(
        verify_manager_approval(&key(22), &key(23), &mgr),
        Err(ErrorCode::InvalidAccount)
    );
    let off = ManagerApproval { active: false, manager_key: key(6) };
    assert_eq!(
        verify_manager_approval(&key(22), &key(22), &off),
        Err(ErrorCode::NotApproved)
    );
}
