use token_agent::AccountId;
use token_agent::ErrorCode;
use token_agent::approvals::{ManagerApproval, MerchantApproval};
use token_agent::ids::OwnedAccount;
use token_agent::manage::{
    CloseSubscr, ManagerCancel, UpdateManager, close_subscription, manager_cancel, update_manager,
};
use token_agent::plan::{SwapInputs, TransferAuthority, swap_refund_amount};
use token_agent::process::{ProcessSubscr, process};
use token_agent::subscribe::{CreateSubscr, SubscribeOutcome, subscribe};
use token_agent::subscription::SubscrData;
use token_agent::update::{UpdateOutcome, UpdateSubscr, update_subscription};

fn key(n: u8) -> AccountId {
    AccountId::new([n; 32])
}

fn ts(y: i32, m: u32, d: u32, h: u32, mi: u32, s: u32) -> i64 {
    chrono::NaiveDate::from_ymd_opt(y, m, d)
        .unwrap()
        .and_hms_opt(h, mi, s)
        .unwrap()
        .and_utc()
        .timestamp()
}

fn derive(a: &AccountId, b: &AccountId, c: &AccountId, owner: &AccountId) -> (AccountId, u8) {
    for bump in 0..=255u8 {
        if let Ok(k) = solana_program::pubkey::Pubkey::create_program_address(
            &[&a.bytes, &b.bytes, &c.bytes, &[bump]],
            &solana_program::pubkey::Pubkey::new_from_array(owner.bytes),
        ) {
            return (AccountId::new(k.to_bytes()), bump);
        }
    }
    panic!("no valid bump seed");
}

struct World {
    user: AccountId,
    netauth: AccountId,
    root: AccountId,
    manager: AccountId,
    token_prog: AccountId,
    ata_prog: AccountId,
    mint: AccountId,
    token_account: AccountId,
    fees: AccountId,
    mrch: MerchantApproval,
    mgr: ManagerApproval,
    dest_token: AccountId,
    dest_bump: u8,
    merchant_token: AccountId,
    merchant_bump: u8,
}

impl World {
    fn new() -> World {
        let token_prog = key(20);
        let ata_prog = key(21);
        let mint = key(11);
        let mrch = MerchantApproval {
            active: true,
            merchant_key: key(10),
            token_mint: mint,
            fees_account: key(12),
            fees_bps: 100,
            dest_account: key(13),
            tx_count: 5,
        };
        let (dest_token, dest_bump) = derive(&mrch.dest_account, &token_prog, &mint, &ata_prog);
        let (merchant_token, merchant_bump) =
            derive(&mrch.merchant_key, &token_prog, &mint, &ata_prog);
        World {
            user: key(1),
            netauth: key(2),
            root: key(3),
            manager: key(6),
            token_prog,
            ata_prog,
            mint,
            token_account: key(30),
            fees: key(12),
            mrch,
            mgr: ManagerApproval { active: true, manager_key: key(6) },
            dest_token,
            dest_bump,
            merchant_token,
            merchant_bump,
        }
    }

    fn create_ctx(&self) -> CreateSubscr {
        CreateSubscr {
            subscr_data: key(40),
            net_auth: self.netauth,
            root_key: self.root,
            merchant_approval: OwnedAccount { key: key(4), owner: self.netauth },
            merchant_token: self.dest_token,
            manager_approval: OwnedAccount { key: key(5), owner: self.netauth },
            user_key: self.user,
            token_program: self.token_prog,
            token_account: self.token_account,
            fees_account: self.fees,
            delegate_program: key(15),
            delegate_root: key(16),
            allowance: key(17),
            system_program: key(18),
        }
    }

    fn update_ctx(&self) -> UpdateSubscr {
        UpdateSubscr {
            subscr_data: key(40),
            net_auth: self.netauth,
            root_key: self.root,
            merchant_approval: OwnedAccount { key: key(4), owner: self.netauth },
            merchant_token: self.dest_token,
            manager_approval: OwnedAccount { key: key(5), owner: self.netauth },
            user_key: self.user,
            token_program: self.token_prog,
            token_account: self.token_account,
            fees_account: self.fees,
            delegate_program: key(15),
            delegate_root: key(16),
            allowance: key(17),
            system_program: key(18),
        }
    }

    fn process_ctx(&self) -> ProcessSubscr {
        ProcessSubscr {
            subscr_data: key(40),
            net_auth: self.netauth,
            root_key: self.root,
            merchant_approval: key(4),
            merchant_token: self.merchant_token,
            manager_key: self.manager,
            manager_approval: key(5),
            token_program: self.token_prog,
            token_account: self.token_account,
            token_account_mint: self.mint,
            fees_account: self.fees,
            delegate_program: key(15),
            delegate_root: key(16),
            allowance: key(17),
        }
    }

    /// A monthly subscription created mid-October, first rebill on the
    /// first of November at midnight UTC, per-charge budget 1000, default
    /// grace window, no swap, no initial charge.
    fn monthly(&self, rebill_max: u32, use_total: bool, total_budget: u64) -> SubscribeOutcome {
        subscribe(
            &self.create_ctx(),
            &self.mrch,
            &self.mgr,
            &self.ata_prog,
            &key(50),
            ts(2026, 10, 15, 12, 0, 0),
            false,
            0,
            self.dest_bump,
            777,
            2,
            1000,
            use_total,
            total_budget,
            ts(2026, 11, 1, 0, 0, 0),
            rebill_max,
            0,
            0,
            0,
            false,
            true,
            0,
            0,
            None,
        )
        .unwrap()
    }

    fn rebill(
        &self,
        subscr: &SubscrData,
        now: i64,
        rebill_ts: i64,
        label: &str,
        next: i64,
        amount: u64,
    ) -> Result<token_agent::process::ProcessOutcome, ErrorCode> {
        process(
            subscr,
            &self.process_ctx(),
            &self.mrch,
            &self.mgr,
            &self.ata_prog,
            &key(50),
            now,
            self.merchant_bump,
            rebill_ts,
            label.to_string(),
            next,
            amount,
            0,
            None,
        )
    }
}

#[test]
fn monthly_subscription_is_created_active() {
    let w = World::new();
    let out = w.monthly(0, false, 0);
    assert!(out.subscr.active);
    assert_eq!(out.subscr.rebill_events, 0);
    assert_eq!(out.subscr.next_rebill, ts(2026, 11, 1, 0, 0, 0));
    assert_eq!(out.subscr.max_delay, 31536000);
    assert_eq!(out.subscr.period_budget, 1000);
    assert_eq!(out.subscr.merchant_key.bytes, w.mrch.merchant_key.bytes);
    assert_eq!(out.plan.total, 0);
    assert!(out.plan.swap.is_none());
}

#[test]
fn monthly_rebill_succeeds_and_splits_the_fee() {
    let w = World::new();
    let out = w.monthly(0, false, 0);
    let nr = ts(2026, 11, 1, 0, 0, 0);
    let r = w
        .rebill(&out.subscr, ts(2026, 11, 5, 9, 0, 0), nr, "202611", ts(2026, 12, 1, 0, 0, 0), 500)
        .unwrap();
    assert_eq!(r.subscr.rebill_events, 1);
    assert_eq!(r.subscr.next_rebill, ts(2026, 12, 1, 0, 0, 0));
    assert_eq!(r.plan.total, 500);
    assert_eq!(r.plan.fee, 5);
    assert_eq!(r.plan.net, 495);
    assert_eq!(r.plan.authority, TransferAuthority::Delegate);
}

#[test]
fn rebill_over_period_budget_fails() {
    let w = World::new();
    let out = w.monthly(0, false, 0);
    let nr = ts(2026, 11, 1, 0, 0, 0);
    let r = w.rebill(&out.subscr, ts(2026, 11, 5, 9, 0, 0), nr, "202611", ts(2026, 12, 1, 0, 0, 0), 1500);
    assert_eq!(r.unwrap_err(), ErrorCode::PeriodBudgetExceeded);
}

#[test]
fn rebill_skipping_a_period_fails() {
    let w = World::new();
    let out = w.monthly(0, false, 0);
    let nr = ts(2026, 11, 1, 0, 0, 0);
    let r = w.rebill(&out.subscr, ts(2026, 11, 5, 9, 0, 0), nr, "202611", ts(2027, 1, 1, 0, 0, 0), 500);
    assert_eq!(r.unwrap_err(), ErrorCode::InvalidTimeframe);
}

#[test]
fn rebill_with_wrong_label_fails() {
    let w = World::new();
    let out = w.monthly(0, false, 0);
    let nr = ts(2026, 11, 1, 0, 0, 0);
    let r = w.rebill(&out.subscr, ts(2026, 11, 5, 9, 0, 0), nr, "202612", ts(2026, 12, 1, 0, 0, 0), 500);
    assert_eq!(r.unwrap_err(), ErrorCode::InvalidTimeframe);
}

#[test]
fn rebill_with_wrong_instant_fails() {
    let w = World::new();
    let out = w.monthly(0, false, 0);
    let r = w.rebill(
        &out.subscr,
        ts(2026, 12, 5, 9, 0, 0),
        ts(2026, 12, 1, 0, 0, 0),
        "202612",
        ts(2027, 1, 1, 0, 0, 0),
        500,
    );
    assert_eq!(r.unwrap_err(), ErrorCode::InvalidTimeframe);
}

#[test]
fn rebill_before_its_instant_fails() {
    let w = World::new();
    let out = w.monthly(0, false, 0);
    let nr = ts(2026, 11, 1, 0, 0, 0);
    let r = w.rebill(&out.subscr, ts(2026, 10, 20, 0, 0, 0), nr, "202611", ts(2026, 12, 1, 0, 0, 0), 500);
    assert_eq!(r.unwrap_err(), ErrorCode::InvalidTimeframe);
}

#[test]
fn rebill_after_grace_window_expires() {
    let w = World::new();
    let out = w.monthly(0, false, 0);
    let nr = ts(2026, 11, 1, 0, 0, 0);
    // The default monthly grace window is one year.
    let late = nr + 31536000 + 1;
    let r = w.rebill(&out.subscr, late, nr, "202611", ts(2026, 12, 1, 0, 0, 0), 500);
    assert_eq!(r.unwrap_err(), ErrorCode::Expired);
}

#[test]
fn counter_steps_by_one_each_cycle() {
    let w = World::new();
    let out = w.monthly(0, false, 0);
    let first = w
        .rebill(
            &out.subscr,
            ts(2026, 11, 5, 0, 0, 0),
            ts(2026, 11, 1, 0, 0, 0),
            "202611",
            ts(2026, 12, 1, 0, 0, 0),
            100,
        )
        .unwrap();
    assert_eq!(first.subscr.rebill_events, 1);
    let second = w
        .rebill(
            &first.subscr,
            ts(2026, 12, 2, 0, 0, 0),
            ts(2026, 12, 1, 0, 0, 0),
            "202612",
            ts(2027, 1, 1, 0, 0, 0),
            100,
        )
        .unwrap();
    assert_eq!(second.subscr.rebill_events, 2);
}

#[test]
fn rebill_cap_is_enforced() {
    let w = World::new();
    let out = w.monthly(1, false, 0);
    let first = w
        .rebill(
            &out.subscr,
            ts(2026, 11, 5, 0, 0, 0),
            ts(2026, 11, 1, 0, 0, 0),
            "202611",
            ts(2026, 12, 1, 0, 0, 0),
            100,
        )
        .unwrap();
    assert_eq!(first.subscr.rebill_events, 1);
    let second = w.rebill(
        &first.subscr,
        ts(2026, 12, 2, 0, 0, 0),
        ts(2026, 12, 1, 0, 0, 0),
        "202612",
        ts(2027, 1, 1, 0, 0, 0),
        100,
    );
    assert_eq!(second.unwrap_err(), ErrorCode::MaxRebills);
}

#[test]
fn total_budget_is_consumed_and_enforced() {
    let w = World::new();
    let out = w.monthly(0, true, 800);
    let first = w
        .rebill(
            &out.subscr,
            ts(2026, 11, 5, 0, 0, 0),
            ts(2026, 11, 1, 0, 0, 0),
            "202611",
            ts(2026, 12, 1, 0, 0, 0),
            500,
        )
        .unwrap();
    assert_eq!(first.subscr.total_budget, 300);
    let too_much = w.rebill(
        &first.subscr,
        ts(2026, 12, 2, 0, 0, 0),
        ts(2026, 12, 1, 0, 0, 0),
        "202612",
        ts(2027, 1, 1, 0, 0, 0),
        500,
    );
    assert_eq!(too_much.unwrap_err(), ErrorCode::TotalBudgetExceeded);
    let rest = w
        .rebill(
            &first.subscr,
            ts(2026, 12, 2, 0, 0, 0),
            ts(2026, 12, 1, 0, 0, 0),
            "202612",
            ts(2027, 1, 1, 0, 0, 0),
            300,
        )
        .unwrap();
    assert_eq!(rest.subscr.total_budget, 0);
}

#[test]
fn rebill_within_validity_window_only() {
    let w = World::new();
    let now = ts(2026, 10, 15, 12, 0, 0);
    let nr = ts(2026, 11, 1, 0, 0, 0);
    let out = subscribe(
        &w.create_ctx(),
        &w.mrch,
        &w.mgr,
        &w.ata_prog,
        &key(50),
        now,
        false,
        0,
        w.dest_bump,
        777,
        2,
        1000,
        false,
        0,
        nr,
        0,
        ts(2026, 10, 20, 0, 0, 0),
        ts(2026, 11, 10, 0, 0, 0),
        0,
        false,
        true,
        0,
        0,
        None,
    )
    .unwrap();
    let early = w.rebill(&out.subscr, ts(2026, 10, 18, 0, 0, 0), nr, "202611", ts(2026, 12, 1, 0, 0, 0), 100);
    assert_eq!(early.unwrap_err(), ErrorCode::NotValidYet);
    let late = w.rebill(&out.subscr, ts(2026, 11, 15, 0, 0, 0), nr, "202611", ts(2026, 12, 1, 0, 0, 0), 100);
    assert_eq!(late.unwrap_err(), ErrorCode::Expired);
}

#[test]
fn inactive_subscription_is_terminal_for_rebilling() {
    let w = World::new();
    let out = w.monthly(0, false, 0);
    let cancel_ctx = ManagerCancel {
        subscr_data: key(40),
        manager_key: w.manager,
        manager_approval: key(5),
    };
    let cancelled = manager_cancel(&out.subscr, &cancel_ctx, &w.mgr).unwrap();
    assert!(!cancelled.active);
    assert_eq!(cancelled.period_budget, out.subscr.period_budget);
    assert_eq!(cancelled.next_rebill, out.subscr.next_rebill);
    let r = w.rebill(
        &cancelled,
        ts(2026, 11, 5, 0, 0, 0),
        ts(2026, 11, 1, 0, 0, 0),
        "202611",
        ts(2026, 12, 1, 0, 0, 0),
        100,
    );
    assert_eq!(r.unwrap_err(), ErrorCode::InactiveSubscription);
    // A second attempt fails the same way: the state is terminal.
    let r2 = w.rebill(
        &cancelled,
        ts(2026, 12, 2, 0, 0, 0),
        ts(2026, 11, 1, 0, 0, 0),
        "202611",
        ts(2026, 12, 1, 0, 0, 0),
        0,
    );
    assert_eq!(r2.unwrap_err(), ErrorCode::InactiveSubscription);
}

#[test]
fn manager_cancel_requires_the_bound_manager() {
    let w = World::new();
    let out = w.monthly(0, false, 0);
    let wrong = ManagerCancel { subscr_data: key(40), manager_key: key(66), manager_approval: key(5) };
    assert_eq!(manager_cancel(&out.subscr, &wrong, &w.mgr).unwrap_err(), ErrorCode::InvalidAccount);
    let off = ManagerApproval { active: false, manager_key: w.manager };
    let right = ManagerCancel { subscr_data: key(40), manager_key: w.manager, manager_approval: key(5) };
    assert_eq!(manager_cancel(&out.subscr, &right, &off).unwrap_err(), ErrorCode::NotApproved);
}

#[test]
fn user_cancellation_touches_only_the_active_flag() {
    let w = World::new();
    let out = w.monthly(0, false, 0);
    let r = update_subscription(
        &out.subscr,
        &w.update_ctx(),
        &w.mrch,
        &w.mgr,
        &w.ata_prog,
        &key(50),
        ts(2026, 10, 16, 0, 0, 0),
        w.dest_bump,
        false,
        false,
        0,
        0,
        2,
        0,
        43200,
        0,
        0,
        false,
        true,
        0,
        0,
        None,
    )
    .unwrap();
    match r {
        UpdateOutcome::Cancelled { subscr } => {
            assert!(!subscr.active);
            assert_eq!(subscr.period_budget, out.subscr.period_budget);
            assert_eq!(subscr.next_rebill, out.subscr.next_rebill);
            assert_eq!(subscr.total_budget, out.subscr.total_budget);
            assert_eq!(subscr.max_delay, out.subscr.max_delay);
        },
        UpdateOutcome::Updated { .. } => panic!("expected cancellation"),
    }
}

#[test]
fn renewal_keeps_counters_and_rebinds() {
    let w = World::new();
    let out = w.monthly(0, false, 0);
    let mut advanced = out.subscr;
    advanced.rebill_events = 3;
    let r = update_subscription(
        &advanced,
        &w.update_ctx(),
        &w.mrch,
        &w.mgr,
        &w.ata_prog,
        &key(50),
        ts(2026, 10, 16, 0, 0, 0),
        w.dest_bump,
        true,
        false,
        0,
        ts(2026, 11, 1, 0, 0, 0),
        2,
        2500,
        2592000,
        0,
        0,
        false,
        true,
        0,
        0,
        None,
    )
    .unwrap();
    match r {
        UpdateOutcome::Updated { subscr, plan } => {
            assert!(subscr.active);
            assert_eq!(subscr.rebill_events, 3);
            assert_eq!(subscr.period_budget, 2500);
            assert_eq!(subscr.max_delay, 2592000);
            assert_eq!(plan.total, 0);
        },
        UpdateOutcome::Cancelled { .. } => panic!("expected renewal"),
    }
}

#[test]
fn renewal_enforces_the_grace_floor() {
    let w = World::new();
    let out = w.monthly(0, false, 0);
    let r = update_subscription(
        &out.subscr,
        &w.update_ctx(),
        &w.mrch,
        &w.mgr,
        &w.ata_prog,
        &key(50),
        ts(2026, 10, 16, 0, 0, 0),
        w.dest_bump,
        true,
        false,
        0,
        ts(2026, 11, 1, 0, 0, 0),
        2,
        2500,
        43199,
        0,
        0,
        false,
        true,
        0,
        0,
        None,
    );
    assert_eq!(r.unwrap_err(), ErrorCode::InvalidTimeframe);
}

#[test]
fn update_manager_reassigns_with_active_approval() {
    let w = World::new();
    let out = w.monthly(0, false, 0);
    let new_mgr = ManagerApproval { active: true, manager_key: key(60) };
    let ctx = UpdateManager {
        subscr_data: key(40),
        manager_prev: w.manager,
        manager_key: key(60),
        manager_approval: key(61),
    };
    let r = update_manager(&out.subscr, &ctx, &new_mgr).unwrap();
    assert_eq!(r.manager_key.bytes, [60u8; 32]);
    assert_eq!(r.manager_approval.bytes, [61u8; 32]);
    assert_eq!(r.rebill_events, out.subscr.rebill_events);
    let wrong_prev = UpdateManager {
        subscr_data: key(40),
        manager_prev: key(99),
        manager_key: key(60),
        manager_approval: key(61),
    };
    assert_eq!(update_manager(&out.subscr, &wrong_prev, &new_mgr).unwrap_err(), ErrorCode::InvalidAccount);
    let keyed_elsewhere = ManagerApproval { active: true, manager_key: key(77) };
    assert_eq!(update_manager(&out.subscr, &ctx, &keyed_elsewhere).unwrap_err(), ErrorCode::InvalidAccount);
}

#[test]
fn close_subscription_is_owner_only() {
    let w = World::new();
    let out = w.monthly(0, false, 0);
    let ok = CloseSubscr { subscr_data: key(40), user_key: w.user, fee_recipient: key(70) };
    assert_eq!(close_subscription(&out.subscr, &ok), Ok(()));
    let other = CloseSubscr { subscr_data: key(40), user_key: key(99), fee_recipient: key(70) };
    assert_eq!(close_subscription(&out.subscr, &other).unwrap_err(), ErrorCode::InvalidAccount);
    // Closing stays allowed after cancellation.
    let cancel_ctx = ManagerCancel { subscr_data: key(40), manager_key: w.manager, manager_approval: key(5) };
    let cancelled = manager_cancel(&out.subscr, &cancel_ctx, &w.mgr).unwrap();
    assert_eq!(close_subscription(&cancelled, &ok), Ok(()));
}

#[test]
fn subscribe_rejects_bad_inputs() {
    let w = World::new();
    let now = ts(2026, 10, 15, 12, 0, 0);
    let nr = ts(2026, 11, 1, 0, 0, 0);
    let go = |period: u8, nvb: i64, nva: i64, max_delay: i64, next: i64, token: AccountId| {
        let mut ctx = w.create_ctx();
        ctx.merchant_token = token;
        subscribe(
            &ctx, &w.mrch, &w.mgr, &w.ata_prog, &key(50), now, false, 0, w.dest_bump, 777,
            period, 1000, false, 0, next, 0, nvb, nva, max_delay, false, true, 0, 0, None,
        )
    };
    assert_eq!(go(9, 0, 0, 0, nr, w.dest_token).unwrap_err(), ErrorCode::InvalidSubscriptionPeriod);
    assert_eq!(go(2, 0, 0, 100, nr, w.dest_token).unwrap_err(), ErrorCode::InvalidTimeframe);
    assert_eq!(
        go(2, ts(2026, 11, 10, 0, 0, 0), ts(2026, 11, 2, 0, 0, 0), 0, ts(2026, 12, 1, 0, 0, 0), w.dest_token)
            .unwrap_err(),
        ErrorCode::InvalidTimeframe
    );
    // A rebill instant inside a period is no boundary.
    assert_eq!(go(2, 0, 0, 0, nr + 60, w.dest_token).unwrap_err(), ErrorCode::InvalidTimeframe);
    // A substituted merchant token account is caught by derivation.
    assert_eq!(go(2, 0, 0, 0, nr, key(99)).unwrap_err(), ErrorCode::InvalidDerivedAccount);
    // A rebill instant in the past is outside the timeframe.
    assert_eq!(go(2, 0, 0, 0, ts(2026, 10, 1, 0, 0, 0), w.dest_token).unwrap_err(), ErrorCode::InvalidTimeframe);
}

#[test]
fn subscribe_with_initial_charge_splits_fees() {
    let w = World::new();
    let out = subscribe(
        &w.create_ctx(),
        &w.mrch,
        &w.mgr,
        &w.ata_prog,
        &w.netauth,
        ts(2026, 10, 15, 12, 0, 0),
        true,
        1000,
        w.dest_bump,
        777,
        2,
        1000,
        false,
        0,
        ts(2026, 11, 1, 0, 0, 0),
        0,
        0,
        0,
        0,
        false,
        true,
        0,
        0,
        None,
    )
    .unwrap();
    assert_eq!(out.plan.total, 1000);
    assert_eq!(out.plan.fee, 10);
    assert_eq!(out.plan.net, 990);
    assert_eq!(out.plan.authority, TransferAuthority::User);
    assert!(out.plan.link_funding);
    assert!(out.plan.record_revenue);
}

#[test]
fn swap_rebill_pulls_and_refunds() {
    let w = World::new();
    // The funding account must be the agent's derived swap destination.
    let (swap_dst, swap_bump) = derive(&w.root, &w.token_prog, &w.mint, &w.ata_prog);
    let ust = key(33);
    let mut ctx = w.create_ctx();
    ctx.token_account = swap_dst;
    let out = subscribe(
        &ctx,
        &w.mrch,
        &w.mgr,
        &w.ata_prog,
        &key(50),
        ts(2026, 10, 15, 12, 0, 0),
        false,
        200,
        w.dest_bump,
        777,
        2,
        1000,
        false,
        0,
        ts(2026, 11, 1, 0, 0, 0),
        0,
        0,
        0,
        0,
        true,
        true,
        0,
        swap_bump,
        Some(ust),
    )
    .unwrap();
    assert_eq!(out.subscr.swap_account.map(|k| k.bytes), Some([33u8; 32]));
    assert_eq!(out.plan.authority, TransferAuthority::Root);
    let sp = out.plan.swap.unwrap();
    assert_eq!(sp.amount, 200);
    assert_eq!(sp.pull_amount, 0);
    assert!(!sp.refund_excess);
    // Rebill through the swap: with no estimate the whole source balance
    // is pulled; with one, the smaller of the two.
    let mut pctx = w.process_ctx();
    pctx.token_account = swap_dst;
    let rebill = |estimate: u64, balance: u64| {
        process(
            &out.subscr,
            &pctx,
            &w.mrch,
            &w.mgr,
            &w.ata_prog,
            &key(50),
            ts(2026, 11, 5, 0, 0, 0),
            w.merchant_bump,
            ts(2026, 11, 1, 0, 0, 0),
            "202611".to_string(),
            ts(2026, 12, 1, 0, 0, 0),
            100,
            estimate,
            Some(SwapInputs { source: ust, source_balance: balance }),
        )
    };
    let r = rebill(0, 70).unwrap();
    let sp = r.plan.swap.unwrap();
    assert_eq!(sp.pull_amount, 70);
    assert!(sp.refund_excess);
    assert_eq!(r.plan.authority, TransferAuthority::Root);
    assert_eq!(rebill(50, 70).unwrap().plan.swap.unwrap().pull_amount, 50);
    assert_eq!(rebill(90, 70).unwrap().plan.swap.unwrap().pull_amount, 70);
    // A substituted swap source is rejected.
    let bad = process(
        &out.subscr,
        &pctx,
        &w.mrch,
        &w.mgr,
        &w.ata_prog,
        &key(50),
        ts(2026, 11, 5, 0, 0, 0),
        w.merchant_bump,
        ts(2026, 11, 1, 0, 0, 0),
        "202611".to_string(),
        ts(2026, 12, 1, 0, 0, 0),
        100,
        0,
        Some(SwapInputs { source: key(34), source_balance: 70 }),
    );
    assert_eq!(bad.unwrap_err(), ErrorCode::InvalidAccount);
}

#[test]
fn swap_mode_must_be_known() {
    let w = World::new();
    let (swap_dst, swap_bump) = derive(&w.root, &w.token_prog, &w.mint, &w.ata_prog);
    let mut ctx = w.create_ctx();
    ctx.token_account = swap_dst;
    let r = subscribe(
        &ctx,
        &w.mrch,
        &w.mgr,
        &w.ata_prog,
        &key(50),
        ts(2026, 10, 15, 12, 0, 0),
        false,
        200,
        w.dest_bump,
        777,
        2,
        1000,
        false,
        0,
        ts(2026, 11, 1, 0, 0, 0),
        0,
        0,
        0,
        0,
        true,
        true,
        7,
        swap_bump,
        Some(key(33)),
    );
    assert_eq!(r.unwrap_err(), ErrorCode::InvalidSwapMode);
}

#[test]
fn swap_refund_is_the_balance_growth() {
    assert_eq!(swap_refund_amount(30, 45), Ok(15));
    assert_eq!(swap_refund_amount(30, 30), Ok(0));
    assert_eq!(swap_refund_amount(45, 30), Err(ErrorCode::Overflow));
}

#[test]
fn oversized_fee_rate_aborts_the_rebill() {
    let mut w = World::new();
    w.mrch.fees_bps = 20000;
    let out = w.monthly(0, false, 0);
    let r = w.rebill(
        &out.subscr,
        ts(2026, 11, 5, 0, 0, 0),
        ts(2026, 11, 1, 0, 0, 0),
        "202611",
        ts(2026, 12, 1, 0, 0, 0),
        100,
    );
    assert_eq!(r.unwrap_err(), ErrorCode::Overflow);
}

#[test]
fn zero_amount_rebill_still_advances_the_schedule() {
    let w = World::new();
    let out = w.monthly(0, false, 0);
    let r = w
        .rebill(
            &out.subscr,
            ts(2026, 11, 5, 0, 0, 0),
            ts(2026, 11, 1, 0, 0, 0),
            "202611",
            ts(2026, 12, 1, 0, 0, 0),
            0,
        )
        .unwrap();
    assert_eq!(r.subscr.rebill_events, 1);
    assert_eq!(r.plan.total, 0);
    assert_eq!(r.plan.fee, 0);
    assert_eq!(r.plan.net, 0);
    assert!(!r.plan.record_revenue);
}
