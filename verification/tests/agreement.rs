use rentguard::{
    approve_deposit_return, create_rental_agreement, deposit_security, file_dispute, pay_rent,
    record_rent_payment, resolve_dispute, terminate_lease, withdraw_rent, AccountKey,
    AgreementStatus, ApproveDepositReturn, CreateRentalAgreement, DepositSecurity,
    DisputeStatus, FileDispute, PayRent, RentGuardError, RentalAgreement, ResolveDispute,
    TerminateLease, WithdrawRent,
};

const DAY: i64 = 86400;
const START: i64 = 1_700_000_000;
const END: i64 = START + 365 * DAY;

fn key(b: u8) -> AccountKey {
    AccountKey::new([b; 32])
}

fn landlord() -> AccountKey {
    key(1)
}

fn tenant() -> AccountKey {
    key(2)
}

fn stranger() -> AccountKey {
    key(9)
}

fn escrow() -> AccountKey {
    key(7)
}

fn new_agreement() -> RentalAgreement {
    let ctx = CreateRentalAgreement {
        rental_agreement: escrow(),
        landlord: landlord(),
        tenant: tenant(),
        now: START - DAY,
        bump: 254,
    };
    let (a, _) = create_rental_agreement(
        &ctx,
        2_000_000_000,
        4_000_000_000,
        1,
        START,
        END,
        String::from("12 Main Street"),
    )
    .unwrap();
    a
}

fn active_agreement() -> RentalAgreement {
    let mut ctx = DepositSecurity {
        rental_agreement: new_agreement(),
        agreement_address: escrow(),
        tenant: tenant(),
        now: START,
    };
    deposit_security(&mut ctx).unwrap();
    ctx.rental_agreement
}

fn terminated_agreement() -> RentalAgreement {
    let mut ctx = TerminateLease {
        rental_agreement: active_agreement(),
        agreement_address: escrow(),
        initiator: tenant(),
        now: START + 100 * DAY,
    };
    terminate_lease(&mut ctx).unwrap();
    ctx.rental_agreement
}

#[test]
fn create_sets_terms_and_empty_state() {
    let ctx = CreateRentalAgreement {
        rental_agreement: escrow(),
        landlord: landlord(),
        tenant: tenant(),
        now: 42,
        bump: 253,
    };
    let (a, ev) = create_rental_agreement(&ctx, 2, 4, 28, 10, 11, String::from("Flat 3"))
        .unwrap();
    assert_eq!(a.landlord.bytes, [1u8; 32]);
    assert_eq!(a.tenant.bytes, [2u8; 32]);
    assert_eq!(a.property_address, "Flat 3");
    assert_eq!(a.rent_amount, 2);
    assert_eq!(a.deposit_amount, 4);
    assert_eq!(a.rent_due_day, 28);
    assert_eq!(a.created_at, 42);
    assert_eq!(a.status, AgreementStatus::Created);
    assert!(!a.deposit_paid);
    assert_eq!(a.deposit_in_escrow, 0);
    assert_eq!(a.dispute_status, DisputeStatus::NoDispute);
    assert_eq!(a.dispute_reason, "");
    assert!(a.dispute_filed_by.is_none());
    assert!(a.arbitrator.is_none());
    assert_eq!(a.bump, 253);
    assert_eq!(ev.agreement.bytes, [7u8; 32]);
    assert_eq!(ev.rent_amount, 2);
    assert_eq!(ev.deposit_amount, 4);
    assert_eq!(ev.lease_start_date, 10);
    assert_eq!(ev.lease_end_date, 11);
}

#[test]
fn create_refuses_bad_terms_in_order() {
    let ctx = CreateRentalAgreement {
        rental_agreement: escrow(),
        landlord: landlord(),
        tenant: tenant(),
        now: 0,
        bump: 0,
    };
    let r = create_rental_agreement(&ctx, 1, 1, 0, 10, 5, "x".repeat(300));
    assert!(matches!(r, Err(RentGuardError::InvalidRentDueDay)));
    let r = create_rental_agreement(&ctx, 1, 1, 29, 10, 20, String::new());
    assert!(matches!(r, Err(RentGuardError::InvalidRentDueDay)));
    let r = create_rental_agreement(&ctx, 1, 1, 1, 10, 10, "x".repeat(300));
    assert!(matches!(r, Err(RentGuardError::InvalidLeaseDates)));
    let r = create_rental_agreement(&ctx, 1, 1, 1, 10, 11, "x".repeat(201));
    assert!(matches!(r, Err(RentGuardError::PropertyAddressTooLong)));
    assert!(create_rental_agreement(&ctx, 1, 1, 1, 10, 11, "x".repeat(200)).is_ok());
    // The limit counts bytes: 67 three-byte characters are 201 bytes.
    let r = create_rental_agreement(&ctx, 1, 1, 1, 10, 11, "\u{20ac}".repeat(67));
    assert!(matches!(r, Err(RentGuardError::PropertyAddressTooLong)));
}

#[test]
fn deposit_moves_agreement_to_active() {
    let mut ctx = DepositSecurity {
        rental_agreement: new_agreement(),
        agreement_address: escrow(),
        tenant: tenant(),
        now: START + 5,
    };
    let (ev, t) = deposit_security(&mut ctx).unwrap();
    assert_eq!(ctx.rental_agreement.status, AgreementStatus::Active);
    assert!(ctx.rental_agreement.deposit_paid);
    assert_eq!(ctx.rental_agreement.deposit_in_escrow, 4_000_000_000);
    assert_eq!(t.lamports, 4_000_000_000);
    assert_eq!(t.from.bytes, tenant().bytes);
    assert_eq!(t.to.bytes, escrow().bytes);
    assert_eq!(ev.amount, 4_000_000_000);
    assert_eq!(ev.timestamp, START + 5);
}

#[test]
fn deposit_refusals() {
    let mut ctx = DepositSecurity {
        rental_agreement: new_agreement(),
        agreement_address: escrow(),
        tenant: stranger(),
        now: START,
    };
    assert!(matches!(deposit_security(&mut ctx), Err(RentGuardError::UnauthorizedTenant)));
    assert_eq!(ctx.rental_agreement.status, AgreementStatus::Created);
    let mut ctx = DepositSecurity {
        rental_agreement: active_agreement(),
        agreement_address: escrow(),
        tenant: tenant(),
        now: START,
    };
    assert!(matches!(deposit_security(&mut ctx), Err(RentGuardError::InvalidAgreementStatus)));
    let mut a = new_agreement();
    a.deposit_paid = true;
    let mut ctx = DepositSecurity {
        rental_agreement: a,
        agreement_address: escrow(),
        tenant: tenant(),
        now: START,
    };
    assert!(matches!(deposit_security(&mut ctx), Err(RentGuardError::DepositAlreadyPaid)));
}

fn pay_ctx(a: RentalAgreement, now: i64) -> PayRent {
    PayRent { rental_agreement: a, agreement_address: escrow(), tenant: tenant(), now }
}

#[test]
fn rent_is_due_after_25_days_and_on_time_within_35() {
    let a = active_agreement();
    assert!(matches!(pay_rent(&pay_ctx(a.clone(), START + 25 * DAY - 1)), Err(
        RentGuardError::RentNotDue
    )));
    let p = pay_rent(&pay_ctx(a.clone(), START + 25 * DAY)).unwrap();
    assert!(p.is_on_time);
    assert_eq!(p.transfer.lamports, 2_000_000_000);
    assert_eq!(p.transfer.to.bytes, escrow().bytes);
    let p = pay_rent(&pay_ctx(a.clone(), START + 36 * DAY - 1)).unwrap();
    assert!(p.is_on_time);
    let p = pay_rent(&pay_ctx(a, START + 36 * DAY)).unwrap();
    assert!(!p.is_on_time);
}

#[test]
fn recorded_payment_counts_and_blocks_the_period() {
    let mut ctx = pay_ctx(active_agreement(), START + 30 * DAY);
    let p = pay_rent(&ctx).unwrap();
    let ev = record_rent_payment(&mut ctx, p.is_on_time).unwrap();
    assert!(ev.is_on_time);
    assert_eq!(ev.amount, 2_000_000_000);
    assert_eq!(ev.payment_date, START + 30 * DAY);
    let a = ctx.rental_agreement.clone();
    assert_eq!(a.last_rent_payment, START + 30 * DAY);
    assert_eq!(a.total_rent_paid, 2_000_000_000);
    assert_eq!(a.on_time_payments, 1);
    assert_eq!(a.missed_payments, 0);
    // The next payment counts from the last one.
    assert!(matches!(pay_rent(&pay_ctx(a.clone(), START + 54 * DAY)), Err(
        RentGuardError::RentNotDue
    )));
    let late = pay_rent(&pay_ctx(a.clone(), START + 70 * DAY)).unwrap();
    assert!(!late.is_on_time);
    let mut ctx = pay_ctx(a, START + 70 * DAY);
    record_rent_payment(&mut ctx, late.is_on_time).unwrap();
    assert_eq!(ctx.rental_agreement.missed_payments, 1);
    assert_eq!(ctx.rental_agreement.total_rent_paid, 4_000_000_000);
}

#[test]
fn rent_refusals_in_order() {
    let created = new_agreement();
    assert!(matches!(pay_rent(&pay_ctx(created, START + 30 * DAY)), Err(
        RentGuardError::InvalidAgreementStatus
    )));
    let mut unpaid = active_agreement();
    unpaid.deposit_paid = false;
    assert!(matches!(pay_rent(&pay_ctx(unpaid, START + 30 * DAY)), Err(
        RentGuardError::DepositNotPaid
    )));
    let mut ctx = pay_ctx(active_agreement(), START + 30 * DAY);
    ctx.tenant = stranger();
    assert!(matches!(pay_rent(&ctx), Err(RentGuardError::UnauthorizedTenant)));
    assert!(matches!(pay_rent(&pay_ctx(active_agreement(), START - 1)), Err(
        RentGuardError::LeaseNotStarted
    )));
    assert!(matches!(pay_rent(&pay_ctx(active_agreement(), END + 1)), Err(
        RentGuardError::LeaseEnded
    )));
}

#[test]
fn record_refuses_counter_overflow_and_changes_nothing() {
    let mut a = active_agreement();
    a.on_time_payments = 255;
    let mut ctx = pay_ctx(a.clone(), START + 30 * DAY);
    assert!(matches!(record_rent_payment(&mut ctx, true), Err(
        RentGuardError::ArithmeticOverflow
    )));
    assert_eq!(ctx.rental_agreement.last_rent_payment, 0);
    assert!(record_rent_payment(&mut ctx, false).is_ok());
    let mut b = active_agreement();
    b.total_rent_paid = u64::MAX;
    let mut ctx = pay_ctx(b, START + 30 * DAY);
    assert!(matches!(record_rent_payment(&mut ctx, false), Err(
        RentGuardError::ArithmeticOverflow
    )));
}

fn withdraw_ctx(lamports: u64, exempt: u64) -> WithdrawRent {
    WithdrawRent {
        rental_agreement: active_agreement(),
        agreement_address: escrow(),
        landlord: landlord(),
        now: START + 40 * DAY,
        agreement_lamports: lamports,
        rent_exempt_minimum: exempt,
    }
}

#[test]
fn withdraw_takes_everything_but_deposit_and_rent_exemption() {
    let (ev, t) = withdraw_rent(&withdraw_ctx(6_000_010_000, 10_000)).unwrap();
    assert_eq!(t.lamports, 2_000_000_000);
    assert_eq!(ev.amount, 2_000_000_000);
    assert_eq!(t.from.bytes, escrow().bytes);
    assert_eq!(t.to.bytes, landlord().bytes);
}

#[test]
fn withdraw_refusals() {
    let mut ctx = withdraw_ctx(6_000_010_000, 10_000);
    ctx.landlord = tenant();
    assert!(matches!(withdraw_rent(&ctx), Err(RentGuardError::UnauthorizedLandlord)));
    assert!(matches!(withdraw_rent(&withdraw_ctx(3_999_999_999, 0)), Err(
        RentGuardError::ArithmeticOverflow
    )));
    assert!(matches!(withdraw_rent(&withdraw_ctx(4_000_000_100, 101)), Err(
        RentGuardError::NoRentToWithdraw
    )));
    assert!(matches!(withdraw_rent(&withdraw_ctx(4_000_000_100, 100)), Err(
        RentGuardError::NoRentToWithdraw
    )));
}

#[test]
fn terminate_by_either_party_only() {
    let mut ctx = TerminateLease {
        rental_agreement: active_agreement(),
        agreement_address: escrow(),
        initiator: stranger(),
        now: START + DAY,
    };
    assert!(matches!(terminate_lease(&mut ctx), Err(RentGuardError::UnauthorizedLandlord)));
    ctx.initiator = landlord();
    let ev = terminate_lease(&mut ctx).unwrap();
    assert_eq!(ev.initiated_by.bytes, landlord().bytes);
    assert_eq!(ctx.rental_agreement.status, AgreementStatus::TerminationPending);
    assert!(matches!(terminate_lease(&mut ctx), Err(RentGuardError::InvalidAgreementStatus)));
}

#[test]
fn terminate_refused_during_dispute() {
    let mut a = active_agreement();
    a.dispute_status = DisputeStatus::Filed;
    let mut ctx = TerminateLease {
        rental_agreement: a,
        agreement_address: escrow(),
        initiator: tenant(),
        now: START + DAY,
    };
    assert!(matches!(terminate_lease(&mut ctx), Err(
        RentGuardError::CannotTerminateDuringDispute
    )));
}

fn approve_ctx(a: RentalAgreement, approver: AccountKey) -> ApproveDepositReturn {
    ApproveDepositReturn {
        rental_agreement: a,
        agreement_address: escrow(),
        approver,
        landlord_account: landlord(),
        tenant_account: tenant(),
        now: START + 101 * DAY,
    }
}

#[test]
fn deposit_returned_once_both_approve() {
    let mut ctx = approve_ctx(terminated_agreement(), landlord());
    let first = approve_deposit_return(&mut ctx, 3_500_000_000, 500_000_000).unwrap();
    assert!(first.is_none());
    assert!(ctx.rental_agreement.landlord_deposit_approval);
    assert!(!ctx.rental_agreement.tenant_deposit_approval);
    assert_eq!(ctx.rental_agreement.deposit_in_escrow, 4_000_000_000);
    // Approving again by the same party still waits for the other.
    assert!(approve_deposit_return(&mut ctx, 3_500_000_000, 500_000_000).unwrap().is_none());
    ctx.approver = tenant();
    let (ev, transfers) = approve_deposit_return(&mut ctx, 3_500_000_000, 500_000_000)
        .unwrap()
        .unwrap();
    assert_eq!(ev.tenant_amount, 3_500_000_000);
    assert_eq!(ev.landlord_amount, 500_000_000);
    assert_eq!(transfers.len(), 2);
    assert_eq!(transfers[0].to.bytes, tenant().bytes);
    assert_eq!(transfers[0].lamports, 3_500_000_000);
    assert_eq!(transfers[1].to.bytes, landlord().bytes);
    assert_eq!(transfers[1].lamports, 500_000_000);
    assert_eq!(ctx.rental_agreement.deposit_in_escrow, 0);
    assert_eq!(ctx.rental_agreement.status, AgreementStatus::Completed);
    assert_eq!(ctx.rental_agreement.approved_tenant_return, 3_500_000_000);
}

#[test]
fn a_different_split_withdraws_the_other_approval() {
    let mut ctx = approve_ctx(terminated_agreement(), tenant());
    assert!(approve_deposit_return(&mut ctx, 4_000_000_000, 0).unwrap().is_none());
    ctx.approver = landlord();
    // The landlord approves another split: nothing is paid, the tenant must approve again.
    assert!(approve_deposit_return(&mut ctx, 0, 4_000_000_000).unwrap().is_none());
    assert!(ctx.rental_agreement.landlord_deposit_approval);
    assert!(!ctx.rental_agreement.tenant_deposit_approval);
    assert_eq!(ctx.rental_agreement.deposit_in_escrow, 4_000_000_000);
    assert_eq!(ctx.rental_agreement.status, AgreementStatus::TerminationPending);
    ctx.approver = tenant();
    let (_, transfers) = approve_deposit_return(&mut ctx, 0, 4_000_000_000).unwrap().unwrap();
    assert_eq!(transfers.len(), 1);
    assert_eq!(transfers[0].to.bytes, landlord().bytes);
    assert_eq!(transfers[0].lamports, 4_000_000_000);
}

#[test]
fn deposit_goes_only_to_the_parties() {
    // A first approval pays nothing out, so its receiving accounts are not looked at.
    let mut ctx = approve_ctx(terminated_agreement(), tenant());
    ctx.tenant_account = stranger();
    assert!(approve_deposit_return(&mut ctx, 4_000_000_000, 0).unwrap().is_none());
    assert!(ctx.rental_agreement.tenant_deposit_approval);
    // The approval that would pay out must name the parties.
    ctx.approver = landlord();
    assert!(matches!(approve_deposit_return(&mut ctx, 4_000_000_000, 0), Err(
        RentGuardError::UnauthorizedTenant
    )));
    ctx.tenant_account = tenant();
    ctx.landlord_account = stranger();
    assert!(matches!(approve_deposit_return(&mut ctx, 4_000_000_000, 0), Err(
        RentGuardError::UnauthorizedLandlord
    )));
    assert!(!ctx.rental_agreement.landlord_deposit_approval);
    assert_eq!(ctx.rental_agreement.deposit_in_escrow, 4_000_000_000);
    // Checks of the approver and the split come first.
    let mut ctx = approve_ctx(terminated_agreement(), stranger());
    ctx.tenant_account = stranger();
    assert!(matches!(approve_deposit_return(&mut ctx, 4_000_000_000, 0), Err(
        RentGuardError::UnauthorizedLandlord
    )));
    ctx.approver = tenant();
    assert!(matches!(approve_deposit_return(&mut ctx, u64::MAX, 1), Err(
        RentGuardError::ArithmeticOverflow
    )));
}

#[test]
fn approve_refusals() {
    let mut ctx = approve_ctx(active_agreement(), landlord());
    assert!(matches!(approve_deposit_return(&mut ctx, 4_000_000_000, 0), Err(
        RentGuardError::InvalidAgreementStatus
    )));
    let mut ctx = approve_ctx(terminated_agreement(), stranger());
    assert!(matches!(approve_deposit_return(&mut ctx, 4_000_000_000, 0), Err(
        RentGuardError::UnauthorizedLandlord
    )));
    let mut ctx = approve_ctx(terminated_agreement(), tenant());
    assert!(matches!(approve_deposit_return(&mut ctx, u64::MAX, 1), Err(
        RentGuardError::ArithmeticOverflow
    )));
    assert!(matches!(approve_deposit_return(&mut ctx, 1, 1), Err(
        RentGuardError::InvalidDepositDistribution
    )));
    assert!(!ctx.rental_agreement.tenant_deposit_approval);
}

fn dispute_ctx(a: RentalAgreement, filer: AccountKey) -> FileDispute {
    FileDispute { rental_agreement: a, agreement_address: escrow(), filer, now: START + 3 * DAY }
}

#[test]
fn dispute_filed_then_resolved() {
    let mut ctx = dispute_ctx(active_agreement(), tenant());
    let ev = file_dispute(&mut ctx, String::from("heater broken"), 1_000).unwrap();
    assert_eq!(ev.reason, "heater broken");
    assert_eq!(ev.requested_amount, 1_000);
    let a = ctx.rental_agreement.clone();
    assert_eq!(a.status, AgreementStatus::DisputePending);
    assert_eq!(a.dispute_status, DisputeStatus::Filed);
    assert_eq!(a.dispute_reason, "heater broken");
    assert_eq!(a.dispute_filed_by.unwrap().bytes, tenant().bytes);
    assert!(matches!(file_dispute(&mut ctx, String::new(), 0), Err(
        RentGuardError::DisputeAlreadyFiled
    )));
    let mut r = ResolveDispute {
        rental_agreement: a,
        agreement_address: escrow(),
        arbitrator: key(5),
        landlord_account: landlord(),
        tenant_account: tenant(),
        now: START + 10 * DAY,
    };
    let (ev, transfers) = resolve_dispute(&mut r, 4_000_000_000, 0).unwrap();
    assert_eq!(ev.resolved_by.bytes, [5u8; 32]);
    assert_eq!(transfers.len(), 1);
    assert_eq!(transfers[0].lamports, 4_000_000_000);
    assert_eq!(r.rental_agreement.status, AgreementStatus::Completed);
    assert_eq!(r.rental_agreement.dispute_status, DisputeStatus::Resolved);
    assert_eq!(r.rental_agreement.deposit_in_escrow, 0);
    assert_eq!(r.rental_agreement.arbitrator.unwrap().bytes, [5u8; 32]);
    assert!(matches!(resolve_dispute(&mut r, 0, 0), Err(RentGuardError::NoActiveDispute)));
}

#[test]
fn parties_cannot_decide_their_dispute() {
    let mut ctx = dispute_ctx(active_agreement(), tenant());
    file_dispute(&mut ctx, String::from("noise"), 0).unwrap();
    for who in [landlord(), tenant()] {
        let mut r = ResolveDispute {
            rental_agreement: ctx.rental_agreement.clone(),
            agreement_address: escrow(),
            arbitrator: who,
            landlord_account: landlord(),
            tenant_account: tenant(),
            now: START,
        };
        assert!(matches!(resolve_dispute(&mut r, 4_000_000_000, 0), Err(
            RentGuardError::UnauthorizedArbitrator
        )));
        assert_eq!(r.rental_agreement.deposit_in_escrow, 4_000_000_000);
    }
    let mut r = ResolveDispute {
        rental_agreement: ctx.rental_agreement.clone(),
        agreement_address: escrow(),
        arbitrator: key(5),
        landlord_account: stranger(),
        tenant_account: tenant(),
        now: START,
    };
    assert!(matches!(resolve_dispute(&mut r, 4_000_000_000, 0), Err(
        RentGuardError::UnauthorizedLandlord
    )));
    r.landlord_account = landlord();
    r.tenant_account = stranger();
    assert!(matches!(resolve_dispute(&mut r, 4_000_000_000, 0), Err(
        RentGuardError::UnauthorizedTenant
    )));
    // The split is checked first.
    assert!(matches!(resolve_dispute(&mut r, u64::MAX, 1), Err(RentGuardError::ArithmeticOverflow)));
    r.arbitrator = tenant();
    assert!(matches!(resolve_dispute(&mut r, 1, 1), Err(
        RentGuardError::InvalidDepositDistribution
    )));
}

#[test]
fn dispute_refusals() {
    let mut ctx = dispute_ctx(active_agreement(), stranger());
    assert!(matches!(file_dispute(&mut ctx, String::new(), 0), Err(
        RentGuardError::UnauthorizedLandlord
    )));
    ctx.filer = landlord();
    assert!(matches!(file_dispute(&mut ctx, "r".repeat(501), 0), Err(
        RentGuardError::DisputeReasonTooLong
    )));
    assert!(file_dispute(&mut ctx, "r".repeat(500), 0).is_ok());
    let mut ctx = dispute_ctx(active_agreement(), landlord());
    file_dispute(&mut ctx, String::new(), 0).unwrap();
    let mut r = ResolveDispute {
        rental_agreement: ctx.rental_agreement.clone(),
        agreement_address: escrow(),
        arbitrator: key(5),
        landlord_account: landlord(),
        tenant_account: tenant(),
        now: START,
    };
    assert!(matches!(resolve_dispute(&mut r, u64::MAX, 2), Err(
        RentGuardError::ArithmeticOverflow
    )));
    assert!(matches!(resolve_dispute(&mut r, 1, 2), Err(
        RentGuardError::InvalidDepositDistribution
    )));
    assert_eq!(r.rental_agreement.status, AgreementStatus::DisputePending);
}

#[test]
fn completed_lease_is_closed() {
    let mut ctx = approve_ctx(terminated_agreement(), landlord());
    approve_deposit_return(&mut ctx, 0, 4_000_000_000).unwrap();
    ctx.approver = tenant();
    approve_deposit_return(&mut ctx, 0, 4_000_000_000).unwrap();
    let done = ctx.rental_agreement.clone();
    assert_eq!(done.status, AgreementStatus::Completed);
    let mut d = DepositSecurity {
        rental_agreement: done.clone(),
        agreement_address: escrow(),
        tenant: tenant(),
        now: END,
    };
    assert!(deposit_security(&mut d).is_err());
    assert!(pay_rent(&pay_ctx(done.clone(), START + 200 * DAY)).is_err());
    let mut t = TerminateLease {
        rental_agreement: done.clone(),
        agreement_address: escrow(),
        initiator: tenant(),
        now: END,
    };
    assert!(terminate_lease(&mut t).is_err());
    let mut again = approve_ctx(done, tenant());
    assert!(approve_deposit_return(&mut again, 0, 0).is_err());
}

#[test]
fn one_party_alone_never_releases_the_deposit() {
    let mut ctx = approve_ctx(terminated_agreement(), tenant());
    for _ in 0..3 {
        assert!(approve_deposit_return(&mut ctx, 2_000_000_000, 2_000_000_000).unwrap().is_none());
    }
    assert_eq!(ctx.rental_agreement.deposit_in_escrow, 4_000_000_000);
    assert_eq!(ctx.rental_agreement.status, AgreementStatus::TerminationPending);
}

#[test]
fn terms_unchanged_over_a_lease() {
    let created = new_agreement();
    let mut pay = pay_ctx(active_agreement(), START + 30 * DAY);
    let p = pay_rent(&pay).unwrap();
    record_rent_payment(&mut pay, p.is_on_time).unwrap();
    let mut t = TerminateLease {
        rental_agreement: pay.rental_agreement.clone(),
        agreement_address: escrow(),
        initiator: landlord(),
        now: START + 40 * DAY,
    };
    terminate_lease(&mut t).unwrap();
    let mut ap = approve_ctx(t.rental_agreement.clone(), landlord());
    approve_deposit_return(&mut ap, 4_000_000_000, 0).unwrap();
    ap.approver = tenant();
    approve_deposit_return(&mut ap, 4_000_000_000, 0).unwrap();
    let done = ap.rental_agreement;
    assert_eq!(done.landlord.bytes, created.landlord.bytes);
    assert_eq!(done.tenant.bytes, created.tenant.bytes);
    assert_eq!(done.property_address, created.property_address);
    assert_eq!(done.rent_amount, created.rent_amount);
    assert_eq!(done.deposit_amount, created.deposit_amount);
    assert_eq!(done.rent_due_day, created.rent_due_day);
    assert_eq!(done.lease_start_date, created.lease_start_date);
    assert_eq!(done.lease_end_date, created.lease_end_date);
    assert_eq!(done.created_at, created.created_at);
    assert_eq!(done.bump, created.bump);
    assert_eq!(done.total_rent_paid, done.rent_amount);
    assert_eq!(done.status, AgreementStatus::Completed);
}
