use vstd::prelude::*;

use crate::errors::RentGuardError;
use crate::events::{
    AgreementCreated, DepositPaid, DepositReturned, DisputeFiled, DisputeResolved,
    LeaseTerminated, RentPaid, RentWithdrawn,
};
use crate::key::AccountKey;
use crate::state::{byte_len, AgreementStatus, DisputeStatus, RentalAgreement};
use crate::transfer::{make_payouts, payouts, total_lamports, Transfer, lemma_payouts_total};

verus! {

/// Seconds in a day.
pub const SECONDS_PER_DAY: i64 = 86400;

/// Rent falls due this many days after the last payment (or the lease start).
pub const RENT_DUE_AFTER_DAYS: i64 = 25;

/// A payment made within this many days after the last one is on time.
pub const ON_TIME_WITHIN_DAYS: i64 = 35;

/// Whether `key` is the landlord or the tenant of the agreement.
pub open spec fn is_party(a: RentalAgreement, key: AccountKey) -> bool {
    key.same(a.landlord) || key.same(a.tenant)
}

fn is_party_exec(a: &RentalAgreement, key: &AccountKey) -> (res: bool)
    ensures
        res == is_party(*a, *key),
{
    key.key_eq(&a.landlord) || key.key_eq(&a.tenant)
}

// ============================================
// CREATE RENTAL AGREEMENT
// ============================================

/// What creating an agreement reads: the new agreement's address, the two parties,
/// the clock and the address's bump seed.
pub struct CreateRentalAgreement {
    pub rental_agreement: AccountKey,
    pub landlord: AccountKey,
    pub tenant: AccountKey,
    /// The cluster's unix time.
    pub now: i64,
    pub bump: u8,
}

/// The error with which the creation of an agreement is refused, if it is.
pub open spec fn create_error(
    rent_due_day: u8,
    lease_start_date: i64,
    lease_end_date: i64,
    property_address: Seq<char>,
) -> Option<RentGuardError> {
    if rent_due_day < 1 || rent_due_day > 28 {
        Some(RentGuardError::InvalidRentDueDay)
    } else if lease_end_date <= lease_start_date {
        Some(RentGuardError::InvalidLeaseDates)
    } else if byte_len(property_address) > RentalAgreement::MAX_ADDRESS_LEN {
        Some(RentGuardError::PropertyAddressTooLong)
    } else {
        None
    }
}

/// The landlord creates an agreement with the tenant: the terms, no deposit, no rent
/// paid, no approval and no dispute.
pub fn create_rental_agreement(
    ctx: &CreateRentalAgreement,
    rent_amount: u64,
    deposit_amount: u64,
    rent_due_day: u8,
    lease_start_date: i64,
    lease_end_date: i64,
    property_address: String,
) -> (res: Result<(RentalAgreement, AgreementCreated), RentGuardError>)
    requires
        byte_len(property_address@) <= usize::MAX,
    ensures
        match res {
            Err(e) => create_error(
                rent_due_day,
                lease_start_date,
                lease_end_date,
                property_address@,
            ) == Some(e),
            Ok((a, event)) => {
                &&& create_error(
                    rent_due_day,
                    lease_start_date,
                    lease_end_date,
                    property_address@,
                ) is None
                &&& a.landlord == ctx.landlord
                &&& a.tenant == ctx.tenant
                &&& a.property_address == property_address
                &&& a.rent_amount == rent_amount
                &&& a.deposit_amount == deposit_amount
                &&& a.rent_due_day == rent_due_day
                &&& a.lease_start_date == lease_start_date
                &&& a.lease_end_date == lease_end_date
                &&& a.created_at == ctx.now
                &&& a.status == AgreementStatus::Created
                &&& !a.deposit_paid
                &&& a.last_rent_payment == 0
                &&& a.total_rent_paid == 0
                &&& a.missed_payments == 0
                &&& a.on_time_payments == 0
                &&& a.deposit_in_escrow == 0
                &&& !a.landlord_deposit_approval
                &&& !a.tenant_deposit_approval
                &&& a.approved_tenant_return == 0
                &&& a.approved_landlord_return == 0
                &&& a.dispute_status == DisputeStatus::NoDispute
                &&& a.dispute_reason@ == Seq::<char>::empty()
                &&& a.dispute_requested_amount == 0
                &&& a.dispute_filed_by is None
                &&& a.arbitrator is None
                &&& a.bump == ctx.bump
                &&& !a.landlord_rated
                &&& !a.tenant_rated
                &&& a.wf()
                &&& event == (AgreementCreated {
                    agreement: ctx.rental_agreement,
                    landlord: ctx.landlord,
                    tenant: ctx.tenant,
                    rent_amount,
                    deposit_amount,
                    lease_start_date,
                    lease_end_date,
                })
            },
        },
{
    if !(rent_due_day >= 1 && rent_due_day <= 28) {
        return Err(RentGuardError::InvalidRentDueDay);
    }
    if !(lease_end_date > lease_start_date) {
        return Err(RentGuardError::InvalidLeaseDates);
    }
    if !(property_address.as_str().len() <= RentalAgreement::MAX_ADDRESS_LEN) {
        return Err(RentGuardError::PropertyAddressTooLong);
    }
    let reason = String::new();
    assert(byte_len(reason@) == 0);
    let agreement = RentalAgreement {
        landlord: ctx.landlord,
        tenant: ctx.tenant,
        property_address,
        rent_amount,
        deposit_amount,
        rent_due_day,
        lease_start_date,
        lease_end_date,
        created_at: ctx.now,
        status: AgreementStatus::Created,
        deposit_paid: false,
        last_rent_payment: 0,
        total_rent_paid: 0,
        missed_payments: 0,
        on_time_payments: 0,
        deposit_in_escrow: 0,
        landlord_deposit_approval: false,
        tenant_deposit_approval: false,
        approved_tenant_return: 0,
        approved_landlord_return: 0,
        dispute_status: DisputeStatus::NoDispute,
        dispute_reason: reason,
        dispute_requested_amount: 0,
        dispute_filed_by: None,
        arbitrator: None,
        bump: ctx.bump,
        landlord_rated: false,
        tenant_rated: false,
    };
    let event = AgreementCreated {
        agreement: ctx.rental_agreement,
        landlord: ctx.landlord,
        tenant: ctx.tenant,
        rent_amount,
        deposit_amount,
        lease_start_date,
        lease_end_date,
    };
    Ok((agreement, event))
}

// ============================================
// DEPOSIT SECURITY
// ============================================

/// What paying the deposit reads: the agreement and its address, the tenant who signs
/// and the clock.
pub struct DepositSecurity {
    pub rental_agreement: RentalAgreement,
    pub agreement_address: AccountKey,
    pub tenant: AccountKey,
    /// The cluster's unix time.
    pub now: i64,
}

/// The error with which a deposit is refused, if it is.
pub open spec fn deposit_error(a: RentalAgreement, tenant: AccountKey) -> Option<RentGuardError> {
    if a.status != AgreementStatus::Created {
        Some(RentGuardError::InvalidAgreementStatus)
    } else if a.deposit_paid {
        Some(RentGuardError::DepositAlreadyPaid)
    } else if !tenant.same(a.tenant) {
        Some(RentGuardError::UnauthorizedTenant)
    } else {
        None
    }
}

/// The agreement once the deposit is in escrow.
pub open spec fn with_deposit(a: RentalAgreement) -> RentalAgreement {
    RentalAgreement {
        deposit_paid: true,
        deposit_in_escrow: a.deposit_amount,
        status: AgreementStatus::Active,
        ..a
    }
}

/// The tenant pays the security deposit into escrow, which starts the lease. The
/// caller moves the deposit from the tenant to the agreement's account as the
/// returned transfer says; the new state stands only if that transfer succeeds.
pub fn deposit_security(ctx: &mut DepositSecurity) -> (res: Result<(DepositPaid, Transfer), RentGuardError>)
    ensures
        match res {
            Err(e) => {
                &&& deposit_error(old(ctx).rental_agreement, old(ctx).tenant) == Some(e)
                &&& *final(ctx) == *old(ctx)
            },
            Ok((event, transfer)) => {
                &&& deposit_error(old(ctx).rental_agreement, old(ctx).tenant) is None
                &&& *final(ctx) == (DepositSecurity {
                    rental_agreement: with_deposit(old(ctx).rental_agreement),
                    ..*old(ctx)
                })
                &&& transfer == (Transfer {
                    from: old(ctx).tenant,
                    to: old(ctx).agreement_address,
                    lamports: old(ctx).rental_agreement.deposit_amount,
                })
                &&& event == (DepositPaid {
                    agreement: old(ctx).agreement_address,
                    tenant: old(ctx).tenant,
                    amount: old(ctx).rental_agreement.deposit_amount,
                    timestamp: old(ctx).now,
                })
            },
        },
        old(ctx).rental_agreement.wf() ==> final(ctx).rental_agreement.wf(),
{
    if ctx.rental_agreement.status != AgreementStatus::Created {
        return Err(RentGuardError::InvalidAgreementStatus);
    }
    if ctx.rental_agreement.deposit_paid {
        return Err(RentGuardError::DepositAlreadyPaid);
    }
    if !ctx.tenant.key_eq(&ctx.rental_agreement.tenant) {
        return Err(RentGuardError::UnauthorizedTenant);
    }
    let amount = ctx.rental_agreement.deposit_amount;
    let transfer = Transfer { from: ctx.tenant, to: ctx.agreement_address, lamports: amount };
    ctx.rental_agreement.deposit_paid = true;
    ctx.rental_agreement.deposit_in_escrow = amount;
    ctx.rental_agreement.status = AgreementStatus::Active;
    let event = DepositPaid {
        agreement: ctx.agreement_address,
        tenant: ctx.tenant,
        amount,
        timestamp: ctx.now,
    };
    Ok((event, transfer))
}

// ============================================
// PAY RENT
// ============================================

/// What paying rent reads: the agreement and its address, the tenant who signs and
/// the clock.
pub struct PayRent {
    pub rental_agreement: RentalAgreement,
    pub agreement_address: AccountKey,
    pub tenant: AccountKey,
    /// The cluster's unix time.
    pub now: i64,
}

/// A rent payment that is due: the transfer to make and whether it is on time.
#[derive(Clone, Copy, Debug)]
pub struct RentPayment {
    pub transfer: Transfer,
    pub is_on_time: bool,
}

/// Whole days from the rent clock's base to `now`, rounded toward zero.
pub open spec fn days_since_last_payment(a: RentalAgreement, now: i64) -> int {
    let elapsed = now - a.rent_clock_base();
    if elapsed >= 0 {
        elapsed / (SECONDS_PER_DAY as int)
    } else {
        -((-elapsed) / (SECONDS_PER_DAY as int))
    }
}

/// The error with which rent is refused before the time since the last payment is
/// looked at, if it is.
pub open spec fn pay_rent_gate_error(a: RentalAgreement, tenant: AccountKey, now: i64) -> Option<
    RentGuardError,
> {
    if a.status != AgreementStatus::Active {
        Some(RentGuardError::InvalidAgreementStatus)
    } else if !a.deposit_paid {
        Some(RentGuardError::DepositNotPaid)
    } else if !tenant.same(a.tenant) {
        Some(RentGuardError::UnauthorizedTenant)
    } else if now < a.lease_start_date {
        Some(RentGuardError::LeaseNotStarted)
    } else if now > a.lease_end_date {
        Some(RentGuardError::LeaseEnded)
    } else {
        None
    }
}

/// The error with which rent is refused, if it is.
pub open spec fn pay_rent_error(a: RentalAgreement, tenant: AccountKey, now: i64) -> Option<
    RentGuardError,
> {
    if pay_rent_gate_error(a, tenant, now) is Some {
        pay_rent_gate_error(a, tenant, now)
    } else if !(i64::MIN <= now - a.rent_clock_base() <= i64::MAX) {
        Some(RentGuardError::ArithmeticOverflow)
    } else if days_since_last_payment(a, now) < RENT_DUE_AFTER_DAYS {
        Some(RentGuardError::RentNotDue)
    } else {
        None
    }
}

fn pay_rent_gate(ctx: &PayRent) -> (res: Option<RentGuardError>)
    ensures
        res == pay_rent_gate_error(ctx.rental_agreement, ctx.tenant, ctx.now),
{
    let a = &ctx.rental_agreement;
    if a.status != AgreementStatus::Active {
        return Some(RentGuardError::InvalidAgreementStatus);
    }
    if !a.deposit_paid {
        return Some(RentGuardError::DepositNotPaid);
    }
    if !ctx.tenant.key_eq(&a.tenant) {
        return Some(RentGuardError::UnauthorizedTenant);
    }
    let current_time = ctx.now;
    if !(current_time >= a.lease_start_date) {
        return Some(RentGuardError::LeaseNotStarted);
    }
    if !(current_time <= a.lease_end_date) {
        return Some(RentGuardError::LeaseEnded);
    }
    None
}

/// The tenant pays a month of rent, at least 25 days after the last payment (or the
/// lease start) and within the lease; a payment within 35 days (the five days of
/// grace after the usual 30) is on time. A time since the last payment that does not
/// fit is refused as an overflow. This
/// decides; the caller then moves the rent as the transfer says and, if that
/// succeeds, records the payment with `record_rent_payment`.
pub fn pay_rent(ctx: &PayRent) -> (res: Result<RentPayment, RentGuardError>)
    ensures
        match res {
            Err(e) => pay_rent_error(ctx.rental_agreement, ctx.tenant, ctx.now) == Some(e),
            Ok(payment) => {
                &&& pay_rent_error(ctx.rental_agreement, ctx.tenant, ctx.now) is None
                &&& payment.transfer == (Transfer {
                    from: ctx.tenant,
                    to: ctx.agreement_address,
                    lamports: ctx.rental_agreement.rent_amount,
                })
                &&& payment.is_on_time == (days_since_last_payment(ctx.rental_agreement, ctx.now)
                    <= ON_TIME_WITHIN_DAYS)
            },
        },
{
    if let Some(e) = pay_rent_gate(ctx) {
        return Err(e);
    }
    let a = &ctx.rental_agreement;
    let current_time = ctx.now;
    let base: i64 = if a.last_rent_payment == 0 {
        a.lease_start_date
    } else {
        a.last_rent_payment
    };
    let elapsed: i64 = match current_time.checked_sub(base) {
        Some(v) => v,
        None => return Err(RentGuardError::ArithmeticOverflow),
    };
    let days_since_last_payment: i64 = if elapsed >= 0 {
        elapsed / SECONDS_PER_DAY
    } else {
        0
    };
    if !(elapsed >= 0 && days_since_last_payment >= RENT_DUE_AFTER_DAYS) {
        return Err(RentGuardError::RentNotDue);
    }
    let is_on_time = days_since_last_payment <= ON_TIME_WITHIN_DAYS;
    Ok(
        RentPayment {
            transfer: Transfer {
                from: ctx.tenant,
                to: ctx.agreement_address,
                lamports: a.rent_amount,
            },
            is_on_time,
        },
    )
}

/// The error with which recording a rent payment is refused, if it is.
pub open spec fn record_rent_error(a: RentalAgreement, is_on_time: bool) -> Option<RentGuardError> {
    if a.total_rent_paid + a.rent_amount > u64::MAX {
        Some(RentGuardError::ArithmeticOverflow)
    } else if is_on_time && a.on_time_payments + 1 > u8::MAX {
        Some(RentGuardError::ArithmeticOverflow)
    } else if !is_on_time && a.missed_payments + 1 > u8::MAX {
        Some(RentGuardError::ArithmeticOverflow)
    } else {
        None
    }
}

/// The agreement once a rent payment at `now` is recorded.
pub open spec fn with_rent_recorded(a: RentalAgreement, now: i64, is_on_time: bool) -> RentalAgreement {
    RentalAgreement {
        last_rent_payment: now,
        total_rent_paid: (a.total_rent_paid + a.rent_amount) as u64,
        on_time_payments: if is_on_time {
            (a.on_time_payments + 1) as u8
        } else {
            a.on_time_payments
        },
        missed_payments: if is_on_time {
            a.missed_payments
        } else {
            (a.missed_payments + 1) as u8
        },
        ..a
    }
}

proof fn lemma_one_more_payment(rent: int, count: int)
    ensures
        rent * (count + 1) == rent * count + rent,
{
    assert(rent * (count + 1) == rent * count + rent) by (nonlinear_arith);
}

/// Records a rent payment that `pay_rent` decided and whose transfer succeeded: the
/// time of payment, the total paid, and one more on-time or late payment.
pub fn record_rent_payment(ctx: &mut PayRent, is_on_time: bool) -> (res: Result<
    RentPaid,
    RentGuardError,
>)
    requires
        pay_rent_error(old(ctx).rental_agreement, old(ctx).tenant, old(ctx).now) is None,
        is_on_time == (days_since_last_payment(old(ctx).rental_agreement, old(ctx).now)
            <= ON_TIME_WITHIN_DAYS),
    ensures
        match res {
            Err(e) => {
                &&& record_rent_error(old(ctx).rental_agreement, is_on_time) == Some(e)
                &&& *final(ctx) == *old(ctx)
            },
            Ok(event) => {
                &&& record_rent_error(old(ctx).rental_agreement, is_on_time) is None
                &&& *final(ctx) == (PayRent {
                    rental_agreement: with_rent_recorded(
                        old(ctx).rental_agreement,
                        old(ctx).now,
                        is_on_time,
                    ),
                    ..*old(ctx)
                })
                &&& event == (RentPaid {
                    agreement: old(ctx).agreement_address,
                    tenant: old(ctx).tenant,
                    amount: old(ctx).rental_agreement.rent_amount,
                    payment_date: old(ctx).now,
                    is_on_time,
                })
            },
        },
        old(ctx).rental_agreement.wf() ==> final(ctx).rental_agreement.wf(),
{
    let total_rent_paid: u64 = match ctx.rental_agreement.total_rent_paid.checked_add(
        ctx.rental_agreement.rent_amount,
    ) {
        Some(v) => v,
        None => return Err(RentGuardError::ArithmeticOverflow),
    };
    let mut on_time_payments: u8 = ctx.rental_agreement.on_time_payments;
    let mut missed_payments: u8 = ctx.rental_agreement.missed_payments;
    if is_on_time {
        on_time_payments = match on_time_payments.checked_add(1) {
            Some(v) => v,
            None => return Err(RentGuardError::ArithmeticOverflow),
        };
    } else {
        missed_payments = match missed_payments.checked_add(1) {
            Some(v) => v,
            None => return Err(RentGuardError::ArithmeticOverflow),
        };
    }
    proof {
        lemma_one_more_payment(
            ctx.rental_agreement.rent_amount as int,
            ctx.rental_agreement.on_time_payments + ctx.rental_agreement.missed_payments,
        );
    }
    ctx.rental_agreement.last_rent_payment = ctx.now;
    ctx.rental_agreement.total_rent_paid = total_rent_paid;
    ctx.rental_agreement.on_time_payments = on_time_payments;
    ctx.rental_agreement.missed_payments = missed_payments;
    let event = RentPaid {
        agreement: ctx.agreement_address,
        tenant: ctx.tenant,
        amount: ctx.rental_agreement.rent_amount,
        payment_date: ctx.now,
        is_on_time,
    };
    Ok(event)
}

// ============================================
// WITHDRAW RENT
// ============================================

/// What withdrawing rent reads: the agreement, its address and balance, the landlord
/// who signs, the clock, and the balance that keeps the agreement's account
/// rent-exempt.
pub struct WithdrawRent {
    pub rental_agreement: RentalAgreement,
    pub agreement_address: AccountKey,
    pub landlord: AccountKey,
    /// The cluster's unix time.
    pub now: i64,
    /// The lamports that the agreement's account holds.
    pub agreement_lamports: u64,
    /// The least balance that keeps the agreement's account alive.
    pub rent_exempt_minimum: u64,
}

/// The error with which a withdrawal is refused, if it is.
pub open spec fn withdraw_error(
    a: RentalAgreement,
    landlord: AccountKey,
    lamports: u64,
    rent_exempt_minimum: u64,
) -> Option<RentGuardError> {
    if !landlord.same(a.landlord) {
        Some(RentGuardError::UnauthorizedLandlord)
    } else if lamports < a.deposit_in_escrow {
        Some(RentGuardError::ArithmeticOverflow)
    } else if lamports - a.deposit_in_escrow < rent_exempt_minimum {
        Some(RentGuardError::NoRentToWithdraw)
    } else if lamports - a.deposit_in_escrow - rent_exempt_minimum == 0 {
        Some(RentGuardError::NoRentToWithdraw)
    } else {
        None
    }
}

/// The landlord withdraws all the rent that the agreement holds: its balance less
/// the deposit in escrow and less the rent-exempt minimum. The deposit stays.
pub fn withdraw_rent(ctx: &WithdrawRent) -> (res: Result<(RentWithdrawn, Transfer), RentGuardError>)
    ensures
        match res {
            Err(e) => withdraw_error(
                ctx.rental_agreement,
                ctx.landlord,
                ctx.agreement_lamports,
                ctx.rent_exempt_minimum,
            ) == Some(e),
            Ok((event, transfer)) => {
                &&& withdraw_error(
                    ctx.rental_agreement,
                    ctx.landlord,
                    ctx.agreement_lamports,
                    ctx.rent_exempt_minimum,
                ) is None
                &&& transfer.lamports == ctx.agreement_lamports
                    - ctx.rental_agreement.deposit_in_escrow - ctx.rent_exempt_minimum
                &&& transfer.lamports > 0
                &&& transfer.from == ctx.agreement_address
                &&& transfer.to == ctx.landlord
                &&& ctx.agreement_lamports - transfer.lamports
                    == ctx.rental_agreement.deposit_in_escrow + ctx.rent_exempt_minimum
                &&& event == (RentWithdrawn {
                    agreement: ctx.agreement_address,
                    landlord: ctx.landlord,
                    amount: transfer.lamports,
                    timestamp: ctx.now,
                })
            },
        },
{
    if !ctx.landlord.key_eq(&ctx.rental_agreement.landlord) {
        return Err(RentGuardError::UnauthorizedLandlord);
    }
    let total_balance: u64 = ctx.agreement_lamports;
    let rent_balance: u64 = match total_balance.checked_sub(
        ctx.rental_agreement.deposit_in_escrow,
    ) {
        Some(v) => v,
        None => return Err(RentGuardError::ArithmeticOverflow),
    };
    let available_rent: u64 = match rent_balance.checked_sub(ctx.rent_exempt_minimum) {
        Some(v) => v,
        None => return Err(RentGuardError::NoRentToWithdraw),
    };
    if !(available_rent > 0) {
        return Err(RentGuardError::NoRentToWithdraw);
    }
    let transfer = Transfer {
        from: ctx.agreement_address,
        to: ctx.landlord,
        lamports: available_rent,
    };
    let event = RentWithdrawn {
        agreement: ctx.agreement_address,
        landlord: ctx.landlord,
        amount: available_rent,
        timestamp: ctx.now,
    };
    Ok((event, transfer))
}

// ============================================
// TERMINATE LEASE
// ============================================

/// What ending a lease reads: the agreement, its address, the party who signs and the
/// clock.
pub struct TerminateLease {
    pub rental_agreement: RentalAgreement,
    pub agreement_address: AccountKey,
    pub initiator: AccountKey,
    /// The cluster's unix time.
    pub now: i64,
}

/// The error with which ending a lease is refused, if it is.
pub open spec fn terminate_error(a: RentalAgreement, initiator: AccountKey) -> Option<
    RentGuardError,
> {
    if a.status != AgreementStatus::Active {
        Some(RentGuardError::InvalidAgreementStatus)
    } else if a.dispute_status != DisputeStatus::NoDispute {
        Some(RentGuardError::CannotTerminateDuringDispute)
    } else if !is_party(a, initiator) {
        Some(RentGuardError::UnauthorizedLandlord)
    } else {
        None
    }
}

/// The agreement once ending the lease is asked for.
pub open spec fn with_termination_pending(a: RentalAgreement) -> RentalAgreement {
    RentalAgreement { status: AgreementStatus::TerminationPending, ..a }
}

/// Either party of an active, undisputed lease asks to end it.
pub fn terminate_lease(ctx: &mut TerminateLease) -> (res: Result<LeaseTerminated, RentGuardError>)
    ensures
        match res {
            Err(e) => {
                &&& terminate_error(old(ctx).rental_agreement, old(ctx).initiator) == Some(e)
                &&& *final(ctx) == *old(ctx)
            },
            Ok(event) => {
                &&& terminate_error(old(ctx).rental_agreement, old(ctx).initiator) is None
                &&& *final(ctx) == (TerminateLease {
                    rental_agreement: with_termination_pending(old(ctx).rental_agreement),
                    ..*old(ctx)
                })
                &&& event == (LeaseTerminated {
                    agreement: old(ctx).agreement_address,
                    initiated_by: old(ctx).initiator,
                    timestamp: old(ctx).now,
                })
            },
        },
        old(ctx).rental_agreement.wf() ==> final(ctx).rental_agreement.wf(),
{
    if ctx.rental_agreement.status != AgreementStatus::Active {
        return Err(RentGuardError::InvalidAgreementStatus);
    }
    if ctx.rental_agreement.dispute_status != DisputeStatus::NoDispute {
        return Err(RentGuardError::CannotTerminateDuringDispute);
    }
    if !is_party_exec(&ctx.rental_agreement, &ctx.initiator) {
        return Err(RentGuardError::UnauthorizedLandlord);
    }
    ctx.rental_agreement.status = AgreementStatus::TerminationPending;
    Ok(
        LeaseTerminated {
            agreement: ctx.agreement_address,
            initiated_by: ctx.initiator,
            timestamp: ctx.now,
        },
    )
}

// ============================================
// APPROVE DEPOSIT RETURN
// ============================================

/// What approving a deposit split reads: the agreement, its address, the party who
/// signs, the two accounts that receive the deposit and the clock.
pub struct ApproveDepositReturn {
    pub rental_agreement: RentalAgreement,
    pub agreement_address: AccountKey,
    pub approver: AccountKey,
    /// The account that receives the landlord's share: the agreement's landlord.
    pub landlord_account: AccountKey,
    /// The account that receives the tenant's share: the agreement's tenant.
    pub tenant_account: AccountKey,
    /// The cluster's unix time.
    pub now: i64,
}

/// The error with which a split of the deposit is refused, if it is.
pub open spec fn split_error(escrow: u64, tenant_amount: u64, landlord_amount: u64) -> Option<
    RentGuardError,
> {
    if tenant_amount + landlord_amount > u64::MAX {
        Some(RentGuardError::ArithmeticOverflow)
    } else if tenant_amount + landlord_amount != escrow {
        Some(RentGuardError::InvalidDepositDistribution)
    } else {
        None
    }
}

/// The error with which accounts that are not the agreement's landlord and tenant
/// are refused as receivers of the deposit, if they are.
pub open spec fn payee_error(
    a: RentalAgreement,
    landlord_account: AccountKey,
    tenant_account: AccountKey,
) -> Option<RentGuardError> {
    if !landlord_account.same(a.landlord) {
        Some(RentGuardError::UnauthorizedLandlord)
    } else if !tenant_account.same(a.tenant) {
        Some(RentGuardError::UnauthorizedTenant)
    } else {
        None
    }
}

fn check_payees(a: &RentalAgreement, landlord_account: &AccountKey, tenant_account: &AccountKey) -> (res:
    Option<RentGuardError>)
    ensures
        res == payee_error(*a, *landlord_account, *tenant_account),
{
    if !landlord_account.key_eq(&a.landlord) {
        Some(RentGuardError::UnauthorizedLandlord)
    } else if !tenant_account.key_eq(&a.tenant) {
        Some(RentGuardError::UnauthorizedTenant)
    } else {
        None
    }
}

/// The error with which an approval is refused, if it is.
pub open spec fn approve_error(
    a: RentalAgreement,
    approver: AccountKey,
    landlord_account: AccountKey,
    tenant_account: AccountKey,
    tenant_amount: u64,
    landlord_amount: u64,
) -> Option<RentGuardError> {
    if a.status != AgreementStatus::TerminationPending {
        Some(RentGuardError::InvalidAgreementStatus)
    } else if !is_party(a, approver) {
        Some(RentGuardError::UnauthorizedLandlord)
    } else if split_error(a.deposit_in_escrow, tenant_amount, landlord_amount) is Some {
        split_error(a.deposit_in_escrow, tenant_amount, landlord_amount)
    } else if completes_approval(a, approver, tenant_amount, landlord_amount) && payee_error(
        a,
        landlord_account,
        tenant_account,
    ) is Some {
        payee_error(a, landlord_account, tenant_account)
    } else {
        None
    }
}

/// Whether a split is the one recorded as approved.
pub open spec fn is_recorded_split(a: RentalAgreement, tenant_amount: u64, landlord_amount: u64) -> bool {
    a.approved_tenant_return == tenant_amount && a.approved_landlord_return == landlord_amount
}

/// The agreement once the approver's split is recorded: the landlord's approval when
/// the approver is the landlord, else the tenant's. The other party's approval stands
/// only if it was given to the same split; a different split withdraws it.
pub open spec fn with_approval(
    a: RentalAgreement,
    approver: AccountKey,
    tenant_amount: u64,
    landlord_amount: u64,
) -> RentalAgreement {
    let same = is_recorded_split(a, tenant_amount, landlord_amount);
    RentalAgreement {
        landlord_deposit_approval: if approver.same(a.landlord) {
            true
        } else {
            a.landlord_deposit_approval && same
        },
        tenant_deposit_approval: if approver.same(a.landlord) {
            a.tenant_deposit_approval && same
        } else {
            true
        },
        approved_tenant_return: tenant_amount,
        approved_landlord_return: landlord_amount,
        ..a
    }
}

/// The agreement once its deposit left escrow and the lease is over.
pub open spec fn settled(a: RentalAgreement) -> RentalAgreement {
    RentalAgreement { deposit_in_escrow: 0, status: AgreementStatus::Completed, ..a }
}

/// Whether an approval of a split by `approver` completes the approvals of both
/// parties to that same split.
pub open spec fn completes_approval(
    a: RentalAgreement,
    approver: AccountKey,
    tenant_amount: u64,
    landlord_amount: u64,
) -> bool {
    let b = with_approval(a, approver, tenant_amount, landlord_amount);
    b.landlord_deposit_approval && b.tenant_deposit_approval
}

/// The agreement after an approval that is not refused: the approval recorded and,
/// once both parties approved the same split, the deposit paid out.
pub open spec fn after_approval(
    a: RentalAgreement,
    approver: AccountKey,
    tenant_amount: u64,
    landlord_amount: u64,
) -> RentalAgreement {
    let recorded = with_approval(a, approver, tenant_amount, landlord_amount);
    if completes_approval(a, approver, tenant_amount, landlord_amount) {
        settled(recorded)
    } else {
        recorded
    }
}

/// A party of a lease whose end is pending approves a split of the deposit, which
/// must add up to the deposit in escrow; the receiving accounts must be the
/// agreement's tenant and landlord. Once both parties approved the same split, the
/// deposit is paid out by it to them and the lease is complete; until then the
/// result is `None`.
pub fn approve_deposit_return(
    ctx: &mut ApproveDepositReturn,
    tenant_amount: u64,
    landlord_amount: u64,
) -> (res: Result<Option<(DepositReturned, Vec<Transfer>)>, RentGuardError>)
    ensures
        match res {
            Err(e) => {
                &&& approve_error(
                    old(ctx).rental_agreement,
                    old(ctx).approver,
                    old(ctx).landlord_account,
                    old(ctx).tenant_account,
                    tenant_amount,
                    landlord_amount,
                ) == Some(e)
                &&& *final(ctx) == *old(ctx)
            },
            Ok(outcome) => {
                &&& approve_error(
                    old(ctx).rental_agreement,
                    old(ctx).approver,
                    old(ctx).landlord_account,
                    old(ctx).tenant_account,
                    tenant_amount,
                    landlord_amount,
                ) is None
                &&& (outcome is Some <==> completes_approval(
                    old(ctx).rental_agreement,
                    old(ctx).approver,
                    tenant_amount,
                    landlord_amount,
                ))
                &&& *final(ctx) == (ApproveDepositReturn {
                    rental_agreement: after_approval(
                        old(ctx).rental_agreement,
                        old(ctx).approver,
                        tenant_amount,
                        landlord_amount,
                    ),
                    ..*old(ctx)
                })
                &&& outcome matches Some((event, transfers)) ==> {
                    &&& event == (DepositReturned {
                        agreement: old(ctx).agreement_address,
                        tenant_amount,
                        landlord_amount,
                        timestamp: old(ctx).now,
                    })
                    &&& transfers@ == payouts(
                        old(ctx).agreement_address,
                        old(ctx).rental_agreement.tenant,
                        tenant_amount,
                        old(ctx).rental_agreement.landlord,
                        landlord_amount,
                    )
                    &&& total_lamports(transfers@) == old(ctx).rental_agreement.deposit_in_escrow
                }
            },
        },
        old(ctx).rental_agreement.wf() ==> final(ctx).rental_agreement.wf(),
{
    if ctx.rental_agreement.status != AgreementStatus::TerminationPending {
        return Err(RentGuardError::InvalidAgreementStatus);
    }
    if !is_party_exec(&ctx.rental_agreement, &ctx.approver) {
        return Err(RentGuardError::UnauthorizedLandlord);
    }
    let total_distribution: u64 = match tenant_amount.checked_add(landlord_amount) {
        Some(v) => v,
        None => return Err(RentGuardError::ArithmeticOverflow),
    };
    if !(total_distribution == ctx.rental_agreement.deposit_in_escrow) {
        return Err(RentGuardError::InvalidDepositDistribution);
    }
    let same_split = ctx.rental_agreement.approved_tenant_return == tenant_amount
        && ctx.rental_agreement.approved_landlord_return == landlord_amount;
    let approver_is_landlord = ctx.approver.key_eq(&ctx.rental_agreement.landlord);
    let completes = same_split && if approver_is_landlord {
        ctx.rental_agreement.tenant_deposit_approval
    } else {
        ctx.rental_agreement.landlord_deposit_approval
    };
    if completes {
        if let Some(e) = check_payees(
            &ctx.rental_agreement,
            &ctx.landlord_account,
            &ctx.tenant_account,
        ) {
            return Err(e);
        }
    }
    if approver_is_landlord {
        ctx.rental_agreement.landlord_deposit_approval = true;
        ctx.rental_agreement.tenant_deposit_approval = ctx.rental_agreement.tenant_deposit_approval
            && same_split;
    } else {
        ctx.rental_agreement.tenant_deposit_approval = true;
        ctx.rental_agreement.landlord_deposit_approval =
            ctx.rental_agreement.landlord_deposit_approval && same_split;
    }
    ctx.rental_agreement.approved_tenant_return = tenant_amount;
    ctx.rental_agreement.approved_landlord_return = landlord_amount;
    if ctx.rental_agreement.landlord_deposit_approval
        && ctx.rental_agreement.tenant_deposit_approval {
        let transfers = make_payouts(
            ctx.agreement_address,
            ctx.rental_agreement.tenant,
            tenant_amount,
            ctx.rental_agreement.landlord,
            landlord_amount,
        );
        proof {
            lemma_payouts_total(
                ctx.agreement_address,
                ctx.rental_agreement.tenant,
                tenant_amount,
                ctx.rental_agreement.landlord,
                landlord_amount,
            );
        }
        ctx.rental_agreement.deposit_in_escrow = 0;
        ctx.rental_agreement.status = AgreementStatus::Completed;
        let event = DepositReturned {
            agreement: ctx.agreement_address,
            tenant_amount,
            landlord_amount,
            timestamp: ctx.now,
        };
        Ok(Some((event, transfers)))
    } else {
        Ok(None)
    }
}

// ============================================
// FILE DISPUTE
// ============================================

/// What filing a dispute reads: the agreement, its address, the party who signs and
/// the clock.
pub struct FileDispute {
    pub rental_agreement: RentalAgreement,
    pub agreement_address: AccountKey,
    pub filer: AccountKey,
    /// The cluster's unix time.
    pub now: i64,
}

/// The error with which a dispute is refused, if it is.
pub open spec fn file_dispute_error(a: RentalAgreement, filer: AccountKey, reason: Seq<char>) -> Option<
    RentGuardError,
> {
    if a.dispute_status != DisputeStatus::NoDispute {
        Some(RentGuardError::DisputeAlreadyFiled)
    } else if !is_party(a, filer) {
        Some(RentGuardError::UnauthorizedLandlord)
    } else if byte_len(reason) > RentalAgreement::MAX_DISPUTE_REASON_LEN {
        Some(RentGuardError::DisputeReasonTooLong)
    } else {
        None
    }
}

/// The agreement once a dispute is filed.
pub open spec fn with_dispute(
    a: RentalAgreement,
    filer: AccountKey,
    reason: String,
    requested_amount: u64,
) -> RentalAgreement {
    RentalAgreement {
        dispute_status: DisputeStatus::Filed,
        dispute_reason: reason,
        dispute_requested_amount: requested_amount,
        dispute_filed_by: Some(filer),
        status: AgreementStatus::DisputePending,
        ..a
    }
}

/// Either party files the one dispute an agreement can have, with a reason of at most
/// 500 bytes; the agreement waits for a decision.
pub fn file_dispute(ctx: &mut FileDispute, reason: String, requested_amount: u64) -> (res: Result<
    DisputeFiled,
    RentGuardError,
>)
    requires
        byte_len(reason@) <= usize::MAX,
    ensures
        match res {
            Err(e) => {
                &&& file_dispute_error(old(ctx).rental_agreement, old(ctx).filer, reason@)
                    == Some(e)
                &&& *final(ctx) == *old(ctx)
            },
            Ok(event) => {
                &&& file_dispute_error(old(ctx).rental_agreement, old(ctx).filer, reason@)
                    is None
                &&& *final(ctx) == (FileDispute {
                    rental_agreement: with_dispute(
                        old(ctx).rental_agreement,
                        old(ctx).filer,
                        reason,
                        requested_amount,
                    ),
                    ..*old(ctx)
                })
                &&& event.agreement == old(ctx).agreement_address
                &&& event.filed_by == old(ctx).filer
                &&& event.reason == reason
                &&& event.requested_amount == requested_amount
                &&& event.timestamp == old(ctx).now
            },
        },
        old(ctx).rental_agreement.wf() ==> final(ctx).rental_agreement.wf(),
{
    if ctx.rental_agreement.dispute_status != DisputeStatus::NoDispute {
        return Err(RentGuardError::DisputeAlreadyFiled);
    }
    if !is_party_exec(&ctx.rental_agreement, &ctx.filer) {
        return Err(RentGuardError::UnauthorizedLandlord);
    }
    if !(reason.as_str().len() <= RentalAgreement::MAX_DISPUTE_REASON_LEN) {
        return Err(RentGuardError::DisputeReasonTooLong);
    }
    ctx.rental_agreement.dispute_status = DisputeStatus::Filed;
    ctx.rental_agreement.dispute_reason = reason.clone();
    ctx.rental_agreement.dispute_requested_amount = requested_amount;
    ctx.rental_agreement.dispute_filed_by = Some(ctx.filer);
    ctx.rental_agreement.status = AgreementStatus::DisputePending;
    Ok(
        DisputeFiled {
            agreement: ctx.agreement_address,
            filed_by: ctx.filer,
            reason,
            requested_amount,
            timestamp: ctx.now,
        },
    )
}

// ============================================
// RESOLVE DISPUTE
// ============================================

/// What resolving a dispute reads: the agreement, its address, the signer who
/// decides, the two accounts that receive the deposit and the clock.
pub struct ResolveDispute {
    pub rental_agreement: RentalAgreement,
    pub agreement_address: AccountKey,
    pub arbitrator: AccountKey,
    /// The account that receives the landlord's share: the agreement's landlord.
    pub landlord_account: AccountKey,
    /// The account that receives the tenant's share: the agreement's tenant.
    pub tenant_account: AccountKey,
    /// The cluster's unix time.
    pub now: i64,
}

/// The error with which a decision is refused, if it is: a party cannot decide its
/// own dispute.
pub open spec fn resolve_error(
    a: RentalAgreement,
    arbitrator: AccountKey,
    landlord_account: AccountKey,
    tenant_account: AccountKey,
    tenant_amount: u64,
    landlord_amount: u64,
) -> Option<RentGuardError> {
    if a.dispute_status != DisputeStatus::Filed {
        Some(RentGuardError::NoActiveDispute)
    } else if split_error(a.deposit_in_escrow, tenant_amount, landlord_amount) is Some {
        split_error(a.deposit_in_escrow, tenant_amount, landlord_amount)
    } else if is_party(a, arbitrator) {
        Some(RentGuardError::UnauthorizedArbitrator)
    } else {
        payee_error(a, landlord_account, tenant_account)
    }
}

/// The agreement once its dispute is decided by `arbitrator`.
pub open spec fn with_resolution(a: RentalAgreement, arbitrator: AccountKey) -> RentalAgreement {
    RentalAgreement {
        deposit_in_escrow: 0,
        dispute_status: DisputeStatus::Resolved,
        status: AgreementStatus::Completed,
        arbitrator: Some(arbitrator),
        ..a
    }
}

/// A signer who is neither the landlord nor the tenant decides a filed dispute with
/// a split that adds up to the deposit in escrow; the deposit is paid out by it to
/// the agreement's tenant and landlord, and the lease is complete.
pub fn resolve_dispute(ctx: &mut ResolveDispute, tenant_amount: u64, landlord_amount: u64) -> (res:
    Result<(DisputeResolved, Vec<Transfer>), RentGuardError>)
    ensures
        match res {
            Err(e) => {
                &&& resolve_error(
                    old(ctx).rental_agreement,
                    old(ctx).arbitrator,
                    old(ctx).landlord_account,
                    old(ctx).tenant_account,
                    tenant_amount,
                    landlord_amount,
                ) == Some(e)
                &&& *final(ctx) == *old(ctx)
            },
            Ok((event, transfers)) => {
                &&& resolve_error(
                    old(ctx).rental_agreement,
                    old(ctx).arbitrator,
                    old(ctx).landlord_account,
                    old(ctx).tenant_account,
                    tenant_amount,
                    landlord_amount,
                ) is None
                &&& *final(ctx) == (ResolveDispute {
                    rental_agreement: with_resolution(
                        old(ctx).rental_agreement,
                        old(ctx).arbitrator,
                    ),
                    ..*old(ctx)
                })
                &&& event == (DisputeResolved {
                    agreement: old(ctx).agreement_address,
                    resolved_by: old(ctx).arbitrator,
                    tenant_amount,
                    landlord_amount,
                    timestamp: old(ctx).now,
                })
                &&& transfers@ == payouts(
                    old(ctx).agreement_address,
                    old(ctx).rental_agreement.tenant,
                    tenant_amount,
                    old(ctx).rental_agreement.landlord,
                    landlord_amount,
                )
                &&& total_lamports(transfers@) == old(ctx).rental_agreement.deposit_in_escrow
            },
        },
        old(ctx).rental_agreement.wf() ==> final(ctx).rental_agreement.wf(),
{
    if ctx.rental_agreement.dispute_status != DisputeStatus::Filed {
        return Err(RentGuardError::NoActiveDispute);
    }
    let total_distribution: u64 = match tenant_amount.checked_add(landlord_amount) {
        Some(v) => v,
        None => return Err(RentGuardError::ArithmeticOverflow),
    };
    if !(total_distribution == ctx.rental_agreement.deposit_in_escrow) {
        return Err(RentGuardError::InvalidDepositDistribution);
    }
    if is_party_exec(&ctx.rental_agreement, &ctx.arbitrator) {
        return Err(RentGuardError::UnauthorizedArbitrator);
    }
    if let Some(e) = check_payees(&ctx.rental_agreement, &ctx.landlord_account, &ctx.tenant_account) {
        return Err(e);
    }
    let transfers = make_payouts(
        ctx.agreement_address,
        ctx.rental_agreement.tenant,
        tenant_amount,
        ctx.rental_agreement.landlord,
        landlord_amount,
    );
    proof {
        lemma_payouts_total(
            ctx.agreement_address,
            ctx.rental_agreement.tenant,
            tenant_amount,
            ctx.rental_agreement.landlord,
            landlord_amount,
        );
    }
    ctx.rental_agreement.deposit_in_escrow = 0;
    ctx.rental_agreement.dispute_status = DisputeStatus::Resolved;
    ctx.rental_agreement.status = AgreementStatus::Completed;
    ctx.rental_agreement.arbitrator = Some(ctx.arbitrator);
    let event = DisputeResolved {
        agreement: ctx.agreement_address,
        resolved_by: ctx.arbitrator,
        tenant_amount,
        landlord_amount,
        timestamp: ctx.now,
    };
    Ok((event, transfers))
}

} // verus!
