use vstd::prelude::*;

use crate::errors::RentGuardError;
use crate::instructions::{
    after_approval, approve_error, completes_approval, create_error, days_since_last_payment,
    deposit_error, file_dispute_error, pay_rent_error, record_rent_error, resolve_error,
    terminate_error, with_deposit, with_dispute, with_rent_recorded, with_resolution,
    with_termination_pending, withdraw_error,
};
use crate::key::AccountKey;
use crate::reputation::{rated, reputation_update_error};
use crate::state::{byte_len, AgreementStatus, DisputeStatus, RentalAgreement, UserReputation, UserType};
use crate::transfer::{payouts, total_lamports, Transfer};

verus! {

/// Seconds in 25 days: rent falls due this long after the last payment.
pub open spec fn rent_period() -> int {
    25 * 86400int
}

/// Seconds in 36 days: a payment made this long or longer after the last one is late.
pub open spec fn late_after() -> int {
    36 * 86400int
}

/// The time from which rent is counted, written out: the last payment, or the lease
/// start while none was made.
pub open spec fn counted_from(a: RentalAgreement) -> int {
    if a.last_rent_payment == 0 {
        a.lease_start_date as int
    } else {
        a.last_rent_payment as int
    }
}

// ---------------------------------------------------------------- creation

/// An agreement is created exactly when its due day is 1 to 28, its lease ends after
/// it starts, and its address takes at most 200 bytes.
pub proof fn law_creation_terms(day: u8, start: i64, end: i64, address: Seq<char>)
    ensures
        create_error(day, start, end, address) is None <==> (1 <= day <= 28 && start < end
            && byte_len(address) <= 200),
{
}

// ---------------------------------------------------------------- deposit

/// The deposit is taken exactly from the tenant of an agreement that was created and
/// holds no deposit yet; it puts the agreed deposit in escrow and starts the lease,
/// and changes nothing else.
pub proof fn law_deposit(a: RentalAgreement, tenant: AccountKey, b: RentalAgreement)
    requires
        b == with_deposit(a),
    ensures
        deposit_error(a, tenant) is None <==> (a.status == AgreementStatus::Created
            && !a.deposit_paid && tenant.bytes@ == a.tenant.bytes@),
        b.deposit_in_escrow == a.deposit_amount,
        b.deposit_paid,
        b.status == AgreementStatus::Active,
        b.landlord == a.landlord && b.tenant == a.tenant && b.rent_amount == a.rent_amount
            && b.deposit_amount == a.deposit_amount && b.last_rent_payment == a.last_rent_payment
            && b.total_rent_paid == a.total_rent_paid && b.dispute_status == a.dispute_status,
{
}

// ---------------------------------------------------------------- rent

/// Rent is refused while the lease is not active, the deposit not paid, the signer
/// not the tenant, or the time outside the lease.
pub proof fn law_rent_refusals(a: RentalAgreement, tenant: AccountKey, now: i64)
    ensures
        a.status != AgreementStatus::Active ==> pay_rent_error(a, tenant, now) == Some(
            RentGuardError::InvalidAgreementStatus,
        ),
        a.status == AgreementStatus::Active && !a.deposit_paid ==> pay_rent_error(a, tenant, now)
            == Some(RentGuardError::DepositNotPaid),
        (now < a.lease_start_date || now > a.lease_end_date) ==> pay_rent_error(a, tenant, now)
            is Some,
        tenant.bytes@ != a.tenant.bytes@ ==> pay_rent_error(a, tenant, now) is Some,
{
}

/// Within an active, paid lease and for its tenant, rent is accepted exactly when at
/// least 25 days passed since the last payment (or the lease start), and the payment
/// is on time exactly when fewer than 36 days passed.
pub proof fn law_rent_due_and_on_time(a: RentalAgreement, tenant: AccountKey, now: i64)
    requires
        a.status == AgreementStatus::Active,
        a.deposit_paid,
        tenant.bytes@ == a.tenant.bytes@,
        a.lease_start_date <= now <= a.lease_end_date,
        i64::MIN <= now - counted_from(a) <= i64::MAX,
    ensures
        pay_rent_error(a, tenant, now) is None <==> now - counted_from(a) >= rent_period(),
        pay_rent_error(a, tenant, now) is None ==> (days_since_last_payment(a, now) <= 35
            <==> now - counted_from(a) < late_after()),
{
    let e = now - counted_from(a);
    if e >= 0 {
        assert(e / 86400 >= 25 <==> e >= 25 * 86400) by (nonlinear_arith)
            requires
                e >= 0,
        ;
        assert(e / 86400 <= 35 <==> e < 36 * 86400) by (nonlinear_arith)
            requires
                e >= 0,
        ;
    }
}

/// Recording a payment made at `now` restarts the rent clock at `now`, adds the rent
/// to the total paid and counts one more on-time or late payment; nothing else
/// changes. It is refused exactly when the total or the count would not fit.
pub proof fn law_rent_recorded(a: RentalAgreement, now: i64, is_on_time: bool, b: RentalAgreement)
    requires
        b == with_rent_recorded(a, now, is_on_time),
    ensures
        record_rent_error(a, is_on_time) is None <==> (a.total_rent_paid + a.rent_amount
            <= u64::MAX && (if is_on_time {
            a.on_time_payments < 255
        } else {
            a.missed_payments < 255
        })),
        record_rent_error(a, is_on_time) is None ==> {
            &&& b.last_rent_payment == now
            &&& b.total_rent_paid == a.total_rent_paid + a.rent_amount
            &&& b.on_time_payments == a.on_time_payments + (if is_on_time {
                1int
            } else {
                0
            })
            &&& b.missed_payments == a.missed_payments + (if is_on_time {
                0int
            } else {
                1
            })
        },
        b.status == a.status && b.deposit_in_escrow == a.deposit_in_escrow && b.deposit_paid
            == a.deposit_paid && b.dispute_status == a.dispute_status && b.landlord == a.landlord
            && b.tenant == a.tenant && b.rent_amount == a.rent_amount && b.lease_start_date
            == a.lease_start_date && b.lease_end_date == a.lease_end_date,
{
}

/// After a payment recorded at `paid_at` (not 0), the next payment within the lease
/// is accepted exactly when it comes at least 25 days after `paid_at`.
pub proof fn law_next_rent_due_a_period_after_payment(
    a: RentalAgreement,
    tenant: AccountKey,
    paid_at: i64,
    is_on_time: bool,
    later: i64,
)
    requires
        a.status == AgreementStatus::Active,
        a.deposit_paid,
        tenant.bytes@ == a.tenant.bytes@,
        a.lease_start_date <= later <= a.lease_end_date,
        paid_at != 0,
        i64::MIN <= later - paid_at <= i64::MAX,
    ensures
        pay_rent_error(with_rent_recorded(a, paid_at, is_on_time), tenant, later) is None <==> later
            - paid_at >= rent_period(),
{
    let b = with_rent_recorded(a, paid_at, is_on_time);
    law_rent_recorded(a, paid_at, is_on_time, b);
    assert(b.last_rent_payment == paid_at);
    assert(counted_from(b) == paid_at);
    law_rent_due_and_on_time(b, tenant, later);
}

// ---------------------------------------------------------------- withdrawal

/// A withdrawal depends on the signer and the balances only, whatever the state of
/// the lease: the agreement's landlord may withdraw exactly when the balance exceeds
/// the deposit in escrow plus the rent-exempt minimum.
pub proof fn law_withdraw_anytime(
    a: RentalAgreement,
    b: RentalAgreement,
    landlord: AccountKey,
    lamports: u64,
    rent_exempt_minimum: u64,
)
    requires
        b.landlord == a.landlord,
        b.deposit_in_escrow == a.deposit_in_escrow,
    ensures
        withdraw_error(a, landlord, lamports, rent_exempt_minimum) is None <==> (
        landlord.bytes@ == a.landlord.bytes@ && lamports > a.deposit_in_escrow
            + rent_exempt_minimum),
        withdraw_error(a, landlord, lamports, rent_exempt_minimum) == withdraw_error(
            b,
            landlord,
            lamports,
            rent_exempt_minimum,
        ),
{
}

// ---------------------------------------------------------------- termination

/// Ending a lease is accepted exactly from a party of an active lease with no
/// dispute, and only moves it to waiting for the deposit's return.
pub proof fn law_termination(a: RentalAgreement, initiator: AccountKey, b: RentalAgreement)
    requires
        b == with_termination_pending(a),
    ensures
        terminate_error(a, initiator) is None <==> (a.status == AgreementStatus::Active
            && a.dispute_status == DisputeStatus::NoDispute && (initiator.bytes@
            == a.landlord.bytes@ || initiator.bytes@ == a.tenant.bytes@)),
        b.status == AgreementStatus::TerminationPending,
        b.deposit_in_escrow == a.deposit_in_escrow && b.deposit_paid == a.deposit_paid
            && b.dispute_status == a.dispute_status && b.landlord_deposit_approval
            == a.landlord_deposit_approval && b.tenant_deposit_approval
            == a.tenant_deposit_approval,
{
}

// ---------------------------------------------------------------- approval

/// An approval is accepted exactly from a party of a lease waiting for the deposit's
/// return, for a split that adds up to the deposit in escrow, and, when it pays out,
/// with the parties as the receiving accounts. It pays out exactly when the other
/// party approved the same split before; then the escrow is emptied and the lease
/// completes, and otherwise the escrow and status stay.
pub proof fn law_approval(
    a: RentalAgreement,
    approver: AccountKey,
    landlord_account: AccountKey,
    tenant_account: AccountKey,
    tenant_amount: u64,
    landlord_amount: u64,
    b: RentalAgreement,
)
    requires
        b == after_approval(a, approver, tenant_amount, landlord_amount),
    ensures
        completes_approval(a, approver, tenant_amount, landlord_amount) <==> (
        a.approved_tenant_return == tenant_amount && a.approved_landlord_return
            == landlord_amount && if approver.bytes@ == a.landlord.bytes@ {
            a.tenant_deposit_approval
        } else {
            a.landlord_deposit_approval
        }),
        approve_error(a, approver, landlord_account, tenant_account, tenant_amount, landlord_amount)
            is None <==> (a.status == AgreementStatus::TerminationPending && (approver.bytes@
            == a.landlord.bytes@ || approver.bytes@ == a.tenant.bytes@) && tenant_amount
            + landlord_amount == a.deposit_in_escrow && (completes_approval(
            a,
            approver,
            tenant_amount,
            landlord_amount,
        ) ==> landlord_account.bytes@ == a.landlord.bytes@ && tenant_account.bytes@
            == a.tenant.bytes@)),
        b.approved_tenant_return == tenant_amount,
        b.approved_landlord_return == landlord_amount,
        approver.bytes@ == a.landlord.bytes@ ==> b.landlord_deposit_approval,
        approver.bytes@ != a.landlord.bytes@ ==> b.tenant_deposit_approval,
        completes_approval(a, approver, tenant_amount, landlord_amount) ==> b.deposit_in_escrow
            == 0 && b.status == AgreementStatus::Completed,
        !completes_approval(a, approver, tenant_amount, landlord_amount) ==> b.deposit_in_escrow
            == a.deposit_in_escrow && b.status == a.status,
{
}

/// The payout of a split sends the tenant's share to the tenant's account and the
/// landlord's share to the landlord's, both out of escrow, and nothing else.
pub proof fn law_payouts(
    escrow: AccountKey,
    tenant_account: AccountKey,
    tenant_amount: u64,
    landlord_account: AccountKey,
    landlord_amount: u64,
)
    ensures
        ({
            let p = payouts(escrow, tenant_account, tenant_amount, landlord_account, landlord_amount);
            &&& total_lamports(p) == tenant_amount + landlord_amount
            &&& p.len() == (if tenant_amount > 0 {
                1int
            } else {
                0
            }) + (if landlord_amount > 0 {
                1int
            } else {
                0
            })
            &&& tenant_amount > 0 ==> p[0] == (Transfer {
                from: escrow,
                to: tenant_account,
                lamports: tenant_amount,
            })
            &&& landlord_amount > 0 ==> p[p.len() - 1] == (Transfer {
                from: escrow,
                to: landlord_account,
                lamports: landlord_amount,
            })
        }),
{
    crate::transfer::lemma_payouts_total(
        escrow,
        tenant_account,
        tenant_amount,
        landlord_account,
        landlord_amount,
    );
}

// ---------------------------------------------------------------- disputes

/// A dispute is accepted exactly from a party of an agreement with no dispute yet,
/// with a reason of at most 500 bytes, whatever stage the lease is in; it records the
/// filer, reason and amount and waits for a decision.
pub proof fn law_file_dispute(
    a: RentalAgreement,
    filer: AccountKey,
    reason: String,
    requested_amount: u64,
    b: RentalAgreement,
)
    requires
        b == with_dispute(a, filer, reason, requested_amount),
    ensures
        file_dispute_error(a, filer, reason@) is None <==> (a.dispute_status
            == DisputeStatus::NoDispute && (filer.bytes@ == a.landlord.bytes@ || filer.bytes@
            == a.tenant.bytes@) && byte_len(reason@) <= 500),
        b.dispute_status == DisputeStatus::Filed,
        b.status == AgreementStatus::DisputePending,
        b.dispute_filed_by == Some(filer),
        b.dispute_reason == reason,
        b.dispute_requested_amount == requested_amount,
        b.deposit_in_escrow == a.deposit_in_escrow,
{
}

/// A decision is accepted exactly on a filed dispute, from a signer who is neither
/// party, for any split that adds up to the deposit in escrow (a zero share
/// included), with the parties as the receiving accounts. It empties the escrow,
/// completes the lease and records the arbitrator.
pub proof fn law_resolution(
    a: RentalAgreement,
    arbitrator: AccountKey,
    landlord_account: AccountKey,
    tenant_account: AccountKey,
    tenant_amount: u64,
    landlord_amount: u64,
    b: RentalAgreement,
)
    requires
        b == with_resolution(a, arbitrator),
    ensures
        resolve_error(a, arbitrator, landlord_account, tenant_account, tenant_amount, landlord_amount)
            is None <==> (a.dispute_status == DisputeStatus::Filed && tenant_amount
            + landlord_amount == a.deposit_in_escrow && arbitrator.bytes@ != a.landlord.bytes@
            && arbitrator.bytes@ != a.tenant.bytes@ && landlord_account.bytes@
            == a.landlord.bytes@ && tenant_account.bytes@ == a.tenant.bytes@),
        b.deposit_in_escrow == 0,
        b.status == AgreementStatus::Completed,
        b.dispute_status == DisputeStatus::Resolved,
        b.arbitrator == Some(arbitrator),
        b.landlord == a.landlord && b.tenant == a.tenant && b.deposit_paid == a.deposit_paid,
{
}

// ---------------------------------------------------------------- ratings

/// A rating is accepted exactly for a party of a completed lease not yet rated on
/// it, with one to five stars, when every count fits.
pub proof fn law_rating_accepted(
    rep: UserReputation,
    a: RentalAgreement,
    user: AccountKey,
    rating: u8,
    on_time_payments: u8,
)
    ensures
        reputation_update_error(rep, a, user, rating, on_time_payments) is Some <== (a.status
            != AgreementStatus::Completed || rating < 1 || rating > 5 || (user.bytes@
            != a.landlord.bytes@ && user.bytes@ != a.tenant.bytes@) || (user.bytes@
            == a.tenant.bytes@ && a.tenant_rated) || (user.bytes@ == a.landlord.bytes@
            && a.landlord_rated) || rep.total_agreements == u32::MAX || rep.total_ratings
            == u32::MAX),
{
}

/// A rating counts one more agreement, completed and rated; the average becomes the
/// mean of all ratings in points (20 a star); an agreement whose dispute was decided
/// counts as disputed; the first rating fixes the user, its side, the time and the
/// bump.
pub proof fn law_rating_counts(
    rep: UserReputation,
    a: RentalAgreement,
    user: AccountKey,
    rating: u8,
    on_time_payments: u8,
    now: i64,
    bump: u8,
    r: UserReputation,
)
    requires
        reputation_update_error(rep, a, user, rating, on_time_payments) is None,
        r == rated(rep, a, user, rating, on_time_payments, now, bump),
    ensures
        r.total_agreements == rep.total_agreements + 1,
        r.completed_agreements == rep.completed_agreements + 1,
        r.total_ratings == rep.total_ratings + 1,
        r.average_rating == (rep.average_rating * rep.total_ratings + rating * 20) / (
        rep.total_ratings + 1),
        r.disputed_agreements == rep.disputed_agreements + (if a.dispute_status
            == DisputeStatus::Resolved {
            1int
        } else {
            0
        }),
        r.last_updated == now,
        rep.total_agreements == 0 ==> r.user == user && r.created_at == now && r.bump == bump
            && r.user_type == (if user.bytes@ == a.tenant.bytes@ {
            UserType::Tenant
        } else {
            UserType::Landlord
        }),
        rep.total_agreements != 0 ==> r.user == rep.user && r.created_at == rep.created_at
            && r.bump == rep.bump && r.user_type == rep.user_type,
{
    let avg = rep.average_rating as int;
    let n = rep.total_ratings as int;
    let points = avg * n + rating * 20;
    assert(0 <= points <= 65535 * (n + 1)) by (nonlinear_arith)
        requires
            0 <= avg <= 65535,
            0 <= n,
            points == avg * n + rating * 20,
            rating <= 5,
    ;
    assert(0 <= points / (n + 1) <= 65535) by (nonlinear_arith)
        requires
            0 <= points <= 65535 * (n + 1),
            0 <= n,
    ;
}

/// A tenant's history counts every payment of every lease it was rated on: a rating
/// adds the on-time payments reported and the lease's missed payments to the totals,
/// and the on-time rate becomes the share, in percent, of on-time payments among all
/// payments so far (it stays as it was while there are none). A rating of someone
/// who is not the tenant leaves the payment history as it was.
pub proof fn law_on_time_rate_is_cumulative(
    rep: UserReputation,
    a: RentalAgreement,
    user: AccountKey,
    rating: u8,
    on_time_payments: u8,
    now: i64,
    bump: u8,
    r: UserReputation,
)
    requires
        reputation_update_error(rep, a, user, rating, on_time_payments) is None,
        r == rated(rep, a, user, rating, on_time_payments, now, bump),
    ensures
        user.same(a.tenant) ==> r.total_payments_made == rep.total_payments_made
            + on_time_payments,
        user.same(a.tenant) ==> r.late_payments == rep.late_payments + a.missed_payments,
        user.same(a.tenant) && r.total_payments_made + r.late_payments > 0
            ==> r.on_time_payment_rate == r.total_payments_made * 100 / (r.total_payments_made
            + r.late_payments),
        r.total_payments_made + r.late_payments == 0 ==> r.on_time_payment_rate
            == rep.on_time_payment_rate,
        !user.same(a.tenant) ==> r.total_payments_made == rep.total_payments_made
            && r.late_payments == rep.late_payments && r.on_time_payment_rate
            == rep.on_time_payment_rate,
{
    if user.same(a.tenant) {
        let made = rep.total_payments_made + on_time_payments;
        let late = rep.late_payments + a.missed_payments;
        if made + late > 0 {
            assert(0 <= (made * 100) / (made + late) <= 100) by (nonlinear_arith)
                requires
                    0 <= made,
                    0 <= late,
                    made + late > 0,
            ;
        }
    }
}

/// A landlord's history counts every lease it was rated on: a rating counts one more
/// returned deposit when the lease approved a return to the tenant, and the return
/// rate becomes the share, in percent, of completed leases whose deposit was
/// returned. A rating of someone who is not the landlord leaves this history as it
/// was.
pub proof fn law_deposit_return_rate_is_cumulative(
    rep: UserReputation,
    a: RentalAgreement,
    user: AccountKey,
    rating: u8,
    on_time_payments: u8,
    now: i64,
    bump: u8,
    r: UserReputation,
)
    requires
        rep.wf(),
        reputation_update_error(rep, a, user, rating, on_time_payments) is None,
        r == rated(rep, a, user, rating, on_time_payments, now, bump),
    ensures
        user.same(a.landlord) ==> r.total_deposits_returned == rep.total_deposits_returned + (
        if a.approved_tenant_return > 0 {
            1int
        } else {
            0
        }),
        user.same(a.landlord) ==> r.deposit_return_rate == r.total_deposits_returned * 100
            / (r.completed_agreements as int),
        !user.same(a.landlord) ==> r.total_deposits_returned == rep.total_deposits_returned
            && r.deposit_return_rate == rep.deposit_return_rate,
{
    if user.same(a.landlord) {
        let returned = if a.approved_tenant_return > 0 {
            rep.total_deposits_returned + 1
        } else {
            rep.total_deposits_returned as int
        };
        let completed = rep.completed_agreements + 1;
        assert(0 <= (returned * 100) / completed <= 100) by (nonlinear_arith)
            requires
                0 <= returned <= completed,
                completed > 0,
        ;
    }
}

} // verus!
