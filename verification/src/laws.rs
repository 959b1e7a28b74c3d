use vstd::prelude::*;

use crate::errors::RentGuardError;
use crate::instructions::{
    after_approval, approve_error, completes_approval, days_since_last_payment, deposit_error,
    file_dispute_error, is_party, pay_rent_error, record_rent_error, resolve_error, settled,
    terminate_error, with_approval, with_deposit, with_dispute, with_rent_recorded,
    with_resolution, with_termination_pending, withdraw_error, ON_TIME_WITHIN_DAYS,
    RENT_DUE_AFTER_DAYS, SECONDS_PER_DAY,
};
use crate::key::AccountKey;
use crate::reputation::{reputation_update_error, with_rating_recorded};
use crate::state::{AgreementStatus, DisputeStatus, RentalAgreement, UserReputation};

verus! {

/// Whether a rent payment at `now` is on time, as `pay_rent` decides it.
pub open spec fn on_time_at(a: RentalAgreement, now: i64) -> bool {
    days_since_last_payment(a, now) <= ON_TIME_WITHIN_DAYS
}

/// One instruction applied to an agreement: a refused instruction (or one that only
/// moves lamports, like a withdrawal) leaves it as it was; otherwise it is the new
/// state that the instruction's contract gives.
pub open spec fn agreement_step(a: RentalAgreement, b: RentalAgreement) -> bool {
    ||| b == a
    ||| exists|tenant: AccountKey| #[trigger] deposit_error(a, tenant) is None && b == with_deposit(a)
    ||| exists|tenant: AccountKey, now: i64|
        #[trigger] pay_rent_error(a, tenant, now) is None && record_rent_error(
            a,
            on_time_at(a, now),
        ) is None && b == with_rent_recorded(a, now, on_time_at(a, now))
    ||| exists|initiator: AccountKey|
        #[trigger] terminate_error(a, initiator) is None && b == with_termination_pending(a)
    ||| exists|
        approver: AccountKey,
        landlord_account: AccountKey,
        tenant_account: AccountKey,
        tenant_amount: u64,
        landlord_amount: u64,
    |
        #[trigger] approve_error(
            a,
            approver,
            landlord_account,
            tenant_account,
            tenant_amount,
            landlord_amount,
        ) is None && b == after_approval(a, approver, tenant_amount, landlord_amount)
    ||| exists|filer: AccountKey, reason: String, requested_amount: u64|
        #[trigger] with_dispute(a, filer, reason, requested_amount) == b && file_dispute_error(
            a,
            filer,
            reason@,
        ) is None
    ||| exists|
        arbitrator: AccountKey,
        landlord_account: AccountKey,
        tenant_account: AccountKey,
        tenant_amount: u64,
        landlord_amount: u64,
    |
        #[trigger] resolve_error(
            a,
            arbitrator,
            landlord_account,
            tenant_account,
            tenant_amount,
            landlord_amount,
        ) is None && b == with_resolution(a, arbitrator)
    ||| exists|user: AccountKey| #[trigger] with_rating_recorded(a, user) == b
}

/// The terms fixed at creation.
pub open spec fn same_terms(a: RentalAgreement, b: RentalAgreement) -> bool {
    &&& b.landlord == a.landlord
    &&& b.tenant == a.tenant
    &&& b.property_address == a.property_address
    &&& b.rent_amount == a.rent_amount
    &&& b.deposit_amount == a.deposit_amount
    &&& b.rent_due_day == a.rent_due_day
    &&& b.lease_start_date == a.lease_start_date
    &&& b.lease_end_date == a.lease_end_date
    &&& b.created_at == a.created_at
    &&& b.bump == a.bump
}

/// What a later state keeps of an earlier one: the terms; a filed dispute stays
/// filed or decided; a lease that left the active phase never returns to it; a paid
/// deposit stays paid, and once paid out it never returns to escrow; a party rated on
/// the agreement stays rated.
pub open spec fn keeps(a: RentalAgreement, b: RentalAgreement) -> bool {
    &&& same_terms(a, b)
    &&& (a.dispute_status != DisputeStatus::NoDispute ==> b.dispute_status
        != DisputeStatus::NoDispute)
    &&& (a.status != AgreementStatus::Created && a.status != AgreementStatus::Active ==> b.status
        != AgreementStatus::Created && b.status != AgreementStatus::Active)
    &&& (a.deposit_paid ==> b.deposit_paid)
    &&& (a.deposit_paid && a.deposit_in_escrow == 0 ==> b.deposit_in_escrow == 0)
    &&& (a.landlord_rated ==> b.landlord_rated)
    &&& (a.tenant_rated ==> b.tenant_rated)
}

/// One instruction keeps the invariant and everything `keeps` names, and moves the
/// rent clock only by recording one more payment of the agreed rent.
pub proof fn law_step_keeps(a: RentalAgreement, b: RentalAgreement)
    requires
        a.wf(),
        agreement_step(a, b),
    ensures
        b.wf(),
        keeps(a, b),
        b.last_rent_payment == a.last_rent_payment || (b.total_rent_paid == a.total_rent_paid
            + a.rent_amount && b.on_time_payments + b.missed_payments == a.on_time_payments
            + a.missed_payments + 1 && b.last_rent_payment >= a.rent_clock_base()
            + RENT_DUE_AFTER_DAYS * SECONDS_PER_DAY),
        b.deposit_paid != a.deposit_paid ==> b == with_deposit(a),
        b.deposit_in_escrow > a.deposit_in_escrow ==> b == with_deposit(a) && !a.deposit_paid,
        b.deposit_in_escrow < a.deposit_in_escrow ==> b.deposit_in_escrow == 0,
{
    if b == a {
    } else if exists|tenant: AccountKey, now: i64|
        #[trigger] pay_rent_error(a, tenant, now) is None && record_rent_error(
            a,
            on_time_at(a, now),
        ) is None && b == with_rent_recorded(a, now, on_time_at(a, now)) {
        let (tenant, now) = choose|tenant: AccountKey, now: i64|
            #[trigger] pay_rent_error(a, tenant, now) is None && record_rent_error(
                a,
                on_time_at(a, now),
            ) is None && b == with_rent_recorded(a, now, on_time_at(a, now));
        assert(a.rent_amount * (a.on_time_payments + a.missed_payments + 1) == a.rent_amount * (
        a.on_time_payments + a.missed_payments) + a.rent_amount) by (nonlinear_arith);
        let elapsed = now - a.rent_clock_base();
        assert(elapsed >= 0);
        assert(elapsed / 86400 >= 25);
        assert(elapsed >= 25 * 86400) by (nonlinear_arith)
            requires
                elapsed >= 0,
                elapsed / 86400 >= 25,
        ;
    }
}

/// Over any run of instructions from a well-formed agreement (such as one just
/// created), every state is well-formed and keeps what every earlier state
/// established: the terms are those of creation, a dispute is filed at most once, the
/// lease never returns to the active phase, and the deposit leaves escrow at most once.
pub proof fn law_agreement_lifecycle(s: Seq<RentalAgreement>)
    requires
        s.len() > 0,
        s[0].wf(),
        forall|i: int| 0 <= i < s.len() - 1 ==> agreement_step(#[trigger] s[i], s[i + 1]),
    ensures
        forall|j: int| 0 <= j < s.len() ==> (#[trigger] s[j]).wf(),
        forall|i: int, j: int| 0 <= i <= j < s.len() ==> keeps(#[trigger] s[i], #[trigger] s[j]),
    decreases s.len(),
{
    if s.len() > 1 {
        let p = s.drop_last();
        assert forall|i: int| 0 <= i < p.len() - 1 implies agreement_step(#[trigger] p[i], p[i + 1]) by {
            assert(agreement_step(s[i], s[i + 1]));
        }
        law_agreement_lifecycle(p);
        let n = s.len() - 1;
        assert(p[n - 1] == s[n - 1]);
        assert(agreement_step(s[n - 1], s[n]));
        law_step_keeps(s[n - 1], s[n]);
        assert forall|j: int| 0 <= j < s.len() implies (#[trigger] s[j]).wf() by {
            if j < n {
                assert(p[j] == s[j]);
            }
        }
        assert forall|i: int, j: int| 0 <= i <= j < s.len() implies keeps(
            #[trigger] s[i],
            #[trigger] s[j],
        ) by {
            if j < n {
                assert(p[i] == s[i] && p[j] == s[j]);
            } else if i < n {
                assert(p[i] == s[i]);
                assert(keeps(p[i], p[n - 1]));
            }
        }
    }
}

/// The lamports that one step takes out of escrow. By the contracts of
/// `approve_deposit_return` and `resolve_dispute`, a step that empties the escrow
/// pays out exactly this, to the tenant and the landlord.
pub open spec fn released(a: RentalAgreement, b: RentalAgreement) -> int {
    if b.deposit_in_escrow < a.deposit_in_escrow {
        a.deposit_in_escrow - b.deposit_in_escrow
    } else {
        0
    }
}

/// The lamports that a run of steps takes out of escrow in all.
pub open spec fn total_released(s: Seq<RentalAgreement>) -> int
    decreases s.len(),
{
    if s.len() <= 1 {
        0
    } else {
        total_released(s.drop_last()) + released(s[s.len() - 2], s[s.len() - 1])
    }
}

/// Over any run of instructions from a new agreement, the deposit is paid out at
/// most once and never beyond itself: what all payouts took out of escrow plus what
/// the escrow still holds is the deposit once it was paid, and nothing before.
pub proof fn law_deposit_paid_out_at_most_once(s: Seq<RentalAgreement>)
    requires
        s.len() > 0,
        s[0].wf(),
        !s[0].deposit_paid,
        forall|i: int| 0 <= i < s.len() - 1 ==> agreement_step(#[trigger] s[i], s[i + 1]),
    ensures
        total_released(s) + s.last().deposit_in_escrow == (if s.last().deposit_paid {
            s[0].deposit_amount as int
        } else {
            0
        }),
        0 <= total_released(s) <= s[0].deposit_amount,
        s.last().deposit_paid && s.last().deposit_in_escrow == 0 ==> total_released(s)
            == s[0].deposit_amount,
    decreases s.len(),
{
    law_agreement_lifecycle(s);
    if s.len() > 1 {
        let p = s.drop_last();
        assert forall|i: int| 0 <= i < p.len() - 1 implies agreement_step(#[trigger] p[i], p[i + 1]) by {
            assert(agreement_step(s[i], s[i + 1]));
        }
        law_deposit_paid_out_at_most_once(p);
        let n = s.len() - 1;
        let a = s[n - 1];
        let b = s[n];
        assert(p.last() == a);
        assert(agreement_step(a, b));
        assert(a.wf());
        assert(keeps(s[0], b));
        law_step_keeps(a, b);
    } else {
        assert(s.last() == s[0]);
    }
}

/// A withdrawal leaves exactly the deposit in escrow and the rent-exempt minimum
/// (see `withdraw_rent`), and a payout lowers the balance with the escrow. So as long
/// as no lamports come in, the balance holds no more than that, and another
/// withdrawal is refused.
pub proof fn law_no_withdrawal_without_new_rent(
    a: RentalAgreement,
    landlord: AccountKey,
    lamports: u64,
    rent_exempt_minimum: u64,
)
    requires
        lamports <= a.deposit_in_escrow + rent_exempt_minimum,
    ensures
        withdraw_error(a, landlord, lamports, rent_exempt_minimum) is Some,
        landlord.same(a.landlord) && lamports >= a.deposit_in_escrow ==> withdraw_error(
            a,
            landlord,
            lamports,
            rent_exempt_minimum,
        ) == Some(RentGuardError::NoRentToWithdraw),
{
}

/// Rent is paid at most once a period: while the last recorded payment is at
/// `paid_at` (which nothing but a new payment changes, see `law_step_keeps`), a
/// payment at any time less than 25 days later is refused. (A payment recorded at
/// time 0 reads as no payment at all, so `paid_at` is not 0.)
pub proof fn law_rent_not_paid_twice_in_a_period(a: RentalAgreement, tenant: AccountKey, now: i64)
    requires
        a.last_rent_payment != 0,
        now < a.last_rent_payment + RENT_DUE_AFTER_DAYS * SECONDS_PER_DAY,
    ensures
        pay_rent_error(a, tenant, now) is Some,
{
    let elapsed = now - a.last_rent_payment;
    if elapsed >= 0 {
        assert(elapsed / 86400 < 25);
    }
}

/// Just after a payment recorded at `paid_at`, a payment less than 25 days later is
/// refused.
pub proof fn law_rent_refused_right_after_payment(
    a: RentalAgreement,
    tenant: AccountKey,
    paid_at: i64,
    is_on_time: bool,
    now: i64,
)
    requires
        paid_at != 0,
        now < paid_at + RENT_DUE_AFTER_DAYS * SECONDS_PER_DAY,
    ensures
        pay_rent_error(with_rent_recorded(a, paid_at, is_on_time), tenant, now) is Some,
{
    law_rent_not_paid_twice_in_a_period(with_rent_recorded(a, paid_at, is_on_time), tenant, now);
}

/// The deposit is paid into escrow once: an agreement whose deposit was paid refuses
/// another deposit.
pub proof fn law_deposit_paid_once(a: RentalAgreement, tenant: AccountKey)
    ensures
        deposit_error(with_deposit(a), tenant) is Some,
{
}

/// A withdrawal takes all the rent there is: right after it, another withdrawal from
/// the balance it leaves is refused.
pub proof fn law_second_withdrawal_refused(
    a: RentalAgreement,
    landlord: AccountKey,
    lamports: u64,
    rent_exempt_minimum: u64,
)
    requires
        withdraw_error(a, landlord, lamports, rent_exempt_minimum) is None,
    ensures
        withdraw_error(
            a,
            landlord,
            (lamports - (lamports - a.deposit_in_escrow - rent_exempt_minimum)) as u64,
            rent_exempt_minimum,
        ) == Some(RentGuardError::NoRentToWithdraw),
{
}

/// The deposit leaves escrow only once both parties approved the same split: an
/// approval that completes the approvals is made by one party after the other party
/// approved exactly that split.
pub proof fn law_distribution_needs_both_parties(
    a: RentalAgreement,
    approver: AccountKey,
    tenant_amount: u64,
    landlord_amount: u64,
)
    requires
        completes_approval(a, approver, tenant_amount, landlord_amount),
    ensures
        if approver.same(a.landlord) {
            a.tenant_deposit_approval
        } else {
            a.landlord_deposit_approval
        },
        a.approved_tenant_return == tenant_amount,
        a.approved_landlord_return == landlord_amount,
{
}

/// From no approvals, the landlord's approval of a split followed by the tenant's
/// approval of the same split pays the deposit out (when the two are different
/// accounts); neither alone does, and the tenant approving a different split does not.
pub proof fn law_agreed_split_distributes(
    a: RentalAgreement,
    split: (u64, u64),
    other_split: (u64, u64),
)
    requires
        !a.landlord_deposit_approval,
        !a.tenant_deposit_approval,
        !a.tenant.same(a.landlord),
        other_split != split,
    ensures
        !completes_approval(a, a.landlord, split.0, split.1),
        !completes_approval(a, a.tenant, split.0, split.1),
        completes_approval(with_approval(a, a.landlord, split.0, split.1), a.tenant, split.0, split.1),
        !completes_approval(
            with_approval(a, a.landlord, split.0, split.1),
            a.tenant,
            other_split.0,
            other_split.1,
        ),
{
}

/// The deposit is paid only to the agreement's own tenant and landlord, and only
/// on a decision by someone who is neither: an approval that pays the deposit out,
/// and a decision that is not refused, name the parties as the receiving accounts.
pub proof fn law_payouts_only_to_parties(
    a: RentalAgreement,
    signer: AccountKey,
    landlord_account: AccountKey,
    tenant_account: AccountKey,
    tenant_amount: u64,
    landlord_amount: u64,
)
    ensures
        approve_error(a, signer, landlord_account, tenant_account, tenant_amount, landlord_amount)
            is None && completes_approval(a, signer, tenant_amount, landlord_amount)
            ==> landlord_account.same(a.landlord) && tenant_account.same(a.tenant),
        resolve_error(a, signer, landlord_account, tenant_account, tenant_amount, landlord_amount)
            is None ==> landlord_account.same(a.landlord) && tenant_account.same(a.tenant)
            && !is_party(a, signer),
{
}

/// A party of the agreement cannot decide its dispute: a split that would otherwise
/// be accepted is refused as an unauthorized arbitrator.
pub proof fn law_parties_cannot_arbitrate(
    a: RentalAgreement,
    signer: AccountKey,
    landlord_account: AccountKey,
    tenant_account: AccountKey,
    tenant_amount: u64,
    landlord_amount: u64,
)
    requires
        a.dispute_status == DisputeStatus::Filed,
        is_party(a, signer),
    ensures
        resolve_error(a, signer, landlord_account, tenant_account, tenant_amount, landlord_amount)
            is Some,
        tenant_amount + landlord_amount == a.deposit_in_escrow ==> resolve_error(
            a,
            signer,
            landlord_account,
            tenant_account,
            tenant_amount,
            landlord_amount,
        ) == Some(RentGuardError::UnauthorizedArbitrator),
{
}

/// A user is rated at most once per agreement: once rated on it, another rating on
/// it is refused; and only the landlord and the tenant can be rated.
pub proof fn law_rated_once_per_agreement(
    rep: UserReputation,
    a: RentalAgreement,
    user: AccountKey,
    rating: u8,
    on_time_payments: u8,
)
    ensures
        reputation_update_error(rep, with_rating_recorded(a, user), user, rating, on_time_payments)
            is Some,
        !is_party(a, user) ==> reputation_update_error(rep, a, user, rating, on_time_payments)
            is Some,
{
}

/// The deposit is locked in escrow until the lease is settled: paying it puts exactly
/// the agreed deposit in escrow where none was; rent, termination, a recorded approval
/// and a dispute leave the escrow as it is; only a settlement (both approvals of the
/// same split, or a decided dispute) empties it.
pub proof fn law_escrow_released_only_by_settlement(
    a: RentalAgreement,
    party: AccountKey,
    now: i64,
    is_on_time: bool,
    tenant_amount: u64,
    landlord_amount: u64,
    reason: String,
    requested_amount: u64,
)
    requires
        a.wf(),
    ensures
        a.status == AgreementStatus::Created ==> a.deposit_in_escrow == 0
            && with_deposit(a).deposit_in_escrow == a.deposit_amount,
        with_rent_recorded(a, now, is_on_time).deposit_in_escrow == a.deposit_in_escrow,
        with_termination_pending(a).deposit_in_escrow == a.deposit_in_escrow,
        with_approval(a, party, tenant_amount, landlord_amount).deposit_in_escrow
            == a.deposit_in_escrow,
        with_dispute(a, party, reason, requested_amount).deposit_in_escrow == a.deposit_in_escrow,
        with_rating_recorded(a, party).deposit_in_escrow == a.deposit_in_escrow,
        settled(a).deposit_in_escrow == 0,
        with_resolution(a, party).deposit_in_escrow == 0,
{
}

/// A completed lease takes no more deposit, rent, termination or approval; and,
/// unless a new dispute is filed, no decision.
pub proof fn law_completed_lease_is_closed(
    a: RentalAgreement,
    party: AccountKey,
    landlord_account: AccountKey,
    tenant_account: AccountKey,
    now: i64,
    tenant_amount: u64,
    landlord_amount: u64,
)
    requires
        a.wf(),
        a.status == AgreementStatus::Completed,
    ensures
        deposit_error(a, party) is Some,
        pay_rent_error(a, party, now) is Some,
        terminate_error(a, party) is Some,
        approve_error(a, party, landlord_account, tenant_account, tenant_amount, landlord_amount)
            is Some,
        resolve_error(a, party, landlord_account, tenant_account, tenant_amount, landlord_amount)
            is Some,
        a.deposit_in_escrow == 0,
{
}

/// A lease cannot be ended while a dispute is open or decided.
pub proof fn law_no_termination_during_dispute(a: RentalAgreement, party: AccountKey)
    requires
        a.dispute_status != DisputeStatus::NoDispute,
    ensures
        terminate_error(a, party) is Some,
{
}

} // verus!
