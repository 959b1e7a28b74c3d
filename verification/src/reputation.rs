use vstd::prelude::*;

use crate::errors::RentGuardError;
use crate::events::ReputationUpdated;
use crate::key::AccountKey;
use crate::state::{AgreementStatus, DisputeStatus, RentalAgreement, UserReputation, UserType};

verus! {

/// What rating a user reads: the finished agreement, the reputation of the user who
/// is rated, and the clock.
pub struct UpdateReputation {
    pub rental_agreement: RentalAgreement,
    pub user_reputation: UserReputation,
    pub user_to_rate: AccountKey,
    /// The cluster's unix time.
    pub now: i64,
    /// The bump seed of the reputation account's address.
    pub bump: u8,
}

/// How a user type is written in events.
pub open spec fn user_type_name(t: UserType) -> Seq<char> {
    match t {
        UserType::Tenant => "Tenant"@,
        UserType::Landlord => "Landlord"@,
        UserType::Both => "Both"@,
    }
}

/// The name of a user type, as written in events.
pub fn user_type_to_string(t: UserType) -> (s: String)
    ensures
        s@ == user_type_name(t),
{
    match t {
        UserType::Tenant => String::from_str("Tenant"),
        UserType::Landlord => String::from_str("Landlord"),
        UserType::Both => String::from_str("Both"),
    }
}

/// The sum of rating points after a rating of `rating` stars (20 points a star).
pub open spec fn rating_points(rep: UserReputation, rating: u8) -> int {
    rep.average_rating * rep.total_ratings + rating * 20
}

/// Whether `user` was already rated on the agreement.
pub open spec fn already_rated(a: RentalAgreement, user: AccountKey) -> bool {
    (user.same(a.tenant) && a.tenant_rated) || (user.same(a.landlord) && a.landlord_rated)
}

/// The agreement once `user` is rated on it.
pub open spec fn with_rating_recorded(a: RentalAgreement, user: AccountKey) -> RentalAgreement {
    RentalAgreement {
        tenant_rated: a.tenant_rated || user.same(a.tenant),
        landlord_rated: a.landlord_rated || user.same(a.landlord),
        ..a
    }
}

/// The deposits returned that a reputation counts after a rating.
pub open spec fn returned_after(rep: UserReputation, a: RentalAgreement, user: AccountKey) -> int {
    if user.same(a.landlord) && a.approved_tenant_return > 0 {
        rep.total_deposits_returned + 1
    } else {
        rep.total_deposits_returned as int
    }
}

/// A reputation rated for the first time takes the user, its side, the time and the
/// bump; otherwise these stay.
pub open spec fn reputation_base(
    rep: UserReputation,
    a: RentalAgreement,
    user: AccountKey,
    now: i64,
    bump: u8,
) -> UserReputation {
    if rep.total_agreements == 0 {
        UserReputation {
            user,
            user_type: if user.same(a.tenant) {
                UserType::Tenant
            } else {
                UserType::Landlord
            },
            created_at: now,
            bump,
            ..rep
        }
    } else {
        rep
    }
}

/// Some count or percentage that a rating computes does not fit.
pub open spec fn rating_overflows(
    rep: UserReputation,
    a: RentalAgreement,
    user: AccountKey,
    rating: u8,
    on_time_payments: u8,
) -> bool {
    let made = rep.total_payments_made + on_time_payments;
    let late = rep.late_payments + a.missed_payments;
    let returned = returned_after(rep, a, user);
    ||| rep.total_agreements + 1 > u32::MAX
    ||| rep.completed_agreements + 1 > u32::MAX
    ||| rep.average_rating * rep.total_ratings > u32::MAX
    ||| rating_points(rep, rating) > u32::MAX
    ||| rep.total_ratings + 1 > u32::MAX
    ||| (a.dispute_status == DisputeStatus::Resolved && rep.disputed_agreements + 1 > u32::MAX)
    ||| (user.same(a.tenant) && (made > u32::MAX || late > u32::MAX || made + late > u32::MAX
        || made * 100 > u32::MAX))
    ||| (user.same(a.landlord) && (returned > u32::MAX || returned * 100 > u32::MAX))
}

/// The error with which a rating is refused, if it is: the lease must be complete,
/// the rating one to five stars, every count must fit, and the user must be one of
/// the lease's parties and not yet rated on it.
pub open spec fn reputation_update_error(
    rep: UserReputation,
    a: RentalAgreement,
    user: AccountKey,
    rating: u8,
    on_time_payments: u8,
) -> Option<RentGuardError> {
    if a.status != AgreementStatus::Completed {
        Some(RentGuardError::LeaseNotCompleted)
    } else if rating < 1 || rating > 5 {
        Some(RentGuardError::InvalidRating)
    } else if rating_overflows(rep, a, user, rating, on_time_payments) {
        Some(RentGuardError::ArithmeticOverflow)
    } else if !(user.same(a.landlord) || user.same(a.tenant)) {
        Some(RentGuardError::UnauthorizedLandlord)
    } else if already_rated(a, user) {
        Some(RentGuardError::InvalidAgreementStatus)
    } else {
        None
    }
}

/// The reputation after a rating that is not refused.
pub open spec fn rated(
    rep: UserReputation,
    a: RentalAgreement,
    user: AccountKey,
    rating: u8,
    on_time_payments: u8,
    now: i64,
    bump: u8,
) -> UserReputation {
    let base = reputation_base(rep, a, user, now, bump);
    let ratings = (rep.total_ratings + 1) as u32;
    let completed = (rep.completed_agreements + 1) as u32;
    let common = UserReputation {
        total_agreements: (rep.total_agreements + 1) as u32,
        completed_agreements: completed,
        disputed_agreements: if a.dispute_status == DisputeStatus::Resolved {
            (rep.disputed_agreements + 1) as u32
        } else {
            rep.disputed_agreements
        },
        total_ratings: ratings,
        average_rating: (rating_points(rep, rating) / (ratings as int)) as u16,
        last_updated: now,
        ..base
    };
    let after_tenant = if user.same(a.tenant) {
        let made = (rep.total_payments_made + on_time_payments) as u32;
        let late = (rep.late_payments + a.missed_payments) as u32;
        UserReputation {
            total_payments_made: made,
            late_payments: late,
            on_time_payment_rate: if made + late > 0 {
                ((made * 100) / (made + late)) as u16
            } else {
                rep.on_time_payment_rate
            },
            ..common
        }
    } else {
        common
    };
    if user.same(a.landlord) {
        let returned = returned_after(rep, a, user) as u32;
        UserReputation {
            total_deposits_returned: returned,
            deposit_return_rate: ((returned * 100) / (completed as int)) as u16,
            ..after_tenant
        }
    } else {
        after_tenant
    }
}

proof fn lemma_percentage_bound(part: int, whole: int)
    requires
        0 <= part <= whole,
        0 < whole,
    ensures
        0 <= (part * 100) / whole <= 100,
{
    assert((part * 100) / whole <= 100) by (nonlinear_arith)
        requires
            0 <= part <= whole,
            0 < whole,
    ;
    assert(0 <= (part * 100) / whole) by (nonlinear_arith)
        requires
            0 <= part,
            0 < whole,
    ;
}

proof fn lemma_average_bound(average: int, count: int, rating: int)
    requires
        count == 0 || 20 <= average <= 100,
        0 <= average,
        0 <= count,
        1 <= rating <= 5,
    ensures
        20 <= (average * count + rating * 20) / (count + 1) <= 100,
{
    if count == 0 {
        assert(average * count == 0) by (nonlinear_arith)
            requires
                count == 0,
        ;
        assert((rating * 20) / 1 == rating * 20);
    } else {
        assert(20 * count <= average * count <= 100 * count) by (nonlinear_arith)
            requires
                20 <= average <= 100,
                0 <= count,
        ;
        let total = average * count + rating * 20;
        assert(20 * (count + 1) <= total <= 100 * (count + 1));
        assert(20 <= total / (count + 1) <= 100) by (nonlinear_arith)
            requires
                20 * (count + 1) <= total <= 100 * (count + 1),
                0 <= count,
        ;
    }
}

/// A well-formed reputation stays well-formed through a rating: the average stays
/// between 20 and 100, the rates stay percentages, and no more deposits are counted
/// returned than agreements completed.
pub proof fn law_rating_keeps_reputation_bounds(
    rep: UserReputation,
    a: RentalAgreement,
    user: AccountKey,
    rating: u8,
    on_time_payments: u8,
    now: i64,
    bump: u8,
)
    requires
        rep.wf(),
        reputation_update_error(rep, a, user, rating, on_time_payments) is None,
    ensures
        rated(rep, a, user, rating, on_time_payments, now, bump).wf(),
{
    let r = rated(rep, a, user, rating, on_time_payments, now, bump);
    lemma_average_bound(rep.average_rating as int, rep.total_ratings as int, rating as int);
    if user.same(a.tenant) {
        let made = rep.total_payments_made + on_time_payments;
        let late = rep.late_payments + a.missed_payments;
        if made + late > 0 {
            lemma_percentage_bound(made, made + late);
        }
    }
    if user.same(a.landlord) {
        lemma_percentage_bound(returned_after(rep, a, user), rep.completed_agreements + 1);
    }
}

/// Rates a party of a finished agreement with `rating` stars (1 to 5, 20 points a
/// star, kept as an average out of 100), once per agreement. A tenant's rating adds
/// `on_time_payments` and the agreement's missed payments to its payment history; a
/// landlord's counts a returned deposit when the agreement approved a return to the
/// tenant and recomputes the share of completed agreements whose deposit was
/// returned. An agreement whose dispute was decided counts as disputed.
pub fn update_reputation(ctx: &mut UpdateReputation, rating: u8, on_time_payments: u8) -> (res:
    Result<ReputationUpdated, RentGuardError>)
    ensures
        match res {
            Err(e) => {
                &&& reputation_update_error(
                    old(ctx).user_reputation,
                    old(ctx).rental_agreement,
                    old(ctx).user_to_rate,
                    rating,
                    on_time_payments,
                ) == Some(e)
                &&& *final(ctx) == *old(ctx)
            },
            Ok(event) => {
                &&& reputation_update_error(
                    old(ctx).user_reputation,
                    old(ctx).rental_agreement,
                    old(ctx).user_to_rate,
                    rating,
                    on_time_payments,
                ) is None
                &&& *final(ctx) == (UpdateReputation {
                    rental_agreement: with_rating_recorded(
                        old(ctx).rental_agreement,
                        old(ctx).user_to_rate,
                    ),
                    user_reputation: rated(
                        old(ctx).user_reputation,
                        old(ctx).rental_agreement,
                        old(ctx).user_to_rate,
                        rating,
                        on_time_payments,
                        old(ctx).now,
                        old(ctx).bump,
                    ),
                    ..*old(ctx)
                })
                &&& event.user == old(ctx).user_to_rate
                &&& event.user_type@ == user_type_name(final(ctx).user_reputation.user_type)
                &&& event.new_average_rating == final(ctx).user_reputation.average_rating
                &&& event.total_agreements == final(ctx).user_reputation.total_agreements
                &&& event.timestamp == old(ctx).now
            },
        },
        old(ctx).user_reputation.wf() ==> final(ctx).user_reputation.wf(),
        old(ctx).rental_agreement.wf() ==> final(ctx).rental_agreement.wf(),
{
    let user_key = ctx.user_to_rate;
    if ctx.rental_agreement.status != AgreementStatus::Completed {
        return Err(RentGuardError::LeaseNotCompleted);
    }
    let is_tenant = user_key.key_eq(&ctx.rental_agreement.tenant);
    let is_landlord = user_key.key_eq(&ctx.rental_agreement.landlord);
    if !(rating >= 1 && rating <= 5) {
        return Err(RentGuardError::InvalidRating);
    }
    let ghost old_rep = ctx.user_reputation;
    let mut rep = ctx.user_reputation;
    if rep.total_agreements == 0 {
        rep.user = user_key;
        rep.user_type = if is_tenant {
            UserType::Tenant
        } else {
            UserType::Landlord
        };
        rep.created_at = ctx.now;
        rep.bump = ctx.bump;
    }
    rep.total_agreements = match rep.total_agreements.checked_add(1) {
        Some(v) => v,
        None => return Err(RentGuardError::ArithmeticOverflow),
    };
    rep.completed_agreements = match rep.completed_agreements.checked_add(1) {
        Some(v) => v,
        None => return Err(RentGuardError::ArithmeticOverflow),
    };
    let average: u32 = rep.average_rating as u32;
    let total_rating_points: u32 = match average.checked_mul(rep.total_ratings) {
        Some(v) => v,
        None => return Err(RentGuardError::ArithmeticOverflow),
    };
    let stars: u32 = (rating as u32) * 20;
    let new_total_rating: u32 = match total_rating_points.checked_add(stars) {
        Some(v) => v,
        None => return Err(RentGuardError::ArithmeticOverflow),
    };
    rep.total_ratings = match rep.total_ratings.checked_add(1) {
        Some(v) => v,
        None => return Err(RentGuardError::ArithmeticOverflow),
    };
    rep.average_rating = (new_total_rating / rep.total_ratings) as u16;
    if ctx.rental_agreement.dispute_status == DisputeStatus::Resolved {
        rep.disputed_agreements = match rep.disputed_agreements.checked_add(1) {
            Some(v) => v,
            None => return Err(RentGuardError::ArithmeticOverflow),
        };
    }
    if is_tenant {
        rep.total_payments_made = match rep.total_payments_made.checked_add(
            on_time_payments as u32,
        ) {
            Some(v) => v,
            None => return Err(RentGuardError::ArithmeticOverflow),
        };
        let late: u8 = ctx.rental_agreement.missed_payments;
        rep.late_payments = match rep.late_payments.checked_add(late as u32) {
            Some(v) => v,
            None => return Err(RentGuardError::ArithmeticOverflow),
        };
        let total_payments: u32 = match rep.total_payments_made.checked_add(rep.late_payments) {
            Some(v) => v,
            None => return Err(RentGuardError::ArithmeticOverflow),
        };
        let scaled: u32 = match rep.total_payments_made.checked_mul(100) {
            Some(v) => v,
            None => return Err(RentGuardError::ArithmeticOverflow),
        };
        if total_payments > 0 {
            rep.on_time_payment_rate = (scaled / total_payments) as u16;
        }
    }
    if is_landlord {
        if ctx.rental_agreement.approved_tenant_return > 0 {
            rep.total_deposits_returned = match rep.total_deposits_returned.checked_add(1) {
                Some(v) => v,
                None => return Err(RentGuardError::ArithmeticOverflow),
            };
        }
        let scaled: u32 = match rep.total_deposits_returned.checked_mul(100) {
            Some(v) => v,
            None => return Err(RentGuardError::ArithmeticOverflow),
        };
        rep.deposit_return_rate = (scaled / rep.completed_agreements) as u16;
    }
    rep.last_updated = ctx.now;
    if !(is_landlord || is_tenant) {
        return Err(RentGuardError::UnauthorizedLandlord);
    }
    if (is_tenant && ctx.rental_agreement.tenant_rated) || (is_landlord
        && ctx.rental_agreement.landlord_rated) {
        return Err(RentGuardError::InvalidAgreementStatus);
    }
    proof {
        if old_rep.wf() {
            law_rating_keeps_reputation_bounds(
                old_rep,
                ctx.rental_agreement,
                user_key,
                rating,
                on_time_payments,
                ctx.now,
                ctx.bump,
            );
        }
    }
    ctx.user_reputation = rep;
    if is_tenant {
        ctx.rental_agreement.tenant_rated = true;
    }
    if is_landlord {
        ctx.rental_agreement.landlord_rated = true;
    }
    let event = ReputationUpdated {
        user: user_key,
        user_type: user_type_to_string(rep.user_type),
        new_average_rating: rep.average_rating,
        total_agreements: rep.total_agreements,
        timestamp: ctx.now,
    };
    Ok(event)
}

} // verus!
