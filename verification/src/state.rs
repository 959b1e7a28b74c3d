use vstd::prelude::*;

use crate::key::AccountKey;

verus! {

/// Where a rental agreement stands in its life.
#[derive(Clone, Copy, Debug, PartialEq, Eq, Structural)]
pub enum AgreementStatus {
    /// Created, waiting for the security deposit.
    Created,
    /// Deposit paid, the lease is running.
    Active,
    /// One party asked to end the lease.
    TerminationPending,
    /// A dispute was filed and waits for a decision.
    DisputePending,
    /// The lease ended and the deposit left escrow.
    Completed,
    /// Cancelled before activation.
    Cancelled,
}

/// Where the dispute of an agreement stands.
#[derive(Clone, Copy, Debug, PartialEq, Eq, Structural)]
pub enum DisputeStatus {
    /// No dispute was filed.
    NoDispute,
    Filed,
    UnderReview,
    Resolved,
}

/// Which side of agreements a reputation describes.
#[derive(Clone, Copy, Debug, PartialEq, Eq, Structural)]
pub enum UserType {
    Tenant,
    Landlord,
    Both,
}

/// The number of UTF-8 bytes that a string takes.
pub open spec fn byte_len(s: Seq<char>) -> nat {
    vstd::utf8::encode_utf8(s).len()
}

/// A rental agreement between a landlord and a tenant, with its escrowed deposit.
#[derive(Clone, Debug)]
pub struct RentalAgreement {
    pub landlord: AccountKey,
    pub tenant: AccountKey,
    pub property_address: String,
    pub rent_amount: u64,
    pub deposit_amount: u64,
    /// Day of the month on which rent falls due.
    pub rent_due_day: u8,
    /// Unix timestamps.
    pub lease_start_date: i64,
    pub lease_end_date: i64,
    pub created_at: i64,
    pub status: AgreementStatus,
    pub deposit_paid: bool,
    /// Time of the last rent payment; 0 while no rent was paid.
    pub last_rent_payment: i64,
    pub total_rent_paid: u64,
    pub missed_payments: u8,
    pub on_time_payments: u8,
    pub deposit_in_escrow: u64,
    pub landlord_deposit_approval: bool,
    pub tenant_deposit_approval: bool,
    pub approved_tenant_return: u64,
    pub approved_landlord_return: u64,
    pub dispute_status: DisputeStatus,
    pub dispute_reason: String,
    pub dispute_requested_amount: u64,
    pub dispute_filed_by: Option<AccountKey>,
    pub arbitrator: Option<AccountKey>,
    pub bump: u8,
    /// Whether the landlord was rated on this agreement.
    pub landlord_rated: bool,
    /// Whether the tenant was rated on this agreement.
    pub tenant_rated: bool,
}

impl RentalAgreement {
    /// Longest property address, in bytes.
    pub const MAX_ADDRESS_LEN: usize = 200;

    /// Longest dispute reason, in bytes.
    pub const MAX_DISPUTE_REASON_LEN: usize = 500;

    /// Space that a rental agreement takes on chain, in bytes: the account
    /// discriminator and each field at its largest.
    pub const LEN: usize = 8 + 32 + 32 + (4 + Self::MAX_ADDRESS_LEN) + 8 + 8 + 1 + 8 + 8 + 8 + 1
        + 1 + 8 + 8 + 1 + 1 + 8 + 1 + 1 + 8 + 8 + 1 + (4 + Self::MAX_DISPUTE_REASON_LEN) + 8 + (1
        + 32) + (1 + 32) + 1 + 1 + 1;

    /// The time from which the rent clock counts: the last payment, or the lease
    /// start while no rent was paid.
    pub open spec fn rent_clock_base(self) -> int {
        if self.last_rent_payment == 0 {
            self.lease_start_date as int
        } else {
            self.last_rent_payment as int
        }
    }

    /// The deposit stays in escrow exactly while the lease has not been settled, every
    /// rent payment is counted once, and the dispute fields agree with the status.
    pub open spec fn wf(self) -> bool {
        &&& 1 <= self.rent_due_day <= 28
        &&& self.lease_start_date < self.lease_end_date
        &&& byte_len(self.property_address@) <= Self::MAX_ADDRESS_LEN
        &&& byte_len(self.dispute_reason@) <= Self::MAX_DISPUTE_REASON_LEN
        &&& (self.deposit_in_escrow == 0 || (self.deposit_paid && self.deposit_in_escrow
            == self.deposit_amount))
        &&& (self.status == AgreementStatus::Created ==> !self.deposit_paid)
        &&& (self.deposit_paid ==> self.status != AgreementStatus::Created)
        &&& ((self.status == AgreementStatus::Active || self.status
            == AgreementStatus::TerminationPending) ==> self.deposit_paid
            && self.deposit_in_escrow == self.deposit_amount)
        &&& (self.status == AgreementStatus::Completed ==> self.deposit_in_escrow == 0)
        &&& (self.status == AgreementStatus::DisputePending <==> self.dispute_status
            == DisputeStatus::Filed)
        &&& (self.dispute_status == DisputeStatus::Resolved ==> self.status
            == AgreementStatus::Completed)
        &&& self.dispute_status != DisputeStatus::UnderReview
        &&& (self.dispute_filed_by is None <==> self.dispute_status == DisputeStatus::NoDispute)
        &&& (self.arbitrator is Some <==> self.dispute_status == DisputeStatus::Resolved)
        &&& ((self.landlord_deposit_approval || self.tenant_deposit_approval) ==> self.status
            != AgreementStatus::Created && self.status != AgreementStatus::Active)
        &&& self.status != AgreementStatus::Cancelled
        &&& self.total_rent_paid == self.rent_amount * (self.on_time_payments
            + self.missed_payments)
    }
}

/// What is known of a user across all the agreements it was rated on.
#[derive(Clone, Copy, Debug)]
pub struct UserReputation {
    pub user: AccountKey,
    pub user_type: UserType,
    pub total_agreements: u32,
    pub completed_agreements: u32,
    pub disputed_agreements: u32,
    /// Out of 100.
    pub average_rating: u16,
    pub total_ratings: u32,
    /// Percentage (0-100).
    pub on_time_payment_rate: u16,
    pub total_payments_made: u32,
    pub late_payments: u32,
    /// Percentage (0-100).
    pub deposit_return_rate: u16,
    pub total_deposits_returned: u32,
    pub created_at: i64,
    pub last_updated: i64,
    pub bump: u8,
}

impl UserReputation {
    /// Space that a user reputation takes on chain, in bytes.
    pub const LEN: usize = 8 + 32 + 1 + 4 + 4 + 4 + 2 + 4 + 2 + 4 + 4 + 2 + 4 + 8 + 8 + 1;

    /// A reputation account that was just allocated: every field zero.
    pub fn zeroed() -> (rep: UserReputation)
        ensures
            rep.user.bytes@ == Seq::new(32, |i: int| 0u8),
            rep.user_type == UserType::Tenant,
            rep.total_agreements == 0,
            rep.completed_agreements == 0,
            rep.disputed_agreements == 0,
            rep.average_rating == 0,
            rep.total_ratings == 0,
            rep.on_time_payment_rate == 0,
            rep.total_payments_made == 0,
            rep.late_payments == 0,
            rep.deposit_return_rate == 0,
            rep.total_deposits_returned == 0,
            rep.created_at == 0,
            rep.last_updated == 0,
            rep.bump == 0,
            rep.wf(),
    {
        let rep = UserReputation {
            user: AccountKey { bytes: [0u8; 32] },
            user_type: UserType::Tenant,
            total_agreements: 0,
            completed_agreements: 0,
            disputed_agreements: 0,
            average_rating: 0,
            total_ratings: 0,
            on_time_payment_rate: 0,
            total_payments_made: 0,
            late_payments: 0,
            deposit_return_rate: 0,
            total_deposits_returned: 0,
            created_at: 0,
            last_updated: 0,
            bump: 0,
        };
        assert(rep.user.bytes@ =~= Seq::new(32, |i: int| 0u8));
        rep
    }

    /// The average stays between one star (20) and five stars (100) once a rating was
    /// made, the rates stay percentages, and no more deposits were returned than
    /// agreements completed.
    pub open spec fn wf(self) -> bool {
        &&& (self.total_ratings == 0 || 20 <= self.average_rating <= 100)
        &&& self.on_time_payment_rate <= 100
        &&& self.deposit_return_rate <= 100
        &&& self.total_deposits_returned <= self.completed_agreements
    }
}

} // verus!
