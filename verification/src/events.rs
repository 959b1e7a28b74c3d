use vstd::prelude::*;

use crate::key::AccountKey;

verus! {

/// Emitted when a landlord creates an agreement.
#[derive(Clone, Copy, Debug)]
pub struct AgreementCreated {
    pub agreement: AccountKey,
    pub landlord: AccountKey,
    pub tenant: AccountKey,
    pub rent_amount: u64,
    pub deposit_amount: u64,
    pub lease_start_date: i64,
    pub lease_end_date: i64,
}

/// Emitted when the tenant puts the security deposit into escrow.
#[derive(Clone, Copy, Debug)]
pub struct DepositPaid {
    pub agreement: AccountKey,
    pub tenant: AccountKey,
    pub amount: u64,
    pub timestamp: i64,
}

/// Emitted when the tenant pays a month of rent.
#[derive(Clone, Copy, Debug)]
pub struct RentPaid {
    pub agreement: AccountKey,
    pub tenant: AccountKey,
    pub amount: u64,
    pub payment_date: i64,
    pub is_on_time: bool,
}

/// Emitted when the landlord withdraws the rent held by the agreement.
#[derive(Clone, Copy, Debug)]
pub struct RentWithdrawn {
    pub agreement: AccountKey,
    pub landlord: AccountKey,
    pub amount: u64,
    pub timestamp: i64,
}

/// Emitted when a party asks to end the lease.
#[derive(Clone, Copy, Debug)]
pub struct LeaseTerminated {
    pub agreement: AccountKey,
    pub initiated_by: AccountKey,
    pub timestamp: i64,
}

/// Emitted when the deposit leaves escrow by agreement of both parties.
#[derive(Clone, Copy, Debug)]
pub struct DepositReturned {
    pub agreement: AccountKey,
    pub tenant_amount: u64,
    pub landlord_amount: u64,
    pub timestamp: i64,
}

/// Emitted when a party files a dispute.
#[derive(Clone, Debug)]
pub struct DisputeFiled {
    pub agreement: AccountKey,
    pub filed_by: AccountKey,
    pub reason: String,
    pub requested_amount: u64,
    pub timestamp: i64,
}

/// Emitted when a dispute is decided and the deposit leaves escrow.
#[derive(Clone, Copy, Debug)]
pub struct DisputeResolved {
    pub agreement: AccountKey,
    pub resolved_by: AccountKey,
    pub tenant_amount: u64,
    pub landlord_amount: u64,
    pub timestamp: i64,
}

/// Emitted when a user's reputation changes.
#[derive(Clone, Debug)]
pub struct ReputationUpdated {
    pub user: AccountKey,
    pub user_type: String,
    pub new_average_rating: u16,
    pub total_agreements: u32,
    pub timestamp: i64,
}

} // verus!
