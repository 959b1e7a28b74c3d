//! Rental agreements with an escrowed security deposit: the rules by which a landlord
//! and a tenant create an agreement, pay the deposit and the rent, end the lease,
//! return the deposit or have a dispute decided, and by which users are rated.
//!
//! Every instruction is a function from the state it reads (a context holding the
//! accounts' contents, the signer and the clock) to the new state, the lamport
//! transfers to make and the event to emit, or to the error that refuses it. A
//! refused instruction changes nothing.

pub mod errors;
pub mod events;
pub mod instructions;
pub mod key;
pub mod laws;
pub mod operation_laws;
pub mod reputation;
pub mod state;
pub mod transfer;

pub use errors::RentGuardError;
pub use events::{
    AgreementCreated, DepositPaid, DepositReturned, DisputeFiled, DisputeResolved,
    LeaseTerminated, RentPaid, RentWithdrawn, ReputationUpdated,
};
pub use instructions::{
    approve_deposit_return, create_rental_agreement, deposit_security, file_dispute, pay_rent,
    record_rent_payment, resolve_dispute, terminate_lease,
    withdraw_rent, ApproveDepositReturn, CreateRentalAgreement, DepositSecurity, FileDispute,
    PayRent, RentPayment, ResolveDispute, TerminateLease, WithdrawRent,
};
pub use key::AccountKey;
pub use reputation::{
    update_reputation, user_type_to_string, UpdateReputation,
};
pub use state::{AgreementStatus, DisputeStatus, RentalAgreement, UserReputation, UserType};
pub use transfer::Transfer;
