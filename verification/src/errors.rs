use vstd::prelude::*;

verus! {

/// Why an instruction is refused.
#[derive(Clone, Copy, Debug, PartialEq, Eq, Structural)]
pub enum RentGuardError {
    InvalidRentDueDay,
    InvalidLeaseDates,
    LeaseNotStarted,
    LeaseEnded,
    DepositAlreadyPaid,
    DepositNotPaid,
    RentNotDue,
    RentAlreadyPaid,
    InsufficientFunds,
    NoRentToWithdraw,
    UnauthorizedLandlord,
    UnauthorizedTenant,
    InvalidAgreementStatus,
    DepositApprovalRequired,
    InvalidDepositDistribution,
    DisputeAlreadyFiled,
    NoActiveDispute,
    UnauthorizedArbitrator,
    PropertyAddressTooLong,
    DisputeReasonTooLong,
    InvalidRating,
    LeaseNotCompleted,
    ArithmeticOverflow,
    CannotTerminateDuringDispute,
}

impl RentGuardError {
    /// The message that explains the error to a user.
    pub open spec fn spec_message(self) -> Seq<char> {
        match self {
            RentGuardError::InvalidRentDueDay => "Invalid rent due day. Must be between 1 and 28."@,
            RentGuardError::InvalidLeaseDates => "Invalid lease dates. End date must be after start date."@,
            RentGuardError::LeaseNotStarted => "Lease has not started yet."@,
            RentGuardError::LeaseEnded => "Lease has already ended."@,
            RentGuardError::DepositAlreadyPaid => "Security deposit already paid."@,
            RentGuardError::DepositNotPaid => "Security deposit not paid yet."@,
            RentGuardError::RentNotDue => "Rent not due yet. Please wait until the due date."@,
            RentGuardError::RentAlreadyPaid => "Rent already paid for this period."@,
            RentGuardError::InsufficientFunds => "Insufficient funds for rent payment."@,
            RentGuardError::NoRentToWithdraw => "No rent available to withdraw."@,
            RentGuardError::UnauthorizedLandlord => "Unauthorized. Only landlord can perform this action."@,
            RentGuardError::UnauthorizedTenant => "Unauthorized. Only tenant can perform this action."@,
            RentGuardError::InvalidAgreementStatus => "Agreement is not in the correct status for this action."@,
            RentGuardError::DepositApprovalRequired => "Both parties must approve the deposit distribution."@,
            RentGuardError::InvalidDepositDistribution => "Deposit distribution amounts must equal total deposit."@,
            RentGuardError::DisputeAlreadyFiled => "Dispute already filed."@,
            RentGuardError::NoActiveDispute => "No active dispute to resolve."@,
            RentGuardError::UnauthorizedArbitrator => "Only arbitrator can resolve disputes."@,
            RentGuardError::PropertyAddressTooLong => "Property address too long."@,
            RentGuardError::DisputeReasonTooLong => "Dispute reason too long."@,
            RentGuardError::InvalidRating => "Invalid rating. Must be between 1 and 5."@,
            RentGuardError::LeaseNotCompleted => "Lease must be completed before updating reputation."@,
            RentGuardError::ArithmeticOverflow => "Arithmetic overflow occurred."@,
            RentGuardError::CannotTerminateDuringDispute => "Cannot terminate lease during active dispute."@,
        }
    }

    /// The message that explains the error to a user.
    pub fn message(&self) -> (m: &'static str)
        ensures
            m@ == self.spec_message(),
    {
        match self {
            RentGuardError::InvalidRentDueDay => "Invalid rent due day. Must be between 1 and 28.",
            RentGuardError::InvalidLeaseDates => "Invalid lease dates. End date must be after start date.",
            RentGuardError::LeaseNotStarted => "Lease has not started yet.",
            RentGuardError::LeaseEnded => "Lease has already ended.",
            RentGuardError::DepositAlreadyPaid => "Security deposit already paid.",
            RentGuardError::DepositNotPaid => "Security deposit not paid yet.",
            RentGuardError::RentNotDue => "Rent not due yet. Please wait until the due date.",
            RentGuardError::RentAlreadyPaid => "Rent already paid for this period.",
            RentGuardError::InsufficientFunds => "Insufficient funds for rent payment.",
            RentGuardError::NoRentToWithdraw => "No rent available to withdraw.",
            RentGuardError::UnauthorizedLandlord => "Unauthorized. Only landlord can perform this action.",
            RentGuardError::UnauthorizedTenant => "Unauthorized. Only tenant can perform this action.",
            RentGuardError::InvalidAgreementStatus => "Agreement is not in the correct status for this action.",
            RentGuardError::DepositApprovalRequired => "Both parties must approve the deposit distribution.",
            RentGuardError::InvalidDepositDistribution => "Deposit distribution amounts must equal total deposit.",
            RentGuardError::DisputeAlreadyFiled => "Dispute already filed.",
            RentGuardError::NoActiveDispute => "No active dispute to resolve.",
            RentGuardError::UnauthorizedArbitrator => "Only arbitrator can resolve disputes.",
            RentGuardError::PropertyAddressTooLong => "Property address too long.",
            RentGuardError::DisputeReasonTooLong => "Dispute reason too long.",
            RentGuardError::InvalidRating => "Invalid rating. Must be between 1 and 5.",
            RentGuardError::LeaseNotCompleted => "Lease must be completed before updating reputation.",
            RentGuardError::ArithmeticOverflow => "Arithmetic overflow occurred.",
            RentGuardError::CannotTerminateDuringDispute => "Cannot terminate lease during active dispute.",
        }
    }
}

} // verus!
