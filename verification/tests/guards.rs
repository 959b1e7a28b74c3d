use rentguard::{
    create_rental_agreement, pay_rent, update_reputation, user_type_to_string, AccountKey,
    AgreementStatus, CreateRentalAgreement, PayRent, RentGuardError, RentalAgreement, UpdateReputation, UserReputation, UserType,
};

fn key(b: u8) -> AccountKey {
    AccountKey::new([b; 32])
}

fn agreement(start: i64, end: i64) -> RentalAgreement {
    let ctx = CreateRentalAgreement {
        rental_agreement: key(7),
        landlord: key(1),
        tenant: key(2),
        now: 0,
        bump: 0,
    };
    let (mut a, _) = create_rental_agreement(&ctx, 10, 40, 5, start, end, String::new()).unwrap();
    a.status = AgreementStatus::Active;
    a.deposit_paid = true;
    a.deposit_in_escrow = 40;
    a
}

#[test]
fn error_messages() {
    assert_eq!(
        RentGuardError::RentNotDue.message(),
        "Rent not due yet. Please wait until the due date."
    );
    assert_eq!(
        RentGuardError::CannotTerminateDuringDispute.message(),
        "Cannot terminate lease during active dispute."
    );
    assert_eq!(RentGuardError::InvalidRating.message(), "Invalid rating. Must be between 1 and 5.");
}

#[test]
fn user_type_names() {
    assert_eq!(user_type_to_string(UserType::Tenant), "Tenant");
    assert_eq!(user_type_to_string(UserType::Landlord), "Landlord");
    assert_eq!(user_type_to_string(UserType::Both), "Both");
}

#[test]
fn key_equality() {
    assert!(key(3).key_eq(&key(3)));
    let mut b = [3u8; 32];
    b[31] = 4;
    assert!(!key(3).key_eq(&AccountKey::new(b)));
}

#[test]
fn rent_clock_overflow_is_refused() {
    // A lease starting far in the past: now - start does not fit in i64.
    let a = agreement(i64::MIN + 5, i64::MAX);
    let ctx = PayRent { rental_agreement: a.clone(), agreement_address: key(7), tenant: key(2), now: 10 };
    assert!(matches!(pay_rent(&ctx), Err(RentGuardError::ArithmeticOverflow)));
    // The same agreement refused earlier (wrong signer) reports that first.
    let ctx = PayRent { rental_agreement: a, agreement_address: key(7), tenant: key(9), now: 10 };
    assert!(matches!(pay_rent(&ctx), Err(RentGuardError::UnauthorizedTenant)));
}

#[test]
fn reputation_overflow_is_refused() {
    let mut a = agreement(0, 1000);
    a.status = AgreementStatus::Completed;
    let mut rep = UserReputation::zeroed();
    rep.total_payments_made = 50_000_000;
    let mut ctx = UpdateReputation {
        rental_agreement: a.clone(),
        user_reputation: rep,
        user_to_rate: key(2),
        now: 0,
        bump: 0,
    };
    assert!(matches!(update_reputation(&mut ctx, 3, 0), Err(RentGuardError::ArithmeticOverflow)));
    assert_eq!(ctx.user_reputation.total_agreements, 0);
    assert!(!ctx.rental_agreement.tenant_rated);
    let mut rep = UserReputation::zeroed();
    rep.total_deposits_returned = 50_000_000;
    rep.completed_agreements = 60_000_000;
    let mut ctx = UpdateReputation {
        rental_agreement: a,
        user_reputation: rep,
        user_to_rate: key(1),
        now: 0,
        bump: 0,
    };
    assert!(matches!(update_reputation(&mut ctx, 3, 0), Err(RentGuardError::ArithmeticOverflow)));
}
