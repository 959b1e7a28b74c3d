use vstd::prelude::*;

use crate::key::AccountKey;

verus! {

/// A movement of lamports from one account to another that an instruction asks for.
#[derive(Clone, Copy, Debug)]
pub struct Transfer {
    pub from: AccountKey,
    pub to: AccountKey,
    pub lamports: u64,
}

/// The lamports that a list of transfers moves in all.
pub open spec fn total_lamports(transfers: Seq<Transfer>) -> int
    decreases transfers.len(),
{
    if transfers.len() == 0 {
        0
    } else {
        total_lamports(transfers.drop_last()) + transfers.last().lamports
    }
}

/// The transfers that pay a deposit out of escrow: the tenant's share first, then the
/// landlord's, each only where it is not zero.
pub open spec fn payouts(
    escrow: AccountKey,
    tenant_account: AccountKey,
    tenant_amount: u64,
    landlord_account: AccountKey,
    landlord_amount: u64,
) -> Seq<Transfer> {
    let to_tenant = if tenant_amount > 0 {
        seq![Transfer { from: escrow, to: tenant_account, lamports: tenant_amount }]
    } else {
        Seq::empty()
    };
    let to_landlord = if landlord_amount > 0 {
        seq![Transfer { from: escrow, to: landlord_account, lamports: landlord_amount }]
    } else {
        Seq::empty()
    };
    to_tenant + to_landlord
}

/// The payouts move exactly the two shares.
pub proof fn lemma_payouts_total(
    escrow: AccountKey,
    tenant_account: AccountKey,
    tenant_amount: u64,
    landlord_account: AccountKey,
    landlord_amount: u64,
)
    ensures
        total_lamports(payouts(escrow, tenant_account, tenant_amount, landlord_account, landlord_amount))
            == tenant_amount + landlord_amount,
{
    let s = payouts(escrow, tenant_account, tenant_amount, landlord_account, landlord_amount);
    reveal_with_fuel(total_lamports, 3);
    if tenant_amount > 0 && landlord_amount > 0 {
        assert(s.drop_last() =~= seq![Transfer { from: escrow, to: tenant_account, lamports: tenant_amount }]);
        assert(s.drop_last().drop_last() =~= Seq::<Transfer>::empty());
    } else if tenant_amount > 0 {
        assert(s.drop_last() =~= Seq::<Transfer>::empty());
    } else if landlord_amount > 0 {
        assert(s.drop_last() =~= Seq::<Transfer>::empty());
    } else {
        assert(s =~= Seq::<Transfer>::empty());
    }
}

/// Builds the transfers that pay a deposit out of escrow.
pub fn make_payouts(
    escrow: AccountKey,
    tenant_account: AccountKey,
    tenant_amount: u64,
    landlord_account: AccountKey,
    landlord_amount: u64,
) -> (transfers: Vec<Transfer>)
    ensures
        transfers@ == payouts(escrow, tenant_account, tenant_amount, landlord_account, landlord_amount),
{
    let mut transfers: Vec<Transfer> = Vec::new();
    if tenant_amount > 0 {
        transfers.push(Transfer { from: escrow, to: tenant_account, lamports: tenant_amount });
    }
    if landlord_amount > 0 {
        transfers.push(Transfer { from: escrow, to: landlord_account, lamports: landlord_amount });
    }
    assert(transfers@ =~= payouts(escrow, tenant_account, tenant_amount, landlord_account, landlord_amount));
    transfers
}

} // verus!
