use vstd::prelude::*;

verus! {

/// The address of an account: 32 bytes, compared byte for byte.
#[derive(Clone, Copy, Debug)]
pub struct AccountKey {
    pub bytes: [u8; 32],
}

impl AccountKey {
    /// Two keys name the same account when their bytes agree.
    pub open spec fn same(self, other: AccountKey) -> bool {
        self.bytes@ == other.bytes@
    }

    /// Builds a key from its 32 bytes.
    pub fn new(bytes: [u8; 32]) -> (key: AccountKey)
        ensures
            key.bytes == bytes,
    {
        AccountKey { bytes }
    }

    /// Whether `self` and `other` name the same account.
    pub fn key_eq(&self, other: &AccountKey) -> (res: bool)
        ensures
            res == self.same(*other),
    {
        let mut i: usize = 0;
        while i < 32
            invariant
                0 <= i <= 32,
                forall|j: int| 0 <= j < i ==> self.bytes@[j] == other.bytes@[j],
            decreases 32 - i,
        {
            if self.bytes[i] != other.bytes[i] {
                return false;
            }
            i = i + 1;
        }
        assert(self.bytes@ =~= other.bytes@);
        true
    }
}

} // verus!
