//! Account addresses.

use vstd::prelude::*;
use vstd::std_specs::cmp::PartialEqSpecImpl;

verus! {

/// The 32 bytes that name an account.
#[derive(Clone, Copy, Debug)]
pub struct Address {
    /// The address, byte by byte.
    pub bytes: [u8; 32],
}

impl Address {
    /// The address of 32 zero bytes, which stands for "no account".
    pub open spec fn zero() -> Address {
        Address {
            bytes: [
                0u8,
                0u8,
                0u8,
                0u8,
                0u8,
                0u8,
                0u8,
                0u8,
                0u8,
                0u8,
                0u8,
                0u8,
                0u8,
                0u8,
                0u8,
                0u8,
                0u8,
                0u8,
                0u8,
                0u8,
                0u8,
                0u8,
                0u8,
                0u8,
                0u8,
                0u8,
                0u8,
                0u8,
                0u8,
                0u8,
                0u8,
                0u8,
            ],
        }
    }

    /// The address made of `bytes`.
    pub fn new(bytes: [u8; 32]) -> (res: Self)
        ensures
            res.bytes == bytes,
    {
        Address { bytes }
    }
}

impl PartialEq for Address {
    /// Two addresses are equal when all their bytes are.
    fn eq(&self, other: &Self) -> (res: bool) {
        let mut i: usize = 0;
        while i < 32
            invariant
                i <= 32,
                forall|j: int| 0 <= j < i ==> self.bytes[j] == other.bytes[j],
            decreases 32 - i,
        {
            if self.bytes[i] != other.bytes[i] {
                return false;
            }
            i = i + 1;
        }
        assert(self.bytes =~= other.bytes);
        true
    }
}

impl PartialEqSpecImpl for Address {
    open spec fn obeys_eq_spec() -> bool {
        true
    }

    open spec fn eq_spec(&self, other: &Self) -> bool {
        *self == *other
    }
}

impl Default for Address {
    fn default() -> (res: Self)
        ensures
            res == Address::zero(),
    {
        let res = Address { bytes: [0u8; 32] };
        assert(res.bytes =~= Address::zero().bytes);
        res
    }
}

} // verus!
