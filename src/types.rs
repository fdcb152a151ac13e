//! Plain data records shared by the pool, fee and quote logic.
use vstd::prelude::*;

verus! {

/// A 32-byte account address.
#[derive(Clone, Copy, Debug)]
pub struct Address {
    pub bytes: [u8; 32],
}

impl PartialEq for Address {
    fn eq(&self, o: &Address) -> (r: bool) {
        let mut i: usize = 0;
        while i < 32
            invariant
                i <= 32,
                forall|j: int| 0 <= j < i ==> self.bytes@[j] == o.bytes@[j],
            decreases 32 - i,
        {
            if self.bytes[i] != o.bytes[i] {
                return false;
            }
            i = i + 1;
        }
        proof {
            assert(self.bytes@ =~= o.bytes@);
        }
        true
    }
}

impl vstd::std_specs::cmp::PartialEqSpecImpl for Address {
    open spec fn obeys_eq_spec() -> bool {
        true
    }

    open spec fn eq_spec(&self, o: &Address) -> bool {
        self.bytes@ == o.bytes@
    }
}

impl Eq for Address {
}

impl Address {
    /// Builds an address from its bytes.
    pub fn new_from_array(bytes: [u8; 32]) -> (r: Address)
        ensures
            r.bytes == bytes,
    {
        Address { bytes }
    }

    /// The bytes of the address.
    pub fn to_bytes(&self) -> (r: [u8; 32])
        ensures
            r == self.bytes,
    {
        self.bytes
    }
}

/// Errors reported by the library.
#[derive(Clone, Copy, Debug, PartialEq, Eq)]
pub enum ClmmError {
    /// The requested mint pair is not the pool's pair.
    InvalidRequest,
    /// A quote was asked for before a successful update.
    NotReady,
    /// An account that an update needs is absent from the supplied map.
    MissingAccount(Address),
    /// An account in the supplied map holds a record of the wrong kind.
    DecodeError(Address),
    /// A checked step would exceed `u64::MAX`.
    ArithmeticOverflow,
    /// A checked step would go below zero.
    ArithmeticUnderflow,
    /// The curve could not satisfy the request from the fetched tick arrays.
    InsufficientLiquidity,
    /// The current tick lies outside the range the pool bitmap covers.
    UnrepresentableRange,
}

} // verus!
