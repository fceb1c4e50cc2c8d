use vstd::prelude::*;

verus! {

/// A 20-byte chain account identifier, used as a lookup key.
#[derive(Debug)]
pub struct Address {
    bytes: Vec<u8>,
}

impl View for Address {
    type V = Seq<u8>;

    closed spec fn view(&self) -> Seq<u8> {
        self.bytes@
    }
}

impl Address {
    /// An address is exactly 20 bytes long.
    pub open spec fn wf(&self) -> bool {
        self@.len() == 20
    }

    /// Builds an address from its raw bytes; any length other than 20 is rejected.
    pub fn from_bytes(bytes: Vec<u8>) -> (r: Option<Address>)
        ensures
            bytes@.len() == 20 ==> r is Some && r.unwrap()@ == bytes@ && r.unwrap().wf(),
            bytes@.len() != 20 ==> r is None,
    {
        if bytes.len() == 20 {
            Some(Address { bytes })
        } else {
            None
        }
    }

    pub fn as_bytes(&self) -> (r: &Vec<u8>)
        ensures
            r@ == self@,
    {
        &self.bytes
    }
}

/// A 256-bit hash held as its 32 raw bytes.
#[derive(Debug)]
pub struct Hash256 {
    bytes: Vec<u8>,
}

impl View for Hash256 {
    type V = Seq<u8>;

    closed spec fn view(&self) -> Seq<u8> {
        self.bytes@
    }
}

impl Hash256 {
    /// A 256-bit hash is exactly 32 bytes long.
    pub open spec fn wf(&self) -> bool {
        self@.len() == 32
    }

    /// Builds a hash from its raw bytes; any length other than 32 is rejected.
    pub fn from_bytes(bytes: Vec<u8>) -> (r: Option<Hash256>)
        ensures
            bytes@.len() == 32 ==> r is Some && r.unwrap()@ == bytes@ && r.unwrap().wf(),
            bytes@.len() != 32 ==> r is None,
    {
        if bytes.len() == 32 {
            Some(Hash256 { bytes })
        } else {
            None
        }
    }

    /// Wraps raw bytes with no length check; for internal use where the
    /// producer already fixes the length.
    pub(crate) fn from_raw(bytes: Vec<u8>) -> (r: Hash256)
        ensures
            r@ == bytes@,
    {
        Hash256 { bytes }
    }

    pub fn as_bytes(&self) -> (r: &Vec<u8>)
        ensures
            r@ == self@,
    {
        &self.bytes
    }

    /// Byte-for-byte comparison of two hashes.
    pub fn equals(&self, other: &Hash256) -> (r: bool)
        ensures
            r == (self@ == other@),
    {
        let n = self.bytes.len();
        if other.bytes.len() != n {
            proof {
                assert(self@.len() != other@.len());
            }
            return false;
        }
        let mut i: usize = 0;
        while i < n
            invariant
                n == self.bytes@.len(),
                n == other.bytes@.len(),
                i <= n,
                forall|j: int| 0 <= j < i ==> self.bytes@[j] == other.bytes@[j],
            decreases n - i,
        {
            if self.bytes[i] != other.bytes[i] {
                proof {
                    assert(self@[i as int] != other@[i as int]);
                }
                return false;
            }
            i += 1;
        }
        proof {
            assert(self@ =~= other@);
        }
        true
    }

    /// An owned copy of this hash.
    pub fn duplicate(&self) -> (r: Hash256)
        ensures
            r@ == self@,
    {
        Hash256 { bytes: clone_bytes(&self.bytes) }
    }
}

/// An owned copy of a byte vector.
pub(crate) fn clone_bytes(v: &Vec<u8>) -> (r: Vec<u8>)
    ensures
        r@ == v@,
{
    let r = v.clone();
    proof {
        assert forall|i: int| 0 <= i < r@.len() implies r@[i] == v@[i] by {
            assert(vstd::pervasive::cloned::<u8>(v@[i], r@[i]));
        }
        assert(r@ =~= v@);
    }
    r
}

/// A 256-bit unsigned integer held as four 64-bit limbs, least significant
/// first.
#[derive(Clone, Copy, PartialEq, Eq, Structural, Debug)]
pub struct U256 {
    pub limb0: u64,
    pub limb1: u64,
    pub limb2: u64,
    pub limb3: u64,
}

impl U256 {
    /// The integer this value denotes.
    pub open spec fn value(&self) -> nat {
        (self.limb0 + self.limb1 * 0x1_0000_0000_0000_0000 + self.limb2
            * 0x1_0000_0000_0000_0000_0000_0000_0000_0000 + self.limb3
            * 0x1_0000_0000_0000_0000_0000_0000_0000_0000_0000_0000_0000_0000) as nat
    }

    pub fn zero() -> (r: U256)
        ensures
            r.value() == 0,
    {
        U256 { limb0: 0, limb1: 0, limb2: 0, limb3: 0 }
    }

    pub fn from_u64(v: u64) -> (r: U256)
        ensures
            r.value() == v,
    {
        U256 { limb0: v, limb1: 0, limb2: 0, limb3: 0 }
    }

    /// Assembles a value from its four limbs, least significant first.
    pub fn from_limbs(limb0: u64, limb1: u64, limb2: u64, limb3: u64) -> (r: U256)
        ensures
            r.limb0 == limb0 && r.limb1 == limb1 && r.limb2 == limb2 && r.limb3 == limb3,
    {
        U256 { limb0, limb1, limb2, limb3 }
    }

    /// Narrows to 64 bits; fails exactly when the value does not fit.
    pub fn try_into_u64(&self) -> (r: Option<u64>)
        ensures
            r is Some <==> self.value() < 0x1_0000_0000_0000_0000,
            r is Some ==> r.unwrap() == self.value(),
    {
        if self.limb1 == 0 && self.limb2 == 0 && self.limb3 == 0 {
            Some(self.limb0)
        } else {
            None
        }
    }
}

} // verus!
