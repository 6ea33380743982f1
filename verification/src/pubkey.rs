//! 32-byte account identities.

use vstd::prelude::*;

verus! {

broadcast use vstd::array::group_array_axioms;

/// A 32-byte account identity: an opaque byte array with no validation beyond
/// its length. Its view is the sequence of its bytes.
#[verifier::ext_equal]
#[derive(Clone, Copy, Debug, PartialEq, Eq)]
pub struct Pubkey {
    pub bytes: [u8; 32],
}

impl View for Pubkey {
    type V = Seq<u8>;

    open spec fn view(&self) -> Seq<u8> {
        self.bytes@
    }
}

impl Pubkey {
    /// Wraps raw bytes as an identity.
    pub fn new_from_array(bytes: [u8; 32]) -> (r: Pubkey)
        ensures
            r@ == bytes@,
    {
        Pubkey { bytes }
    }

    /// The raw bytes of the identity.
    pub fn to_bytes(&self) -> (r: [u8; 32])
        ensures
            r@ == self@,
    {
        self.bytes
    }

    /// Byte-wise equality; two identities are the same value exactly when
    /// their bytes agree.
    pub fn eq_key(&self, other: &Pubkey) -> (r: bool)
        ensures
            r == (self@ == other@),
            r == (*self == *other),
    {
        let mut i: usize = 0;
        while i < 32
            invariant
                0 <= i <= 32,
                forall|j: int| 0 <= j < i ==> self.bytes@[j] == other.bytes@[j],
            decreases 32 - i,
        {
            if self.bytes[i] != other.bytes[i] {
                assert(self@[i as int] != other@[i as int]);
                return false;
            }
            i += 1;
        }
        proof {
            assert(self.bytes@ =~= other.bytes@);
            assert(self.bytes =~= other.bytes);
            assert(*self =~= *other);
        }
        true
    }
}

/// Reads the 32 bytes at `offset` as an identity.
pub fn read_key(src: &[u8], offset: usize) -> (r: Pubkey)
    requires
        offset + 32 <= src@.len(),
    ensures
        r@ == src@.subrange(offset as int, offset as int + 32),
{
    let _len: usize = src.len();
    let mut bytes: [u8; 32] = [0; 32];
    let mut i: usize = 0;
    while i < 32
        invariant
            0 <= i <= 32,
            offset + 32 <= src@.len() <= usize::MAX,
            forall|j: int| 0 <= j < i ==> bytes@[j] == src@[offset + j],
        decreases 32 - i,
    {
        bytes[i] = src[offset + i];
        i += 1;
    }
    proof {
        assert(bytes@ =~= src@.subrange(offset as int, offset as int + 32));
    }
    Pubkey { bytes }
}

/// Appends the 32 bytes of `k` to `v`.
pub fn push_key(v: &mut Vec<u8>, k: &Pubkey)
    ensures
        final(v)@ == old(v)@ + k@,
{
    let ghost v0 = old(v)@;
    let mut i: usize = 0;
    while i < 32
        invariant
            0 <= i <= 32,
            v@ == v0 + k@.subrange(0, i as int),
        decreases 32 - i,
    {
        v.push(k.bytes[i]);
        proof {
            assert(v@ =~= v0 + k@.subrange(0, i as int + 1));
        }
        i += 1;
    }
    proof {
        assert(k@.subrange(0, 32) =~= k@);
    }
}

} // verus!
