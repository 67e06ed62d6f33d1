//! Hex text and byte order of 32-byte hashes.

use vstd::prelude::*;
use vstd::string::StringSliceAdditionalSpecFns;
use crate::hexenc::{hex_encode, hex_decode, hex_text, is_hex_text, hex_bytes};
use crate::kernel::Hash32;

verus! {

/// Copies 32 bytes out of a vector of exactly that length.
pub fn array32_from_vec(v: &Vec<u8>) -> (r: [u8; 32])
    requires
        v@.len() == 32,
    ensures
        r@ == v@,
{
    let mut out = [0u8; 32];
    let mut i: usize = 0;
    while i < 32
        invariant
            i <= 32,
            v@.len() == 32,
            out@.len() == 32,
            forall|j: int| 0 <= j < i ==> out@[j] == v@[j],
        decreases 32 - i,
    {
        out[i] = v[i];
        i = i + 1;
    }
    assert(out@ =~= v@);
    out
}

/// The message of a hex text of the wrong length for a hash.
pub open spec fn invalid_hash_length() -> Seq<char> {
    "Invalid hash length"@
}

impl Hash32 {
    pub const SIZE: usize = 32;

    pub fn as_mut_bytes(&mut self) -> (r: &mut [u8; 32])
        ensures
            *r == old(self).0,
            final(self).0 == *final(r),
    {
        &mut self.0
    }

    /// The lower-case hex text of the hash.
    pub fn to_hex(&self) -> (r: String)
        ensures
            r@ == hex_text(self.0@),
    {
        hex_encode(self.0.as_slice())
    }

    /// The hash written as hex: 64 hex digits of either case. Text that is
    /// no hex is refused with the decoder's message; hex of another length
    /// with "Invalid hash length".
    pub fn from_hex(hex_str: &str) -> (r: Result<Self, String>)
        ensures
            r is Ok <==> is_hex_text(hex_str.spec_bytes()) && hex_str.spec_bytes().len() == 64,
            r matches Ok(h) ==> h.0@ == hex_bytes(hex_str.spec_bytes()),
            is_hex_text(hex_str.spec_bytes()) && hex_str.spec_bytes().len() != 64 ==> (r matches Err(e)
                && e@ == invalid_hash_length()),
    {
        let bytes = match hex_decode(hex_str) {
            Ok(b) => b,
            Err(e) => {
                return Err(e);
            },
        };
        if bytes.len() != 32 {
            proof {
                reveal_strlit("Invalid hash length");
            }
            return Err("Invalid hash length".to_string());
        }
        Ok(Hash32(array32_from_vec(&bytes)))
    }

    /// The hash with its bytes in reverse order.
    pub fn reverse(self) -> (r: Self)
        ensures
            r.0@ == self.0@.reverse(),
    {
        let mut out = [0u8; 32];
        let mut i: usize = 0;
        while i < 32
            invariant
                i <= 32,
                out@.len() == 32,
                forall|j: int| 0 <= j < i ==> out@[j] == self.0@[31 - j],
            decreases 32 - i,
        {
            out[i] = self.0[31 - i];
            i = i + 1;
        }
        assert(out@ =~= self.0@.reverse());
        Hash32(out)
    }
}

} // verus!

verus! {

/// The hash made of the first 32 bytes of `s` (which has at least 32).
pub open spec fn hash_of_prefix(s: Seq<u8>) -> Hash32 {
    Hash32(choose|a: [u8; 32]| a@ == s.subrange(0, 32))
}

impl<'a> TryFrom<&'a [u8]> for Hash32 {
    type Error = &'static str;

    /// The first 32 bytes of the slice; a shorter slice is refused.
    fn try_from(slice: &'a [u8]) -> (r: Result<Hash32, &'static str>) {
        if slice.len() < 32 {
            return Err("Slice too short");
        }
        let a = crate::kernel::bytes32_from_slice(slice);
        proof {
            let c = choose|c: [u8; 32]| c@ == slice@.subrange(0, 32);
            assert(a@ =~= slice@.subrange(0, 32));
            assert(c@ == slice@.subrange(0, 32));
            assert(a =~= c);
        }
        Ok(Hash32(a))
    }
}

impl<'a> vstd::std_specs::convert::TryFromSpecImpl<&'a [u8]> for Hash32 {
    open spec fn obeys_try_from_spec() -> bool {
        true
    }

    open spec fn try_from_spec(slice: &'a [u8]) -> Result<Hash32, &'static str> {
        if slice@.len() < 32 {
            Err("Slice too short")
        } else {
            Ok(hash_of_prefix(slice@))
        }
    }
}

impl TryFrom<Vec<u8>> for Hash32 {
    type Error = &'static str;

    /// The first 32 bytes of the vector; a shorter one is refused.
    fn try_from(vec: Vec<u8>) -> (r: Result<Hash32, &'static str>) {
        <Hash32 as TryFrom<&[u8]>>::try_from(vec.as_slice())
    }
}

impl vstd::std_specs::convert::TryFromSpecImpl<Vec<u8>> for Hash32 {
    open spec fn obeys_try_from_spec() -> bool {
        true
    }

    open spec fn try_from_spec(vec: Vec<u8>) -> Result<Hash32, &'static str> {
        if vec@.len() < 32 {
            Err("Slice too short")
        } else {
            Ok(hash_of_prefix(vec@))
        }
    }
}

} // verus!
