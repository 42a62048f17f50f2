//! Thirty-two byte record addresses.

use crate::bytes::{bytes_equal, push_bytes, read_array, zeros};
use vstd::prelude::*;
use vstd::std_specs::cmp::PartialEqSpecImpl;

verus! {

/// The address of a record: thirty-two bytes.
#[derive(Clone, Copy, Debug)]
pub struct Pubkey {
    pub bytes: [u8; 32],
}

impl View for Pubkey {
    type V = Seq<u8>;

    open spec fn view(&self) -> Seq<u8> {
        self.bytes@
    }
}

impl PartialEq for Pubkey {
    fn eq(&self, other: &Self) -> (r: bool) {
        bytes_equal(self.bytes.as_slice(), other.bytes.as_slice())
    }
}

impl Eq for Pubkey {

}

impl PartialEqSpecImpl for Pubkey {
    open spec fn obeys_eq_spec() -> bool {
        true
    }

    open spec fn eq_spec(&self, other: &Self) -> bool {
        self.bytes@ == other.bytes@
    }
}

impl Default for Pubkey {
    /// The all-zero address, which stands for "no record".
    fn default() -> (r: Self)
        ensures
            r@ == zeros(32),
    {
        let r = Pubkey { bytes: [0u8; 32] };
        assert(r@ =~= zeros(32));
        r
    }
}

impl Pubkey {
    /// The address made of the given bytes.
    pub fn new_from_array(bytes: [u8; 32]) -> (r: Self)
        ensures
            r@ == bytes@,
            r.bytes == bytes,
    {
        Pubkey { bytes }
    }

    /// The bytes of the address.
    pub fn to_bytes(&self) -> (r: [u8; 32])
        ensures
            r@ == self@,
    {
        self.bytes
    }

    /// The bytes of the address, as a vector.
    pub fn to_vec(&self) -> (r: Vec<u8>)
        ensures
            r@ == self@,
    {
        let mut r: Vec<u8> = Vec::new();
        push_bytes(&mut r, self.bytes.as_slice());
        assert(r@ =~= self@);
        r
    }

    /// The address written in the thirty-two bytes of `data` from `at` on.
    pub fn read(data: &[u8], at: usize) -> (r: Self)
        requires
            at + 32 <= data@.len(),
        ensures
            r@ == data@.subrange(at as int, at + 32),
    {
        Pubkey { bytes: read_array::<32>(data, at) }
    }

    /// Whether this is the all-zero address.
    pub fn is_default(&self) -> (r: bool)
        ensures
            r == (self@ == zeros(32)),
    {
        let zero = Pubkey::default();
        bytes_equal(self.bytes.as_slice(), zero.bytes.as_slice())
    }
}

/// Two addresses with the same bytes are the same address.
pub proof fn lemma_pubkey_ext(a: Pubkey, b: Pubkey)
    requires
        a@ == b@,
    ensures
        a == b,
{
    assert(a.bytes@ == b.bytes@);
    assert(a.bytes == b.bytes);
}

} // verus!
