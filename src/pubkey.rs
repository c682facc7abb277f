use vstd::prelude::*;

verus! {

broadcast use vstd::array::group_array_axioms;

/// A 32-byte account address or identity.
#[derive(Clone, Copy, Debug, Eq, Hash)]
pub struct Pubkey {
    pub bytes: [u8; 32],
}

/// The default key: all 32 bytes zero. As a merchant's settlement token it stands
/// for the native asset.
pub open spec fn default_key() -> Pubkey {
    Pubkey { bytes: [0u8, 0u8, 0u8, 0u8, 0u8, 0u8, 0u8, 0u8, 0u8, 0u8, 0u8, 0u8, 0u8, 0u8, 0u8, 0u8, 0u8, 0u8, 0u8, 0u8, 0u8, 0u8, 0u8, 0u8, 0u8, 0u8, 0u8, 0u8, 0u8, 0u8, 0u8, 0u8] }
}

impl Pubkey {
    pub open spec fn spec_bytes(self) -> Seq<u8> {
        self.bytes@
    }

    pub open spec fn is_default(self) -> bool {
        self == default_key()
    }

    /// Wraps 32 bytes as an address.
    pub fn new_from_array(bytes: [u8; 32]) -> (r: Pubkey)
        ensures
            r.spec_bytes() == bytes@,
    {
        Pubkey { bytes }
    }

    /// The 32 bytes of this address.
    pub fn to_bytes(&self) -> (r: [u8; 32])
        ensures
            r@ == self.spec_bytes(),
    {
        self.bytes
    }

    /// Whether this is the default key.
    pub fn is_zero(&self) -> (r: bool)
        ensures
            r == self.is_default(),
    {
        let mut i: usize = 0;
        while i < 32
            invariant
                0 <= i <= 32,
                forall|j: int| 0 <= j < i ==> self.bytes[j] == 0u8,
            decreases 32 - i,
        {
            if self.bytes[i] != 0 {
                assert(self.bytes[i as int] != default_key().bytes[i as int]);
                return false;
            }
            i = i + 1;
        }
        assert(self.bytes =~= default_key().bytes);
        true
    }
}

impl Default for Pubkey {
    fn default() -> (r: Pubkey)
        ensures
            r == default_key(),
    {
        let r = Pubkey { bytes: [0u8; 32] };
        assert(r.bytes =~= default_key().bytes);
        r
    }
}

impl PartialEq for Pubkey {
    fn eq(&self, other: &Pubkey) -> (r: bool) {
        let mut i: usize = 0;
        while i < 32
            invariant
                0 <= i <= 32,
                forall|j: int| 0 <= j < i ==> self.bytes[j] == other.bytes[j],
            decreases 32 - i,
        {
            if self.bytes[i] != other.bytes[i] {
                return false;
            }
            i = i + 1;
        }
        assert(self.bytes =~= other.bytes);
        true
    }
}

impl vstd::std_specs::cmp::PartialEqSpecImpl for Pubkey {
    open spec fn obeys_eq_spec() -> bool {
        true
    }

    open spec fn eq_spec(&self, other: &Pubkey) -> bool {
        *self == *other
    }
}

} // verus!
