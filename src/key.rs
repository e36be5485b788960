use vstd::prelude::*;

verus! {

/// Width of the identifier part of an encoded key: one tag per 2^32 ids.
pub const TAG_STRIDE: u64 = 4294967296;

/// The address of one entry in the key/value store.
///
/// One singleton key holds the counter of records ever created; three
/// families, one per field, hold the fields of each record by its id.
#[derive(PartialEq, Eq, Structural, Clone, Copy, Debug)]
pub enum StoreKey {
    Total,
    Owner(u32),
    Name(u32),
    Image(u32),
}

impl StoreKey {
    /// The tag of the key's family.
    pub open spec fn tag(self) -> int {
        match self {
            StoreKey::Total => 0,
            StoreKey::Owner(_) => 1,
            StoreKey::Name(_) => 2,
            StoreKey::Image(_) => 3,
        }
    }

    /// The identifier that the key carries (0 for the counter).
    pub open spec fn id(self) -> int {
        match self {
            StoreKey::Total => 0,
            StoreKey::Owner(id) => id as int,
            StoreKey::Name(id) => id as int,
            StoreKey::Image(id) => id as int,
        }
    }

    /// The flat store key: the tag in the high half, the id in the low half.
    pub open spec fn spec_encode(self) -> int {
        self.tag() * TAG_STRIDE + self.id()
    }

    /// Encodes the key as one integer, distinct for distinct keys.
    pub fn encode(&self) -> (r: u64)
        ensures
            r as int == self.spec_encode(),
    {
        match *self {
            StoreKey::Total => 0,
            StoreKey::Owner(id) => TAG_STRIDE + id as u64,
            StoreKey::Name(id) => 2 * TAG_STRIDE + id as u64,
            StoreKey::Image(id) => 3 * TAG_STRIDE + id as u64,
        }
    }
}

/// Two keys with the same encoding are the same key: no key of one field
/// collides with a key of another field or of another id.
pub proof fn lemma_encode_injective(a: StoreKey, b: StoreKey)
    ensures
        a.spec_encode() == b.spec_encode() <==> a == b,
{
    if a.spec_encode() == b.spec_encode() {
        assert(a.tag() == b.tag() && a.id() == b.id()) by (nonlinear_arith)
            requires
                a.tag() * TAG_STRIDE + a.id() == b.tag() * TAG_STRIDE + b.id(),
                0 <= a.id() < TAG_STRIDE,
                0 <= b.id() < TAG_STRIDE,
                0 <= a.tag() <= 3,
                0 <= b.tag() <= 3,
        ;
    }
}

} // verus!
