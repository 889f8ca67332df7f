//! The identifier value: sixteen bytes in network order.

use vstd::prelude::*;

verus! {

/// A 128-bit identifier, held as its sixteen bytes in big-endian order.
///
/// The bytes are the only state: every text form and the little-endian layout
/// are computed from them on demand.
#[derive(Clone, Copy, Debug, Eq, Ord)]
pub struct ShortGuid {
    bytes: [u8; 16],
}

impl View for ShortGuid {
    type V = Seq<u8>;

    closed spec fn view(&self) -> Seq<u8> {
        self.bytes@
    }
}

/// The sixteen zero bytes of the nil identifier.
pub open spec fn nil_bytes() -> Seq<u8> {
    Seq::new(16, |i: int| 0u8)
}

/// The field-wise little-endian layout of sixteen big-endian bytes: the first
/// four bytes reversed, the next two reversed, the next two reversed, and the
/// last eight as they are.
pub open spec fn mixed_endian(bytes: Seq<u8>) -> Seq<u8> {
    bytes.subrange(0, 4).reverse() + bytes.subrange(4, 6).reverse() + bytes.subrange(
        6,
        8,
    ).reverse() + bytes.subrange(8, 16)
}

/// Changing the layout twice gives the bytes back.
pub proof fn mixed_endian_twice(bytes: Seq<u8>)
    requires
        bytes.len() == 16,
    ensures
        mixed_endian(mixed_endian(bytes)) == bytes,
{
    assert(mixed_endian(mixed_endian(bytes)) =~= bytes);
}

/// Whether the first sixteen bytes of `a` and of `b` are the same.
fn same_sixteen(a: &[u8; 16], b: &[u8]) -> (same: bool)
    requires
        b@.len() == 16,
    ensures
        same == (a@ == b@),
{
    let mut i: usize = 0;
    while i < 16
        invariant
            i <= 16,
            b@.len() == 16,
            forall|k: int| 0 <= k < i ==> a@[k] == b@[k],
        decreases 16 - i,
    {
        if a[i] != b[i] {
            return false;
        }
        i += 1;
    }
    assert(a@ =~= b@);
    true
}

impl ShortGuid {
    /// The identifier whose bytes are `bytes`.
    pub closed spec fn with_bytes(bytes: Seq<u8>) -> ShortGuid {
        choose|guid: ShortGuid| guid@ == bytes
    }

    /// An identifier has sixteen bytes.
    pub proof fn has_sixteen_bytes(self)
        ensures
            self@.len() == 16,
    {
    }

    /// Identifiers with the same bytes are the same identifier.
    pub proof fn same_bytes_same_identifier(self, other: ShortGuid)
        requires
            self@ == other@,
        ensures
            self == other,
    {
        assert(self.bytes =~= other.bytes);
    }

    /// An identifier is the one identifier with its bytes.
    pub proof fn is_with_its_bytes(self)
        ensures
            ShortGuid::with_bytes(self@) == self,
    {
        ShortGuid::with_bytes(self@).same_bytes_same_identifier(self);
    }

    /// Copies the sixteen bytes into a new identifier.
    pub fn from_bytes(bytes: &[u8; 16]) -> (guid: ShortGuid)
        ensures
            guid@ == bytes@,
    {
        ShortGuid { bytes: *bytes }
    }

    /// The identifier with the bytes of the borrowed array.
    ///
    /// The array is copied: the identifier does not keep the borrow.
    pub fn from_bytes_ref(bytes: &[u8; 16]) -> (guid: ShortGuid)
        ensures
            guid@ == bytes@,
    {
        ShortGuid { bytes: *bytes }
    }

    /// Whether `other` holds exactly the sixteen bytes of the identifier.
    pub(crate) fn has_bytes(&self, other: &[u8]) -> (same: bool)
        ensures
            same == (other@ == self@),
    {
        other.len() == 16 && same_sixteen(&self.bytes, other)
    }

    /// Borrows the sixteen bytes of the identifier.
    pub fn as_bytes(&self) -> (bytes: &[u8; 16])
        ensures
            bytes@ == self@,
    {
        &self.bytes
    }

    /// The bytes in the field-wise little-endian layout.
    pub fn to_bytes_le(&self) -> (le: [u8; 16])
        ensures
            le@ == mixed_endian(self@),
    {
        let b = &self.bytes;
        let le = [
            b[3], b[2], b[1], b[0], b[5], b[4], b[7], b[6],
            b[8], b[9], b[10], b[11], b[12], b[13], b[14], b[15],
        ];
        assert(le@ =~= mixed_endian(b@));
        le
    }

    /// Whether this is the nil identifier.
    pub fn is_empty(&self) -> (empty: bool)
        ensures
            empty == (self@ == nil_bytes()),
    {
        let mut i: usize = 0;
        while i < 16
            invariant
                i <= 16,
                forall|k: int| 0 <= k < i ==> self.bytes@[k] == 0,
            decreases 16 - i,
        {
            if self.bytes[i] != 0 {
                return false;
            }
            i += 1;
        }
        assert(self.bytes@ =~= nil_bytes());
        true
    }
}

impl PartialEq for ShortGuid {
    fn eq(&self, other: &ShortGuid) -> (equal: bool) {
        same_sixteen(&self.bytes, other.bytes.as_slice())
    }
}

impl vstd::std_specs::cmp::PartialEqSpecImpl for ShortGuid {
    open spec fn obeys_eq_spec() -> bool {
        true
    }

    open spec fn eq_spec(&self, other: &ShortGuid) -> bool {
        self@ == other@
    }
}

impl Default for ShortGuid {
    /// The nil identifier.
    fn default() -> (guid: ShortGuid)
        ensures
            guid@ == nil_bytes(),
    {
        let zeros = [0u8; 16];
        assert(zeros@ =~= nil_bytes());
        ShortGuid { bytes: zeros }
    }
}

} // verus!
