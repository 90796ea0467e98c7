//! Identities of callers and of remote services, held as their raw bytes.

use vstd::prelude::*;
use vstd::slice::slice_to_vec;

verus! {

/// The greatest number of bytes an identity may hold.
pub const MAX_LENGTH_IN_BYTES: usize = 29;

/// The single byte that makes up the anonymous identity.
pub const ANONYMOUS_TAG: u8 = 4;

/// Whether `id` is the raw form of the anonymous identity.
pub open spec fn is_anonymous_bytes(id: Seq<u8>) -> bool {
    id == seq![ANONYMOUS_TAG]
}

/// An opaque identity: between 0 and 29 raw bytes.
#[derive(Debug, PartialEq, Eq)]
pub struct PrincipalId {
    bytes: Vec<u8>,
}

impl View for PrincipalId {
    type V = Seq<u8>;

    closed spec fn view(&self) -> Seq<u8> {
        self.bytes@
    }
}

impl Clone for PrincipalId {
    fn clone(&self) -> (r: Self)
        ensures
            r@ == self@,
    {
        proof {
            use_type_invariant(self);
        }
        PrincipalId { bytes: self.bytes.clone() }
    }
}

impl PrincipalId {
    #[verifier::type_invariant]
    spec fn well_formed(&self) -> bool {
        self.bytes@.len() <= MAX_LENGTH_IN_BYTES
    }

    /// The identity made of the bytes of `slice`, or `None` when there are
    /// more than [`MAX_LENGTH_IN_BYTES`] of them.
    pub fn try_from_slice(slice: &[u8]) -> (r: Option<PrincipalId>)
        ensures
            r is Some <==> slice@.len() <= MAX_LENGTH_IN_BYTES,
            r matches Some(p) ==> p@ == slice@,
    {
        if slice.len() <= MAX_LENGTH_IN_BYTES {
            Some(PrincipalId { bytes: slice_to_vec(slice) })
        } else {
            None
        }
    }

    /// The anonymous identity.
    pub fn anonymous() -> (r: PrincipalId)
        ensures
            is_anonymous_bytes(r@),
    {
        let mut bytes: Vec<u8> = Vec::new();
        bytes.push(ANONYMOUS_TAG);
        assert(bytes@ =~= seq![ANONYMOUS_TAG]);
        PrincipalId { bytes }
    }

    /// The raw bytes of this identity.
    pub fn as_slice(&self) -> (r: &[u8])
        ensures
            r@ == self@,
    {
        self.bytes.as_slice()
    }

    /// Whether this is the anonymous identity.
    pub fn is_anonymous(&self) -> (r: bool)
        ensures
            r == is_anonymous_bytes(self@),
    {
        let anonymous = self.bytes.len() == 1 && self.bytes[0] == ANONYMOUS_TAG;
        proof {
            if anonymous {
                assert(self.bytes@ =~= seq![ANONYMOUS_TAG]);
            }
        }
        anonymous
    }

    /// The number of bytes of this identity, never more than
    /// [`MAX_LENGTH_IN_BYTES`].
    pub fn len(&self) -> (r: usize)
        ensures
            r == self@.len(),
            r <= MAX_LENGTH_IN_BYTES,
    {
        proof {
            use_type_invariant(self);
        }
        self.bytes.len()
    }
}

} // verus!
