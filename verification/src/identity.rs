//! External identities.
//!
//! An identity is a 256-bit public key, held as four 64-bit words.  The
//! ledger only ever compares identities and serializes them into derivation
//! seeds; it never inspects their structure beyond that.

use vstd::prelude::*;
use vstd::bytes::{spec_u64_to_le_bytes, u64_to_le_bytes, lemma_auto_spec_u64_to_from_le_bytes};

verus! {

/// A 256-bit identity, as four little-endian 64-bit words (`w0` is the least
/// significant word).
#[derive(Clone, Copy, Debug, Hash, PartialEq, Eq, Structural)]
pub struct Identity {
    pub w0: u64,
    pub w1: u64,
    pub w2: u64,
    pub w3: u64,
}

/// The 32-byte little-endian serialization of an identity, used as the
/// natural key when deriving an authorization record's identifier.
pub open spec fn spec_identity_bytes(id: Identity) -> Seq<u8> {
    spec_u64_to_le_bytes(id.w0) + spec_u64_to_le_bytes(id.w1) + spec_u64_to_le_bytes(id.w2)
        + spec_u64_to_le_bytes(id.w3)
}

impl Identity {
    /// Serialize the identity into its 32 bytes.
    pub fn to_bytes(&self) -> (b: Vec<u8>)
        ensures
            b@ == spec_identity_bytes(*self),
    {
        let mut b = u64_to_le_bytes(self.w0);
        let mut b1 = u64_to_le_bytes(self.w1);
        let mut b2 = u64_to_le_bytes(self.w2);
        let mut b3 = u64_to_le_bytes(self.w3);
        b.append(&mut b1);
        b.append(&mut b2);
        b.append(&mut b3);
        b
    }
}

/// Distinct identities serialize to distinct byte strings, so an
/// authorization record's derived identifier pins down the identity it was
/// created for.
pub proof fn lemma_identity_bytes_injective(a: Identity, b: Identity)
    requires
        spec_identity_bytes(a) == spec_identity_bytes(b),
    ensures
        a == b,
{
    lemma_auto_spec_u64_to_from_le_bytes();
    let sa = spec_identity_bytes(a);
    let sb = spec_identity_bytes(b);
    assert(spec_u64_to_le_bytes(a.w0) =~= sa.subrange(0, 8));
    assert(spec_u64_to_le_bytes(a.w1) =~= sa.subrange(8, 16));
    assert(spec_u64_to_le_bytes(a.w2) =~= sa.subrange(16, 24));
    assert(spec_u64_to_le_bytes(a.w3) =~= sa.subrange(24, 32));
    assert(spec_u64_to_le_bytes(b.w0) =~= sb.subrange(0, 8));
    assert(spec_u64_to_le_bytes(b.w1) =~= sb.subrange(8, 16));
    assert(spec_u64_to_le_bytes(b.w2) =~= sb.subrange(16, 24));
    assert(spec_u64_to_le_bytes(b.w3) =~= sb.subrange(24, 32));
}

} // verus!
