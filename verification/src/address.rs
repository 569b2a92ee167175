//! Deterministic record identifier derivation.
//!
//! Every record's identifier is derived from a namespace tag and a natural
//! key: the same inputs always yield the same identifier, and — proved below
//! — different inputs always yield different identifiers.  The backing store
//! rejects any creation whose derived identifier is already occupied, which
//! is the sole mechanism preventing overwrite or duplication, so
//! collision-freedom is what makes the create-once semantics sound.

use vstd::prelude::*;
use vstd::bytes::{spec_u64_to_le_bytes, u64_to_le_bytes, lemma_auto_spec_u64_to_from_le_bytes};

verus! {

/// The four record namespaces.  Each namespace tag begins with a distinct
/// byte, which keeps derivation collision-free across namespaces.
#[derive(Clone, Copy, Debug, PartialEq, Eq, Structural)]
pub enum Namespace {
    /// Tag `"program_state"`; natural key: empty.
    ProgramState,
    /// Tag `"batch"`; natural key: the batch id text.
    Batch,
    /// Tag `"event"`; natural key: the owning batch's identifier followed by
    /// the event id in little-endian bytes.
    Event,
    /// Tag `"user_auth"`; natural key: the identity's 32 bytes.
    UserAuth,
}

/// The tag bytes of a namespace.
pub open spec fn spec_tag(ns: Namespace) -> Seq<u8> {
    match ns {
        // "program_state"
        Namespace::ProgramState => seq![
            112u8, 114u8, 111u8, 103u8, 114u8, 97u8, 109u8, 95u8, 115u8, 116u8, 97u8, 116u8,
            101u8,
        ],
        // "batch"
        Namespace::Batch => seq![98u8, 97u8, 116u8, 99u8, 104u8],
        // "event"
        Namespace::Event => seq![101u8, 118u8, 101u8, 110u8, 116u8],
        // "user_auth"
        Namespace::UserAuth => seq![
            117u8, 115u8, 101u8, 114u8, 95u8, 97u8, 117u8, 116u8, 104u8,
        ],
    }
}

/// A derived identifier: the namespace tag followed by the natural key.
pub open spec fn spec_derive(ns: Namespace, key: Seq<u8>) -> Seq<u8> {
    spec_tag(ns) + key
}

/// The natural key of an event record: the owning batch's identifier
/// followed by the event id in little-endian bytes.
pub open spec fn spec_event_key(batch_identifier: Seq<u8>, event_id: u64) -> Seq<u8> {
    batch_identifier + spec_u64_to_le_bytes(event_id)
}

/// The tag bytes of a namespace.
fn tag_bytes(ns: Namespace) -> (tag: Vec<u8>)
    ensures
        tag@ == spec_tag(ns),
{
    let mut tag: Vec<u8> = Vec::new();
    match ns {
        Namespace::ProgramState => {
            tag.push(112);
            tag.push(114);
            tag.push(111);
            tag.push(103);
            tag.push(114);
            tag.push(97);
            tag.push(109);
            tag.push(95);
            tag.push(115);
            tag.push(116);
            tag.push(97);
            tag.push(116);
            tag.push(101);
        },
        Namespace::Batch => {
            tag.push(98);
            tag.push(97);
            tag.push(116);
            tag.push(99);
            tag.push(104);
        },
        Namespace::Event => {
            tag.push(101);
            tag.push(118);
            tag.push(101);
            tag.push(110);
            tag.push(116);
        },
        Namespace::UserAuth => {
            tag.push(117);
            tag.push(115);
            tag.push(101);
            tag.push(114);
            tag.push(95);
            tag.push(97);
            tag.push(117);
            tag.push(116);
            tag.push(104);
        },
    }
    proof {
        assert(tag@ =~= spec_tag(ns));
    }
    tag
}

/// Derive the identifier for a natural key in a namespace.  Deterministic
/// by contract — the result is a function of the inputs alone — and
/// collision-free by [`lemma_derive_injective`].
pub fn derive(ns: Namespace, key: &Vec<u8>) -> (identifier: Vec<u8>)
    ensures
        identifier@ == spec_derive(ns, key@),
{
    let mut identifier = tag_bytes(ns);
    let mut i: usize = 0;
    while i < key.len()
        invariant
            i <= key@.len(),
            identifier@ == spec_tag(ns) + key@.take(i as int),
        decreases key@.len() - i,
    {
        identifier.push(key[i]);
        proof {
            assert(spec_tag(ns) + key@.take(i as int) + seq![key@[i as int]] =~= spec_tag(ns)
                + key@.take(i as int + 1));
        }
        i += 1;
    }
    proof {
        assert(key@.take(key@.len() as int) =~= key@);
    }
    identifier
}

/// Build the natural key of an event from its batch's identifier and its
/// id.
pub fn event_key(batch_identifier: &Vec<u8>, event_id: u64) -> (key: Vec<u8>)
    ensures
        key@ == spec_event_key(batch_identifier@, event_id),
{
    let mut key: Vec<u8> = Vec::new();
    let mut i: usize = 0;
    while i < batch_identifier.len()
        invariant
            i <= batch_identifier@.len(),
            key@ == batch_identifier@.take(i as int),
        decreases batch_identifier@.len() - i,
    {
        key.push(batch_identifier[i]);
        proof {
            assert(batch_identifier@.take(i as int) + seq![batch_identifier@[i as int]]
                =~= batch_identifier@.take(i as int + 1));
        }
        i += 1;
    }
    proof {
        assert(batch_identifier@.take(batch_identifier@.len() as int) =~= batch_identifier@);
    }
    let mut id_bytes = u64_to_le_bytes(event_id);
    key.append(&mut id_bytes);
    key
}

/// The first byte of every namespace tag is distinct, and no tag is empty.
proof fn lemma_tag_heads(ns: Namespace)
    ensures
        spec_tag(ns).len() > 0,
        ns is ProgramState ==> spec_tag(ns)[0] == 112,
        ns is Batch ==> spec_tag(ns)[0] == 98,
        ns is Event ==> spec_tag(ns)[0] == 101,
        ns is UserAuth ==> spec_tag(ns)[0] == 117,
{
}

/// Derivation is collision-free: two equal derived identifiers can only
/// have come from the same namespace and the same natural key.  The
/// backing store refuses an occupied identifier, so this is what makes
/// "identifier occupied" mean "this very record already exists".
pub proof fn lemma_derive_injective(ns1: Namespace, key1: Seq<u8>, ns2: Namespace, key2: Seq<u8>)
    requires
        spec_derive(ns1, key1) == spec_derive(ns2, key2),
    ensures
        ns1 == ns2,
        key1 == key2,
{
    lemma_tag_heads(ns1);
    lemma_tag_heads(ns2);
    assert(spec_derive(ns1, key1)[0] == spec_tag(ns1)[0]);
    assert(spec_derive(ns2, key2)[0] == spec_tag(ns2)[0]);
    assert(ns1 == ns2);
    let tag = spec_tag(ns1);
    assert(spec_derive(ns1, key1).len() == tag.len() + key1.len());
    assert(spec_derive(ns2, key2).len() == tag.len() + key2.len());
    assert(key1.len() == key2.len());
    assert forall|i: int| 0 <= i < key1.len() implies key1[i] == key2[i] by {
        assert(key1[i] == spec_derive(ns1, key1)[tag.len() + i]);
        assert(key2[i] == spec_derive(ns2, key2)[tag.len() + i]);
    }
    assert(key1 =~= key2);
}

/// Event keys are collision-free: the little-endian id block has a fixed
/// width, so equal keys force equal batch identifiers and equal ids.
/// Together with the strictly increasing event id this keeps every derived
/// event identifier fresh by construction.
pub proof fn lemma_event_key_injective(
    batch_identifier1: Seq<u8>,
    event_id1: u64,
    batch_identifier2: Seq<u8>,
    event_id2: u64,
)
    requires
        spec_event_key(batch_identifier1, event_id1) == spec_event_key(
            batch_identifier2,
            event_id2,
        ),
    ensures
        batch_identifier1 == batch_identifier2,
        event_id1 == event_id2,
{
    lemma_auto_spec_u64_to_from_le_bytes();
    let k1 = spec_event_key(batch_identifier1, event_id1);
    let k2 = spec_event_key(batch_identifier2, event_id2);
    assert(k1.len() == batch_identifier1.len() + 8);
    assert(k2.len() == batch_identifier2.len() + 8);
    assert(batch_identifier1.len() == batch_identifier2.len());
    let n = batch_identifier1.len() as int;
    assert(batch_identifier1 =~= k1.subrange(0, n));
    assert(batch_identifier2 =~= k2.subrange(0, n));
    assert(spec_u64_to_le_bytes(event_id1) =~= k1.subrange(n, k1.len() as int));
    assert(spec_u64_to_le_bytes(event_id2) =~= k2.subrange(n, k2.len() as int));
}

} // verus!
