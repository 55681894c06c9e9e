//! Name-based (version 5) UUID helpers: set the version and variant bits
//! on a digest and build a UUID from the result.

use vstd::prelude::*;
use vstd::string::StringSliceAdditionalSpecFns;

use crate::signature::{sha1_bytes, sha1_digest};

verus! {

broadcast use vstd::std_specs::vec::group_vec_axioms;

/// The UUID type of an outside crate, declared so that it can stand in
/// signatures.
#[verifier::external_type_specification]
#[verifier::external_body]
pub struct ExUuid(uuid::Uuid);

/// The sixteen bytes of a UUID, most significant first.
pub uninterp spec fn uuid_bytes(u: uuid::Uuid) -> Seq<u8>;

/// Relies on uuid's Uuid::from_bytes: builds the UUID holding exactly the
/// given big-endian bytes.
#[verifier::external_body]
fn uuid_of_bytes(bytes: &[u8]) -> (r: uuid::Uuid)
    requires
        bytes@.len() == 16,
    ensures
        uuid_bytes(r) == bytes@,
{
    let mut b = [0u8; 16];
    b.copy_from_slice(bytes);
    uuid::Uuid::from_bytes(b)
}

/// Sixteen digest bytes with the version nibble forced to five and the
/// variant bits forced to the leading `10` pattern.
pub open spec fn v5_bytes(b: Seq<u8>) -> Seq<u8> {
    b.update(6, ((b[6] & 0x0f) | 0x50) as u8).update(8, ((b[8] & 0x3f) | 0x80) as u8)
}

/// Build a version-5, standard-variant UUID from sixteen bytes.
#[verifier::loop_isolation(false)]
fn v5_from_slice(bytes: &[u8]) -> (r: uuid::Uuid)
    requires
        bytes@.len() == 16,
    ensures
        uuid_bytes(r) == v5_bytes(bytes@),
        uuid_bytes(r)[6] >> 4 == 5,
        uuid_bytes(r)[8] & 0xc0 == 0x80,
{
    let mut out: Vec<u8> = Vec::new();
    let mut i: usize = 0;
    while i < 16
        invariant
            0 <= i <= 16,
            out@.len() == i,
            forall|k: int| 0 <= k < i ==> out@[k] == v5_bytes(bytes@)[k],
        decreases 16 - i,
    {
        let b = bytes[i];
        let nb: u8 = if i == 6 {
            (b & 0x0f) | 0x50
        } else if i == 8 {
            (b & 0x3f) | 0x80
        } else {
            b
        };
        out.push(nb);
        i += 1;
    }
    proof {
        assert(out@ =~= v5_bytes(bytes@));
        assert(forall|x: u8| ((x & 0x0f) | 0x50) >> 4 == 5) by (bit_vector);
        assert(forall|x: u8| ((x & 0x3f) | 0x80) & 0xc0 == 0x80) by (bit_vector);
    }
    uuid_of_bytes(out.as_slice())
}

/// Set the version (5) and variant (leading `10`) bits on a sixteen-byte
/// array and construct a UUID from it.
pub fn uuid_from_bytes(bytes: [u8; 16]) -> (r: uuid::Uuid)
    ensures
        uuid_bytes(r) == v5_bytes(bytes@),
        uuid_bytes(r)[6] >> 4 == 5,
        uuid_bytes(r)[8] & 0xc0 == 0x80,
{
    v5_from_slice(bytes.as_slice())
}

/// A version-5 UUID from the name alone: the first sixteen bytes of the
/// SHA-1 of the name, with version and variant bits set. Unlike the
/// namespace-aware form, no namespace enters the digest.
pub fn uuid_from_name(name: &str) -> (r: uuid::Uuid)
    ensures
        uuid_bytes(r) == v5_bytes(
            sha1_digest(vstd::utf8::encode_utf8(name@)).subrange(0, 16),
        ),
        uuid_bytes(r)[6] >> 4 == 5,
        uuid_bytes(r)[8] & 0xc0 == 0x80,
{
    let digest = sha1_bytes(name.as_bytes());
    let first = &digest.as_slice()[0..16];
    v5_from_slice(first)
}

/// Relies on uuid's Uuid::as_bytes: the sixteen big-endian bytes of the
/// UUID.
#[verifier::external_body]
fn uuid_as_bytes(u: &uuid::Uuid) -> (r: &[u8])
    ensures
        r@ == uuid_bytes(*u),
        r@.len() == 16,
{
    u.as_bytes()
}

/// A version-5 UUID per the name-based construction: the SHA-1 of the
/// namespace bytes followed by the name bytes, truncated to sixteen bytes,
/// with version and variant bits set.
#[verifier::loop_isolation(false)]
pub fn uuid_from_namespace_and_name(namespace: &uuid::Uuid, name: &str) -> (r: uuid::Uuid)
    ensures
        uuid_bytes(r) == v5_bytes(
            sha1_digest(uuid_bytes(*namespace) + vstd::utf8::encode_utf8(name@)).subrange(0, 16),
        ),
        uuid_bytes(r)[6] >> 4 == 5,
        uuid_bytes(r)[8] & 0xc0 == 0x80,
{
    let ns = uuid_as_bytes(namespace);
    let nb = name.as_bytes();
    let mut data: Vec<u8> = Vec::new();
    let mut i: usize = 0;
    while i < ns.len()
        invariant
            0 <= i <= ns@.len(),
            data@ == ns@.subrange(0, i as int),
        decreases ns@.len() - i,
    {
        data.push(ns[i]);
        proof {
            assert(ns@.subrange(0, i as int + 1) =~= ns@.subrange(0, i as int).push(ns@[i as int]));
        }
        i += 1;
    }
    proof {
        assert(ns@.subrange(0, ns@.len() as int) =~= ns@);
    }
    let mut j: usize = 0;
    while j < nb.len()
        invariant
            0 <= j <= nb@.len(),
            data@ == ns@ + nb@.subrange(0, j as int),
        decreases nb@.len() - j,
    {
        data.push(nb[j]);
        proof {
            assert(ns@ + nb@.subrange(0, j as int + 1) =~= (ns@ + nb@.subrange(0, j as int)).push(
                nb@[j as int],
            ));
        }
        j += 1;
    }
    proof {
        assert(nb@.subrange(0, nb@.len() as int) =~= nb@);
    }
    let digest = sha1_bytes(data.as_slice());
    let first = &digest.as_slice()[0..16];
    v5_from_slice(first)
}

} // verus!
