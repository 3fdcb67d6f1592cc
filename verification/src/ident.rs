//! Content-addressed module identifiers: a cryptographic digest of the raw
//! module bytes, fed through a namespace-qualified name-based UUID, yields a
//! stable textual identifier. Identical byte content always maps to the same
//! identifier.

use vstd::prelude::*;

verus! {

/// The hexadecimal rendering of the engine cache's cryptographic digest of a
/// byte sequence. A function of the bytes alone.
pub uninterp spec fn content_digest(bytes: Seq<u8>) -> Seq<char>;

/// The hyphenated text of the name-based (version 5) UUID of `name` under the
/// OID namespace. A function of the name alone.
pub uninterp spec fn name_uuid(name: Seq<char>) -> Seq<char>;

/// The identifier under which a module with the given byte content is
/// registered.
pub open spec fn module_id_of(bytes: Seq<u8>) -> Seq<char> {
    name_uuid(content_digest(bytes))
}

/// Relies on wasmer_cache::Hash::generate: a cryptographic digest of the given
/// bytes alone, rendered in hexadecimal by its Display implementation.
#[verifier::external_body]
fn digest_hex(bytes: &Vec<u8>) -> (r: String)
    ensures
        r@ == content_digest(bytes@),
{
    wasmer_cache::Hash::generate(bytes.as_slice()).to_string()
}

/// Relies on uuid::Uuid::new_v5: a name-based UUID computed from the namespace
/// and the name bytes alone, here under the OID namespace, rendered hyphenated.
#[verifier::external_body]
fn oid_name_uuid(name: &str) -> (r: String)
    ensures
        r@ == name_uuid(name@),
{
    uuid::Uuid::new_v5(&uuid::Uuid::NAMESPACE_OID, name.as_bytes()).hyphenated().to_string()
}

/// Computes the registry identifier for a module with the given byte content.
pub fn module_identifier(bytes: &Vec<u8>) -> (r: String)
    ensures
        r@ == module_id_of(bytes@),
{
    let digest = digest_hex(bytes);
    oid_name_uuid(digest.as_str())
}

/// Loading identical byte content always yields the same identifier: the
/// identifier is a function of the bytes and of nothing else.
pub proof fn lemma_identifier_deterministic(b1: Seq<u8>, b2: Seq<u8>)
    requires
        b1 == b2,
    ensures
        module_id_of(b1) == module_id_of(b2),
{
}

} // verus!
