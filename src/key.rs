//! Stable identities for entities scoped to a document namespace.

use vstd::prelude::*;

verus! {

/// Root namespace from which every per-document namespace identifier is derived.
pub const ROOT_NAMESPACE: u128 = 0xc7091b73_48ed_46cc_b05d_088a23c79913u128;

/// The name-based (version 5) UUID of the UTF-8 bytes of `name` under `namespace`.
pub uninterp spec fn uuid_v5(namespace: u128, name: Seq<char>) -> u128;

/// Relies on `uuid::Uuid::new_v5`: a SHA-1 name-based identifier, a function of the
/// namespace and the name alone.
#[verifier::external_body]
fn new_v5(namespace: u128, name: &str) -> (r: u128)
    ensures
        r == uuid_v5(namespace, name@),
{
    uuid::Uuid::new_v5(&uuid::Uuid::from_u128(namespace), name.as_bytes()).as_u128()
}

/// The identifier of the entity `id` within the document namespace `namespace`:
/// first the namespace is hashed under the root, then the id under the result.
pub open spec fn identity_of(namespace: Seq<char>, id: Seq<char>) -> u128 {
    uuid_v5(uuid_v5(ROOT_NAMESPACE, namespace), id)
}

/// An entity identifier scoped to a document namespace.
#[derive(Clone, Debug, PartialEq, Eq, Hash)]
pub struct Key {
    pub id: String,
    pub namespace: String,
}

impl Key {
    pub fn new(id: String, namespace: String) -> (r: Key)
        ensures
            r.id == id,
            r.namespace == namespace,
    {
        Key { id, namespace }
    }

    /// The stable 128-bit identifier of this key.
    pub fn to_uuid(&self) -> (r: u128)
        ensures
            r == identity_of(self.namespace@, self.id@),
    {
        derive_id(self.namespace.as_str(), self.id.as_str())
    }

    /// Human-readable form, `namespace / id`.
    pub fn describe(&self) -> (r: String)
        ensures
            r@ == self.namespace@ + " / "@ + self.id@,
    {
        let mut r = self.namespace.clone();
        r.append(" / ");
        r.append(self.id.as_str());
        r
    }
}

/// The identifier of `id` within `namespace`, without building a [`Key`].
pub fn derive_id(namespace: &str, id: &str) -> (r: u128)
    ensures
        r == identity_of(namespace@, id@),
{
    let ns = new_v5(ROOT_NAMESPACE, namespace);
    new_v5(ns, id)
}

/// Derivation is deterministic: two keys with equal fields resolve to the same
/// identifier, however they were built.
pub proof fn lemma_derive_deterministic(a: Key, b: Key)
    requires
        a.namespace@ == b.namespace@,
        a.id@ == b.id@,
    ensures
        identity_of(a.namespace@, a.id@) == identity_of(b.namespace@, b.id@),
{
}

} // verus!
