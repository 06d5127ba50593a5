//! Deterministic derivation of state addresses for every entity kind.
//!
//! Every address is a fixed, entity-specific hex prefix followed by a
//! truncated SHA-512 digest of the entity's logical key.  Distinct logical
//! keys may truncate to the same address; the state layer resolves such
//! collisions with per-address lists.

use vstd::prelude::*;
use vstd::utf8::encode_utf8;
use crate::error::{ApplyError, ApplyErrorV};
use crate::hashing::{sha512_hex, sha512_hex_of};

verus! {

/// The namespace registry prefix for global state (00ec00)
pub const NAMESPACE_REGISTRY_PREFIX: &'static str = "00ec00";

/// The contract registry prefix for global state (00ec01)
pub const CONTRACT_REGISTRY_PREFIX: &'static str = "00ec01";

/// The contract prefix for global state (00ec02)
pub const CONTRACT_PREFIX: &'static str = "00ec02";

/// The smart permission prefix for global state (00ec03)
pub const SMART_PERMISSION_PREFIX: &'static str = "00ec03";

/// The account prefix for global state (cad11d00)
pub const SMART_ACCOUNT_PREFIX: &'static str = "cad11d00";

/// The organization prefix for global state (cad11d01)
pub const SMART_ORG_PREFIX: &'static str = "cad11d01";

/// The full hex digest of a string, as the characters of its UTF-8 bytes'
/// SHA-512 digest.
pub open spec fn str_hash_hex(s: Seq<char>) -> Seq<char> {
    sha512_hex_of(encode_utf8(s))
}

/// The state address of the contract stored under `(name, version)`.
pub open spec fn contract_address(name: Seq<char>, version: Seq<char>) -> Seq<char> {
    CONTRACT_PREFIX@ + str_hash_hex(name + ","@ + version).take(64)
}

/// The state address of the contract registry for `name`.
pub open spec fn contract_registry_address(name: Seq<char>) -> Seq<char> {
    CONTRACT_REGISTRY_PREFIX@ + str_hash_hex(name).take(64)
}

/// The state address of the namespace registry for `namespace`; only the
/// first six characters of the namespace take part.
pub open spec fn namespace_registry_address(namespace: Seq<char>) -> Seq<char> {
    NAMESPACE_REGISTRY_PREFIX@ + str_hash_hex(namespace.take(6)).take(64)
}

/// The state address of the smart permission `(org_id, name)`.
pub open spec fn smart_permission_address(org_id: Seq<char>, name: Seq<char>) -> Seq<char> {
    SMART_PERMISSION_PREFIX@ + str_hash_hex(org_id).take(6) + str_hash_hex(name).take(58)
}

/// The state address of the account with the given public key.
pub open spec fn account_address(public_key: Seq<char>) -> Seq<char> {
    SMART_ACCOUNT_PREFIX@ + str_hash_hex(public_key).take(62)
}

/// The state address of the organization with the given id.
pub open spec fn org_address(org_id: Seq<char>) -> Seq<char> {
    SMART_ORG_PREFIX@ + str_hash_hex(org_id).take(62)
}

/// Hashes `to_hash` with SHA-512 and keeps the first `num` hex characters.
/// Fails when more characters are requested than the digest has.
pub fn hash(to_hash: &str, num: usize) -> (r: Result<String, ApplyError>)
    ensures
        num <= 128 ==> (r matches Ok(h) && h@ == str_hash_hex(to_hash@).take(num as int)
            && h@.len() == num),
        num > 128 ==> (r matches Err(e) && e@ matches ApplyErrorV::InvalidTransaction(_)),
{
    let full = sha512_hex(to_hash.as_bytes());
    if num <= 128 {
        let truncated = full.as_str().substring_ascii(0, num);
        Ok(truncated.to_owned())
    } else {
        Err(ApplyError::InvalidTransaction(
            String::from_str("Cannot hash to Sha512 and truncate to requested length: ").concat(
                to_hash,
            ),
        ))
    }
}

/// The address of the contract `(name, version)`:
/// the contract prefix, then 64 digest characters of `name "," version`.
pub fn make_contract_address(name: &str, version: &str) -> (r: Result<String, ApplyError>)
    ensures
        r matches Ok(a) && a@ == contract_address(name@, version@) && a@.len() == 70,
{
    let key = String::from_str(name).concat(",").concat(version);
    let digest = hash(key.as_str(), 64)?;
    proof {
        reveal_strlit("00ec02");
    }
    Ok(String::from_str(CONTRACT_PREFIX).concat(digest.as_str()))
}

/// The address of the contract registry for `name`:
/// the contract registry prefix, then 64 digest characters of the name.
pub fn make_contract_registry_address(name: &str) -> (r: Result<String, ApplyError>)
    ensures
        r matches Ok(a) && a@ == contract_registry_address(name@) && a@.len() == 70,
{
    let digest = hash(name, 64)?;
    proof {
        reveal_strlit("00ec01");
    }
    Ok(String::from_str(CONTRACT_REGISTRY_PREFIX).concat(digest.as_str()))
}

/// The address of the namespace registry for `namespace`: the namespace
/// registry prefix, then 64 digest characters of the namespace's first six
/// characters.  A namespace shorter than six characters is rejected.
pub fn make_namespace_registry_address(namespace: &str) -> (r: Result<String, ApplyError>)
    ensures
        namespace@.len() >= 6 ==> (r matches Ok(a) && a@ == namespace_registry_address(
            namespace@,
        ) && a@.len() == 70),
        namespace@.len() < 6 ==> (r matches Err(e) && e@ == ApplyErrorV::InvalidTransaction(
            "Namespace must be at least 6 characters long: "@ + namespace@,
        )),
{
    let n = namespace.unicode_len();
    if n < 6 {
        return Err(ApplyError::InvalidTransaction(
            String::from_str("Namespace must be at least 6 characters long: ").concat(namespace),
        ));
    }
    let prefix = namespace.substring_char(0, 6);
    let digest = hash(prefix, 64)?;
    proof {
        reveal_strlit("00ec00");
    }
    Ok(String::from_str(NAMESPACE_REGISTRY_PREFIX).concat(digest.as_str()))
}

/// The namespace registry address is unchanged by any change to namespace
/// characters beyond index 6: only the first six characters are hashed.
pub proof fn lemma_namespace_registry_address_prefix_only(ns1: Seq<char>, ns2: Seq<char>)
    requires
        ns1.len() >= 6,
        ns2.len() >= 6,
        ns1.take(6) == ns2.take(6),
    ensures
        namespace_registry_address(ns1) == namespace_registry_address(ns2),
{
}

/// The address of the smart permission `(org_id, name)`: the smart
/// permission prefix, then 6 digest characters of the organization id and
/// 58 digest characters of the name.
pub fn compute_smart_permission_address(org_id: &str, name: &str) -> (r: String)
    ensures
        r@ == smart_permission_address(org_id@, name@),
        r@.len() == 70,
{
    let org_digest = sha512_hex(org_id.as_bytes());
    let name_digest = sha512_hex(name.as_bytes());
    proof {
        reveal_strlit("00ec03");
    }
    String::from_str(SMART_PERMISSION_PREFIX).concat(
        org_digest.as_str().substring_ascii(0, 6),
    ).concat(name_digest.as_str().substring_ascii(0, 58))
}

/// The address of the account with public key `name`: the account prefix,
/// then 62 digest characters of the key.
pub fn compute_account_address(name: &str) -> (r: String)
    ensures
        r@ == account_address(name@),
        r@.len() == 70,
{
    let digest = sha512_hex(name.as_bytes());
    proof {
        reveal_strlit("cad11d00");
    }
    String::from_str(SMART_ACCOUNT_PREFIX).concat(digest.as_str().substring_ascii(0, 62))
}

/// Every address carries its entity kind in its leading characters.
pub proof fn lemma_address_prefixes(n1: Seq<char>, n2: Seq<char>)
    ensures
        contract_address(n1, n2).take(6) == CONTRACT_PREFIX@,
        contract_registry_address(n1).take(6) == CONTRACT_REGISTRY_PREFIX@,
        namespace_registry_address(n1).take(6) == NAMESPACE_REGISTRY_PREFIX@,
        smart_permission_address(n1, n2).take(6) == SMART_PERMISSION_PREFIX@,
        account_address(n1).take(8) == SMART_ACCOUNT_PREFIX@,
        org_address(n1).take(8) == SMART_ORG_PREFIX@,
{
    reveal_strlit("00ec00");
    reveal_strlit("00ec01");
    reveal_strlit("00ec02");
    reveal_strlit("00ec03");
    reveal_strlit("cad11d00");
    reveal_strlit("cad11d01");
    assert(contract_address(n1, n2).take(6) =~= CONTRACT_PREFIX@);
    assert(contract_registry_address(n1).take(6) =~= CONTRACT_REGISTRY_PREFIX@);
    assert(namespace_registry_address(n1).take(6) =~= NAMESPACE_REGISTRY_PREFIX@);
    assert(smart_permission_address(n1, n2).take(6) =~= SMART_PERMISSION_PREFIX@);
    assert(account_address(n1).take(8) =~= SMART_ACCOUNT_PREFIX@);
    assert(org_address(n1).take(8) =~= SMART_ORG_PREFIX@);
}

/// The address of the organization with id `name`: the organization prefix,
/// then 62 digest characters of the id.
pub fn compute_org_address(name: &str) -> (r: String)
    ensures
        r@ == org_address(name@),
        r@.len() == 70,
{
    let digest = sha512_hex(name.as_bytes());
    proof {
        reveal_strlit("cad11d01");
    }
    String::from_str(SMART_ORG_PREFIX).concat(digest.as_str().substring_ascii(0, 62))
}

} // verus!
