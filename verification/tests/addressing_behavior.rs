//! Address derivation: exact digests, fixed prefixes, fixed lengths.

use sawtooth_sabre::addressing::{
    hash, make_contract_address, make_contract_registry_address,
    make_namespace_registry_address, compute_smart_permission_address, compute_account_address,
    compute_org_address,
};

#[test]
// the digest behind every address is the real SHA-512 of the input
fn hash_is_sha512_hex() {
    let full = hash("a", 128).unwrap();
    assert_eq!(
        full,
        "1f40fc92da241694750979ee6cf582f2d5d7d28e18335de05abc54d0560e0f53\
         02860c652bf08d560252aa5e74210546f369fbbbce8c12cfc7957b2652fe9a75"
    );
    let short = hash("a", 8).unwrap();
    assert_eq!(short, "1f40fc92");
}

#[test]
// asking for more digest characters than exist is rejected
fn hash_rejects_overlong_request() {
    assert!(hash("a", 129).is_err());
    assert!(hash("a", 128).is_ok());
}

#[test]
// a contract address is the contract prefix plus 64 digest characters
fn contract_address_shape() {
    let addr = make_contract_address("TestContract", "0.1").unwrap();
    assert_eq!(addr.len(), 70);
    assert_eq!(
        addr,
        "00ec024d7e1983ac04d81cdb002479b19858e42e7696ebeae18d374992914d568ac229"
    );
}

#[test]
// each entity kind gets its own prefix, and every address has 70 characters
fn address_prefixes_and_lengths() {
    let reg = make_contract_registry_address("TestContract").unwrap();
    assert!(reg.starts_with("00ec01"));
    assert_eq!(reg.len(), 70);

    let ns = make_namespace_registry_address("abc123").unwrap();
    assert!(ns.starts_with("00ec00"));
    assert_eq!(ns.len(), 70);

    let sp = compute_smart_permission_address("org1", "perm");
    assert!(sp.starts_with("00ec03"));
    assert_eq!(sp.len(), 70);

    let acct = compute_account_address("somekey");
    assert!(acct.starts_with("cad11d00"));
    assert_eq!(acct.len(), 70);

    let org = compute_org_address("org1");
    assert!(org.starts_with("cad11d01"));
    assert_eq!(org.len(), 70);
}

#[test]
// a namespace shorter than six characters has no registry address
fn short_namespace_is_rejected() {
    assert!(make_namespace_registry_address("abc").is_err());
    assert!(make_namespace_registry_address("abc12").is_err());
    assert!(make_namespace_registry_address("abc123").is_ok());
}

#[test]
// only the first six characters of a namespace are hashed: every namespace
// with the same six leading characters maps to the same address
fn namespace_address_ignores_tail() {
    let a = make_namespace_registry_address("abc123").unwrap();
    let b = make_namespace_registry_address("abc123zzzzz").unwrap();
    let c = make_namespace_registry_address("abc123completely-different-tail").unwrap();
    assert_eq!(a, b);
    assert_eq!(a, c);
    assert_eq!(
        a,
        "00ec00c70b5dd9ebfb6f51d09d4132b7170c9d20750a7852f00680f65658f0310e8100"
    );
    let d = make_namespace_registry_address("abc124").unwrap();
    assert_ne!(a, d);
}
