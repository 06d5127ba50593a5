//! The state accessor: round trips, collision lists, whole-address deletes.

use sawtooth_sabre::protocol::state::{
    ContractBuilder, ContractRegistryBuilder, NamespaceRegistryBuilder, PermissionBuilder,
    SmartPermissionBuilder, AccountBuilder, OrganizationBuilder, VersionBuilder,
};
use sawtooth_sabre::setting::{Setting, SettingEntry};
use sawtooth_sabre::state::SmartState;

#[test]
// a stored contract is read back unchanged under the same (name, version)
fn set_get_contract_round_trip() {
    let mut state = SmartState::new();
    let contract = ContractBuilder::new()
        .set_name("c1".to_string())
        .set_version("1.0".to_string())
        .set_inputs(vec!["abc123".to_string()])
        .set_outputs(vec!["abc123".to_string()])
        .set_creator("signer".to_string())
        .set_contract(b"bytes".to_vec())
        .build()
        .unwrap();
    state.set_contract("c1", "1.0", contract.clone()).unwrap();
    let got = state.get_contract("c1", "1.0").unwrap().unwrap();
    assert_eq!(got, contract);
    assert!(state.get_contract("c1", "2.0").unwrap().is_none());
}

#[test]
// a stored contract registry is read back unchanged under the same name
fn set_get_contract_registry_round_trip() {
    let mut state = SmartState::new();
    let registry = ContractRegistryBuilder::new()
        .set_name("c1".to_string())
        .set_owners(vec!["owner1".to_string()])
        .build()
        .unwrap();
    state.set_contract_registry("c1", registry.clone()).unwrap();
    let got = state.get_contract_registry("c1").unwrap().unwrap();
    assert_eq!(got, registry);
    assert!(state.get_contract_registry("c2").unwrap().is_none());
}

#[test]
// a stored namespace registry is read back unchanged under the same namespace
fn set_get_namespace_registry_round_trip() {
    let mut state = SmartState::new();
    let registry = NamespaceRegistryBuilder::new()
        .set_namespace("abc123".to_string())
        .set_owners(vec!["owner1".to_string()])
        .build()
        .unwrap();
    state.set_namespace_registry("abc123", registry.clone()).unwrap();
    let got = state.get_namespace_registry("abc123").unwrap().unwrap();
    assert_eq!(got, registry);
}

#[test]
// a stored smart permission is read back unchanged under the same pair
fn set_get_smart_permission_round_trip() {
    let mut state = SmartState::new();
    let sp = SmartPermissionBuilder::new()
        .set_name("perm".to_string())
        .set_org_id("org1".to_string())
        .set_function(b"wasm".to_vec())
        .build()
        .unwrap();
    state.set_smart_permission("org1", "perm", sp.clone()).unwrap();
    let got = state.get_smart_permission("org1", "perm").unwrap().unwrap();
    assert_eq!(got, sp);
    assert!(state.get_smart_permission("org1", "other").unwrap().is_none());
}

#[test]
// a stored account is read back unchanged under the same public key
fn set_get_account_round_trip() {
    let mut state = SmartState::new();
    let account = AccountBuilder::new()
        .set_org_id("org1".to_string())
        .set_public_key("pk1".to_string())
        .set_active(true)
        .set_roles(vec!["admin".to_string()])
        .build()
        .unwrap();
    state.set_account("pk1", account.clone()).unwrap();
    let got = state.get_account("pk1").unwrap().unwrap();
    assert_eq!(got, account);
    assert!(state.get_account("pk2").unwrap().is_none());
}

#[test]
// a stored organization is read back unchanged under the same id
fn set_get_organization_round_trip() {
    let mut state = SmartState::new();
    let org = OrganizationBuilder::new()
        .set_org_id("org1".to_string())
        .set_name("Acme".to_string())
        .set_address("1 Main St".to_string())
        .build()
        .unwrap();
    state.set_organization("org1", org.clone()).unwrap();
    let got = state.get_organization("org1").unwrap().unwrap();
    assert_eq!(got, org);
}

#[test]
// storing the same key twice replaces the first value
fn set_replaces_same_key() {
    let mut state = SmartState::new();
    let first = OrganizationBuilder::new()
        .set_org_id("org1".to_string())
        .set_name("First".to_string())
        .set_address("a".to_string())
        .build()
        .unwrap();
    let second = OrganizationBuilder::new()
        .set_org_id("org1".to_string())
        .set_name("Second".to_string())
        .set_address("b".to_string())
        .build()
        .unwrap();
    state.set_organization("org1", first).unwrap();
    state.set_organization("org1", second).unwrap();
    let got = state.get_organization("org1").unwrap().unwrap();
    assert_eq!(got.get_name(), "Second");
}

#[test]
// namespaces with the same six leading characters share one address: both
// registries live in the same list, each readable under its own namespace
fn namespace_registries_collide_by_design() {
    let mut state = SmartState::new();
    let reg_a = NamespaceRegistryBuilder::new()
        .set_namespace("abc123xxx".to_string())
        .set_owners(vec!["o1".to_string()])
        .build()
        .unwrap();
    let reg_b = NamespaceRegistryBuilder::new()
        .set_namespace("abc123yyy".to_string())
        .set_owners(vec!["o2".to_string()])
        .build()
        .unwrap();
    state.set_namespace_registry("abc123xxx", reg_a.clone()).unwrap();
    state.set_namespace_registry("abc123yyy", reg_b.clone()).unwrap();

    let list = state.get_namespace_registries("abc123").unwrap().unwrap();
    assert_eq!(list.get_registries().len(), 2);

    assert_eq!(state.get_namespace_registry("abc123xxx").unwrap().unwrap(), reg_a);
    assert_eq!(state.get_namespace_registry("abc123yyy").unwrap().unwrap(), reg_b);
}

#[test]
// a delete removes the whole address: a collided sibling registry stored at
// the same address disappears with the deleted one
fn delete_removes_collided_siblings() {
    let mut state = SmartState::new();
    let reg_a = NamespaceRegistryBuilder::new()
        .set_namespace("abc123xxx".to_string())
        .set_owners(vec!["o1".to_string()])
        .build()
        .unwrap();
    let reg_b = NamespaceRegistryBuilder::new()
        .set_namespace("abc123yyy".to_string())
        .set_owners(vec!["o2".to_string()])
        .build()
        .unwrap();
    state.set_namespace_registry("abc123xxx", reg_a).unwrap();
    state.set_namespace_registry("abc123yyy", reg_b).unwrap();

    state.delete_namespace_registry("abc123xxx").unwrap();

    // the sibling was stored at the same address, so it is gone too
    assert!(state.get_namespace_registry("abc123yyy").unwrap().is_none());
    assert!(state.get_namespace_registries("abc123").unwrap().is_none());
}

#[test]
// deleting an empty address fails
fn delete_missing_contract_fails() {
    let mut state = SmartState::new();
    let err = state.delete_contract("c1", "1.0").unwrap_err();
    assert_eq!(err.message(), "Cannot delete contract");
}

#[test]
// the per-address list is kept in key order whatever the insertion order
fn bucket_stays_sorted() {
    let mut state = SmartState::new();
    for ns in ["abc123zz", "abc123aa", "abc123mm"] {
        let reg = NamespaceRegistryBuilder::new()
            .set_namespace(ns.to_string())
            .set_owners(vec!["o".to_string()])
            .build()
            .unwrap();
        state.set_namespace_registry(ns, reg).unwrap();
    }
    let list = state.get_namespace_registries("abc123").unwrap().unwrap();
    let names: Vec<&String> =
        list.get_registries().iter().map(|r| r.get_namespace()).collect();
    assert_eq!(names, ["abc123aa", "abc123mm", "abc123zz"]);
}

#[test]
// the administrators setting is stored at its well-known address
fn set_get_admin_setting() {
    let mut state = SmartState::new();
    assert!(state.get_admin_setting().unwrap().is_none());
    let setting = Setting::new(vec![SettingEntry::new(
        "sawtooth.swa.administrators".to_string(),
        "pk1,pk2".to_string(),
    )]);
    state.set_admin_setting(setting.clone()).unwrap();
    let got = state.get_admin_setting().unwrap().unwrap();
    assert_eq!(got, setting);
}

#[test]
// a version entry keeps what was set
fn version_entry_fields() {
    let version = VersionBuilder::new()
        .set_version("1.0".to_string())
        .set_contract_sha512("digest".to_string())
        .set_creator("pk1".to_string())
        .build()
        .unwrap();
    assert_eq!(version.get_version(), "1.0");
    assert_eq!(version.get_contract_sha512(), "digest");
    assert_eq!(version.get_creator(), "pk1");
    let perm = PermissionBuilder::new()
        .set_contract_name("c1".to_string())
        .build()
        .unwrap();
    assert!(!perm.get_read());
    assert!(!perm.get_write());
}
