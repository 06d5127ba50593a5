//! The state entity builders produce exactly what was set.

use sawtooth_sabre::protocol::state::{
    VersionBuilder, ContractRegistryBuilder, ContractRegistryListBuilder, PermissionBuilder,
    NamespaceRegistryBuilder, NamespaceRegistryListBuilder, ContractBuilder, ContractListBuilder,
    SmartPermissionBuilder, SmartPermissionListBuilder, KeyValueEntryBuilder, AccountBuilder,
    AccountListBuilder, OrganizationBuilder, OrganizationListBuilder,
};

#[test]
// check that a contract registry is built correctly
fn check_contract_registry() {
    let builder = VersionBuilder::new();
    let version = builder
        .set_version("0.0.0".to_string())
        .set_contract_sha512("sha512".to_string())
        .set_creator("The Creator".to_string())
        .build()
        .unwrap();

    let builder = ContractRegistryBuilder::new();
    let contract_registry = builder
        .set_name("Tests".to_string())
        .set_versions(vec![version.clone()])
        .set_owners(vec!["owner".to_string()])
        .build()
        .unwrap();

    assert_eq!(contract_registry.get_name(), "Tests");
    assert_eq!(contract_registry.get_versions(), [version]);
    assert_eq!(contract_registry.get_owners(), ["owner"]);
}

#[test]
// check that a contract registry can be converted into builder
fn check_contract_registry_into_builder() {
    let builder = VersionBuilder::new();
    let version = builder
        .set_version("0.0.0".to_string())
        .set_contract_sha512("sha512".to_string())
        .set_creator("The Creator".to_string())
        .build()
        .unwrap();

    let builder = ContractRegistryBuilder::new();
    let contract_registry = builder
        .set_name("Tests".to_string())
        .set_versions(vec![version.clone()])
        .set_owners(vec!["owner".to_string()])
        .build()
        .unwrap();

    let builder = contract_registry.into_builder();
    let rebuilt = builder.build().unwrap();

    assert_eq!(rebuilt.get_name(), "Tests");
    assert_eq!(rebuilt.get_versions(), [version]);
    assert_eq!(rebuilt.get_owners(), ["owner"]);
}

#[test]
// check that a contract registry list is built correctly
fn check_contract_registry_list() {
    let builder = VersionBuilder::new();
    let version = builder
        .set_version("0.0.0".to_string())
        .set_contract_sha512("sha512".to_string())
        .set_creator("The Creator".to_string())
        .build()
        .unwrap();

    let builder = ContractRegistryBuilder::new();
    let contract_registry = builder
        .set_name("Tests".to_string())
        .set_versions(vec![version])
        .set_owners(vec!["owner".to_string()])
        .build()
        .unwrap();

    let builder = ContractRegistryListBuilder::new();
    let contract_registry_list = builder
        .set_registries(vec![contract_registry.clone()])
        .build()
        .unwrap();

    assert_eq!(contract_registry_list.get_registries(), [contract_registry]);
}

#[test]
// check that a namespace registry is built correctly
fn check_namespace_registry() {
    let builder = PermissionBuilder::new();
    let permission = builder
        .set_contract_name("Test".to_string())
        .set_read(true)
        .set_write(true)
        .build()
        .unwrap();

    let builder = NamespaceRegistryBuilder::new();
    let namespace_registry = builder
        .set_namespace("Tests".to_string())
        .set_owners(vec!["owner".to_string()])
        .set_permissions(vec![permission.clone()])
        .build()
        .unwrap();

    assert_eq!(namespace_registry.get_namespace(), "Tests");
    assert_eq!(namespace_registry.get_permissions(), [permission]);
    assert_eq!(namespace_registry.get_owners(), ["owner"]);
}

#[test]
// check that a namespace registry can be conveted into a builder
fn check_namespace_registry_into_build() {
    let builder = PermissionBuilder::new();
    let permission = builder
        .set_contract_name("Test".to_string())
        .set_read(true)
        .set_write(true)
        .build()
        .unwrap();

    let builder = NamespaceRegistryBuilder::new();
    let namespace_registry = builder
        .set_namespace("Tests".to_string())
        .set_owners(vec!["owner".to_string()])
        .set_permissions(vec![permission.clone()])
        .build()
        .unwrap();

    let builder = namespace_registry.into_builder();
    let rebuilt = builder.build().unwrap();

    assert_eq!(rebuilt.get_namespace(), "Tests");
    assert_eq!(rebuilt.get_permissions(), [permission]);
    assert_eq!(rebuilt.get_owners(), ["owner"]);
}

#[test]
// check that a namespace registry list is built correctly
fn check_namespace_registry_list() {
    let builder = PermissionBuilder::new();
    let permission = builder
        .set_contract_name("Test".to_string())
        .set_read(true)
        .set_write(true)
        .build()
        .unwrap();

    let builder = NamespaceRegistryBuilder::new();
    let namespace_registry = builder
        .set_namespace("Tests".to_string())
        .set_owners(vec!["owner".to_string()])
        .set_permissions(vec![permission])
        .build()
        .unwrap();

    let builder = NamespaceRegistryListBuilder::new();
    let namespace_registry_list = builder
        .set_registries(vec![namespace_registry.clone()])
        .build()
        .unwrap();

    assert_eq!(namespace_registry_list.get_registries(), [namespace_registry]);
}

#[test]
// check that a contract is built correctly
fn check_contract() {
    let builder = ContractBuilder::new();
    let contract = builder
        .set_name("Tests".to_string())
        .set_version("0.0.0".to_string())
        .set_inputs(vec!["input1".to_string(), "input2".to_string()])
        .set_outputs(vec!["output1".to_string(), "output2".to_string()])
        .set_creator("The Creator".to_string())
        .set_contract(b"test_contract".to_vec())
        .build()
        .unwrap();

    assert_eq!(contract.get_name(), "Tests");
    assert_eq!(contract.get_version(), "0.0.0");
    assert_eq!(contract.get_inputs(), ["input1".to_string(), "input2".to_string()]);
    assert_eq!(contract.get_outputs(), ["output1".to_string(), "output2".to_string()]);
    assert_eq!(contract.get_creator(), "The Creator");
    assert_eq!(contract.get_contract(), b"test_contract");
}

#[test]
// check that the contract can be converted into a builder
fn check_contract_into_builder() {
    let builder = ContractBuilder::new();
    let contract = builder
        .set_name("Tests".to_string())
        .set_version("0.0.0".to_string())
        .set_inputs(vec!["input1".to_string(), "input2".to_string()])
        .set_outputs(vec!["output1".to_string(), "output2".to_string()])
        .set_creator("The Creator".to_string())
        .set_contract(b"test_contract".to_vec())
        .build()
        .unwrap();

    let builder = contract.into_builder();
    let rebuilt = builder.build().unwrap();

    assert_eq!(rebuilt.get_name(), "Tests");
    assert_eq!(rebuilt.get_version(), "0.0.0");
    assert_eq!(rebuilt.get_inputs(), ["input1".to_string(), "input2".to_string()]);
    assert_eq!(rebuilt.get_outputs(), ["output1".to_string(), "output2".to_string()]);
    assert_eq!(rebuilt.get_creator(), "The Creator");
    assert_eq!(rebuilt.get_contract(), b"test_contract".to_vec());
}

#[test]
// check that a contract list is built correctly
fn check_contract_list() {
    let builder = ContractBuilder::new();
    let contract = builder
        .set_name("Tests".to_string())
        .set_version("0.0.0".to_string())
        .set_inputs(vec!["input1".to_string(), "input2".to_string()])
        .set_outputs(vec!["output1".to_string(), "output2".to_string()])
        .set_creator("The Creator".to_string())
        .set_contract(b"test_contract".to_vec())
        .build()
        .unwrap();

    let builder = ContractListBuilder::new();
    let contract_list = builder.set_contracts(vec![contract.clone()]).build().unwrap();

    assert_eq!(contract_list.get_contracts(), [contract]);
}

#[test]
// check that a smart permission is built correctly
fn check_smart_permission() {
    let builder = SmartPermissionBuilder::new();
    let smart_permission = builder
        .set_name("Tests".to_string())
        .set_org_id("org_id".to_string())
        .set_function(b"test_function".to_vec())
        .build()
        .unwrap();

    assert_eq!(smart_permission.get_name(), "Tests");
    assert_eq!(smart_permission.get_org_id(), "org_id");
    assert_eq!(smart_permission.get_function(), b"test_function");
}

#[test]
// check that a smart permission can be converted to builder
fn check_smart_permission_into_builder() {
    let builder = SmartPermissionBuilder::new();
    let smart_permission = builder
        .set_name("Tests".to_string())
        .set_org_id("org_id".to_string())
        .set_function(b"test_function".to_vec())
        .build()
        .unwrap();

    let builder = smart_permission.into_builder();
    let rebuilt = builder.build().unwrap();

    assert_eq!(rebuilt.get_name(), "Tests");
    assert_eq!(rebuilt.get_org_id(), "org_id");
    assert_eq!(rebuilt.get_function(), b"test_function".to_vec());
}

#[test]
// check that a smart permission list is built correctly
fn check_smart_permission_list() {
    let builder = SmartPermissionBuilder::new();
    let smart_permission = builder
        .set_name("Tests".to_string())
        .set_org_id("org_id".to_string())
        .set_function(b"test_function".to_vec())
        .build()
        .unwrap();

    let builder = SmartPermissionListBuilder::new();
    let smart_permission_list = builder
        .set_smart_permissions(vec![smart_permission.clone()])
        .build()
        .unwrap();

    assert_eq!(smart_permission_list.get_smart_permissions(), [smart_permission]);
}

#[test]
// check that a KeyValueEntry is built correctly
fn check_key_value_entry_builder() {
    let builder = KeyValueEntryBuilder::new();
    let key_value = builder
        .set_key("Key".to_string())
        .set_value("Value".to_string())
        .build()
        .unwrap();

    assert_eq!(key_value.get_key(), "Key");
    assert_eq!(key_value.get_value(), "Value");
}

#[test]
// check that an Account is built correctly
fn check_account_builder() {
    let builder = KeyValueEntryBuilder::new();
    let key_value = builder
        .set_key("Key".to_string())
        .set_value("Value".to_string())
        .build()
        .unwrap();

    let builder = AccountBuilder::new();
    let account = builder
        .set_org_id("organization".to_string())
        .set_public_key("public_key".to_string())
        .set_active(true)
        .set_roles(vec!["Role".to_string()])
        .set_metadata(vec![key_value.clone()])
        .build()
        .unwrap();

    assert_eq!(account.get_org_id(), "organization");
    assert_eq!(account.get_public_key(), "public_key");
    assert!(*account.get_active());
    assert_eq!(account.get_roles(), ["Role".to_string()]);
    assert_eq!(account.get_metadata(), [key_value]);
}

#[test]
// check that an AccountList is built correctly
fn check_account_list_builder() {
    let builder = KeyValueEntryBuilder::new();
    let key_value = builder
        .set_key("Key".to_string())
        .set_value("Value".to_string())
        .build()
        .unwrap();

    let builder = AccountBuilder::new();
    let account = builder
        .set_org_id("organization".to_string())
        .set_public_key("public_key".to_string())
        .set_active(true)
        .set_roles(vec!["Role".to_string()])
        .set_metadata(vec![key_value])
        .build()
        .unwrap();

    let builder = AccountListBuilder::new();
    let account_list = builder.set_accounts(vec![account.clone()]).build().unwrap();

    assert_eq!(account_list.get_accounts(), [account])
}

#[test]
// check that an Organization is built correctly
fn check_organization_builder() {
    let builder = KeyValueEntryBuilder::new();
    let key_value = builder
        .set_key("Key".to_string())
        .set_value("Value".to_string())
        .build()
        .unwrap();

    let builder = OrganizationBuilder::new();
    let organization = builder
        .set_org_id("organization".to_string())
        .set_name("name".to_string())
        .set_address("address".to_string())
        .set_metadata(vec![key_value.clone()])
        .build()
        .unwrap();

    assert_eq!(organization.get_org_id(), "organization");
    assert_eq!(organization.get_name(), "name");
    assert_eq!(organization.get_address(), "address");
    assert_eq!(organization.get_metadata(), [key_value]);
}

#[test]
// check that an OrganizationList is built correctly
fn check_organization_lists_builder() {
    let builder = KeyValueEntryBuilder::new();
    let key_value = builder
        .set_key("Key".to_string())
        .set_value("Value".to_string())
        .build()
        .unwrap();

    let builder = OrganizationBuilder::new();
    let organization = builder
        .set_org_id("organization".to_string())
        .set_name("name".to_string())
        .set_address("address".to_string())
        .set_metadata(vec![key_value])
        .build()
        .unwrap();

    let builder = OrganizationListBuilder::new();
    let organization_list = builder
        .set_organizations(vec![organization.clone()])
        .build()
        .unwrap();

    assert_eq!(organization_list.get_organizations(), [organization])
}
