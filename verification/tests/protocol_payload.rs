//! The action builders produce exactly what was set.

use sawtooth_sabre::protocol::payload::{
    Action, CreateContractActionBuilder, DeleteContractActionBuilder,
    ExecuteContractActionBuilder, CreateContractRegistryActionBuilder,
    DeleteContractRegistryActionBuilder, UpdateContractRegistryOwnersActionBuilder,
    CreateNamespaceRegistryActionBuilder, DeleteNamespaceRegistryActionBuilder,
    UpdateNamespaceRegistryOwnersActionBuilder, CreateNamespaceRegistryPermissionActionBuilder,
    DeleteNamespaceRegistryPermissionActionBuilder, CreateSmartPermissionActionBuilder,
    UpdateSmartPermissionActionBuilder, DeleteSmartPermissionActionBuilder, SabrePayloadBuilder,
};

#[test]
// check that a create contract action is built correctly
fn check_create_contract_action() {
    let builder = CreateContractActionBuilder::new();
    let action = builder
        .set_name("TestContract".to_string())
        .set_version("0.1".to_string())
        .set_inputs(vec!["test".to_string(), "input".to_string()])
        .set_outputs(vec!["test".to_string(), "output".to_string()])
        .set_contract(b"test".to_vec())
        .build()
        .unwrap();

    assert_eq!(action.get_name(), "TestContract");
    assert_eq!(action.get_version(), "0.1");
    assert_eq!(action.get_inputs(), ["test".to_string(), "input".to_string()]);
    assert_eq!(action.get_outputs(), ["test".to_string(), "output".to_string()]);
    assert_eq!(action.get_contract(), b"test");
}

#[test]
// check that a delete create action is built correctly
fn check_delete_contract_action() {
    let builder = DeleteContractActionBuilder::new();
    let action = builder
        .set_name("TestContract".to_string())
        .set_version("0.1".to_string())
        .build()
        .unwrap();

    assert_eq!(action.get_name(), "TestContract");
    assert_eq!(action.get_version(), "0.1");
}

#[test]
// check that a execute contract action is built correctly
fn check_execute_contract_action() {
    let builder = ExecuteContractActionBuilder::new();
    let action = builder
        .set_name("TestContract".to_string())
        .set_version("0.1".to_string())
        .set_inputs(vec!["test".to_string(), "input".to_string()])
        .set_outputs(vec!["test".to_string(), "output".to_string()])
        .set_payload(b"test_payload".to_vec())
        .build()
        .unwrap();

    assert_eq!(action.get_name(), "TestContract");
    assert_eq!(action.get_version(), "0.1");
    assert_eq!(action.get_inputs(), ["test".to_string(), "input".to_string()]);
    assert_eq!(action.get_outputs(), ["test".to_string(), "output".to_string()]);
    assert_eq!(action.get_payload(), b"test_payload");
}

#[test]
// check that a create contract registry action is built correctly
fn check_create_contract_registry_action() {
    let builder = CreateContractRegistryActionBuilder::new();
    let action = builder
        .set_name("TestContract".to_string())
        .set_owners(vec!["test".to_string(), "owner".to_string()])
        .build()
        .unwrap();

    assert_eq!(action.get_name(), "TestContract");
    assert_eq!(action.get_owners(), ["test".to_string(), "owner".to_string()]);
}

#[test]
// check that a delete contract registry action is built correctly
fn check_delete_contract_registry_action() {
    let builder = DeleteContractRegistryActionBuilder::new();
    let action = builder.set_name("TestContract".to_string()).build().unwrap();

    assert_eq!(action.get_name(), "TestContract");
}

#[test]
// check that a update contract registry owners action is built correctly
fn check_update_contract_registry_owners_action() {
    let builder = UpdateContractRegistryOwnersActionBuilder::new();
    let action = builder
        .set_name("TestContract".to_string())
        .set_owners(vec!["test".to_string(), "owner".to_string()])
        .build()
        .unwrap();

    assert_eq!(action.get_name(), "TestContract");
    assert_eq!(action.get_owners(), ["test".to_string(), "owner".to_string()]);
}

#[test]
// check that a create namespace registry action is built correctly
fn check_create_namespace_registry_action() {
    let builder = CreateNamespaceRegistryActionBuilder::new();
    let action = builder
        .set_namespace("TestNamespace".to_string())
        .set_owners(vec!["test".to_string(), "owner".to_string()])
        .build()
        .unwrap();

    assert_eq!(action.get_namespace(), "TestNamespace");
    assert_eq!(action.get_owners(), ["test".to_string(), "owner".to_string()]);
}

#[test]
// check that a delete namespace registry action is built correctly
fn check_delete_namespace_registry_action() {
    let builder = DeleteNamespaceRegistryActionBuilder::new();
    let action = builder.set_namespace("TestNamespace".to_string()).build().unwrap();

    assert_eq!(action.get_namespace(), "TestNamespace");
}

#[test]
// check that a update namespace registry owners action is built correctly
fn check_update_namespace_registry_owners_action() {
    let builder = UpdateNamespaceRegistryOwnersActionBuilder::new();
    let action = builder
        .set_namespace("TestNamespace".to_string())
        .set_owners(vec!["test".to_string(), "owner".to_string()])
        .build()
        .unwrap();

    assert_eq!(action.get_namespace(), "TestNamespace");
    assert_eq!(action.get_owners(), ["test".to_string(), "owner".to_string()]);
}

#[test]
// check that a create namespace registry permission action is built correctly
fn check_create_namespace_registry_permission_action() {
    let builder = CreateNamespaceRegistryPermissionActionBuilder::new();
    let action = builder
        .set_namespace("TestNamespace".to_string())
        .set_contract_name("TestContract".to_string())
        .set_read(true)
        .set_write(true)
        .build()
        .unwrap();

    assert_eq!(action.get_namespace(), "TestNamespace");
    assert_eq!(action.get_contract_name(), "TestContract");
    assert_eq!(action.get_read(), true);
    assert_eq!(action.get_write(), true);
}

#[test]
// check that a delete namespace registry permission action is built correctly
fn check_delete_namespace_registry_permission_action() {
    let builder = DeleteNamespaceRegistryPermissionActionBuilder::new();
    let action = builder
        .set_namespace("TestNamespace".to_string())
        .set_contract_name("TestContract".to_string())
        .build()
        .unwrap();

    assert_eq!(action.get_namespace(), "TestNamespace");
    assert_eq!(action.get_contract_name(), "TestContract");
}

#[test]
// check that a create smart permsion action is built correctly
fn check_create_smart_permission_action() {
    let builder = CreateSmartPermissionActionBuilder::new();
    let action = builder
        .set_name("SmartPermission".to_string())
        .set_org_id("org_id".to_string())
        .set_function(b"test".to_vec())
        .build()
        .unwrap();

    assert_eq!(action.get_name(), "SmartPermission");
    assert_eq!(action.get_org_id(), "org_id");
    assert_eq!(action.get_function(), b"test");
}

#[test]
// check that a update smart permission action is built correctly
fn check_update_smart_permission_action() {
    let builder = UpdateSmartPermissionActionBuilder::new();
    let action = builder
        .set_name("SmartPermission".to_string())
        .set_org_id("org_id".to_string())
        .set_function(b"test".to_vec())
        .build()
        .unwrap();

    assert_eq!(action.get_name(), "SmartPermission");
    assert_eq!(action.get_org_id(), "org_id");
    assert_eq!(action.get_function(), b"test");
}

#[test]
// check that a delete smart permission action is built correctly
fn check_delete_smart_permission_action() {
    let builder = DeleteSmartPermissionActionBuilder::new();
    let action = builder
        .set_name("SmartPermission".to_string())
        .set_org_id("org_id".to_string())
        .build()
        .unwrap();

    assert_eq!(action.get_name(), "SmartPermission");
    assert_eq!(action.get_org_id(), "org_id");
}

#[test]
// check that a sabre payload with execute action is built correctly
fn check_payload() {
    let builder = ExecuteContractActionBuilder::new();
    let action = builder
        .set_name("TestContract".to_string())
        .set_version("0.1".to_string())
        .set_inputs(vec!["test".to_string(), "input".to_string()])
        .set_outputs(vec!["test".to_string(), "output".to_string()])
        .set_payload(b"test_payload".to_vec())
        .build()
        .unwrap();

    let builder = ExecuteContractActionBuilder::new();
    let same_action = builder
        .set_name("TestContract".to_string())
        .set_version("0.1".to_string())
        .set_inputs(vec!["test".to_string(), "input".to_string()])
        .set_outputs(vec!["test".to_string(), "output".to_string()])
        .set_payload(b"test_payload".to_vec())
        .build()
        .unwrap();

    let builder = SabrePayloadBuilder::new();
    let payload = builder
        .set_action(Action::ExecuteContract(action))
        .build()
        .unwrap();

    assert_eq!(*payload.action(), Action::ExecuteContract(same_action));
}
