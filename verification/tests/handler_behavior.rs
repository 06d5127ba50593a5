//! The transaction handler: authorization, duplicates, permissions, and
//! partial updates, exercised end to end on concrete states.

use sawtooth_sabre::handler::{
    create_contract, delete_contract, check_execute_contract, interpret_execution_result,
    create_contract_registry, delete_contract_registry, update_contract_registry_owners,
    create_namespace_registry, delete_namespace_registry, create_namespace_registry_permission,
    delete_namespace_registry_permission, create_smart_permission, create_account,
    update_account, create_organization, update_organization, SabreTransactionHandler,
};
use sawtooth_sabre::payload::SabreRequestPayload;
use sawtooth_sabre::protocol::payload::{
    Action, CreateContractActionBuilder, DeleteContractActionBuilder,
    ExecuteContractActionBuilder, CreateContractRegistryActionBuilder,
    DeleteContractRegistryActionBuilder, UpdateContractRegistryOwnersActionBuilder,
    CreateNamespaceRegistryActionBuilder, DeleteNamespaceRegistryActionBuilder,
    CreateNamespaceRegistryPermissionActionBuilder, DeleteNamespaceRegistryPermissionActionBuilder,
    CreateSmartPermissionActionBuilder, CreateAccountActionBuilder, UpdateAccountActionBuilder,
    CreateOrganizationActionBuilder, UpdateOrganizationActionBuilder,
};
use sawtooth_sabre::protocol::state::AccountBuilder;
use sawtooth_sabre::setting::{Setting, SettingEntry};
use sawtooth_sabre::state::SmartState;
use sawtooth_sabre::ADMINISTRATORS_SETTING_KEY;

fn state_with_admins(admins: &str) -> SmartState {
    let mut state = SmartState::new();
    let setting = Setting::new(vec![SettingEntry::new(
        ADMINISTRATORS_SETTING_KEY.to_string(),
        admins.to_string(),
    )]);
    state.set_admin_setting(setting).unwrap();
    state
}

fn seed_org_admin(state: &mut SmartState, public_key: &str, org_id: &str) {
    let account = AccountBuilder::new()
        .set_org_id(org_id.to_string())
        .set_public_key(public_key.to_string())
        .set_active(true)
        .set_roles(vec!["admin".to_string()])
        .build()
        .unwrap();
    state.set_account(public_key, account).unwrap();
}

fn make_registry(state: &mut SmartState, name: &str, owner: &str) {
    let action = CreateContractRegistryActionBuilder::new()
        .set_name(name.to_string())
        .set_owners(vec![owner.to_string()])
        .build()
        .unwrap();
    create_contract_registry(&action, owner, state).unwrap();
}

fn make_contract_action(name: &str, version: &str) -> sawtooth_sabre::protocol::payload::CreateContractAction {
    CreateContractActionBuilder::new()
        .set_name(name.to_string())
        .set_version(version.to_string())
        .set_inputs(vec!["abc123".to_string()])
        .set_outputs(vec!["abc123".to_string()])
        .set_contract(b"bytecode".to_vec())
        .build()
        .unwrap()
}

#[test]
// creating the same (name, version) contract twice fails as already existing
fn create_contract_twice_fails() {
    let mut state = state_with_admins("owner1");
    make_registry(&mut state, "c1", "owner1");

    let action = make_contract_action("c1", "1.0");
    create_contract(&action, "owner1", &mut state).unwrap();

    let again = make_contract_action("c1", "1.0");
    let err = create_contract(&again, "owner1", &mut state).unwrap_err();
    assert_eq!(err.message(), "Contract already exists: c1, 1.0");

    // a different version of the same name is fine
    let other = make_contract_action("c1", "2.0");
    create_contract(&other, "owner1", &mut state).unwrap();
}

#[test]
// only registry owners may upload contract versions
fn create_contract_needs_owner() {
    let mut state = state_with_admins("owner1");
    make_registry(&mut state, "c1", "owner1");
    let action = make_contract_action("c1", "1.0");
    let err = create_contract(&action, "stranger", &mut state).unwrap_err();
    assert_eq!(
        err.message(),
        "Only owners can submit new versions of contracts: stranger"
    );
}

#[test]
// a registry with versions cannot be deleted; after the versions are
// deleted through delete-contract it becomes deletable
fn registry_deletable_only_when_empty() {
    let mut state = state_with_admins("owner1");
    make_registry(&mut state, "c1", "owner1");
    let action = make_contract_action("c1", "1.0");
    create_contract(&action, "owner1", &mut state).unwrap();

    let del_reg = DeleteContractRegistryActionBuilder::new()
        .set_name("c1".to_string())
        .build()
        .unwrap();
    let err = delete_contract_registry(&del_reg, "owner1", &mut state).unwrap_err();
    assert_eq!(
        err.message(),
        "Contract Registry can only be deleted if there are no versions: c1"
    );

    let del = DeleteContractActionBuilder::new()
        .set_name("c1".to_string())
        .set_version("1.0".to_string())
        .build()
        .unwrap();
    delete_contract(&del, "owner1", &mut state).unwrap();

    let del_reg = DeleteContractRegistryActionBuilder::new()
        .set_name("c1".to_string())
        .build()
        .unwrap();
    delete_contract_registry(&del_reg, "owner1", &mut state).unwrap();
    assert!(state.get_contract_registry("c1").unwrap().is_none());
}

#[test]
// only platform admins named in the setting may create registries
fn create_registry_needs_admin() {
    let mut state = state_with_admins("admin1,admin2");
    let action = CreateContractRegistryActionBuilder::new()
        .set_name("c1".to_string())
        .set_owners(vec!["owner1".to_string()])
        .build()
        .unwrap();
    let err = create_contract_registry(&action, "stranger", &mut state).unwrap_err();
    assert_eq!(
        err.message(),
        "Only admins can create a contract registry: stranger"
    );
    let action = CreateContractRegistryActionBuilder::new()
        .set_name("c1".to_string())
        .set_owners(vec!["owner1".to_string()])
        .build()
        .unwrap();
    create_contract_registry(&action, "admin2", &mut state).unwrap();
}

#[test]
// owners can be replaced wholesale by an owner
fn update_registry_owners() {
    let mut state = state_with_admins("owner1");
    make_registry(&mut state, "c1", "owner1");
    let action = UpdateContractRegistryOwnersActionBuilder::new()
        .set_name("c1".to_string())
        .set_owners(vec!["owner2".to_string()])
        .build()
        .unwrap();
    update_contract_registry_owners(&action, "owner1", &mut state).unwrap();
    let reg = state.get_contract_registry("c1").unwrap().unwrap();
    assert_eq!(reg.get_owners(), ["owner2"]);
}

#[test]
// granting a permission twice for the same contract leaves exactly one
// permission entry for that contract, carrying the second grant's flags
fn permission_replaces_not_duplicates() {
    let mut state = state_with_admins("owner1");
    let action = CreateNamespaceRegistryActionBuilder::new()
        .set_namespace("abc123".to_string())
        .set_owners(vec!["owner1".to_string()])
        .build()
        .unwrap();
    create_namespace_registry(&action, "owner1", &mut state).unwrap();

    let grant = CreateNamespaceRegistryPermissionActionBuilder::new()
        .set_namespace("abc123".to_string())
        .set_contract_name("c1".to_string())
        .set_read(true)
        .set_write(false)
        .build()
        .unwrap();
    create_namespace_registry_permission(&grant, "owner1", &mut state).unwrap();

    let regrant = CreateNamespaceRegistryPermissionActionBuilder::new()
        .set_namespace("abc123".to_string())
        .set_contract_name("c1".to_string())
        .set_read(true)
        .set_write(true)
        .build()
        .unwrap();
    create_namespace_registry_permission(&regrant, "owner1", &mut state).unwrap();

    let reg = state.get_namespace_registry("abc123").unwrap().unwrap();
    let matching: Vec<_> = reg
        .get_permissions()
        .iter()
        .filter(|p| p.get_contract_name() == "c1")
        .collect();
    assert_eq!(matching.len(), 1);
    assert!(matching[0].get_read());
    assert!(matching[0].get_write());
}

#[test]
// withdrawing a missing permission fails; withdrawing a present one works
fn delete_permission() {
    let mut state = state_with_admins("owner1");
    let action = CreateNamespaceRegistryActionBuilder::new()
        .set_namespace("abc123".to_string())
        .set_owners(vec!["owner1".to_string()])
        .build()
        .unwrap();
    create_namespace_registry(&action, "owner1", &mut state).unwrap();

    let del = DeleteNamespaceRegistryPermissionActionBuilder::new()
        .set_namespace("abc123".to_string())
        .set_contract_name("c1".to_string())
        .build()
        .unwrap();
    let err = delete_namespace_registry_permission(&del, "owner1", &mut state).unwrap_err();
    assert_eq!(
        err.message(),
        "Namespace Registry does not have a permission for : c1"
    );

    let grant = CreateNamespaceRegistryPermissionActionBuilder::new()
        .set_namespace("abc123".to_string())
        .set_contract_name("c1".to_string())
        .set_read(true)
        .build()
        .unwrap();
    create_namespace_registry_permission(&grant, "owner1", &mut state).unwrap();
    let del = DeleteNamespaceRegistryPermissionActionBuilder::new()
        .set_namespace("abc123".to_string())
        .set_contract_name("c1".to_string())
        .build()
        .unwrap();
    delete_namespace_registry_permission(&del, "owner1", &mut state).unwrap();
    let reg = state.get_namespace_registry("abc123").unwrap().unwrap();
    assert!(reg.get_permissions().is_empty());

    // a registry without permissions is deletable
    let del_ns = DeleteNamespaceRegistryActionBuilder::new()
        .set_namespace("abc123".to_string())
        .build()
        .unwrap();
    delete_namespace_registry(&del_ns, "owner1", &mut state).unwrap();
}

#[test]
// execution is rejected while any declared input or output lacks the
// matching permission, and passes once both are granted
fn execute_needs_every_permission() {
    let mut state = state_with_admins("owner1");
    make_registry(&mut state, "c1", "owner1");
    let action = make_contract_action("c1", "1.0");
    create_contract(&action, "owner1", &mut state).unwrap();

    let exec = ExecuteContractActionBuilder::new()
        .set_name("c1".to_string())
        .set_version("1.0".to_string())
        .set_inputs(vec!["abc123".to_string()])
        .set_outputs(vec!["abc123".to_string()])
        .set_payload(b"p".to_vec())
        .build()
        .unwrap();

    // no namespace registry at all
    let err = check_execute_contract(&exec, &mut state).unwrap_err();
    assert_eq!(err.message(), "Namespace Registry does not exist: abc123");

    // a registry without a permission for the contract
    let ns = CreateNamespaceRegistryActionBuilder::new()
        .set_namespace("abc123".to_string())
        .set_owners(vec!["owner1".to_string()])
        .build()
        .unwrap();
    create_namespace_registry(&ns, "owner1", &mut state).unwrap();
    let err = check_execute_contract(&exec, &mut state).unwrap_err();
    assert_eq!(
        err.message(),
        "Contract does not have permission to read from state : c1 abc123"
    );

    // read granted but not write: the output check fails
    let grant = CreateNamespaceRegistryPermissionActionBuilder::new()
        .set_namespace("abc123".to_string())
        .set_contract_name("c1".to_string())
        .set_read(true)
        .set_write(false)
        .build()
        .unwrap();
    create_namespace_registry_permission(&grant, "owner1", &mut state).unwrap();
    let err = check_execute_contract(&exec, &mut state).unwrap_err();
    assert_eq!(
        err.message(),
        "Contract does not have permission to write to state: c1, abc123"
    );

    // read and write granted: the checks pass and hand back the contract
    let grant = CreateNamespaceRegistryPermissionActionBuilder::new()
        .set_namespace("abc123".to_string())
        .set_contract_name("c1".to_string())
        .set_read(true)
        .set_write(true)
        .build()
        .unwrap();
    create_namespace_registry_permission(&grant, "owner1", &mut state).unwrap();
    let contract = check_execute_contract(&exec, &mut state).unwrap();
    assert_eq!(contract.get_name(), "c1");
    assert_eq!(contract.get_contract(), b"bytecode");
}

#[test]
// the module's returned code: 1 is success, -3 an invalid transaction, any
// other code an internal fault, and a missing result a malformed contract
fn module_result_interpretation() {
    assert!(interpret_execution_result(Some(1), "c1", "1.0").is_ok());

    let err = interpret_execution_result(Some(-3), "c1", "1.0").unwrap_err();
    assert!(err.is_invalid_transaction());
    assert_eq!(
        err.message(),
        "Wasm contract returned invalid transaction: c1, 1.0"
    );

    let err = interpret_execution_result(Some(7), "c1", "1.0").unwrap_err();
    assert!(!err.is_invalid_transaction());
    assert_eq!(err.message(), "Wasm contract returned internal error: 7");

    let err = interpret_execution_result(Some(-250), "c1", "1.0").unwrap_err();
    assert_eq!(err.message(), "Wasm contract returned internal error: -250");

    let err = interpret_execution_result(None, "c1", "1.0").unwrap_err();
    assert_eq!(err.message(), "Wasm contract did not return a result: c1, 1.0");
}

#[test]
// an admin of the organization creates it once; the second creation fails,
// and an account cannot be created before its organization exists
fn organization_lifecycle() {
    let mut state = SmartState::new();
    seed_org_admin(&mut state, "s_pub", "org1");

    let create = CreateOrganizationActionBuilder::new()
        .set_id("org1".to_string())
        .set_name("Acme".to_string())
        .set_address("1 Main St".to_string())
        .build()
        .unwrap();
    create_organization(&create, "s_pub", &mut state).unwrap();
    let org = state.get_organization("org1").unwrap().unwrap();
    assert_eq!(org.get_name(), "Acme");

    let again = CreateOrganizationActionBuilder::new()
        .set_id("org1".to_string())
        .set_name("Acme".to_string())
        .set_address("1 Main St".to_string())
        .build()
        .unwrap();
    let err = create_organization(&again, "s_pub", &mut state).unwrap_err();
    assert!(err.message().contains("already exists"));

    // a fresh state without the organization: account creation is rejected
    let mut state2 = SmartState::new();
    seed_org_admin(&mut state2, "s_pub", "org1");
    let acct = CreateAccountActionBuilder::new()
        .set_org_id("org1".to_string())
        .set_public_key("other_pub".to_string())
        .set_roles(vec!["admin".to_string()])
        .set_metadata(vec![
            sawtooth_sabre::protocol::state::KeyValueEntryBuilder::new()
                .set_key("k".to_string())
                .set_value("v".to_string())
                .build()
                .unwrap(),
        ])
        .build()
        .unwrap();
    let err = create_account(&acct, "s_pub", &mut state2).unwrap_err();
    assert!(err.message().contains("Organization does not exist"));
}

#[test]
// an update with empty roles and metadata changes neither; toggling the
// active flag of one's own account always fails
fn update_account_partial_and_self_toggle() {
    let mut state = SmartState::new();
    seed_org_admin(&mut state, "s_pub", "org1");
    let create_org = CreateOrganizationActionBuilder::new()
        .set_id("org1".to_string())
        .set_name("Acme".to_string())
        .set_address("1 Main St".to_string())
        .build()
        .unwrap();
    create_organization(&create_org, "s_pub", &mut state).unwrap();
    seed_org_admin(&mut state, "other_pub", "org1");

    // other_pub is active; an update by s_pub keeping active untouched and
    // omitting roles and metadata leaves everything as it was
    let update = UpdateAccountActionBuilder::new()
        .set_org_id("org1".to_string())
        .set_public_key("other_pub".to_string())
        .set_active(true)
        .set_roles(vec![])
        .set_metadata(vec![])
        .build()
        .unwrap();
    update_account(&update, "s_pub", &mut state).unwrap();
    let account = state.get_account("other_pub").unwrap().unwrap();
    assert_eq!(account.get_roles(), ["admin".to_string()]);
    assert!(*account.get_active());

    // s_pub toggling its own active flag is rejected, admin or not
    let toggle = UpdateAccountActionBuilder::new()
        .set_org_id("org1".to_string())
        .set_public_key("s_pub".to_string())
        .set_active(false)
        .build()
        .unwrap();
    let err = update_account(&toggle, "s_pub", &mut state).unwrap_err();
    assert_eq!(err.message(), "Admin may not deactivate themselves: s_pub");

    // the same toggle on someone else's account goes through
    let toggle_other = UpdateAccountActionBuilder::new()
        .set_org_id("org1".to_string())
        .set_public_key("other_pub".to_string())
        .set_active(false)
        .build()
        .unwrap();
    update_account(&toggle_other, "s_pub", &mut state).unwrap();
    assert!(!*state.get_account("other_pub").unwrap().unwrap().get_active());
}

#[test]
// an organization update with empty fields keeps the stored values
fn update_organization_partial() {
    let mut state = SmartState::new();
    seed_org_admin(&mut state, "s_pub", "org1");
    let create_org = CreateOrganizationActionBuilder::new()
        .set_id("org1".to_string())
        .set_name("Acme".to_string())
        .set_address("1 Main St".to_string())
        .build()
        .unwrap();
    create_organization(&create_org, "s_pub", &mut state).unwrap();

    let update = UpdateOrganizationActionBuilder::new()
        .set_id("org1".to_string())
        .set_name("".to_string())
        .set_address("2 Side St".to_string())
        .build()
        .unwrap();
    update_organization(&update, "s_pub", &mut state).unwrap();
    let org = state.get_organization("org1").unwrap().unwrap();
    assert_eq!(org.get_name(), "Acme");
    assert_eq!(org.get_address(), "2 Side St");
}

#[test]
// smart permissions demand an active org admin and an existing organization
fn smart_permission_lifecycle() {
    let mut state = SmartState::new();
    seed_org_admin(&mut state, "s_pub", "org1");
    let create_org = CreateOrganizationActionBuilder::new()
        .set_id("org1".to_string())
        .set_name("Acme".to_string())
        .set_address("1 Main St".to_string())
        .build()
        .unwrap();
    create_organization(&create_org, "s_pub", &mut state).unwrap();

    let create_sp = CreateSmartPermissionActionBuilder::new()
        .set_name("perm".to_string())
        .set_org_id("org1".to_string())
        .set_function(b"wasm".to_vec())
        .build()
        .unwrap();
    create_smart_permission(&create_sp, "s_pub", &mut state).unwrap();
    assert!(state.get_smart_permission("org1", "perm").unwrap().is_some());

    let again = CreateSmartPermissionActionBuilder::new()
        .set_name("perm".to_string())
        .set_org_id("org1".to_string())
        .set_function(b"wasm".to_vec())
        .build()
        .unwrap();
    let err = create_smart_permission(&again, "s_pub", &mut state).unwrap_err();
    assert!(err.message().contains("already exists"));

    // a signer who is no admin of the organization is rejected
    let by_stranger = CreateSmartPermissionActionBuilder::new()
        .set_name("perm2".to_string())
        .set_org_id("org1".to_string())
        .set_function(b"wasm".to_vec())
        .build()
        .unwrap();
    let err = create_smart_permission(&by_stranger, "stranger", &mut state).unwrap_err();
    assert_eq!(err.message(), "Signer is not an agent: stranger");
}

#[test]
// the payload validator rejects each missing field with its message
fn payload_validation() {
    let action = CreateContractActionBuilder::new()
        .set_name("".to_string())
        .set_version("1.0".to_string())
        .set_contract(b"b".to_vec())
        .build()
        .unwrap();
    let err = SabreRequestPayload::new(Action::CreateContract(action)).unwrap_err();
    assert_eq!(err.message(), "Contract name cannot be an empty string");

    let action = CreateContractActionBuilder::new()
        .set_name("c1".to_string())
        .set_version("1.0".to_string())
        .set_contract(b"b".to_vec())
        .build()
        .unwrap();
    let err = SabreRequestPayload::new(Action::CreateContract(action)).unwrap_err();
    assert_eq!(err.message(), "Contract inputs cannot be an empty");

    let action = CreateOrganizationActionBuilder::new()
        .set_id("org1".to_string())
        .set_name("Acme".to_string())
        .set_address("".to_string())
        .build()
        .unwrap();
    let err = SabreRequestPayload::new(Action::CreateOrganization(action)).unwrap_err();
    assert_eq!(err.message(), "Organization address required");

    let action = make_contract_action("c1", "1.0");
    let payload = SabreRequestPayload::new(Action::CreateContract(action)).unwrap();
    match payload.get_action() {
        Action::CreateContract(p) => assert_eq!(p.get_name(), "c1"),
        _ => panic!("validated payload must keep its action"),
    }
}

#[test]
// the handler carries its fixed identity and dispatches whole transactions
fn handler_identity_and_apply() {
    let handler = SabreTransactionHandler::new();
    assert_eq!(handler.family_name(), "sabre");
    assert_eq!(handler.family_versions(), ["0.4".to_string()]);
    assert_eq!(
        handler.namespaces(),
        ["00ec00".to_string(), "00ec01".to_string(), "00ec02".to_string()]
    );

    let mut state = state_with_admins("owner1");
    let action = CreateContractRegistryActionBuilder::new()
        .set_name("c1".to_string())
        .set_owners(vec!["owner1".to_string()])
        .build()
        .unwrap();
    let done = handler
        .apply(&Action::CreateContractRegistry(action), "owner1", &mut state)
        .unwrap();
    assert!(done.is_none());
    assert!(state.get_contract_registry("c1").unwrap().is_some());

    // an execute action comes back as the contract to run
    let action = make_contract_action("c1", "1.0");
    handler
        .apply(&Action::CreateContract(action), "owner1", &mut state)
        .unwrap();
    let ns = CreateNamespaceRegistryActionBuilder::new()
        .set_namespace("abc123".to_string())
        .set_owners(vec!["owner1".to_string()])
        .build()
        .unwrap();
    create_namespace_registry(&ns, "owner1", &mut state).unwrap();
    let grant = CreateNamespaceRegistryPermissionActionBuilder::new()
        .set_namespace("abc123".to_string())
        .set_contract_name("c1".to_string())
        .set_read(true)
        .set_write(true)
        .build()
        .unwrap();
    create_namespace_registry_permission(&grant, "owner1", &mut state).unwrap();
    let exec = ExecuteContractActionBuilder::new()
        .set_name("c1".to_string())
        .set_version("1.0".to_string())
        .set_inputs(vec!["abc123".to_string()])
        .set_outputs(vec!["abc123".to_string()])
        .set_payload(b"p".to_vec())
        .build()
        .unwrap();
    let to_run = handler
        .apply(&Action::ExecuteContract(exec), "owner1", &mut state)
        .unwrap();
    assert_eq!(to_run.unwrap().get_contract(), b"bytecode");
}
