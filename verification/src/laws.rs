//! The stated laws of the library: what holds of every state and every
//! action, proved from the handler's and the state layer's contracts.

use vstd::prelude::*;
use crate::addressing::{
    contract_address, contract_registry_address, namespace_registry_address,
    smart_permission_address, account_address, org_address, lemma_address_prefixes,
    CONTRACT_PREFIX, CONTRACT_REGISTRY_PREFIX,
};
use crate::handler::{
    spec_create_contract, spec_delete_contract_registry, spec_create_namespace_registry_permission,
    spec_update_account, spec_is_admin, spec_check_execute, check_input, check_output,
    check_inputs, check_outputs,
};
use crate::keyed::{
    sorted_keyed, upsert_keyed, remove_keyed, lemma_upsert_keyed_props, lemma_remove_keyed_props,
};
use crate::protocol::payload::{
    CreateContractActionV, DeleteContractRegistryActionV, CreateNamespaceRegistryPermissionActionV,
    UpdateAccountActionV, ExecuteContractActionV,
};
use crate::protocol::state::{
    ContractV, ContractRegistryV, NamespaceRegistryV, PermissionV, SmartPermissionV, AccountV,
    OrganizationV,
};
use crate::state::{
    StoredValueV, stored_contracts, stored_contract_registries, stored_namespace_registries,
    stored_smart_permissions, stored_accounts, stored_organizations, contract_keyf,
    contract_registry_keyf, namespace_registry_keyf, smart_permission_keyf, account_keyf,
    organization_keyf, permission_keyf, permissions_unique, spec_get_contract,
    spec_set_contract, spec_get_contract_registry, spec_set_contract_registry,
    spec_get_namespace_registry, spec_set_namespace_registry, spec_get_smart_permission,
    spec_set_smart_permission, spec_get_account, spec_set_account, spec_get_organization,
    spec_set_organization,
};

verus! {

// ---------------------------------------------------------------------------
// Round trips: a set followed by a get of the same key returns what was set
// ---------------------------------------------------------------------------
/// Storing a contract under `(name, version)` and reading the same pair
/// back yields exactly the stored contract.
pub proof fn lemma_set_get_contract(
    m: Map<Seq<char>, StoredValueV>,
    name: Seq<char>,
    version: Seq<char>,
    c: ContractV,
)
    requires
        c.name == name,
        sorted_keyed(stored_contracts(m, contract_address(name, version)), contract_keyf()),
    ensures
        spec_get_contract(spec_set_contract(m, name, version, c), name, version) == Some(c),
{
    lemma_upsert_keyed_props(
        stored_contracts(m, contract_address(name, version)),
        contract_keyf(),
        c,
    );
}

/// Storing a contract registry under `name` and reading `name` back
/// yields exactly the stored registry.
pub proof fn lemma_set_get_contract_registry(
    m: Map<Seq<char>, StoredValueV>,
    name: Seq<char>,
    r: ContractRegistryV,
)
    requires
        r.name == name,
        sorted_keyed(
            stored_contract_registries(m, contract_registry_address(name)),
            contract_registry_keyf(),
        ),
    ensures
        spec_get_contract_registry(spec_set_contract_registry(m, name, r), name) == Some(r),
{
    lemma_upsert_keyed_props(
        stored_contract_registries(m, contract_registry_address(name)),
        contract_registry_keyf(),
        r,
    );
}

/// Storing a namespace registry under `namespace` and reading `namespace`
/// back yields exactly the stored registry.
pub proof fn lemma_set_get_namespace_registry(
    m: Map<Seq<char>, StoredValueV>,
    namespace: Seq<char>,
    r: NamespaceRegistryV,
)
    requires
        r.namespace == namespace,
        sorted_keyed(
            stored_namespace_registries(m, namespace_registry_address(namespace)),
            namespace_registry_keyf(),
        ),
    ensures
        spec_get_namespace_registry(spec_set_namespace_registry(m, namespace, r), namespace)
            == Some(r),
{
    lemma_upsert_keyed_props(
        stored_namespace_registries(m, namespace_registry_address(namespace)),
        namespace_registry_keyf(),
        r,
    );
}

/// Storing a smart permission under `(org_id, name)` and reading the same
/// pair back yields exactly the stored permission.
pub proof fn lemma_set_get_smart_permission(
    m: Map<Seq<char>, StoredValueV>,
    org_id: Seq<char>,
    name: Seq<char>,
    sp: SmartPermissionV,
)
    requires
        sp.name == name,
        sorted_keyed(
            stored_smart_permissions(m, smart_permission_address(org_id, name)),
            smart_permission_keyf(),
        ),
    ensures
        spec_get_smart_permission(
            spec_set_smart_permission(m, org_id, name, sp),
            org_id,
            name,
        ) == Some(sp),
{
    lemma_upsert_keyed_props(
        stored_smart_permissions(m, smart_permission_address(org_id, name)),
        smart_permission_keyf(),
        sp,
    );
}

/// Storing an account under `public_key` and reading the same key back
/// yields exactly the stored account.
pub proof fn lemma_set_get_account(
    m: Map<Seq<char>, StoredValueV>,
    public_key: Seq<char>,
    a: AccountV,
)
    requires
        a.public_key == public_key,
        sorted_keyed(stored_accounts(m, account_address(public_key)), account_keyf()),
    ensures
        spec_get_account(spec_set_account(m, public_key, a), public_key) == Some(a),
{
    lemma_upsert_keyed_props(
        stored_accounts(m, account_address(public_key)),
        account_keyf(),
        a,
    );
}

/// Storing an organization under `org_id` and reading the same id back
/// yields exactly the stored organization.
pub proof fn lemma_set_get_organization(
    m: Map<Seq<char>, StoredValueV>,
    org_id: Seq<char>,
    o: OrganizationV,
)
    requires
        o.org_id == org_id,
        sorted_keyed(stored_organizations(m, org_address(org_id)), organization_keyf()),
    ensures
        spec_get_organization(spec_set_organization(m, org_id, o), org_id) == Some(o),
{
    lemma_upsert_keyed_props(
        stored_organizations(m, org_address(org_id)),
        organization_keyf(),
        o,
    );
}

// ---------------------------------------------------------------------------
// Contract creation is not idempotent
// ---------------------------------------------------------------------------
/// A contract address never equals a contract registry address.
proof fn lemma_contract_addresses_disjoint(n1: Seq<char>, v1: Seq<char>, n2: Seq<char>)
    ensures
        contract_address(n1, v1) != contract_registry_address(n2),
{
    lemma_address_prefixes(n1, v1);
    lemma_address_prefixes(n2, n2);
    reveal_strlit("00ec01");
    reveal_strlit("00ec02");
    let ca = contract_address(n1, v1);
    let ra = contract_registry_address(n2);
    if ca == ra {
        assert(ca.take(6) == CONTRACT_PREFIX@);
        assert(ra.take(6) == CONTRACT_REGISTRY_PREFIX@);
        assert(CONTRACT_PREFIX@[5] == '2');
        assert(CONTRACT_REGISTRY_PREFIX@[5] == '1');
        assert(ca.take(6)[5] == ra.take(6)[5]);
        assert(false);
    }
}

/// Of two actions creating the same `(name, version)` contract, the second
/// fails as already existing, whatever its other fields and whoever signs.
pub proof fn lemma_create_contract_twice(
    m: Map<Seq<char>, StoredValueV>,
    p: CreateContractActionV,
    q: CreateContractActionV,
    signer1: Seq<char>,
    signer2: Seq<char>,
)
    requires
        spec_create_contract(m, p, signer1) is Ok,
        q.name == p.name,
        q.version == p.version,
        sorted_keyed(stored_contracts(m, contract_address(p.name, p.version)), contract_keyf()),
    ensures
        spec_create_contract(spec_create_contract(m, p, signer1)->Ok_0, q, signer2) matches Err(
            msg,
        ) && msg == "Contract already exists: "@ + q.name + ", "@ + q.version,
{
    let ca = contract_address(p.name, p.version);
    let l = stored_contracts(m, ca);
    let c = ContractV {
        name: p.name,
        version: p.version,
        inputs: p.inputs,
        outputs: p.outputs,
        creator: signer1,
        contract: p.contract,
    };
    lemma_upsert_keyed_props(l, contract_keyf(), c);
    lemma_contract_addresses_disjoint(p.name, p.version, p.name);
    let m2 = spec_create_contract(m, p, signer1)->Ok_0;
    assert(stored_contracts(m2, ca) == upsert_keyed(l, contract_keyf(), c));
    assert(spec_get_contract(m2, q.name, q.version) == Some(c));
}

// ---------------------------------------------------------------------------
// Contract registry deletion needs an empty version list
// ---------------------------------------------------------------------------
/// Deleting a contract registry that still lists versions always fails,
/// whoever signs.
pub proof fn lemma_delete_contract_registry_nonempty(
    m: Map<Seq<char>, StoredValueV>,
    p: DeleteContractRegistryActionV,
    signer: Seq<char>,
)
    requires
        spec_get_contract_registry(m, p.name) matches Some(reg) && reg.versions.len() > 0,
    ensures
        spec_delete_contract_registry(m, p, signer) matches Err(msg) && msg
            == "Contract Registry can only be deleted if there are no versions: "@ + p.name,
{
}

/// A contract registry whose version list is empty can be deleted by any
/// of its owners.
pub proof fn lemma_empty_contract_registry_deletable(
    m: Map<Seq<char>, StoredValueV>,
    p: DeleteContractRegistryActionV,
    signer: Seq<char>,
)
    requires
        spec_get_contract_registry(m, p.name) matches Some(reg) && reg.versions.len() == 0
            && reg.owners.contains(signer),
    ensures
        spec_delete_contract_registry(m, p, signer) is Ok,
{
}

/// Deleting a contract removes the matching version entry from the stored
/// registry: deleting every version one by one empties the registry's
/// version list, which [`lemma_empty_contract_registry_deletable`] then
/// lets an owner delete.
pub proof fn lemma_delete_contract_removes_version(
    m: Map<Seq<char>, StoredValueV>,
    p: crate::protocol::payload::DeleteContractActionV,
    signer: Seq<char>,
)
    requires
        crate::handler::spec_delete_contract(m, p, signer) is Ok,
        spec_get_contract_registry(m, p.name) matches Some(reg),
        sorted_keyed(
            stored_contract_registries(m, contract_registry_address(p.name)),
            contract_registry_keyf(),
        ),
    ensures
        spec_get_contract_registry(
            crate::handler::spec_delete_contract(m, p, signer)->Ok_0,
            p.name,
        ) matches Some(reg2) && reg2.versions == remove_keyed(
            spec_get_contract_registry(m, p.name).unwrap().versions,
            crate::state::version_keyf(),
            p.version,
        ),
{
    let reg = spec_get_contract_registry(m, p.name).unwrap();
    crate::keyed::lemma_find_keyed_props(
        stored_contract_registries(m, contract_registry_address(p.name)),
        contract_registry_keyf(),
        p.name,
    );
    let reg2 = ContractRegistryV {
        name: reg.name,
        versions: remove_keyed(reg.versions, crate::state::version_keyf(), p.version),
        owners: reg.owners,
    };
    lemma_set_get_contract_registry(m, p.name, reg2);
    let m2 = spec_set_contract_registry(m, p.name, reg2);
    lemma_contract_addresses_disjoint(p.name, p.version, p.name);
    assert(stored_contract_registries(
        m2.remove(contract_address(p.name, p.version)),
        contract_registry_address(p.name),
    ) == stored_contract_registries(m2, contract_registry_address(p.name)));
}

// ---------------------------------------------------------------------------
// Granting a namespace permission replaces, never duplicates
// ---------------------------------------------------------------------------
/// After granting a permission, the stored registry holds exactly one
/// permission for that contract name: the new one, at most one because the
/// permission names stay pairwise distinct.
pub proof fn lemma_permission_replaced_not_duplicated(
    m: Map<Seq<char>, StoredValueV>,
    p: CreateNamespaceRegistryPermissionActionV,
    signer: Seq<char>,
)
    requires
        spec_create_namespace_registry_permission(m, p, signer) is Ok,
        spec_get_namespace_registry(m, p.namespace) matches Some(reg) && permissions_unique(
            reg,
        ),
        sorted_keyed(
            stored_namespace_registries(m, namespace_registry_address(p.namespace)),
            namespace_registry_keyf(),
        ),
    ensures
        spec_get_namespace_registry(
            spec_create_namespace_registry_permission(m, p, signer)->Ok_0,
            p.namespace,
        ) matches Some(reg2) && permissions_unique(reg2) && exists|i: int|
            0 <= i < reg2.permissions.len() && (#[trigger] reg2.permissions[i]).contract_name
                == p.contract_name,
{
    let reg = spec_get_namespace_registry(m, p.namespace).unwrap();
    let keyf = permission_keyf();
    let rem = remove_keyed(reg.permissions, keyf, p.contract_name);
    let newp = PermissionV { contract_name: p.contract_name, read: p.read, write: p.write };
    let perms2 = rem.push(newp);
    let reg2 = NamespaceRegistryV {
        namespace: reg.namespace,
        owners: reg.owners,
        permissions: perms2,
    };
    lemma_remove_keyed_props(reg.permissions, keyf, p.contract_name);
    assert forall|i: int, j: int| 0 <= i < j < perms2.len() implies (
    #[trigger] perms2[i]).contract_name != (#[trigger] perms2[j]).contract_name by {
        if j < rem.len() {
            assert(keyf(rem[i]) != keyf(rem[j]));
        } else {
            assert(perms2[i] == rem[i]);
            if keyf(rem[i]) == p.contract_name {
                let (a, b) = choose|a: int, b: int|
                    0 <= a < b < reg.permissions.len() && keyf(reg.permissions[a])
                        == p.contract_name && keyf(reg.permissions[b]) == p.contract_name;
                assert(false);
            }
        }
    }
    assert(perms2[perms2.len() - 1].contract_name == p.contract_name);
    crate::keyed::lemma_find_keyed_props(
        stored_namespace_registries(m, namespace_registry_address(p.namespace)),
        namespace_registry_keyf(),
        p.namespace,
    );
    lemma_set_get_namespace_registry(m, p.namespace, reg2);
    let m2 = spec_create_namespace_registry_permission(m, p, signer)->Ok_0;
    assert(spec_get_namespace_registry(m2, p.namespace) == Some(reg2));
    assert(reg2.permissions[reg2.permissions.len() - 1].contract_name == p.contract_name);
}

// ---------------------------------------------------------------------------
// Contract execution demands every declared permission
// ---------------------------------------------------------------------------
/// If some prefix entry fails, the whole input check fails.
proof fn lemma_check_inputs_any(
    m: Map<Seq<char>, StoredValueV>,
    cname: Seq<char>,
    inputs: Seq<Seq<char>>,
    i: int,
)
    requires
        0 <= i < inputs.len(),
        check_input(m, cname, inputs[i]) is Some,
    ensures
        check_inputs(m, cname, inputs) is Some,
    decreases i,
{
    if check_input(m, cname, inputs[0]) is None {
        assert(inputs.drop_first()[i - 1] == inputs[i]);
        lemma_check_inputs_any(m, cname, inputs.drop_first(), i - 1);
    }
}

/// If some prefix entry fails, the whole output check fails.
proof fn lemma_check_outputs_any(
    m: Map<Seq<char>, StoredValueV>,
    cname: Seq<char>,
    outputs: Seq<Seq<char>>,
    i: int,
)
    requires
        0 <= i < outputs.len(),
        check_output(m, cname, outputs[i]) is Some,
    ensures
        check_outputs(m, cname, outputs) is Some,
    decreases i,
{
    if check_output(m, cname, outputs[0]) is None {
        assert(outputs.drop_first()[i - 1] == outputs[i]);
        lemma_check_outputs_any(m, cname, outputs.drop_first(), i - 1);
    }
}

/// A contract execution is rejected whenever any single declared input
/// lacks a namespace registry granting the contract read access.
pub proof fn lemma_execute_needs_read_permission(
    m: Map<Seq<char>, StoredValueV>,
    p: ExecuteContractActionV,
    i: int,
)
    requires
        0 <= i < p.inputs.len(),
        check_input(m, p.name, p.inputs[i]) is Some,
    ensures
        spec_check_execute(m, p) is Err,
{
    if spec_get_contract(m, p.name, p.version) is Some {
        lemma_check_inputs_any(m, p.name, p.inputs, i);
    }
}

/// A contract execution is rejected whenever any single declared output
/// lacks a namespace registry granting the contract write access.
pub proof fn lemma_execute_needs_write_permission(
    m: Map<Seq<char>, StoredValueV>,
    p: ExecuteContractActionV,
    i: int,
)
    requires
        0 <= i < p.outputs.len(),
        check_output(m, p.name, p.outputs[i]) is Some,
    ensures
        spec_check_execute(m, p) is Err,
{
    if spec_get_contract(m, p.name, p.version) is Some {
        lemma_check_outputs_any(m, p.name, p.outputs, i);
    }
}

// ---------------------------------------------------------------------------
// Account updates
// ---------------------------------------------------------------------------
/// An update whose payload omits roles and metadata leaves both untouched:
/// the stored account afterwards carries the old roles and metadata.
pub proof fn lemma_update_account_preserves_omitted(
    m: Map<Seq<char>, StoredValueV>,
    p: UpdateAccountActionV,
    signer: Seq<char>,
)
    requires
        spec_update_account(m, p, signer) is Ok,
        p.roles.len() == 0,
        p.metadata.len() == 0,
        spec_get_account(m, p.public_key) matches Some(a) && a.public_key == p.public_key,
        sorted_keyed(stored_accounts(m, account_address(p.public_key)), account_keyf()),
    ensures
        spec_get_account(spec_update_account(m, p, signer)->Ok_0, p.public_key) matches Some(
            a2,
        ) && a2.roles == spec_get_account(m, p.public_key).unwrap().roles && a2.metadata
            == spec_get_account(m, p.public_key).unwrap().metadata,
{
    let a = spec_get_account(m, p.public_key).unwrap();
    let a2 = AccountV {
        org_id: a.org_id,
        public_key: a.public_key,
        active: p.active,
        roles: a.roles,
        metadata: a.metadata,
    };
    lemma_set_get_account(m, p.public_key, a2);
}

/// Toggling the active flag of one's own account always fails, admin or
/// not: an admin passing every admin check is still rejected.
pub proof fn lemma_no_self_deactivation(
    m: Map<Seq<char>, StoredValueV>,
    p: UpdateAccountActionV,
    signer: Seq<char>,
)
    requires
        p.public_key.len() > 0,
        p.org_id.len() > 0,
        spec_is_admin(m, signer, p.org_id) is None,
        spec_get_account(m, p.public_key) matches Some(a) && p.active != a.active,
        signer == p.public_key,
    ensures
        spec_update_account(m, p, signer) matches Err(msg) && msg
            == "Admin may not deactivate themselves: "@ + signer,
{
}

} // verus!
