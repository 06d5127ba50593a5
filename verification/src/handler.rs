//! The transaction handler: one function per action, each enforcing
//! authorization and mutating the registries through the state accessor.
//!
//! Every function's contract is one equation against a specification
//! function that spells out the action's decision tree: which input is
//! rejected with which message, and what the state becomes on success.

use vstd::prelude::*;
use crate::addressing::{NAMESPACE_REGISTRY_PREFIX, CONTRACT_REGISTRY_PREFIX, CONTRACT_PREFIX};
use crate::error::{ApplyError, ApplyErrorV};
use crate::hashing::{sha512_hex, sha512_hex_of};
use crate::protocol::payload::{
    Action, ActionV, CreateContractAction, CreateContractActionV, DeleteContractAction,
    DeleteContractActionV, ExecuteContractAction, ExecuteContractActionV,
    CreateContractRegistryAction, CreateContractRegistryActionV, DeleteContractRegistryAction,
    DeleteContractRegistryActionV, UpdateContractRegistryOwnersAction,
    UpdateContractRegistryOwnersActionV, CreateNamespaceRegistryAction,
    CreateNamespaceRegistryActionV, DeleteNamespaceRegistryAction, DeleteNamespaceRegistryActionV,
    UpdateNamespaceRegistryOwnersAction, UpdateNamespaceRegistryOwnersActionV,
    CreateNamespaceRegistryPermissionAction, CreateNamespaceRegistryPermissionActionV,
    DeleteNamespaceRegistryPermissionAction, DeleteNamespaceRegistryPermissionActionV,
    CreateSmartPermissionAction, CreateSmartPermissionActionV, UpdateSmartPermissionAction,
    UpdateSmartPermissionActionV, DeleteSmartPermissionAction, DeleteSmartPermissionActionV,
    CreateAccountAction, CreateAccountActionV, UpdateAccountAction, UpdateAccountActionV,
    CreateOrganizationAction, CreateOrganizationActionV, UpdateOrganizationAction,
    UpdateOrganizationActionV,
};
use crate::protocol::state::{
    Contract, ContractV, ContractBuilder, ContractRegistry, ContractRegistryV,
    ContractRegistryBuilder, NamespaceRegistry, NamespaceRegistryV, NamespaceRegistryBuilder,
    Permission, PermissionV, PermissionBuilder, SmartPermissionV, SmartPermissionBuilder,
    Version, VersionV, VersionBuilder, AccountV, AccountBuilder, OrganizationV,
    OrganizationBuilder, KeyValueEntry,
};
use crate::setting::{setting_allows, setting_allows_signer};
use crate::state::{
    SmartState, StoredValueV, spec_get_contract, spec_set_contract, spec_get_contract_registry,
    spec_set_contract_registry, spec_get_namespace_registry, spec_set_namespace_registry,
    spec_get_smart_permission, spec_set_smart_permission, spec_get_account, spec_set_account,
    spec_get_organization, spec_set_organization, spec_admin_setting,
    stored_namespace_registries,
};
use crate::addressing::{contract_address, namespace_registry_address};
use crate::strutil::{str_eq, vec_contains_str};
use crate::ADMINISTRATORS_SETTING_KEY;

verus! {

// ---------------------------------------------------------------------------
// Authorization helpers
// ---------------------------------------------------------------------------
/// The administrators setting exists and every administrators entry lists
/// `signer`.
pub open spec fn admin_gate(m: Map<Seq<char>, StoredValueV>, signer: Seq<char>) -> bool {
    spec_admin_setting(m) matches Some(s) && setting_allows(
        s,
        ADMINISTRATORS_SETTING_KEY@,
        signer,
    )
}

/// Why `signer` may not act as an admin of `org_id`, if anything: the
/// account must exist, belong to `org_id`, carry the `admin` role and be
/// active.
pub open spec fn spec_is_admin(
    m: Map<Seq<char>, StoredValueV>,
    signer: Seq<char>,
    org_id: Seq<char>,
) -> Option<Seq<char>> {
    match spec_get_account(m, signer) {
        None => Some("Signer is not an agent: "@ + signer),
        Some(a) => if a.org_id != org_id {
            Some("Signer is not associated with the organization: "@ + signer)
        } else if !a.roles.contains("admin"@) {
            Some("Signer is not an admin: "@ + signer)
        } else if !a.active {
            Some("Admin is not currently an active agent: "@ + signer)
        } else {
            None
        },
    }
}

/// Checks that `signer` is an active admin account of `org_id`.
pub fn is_admin(signer: &str, org_id: &str, state: &mut SmartState) -> (r: Result<
    (),
    ApplyError,
>)
    requires
        old(state).wf(),
    ensures
        *final(state) == *old(state),
        match r {
            Ok(()) => spec_is_admin(old(state)@, signer@, org_id@) is None,
            Err(e) => spec_is_admin(old(state)@, signer@, org_id@) matches Some(msg) && e@
                == ApplyErrorV::InvalidTransaction(msg),
        },
{
    let admin = match state.get_account(signer) {
        Ok(Some(admin)) => admin,
        Ok(None) => {
            return Err(
                ApplyError::InvalidTransaction(
                    String::from_str("Signer is not an agent: ").concat(signer),
                ),
            );
        },
        Err(err) => {
            return Err(
                ApplyError::InvalidTransaction(
                    String::from_str("Failed to retrieve state: ").concat(
                        err.message().as_str(),
                    ),
                ),
            );
        },
    };
    if !str_eq(admin.get_org_id(), org_id) {
        return Err(
            ApplyError::InvalidTransaction(
                String::from_str("Signer is not associated with the organization: ").concat(
                    signer,
                ),
            ),
        );
    }
    if !vec_contains_str(admin.get_roles(), "admin") {
        return Err(
            ApplyError::InvalidTransaction(
                String::from_str("Signer is not an admin: ").concat(signer),
            ),
        );
    }
    if !*admin.get_active() {
        return Err(
            ApplyError::InvalidTransaction(
                String::from_str("Admin is not currently an active agent: ").concat(signer),
            ),
        );
    }
    Ok(())
}

/// Why `signer` may not mutate the namespace registry, if anything: it
/// must be an owner or a platform admin.
pub open spec fn spec_can_update_namespace_registry(
    m: Map<Seq<char>, StoredValueV>,
    reg: NamespaceRegistryV,
    signer: Seq<char>,
) -> Option<Seq<char>> {
    if reg.owners.contains(signer) {
        None
    } else if admin_gate(m, signer) {
        None
    } else {
        Some("Only owners or admins can update or delete a namespace registry: "@ + signer)
    }
}

/// Checks that `signer` is an owner of the namespace registry or a
/// platform admin.
fn can_update_namespace_registry(
    namespace_registry: &NamespaceRegistry,
    signer: &str,
    state: &mut SmartState,
) -> (r: Result<(), ApplyError>)
    requires
        old(state).wf(),
    ensures
        *final(state) == *old(state),
        match r {
            Ok(()) => spec_can_update_namespace_registry(
                old(state)@,
                namespace_registry@,
                signer@,
            ) is None,
            Err(e) => spec_can_update_namespace_registry(
                old(state)@,
                namespace_registry@,
                signer@,
            ) matches Some(msg) && e@ == ApplyErrorV::InvalidTransaction(msg),
        },
{
    if vec_contains_str(namespace_registry.get_owners(), signer) {
        return Ok(());
    }
    let setting = match state.get_admin_setting() {
        Ok(Some(setting)) => setting,
        Ok(None) => {
            return Err(
                ApplyError::InvalidTransaction(
                    String::from_str(
                        "Only owners or admins can update or delete a namespace registry: ",
                    ).concat(signer),
                ),
            );
        },
        Err(err) => {
            return Err(
                ApplyError::InvalidTransaction(
                    String::from_str("Unable to check state: ").concat(err.message().as_str()),
                ),
            );
        },
    };
    if !setting_allows_signer(&setting, ADMINISTRATORS_SETTING_KEY, signer) {
        return Err(
            ApplyError::InvalidTransaction(
                String::from_str(
                    "Only owners or admins can update or delete a namespace registry: ",
                ).concat(signer),
            ),
        );
    }
    Ok(())
}

/// Why `signer` may not mutate the contract registry, if anything: it must
/// be an owner or a platform admin.
pub open spec fn spec_can_update_contract_registry(
    m: Map<Seq<char>, StoredValueV>,
    reg: ContractRegistryV,
    signer: Seq<char>,
) -> Option<Seq<char>> {
    if reg.owners.contains(signer) {
        None
    } else if admin_gate(m, signer) {
        None
    } else {
        Some("Only owners or admins can update or delete a contract registry: "@ + signer)
    }
}

/// Checks that `signer` is an owner of the contract registry or a platform
/// admin.
fn can_update_contract_registry(
    contract_registry: &ContractRegistry,
    signer: &str,
    state: &mut SmartState,
) -> (r: Result<(), ApplyError>)
    requires
        old(state).wf(),
    ensures
        *final(state) == *old(state),
        match r {
            Ok(()) => spec_can_update_contract_registry(
                old(state)@,
                contract_registry@,
                signer@,
            ) is None,
            Err(e) => spec_can_update_contract_registry(
                old(state)@,
                contract_registry@,
                signer@,
            ) matches Some(msg) && e@ == ApplyErrorV::InvalidTransaction(msg),
        },
{
    if vec_contains_str(contract_registry.get_owners(), signer) {
        return Ok(());
    }
    let setting = match state.get_admin_setting() {
        Ok(Some(setting)) => setting,
        Ok(None) => {
            return Err(
                ApplyError::InvalidTransaction(
                    String::from_str(
                        "Only owners or admins can update or delete a contract registry: ",
                    ).concat(signer),
                ),
            );
        },
        Err(err) => {
            return Err(
                ApplyError::InvalidTransaction(
                    String::from_str("Unable to check state: ").concat(err.message().as_str()),
                ),
            );
        },
    };
    if !setting_allows_signer(&setting, ADMINISTRATORS_SETTING_KEY, signer) {
        return Err(
            ApplyError::InvalidTransaction(
                String::from_str(
                    "Only owners or admins can update or delete a contract registry: ",
                ).concat(signer),
            ),
        );
    }
    Ok(())
}

// ---------------------------------------------------------------------------
// Contract registries
// ---------------------------------------------------------------------------
/// The decision tree of a create-contract-registry action.
pub open spec fn spec_create_contract_registry(
    m: Map<Seq<char>, StoredValueV>,
    p: CreateContractRegistryActionV,
    signer: Seq<char>,
) -> Result<Map<Seq<char>, StoredValueV>, Seq<char>> {
    if spec_get_contract_registry(m, p.name) is Some {
        Err("Contract Registry already exists: "@ + p.name)
    } else if !admin_gate(m, signer) {
        Err("Only admins can create a contract registry: "@ + signer)
    } else if p.owners.len() == 0 {
        Err("Cannot build contract registry"@)
    } else {
        Ok(
            spec_set_contract_registry(
                m,
                p.name,
                ContractRegistryV { name: p.name, versions: Seq::empty(), owners: p.owners },
            ),
        )
    }
}

/// Creates the registry for a contract name.  Only a platform admin may;
/// the registry must not exist yet.
#[verifier::loop_isolation(false)]
pub fn create_contract_registry(
    payload: &CreateContractRegistryAction,
    signer: &str,
    state: &mut SmartState,
) -> (r: Result<(), ApplyError>)
    requires
        old(state).wf(),
    ensures
        final(state).wf(),
        match r {
            Ok(()) => spec_create_contract_registry(old(state)@, payload@, signer@) matches Ok(
                m2,
            ) && final(state)@ == m2,
            Err(e) => spec_create_contract_registry(old(state)@, payload@, signer@) matches Err(
                msg,
            ) && e@ == ApplyErrorV::InvalidTransaction(msg) && final(state)@ == old(state)@,
        },
{
    let name = payload.get_name();
    match state.get_contract_registry(name) {
        Ok(None) => (),
        Ok(Some(_)) => {
            return Err(
                ApplyError::InvalidTransaction(
                    String::from_str("Contract Registry already exists: ").concat(name),
                ),
            );
        },
        Err(err) => {
            return Err(
                ApplyError::InvalidTransaction(
                    String::from_str("Unable to check state: ").concat(err.message().as_str()),
                ),
            );
        },
    };
    let setting = match state.get_admin_setting() {
        Ok(Some(setting)) => setting,
        Ok(None) => {
            return Err(
                ApplyError::InvalidTransaction(
                    String::from_str("Only admins can create a contract registry: ").concat(
                        signer,
                    ),
                ),
            );
        },
        Err(err) => {
            return Err(
                ApplyError::InvalidTransaction(
                    String::from_str("Unable to check state: ").concat(err.message().as_str()),
                ),
            );
        },
    };
    if !setting_allows_signer(&setting, ADMINISTRATORS_SETTING_KEY, signer) {
        return Err(
            ApplyError::InvalidTransaction(
                String::from_str("Only admins can create a contract registry: ").concat(signer),
            ),
        );
    }
    let mut owners: Vec<String> = Vec::new();
    let powners = payload.get_owners();
    let n = powners.len();
    let mut i: usize = 0;
    while i < n
        invariant
            n == powners.deep_view().len(),
            powners.deep_view() == payload@.owners,
            i <= n,
            owners.deep_view() == payload@.owners.take(i as int),
        decreases n - i,
    {
        proof {
            assert(powners.deep_view()[i as int] == powners[i as int]@);
        }
        let ghost before = owners.deep_view();
        owners.push(powners[i].clone());
        proof {
            assert forall|m: int| 0 <= m < owners.deep_view().len() implies owners.deep_view()[m]
                == payload@.owners.take(i + 1)[m] by {
                if m < before.len() {
                    assert(owners.deep_view()[m] == before[m]);
                } else {
                    assert(m == i as int);
                    assert(owners.deep_view()[m] == owners[m]@);
                    assert(payload@.owners.take(i + 1)[m] == payload@.owners[m]);
                }
            }
            assert(owners.deep_view() =~= payload@.owners.take(i + 1));
        }
        i += 1;
    }
    proof {
        assert(owners.deep_view() =~= payload@.owners);
    }
    let contract_registry = match ContractRegistryBuilder::new().set_name(
        String::from_str(name),
    ).set_owners(owners).build() {
        Ok(reg) => reg,
        Err(_) => {
            return Err(
                ApplyError::InvalidTransaction(
                    String::from_str("Cannot build contract registry"),
                ),
            );
        },
    };
    state.set_contract_registry(name, contract_registry)
}


// ---------------------------------------------------------------------------
// Cloning helpers
// ---------------------------------------------------------------------------
/// An exact copy of a string slice's contents.
#[verifier::loop_isolation(false)]
fn clone_string_slice(v: &[String]) -> (r: Vec<String>)
    ensures
        r.deep_view() == v.deep_view(),
{
    let n = v.len();
    let mut r: Vec<String> = Vec::new();
    let mut i: usize = 0;
    while i < n
        invariant
            i <= n,
            r.deep_view() == v.deep_view().take(i as int),
        decreases n - i,
    {
        proof {
            assert(v.deep_view()[i as int] == v[i as int]@);
        }
        let ghost before = r.deep_view();
        r.push(v[i].clone());
        proof {
            assert forall|m: int| 0 <= m < r.deep_view().len() implies r.deep_view()[m]
                == v.deep_view().take(i + 1)[m] by {
                if m < before.len() {
                    assert(r.deep_view()[m] == before[m]);
                } else {
                    assert(r.deep_view()[m] == r[m]@);
                }
            }
            assert(r.deep_view() =~= v.deep_view().take(i + 1));
        }
        i += 1;
    }
    proof {
        assert(r.deep_view() =~= v.deep_view());
    }
    r
}

/// An exact copy of a byte slice's contents.
#[verifier::loop_isolation(false)]
fn clone_bytes(v: &[u8]) -> (r: Vec<u8>)
    ensures
        r@ == v@,
{
    let n = v.len();
    let mut r: Vec<u8> = Vec::new();
    let mut i: usize = 0;
    while i < n
        invariant
            i <= n,
            r@ == v@.take(i as int),
        decreases n - i,
    {
        r.push(v[i]);
        proof {
            assert(r@ =~= v@.take(i + 1));
        }
        i += 1;
    }
    proof {
        assert(r@ =~= v@);
    }
    r
}

/// An exact copy of a metadata slice's contents.
#[verifier::loop_isolation(false)]
fn clone_kv_entries(v: &[KeyValueEntry]) -> (r: Vec<KeyValueEntry>)
    ensures
        r.deep_view() == v.deep_view(),
{
    let n = v.len();
    let mut r: Vec<KeyValueEntry> = Vec::new();
    let mut i: usize = 0;
    while i < n
        invariant
            i <= n,
            r.deep_view() == v.deep_view().take(i as int),
        decreases n - i,
    {
        proof {
            assert(v.deep_view()[i as int] == v[i as int]@);
        }
        let ghost before = r.deep_view();
        r.push(v[i].clone());
        proof {
            assert forall|m: int| 0 <= m < r.deep_view().len() implies r.deep_view()[m]
                == v.deep_view().take(i + 1)[m] by {
                if m < before.len() {
                    assert(r.deep_view()[m] == before[m]);
                } else {
                    assert(r.deep_view()[m] == r[m]@);
                }
            }
            assert(r.deep_view() =~= v.deep_view().take(i + 1));
        }
        i += 1;
    }
    proof {
        assert(r.deep_view() =~= v.deep_view());
    }
    r
}

/// An exact copy of a version slice's contents.
#[verifier::loop_isolation(false)]
fn clone_versions(v: &[Version]) -> (r: Vec<Version>)
    ensures
        r.deep_view() == v.deep_view(),
{
    let n = v.len();
    let mut r: Vec<Version> = Vec::new();
    let mut i: usize = 0;
    while i < n
        invariant
            i <= n,
            r.deep_view() == v.deep_view().take(i as int),
        decreases n - i,
    {
        proof {
            assert(v.deep_view()[i as int] == v[i as int]@);
        }
        let ghost before = r.deep_view();
        r.push(v[i].clone());
        proof {
            assert forall|m: int| 0 <= m < r.deep_view().len() implies r.deep_view()[m]
                == v.deep_view().take(i + 1)[m] by {
                if m < before.len() {
                    assert(r.deep_view()[m] == before[m]);
                } else {
                    assert(r.deep_view()[m] == r[m]@);
                }
            }
            assert(r.deep_view() =~= v.deep_view().take(i + 1));
        }
        i += 1;
    }
    proof {
        assert(r.deep_view() =~= v.deep_view());
    }
    r
}

/// An exact copy of a permission slice's contents.
#[verifier::loop_isolation(false)]
fn clone_permissions(v: &[Permission]) -> (r: Vec<Permission>)
    ensures
        r.deep_view() == v.deep_view(),
{
    let n = v.len();
    let mut r: Vec<Permission> = Vec::new();
    let mut i: usize = 0;
    while i < n
        invariant
            i <= n,
            r.deep_view() == v.deep_view().take(i as int),
        decreases n - i,
    {
        proof {
            assert(v.deep_view()[i as int] == v[i as int]@);
        }
        let ghost before = r.deep_view();
        r.push(v[i].clone());
        proof {
            assert forall|m: int| 0 <= m < r.deep_view().len() implies r.deep_view()[m]
                == v.deep_view().take(i + 1)[m] by {
                if m < before.len() {
                    assert(r.deep_view()[m] == before[m]);
                } else {
                    assert(r.deep_view()[m] == r[m]@);
                }
            }
            assert(r.deep_view() =~= v.deep_view().take(i + 1));
        }
        i += 1;
    }
    proof {
        assert(r.deep_view() =~= v.deep_view());
    }
    r
}

// ---------------------------------------------------------------------------
// Facts about stored registries
// ---------------------------------------------------------------------------
/// A stored contract registry carries its own key and has owners.
pub proof fn lemma_stored_contract_registry_wf(s: &SmartState, name: Seq<char>)
    requires
        s.wf(),
        spec_get_contract_registry(s@, name) is Some,
    ensures
        spec_get_contract_registry(s@, name).unwrap().name == name,
        spec_get_contract_registry(s@, name).unwrap().owners.len() > 0,
{
    s.lemma_wf_map();
    let addr = crate::addressing::contract_registry_address(name);
    let l = crate::state::stored_contract_registries(s@, addr);
    crate::keyed::lemma_find_keyed_props(l, crate::state::contract_registry_keyf(), name);
    let reg = spec_get_contract_registry(s@, name).unwrap();
    assert(l.contains(reg));
    let i = choose|i: int| 0 <= i < l.len() && l[i] == reg;
    assert(s@.contains_key(addr));
}

/// A stored namespace registry carries its own key, has owners, and keeps
/// at most one permission per contract.
pub proof fn lemma_stored_namespace_registry_wf(s: &SmartState, ns: Seq<char>)
    requires
        s.wf(),
        spec_get_namespace_registry(s@, ns) is Some,
    ensures
        spec_get_namespace_registry(s@, ns).unwrap().namespace == ns,
        spec_get_namespace_registry(s@, ns).unwrap().owners.len() > 0,
        crate::state::permissions_unique(spec_get_namespace_registry(s@, ns).unwrap()),
{
    s.lemma_wf_map();
    let addr = namespace_registry_address(ns);
    let l = stored_namespace_registries(s@, addr);
    crate::keyed::lemma_find_keyed_props(l, crate::state::namespace_registry_keyf(), ns);
    let reg = spec_get_namespace_registry(s@, ns).unwrap();
    assert(l.contains(reg));
    let i = choose|i: int| 0 <= i < l.len() && l[i] == reg;
    assert(s@.contains_key(addr));
}

/// A found contract registry means its address is occupied.
pub proof fn lemma_contract_registry_present(s: &SmartState, name: Seq<char>)
    requires
        spec_get_contract_registry(s@, name) is Some,
    ensures
        s@.contains_key(crate::addressing::contract_registry_address(name)),
{
    let addr = crate::addressing::contract_registry_address(name);
    if !s@.contains_key(addr) {
        assert(crate::state::stored_contract_registries(s@, addr) =~= Seq::<
            ContractRegistryV,
        >::empty());
    }
}

/// A found namespace registry means its address is occupied.
pub proof fn lemma_namespace_registry_present(s: &SmartState, ns: Seq<char>)
    requires
        spec_get_namespace_registry(s@, ns) is Some,
    ensures
        s@.contains_key(namespace_registry_address(ns)),
{
    let addr = namespace_registry_address(ns);
    if !s@.contains_key(addr) {
        assert(stored_namespace_registries(s@, addr) =~= Seq::<NamespaceRegistryV>::empty());
    }
}

// ---------------------------------------------------------------------------
// Namespace registries
// ---------------------------------------------------------------------------
/// The decision tree of a create-namespace-registry action.
pub open spec fn spec_create_namespace_registry(
    m: Map<Seq<char>, StoredValueV>,
    p: CreateNamespaceRegistryActionV,
    signer: Seq<char>,
) -> Result<Map<Seq<char>, StoredValueV>, Seq<char>> {
    if p.namespace.len() < 6 {
        Err("Namespace must be at least 6 characters: "@ + p.namespace)
    } else if spec_get_namespace_registry(m, p.namespace) is Some {
        Err("Namespace Registry already exists: "@ + p.namespace)
    } else if !admin_gate(m, signer) {
        Err("Only admins can create a namespace registry: "@ + signer)
    } else if p.owners.len() == 0 {
        Err("Cannot build namespace registry"@)
    } else {
        Ok(
            spec_set_namespace_registry(
                m,
                p.namespace,
                NamespaceRegistryV {
                    namespace: p.namespace,
                    owners: p.owners,
                    permissions: Seq::empty(),
                },
            ),
        )
    }
}

/// Creates the registry for a namespace.  Only a platform admin may; the
/// namespace needs at least six characters and must not be registered yet.
pub fn create_namespace_registry(
    payload: &CreateNamespaceRegistryAction,
    signer: &str,
    state: &mut SmartState,
) -> (r: Result<(), ApplyError>)
    requires
        old(state).wf(),
    ensures
        final(state).wf(),
        match r {
            Ok(()) => spec_create_namespace_registry(old(state)@, payload@, signer@) matches Ok(
                m2,
            ) && final(state)@ == m2,
            Err(e) => spec_create_namespace_registry(old(state)@, payload@, signer@) matches Err(
                msg,
            ) && e@ == ApplyErrorV::InvalidTransaction(msg) && final(state)@ == old(state)@,
        },
{
    let namespace = payload.get_namespace();
    if namespace.unicode_len() < 6 {
        return Err(
            ApplyError::InvalidTransaction(
                String::from_str("Namespace must be at least 6 characters: ").concat(namespace),
            ),
        );
    }
    match state.get_namespace_registry(namespace) {
        Ok(None) => (),
        Ok(Some(_)) => {
            return Err(
                ApplyError::InvalidTransaction(
                    String::from_str("Namespace Registry already exists: ").concat(namespace),
                ),
            );
        },
        Err(err) => {
            return Err(
                ApplyError::InvalidTransaction(
                    String::from_str("Unable to check state: ").concat(err.message().as_str()),
                ),
            );
        },
    }
    let setting = match state.get_admin_setting() {
        Ok(Some(setting)) => setting,
        Ok(None) => {
            return Err(
                ApplyError::InvalidTransaction(
                    String::from_str("Only admins can create a namespace registry: ").concat(
                        signer,
                    ),
                ),
            );
        },
        Err(err) => {
            return Err(
                ApplyError::InvalidTransaction(
                    String::from_str("Unable to check state: ").concat(err.message().as_str()),
                ),
            );
        },
    };
    if !setting_allows_signer(&setting, ADMINISTRATORS_SETTING_KEY, signer) {
        return Err(
            ApplyError::InvalidTransaction(
                String::from_str("Only admins can create a namespace registry: ").concat(
                    signer,
                ),
            ),
        );
    }
    let owners = clone_string_slice(payload.get_owners());
    let namespace_registry = match NamespaceRegistryBuilder::new().set_namespace(
        String::from_str(namespace),
    ).set_owners(owners).build() {
        Ok(reg) => reg,
        Err(_) => {
            return Err(
                ApplyError::InvalidTransaction(
                    String::from_str("Cannot build namespace registry"),
                ),
            );
        },
    };
    proof {
        assert(namespace_registry@.permissions =~= Seq::<PermissionV>::empty());
    }
    state.set_namespace_registry(namespace, namespace_registry)
}

/// The decision tree of a delete-contract-registry action.
pub open spec fn spec_delete_contract_registry(
    m: Map<Seq<char>, StoredValueV>,
    p: DeleteContractRegistryActionV,
    signer: Seq<char>,
) -> Result<Map<Seq<char>, StoredValueV>, Seq<char>> {
    match spec_get_contract_registry(m, p.name) {
        None => Err("Contract Registry does not exist: "@ + p.name),
        Some(reg) => if reg.versions.len() != 0 {
            Err("Contract Registry can only be deleted if there are no versions: "@ + p.name)
        } else {
            match spec_can_update_contract_registry(m, reg, signer) {
                Some(msg) => Err(msg),
                None => Ok(m.remove(crate::addressing::contract_registry_address(p.name))),
            }
        },
    }
}

/// Deletes the registry of a contract name.  Only an owner or a platform
/// admin may, and only when the registry lists no versions.
pub fn delete_contract_registry(
    payload: &DeleteContractRegistryAction,
    signer: &str,
    state: &mut SmartState,
) -> (r: Result<(), ApplyError>)
    requires
        old(state).wf(),
    ensures
        final(state).wf(),
        match r {
            Ok(()) => spec_delete_contract_registry(old(state)@, payload@, signer@) matches Ok(
                m2,
            ) && final(state)@ == m2,
            Err(e) => spec_delete_contract_registry(old(state)@, payload@, signer@) matches Err(
                msg,
            ) && e@ == ApplyErrorV::InvalidTransaction(msg) && final(state)@ == old(state)@,
        },
{
    let name = payload.get_name();
    let contract_registry = match state.get_contract_registry(name) {
        Ok(None) => {
            return Err(
                ApplyError::InvalidTransaction(
                    String::from_str("Contract Registry does not exist: ").concat(name),
                ),
            );
        },
        Ok(Some(contract_registry)) => contract_registry,
        Err(err) => {
            return Err(
                ApplyError::InvalidTransaction(
                    String::from_str("Unable to check state: ").concat(err.message().as_str()),
                ),
            );
        },
    };
    if !contract_registry.get_versions().is_empty() {
        return Err(
            ApplyError::InvalidTransaction(
                String::from_str(
                    "Contract Registry can only be deleted if there are no versions: ",
                ).concat(name),
            ),
        );
    }
    can_update_contract_registry(&contract_registry, signer, state)?;
    proof {
        lemma_contract_registry_present(state, name@);
    }
    state.delete_contract_registry(name)
}

/// The decision tree of an update-contract-registry-owners action.
pub open spec fn spec_update_contract_registry_owners(
    m: Map<Seq<char>, StoredValueV>,
    p: UpdateContractRegistryOwnersActionV,
    signer: Seq<char>,
) -> Result<Map<Seq<char>, StoredValueV>, Seq<char>> {
    match spec_get_contract_registry(m, p.name) {
        None => Err("Contract Registry does not exist: "@ + p.name),
        Some(reg) => match spec_can_update_contract_registry(m, reg, signer) {
            Some(msg) => Err(msg),
            None => if p.owners.len() == 0 {
                Err("Cannot build contract registry"@)
            } else {
                Ok(
                    spec_set_contract_registry(
                        m,
                        p.name,
                        ContractRegistryV {
                            name: reg.name,
                            versions: reg.versions,
                            owners: p.owners,
                        },
                    ),
                )
            },
        },
    }
}

/// Replaces a contract registry's owners wholesale.  Only an owner or a
/// platform admin may.
pub fn update_contract_registry_owners(
    payload: &UpdateContractRegistryOwnersAction,
    signer: &str,
    state: &mut SmartState,
) -> (r: Result<(), ApplyError>)
    requires
        old(state).wf(),
    ensures
        final(state).wf(),
        match r {
            Ok(()) => spec_update_contract_registry_owners(old(state)@, payload@, signer@)
                matches Ok(m2) && final(state)@ == m2,
            Err(e) => spec_update_contract_registry_owners(old(state)@, payload@, signer@)
                matches Err(msg) && e@ == ApplyErrorV::InvalidTransaction(msg) && final(state)@
                == old(state)@,
        },
{
    let name = payload.get_name();
    let contract_registry = match state.get_contract_registry(name) {
        Ok(None) => {
            return Err(
                ApplyError::InvalidTransaction(
                    String::from_str("Contract Registry does not exist: ").concat(name),
                ),
            );
        },
        Ok(Some(contract_registry)) => contract_registry,
        Err(err) => {
            return Err(
                ApplyError::InvalidTransaction(
                    String::from_str("Unable to check state: ").concat(err.message().as_str()),
                ),
            );
        },
    };
    can_update_contract_registry(&contract_registry, signer, state)?;
    proof {
        lemma_stored_contract_registry_wf(state, name@);
    }
    let owners = clone_string_slice(payload.get_owners());
    let contract_registry = match contract_registry.into_builder().set_owners(owners).build() {
        Ok(reg) => reg,
        Err(_) => {
            return Err(
                ApplyError::InvalidTransaction(
                    String::from_str("Cannot build contract registry"),
                ),
            );
        },
    };
    state.set_contract_registry(name, contract_registry)
}

/// The decision tree of a delete-namespace-registry action.
pub open spec fn spec_delete_namespace_registry(
    m: Map<Seq<char>, StoredValueV>,
    p: DeleteNamespaceRegistryActionV,
    signer: Seq<char>,
) -> Result<Map<Seq<char>, StoredValueV>, Seq<char>> {
    if p.namespace.len() < 6 {
        Err(
            "Unable to check state: Namespace must be at least 6 characters long: "@
                + p.namespace,
        )
    } else {
        match spec_get_namespace_registry(m, p.namespace) {
            None => Err("Namespace Registry does not exist: "@ + p.namespace),
            Some(reg) => match spec_can_update_namespace_registry(m, reg, signer) {
                Some(msg) => Err(msg),
                None => if reg.permissions.len() != 0 {
                    Err(
                        "Namespace Registry can only be deleted if there are no permissions: "@
                            + p.namespace,
                    )
                } else {
                    Ok(m.remove(namespace_registry_address(p.namespace)))
                },
            },
        }
    }
}

/// Deletes the registry of a namespace.  Only an owner or a platform admin
/// may, and only when the registry grants no permissions.
pub fn delete_namespace_registry(
    payload: &DeleteNamespaceRegistryAction,
    signer: &str,
    state: &mut SmartState,
) -> (r: Result<(), ApplyError>)
    requires
        old(state).wf(),
    ensures
        final(state).wf(),
        match r {
            Ok(()) => spec_delete_namespace_registry(old(state)@, payload@, signer@) matches Ok(
                m2,
            ) && final(state)@ == m2,
            Err(e) => spec_delete_namespace_registry(old(state)@, payload@, signer@) matches Err(
                msg,
            ) && e@ == ApplyErrorV::InvalidTransaction(msg) && final(state)@ == old(state)@,
        },
{
    let namespace = payload.get_namespace();
    let namespace_registry = match state.get_namespace_registry(namespace) {
        Ok(None) => {
            return Err(
                ApplyError::InvalidTransaction(
                    String::from_str("Namespace Registry does not exist: ").concat(namespace),
                ),
            );
        },
        Ok(Some(namespace_registry)) => namespace_registry,
        Err(err) => {
            proof {
                reveal_strlit("Unable to check state: ");
                reveal_strlit("Namespace must be at least 6 characters long: ");
                reveal_strlit(
                    "Unable to check state: Namespace must be at least 6 characters long: ",
                );
                assert("Unable to check state: "@ + (
                "Namespace must be at least 6 characters long: "@ + namespace@) =~= (
                "Unable to check state: Namespace must be at least 6 characters long: "@
                    + namespace@));
            }
            return Err(
                ApplyError::InvalidTransaction(
                    String::from_str("Unable to check state: ").concat(err.message().as_str()),
                ),
            );
        },
    };
    can_update_namespace_registry(&namespace_registry, signer, state)?;
    if !namespace_registry.get_permissions().is_empty() {
        return Err(
            ApplyError::InvalidTransaction(
                String::from_str(
                    "Namespace Registry can only be deleted if there are no permissions: ",
                ).concat(namespace),
            ),
        );
    }
    proof {
        lemma_namespace_registry_present(state, namespace@);
    }
    state.delete_namespace_registry(namespace)
}

/// The decision tree of an update-namespace-registry-owners action.
pub open spec fn spec_update_namespace_registry_owners(
    m: Map<Seq<char>, StoredValueV>,
    p: UpdateNamespaceRegistryOwnersActionV,
    signer: Seq<char>,
) -> Result<Map<Seq<char>, StoredValueV>, Seq<char>> {
    if p.namespace.len() < 6 {
        Err(
            "Unable to check state: Namespace must be at least 6 characters long: "@
                + p.namespace,
        )
    } else {
        match spec_get_namespace_registry(m, p.namespace) {
            None => Err("Namespace Registry does not exist: "@ + p.namespace),
            Some(reg) => match spec_can_update_namespace_registry(m, reg, signer) {
                Some(msg) => Err(msg),
                None => if p.owners.len() == 0 {
                    Err("Cannot build namespace registry"@)
                } else {
                    Ok(
                        spec_set_namespace_registry(
                            m,
                            p.namespace,
                            NamespaceRegistryV {
                                namespace: reg.namespace,
                                owners: p.owners,
                                permissions: reg.permissions,
                            },
                        ),
                    )
                },
            },
        }
    }
}

/// Replaces a namespace registry's owners wholesale.  Only an owner or a
/// platform admin may.
pub fn update_namespace_registry_owners(
    payload: &UpdateNamespaceRegistryOwnersAction,
    signer: &str,
    state: &mut SmartState,
) -> (r: Result<(), ApplyError>)
    requires
        old(state).wf(),
    ensures
        final(state).wf(),
        match r {
            Ok(()) => spec_update_namespace_registry_owners(old(state)@, payload@, signer@)
                matches Ok(m2) && final(state)@ == m2,
            Err(e) => spec_update_namespace_registry_owners(old(state)@, payload@, signer@)
                matches Err(msg) && e@ == ApplyErrorV::InvalidTransaction(msg) && final(state)@
                == old(state)@,
        },
{
    let namespace = payload.get_namespace();
    let namespace_registry = match state.get_namespace_registry(namespace) {
        Ok(None) => {
            return Err(
                ApplyError::InvalidTransaction(
                    String::from_str("Namespace Registry does not exist: ").concat(namespace),
                ),
            );
        },
        Ok(Some(namespace_registry)) => namespace_registry,
        Err(err) => {
            proof {
                reveal_strlit("Unable to check state: ");
                reveal_strlit("Namespace must be at least 6 characters long: ");
                reveal_strlit(
                    "Unable to check state: Namespace must be at least 6 characters long: ",
                );
                assert("Unable to check state: "@ + (
                "Namespace must be at least 6 characters long: "@ + namespace@) =~= (
                "Unable to check state: Namespace must be at least 6 characters long: "@
                    + namespace@));
            }
            return Err(
                ApplyError::InvalidTransaction(
                    String::from_str("Unable to check state: ").concat(err.message().as_str()),
                ),
            );
        },
    };
    can_update_namespace_registry(&namespace_registry, signer, state)?;
    proof {
        lemma_stored_namespace_registry_wf(state, namespace@);
    }
    let owners = clone_string_slice(payload.get_owners());
    let namespace_registry = match namespace_registry.into_builder().set_owners(
        owners,
    ).build() {
        Ok(reg) => reg,
        Err(_) => {
            return Err(
                ApplyError::InvalidTransaction(
                    String::from_str("Cannot build namespace registry"),
                ),
            );
        },
    };
    state.set_namespace_registry(namespace, namespace_registry)
}


// ---------------------------------------------------------------------------
// Namespace registry permissions
// ---------------------------------------------------------------------------
/// The decision tree of a create-namespace-registry-permission action: a
/// new permission replaces any previous permission of the same contract.
pub open spec fn spec_create_namespace_registry_permission(
    m: Map<Seq<char>, StoredValueV>,
    p: CreateNamespaceRegistryPermissionActionV,
    signer: Seq<char>,
) -> Result<Map<Seq<char>, StoredValueV>, Seq<char>> {
    if p.namespace.len() < 6 {
        Err(
            "Unable to check state: Namespace must be at least 6 characters long: "@
                + p.namespace,
        )
    } else {
        match spec_get_namespace_registry(m, p.namespace) {
            None => Err("Namespace Registry does not exist: "@ + p.namespace),
            Some(reg) => match spec_can_update_namespace_registry(m, reg, signer) {
                Some(msg) => Err(msg),
                None => Ok(
                    spec_set_namespace_registry(
                        m,
                        p.namespace,
                        NamespaceRegistryV {
                            namespace: reg.namespace,
                            owners: reg.owners,
                            permissions: crate::keyed::remove_keyed(
                                reg.permissions,
                                crate::state::permission_keyf(),
                                p.contract_name,
                            ).push(
                                PermissionV {
                                    contract_name: p.contract_name,
                                    read: p.read,
                                    write: p.write,
                                },
                            ),
                        },
                    ),
                ),
            },
        }
    }
}

/// Grants a contract permission over a namespace, replacing any previous
/// permission of the same contract.  Only an owner or a platform admin may.
#[verifier::loop_isolation(false)]
pub fn create_namespace_registry_permission(
    payload: &CreateNamespaceRegistryPermissionAction,
    signer: &str,
    state: &mut SmartState,
) -> (r: Result<(), ApplyError>)
    requires
        old(state).wf(),
    ensures
        final(state).wf(),
        match r {
            Ok(()) => spec_create_namespace_registry_permission(old(state)@, payload@, signer@)
                matches Ok(m2) && final(state)@ == m2,
            Err(e) => spec_create_namespace_registry_permission(old(state)@, payload@, signer@)
                matches Err(msg) && e@ == ApplyErrorV::InvalidTransaction(msg) && final(state)@
                == old(state)@,
        },
{
    let namespace = payload.get_namespace();
    let contract_name = payload.get_contract_name();
    let namespace_registry = match state.get_namespace_registry(namespace) {
        Ok(None) => {
            return Err(
                ApplyError::InvalidTransaction(
                    String::from_str("Namespace Registry does not exist: ").concat(namespace),
                ),
            );
        },
        Ok(Some(namespace_registry)) => namespace_registry,
        Err(err) => {
            proof {
                reveal_strlit("Unable to check state: ");
                reveal_strlit("Namespace must be at least 6 characters long: ");
                reveal_strlit(
                    "Unable to check state: Namespace must be at least 6 characters long: ",
                );
                assert("Unable to check state: "@ + (
                "Namespace must be at least 6 characters long: "@ + namespace@) =~= (
                "Unable to check state: Namespace must be at least 6 characters long: "@
                    + namespace@));
            }
            return Err(
                ApplyError::InvalidTransaction(
                    String::from_str("Unable to check state: ").concat(err.message().as_str()),
                ),
            );
        },
    };
    can_update_namespace_registry(&namespace_registry, signer, state)?;
    proof {
        lemma_stored_namespace_registry_wf(state, namespace@);
    }
    let new_permission = match PermissionBuilder::new().set_contract_name(
        String::from_str(contract_name),
    ).set_read(payload.get_read()).set_write(payload.get_write()).build() {
        Ok(perm) => perm,
        Err(_) => {
            return Err(
                ApplyError::InvalidTransaction(
                    String::from_str("Cannot build namespace registry permission"),
                ),
            );
        },
    };
    let ghost regv = namespace_registry@;
    let perms = namespace_registry.get_permissions();
    let n = perms.len();
    let mut index: Option<usize> = None;
    let mut count: usize = 0;
    while count < n
        invariant
            count <= n,
            match index {
                Some(x) => x < count && perms.deep_view()[x as int].contract_name
                    == contract_name@ && (forall|j: int|
                    0 <= j < x ==> (#[trigger] perms.deep_view()[j]).contract_name
                        != contract_name@),
                None => forall|j: int|
                    0 <= j < count ==> (#[trigger] perms.deep_view()[j]).contract_name
                        != contract_name@,
            },
        decreases n - count,
    {
        if index.is_none() {
            proof {
                assert(perms.deep_view()[count as int] == perms[count as int]@);
            }
            if str_eq(perms[count].get_contract_name().as_str(), contract_name) {
                index = Some(count);
            }
        }
        count += 1;
    }
    let mut permissions = clone_permissions(perms);
    match index {
        Some(x) => {
            permissions.remove(x);
            proof {
                crate::keyed::lemma_remove_keyed_at(
                    regv.permissions,
                    crate::state::permission_keyf(),
                    contract_name@,
                    x as int,
                );
            }
        },
        None => {
            proof {
                crate::keyed::lemma_remove_keyed_absent(
                    regv.permissions,
                    crate::state::permission_keyf(),
                    contract_name@,
                );
            }
        },
    }
    let ghost removed = permissions.deep_view();
    permissions.push(new_permission);
    proof {
        assert forall|m: int| 0 <= m < permissions.deep_view().len() implies
            permissions.deep_view()[m] == removed.push(
            PermissionV { contract_name: contract_name@, read: payload@.read, write: payload@.write },
        )[m] by {
            if m < removed.len() {
                assert(permissions.deep_view()[m] == removed[m]);
            } else {
                assert(permissions.deep_view()[m] == permissions[m]@);
            }
        }
        assert(permissions.deep_view() =~= removed.push(
            PermissionV { contract_name: contract_name@, read: payload@.read, write: payload@.write },
        ));
        crate::keyed::lemma_remove_keyed_props(
            regv.permissions,
            crate::state::permission_keyf(),
            contract_name@,
        );
    }
    let namespace_registry = match namespace_registry.into_builder().set_permissions(
        permissions,
    ).build() {
        Ok(reg) => reg,
        Err(_) => {
            return Err(
                ApplyError::InvalidTransaction(
                    String::from_str("Cannot build namespace registry"),
                ),
            );
        },
    };
    proof {
        let keyf = crate::state::permission_keyf();
        let rem = crate::keyed::remove_keyed(regv.permissions, keyf, contract_name@);
        let perms2 = namespace_registry@.permissions;
        assert(perms2 == rem.push(
            PermissionV {
                contract_name: contract_name@,
                read: payload@.read,
                write: payload@.write,
            },
        ));
        assert forall|i: int, j: int| 0 <= i < j < perms2.len() implies (
        #[trigger] perms2[i]).contract_name != (#[trigger] perms2[j]).contract_name by {
            if j < rem.len() {
                assert(keyf(rem[i]) != keyf(rem[j]));
            } else {
                assert(perms2[i] == rem[i]);
                if keyf(rem[i]) == contract_name@ {
                    let (a, b) = choose|a: int, b: int|
                        0 <= a < b < regv.permissions.len() && keyf(regv.permissions[a])
                            == contract_name@ && keyf(regv.permissions[b]) == contract_name@;
                    assert(crate::state::permissions_unique(regv));
                    assert(false);
                }
            }
        }
        assert(crate::state::permissions_unique(namespace_registry@));
    }
    state.set_namespace_registry(namespace, namespace_registry)
}

/// The decision tree of a delete-namespace-registry-permission action.
pub open spec fn spec_delete_namespace_registry_permission(
    m: Map<Seq<char>, StoredValueV>,
    p: DeleteNamespaceRegistryPermissionActionV,
    signer: Seq<char>,
) -> Result<Map<Seq<char>, StoredValueV>, Seq<char>> {
    if p.namespace.len() < 6 {
        Err(
            "Unable to check state: Namespace must be at least 6 characters long: "@
                + p.namespace,
        )
    } else {
        match spec_get_namespace_registry(m, p.namespace) {
            None => Err("Namespace Registry does not exist: "@ + p.namespace),
            Some(reg) => match spec_can_update_namespace_registry(m, reg, signer) {
                Some(msg) => Err(msg),
                None => if crate::keyed::find_keyed(
                    reg.permissions,
                    crate::state::permission_keyf(),
                    p.contract_name,
                ) is None {
                    Err("Namespace Registry does not have a permission for : "@ + p.contract_name)
                } else {
                    Ok(
                        spec_set_namespace_registry(
                            m,
                            p.namespace,
                            NamespaceRegistryV {
                                namespace: reg.namespace,
                                owners: reg.owners,
                                permissions: crate::keyed::remove_keyed(
                                    reg.permissions,
                                    crate::state::permission_keyf(),
                                    p.contract_name,
                                ),
                            },
                        ),
                    )
                },
            },
        }
    }
}

/// Withdraws a contract's permission over a namespace.  Only an owner or a
/// platform admin may; the permission must exist.
#[verifier::loop_isolation(false)]
pub fn delete_namespace_registry_permission(
    payload: &DeleteNamespaceRegistryPermissionAction,
    signer: &str,
    state: &mut SmartState,
) -> (r: Result<(), ApplyError>)
    requires
        old(state).wf(),
    ensures
        final(state).wf(),
        match r {
            Ok(()) => spec_delete_namespace_registry_permission(old(state)@, payload@, signer@)
                matches Ok(m2) && final(state)@ == m2,
            Err(e) => spec_delete_namespace_registry_permission(old(state)@, payload@, signer@)
                matches Err(msg) && e@ == ApplyErrorV::InvalidTransaction(msg) && final(state)@
                == old(state)@,
        },
{
    let namespace = payload.get_namespace();
    let contract_name = payload.get_contract_name();
    let namespace_registry = match state.get_namespace_registry(namespace) {
        Ok(None) => {
            return Err(
                ApplyError::InvalidTransaction(
                    String::from_str("Namespace Registry does not exist: ").concat(namespace),
                ),
            );
        },
        Ok(Some(namespace_registry)) => namespace_registry,
        Err(err) => {
            proof {
                reveal_strlit("Unable to check state: ");
                reveal_strlit("Namespace must be at least 6 characters long: ");
                reveal_strlit(
                    "Unable to check state: Namespace must be at least 6 characters long: ",
                );
                assert("Unable to check state: "@ + (
                "Namespace must be at least 6 characters long: "@ + namespace@) =~= (
                "Unable to check state: Namespace must be at least 6 characters long: "@
                    + namespace@));
            }
            return Err(
                ApplyError::InvalidTransaction(
                    String::from_str("Unable to check state: ").concat(err.message().as_str()),
                ),
            );
        },
    };
    can_update_namespace_registry(&namespace_registry, signer, state)?;
    proof {
        lemma_stored_namespace_registry_wf(state, namespace@);
    }
    let ghost regv = namespace_registry@;
    let perms = namespace_registry.get_permissions();
    let n = perms.len();
    let mut index: Option<usize> = None;
    let mut count: usize = 0;
    while count < n
        invariant
            count <= n,
            match index {
                Some(x) => x < count && perms.deep_view()[x as int].contract_name
                    == contract_name@ && (forall|j: int|
                    0 <= j < x ==> (#[trigger] perms.deep_view()[j]).contract_name
                        != contract_name@),
                None => forall|j: int|
                    0 <= j < count ==> (#[trigger] perms.deep_view()[j]).contract_name
                        != contract_name@,
            },
        decreases n - count,
    {
        if index.is_none() {
            proof {
                assert(perms.deep_view()[count as int] == perms[count as int]@);
            }
            if str_eq(perms[count].get_contract_name().as_str(), contract_name) {
                index = Some(count);
            }
        }
        count += 1;
    }
    let mut permissions = clone_permissions(perms);
    match index {
        Some(x) => {
            permissions.remove(x);
            proof {
                crate::keyed::lemma_remove_keyed_at(
                    regv.permissions,
                    crate::state::permission_keyf(),
                    contract_name@,
                    x as int,
                );
                crate::keyed::lemma_find_keyed_skip(
                    regv.permissions,
                    crate::state::permission_keyf(),
                    contract_name@,
                    x as int,
                );
                assert(regv.permissions.skip(x as int)[0] == regv.permissions[x as int]);
                assert(regv.permissions.skip(x as int).len() > 0);
            }
        },
        None => {
            proof {
                crate::keyed::lemma_find_keyed_props(
                    regv.permissions,
                    crate::state::permission_keyf(),
                    contract_name@,
                );
            }
            return Err(
                ApplyError::InvalidTransaction(
                    String::from_str("Namespace Registry does not have a permission for : ")
                        .concat(contract_name),
                ),
            );
        },
    };
    proof {
        crate::keyed::lemma_remove_keyed_props(
            regv.permissions,
            crate::state::permission_keyf(),
            contract_name@,
        );
    }
    let namespace_registry = match namespace_registry.into_builder().set_permissions(
        permissions,
    ).build() {
        Ok(reg) => reg,
        Err(_) => {
            return Err(
                ApplyError::InvalidTransaction(
                    String::from_str("Cannot build namespace registry"),
                ),
            );
        },
    };
    proof {
        let keyf = crate::state::permission_keyf();
        let rem = crate::keyed::remove_keyed(regv.permissions, keyf, contract_name@);
        assert(namespace_registry@.permissions == rem);
        assert forall|i: int, j: int| 0 <= i < j < rem.len() implies (
        #[trigger] rem[i]).contract_name != (#[trigger] rem[j]).contract_name by {
            assert(keyf(rem[i]) != keyf(rem[j]));
        }
        assert(crate::state::permissions_unique(namespace_registry@));
    }
    state.set_namespace_registry(namespace, namespace_registry)
}

// ---------------------------------------------------------------------------
// Smart permissions
// ---------------------------------------------------------------------------
/// The decision tree of a create-smart-permission action.
pub open spec fn spec_create_smart_permission(
    m: Map<Seq<char>, StoredValueV>,
    p: CreateSmartPermissionActionV,
    signer: Seq<char>,
) -> Result<Map<Seq<char>, StoredValueV>, Seq<char>> {
    match spec_is_admin(m, signer, p.org_id) {
        Some(msg) => Err(msg),
        None => if spec_get_smart_permission(m, p.org_id, p.name) is Some {
            Err("Smart Permission already exists: "@ + p.name + " "@)
        } else if spec_get_organization(m, p.org_id) is None {
            Err("Organization does not exist exists: "@ + p.org_id)
        } else if p.function.len() == 0 {
            Err("Cannot build smart permission"@)
        } else {
            Ok(
                spec_set_smart_permission(
                    m,
                    p.org_id,
                    p.name,
                    SmartPermissionV { name: p.name, org_id: p.org_id, function: p.function },
                ),
            )
        },
    }
}

/// Stores a smart permission.  Only an active admin of the organization
/// may; the organization must exist and the permission must not.
pub fn create_smart_permission(
    payload: &CreateSmartPermissionAction,
    signer: &str,
    state: &mut SmartState,
) -> (r: Result<(), ApplyError>)
    requires
        old(state).wf(),
    ensures
        final(state).wf(),
        match r {
            Ok(()) => spec_create_smart_permission(old(state)@, payload@, signer@) matches Ok(
                m2,
            ) && final(state)@ == m2,
            Err(e) => spec_create_smart_permission(old(state)@, payload@, signer@) matches Err(
                msg,
            ) && e@ == ApplyErrorV::InvalidTransaction(msg) && final(state)@ == old(state)@,
        },
{
    is_admin(signer, payload.get_org_id(), state)?;
    match state.get_smart_permission(payload.get_org_id(), payload.get_name()) {
        Ok(None) => (),
        Ok(Some(_)) => {
            return Err(
                ApplyError::InvalidTransaction(
                    String::from_str("Smart Permission already exists: ").concat(
                        payload.get_name(),
                    ).concat(" "),
                ),
            );
        },
        Err(err) => {
            return Err(
                ApplyError::InvalidTransaction(
                    String::from_str("Failed to retrieve state: ").concat(
                        err.message().as_str(),
                    ),
                ),
            );
        },
    };
    match state.get_organization(payload.get_org_id()) {
        Ok(None) => {
            return Err(
                ApplyError::InvalidTransaction(
                    String::from_str("Organization does not exist exists: ").concat(
                        payload.get_org_id(),
                    ),
                ),
            );
        },
        Ok(Some(_)) => (),
        Err(err) => {
            return Err(
                ApplyError::InvalidTransaction(
                    String::from_str("Failed to retrieve state: ").concat(
                        err.message().as_str(),
                    ),
                ),
            );
        },
    };
    let function = clone_bytes(payload.get_function());
    let smart_permission = match SmartPermissionBuilder::new().set_name(
        String::from_str(payload.get_name()),
    ).set_org_id(String::from_str(payload.get_org_id())).set_function(function).build() {
        Ok(sp) => sp,
        Err(_) => {
            return Err(
                ApplyError::InvalidTransaction(
                    String::from_str("Cannot build smart permission"),
                ),
            );
        },
    };
    state.set_smart_permission(payload.get_org_id(), payload.get_name(), smart_permission)
}

/// The decision tree of an update-smart-permission action: only the
/// function bytes change.
pub open spec fn spec_update_smart_permission(
    m: Map<Seq<char>, StoredValueV>,
    p: UpdateSmartPermissionActionV,
    signer: Seq<char>,
) -> Result<Map<Seq<char>, StoredValueV>, Seq<char>> {
    match spec_is_admin(m, signer, p.org_id) {
        Some(msg) => Err(msg),
        None => match spec_get_smart_permission(m, p.org_id, p.name) {
            None => Err("Smart Permission does not exist: "@ + p.name + " "@),
            Some(sp) => if p.function.len() == 0 {
                Err("Cannot build smart permission"@)
            } else {
                Ok(
                    spec_set_smart_permission(
                        m,
                        p.org_id,
                        p.name,
                        SmartPermissionV {
                            name: sp.name,
                            org_id: sp.org_id,
                            function: p.function,
                        },
                    ),
                )
            },
        },
    }
}

/// Replaces a smart permission's function bytes.  Only an active admin of
/// the organization may; the permission must exist.
pub fn update_smart_permission(
    payload: &UpdateSmartPermissionAction,
    signer: &str,
    state: &mut SmartState,
) -> (r: Result<(), ApplyError>)
    requires
        old(state).wf(),
    ensures
        final(state).wf(),
        match r {
            Ok(()) => spec_update_smart_permission(old(state)@, payload@, signer@) matches Ok(
                m2,
            ) && final(state)@ == m2,
            Err(e) => spec_update_smart_permission(old(state)@, payload@, signer@) matches Err(
                msg,
            ) && e@ == ApplyErrorV::InvalidTransaction(msg) && final(state)@ == old(state)@,
        },
{
    is_admin(signer, payload.get_org_id(), state)?;
    let smart_permission = match state.get_smart_permission(
        payload.get_org_id(),
        payload.get_name(),
    ) {
        Ok(None) => {
            return Err(
                ApplyError::InvalidTransaction(
                    String::from_str("Smart Permission does not exist: ").concat(
                        payload.get_name(),
                    ).concat(" "),
                ),
            );
        },
        Ok(Some(smart_permission)) => smart_permission,
        Err(err) => {
            return Err(
                ApplyError::InvalidTransaction(
                    String::from_str("Failed to retrieve state: ").concat(
                        err.message().as_str(),
                    ),
                ),
            );
        },
    };
    proof {
        crate::keyed::lemma_find_keyed_props(
            crate::state::stored_smart_permissions(
                state@,
                crate::addressing::smart_permission_address(
                    payload@.org_id,
                    payload@.name,
                ),
            ),
            crate::state::smart_permission_keyf(),
            payload@.name,
        );
    }
    let function = clone_bytes(payload.get_function());
    let smart_permission = match smart_permission.into_builder().set_function(
        function,
    ).build() {
        Ok(sp) => sp,
        Err(_) => {
            return Err(
                ApplyError::InvalidTransaction(
                    String::from_str("Cannot build smart permission"),
                ),
            );
        },
    };
    state.set_smart_permission(payload.get_org_id(), payload.get_name(), smart_permission)
}

/// The decision tree of a delete-smart-permission action.
pub open spec fn spec_delete_smart_permission(
    m: Map<Seq<char>, StoredValueV>,
    p: DeleteSmartPermissionActionV,
    signer: Seq<char>,
) -> Result<Map<Seq<char>, StoredValueV>, Seq<char>> {
    match spec_is_admin(m, signer, p.org_id) {
        Some(msg) => Err(msg),
        None => if spec_get_smart_permission(m, p.org_id, p.name) is None {
            Err("Smart Permission does not exists: "@ + p.name + " "@)
        } else {
            Ok(m.remove(crate::addressing::smart_permission_address(p.org_id, p.name)))
        },
    }
}

/// Removes a smart permission.  Only an active admin of the organization
/// may; the permission must exist.
pub fn delete_smart_permission(
    payload: &DeleteSmartPermissionAction,
    signer: &str,
    state: &mut SmartState,
) -> (r: Result<(), ApplyError>)
    requires
        old(state).wf(),
    ensures
        final(state).wf(),
        match r {
            Ok(()) => spec_delete_smart_permission(old(state)@, payload@, signer@) matches Ok(
                m2,
            ) && final(state)@ == m2,
            Err(e) => spec_delete_smart_permission(old(state)@, payload@, signer@) matches Err(
                msg,
            ) && e@ == ApplyErrorV::InvalidTransaction(msg) && final(state)@ == old(state)@,
        },
{
    is_admin(signer, payload.get_org_id(), state)?;
    match state.get_smart_permission(payload.get_org_id(), payload.get_name()) {
        Ok(None) => {
            return Err(
                ApplyError::InvalidTransaction(
                    String::from_str("Smart Permission does not exists: ").concat(
                        payload.get_name(),
                    ).concat(" "),
                ),
            );
        },
        Ok(Some(_)) => (),
        Err(err) => {
            return Err(
                ApplyError::InvalidTransaction(
                    String::from_str("Failed to retrieve state: ").concat(
                        err.message().as_str(),
                    ),
                ),
            );
        },
    };
    proof {
        let addr = crate::addressing::smart_permission_address(payload@.org_id, payload@.name);
        if !state@.contains_key(addr) {
            assert(crate::state::stored_smart_permissions(state@, addr) =~= Seq::<
                SmartPermissionV,
            >::empty());
        }
    }
    state.delete_smart_permission(payload.get_org_id(), payload.get_name())
}

// ---------------------------------------------------------------------------
// Accounts
// ---------------------------------------------------------------------------
/// The decision tree of a create-account action.  A newly created account
/// is inactive until an update activates it.
pub open spec fn spec_create_account(
    m: Map<Seq<char>, StoredValueV>,
    p: CreateAccountActionV,
    signer: Seq<char>,
) -> Result<Map<Seq<char>, StoredValueV>, Seq<char>> {
    match spec_is_admin(m, signer, p.org_id) {
        Some(msg) => Err(msg),
        None => if spec_get_account(m, p.public_key) is Some {
            Err("Account already exists: "@ + p.public_key + " "@)
        } else if spec_get_organization(m, p.org_id) is None {
            Err("Organization does not exist exists: "@ + p.org_id)
        } else {
            Ok(
                spec_set_account(
                    m,
                    p.public_key,
                    AccountV {
                        org_id: p.org_id,
                        public_key: p.public_key,
                        active: false,
                        roles: p.roles,
                        metadata: p.metadata,
                    },
                ),
            )
        },
    }
}

/// Creates an account inside an organization.  Only an active admin of the
/// organization may; the organization must exist and the key must be new.
pub fn create_account(
    payload: &CreateAccountAction,
    signer: &str,
    state: &mut SmartState,
) -> (r: Result<(), ApplyError>)
    requires
        old(state).wf(),
    ensures
        final(state).wf(),
        match r {
            Ok(()) => spec_create_account(old(state)@, payload@, signer@) matches Ok(m2)
                && final(state)@ == m2,
            Err(e) => spec_create_account(old(state)@, payload@, signer@) matches Err(msg) && e@
                == ApplyErrorV::InvalidTransaction(msg) && final(state)@ == old(state)@,
        },
{
    is_admin(signer, payload.get_org_id(), state)?;
    match state.get_account(payload.get_public_key()) {
        Ok(None) => (),
        Ok(Some(_)) => {
            return Err(
                ApplyError::InvalidTransaction(
                    String::from_str("Account already exists: ").concat(
                        payload.get_public_key(),
                    ).concat(" "),
                ),
            );
        },
        Err(err) => {
            return Err(
                ApplyError::InvalidTransaction(
                    String::from_str("Failed to retrieve state: ").concat(
                        err.message().as_str(),
                    ),
                ),
            );
        },
    };
    match state.get_organization(payload.get_org_id()) {
        Ok(None) => {
            return Err(
                ApplyError::InvalidTransaction(
                    String::from_str("Organization does not exist exists: ").concat(
                        payload.get_org_id(),
                    ),
                ),
            );
        },
        Ok(Some(_)) => (),
        Err(err) => {
            return Err(
                ApplyError::InvalidTransaction(
                    String::from_str("Failed to retrieve state: ").concat(
                        err.message().as_str(),
                    ),
                ),
            );
        },
    };
    let roles = clone_string_slice(payload.get_roles());
    let metadata = clone_kv_entries(payload.get_metadata());
    let account = match AccountBuilder::new().set_public_key(
        String::from_str(payload.get_public_key()),
    ).set_org_id(String::from_str(payload.get_org_id())).set_roles(roles).set_metadata(
        metadata,
    ).build() {
        Ok(account) => account,
        Err(_) => {
            return Err(
                ApplyError::InvalidTransaction(String::from_str("Cannot build account")),
            );
        },
    };
    state.set_account(payload.get_public_key(), account)
}

/// The decision tree of an update-account action: empty payload fields
/// leave the stored values untouched, and an admin may not toggle the
/// active flag of its own account.
pub open spec fn spec_update_account(
    m: Map<Seq<char>, StoredValueV>,
    p: UpdateAccountActionV,
    signer: Seq<char>,
) -> Result<Map<Seq<char>, StoredValueV>, Seq<char>> {
    if p.public_key.len() == 0 {
        Err("Public key required"@)
    } else if p.org_id.len() == 0 {
        Err("Organization ID required"@)
    } else {
        match spec_is_admin(m, signer, p.org_id) {
            Some(msg) => Err(msg),
            None => match spec_get_account(m, p.public_key) {
                None => Err("Account does not exists: "@ + p.public_key),
                Some(a) => {
                    let roles = if p.roles.len() > 0 {
                        p.roles
                    } else {
                        a.roles
                    };
                    let metadata = if p.metadata.len() > 0 {
                        p.metadata
                    } else {
                        a.metadata
                    };
                    if p.active != a.active && signer == p.public_key {
                        Err("Admin may not deactivate themselves: "@ + signer)
                    } else {
                        Ok(
                            spec_set_account(
                                m,
                                p.public_key,
                                AccountV {
                                    org_id: a.org_id,
                                    public_key: a.public_key,
                                    active: p.active,
                                    roles: roles,
                                    metadata: metadata,
                                },
                            ),
                        )
                    }
                },
            },
        }
    }
}

/// Updates an account.  Only an active admin of the organization may; the
/// account must exist; empty payload fields keep their stored values; an
/// admin may not toggle its own active flag.
pub fn update_account(
    payload: &UpdateAccountAction,
    signer: &str,
    state: &mut SmartState,
) -> (r: Result<(), ApplyError>)
    requires
        old(state).wf(),
    ensures
        final(state).wf(),
        match r {
            Ok(()) => spec_update_account(old(state)@, payload@, signer@) matches Ok(m2)
                && final(state)@ == m2,
            Err(e) => spec_update_account(old(state)@, payload@, signer@) matches Err(msg) && e@
                == ApplyErrorV::InvalidTransaction(msg) && final(state)@ == old(state)@,
        },
{
    if payload.get_public_key().is_empty() {
        return Err(ApplyError::InvalidTransaction(String::from_str("Public key required")));
    }
    if payload.get_org_id().is_empty() {
        return Err(
            ApplyError::InvalidTransaction(String::from_str("Organization ID required")),
        );
    }
    is_admin(signer, payload.get_org_id(), state)?;
    let account = match state.get_account(payload.get_public_key()) {
        Ok(None) => {
            return Err(
                ApplyError::InvalidTransaction(
                    String::from_str("Account does not exists: ").concat(
                        payload.get_public_key(),
                    ),
                ),
            );
        },
        Ok(Some(account)) => account,
        Err(err) => {
            return Err(
                ApplyError::InvalidTransaction(
                    String::from_str("Failed to retrieve state: ").concat(
                        err.message().as_str(),
                    ),
                ),
            );
        },
    };
    proof {
        crate::keyed::lemma_find_keyed_props(
            crate::state::stored_accounts(
                state@,
                crate::addressing::account_address(payload@.public_key),
            ),
            crate::state::account_keyf(),
            payload@.public_key,
        );
    }
    let roles = if !payload.get_roles().is_empty() {
        clone_string_slice(payload.get_roles())
    } else {
        clone_string_slice(account.get_roles())
    };
    let metadata = if !payload.get_metadata().is_empty() {
        clone_kv_entries(payload.get_metadata())
    } else {
        clone_kv_entries(account.get_metadata())
    };
    let new_active = payload.get_active();
    if new_active != *account.get_active() {
        if str_eq(signer, payload.get_public_key()) {
            return Err(
                ApplyError::InvalidTransaction(
                    String::from_str("Admin may not deactivate themselves: ").concat(signer),
                ),
            );
        }
    }
    let updated = match AccountBuilder::new().set_org_id(
        String::from_str(account.get_org_id()),
    ).set_public_key(String::from_str(account.get_public_key())).set_active(
        new_active,
    ).set_roles(roles).set_metadata(metadata).build() {
        Ok(account) => account,
        Err(_) => {
            return Err(
                ApplyError::InvalidTransaction(String::from_str("Cannot build account")),
            );
        },
    };
    state.set_account(payload.get_public_key(), updated)
}

// ---------------------------------------------------------------------------
// Organizations
// ---------------------------------------------------------------------------
/// The decision tree of a create-organization action.
pub open spec fn spec_create_organization(
    m: Map<Seq<char>, StoredValueV>,
    p: CreateOrganizationActionV,
    signer: Seq<char>,
) -> Result<Map<Seq<char>, StoredValueV>, Seq<char>> {
    match spec_is_admin(m, signer, p.id) {
        Some(msg) => Err(msg),
        None => if spec_get_organization(m, p.id) is Some {
            Err("Organization already exists: "@ + p.name + " "@)
        } else {
            Ok(
                spec_set_organization(
                    m,
                    p.id,
                    OrganizationV {
                        org_id: p.id,
                        name: p.name,
                        address: p.address,
                        metadata: Seq::empty(),
                    },
                ),
            )
        },
    }
}

/// Creates an organization.  Only an active admin account scoped to the
/// new organization's id may; the id must be new.
pub fn create_organization(
    payload: &CreateOrganizationAction,
    signer: &str,
    state: &mut SmartState,
) -> (r: Result<(), ApplyError>)
    requires
        old(state).wf(),
    ensures
        final(state).wf(),
        match r {
            Ok(()) => spec_create_organization(old(state)@, payload@, signer@) matches Ok(m2)
                && final(state)@ == m2,
            Err(e) => spec_create_organization(old(state)@, payload@, signer@) matches Err(msg)
                && e@ == ApplyErrorV::InvalidTransaction(msg) && final(state)@ == old(state)@,
        },
{
    is_admin(signer, payload.get_id(), state)?;
    match state.get_organization(payload.get_id()) {
        Ok(None) => (),
        Ok(Some(_)) => {
            return Err(
                ApplyError::InvalidTransaction(
                    String::from_str("Organization already exists: ").concat(
                        payload.get_name(),
                    ).concat(" "),
                ),
            );
        },
        Err(err) => {
            return Err(
                ApplyError::InvalidTransaction(
                    String::from_str("Failed to retrieve state: ").concat(
                        err.message().as_str(),
                    ),
                ),
            );
        },
    };
    let organization = match OrganizationBuilder::new().set_org_id(
        String::from_str(payload.get_id()),
    ).set_name(String::from_str(payload.get_name())).set_address(
        String::from_str(payload.get_address()),
    ).build() {
        Ok(org) => org,
        Err(_) => {
            return Err(
                ApplyError::InvalidTransaction(String::from_str("Cannot build organization")),
            );
        },
    };
    proof {
        assert(organization@.metadata =~= Seq::<crate::protocol::state::KeyValueEntryV>::empty());
    }
    state.set_organization(payload.get_id(), organization)
}

/// The decision tree of an update-organization action: empty payload
/// fields leave the stored values untouched.
pub open spec fn spec_update_organization(
    m: Map<Seq<char>, StoredValueV>,
    p: UpdateOrganizationActionV,
    signer: Seq<char>,
) -> Result<Map<Seq<char>, StoredValueV>, Seq<char>> {
    if p.id.len() == 0 {
        Err("Unique organization ID required"@)
    } else {
        match spec_is_admin(m, signer, p.id) {
            Some(msg) => Err(msg),
            None => match spec_get_organization(m, p.id) {
                None => Err("Organization does not exist exists: "@ + p.id),
                Some(o) => Ok(
                    spec_set_organization(
                        m,
                        p.id,
                        OrganizationV {
                            org_id: o.org_id,
                            name: if p.name.len() > 0 {
                                p.name
                            } else {
                                o.name
                            },
                            address: if p.address.len() > 0 {
                                p.address
                            } else {
                                o.address
                            },
                            metadata: o.metadata,
                        },
                    ),
                ),
            },
        }
    }
}

/// Updates an organization.  Only an active admin of the organization may;
/// the organization must exist; empty payload fields keep their stored
/// values.
pub fn update_organization(
    payload: &UpdateOrganizationAction,
    signer: &str,
    state: &mut SmartState,
) -> (r: Result<(), ApplyError>)
    requires
        old(state).wf(),
    ensures
        final(state).wf(),
        match r {
            Ok(()) => spec_update_organization(old(state)@, payload@, signer@) matches Ok(m2)
                && final(state)@ == m2,
            Err(e) => spec_update_organization(old(state)@, payload@, signer@) matches Err(msg)
                && e@ == ApplyErrorV::InvalidTransaction(msg) && final(state)@ == old(state)@,
        },
{
    if payload.get_id().is_empty() {
        return Err(
            ApplyError::InvalidTransaction(
                String::from_str("Unique organization ID required"),
            ),
        );
    }
    is_admin(signer, payload.get_id(), state)?;
    let organization = match state.get_organization(payload.get_id()) {
        Ok(None) => {
            return Err(
                ApplyError::InvalidTransaction(
                    String::from_str("Organization does not exist exists: ").concat(
                        payload.get_id(),
                    ),
                ),
            );
        },
        Ok(Some(org)) => org,
        Err(err) => {
            return Err(
                ApplyError::InvalidTransaction(
                    String::from_str("Failed to retrieve state: ").concat(
                        err.message().as_str(),
                    ),
                ),
            );
        },
    };
    proof {
        crate::keyed::lemma_find_keyed_props(
            crate::state::stored_organizations(
                state@,
                crate::addressing::org_address(payload@.id),
            ),
            crate::state::organization_keyf(),
            payload@.id,
        );
    }
    let name = if !payload.get_name().is_empty() {
        String::from_str(payload.get_name())
    } else {
        String::from_str(organization.get_name())
    };
    let address = if !payload.get_address().is_empty() {
        String::from_str(payload.get_address())
    } else {
        String::from_str(organization.get_address())
    };
    let metadata = clone_kv_entries(organization.get_metadata());
    let updated = match OrganizationBuilder::new().set_org_id(
        String::from_str(organization.get_org_id()),
    ).set_name(name).set_address(address).set_metadata(metadata).build() {
        Ok(org) => org,
        Err(_) => {
            return Err(
                ApplyError::InvalidTransaction(String::from_str("Cannot build organization")),
            );
        },
    };
    state.set_organization(payload.get_id(), updated)
}


// ---------------------------------------------------------------------------
// Contracts
// ---------------------------------------------------------------------------
/// The decision tree of a create-contract action.
pub open spec fn spec_create_contract(
    m: Map<Seq<char>, StoredValueV>,
    p: CreateContractActionV,
    signer: Seq<char>,
) -> Result<Map<Seq<char>, StoredValueV>, Seq<char>> {
    if spec_get_contract(m, p.name, p.version) is Some {
        Err("Contract already exists: "@ + p.name + ", "@ + p.version)
    } else {
        match spec_get_contract_registry(m, p.name) {
            None => Err("The Contract Registry does not exist: "@ + p.name),
            Some(reg) => if !reg.owners.contains(signer) {
                Err("Only owners can submit new versions of contracts: "@ + signer)
            } else if p.inputs.len() == 0 || p.outputs.len() == 0 || p.contract.len() == 0 {
                Err("Cannot build contract"@)
            } else {
                Ok(
                    spec_set_contract_registry(
                        spec_set_contract(
                            m,
                            p.name,
                            p.version,
                            ContractV {
                                name: p.name,
                                version: p.version,
                                inputs: p.inputs,
                                outputs: p.outputs,
                                creator: signer,
                                contract: p.contract,
                            },
                        ),
                        p.name,
                        ContractRegistryV {
                            name: reg.name,
                            versions: reg.versions.push(
                                VersionV {
                                    version: p.version,
                                    contract_sha512: sha512_hex_of(p.contract),
                                    creator: signer,
                                },
                            ),
                            owners: reg.owners,
                        },
                    ),
                )
            },
        }
    }
}

/// Uploads one version of a contract.  Only an owner listed in the
/// contract's registry may; the `(name, version)` pair must be new.  The
/// registry records the version with the digest of the bytes.
#[verifier::loop_isolation(false)]
pub fn create_contract(
    payload: &CreateContractAction,
    signer: &str,
    state: &mut SmartState,
) -> (r: Result<(), ApplyError>)
    requires
        old(state).wf(),
    ensures
        final(state).wf(),
        match r {
            Ok(()) => spec_create_contract(old(state)@, payload@, signer@) matches Ok(m2)
                && final(state)@ == m2,
            Err(e) => spec_create_contract(old(state)@, payload@, signer@) matches Err(msg)
                && e@ == ApplyErrorV::InvalidTransaction(msg) && final(state)@ == old(state)@,
        },
{
    let name = payload.get_name();
    let version = payload.get_version();
    match state.get_contract(name, version) {
        Ok(None) => (),
        Ok(Some(_)) => {
            return Err(
                ApplyError::InvalidTransaction(
                    String::from_str("Contract already exists: ").concat(name).concat(
                        ", ",
                    ).concat(version),
                ),
            );
        },
        Err(err) => {
            return Err(
                ApplyError::InvalidTransaction(
                    String::from_str("Unable to check state: ").concat(err.message().as_str()),
                ),
            );
        },
    };
    let contract_registry = match state.get_contract_registry(name) {
        Ok(None) => {
            return Err(
                ApplyError::InvalidTransaction(
                    String::from_str("The Contract Registry does not exist: ").concat(name),
                ),
            );
        },
        Ok(Some(contract_registry)) => contract_registry,
        Err(err) => {
            return Err(
                ApplyError::InvalidTransaction(
                    String::from_str("Unable to check state: ").concat(err.message().as_str()),
                ),
            );
        },
    };
    if !vec_contains_str(contract_registry.get_owners(), signer) {
        return Err(
            ApplyError::InvalidTransaction(
                String::from_str("Only owners can submit new versions of contracts: ").concat(
                    signer,
                ),
            ),
        );
    }
    proof {
        lemma_stored_contract_registry_wf(state, name@);
    }
    let inputs = clone_string_slice(payload.get_inputs());
    let outputs = clone_string_slice(payload.get_outputs());
    let bytes = clone_bytes(payload.get_contract());
    let contract = match ContractBuilder::new().set_name(String::from_str(name)).set_version(
        String::from_str(version),
    ).set_inputs(inputs).set_outputs(outputs).set_creator(String::from_str(signer)).set_contract(
        bytes,
    ).build() {
        Ok(contract) => contract,
        Err(_) => {
            return Err(
                ApplyError::InvalidTransaction(String::from_str("Cannot build contract")),
            );
        },
    };
    state.set_contract(name, version, contract)?;
    let digest = sha512_hex(payload.get_contract());
    let contract_registry_version = match VersionBuilder::new().set_version(
        String::from_str(version),
    ).set_contract_sha512(digest).set_creator(String::from_str(signer)).build() {
        Ok(v) => v,
        Err(_) => {
            return Err(
                ApplyError::InvalidTransaction(
                    String::from_str("Cannot build contract version"),
                ),
            );
        },
    };
    let ghost regv = contract_registry@;
    let mut versions = clone_versions(contract_registry.get_versions());
    let ghost before = versions.deep_view();
    versions.push(contract_registry_version);
    proof {
        assert forall|m: int| 0 <= m < versions.deep_view().len() implies versions.deep_view()[m]
            == regv.versions.push(
            VersionV {
                version: version@,
                contract_sha512: sha512_hex_of(payload@.contract),
                creator: signer@,
            },
        )[m] by {
            if m < before.len() {
                assert(versions.deep_view()[m] == before[m]);
            } else {
                assert(versions.deep_view()[m] == versions[m]@);
            }
        }
        assert(versions.deep_view() =~= regv.versions.push(
            VersionV {
                version: version@,
                contract_sha512: sha512_hex_of(payload@.contract),
                creator: signer@,
            },
        ));
    }
    let contract_registry = match contract_registry.into_builder().set_versions(
        versions,
    ).build() {
        Ok(reg) => reg,
        Err(_) => {
            return Err(
                ApplyError::InvalidTransaction(
                    String::from_str("Cannot build contract registry"),
                ),
            );
        },
    };
    state.set_contract_registry(name, contract_registry)
}

/// The decision tree of a delete-contract action: the registry loses the
/// matching version entry and the contract's whole address is deleted.
pub open spec fn spec_delete_contract(
    m: Map<Seq<char>, StoredValueV>,
    p: DeleteContractActionV,
    signer: Seq<char>,
) -> Result<Map<Seq<char>, StoredValueV>, Seq<char>> {
    match spec_get_contract(m, p.name, p.version) {
        None => Err("Contract does not exist: "@ + p.name + ", "@ + p.version),
        Some(_) => match spec_get_contract_registry(m, p.name) {
            None => Err("Contract Registry does not exist "@ + p.name),
            Some(reg) => if !reg.owners.contains(signer) {
                Err("Signer is not an owner of this contract: "@ + signer)
            } else {
                Ok(
                    spec_set_contract_registry(
                        m,
                        p.name,
                        ContractRegistryV {
                            name: reg.name,
                            versions: crate::keyed::remove_keyed(
                                reg.versions,
                                crate::state::version_keyf(),
                                p.version,
                            ),
                            owners: reg.owners,
                        },
                    ).remove(contract_address(p.name, p.version)),
                )
            },
        },
    }
}

/// Removes one version of a contract.  Only an owner listed in the
/// contract's registry may; the contract must exist.  Everything at the
/// contract's address is deleted, collided same-address contracts
/// included.
#[verifier::loop_isolation(false)]
pub fn delete_contract(
    payload: &DeleteContractAction,
    signer: &str,
    state: &mut SmartState,
) -> (r: Result<(), ApplyError>)
    requires
        old(state).wf(),
    ensures
        final(state).wf(),
        match r {
            Ok(()) => spec_delete_contract(old(state)@, payload@, signer@) matches Ok(m2)
                && final(state)@ == m2,
            Err(e) => spec_delete_contract(old(state)@, payload@, signer@) matches Err(msg)
                && e@ == ApplyErrorV::InvalidTransaction(msg) && final(state)@ == old(state)@,
        },
{
    let name = payload.get_name();
    let version = payload.get_version();
    match state.get_contract(name, version) {
        Ok(Some(_)) => (),
        Ok(None) => {
            return Err(
                ApplyError::InvalidTransaction(
                    String::from_str("Contract does not exist: ").concat(name).concat(
                        ", ",
                    ).concat(version),
                ),
            );
        },
        Err(err) => {
            return Err(
                ApplyError::InvalidTransaction(
                    String::from_str("Unable to check state: ").concat(err.message().as_str()),
                ),
            );
        },
    };
    let contract_registry = match state.get_contract_registry(name) {
        Ok(None) => {
            return Err(
                ApplyError::InvalidTransaction(
                    String::from_str("Contract Registry does not exist ").concat(name),
                ),
            );
        },
        Ok(Some(contract_registry)) => contract_registry,
        Err(err) => {
            return Err(
                ApplyError::InvalidTransaction(
                    String::from_str("Unable to check state: ").concat(err.message().as_str()),
                ),
            );
        },
    };
    if !vec_contains_str(contract_registry.get_owners(), signer) {
        return Err(
            ApplyError::InvalidTransaction(
                String::from_str("Signer is not an owner of this contract: ").concat(signer),
            ),
        );
    }
    proof {
        lemma_stored_contract_registry_wf(state, name@);
    }
    let ghost regv = contract_registry@;
    let vers = contract_registry.get_versions();
    let n = vers.len();
    let mut index: Option<usize> = None;
    let mut count: usize = 0;
    while count < n
        invariant
            count <= n,
            match index {
                Some(x) => x < count && vers.deep_view()[x as int].version == version@ && (
                forall|j: int|
                    0 <= j < x ==> (#[trigger] vers.deep_view()[j]).version != version@),
                None => forall|j: int|
                    0 <= j < count ==> (#[trigger] vers.deep_view()[j]).version != version@,
            },
        decreases n - count,
    {
        if index.is_none() {
            proof {
                assert(vers.deep_view()[count as int] == vers[count as int]@);
            }
            if str_eq(vers[count].get_version().as_str(), version) {
                index = Some(count);
            }
        }
        count += 1;
    }
    let mut versions = clone_versions(vers);
    match index {
        Some(x) => {
            let ghost beforev = versions.deep_view();
            let ghost beforex = versions@;
            versions.remove(x);
            proof {
                beforex.remove_ensures(x as int);
                beforev.remove_ensures(x as int);
                assert forall|m: int| 0 <= m < versions.deep_view().len() implies
                    versions.deep_view()[m] == beforev.remove(x as int)[m] by {
                    assert(versions.deep_view()[m] == versions@[m].deep_view());
                    if m < x {
                        assert(versions@[m] == beforex[m]);
                        assert(beforev.remove(x as int)[m] == beforev[m]);
                    } else {
                        assert(versions@[m] == beforex[m + 1]);
                        assert(beforev.remove(x as int)[m] == beforev[m + 1]);
                    }
                }
                assert(versions.deep_view() =~= beforev.remove(x as int));
                crate::keyed::lemma_remove_keyed_at(
                    regv.versions,
                    crate::state::version_keyf(),
                    version@,
                    x as int,
                );
            }
        },
        None => {
            proof {
                crate::keyed::lemma_remove_keyed_absent(
                    regv.versions,
                    crate::state::version_keyf(),
                    version@,
                );
            }
        },
    }
    let contract_registry = match contract_registry.into_builder().set_versions(
        versions,
    ).build() {
        Ok(reg) => reg,
        Err(_) => {
            return Err(
                ApplyError::InvalidTransaction(
                    String::from_str("Cannot build contract registry"),
                ),
            );
        },
    };
    state.set_contract_registry(name, contract_registry)?;
    proof {
        crate::addressing::lemma_address_prefixes(name@, version@);
        reveal_strlit("00ec01");
        reveal_strlit("00ec02");
        let ca = contract_address(name@, version@);
        let ra = crate::addressing::contract_registry_address(name@);
        if ca == ra {
            assert(ca.take(6) == CONTRACT_PREFIX@);
            assert(ra.take(6) == CONTRACT_REGISTRY_PREFIX@);
            assert(CONTRACT_PREFIX@[5] == '2');
            assert(CONTRACT_REGISTRY_PREFIX@[5] == '1');
            assert(ca.take(6)[5] == ra.take(6)[5]);
            assert(false);
        }
        if !old(state)@.contains_key(ca) {
            assert(crate::state::stored_contracts(old(state)@, ca) =~= Seq::<
                ContractV,
            >::empty());
        }
    }
    state.delete_contract(name, version)
}

// ---------------------------------------------------------------------------
// Contract execution checks
// ---------------------------------------------------------------------------
/// The last registry in the list whose namespace is a prefix of `addr` —
/// the one a scan that overwrites its match ends with.
pub open spec fn last_matching_registry(l: Seq<NamespaceRegistryV>, addr: Seq<char>) -> Option<
    NamespaceRegistryV,
>
    decreases l.len(),
{
    if l.len() == 0 {
        None
    } else if crate::strutil::is_char_prefix(l.last().namespace, addr) {
        Some(l.last())
    } else {
        last_matching_registry(l.drop_last(), addr)
    }
}

/// Some permission of the registry grants `cname` read access.
pub open spec fn has_read_permission(reg: NamespaceRegistryV, cname: Seq<char>) -> bool {
    exists|i: int|
        0 <= i < reg.permissions.len() && (#[trigger] reg.permissions[i]).contract_name == cname
            && reg.permissions[i].read
}

/// Some permission of the registry grants `cname` write access.
pub open spec fn has_write_permission(reg: NamespaceRegistryV, cname: Seq<char>) -> bool {
    exists|i: int|
        0 <= i < reg.permissions.len() && (#[trigger] reg.permissions[i]).contract_name == cname
            && reg.permissions[i].write
}

/// Why the contract `cname` may not read `input`, if anything.
pub open spec fn check_input(
    m: Map<Seq<char>, StoredValueV>,
    cname: Seq<char>,
    input: Seq<char>,
) -> Option<Seq<char>> {
    if input.len() < 6 {
        Some("Input must have at least 6 characters: "@ + input)
    } else {
        let ns = input.take(6);
        if !m.contains_key(namespace_registry_address(ns)) {
            Some("Namespace Registry does not exist: "@ + ns)
        } else {
            match last_matching_registry(
                stored_namespace_registries(m, namespace_registry_address(ns)),
                input,
            ) {
                None => Some(
                    "No namespace registry exists for namespace: "@ + ns + " input: "@ + input,
                ),
                Some(reg) => if has_read_permission(reg, cname) {
                    None
                } else {
                    Some(
                        "Contract does not have permission to read from state : "@ + cname
                            + " "@ + input,
                    )
                },
            }
        }
    }
}

/// Why the contract `cname` may not write `output`, if anything.
pub open spec fn check_output(
    m: Map<Seq<char>, StoredValueV>,
    cname: Seq<char>,
    output: Seq<char>,
) -> Option<Seq<char>> {
    if output.len() < 6 {
        Some("Output must have at least 6 characters: "@ + output)
    } else {
        let ns = output.take(6);
        if !m.contains_key(namespace_registry_address(ns)) {
            Some("Namespace Registry does not exist: "@ + ns)
        } else {
            match last_matching_registry(
                stored_namespace_registries(m, namespace_registry_address(ns)),
                output,
            ) {
                None => Some(
                    "No namespace registry exists for namespace: "@ + ns + " output: "@
                        + output,
                ),
                Some(reg) => if has_write_permission(reg, cname) {
                    None
                } else {
                    Some(
                        "Contract does not have permission to write to state: "@ + cname + ", "@
                            + output,
                    )
                },
            }
        }
    }
}

/// The first input the contract may not read, by its message.
pub open spec fn check_inputs(
    m: Map<Seq<char>, StoredValueV>,
    cname: Seq<char>,
    inputs: Seq<Seq<char>>,
) -> Option<Seq<char>>
    decreases inputs.len(),
{
    if inputs.len() == 0 {
        None
    } else {
        match check_input(m, cname, inputs[0]) {
            Some(e) => Some(e),
            None => check_inputs(m, cname, inputs.drop_first()),
        }
    }
}

/// The first output the contract may not write, by its message.
pub open spec fn check_outputs(
    m: Map<Seq<char>, StoredValueV>,
    cname: Seq<char>,
    outputs: Seq<Seq<char>>,
) -> Option<Seq<char>>
    decreases outputs.len(),
{
    if outputs.len() == 0 {
        None
    } else {
        match check_output(m, cname, outputs[0]) {
            Some(e) => Some(e),
            None => check_outputs(m, cname, outputs.drop_first()),
        }
    }
}

/// Checking inputs can resume after a clean prefix.
proof fn lemma_check_inputs_skip(
    m: Map<Seq<char>, StoredValueV>,
    cname: Seq<char>,
    inputs: Seq<Seq<char>>,
    i: int,
)
    requires
        0 <= i <= inputs.len(),
        forall|j: int| 0 <= j < i ==> check_input(m, cname, #[trigger] inputs[j]) is None,
    ensures
        check_inputs(m, cname, inputs) == check_inputs(m, cname, inputs.skip(i)),
    decreases i,
{
    if i > 0 {
        lemma_check_inputs_skip(m, cname, inputs.drop_first(), i - 1);
        assert forall|j: int| 0 <= j < i - 1 implies check_input(
            m,
            cname,
            #[trigger] inputs.drop_first()[j],
        ) is None by {
            assert(inputs.drop_first()[j] == inputs[j + 1]);
        }
        assert(inputs.drop_first().skip(i - 1) =~= inputs.skip(i));
    } else {
        assert(inputs.skip(0) =~= inputs);
    }
}

/// Checking outputs can resume after a clean prefix.
proof fn lemma_check_outputs_skip(
    m: Map<Seq<char>, StoredValueV>,
    cname: Seq<char>,
    outputs: Seq<Seq<char>>,
    i: int,
)
    requires
        0 <= i <= outputs.len(),
        forall|j: int| 0 <= j < i ==> check_output(m, cname, #[trigger] outputs[j]) is None,
    ensures
        check_outputs(m, cname, outputs) == check_outputs(m, cname, outputs.skip(i)),
    decreases i,
{
    if i > 0 {
        lemma_check_outputs_skip(m, cname, outputs.drop_first(), i - 1);
        assert forall|j: int| 0 <= j < i - 1 implies check_output(
            m,
            cname,
            #[trigger] outputs.drop_first()[j],
        ) is None by {
            assert(outputs.drop_first()[j] == outputs[j + 1]);
        }
        assert(outputs.drop_first().skip(i - 1) =~= outputs.skip(i));
    } else {
        assert(outputs.skip(0) =~= outputs);
    }
}

/// The decision tree of the checks before running a contract: the contract
/// must exist, and every declared input and output must lie under a
/// registered namespace granting the contract the matching access.
pub open spec fn spec_check_execute(
    m: Map<Seq<char>, StoredValueV>,
    p: ExecuteContractActionV,
) -> Result<ContractV, Seq<char>> {
    match spec_get_contract(m, p.name, p.version) {
        None => Err("Contract does not exist: "@ + p.name + ", "@ + p.version),
        Some(c) => match check_inputs(m, p.name, p.inputs) {
            Some(e) => Err(e),
            None => match check_outputs(m, p.name, p.outputs) {
                Some(e) => Err(e),
                None => Ok(c),
            },
        },
    }
}

/// One declared address check: returns the error the contract would get
/// for this input or output, if any.
#[verifier::loop_isolation(false)]
fn check_one_address(
    state: &SmartState,
    cname: &str,
    addr: &str,
    want_write: bool,
) -> (r: Option<ApplyError>)
    requires
        state.wf(),
    ensures
        match r {
            Some(e) => (if want_write {
                check_output(state@, cname@, addr@)
            } else {
                check_input(state@, cname@, addr@)
            }) matches Some(msg) && e@ == ApplyErrorV::InvalidTransaction(msg),
            None => (if want_write {
                check_output(state@, cname@, addr@)
            } else {
                check_input(state@, cname@, addr@)
            }) is None,
        },
{
    if addr.unicode_len() < 6 {
        if want_write {
            return Some(
                ApplyError::InvalidTransaction(
                    String::from_str("Output must have at least 6 characters: ").concat(addr),
                ),
            );
        } else {
            return Some(
                ApplyError::InvalidTransaction(
                    String::from_str("Input must have at least 6 characters: ").concat(addr),
                ),
            );
        }
    }
    let namespace = addr.substring_char(0, 6);
    let registries = match state.get_namespace_registries(namespace) {
        Ok(Some(registries)) => registries,
        Ok(None) => {
            return Some(
                ApplyError::InvalidTransaction(
                    String::from_str("Namespace Registry does not exist: ").concat(namespace),
                ),
            );
        },
        Err(_) => {
            // a six-character namespace always has an address
            proof {
                assert(false);
            }
            return None;
        },
    };
    let regs = registries.get_registries();
    let ghost l = stored_namespace_registries(
        state@,
        namespace_registry_address(namespace@),
    );
    proof {
        assert(regs.deep_view() == l);
    }
    let n = regs.len();
    let mut found: Option<usize> = None;
    let mut j: usize = 0;
    while j < n
        invariant
            j <= n,
            match found {
                Some(x) => x < j && last_matching_registry(l.take(j as int), addr@) == Some(
                    l[x as int],
                ),
                None => last_matching_registry(l.take(j as int), addr@) is None,
            },
        decreases n - j,
    {
        proof {
            assert(regs.deep_view()[j as int] == regs[j as int]@);
            assert(l.take(j + 1).drop_last() =~= l.take(j as int));
            assert(l.take(j + 1).last() == l[j as int]);
        }
        if crate::strutil::str_starts_with(addr, regs[j].get_namespace().as_str()) {
            found = Some(j);
        }
        j += 1;
    }
    proof {
        assert(l.take(n as int) =~= l);
    }
    let x = match found {
        Some(x) => x,
        None => {
            if want_write {
                return Some(
                    ApplyError::InvalidTransaction(
                        String::from_str("No namespace registry exists for namespace: ").concat(
                            namespace,
                        ).concat(" output: ").concat(addr),
                    ),
                );
            } else {
                return Some(
                    ApplyError::InvalidTransaction(
                        String::from_str("No namespace registry exists for namespace: ").concat(
                            namespace,
                        ).concat(" input: ").concat(addr),
                    ),
                );
            }
        },
    };
    let ghost regv = l[x as int];
    let perms = regs[x].get_permissions();
    proof {
        assert(regs.deep_view()[x as int] == regs[x as int]@);
        assert(perms.deep_view() == regv.permissions);
    }
    let pn = perms.len();
    let mut permissioned = false;
    let mut k: usize = 0;
    while k < pn
        invariant
            k <= pn,
            permissioned ==> (if want_write {
                has_write_permission(regv, cname@)
            } else {
                has_read_permission(regv, cname@)
            }),
            !permissioned ==> (forall|q: int|
                0 <= q < k ==> !((#[trigger] regv.permissions[q]).contract_name == cname@ && (
                if want_write {
                    regv.permissions[q].write
                } else {
                    regv.permissions[q].read
                }))),
        decreases pn - k,
    {
        if !permissioned {
            proof {
                assert(perms.deep_view()[k as int] == perms[k as int]@);
            }
            if str_eq(perms[k].get_contract_name().as_str(), cname) {
                let flag = if want_write {
                    perms[k].get_write()
                } else {
                    perms[k].get_read()
                };
                if flag {
                    permissioned = true;
                }
            }
        }
        k += 1;
    }
    if permissioned {
        None
    } else {
        if want_write {
            Some(
                ApplyError::InvalidTransaction(
                    String::from_str("Contract does not have permission to write to state: ")
                        .concat(cname).concat(", ").concat(addr),
                ),
            )
        } else {
            Some(
                ApplyError::InvalidTransaction(
                    String::from_str("Contract does not have permission to read from state : ")
                        .concat(cname).concat(" ").concat(addr),
                ),
            )
        }
    }
}

/// Checks everything that must hold before a stored contract runs: the
/// contract exists and every declared input and output is permitted.  On
/// success it hands back the stored contract for the module runner; the
/// state is left untouched.
#[verifier::loop_isolation(false)]
pub fn check_execute_contract(
    payload: &ExecuteContractAction,
    state: &mut SmartState,
) -> (r: Result<Contract, ApplyError>)
    requires
        old(state).wf(),
    ensures
        *final(state) == *old(state),
        match r {
            Ok(c) => spec_check_execute(old(state)@, payload@) matches Ok(cv) && c@ == cv,
            Err(e) => spec_check_execute(old(state)@, payload@) matches Err(msg) && e@
                == ApplyErrorV::InvalidTransaction(msg),
        },
{
    let name = payload.get_name();
    let version = payload.get_version();
    let contract = match state.get_contract(name, version) {
        Ok(Some(contract)) => contract,
        Ok(None) => {
            return Err(
                ApplyError::InvalidTransaction(
                    String::from_str("Contract does not exist: ").concat(name).concat(
                        ", ",
                    ).concat(version),
                ),
            );
        },
        Err(err) => {
            return Err(
                ApplyError::InvalidTransaction(
                    String::from_str("Unable to check state: ").concat(err.message().as_str()),
                ),
            );
        },
    };
    let inputs = payload.get_inputs();
    let n = inputs.len();
    let mut i: usize = 0;
    while i < n
        invariant
            i <= n,
            forall|j: int| 0 <= j < i ==> check_input(
                state@,
                name@,
                (#[trigger] inputs.deep_view()[j]),
            ) is None,
        decreases n - i,
    {
        proof {
            assert(inputs.deep_view()[i as int] == inputs[i as int]@);
        }
        match check_one_address(state, name, inputs[i].as_str(), false) {
            Some(e) => {
                proof {
                    lemma_check_inputs_skip(state@, name@, payload@.inputs, i as int);
                    assert(payload@.inputs.skip(i as int)[0] == payload@.inputs[i as int]);
                }
                return Err(e);
            },
            None => (),
        }
        i += 1;
    }
    proof {
        lemma_check_inputs_skip(state@, name@, payload@.inputs, n as int);
        assert(payload@.inputs.skip(n as int).len() == 0);
    }
    let outputs = payload.get_outputs();
    let on = outputs.len();
    let mut oi: usize = 0;
    while oi < on
        invariant
            oi <= on,
            forall|j: int| 0 <= j < oi ==> check_output(
                state@,
                name@,
                (#[trigger] outputs.deep_view()[j]),
            ) is None,
        decreases on - oi,
    {
        proof {
            assert(outputs.deep_view()[oi as int] == outputs[oi as int]@);
        }
        match check_one_address(state, name, outputs[oi].as_str(), true) {
            Some(e) => {
                proof {
                    lemma_check_outputs_skip(state@, name@, payload@.outputs, oi as int);
                    assert(payload@.outputs.skip(oi as int)[0] == payload@.outputs[oi as int]);
                }
                return Err(e);
            },
            None => (),
        }
        oi += 1;
    }
    proof {
        lemma_check_outputs_skip(state@, name@, payload@.outputs, on as int);
        assert(payload@.outputs.skip(on as int).len() == 0);
    }
    Ok(contract)
}

/// Reads the integer a contract module returned: `1` is success, `-3` an
/// invalid transaction signalled by the contract, any other value an
/// internal fault, and no value at all a malformed contract.
pub fn interpret_execution_result(
    result: Option<i32>,
    name: &str,
    version: &str,
) -> (r: Result<(), ApplyError>)
    ensures
        match result {
            None => r matches Err(e) && e@ == ApplyErrorV::InvalidTransaction(
                "Wasm contract did not return a result: "@ + name@ + ", "@ + version@,
            ),
            Some(code) => if code == 1 {
                r is Ok
            } else if code == -3 {
                r matches Err(e) && e@ == ApplyErrorV::InvalidTransaction(
                    "Wasm contract returned invalid transaction: "@ + name@ + ", "@ + version@,
                )
            } else {
                r matches Err(e) && e@ == ApplyErrorV::InternalError(
                    "Wasm contract returned internal error: "@
                        + crate::strutil::dec_rep_signed(code as int),
                )
            },
        },
{
    match result {
        None => Err(
            ApplyError::InvalidTransaction(
                String::from_str("Wasm contract did not return a result: ").concat(name).concat(
                    ", ",
                ).concat(version),
            ),
        ),
        Some(1) => Ok(()),
        Some(-3) => Err(
            ApplyError::InvalidTransaction(
                String::from_str("Wasm contract returned invalid transaction: ").concat(
                    name,
                ).concat(", ").concat(version),
            ),
        ),
        Some(num) => Err(
            ApplyError::InternalError(
                String::from_str("Wasm contract returned internal error: ").concat(
                    crate::strutil::i32_to_string(num).as_str(),
                ),
            ),
        ),
    }
}


// ---------------------------------------------------------------------------
// The transaction handler
// ---------------------------------------------------------------------------
/// View of a [`SabreTransactionHandler`].
pub ghost struct SabreTransactionHandlerV {
    pub family_name: Seq<char>,
    pub family_versions: Seq<Seq<char>>,
    pub namespaces: Seq<Seq<char>>,
}

/// The handler's identity towards the outer validator: its family name and
/// version, and the three state namespaces it claims.
pub struct SabreTransactionHandler {
    family_name: String,
    family_versions: Vec<String>,
    namespaces: Vec<String>,
}

impl View for SabreTransactionHandler {
    type V = SabreTransactionHandlerV;

    closed spec fn view(&self) -> SabreTransactionHandlerV {
        SabreTransactionHandlerV {
            family_name: self.family_name@,
            family_versions: self.family_versions.deep_view(),
            namespaces: self.namespaces.deep_view(),
        }
    }
}

impl SabreTransactionHandler {
    /// Constructs the handler with its fixed identity.
    pub fn new() -> (r: SabreTransactionHandler)
        ensures
            r@.family_name == "sabre"@,
            r@.family_versions =~= seq!["0.4"@],
            r@.namespaces =~= seq![
                NAMESPACE_REGISTRY_PREFIX@,
                CONTRACT_REGISTRY_PREFIX@,
                CONTRACT_PREFIX@,
            ],
    {
        let family_name = String::from_str("sabre");
        let mut family_versions: Vec<String> = Vec::new();
        family_versions.push(String::from_str("0.4"));
        let mut namespaces: Vec<String> = Vec::new();
        namespaces.push(String::from_str(NAMESPACE_REGISTRY_PREFIX));
        namespaces.push(String::from_str(CONTRACT_REGISTRY_PREFIX));
        namespaces.push(String::from_str(CONTRACT_PREFIX));
        let r = SabreTransactionHandler { family_name, family_versions, namespaces };
        proof {
            assert(r.family_versions.deep_view() =~= seq!["0.4"@]);
            assert(r.namespaces.deep_view() =~= seq![
                NAMESPACE_REGISTRY_PREFIX@,
                CONTRACT_REGISTRY_PREFIX@,
                CONTRACT_PREFIX@,
            ]);
        }
        r
    }

    /// The transaction family's name.
    pub fn family_name(&self) -> (r: String)
        ensures
            r@ == self@.family_name,
    {
        self.family_name.clone()
    }

    /// The transaction family's versions.
    pub fn family_versions(&self) -> (r: Vec<String>)
        ensures
            r.deep_view() == self@.family_versions,
    {
        clone_string_slice(self.family_versions.as_slice())
    }

    /// The state namespaces the handler claims.
    pub fn namespaces(&self) -> (r: Vec<String>)
        ensures
            r.deep_view() == self@.namespaces,
    {
        clone_string_slice(self.namespaces.as_slice())
    }
}

/// The decision tree of one whole transaction: which action runs, what the
/// state becomes, and — for a contract execution — which contract is to
/// run, with the state untouched until the module has run.
pub open spec fn spec_apply(
    m: Map<Seq<char>, StoredValueV>,
    a: ActionV,
    signer: Seq<char>,
) -> Result<(Map<Seq<char>, StoredValueV>, Option<ContractV>), Seq<char>> {
    match a {
        ActionV::CreateContract(p) => match spec_create_contract(m, p, signer) {
            Ok(m2) => Ok((m2, None)),
            Err(e) => Err(e),
        },
        ActionV::DeleteContract(p) => match spec_delete_contract(m, p, signer) {
            Ok(m2) => Ok((m2, None)),
            Err(e) => Err(e),
        },
        ActionV::ExecuteContract(p) => match spec_check_execute(m, p) {
            Ok(c) => Ok((m, Some(c))),
            Err(e) => Err(e),
        },
        ActionV::CreateContractRegistry(p) => match spec_create_contract_registry(m, p, signer) {
            Ok(m2) => Ok((m2, None)),
            Err(e) => Err(e),
        },
        ActionV::DeleteContractRegistry(p) => match spec_delete_contract_registry(m, p, signer) {
            Ok(m2) => Ok((m2, None)),
            Err(e) => Err(e),
        },
        ActionV::UpdateContractRegistryOwners(p) => match spec_update_contract_registry_owners(
            m,
            p,
            signer,
        ) {
            Ok(m2) => Ok((m2, None)),
            Err(e) => Err(e),
        },
        ActionV::CreateNamespaceRegistry(p) => match spec_create_namespace_registry(
            m,
            p,
            signer,
        ) {
            Ok(m2) => Ok((m2, None)),
            Err(e) => Err(e),
        },
        ActionV::DeleteNamespaceRegistry(p) => match spec_delete_namespace_registry(
            m,
            p,
            signer,
        ) {
            Ok(m2) => Ok((m2, None)),
            Err(e) => Err(e),
        },
        ActionV::UpdateNamespaceRegistryOwners(p) => match spec_update_namespace_registry_owners(
            m,
            p,
            signer,
        ) {
            Ok(m2) => Ok((m2, None)),
            Err(e) => Err(e),
        },
        ActionV::CreateNamespaceRegistryPermission(
            p,
        ) => match spec_create_namespace_registry_permission(m, p, signer) {
            Ok(m2) => Ok((m2, None)),
            Err(e) => Err(e),
        },
        ActionV::DeleteNamespaceRegistryPermission(
            p,
        ) => match spec_delete_namespace_registry_permission(m, p, signer) {
            Ok(m2) => Ok((m2, None)),
            Err(e) => Err(e),
        },
        ActionV::CreateSmartPermission(p) => match spec_create_smart_permission(m, p, signer) {
            Ok(m2) => Ok((m2, None)),
            Err(e) => Err(e),
        },
        ActionV::UpdateSmartPermission(p) => match spec_update_smart_permission(m, p, signer) {
            Ok(m2) => Ok((m2, None)),
            Err(e) => Err(e),
        },
        ActionV::DeleteSmartPermission(p) => match spec_delete_smart_permission(m, p, signer) {
            Ok(m2) => Ok((m2, None)),
            Err(e) => Err(e),
        },
        ActionV::CreateAccount(p) => match spec_create_account(m, p, signer) {
            Ok(m2) => Ok((m2, None)),
            Err(e) => Err(e),
        },
        ActionV::UpdateAccount(p) => match spec_update_account(m, p, signer) {
            Ok(m2) => Ok((m2, None)),
            Err(e) => Err(e),
        },
        ActionV::CreateOrganization(p) => match spec_create_organization(m, p, signer) {
            Ok(m2) => Ok((m2, None)),
            Err(e) => Err(e),
        },
        ActionV::UpdateOrganization(p) => match spec_update_organization(m, p, signer) {
            Ok(m2) => Ok((m2, None)),
            Err(e) => Err(e),
        },
    }
}

impl SabreTransactionHandler {
    /// Runs one action against the state.  For every action but contract
    /// execution the state mutation completes here and `Ok(None)` comes
    /// back.  For contract execution all permission checks run here; the
    /// checked contract comes back as `Ok(Some(..))`, its bytecode to be
    /// run by the caller against this same state, and the caller then reads
    /// the module's result with [`interpret_execution_result`].
    pub fn apply(&self, action: &Action, signer: &str, state: &mut SmartState) -> (r: Result<
        Option<Contract>,
        ApplyError,
    >)
        requires
            old(state).wf(),
        ensures
            final(state).wf(),
            match r {
                Ok(copt) => spec_apply(old(state)@, action@, signer@) matches Ok((m2, cv))
                    && final(state)@ == m2 && (match (copt, cv) {
                    (Some(c), Some(v)) => c@ == v,
                    (None, None) => true,
                    _ => false,
                }),
                Err(e) => spec_apply(old(state)@, action@, signer@) matches Err(msg) && e@
                    == ApplyErrorV::InvalidTransaction(msg) && final(state)@ == old(state)@,
            },
    {
        match action {
            Action::CreateContract(payload) => match create_contract(payload, signer, state) {
                Ok(()) => Ok(None),
                Err(e) => Err(e),
            },
            Action::DeleteContract(payload) => match delete_contract(payload, signer, state) {
                Ok(()) => Ok(None),
                Err(e) => Err(e),
            },
            Action::ExecuteContract(payload) => match check_execute_contract(payload, state) {
                Ok(contract) => Ok(Some(contract)),
                Err(e) => Err(e),
            },
            Action::CreateContractRegistry(payload) => match create_contract_registry(
                payload,
                signer,
                state,
            ) {
                Ok(()) => Ok(None),
                Err(e) => Err(e),
            },
            Action::DeleteContractRegistry(payload) => match delete_contract_registry(
                payload,
                signer,
                state,
            ) {
                Ok(()) => Ok(None),
                Err(e) => Err(e),
            },
            Action::UpdateContractRegistryOwners(payload) => match update_contract_registry_owners(
                payload,
                signer,
                state,
            ) {
                Ok(()) => Ok(None),
                Err(e) => Err(e),
            },
            Action::CreateNamespaceRegistry(payload) => match create_namespace_registry(
                payload,
                signer,
                state,
            ) {
                Ok(()) => Ok(None),
                Err(e) => Err(e),
            },
            Action::DeleteNamespaceRegistry(payload) => match delete_namespace_registry(
                payload,
                signer,
                state,
            ) {
                Ok(()) => Ok(None),
                Err(e) => Err(e),
            },
            Action::UpdateNamespaceRegistryOwners(
                payload,
            ) => match update_namespace_registry_owners(payload, signer, state) {
                Ok(()) => Ok(None),
                Err(e) => Err(e),
            },
            Action::CreateNamespaceRegistryPermission(
                payload,
            ) => match create_namespace_registry_permission(payload, signer, state) {
                Ok(()) => Ok(None),
                Err(e) => Err(e),
            },
            Action::DeleteNamespaceRegistryPermission(
                payload,
            ) => match delete_namespace_registry_permission(payload, signer, state) {
                Ok(()) => Ok(None),
                Err(e) => Err(e),
            },
            Action::CreateSmartPermission(payload) => match create_smart_permission(
                payload,
                signer,
                state,
            ) {
                Ok(()) => Ok(None),
                Err(e) => Err(e),
            },
            Action::UpdateSmartPermission(payload) => match update_smart_permission(
                payload,
                signer,
                state,
            ) {
                Ok(()) => Ok(None),
                Err(e) => Err(e),
            },
            Action::DeleteSmartPermission(payload) => match delete_smart_permission(
                payload,
                signer,
                state,
            ) {
                Ok(()) => Ok(None),
                Err(e) => Err(e),
            },
            Action::CreateAccount(payload) => match create_account(payload, signer, state) {
                Ok(()) => Ok(None),
                Err(e) => Err(e),
            },
            Action::UpdateAccount(payload) => match update_account(payload, signer, state) {
                Ok(()) => Ok(None),
                Err(e) => Err(e),
            },
            Action::CreateOrganization(payload) => match create_organization(
                payload,
                signer,
                state,
            ) {
                Ok(()) => Ok(None),
                Err(e) => Err(e),
            },
            Action::UpdateOrganization(payload) => match update_organization(
                payload,
                signer,
                state,
            ) {
                Ok(()) => Ok(None),
                Err(e) => Err(e),
            },
        }
    }
}

} // verus!
