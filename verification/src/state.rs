//! The typed state accessor over the transaction's key-value context.
//!
//! State is a set of entries, one per address.  Because addresses truncate
//! a digest, distinct logical keys can share an address; every entry
//! therefore holds a list of same-address entities, kept in key order, and
//! every read scans the list for the logical key.  A mutation replaces the
//! entity with the mutated key and keeps the order; a delete removes the
//! whole entry at the address, collided siblings included.

use vstd::prelude::*;
use crate::addressing::{
    contract_address, contract_registry_address, namespace_registry_address,
    smart_permission_address, account_address, org_address, make_contract_address,
    make_contract_registry_address, make_namespace_registry_address,
    compute_smart_permission_address, compute_account_address, compute_org_address,
    lemma_address_prefixes, CONTRACT_PREFIX, CONTRACT_REGISTRY_PREFIX,
    NAMESPACE_REGISTRY_PREFIX, SMART_PERMISSION_PREFIX, SMART_ACCOUNT_PREFIX, SMART_ORG_PREFIX,
};
use crate::error::{ApplyError, ApplyErrorV};
use crate::keyed::{
    sorted_keyed, find_keyed, upsert_keyed, lemma_find_keyed_skip, lemma_upsert_keyed_props,
    lemma_upsert_keyed_decompose,
};
use crate::protocol::state::{
    Contract, ContractV, ContractList, ContractListBuilder, ContractRegistry, ContractRegistryV,
    ContractRegistryList, ContractRegistryListBuilder, NamespaceRegistry, NamespaceRegistryV,
    NamespaceRegistryList, NamespaceRegistryListBuilder, SmartPermission, SmartPermissionV,
    SmartPermissionList, SmartPermissionListBuilder, Account, AccountV, AccountList,
    AccountListBuilder, Organization, OrganizationV, OrganizationList, OrganizationListBuilder,
};
use crate::setting::{Setting, SettingV};
use crate::strutil::{str_eq, str_lt, str_key_lt};
use crate::ADMINISTRATORS_SETTING_ADDRESS;

verus! {

// ---------------------------------------------------------------------------
// Keys of the per-address lists
// ---------------------------------------------------------------------------
/// Contracts at one address are keyed by contract name.
pub open spec fn contract_keyf() -> spec_fn(ContractV) -> Seq<char> {
    |c: ContractV| c.name
}

/// Contract registries are keyed by contract name.
pub open spec fn contract_registry_keyf() -> spec_fn(ContractRegistryV) -> Seq<char> {
    |r: ContractRegistryV| r.name
}

/// Namespace registries are keyed by namespace.
pub open spec fn namespace_registry_keyf() -> spec_fn(NamespaceRegistryV) -> Seq<char> {
    |r: NamespaceRegistryV| r.namespace
}

/// Smart permissions are keyed by name.
pub open spec fn smart_permission_keyf() -> spec_fn(SmartPermissionV) -> Seq<char> {
    |p: SmartPermissionV| p.name
}

/// Accounts are keyed by public key.
pub open spec fn account_keyf() -> spec_fn(AccountV) -> Seq<char> {
    |a: AccountV| a.public_key
}

/// Organizations are keyed by organization id.
pub open spec fn organization_keyf() -> spec_fn(OrganizationV) -> Seq<char> {
    |o: OrganizationV| o.org_id
}

/// A contract registry's version entries are keyed by version string.
pub open spec fn version_keyf() -> spec_fn(crate::protocol::state::VersionV) -> Seq<char> {
    |v: crate::protocol::state::VersionV| v.version
}

/// A namespace registry's permissions are keyed by contract name.
pub open spec fn permission_keyf() -> spec_fn(crate::protocol::state::PermissionV) -> Seq<
    char,
> {
    |p: crate::protocol::state::PermissionV| p.contract_name
}

/// No two permissions of a namespace registry name the same contract.
pub open spec fn permissions_unique(r: NamespaceRegistryV) -> bool {
    forall|i: int, j: int|
        0 <= i < j < r.permissions.len() ==> (#[trigger] r.permissions[i]).contract_name != (
        #[trigger] r.permissions[j]).contract_name
}

// ---------------------------------------------------------------------------
// Stored values
// ---------------------------------------------------------------------------
/// View of a [`StoredValue`].
pub ghost enum StoredValueV {
    Contracts(Seq<ContractV>),
    ContractRegistries(Seq<ContractRegistryV>),
    NamespaceRegistries(Seq<NamespaceRegistryV>),
    SmartPermissions(Seq<SmartPermissionV>),
    Accounts(Seq<AccountV>),
    Organizations(Seq<OrganizationV>),
    Setting(SettingV),
}

/// What one state entry holds: the list wrapper of one entity kind, or the
/// externally managed settings blob.
#[derive(Debug, PartialEq)]
pub enum StoredValue {
    Contracts(ContractList),
    ContractRegistries(ContractRegistryList),
    NamespaceRegistries(NamespaceRegistryList),
    SmartPermissions(SmartPermissionList),
    Accounts(AccountList),
    Organizations(OrganizationList),
    Setting(Setting),
}

impl View for StoredValue {
    type V = StoredValueV;

    open spec fn view(&self) -> StoredValueV {
        match self {
            StoredValue::Contracts(l) => StoredValueV::Contracts(l@),
            StoredValue::ContractRegistries(l) => StoredValueV::ContractRegistries(l@),
            StoredValue::NamespaceRegistries(l) => StoredValueV::NamespaceRegistries(l@),
            StoredValue::SmartPermissions(l) => StoredValueV::SmartPermissions(l@),
            StoredValue::Accounts(l) => StoredValueV::Accounts(l@),
            StoredValue::Organizations(l) => StoredValueV::Organizations(l@),
            StoredValue::Setting(s) => StoredValueV::Setting(s@),
        }
    }
}

/// View of a [`StateEntry`].
pub ghost struct StateEntryV {
    pub addr: Seq<char>,
    pub val: StoredValueV,
}

/// One state entry: everything stored at one address.
struct StateEntry {
    address: String,
    value: StoredValue,
}

impl View for StateEntry {
    type V = StateEntryV;

    closed spec fn view(&self) -> StateEntryV {
        StateEntryV { addr: self.address@, val: self.value@ }
    }
}

impl DeepView for StateEntry {
    type V = StateEntryV;

    open spec fn deep_view(&self) -> StateEntryV {
        self.view()
    }
}

// ---------------------------------------------------------------------------
// The entry list as a map
// ---------------------------------------------------------------------------
/// The entries, read as a map from address to stored value.
pub open spec fn map_of(s: Seq<StateEntryV>) -> Map<Seq<char>, StoredValueV>
    decreases s.len(),
{
    if s.len() == 0 {
        Map::empty()
    } else {
        map_of(s.drop_last()).insert(s.last().addr, s.last().val)
    }
}

/// No two entries share an address.
pub open spec fn addrs_distinct(s: Seq<StateEntryV>) -> bool {
    forall|i: int, j: int| 0 <= i < j < s.len() ==> (#[trigger] s[i]).addr != (
    #[trigger] s[j]).addr
}

/// What one entry may hold: its address class determines the entity kind,
/// and the list is in key order (namespace registries also keep at most one
/// permission per contract).
pub open spec fn value_wf(addr: Seq<char>, v: StoredValueV) -> bool {
    match v {
        StoredValueV::Contracts(l) => addr.len() == 70 && addr.take(6) == CONTRACT_PREFIX@
            && sorted_keyed(l, contract_keyf()),
        StoredValueV::ContractRegistries(l) => addr.len() == 70 && addr.take(6)
            == CONTRACT_REGISTRY_PREFIX@ && sorted_keyed(l, contract_registry_keyf()) && (
        forall|i: int| 0 <= i < l.len() ==> (#[trigger] l[i]).owners.len() > 0),
        StoredValueV::NamespaceRegistries(l) => addr.len() == 70 && addr.take(6)
            == NAMESPACE_REGISTRY_PREFIX@ && sorted_keyed(l, namespace_registry_keyf()) && (
        forall|i: int| 0 <= i < l.len() ==> permissions_unique(#[trigger] l[i]) && (
        #[trigger] l[i]).owners.len() > 0),
        StoredValueV::SmartPermissions(l) => addr.len() == 70 && addr.take(6)
            == SMART_PERMISSION_PREFIX@ && sorted_keyed(l, smart_permission_keyf()),
        StoredValueV::Accounts(l) => addr.len() == 70 && addr.take(8) == SMART_ACCOUNT_PREFIX@
            && sorted_keyed(l, account_keyf()),
        StoredValueV::Organizations(l) => addr.len() == 70 && addr.take(8) == SMART_ORG_PREFIX@
            && sorted_keyed(l, organization_keyf()),
        StoredValueV::Setting(_) => addr == ADMINISTRATORS_SETTING_ADDRESS@,
    }
}

/// Entries are well formed: distinct addresses, each holding what its
/// address class allows.
pub open spec fn entries_wf(s: Seq<StateEntryV>) -> bool {
    addrs_distinct(s) && forall|i: int|
        0 <= i < s.len() ==> value_wf((#[trigger] s[i]).addr, s[i].val)
}

/// An address determines the variant of a well-formed value stored there.
proof fn lemma_variant_at(addr: Seq<char>, v: StoredValueV)
    requires
        value_wf(addr, v),
        addr.len() == 70,
    ensures
        addr.take(6) == CONTRACT_PREFIX@ ==> v is Contracts,
        addr.take(6) == CONTRACT_REGISTRY_PREFIX@ ==> v is ContractRegistries,
        addr.take(6) == NAMESPACE_REGISTRY_PREFIX@ ==> v is NamespaceRegistries,
        addr.take(6) == SMART_PERMISSION_PREFIX@ ==> v is SmartPermissions,
        addr.take(8) == SMART_ACCOUNT_PREFIX@ ==> v is Accounts,
        addr.take(8) == SMART_ORG_PREFIX@ ==> v is Organizations,
        addr == ADMINISTRATORS_SETTING_ADDRESS@ ==> v is Setting,
{
    reveal_strlit("00ec00");
    reveal_strlit("00ec01");
    reveal_strlit("00ec02");
    reveal_strlit("00ec03");
    reveal_strlit("cad11d00");
    reveal_strlit("cad11d01");
    reveal_strlit("000000a87cb5eafdcca6a814e4add97c4b517d3c530c2f44b31d18e3b0c44298fc1c14");
    match v {
        StoredValueV::Contracts(_) => {
            assert(addr.take(6)[0] == addr[0] && addr.take(6)[2] == addr[2] && addr.take(6)[5]
                == addr[5]);
            assert(addr[0] == '0' && addr[2] == 'e' && addr[5] == '2');
            if addr.take(6) == CONTRACT_REGISTRY_PREFIX@ {
                assert(addr[5] == '1');
                assert(false);
            }
            if addr.take(6) == NAMESPACE_REGISTRY_PREFIX@ {
                assert(addr[5] == '0');
                assert(false);
            }
            if addr.take(6) == SMART_PERMISSION_PREFIX@ {
                assert(addr[5] == '3');
                assert(false);
            }
            if addr.take(8) == SMART_ACCOUNT_PREFIX@ {
                assert(addr.take(8)[0] == addr[0]);
                assert(addr[0] == 'c');
                assert(false);
            }
            if addr.take(8) == SMART_ORG_PREFIX@ {
                assert(addr.take(8)[0] == addr[0]);
                assert(addr[0] == 'c');
                assert(false);
            }
            if addr == ADMINISTRATORS_SETTING_ADDRESS@ {
                assert(addr[2] == '0');
                assert(false);
            }
        },
        StoredValueV::ContractRegistries(_) => {
            assert(addr.take(6)[0] == addr[0] && addr.take(6)[2] == addr[2] && addr.take(6)[5]
                == addr[5]);
            assert(addr[0] == '0' && addr[2] == 'e' && addr[5] == '1');
            if addr.take(6) == CONTRACT_PREFIX@ {
                assert(addr[5] == '2');
                assert(false);
            }
            if addr.take(6) == NAMESPACE_REGISTRY_PREFIX@ {
                assert(addr[5] == '0');
                assert(false);
            }
            if addr.take(6) == SMART_PERMISSION_PREFIX@ {
                assert(addr[5] == '3');
                assert(false);
            }
            if addr.take(8) == SMART_ACCOUNT_PREFIX@ {
                assert(addr.take(8)[0] == addr[0]);
                assert(addr[0] == 'c');
                assert(false);
            }
            if addr.take(8) == SMART_ORG_PREFIX@ {
                assert(addr.take(8)[0] == addr[0]);
                assert(addr[0] == 'c');
                assert(false);
            }
            if addr == ADMINISTRATORS_SETTING_ADDRESS@ {
                assert(addr[2] == '0');
                assert(false);
            }
        },
        StoredValueV::NamespaceRegistries(_) => {
            assert(addr.take(6)[0] == addr[0] && addr.take(6)[2] == addr[2] && addr.take(6)[5]
                == addr[5]);
            assert(addr[0] == '0' && addr[2] == 'e' && addr[5] == '0');
            if addr.take(6) == CONTRACT_PREFIX@ {
                assert(addr[5] == '2');
                assert(false);
            }
            if addr.take(6) == CONTRACT_REGISTRY_PREFIX@ {
                assert(addr[5] == '1');
                assert(false);
            }
            if addr.take(6) == SMART_PERMISSION_PREFIX@ {
                assert(addr[5] == '3');
                assert(false);
            }
            if addr.take(8) == SMART_ACCOUNT_PREFIX@ {
                assert(addr.take(8)[0] == addr[0]);
                assert(addr[0] == 'c');
                assert(false);
            }
            if addr.take(8) == SMART_ORG_PREFIX@ {
                assert(addr.take(8)[0] == addr[0]);
                assert(addr[0] == 'c');
                assert(false);
            }
            if addr == ADMINISTRATORS_SETTING_ADDRESS@ {
                assert(addr[2] == '0');
                assert(false);
            }
        },
        StoredValueV::SmartPermissions(_) => {
            assert(addr.take(6)[0] == addr[0] && addr.take(6)[2] == addr[2] && addr.take(6)[5]
                == addr[5]);
            assert(addr[0] == '0' && addr[2] == 'e' && addr[5] == '3');
            if addr.take(6) == CONTRACT_PREFIX@ {
                assert(addr[5] == '2');
                assert(false);
            }
            if addr.take(6) == CONTRACT_REGISTRY_PREFIX@ {
                assert(addr[5] == '1');
                assert(false);
            }
            if addr.take(6) == NAMESPACE_REGISTRY_PREFIX@ {
                assert(addr[5] == '0');
                assert(false);
            }
            if addr.take(8) == SMART_ACCOUNT_PREFIX@ {
                assert(addr.take(8)[0] == addr[0]);
                assert(addr[0] == 'c');
                assert(false);
            }
            if addr.take(8) == SMART_ORG_PREFIX@ {
                assert(addr.take(8)[0] == addr[0]);
                assert(addr[0] == 'c');
                assert(false);
            }
            if addr == ADMINISTRATORS_SETTING_ADDRESS@ {
                assert(addr[2] == '0');
                assert(false);
            }
        },
        StoredValueV::Accounts(_) => {
            assert(addr.take(8)[0] == addr[0] && addr.take(8)[2] == addr[2] && addr.take(8)[7]
                == addr[7]);
            assert(addr[0] == 'c' && addr[7] == '0');
            if addr.take(6) == CONTRACT_PREFIX@ {
                assert(addr.take(6)[0] == addr[0]);
                assert(addr[0] == '0');
                assert(false);
            }
            if addr.take(6) == CONTRACT_REGISTRY_PREFIX@ {
                assert(addr.take(6)[0] == addr[0]);
                assert(addr[0] == '0');
                assert(false);
            }
            if addr.take(6) == NAMESPACE_REGISTRY_PREFIX@ {
                assert(addr.take(6)[0] == addr[0]);
                assert(addr[0] == '0');
                assert(false);
            }
            if addr.take(6) == SMART_PERMISSION_PREFIX@ {
                assert(addr.take(6)[0] == addr[0]);
                assert(addr[0] == '0');
                assert(false);
            }
            if addr.take(8) == SMART_ORG_PREFIX@ {
                assert(addr[7] == '1');
                assert(false);
            }
            if addr == ADMINISTRATORS_SETTING_ADDRESS@ {
                assert(addr[0] == '0');
                assert(false);
            }
        },
        StoredValueV::Organizations(_) => {
            assert(addr.take(8)[0] == addr[0] && addr.take(8)[2] == addr[2] && addr.take(8)[7]
                == addr[7]);
            assert(addr[0] == 'c' && addr[7] == '1');
            if addr.take(6) == CONTRACT_PREFIX@ {
                assert(addr.take(6)[0] == addr[0]);
                assert(addr[0] == '0');
                assert(false);
            }
            if addr.take(6) == CONTRACT_REGISTRY_PREFIX@ {
                assert(addr.take(6)[0] == addr[0]);
                assert(addr[0] == '0');
                assert(false);
            }
            if addr.take(6) == NAMESPACE_REGISTRY_PREFIX@ {
                assert(addr.take(6)[0] == addr[0]);
                assert(addr[0] == '0');
                assert(false);
            }
            if addr.take(6) == SMART_PERMISSION_PREFIX@ {
                assert(addr.take(6)[0] == addr[0]);
                assert(addr[0] == '0');
                assert(false);
            }
            if addr.take(8) == SMART_ACCOUNT_PREFIX@ {
                assert(addr[7] == '0');
                assert(false);
            }
            if addr == ADMINISTRATORS_SETTING_ADDRESS@ {
                assert(addr[0] == '0');
                assert(false);
            }
        },
        StoredValueV::Setting(_) => {
            assert(addr.take(6)[0] == addr[0] && addr.take(6)[2] == addr[2]);
            assert(addr.take(8)[0] == addr[0]);
            assert(addr[0] == '0' && addr[2] == '0');
            if addr.take(6) == CONTRACT_PREFIX@ {
                assert(addr[2] == 'e');
                assert(false);
            }
            if addr.take(6) == CONTRACT_REGISTRY_PREFIX@ {
                assert(addr[2] == 'e');
                assert(false);
            }
            if addr.take(6) == NAMESPACE_REGISTRY_PREFIX@ {
                assert(addr[2] == 'e');
                assert(false);
            }
            if addr.take(6) == SMART_PERMISSION_PREFIX@ {
                assert(addr[2] == 'e');
                assert(false);
            }
            if addr.take(8) == SMART_ACCOUNT_PREFIX@ {
                assert(addr[0] == 'c');
                assert(false);
            }
            if addr.take(8) == SMART_ORG_PREFIX@ {
                assert(addr[0] == 'c');
                assert(false);
            }
        },
    }
}

/// Every entry is in the map, under its address.
proof fn lemma_map_of_props(s: Seq<StateEntryV>)
    requires
        addrs_distinct(s),
    ensures
        forall|i: int| 0 <= i < s.len() ==> map_of(s).contains_key((#[trigger] s[i]).addr)
            && map_of(s)[s[i].addr] == s[i].val,
        forall|a: Seq<char>| #[trigger] map_of(s).contains_key(a) ==> exists|i: int|
            0 <= i < s.len() && (#[trigger] s[i]).addr == a,
    decreases s.len(),
{
    if s.len() > 0 {
        let bl = s.drop_last();
        lemma_map_of_props(bl);
        assert forall|i: int| 0 <= i < s.len() implies map_of(s).contains_key(
            (#[trigger] s[i]).addr,
        ) && map_of(s)[s[i].addr] == s[i].val by {
            if i < s.len() - 1 {
                assert(bl[i] == s[i]);
                assert(s[i].addr != s.last().addr);
            }
        }
        assert forall|a: Seq<char>| #[trigger] map_of(s).contains_key(a) implies exists|i: int|
            0 <= i < s.len() && (#[trigger] s[i]).addr == a by {
            if a != s.last().addr {
                assert(map_of(bl).contains_key(a));
                let i = choose|i: int| 0 <= i < bl.len() && (#[trigger] bl[i]).addr == a;
                assert(s[i].addr == a);
            } else {
                assert(s[s.len() - 1].addr == a);
            }
        }
    }
}

/// Replacing the entry at `i` updates the map at that entry's address.
proof fn lemma_map_of_update(s: Seq<StateEntryV>, i: int, e: StateEntryV)
    requires
        addrs_distinct(s),
        0 <= i < s.len(),
        e.addr == s[i].addr,
    ensures
        map_of(s.update(i, e)) == map_of(s).insert(e.addr, e.val),
    decreases s.len(),
{
    let t = s.update(i, e);
    if i == s.len() - 1 {
        assert(t.drop_last() =~= s.drop_last());
        assert(map_of(t) =~= map_of(s).insert(e.addr, e.val));
    } else {
        assert(t.drop_last() =~= s.drop_last().update(i, e));
        lemma_map_of_update(s.drop_last(), i, e);
        assert(s.last().addr != e.addr);
        assert(t.last() == s.last());
        assert(map_of(t) =~= map_of(s).insert(e.addr, e.val));
    }
}

/// Appending an entry with a fresh address inserts it into the map.
proof fn lemma_map_of_push(s: Seq<StateEntryV>, e: StateEntryV)
    ensures
        map_of(s.push(e)) == map_of(s).insert(e.addr, e.val),
{
    assert(s.push(e).drop_last() =~= s);
    assert(s.push(e).last() == e);
}

/// Removing the entry at `i` removes its address from the map.
proof fn lemma_map_of_remove(s: Seq<StateEntryV>, i: int)
    requires
        addrs_distinct(s),
        0 <= i < s.len(),
    ensures
        map_of(s.remove(i)) == map_of(s).remove(s[i].addr),
    decreases s.len(),
{
    lemma_map_of_props(s);
    let t = s.remove(i);
    s.remove_ensures(i);
    if i == s.len() - 1 {
        assert(t =~= s.drop_last());
        assert forall|a: Seq<char>| true implies !(map_of(t).contains_key(a) && a == s[
            i
        ].addr) by {
            if map_of(t).contains_key(a) {
                lemma_map_of_props(t);
                let j = choose|j: int| 0 <= j < t.len() && (#[trigger] t[j]).addr == a;
                assert(s[j] == t[j]);
            }
        }
        assert(map_of(t) =~= map_of(s).remove(s[i].addr));
    } else {
        assert(t.drop_last() =~= s.drop_last().remove(i));
        assert(t.last() == s.last());
        lemma_map_of_remove(s.drop_last(), i);
        assert(s.drop_last()[i] == s[i]);
        assert(s.last().addr != s[i].addr);
        assert(map_of(t) =~= map_of(s).remove(s[i].addr));
    }
}

// ---------------------------------------------------------------------------
// The state
// ---------------------------------------------------------------------------
/// The per-transaction state: every address with what is stored there.
pub struct SmartState {
    entries: Vec<StateEntry>,
}

impl View for SmartState {
    type V = Map<Seq<char>, StoredValueV>;

    closed spec fn view(&self) -> Map<Seq<char>, StoredValueV> {
        map_of(self.entries.deep_view())
    }
}

impl SmartState {
    /// The state is well formed; every operation of this module keeps it so.
    pub closed spec fn wf(&self) -> bool {
        entries_wf(self.entries.deep_view())
    }

    /// An empty state.
    pub fn new() -> (r: SmartState)
        ensures
            r.wf(),
            r@ == Map::<Seq<char>, StoredValueV>::empty(),
    {
        let r = SmartState { entries: Vec::new() };
        proof {
            assert(r.entries.deep_view() =~= Seq::<StateEntryV>::empty());
        }
        r
    }

    /// The index of the entry at `address`, if any.
    #[verifier::loop_isolation(false)]
    fn find_entry(&self, address: &str) -> (r: Option<usize>)
        ensures
            match r {
                Some(i) => i < self.entries.deep_view().len()
                    && self.entries.deep_view()[i as int].addr == address@,
                None => forall|j: int|
                    0 <= j < self.entries.deep_view().len()
                        ==> (#[trigger] self.entries.deep_view()[j]).addr != address@,
            },
    {
        let n = self.entries.len();
        let mut i: usize = 0;
        while i < n
            invariant
                i <= n,
                forall|j: int| 0 <= j < i ==> (#[trigger] self.entries.deep_view()[j]).addr
                    != address@,
            decreases n - i,
        {
            proof {
                assert(self.entries.deep_view()[i as int] == self.entries[i as int].deep_view());
            }
            if str_eq(self.entries[i].address.as_str(), address) {
                return Some(i);
            }
            i += 1;
        }
        None
    }

    /// Every value a well-formed state stores is well formed for its
    /// address: what the other modules carry through their proofs.
    pub proof fn lemma_wf_map(&self)
        requires
            self.wf(),
        ensures
            forall|a: Seq<char>| #[trigger] self@.contains_key(a) ==> value_wf(a, self@[a]),
    {
        lemma_map_of_props(self.entries.deep_view());
        assert forall|a: Seq<char>| #[trigger] self@.contains_key(a) implies value_wf(
            a,
            self@[a],
        ) by {
            let dv = self.entries.deep_view();
            let i = choose|i: int| 0 <= i < dv.len() && (#[trigger] dv[i]).addr == a;
            assert(value_wf(dv[i].addr, dv[i].val));
        }
    }
}

// ---------------------------------------------------------------------------
// Contracts
// ---------------------------------------------------------------------------
/// The contracts stored at `addr`, an empty list when there are none.
pub open spec fn stored_contracts(m: Map<Seq<char>, StoredValueV>, addr: Seq<char>) -> Seq<
    ContractV,
> {
    if m.contains_key(addr) {
        match m[addr] {
            StoredValueV::Contracts(l) => l,
            _ => Seq::empty(),
        }
    } else {
        Seq::empty()
    }
}

/// The contract stored under `(name, version)`: the entity named `name` in
/// the list at the contract address of `(name, version)`.
pub open spec fn spec_get_contract(
    m: Map<Seq<char>, StoredValueV>,
    name: Seq<char>,
    version: Seq<char>,
) -> Option<ContractV> {
    find_keyed(stored_contracts(m, contract_address(name, version)), contract_keyf(), name)
}

/// The map after storing `c` under `(name, version)`: the list at the
/// contract address, with any contract named `name` replaced by `c`, in key
/// order.
pub open spec fn spec_set_contract(
    m: Map<Seq<char>, StoredValueV>,
    name: Seq<char>,
    version: Seq<char>,
    c: ContractV,
) -> Map<Seq<char>, StoredValueV> {
    let addr = contract_address(name, version);
    m.insert(
        addr,
        StoredValueV::Contracts(upsert_keyed(stored_contracts(m, addr), contract_keyf(), c)),
    )
}

/// The position of the first contract whose name is not below `cname` in
/// the key order.
fn contract_insert_pos(s: &[Contract], cname: &str) -> (p: usize)
    ensures
        p <= s.deep_view().len(),
        forall|m: int| 0 <= m < p ==> str_key_lt((#[trigger] s.deep_view()[m]).name, cname@),
        p < s.deep_view().len() ==> !str_key_lt(s.deep_view()[p as int].name, cname@),
{
    let n = s.len();
    let mut p: usize = 0;
    while p < n
        invariant
            n == s.deep_view().len(),
            p <= n,
            forall|m: int| 0 <= m < p ==> str_key_lt(
                (#[trigger] s.deep_view()[m]).name,
                cname@,
            ),
        ensures
            p <= n,
            forall|m: int| 0 <= m < p ==> str_key_lt(
                (#[trigger] s.deep_view()[m]).name,
                cname@,
            ),
            p < n ==> !str_key_lt(s.deep_view()[p as int].name, cname@),
        decreases n - p,
    {
        proof {
            assert(s.deep_view()[p as int] == s[p as int]@);
        }
        if !str_lt(s[p].get_name().as_str(), cname) {
            break ;
        }
        p += 1;
    }
    p
}

impl SmartState {
    /// Looks up the contract stored under `(name, version)`.
    #[verifier::loop_isolation(false)]
    pub fn get_contract(&self, name: &str, version: &str) -> (r: Result<
        Option<Contract>,
        ApplyError,
    >)
        requires
            self.wf(),
        ensures
            match r {
                Ok(Some(c)) => spec_get_contract(self@, name@, version@) == Some(c@),
                Ok(None) => spec_get_contract(self@, name@, version@) is None,
                Err(_) => false,
            },
    {
        let address = make_contract_address(name, version)?;
        proof {
            lemma_address_prefixes(name@, version@);
            lemma_map_of_props(self.entries.deep_view());
        }
        match self.find_entry(address.as_str()) {
            None => {
                proof {
                    if self@.contains_key(address@) {
                        let dv = self.entries.deep_view();
                        let i = choose|i: int|
                            0 <= i < dv.len() && (#[trigger] dv[i]).addr == address@;
                    }
                }
                Ok(None)
            },
            Some(i) => {
                proof {
                    let dv = self.entries.deep_view();
                    assert(dv[i as int] == self.entries[i as int].deep_view());
                    lemma_variant_at(dv[i as int].addr, dv[i as int].val);
                }
                match &self.entries[i].value {
                    StoredValue::Contracts(list) => {
                        let ghost l = stored_contracts(self@, address@);
                        let s = list.get_contracts();
                        proof {
                            assert(s.deep_view() == l);
                        }
                        let n = s.len();
                        let mut j: usize = 0;
                        while j < n
                            invariant
                                j <= n,
                                forall|m: int| 0 <= m < j
                                    ==> (#[trigger] s.deep_view()[m]).name != name@,
                            decreases n - j,
                        {
                            proof {
                                assert(s.deep_view()[j as int] == s[j as int]@);
                            }
                            if str_eq(s[j].get_name().as_str(), name) {
                                proof {
                                    assert forall|m: int| 0 <= m < j implies contract_keyf()(
                                        #[trigger] l[m],
                                    ) != name@ by {}
                                    lemma_find_keyed_skip(l, contract_keyf(), name@, j as int);
                                    assert(l.skip(j as int)[0] == l[j as int]);
                                    assert(l.skip(j as int).len() > 0);
                                    assert(contract_keyf()(l[j as int]) == name@);
                                    assert(find_keyed(l.skip(j as int), contract_keyf(), name@)
                                        == Some(l[j as int]));
                                }
                                return Ok(Some(s[j].clone()));
                            }
                            j += 1;
                        }
                        proof {
                            assert forall|m: int| 0 <= m < n implies contract_keyf()(
                                #[trigger] l[m],
                            ) != name@ by {}
                            lemma_find_keyed_skip(l, contract_keyf(), name@, n as int);
                            assert(l.skip(n as int).len() == 0);
                        }
                        Ok(None)
                    },
                    _ => {
                        Err(
                            ApplyError::InvalidTransaction(
                                String::from_str("Cannot deserialize contract list"),
                            ),
                        )
                    },
                }
            },
        }
    }

    /// Stores `new_contract` under `(name, version)`, replacing any
    /// contract of that name at the same address and keeping the address's
    /// list in key order.
    #[verifier::loop_isolation(false)]
    pub fn set_contract(&mut self, name: &str, version: &str, new_contract: Contract) -> (r:
        Result<(), ApplyError>)
        requires
            old(self).wf(),
            new_contract@.name == name@,
        ensures
            final(self).wf(),
            r matches Ok(()),
            final(self)@ == spec_set_contract(old(self)@, name@, version@, new_contract@),
    {
        let address = make_contract_address(name, version)?;
        proof {
            lemma_address_prefixes(name@, version@);
            lemma_map_of_props(self.entries.deep_view());
        }
        let ghost l = stored_contracts(self@, address@);
        let idx = self.find_entry(address.as_str());
        proof {
            if idx is None && self@.contains_key(address@) {
                let dv = self.entries.deep_view();
                let i = choose|i: int| 0 <= i < dv.len() && (#[trigger] dv[i]).addr == address@;
            }
        }
        let mut items: Vec<Contract> = Vec::new();
        let mut replace_at: Option<usize> = None;
        let ghost newv = new_contract@;
        match idx {
            None => {
                items.push(new_contract);
                proof {
                    assert(l =~= Seq::<ContractV>::empty());
                    assert(items.deep_view() =~= upsert_keyed(l, contract_keyf(), newv));
                }
            },
            Some(i) => {
                proof {
                    let dv = self.entries.deep_view();
                    assert(dv[i as int] == self.entries[i as int].deep_view());
                    lemma_variant_at(dv[i as int].addr, dv[i as int].val);
                }
                match &self.entries[i].value {
                    StoredValue::Contracts(list) => {
                        let s = list.get_contracts();
                        proof {
                            assert(s.deep_view() == l);
                        }
                        let n = s.len();
                        // the insert position: the first entity whose key
                        // is not below the new key
                        let p = contract_insert_pos(s, new_contract.get_name().as_str());
                        let mut j: usize = 0;
                        while j < p
                            invariant
                                j <= p,
                                items.deep_view() == l.take(j as int),
                            decreases p - j,
                        {
                            proof {
                                assert(s.deep_view()[j as int] == s[j as int]@);
                            }
                            let ghost before = items.deep_view();
                            items.push(s[j].clone());
                            proof {
                                assert forall|m: int|
                                    0 <= m < items.deep_view().len() implies items.deep_view()[m]
                                    == l.take(j + 1)[m] by {
                                    if m < before.len() {
                                        assert(items.deep_view()[m] == before[m]);
                                    } else {
                                        assert(items.deep_view()[m] == items[m]@);
                                    }
                                }
                                assert(items.deep_view() =~= l.take(j + 1));
                            }
                            j += 1;
                        }
                        let skip_equal = if p < n {
                            proof {
                                assert(s.deep_view()[p as int] == s[p as int]@);
                            }
                            str_eq(s[p].get_name().as_str(), new_contract.get_name().as_str())
                        } else {
                            false
                        };
                        let ghost before = items.deep_view();
                        items.push(new_contract);
                        let mut j2: usize = if skip_equal {
                            p + 1
                        } else {
                            p
                        };
                        let ghost start = j2 as int;
                        proof {
                            assert forall|m: int|
                                0 <= m < items.deep_view().len() implies items.deep_view()[m]
                                == l.take(p as int).push(newv)[m] by {
                                if m < before.len() {
                                    assert(items.deep_view()[m] == before[m]);
                                } else {
                                    assert(items.deep_view()[m] == items[m]@);
                                }
                            }
                            assert(items.deep_view() =~= l.take(p as int).push(newv));
                            assert(l.subrange(start, start) =~= Seq::<ContractV>::empty());
                            assert(items.deep_view() =~= l.take(p as int).push(newv)
                                + l.subrange(start, start));
                        }
                        while j2 < n
                            invariant
                                start <= j2 as int <= n,
                                items.deep_view() == l.take(p as int).push(newv) + l.subrange(
                                    start,
                                    j2 as int,
                                ),
                            decreases n - j2,
                        {
                            proof {
                                assert(s.deep_view()[j2 as int] == s[j2 as int]@);
                            }
                            let ghost before2 = items.deep_view();
                            items.push(s[j2].clone());
                            proof {
                                let target = l.take(p as int).push(newv) + l.subrange(
                                    start,
                                    j2 + 1,
                                );
                                assert forall|m: int|
                                    0 <= m < items.deep_view().len() implies items.deep_view()[m]
                                    == target[m] by {
                                    if m < before2.len() {
                                        assert(items.deep_view()[m] == before2[m]);
                                    } else {
                                        assert(m == before2.len());
                                        assert(items.deep_view()[m] == items[m]@);
                                        assert(target[m] == l.subrange(start, j2 + 1)[m - (p
                                            + 1)]);
                                        assert(m - (p + 1) == j2 - start);
                                        assert(l.subrange(start, j2 + 1)[j2 - start] == l[
                                            j2 as int
                                        ]);
                                    }
                                }
                                assert(items.deep_view() =~= target);
                            }
                            j2 += 1;
                        }
                        proof {
                            assert(l.subrange(start, n as int) =~= l.skip(start));
                            assert(contract_keyf()(newv) == newv.name);
                            lemma_upsert_keyed_decompose(l, contract_keyf(), newv, p as int);
                            assert(items.deep_view() == upsert_keyed(l, contract_keyf(), newv));
                        }
                        replace_at = Some(i);
                    },
                    _ => {
                        return Err(
                            ApplyError::InvalidTransaction(
                                String::from_str("Cannot deserialize contract list"),
                            ),
                        );
                    },
                }
            },
        }
        proof {
            lemma_upsert_keyed_props(l, contract_keyf(), newv);
        }
        let list = match ContractListBuilder::new().set_contracts(items).build() {
            Ok(list) => list,
            Err(_) => {
                return Err(
                    ApplyError::InvalidTransaction(
                        String::from_str("Cannot build contract list"),
                    ),
                );
            },
        };
        let entry = StateEntry { address, value: StoredValue::Contracts(list) };
        let ghost dv = self.entries.deep_view();
        match replace_at {
            Some(i) => {
                self.entries[i] = entry;
                proof {
                    assert(self.entries.deep_view() =~= dv.update(i as int, entry@));
                    lemma_map_of_update(dv, i as int, entry@);
                }
            },
            None => {
                self.entries.push(entry);
                proof {
                    assert(self.entries.deep_view() =~= dv.push(entry@));
                    lemma_map_of_push(dv, entry@);
                }
            },
        }
        proof {
            let ndv = self.entries.deep_view();
            assert forall|i: int, j: int| 0 <= i < j < ndv.len() implies (
            #[trigger] ndv[i]).addr != (#[trigger] ndv[j]).addr by {
                match replace_at {
                    Some(ri) => {
                        if i != ri as int {
                            assert(ndv[i] == dv[i]);
                        }
                        if j != ri as int {
                            assert(ndv[j] == dv[j]);
                        }
                    },
                    None => {
                        if i < dv.len() {
                            assert(ndv[i] == dv[i]);
                        }
                        if j < dv.len() {
                            assert(ndv[j] == dv[j]);
                        }
                    },
                }
            }
            assert forall|i: int| 0 <= i < ndv.len() implies value_wf(
                (#[trigger] ndv[i]).addr,
                ndv[i].val,
            ) by {
                match replace_at {
                    Some(ri) => {
                        if i != ri as int {
                            assert(ndv[i] == dv[i]);
                        }
                    },
                    None => {
                        if i < dv.len() {
                            assert(ndv[i] == dv[i]);
                        }
                    },
                }
            }
        }
        Ok(())
    }

    /// Deletes everything stored at the address of `(name, version)` —
    /// collided same-address contracts included.  Fails when nothing is
    /// stored there.
    pub fn delete_contract(&mut self, name: &str, version: &str) -> (r: Result<(), ApplyError>)
        requires
            old(self).wf(),
        ensures
            final(self).wf(),
            match r {
                Ok(()) => old(self)@.contains_key(contract_address(name@, version@))
                    && final(self)@ == old(self)@.remove(contract_address(name@, version@)),
                Err(e) => !old(self)@.contains_key(contract_address(name@, version@))
                    && final(self)@ == old(self)@ && e@ == ApplyErrorV::InvalidTransaction(
                    "Cannot delete contract"@,
                ),
            },
    {
        let address = make_contract_address(name, version)?;
        proof {
            lemma_map_of_props(self.entries.deep_view());
        }
        match self.find_entry(address.as_str()) {
            None => {
                proof {
                    if self@.contains_key(address@) {
                        let dv = self.entries.deep_view();
                        let i = choose|i: int|
                            0 <= i < dv.len() && (#[trigger] dv[i]).addr == address@;
                    }
                }
                Err(ApplyError::InvalidTransaction(String::from_str("Cannot delete contract")))
            },
            Some(i) => {
                let ghost dv = self.entries.deep_view();
                self.entries.remove(i);
                proof {
                    assert(self.entries.deep_view() =~= dv.remove(i as int));
                    lemma_map_of_remove(dv, i as int);
                    dv.remove_ensures(i as int);
                    let ndv = self.entries.deep_view();
                    assert forall|a: int, b: int| 0 <= a < b < ndv.len() implies (
                    #[trigger] ndv[a]).addr != (#[trigger] ndv[b]).addr by {}
                    assert forall|a: int| 0 <= a < ndv.len() implies value_wf(
                        (#[trigger] ndv[a]).addr,
                        ndv[a].val,
                    ) by {}
                }
                Ok(())
            },
        }
    }
}


// ---------------------------------------------------------------------------
// Contract registries
// ---------------------------------------------------------------------------
/// The contract registries stored at `addr`, an empty list when there are none.
pub open spec fn stored_contract_registries(m: Map<Seq<char>, StoredValueV>, addr: Seq<char>) -> Seq<
    ContractRegistryV,
> {
    if m.contains_key(addr) {
        match m[addr] {
            StoredValueV::ContractRegistries(l) => l,
            _ => Seq::empty(),
        }
    } else {
        Seq::empty()
    }
}

/// The contract registry stored under `name`: the entity keyed `name` in
/// the list at its address.
pub open spec fn spec_get_contract_registry(
    m: Map<Seq<char>, StoredValueV>,
    name: Seq<char>,
) -> Option<ContractRegistryV> {
    find_keyed(stored_contract_registries(m, contract_registry_address(name)), contract_registry_keyf(), name)
}

/// The map after storing the contract registry: the list at its address, with
/// any entity of the same key replaced, in key order.
pub open spec fn spec_set_contract_registry(
    m: Map<Seq<char>, StoredValueV>,
    name: Seq<char>,
    x: ContractRegistryV,
) -> Map<Seq<char>, StoredValueV> {
    let addr = contract_registry_address(name);
    m.insert(
        addr,
        StoredValueV::ContractRegistries(upsert_keyed(stored_contract_registries(m, addr), contract_registry_keyf(), x)),
    )
}

/// The position of the first contract registry whose key is not below `cname`
/// in the key order.
fn contract_registry_insert_pos(s: &[ContractRegistry], cname: &str) -> (p: usize)
    ensures
        p <= s.deep_view().len(),
        forall|m: int| 0 <= m < p ==> str_key_lt((#[trigger] s.deep_view()[m]).name, cname@),
        p < s.deep_view().len() ==> !str_key_lt(s.deep_view()[p as int].name, cname@),
{
    let n = s.len();
    let mut p: usize = 0;
    while p < n
        invariant
            n == s.deep_view().len(),
            p <= n,
            forall|m: int| 0 <= m < p ==> str_key_lt(
                (#[trigger] s.deep_view()[m]).name,
                cname@,
            ),
        ensures
            p <= n,
            forall|m: int| 0 <= m < p ==> str_key_lt(
                (#[trigger] s.deep_view()[m]).name,
                cname@,
            ),
            p < n ==> !str_key_lt(s.deep_view()[p as int].name, cname@),
        decreases n - p,
    {
        proof {
            assert(s.deep_view()[p as int] == s[p as int]@);
        }
        if !str_lt(s[p].get_name().as_str(), cname) {
            break ;
        }
        p += 1;
    }
    p
}

impl SmartState {
    /// Looks up the contract registry stored under `name`.
    #[verifier::loop_isolation(false)]
    pub fn get_contract_registry(&self, name: &str) -> (r: Result<
        Option<ContractRegistry>,
        ApplyError,
    >)
        requires
            self.wf(),
        ensures
            match r {
                Ok(Some(c)) => spec_get_contract_registry(self@, name@) == Some(c@),
                Ok(None) => spec_get_contract_registry(self@, name@) is None,
                Err(e) => false,
            },
    {
        let address = make_contract_registry_address(name)?;
        proof {
            lemma_address_prefixes(name@, name@);
            lemma_map_of_props(self.entries.deep_view());
        }
        match self.find_entry(address.as_str()) {
            None => {
                proof {
                    if self@.contains_key(address@) {
                        let dv = self.entries.deep_view();
                        let i = choose|i: int|
                            0 <= i < dv.len() && (#[trigger] dv[i]).addr == address@;
                    }
                }
                Ok(None)
            },
            Some(i) => {
                proof {
                    let dv = self.entries.deep_view();
                    assert(dv[i as int] == self.entries[i as int].deep_view());
                    lemma_variant_at(dv[i as int].addr, dv[i as int].val);
                }
                match &self.entries[i].value {
                    StoredValue::ContractRegistries(list) => {
                        let ghost l = stored_contract_registries(self@, address@);
                        let s = list.get_registries();
                        proof {
                            assert(s.deep_view() == l);
                        }
                        let n = s.len();
                        let mut j: usize = 0;
                        while j < n
                            invariant
                                j <= n,
                                forall|m: int| 0 <= m < j
                                    ==> (#[trigger] s.deep_view()[m]).name != name@,
                            decreases n - j,
                        {
                            proof {
                                assert(s.deep_view()[j as int] == s[j as int]@);
                            }
                            if str_eq(s[j].get_name().as_str(), name) {
                                proof {
                                    assert forall|m: int| 0 <= m < j implies contract_registry_keyf()(
                                        #[trigger] l[m],
                                    ) != name@ by {}
                                    lemma_find_keyed_skip(l, contract_registry_keyf(), name@, j as int);
                                    assert(l.skip(j as int)[0] == l[j as int]);
                                    assert(l.skip(j as int).len() > 0);
                                    assert(contract_registry_keyf()(l[j as int]) == name@);
                                    assert(find_keyed(l.skip(j as int), contract_registry_keyf(), name@)
                                        == Some(l[j as int]));
                                }
                                return Ok(Some(s[j].clone()));
                            }
                            j += 1;
                        }
                        proof {
                            assert forall|m: int| 0 <= m < n implies contract_registry_keyf()(
                                #[trigger] l[m],
                            ) != name@ by {}
                            lemma_find_keyed_skip(l, contract_registry_keyf(), name@, n as int);
                            assert(l.skip(n as int).len() == 0);
                        }
                        Ok(None)
                    },
                    _ => {
                        Err(
                            ApplyError::InvalidTransaction(
                                String::from_str("Cannot deserialize contract registry list"),
                            ),
                        )
                    },
                }
            },
        }
    }

    /// Stores the contract registry, replacing any entity of the same key at
    /// the same address and keeping the address's list in key order.
    #[verifier::loop_isolation(false)]
    pub fn set_contract_registry(&mut self, name: &str, new_contract_registry: ContractRegistry) -> (r:
        Result<(), ApplyError>)
        requires
            old(self).wf(),
            new_contract_registry@.name == name@,
            new_contract_registry@.owners.len() > 0,
        ensures
            final(self).wf(),
            r matches Ok(()),
            final(self)@ == spec_set_contract_registry(old(self)@, name@, new_contract_registry@),
    {
        proof {
            self.lemma_wf_map();
        }
        let address = make_contract_registry_address(name)?;
        proof {
            lemma_address_prefixes(name@, name@);
            lemma_map_of_props(self.entries.deep_view());
        }
        let ghost l = stored_contract_registries(self@, address@);
        let idx = self.find_entry(address.as_str());
        proof {
            if idx is None && self@.contains_key(address@) {
                let dv = self.entries.deep_view();
                let i = choose|i: int| 0 <= i < dv.len() && (#[trigger] dv[i]).addr == address@;
            }
        }
        let mut items: Vec<ContractRegistry> = Vec::new();
        let mut replace_at: Option<usize> = None;
        let ghost newv = new_contract_registry@;
        match idx {
            None => {
                items.push(new_contract_registry);
                proof {
                    assert(l =~= Seq::<ContractRegistryV>::empty());
                    assert(items.deep_view() =~= upsert_keyed(l, contract_registry_keyf(), newv));
                }
            },
            Some(i) => {
                proof {
                    let dv = self.entries.deep_view();
                    assert(dv[i as int] == self.entries[i as int].deep_view());
                    lemma_variant_at(dv[i as int].addr, dv[i as int].val);
                }
                match &self.entries[i].value {
                    StoredValue::ContractRegistries(list) => {
                        let s = list.get_registries();
                        proof {
                            assert(s.deep_view() == l);
                        }
                        let n = s.len();
                        // the insert position: the first entity whose key
                        // is not below the new key
                        let p = contract_registry_insert_pos(s, new_contract_registry.get_name().as_str());
                        let mut j: usize = 0;
                        while j < p
                            invariant
                                j <= p,
                                items.deep_view() == l.take(j as int),
                            decreases p - j,
                        {
                            proof {
                                assert(s.deep_view()[j as int] == s[j as int]@);
                            }
                            let ghost before = items.deep_view();
                            items.push(s[j].clone());
                            proof {
                                assert forall|m: int|
                                    0 <= m < items.deep_view().len() implies items.deep_view()[m]
                                    == l.take(j + 1)[m] by {
                                    if m < before.len() {
                                        assert(items.deep_view()[m] == before[m]);
                                    } else {
                                        assert(items.deep_view()[m] == items[m]@);
                                    }
                                }
                                assert(items.deep_view() =~= l.take(j + 1));
                            }
                            j += 1;
                        }
                        let skip_equal = if p < n {
                            proof {
                                assert(s.deep_view()[p as int] == s[p as int]@);
                            }
                            str_eq(s[p].get_name().as_str(), new_contract_registry.get_name().as_str())
                        } else {
                            false
                        };
                        let ghost before = items.deep_view();
                        items.push(new_contract_registry);
                        let mut j2: usize = if skip_equal {
                            p + 1
                        } else {
                            p
                        };
                        let ghost start = j2 as int;
                        proof {
                            assert forall|m: int|
                                0 <= m < items.deep_view().len() implies items.deep_view()[m]
                                == l.take(p as int).push(newv)[m] by {
                                if m < before.len() {
                                    assert(items.deep_view()[m] == before[m]);
                                } else {
                                    assert(items.deep_view()[m] == items[m]@);
                                }
                            }
                            assert(items.deep_view() =~= l.take(p as int).push(newv));
                            assert(l.subrange(start, start) =~= Seq::<ContractRegistryV>::empty());
                            assert(items.deep_view() =~= l.take(p as int).push(newv)
                                + l.subrange(start, start));
                        }
                        while j2 < n
                            invariant
                                start <= j2 as int <= n,
                                items.deep_view() == l.take(p as int).push(newv) + l.subrange(
                                    start,
                                    j2 as int,
                                ),
                            decreases n - j2,
                        {
                            proof {
                                assert(s.deep_view()[j2 as int] == s[j2 as int]@);
                            }
                            let ghost before2 = items.deep_view();
                            items.push(s[j2].clone());
                            proof {
                                let target = l.take(p as int).push(newv) + l.subrange(
                                    start,
                                    j2 + 1,
                                );
                                assert forall|m: int|
                                    0 <= m < items.deep_view().len() implies items.deep_view()[m]
                                    == target[m] by {
                                    if m < before2.len() {
                                        assert(items.deep_view()[m] == before2[m]);
                                    } else {
                                        assert(m == before2.len());
                                        assert(items.deep_view()[m] == items[m]@);
                                        assert(target[m] == l.subrange(start, j2 + 1)[m - (p
                                            + 1)]);
                                        assert(m - (p + 1) == j2 - start);
                                        assert(l.subrange(start, j2 + 1)[j2 - start] == l[
                                            j2 as int
                                        ]);
                                    }
                                }
                                assert(items.deep_view() =~= target);
                            }
                            j2 += 1;
                        }
                        proof {
                            assert(l.subrange(start, n as int) =~= l.skip(start));
                            assert(contract_registry_keyf()(newv) == newv.name);
                            lemma_upsert_keyed_decompose(l, contract_registry_keyf(), newv, p as int);
                            assert(items.deep_view() == upsert_keyed(l, contract_registry_keyf(), newv));
                        }
                        replace_at = Some(i);
                    },
                    _ => {
                        return Err(
                            ApplyError::InvalidTransaction(
                                String::from_str("Cannot deserialize contract registry list"),
                            ),
                        );
                    },
                }
            },
        }
        proof {
            lemma_upsert_keyed_props(l, contract_registry_keyf(), newv);
            let u = upsert_keyed(l, contract_registry_keyf(), newv);
            assert forall|q: int| 0 <= q < u.len() implies (#[trigger] u[q]).owners.len()
                > 0 by {
                assert(u.contains(u[q]));
            }
        }
        let list = match ContractRegistryListBuilder::new().set_registries(items).build() {
            Ok(list) => list,
            Err(_) => {
                return Err(
                    ApplyError::InvalidTransaction(
                        String::from_str("Cannot build contract registry list"),
                    ),
                );
            },
        };
        let entry = StateEntry { address, value: StoredValue::ContractRegistries(list) };
        let ghost dv = self.entries.deep_view();
        match replace_at {
            Some(i) => {
                self.entries[i] = entry;
                proof {
                    assert(self.entries.deep_view() =~= dv.update(i as int, entry@));
                    lemma_map_of_update(dv, i as int, entry@);
                }
            },
            None => {
                self.entries.push(entry);
                proof {
                    assert(self.entries.deep_view() =~= dv.push(entry@));
                    lemma_map_of_push(dv, entry@);
                }
            },
        }
        proof {
            let ndv = self.entries.deep_view();
            assert forall|i: int, j: int| 0 <= i < j < ndv.len() implies (
            #[trigger] ndv[i]).addr != (#[trigger] ndv[j]).addr by {
                match replace_at {
                    Some(ri) => {
                        if i != ri as int {
                            assert(ndv[i] == dv[i]);
                        }
                        if j != ri as int {
                            assert(ndv[j] == dv[j]);
                        }
                    },
                    None => {
                        if i < dv.len() {
                            assert(ndv[i] == dv[i]);
                        }
                        if j < dv.len() {
                            assert(ndv[j] == dv[j]);
                        }
                    },
                }
            }
            assert forall|i: int| 0 <= i < ndv.len() implies value_wf(
                (#[trigger] ndv[i]).addr,
                ndv[i].val,
            ) by {
                match replace_at {
                    Some(ri) => {
                        if i != ri as int {
                            assert(ndv[i] == dv[i]);
                        }
                    },
                    None => {
                        if i < dv.len() {
                            assert(ndv[i] == dv[i]);
                        }
                    },
                }
            }
        }
        Ok(())
    }

    /// Deletes everything stored at the contract registry's address —
    /// collided same-address entities included.  Fails when nothing is
    /// stored there.
    pub fn delete_contract_registry(&mut self, name: &str) -> (r: Result<(), ApplyError>)
        requires
            old(self).wf(),
        ensures
            final(self).wf(),
            match r {
                Ok(()) => old(self)@.contains_key(contract_registry_address(name@))
                    && final(self)@ == old(self)@.remove(contract_registry_address(name@)),
                Err(e) => !old(self)@.contains_key(contract_registry_address(name@))
                    && final(self)@ == old(self)@ && e@ == ApplyErrorV::InvalidTransaction(
                    "Cannot delete contract registry"@,
                ),
            },
    {
        let address = make_contract_registry_address(name)?;
        proof {
            lemma_map_of_props(self.entries.deep_view());
        }
        match self.find_entry(address.as_str()) {
            None => {
                proof {
                    if self@.contains_key(address@) {
                        let dv = self.entries.deep_view();
                        let i = choose|i: int|
                            0 <= i < dv.len() && (#[trigger] dv[i]).addr == address@;
                    }
                }
                Err(ApplyError::InvalidTransaction(String::from_str("Cannot delete contract registry")))
            },
            Some(i) => {
                let ghost dv = self.entries.deep_view();
                self.entries.remove(i);
                proof {
                    assert(self.entries.deep_view() =~= dv.remove(i as int));
                    lemma_map_of_remove(dv, i as int);
                    dv.remove_ensures(i as int);
                    let ndv = self.entries.deep_view();
                    assert forall|a: int, b: int| 0 <= a < b < ndv.len() implies (
                    #[trigger] ndv[a]).addr != (#[trigger] ndv[b]).addr by {}
                    assert forall|a: int| 0 <= a < ndv.len() implies value_wf(
                        (#[trigger] ndv[a]).addr,
                        ndv[a].val,
                    ) by {}
                }
                Ok(())
            },
        }
    }
}

// ---------------------------------------------------------------------------
// Namespace registries
// ---------------------------------------------------------------------------
/// The namespace registries stored at `addr`, an empty list when there are none.
pub open spec fn stored_namespace_registries(m: Map<Seq<char>, StoredValueV>, addr: Seq<char>) -> Seq<
    NamespaceRegistryV,
> {
    if m.contains_key(addr) {
        match m[addr] {
            StoredValueV::NamespaceRegistries(l) => l,
            _ => Seq::empty(),
        }
    } else {
        Seq::empty()
    }
}

/// The namespace registry stored under `namespace`: the entity keyed `namespace` in
/// the list at its address.
pub open spec fn spec_get_namespace_registry(
    m: Map<Seq<char>, StoredValueV>,
    namespace: Seq<char>,
) -> Option<NamespaceRegistryV> {
    find_keyed(stored_namespace_registries(m, namespace_registry_address(namespace)), namespace_registry_keyf(), namespace)
}

/// The map after storing the namespace registry: the list at its address, with
/// any entity of the same key replaced, in key order.
pub open spec fn spec_set_namespace_registry(
    m: Map<Seq<char>, StoredValueV>,
    namespace: Seq<char>,
    x: NamespaceRegistryV,
) -> Map<Seq<char>, StoredValueV> {
    let addr = namespace_registry_address(namespace);
    m.insert(
        addr,
        StoredValueV::NamespaceRegistries(upsert_keyed(stored_namespace_registries(m, addr), namespace_registry_keyf(), x)),
    )
}

/// The position of the first namespace registry whose key is not below `cname`
/// in the key order.
fn namespace_registry_insert_pos(s: &[NamespaceRegistry], cname: &str) -> (p: usize)
    ensures
        p <= s.deep_view().len(),
        forall|m: int| 0 <= m < p ==> str_key_lt((#[trigger] s.deep_view()[m]).namespace, cname@),
        p < s.deep_view().len() ==> !str_key_lt(s.deep_view()[p as int].namespace, cname@),
{
    let n = s.len();
    let mut p: usize = 0;
    while p < n
        invariant
            n == s.deep_view().len(),
            p <= n,
            forall|m: int| 0 <= m < p ==> str_key_lt(
                (#[trigger] s.deep_view()[m]).namespace,
                cname@,
            ),
        ensures
            p <= n,
            forall|m: int| 0 <= m < p ==> str_key_lt(
                (#[trigger] s.deep_view()[m]).namespace,
                cname@,
            ),
            p < n ==> !str_key_lt(s.deep_view()[p as int].namespace, cname@),
        decreases n - p,
    {
        proof {
            assert(s.deep_view()[p as int] == s[p as int]@);
        }
        if !str_lt(s[p].get_namespace().as_str(), cname) {
            break ;
        }
        p += 1;
    }
    p
}

impl SmartState {
    /// Looks up the namespace registry stored under `namespace`.
    #[verifier::loop_isolation(false)]
    pub fn get_namespace_registry(&self, namespace: &str) -> (r: Result<
        Option<NamespaceRegistry>,
        ApplyError,
    >)
        requires
            self.wf(),
        ensures
            match r {
                Ok(Some(c)) => spec_get_namespace_registry(self@, namespace@) == Some(c@),
                Ok(None) => spec_get_namespace_registry(self@, namespace@) is None,
                Err(e) => namespace@.len() < 6 && e@ == ApplyErrorV::InvalidTransaction(
                    "Namespace must be at least 6 characters long: "@ + namespace@,
                ),
            },
            r is Ok ==> namespace@.len() >= 6,
    {
        let address = make_namespace_registry_address(namespace)?;
        proof {
            lemma_address_prefixes(namespace@, namespace@);
            lemma_map_of_props(self.entries.deep_view());
        }
        match self.find_entry(address.as_str()) {
            None => {
                proof {
                    if self@.contains_key(address@) {
                        let dv = self.entries.deep_view();
                        let i = choose|i: int|
                            0 <= i < dv.len() && (#[trigger] dv[i]).addr == address@;
                    }
                }
                Ok(None)
            },
            Some(i) => {
                proof {
                    let dv = self.entries.deep_view();
                    assert(dv[i as int] == self.entries[i as int].deep_view());
                    lemma_variant_at(dv[i as int].addr, dv[i as int].val);
                }
                match &self.entries[i].value {
                    StoredValue::NamespaceRegistries(list) => {
                        let ghost l = stored_namespace_registries(self@, address@);
                        let s = list.get_registries();
                        proof {
                            assert(s.deep_view() == l);
                        }
                        let n = s.len();
                        let mut j: usize = 0;
                        while j < n
                            invariant
                                j <= n,
                                forall|m: int| 0 <= m < j
                                    ==> (#[trigger] s.deep_view()[m]).namespace != namespace@,
                            decreases n - j,
                        {
                            proof {
                                assert(s.deep_view()[j as int] == s[j as int]@);
                            }
                            if str_eq(s[j].get_namespace().as_str(), namespace) {
                                proof {
                                    assert forall|m: int| 0 <= m < j implies namespace_registry_keyf()(
                                        #[trigger] l[m],
                                    ) != namespace@ by {}
                                    lemma_find_keyed_skip(l, namespace_registry_keyf(), namespace@, j as int);
                                    assert(l.skip(j as int)[0] == l[j as int]);
                                    assert(l.skip(j as int).len() > 0);
                                    assert(namespace_registry_keyf()(l[j as int]) == namespace@);
                                    assert(find_keyed(l.skip(j as int), namespace_registry_keyf(), namespace@)
                                        == Some(l[j as int]));
                                }
                                return Ok(Some(s[j].clone()));
                            }
                            j += 1;
                        }
                        proof {
                            assert forall|m: int| 0 <= m < n implies namespace_registry_keyf()(
                                #[trigger] l[m],
                            ) != namespace@ by {}
                            lemma_find_keyed_skip(l, namespace_registry_keyf(), namespace@, n as int);
                            assert(l.skip(n as int).len() == 0);
                        }
                        Ok(None)
                    },
                    _ => {
                        Err(
                            ApplyError::InvalidTransaction(
                                String::from_str("Cannot deserialize namespace registry list"),
                            ),
                        )
                    },
                }
            },
        }
    }

    /// Stores the namespace registry, replacing any entity of the same key at
    /// the same address and keeping the address's list in key order.
    #[verifier::loop_isolation(false)]
    pub fn set_namespace_registry(&mut self, namespace: &str, new_namespace_registry: NamespaceRegistry) -> (r:
        Result<(), ApplyError>)
        requires
            old(self).wf(),
            new_namespace_registry@.namespace == namespace@,
            namespace@.len() >= 6,
            permissions_unique(new_namespace_registry@),
            new_namespace_registry@.owners.len() > 0,
        ensures
            final(self).wf(),
            r matches Ok(()),
            final(self)@ == spec_set_namespace_registry(
                old(self)@,
                namespace@,
                new_namespace_registry@,
            ),
    {
        proof {
            self.lemma_wf_map();
        }
        let address = make_namespace_registry_address(namespace)?;
        proof {
            lemma_address_prefixes(namespace@, namespace@);
            lemma_map_of_props(self.entries.deep_view());
        }
        let ghost l = stored_namespace_registries(self@, address@);
        let idx = self.find_entry(address.as_str());
        proof {
            if idx is None && self@.contains_key(address@) {
                let dv = self.entries.deep_view();
                let i = choose|i: int| 0 <= i < dv.len() && (#[trigger] dv[i]).addr == address@;
            }
        }
        let mut items: Vec<NamespaceRegistry> = Vec::new();
        let mut replace_at: Option<usize> = None;
        let ghost newv = new_namespace_registry@;
        match idx {
            None => {
                items.push(new_namespace_registry);
                proof {
                    assert(l =~= Seq::<NamespaceRegistryV>::empty());
                    assert(items.deep_view() =~= upsert_keyed(l, namespace_registry_keyf(), newv));
                }
            },
            Some(i) => {
                proof {
                    let dv = self.entries.deep_view();
                    assert(dv[i as int] == self.entries[i as int].deep_view());
                    lemma_variant_at(dv[i as int].addr, dv[i as int].val);
                }
                match &self.entries[i].value {
                    StoredValue::NamespaceRegistries(list) => {
                        let s = list.get_registries();
                        proof {
                            assert(s.deep_view() == l);
                        }
                        let n = s.len();
                        // the insert position: the first entity whose key
                        // is not below the new key
                        let p = namespace_registry_insert_pos(s, new_namespace_registry.get_namespace().as_str());
                        let mut j: usize = 0;
                        while j < p
                            invariant
                                j <= p,
                                items.deep_view() == l.take(j as int),
                            decreases p - j,
                        {
                            proof {
                                assert(s.deep_view()[j as int] == s[j as int]@);
                            }
                            let ghost before = items.deep_view();
                            items.push(s[j].clone());
                            proof {
                                assert forall|m: int|
                                    0 <= m < items.deep_view().len() implies items.deep_view()[m]
                                    == l.take(j + 1)[m] by {
                                    if m < before.len() {
                                        assert(items.deep_view()[m] == before[m]);
                                    } else {
                                        assert(items.deep_view()[m] == items[m]@);
                                    }
                                }
                                assert(items.deep_view() =~= l.take(j + 1));
                            }
                            j += 1;
                        }
                        let skip_equal = if p < n {
                            proof {
                                assert(s.deep_view()[p as int] == s[p as int]@);
                            }
                            str_eq(s[p].get_namespace().as_str(), new_namespace_registry.get_namespace().as_str())
                        } else {
                            false
                        };
                        let ghost before = items.deep_view();
                        items.push(new_namespace_registry);
                        let mut j2: usize = if skip_equal {
                            p + 1
                        } else {
                            p
                        };
                        let ghost start = j2 as int;
                        proof {
                            assert forall|m: int|
                                0 <= m < items.deep_view().len() implies items.deep_view()[m]
                                == l.take(p as int).push(newv)[m] by {
                                if m < before.len() {
                                    assert(items.deep_view()[m] == before[m]);
                                } else {
                                    assert(items.deep_view()[m] == items[m]@);
                                }
                            }
                            assert(items.deep_view() =~= l.take(p as int).push(newv));
                            assert(l.subrange(start, start) =~= Seq::<NamespaceRegistryV>::empty());
                            assert(items.deep_view() =~= l.take(p as int).push(newv)
                                + l.subrange(start, start));
                        }
                        while j2 < n
                            invariant
                                start <= j2 as int <= n,
                                items.deep_view() == l.take(p as int).push(newv) + l.subrange(
                                    start,
                                    j2 as int,
                                ),
                            decreases n - j2,
                        {
                            proof {
                                assert(s.deep_view()[j2 as int] == s[j2 as int]@);
                            }
                            let ghost before2 = items.deep_view();
                            items.push(s[j2].clone());
                            proof {
                                let target = l.take(p as int).push(newv) + l.subrange(
                                    start,
                                    j2 + 1,
                                );
                                assert forall|m: int|
                                    0 <= m < items.deep_view().len() implies items.deep_view()[m]
                                    == target[m] by {
                                    if m < before2.len() {
                                        assert(items.deep_view()[m] == before2[m]);
                                    } else {
                                        assert(m == before2.len());
                                        assert(items.deep_view()[m] == items[m]@);
                                        assert(target[m] == l.subrange(start, j2 + 1)[m - (p
                                            + 1)]);
                                        assert(m - (p + 1) == j2 - start);
                                        assert(l.subrange(start, j2 + 1)[j2 - start] == l[
                                            j2 as int
                                        ]);
                                    }
                                }
                                assert(items.deep_view() =~= target);
                            }
                            j2 += 1;
                        }
                        proof {
                            assert(l.subrange(start, n as int) =~= l.skip(start));
                            assert(namespace_registry_keyf()(newv) == newv.namespace);
                            lemma_upsert_keyed_decompose(l, namespace_registry_keyf(), newv, p as int);
                            assert(items.deep_view() == upsert_keyed(l, namespace_registry_keyf(), newv));
                        }
                        replace_at = Some(i);
                    },
                    _ => {
                        return Err(
                            ApplyError::InvalidTransaction(
                                String::from_str("Cannot deserialize namespace registry list"),
                            ),
                        );
                    },
                }
            },
        }
        proof {
            lemma_upsert_keyed_props(l, namespace_registry_keyf(), newv);
        }
        proof {
            let u = upsert_keyed(l, namespace_registry_keyf(), newv);
            assert forall|q: int| 0 <= q < u.len() implies permissions_unique(#[trigger] u[q])
                && u[q].owners.len() > 0 by {
                assert(u.contains(u[q]));
            }
        }
        let list = match NamespaceRegistryListBuilder::new().set_registries(items).build() {
            Ok(list) => list,
            Err(_) => {
                return Err(
                    ApplyError::InvalidTransaction(
                        String::from_str("Cannot build namespace registry list"),
                    ),
                );
            },
        };
        let entry = StateEntry { address, value: StoredValue::NamespaceRegistries(list) };
        let ghost dv = self.entries.deep_view();
        match replace_at {
            Some(i) => {
                self.entries[i] = entry;
                proof {
                    assert(self.entries.deep_view() =~= dv.update(i as int, entry@));
                    lemma_map_of_update(dv, i as int, entry@);
                }
            },
            None => {
                self.entries.push(entry);
                proof {
                    assert(self.entries.deep_view() =~= dv.push(entry@));
                    lemma_map_of_push(dv, entry@);
                }
            },
        }
        proof {
            let ndv = self.entries.deep_view();
            assert forall|i: int, j: int| 0 <= i < j < ndv.len() implies (
            #[trigger] ndv[i]).addr != (#[trigger] ndv[j]).addr by {
                match replace_at {
                    Some(ri) => {
                        if i != ri as int {
                            assert(ndv[i] == dv[i]);
                        }
                        if j != ri as int {
                            assert(ndv[j] == dv[j]);
                        }
                    },
                    None => {
                        if i < dv.len() {
                            assert(ndv[i] == dv[i]);
                        }
                        if j < dv.len() {
                            assert(ndv[j] == dv[j]);
                        }
                    },
                }
            }
            assert forall|i: int| 0 <= i < ndv.len() implies value_wf(
                (#[trigger] ndv[i]).addr,
                ndv[i].val,
            ) by {
                match replace_at {
                    Some(ri) => {
                        if i != ri as int {
                            assert(ndv[i] == dv[i]);
                        }
                    },
                    None => {
                        if i < dv.len() {
                            assert(ndv[i] == dv[i]);
                        }
                    },
                }
            }
        }
        Ok(())
    }

    /// Deletes everything stored at the namespace registry's address —
    /// collided same-address entities included.  Fails when nothing is
    /// stored there.
    pub fn delete_namespace_registry(&mut self, namespace: &str) -> (r: Result<(), ApplyError>)
        requires
            old(self).wf(),
        ensures
            final(self).wf(),
            match r {
                Ok(()) => namespace@.len() >= 6 && old(self)@.contains_key(
                    namespace_registry_address(namespace@),
                ) && final(self)@ == old(self)@.remove(namespace_registry_address(namespace@)),
                Err(e) => final(self)@ == old(self)@ && ((namespace@.len() < 6 && e@
                    == ApplyErrorV::InvalidTransaction(
                    "Namespace must be at least 6 characters long: "@ + namespace@,
                )) || (namespace@.len() >= 6 && !old(self)@.contains_key(
                    namespace_registry_address(namespace@),
                ) && e@ == ApplyErrorV::InvalidTransaction("Cannot delete namespace registry"@))),
            },
    {
        let address = make_namespace_registry_address(namespace)?;
        proof {
            lemma_map_of_props(self.entries.deep_view());
        }
        match self.find_entry(address.as_str()) {
            None => {
                proof {
                    if self@.contains_key(address@) {
                        let dv = self.entries.deep_view();
                        let i = choose|i: int|
                            0 <= i < dv.len() && (#[trigger] dv[i]).addr == address@;
                    }
                }
                Err(ApplyError::InvalidTransaction(String::from_str("Cannot delete namespace registry")))
            },
            Some(i) => {
                let ghost dv = self.entries.deep_view();
                self.entries.remove(i);
                proof {
                    assert(self.entries.deep_view() =~= dv.remove(i as int));
                    lemma_map_of_remove(dv, i as int);
                    dv.remove_ensures(i as int);
                    let ndv = self.entries.deep_view();
                    assert forall|a: int, b: int| 0 <= a < b < ndv.len() implies (
                    #[trigger] ndv[a]).addr != (#[trigger] ndv[b]).addr by {}
                    assert forall|a: int| 0 <= a < ndv.len() implies value_wf(
                        (#[trigger] ndv[a]).addr,
                        ndv[a].val,
                    ) by {}
                }
                Ok(())
            },
        }
    }
}

// ---------------------------------------------------------------------------
// Smart permissions
// ---------------------------------------------------------------------------
/// The smart permissions stored at `addr`, an empty list when there are none.
pub open spec fn stored_smart_permissions(m: Map<Seq<char>, StoredValueV>, addr: Seq<char>) -> Seq<
    SmartPermissionV,
> {
    if m.contains_key(addr) {
        match m[addr] {
            StoredValueV::SmartPermissions(l) => l,
            _ => Seq::empty(),
        }
    } else {
        Seq::empty()
    }
}

/// The smart permission stored under `(org_id, name)`: the entity keyed `name` in
/// the list at its address.
pub open spec fn spec_get_smart_permission(
    m: Map<Seq<char>, StoredValueV>,
    org_id: Seq<char>,
    name: Seq<char>,
) -> Option<SmartPermissionV> {
    find_keyed(stored_smart_permissions(m, smart_permission_address(org_id, name)), smart_permission_keyf(), name)
}

/// The map after storing the smart permission: the list at its address, with
/// any entity of the same key replaced, in key order.
pub open spec fn spec_set_smart_permission(
    m: Map<Seq<char>, StoredValueV>,
    org_id: Seq<char>,
    name: Seq<char>,
    x: SmartPermissionV,
) -> Map<Seq<char>, StoredValueV> {
    let addr = smart_permission_address(org_id, name);
    m.insert(
        addr,
        StoredValueV::SmartPermissions(upsert_keyed(stored_smart_permissions(m, addr), smart_permission_keyf(), x)),
    )
}

/// The position of the first smart permission whose key is not below `cname`
/// in the key order.
fn smart_permission_insert_pos(s: &[SmartPermission], cname: &str) -> (p: usize)
    ensures
        p <= s.deep_view().len(),
        forall|m: int| 0 <= m < p ==> str_key_lt((#[trigger] s.deep_view()[m]).name, cname@),
        p < s.deep_view().len() ==> !str_key_lt(s.deep_view()[p as int].name, cname@),
{
    let n = s.len();
    let mut p: usize = 0;
    while p < n
        invariant
            n == s.deep_view().len(),
            p <= n,
            forall|m: int| 0 <= m < p ==> str_key_lt(
                (#[trigger] s.deep_view()[m]).name,
                cname@,
            ),
        ensures
            p <= n,
            forall|m: int| 0 <= m < p ==> str_key_lt(
                (#[trigger] s.deep_view()[m]).name,
                cname@,
            ),
            p < n ==> !str_key_lt(s.deep_view()[p as int].name, cname@),
        decreases n - p,
    {
        proof {
            assert(s.deep_view()[p as int] == s[p as int]@);
        }
        if !str_lt(s[p].get_name().as_str(), cname) {
            break ;
        }
        p += 1;
    }
    p
}

impl SmartState {
    /// Looks up the smart permission stored under `(org_id, name)`.
    #[verifier::loop_isolation(false)]
    pub fn get_smart_permission(&self, org_id: &str, name: &str) -> (r: Result<
        Option<SmartPermission>,
        ApplyError,
    >)
        requires
            self.wf(),
        ensures
            match r {
                Ok(Some(c)) => spec_get_smart_permission(self@, org_id@, name@) == Some(c@),
                Ok(None) => spec_get_smart_permission(self@, org_id@, name@) is None,
                Err(e) => false,
            },
    {
        let address = compute_smart_permission_address(org_id, name);
        proof {
            lemma_address_prefixes(org_id@, name@);
            lemma_map_of_props(self.entries.deep_view());
        }
        match self.find_entry(address.as_str()) {
            None => {
                proof {
                    if self@.contains_key(address@) {
                        let dv = self.entries.deep_view();
                        let i = choose|i: int|
                            0 <= i < dv.len() && (#[trigger] dv[i]).addr == address@;
                    }
                }
                Ok(None)
            },
            Some(i) => {
                proof {
                    let dv = self.entries.deep_view();
                    assert(dv[i as int] == self.entries[i as int].deep_view());
                    lemma_variant_at(dv[i as int].addr, dv[i as int].val);
                }
                match &self.entries[i].value {
                    StoredValue::SmartPermissions(list) => {
                        let ghost l = stored_smart_permissions(self@, address@);
                        let s = list.get_smart_permissions();
                        proof {
                            assert(s.deep_view() == l);
                        }
                        let n = s.len();
                        let mut j: usize = 0;
                        while j < n
                            invariant
                                j <= n,
                                forall|m: int| 0 <= m < j
                                    ==> (#[trigger] s.deep_view()[m]).name != name@,
                            decreases n - j,
                        {
                            proof {
                                assert(s.deep_view()[j as int] == s[j as int]@);
                            }
                            if str_eq(s[j].get_name().as_str(), name) {
                                proof {
                                    assert forall|m: int| 0 <= m < j implies smart_permission_keyf()(
                                        #[trigger] l[m],
                                    ) != name@ by {}
                                    lemma_find_keyed_skip(l, smart_permission_keyf(), name@, j as int);
                                    assert(l.skip(j as int)[0] == l[j as int]);
                                    assert(l.skip(j as int).len() > 0);
                                    assert(smart_permission_keyf()(l[j as int]) == name@);
                                    assert(find_keyed(l.skip(j as int), smart_permission_keyf(), name@)
                                        == Some(l[j as int]));
                                }
                                return Ok(Some(s[j].clone()));
                            }
                            j += 1;
                        }
                        proof {
                            assert forall|m: int| 0 <= m < n implies smart_permission_keyf()(
                                #[trigger] l[m],
                            ) != name@ by {}
                            lemma_find_keyed_skip(l, smart_permission_keyf(), name@, n as int);
                            assert(l.skip(n as int).len() == 0);
                        }
                        Ok(None)
                    },
                    _ => {
                        Err(
                            ApplyError::InvalidTransaction(
                                String::from_str("Cannot deserialize smart permissions list"),
                            ),
                        )
                    },
                }
            },
        }
    }

    /// Stores the smart permission, replacing any entity of the same key at
    /// the same address and keeping the address's list in key order.
    #[verifier::loop_isolation(false)]
    pub fn set_smart_permission(&mut self, org_id: &str, name: &str, new_smart_permission: SmartPermission) -> (r:
        Result<(), ApplyError>)
        requires
            old(self).wf(),
            new_smart_permission@.name == name@,
        ensures
            final(self).wf(),
            r matches Ok(()),
            final(self)@ == spec_set_smart_permission(
                old(self)@,
                org_id@,
                name@,
                new_smart_permission@,
            ),
    {
        proof {
            self.lemma_wf_map();
        }
        let address = compute_smart_permission_address(org_id, name);
        proof {
            lemma_address_prefixes(org_id@, name@);
            lemma_map_of_props(self.entries.deep_view());
        }
        let ghost l = stored_smart_permissions(self@, address@);
        let idx = self.find_entry(address.as_str());
        proof {
            if idx is None && self@.contains_key(address@) {
                let dv = self.entries.deep_view();
                let i = choose|i: int| 0 <= i < dv.len() && (#[trigger] dv[i]).addr == address@;
            }
        }
        let mut items: Vec<SmartPermission> = Vec::new();
        let mut replace_at: Option<usize> = None;
        let ghost newv = new_smart_permission@;
        match idx {
            None => {
                items.push(new_smart_permission);
                proof {
                    assert(l =~= Seq::<SmartPermissionV>::empty());
                    assert(items.deep_view() =~= upsert_keyed(l, smart_permission_keyf(), newv));
                }
            },
            Some(i) => {
                proof {
                    let dv = self.entries.deep_view();
                    assert(dv[i as int] == self.entries[i as int].deep_view());
                    lemma_variant_at(dv[i as int].addr, dv[i as int].val);
                }
                match &self.entries[i].value {
                    StoredValue::SmartPermissions(list) => {
                        let s = list.get_smart_permissions();
                        proof {
                            assert(s.deep_view() == l);
                        }
                        let n = s.len();
                        // the insert position: the first entity whose key
                        // is not below the new key
                        let p = smart_permission_insert_pos(s, new_smart_permission.get_name().as_str());
                        let mut j: usize = 0;
                        while j < p
                            invariant
                                j <= p,
                                items.deep_view() == l.take(j as int),
                            decreases p - j,
                        {
                            proof {
                                assert(s.deep_view()[j as int] == s[j as int]@);
                            }
                            let ghost before = items.deep_view();
                            items.push(s[j].clone());
                            proof {
                                assert forall|m: int|
                                    0 <= m < items.deep_view().len() implies items.deep_view()[m]
                                    == l.take(j + 1)[m] by {
                                    if m < before.len() {
                                        assert(items.deep_view()[m] == before[m]);
                                    } else {
                                        assert(items.deep_view()[m] == items[m]@);
                                    }
                                }
                                assert(items.deep_view() =~= l.take(j + 1));
                            }
                            j += 1;
                        }
                        let skip_equal = if p < n {
                            proof {
                                assert(s.deep_view()[p as int] == s[p as int]@);
                            }
                            str_eq(s[p].get_name().as_str(), new_smart_permission.get_name().as_str())
                        } else {
                            false
                        };
                        let ghost before = items.deep_view();
                        items.push(new_smart_permission);
                        let mut j2: usize = if skip_equal {
                            p + 1
                        } else {
                            p
                        };
                        let ghost start = j2 as int;
                        proof {
                            assert forall|m: int|
                                0 <= m < items.deep_view().len() implies items.deep_view()[m]
                                == l.take(p as int).push(newv)[m] by {
                                if m < before.len() {
                                    assert(items.deep_view()[m] == before[m]);
                                } else {
                                    assert(items.deep_view()[m] == items[m]@);
                                }
                            }
                            assert(items.deep_view() =~= l.take(p as int).push(newv));
                            assert(l.subrange(start, start) =~= Seq::<SmartPermissionV>::empty());
                            assert(items.deep_view() =~= l.take(p as int).push(newv)
                                + l.subrange(start, start));
                        }
                        while j2 < n
                            invariant
                                start <= j2 as int <= n,
                                items.deep_view() == l.take(p as int).push(newv) + l.subrange(
                                    start,
                                    j2 as int,
                                ),
                            decreases n - j2,
                        {
                            proof {
                                assert(s.deep_view()[j2 as int] == s[j2 as int]@);
                            }
                            let ghost before2 = items.deep_view();
                            items.push(s[j2].clone());
                            proof {
                                let target = l.take(p as int).push(newv) + l.subrange(
                                    start,
                                    j2 + 1,
                                );
                                assert forall|m: int|
                                    0 <= m < items.deep_view().len() implies items.deep_view()[m]
                                    == target[m] by {
                                    if m < before2.len() {
                                        assert(items.deep_view()[m] == before2[m]);
                                    } else {
                                        assert(m == before2.len());
                                        assert(items.deep_view()[m] == items[m]@);
                                        assert(target[m] == l.subrange(start, j2 + 1)[m - (p
                                            + 1)]);
                                        assert(m - (p + 1) == j2 - start);
                                        assert(l.subrange(start, j2 + 1)[j2 - start] == l[
                                            j2 as int
                                        ]);
                                    }
                                }
                                assert(items.deep_view() =~= target);
                            }
                            j2 += 1;
                        }
                        proof {
                            assert(l.subrange(start, n as int) =~= l.skip(start));
                            assert(smart_permission_keyf()(newv) == newv.name);
                            lemma_upsert_keyed_decompose(l, smart_permission_keyf(), newv, p as int);
                            assert(items.deep_view() == upsert_keyed(l, smart_permission_keyf(), newv));
                        }
                        replace_at = Some(i);
                    },
                    _ => {
                        return Err(
                            ApplyError::InvalidTransaction(
                                String::from_str("Cannot deserialize smart permissions list"),
                            ),
                        );
                    },
                }
            },
        }
        proof {
            lemma_upsert_keyed_props(l, smart_permission_keyf(), newv);
        }
        let list = match SmartPermissionListBuilder::new().set_smart_permissions(items).build() {
            Ok(list) => list,
            Err(_) => {
                return Err(
                    ApplyError::InvalidTransaction(
                        String::from_str("Cannot build smart permission list"),
                    ),
                );
            },
        };
        let entry = StateEntry { address, value: StoredValue::SmartPermissions(list) };
        let ghost dv = self.entries.deep_view();
        match replace_at {
            Some(i) => {
                self.entries[i] = entry;
                proof {
                    assert(self.entries.deep_view() =~= dv.update(i as int, entry@));
                    lemma_map_of_update(dv, i as int, entry@);
                }
            },
            None => {
                self.entries.push(entry);
                proof {
                    assert(self.entries.deep_view() =~= dv.push(entry@));
                    lemma_map_of_push(dv, entry@);
                }
            },
        }
        proof {
            let ndv = self.entries.deep_view();
            assert forall|i: int, j: int| 0 <= i < j < ndv.len() implies (
            #[trigger] ndv[i]).addr != (#[trigger] ndv[j]).addr by {
                match replace_at {
                    Some(ri) => {
                        if i != ri as int {
                            assert(ndv[i] == dv[i]);
                        }
                        if j != ri as int {
                            assert(ndv[j] == dv[j]);
                        }
                    },
                    None => {
                        if i < dv.len() {
                            assert(ndv[i] == dv[i]);
                        }
                        if j < dv.len() {
                            assert(ndv[j] == dv[j]);
                        }
                    },
                }
            }
            assert forall|i: int| 0 <= i < ndv.len() implies value_wf(
                (#[trigger] ndv[i]).addr,
                ndv[i].val,
            ) by {
                match replace_at {
                    Some(ri) => {
                        if i != ri as int {
                            assert(ndv[i] == dv[i]);
                        }
                    },
                    None => {
                        if i < dv.len() {
                            assert(ndv[i] == dv[i]);
                        }
                    },
                }
            }
        }
        Ok(())
    }

    /// Deletes everything stored at the smart permission's address —
    /// collided same-address entities included.  Fails when nothing is
    /// stored there.
    pub fn delete_smart_permission(&mut self, org_id: &str, name: &str) -> (r: Result<(), ApplyError>)
        requires
            old(self).wf(),
        ensures
            final(self).wf(),
            match r {
                Ok(()) => old(self)@.contains_key(smart_permission_address(org_id@, name@))
                    && final(self)@ == old(self)@.remove(
                    smart_permission_address(org_id@, name@),
                ),
                Err(e) => !old(self)@.contains_key(smart_permission_address(org_id@, name@))
                    && final(self)@ == old(self)@ && e@ == ApplyErrorV::InvalidTransaction(
                    "Cannot delete smart_permission"@,
                ),
            },
    {
        let address = compute_smart_permission_address(org_id, name);
        proof {
            lemma_map_of_props(self.entries.deep_view());
        }
        match self.find_entry(address.as_str()) {
            None => {
                proof {
                    if self@.contains_key(address@) {
                        let dv = self.entries.deep_view();
                        let i = choose|i: int|
                            0 <= i < dv.len() && (#[trigger] dv[i]).addr == address@;
                    }
                }
                Err(ApplyError::InvalidTransaction(String::from_str("Cannot delete smart_permission")))
            },
            Some(i) => {
                let ghost dv = self.entries.deep_view();
                self.entries.remove(i);
                proof {
                    assert(self.entries.deep_view() =~= dv.remove(i as int));
                    lemma_map_of_remove(dv, i as int);
                    dv.remove_ensures(i as int);
                    let ndv = self.entries.deep_view();
                    assert forall|a: int, b: int| 0 <= a < b < ndv.len() implies (
                    #[trigger] ndv[a]).addr != (#[trigger] ndv[b]).addr by {}
                    assert forall|a: int| 0 <= a < ndv.len() implies value_wf(
                        (#[trigger] ndv[a]).addr,
                        ndv[a].val,
                    ) by {}
                }
                Ok(())
            },
        }
    }
}

// ---------------------------------------------------------------------------
// Accounts
// ---------------------------------------------------------------------------
/// The accounts stored at `addr`, an empty list when there are none.
pub open spec fn stored_accounts(m: Map<Seq<char>, StoredValueV>, addr: Seq<char>) -> Seq<
    AccountV,
> {
    if m.contains_key(addr) {
        match m[addr] {
            StoredValueV::Accounts(l) => l,
            _ => Seq::empty(),
        }
    } else {
        Seq::empty()
    }
}

/// The account stored under `public_key`: the entity keyed `public_key` in
/// the list at its address.
pub open spec fn spec_get_account(
    m: Map<Seq<char>, StoredValueV>,
    public_key: Seq<char>,
) -> Option<AccountV> {
    find_keyed(stored_accounts(m, account_address(public_key)), account_keyf(), public_key)
}

/// The map after storing the account: the list at its address, with
/// any entity of the same key replaced, in key order.
pub open spec fn spec_set_account(
    m: Map<Seq<char>, StoredValueV>,
    public_key: Seq<char>,
    x: AccountV,
) -> Map<Seq<char>, StoredValueV> {
    let addr = account_address(public_key);
    m.insert(
        addr,
        StoredValueV::Accounts(upsert_keyed(stored_accounts(m, addr), account_keyf(), x)),
    )
}

/// The position of the first account whose key is not below `cname`
/// in the key order.
fn account_insert_pos(s: &[Account], cname: &str) -> (p: usize)
    ensures
        p <= s.deep_view().len(),
        forall|m: int| 0 <= m < p ==> str_key_lt((#[trigger] s.deep_view()[m]).public_key, cname@),
        p < s.deep_view().len() ==> !str_key_lt(s.deep_view()[p as int].public_key, cname@),
{
    let n = s.len();
    let mut p: usize = 0;
    while p < n
        invariant
            n == s.deep_view().len(),
            p <= n,
            forall|m: int| 0 <= m < p ==> str_key_lt(
                (#[trigger] s.deep_view()[m]).public_key,
                cname@,
            ),
        ensures
            p <= n,
            forall|m: int| 0 <= m < p ==> str_key_lt(
                (#[trigger] s.deep_view()[m]).public_key,
                cname@,
            ),
            p < n ==> !str_key_lt(s.deep_view()[p as int].public_key, cname@),
        decreases n - p,
    {
        proof {
            assert(s.deep_view()[p as int] == s[p as int]@);
        }
        if !str_lt(s[p].get_public_key(), cname) {
            break ;
        }
        p += 1;
    }
    p
}

impl SmartState {
    /// Looks up the account stored under `public_key`.
    #[verifier::loop_isolation(false)]
    pub fn get_account(&self, public_key: &str) -> (r: Result<
        Option<Account>,
        ApplyError,
    >)
        requires
            self.wf(),
        ensures
            match r {
                Ok(Some(c)) => spec_get_account(self@, public_key@) == Some(c@),
                Ok(None) => spec_get_account(self@, public_key@) is None,
                Err(e) => false,
            },
    {
        let address = compute_account_address(public_key);
        proof {
            lemma_address_prefixes(public_key@, public_key@);
            lemma_map_of_props(self.entries.deep_view());
        }
        match self.find_entry(address.as_str()) {
            None => {
                proof {
                    if self@.contains_key(address@) {
                        let dv = self.entries.deep_view();
                        let i = choose|i: int|
                            0 <= i < dv.len() && (#[trigger] dv[i]).addr == address@;
                    }
                }
                Ok(None)
            },
            Some(i) => {
                proof {
                    let dv = self.entries.deep_view();
                    assert(dv[i as int] == self.entries[i as int].deep_view());
                    lemma_variant_at(dv[i as int].addr, dv[i as int].val);
                }
                match &self.entries[i].value {
                    StoredValue::Accounts(list) => {
                        let ghost l = stored_accounts(self@, address@);
                        let s = list.get_accounts();
                        proof {
                            assert(s.deep_view() == l);
                        }
                        let n = s.len();
                        let mut j: usize = 0;
                        while j < n
                            invariant
                                j <= n,
                                forall|m: int| 0 <= m < j
                                    ==> (#[trigger] s.deep_view()[m]).public_key != public_key@,
                            decreases n - j,
                        {
                            proof {
                                assert(s.deep_view()[j as int] == s[j as int]@);
                            }
                            if str_eq(s[j].get_public_key(), public_key) {
                                proof {
                                    assert forall|m: int| 0 <= m < j implies account_keyf()(
                                        #[trigger] l[m],
                                    ) != public_key@ by {}
                                    lemma_find_keyed_skip(l, account_keyf(), public_key@, j as int);
                                    assert(l.skip(j as int)[0] == l[j as int]);
                                    assert(l.skip(j as int).len() > 0);
                                    assert(account_keyf()(l[j as int]) == public_key@);
                                    assert(find_keyed(l.skip(j as int), account_keyf(), public_key@)
                                        == Some(l[j as int]));
                                }
                                return Ok(Some(s[j].clone()));
                            }
                            j += 1;
                        }
                        proof {
                            assert forall|m: int| 0 <= m < n implies account_keyf()(
                                #[trigger] l[m],
                            ) != public_key@ by {}
                            lemma_find_keyed_skip(l, account_keyf(), public_key@, n as int);
                            assert(l.skip(n as int).len() == 0);
                        }
                        Ok(None)
                    },
                    _ => {
                        Err(
                            ApplyError::InvalidTransaction(
                                String::from_str("Cannot deserialize account list"),
                            ),
                        )
                    },
                }
            },
        }
    }

    /// Stores the account, replacing any entity of the same key at
    /// the same address and keeping the address's list in key order.
    #[verifier::loop_isolation(false)]
    pub fn set_account(&mut self, public_key: &str, new_account: Account) -> (r:
        Result<(), ApplyError>)
        requires
            old(self).wf(),
            new_account@.public_key == public_key@,
        ensures
            final(self).wf(),
            r matches Ok(()),
            final(self)@ == spec_set_account(old(self)@, public_key@, new_account@),
    {
        proof {
            self.lemma_wf_map();
        }
        let address = compute_account_address(public_key);
        proof {
            lemma_address_prefixes(public_key@, public_key@);
            lemma_map_of_props(self.entries.deep_view());
        }
        let ghost l = stored_accounts(self@, address@);
        let idx = self.find_entry(address.as_str());
        proof {
            if idx is None && self@.contains_key(address@) {
                let dv = self.entries.deep_view();
                let i = choose|i: int| 0 <= i < dv.len() && (#[trigger] dv[i]).addr == address@;
            }
        }
        let mut items: Vec<Account> = Vec::new();
        let mut replace_at: Option<usize> = None;
        let ghost newv = new_account@;
        match idx {
            None => {
                items.push(new_account);
                proof {
                    assert(l =~= Seq::<AccountV>::empty());
                    assert(items.deep_view() =~= upsert_keyed(l, account_keyf(), newv));
                }
            },
            Some(i) => {
                proof {
                    let dv = self.entries.deep_view();
                    assert(dv[i as int] == self.entries[i as int].deep_view());
                    lemma_variant_at(dv[i as int].addr, dv[i as int].val);
                }
                match &self.entries[i].value {
                    StoredValue::Accounts(list) => {
                        let s = list.get_accounts();
                        proof {
                            assert(s.deep_view() == l);
                        }
                        let n = s.len();
                        // the insert position: the first entity whose key
                        // is not below the new key
                        let p = account_insert_pos(s, new_account.get_public_key());
                        let mut j: usize = 0;
                        while j < p
                            invariant
                                j <= p,
                                items.deep_view() == l.take(j as int),
                            decreases p - j,
                        {
                            proof {
                                assert(s.deep_view()[j as int] == s[j as int]@);
                            }
                            let ghost before = items.deep_view();
                            items.push(s[j].clone());
                            proof {
                                assert forall|m: int|
                                    0 <= m < items.deep_view().len() implies items.deep_view()[m]
                                    == l.take(j + 1)[m] by {
                                    if m < before.len() {
                                        assert(items.deep_view()[m] == before[m]);
                                    } else {
                                        assert(items.deep_view()[m] == items[m]@);
                                    }
                                }
                                assert(items.deep_view() =~= l.take(j + 1));
                            }
                            j += 1;
                        }
                        let skip_equal = if p < n {
                            proof {
                                assert(s.deep_view()[p as int] == s[p as int]@);
                            }
                            str_eq(s[p].get_public_key(), new_account.get_public_key())
                        } else {
                            false
                        };
                        let ghost before = items.deep_view();
                        items.push(new_account);
                        let mut j2: usize = if skip_equal {
                            p + 1
                        } else {
                            p
                        };
                        let ghost start = j2 as int;
                        proof {
                            assert forall|m: int|
                                0 <= m < items.deep_view().len() implies items.deep_view()[m]
                                == l.take(p as int).push(newv)[m] by {
                                if m < before.len() {
                                    assert(items.deep_view()[m] == before[m]);
                                } else {
                                    assert(items.deep_view()[m] == items[m]@);
                                }
                            }
                            assert(items.deep_view() =~= l.take(p as int).push(newv));
                            assert(l.subrange(start, start) =~= Seq::<AccountV>::empty());
                            assert(items.deep_view() =~= l.take(p as int).push(newv)
                                + l.subrange(start, start));
                        }
                        while j2 < n
                            invariant
                                start <= j2 as int <= n,
                                items.deep_view() == l.take(p as int).push(newv) + l.subrange(
                                    start,
                                    j2 as int,
                                ),
                            decreases n - j2,
                        {
                            proof {
                                assert(s.deep_view()[j2 as int] == s[j2 as int]@);
                            }
                            let ghost before2 = items.deep_view();
                            items.push(s[j2].clone());
                            proof {
                                let target = l.take(p as int).push(newv) + l.subrange(
                                    start,
                                    j2 + 1,
                                );
                                assert forall|m: int|
                                    0 <= m < items.deep_view().len() implies items.deep_view()[m]
                                    == target[m] by {
                                    if m < before2.len() {
                                        assert(items.deep_view()[m] == before2[m]);
                                    } else {
                                        assert(m == before2.len());
                                        assert(items.deep_view()[m] == items[m]@);
                                        assert(target[m] == l.subrange(start, j2 + 1)[m - (p
                                            + 1)]);
                                        assert(m - (p + 1) == j2 - start);
                                        assert(l.subrange(start, j2 + 1)[j2 - start] == l[
                                            j2 as int
                                        ]);
                                    }
                                }
                                assert(items.deep_view() =~= target);
                            }
                            j2 += 1;
                        }
                        proof {
                            assert(l.subrange(start, n as int) =~= l.skip(start));
                            assert(account_keyf()(newv) == newv.public_key);
                            lemma_upsert_keyed_decompose(l, account_keyf(), newv, p as int);
                            assert(items.deep_view() == upsert_keyed(l, account_keyf(), newv));
                        }
                        replace_at = Some(i);
                    },
                    _ => {
                        return Err(
                            ApplyError::InvalidTransaction(
                                String::from_str("Cannot deserialize account list"),
                            ),
                        );
                    },
                }
            },
        }
        proof {
            lemma_upsert_keyed_props(l, account_keyf(), newv);
        }
        let list = match AccountListBuilder::new().set_accounts(items).build() {
            Ok(list) => list,
            Err(_) => {
                return Err(
                    ApplyError::InvalidTransaction(
                        String::from_str("Cannot build account list"),
                    ),
                );
            },
        };
        let entry = StateEntry { address, value: StoredValue::Accounts(list) };
        let ghost dv = self.entries.deep_view();
        match replace_at {
            Some(i) => {
                self.entries[i] = entry;
                proof {
                    assert(self.entries.deep_view() =~= dv.update(i as int, entry@));
                    lemma_map_of_update(dv, i as int, entry@);
                }
            },
            None => {
                self.entries.push(entry);
                proof {
                    assert(self.entries.deep_view() =~= dv.push(entry@));
                    lemma_map_of_push(dv, entry@);
                }
            },
        }
        proof {
            let ndv = self.entries.deep_view();
            assert forall|i: int, j: int| 0 <= i < j < ndv.len() implies (
            #[trigger] ndv[i]).addr != (#[trigger] ndv[j]).addr by {
                match replace_at {
                    Some(ri) => {
                        if i != ri as int {
                            assert(ndv[i] == dv[i]);
                        }
                        if j != ri as int {
                            assert(ndv[j] == dv[j]);
                        }
                    },
                    None => {
                        if i < dv.len() {
                            assert(ndv[i] == dv[i]);
                        }
                        if j < dv.len() {
                            assert(ndv[j] == dv[j]);
                        }
                    },
                }
            }
            assert forall|i: int| 0 <= i < ndv.len() implies value_wf(
                (#[trigger] ndv[i]).addr,
                ndv[i].val,
            ) by {
                match replace_at {
                    Some(ri) => {
                        if i != ri as int {
                            assert(ndv[i] == dv[i]);
                        }
                    },
                    None => {
                        if i < dv.len() {
                            assert(ndv[i] == dv[i]);
                        }
                    },
                }
            }
        }
        Ok(())
    }
}

// ---------------------------------------------------------------------------
// Organizations
// ---------------------------------------------------------------------------
/// The organizations stored at `addr`, an empty list when there are none.
pub open spec fn stored_organizations(m: Map<Seq<char>, StoredValueV>, addr: Seq<char>) -> Seq<
    OrganizationV,
> {
    if m.contains_key(addr) {
        match m[addr] {
            StoredValueV::Organizations(l) => l,
            _ => Seq::empty(),
        }
    } else {
        Seq::empty()
    }
}

/// The organization stored under `org_id`: the entity keyed `org_id` in
/// the list at its address.
pub open spec fn spec_get_organization(
    m: Map<Seq<char>, StoredValueV>,
    org_id: Seq<char>,
) -> Option<OrganizationV> {
    find_keyed(stored_organizations(m, org_address(org_id)), organization_keyf(), org_id)
}

/// The map after storing the organization: the list at its address, with
/// any entity of the same key replaced, in key order.
pub open spec fn spec_set_organization(
    m: Map<Seq<char>, StoredValueV>,
    org_id: Seq<char>,
    x: OrganizationV,
) -> Map<Seq<char>, StoredValueV> {
    let addr = org_address(org_id);
    m.insert(
        addr,
        StoredValueV::Organizations(upsert_keyed(stored_organizations(m, addr), organization_keyf(), x)),
    )
}

/// The position of the first organization whose key is not below `cname`
/// in the key order.
fn organization_insert_pos(s: &[Organization], cname: &str) -> (p: usize)
    ensures
        p <= s.deep_view().len(),
        forall|m: int| 0 <= m < p ==> str_key_lt((#[trigger] s.deep_view()[m]).org_id, cname@),
        p < s.deep_view().len() ==> !str_key_lt(s.deep_view()[p as int].org_id, cname@),
{
    let n = s.len();
    let mut p: usize = 0;
    while p < n
        invariant
            n == s.deep_view().len(),
            p <= n,
            forall|m: int| 0 <= m < p ==> str_key_lt(
                (#[trigger] s.deep_view()[m]).org_id,
                cname@,
            ),
        ensures
            p <= n,
            forall|m: int| 0 <= m < p ==> str_key_lt(
                (#[trigger] s.deep_view()[m]).org_id,
                cname@,
            ),
            p < n ==> !str_key_lt(s.deep_view()[p as int].org_id, cname@),
        decreases n - p,
    {
        proof {
            assert(s.deep_view()[p as int] == s[p as int]@);
        }
        if !str_lt(s[p].get_org_id(), cname) {
            break ;
        }
        p += 1;
    }
    p
}

impl SmartState {
    /// Looks up the organization stored under `org_id`.
    #[verifier::loop_isolation(false)]
    pub fn get_organization(&self, org_id: &str) -> (r: Result<
        Option<Organization>,
        ApplyError,
    >)
        requires
            self.wf(),
        ensures
            match r {
                Ok(Some(c)) => spec_get_organization(self@, org_id@) == Some(c@),
                Ok(None) => spec_get_organization(self@, org_id@) is None,
                Err(e) => false,
            },
    {
        let address = compute_org_address(org_id);
        proof {
            lemma_address_prefixes(org_id@, org_id@);
            lemma_map_of_props(self.entries.deep_view());
        }
        match self.find_entry(address.as_str()) {
            None => {
                proof {
                    if self@.contains_key(address@) {
                        let dv = self.entries.deep_view();
                        let i = choose|i: int|
                            0 <= i < dv.len() && (#[trigger] dv[i]).addr == address@;
                    }
                }
                Ok(None)
            },
            Some(i) => {
                proof {
                    let dv = self.entries.deep_view();
                    assert(dv[i as int] == self.entries[i as int].deep_view());
                    lemma_variant_at(dv[i as int].addr, dv[i as int].val);
                }
                match &self.entries[i].value {
                    StoredValue::Organizations(list) => {
                        let ghost l = stored_organizations(self@, address@);
                        let s = list.get_organizations();
                        proof {
                            assert(s.deep_view() == l);
                        }
                        let n = s.len();
                        let mut j: usize = 0;
                        while j < n
                            invariant
                                j <= n,
                                forall|m: int| 0 <= m < j
                                    ==> (#[trigger] s.deep_view()[m]).org_id != org_id@,
                            decreases n - j,
                        {
                            proof {
                                assert(s.deep_view()[j as int] == s[j as int]@);
                            }
                            if str_eq(s[j].get_org_id(), org_id) {
                                proof {
                                    assert forall|m: int| 0 <= m < j implies organization_keyf()(
                                        #[trigger] l[m],
                                    ) != org_id@ by {}
                                    lemma_find_keyed_skip(l, organization_keyf(), org_id@, j as int);
                                    assert(l.skip(j as int)[0] == l[j as int]);
                                    assert(l.skip(j as int).len() > 0);
                                    assert(organization_keyf()(l[j as int]) == org_id@);
                                    assert(find_keyed(l.skip(j as int), organization_keyf(), org_id@)
                                        == Some(l[j as int]));
                                }
                                return Ok(Some(s[j].clone()));
                            }
                            j += 1;
                        }
                        proof {
                            assert forall|m: int| 0 <= m < n implies organization_keyf()(
                                #[trigger] l[m],
                            ) != org_id@ by {}
                            lemma_find_keyed_skip(l, organization_keyf(), org_id@, n as int);
                            assert(l.skip(n as int).len() == 0);
                        }
                        Ok(None)
                    },
                    _ => {
                        Err(
                            ApplyError::InvalidTransaction(
                                String::from_str("Cannot deserialize organization list"),
                            ),
                        )
                    },
                }
            },
        }
    }

    /// Stores the organization, replacing any entity of the same key at
    /// the same address and keeping the address's list in key order.
    #[verifier::loop_isolation(false)]
    pub fn set_organization(&mut self, org_id: &str, new_organization: Organization) -> (r:
        Result<(), ApplyError>)
        requires
            old(self).wf(),
            new_organization@.org_id == org_id@,
        ensures
            final(self).wf(),
            r matches Ok(()),
            final(self)@ == spec_set_organization(old(self)@, org_id@, new_organization@),
    {
        proof {
            self.lemma_wf_map();
        }
        let address = compute_org_address(org_id);
        proof {
            lemma_address_prefixes(org_id@, org_id@);
            lemma_map_of_props(self.entries.deep_view());
        }
        let ghost l = stored_organizations(self@, address@);
        let idx = self.find_entry(address.as_str());
        proof {
            if idx is None && self@.contains_key(address@) {
                let dv = self.entries.deep_view();
                let i = choose|i: int| 0 <= i < dv.len() && (#[trigger] dv[i]).addr == address@;
            }
        }
        let mut items: Vec<Organization> = Vec::new();
        let mut replace_at: Option<usize> = None;
        let ghost newv = new_organization@;
        match idx {
            None => {
                items.push(new_organization);
                proof {
                    assert(l =~= Seq::<OrganizationV>::empty());
                    assert(items.deep_view() =~= upsert_keyed(l, organization_keyf(), newv));
                }
            },
            Some(i) => {
                proof {
                    let dv = self.entries.deep_view();
                    assert(dv[i as int] == self.entries[i as int].deep_view());
                    lemma_variant_at(dv[i as int].addr, dv[i as int].val);
                }
                match &self.entries[i].value {
                    StoredValue::Organizations(list) => {
                        let s = list.get_organizations();
                        proof {
                            assert(s.deep_view() == l);
                        }
                        let n = s.len();
                        // the insert position: the first entity whose key
                        // is not below the new key
                        let p = organization_insert_pos(s, new_organization.get_org_id());
                        let mut j: usize = 0;
                        while j < p
                            invariant
                                j <= p,
                                items.deep_view() == l.take(j as int),
                            decreases p - j,
                        {
                            proof {
                                assert(s.deep_view()[j as int] == s[j as int]@);
                            }
                            let ghost before = items.deep_view();
                            items.push(s[j].clone());
                            proof {
                                assert forall|m: int|
                                    0 <= m < items.deep_view().len() implies items.deep_view()[m]
                                    == l.take(j + 1)[m] by {
                                    if m < before.len() {
                                        assert(items.deep_view()[m] == before[m]);
                                    } else {
                                        assert(items.deep_view()[m] == items[m]@);
                                    }
                                }
                                assert(items.deep_view() =~= l.take(j + 1));
                            }
                            j += 1;
                        }
                        let skip_equal = if p < n {
                            proof {
                                assert(s.deep_view()[p as int] == s[p as int]@);
                            }
                            str_eq(s[p].get_org_id(), new_organization.get_org_id())
                        } else {
                            false
                        };
                        let ghost before = items.deep_view();
                        items.push(new_organization);
                        let mut j2: usize = if skip_equal {
                            p + 1
                        } else {
                            p
                        };
                        let ghost start = j2 as int;
                        proof {
                            assert forall|m: int|
                                0 <= m < items.deep_view().len() implies items.deep_view()[m]
                                == l.take(p as int).push(newv)[m] by {
                                if m < before.len() {
                                    assert(items.deep_view()[m] == before[m]);
                                } else {
                                    assert(items.deep_view()[m] == items[m]@);
                                }
                            }
                            assert(items.deep_view() =~= l.take(p as int).push(newv));
                            assert(l.subrange(start, start) =~= Seq::<OrganizationV>::empty());
                            assert(items.deep_view() =~= l.take(p as int).push(newv)
                                + l.subrange(start, start));
                        }
                        while j2 < n
                            invariant
                                start <= j2 as int <= n,
                                items.deep_view() == l.take(p as int).push(newv) + l.subrange(
                                    start,
                                    j2 as int,
                                ),
                            decreases n - j2,
                        {
                            proof {
                                assert(s.deep_view()[j2 as int] == s[j2 as int]@);
                            }
                            let ghost before2 = items.deep_view();
                            items.push(s[j2].clone());
                            proof {
                                let target = l.take(p as int).push(newv) + l.subrange(
                                    start,
                                    j2 + 1,
                                );
                                assert forall|m: int|
                                    0 <= m < items.deep_view().len() implies items.deep_view()[m]
                                    == target[m] by {
                                    if m < before2.len() {
                                        assert(items.deep_view()[m] == before2[m]);
                                    } else {
                                        assert(m == before2.len());
                                        assert(items.deep_view()[m] == items[m]@);
                                        assert(target[m] == l.subrange(start, j2 + 1)[m - (p
                                            + 1)]);
                                        assert(m - (p + 1) == j2 - start);
                                        assert(l.subrange(start, j2 + 1)[j2 - start] == l[
                                            j2 as int
                                        ]);
                                    }
                                }
                                assert(items.deep_view() =~= target);
                            }
                            j2 += 1;
                        }
                        proof {
                            assert(l.subrange(start, n as int) =~= l.skip(start));
                            assert(organization_keyf()(newv) == newv.org_id);
                            lemma_upsert_keyed_decompose(l, organization_keyf(), newv, p as int);
                            assert(items.deep_view() == upsert_keyed(l, organization_keyf(), newv));
                        }
                        replace_at = Some(i);
                    },
                    _ => {
                        return Err(
                            ApplyError::InvalidTransaction(
                                String::from_str("Cannot deserialize organization list"),
                            ),
                        );
                    },
                }
            },
        }
        proof {
            lemma_upsert_keyed_props(l, organization_keyf(), newv);
        }
        let list = match OrganizationListBuilder::new().set_organizations(items).build() {
            Ok(list) => list,
            Err(_) => {
                return Err(
                    ApplyError::InvalidTransaction(
                        String::from_str("Cannot build organization list"),
                    ),
                );
            },
        };
        let entry = StateEntry { address, value: StoredValue::Organizations(list) };
        let ghost dv = self.entries.deep_view();
        match replace_at {
            Some(i) => {
                self.entries[i] = entry;
                proof {
                    assert(self.entries.deep_view() =~= dv.update(i as int, entry@));
                    lemma_map_of_update(dv, i as int, entry@);
                }
            },
            None => {
                self.entries.push(entry);
                proof {
                    assert(self.entries.deep_view() =~= dv.push(entry@));
                    lemma_map_of_push(dv, entry@);
                }
            },
        }
        proof {
            let ndv = self.entries.deep_view();
            assert forall|i: int, j: int| 0 <= i < j < ndv.len() implies (
            #[trigger] ndv[i]).addr != (#[trigger] ndv[j]).addr by {
                match replace_at {
                    Some(ri) => {
                        if i != ri as int {
                            assert(ndv[i] == dv[i]);
                        }
                        if j != ri as int {
                            assert(ndv[j] == dv[j]);
                        }
                    },
                    None => {
                        if i < dv.len() {
                            assert(ndv[i] == dv[i]);
                        }
                        if j < dv.len() {
                            assert(ndv[j] == dv[j]);
                        }
                    },
                }
            }
            assert forall|i: int| 0 <= i < ndv.len() implies value_wf(
                (#[trigger] ndv[i]).addr,
                ndv[i].val,
            ) by {
                match replace_at {
                    Some(ri) => {
                        if i != ri as int {
                            assert(ndv[i] == dv[i]);
                        }
                    },
                    None => {
                        if i < dv.len() {
                            assert(ndv[i] == dv[i]);
                        }
                    },
                }
            }
        }
        Ok(())
    }
}

// ---------------------------------------------------------------------------
// The administrators setting
// ---------------------------------------------------------------------------
/// The settings blob stored at the well-known administrators address.
pub open spec fn spec_admin_setting(m: Map<Seq<char>, StoredValueV>) -> Option<SettingV> {
    if m.contains_key(ADMINISTRATORS_SETTING_ADDRESS@) {
        match m[ADMINISTRATORS_SETTING_ADDRESS@] {
            StoredValueV::Setting(s) => Some(s),
            _ => None,
        }
    } else {
        None
    }
}

impl SmartState {
    /// Reads the externally managed administrators setting.
    pub fn get_admin_setting(&self) -> (r: Result<Option<Setting>, ApplyError>)
        requires
            self.wf(),
        ensures
            match r {
                Ok(Some(s)) => spec_admin_setting(self@) == Some(s@),
                Ok(None) => spec_admin_setting(self@) is None,
                Err(_) => false,
            },
    {
        proof {
            lemma_map_of_props(self.entries.deep_view());
            reveal_strlit(
                "000000a87cb5eafdcca6a814e4add97c4b517d3c530c2f44b31d18e3b0c44298fc1c14",
            );
        }
        match self.find_entry(ADMINISTRATORS_SETTING_ADDRESS) {
            None => {
                proof {
                    if self@.contains_key(ADMINISTRATORS_SETTING_ADDRESS@) {
                        let dv = self.entries.deep_view();
                        let i = choose|i: int|
                            0 <= i < dv.len() && (#[trigger] dv[i]).addr
                                == ADMINISTRATORS_SETTING_ADDRESS@;
                    }
                }
                Ok(None)
            },
            Some(i) => {
                proof {
                    let dv = self.entries.deep_view();
                    assert(dv[i as int] == self.entries[i as int].deep_view());
                    lemma_variant_at(dv[i as int].addr, dv[i as int].val);
                }
                match &self.entries[i].value {
                    StoredValue::Setting(s) => Ok(Some(s.clone())),
                    _ => {
                        Err(
                            ApplyError::InvalidTransaction(
                                String::from_str("Cannot deserialize setting"),
                            ),
                        )
                    },
                }
            },
        }
    }

    /// Installs the administrators setting at its well-known address, as
    /// the outer validator does.
    pub fn set_admin_setting(&mut self, setting: Setting) -> (r: Result<(), ApplyError>)
        requires
            old(self).wf(),
        ensures
            final(self).wf(),
            r matches Ok(()),
            final(self)@ == old(self)@.insert(
                ADMINISTRATORS_SETTING_ADDRESS@,
                StoredValueV::Setting(setting@),
            ),
    {
        proof {
            lemma_map_of_props(self.entries.deep_view());
        }
        let address = String::from_str(ADMINISTRATORS_SETTING_ADDRESS);
        let idx = self.find_entry(address.as_str());
        proof {
            if idx is None && self@.contains_key(address@) {
                let dv = self.entries.deep_view();
                let i = choose|i: int| 0 <= i < dv.len() && (#[trigger] dv[i]).addr == address@;
            }
        }
        let entry = StateEntry { address, value: StoredValue::Setting(setting) };
        let ghost dv = self.entries.deep_view();
        match idx {
            Some(i) => {
                self.entries[i] = entry;
                proof {
                    assert(self.entries.deep_view() =~= dv.update(i as int, entry@));
                    lemma_map_of_update(dv, i as int, entry@);
                }
            },
            None => {
                self.entries.push(entry);
                proof {
                    assert(self.entries.deep_view() =~= dv.push(entry@));
                    lemma_map_of_push(dv, entry@);
                }
            },
        }
        proof {
            let ndv = self.entries.deep_view();
            assert forall|i: int, j: int| 0 <= i < j < ndv.len() implies (
            #[trigger] ndv[i]).addr != (#[trigger] ndv[j]).addr by {
                match idx {
                    Some(ri) => {
                        if i != ri as int {
                            assert(ndv[i] == dv[i]);
                        }
                        if j != ri as int {
                            assert(ndv[j] == dv[j]);
                        }
                    },
                    None => {
                        if i < dv.len() {
                            assert(ndv[i] == dv[i]);
                        }
                        if j < dv.len() {
                            assert(ndv[j] == dv[j]);
                        }
                    },
                }
            }
            assert forall|i: int| 0 <= i < ndv.len() implies value_wf(
                (#[trigger] ndv[i]).addr,
                ndv[i].val,
            ) by {
                match idx {
                    Some(ri) => {
                        if i != ri as int {
                            assert(ndv[i] == dv[i]);
                        }
                    },
                    None => {
                        if i < dv.len() {
                            assert(ndv[i] == dv[i]);
                        }
                    },
                }
            }
        }
        Ok(())
    }

    /// Reads the whole namespace registry list stored at the address of
    /// `namespace` — every registry whose first six characters collide.
    pub fn get_namespace_registries(&self, namespace: &str) -> (r: Result<
        Option<NamespaceRegistryList>,
        ApplyError,
    >)
        requires
            self.wf(),
        ensures
            match r {
                Ok(Some(lst)) => namespace@.len() >= 6 && lst@ == stored_namespace_registries(
                    self@,
                    namespace_registry_address(namespace@),
                ) && self@.contains_key(namespace_registry_address(namespace@)),
                Ok(None) => namespace@.len() >= 6 && !self@.contains_key(
                    namespace_registry_address(namespace@),
                ),
                Err(e) => namespace@.len() < 6 && e@ == ApplyErrorV::InvalidTransaction(
                    "Namespace must be at least 6 characters long: "@ + namespace@,
                ),
            },
            r is Ok ==> namespace@.len() >= 6,
    {
        let address = make_namespace_registry_address(namespace)?;
        proof {
            lemma_address_prefixes(namespace@, namespace@);
            lemma_map_of_props(self.entries.deep_view());
        }
        match self.find_entry(address.as_str()) {
            None => {
                proof {
                    if self@.contains_key(address@) {
                        let dv = self.entries.deep_view();
                        let i = choose|i: int|
                            0 <= i < dv.len() && (#[trigger] dv[i]).addr == address@;
                    }
                }
                Ok(None)
            },
            Some(i) => {
                proof {
                    let dv = self.entries.deep_view();
                    assert(dv[i as int] == self.entries[i as int].deep_view());
                    lemma_variant_at(dv[i as int].addr, dv[i as int].val);
                }
                match &self.entries[i].value {
                    StoredValue::NamespaceRegistries(list) => Ok(Some(list.clone())),
                    _ => {
                        Err(
                            ApplyError::InvalidTransaction(
                                String::from_str("Cannot deserialize namespace registry list"),
                            ),
                        )
                    },
                }
            },
        }
    }
}

} // verus!
