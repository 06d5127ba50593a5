//! The entities kept in global state, with the builders that create them.
//!
//! Every entity has a ghost view over character and byte sequences; all
//! contracts of the crate speak of those views.

use vstd::prelude::*;
use vstd::pervasive::cloned;

verus! {

// ---------------------------------------------------------------------------
// Version
// ---------------------------------------------------------------------------
/// View of a [`Version`].
pub ghost struct VersionV {
    pub version: Seq<char>,
    pub contract_sha512: Seq<char>,
    pub creator: Seq<char>,
}

/// One deployed version of a named contract: the version string, the hex
/// SHA-512 digest of the contract bytes, and the creator's public key.
#[derive(Debug, PartialEq)]
pub struct Version {
    version: String,
    contract_sha512: String,
    creator: String,
}

impl View for Version {
    type V = VersionV;

    closed spec fn view(&self) -> VersionV {
        VersionV {
            version: self.version@,
            contract_sha512: self.contract_sha512@,
            creator: self.creator@,
        }
    }
}

impl DeepView for Version {
    type V = VersionV;

    open spec fn deep_view(&self) -> VersionV {
        self.view()
    }
}

impl Clone for Version {
    fn clone(&self) -> (res: Self)
        ensures
            res@ == self@,
    {
        let res = Version {
            version: self.version.clone(),
            contract_sha512: self.contract_sha512.clone(),
            creator: self.creator.clone(),
        };
        res
    }
}

impl Version {
    pub fn get_version(&self) -> (r: &String)
        ensures
            r@ == self@.version,
    {
        &self.version
    }

    pub fn get_contract_sha512(&self) -> (r: &String)
        ensures
            r@ == self@.contract_sha512,
    {
        &self.contract_sha512
    }

    pub fn get_creator(&self) -> (r: &String)
        ensures
            r@ == self@.creator,
    {
        &self.creator
    }

    pub fn into_builder(self) -> (r: VersionBuilder)
        ensures
            r@ == (VersionBuilderV {
                version: Some(self@.version),
                contract_sha512: Some(self@.contract_sha512),
                creator: Some(self@.creator),
            }),
    {
        VersionBuilder::new().set_version(self.version).set_contract_sha512(self.contract_sha512).set_creator(self.creator)
    }
}

/// View of a [`VersionBuildError`].
pub ghost enum VersionBuildErrorV {
    MissingField(Seq<char>),
}

/// Error returned when a [`VersionBuilder`] misses a required field.
#[derive(Debug, Clone, PartialEq)]
pub enum VersionBuildError {
    MissingField(String),
}

impl View for VersionBuildError {
    type V = VersionBuildErrorV;

    open spec fn view(&self) -> VersionBuildErrorV {
        match self {
            VersionBuildError::MissingField(m) => VersionBuildErrorV::MissingField(m@),
        }
    }
}

/// View of a [`VersionBuilder`].
pub ghost struct VersionBuilderV {
    pub version: Option<Seq<char>>,
    pub contract_sha512: Option<Seq<char>>,
    pub creator: Option<Seq<char>>,
}

/// What [`VersionBuilder::build`] returns: the built view, or the message of
/// the first missing field.
pub open spec fn version_build_spec(b: VersionBuilderV) -> Result<VersionV, Seq<char>> {
    if b.version is None {
        Err("'versions' field is required"@)
    } else if b.contract_sha512 is None {
        Err("'contract_sha512' field is required"@)
    } else if b.creator is None {
        Err("'creator' field is required"@)
    } else {
        Ok(
            VersionV {
                version: b.version.unwrap(),
                contract_sha512: b.contract_sha512.unwrap(),
                creator: b.creator.unwrap(),
            },
        )
    }
}

/// Builder used to create a [`Version`].
pub struct VersionBuilder {
    version: Option<String>,
    contract_sha512: Option<String>,
    creator: Option<String>,
}

impl View for VersionBuilder {
    type V = VersionBuilderV;

    closed spec fn view(&self) -> VersionBuilderV {
        VersionBuilderV {
            version: match self.version {
                Some(s) => Some(s@),
                None => None,
            },
            contract_sha512: match self.contract_sha512 {
                Some(s) => Some(s@),
                None => None,
            },
            creator: match self.creator {
                Some(s) => Some(s@),
                None => None,
            },
        }
    }
}

impl VersionBuilder {
    pub fn new() -> (r: Self)
        ensures
            r@ == (VersionBuilderV {
                version: None,
                contract_sha512: None,
                creator: None,
            }),
    {
        let r = VersionBuilder {
            version: None,
            contract_sha512: None,
            creator: None,
        };
        r
    }

    pub fn set_version(self, version: String) -> (r: Self)
        ensures
            r@ == (VersionBuilderV { version: Some(version@), ..self@ }),
    {
        VersionBuilder { version: Some(version), ..self }
    }

    pub fn set_contract_sha512(self, contract_sha512: String) -> (r: Self)
        ensures
            r@ == (VersionBuilderV { contract_sha512: Some(contract_sha512@), ..self@ }),
    {
        VersionBuilder { contract_sha512: Some(contract_sha512), ..self }
    }

    pub fn set_creator(self, creator: String) -> (r: Self)
        ensures
            r@ == (VersionBuilderV { creator: Some(creator@), ..self@ }),
    {
        VersionBuilder { creator: Some(creator), ..self }
    }

    pub fn build(self) -> (r: Result<Version, VersionBuildError>)
        ensures
            match r {
                Ok(v) => version_build_spec(self@) matches Ok(vv) && v@ == vv,
                Err(e) => version_build_spec(self@) matches Err(m) && e@
                    == VersionBuildErrorV::MissingField(m),
            },
    {
        let version = match self.version {
            Some(v) => v,
            None => {
                return Err(
                    VersionBuildError::MissingField(
                        String::from_str("'versions' field is required"),
                    ),
                );
            },
        };
        let contract_sha512 = match self.contract_sha512 {
            Some(v) => v,
            None => {
                return Err(
                    VersionBuildError::MissingField(
                        String::from_str("'contract_sha512' field is required"),
                    ),
                );
            },
        };
        let creator = match self.creator {
            Some(v) => v,
            None => {
                return Err(
                    VersionBuildError::MissingField(
                        String::from_str("'creator' field is required"),
                    ),
                );
            },
        };
        Ok(Version { version, contract_sha512, creator })
    }
}

// ---------------------------------------------------------------------------
// ContractRegistry
// ---------------------------------------------------------------------------
/// View of a [`ContractRegistry`].
pub ghost struct ContractRegistryV {
    pub name: Seq<char>,
    pub versions: Seq<VersionV>,
    pub owners: Seq<Seq<char>>,
}

/// The registry of every deployed version of a named contract,
/// together with the public keys that own the contract.
#[derive(Debug, PartialEq)]
pub struct ContractRegistry {
    name: String,
    versions: Vec<Version>,
    owners: Vec<String>,
}

impl View for ContractRegistry {
    type V = ContractRegistryV;

    closed spec fn view(&self) -> ContractRegistryV {
        ContractRegistryV {
            name: self.name@,
            versions: self.versions.deep_view(),
            owners: self.owners.deep_view(),
        }
    }
}

impl DeepView for ContractRegistry {
    type V = ContractRegistryV;

    open spec fn deep_view(&self) -> ContractRegistryV {
        self.view()
    }
}

impl Clone for ContractRegistry {
    fn clone(&self) -> (res: Self)
        ensures
            res@ == self@,
    {
        let res = ContractRegistry {
            name: self.name.clone(),
            versions: self.versions.clone(),
            owners: self.owners.clone(),
        };
        proof {
            assert forall|i: int| 0 <= i < self.versions@.len() implies res.versions.deep_view()[i]
                == self.versions.deep_view()[i] by {
                assert(cloned::<Version>(self.versions[i], res.versions[i]));
            }
            assert(res.versions.deep_view() =~= self.versions.deep_view());
            assert forall|i: int| 0 <= i < self.owners@.len() implies res.owners.deep_view()[i]
                == self.owners.deep_view()[i] by {
                assert(cloned::<String>(self.owners[i], res.owners[i]));
            }
            assert(res.owners.deep_view() =~= self.owners.deep_view());
        }
        res
    }
}

impl ContractRegistry {
    pub fn get_name(&self) -> (r: &String)
        ensures
            r@ == self@.name,
    {
        &self.name
    }

    pub fn get_versions(&self) -> (r: &[Version])
        ensures
            r.deep_view() == self@.versions,
    {
        let r = self.versions.as_slice();
        proof {
            assert(r.deep_view() =~= self.versions.deep_view());
        }
        r
    }

    pub fn get_owners(&self) -> (r: &[String])
        ensures
            r.deep_view() == self@.owners,
    {
        let r = self.owners.as_slice();
        proof {
            assert(r.deep_view() =~= self.owners.deep_view());
        }
        r
    }

    pub fn into_builder(self) -> (r: ContractRegistryBuilder)
        ensures
            r@ == (ContractRegistryBuilderV {
                name: Some(self@.name),
                versions: self@.versions,
                owners: self@.owners,
            }),
    {
        ContractRegistryBuilder::new().set_name(self.name).set_versions(self.versions).set_owners(self.owners)
    }
}

/// View of a [`ContractRegistryBuildError`].
pub ghost enum ContractRegistryBuildErrorV {
    MissingField(Seq<char>),
}

/// Error returned when a [`ContractRegistryBuilder`] misses a required field.
#[derive(Debug, Clone, PartialEq)]
pub enum ContractRegistryBuildError {
    MissingField(String),
}

impl View for ContractRegistryBuildError {
    type V = ContractRegistryBuildErrorV;

    open spec fn view(&self) -> ContractRegistryBuildErrorV {
        match self {
            ContractRegistryBuildError::MissingField(m) => ContractRegistryBuildErrorV::MissingField(m@),
        }
    }
}

/// View of a [`ContractRegistryBuilder`].
pub ghost struct ContractRegistryBuilderV {
    pub name: Option<Seq<char>>,
    pub versions: Seq<VersionV>,
    pub owners: Seq<Seq<char>>,
}

/// What [`ContractRegistryBuilder::build`] returns: the built view, or the message of
/// the first missing field.
pub open spec fn contract_registry_build_spec(b: ContractRegistryBuilderV) -> Result<ContractRegistryV, Seq<char>> {
    if b.name is None {
        Err("'name' field is required"@)
    } else if b.owners.len() == 0 {
        Err("'owners' field is required"@)
    } else {
        Ok(
            ContractRegistryV {
                name: b.name.unwrap(),
                versions: b.versions,
                owners: b.owners,
            },
        )
    }
}

/// Builder used to create a [`ContractRegistry`].
pub struct ContractRegistryBuilder {
    name: Option<String>,
    versions: Vec<Version>,
    owners: Vec<String>,
}

impl View for ContractRegistryBuilder {
    type V = ContractRegistryBuilderV;

    closed spec fn view(&self) -> ContractRegistryBuilderV {
        ContractRegistryBuilderV {
            name: match self.name {
                Some(s) => Some(s@),
                None => None,
            },
            versions: self.versions.deep_view(),
            owners: self.owners.deep_view(),
        }
    }
}

impl ContractRegistryBuilder {
    pub fn new() -> (r: Self)
        ensures
            r@ == (ContractRegistryBuilderV {
                name: None,
                versions: Seq::empty(),
                owners: Seq::empty(),
            }),
    {
        let r = ContractRegistryBuilder {
            name: None,
            versions: Vec::new(),
            owners: Vec::new(),
        };
        proof {
            assert(r.versions.deep_view() =~= Seq::<VersionV>::empty());
            assert(r.owners.deep_view() =~= Seq::<Seq<char>>::empty());
        }
        r
    }

    pub fn set_name(self, name: String) -> (r: Self)
        ensures
            r@ == (ContractRegistryBuilderV { name: Some(name@), ..self@ }),
    {
        ContractRegistryBuilder { name: Some(name), ..self }
    }

    pub fn set_versions(self, versions: Vec<Version>) -> (r: Self)
        ensures
            r@ == (ContractRegistryBuilderV { versions: versions.deep_view(), ..self@ }),
    {
        ContractRegistryBuilder { versions, ..self }
    }

    pub fn set_owners(self, owners: Vec<String>) -> (r: Self)
        ensures
            r@ == (ContractRegistryBuilderV { owners: owners.deep_view(), ..self@ }),
    {
        ContractRegistryBuilder { owners, ..self }
    }

    pub fn build(self) -> (r: Result<ContractRegistry, ContractRegistryBuildError>)
        ensures
            match r {
                Ok(v) => contract_registry_build_spec(self@) matches Ok(vv) && v@ == vv,
                Err(e) => contract_registry_build_spec(self@) matches Err(m) && e@
                    == ContractRegistryBuildErrorV::MissingField(m),
            },
    {
        let name = match self.name {
            Some(v) => v,
            None => {
                return Err(
                    ContractRegistryBuildError::MissingField(
                        String::from_str("'name' field is required"),
                    ),
                );
            },
        };
        if self.owners.is_empty() {
            return Err(
                ContractRegistryBuildError::MissingField(String::from_str("'owners' field is required")),
            );
        }
        let owners = self.owners;
        let versions = self.versions;
        Ok(ContractRegistry { name, versions, owners })
    }
}

// ---------------------------------------------------------------------------
// ContractRegistryList
// ---------------------------------------------------------------------------
/// All contract registries stored at one state address.
#[derive(Debug, PartialEq)]
pub struct ContractRegistryList {
    registries: Vec<ContractRegistry>,
}

impl View for ContractRegistryList {
    type V = Seq<ContractRegistryV>;

    closed spec fn view(&self) -> Seq<ContractRegistryV> {
        self.registries.deep_view()
    }
}

impl ContractRegistryList {
    pub fn get_registries(&self) -> (r: &[ContractRegistry])
        ensures
            r.deep_view() == self@,
    {
        let r = self.registries.as_slice();
        proof {
            assert(r.deep_view() =~= self.registries.deep_view());
        }
        r
    }
}

/// View of a [`ContractRegistryListBuildError`].
pub ghost enum ContractRegistryListBuildErrorV {
    MissingField(Seq<char>),
}

/// Error returned when a [`ContractRegistryListBuilder`] cannot build its list.
#[derive(Debug, Clone, PartialEq)]
pub enum ContractRegistryListBuildError {
    MissingField(String),
}

impl View for ContractRegistryListBuildError {
    type V = ContractRegistryListBuildErrorV;

    open spec fn view(&self) -> ContractRegistryListBuildErrorV {
        match self {
            ContractRegistryListBuildError::MissingField(m) => ContractRegistryListBuildErrorV::MissingField(m@),
        }
    }
}

/// Builder used to create a [`ContractRegistryList`].
pub struct ContractRegistryListBuilder {
    registries: Vec<ContractRegistry>,
}

impl View for ContractRegistryListBuilder {
    type V = Seq<ContractRegistryV>;

    closed spec fn view(&self) -> Seq<ContractRegistryV> {
        self.registries.deep_view()
    }
}

impl ContractRegistryListBuilder {
    pub fn new() -> (r: Self)
        ensures
            r@ == Seq::<ContractRegistryV>::empty(),
    {
        ContractRegistryListBuilder { registries: Vec::new() }
    }

    pub fn set_registries(self, registries: Vec<ContractRegistry>) -> (r: Self)
        ensures
            r@ == registries.deep_view(),
    {
        ContractRegistryListBuilder { registries }
    }

    pub fn build(self) -> (r: Result<ContractRegistryList, ContractRegistryListBuildError>)
        ensures
            r matches Ok(l) && l@ == self@,
    {
        Ok(ContractRegistryList { registries: self.registries })
    }
}

// ---------------------------------------------------------------------------
// Permission
// ---------------------------------------------------------------------------
/// View of a [`Permission`].
pub ghost struct PermissionV {
    pub contract_name: Seq<char>,
    pub read: bool,
    pub write: bool,
}

/// Grants a named contract read and/or write access to the
/// namespace this permission's registry covers.
#[derive(Debug, PartialEq)]
pub struct Permission {
    contract_name: String,
    read: bool,
    write: bool,
}

impl View for Permission {
    type V = PermissionV;

    closed spec fn view(&self) -> PermissionV {
        PermissionV {
            contract_name: self.contract_name@,
            read: self.read,
            write: self.write,
        }
    }
}

impl DeepView for Permission {
    type V = PermissionV;

    open spec fn deep_view(&self) -> PermissionV {
        self.view()
    }
}

impl Clone for Permission {
    fn clone(&self) -> (res: Self)
        ensures
            res@ == self@,
    {
        let res = Permission {
            contract_name: self.contract_name.clone(),
            read: self.read,
            write: self.write,
        };
        res
    }
}

impl Permission {
    pub fn get_contract_name(&self) -> (r: &String)
        ensures
            r@ == self@.contract_name,
    {
        &self.contract_name
    }

    pub fn get_read(&self) -> (r: bool)
        ensures
            r == self@.read,
    {
        self.read
    }

    pub fn get_write(&self) -> (r: bool)
        ensures
            r == self@.write,
    {
        self.write
    }

    pub fn into_builder(self) -> (r: PermissionBuilder)
        ensures
            r@ == (PermissionBuilderV {
                contract_name: Some(self@.contract_name),
                read: Some(self@.read),
                write: Some(self@.write),
            }),
    {
        PermissionBuilder::new().set_contract_name(self.contract_name).set_read(self.read).set_write(self.write)
    }
}

/// View of a [`PermissionBuildError`].
pub ghost enum PermissionBuildErrorV {
    MissingField(Seq<char>),
}

/// Error returned when a [`PermissionBuilder`] misses a required field.
#[derive(Debug, Clone, PartialEq)]
pub enum PermissionBuildError {
    MissingField(String),
}

impl View for PermissionBuildError {
    type V = PermissionBuildErrorV;

    open spec fn view(&self) -> PermissionBuildErrorV {
        match self {
            PermissionBuildError::MissingField(m) => PermissionBuildErrorV::MissingField(m@),
        }
    }
}

/// View of a [`PermissionBuilder`].
pub ghost struct PermissionBuilderV {
    pub contract_name: Option<Seq<char>>,
    pub read: Option<bool>,
    pub write: Option<bool>,
}

/// What [`PermissionBuilder::build`] returns: the built view, or the message of
/// the first missing field.
pub open spec fn permission_build_spec(b: PermissionBuilderV) -> Result<PermissionV, Seq<char>> {
    if b.contract_name is None {
        Err("'contract_name' field is required"@)
    } else {
        Ok(
            PermissionV {
                contract_name: b.contract_name.unwrap(),
                read: if b.read is Some {
                    b.read.unwrap()
                } else {
                    false
                },
                write: if b.write is Some {
                    b.write.unwrap()
                } else {
                    false
                },
            },
        )
    }
}

/// Builder used to create a [`Permission`].
pub struct PermissionBuilder {
    contract_name: Option<String>,
    read: Option<bool>,
    write: Option<bool>,
}

impl View for PermissionBuilder {
    type V = PermissionBuilderV;

    closed spec fn view(&self) -> PermissionBuilderV {
        PermissionBuilderV {
            contract_name: match self.contract_name {
                Some(s) => Some(s@),
                None => None,
            },
            read: self.read,
            write: self.write,
        }
    }
}

impl PermissionBuilder {
    pub fn new() -> (r: Self)
        ensures
            r@ == (PermissionBuilderV {
                contract_name: None,
                read: None,
                write: None,
            }),
    {
        let r = PermissionBuilder {
            contract_name: None,
            read: None,
            write: None,
        };
        r
    }

    pub fn set_contract_name(self, contract_name: String) -> (r: Self)
        ensures
            r@ == (PermissionBuilderV { contract_name: Some(contract_name@), ..self@ }),
    {
        PermissionBuilder { contract_name: Some(contract_name), ..self }
    }

    pub fn set_read(self, read: bool) -> (r: Self)
        ensures
            r@ == (PermissionBuilderV { read: Some(read@), ..self@ }),
    {
        PermissionBuilder { read: Some(read), ..self }
    }

    pub fn set_write(self, write: bool) -> (r: Self)
        ensures
            r@ == (PermissionBuilderV { write: Some(write@), ..self@ }),
    {
        PermissionBuilder { write: Some(write), ..self }
    }

    pub fn build(self) -> (r: Result<Permission, PermissionBuildError>)
        ensures
            match r {
                Ok(v) => permission_build_spec(self@) matches Ok(vv) && v@ == vv,
                Err(e) => permission_build_spec(self@) matches Err(m) && e@
                    == PermissionBuildErrorV::MissingField(m),
            },
    {
        let contract_name = match self.contract_name {
            Some(v) => v,
            None => {
                return Err(
                    PermissionBuildError::MissingField(
                        String::from_str("'contract_name' field is required"),
                    ),
                );
            },
        };
        let read = match self.read {
            Some(v) => v,
            None => false,
        };
        let write = match self.write {
            Some(v) => v,
            None => false,
        };
        Ok(Permission { contract_name, read, write })
    }
}

// ---------------------------------------------------------------------------
// NamespaceRegistry
// ---------------------------------------------------------------------------
/// View of a [`NamespaceRegistry`].
pub ghost struct NamespaceRegistryV {
    pub namespace: Seq<char>,
    pub owners: Seq<Seq<char>>,
    pub permissions: Seq<PermissionV>,
}

/// The registry of one state-address namespace: its owners and
/// the contract permissions granted over it.
#[derive(Debug, PartialEq)]
pub struct NamespaceRegistry {
    namespace: String,
    owners: Vec<String>,
    permissions: Vec<Permission>,
}

impl View for NamespaceRegistry {
    type V = NamespaceRegistryV;

    closed spec fn view(&self) -> NamespaceRegistryV {
        NamespaceRegistryV {
            namespace: self.namespace@,
            owners: self.owners.deep_view(),
            permissions: self.permissions.deep_view(),
        }
    }
}

impl DeepView for NamespaceRegistry {
    type V = NamespaceRegistryV;

    open spec fn deep_view(&self) -> NamespaceRegistryV {
        self.view()
    }
}

impl Clone for NamespaceRegistry {
    fn clone(&self) -> (res: Self)
        ensures
            res@ == self@,
    {
        let res = NamespaceRegistry {
            namespace: self.namespace.clone(),
            owners: self.owners.clone(),
            permissions: self.permissions.clone(),
        };
        proof {
            assert forall|i: int| 0 <= i < self.owners@.len() implies res.owners.deep_view()[i]
                == self.owners.deep_view()[i] by {
                assert(cloned::<String>(self.owners[i], res.owners[i]));
            }
            assert(res.owners.deep_view() =~= self.owners.deep_view());
            assert forall|i: int| 0 <= i < self.permissions@.len() implies res.permissions.deep_view()[i]
                == self.permissions.deep_view()[i] by {
                assert(cloned::<Permission>(self.permissions[i], res.permissions[i]));
            }
            assert(res.permissions.deep_view() =~= self.permissions.deep_view());
        }
        res
    }
}

impl NamespaceRegistry {
    pub fn get_namespace(&self) -> (r: &String)
        ensures
            r@ == self@.namespace,
    {
        &self.namespace
    }

    pub fn get_owners(&self) -> (r: &[String])
        ensures
            r.deep_view() == self@.owners,
    {
        let r = self.owners.as_slice();
        proof {
            assert(r.deep_view() =~= self.owners.deep_view());
        }
        r
    }

    pub fn get_permissions(&self) -> (r: &[Permission])
        ensures
            r.deep_view() == self@.permissions,
    {
        let r = self.permissions.as_slice();
        proof {
            assert(r.deep_view() =~= self.permissions.deep_view());
        }
        r
    }

    pub fn into_builder(self) -> (r: NamespaceRegistryBuilder)
        ensures
            r@ == (NamespaceRegistryBuilderV {
                namespace: Some(self@.namespace),
                owners: self@.owners,
                permissions: self@.permissions,
            }),
    {
        NamespaceRegistryBuilder::new().set_namespace(self.namespace).set_owners(self.owners).set_permissions(self.permissions)
    }
}

/// View of a [`NamespaceRegistryBuildError`].
pub ghost enum NamespaceRegistryBuildErrorV {
    MissingField(Seq<char>),
}

/// Error returned when a [`NamespaceRegistryBuilder`] misses a required field.
#[derive(Debug, Clone, PartialEq)]
pub enum NamespaceRegistryBuildError {
    MissingField(String),
}

impl View for NamespaceRegistryBuildError {
    type V = NamespaceRegistryBuildErrorV;

    open spec fn view(&self) -> NamespaceRegistryBuildErrorV {
        match self {
            NamespaceRegistryBuildError::MissingField(m) => NamespaceRegistryBuildErrorV::MissingField(m@),
        }
    }
}

/// View of a [`NamespaceRegistryBuilder`].
pub ghost struct NamespaceRegistryBuilderV {
    pub namespace: Option<Seq<char>>,
    pub owners: Seq<Seq<char>>,
    pub permissions: Seq<PermissionV>,
}

/// What [`NamespaceRegistryBuilder::build`] returns: the built view, or the message of
/// the first missing field.
pub open spec fn namespace_registry_build_spec(b: NamespaceRegistryBuilderV) -> Result<NamespaceRegistryV, Seq<char>> {
    if b.namespace is None {
        Err("'namespace' field is required"@)
    } else if b.owners.len() == 0 {
        Err("'owners' field is required"@)
    } else {
        Ok(
            NamespaceRegistryV {
                namespace: b.namespace.unwrap(),
                owners: b.owners,
                permissions: b.permissions,
            },
        )
    }
}

/// Builder used to create a [`NamespaceRegistry`].
pub struct NamespaceRegistryBuilder {
    namespace: Option<String>,
    owners: Vec<String>,
    permissions: Vec<Permission>,
}

impl View for NamespaceRegistryBuilder {
    type V = NamespaceRegistryBuilderV;

    closed spec fn view(&self) -> NamespaceRegistryBuilderV {
        NamespaceRegistryBuilderV {
            namespace: match self.namespace {
                Some(s) => Some(s@),
                None => None,
            },
            owners: self.owners.deep_view(),
            permissions: self.permissions.deep_view(),
        }
    }
}

impl NamespaceRegistryBuilder {
    pub fn new() -> (r: Self)
        ensures
            r@ == (NamespaceRegistryBuilderV {
                namespace: None,
                owners: Seq::empty(),
                permissions: Seq::empty(),
            }),
    {
        let r = NamespaceRegistryBuilder {
            namespace: None,
            owners: Vec::new(),
            permissions: Vec::new(),
        };
        proof {
            assert(r.owners.deep_view() =~= Seq::<Seq<char>>::empty());
            assert(r.permissions.deep_view() =~= Seq::<PermissionV>::empty());
        }
        r
    }

    pub fn set_namespace(self, namespace: String) -> (r: Self)
        ensures
            r@ == (NamespaceRegistryBuilderV { namespace: Some(namespace@), ..self@ }),
    {
        NamespaceRegistryBuilder { namespace: Some(namespace), ..self }
    }

    pub fn set_owners(self, owners: Vec<String>) -> (r: Self)
        ensures
            r@ == (NamespaceRegistryBuilderV { owners: owners.deep_view(), ..self@ }),
    {
        NamespaceRegistryBuilder { owners, ..self }
    }

    pub fn set_permissions(self, permissions: Vec<Permission>) -> (r: Self)
        ensures
            r@ == (NamespaceRegistryBuilderV { permissions: permissions.deep_view(), ..self@ }),
    {
        NamespaceRegistryBuilder { permissions, ..self }
    }

    pub fn build(self) -> (r: Result<NamespaceRegistry, NamespaceRegistryBuildError>)
        ensures
            match r {
                Ok(v) => namespace_registry_build_spec(self@) matches Ok(vv) && v@ == vv,
                Err(e) => namespace_registry_build_spec(self@) matches Err(m) && e@
                    == NamespaceRegistryBuildErrorV::MissingField(m),
            },
    {
        let namespace = match self.namespace {
            Some(v) => v,
            None => {
                return Err(
                    NamespaceRegistryBuildError::MissingField(
                        String::from_str("'namespace' field is required"),
                    ),
                );
            },
        };
        if self.owners.is_empty() {
            return Err(
                NamespaceRegistryBuildError::MissingField(String::from_str("'owners' field is required")),
            );
        }
        let owners = self.owners;
        let permissions = self.permissions;
        Ok(NamespaceRegistry { namespace, owners, permissions })
    }
}

// ---------------------------------------------------------------------------
// NamespaceRegistryList
// ---------------------------------------------------------------------------
/// All namespace registries stored at one state address.
#[derive(Debug, PartialEq)]
pub struct NamespaceRegistryList {
    registries: Vec<NamespaceRegistry>,
}

impl View for NamespaceRegistryList {
    type V = Seq<NamespaceRegistryV>;

    closed spec fn view(&self) -> Seq<NamespaceRegistryV> {
        self.registries.deep_view()
    }
}

impl Clone for NamespaceRegistryList {
    fn clone(&self) -> (res: Self)
        ensures
            res@ == self@,
    {
        let res = NamespaceRegistryList { registries: self.registries.clone() };
        proof {
            assert forall|i: int| 0 <= i < self.registries@.len() implies res.registries.deep_view()[i]
                == self.registries.deep_view()[i] by {
                assert(cloned::<NamespaceRegistry>(self.registries[i], res.registries[i]));
            }
            assert(res.registries.deep_view() =~= self.registries.deep_view());
        }
        res
    }
}

impl NamespaceRegistryList {
    pub fn get_registries(&self) -> (r: &[NamespaceRegistry])
        ensures
            r.deep_view() == self@,
    {
        let r = self.registries.as_slice();
        proof {
            assert(r.deep_view() =~= self.registries.deep_view());
        }
        r
    }
}

/// View of a [`NamespaceRegistryListBuildError`].
pub ghost enum NamespaceRegistryListBuildErrorV {
    MissingField(Seq<char>),
}

/// Error returned when a [`NamespaceRegistryListBuilder`] cannot build its list.
#[derive(Debug, Clone, PartialEq)]
pub enum NamespaceRegistryListBuildError {
    MissingField(String),
}

impl View for NamespaceRegistryListBuildError {
    type V = NamespaceRegistryListBuildErrorV;

    open spec fn view(&self) -> NamespaceRegistryListBuildErrorV {
        match self {
            NamespaceRegistryListBuildError::MissingField(m) => NamespaceRegistryListBuildErrorV::MissingField(m@),
        }
    }
}

/// Builder used to create a [`NamespaceRegistryList`].
pub struct NamespaceRegistryListBuilder {
    registries: Vec<NamespaceRegistry>,
}

impl View for NamespaceRegistryListBuilder {
    type V = Seq<NamespaceRegistryV>;

    closed spec fn view(&self) -> Seq<NamespaceRegistryV> {
        self.registries.deep_view()
    }
}

impl NamespaceRegistryListBuilder {
    pub fn new() -> (r: Self)
        ensures
            r@ == Seq::<NamespaceRegistryV>::empty(),
    {
        NamespaceRegistryListBuilder { registries: Vec::new() }
    }

    pub fn set_registries(self, registries: Vec<NamespaceRegistry>) -> (r: Self)
        ensures
            r@ == registries.deep_view(),
    {
        NamespaceRegistryListBuilder { registries }
    }

    pub fn build(self) -> (r: Result<NamespaceRegistryList, NamespaceRegistryListBuildError>)
        ensures
            r matches Ok(l) && l@ == self@,
    {
        Ok(NamespaceRegistryList { registries: self.registries })
    }
}

// ---------------------------------------------------------------------------
// Contract
// ---------------------------------------------------------------------------
/// View of a [`Contract`].
pub ghost struct ContractV {
    pub name: Seq<char>,
    pub version: Seq<char>,
    pub inputs: Seq<Seq<char>>,
    pub outputs: Seq<Seq<char>>,
    pub creator: Seq<char>,
    pub contract: Seq<u8>,
}

/// A stored contract: its identity, its declared input and output
/// namespaces, its creator and its bytecode.
#[derive(Debug, PartialEq)]
pub struct Contract {
    name: String,
    version: String,
    inputs: Vec<String>,
    outputs: Vec<String>,
    creator: String,
    contract: Vec<u8>,
}

impl View for Contract {
    type V = ContractV;

    closed spec fn view(&self) -> ContractV {
        ContractV {
            name: self.name@,
            version: self.version@,
            inputs: self.inputs.deep_view(),
            outputs: self.outputs.deep_view(),
            creator: self.creator@,
            contract: self.contract@,
        }
    }
}

impl DeepView for Contract {
    type V = ContractV;

    open spec fn deep_view(&self) -> ContractV {
        self.view()
    }
}

impl Clone for Contract {
    fn clone(&self) -> (res: Self)
        ensures
            res@ == self@,
    {
        let res = Contract {
            name: self.name.clone(),
            version: self.version.clone(),
            inputs: self.inputs.clone(),
            outputs: self.outputs.clone(),
            creator: self.creator.clone(),
            contract: self.contract.clone(),
        };
        proof {
            assert forall|i: int| 0 <= i < self.inputs@.len() implies res.inputs.deep_view()[i]
                == self.inputs.deep_view()[i] by {
                assert(cloned::<String>(self.inputs[i], res.inputs[i]));
            }
            assert(res.inputs.deep_view() =~= self.inputs.deep_view());
            assert forall|i: int| 0 <= i < self.outputs@.len() implies res.outputs.deep_view()[i]
                == self.outputs.deep_view()[i] by {
                assert(cloned::<String>(self.outputs[i], res.outputs[i]));
            }
            assert(res.outputs.deep_view() =~= self.outputs.deep_view());
            assert(res.contract@ =~= self.contract@);
        }
        res
    }
}

impl Contract {
    pub fn get_name(&self) -> (r: &String)
        ensures
            r@ == self@.name,
    {
        &self.name
    }

    pub fn get_version(&self) -> (r: &String)
        ensures
            r@ == self@.version,
    {
        &self.version
    }

    pub fn get_inputs(&self) -> (r: &[String])
        ensures
            r.deep_view() == self@.inputs,
    {
        let r = self.inputs.as_slice();
        proof {
            assert(r.deep_view() =~= self.inputs.deep_view());
        }
        r
    }

    pub fn get_outputs(&self) -> (r: &[String])
        ensures
            r.deep_view() == self@.outputs,
    {
        let r = self.outputs.as_slice();
        proof {
            assert(r.deep_view() =~= self.outputs.deep_view());
        }
        r
    }

    pub fn get_creator(&self) -> (r: &String)
        ensures
            r@ == self@.creator,
    {
        &self.creator
    }

    pub fn get_contract(&self) -> (r: &[u8])
        ensures
            r@ == self@.contract,
    {
        self.contract.as_slice()
    }

    pub fn into_builder(self) -> (r: ContractBuilder)
        ensures
            r@ == (ContractBuilderV {
                name: Some(self@.name),
                version: Some(self@.version),
                inputs: self@.inputs,
                outputs: self@.outputs,
                creator: Some(self@.creator),
                contract: self@.contract,
            }),
    {
        ContractBuilder::new().set_name(self.name).set_version(self.version).set_inputs(self.inputs).set_outputs(self.outputs).set_creator(self.creator).set_contract(self.contract)
    }
}

/// View of a [`ContractBuildError`].
pub ghost enum ContractBuildErrorV {
    MissingField(Seq<char>),
}

/// Error returned when a [`ContractBuilder`] misses a required field.
#[derive(Debug, Clone, PartialEq)]
pub enum ContractBuildError {
    MissingField(String),
}

impl View for ContractBuildError {
    type V = ContractBuildErrorV;

    open spec fn view(&self) -> ContractBuildErrorV {
        match self {
            ContractBuildError::MissingField(m) => ContractBuildErrorV::MissingField(m@),
        }
    }
}

/// View of a [`ContractBuilder`].
pub ghost struct ContractBuilderV {
    pub name: Option<Seq<char>>,
    pub version: Option<Seq<char>>,
    pub inputs: Seq<Seq<char>>,
    pub outputs: Seq<Seq<char>>,
    pub creator: Option<Seq<char>>,
    pub contract: Seq<u8>,
}

/// What [`ContractBuilder::build`] returns: the built view, or the message of
/// the first missing field.
pub open spec fn contract_build_spec(b: ContractBuilderV) -> Result<ContractV, Seq<char>> {
    if b.name is None {
        Err("'name' field is required"@)
    } else if b.version is None {
        Err("'version' field is required"@)
    } else if b.creator is None {
        Err("'version' field is required"@)
    } else if b.inputs.len() == 0 {
        Err("'inputs' field is required"@)
    } else if b.outputs.len() == 0 {
        Err("'outputs' field is required"@)
    } else if b.contract.len() == 0 {
        Err("'contract' field is required"@)
    } else {
        Ok(
            ContractV {
                name: b.name.unwrap(),
                version: b.version.unwrap(),
                inputs: b.inputs,
                outputs: b.outputs,
                creator: b.creator.unwrap(),
                contract: b.contract,
            },
        )
    }
}

/// Builder used to create a [`Contract`].
pub struct ContractBuilder {
    name: Option<String>,
    version: Option<String>,
    inputs: Vec<String>,
    outputs: Vec<String>,
    creator: Option<String>,
    contract: Vec<u8>,
}

impl View for ContractBuilder {
    type V = ContractBuilderV;

    closed spec fn view(&self) -> ContractBuilderV {
        ContractBuilderV {
            name: match self.name {
                Some(s) => Some(s@),
                None => None,
            },
            version: match self.version {
                Some(s) => Some(s@),
                None => None,
            },
            inputs: self.inputs.deep_view(),
            outputs: self.outputs.deep_view(),
            creator: match self.creator {
                Some(s) => Some(s@),
                None => None,
            },
            contract: self.contract@,
        }
    }
}

impl ContractBuilder {
    pub fn new() -> (r: Self)
        ensures
            r@ == (ContractBuilderV {
                name: None,
                version: None,
                inputs: Seq::empty(),
                outputs: Seq::empty(),
                creator: None,
                contract: Seq::empty(),
            }),
    {
        let r = ContractBuilder {
            name: None,
            version: None,
            inputs: Vec::new(),
            outputs: Vec::new(),
            creator: None,
            contract: Vec::new(),
        };
        proof {
            assert(r.inputs.deep_view() =~= Seq::<Seq<char>>::empty());
            assert(r.outputs.deep_view() =~= Seq::<Seq<char>>::empty());
            assert(r.contract@ =~= Seq::<u8>::empty());
        }
        r
    }

    pub fn set_name(self, name: String) -> (r: Self)
        ensures
            r@ == (ContractBuilderV { name: Some(name@), ..self@ }),
    {
        ContractBuilder { name: Some(name), ..self }
    }

    pub fn set_version(self, version: String) -> (r: Self)
        ensures
            r@ == (ContractBuilderV { version: Some(version@), ..self@ }),
    {
        ContractBuilder { version: Some(version), ..self }
    }

    pub fn set_inputs(self, inputs: Vec<String>) -> (r: Self)
        ensures
            r@ == (ContractBuilderV { inputs: inputs.deep_view(), ..self@ }),
    {
        ContractBuilder { inputs, ..self }
    }

    pub fn set_outputs(self, outputs: Vec<String>) -> (r: Self)
        ensures
            r@ == (ContractBuilderV { outputs: outputs.deep_view(), ..self@ }),
    {
        ContractBuilder { outputs, ..self }
    }

    pub fn set_creator(self, creator: String) -> (r: Self)
        ensures
            r@ == (ContractBuilderV { creator: Some(creator@), ..self@ }),
    {
        ContractBuilder { creator: Some(creator), ..self }
    }

    pub fn set_contract(self, contract: Vec<u8>) -> (r: Self)
        ensures
            r@ == (ContractBuilderV { contract: contract@, ..self@ }),
    {
        ContractBuilder { contract, ..self }
    }

    pub fn build(self) -> (r: Result<Contract, ContractBuildError>)
        ensures
            match r {
                Ok(v) => contract_build_spec(self@) matches Ok(vv) && v@ == vv,
                Err(e) => contract_build_spec(self@) matches Err(m) && e@
                    == ContractBuildErrorV::MissingField(m),
            },
    {
        let name = match self.name {
            Some(v) => v,
            None => {
                return Err(
                    ContractBuildError::MissingField(
                        String::from_str("'name' field is required"),
                    ),
                );
            },
        };
        let version = match self.version {
            Some(v) => v,
            None => {
                return Err(
                    ContractBuildError::MissingField(
                        String::from_str("'version' field is required"),
                    ),
                );
            },
        };
        let creator = match self.creator {
            Some(v) => v,
            None => {
                return Err(
                    ContractBuildError::MissingField(
                        String::from_str("'version' field is required"),
                    ),
                );
            },
        };
        if self.inputs.is_empty() {
            return Err(
                ContractBuildError::MissingField(String::from_str("'inputs' field is required")),
            );
        }
        let inputs = self.inputs;
        if self.outputs.is_empty() {
            return Err(
                ContractBuildError::MissingField(String::from_str("'outputs' field is required")),
            );
        }
        let outputs = self.outputs;
        if self.contract.is_empty() {
            return Err(
                ContractBuildError::MissingField(String::from_str("'contract' field is required")),
            );
        }
        let contract = self.contract;
        Ok(Contract { name, version, inputs, outputs, creator, contract })
    }
}

// ---------------------------------------------------------------------------
// ContractList
// ---------------------------------------------------------------------------
/// All contracts stored at one state address.
#[derive(Debug, PartialEq)]
pub struct ContractList {
    contracts: Vec<Contract>,
}

impl View for ContractList {
    type V = Seq<ContractV>;

    closed spec fn view(&self) -> Seq<ContractV> {
        self.contracts.deep_view()
    }
}

impl ContractList {
    pub fn get_contracts(&self) -> (r: &[Contract])
        ensures
            r.deep_view() == self@,
    {
        let r = self.contracts.as_slice();
        proof {
            assert(r.deep_view() =~= self.contracts.deep_view());
        }
        r
    }
}

/// View of a [`ContractListBuildError`].
pub ghost enum ContractListBuildErrorV {
    MissingField(Seq<char>),
}

/// Error returned when a [`ContractListBuilder`] cannot build its list.
#[derive(Debug, Clone, PartialEq)]
pub enum ContractListBuildError {
    MissingField(String),
}

impl View for ContractListBuildError {
    type V = ContractListBuildErrorV;

    open spec fn view(&self) -> ContractListBuildErrorV {
        match self {
            ContractListBuildError::MissingField(m) => ContractListBuildErrorV::MissingField(m@),
        }
    }
}

/// Builder used to create a [`ContractList`].
pub struct ContractListBuilder {
    contracts: Vec<Contract>,
}

impl View for ContractListBuilder {
    type V = Seq<ContractV>;

    closed spec fn view(&self) -> Seq<ContractV> {
        self.contracts.deep_view()
    }
}

impl ContractListBuilder {
    pub fn new() -> (r: Self)
        ensures
            r@ == Seq::<ContractV>::empty(),
    {
        ContractListBuilder { contracts: Vec::new() }
    }

    pub fn set_contracts(self, contracts: Vec<Contract>) -> (r: Self)
        ensures
            r@ == contracts.deep_view(),
    {
        ContractListBuilder { contracts }
    }

    pub fn build(self) -> (r: Result<ContractList, ContractListBuildError>)
        ensures
            r matches Ok(l) && l@ == self@,
    {
        Ok(ContractList { contracts: self.contracts })
    }
}

// ---------------------------------------------------------------------------
// SmartPermission
// ---------------------------------------------------------------------------
/// View of a [`SmartPermission`].
pub ghost struct SmartPermissionV {
    pub name: Seq<char>,
    pub org_id: Seq<char>,
    pub function: Seq<u8>,
}

/// An organization-scoped bytecode function that evaluates custom
/// authorization logic.
#[derive(Debug, PartialEq)]
pub struct SmartPermission {
    name: String,
    org_id: String,
    function: Vec<u8>,
}

impl View for SmartPermission {
    type V = SmartPermissionV;

    closed spec fn view(&self) -> SmartPermissionV {
        SmartPermissionV {
            name: self.name@,
            org_id: self.org_id@,
            function: self.function@,
        }
    }
}

impl DeepView for SmartPermission {
    type V = SmartPermissionV;

    open spec fn deep_view(&self) -> SmartPermissionV {
        self.view()
    }
}

impl Clone for SmartPermission {
    fn clone(&self) -> (res: Self)
        ensures
            res@ == self@,
    {
        let res = SmartPermission {
            name: self.name.clone(),
            org_id: self.org_id.clone(),
            function: self.function.clone(),
        };
        proof {
            assert(res.function@ =~= self.function@);
        }
        res
    }
}

impl SmartPermission {
    pub fn get_name(&self) -> (r: &String)
        ensures
            r@ == self@.name,
    {
        &self.name
    }

    pub fn get_org_id(&self) -> (r: &String)
        ensures
            r@ == self@.org_id,
    {
        &self.org_id
    }

    pub fn get_function(&self) -> (r: &[u8])
        ensures
            r@ == self@.function,
    {
        self.function.as_slice()
    }

    pub fn into_builder(self) -> (r: SmartPermissionBuilder)
        ensures
            r@ == (SmartPermissionBuilderV {
                name: Some(self@.name),
                org_id: Some(self@.org_id),
                function: self@.function,
            }),
    {
        SmartPermissionBuilder::new().set_name(self.name).set_org_id(self.org_id).set_function(self.function)
    }
}

/// View of a [`SmartPermissionBuildError`].
pub ghost enum SmartPermissionBuildErrorV {
    MissingField(Seq<char>),
}

/// Error returned when a [`SmartPermissionBuilder`] misses a required field.
#[derive(Debug, Clone, PartialEq)]
pub enum SmartPermissionBuildError {
    MissingField(String),
}

impl View for SmartPermissionBuildError {
    type V = SmartPermissionBuildErrorV;

    open spec fn view(&self) -> SmartPermissionBuildErrorV {
        match self {
            SmartPermissionBuildError::MissingField(m) => SmartPermissionBuildErrorV::MissingField(m@),
        }
    }
}

/// View of a [`SmartPermissionBuilder`].
pub ghost struct SmartPermissionBuilderV {
    pub name: Option<Seq<char>>,
    pub org_id: Option<Seq<char>>,
    pub function: Seq<u8>,
}

/// What [`SmartPermissionBuilder::build`] returns: the built view, or the message of
/// the first missing field.
pub open spec fn smart_permission_build_spec(b: SmartPermissionBuilderV) -> Result<SmartPermissionV, Seq<char>> {
    if b.name is None {
        Err("'name' field is required"@)
    } else if b.org_id is None {
        Err("'org_id' field is required"@)
    } else if b.function.len() == 0 {
        Err("'function' field is required"@)
    } else {
        Ok(
            SmartPermissionV {
                name: b.name.unwrap(),
                org_id: b.org_id.unwrap(),
                function: b.function,
            },
        )
    }
}

/// Builder used to create a [`SmartPermission`].
pub struct SmartPermissionBuilder {
    name: Option<String>,
    org_id: Option<String>,
    function: Vec<u8>,
}

impl View for SmartPermissionBuilder {
    type V = SmartPermissionBuilderV;

    closed spec fn view(&self) -> SmartPermissionBuilderV {
        SmartPermissionBuilderV {
            name: match self.name {
                Some(s) => Some(s@),
                None => None,
            },
            org_id: match self.org_id {
                Some(s) => Some(s@),
                None => None,
            },
            function: self.function@,
        }
    }
}

impl SmartPermissionBuilder {
    pub fn new() -> (r: Self)
        ensures
            r@ == (SmartPermissionBuilderV {
                name: None,
                org_id: None,
                function: Seq::empty(),
            }),
    {
        let r = SmartPermissionBuilder {
            name: None,
            org_id: None,
            function: Vec::new(),
        };
        proof {
            assert(r.function@ =~= Seq::<u8>::empty());
        }
        r
    }

    pub fn set_name(self, name: String) -> (r: Self)
        ensures
            r@ == (SmartPermissionBuilderV { name: Some(name@), ..self@ }),
    {
        SmartPermissionBuilder { name: Some(name), ..self }
    }

    pub fn set_org_id(self, org_id: String) -> (r: Self)
        ensures
            r@ == (SmartPermissionBuilderV { org_id: Some(org_id@), ..self@ }),
    {
        SmartPermissionBuilder { org_id: Some(org_id), ..self }
    }

    pub fn set_function(self, function: Vec<u8>) -> (r: Self)
        ensures
            r@ == (SmartPermissionBuilderV { function: function@, ..self@ }),
    {
        SmartPermissionBuilder { function, ..self }
    }

    pub fn build(self) -> (r: Result<SmartPermission, SmartPermissionBuildError>)
        ensures
            match r {
                Ok(v) => smart_permission_build_spec(self@) matches Ok(vv) && v@ == vv,
                Err(e) => smart_permission_build_spec(self@) matches Err(m) && e@
                    == SmartPermissionBuildErrorV::MissingField(m),
            },
    {
        let name = match self.name {
            Some(v) => v,
            None => {
                return Err(
                    SmartPermissionBuildError::MissingField(
                        String::from_str("'name' field is required"),
                    ),
                );
            },
        };
        let org_id = match self.org_id {
            Some(v) => v,
            None => {
                return Err(
                    SmartPermissionBuildError::MissingField(
                        String::from_str("'org_id' field is required"),
                    ),
                );
            },
        };
        if self.function.is_empty() {
            return Err(
                SmartPermissionBuildError::MissingField(String::from_str("'function' field is required")),
            );
        }
        let function = self.function;
        Ok(SmartPermission { name, org_id, function })
    }
}

// ---------------------------------------------------------------------------
// SmartPermissionList
// ---------------------------------------------------------------------------
/// All smart permissions stored at one state address.
#[derive(Debug, PartialEq)]
pub struct SmartPermissionList {
    smart_permissions: Vec<SmartPermission>,
}

impl View for SmartPermissionList {
    type V = Seq<SmartPermissionV>;

    closed spec fn view(&self) -> Seq<SmartPermissionV> {
        self.smart_permissions.deep_view()
    }
}

impl SmartPermissionList {
    pub fn get_smart_permissions(&self) -> (r: &[SmartPermission])
        ensures
            r.deep_view() == self@,
    {
        let r = self.smart_permissions.as_slice();
        proof {
            assert(r.deep_view() =~= self.smart_permissions.deep_view());
        }
        r
    }
}

/// View of a [`SmartPermissionListBuildError`].
pub ghost enum SmartPermissionListBuildErrorV {
    MissingField(Seq<char>),
}

/// Error returned when a [`SmartPermissionListBuilder`] cannot build its list.
#[derive(Debug, Clone, PartialEq)]
pub enum SmartPermissionListBuildError {
    MissingField(String),
}

impl View for SmartPermissionListBuildError {
    type V = SmartPermissionListBuildErrorV;

    open spec fn view(&self) -> SmartPermissionListBuildErrorV {
        match self {
            SmartPermissionListBuildError::MissingField(m) => SmartPermissionListBuildErrorV::MissingField(m@),
        }
    }
}

/// Builder used to create a [`SmartPermissionList`].
pub struct SmartPermissionListBuilder {
    smart_permissions: Vec<SmartPermission>,
}

impl View for SmartPermissionListBuilder {
    type V = Seq<SmartPermissionV>;

    closed spec fn view(&self) -> Seq<SmartPermissionV> {
        self.smart_permissions.deep_view()
    }
}

impl SmartPermissionListBuilder {
    pub fn new() -> (r: Self)
        ensures
            r@ == Seq::<SmartPermissionV>::empty(),
    {
        SmartPermissionListBuilder { smart_permissions: Vec::new() }
    }

    pub fn set_smart_permissions(self, smart_permissions: Vec<SmartPermission>) -> (r: Self)
        ensures
            r@ == smart_permissions.deep_view(),
    {
        SmartPermissionListBuilder { smart_permissions }
    }

    pub fn build(self) -> (r: Result<SmartPermissionList, SmartPermissionListBuildError>)
        ensures
            r matches Ok(l) && l@ == self@,
    {
        Ok(SmartPermissionList { smart_permissions: self.smart_permissions })
    }
}

// ---------------------------------------------------------------------------
// KeyValueEntry
// ---------------------------------------------------------------------------
/// View of a [`KeyValueEntry`].
pub ghost struct KeyValueEntryV {
    pub key: Seq<char>,
    pub value: Seq<char>,
}

/// One key/value pair of metadata.
#[derive(Debug, PartialEq)]
pub struct KeyValueEntry {
    key: String,
    value: String,
}

impl View for KeyValueEntry {
    type V = KeyValueEntryV;

    closed spec fn view(&self) -> KeyValueEntryV {
        KeyValueEntryV {
            key: self.key@,
            value: self.value@,
        }
    }
}

impl DeepView for KeyValueEntry {
    type V = KeyValueEntryV;

    open spec fn deep_view(&self) -> KeyValueEntryV {
        self.view()
    }
}

impl Clone for KeyValueEntry {
    fn clone(&self) -> (res: Self)
        ensures
            res@ == self@,
    {
        let res = KeyValueEntry {
            key: self.key.clone(),
            value: self.value.clone(),
        };
        res
    }
}

impl KeyValueEntry {
    pub fn get_key(&self) -> (r: &str)
        ensures
            r@ == self@.key,
    {
        self.key.as_str()
    }

    pub fn get_value(&self) -> (r: &str)
        ensures
            r@ == self@.value,
    {
        self.value.as_str()
    }
}

/// View of a [`KeyValueEntryBuildError`].
pub ghost enum KeyValueEntryBuildErrorV {
    MissingField(Seq<char>),
}

/// Error returned when a [`KeyValueEntryBuilder`] misses a required field.
#[derive(Debug, Clone, PartialEq)]
pub enum KeyValueEntryBuildError {
    MissingField(String),
}

impl View for KeyValueEntryBuildError {
    type V = KeyValueEntryBuildErrorV;

    open spec fn view(&self) -> KeyValueEntryBuildErrorV {
        match self {
            KeyValueEntryBuildError::MissingField(m) => KeyValueEntryBuildErrorV::MissingField(m@),
        }
    }
}

/// View of a [`KeyValueEntryBuilder`].
pub ghost struct KeyValueEntryBuilderV {
    pub key: Option<Seq<char>>,
    pub value: Option<Seq<char>>,
}

/// What [`KeyValueEntryBuilder::build`] returns: the built view, or the message of
/// the first missing field.
pub open spec fn key_value_entry_build_spec(b: KeyValueEntryBuilderV) -> Result<KeyValueEntryV, Seq<char>> {
    if b.key is None {
        Err("'key' field is required"@)
    } else if b.value is None {
        Err("'value' field is required"@)
    } else {
        Ok(
            KeyValueEntryV {
                key: b.key.unwrap(),
                value: b.value.unwrap(),
            },
        )
    }
}

/// Builder used to create a [`KeyValueEntry`].
pub struct KeyValueEntryBuilder {
    key: Option<String>,
    value: Option<String>,
}

impl View for KeyValueEntryBuilder {
    type V = KeyValueEntryBuilderV;

    closed spec fn view(&self) -> KeyValueEntryBuilderV {
        KeyValueEntryBuilderV {
            key: match self.key {
                Some(s) => Some(s@),
                None => None,
            },
            value: match self.value {
                Some(s) => Some(s@),
                None => None,
            },
        }
    }
}

impl KeyValueEntryBuilder {
    pub fn new() -> (r: Self)
        ensures
            r@ == (KeyValueEntryBuilderV {
                key: None,
                value: None,
            }),
    {
        let r = KeyValueEntryBuilder {
            key: None,
            value: None,
        };
        r
    }

    pub fn set_key(self, key: String) -> (r: Self)
        ensures
            r@ == (KeyValueEntryBuilderV { key: Some(key@), ..self@ }),
    {
        KeyValueEntryBuilder { key: Some(key), ..self }
    }

    pub fn set_value(self, value: String) -> (r: Self)
        ensures
            r@ == (KeyValueEntryBuilderV { value: Some(value@), ..self@ }),
    {
        KeyValueEntryBuilder { value: Some(value), ..self }
    }

    pub fn build(self) -> (r: Result<KeyValueEntry, KeyValueEntryBuildError>)
        ensures
            match r {
                Ok(v) => key_value_entry_build_spec(self@) matches Ok(vv) && v@ == vv,
                Err(e) => key_value_entry_build_spec(self@) matches Err(m) && e@
                    == KeyValueEntryBuildErrorV::MissingField(m),
            },
    {
        let key = match self.key {
            Some(v) => v,
            None => {
                return Err(
                    KeyValueEntryBuildError::MissingField(
                        String::from_str("'key' field is required"),
                    ),
                );
            },
        };
        let value = match self.value {
            Some(v) => v,
            None => {
                return Err(
                    KeyValueEntryBuildError::MissingField(
                        String::from_str("'value' field is required"),
                    ),
                );
            },
        };
        Ok(KeyValueEntry { key, value })
    }
}

// ---------------------------------------------------------------------------
// Account
// ---------------------------------------------------------------------------
/// View of a [`Account`].
pub ghost struct AccountV {
    pub org_id: Seq<char>,
    pub public_key: Seq<char>,
    pub active: bool,
    pub roles: Seq<Seq<char>>,
    pub metadata: Seq<KeyValueEntryV>,
}

/// An account keyed by its public key, belonging to one
/// organization, with its roles and metadata.
#[derive(Debug, PartialEq)]
pub struct Account {
    org_id: String,
    public_key: String,
    active: bool,
    roles: Vec<String>,
    metadata: Vec<KeyValueEntry>,
}

impl View for Account {
    type V = AccountV;

    closed spec fn view(&self) -> AccountV {
        AccountV {
            org_id: self.org_id@,
            public_key: self.public_key@,
            active: self.active,
            roles: self.roles.deep_view(),
            metadata: self.metadata.deep_view(),
        }
    }
}

impl DeepView for Account {
    type V = AccountV;

    open spec fn deep_view(&self) -> AccountV {
        self.view()
    }
}

impl Clone for Account {
    fn clone(&self) -> (res: Self)
        ensures
            res@ == self@,
    {
        let res = Account {
            org_id: self.org_id.clone(),
            public_key: self.public_key.clone(),
            active: self.active,
            roles: self.roles.clone(),
            metadata: self.metadata.clone(),
        };
        proof {
            assert forall|i: int| 0 <= i < self.roles@.len() implies res.roles.deep_view()[i]
                == self.roles.deep_view()[i] by {
                assert(cloned::<String>(self.roles[i], res.roles[i]));
            }
            assert(res.roles.deep_view() =~= self.roles.deep_view());
            assert forall|i: int| 0 <= i < self.metadata@.len() implies res.metadata.deep_view()[i]
                == self.metadata.deep_view()[i] by {
                assert(cloned::<KeyValueEntry>(self.metadata[i], res.metadata[i]));
            }
            assert(res.metadata.deep_view() =~= self.metadata.deep_view());
        }
        res
    }
}

impl Account {
    pub fn get_org_id(&self) -> (r: &str)
        ensures
            r@ == self@.org_id,
    {
        self.org_id.as_str()
    }

    pub fn get_public_key(&self) -> (r: &str)
        ensures
            r@ == self@.public_key,
    {
        self.public_key.as_str()
    }

    pub fn get_active(&self) -> (r: &bool)
        ensures
            r == self@.active,
    {
        &self.active
    }

    pub fn get_roles(&self) -> (r: &[String])
        ensures
            r.deep_view() == self@.roles,
    {
        let r = self.roles.as_slice();
        proof {
            assert(r.deep_view() =~= self.roles.deep_view());
        }
        r
    }

    pub fn get_metadata(&self) -> (r: &[KeyValueEntry])
        ensures
            r.deep_view() == self@.metadata,
    {
        let r = self.metadata.as_slice();
        proof {
            assert(r.deep_view() =~= self.metadata.deep_view());
        }
        r
    }
}

/// View of a [`AccountBuildError`].
pub ghost enum AccountBuildErrorV {
    MissingField(Seq<char>),
}

/// Error returned when a [`AccountBuilder`] misses a required field.
#[derive(Debug, Clone, PartialEq)]
pub enum AccountBuildError {
    MissingField(String),
}

impl View for AccountBuildError {
    type V = AccountBuildErrorV;

    open spec fn view(&self) -> AccountBuildErrorV {
        match self {
            AccountBuildError::MissingField(m) => AccountBuildErrorV::MissingField(m@),
        }
    }
}

/// View of a [`AccountBuilder`].
pub ghost struct AccountBuilderV {
    pub org_id: Option<Seq<char>>,
    pub public_key: Option<Seq<char>>,
    pub active: Option<bool>,
    pub roles: Seq<Seq<char>>,
    pub metadata: Seq<KeyValueEntryV>,
}

/// What [`AccountBuilder::build`] returns: the built view, or the message of
/// the first missing field.
pub open spec fn account_build_spec(b: AccountBuilderV) -> Result<AccountV, Seq<char>> {
    if b.org_id is None {
        Err("'org_id' field is required"@)
    } else if b.public_key is None {
        Err("'public_key' field is required"@)
    } else {
        Ok(
            AccountV {
                org_id: b.org_id.unwrap(),
                public_key: b.public_key.unwrap(),
                active: if b.active is Some {
                    b.active.unwrap()
                } else {
                    false
                },
                roles: b.roles,
                metadata: b.metadata,
            },
        )
    }
}

/// Builder used to create an [`Account`].
pub struct AccountBuilder {
    org_id: Option<String>,
    public_key: Option<String>,
    active: Option<bool>,
    roles: Vec<String>,
    metadata: Vec<KeyValueEntry>,
}

impl View for AccountBuilder {
    type V = AccountBuilderV;

    closed spec fn view(&self) -> AccountBuilderV {
        AccountBuilderV {
            org_id: match self.org_id {
                Some(s) => Some(s@),
                None => None,
            },
            public_key: match self.public_key {
                Some(s) => Some(s@),
                None => None,
            },
            active: self.active,
            roles: self.roles.deep_view(),
            metadata: self.metadata.deep_view(),
        }
    }
}

impl AccountBuilder {
    pub fn new() -> (r: Self)
        ensures
            r@ == (AccountBuilderV {
                org_id: None,
                public_key: None,
                active: None,
                roles: Seq::empty(),
                metadata: Seq::empty(),
            }),
    {
        let r = AccountBuilder {
            org_id: None,
            public_key: None,
            active: None,
            roles: Vec::new(),
            metadata: Vec::new(),
        };
        proof {
            assert(r.roles.deep_view() =~= Seq::<Seq<char>>::empty());
            assert(r.metadata.deep_view() =~= Seq::<KeyValueEntryV>::empty());
        }
        r
    }

    pub fn set_org_id(self, org_id: String) -> (r: Self)
        ensures
            r@ == (AccountBuilderV { org_id: Some(org_id@), ..self@ }),
    {
        AccountBuilder { org_id: Some(org_id), ..self }
    }

    pub fn set_public_key(self, public_key: String) -> (r: Self)
        ensures
            r@ == (AccountBuilderV { public_key: Some(public_key@), ..self@ }),
    {
        AccountBuilder { public_key: Some(public_key), ..self }
    }

    pub fn set_active(self, active: bool) -> (r: Self)
        ensures
            r@ == (AccountBuilderV { active: Some(active@), ..self@ }),
    {
        AccountBuilder { active: Some(active), ..self }
    }

    pub fn set_roles(self, roles: Vec<String>) -> (r: Self)
        ensures
            r@ == (AccountBuilderV { roles: roles.deep_view(), ..self@ }),
    {
        AccountBuilder { roles, ..self }
    }

    pub fn set_metadata(self, metadata: Vec<KeyValueEntry>) -> (r: Self)
        ensures
            r@ == (AccountBuilderV { metadata: metadata.deep_view(), ..self@ }),
    {
        AccountBuilder { metadata, ..self }
    }

    pub fn build(self) -> (r: Result<Account, AccountBuildError>)
        ensures
            match r {
                Ok(v) => account_build_spec(self@) matches Ok(vv) && v@ == vv,
                Err(e) => account_build_spec(self@) matches Err(m) && e@
                    == AccountBuildErrorV::MissingField(m),
            },
    {
        let org_id = match self.org_id {
            Some(v) => v,
            None => {
                return Err(
                    AccountBuildError::MissingField(
                        String::from_str("'org_id' field is required"),
                    ),
                );
            },
        };
        let public_key = match self.public_key {
            Some(v) => v,
            None => {
                return Err(
                    AccountBuildError::MissingField(
                        String::from_str("'public_key' field is required"),
                    ),
                );
            },
        };
        let active = match self.active {
            Some(v) => v,
            None => false,
        };
        let roles = self.roles;
        let metadata = self.metadata;
        Ok(Account { org_id, public_key, active, roles, metadata })
    }
}

// ---------------------------------------------------------------------------
// AccountList
// ---------------------------------------------------------------------------
/// All accounts stored at one state address.
#[derive(Debug, PartialEq)]
pub struct AccountList {
    accounts: Vec<Account>,
}

impl View for AccountList {
    type V = Seq<AccountV>;

    closed spec fn view(&self) -> Seq<AccountV> {
        self.accounts.deep_view()
    }
}

impl AccountList {
    pub fn get_accounts(&self) -> (r: &[Account])
        ensures
            r.deep_view() == self@,
    {
        let r = self.accounts.as_slice();
        proof {
            assert(r.deep_view() =~= self.accounts.deep_view());
        }
        r
    }
}

/// View of a [`AccountListBuildError`].
pub ghost enum AccountListBuildErrorV {
    MissingField(Seq<char>),
}

/// Error returned when a [`AccountListBuilder`] cannot build its list.
#[derive(Debug, Clone, PartialEq)]
pub enum AccountListBuildError {
    MissingField(String),
}

impl View for AccountListBuildError {
    type V = AccountListBuildErrorV;

    open spec fn view(&self) -> AccountListBuildErrorV {
        match self {
            AccountListBuildError::MissingField(m) => AccountListBuildErrorV::MissingField(m@),
        }
    }
}

/// Builder used to create an [`AccountList`].
pub struct AccountListBuilder {
    accounts: Vec<Account>,
}

impl View for AccountListBuilder {
    type V = Seq<AccountV>;

    closed spec fn view(&self) -> Seq<AccountV> {
        self.accounts.deep_view()
    }
}

impl AccountListBuilder {
    pub fn new() -> (r: Self)
        ensures
            r@ == Seq::<AccountV>::empty(),
    {
        AccountListBuilder { accounts: Vec::new() }
    }

    pub fn set_accounts(self, accounts: Vec<Account>) -> (r: Self)
        ensures
            r@ == accounts.deep_view(),
    {
        AccountListBuilder { accounts }
    }

    pub fn build(self) -> (r: Result<AccountList, AccountListBuildError>)
        ensures
            match r {
                Ok(l) => self@.len() > 0 && l@ == self@,
                Err(e) => self@.len() == 0 && e@
                    == AccountListBuildErrorV::MissingField("'accounts' cannot be empty"@),
            },
    {
        if self.accounts.is_empty() {
            return Err(
                AccountListBuildError::MissingField(String::from_str("'accounts' cannot be empty")),
            );
        }
        Ok(AccountList { accounts: self.accounts })
    }
}

// ---------------------------------------------------------------------------
// Organization
// ---------------------------------------------------------------------------
/// View of a [`Organization`].
pub ghost struct OrganizationV {
    pub org_id: Seq<char>,
    pub name: Seq<char>,
    pub address: Seq<char>,
    pub metadata: Seq<KeyValueEntryV>,
}

/// An organization keyed by its id, with a display name, a postal
/// address and metadata.
#[derive(Debug, PartialEq)]
pub struct Organization {
    org_id: String,
    name: String,
    address: String,
    metadata: Vec<KeyValueEntry>,
}

impl View for Organization {
    type V = OrganizationV;

    closed spec fn view(&self) -> OrganizationV {
        OrganizationV {
            org_id: self.org_id@,
            name: self.name@,
            address: self.address@,
            metadata: self.metadata.deep_view(),
        }
    }
}

impl DeepView for Organization {
    type V = OrganizationV;

    open spec fn deep_view(&self) -> OrganizationV {
        self.view()
    }
}

impl Clone for Organization {
    fn clone(&self) -> (res: Self)
        ensures
            res@ == self@,
    {
        let res = Organization {
            org_id: self.org_id.clone(),
            name: self.name.clone(),
            address: self.address.clone(),
            metadata: self.metadata.clone(),
        };
        proof {
            assert forall|i: int| 0 <= i < self.metadata@.len() implies res.metadata.deep_view()[i]
                == self.metadata.deep_view()[i] by {
                assert(cloned::<KeyValueEntry>(self.metadata[i], res.metadata[i]));
            }
            assert(res.metadata.deep_view() =~= self.metadata.deep_view());
        }
        res
    }
}

impl Organization {
    pub fn get_org_id(&self) -> (r: &str)
        ensures
            r@ == self@.org_id,
    {
        self.org_id.as_str()
    }

    pub fn get_name(&self) -> (r: &str)
        ensures
            r@ == self@.name,
    {
        self.name.as_str()
    }

    pub fn get_address(&self) -> (r: &str)
        ensures
            r@ == self@.address,
    {
        self.address.as_str()
    }

    pub fn get_metadata(&self) -> (r: &[KeyValueEntry])
        ensures
            r.deep_view() == self@.metadata,
    {
        let r = self.metadata.as_slice();
        proof {
            assert(r.deep_view() =~= self.metadata.deep_view());
        }
        r
    }
}

/// View of a [`OrganizationBuildError`].
pub ghost enum OrganizationBuildErrorV {
    MissingField(Seq<char>),
}

/// Error returned when a [`OrganizationBuilder`] misses a required field.
#[derive(Debug, Clone, PartialEq)]
pub enum OrganizationBuildError {
    MissingField(String),
}

impl View for OrganizationBuildError {
    type V = OrganizationBuildErrorV;

    open spec fn view(&self) -> OrganizationBuildErrorV {
        match self {
            OrganizationBuildError::MissingField(m) => OrganizationBuildErrorV::MissingField(m@),
        }
    }
}

/// View of a [`OrganizationBuilder`].
pub ghost struct OrganizationBuilderV {
    pub org_id: Option<Seq<char>>,
    pub name: Option<Seq<char>>,
    pub address: Option<Seq<char>>,
    pub metadata: Seq<KeyValueEntryV>,
}

/// What [`OrganizationBuilder::build`] returns: the built view, or the message of
/// the first missing field.
pub open spec fn organization_build_spec(b: OrganizationBuilderV) -> Result<OrganizationV, Seq<char>> {
    if b.org_id is None {
        Err("'org_id' field is required"@)
    } else if b.name is None {
        Err("'name' field is required"@)
    } else if b.address is None {
        Err("'address' field is required"@)
    } else {
        Ok(
            OrganizationV {
                org_id: b.org_id.unwrap(),
                name: b.name.unwrap(),
                address: b.address.unwrap(),
                metadata: b.metadata,
            },
        )
    }
}

/// Builder used to create an [`Organization`].
pub struct OrganizationBuilder {
    org_id: Option<String>,
    name: Option<String>,
    address: Option<String>,
    metadata: Vec<KeyValueEntry>,
}

impl View for OrganizationBuilder {
    type V = OrganizationBuilderV;

    closed spec fn view(&self) -> OrganizationBuilderV {
        OrganizationBuilderV {
            org_id: match self.org_id {
                Some(s) => Some(s@),
                None => None,
            },
            name: match self.name {
                Some(s) => Some(s@),
                None => None,
            },
            address: match self.address {
                Some(s) => Some(s@),
                None => None,
            },
            metadata: self.metadata.deep_view(),
        }
    }
}

impl OrganizationBuilder {
    pub fn new() -> (r: Self)
        ensures
            r@ == (OrganizationBuilderV {
                org_id: None,
                name: None,
                address: None,
                metadata: Seq::empty(),
            }),
    {
        let r = OrganizationBuilder {
            org_id: None,
            name: None,
            address: None,
            metadata: Vec::new(),
        };
        proof {
            assert(r.metadata.deep_view() =~= Seq::<KeyValueEntryV>::empty());
        }
        r
    }

    pub fn set_org_id(self, org_id: String) -> (r: Self)
        ensures
            r@ == (OrganizationBuilderV { org_id: Some(org_id@), ..self@ }),
    {
        OrganizationBuilder { org_id: Some(org_id), ..self }
    }

    pub fn set_name(self, name: String) -> (r: Self)
        ensures
            r@ == (OrganizationBuilderV { name: Some(name@), ..self@ }),
    {
        OrganizationBuilder { name: Some(name), ..self }
    }

    pub fn set_address(self, address: String) -> (r: Self)
        ensures
            r@ == (OrganizationBuilderV { address: Some(address@), ..self@ }),
    {
        OrganizationBuilder { address: Some(address), ..self }
    }

    pub fn set_metadata(self, metadata: Vec<KeyValueEntry>) -> (r: Self)
        ensures
            r@ == (OrganizationBuilderV { metadata: metadata.deep_view(), ..self@ }),
    {
        OrganizationBuilder { metadata, ..self }
    }

    pub fn build(self) -> (r: Result<Organization, OrganizationBuildError>)
        ensures
            match r {
                Ok(v) => organization_build_spec(self@) matches Ok(vv) && v@ == vv,
                Err(e) => organization_build_spec(self@) matches Err(m) && e@
                    == OrganizationBuildErrorV::MissingField(m),
            },
    {
        let org_id = match self.org_id {
            Some(v) => v,
            None => {
                return Err(
                    OrganizationBuildError::MissingField(
                        String::from_str("'org_id' field is required"),
                    ),
                );
            },
        };
        let name = match self.name {
            Some(v) => v,
            None => {
                return Err(
                    OrganizationBuildError::MissingField(
                        String::from_str("'name' field is required"),
                    ),
                );
            },
        };
        let address = match self.address {
            Some(v) => v,
            None => {
                return Err(
                    OrganizationBuildError::MissingField(
                        String::from_str("'address' field is required"),
                    ),
                );
            },
        };
        let metadata = self.metadata;
        Ok(Organization { org_id, name, address, metadata })
    }
}

// ---------------------------------------------------------------------------
// OrganizationList
// ---------------------------------------------------------------------------
/// All organizations stored at one state address.
#[derive(Debug, PartialEq)]
pub struct OrganizationList {
    organizations: Vec<Organization>,
}

impl View for OrganizationList {
    type V = Seq<OrganizationV>;

    closed spec fn view(&self) -> Seq<OrganizationV> {
        self.organizations.deep_view()
    }
}

impl OrganizationList {
    pub fn get_organizations(&self) -> (r: &[Organization])
        ensures
            r.deep_view() == self@,
    {
        let r = self.organizations.as_slice();
        proof {
            assert(r.deep_view() =~= self.organizations.deep_view());
        }
        r
    }
}

/// View of a [`OrganizationListBuildError`].
pub ghost enum OrganizationListBuildErrorV {
    MissingField(Seq<char>),
}

/// Error returned when a [`OrganizationListBuilder`] cannot build its list.
#[derive(Debug, Clone, PartialEq)]
pub enum OrganizationListBuildError {
    MissingField(String),
}

impl View for OrganizationListBuildError {
    type V = OrganizationListBuildErrorV;

    open spec fn view(&self) -> OrganizationListBuildErrorV {
        match self {
            OrganizationListBuildError::MissingField(m) => OrganizationListBuildErrorV::MissingField(m@),
        }
    }
}

/// Builder used to create an [`OrganizationList`].
pub struct OrganizationListBuilder {
    organizations: Vec<Organization>,
}

impl View for OrganizationListBuilder {
    type V = Seq<OrganizationV>;

    closed spec fn view(&self) -> Seq<OrganizationV> {
        self.organizations.deep_view()
    }
}

impl OrganizationListBuilder {
    pub fn new() -> (r: Self)
        ensures
            r@ == Seq::<OrganizationV>::empty(),
    {
        OrganizationListBuilder { organizations: Vec::new() }
    }

    pub fn set_organizations(self, organizations: Vec<Organization>) -> (r: Self)
        ensures
            r@ == organizations.deep_view(),
    {
        OrganizationListBuilder { organizations }
    }

    pub fn build(self) -> (r: Result<OrganizationList, OrganizationListBuildError>)
        ensures
            match r {
                Ok(l) => self@.len() > 0 && l@ == self@,
                Err(e) => self@.len() == 0 && e@
                    == OrganizationListBuildErrorV::MissingField("'organization' cannot be empty"@),
            },
    {
        if self.organizations.is_empty() {
            return Err(
                OrganizationListBuildError::MissingField(String::from_str("'organization' cannot be empty")),
            );
        }
        Ok(OrganizationList { organizations: self.organizations })
    }
}

} // verus!
