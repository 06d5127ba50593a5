//! The actions a transaction payload can carry, with their builders.
//!
//! Every action has a ghost view over character and byte sequences; the
//! payload validator and the transaction handler state their contracts over
//! those views.

use vstd::prelude::*;
use crate::protocol::state::{KeyValueEntry, KeyValueEntryV};

verus! {

// ---------------------------------------------------------------------------
// CreateContractAction
// ---------------------------------------------------------------------------
/// View of a [`CreateContractAction`].
pub ghost struct CreateContractActionV {
    pub name: Seq<char>,
    pub version: Seq<char>,
    pub inputs: Seq<Seq<char>>,
    pub outputs: Seq<Seq<char>>,
    pub contract: Seq<u8>,
}

/// Uploads one version of a contract.
#[derive(Debug, PartialEq)]
pub struct CreateContractAction {
    name: String,
    version: String,
    inputs: Vec<String>,
    outputs: Vec<String>,
    contract: Vec<u8>,
}

impl View for CreateContractAction {
    type V = CreateContractActionV;

    closed spec fn view(&self) -> CreateContractActionV {
        CreateContractActionV {
            name: self.name@,
            version: self.version@,
            inputs: self.inputs.deep_view(),
            outputs: self.outputs.deep_view(),
            contract: self.contract@,
        }
    }
}

impl DeepView for CreateContractAction {
    type V = CreateContractActionV;

    open spec fn deep_view(&self) -> CreateContractActionV {
        self.view()
    }
}

impl CreateContractAction {
    pub fn get_name(&self) -> (r: &str)
        ensures
            r@ == self@.name,
    {
        self.name.as_str()
    }

    pub fn get_version(&self) -> (r: &str)
        ensures
            r@ == self@.version,
    {
        self.version.as_str()
    }

    pub fn get_inputs(&self) -> (r: &[String])
        ensures
            r.deep_view() == self@.inputs,
    {
        let r = self.inputs.as_slice();
        proof {
            assert(r.deep_view() =~= self.inputs.deep_view());
        }
        r
    }

    pub fn get_outputs(&self) -> (r: &[String])
        ensures
            r.deep_view() == self@.outputs,
    {
        let r = self.outputs.as_slice();
        proof {
            assert(r.deep_view() =~= self.outputs.deep_view());
        }
        r
    }

    pub fn get_contract(&self) -> (r: &[u8])
        ensures
            r@ == self@.contract,
    {
        self.contract.as_slice()
    }
}

/// View of a [`CreateContractActionBuildError`].
pub ghost enum CreateContractActionBuildErrorV {
    MissingField(Seq<char>),
}

/// Error returned when a [`CreateContractActionBuilder`] misses a required field.
#[derive(Debug, Clone, PartialEq)]
pub enum CreateContractActionBuildError {
    MissingField(String),
}

impl View for CreateContractActionBuildError {
    type V = CreateContractActionBuildErrorV;

    open spec fn view(&self) -> CreateContractActionBuildErrorV {
        match self {
            CreateContractActionBuildError::MissingField(m) => CreateContractActionBuildErrorV::MissingField(m@),
        }
    }
}

/// View of a [`CreateContractActionBuilder`].
pub ghost struct CreateContractActionBuilderV {
    pub name: Option<Seq<char>>,
    pub version: Option<Seq<char>>,
    pub inputs: Seq<Seq<char>>,
    pub outputs: Seq<Seq<char>>,
    pub contract: Seq<u8>,
}

/// What [`CreateContractActionBuilder::build`] returns: the built view, or the message of
/// the first missing field.
pub open spec fn create_contract_action_build_spec(b: CreateContractActionBuilderV) -> Result<CreateContractActionV, Seq<char>> {
    if b.name is None {
        Err("'name' field is required"@)
    } else if b.version is None {
        Err("'version' field is required"@)
    } else if b.contract.len() == 0 {
        Err("'contract' field is required"@)
    } else {
        Ok(
            CreateContractActionV {
                name: b.name.unwrap(),
                version: b.version.unwrap(),
                inputs: b.inputs,
                outputs: b.outputs,
                contract: b.contract,
            },
        )
    }
}

/// Builder used to create a [`CreateContractAction`].
pub struct CreateContractActionBuilder {
    name: Option<String>,
    version: Option<String>,
    inputs: Vec<String>,
    outputs: Vec<String>,
    contract: Vec<u8>,
}

impl View for CreateContractActionBuilder {
    type V = CreateContractActionBuilderV;

    closed spec fn view(&self) -> CreateContractActionBuilderV {
        CreateContractActionBuilderV {
            name: match self.name {
                Some(s) => Some(s@),
                None => None,
            },
            version: match self.version {
                Some(s) => Some(s@),
                None => None,
            },
            inputs: self.inputs.deep_view(),
            outputs: self.outputs.deep_view(),
            contract: self.contract@,
        }
    }
}

impl CreateContractActionBuilder {
    pub fn new() -> (r: Self)
        ensures
            r@ == (CreateContractActionBuilderV {
                name: None,
                version: None,
                inputs: Seq::empty(),
                outputs: Seq::empty(),
                contract: Seq::empty(),
            }),
    {
        let r = CreateContractActionBuilder {
            name: None,
            version: None,
            inputs: Vec::new(),
            outputs: Vec::new(),
            contract: Vec::new(),
        };
        proof {
            assert(r.inputs.deep_view() =~= Seq::<Seq<char>>::empty());
            assert(r.outputs.deep_view() =~= Seq::<Seq<char>>::empty());
            assert(r.contract@ =~= Seq::<u8>::empty());
        }
        r
    }

    pub fn set_name(self, name: String) -> (r: Self)
        ensures
            r@ == (CreateContractActionBuilderV { name: Some(name@), ..self@ }),
    {
        CreateContractActionBuilder { name: Some(name), ..self }
    }

    pub fn set_version(self, version: String) -> (r: Self)
        ensures
            r@ == (CreateContractActionBuilderV { version: Some(version@), ..self@ }),
    {
        CreateContractActionBuilder { version: Some(version), ..self }
    }

    pub fn set_inputs(self, inputs: Vec<String>) -> (r: Self)
        ensures
            r@ == (CreateContractActionBuilderV { inputs: inputs.deep_view(), ..self@ }),
    {
        CreateContractActionBuilder { inputs, ..self }
    }

    pub fn set_outputs(self, outputs: Vec<String>) -> (r: Self)
        ensures
            r@ == (CreateContractActionBuilderV { outputs: outputs.deep_view(), ..self@ }),
    {
        CreateContractActionBuilder { outputs, ..self }
    }

    pub fn set_contract(self, contract: Vec<u8>) -> (r: Self)
        ensures
            r@ == (CreateContractActionBuilderV { contract: contract@, ..self@ }),
    {
        CreateContractActionBuilder { contract, ..self }
    }

    pub fn build(self) -> (r: Result<CreateContractAction, CreateContractActionBuildError>)
        ensures
            match r {
                Ok(v) => create_contract_action_build_spec(self@) matches Ok(vv) && v@ == vv,
                Err(e) => create_contract_action_build_spec(self@) matches Err(m) && e@
                    == CreateContractActionBuildErrorV::MissingField(m),
            },
    {
        let name = match self.name {
            Some(v) => v,
            None => {
                return Err(
                    CreateContractActionBuildError::MissingField(
                        String::from_str("'name' field is required"),
                    ),
                );
            },
        };
        let version = match self.version {
            Some(v) => v,
            None => {
                return Err(
                    CreateContractActionBuildError::MissingField(
                        String::from_str("'version' field is required"),
                    ),
                );
            },
        };
        if self.contract.is_empty() {
            return Err(
                CreateContractActionBuildError::MissingField(String::from_str("'contract' field is required")),
            );
        }
        let contract = self.contract;
        let inputs = self.inputs;
        let outputs = self.outputs;
        Ok(CreateContractAction { name, version, inputs, outputs, contract })
    }
}

// ---------------------------------------------------------------------------
// DeleteContractAction
// ---------------------------------------------------------------------------
/// View of a [`DeleteContractAction`].
pub ghost struct DeleteContractActionV {
    pub name: Seq<char>,
    pub version: Seq<char>,
}

/// Removes one version of a contract.
#[derive(Debug, PartialEq)]
pub struct DeleteContractAction {
    name: String,
    version: String,
}

impl View for DeleteContractAction {
    type V = DeleteContractActionV;

    closed spec fn view(&self) -> DeleteContractActionV {
        DeleteContractActionV {
            name: self.name@,
            version: self.version@,
        }
    }
}

impl DeepView for DeleteContractAction {
    type V = DeleteContractActionV;

    open spec fn deep_view(&self) -> DeleteContractActionV {
        self.view()
    }
}

impl DeleteContractAction {
    pub fn get_name(&self) -> (r: &str)
        ensures
            r@ == self@.name,
    {
        self.name.as_str()
    }

    pub fn get_version(&self) -> (r: &str)
        ensures
            r@ == self@.version,
    {
        self.version.as_str()
    }
}

/// View of a [`DeleteContractActionBuildError`].
pub ghost enum DeleteContractActionBuildErrorV {
    MissingField(Seq<char>),
}

/// Error returned when a [`DeleteContractActionBuilder`] misses a required field.
#[derive(Debug, Clone, PartialEq)]
pub enum DeleteContractActionBuildError {
    MissingField(String),
}

impl View for DeleteContractActionBuildError {
    type V = DeleteContractActionBuildErrorV;

    open spec fn view(&self) -> DeleteContractActionBuildErrorV {
        match self {
            DeleteContractActionBuildError::MissingField(m) => DeleteContractActionBuildErrorV::MissingField(m@),
        }
    }
}

/// View of a [`DeleteContractActionBuilder`].
pub ghost struct DeleteContractActionBuilderV {
    pub name: Option<Seq<char>>,
    pub version: Option<Seq<char>>,
}

/// What [`DeleteContractActionBuilder::build`] returns: the built view, or the message of
/// the first missing field.
pub open spec fn delete_contract_action_build_spec(b: DeleteContractActionBuilderV) -> Result<DeleteContractActionV, Seq<char>> {
    if b.name is None {
        Err("'name' field is required"@)
    } else if b.version is None {
        Err("'version' field is required"@)
    } else {
        Ok(
            DeleteContractActionV {
                name: b.name.unwrap(),
                version: b.version.unwrap(),
            },
        )
    }
}

/// Builder used to create a [`DeleteContractAction`].
pub struct DeleteContractActionBuilder {
    name: Option<String>,
    version: Option<String>,
}

impl View for DeleteContractActionBuilder {
    type V = DeleteContractActionBuilderV;

    closed spec fn view(&self) -> DeleteContractActionBuilderV {
        DeleteContractActionBuilderV {
            name: match self.name {
                Some(s) => Some(s@),
                None => None,
            },
            version: match self.version {
                Some(s) => Some(s@),
                None => None,
            },
        }
    }
}

impl DeleteContractActionBuilder {
    pub fn new() -> (r: Self)
        ensures
            r@ == (DeleteContractActionBuilderV {
                name: None,
                version: None,
            }),
    {
        let r = DeleteContractActionBuilder {
            name: None,
            version: None,
        };
        r
    }

    pub fn set_name(self, name: String) -> (r: Self)
        ensures
            r@ == (DeleteContractActionBuilderV { name: Some(name@), ..self@ }),
    {
        DeleteContractActionBuilder { name: Some(name), ..self }
    }

    pub fn set_version(self, version: String) -> (r: Self)
        ensures
            r@ == (DeleteContractActionBuilderV { version: Some(version@), ..self@ }),
    {
        DeleteContractActionBuilder { version: Some(version), ..self }
    }

    pub fn build(self) -> (r: Result<DeleteContractAction, DeleteContractActionBuildError>)
        ensures
            match r {
                Ok(v) => delete_contract_action_build_spec(self@) matches Ok(vv) && v@ == vv,
                Err(e) => delete_contract_action_build_spec(self@) matches Err(m) && e@
                    == DeleteContractActionBuildErrorV::MissingField(m),
            },
    {
        let name = match self.name {
            Some(v) => v,
            None => {
                return Err(
                    DeleteContractActionBuildError::MissingField(
                        String::from_str("'name' field is required"),
                    ),
                );
            },
        };
        let version = match self.version {
            Some(v) => v,
            None => {
                return Err(
                    DeleteContractActionBuildError::MissingField(
                        String::from_str("'version' field is required"),
                    ),
                );
            },
        };
        Ok(DeleteContractAction { name, version })
    }
}

// ---------------------------------------------------------------------------
// ExecuteContractAction
// ---------------------------------------------------------------------------
/// View of a [`ExecuteContractAction`].
pub ghost struct ExecuteContractActionV {
    pub name: Seq<char>,
    pub version: Seq<char>,
    pub inputs: Seq<Seq<char>>,
    pub outputs: Seq<Seq<char>>,
    pub payload: Seq<u8>,
}

/// Runs a stored contract against the given payload.
#[derive(Debug, PartialEq)]
pub struct ExecuteContractAction {
    name: String,
    version: String,
    inputs: Vec<String>,
    outputs: Vec<String>,
    payload: Vec<u8>,
}

impl View for ExecuteContractAction {
    type V = ExecuteContractActionV;

    closed spec fn view(&self) -> ExecuteContractActionV {
        ExecuteContractActionV {
            name: self.name@,
            version: self.version@,
            inputs: self.inputs.deep_view(),
            outputs: self.outputs.deep_view(),
            payload: self.payload@,
        }
    }
}

impl DeepView for ExecuteContractAction {
    type V = ExecuteContractActionV;

    open spec fn deep_view(&self) -> ExecuteContractActionV {
        self.view()
    }
}

impl ExecuteContractAction {
    pub fn get_name(&self) -> (r: &str)
        ensures
            r@ == self@.name,
    {
        self.name.as_str()
    }

    pub fn get_version(&self) -> (r: &str)
        ensures
            r@ == self@.version,
    {
        self.version.as_str()
    }

    pub fn get_inputs(&self) -> (r: &[String])
        ensures
            r.deep_view() == self@.inputs,
    {
        let r = self.inputs.as_slice();
        proof {
            assert(r.deep_view() =~= self.inputs.deep_view());
        }
        r
    }

    pub fn get_outputs(&self) -> (r: &[String])
        ensures
            r.deep_view() == self@.outputs,
    {
        let r = self.outputs.as_slice();
        proof {
            assert(r.deep_view() =~= self.outputs.deep_view());
        }
        r
    }

    pub fn get_payload(&self) -> (r: &[u8])
        ensures
            r@ == self@.payload,
    {
        self.payload.as_slice()
    }
}

/// View of a [`ExecuteContractActionBuildError`].
pub ghost enum ExecuteContractActionBuildErrorV {
    MissingField(Seq<char>),
}

/// Error returned when a [`ExecuteContractActionBuilder`] misses a required field.
#[derive(Debug, Clone, PartialEq)]
pub enum ExecuteContractActionBuildError {
    MissingField(String),
}

impl View for ExecuteContractActionBuildError {
    type V = ExecuteContractActionBuildErrorV;

    open spec fn view(&self) -> ExecuteContractActionBuildErrorV {
        match self {
            ExecuteContractActionBuildError::MissingField(m) => ExecuteContractActionBuildErrorV::MissingField(m@),
        }
    }
}

/// View of a [`ExecuteContractActionBuilder`].
pub ghost struct ExecuteContractActionBuilderV {
    pub name: Option<Seq<char>>,
    pub version: Option<Seq<char>>,
    pub inputs: Seq<Seq<char>>,
    pub outputs: Seq<Seq<char>>,
    pub payload: Seq<u8>,
}

/// What [`ExecuteContractActionBuilder::build`] returns: the built view, or the message of
/// the first missing field.
pub open spec fn execute_contract_action_build_spec(b: ExecuteContractActionBuilderV) -> Result<ExecuteContractActionV, Seq<char>> {
    if b.name is None {
        Err("'name' field is required"@)
    } else if b.version is None {
        Err("'version' field is required"@)
    } else if b.payload.len() == 0 {
        Err("'payloads' field is required"@)
    } else {
        Ok(
            ExecuteContractActionV {
                name: b.name.unwrap(),
                version: b.version.unwrap(),
                inputs: b.inputs,
                outputs: b.outputs,
                payload: b.payload,
            },
        )
    }
}

/// Builder used to create a [`ExecuteContractAction`].
pub struct ExecuteContractActionBuilder {
    name: Option<String>,
    version: Option<String>,
    inputs: Vec<String>,
    outputs: Vec<String>,
    payload: Vec<u8>,
}

impl View for ExecuteContractActionBuilder {
    type V = ExecuteContractActionBuilderV;

    closed spec fn view(&self) -> ExecuteContractActionBuilderV {
        ExecuteContractActionBuilderV {
            name: match self.name {
                Some(s) => Some(s@),
                None => None,
            },
            version: match self.version {
                Some(s) => Some(s@),
                None => None,
            },
            inputs: self.inputs.deep_view(),
            outputs: self.outputs.deep_view(),
            payload: self.payload@,
        }
    }
}

impl ExecuteContractActionBuilder {
    pub fn new() -> (r: Self)
        ensures
            r@ == (ExecuteContractActionBuilderV {
                name: None,
                version: None,
                inputs: Seq::empty(),
                outputs: Seq::empty(),
                payload: Seq::empty(),
            }),
    {
        let r = ExecuteContractActionBuilder {
            name: None,
            version: None,
            inputs: Vec::new(),
            outputs: Vec::new(),
            payload: Vec::new(),
        };
        proof {
            assert(r.inputs.deep_view() =~= Seq::<Seq<char>>::empty());
            assert(r.outputs.deep_view() =~= Seq::<Seq<char>>::empty());
            assert(r.payload@ =~= Seq::<u8>::empty());
        }
        r
    }

    pub fn set_name(self, name: String) -> (r: Self)
        ensures
            r@ == (ExecuteContractActionBuilderV { name: Some(name@), ..self@ }),
    {
        ExecuteContractActionBuilder { name: Some(name), ..self }
    }

    pub fn set_version(self, version: String) -> (r: Self)
        ensures
            r@ == (ExecuteContractActionBuilderV { version: Some(version@), ..self@ }),
    {
        ExecuteContractActionBuilder { version: Some(version), ..self }
    }

    pub fn set_inputs(self, inputs: Vec<String>) -> (r: Self)
        ensures
            r@ == (ExecuteContractActionBuilderV { inputs: inputs.deep_view(), ..self@ }),
    {
        ExecuteContractActionBuilder { inputs, ..self }
    }

    pub fn set_outputs(self, outputs: Vec<String>) -> (r: Self)
        ensures
            r@ == (ExecuteContractActionBuilderV { outputs: outputs.deep_view(), ..self@ }),
    {
        ExecuteContractActionBuilder { outputs, ..self }
    }

    pub fn set_payload(self, payload: Vec<u8>) -> (r: Self)
        ensures
            r@ == (ExecuteContractActionBuilderV { payload: payload@, ..self@ }),
    {
        ExecuteContractActionBuilder { payload, ..self }
    }

    pub fn build(self) -> (r: Result<ExecuteContractAction, ExecuteContractActionBuildError>)
        ensures
            match r {
                Ok(v) => execute_contract_action_build_spec(self@) matches Ok(vv) && v@ == vv,
                Err(e) => execute_contract_action_build_spec(self@) matches Err(m) && e@
                    == ExecuteContractActionBuildErrorV::MissingField(m),
            },
    {
        let name = match self.name {
            Some(v) => v,
            None => {
                return Err(
                    ExecuteContractActionBuildError::MissingField(
                        String::from_str("'name' field is required"),
                    ),
                );
            },
        };
        let version = match self.version {
            Some(v) => v,
            None => {
                return Err(
                    ExecuteContractActionBuildError::MissingField(
                        String::from_str("'version' field is required"),
                    ),
                );
            },
        };
        if self.payload.is_empty() {
            return Err(
                ExecuteContractActionBuildError::MissingField(String::from_str("'payloads' field is required")),
            );
        }
        let payload = self.payload;
        let inputs = self.inputs;
        let outputs = self.outputs;
        Ok(ExecuteContractAction { name, version, inputs, outputs, payload })
    }
}

// ---------------------------------------------------------------------------
// CreateContractRegistryAction
// ---------------------------------------------------------------------------
/// View of a [`CreateContractRegistryAction`].
pub ghost struct CreateContractRegistryActionV {
    pub name: Seq<char>,
    pub owners: Seq<Seq<char>>,
}

/// Creates the registry for a contract name.
#[derive(Debug, PartialEq)]
pub struct CreateContractRegistryAction {
    name: String,
    owners: Vec<String>,
}

impl View for CreateContractRegistryAction {
    type V = CreateContractRegistryActionV;

    closed spec fn view(&self) -> CreateContractRegistryActionV {
        CreateContractRegistryActionV {
            name: self.name@,
            owners: self.owners.deep_view(),
        }
    }
}

impl DeepView for CreateContractRegistryAction {
    type V = CreateContractRegistryActionV;

    open spec fn deep_view(&self) -> CreateContractRegistryActionV {
        self.view()
    }
}

impl CreateContractRegistryAction {
    pub fn get_name(&self) -> (r: &str)
        ensures
            r@ == self@.name,
    {
        self.name.as_str()
    }

    pub fn get_owners(&self) -> (r: &[String])
        ensures
            r.deep_view() == self@.owners,
    {
        let r = self.owners.as_slice();
        proof {
            assert(r.deep_view() =~= self.owners.deep_view());
        }
        r
    }
}

/// View of a [`CreateContractRegistryActionBuildError`].
pub ghost enum CreateContractRegistryActionBuildErrorV {
    MissingField(Seq<char>),
}

/// Error returned when a [`CreateContractRegistryActionBuilder`] misses a required field.
#[derive(Debug, Clone, PartialEq)]
pub enum CreateContractRegistryActionBuildError {
    MissingField(String),
}

impl View for CreateContractRegistryActionBuildError {
    type V = CreateContractRegistryActionBuildErrorV;

    open spec fn view(&self) -> CreateContractRegistryActionBuildErrorV {
        match self {
            CreateContractRegistryActionBuildError::MissingField(m) => CreateContractRegistryActionBuildErrorV::MissingField(m@),
        }
    }
}

/// View of a [`CreateContractRegistryActionBuilder`].
pub ghost struct CreateContractRegistryActionBuilderV {
    pub name: Option<Seq<char>>,
    pub owners: Seq<Seq<char>>,
}

/// What [`CreateContractRegistryActionBuilder::build`] returns: the built view, or the message of
/// the first missing field.
pub open spec fn create_contract_registry_action_build_spec(b: CreateContractRegistryActionBuilderV) -> Result<CreateContractRegistryActionV, Seq<char>> {
    if b.name is None {
        Err("'name' field is required"@)
    } else if b.owners.len() == 0 {
        Err("'owners' field is required"@)
    } else {
        Ok(
            CreateContractRegistryActionV {
                name: b.name.unwrap(),
                owners: b.owners,
            },
        )
    }
}

/// Builder used to create a [`CreateContractRegistryAction`].
pub struct CreateContractRegistryActionBuilder {
    name: Option<String>,
    owners: Vec<String>,
}

impl View for CreateContractRegistryActionBuilder {
    type V = CreateContractRegistryActionBuilderV;

    closed spec fn view(&self) -> CreateContractRegistryActionBuilderV {
        CreateContractRegistryActionBuilderV {
            name: match self.name {
                Some(s) => Some(s@),
                None => None,
            },
            owners: self.owners.deep_view(),
        }
    }
}

impl CreateContractRegistryActionBuilder {
    pub fn new() -> (r: Self)
        ensures
            r@ == (CreateContractRegistryActionBuilderV {
                name: None,
                owners: Seq::empty(),
            }),
    {
        let r = CreateContractRegistryActionBuilder {
            name: None,
            owners: Vec::new(),
        };
        proof {
            assert(r.owners.deep_view() =~= Seq::<Seq<char>>::empty());
        }
        r
    }

    pub fn set_name(self, name: String) -> (r: Self)
        ensures
            r@ == (CreateContractRegistryActionBuilderV { name: Some(name@), ..self@ }),
    {
        CreateContractRegistryActionBuilder { name: Some(name), ..self }
    }

    pub fn set_owners(self, owners: Vec<String>) -> (r: Self)
        ensures
            r@ == (CreateContractRegistryActionBuilderV { owners: owners.deep_view(), ..self@ }),
    {
        CreateContractRegistryActionBuilder { owners, ..self }
    }

    pub fn build(self) -> (r: Result<CreateContractRegistryAction, CreateContractRegistryActionBuildError>)
        ensures
            match r {
                Ok(v) => create_contract_registry_action_build_spec(self@) matches Ok(vv) && v@ == vv,
                Err(e) => create_contract_registry_action_build_spec(self@) matches Err(m) && e@
                    == CreateContractRegistryActionBuildErrorV::MissingField(m),
            },
    {
        let name = match self.name {
            Some(v) => v,
            None => {
                return Err(
                    CreateContractRegistryActionBuildError::MissingField(
                        String::from_str("'name' field is required"),
                    ),
                );
            },
        };
        if self.owners.is_empty() {
            return Err(
                CreateContractRegistryActionBuildError::MissingField(String::from_str("'owners' field is required")),
            );
        }
        let owners = self.owners;
        Ok(CreateContractRegistryAction { name, owners })
    }
}

// ---------------------------------------------------------------------------
// DeleteContractRegistryAction
// ---------------------------------------------------------------------------
/// View of a [`DeleteContractRegistryAction`].
pub ghost struct DeleteContractRegistryActionV {
    pub name: Seq<char>,
}

/// Removes the registry of a contract name.
#[derive(Debug, PartialEq)]
pub struct DeleteContractRegistryAction {
    name: String,
}

impl View for DeleteContractRegistryAction {
    type V = DeleteContractRegistryActionV;

    closed spec fn view(&self) -> DeleteContractRegistryActionV {
        DeleteContractRegistryActionV {
            name: self.name@,
        }
    }
}

impl DeepView for DeleteContractRegistryAction {
    type V = DeleteContractRegistryActionV;

    open spec fn deep_view(&self) -> DeleteContractRegistryActionV {
        self.view()
    }
}

impl DeleteContractRegistryAction {
    pub fn get_name(&self) -> (r: &str)
        ensures
            r@ == self@.name,
    {
        self.name.as_str()
    }
}

/// View of a [`DeleteContractRegistryActionBuildError`].
pub ghost enum DeleteContractRegistryActionBuildErrorV {
    MissingField(Seq<char>),
}

/// Error returned when a [`DeleteContractRegistryActionBuilder`] misses a required field.
#[derive(Debug, Clone, PartialEq)]
pub enum DeleteContractRegistryActionBuildError {
    MissingField(String),
}

impl View for DeleteContractRegistryActionBuildError {
    type V = DeleteContractRegistryActionBuildErrorV;

    open spec fn view(&self) -> DeleteContractRegistryActionBuildErrorV {
        match self {
            DeleteContractRegistryActionBuildError::MissingField(m) => DeleteContractRegistryActionBuildErrorV::MissingField(m@),
        }
    }
}

/// View of a [`DeleteContractRegistryActionBuilder`].
pub ghost struct DeleteContractRegistryActionBuilderV {
    pub name: Option<Seq<char>>,
}

/// What [`DeleteContractRegistryActionBuilder::build`] returns: the built view, or the message of
/// the first missing field.
pub open spec fn delete_contract_registry_action_build_spec(b: DeleteContractRegistryActionBuilderV) -> Result<DeleteContractRegistryActionV, Seq<char>> {
    if b.name is None {
        Err("'name' field is required"@)
    } else {
        Ok(
            DeleteContractRegistryActionV {
                name: b.name.unwrap(),
            },
        )
    }
}

/// Builder used to create a [`DeleteContractRegistryAction`].
pub struct DeleteContractRegistryActionBuilder {
    name: Option<String>,
}

impl View for DeleteContractRegistryActionBuilder {
    type V = DeleteContractRegistryActionBuilderV;

    closed spec fn view(&self) -> DeleteContractRegistryActionBuilderV {
        DeleteContractRegistryActionBuilderV {
            name: match self.name {
                Some(s) => Some(s@),
                None => None,
            },
        }
    }
}

impl DeleteContractRegistryActionBuilder {
    pub fn new() -> (r: Self)
        ensures
            r@ == (DeleteContractRegistryActionBuilderV {
                name: None,
            }),
    {
        let r = DeleteContractRegistryActionBuilder {
            name: None,
        };
        r
    }

    pub fn set_name(self, name: String) -> (r: Self)
        ensures
            r@ == (DeleteContractRegistryActionBuilderV { name: Some(name@), ..self@ }),
    {
        DeleteContractRegistryActionBuilder { name: Some(name), ..self }
    }

    pub fn build(self) -> (r: Result<DeleteContractRegistryAction, DeleteContractRegistryActionBuildError>)
        ensures
            match r {
                Ok(v) => delete_contract_registry_action_build_spec(self@) matches Ok(vv) && v@ == vv,
                Err(e) => delete_contract_registry_action_build_spec(self@) matches Err(m) && e@
                    == DeleteContractRegistryActionBuildErrorV::MissingField(m),
            },
    {
        let name = match self.name {
            Some(v) => v,
            None => {
                return Err(
                    DeleteContractRegistryActionBuildError::MissingField(
                        String::from_str("'name' field is required"),
                    ),
                );
            },
        };
        Ok(DeleteContractRegistryAction { name })
    }
}

// ---------------------------------------------------------------------------
// UpdateContractRegistryOwnersAction
// ---------------------------------------------------------------------------
/// View of a [`UpdateContractRegistryOwnersAction`].
pub ghost struct UpdateContractRegistryOwnersActionV {
    pub name: Seq<char>,
    pub owners: Seq<Seq<char>>,
}

/// Replaces a contract registry's owners.
#[derive(Debug, PartialEq)]
pub struct UpdateContractRegistryOwnersAction {
    name: String,
    owners: Vec<String>,
}

impl View for UpdateContractRegistryOwnersAction {
    type V = UpdateContractRegistryOwnersActionV;

    closed spec fn view(&self) -> UpdateContractRegistryOwnersActionV {
        UpdateContractRegistryOwnersActionV {
            name: self.name@,
            owners: self.owners.deep_view(),
        }
    }
}

impl DeepView for UpdateContractRegistryOwnersAction {
    type V = UpdateContractRegistryOwnersActionV;

    open spec fn deep_view(&self) -> UpdateContractRegistryOwnersActionV {
        self.view()
    }
}

impl UpdateContractRegistryOwnersAction {
    pub fn get_name(&self) -> (r: &str)
        ensures
            r@ == self@.name,
    {
        self.name.as_str()
    }

    pub fn get_owners(&self) -> (r: &[String])
        ensures
            r.deep_view() == self@.owners,
    {
        let r = self.owners.as_slice();
        proof {
            assert(r.deep_view() =~= self.owners.deep_view());
        }
        r
    }
}

/// View of a [`UpdateContractRegistryOwnersActionBuildError`].
pub ghost enum UpdateContractRegistryOwnersActionBuildErrorV {
    MissingField(Seq<char>),
}

/// Error returned when a [`UpdateContractRegistryOwnersActionBuilder`] misses a required field.
#[derive(Debug, Clone, PartialEq)]
pub enum UpdateContractRegistryOwnersActionBuildError {
    MissingField(String),
}

impl View for UpdateContractRegistryOwnersActionBuildError {
    type V = UpdateContractRegistryOwnersActionBuildErrorV;

    open spec fn view(&self) -> UpdateContractRegistryOwnersActionBuildErrorV {
        match self {
            UpdateContractRegistryOwnersActionBuildError::MissingField(m) => UpdateContractRegistryOwnersActionBuildErrorV::MissingField(m@),
        }
    }
}

/// View of a [`UpdateContractRegistryOwnersActionBuilder`].
pub ghost struct UpdateContractRegistryOwnersActionBuilderV {
    pub name: Option<Seq<char>>,
    pub owners: Seq<Seq<char>>,
}

/// What [`UpdateContractRegistryOwnersActionBuilder::build`] returns: the built view, or the message of
/// the first missing field.
pub open spec fn update_contract_registry_owners_action_build_spec(b: UpdateContractRegistryOwnersActionBuilderV) -> Result<UpdateContractRegistryOwnersActionV, Seq<char>> {
    if b.name is None {
        Err("'name' field is required"@)
    } else if b.owners.len() == 0 {
        Err("'owners' field is required"@)
    } else {
        Ok(
            UpdateContractRegistryOwnersActionV {
                name: b.name.unwrap(),
                owners: b.owners,
            },
        )
    }
}

/// Builder used to create a [`UpdateContractRegistryOwnersAction`].
pub struct UpdateContractRegistryOwnersActionBuilder {
    name: Option<String>,
    owners: Vec<String>,
}

impl View for UpdateContractRegistryOwnersActionBuilder {
    type V = UpdateContractRegistryOwnersActionBuilderV;

    closed spec fn view(&self) -> UpdateContractRegistryOwnersActionBuilderV {
        UpdateContractRegistryOwnersActionBuilderV {
            name: match self.name {
                Some(s) => Some(s@),
                None => None,
            },
            owners: self.owners.deep_view(),
        }
    }
}

impl UpdateContractRegistryOwnersActionBuilder {
    pub fn new() -> (r: Self)
        ensures
            r@ == (UpdateContractRegistryOwnersActionBuilderV {
                name: None,
                owners: Seq::empty(),
            }),
    {
        let r = UpdateContractRegistryOwnersActionBuilder {
            name: None,
            owners: Vec::new(),
        };
        proof {
            assert(r.owners.deep_view() =~= Seq::<Seq<char>>::empty());
        }
        r
    }

    pub fn set_name(self, name: String) -> (r: Self)
        ensures
            r@ == (UpdateContractRegistryOwnersActionBuilderV { name: Some(name@), ..self@ }),
    {
        UpdateContractRegistryOwnersActionBuilder { name: Some(name), ..self }
    }

    pub fn set_owners(self, owners: Vec<String>) -> (r: Self)
        ensures
            r@ == (UpdateContractRegistryOwnersActionBuilderV { owners: owners.deep_view(), ..self@ }),
    {
        UpdateContractRegistryOwnersActionBuilder { owners, ..self }
    }

    pub fn build(self) -> (r: Result<UpdateContractRegistryOwnersAction, UpdateContractRegistryOwnersActionBuildError>)
        ensures
            match r {
                Ok(v) => update_contract_registry_owners_action_build_spec(self@) matches Ok(vv) && v@ == vv,
                Err(e) => update_contract_registry_owners_action_build_spec(self@) matches Err(m) && e@
                    == UpdateContractRegistryOwnersActionBuildErrorV::MissingField(m),
            },
    {
        let name = match self.name {
            Some(v) => v,
            None => {
                return Err(
                    UpdateContractRegistryOwnersActionBuildError::MissingField(
                        String::from_str("'name' field is required"),
                    ),
                );
            },
        };
        if self.owners.is_empty() {
            return Err(
                UpdateContractRegistryOwnersActionBuildError::MissingField(String::from_str("'owners' field is required")),
            );
        }
        let owners = self.owners;
        Ok(UpdateContractRegistryOwnersAction { name, owners })
    }
}

// ---------------------------------------------------------------------------
// CreateNamespaceRegistryAction
// ---------------------------------------------------------------------------
/// View of a [`CreateNamespaceRegistryAction`].
pub ghost struct CreateNamespaceRegistryActionV {
    pub namespace: Seq<char>,
    pub owners: Seq<Seq<char>>,
}

/// Creates the registry for a namespace.
#[derive(Debug, PartialEq)]
pub struct CreateNamespaceRegistryAction {
    namespace: String,
    owners: Vec<String>,
}

impl View for CreateNamespaceRegistryAction {
    type V = CreateNamespaceRegistryActionV;

    closed spec fn view(&self) -> CreateNamespaceRegistryActionV {
        CreateNamespaceRegistryActionV {
            namespace: self.namespace@,
            owners: self.owners.deep_view(),
        }
    }
}

impl DeepView for CreateNamespaceRegistryAction {
    type V = CreateNamespaceRegistryActionV;

    open spec fn deep_view(&self) -> CreateNamespaceRegistryActionV {
        self.view()
    }
}

impl CreateNamespaceRegistryAction {
    pub fn get_namespace(&self) -> (r: &str)
        ensures
            r@ == self@.namespace,
    {
        self.namespace.as_str()
    }

    pub fn get_owners(&self) -> (r: &[String])
        ensures
            r.deep_view() == self@.owners,
    {
        let r = self.owners.as_slice();
        proof {
            assert(r.deep_view() =~= self.owners.deep_view());
        }
        r
    }
}

/// View of a [`CreateNamespaceRegistryActionBuildError`].
pub ghost enum CreateNamespaceRegistryActionBuildErrorV {
    MissingField(Seq<char>),
}

/// Error returned when a [`CreateNamespaceRegistryActionBuilder`] misses a required field.
#[derive(Debug, Clone, PartialEq)]
pub enum CreateNamespaceRegistryActionBuildError {
    MissingField(String),
}

impl View for CreateNamespaceRegistryActionBuildError {
    type V = CreateNamespaceRegistryActionBuildErrorV;

    open spec fn view(&self) -> CreateNamespaceRegistryActionBuildErrorV {
        match self {
            CreateNamespaceRegistryActionBuildError::MissingField(m) => CreateNamespaceRegistryActionBuildErrorV::MissingField(m@),
        }
    }
}

/// View of a [`CreateNamespaceRegistryActionBuilder`].
pub ghost struct CreateNamespaceRegistryActionBuilderV {
    pub namespace: Option<Seq<char>>,
    pub owners: Seq<Seq<char>>,
}

/// What [`CreateNamespaceRegistryActionBuilder::build`] returns: the built view, or the message of
/// the first missing field.
pub open spec fn create_namespace_registry_action_build_spec(b: CreateNamespaceRegistryActionBuilderV) -> Result<CreateNamespaceRegistryActionV, Seq<char>> {
    if b.namespace is None {
        Err("'namespace' field is required"@)
    } else if b.owners.len() == 0 {
        Err("'owners' field is required"@)
    } else {
        Ok(
            CreateNamespaceRegistryActionV {
                namespace: b.namespace.unwrap(),
                owners: b.owners,
            },
        )
    }
}

/// Builder used to create a [`CreateNamespaceRegistryAction`].
pub struct CreateNamespaceRegistryActionBuilder {
    namespace: Option<String>,
    owners: Vec<String>,
}

impl View for CreateNamespaceRegistryActionBuilder {
    type V = CreateNamespaceRegistryActionBuilderV;

    closed spec fn view(&self) -> CreateNamespaceRegistryActionBuilderV {
        CreateNamespaceRegistryActionBuilderV {
            namespace: match self.namespace {
                Some(s) => Some(s@),
                None => None,
            },
            owners: self.owners.deep_view(),
        }
    }
}

impl CreateNamespaceRegistryActionBuilder {
    pub fn new() -> (r: Self)
        ensures
            r@ == (CreateNamespaceRegistryActionBuilderV {
                namespace: None,
                owners: Seq::empty(),
            }),
    {
        let r = CreateNamespaceRegistryActionBuilder {
            namespace: None,
            owners: Vec::new(),
        };
        proof {
            assert(r.owners.deep_view() =~= Seq::<Seq<char>>::empty());
        }
        r
    }

    pub fn set_namespace(self, namespace: String) -> (r: Self)
        ensures
            r@ == (CreateNamespaceRegistryActionBuilderV { namespace: Some(namespace@), ..self@ }),
    {
        CreateNamespaceRegistryActionBuilder { namespace: Some(namespace), ..self }
    }

    pub fn set_owners(self, owners: Vec<String>) -> (r: Self)
        ensures
            r@ == (CreateNamespaceRegistryActionBuilderV { owners: owners.deep_view(), ..self@ }),
    {
        CreateNamespaceRegistryActionBuilder { owners, ..self }
    }

    pub fn build(self) -> (r: Result<CreateNamespaceRegistryAction, CreateNamespaceRegistryActionBuildError>)
        ensures
            match r {
                Ok(v) => create_namespace_registry_action_build_spec(self@) matches Ok(vv) && v@ == vv,
                Err(e) => create_namespace_registry_action_build_spec(self@) matches Err(m) && e@
                    == CreateNamespaceRegistryActionBuildErrorV::MissingField(m),
            },
    {
        let namespace = match self.namespace {
            Some(v) => v,
            None => {
                return Err(
                    CreateNamespaceRegistryActionBuildError::MissingField(
                        String::from_str("'namespace' field is required"),
                    ),
                );
            },
        };
        if self.owners.is_empty() {
            return Err(
                CreateNamespaceRegistryActionBuildError::MissingField(String::from_str("'owners' field is required")),
            );
        }
        let owners = self.owners;
        Ok(CreateNamespaceRegistryAction { namespace, owners })
    }
}

// ---------------------------------------------------------------------------
// DeleteNamespaceRegistryAction
// ---------------------------------------------------------------------------
/// View of a [`DeleteNamespaceRegistryAction`].
pub ghost struct DeleteNamespaceRegistryActionV {
    pub namespace: Seq<char>,
}

/// Removes the registry of a namespace.
#[derive(Debug, PartialEq)]
pub struct DeleteNamespaceRegistryAction {
    namespace: String,
}

impl View for DeleteNamespaceRegistryAction {
    type V = DeleteNamespaceRegistryActionV;

    closed spec fn view(&self) -> DeleteNamespaceRegistryActionV {
        DeleteNamespaceRegistryActionV {
            namespace: self.namespace@,
        }
    }
}

impl DeepView for DeleteNamespaceRegistryAction {
    type V = DeleteNamespaceRegistryActionV;

    open spec fn deep_view(&self) -> DeleteNamespaceRegistryActionV {
        self.view()
    }
}

impl DeleteNamespaceRegistryAction {
    pub fn get_namespace(&self) -> (r: &str)
        ensures
            r@ == self@.namespace,
    {
        self.namespace.as_str()
    }
}

/// View of a [`DeleteNamespaceRegistryActionBuildError`].
pub ghost enum DeleteNamespaceRegistryActionBuildErrorV {
    MissingField(Seq<char>),
}

/// Error returned when a [`DeleteNamespaceRegistryActionBuilder`] misses a required field.
#[derive(Debug, Clone, PartialEq)]
pub enum DeleteNamespaceRegistryActionBuildError {
    MissingField(String),
}

impl View for DeleteNamespaceRegistryActionBuildError {
    type V = DeleteNamespaceRegistryActionBuildErrorV;

    open spec fn view(&self) -> DeleteNamespaceRegistryActionBuildErrorV {
        match self {
            DeleteNamespaceRegistryActionBuildError::MissingField(m) => DeleteNamespaceRegistryActionBuildErrorV::MissingField(m@),
        }
    }
}

/// View of a [`DeleteNamespaceRegistryActionBuilder`].
pub ghost struct DeleteNamespaceRegistryActionBuilderV {
    pub namespace: Option<Seq<char>>,
}

/// What [`DeleteNamespaceRegistryActionBuilder::build`] returns: the built view, or the message of
/// the first missing field.
pub open spec fn delete_namespace_registry_action_build_spec(b: DeleteNamespaceRegistryActionBuilderV) -> Result<DeleteNamespaceRegistryActionV, Seq<char>> {
    if b.namespace is None {
        Err("'namespace' field is required"@)
    } else {
        Ok(
            DeleteNamespaceRegistryActionV {
                namespace: b.namespace.unwrap(),
            },
        )
    }
}

/// Builder used to create a [`DeleteNamespaceRegistryAction`].
pub struct DeleteNamespaceRegistryActionBuilder {
    namespace: Option<String>,
}

impl View for DeleteNamespaceRegistryActionBuilder {
    type V = DeleteNamespaceRegistryActionBuilderV;

    closed spec fn view(&self) -> DeleteNamespaceRegistryActionBuilderV {
        DeleteNamespaceRegistryActionBuilderV {
            namespace: match self.namespace {
                Some(s) => Some(s@),
                None => None,
            },
        }
    }
}

impl DeleteNamespaceRegistryActionBuilder {
    pub fn new() -> (r: Self)
        ensures
            r@ == (DeleteNamespaceRegistryActionBuilderV {
                namespace: None,
            }),
    {
        let r = DeleteNamespaceRegistryActionBuilder {
            namespace: None,
        };
        r
    }

    pub fn set_namespace(self, namespace: String) -> (r: Self)
        ensures
            r@ == (DeleteNamespaceRegistryActionBuilderV { namespace: Some(namespace@), ..self@ }),
    {
        DeleteNamespaceRegistryActionBuilder { namespace: Some(namespace), ..self }
    }

    pub fn build(self) -> (r: Result<DeleteNamespaceRegistryAction, DeleteNamespaceRegistryActionBuildError>)
        ensures
            match r {
                Ok(v) => delete_namespace_registry_action_build_spec(self@) matches Ok(vv) && v@ == vv,
                Err(e) => delete_namespace_registry_action_build_spec(self@) matches Err(m) && e@
                    == DeleteNamespaceRegistryActionBuildErrorV::MissingField(m),
            },
    {
        let namespace = match self.namespace {
            Some(v) => v,
            None => {
                return Err(
                    DeleteNamespaceRegistryActionBuildError::MissingField(
                        String::from_str("'namespace' field is required"),
                    ),
                );
            },
        };
        Ok(DeleteNamespaceRegistryAction { namespace })
    }
}

// ---------------------------------------------------------------------------
// UpdateNamespaceRegistryOwnersAction
// ---------------------------------------------------------------------------
/// View of a [`UpdateNamespaceRegistryOwnersAction`].
pub ghost struct UpdateNamespaceRegistryOwnersActionV {
    pub namespace: Seq<char>,
    pub owners: Seq<Seq<char>>,
}

/// Replaces a namespace registry's owners.
#[derive(Debug, PartialEq)]
pub struct UpdateNamespaceRegistryOwnersAction {
    namespace: String,
    owners: Vec<String>,
}

impl View for UpdateNamespaceRegistryOwnersAction {
    type V = UpdateNamespaceRegistryOwnersActionV;

    closed spec fn view(&self) -> UpdateNamespaceRegistryOwnersActionV {
        UpdateNamespaceRegistryOwnersActionV {
            namespace: self.namespace@,
            owners: self.owners.deep_view(),
        }
    }
}

impl DeepView for UpdateNamespaceRegistryOwnersAction {
    type V = UpdateNamespaceRegistryOwnersActionV;

    open spec fn deep_view(&self) -> UpdateNamespaceRegistryOwnersActionV {
        self.view()
    }
}

impl UpdateNamespaceRegistryOwnersAction {
    pub fn get_namespace(&self) -> (r: &str)
        ensures
            r@ == self@.namespace,
    {
        self.namespace.as_str()
    }

    pub fn get_owners(&self) -> (r: &[String])
        ensures
            r.deep_view() == self@.owners,
    {
        let r = self.owners.as_slice();
        proof {
            assert(r.deep_view() =~= self.owners.deep_view());
        }
        r
    }
}

/// View of a [`UpdateNamespaceRegistryOwnersActionBuildError`].
pub ghost enum UpdateNamespaceRegistryOwnersActionBuildErrorV {
    MissingField(Seq<char>),
}

/// Error returned when a [`UpdateNamespaceRegistryOwnersActionBuilder`] misses a required field.
#[derive(Debug, Clone, PartialEq)]
pub enum UpdateNamespaceRegistryOwnersActionBuildError {
    MissingField(String),
}

impl View for UpdateNamespaceRegistryOwnersActionBuildError {
    type V = UpdateNamespaceRegistryOwnersActionBuildErrorV;

    open spec fn view(&self) -> UpdateNamespaceRegistryOwnersActionBuildErrorV {
        match self {
            UpdateNamespaceRegistryOwnersActionBuildError::MissingField(m) => UpdateNamespaceRegistryOwnersActionBuildErrorV::MissingField(m@),
        }
    }
}

/// View of a [`UpdateNamespaceRegistryOwnersActionBuilder`].
pub ghost struct UpdateNamespaceRegistryOwnersActionBuilderV {
    pub namespace: Option<Seq<char>>,
    pub owners: Seq<Seq<char>>,
}

/// What [`UpdateNamespaceRegistryOwnersActionBuilder::build`] returns: the built view, or the message of
/// the first missing field.
pub open spec fn update_namespace_registry_owners_action_build_spec(b: UpdateNamespaceRegistryOwnersActionBuilderV) -> Result<UpdateNamespaceRegistryOwnersActionV, Seq<char>> {
    if b.namespace is None {
        Err("'namespace' field is required"@)
    } else if b.owners.len() == 0 {
        Err("'owners' field is required"@)
    } else {
        Ok(
            UpdateNamespaceRegistryOwnersActionV {
                namespace: b.namespace.unwrap(),
                owners: b.owners,
            },
        )
    }
}

/// Builder used to create a [`UpdateNamespaceRegistryOwnersAction`].
pub struct UpdateNamespaceRegistryOwnersActionBuilder {
    namespace: Option<String>,
    owners: Vec<String>,
}

impl View for UpdateNamespaceRegistryOwnersActionBuilder {
    type V = UpdateNamespaceRegistryOwnersActionBuilderV;

    closed spec fn view(&self) -> UpdateNamespaceRegistryOwnersActionBuilderV {
        UpdateNamespaceRegistryOwnersActionBuilderV {
            namespace: match self.namespace {
                Some(s) => Some(s@),
                None => None,
            },
            owners: self.owners.deep_view(),
        }
    }
}

impl UpdateNamespaceRegistryOwnersActionBuilder {
    pub fn new() -> (r: Self)
        ensures
            r@ == (UpdateNamespaceRegistryOwnersActionBuilderV {
                namespace: None,
                owners: Seq::empty(),
            }),
    {
        let r = UpdateNamespaceRegistryOwnersActionBuilder {
            namespace: None,
            owners: Vec::new(),
        };
        proof {
            assert(r.owners.deep_view() =~= Seq::<Seq<char>>::empty());
        }
        r
    }

    pub fn set_namespace(self, namespace: String) -> (r: Self)
        ensures
            r@ == (UpdateNamespaceRegistryOwnersActionBuilderV { namespace: Some(namespace@), ..self@ }),
    {
        UpdateNamespaceRegistryOwnersActionBuilder { namespace: Some(namespace), ..self }
    }

    pub fn set_owners(self, owners: Vec<String>) -> (r: Self)
        ensures
            r@ == (UpdateNamespaceRegistryOwnersActionBuilderV { owners: owners.deep_view(), ..self@ }),
    {
        UpdateNamespaceRegistryOwnersActionBuilder { owners, ..self }
    }

    pub fn build(self) -> (r: Result<UpdateNamespaceRegistryOwnersAction, UpdateNamespaceRegistryOwnersActionBuildError>)
        ensures
            match r {
                Ok(v) => update_namespace_registry_owners_action_build_spec(self@) matches Ok(vv) && v@ == vv,
                Err(e) => update_namespace_registry_owners_action_build_spec(self@) matches Err(m) && e@
                    == UpdateNamespaceRegistryOwnersActionBuildErrorV::MissingField(m),
            },
    {
        let namespace = match self.namespace {
            Some(v) => v,
            None => {
                return Err(
                    UpdateNamespaceRegistryOwnersActionBuildError::MissingField(
                        String::from_str("'namespace' field is required"),
                    ),
                );
            },
        };
        if self.owners.is_empty() {
            return Err(
                UpdateNamespaceRegistryOwnersActionBuildError::MissingField(String::from_str("'owners' field is required")),
            );
        }
        let owners = self.owners;
        Ok(UpdateNamespaceRegistryOwnersAction { namespace, owners })
    }
}

// ---------------------------------------------------------------------------
// CreateNamespaceRegistryPermissionAction
// ---------------------------------------------------------------------------
/// View of a [`CreateNamespaceRegistryPermissionAction`].
pub ghost struct CreateNamespaceRegistryPermissionActionV {
    pub namespace: Seq<char>,
    pub contract_name: Seq<char>,
    pub read: bool,
    pub write: bool,
}

/// Grants a contract permission over a namespace, replacing any
/// previous permission for the same contract.
#[derive(Debug, PartialEq)]
pub struct CreateNamespaceRegistryPermissionAction {
    namespace: String,
    contract_name: String,
    read: bool,
    write: bool,
}

impl View for CreateNamespaceRegistryPermissionAction {
    type V = CreateNamespaceRegistryPermissionActionV;

    closed spec fn view(&self) -> CreateNamespaceRegistryPermissionActionV {
        CreateNamespaceRegistryPermissionActionV {
            namespace: self.namespace@,
            contract_name: self.contract_name@,
            read: self.read,
            write: self.write,
        }
    }
}

impl DeepView for CreateNamespaceRegistryPermissionAction {
    type V = CreateNamespaceRegistryPermissionActionV;

    open spec fn deep_view(&self) -> CreateNamespaceRegistryPermissionActionV {
        self.view()
    }
}

impl CreateNamespaceRegistryPermissionAction {
    pub fn get_namespace(&self) -> (r: &str)
        ensures
            r@ == self@.namespace,
    {
        self.namespace.as_str()
    }

    pub fn get_contract_name(&self) -> (r: &str)
        ensures
            r@ == self@.contract_name,
    {
        self.contract_name.as_str()
    }

    pub fn get_read(&self) -> (r: bool)
        ensures
            r == self@.read,
    {
        self.read
    }

    pub fn get_write(&self) -> (r: bool)
        ensures
            r == self@.write,
    {
        self.write
    }
}

/// View of a [`CreateNamespaceRegistryPermissionActionBuildError`].
pub ghost enum CreateNamespaceRegistryPermissionActionBuildErrorV {
    MissingField(Seq<char>),
}

/// Error returned when a [`CreateNamespaceRegistryPermissionActionBuilder`] misses a required field.
#[derive(Debug, Clone, PartialEq)]
pub enum CreateNamespaceRegistryPermissionActionBuildError {
    MissingField(String),
}

impl View for CreateNamespaceRegistryPermissionActionBuildError {
    type V = CreateNamespaceRegistryPermissionActionBuildErrorV;

    open spec fn view(&self) -> CreateNamespaceRegistryPermissionActionBuildErrorV {
        match self {
            CreateNamespaceRegistryPermissionActionBuildError::MissingField(m) => CreateNamespaceRegistryPermissionActionBuildErrorV::MissingField(m@),
        }
    }
}

/// View of a [`CreateNamespaceRegistryPermissionActionBuilder`].
pub ghost struct CreateNamespaceRegistryPermissionActionBuilderV {
    pub namespace: Option<Seq<char>>,
    pub contract_name: Option<Seq<char>>,
    pub read: Option<bool>,
    pub write: Option<bool>,
}

/// What [`CreateNamespaceRegistryPermissionActionBuilder::build`] returns: the built view, or the message of
/// the first missing field.
pub open spec fn create_namespace_registry_permission_action_build_spec(b: CreateNamespaceRegistryPermissionActionBuilderV) -> Result<CreateNamespaceRegistryPermissionActionV, Seq<char>> {
    if b.namespace is None {
        Err("'namespace' field is required"@)
    } else if b.contract_name is None {
        Err("'contract_name' field is required"@)
    } else {
        Ok(
            CreateNamespaceRegistryPermissionActionV {
                namespace: b.namespace.unwrap(),
                contract_name: b.contract_name.unwrap(),
                read: if b.read is Some {
                    b.read.unwrap()
                } else {
                    false
                },
                write: if b.write is Some {
                    b.write.unwrap()
                } else {
                    false
                },
            },
        )
    }
}

/// Builder used to create a [`CreateNamespaceRegistryPermissionAction`].
pub struct CreateNamespaceRegistryPermissionActionBuilder {
    namespace: Option<String>,
    contract_name: Option<String>,
    read: Option<bool>,
    write: Option<bool>,
}

impl View for CreateNamespaceRegistryPermissionActionBuilder {
    type V = CreateNamespaceRegistryPermissionActionBuilderV;

    closed spec fn view(&self) -> CreateNamespaceRegistryPermissionActionBuilderV {
        CreateNamespaceRegistryPermissionActionBuilderV {
            namespace: match self.namespace {
                Some(s) => Some(s@),
                None => None,
            },
            contract_name: match self.contract_name {
                Some(s) => Some(s@),
                None => None,
            },
            read: self.read,
            write: self.write,
        }
    }
}

impl CreateNamespaceRegistryPermissionActionBuilder {
    pub fn new() -> (r: Self)
        ensures
            r@ == (CreateNamespaceRegistryPermissionActionBuilderV {
                namespace: None,
                contract_name: None,
                read: None,
                write: None,
            }),
    {
        let r = CreateNamespaceRegistryPermissionActionBuilder {
            namespace: None,
            contract_name: None,
            read: None,
            write: None,
        };
        r
    }

    pub fn set_namespace(self, namespace: String) -> (r: Self)
        ensures
            r@ == (CreateNamespaceRegistryPermissionActionBuilderV { namespace: Some(namespace@), ..self@ }),
    {
        CreateNamespaceRegistryPermissionActionBuilder { namespace: Some(namespace), ..self }
    }

    pub fn set_contract_name(self, contract_name: String) -> (r: Self)
        ensures
            r@ == (CreateNamespaceRegistryPermissionActionBuilderV { contract_name: Some(contract_name@), ..self@ }),
    {
        CreateNamespaceRegistryPermissionActionBuilder { contract_name: Some(contract_name), ..self }
    }

    pub fn set_read(self, read: bool) -> (r: Self)
        ensures
            r@ == (CreateNamespaceRegistryPermissionActionBuilderV { read: Some(read@), ..self@ }),
    {
        CreateNamespaceRegistryPermissionActionBuilder { read: Some(read), ..self }
    }

    pub fn set_write(self, write: bool) -> (r: Self)
        ensures
            r@ == (CreateNamespaceRegistryPermissionActionBuilderV { write: Some(write@), ..self@ }),
    {
        CreateNamespaceRegistryPermissionActionBuilder { write: Some(write), ..self }
    }

    pub fn build(self) -> (r: Result<CreateNamespaceRegistryPermissionAction, CreateNamespaceRegistryPermissionActionBuildError>)
        ensures
            match r {
                Ok(v) => create_namespace_registry_permission_action_build_spec(self@) matches Ok(vv) && v@ == vv,
                Err(e) => create_namespace_registry_permission_action_build_spec(self@) matches Err(m) && e@
                    == CreateNamespaceRegistryPermissionActionBuildErrorV::MissingField(m),
            },
    {
        let namespace = match self.namespace {
            Some(v) => v,
            None => {
                return Err(
                    CreateNamespaceRegistryPermissionActionBuildError::MissingField(
                        String::from_str("'namespace' field is required"),
                    ),
                );
            },
        };
        let contract_name = match self.contract_name {
            Some(v) => v,
            None => {
                return Err(
                    CreateNamespaceRegistryPermissionActionBuildError::MissingField(
                        String::from_str("'contract_name' field is required"),
                    ),
                );
            },
        };
        let read = match self.read {
            Some(v) => v,
            None => false,
        };
        let write = match self.write {
            Some(v) => v,
            None => false,
        };
        Ok(CreateNamespaceRegistryPermissionAction { namespace, contract_name, read, write })
    }
}

// ---------------------------------------------------------------------------
// DeleteNamespaceRegistryPermissionAction
// ---------------------------------------------------------------------------
/// View of a [`DeleteNamespaceRegistryPermissionAction`].
pub ghost struct DeleteNamespaceRegistryPermissionActionV {
    pub namespace: Seq<char>,
    pub contract_name: Seq<char>,
}

/// Withdraws a contract's permission over a namespace.
#[derive(Debug, PartialEq)]
pub struct DeleteNamespaceRegistryPermissionAction {
    namespace: String,
    contract_name: String,
}

impl View for DeleteNamespaceRegistryPermissionAction {
    type V = DeleteNamespaceRegistryPermissionActionV;

    closed spec fn view(&self) -> DeleteNamespaceRegistryPermissionActionV {
        DeleteNamespaceRegistryPermissionActionV {
            namespace: self.namespace@,
            contract_name: self.contract_name@,
        }
    }
}

impl DeepView for DeleteNamespaceRegistryPermissionAction {
    type V = DeleteNamespaceRegistryPermissionActionV;

    open spec fn deep_view(&self) -> DeleteNamespaceRegistryPermissionActionV {
        self.view()
    }
}

impl DeleteNamespaceRegistryPermissionAction {
    pub fn get_namespace(&self) -> (r: &str)
        ensures
            r@ == self@.namespace,
    {
        self.namespace.as_str()
    }

    pub fn get_contract_name(&self) -> (r: &str)
        ensures
            r@ == self@.contract_name,
    {
        self.contract_name.as_str()
    }
}

/// View of a [`DeleteNamespaceRegistryPermissionActionBuildError`].
pub ghost enum DeleteNamespaceRegistryPermissionActionBuildErrorV {
    MissingField(Seq<char>),
}

/// Error returned when a [`DeleteNamespaceRegistryPermissionActionBuilder`] misses a required field.
#[derive(Debug, Clone, PartialEq)]
pub enum DeleteNamespaceRegistryPermissionActionBuildError {
    MissingField(String),
}

impl View for DeleteNamespaceRegistryPermissionActionBuildError {
    type V = DeleteNamespaceRegistryPermissionActionBuildErrorV;

    open spec fn view(&self) -> DeleteNamespaceRegistryPermissionActionBuildErrorV {
        match self {
            DeleteNamespaceRegistryPermissionActionBuildError::MissingField(m) => DeleteNamespaceRegistryPermissionActionBuildErrorV::MissingField(m@),
        }
    }
}

/// View of a [`DeleteNamespaceRegistryPermissionActionBuilder`].
pub ghost struct DeleteNamespaceRegistryPermissionActionBuilderV {
    pub namespace: Option<Seq<char>>,
    pub contract_name: Option<Seq<char>>,
}

/// What [`DeleteNamespaceRegistryPermissionActionBuilder::build`] returns: the built view, or the message of
/// the first missing field.
pub open spec fn delete_namespace_registry_permission_action_build_spec(b: DeleteNamespaceRegistryPermissionActionBuilderV) -> Result<DeleteNamespaceRegistryPermissionActionV, Seq<char>> {
    if b.namespace is None {
        Err("'namespace' field is required"@)
    } else if b.contract_name is None {
        Err("'contract_name' field is required"@)
    } else {
        Ok(
            DeleteNamespaceRegistryPermissionActionV {
                namespace: b.namespace.unwrap(),
                contract_name: b.contract_name.unwrap(),
            },
        )
    }
}

/// Builder used to create a [`DeleteNamespaceRegistryPermissionAction`].
pub struct DeleteNamespaceRegistryPermissionActionBuilder {
    namespace: Option<String>,
    contract_name: Option<String>,
}

impl View for DeleteNamespaceRegistryPermissionActionBuilder {
    type V = DeleteNamespaceRegistryPermissionActionBuilderV;

    closed spec fn view(&self) -> DeleteNamespaceRegistryPermissionActionBuilderV {
        DeleteNamespaceRegistryPermissionActionBuilderV {
            namespace: match self.namespace {
                Some(s) => Some(s@),
                None => None,
            },
            contract_name: match self.contract_name {
                Some(s) => Some(s@),
                None => None,
            },
        }
    }
}

impl DeleteNamespaceRegistryPermissionActionBuilder {
    pub fn new() -> (r: Self)
        ensures
            r@ == (DeleteNamespaceRegistryPermissionActionBuilderV {
                namespace: None,
                contract_name: None,
            }),
    {
        let r = DeleteNamespaceRegistryPermissionActionBuilder {
            namespace: None,
            contract_name: None,
        };
        r
    }

    pub fn set_namespace(self, namespace: String) -> (r: Self)
        ensures
            r@ == (DeleteNamespaceRegistryPermissionActionBuilderV { namespace: Some(namespace@), ..self@ }),
    {
        DeleteNamespaceRegistryPermissionActionBuilder { namespace: Some(namespace), ..self }
    }

    pub fn set_contract_name(self, contract_name: String) -> (r: Self)
        ensures
            r@ == (DeleteNamespaceRegistryPermissionActionBuilderV { contract_name: Some(contract_name@), ..self@ }),
    {
        DeleteNamespaceRegistryPermissionActionBuilder { contract_name: Some(contract_name), ..self }
    }

    pub fn build(self) -> (r: Result<DeleteNamespaceRegistryPermissionAction, DeleteNamespaceRegistryPermissionActionBuildError>)
        ensures
            match r {
                Ok(v) => delete_namespace_registry_permission_action_build_spec(self@) matches Ok(vv) && v@ == vv,
                Err(e) => delete_namespace_registry_permission_action_build_spec(self@) matches Err(m) && e@
                    == DeleteNamespaceRegistryPermissionActionBuildErrorV::MissingField(m),
            },
    {
        let namespace = match self.namespace {
            Some(v) => v,
            None => {
                return Err(
                    DeleteNamespaceRegistryPermissionActionBuildError::MissingField(
                        String::from_str("'namespace' field is required"),
                    ),
                );
            },
        };
        let contract_name = match self.contract_name {
            Some(v) => v,
            None => {
                return Err(
                    DeleteNamespaceRegistryPermissionActionBuildError::MissingField(
                        String::from_str("'contract_name' field is required"),
                    ),
                );
            },
        };
        Ok(DeleteNamespaceRegistryPermissionAction { namespace, contract_name })
    }
}

// ---------------------------------------------------------------------------
// CreateSmartPermissionAction
// ---------------------------------------------------------------------------
/// View of a [`CreateSmartPermissionAction`].
pub ghost struct CreateSmartPermissionActionV {
    pub name: Seq<char>,
    pub org_id: Seq<char>,
    pub function: Seq<u8>,
}

/// Stores a smart permission for an organization.
#[derive(Debug, PartialEq)]
pub struct CreateSmartPermissionAction {
    name: String,
    org_id: String,
    function: Vec<u8>,
}

impl View for CreateSmartPermissionAction {
    type V = CreateSmartPermissionActionV;

    closed spec fn view(&self) -> CreateSmartPermissionActionV {
        CreateSmartPermissionActionV {
            name: self.name@,
            org_id: self.org_id@,
            function: self.function@,
        }
    }
}

impl DeepView for CreateSmartPermissionAction {
    type V = CreateSmartPermissionActionV;

    open spec fn deep_view(&self) -> CreateSmartPermissionActionV {
        self.view()
    }
}

impl CreateSmartPermissionAction {
    pub fn get_name(&self) -> (r: &str)
        ensures
            r@ == self@.name,
    {
        self.name.as_str()
    }

    pub fn get_org_id(&self) -> (r: &str)
        ensures
            r@ == self@.org_id,
    {
        self.org_id.as_str()
    }

    pub fn get_function(&self) -> (r: &[u8])
        ensures
            r@ == self@.function,
    {
        self.function.as_slice()
    }
}

/// View of a [`CreateSmartPermissionActionBuildError`].
pub ghost enum CreateSmartPermissionActionBuildErrorV {
    MissingField(Seq<char>),
}

/// Error returned when a [`CreateSmartPermissionActionBuilder`] misses a required field.
#[derive(Debug, Clone, PartialEq)]
pub enum CreateSmartPermissionActionBuildError {
    MissingField(String),
}

impl View for CreateSmartPermissionActionBuildError {
    type V = CreateSmartPermissionActionBuildErrorV;

    open spec fn view(&self) -> CreateSmartPermissionActionBuildErrorV {
        match self {
            CreateSmartPermissionActionBuildError::MissingField(m) => CreateSmartPermissionActionBuildErrorV::MissingField(m@),
        }
    }
}

/// View of a [`CreateSmartPermissionActionBuilder`].
pub ghost struct CreateSmartPermissionActionBuilderV {
    pub name: Option<Seq<char>>,
    pub org_id: Option<Seq<char>>,
    pub function: Seq<u8>,
}

/// What [`CreateSmartPermissionActionBuilder::build`] returns: the built view, or the message of
/// the first missing field.
pub open spec fn create_smart_permission_action_build_spec(b: CreateSmartPermissionActionBuilderV) -> Result<CreateSmartPermissionActionV, Seq<char>> {
    if b.name is None {
        Err("'name' field is required"@)
    } else if b.org_id is None {
        Err("'org_id' field is required"@)
    } else if b.function.len() == 0 {
        Err("'function' field is required"@)
    } else {
        Ok(
            CreateSmartPermissionActionV {
                name: b.name.unwrap(),
                org_id: b.org_id.unwrap(),
                function: b.function,
            },
        )
    }
}

/// Builder used to create a [`CreateSmartPermissionAction`].
pub struct CreateSmartPermissionActionBuilder {
    name: Option<String>,
    org_id: Option<String>,
    function: Vec<u8>,
}

impl View for CreateSmartPermissionActionBuilder {
    type V = CreateSmartPermissionActionBuilderV;

    closed spec fn view(&self) -> CreateSmartPermissionActionBuilderV {
        CreateSmartPermissionActionBuilderV {
            name: match self.name {
                Some(s) => Some(s@),
                None => None,
            },
            org_id: match self.org_id {
                Some(s) => Some(s@),
                None => None,
            },
            function: self.function@,
        }
    }
}

impl CreateSmartPermissionActionBuilder {
    pub fn new() -> (r: Self)
        ensures
            r@ == (CreateSmartPermissionActionBuilderV {
                name: None,
                org_id: None,
                function: Seq::empty(),
            }),
    {
        let r = CreateSmartPermissionActionBuilder {
            name: None,
            org_id: None,
            function: Vec::new(),
        };
        proof {
            assert(r.function@ =~= Seq::<u8>::empty());
        }
        r
    }

    pub fn set_name(self, name: String) -> (r: Self)
        ensures
            r@ == (CreateSmartPermissionActionBuilderV { name: Some(name@), ..self@ }),
    {
        CreateSmartPermissionActionBuilder { name: Some(name), ..self }
    }

    pub fn set_org_id(self, org_id: String) -> (r: Self)
        ensures
            r@ == (CreateSmartPermissionActionBuilderV { org_id: Some(org_id@), ..self@ }),
    {
        CreateSmartPermissionActionBuilder { org_id: Some(org_id), ..self }
    }

    pub fn set_function(self, function: Vec<u8>) -> (r: Self)
        ensures
            r@ == (CreateSmartPermissionActionBuilderV { function: function@, ..self@ }),
    {
        CreateSmartPermissionActionBuilder { function, ..self }
    }

    pub fn build(self) -> (r: Result<CreateSmartPermissionAction, CreateSmartPermissionActionBuildError>)
        ensures
            match r {
                Ok(v) => create_smart_permission_action_build_spec(self@) matches Ok(vv) && v@ == vv,
                Err(e) => create_smart_permission_action_build_spec(self@) matches Err(m) && e@
                    == CreateSmartPermissionActionBuildErrorV::MissingField(m),
            },
    {
        let name = match self.name {
            Some(v) => v,
            None => {
                return Err(
                    CreateSmartPermissionActionBuildError::MissingField(
                        String::from_str("'name' field is required"),
                    ),
                );
            },
        };
        let org_id = match self.org_id {
            Some(v) => v,
            None => {
                return Err(
                    CreateSmartPermissionActionBuildError::MissingField(
                        String::from_str("'org_id' field is required"),
                    ),
                );
            },
        };
        if self.function.is_empty() {
            return Err(
                CreateSmartPermissionActionBuildError::MissingField(String::from_str("'function' field is required")),
            );
        }
        let function = self.function;
        Ok(CreateSmartPermissionAction { name, org_id, function })
    }
}

// ---------------------------------------------------------------------------
// UpdateSmartPermissionAction
// ---------------------------------------------------------------------------
/// View of a [`UpdateSmartPermissionAction`].
pub ghost struct UpdateSmartPermissionActionV {
    pub name: Seq<char>,
    pub org_id: Seq<char>,
    pub function: Seq<u8>,
}

/// Replaces a smart permission's function bytes.
#[derive(Debug, PartialEq)]
pub struct UpdateSmartPermissionAction {
    name: String,
    org_id: String,
    function: Vec<u8>,
}

impl View for UpdateSmartPermissionAction {
    type V = UpdateSmartPermissionActionV;

    closed spec fn view(&self) -> UpdateSmartPermissionActionV {
        UpdateSmartPermissionActionV {
            name: self.name@,
            org_id: self.org_id@,
            function: self.function@,
        }
    }
}

impl DeepView for UpdateSmartPermissionAction {
    type V = UpdateSmartPermissionActionV;

    open spec fn deep_view(&self) -> UpdateSmartPermissionActionV {
        self.view()
    }
}

impl UpdateSmartPermissionAction {
    pub fn get_name(&self) -> (r: &str)
        ensures
            r@ == self@.name,
    {
        self.name.as_str()
    }

    pub fn get_org_id(&self) -> (r: &str)
        ensures
            r@ == self@.org_id,
    {
        self.org_id.as_str()
    }

    pub fn get_function(&self) -> (r: &[u8])
        ensures
            r@ == self@.function,
    {
        self.function.as_slice()
    }
}

/// View of a [`UpdateSmartPermissionActionBuildError`].
pub ghost enum UpdateSmartPermissionActionBuildErrorV {
    MissingField(Seq<char>),
}

/// Error returned when a [`UpdateSmartPermissionActionBuilder`] misses a required field.
#[derive(Debug, Clone, PartialEq)]
pub enum UpdateSmartPermissionActionBuildError {
    MissingField(String),
}

impl View for UpdateSmartPermissionActionBuildError {
    type V = UpdateSmartPermissionActionBuildErrorV;

    open spec fn view(&self) -> UpdateSmartPermissionActionBuildErrorV {
        match self {
            UpdateSmartPermissionActionBuildError::MissingField(m) => UpdateSmartPermissionActionBuildErrorV::MissingField(m@),
        }
    }
}

/// View of a [`UpdateSmartPermissionActionBuilder`].
pub ghost struct UpdateSmartPermissionActionBuilderV {
    pub name: Option<Seq<char>>,
    pub org_id: Option<Seq<char>>,
    pub function: Seq<u8>,
}

/// What [`UpdateSmartPermissionActionBuilder::build`] returns: the built view, or the message of
/// the first missing field.
pub open spec fn update_smart_permission_action_build_spec(b: UpdateSmartPermissionActionBuilderV) -> Result<UpdateSmartPermissionActionV, Seq<char>> {
    if b.name is None {
        Err("'name' field is required"@)
    } else if b.org_id is None {
        Err("'org_id' field is required"@)
    } else if b.function.len() == 0 {
        Err("'function' field is required"@)
    } else {
        Ok(
            UpdateSmartPermissionActionV {
                name: b.name.unwrap(),
                org_id: b.org_id.unwrap(),
                function: b.function,
            },
        )
    }
}

/// Builder used to create a [`UpdateSmartPermissionAction`].
pub struct UpdateSmartPermissionActionBuilder {
    name: Option<String>,
    org_id: Option<String>,
    function: Vec<u8>,
}

impl View for UpdateSmartPermissionActionBuilder {
    type V = UpdateSmartPermissionActionBuilderV;

    closed spec fn view(&self) -> UpdateSmartPermissionActionBuilderV {
        UpdateSmartPermissionActionBuilderV {
            name: match self.name {
                Some(s) => Some(s@),
                None => None,
            },
            org_id: match self.org_id {
                Some(s) => Some(s@),
                None => None,
            },
            function: self.function@,
        }
    }
}

impl UpdateSmartPermissionActionBuilder {
    pub fn new() -> (r: Self)
        ensures
            r@ == (UpdateSmartPermissionActionBuilderV {
                name: None,
                org_id: None,
                function: Seq::empty(),
            }),
    {
        let r = UpdateSmartPermissionActionBuilder {
            name: None,
            org_id: None,
            function: Vec::new(),
        };
        proof {
            assert(r.function@ =~= Seq::<u8>::empty());
        }
        r
    }

    pub fn set_name(self, name: String) -> (r: Self)
        ensures
            r@ == (UpdateSmartPermissionActionBuilderV { name: Some(name@), ..self@ }),
    {
        UpdateSmartPermissionActionBuilder { name: Some(name), ..self }
    }

    pub fn set_org_id(self, org_id: String) -> (r: Self)
        ensures
            r@ == (UpdateSmartPermissionActionBuilderV { org_id: Some(org_id@), ..self@ }),
    {
        UpdateSmartPermissionActionBuilder { org_id: Some(org_id), ..self }
    }

    pub fn set_function(self, function: Vec<u8>) -> (r: Self)
        ensures
            r@ == (UpdateSmartPermissionActionBuilderV { function: function@, ..self@ }),
    {
        UpdateSmartPermissionActionBuilder { function, ..self }
    }

    pub fn build(self) -> (r: Result<UpdateSmartPermissionAction, UpdateSmartPermissionActionBuildError>)
        ensures
            match r {
                Ok(v) => update_smart_permission_action_build_spec(self@) matches Ok(vv) && v@ == vv,
                Err(e) => update_smart_permission_action_build_spec(self@) matches Err(m) && e@
                    == UpdateSmartPermissionActionBuildErrorV::MissingField(m),
            },
    {
        let name = match self.name {
            Some(v) => v,
            None => {
                return Err(
                    UpdateSmartPermissionActionBuildError::MissingField(
                        String::from_str("'name' field is required"),
                    ),
                );
            },
        };
        let org_id = match self.org_id {
            Some(v) => v,
            None => {
                return Err(
                    UpdateSmartPermissionActionBuildError::MissingField(
                        String::from_str("'org_id' field is required"),
                    ),
                );
            },
        };
        if self.function.is_empty() {
            return Err(
                UpdateSmartPermissionActionBuildError::MissingField(String::from_str("'function' field is required")),
            );
        }
        let function = self.function;
        Ok(UpdateSmartPermissionAction { name, org_id, function })
    }
}

// ---------------------------------------------------------------------------
// DeleteSmartPermissionAction
// ---------------------------------------------------------------------------
/// View of a [`DeleteSmartPermissionAction`].
pub ghost struct DeleteSmartPermissionActionV {
    pub name: Seq<char>,
    pub org_id: Seq<char>,
}

/// Removes a smart permission.
#[derive(Debug, PartialEq)]
pub struct DeleteSmartPermissionAction {
    name: String,
    org_id: String,
}

impl View for DeleteSmartPermissionAction {
    type V = DeleteSmartPermissionActionV;

    closed spec fn view(&self) -> DeleteSmartPermissionActionV {
        DeleteSmartPermissionActionV {
            name: self.name@,
            org_id: self.org_id@,
        }
    }
}

impl DeepView for DeleteSmartPermissionAction {
    type V = DeleteSmartPermissionActionV;

    open spec fn deep_view(&self) -> DeleteSmartPermissionActionV {
        self.view()
    }
}

impl DeleteSmartPermissionAction {
    pub fn get_name(&self) -> (r: &str)
        ensures
            r@ == self@.name,
    {
        self.name.as_str()
    }

    pub fn get_org_id(&self) -> (r: &str)
        ensures
            r@ == self@.org_id,
    {
        self.org_id.as_str()
    }
}

/// View of a [`DeleteSmartPermissionActionBuildError`].
pub ghost enum DeleteSmartPermissionActionBuildErrorV {
    MissingField(Seq<char>),
}

/// Error returned when a [`DeleteSmartPermissionActionBuilder`] misses a required field.
#[derive(Debug, Clone, PartialEq)]
pub enum DeleteSmartPermissionActionBuildError {
    MissingField(String),
}

impl View for DeleteSmartPermissionActionBuildError {
    type V = DeleteSmartPermissionActionBuildErrorV;

    open spec fn view(&self) -> DeleteSmartPermissionActionBuildErrorV {
        match self {
            DeleteSmartPermissionActionBuildError::MissingField(m) => DeleteSmartPermissionActionBuildErrorV::MissingField(m@),
        }
    }
}

/// View of a [`DeleteSmartPermissionActionBuilder`].
pub ghost struct DeleteSmartPermissionActionBuilderV {
    pub name: Option<Seq<char>>,
    pub org_id: Option<Seq<char>>,
}

/// What [`DeleteSmartPermissionActionBuilder::build`] returns: the built view, or the message of
/// the first missing field.
pub open spec fn delete_smart_permission_action_build_spec(b: DeleteSmartPermissionActionBuilderV) -> Result<DeleteSmartPermissionActionV, Seq<char>> {
    if b.name is None {
        Err("'name' field is required"@)
    } else if b.org_id is None {
        Err("'org_id' field is required"@)
    } else {
        Ok(
            DeleteSmartPermissionActionV {
                name: b.name.unwrap(),
                org_id: b.org_id.unwrap(),
            },
        )
    }
}

/// Builder used to create a [`DeleteSmartPermissionAction`].
pub struct DeleteSmartPermissionActionBuilder {
    name: Option<String>,
    org_id: Option<String>,
}

impl View for DeleteSmartPermissionActionBuilder {
    type V = DeleteSmartPermissionActionBuilderV;

    closed spec fn view(&self) -> DeleteSmartPermissionActionBuilderV {
        DeleteSmartPermissionActionBuilderV {
            name: match self.name {
                Some(s) => Some(s@),
                None => None,
            },
            org_id: match self.org_id {
                Some(s) => Some(s@),
                None => None,
            },
        }
    }
}

impl DeleteSmartPermissionActionBuilder {
    pub fn new() -> (r: Self)
        ensures
            r@ == (DeleteSmartPermissionActionBuilderV {
                name: None,
                org_id: None,
            }),
    {
        let r = DeleteSmartPermissionActionBuilder {
            name: None,
            org_id: None,
        };
        r
    }

    pub fn set_name(self, name: String) -> (r: Self)
        ensures
            r@ == (DeleteSmartPermissionActionBuilderV { name: Some(name@), ..self@ }),
    {
        DeleteSmartPermissionActionBuilder { name: Some(name), ..self }
    }

    pub fn set_org_id(self, org_id: String) -> (r: Self)
        ensures
            r@ == (DeleteSmartPermissionActionBuilderV { org_id: Some(org_id@), ..self@ }),
    {
        DeleteSmartPermissionActionBuilder { org_id: Some(org_id), ..self }
    }

    pub fn build(self) -> (r: Result<DeleteSmartPermissionAction, DeleteSmartPermissionActionBuildError>)
        ensures
            match r {
                Ok(v) => delete_smart_permission_action_build_spec(self@) matches Ok(vv) && v@ == vv,
                Err(e) => delete_smart_permission_action_build_spec(self@) matches Err(m) && e@
                    == DeleteSmartPermissionActionBuildErrorV::MissingField(m),
            },
    {
        let name = match self.name {
            Some(v) => v,
            None => {
                return Err(
                    DeleteSmartPermissionActionBuildError::MissingField(
                        String::from_str("'name' field is required"),
                    ),
                );
            },
        };
        let org_id = match self.org_id {
            Some(v) => v,
            None => {
                return Err(
                    DeleteSmartPermissionActionBuildError::MissingField(
                        String::from_str("'org_id' field is required"),
                    ),
                );
            },
        };
        Ok(DeleteSmartPermissionAction { name, org_id })
    }
}

// ---------------------------------------------------------------------------
// CreateAccountAction
// ---------------------------------------------------------------------------
/// View of a [`CreateAccountAction`].
pub ghost struct CreateAccountActionV {
    pub org_id: Seq<char>,
    pub public_key: Seq<char>,
    pub roles: Seq<Seq<char>>,
    pub metadata: Seq<KeyValueEntryV>,
}

/// Creates an account inside an organization.
#[derive(Debug, PartialEq)]
pub struct CreateAccountAction {
    org_id: String,
    public_key: String,
    roles: Vec<String>,
    metadata: Vec<KeyValueEntry>,
}

impl View for CreateAccountAction {
    type V = CreateAccountActionV;

    closed spec fn view(&self) -> CreateAccountActionV {
        CreateAccountActionV {
            org_id: self.org_id@,
            public_key: self.public_key@,
            roles: self.roles.deep_view(),
            metadata: self.metadata.deep_view(),
        }
    }
}

impl DeepView for CreateAccountAction {
    type V = CreateAccountActionV;

    open spec fn deep_view(&self) -> CreateAccountActionV {
        self.view()
    }
}

impl CreateAccountAction {
    pub fn get_org_id(&self) -> (r: &str)
        ensures
            r@ == self@.org_id,
    {
        self.org_id.as_str()
    }

    pub fn get_public_key(&self) -> (r: &str)
        ensures
            r@ == self@.public_key,
    {
        self.public_key.as_str()
    }

    pub fn get_roles(&self) -> (r: &[String])
        ensures
            r.deep_view() == self@.roles,
    {
        let r = self.roles.as_slice();
        proof {
            assert(r.deep_view() =~= self.roles.deep_view());
        }
        r
    }

    pub fn get_metadata(&self) -> (r: &[KeyValueEntry])
        ensures
            r.deep_view() == self@.metadata,
    {
        let r = self.metadata.as_slice();
        proof {
            assert(r.deep_view() =~= self.metadata.deep_view());
        }
        r
    }
}

/// View of a [`CreateAccountActionBuildError`].
pub ghost enum CreateAccountActionBuildErrorV {
    MissingField(Seq<char>),
}

/// Error returned when a [`CreateAccountActionBuilder`] misses a required field.
#[derive(Debug, Clone, PartialEq)]
pub enum CreateAccountActionBuildError {
    MissingField(String),
}

impl View for CreateAccountActionBuildError {
    type V = CreateAccountActionBuildErrorV;

    open spec fn view(&self) -> CreateAccountActionBuildErrorV {
        match self {
            CreateAccountActionBuildError::MissingField(m) => CreateAccountActionBuildErrorV::MissingField(m@),
        }
    }
}

/// View of a [`CreateAccountActionBuilder`].
pub ghost struct CreateAccountActionBuilderV {
    pub org_id: Option<Seq<char>>,
    pub public_key: Option<Seq<char>>,
    pub roles: Seq<Seq<char>>,
    pub metadata: Seq<KeyValueEntryV>,
}

/// What [`CreateAccountActionBuilder::build`] returns: the built view, or the message of
/// the first missing field.
pub open spec fn create_account_action_build_spec(b: CreateAccountActionBuilderV) -> Result<CreateAccountActionV, Seq<char>> {
    if b.org_id is None {
        Err("'org_id' field is required"@)
    } else if b.public_key is None {
        Err("'public_key' field is required"@)
    } else if b.roles.len() == 0 {
        Err("'roles' field is required"@)
    } else if b.metadata.len() == 0 {
        Err("'metadata' field is required"@)
    } else {
        Ok(
            CreateAccountActionV {
                org_id: b.org_id.unwrap(),
                public_key: b.public_key.unwrap(),
                roles: b.roles,
                metadata: b.metadata,
            },
        )
    }
}

/// Builder used to create a [`CreateAccountAction`].
pub struct CreateAccountActionBuilder {
    org_id: Option<String>,
    public_key: Option<String>,
    roles: Vec<String>,
    metadata: Vec<KeyValueEntry>,
}

impl View for CreateAccountActionBuilder {
    type V = CreateAccountActionBuilderV;

    closed spec fn view(&self) -> CreateAccountActionBuilderV {
        CreateAccountActionBuilderV {
            org_id: match self.org_id {
                Some(s) => Some(s@),
                None => None,
            },
            public_key: match self.public_key {
                Some(s) => Some(s@),
                None => None,
            },
            roles: self.roles.deep_view(),
            metadata: self.metadata.deep_view(),
        }
    }
}

impl CreateAccountActionBuilder {
    pub fn new() -> (r: Self)
        ensures
            r@ == (CreateAccountActionBuilderV {
                org_id: None,
                public_key: None,
                roles: Seq::empty(),
                metadata: Seq::empty(),
            }),
    {
        let r = CreateAccountActionBuilder {
            org_id: None,
            public_key: None,
            roles: Vec::new(),
            metadata: Vec::new(),
        };
        proof {
            assert(r.roles.deep_view() =~= Seq::<Seq<char>>::empty());
            assert(r.metadata.deep_view() =~= Seq::<KeyValueEntryV>::empty());
        }
        r
    }

    pub fn set_org_id(self, org_id: String) -> (r: Self)
        ensures
            r@ == (CreateAccountActionBuilderV { org_id: Some(org_id@), ..self@ }),
    {
        CreateAccountActionBuilder { org_id: Some(org_id), ..self }
    }

    pub fn set_public_key(self, public_key: String) -> (r: Self)
        ensures
            r@ == (CreateAccountActionBuilderV { public_key: Some(public_key@), ..self@ }),
    {
        CreateAccountActionBuilder { public_key: Some(public_key), ..self }
    }

    pub fn set_roles(self, roles: Vec<String>) -> (r: Self)
        ensures
            r@ == (CreateAccountActionBuilderV { roles: roles.deep_view(), ..self@ }),
    {
        CreateAccountActionBuilder { roles, ..self }
    }

    pub fn set_metadata(self, metadata: Vec<KeyValueEntry>) -> (r: Self)
        ensures
            r@ == (CreateAccountActionBuilderV { metadata: metadata.deep_view(), ..self@ }),
    {
        CreateAccountActionBuilder { metadata, ..self }
    }

    pub fn build(self) -> (r: Result<CreateAccountAction, CreateAccountActionBuildError>)
        ensures
            match r {
                Ok(v) => create_account_action_build_spec(self@) matches Ok(vv) && v@ == vv,
                Err(e) => create_account_action_build_spec(self@) matches Err(m) && e@
                    == CreateAccountActionBuildErrorV::MissingField(m),
            },
    {
        let org_id = match self.org_id {
            Some(v) => v,
            None => {
                return Err(
                    CreateAccountActionBuildError::MissingField(
                        String::from_str("'org_id' field is required"),
                    ),
                );
            },
        };
        let public_key = match self.public_key {
            Some(v) => v,
            None => {
                return Err(
                    CreateAccountActionBuildError::MissingField(
                        String::from_str("'public_key' field is required"),
                    ),
                );
            },
        };
        if self.roles.is_empty() {
            return Err(
                CreateAccountActionBuildError::MissingField(String::from_str("'roles' field is required")),
            );
        }
        let roles = self.roles;
        if self.metadata.is_empty() {
            return Err(
                CreateAccountActionBuildError::MissingField(String::from_str("'metadata' field is required")),
            );
        }
        let metadata = self.metadata;
        Ok(CreateAccountAction { org_id, public_key, roles, metadata })
    }
}

// ---------------------------------------------------------------------------
// UpdateAccountAction
// ---------------------------------------------------------------------------
/// View of a [`UpdateAccountAction`].
pub ghost struct UpdateAccountActionV {
    pub org_id: Seq<char>,
    pub public_key: Seq<char>,
    pub active: bool,
    pub roles: Seq<Seq<char>>,
    pub metadata: Seq<KeyValueEntryV>,
}

/// Updates an account's roles, metadata or active flag; fields left
/// empty keep their stored values.
#[derive(Debug, PartialEq)]
pub struct UpdateAccountAction {
    org_id: String,
    public_key: String,
    active: bool,
    roles: Vec<String>,
    metadata: Vec<KeyValueEntry>,
}

impl View for UpdateAccountAction {
    type V = UpdateAccountActionV;

    closed spec fn view(&self) -> UpdateAccountActionV {
        UpdateAccountActionV {
            org_id: self.org_id@,
            public_key: self.public_key@,
            active: self.active,
            roles: self.roles.deep_view(),
            metadata: self.metadata.deep_view(),
        }
    }
}

impl DeepView for UpdateAccountAction {
    type V = UpdateAccountActionV;

    open spec fn deep_view(&self) -> UpdateAccountActionV {
        self.view()
    }
}

impl UpdateAccountAction {
    pub fn get_org_id(&self) -> (r: &str)
        ensures
            r@ == self@.org_id,
    {
        self.org_id.as_str()
    }

    pub fn get_public_key(&self) -> (r: &str)
        ensures
            r@ == self@.public_key,
    {
        self.public_key.as_str()
    }

    pub fn get_active(&self) -> (r: bool)
        ensures
            r == self@.active,
    {
        self.active
    }

    pub fn get_roles(&self) -> (r: &[String])
        ensures
            r.deep_view() == self@.roles,
    {
        let r = self.roles.as_slice();
        proof {
            assert(r.deep_view() =~= self.roles.deep_view());
        }
        r
    }

    pub fn get_metadata(&self) -> (r: &[KeyValueEntry])
        ensures
            r.deep_view() == self@.metadata,
    {
        let r = self.metadata.as_slice();
        proof {
            assert(r.deep_view() =~= self.metadata.deep_view());
        }
        r
    }
}

/// View of a [`UpdateAccountActionBuildError`].
pub ghost enum UpdateAccountActionBuildErrorV {
    MissingField(Seq<char>),
}

/// Error returned when a [`UpdateAccountActionBuilder`] misses a required field.
#[derive(Debug, Clone, PartialEq)]
pub enum UpdateAccountActionBuildError {
    MissingField(String),
}

impl View for UpdateAccountActionBuildError {
    type V = UpdateAccountActionBuildErrorV;

    open spec fn view(&self) -> UpdateAccountActionBuildErrorV {
        match self {
            UpdateAccountActionBuildError::MissingField(m) => UpdateAccountActionBuildErrorV::MissingField(m@),
        }
    }
}

/// View of a [`UpdateAccountActionBuilder`].
pub ghost struct UpdateAccountActionBuilderV {
    pub org_id: Option<Seq<char>>,
    pub public_key: Option<Seq<char>>,
    pub active: Option<bool>,
    pub roles: Seq<Seq<char>>,
    pub metadata: Seq<KeyValueEntryV>,
}

/// What [`UpdateAccountActionBuilder::build`] returns: the built view, or the message of
/// the first missing field.
pub open spec fn update_account_action_build_spec(b: UpdateAccountActionBuilderV) -> Result<UpdateAccountActionV, Seq<char>> {
    if b.org_id is None {
        Err("'org_id' field is required"@)
    } else if b.public_key is None {
        Err("'public_key' field is required"@)
    } else {
        Ok(
            UpdateAccountActionV {
                org_id: b.org_id.unwrap(),
                public_key: b.public_key.unwrap(),
                active: if b.active is Some {
                    b.active.unwrap()
                } else {
                    false
                },
                roles: b.roles,
                metadata: b.metadata,
            },
        )
    }
}

/// Builder used to create a [`UpdateAccountAction`].
pub struct UpdateAccountActionBuilder {
    org_id: Option<String>,
    public_key: Option<String>,
    active: Option<bool>,
    roles: Vec<String>,
    metadata: Vec<KeyValueEntry>,
}

impl View for UpdateAccountActionBuilder {
    type V = UpdateAccountActionBuilderV;

    closed spec fn view(&self) -> UpdateAccountActionBuilderV {
        UpdateAccountActionBuilderV {
            org_id: match self.org_id {
                Some(s) => Some(s@),
                None => None,
            },
            public_key: match self.public_key {
                Some(s) => Some(s@),
                None => None,
            },
            active: self.active,
            roles: self.roles.deep_view(),
            metadata: self.metadata.deep_view(),
        }
    }
}

impl UpdateAccountActionBuilder {
    pub fn new() -> (r: Self)
        ensures
            r@ == (UpdateAccountActionBuilderV {
                org_id: None,
                public_key: None,
                active: None,
                roles: Seq::empty(),
                metadata: Seq::empty(),
            }),
    {
        let r = UpdateAccountActionBuilder {
            org_id: None,
            public_key: None,
            active: None,
            roles: Vec::new(),
            metadata: Vec::new(),
        };
        proof {
            assert(r.roles.deep_view() =~= Seq::<Seq<char>>::empty());
            assert(r.metadata.deep_view() =~= Seq::<KeyValueEntryV>::empty());
        }
        r
    }

    pub fn set_org_id(self, org_id: String) -> (r: Self)
        ensures
            r@ == (UpdateAccountActionBuilderV { org_id: Some(org_id@), ..self@ }),
    {
        UpdateAccountActionBuilder { org_id: Some(org_id), ..self }
    }

    pub fn set_public_key(self, public_key: String) -> (r: Self)
        ensures
            r@ == (UpdateAccountActionBuilderV { public_key: Some(public_key@), ..self@ }),
    {
        UpdateAccountActionBuilder { public_key: Some(public_key), ..self }
    }

    pub fn set_active(self, active: bool) -> (r: Self)
        ensures
            r@ == (UpdateAccountActionBuilderV { active: Some(active@), ..self@ }),
    {
        UpdateAccountActionBuilder { active: Some(active), ..self }
    }

    pub fn set_roles(self, roles: Vec<String>) -> (r: Self)
        ensures
            r@ == (UpdateAccountActionBuilderV { roles: roles.deep_view(), ..self@ }),
    {
        UpdateAccountActionBuilder { roles, ..self }
    }

    pub fn set_metadata(self, metadata: Vec<KeyValueEntry>) -> (r: Self)
        ensures
            r@ == (UpdateAccountActionBuilderV { metadata: metadata.deep_view(), ..self@ }),
    {
        UpdateAccountActionBuilder { metadata, ..self }
    }

    pub fn build(self) -> (r: Result<UpdateAccountAction, UpdateAccountActionBuildError>)
        ensures
            match r {
                Ok(v) => update_account_action_build_spec(self@) matches Ok(vv) && v@ == vv,
                Err(e) => update_account_action_build_spec(self@) matches Err(m) && e@
                    == UpdateAccountActionBuildErrorV::MissingField(m),
            },
    {
        let org_id = match self.org_id {
            Some(v) => v,
            None => {
                return Err(
                    UpdateAccountActionBuildError::MissingField(
                        String::from_str("'org_id' field is required"),
                    ),
                );
            },
        };
        let public_key = match self.public_key {
            Some(v) => v,
            None => {
                return Err(
                    UpdateAccountActionBuildError::MissingField(
                        String::from_str("'public_key' field is required"),
                    ),
                );
            },
        };
        let active = match self.active {
            Some(v) => v,
            None => false,
        };
        let roles = self.roles;
        let metadata = self.metadata;
        Ok(UpdateAccountAction { org_id, public_key, active, roles, metadata })
    }
}

// ---------------------------------------------------------------------------
// CreateOrganizationAction
// ---------------------------------------------------------------------------
/// View of a [`CreateOrganizationAction`].
pub ghost struct CreateOrganizationActionV {
    pub id: Seq<char>,
    pub name: Seq<char>,
    pub address: Seq<char>,
}

/// Creates an organization.
#[derive(Debug, PartialEq)]
pub struct CreateOrganizationAction {
    id: String,
    name: String,
    address: String,
}

impl View for CreateOrganizationAction {
    type V = CreateOrganizationActionV;

    closed spec fn view(&self) -> CreateOrganizationActionV {
        CreateOrganizationActionV {
            id: self.id@,
            name: self.name@,
            address: self.address@,
        }
    }
}

impl DeepView for CreateOrganizationAction {
    type V = CreateOrganizationActionV;

    open spec fn deep_view(&self) -> CreateOrganizationActionV {
        self.view()
    }
}

impl CreateOrganizationAction {
    pub fn get_id(&self) -> (r: &str)
        ensures
            r@ == self@.id,
    {
        self.id.as_str()
    }

    pub fn get_name(&self) -> (r: &str)
        ensures
            r@ == self@.name,
    {
        self.name.as_str()
    }

    pub fn get_address(&self) -> (r: &str)
        ensures
            r@ == self@.address,
    {
        self.address.as_str()
    }
}

/// View of a [`CreateOrganizationActionBuildError`].
pub ghost enum CreateOrganizationActionBuildErrorV {
    MissingField(Seq<char>),
}

/// Error returned when a [`CreateOrganizationActionBuilder`] misses a required field.
#[derive(Debug, Clone, PartialEq)]
pub enum CreateOrganizationActionBuildError {
    MissingField(String),
}

impl View for CreateOrganizationActionBuildError {
    type V = CreateOrganizationActionBuildErrorV;

    open spec fn view(&self) -> CreateOrganizationActionBuildErrorV {
        match self {
            CreateOrganizationActionBuildError::MissingField(m) => CreateOrganizationActionBuildErrorV::MissingField(m@),
        }
    }
}

/// View of a [`CreateOrganizationActionBuilder`].
pub ghost struct CreateOrganizationActionBuilderV {
    pub id: Option<Seq<char>>,
    pub name: Option<Seq<char>>,
    pub address: Option<Seq<char>>,
}

/// What [`CreateOrganizationActionBuilder::build`] returns: the built view, or the message of
/// the first missing field.
pub open spec fn create_organization_action_build_spec(b: CreateOrganizationActionBuilderV) -> Result<CreateOrganizationActionV, Seq<char>> {
    if b.id is None {
        Err("'id' field is required"@)
    } else if b.name is None {
        Err("'name' field is required"@)
    } else if b.address is None {
        Err("'address' field is required"@)
    } else {
        Ok(
            CreateOrganizationActionV {
                id: b.id.unwrap(),
                name: b.name.unwrap(),
                address: b.address.unwrap(),
            },
        )
    }
}

/// Builder used to create a [`CreateOrganizationAction`].
pub struct CreateOrganizationActionBuilder {
    id: Option<String>,
    name: Option<String>,
    address: Option<String>,
}

impl View for CreateOrganizationActionBuilder {
    type V = CreateOrganizationActionBuilderV;

    closed spec fn view(&self) -> CreateOrganizationActionBuilderV {
        CreateOrganizationActionBuilderV {
            id: match self.id {
                Some(s) => Some(s@),
                None => None,
            },
            name: match self.name {
                Some(s) => Some(s@),
                None => None,
            },
            address: match self.address {
                Some(s) => Some(s@),
                None => None,
            },
        }
    }
}

impl CreateOrganizationActionBuilder {
    pub fn new() -> (r: Self)
        ensures
            r@ == (CreateOrganizationActionBuilderV {
                id: None,
                name: None,
                address: None,
            }),
    {
        let r = CreateOrganizationActionBuilder {
            id: None,
            name: None,
            address: None,
        };
        r
    }

    pub fn set_id(self, id: String) -> (r: Self)
        ensures
            r@ == (CreateOrganizationActionBuilderV { id: Some(id@), ..self@ }),
    {
        CreateOrganizationActionBuilder { id: Some(id), ..self }
    }

    pub fn set_name(self, name: String) -> (r: Self)
        ensures
            r@ == (CreateOrganizationActionBuilderV { name: Some(name@), ..self@ }),
    {
        CreateOrganizationActionBuilder { name: Some(name), ..self }
    }

    pub fn set_address(self, address: String) -> (r: Self)
        ensures
            r@ == (CreateOrganizationActionBuilderV { address: Some(address@), ..self@ }),
    {
        CreateOrganizationActionBuilder { address: Some(address), ..self }
    }

    pub fn build(self) -> (r: Result<CreateOrganizationAction, CreateOrganizationActionBuildError>)
        ensures
            match r {
                Ok(v) => create_organization_action_build_spec(self@) matches Ok(vv) && v@ == vv,
                Err(e) => create_organization_action_build_spec(self@) matches Err(m) && e@
                    == CreateOrganizationActionBuildErrorV::MissingField(m),
            },
    {
        let id = match self.id {
            Some(v) => v,
            None => {
                return Err(
                    CreateOrganizationActionBuildError::MissingField(
                        String::from_str("'id' field is required"),
                    ),
                );
            },
        };
        let name = match self.name {
            Some(v) => v,
            None => {
                return Err(
                    CreateOrganizationActionBuildError::MissingField(
                        String::from_str("'name' field is required"),
                    ),
                );
            },
        };
        let address = match self.address {
            Some(v) => v,
            None => {
                return Err(
                    CreateOrganizationActionBuildError::MissingField(
                        String::from_str("'address' field is required"),
                    ),
                );
            },
        };
        Ok(CreateOrganizationAction { id, name, address })
    }
}

// ---------------------------------------------------------------------------
// UpdateOrganizationAction
// ---------------------------------------------------------------------------
/// View of a [`UpdateOrganizationAction`].
pub ghost struct UpdateOrganizationActionV {
    pub id: Seq<char>,
    pub name: Seq<char>,
    pub address: Seq<char>,
}

/// Updates an organization's name or address.
#[derive(Debug, PartialEq)]
pub struct UpdateOrganizationAction {
    id: String,
    name: String,
    address: String,
}

impl View for UpdateOrganizationAction {
    type V = UpdateOrganizationActionV;

    closed spec fn view(&self) -> UpdateOrganizationActionV {
        UpdateOrganizationActionV {
            id: self.id@,
            name: self.name@,
            address: self.address@,
        }
    }
}

impl DeepView for UpdateOrganizationAction {
    type V = UpdateOrganizationActionV;

    open spec fn deep_view(&self) -> UpdateOrganizationActionV {
        self.view()
    }
}

impl UpdateOrganizationAction {
    pub fn get_id(&self) -> (r: &str)
        ensures
            r@ == self@.id,
    {
        self.id.as_str()
    }

    pub fn get_name(&self) -> (r: &str)
        ensures
            r@ == self@.name,
    {
        self.name.as_str()
    }

    pub fn get_address(&self) -> (r: &str)
        ensures
            r@ == self@.address,
    {
        self.address.as_str()
    }
}

/// View of a [`UpdateOrganizationActionBuildError`].
pub ghost enum UpdateOrganizationActionBuildErrorV {
    MissingField(Seq<char>),
}

/// Error returned when a [`UpdateOrganizationActionBuilder`] misses a required field.
#[derive(Debug, Clone, PartialEq)]
pub enum UpdateOrganizationActionBuildError {
    MissingField(String),
}

impl View for UpdateOrganizationActionBuildError {
    type V = UpdateOrganizationActionBuildErrorV;

    open spec fn view(&self) -> UpdateOrganizationActionBuildErrorV {
        match self {
            UpdateOrganizationActionBuildError::MissingField(m) => UpdateOrganizationActionBuildErrorV::MissingField(m@),
        }
    }
}

/// View of a [`UpdateOrganizationActionBuilder`].
pub ghost struct UpdateOrganizationActionBuilderV {
    pub id: Option<Seq<char>>,
    pub name: Option<Seq<char>>,
    pub address: Option<Seq<char>>,
}

/// What [`UpdateOrganizationActionBuilder::build`] returns: the built view, or the message of
/// the first missing field.
pub open spec fn update_organization_action_build_spec(b: UpdateOrganizationActionBuilderV) -> Result<UpdateOrganizationActionV, Seq<char>> {
    if b.id is None {
        Err("'id' field is required"@)
    } else if b.name is None {
        Err("'name' field is required"@)
    } else if b.address is None {
        Err("'address' field is required"@)
    } else {
        Ok(
            UpdateOrganizationActionV {
                id: b.id.unwrap(),
                name: b.name.unwrap(),
                address: b.address.unwrap(),
            },
        )
    }
}

/// Builder used to create a [`UpdateOrganizationAction`].
pub struct UpdateOrganizationActionBuilder {
    id: Option<String>,
    name: Option<String>,
    address: Option<String>,
}

impl View for UpdateOrganizationActionBuilder {
    type V = UpdateOrganizationActionBuilderV;

    closed spec fn view(&self) -> UpdateOrganizationActionBuilderV {
        UpdateOrganizationActionBuilderV {
            id: match self.id {
                Some(s) => Some(s@),
                None => None,
            },
            name: match self.name {
                Some(s) => Some(s@),
                None => None,
            },
            address: match self.address {
                Some(s) => Some(s@),
                None => None,
            },
        }
    }
}

impl UpdateOrganizationActionBuilder {
    pub fn new() -> (r: Self)
        ensures
            r@ == (UpdateOrganizationActionBuilderV {
                id: None,
                name: None,
                address: None,
            }),
    {
        let r = UpdateOrganizationActionBuilder {
            id: None,
            name: None,
            address: None,
        };
        r
    }

    pub fn set_id(self, id: String) -> (r: Self)
        ensures
            r@ == (UpdateOrganizationActionBuilderV { id: Some(id@), ..self@ }),
    {
        UpdateOrganizationActionBuilder { id: Some(id), ..self }
    }

    pub fn set_name(self, name: String) -> (r: Self)
        ensures
            r@ == (UpdateOrganizationActionBuilderV { name: Some(name@), ..self@ }),
    {
        UpdateOrganizationActionBuilder { name: Some(name), ..self }
    }

    pub fn set_address(self, address: String) -> (r: Self)
        ensures
            r@ == (UpdateOrganizationActionBuilderV { address: Some(address@), ..self@ }),
    {
        UpdateOrganizationActionBuilder { address: Some(address), ..self }
    }

    pub fn build(self) -> (r: Result<UpdateOrganizationAction, UpdateOrganizationActionBuildError>)
        ensures
            match r {
                Ok(v) => update_organization_action_build_spec(self@) matches Ok(vv) && v@ == vv,
                Err(e) => update_organization_action_build_spec(self@) matches Err(m) && e@
                    == UpdateOrganizationActionBuildErrorV::MissingField(m),
            },
    {
        let id = match self.id {
            Some(v) => v,
            None => {
                return Err(
                    UpdateOrganizationActionBuildError::MissingField(
                        String::from_str("'id' field is required"),
                    ),
                );
            },
        };
        let name = match self.name {
            Some(v) => v,
            None => {
                return Err(
                    UpdateOrganizationActionBuildError::MissingField(
                        String::from_str("'name' field is required"),
                    ),
                );
            },
        };
        let address = match self.address {
            Some(v) => v,
            None => {
                return Err(
                    UpdateOrganizationActionBuildError::MissingField(
                        String::from_str("'address' field is required"),
                    ),
                );
            },
        };
        Ok(UpdateOrganizationAction { id, name, address })
    }
}

// ---------------------------------------------------------------------------
// Action
// ---------------------------------------------------------------------------
/// View of an [`Action`].
pub ghost enum ActionV {
    CreateContract(CreateContractActionV),
    DeleteContract(DeleteContractActionV),
    ExecuteContract(ExecuteContractActionV),
    CreateContractRegistry(CreateContractRegistryActionV),
    DeleteContractRegistry(DeleteContractRegistryActionV),
    UpdateContractRegistryOwners(UpdateContractRegistryOwnersActionV),
    CreateNamespaceRegistry(CreateNamespaceRegistryActionV),
    DeleteNamespaceRegistry(DeleteNamespaceRegistryActionV),
    UpdateNamespaceRegistryOwners(UpdateNamespaceRegistryOwnersActionV),
    CreateNamespaceRegistryPermission(CreateNamespaceRegistryPermissionActionV),
    DeleteNamespaceRegistryPermission(DeleteNamespaceRegistryPermissionActionV),
    CreateSmartPermission(CreateSmartPermissionActionV),
    UpdateSmartPermission(UpdateSmartPermissionActionV),
    DeleteSmartPermission(DeleteSmartPermissionActionV),
    CreateAccount(CreateAccountActionV),
    UpdateAccount(UpdateAccountActionV),
    CreateOrganization(CreateOrganizationActionV),
    UpdateOrganization(UpdateOrganizationActionV),
}

/// The tagged union of every action a payload can carry.
#[derive(Debug, PartialEq)]
pub enum Action {
    CreateContract(CreateContractAction),
    DeleteContract(DeleteContractAction),
    ExecuteContract(ExecuteContractAction),
    CreateContractRegistry(CreateContractRegistryAction),
    DeleteContractRegistry(DeleteContractRegistryAction),
    UpdateContractRegistryOwners(UpdateContractRegistryOwnersAction),
    CreateNamespaceRegistry(CreateNamespaceRegistryAction),
    DeleteNamespaceRegistry(DeleteNamespaceRegistryAction),
    UpdateNamespaceRegistryOwners(UpdateNamespaceRegistryOwnersAction),
    CreateNamespaceRegistryPermission(CreateNamespaceRegistryPermissionAction),
    DeleteNamespaceRegistryPermission(DeleteNamespaceRegistryPermissionAction),
    CreateSmartPermission(CreateSmartPermissionAction),
    UpdateSmartPermission(UpdateSmartPermissionAction),
    DeleteSmartPermission(DeleteSmartPermissionAction),
    CreateAccount(CreateAccountAction),
    UpdateAccount(UpdateAccountAction),
    CreateOrganization(CreateOrganizationAction),
    UpdateOrganization(UpdateOrganizationAction),
}

impl View for Action {
    type V = ActionV;

    open spec fn view(&self) -> ActionV {
        match self {
            Action::CreateContract(a) => ActionV::CreateContract(a@),
            Action::DeleteContract(a) => ActionV::DeleteContract(a@),
            Action::ExecuteContract(a) => ActionV::ExecuteContract(a@),
            Action::CreateContractRegistry(a) => ActionV::CreateContractRegistry(a@),
            Action::DeleteContractRegistry(a) => ActionV::DeleteContractRegistry(a@),
            Action::UpdateContractRegistryOwners(a) => ActionV::UpdateContractRegistryOwners(a@),
            Action::CreateNamespaceRegistry(a) => ActionV::CreateNamespaceRegistry(a@),
            Action::DeleteNamespaceRegistry(a) => ActionV::DeleteNamespaceRegistry(a@),
            Action::UpdateNamespaceRegistryOwners(a) => ActionV::UpdateNamespaceRegistryOwners(a@),
            Action::CreateNamespaceRegistryPermission(a) => ActionV::CreateNamespaceRegistryPermission(a@),
            Action::DeleteNamespaceRegistryPermission(a) => ActionV::DeleteNamespaceRegistryPermission(a@),
            Action::CreateSmartPermission(a) => ActionV::CreateSmartPermission(a@),
            Action::UpdateSmartPermission(a) => ActionV::UpdateSmartPermission(a@),
            Action::DeleteSmartPermission(a) => ActionV::DeleteSmartPermission(a@),
            Action::CreateAccount(a) => ActionV::CreateAccount(a@),
            Action::UpdateAccount(a) => ActionV::UpdateAccount(a@),
            Action::CreateOrganization(a) => ActionV::CreateOrganization(a@),
            Action::UpdateOrganization(a) => ActionV::UpdateOrganization(a@),
        }
    }
}

// ---------------------------------------------------------------------------
// SabrePayload
// ---------------------------------------------------------------------------
/// View of a [`SabrePayload`].
pub ghost struct SabrePayloadV {
    pub action: ActionV,
}

/// A transaction payload: exactly one action.
#[derive(Debug, PartialEq)]
pub struct SabrePayload {
    action: Action,
}

impl View for SabrePayload {
    type V = SabrePayloadV;

    closed spec fn view(&self) -> SabrePayloadV {
        SabrePayloadV { action: self.action@ }
    }
}

impl SabrePayload {
    pub fn action(&self) -> (r: &Action)
        ensures
            r@ == self@.action,
    {
        &self.action
    }

    pub fn into_action(self) -> (r: Action)
        ensures
            r@ == self@.action,
    {
        self.action
    }
}

/// View of a [`SabrePayloadBuildError`].
pub ghost enum SabrePayloadBuildErrorV {
    MissingField(Seq<char>),
}

/// Error returned when a [`SabrePayloadBuilder`] misses its action.
#[derive(Debug, Clone, PartialEq)]
pub enum SabrePayloadBuildError {
    MissingField(String),
}

impl View for SabrePayloadBuildError {
    type V = SabrePayloadBuildErrorV;

    open spec fn view(&self) -> SabrePayloadBuildErrorV {
        match self {
            SabrePayloadBuildError::MissingField(m) =>
                SabrePayloadBuildErrorV::MissingField(m@),
        }
    }
}

/// Builder used to create a [`SabrePayload`].
pub struct SabrePayloadBuilder {
    action: Option<Action>,
}

impl View for SabrePayloadBuilder {
    type V = Option<ActionV>;

    closed spec fn view(&self) -> Option<ActionV> {
        match self.action {
            Some(a) => Some(a@),
            None => None,
        }
    }
}

impl SabrePayloadBuilder {
    pub fn new() -> (r: Self)
        ensures
            r@ is None,
    {
        SabrePayloadBuilder { action: None }
    }

    pub fn set_action(self, action: Action) -> (r: Self)
        ensures
            r@ == Some(action@),
    {
        SabrePayloadBuilder { action: Some(action) }
    }

    pub fn build(self) -> (r: Result<SabrePayload, SabrePayloadBuildError>)
        ensures
            match r {
                Ok(pl) => self@ matches Some(a) && pl@.action == a,
                Err(e) => self@ is None && e@
                    == SabrePayloadBuildErrorV::MissingField(
                    "'name' field is required"@),
            },
    {
        let action = match self.action {
            Some(a) => a,
            None => {
                return Err(
                    SabrePayloadBuildError::MissingField(
                        String::from_str("'name' field is required"),
                    ),
                );
            },
        };
        Ok(SabrePayload { action })
    }
}
} // verus!
