//! Structural validation of a decoded action: every action kind has
//! field-presence preconditions that must hold before the handler runs.
//!
//! Decoding the wire envelope into an [`Action`] is the caller's business;
//! this module only checks the decoded action and performs no state access.

use vstd::prelude::*;
use crate::error::{ApplyError, ApplyErrorV};
use crate::protocol::payload::{Action, ActionV};

verus! {

/// The message of the first structural precondition the action violates,
/// if any.
pub open spec fn payload_check(a: ActionV) -> Option<Seq<char>> {
    match a {
        ActionV::CreateContract(p) => if p.name.len() == 0 {
            Some("Contract name cannot be an empty string"@)
        } else if p.version.len() == 0 {
            Some("Contract version cannot be an empty string"@)
        } else if p.inputs.len() == 0 {
            Some("Contract inputs cannot be an empty"@)
        } else if p.outputs.len() == 0 {
            Some("Contract outputs cannot be an empty"@)
        } else if p.contract.len() == 0 {
            Some("Contract bytes cannot be an empty"@)
        } else {
            None
        },
        ActionV::DeleteContract(p) => if p.name.len() == 0 {
            Some("Contract name cannot be an empty string"@)
        } else if p.version.len() == 0 {
            Some("Contract version cannot be an empty string"@)
        } else {
            None
        },
        ActionV::ExecuteContract(p) => if p.name.len() == 0 {
            Some("Contract name cannot be an empty string"@)
        } else if p.version.len() == 0 {
            Some("Contract version cannot be an empty string"@)
        } else if p.inputs.len() == 0 {
            Some("Contract inputs cannot be an empty"@)
        } else if p.outputs.len() == 0 {
            Some("Contract outputs cannot be an empty"@)
        } else if p.payload.len() == 0 {
            Some("Contract payload cannot be an empty"@)
        } else {
            None
        },
        ActionV::CreateContractRegistry(p) => if p.name.len() == 0 {
            Some("Contract Registry name cannot be an empty string"@)
        } else if p.owners.len() == 0 {
            Some("Contract Registry owners cannot be an empty"@)
        } else {
            None
        },
        ActionV::DeleteContractRegistry(p) => if p.name.len() == 0 {
            Some("Contract Registry name cannot be an empty string"@)
        } else {
            None
        },
        ActionV::UpdateContractRegistryOwners(p) => if p.name.len() == 0 {
            Some("Contract Registry name cannot be an empty string"@)
        } else if p.owners.len() == 0 {
            Some("Contract Registry owners cannot be an empty"@)
        } else {
            None
        },
        ActionV::CreateNamespaceRegistry(p) => if p.namespace.len() == 0 {
            Some("Namespace Registry namespace cannot be an empty string"@)
        } else if p.owners.len() == 0 {
            Some("Namespace owners cannot be an empty"@)
        } else {
            None
        },
        ActionV::DeleteNamespaceRegistry(p) => if p.namespace.len() == 0 {
            Some("Namespace Registry namespace cannot be an empty string"@)
        } else {
            None
        },
        ActionV::UpdateNamespaceRegistryOwners(p) => if p.namespace.len() == 0 {
            Some("Namespace Registry namespace cannot be an empty string"@)
        } else if p.owners.len() == 0 {
            Some("Namespace owners cannot be an empty"@)
        } else {
            None
        },
        ActionV::CreateNamespaceRegistryPermission(p) => if p.namespace.len() == 0 {
            Some("Namespace Registry namespace cannot be an empty string"@)
        } else if p.contract_name.len() == 0 {
            Some("Contract name cannot be an empty string"@)
        } else {
            None
        },
        ActionV::DeleteNamespaceRegistryPermission(p) => if p.namespace.len() == 0 {
            Some("Namespace Registry namespace cannot be an empty string"@)
        } else if p.contract_name.len() == 0 {
            Some("Contract name cannot be an empty string"@)
        } else {
            None
        },
        ActionV::CreateSmartPermission(p) => if p.org_id.len() == 0 {
            Some("Organization ID required"@)
        } else if p.name.len() == 0 {
            Some("Smart permission name required"@)
        } else if p.function.len() == 0 {
            Some("Function body required"@)
        } else {
            None
        },
        ActionV::UpdateSmartPermission(p) => if p.org_id.len() == 0 {
            Some("Organization ID required"@)
        } else if p.name.len() == 0 {
            Some("Smart permission name required"@)
        } else if p.function.len() == 0 {
            Some("Function body required"@)
        } else {
            None
        },
        ActionV::DeleteSmartPermission(p) => if p.org_id.len() == 0 {
            Some("Organization ID required"@)
        } else if p.name.len() == 0 {
            Some("Smart permission name required"@)
        } else {
            None
        },
        ActionV::CreateAccount(p) => if p.org_id.len() == 0 {
            Some("Organization ID required"@)
        } else if p.public_key.len() == 0 {
            Some("Account public_key required"@)
        } else {
            None
        },
        ActionV::UpdateAccount(p) => if p.org_id.len() == 0 {
            Some("Organization ID required"@)
        } else if p.public_key.len() == 0 {
            Some("Account public_key required"@)
        } else {
            None
        },
        ActionV::CreateOrganization(p) => if p.id.len() == 0 {
            Some("Organization ID required"@)
        } else if p.name.len() == 0 {
            Some("Organization name required"@)
        } else if p.address.len() == 0 {
            Some("Organization address required"@)
        } else {
            None
        },
        ActionV::UpdateOrganization(p) => if p.id.len() == 0 {
            Some("Organization ID required"@)
        } else if p.name.len() == 0 {
            Some("Organization name required"@)
        } else if p.address.len() == 0 {
            Some("Organization address required"@)
        } else {
            None
        },
    }
}

/// A validated request payload: an action whose structural preconditions
/// all hold.
#[derive(Debug)]
pub struct SabreRequestPayload {
    action: Action,
}

impl View for SabreRequestPayload {
    type V = ActionV;

    closed spec fn view(&self) -> ActionV {
        self.action@
    }
}

impl SabreRequestPayload {
    /// Accepts a decoded action whose structural preconditions hold, and
    /// rejects any other with the message of the first violated one.
    pub fn new(action: Action) -> (r: Result<SabreRequestPayload, ApplyError>)
        ensures
            match r {
                Ok(p) => payload_check(action@) is None && p@ == action@,
                Err(e) => payload_check(action@) matches Some(msg) && e@
                    == ApplyErrorV::InvalidTransaction(msg),
            },
    {
        match &action {
            Action::CreateContract(p) => {
                if p.get_name().is_empty() {
                    return Err(
                        ApplyError::InvalidTransaction(
                            String::from_str("Contract name cannot be an empty string"),
                        ),
                    );
                }
                if p.get_version().is_empty() {
                    return Err(
                        ApplyError::InvalidTransaction(
                            String::from_str("Contract version cannot be an empty string"),
                        ),
                    );
                }
                if p.get_inputs().is_empty() {
                    return Err(
                        ApplyError::InvalidTransaction(
                            String::from_str("Contract inputs cannot be an empty"),
                        ),
                    );
                }
                if p.get_outputs().is_empty() {
                    return Err(
                        ApplyError::InvalidTransaction(
                            String::from_str("Contract outputs cannot be an empty"),
                        ),
                    );
                }
                if p.get_contract().is_empty() {
                    return Err(
                        ApplyError::InvalidTransaction(
                            String::from_str("Contract bytes cannot be an empty"),
                        ),
                    );
                }
            },
            Action::DeleteContract(p) => {
                if p.get_name().is_empty() {
                    return Err(
                        ApplyError::InvalidTransaction(
                            String::from_str("Contract name cannot be an empty string"),
                        ),
                    );
                }
                if p.get_version().is_empty() {
                    return Err(
                        ApplyError::InvalidTransaction(
                            String::from_str("Contract version cannot be an empty string"),
                        ),
                    );
                }
            },
            Action::ExecuteContract(p) => {
                if p.get_name().is_empty() {
                    return Err(
                        ApplyError::InvalidTransaction(
                            String::from_str("Contract name cannot be an empty string"),
                        ),
                    );
                }
                if p.get_version().is_empty() {
                    return Err(
                        ApplyError::InvalidTransaction(
                            String::from_str("Contract version cannot be an empty string"),
                        ),
                    );
                }
                if p.get_inputs().is_empty() {
                    return Err(
                        ApplyError::InvalidTransaction(
                            String::from_str("Contract inputs cannot be an empty"),
                        ),
                    );
                }
                if p.get_outputs().is_empty() {
                    return Err(
                        ApplyError::InvalidTransaction(
                            String::from_str("Contract outputs cannot be an empty"),
                        ),
                    );
                }
                if p.get_payload().is_empty() {
                    return Err(
                        ApplyError::InvalidTransaction(
                            String::from_str("Contract payload cannot be an empty"),
                        ),
                    );
                }
            },
            Action::CreateContractRegistry(p) => {
                if p.get_name().is_empty() {
                    return Err(
                        ApplyError::InvalidTransaction(
                            String::from_str("Contract Registry name cannot be an empty string"),
                        ),
                    );
                }
                if p.get_owners().is_empty() {
                    return Err(
                        ApplyError::InvalidTransaction(
                            String::from_str("Contract Registry owners cannot be an empty"),
                        ),
                    );
                }
            },
            Action::DeleteContractRegistry(p) => {
                if p.get_name().is_empty() {
                    return Err(
                        ApplyError::InvalidTransaction(
                            String::from_str("Contract Registry name cannot be an empty string"),
                        ),
                    );
                }
            },
            Action::UpdateContractRegistryOwners(p) => {
                if p.get_name().is_empty() {
                    return Err(
                        ApplyError::InvalidTransaction(
                            String::from_str("Contract Registry name cannot be an empty string"),
                        ),
                    );
                }
                if p.get_owners().is_empty() {
                    return Err(
                        ApplyError::InvalidTransaction(
                            String::from_str("Contract Registry owners cannot be an empty"),
                        ),
                    );
                }
            },
            Action::CreateNamespaceRegistry(p) => {
                if p.get_namespace().is_empty() {
                    return Err(
                        ApplyError::InvalidTransaction(
                            String::from_str(
                                "Namespace Registry namespace cannot be an empty string",
                            ),
                        ),
                    );
                }
                if p.get_owners().is_empty() {
                    return Err(
                        ApplyError::InvalidTransaction(
                            String::from_str("Namespace owners cannot be an empty"),
                        ),
                    );
                }
            },
            Action::DeleteNamespaceRegistry(p) => {
                if p.get_namespace().is_empty() {
                    return Err(
                        ApplyError::InvalidTransaction(
                            String::from_str(
                                "Namespace Registry namespace cannot be an empty string",
                            ),
                        ),
                    );
                }
            },
            Action::UpdateNamespaceRegistryOwners(p) => {
                if p.get_namespace().is_empty() {
                    return Err(
                        ApplyError::InvalidTransaction(
                            String::from_str(
                                "Namespace Registry namespace cannot be an empty string",
                            ),
                        ),
                    );
                }
                if p.get_owners().is_empty() {
                    return Err(
                        ApplyError::InvalidTransaction(
                            String::from_str("Namespace owners cannot be an empty"),
                        ),
                    );
                }
            },
            Action::CreateNamespaceRegistryPermission(p) => {
                if p.get_namespace().is_empty() {
                    return Err(
                        ApplyError::InvalidTransaction(
                            String::from_str(
                                "Namespace Registry namespace cannot be an empty string",
                            ),
                        ),
                    );
                }
                if p.get_contract_name().is_empty() {
                    return Err(
                        ApplyError::InvalidTransaction(
                            String::from_str("Contract name cannot be an empty string"),
                        ),
                    );
                }
            },
            Action::DeleteNamespaceRegistryPermission(p) => {
                if p.get_namespace().is_empty() {
                    return Err(
                        ApplyError::InvalidTransaction(
                            String::from_str(
                                "Namespace Registry namespace cannot be an empty string",
                            ),
                        ),
                    );
                }
                if p.get_contract_name().is_empty() {
                    return Err(
                        ApplyError::InvalidTransaction(
                            String::from_str("Contract name cannot be an empty string"),
                        ),
                    );
                }
            },
            Action::CreateSmartPermission(p) => {
                if p.get_org_id().is_empty() {
                    return Err(
                        ApplyError::InvalidTransaction(
                            String::from_str("Organization ID required"),
                        ),
                    );
                }
                if p.get_name().is_empty() {
                    return Err(
                        ApplyError::InvalidTransaction(
                            String::from_str("Smart permission name required"),
                        ),
                    );
                }
                if p.get_function().is_empty() {
                    return Err(
                        ApplyError::InvalidTransaction(
                            String::from_str("Function body required"),
                        ),
                    );
                }
            },
            Action::UpdateSmartPermission(p) => {
                if p.get_org_id().is_empty() {
                    return Err(
                        ApplyError::InvalidTransaction(
                            String::from_str("Organization ID required"),
                        ),
                    );
                }
                if p.get_name().is_empty() {
                    return Err(
                        ApplyError::InvalidTransaction(
                            String::from_str("Smart permission name required"),
                        ),
                    );
                }
                if p.get_function().is_empty() {
                    return Err(
                        ApplyError::InvalidTransaction(
                            String::from_str("Function body required"),
                        ),
                    );
                }
            },
            Action::DeleteSmartPermission(p) => {
                if p.get_org_id().is_empty() {
                    return Err(
                        ApplyError::InvalidTransaction(
                            String::from_str("Organization ID required"),
                        ),
                    );
                }
                if p.get_name().is_empty() {
                    return Err(
                        ApplyError::InvalidTransaction(
                            String::from_str("Smart permission name required"),
                        ),
                    );
                }
            },
            Action::CreateAccount(p) => {
                if p.get_org_id().is_empty() {
                    return Err(
                        ApplyError::InvalidTransaction(
                            String::from_str("Organization ID required"),
                        ),
                    );
                }
                if p.get_public_key().is_empty() {
                    return Err(
                        ApplyError::InvalidTransaction(
                            String::from_str("Account public_key required"),
                        ),
                    );
                }
            },
            Action::UpdateAccount(p) => {
                if p.get_org_id().is_empty() {
                    return Err(
                        ApplyError::InvalidTransaction(
                            String::from_str("Organization ID required"),
                        ),
                    );
                }
                if p.get_public_key().is_empty() {
                    return Err(
                        ApplyError::InvalidTransaction(
                            String::from_str("Account public_key required"),
                        ),
                    );
                }
            },
            Action::CreateOrganization(p) => {
                if p.get_id().is_empty() {
                    return Err(
                        ApplyError::InvalidTransaction(
                            String::from_str("Organization ID required"),
                        ),
                    );
                }
                if p.get_name().is_empty() {
                    return Err(
                        ApplyError::InvalidTransaction(
                            String::from_str("Organization name required"),
                        ),
                    );
                }
                if p.get_address().is_empty() {
                    return Err(
                        ApplyError::InvalidTransaction(
                            String::from_str("Organization address required"),
                        ),
                    );
                }
            },
            Action::UpdateOrganization(p) => {
                if p.get_id().is_empty() {
                    return Err(
                        ApplyError::InvalidTransaction(
                            String::from_str("Organization ID required"),
                        ),
                    );
                }
                if p.get_name().is_empty() {
                    return Err(
                        ApplyError::InvalidTransaction(
                            String::from_str("Organization name required"),
                        ),
                    );
                }
                if p.get_address().is_empty() {
                    return Err(
                        ApplyError::InvalidTransaction(
                            String::from_str("Organization address required"),
                        ),
                    );
                }
            },
        };
        Ok(SabreRequestPayload { action })
    }

    /// The validated action.
    pub fn get_action(&self) -> (r: &Action)
        ensures
            r@ == self@,
    {
        &self.action
    }
}

} // verus!
