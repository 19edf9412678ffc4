//! The registration bootstrap: the plan for installing the delegation
//! entry points into a discoverable contract registry, under a direct
//! handle and a wrapped-reference handle.

use vstd::prelude::*;

verus! {

/// The declared type of an entry-point parameter or result.
#[derive(Clone, Copy, Debug, PartialEq, Eq)]
pub enum ClType {
    PublicKey,
    U512,
    Unit,
}

/// A declared entry-point parameter: a name and its type.
#[derive(Clone, Debug, PartialEq, Eq)]
pub struct Parameter {
    pub name: String,
    pub cl_type: ClType,
}

/// A declared entry point: its name, parameters, and result type.
#[derive(Clone, Debug, PartialEq, Eq)]
pub struct EntryPointDecl {
    pub name: String,
    pub params: Vec<Parameter>,
    pub ret: ClType,
}

/// The installation to perform: the entry points to register, and the
/// two names under which the installed contract is made discoverable —
/// a direct handle and a wrapped-reference handle.
#[derive(Clone, Debug, PartialEq, Eq)]
pub struct InstallPlan {
    pub entry_points: Vec<EntryPointDecl>,
    pub contract_key: String,
    pub hash_key: String,
}

/// The parameter list shared by the two delegation entry points:
/// `delegator` and `validator` public keys and a 512-bit `amount`.
pub open spec fn delegation_params_ok(params: Seq<Parameter>) -> bool {
    &&& params.len() == 3
    &&& params[0].name@ == "delegator"@
    &&& params[0].cl_type == ClType::PublicKey
    &&& params[1].name@ == "validator"@
    &&& params[1].cl_type == ClType::PublicKey
    &&& params[2].name@ == "amount"@
    &&& params[2].cl_type == ClType::U512
}

fn delegation_params() -> (r: Vec<Parameter>)
    ensures
        delegation_params_ok(r@),
{
    let mut params: Vec<Parameter> = Vec::new();
    params.push(Parameter { name: String::from_str("delegator"), cl_type: ClType::PublicKey });
    params.push(Parameter { name: String::from_str("validator"), cl_type: ClType::PublicKey });
    params.push(Parameter { name: String::from_str("amount"), cl_type: ClType::U512 });
    params
}

/// Builds the bootstrap plan: the `delegate` and `undelegate` entry
/// points, each taking a delegator, a validator and an amount and
/// returning unit, registered under the direct handle
/// `auction_manager_contract` and the wrapped-reference handle
/// `auction_manager_contract_hash`.
pub fn call() -> (r: InstallPlan)
    ensures
        r.entry_points@.len() == 2,
        r.entry_points@[0].name@ == "delegate"@,
        delegation_params_ok(r.entry_points@[0].params@),
        r.entry_points@[0].ret == ClType::Unit,
        r.entry_points@[1].name@ == "undelegate"@,
        delegation_params_ok(r.entry_points@[1].params@),
        r.entry_points@[1].ret == ClType::Unit,
        r.contract_key@ == "auction_manager_contract"@,
        r.hash_key@ == "auction_manager_contract_hash"@,
{
    let mut entry_points: Vec<EntryPointDecl> = Vec::new();
    entry_points.push(
        EntryPointDecl {
            name: String::from_str("delegate"),
            params: delegation_params(),
            ret: ClType::Unit,
        },
    );
    entry_points.push(
        EntryPointDecl {
            name: String::from_str("undelegate"),
            params: delegation_params(),
            ret: ClType::Unit,
        },
    );
    InstallPlan {
        entry_points,
        contract_key: String::from_str("auction_manager_contract"),
        hash_key: String::from_str("auction_manager_contract_hash"),
    }
}

} // verus!
