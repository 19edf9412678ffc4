//! The relay gate: checks that a grant authorizes the target program,
//! then probes the target's own readiness, and only then forwards the
//! named entry point with the caller's arguments, unchanged.
//!
//! This module decides; it does not itself invoke another program.  Each
//! decision step returns the call to perform next, and the caller hands
//! the outcome back: authorization yields a [`ReadinessProbe`] holding
//! the probe call to make, the probe's boolean outcome resolves into
//! either the forwarding call or a `NotReady` rejection, and the
//! forwarded call's raw result is returned verbatim.  A
//! [`ReadinessProbe`] can only be obtained from [`execute_relay_call`],
//! so holding one is evidence that the grant check passed.
//!
//! Cryptographic verification of the relaying caller is a known gap: no
//! signature check is performed anywhere along the relay path.

use vstd::prelude::*;

use crate::authority::is_granted;
use crate::grant_key::grant_key_spec;
use crate::store::GrantStore;
use crate::values::ProgramId;

verus! {

/// One named call argument: a name and the argument's raw bytes.
#[derive(Clone, Debug, PartialEq, Eq)]
pub struct NamedArg {
    pub name: String,
    pub value: Vec<u8>,
}

impl View for NamedArg {
    type V = (Seq<char>, Seq<u8>);

    open spec fn view(&self) -> (Seq<char>, Seq<u8>) {
        (self.name@, self.value@)
    }
}

/// The named arguments handed to a relayed call, in order.
#[derive(Clone, Debug, PartialEq, Eq)]
pub struct CallArgs {
    pub args: Vec<NamedArg>,
}

impl View for CallArgs {
    type V = Seq<(Seq<char>, Seq<u8>)>;

    open spec fn view(&self) -> Seq<(Seq<char>, Seq<u8>)> {
        self.args@.map_values(|a: NamedArg| a@)
    }
}

impl CallArgs {
    /// No arguments.
    pub fn new() -> (r: CallArgs)
        ensures
            r@ == Seq::<(Seq<char>, Seq<u8>)>::empty(),
    {
        let r = CallArgs { args: Vec::new() };
        proof {
            assert(r@ =~= Seq::<(Seq<char>, Seq<u8>)>::empty());
        }
        r
    }
}

/// An invocation of a target program: the target, the entry point to
/// invoke on it, and the named arguments to hand over.
#[derive(Clone, Debug, PartialEq, Eq)]
pub struct ContractCall {
    pub target: ProgramId,
    pub entry_point: String,
    pub args: CallArgs,
}

/// Rejection of a relayed call.
#[derive(Clone, Copy, Debug, PartialEq, Eq)]
pub enum RelayError {
    /// No grant is recorded for the target program.
    Unauthorized,
    /// The target program reported it cannot currently accept a relayed
    /// call.
    NotReady,
}

/// An authorized relay request awaiting the target's readiness probe.
/// Only [`execute_relay_call`] constructs one.
pub struct ReadinessProbe {
    probe_call: ContractCall,
    pending: ContractCall,
}

impl ReadinessProbe {
    /// The probe to perform: the target's own readiness entry point,
    /// invoked with no arguments.
    pub closed spec fn spec_probe_call(&self) -> ContractCall {
        self.probe_call
    }

    /// The authorized request whose forwarding awaits the probe outcome.
    pub closed spec fn spec_pending(&self) -> ContractCall {
        self.pending
    }

    /// The probe to perform next.
    pub fn probe_call(&self) -> (r: &ContractCall)
        ensures
            r == self.spec_probe_call(),
    {
        &self.probe_call
    }
}

/// Gate for a relayed call, first step.  If no grant is recorded for the
/// requested target, the request is rejected as `Unauthorized` and no
/// call of any kind is handed out.  If a grant is recorded, the request
/// is held pending and the next step asked for is the target's readiness probe:
/// an invocation of the target's `is_ready_to_accept_relay_call` entry
/// point with no arguments.  The grant's validity window is not compared
/// against the current time; existence of the grant alone authorizes.
pub fn execute_relay_call(store: &GrantStore, request: ContractCall) -> (r: Result<
    ReadinessProbe,
    RelayError,
>)
    requires
        store.wf(),
    ensures
        match r {
            Ok(probe) => {
                &&& store@.contains_key(grant_key_spec(request.target@))
                &&& probe.spec_pending() == request
                &&& probe.spec_probe_call().target == request.target
                &&& probe.spec_probe_call().entry_point@ == "is_ready_to_accept_relay_call"@
                &&& probe.spec_probe_call().args@ == Seq::<(Seq<char>, Seq<u8>)>::empty()
            },
            Err(e) => {
                &&& !store@.contains_key(grant_key_spec(request.target@))
                &&& e == RelayError::Unauthorized
            },
        },
{
    if !is_granted(store, &request.target) {
        return Err(RelayError::Unauthorized);
    }
    let probe_call = ContractCall {
        target: request.target,
        entry_point: String::from_str("is_ready_to_accept_relay_call"),
        args: CallArgs::new(),
    };
    Ok(ReadinessProbe { probe_call, pending: request })
}

/// Gate for a relayed call, second step: resolves the readiness probe's
/// outcome.  A target that reported itself not ready rejects the call as
/// `NotReady`, whatever the grant said, and nothing is forwarded.  A
/// ready target releases the pending request for forwarding: the very
/// entry point and arguments the caller gave, unchanged.
pub fn resolve_probe(probe: ReadinessProbe, ready: bool) -> (r: Result<ContractCall, RelayError>)
    ensures
        match r {
            Ok(forward) => ready && forward == probe.spec_pending(),
            Err(e) => !ready && e == RelayError::NotReady,
        },
{
    if !ready {
        return Err(RelayError::NotReady);
    }
    Ok(probe.pending)
}

/// Gate for a relayed call, last step: whatever raw result the forwarded
/// call produced is returned unmodified as the relay's own result.
pub fn complete_relay_call(target_result: Vec<u8>) -> (r: Vec<u8>)
    ensures
        r@ == target_result@,
{
    target_result
}

} // verus!
