use grant_relay::authority::issue_grant;
use grant_relay::relay::complete_relay_call;
use grant_relay::relay::execute_relay_call;
use grant_relay::relay::resolve_probe;
use grant_relay::relay::CallArgs;
use grant_relay::relay::ContractCall;
use grant_relay::relay::NamedArg;
use grant_relay::relay::RelayError;
use grant_relay::store::GrantStore;
use grant_relay::values::Allowance;
use grant_relay::values::ProgramId;

/// A scripted stand-in for a target program: it answers the readiness
/// probe from a fixed flag, answers "ping" with a fixed sentinel, and
/// counts every call made to it.
struct FakeTarget {
    ready: bool,
    calls: Vec<(String, usize)>,
}

impl FakeTarget {
    fn new(ready: bool) -> FakeTarget {
        FakeTarget { ready, calls: Vec::new() }
    }

    fn perform(&mut self, call: &ContractCall) -> Vec<u8> {
        self.calls.push((call.entry_point.clone(), call.args.args.len()));
        if call.entry_point == "is_ready_to_accept_relay_call" {
            vec![self.ready as u8]
        } else if call.entry_point == "ping" {
            vec![0xbe, 0xef]
        } else {
            vec![]
        }
    }
}

fn granted_store(target: &ProgramId) -> GrantStore {
    let mut store = GrantStore::new();
    issue_grant(&mut store, target, 100, 200, Allowance::from_u64(5000));
    store
}

#[test]
fn ungranted_target_is_rejected_without_any_call() {
    let store = GrantStore::new();
    let target = ProgramId::new([b'Y'; 32]);
    let fake = FakeTarget::new(true);

    let request = ContractCall {
        target,
        entry_point: String::from("ping"),
        args: CallArgs { args: Vec::new() },
    };
    match execute_relay_call(&store, request) {
        Ok(_) => panic!("a target without a grant must not be authorized"),
        Err(e) => assert_eq!(e, RelayError::Unauthorized),
    }
    // The request never got far enough to name a call: the target saw nothing.
    assert_eq!(fake.calls.len(), 0);
}

#[test]
fn probe_asks_readiness_with_no_arguments() {
    let target = ProgramId::new([1u8; 32]);
    let store = granted_store(&target);
    let request = ContractCall {
        target,
        entry_point: String::from("ping"),
        args: CallArgs { args: Vec::new() },
    };
    let probe = execute_relay_call(&store, request).unwrap();
    let call = probe.probe_call();
    assert_eq!(call.target, target);
    assert_eq!(call.entry_point, "is_ready_to_accept_relay_call");
    assert_eq!(call.args.args.len(), 0);
}

#[test]
fn not_ready_target_aborts_and_nothing_is_forwarded() {
    let target = ProgramId::new([2u8; 32]);
    let store = granted_store(&target);
    let mut fake = FakeTarget::new(false);

    let request = ContractCall {
        target,
        entry_point: String::from("ping"),
        args: CallArgs { args: Vec::new() },
    };
    let probe = execute_relay_call(&store, request).unwrap();
    let ready = fake.perform(probe.probe_call()) == vec![1u8];
    match resolve_probe(probe, ready) {
        Ok(_) => panic!("a target that is not ready must not be forwarded to"),
        Err(e) => assert_eq!(e, RelayError::NotReady),
    }
    // Only the readiness probe reached the target; no forwarding call did.
    assert_eq!(fake.calls.len(), 1);
    assert_eq!(fake.calls[0].0, "is_ready_to_accept_relay_call");
}

#[test]
fn ready_target_receives_exact_entry_point_and_arguments() {
    let target = ProgramId::new([3u8; 32]);
    let store = granted_store(&target);
    let mut fake = FakeTarget::new(true);

    let args = CallArgs {
        args: vec![NamedArg { name: String::from("level"), value: vec![1, 2, 3] }],
    };
    let request = ContractCall {
        target,
        entry_point: String::from("set_level"),
        args: args.clone(),
    };
    let probe = execute_relay_call(&store, request).unwrap();
    let ready = fake.perform(probe.probe_call()) == vec![1u8];
    let forward = resolve_probe(probe, ready).unwrap();
    assert_eq!(forward.target, target);
    assert_eq!(forward.entry_point, "set_level");
    assert_eq!(forward.args, args);
}

#[test]
fn relayed_ping_returns_target_result_unchanged() {
    let target = ProgramId::new([b'X'; 32]);
    let store = granted_store(&target);
    let mut fake = FakeTarget::new(true);

    let request = ContractCall {
        target,
        entry_point: String::from("ping"),
        args: CallArgs { args: Vec::new() },
    };
    let probe = execute_relay_call(&store, request).unwrap();
    let ready = fake.perform(probe.probe_call()) == vec![1u8];
    let forward = resolve_probe(probe, ready).unwrap();
    let target_result = fake.perform(&forward);
    let relay_result = complete_relay_call(target_result.clone());
    assert_eq!(relay_result, vec![0xbe, 0xef]);
    assert_eq!(relay_result, target_result);

    assert_eq!(fake.calls.len(), 2);
    assert_eq!(fake.calls[0], (String::from("is_ready_to_accept_relay_call"), 0));
    assert_eq!(fake.calls[1], (String::from("ping"), 0));
}
