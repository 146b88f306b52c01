use zingo_bridge::commands::{is_fire_and_forget, tokenize_argument};
use zingo_bridge::dispatch::{dispatch, immediate_reply, synchronous_reply, Dispatch};
use zingo_bridge::lifecycle::deinitialize;
use zingo_bridge::store::SessionStore;

#[test]
fn execute_without_initialize_is_refused() {
    let store = SessionStore::new();
    let decision = dispatch(&store, "anything", "");
    assert!(matches!(decision, Dispatch::NotInitialized));
    let reply = immediate_reply(&decision);
    assert_eq!(reply.as_deref(), Some("Error: Light Client is not initialized"));
}

#[test]
fn every_command_is_refused_after_deinitialize() {
    let mut store = SessionStore::new();
    let handle = store.mint();
    store.set(handle);
    deinitialize(&mut store);
    for cmd in ["sync", "rescan", "import", "balance", "send", "addresses"] {
        let decision = dispatch(&store, cmd, "");
        assert!(matches!(decision, Dispatch::NotInitialized));
        let reply = immediate_reply(&decision);
        assert_eq!(reply.as_deref(), Some("Error: Light Client is not initialized"));
    }
}

#[test]
fn fire_and_forget_class_is_exactly_three_names() {
    assert!(is_fire_and_forget("sync"));
    assert!(is_fire_and_forget("rescan"));
    assert!(is_fire_and_forget("import"));
    assert!(!is_fire_and_forget("balance"));
    assert!(!is_fire_and_forget("send"));
    assert!(!is_fire_and_forget("Sync"));
    assert!(!is_fire_and_forget("sync "));
    assert!(!is_fire_and_forget(""));
}

#[test]
fn empty_argument_means_zero_arguments() {
    let tokens = tokenize_argument("");
    assert!(tokens.is_empty());
}

#[test]
fn nonempty_argument_is_one_single_token() {
    let tokens = tokenize_argument("zs1address 100 memo text");
    assert_eq!(tokens, vec!["zs1address 100 memo text".to_string()]);
}

#[test]
fn fire_and_forget_is_acknowledged_before_any_work() {
    let mut store = SessionStore::new();
    let handle = store.mint();
    store.set(handle);
    // a collaborator executor so slow it would fail the test if consulted
    let slow_executor = |_cmd: &str, _args: &[String]| -> String {
        panic!("the caller of a detached command must not wait on the executor")
    };
    let decision = dispatch(&store, "sync", "");
    match &decision {
        Dispatch::Detach { handle: h, command, arguments } => {
            assert_eq!(*h, handle);
            assert_eq!(command, "sync");
            assert!(arguments.is_empty());
        },
        _ => panic!("expected a detached command"),
    }
    // the acknowledgement exists before the executor ever runs
    let reply = immediate_reply(&decision);
    assert_eq!(reply.as_deref(), Some("OK"));
    let _unused = slow_executor;
}

#[test]
fn synchronous_command_carries_its_single_token() {
    let mut store = SessionStore::new();
    let handle = store.mint();
    store.set(handle);
    let decision = dispatch(&store, "send", "zs1address 100");
    match &decision {
        Dispatch::Run { handle: h, command, arguments } => {
            assert_eq!(*h, handle);
            assert_eq!(command, "send");
            assert_eq!(arguments, &vec!["zs1address 100".to_string()]);
        },
        _ => panic!("expected a synchronous command"),
    }
    assert_eq!(immediate_reply(&decision), None);
}

#[test]
fn synchronous_result_is_propagated_verbatim() {
    let executor_result = "{\"spendable\": 0, \"total\": 1234}".to_string();
    let reply = synchronous_reply(executor_result.clone());
    assert_eq!(reply, executor_result);
    let error_result = "Error: insufficient funds".to_string();
    assert_eq!(synchronous_reply(error_result.clone()), error_result);
}

#[test]
fn balance_before_sync_completes_is_not_an_error() {
    // the session is initialized; a pending detached sync does not block a
    // synchronous query from being routed to the executor
    let mut store = SessionStore::new();
    let handle = store.mint();
    store.set(handle);
    let sync_decision = dispatch(&store, "sync", "");
    assert_eq!(immediate_reply(&sync_decision).as_deref(), Some("OK"));
    let balance_decision = dispatch(&store, "balance", "");
    assert!(matches!(balance_decision, Dispatch::Run { .. }));
    let reply = synchronous_reply("{\"zbalance\": 0}".to_string());
    assert!(!reply.starts_with("Error: "));
}
