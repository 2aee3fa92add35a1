//! Tests for the orchestrator lifecycle, the action queue and the
//! per-context action application.

use libfjs::engine::{
    bridge_arity, clear_modules, declare_module, declare_modules, declared_module_names,
    is_module_declared, queued_eval_options, sync_promise_gate, BridgeArity, JsAction,
    JsActionResult, JsEngineCore, ResolvedModule,
};
use libfjs::error::{JsError, JsResult};
use libfjs::module::ContextLocals;
use libfjs::source::{JsCode, JsEvalOptions};
use libfjs::value::JsValue;

fn eval_action(id: u32, code: &str) -> JsAction {
    JsAction::Eval {
        id,
        source: JsCode::Code(code.to_string()),
        options: None,
    }
}

#[test]
fn test_engine_initial_state() {
    let core = JsEngineCore::new();
    assert!(!core.disposed());
    assert!(!core.running());
}

#[test]
fn test_engine_init() {
    let mut core = JsEngineCore::new();
    assert!(core.init().is_ok());
    assert!(core.running());
    assert!(!core.disposed());
}

#[test]
fn test_engine_double_init_fails() {
    let mut core = JsEngineCore::new();
    assert!(core.init().is_ok());
    let second = core.init();
    assert!(second.is_err());
    assert!(core.running());
}

#[test]
fn test_engine_dispose() {
    let mut core = JsEngineCore::new();
    core.init().unwrap();
    assert!(core.dispose().is_ok());
    assert!(core.disposed());
    assert!(!core.running());
}

#[test]
fn test_engine_double_dispose_fails() {
    let mut core = JsEngineCore::new();
    core.init().unwrap();
    core.dispose().unwrap();
    let second = core.dispose();
    assert!(second.is_err());
    assert!(core.disposed());
}

#[test]
fn test_engine_dispose_before_init() {
    // Created goes straight to Disposed on failure paths.
    let mut core = JsEngineCore::new();
    assert!(core.dispose().is_ok());
    assert!(core.disposed());
}

#[test]
fn test_engine_exec_before_init_fails() {
    let mut core = JsEngineCore::new();
    let r = core.exec(eval_action(1, "1 + 1"));
    assert!(r.is_err());
    assert!(matches!(r.unwrap_err(), JsError::Engine(_)));
}

#[test]
fn test_engine_exec_after_dispose_fails() {
    let mut core = JsEngineCore::new();
    core.init().unwrap();
    core.dispose().unwrap();
    let r = core.exec(eval_action(1, "1 + 1"));
    assert!(r.is_err());
    assert!(matches!(r.unwrap_err(), JsError::Engine(_)));
}

#[test]
fn test_engine_init_after_dispose_fails() {
    let mut core = JsEngineCore::new();
    core.dispose().unwrap();
    assert!(core.init().is_err());
    assert!(core.disposed());
}

#[test]
fn test_engine_queue_order_and_ids() {
    // Three submissions are consumed strictly in submission order, and each
    // reply carries its own action's identifier even if an earlier action's
    // continuation settles later.
    let mut core = JsEngineCore::new();
    core.init().unwrap();
    core.exec(eval_action(11, "slow()")).unwrap();
    core.exec(eval_action(22, "fast()")).unwrap();
    core.exec(eval_action(33, "other()")).unwrap();

    let first = core.take_next().unwrap();
    let second = core.take_next().unwrap();
    let third = core.take_next().unwrap();
    assert_eq!(first.id(), 11);
    assert_eq!(second.id(), 22);
    assert_eq!(third.id(), 33);
    assert!(core.take_next().is_none());

    // Results are paired with the id of the action they answer, however
    // late that answer arrives.
    let late_first = JsActionResult::new(first.id(), JsResult::ok(JsValue::Integer(1)));
    let early_second = JsActionResult::new(second.id(), JsResult::ok(JsValue::Integer(2)));
    assert_eq!(late_first.id, 11);
    assert_eq!(early_second.id, 22);
}

#[test]
fn test_engine_take_next_stops_after_dispose() {
    let mut core = JsEngineCore::new();
    core.init().unwrap();
    core.exec(eval_action(1, "1")).unwrap();
    core.dispose().unwrap();
    assert!(core.take_next().is_none());
}

#[test]
fn test_queued_eval_options_force_promise() {
    let forced = queued_eval_options(None);
    assert_eq!(forced.promise, Some(true));
    assert_eq!(forced.global, None);

    let custom = queued_eval_options(Some(JsEvalOptions::new(
        Some(false),
        Some(true),
        None,
        Some(false),
    )));
    assert_eq!(custom.promise, Some(true));
    assert_eq!(custom.global, Some(false));
    assert_eq!(custom.strict, Some(true));
}

#[test]
fn test_sync_promise_gate() {
    assert!(sync_promise_gate(&JsEvalOptions::defaults()).is_ok());
    assert!(sync_promise_gate(&JsEvalOptions::default()).is_ok());
    let rejected = sync_promise_gate(&JsEvalOptions::with_promise());
    match rejected {
        Err(JsError::Promise(msg)) => {
            assert_eq!(msg, "Promise not supported in sync context");
        }
        _ => panic!("promise support must be rejected outright in sync mode"),
    }
}

#[test]
fn test_bridge_arity() {
    assert_eq!(bridge_arity(1), BridgeArity::Accepted);
    assert_eq!(bridge_arity(0), BridgeArity::Missing);
    assert_eq!(bridge_arity(2), BridgeArity::TooMany);
    assert_eq!(bridge_arity(9), BridgeArity::TooMany);
}

#[test]
fn test_declare_then_is_declared() {
    let mut locals = ContextLocals::with_store();
    let r = declare_module(&mut locals, "m".to_string(), b"export {}".to_vec());
    assert!(matches!(r, JsResult::Success(JsValue::Absent)));

    match is_module_declared(&locals, "m") {
        JsResult::Success(JsValue::Boolean(found)) => assert!(found),
        _ => panic!("expected a boolean"),
    }
    match is_module_declared(&locals, "other") {
        JsResult::Success(JsValue::Boolean(found)) => assert!(!found),
        _ => panic!("expected a boolean"),
    }
}

#[test]
fn test_clear_undeclares_all_names() {
    let mut locals = ContextLocals::with_store();
    declare_module(&mut locals, "a".to_string(), vec![1]);
    declare_module(&mut locals, "b".to_string(), vec![2]);

    let r = clear_modules(&mut locals);
    assert!(matches!(r, JsResult::Success(JsValue::Absent)));

    for name in ["a", "b"] {
        match is_module_declared(&locals, name) {
            JsResult::Success(JsValue::Boolean(found)) => assert!(!found),
            _ => panic!("expected a boolean"),
        }
    }
}

#[test]
fn test_declare_twice_second_wins() {
    let mut locals = ContextLocals::with_store();
    declare_module(&mut locals, "m".to_string(), b"first".to_vec());
    declare_module(&mut locals, "m".to_string(), b"second".to_vec());

    let store = locals.store.as_ref().unwrap();
    assert_eq!(store.get("m"), Some(&b"second".to_vec()));
    assert_eq!(store.names().len(), 1);
}

#[test]
fn test_declared_module_names_lists_each_once() {
    let mut locals = ContextLocals::with_store();
    declare_module(&mut locals, "mod-a".to_string(), vec![1]);
    declare_module(&mut locals, "mod-b".to_string(), vec![2]);

    match declared_module_names(&locals) {
        JsResult::Success(JsValue::Array(names)) => {
            assert_eq!(names.len(), 2);
            assert!(names.contains(&JsValue::String("mod-a".to_string())));
            assert!(names.contains(&JsValue::String("mod-b".to_string())));
        }
        _ => panic!("expected an array of names"),
    }
}

#[test]
fn test_store_actions_without_store_fail_as_storage() {
    let mut locals = ContextLocals::new();
    let r = declare_module(&mut locals, "m".to_string(), vec![]);
    assert!(matches!(r, JsResult::Failure(JsError::Storage(_))));
    let r = clear_modules(&mut locals);
    assert!(matches!(r, JsResult::Failure(JsError::Storage(_))));
    let r = is_module_declared(&locals, "m");
    assert!(matches!(r, JsResult::Failure(JsError::Storage(_))));
    let r = declared_module_names(&locals);
    assert!(matches!(r, JsResult::Failure(JsError::Storage(_))));
}

#[test]
fn test_declare_modules_all_ok() {
    let mut locals = ContextLocals::with_store();
    let r = declare_modules(
        &mut locals,
        vec![
            ResolvedModule { name: "one".to_string(), source: Ok(vec![1]) },
            ResolvedModule { name: "two".to_string(), source: Ok(vec![2]) },
        ],
    );
    assert!(matches!(r, JsResult::Success(JsValue::Absent)));
    let store = locals.store.as_ref().unwrap();
    assert!(store.contains("one"));
    assert!(store.contains("two"));
}

#[test]
fn test_declare_modules_stops_at_first_failure() {
    let mut locals = ContextLocals::with_store();
    let io = JsError::io(Some("/gone.js".to_string()), "no such file".to_string());
    let r = declare_modules(
        &mut locals,
        vec![
            ResolvedModule { name: "before".to_string(), source: Ok(vec![1]) },
            ResolvedModule { name: "broken".to_string(), source: Err(io) },
            ResolvedModule { name: "after".to_string(), source: Ok(vec![3]) },
        ],
    );
    // Only the failure is reported, and the modules after it stay
    // undeclared while the ones before it stay declared.
    match r {
        JsResult::Failure(JsError::Io { path, .. }) => {
            assert_eq!(path, Some("/gone.js".to_string()));
        }
        _ => panic!("expected the resolution failure"),
    }
    let store = locals.store.as_ref().unwrap();
    assert!(store.contains("before"));
    assert!(!store.contains("broken"));
    assert!(!store.contains("after"));
}
