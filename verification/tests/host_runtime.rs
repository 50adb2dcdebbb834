//! The host runtime protocol, exercised against real guest modules running
//! in the sandboxed virtual machine.

use plugin_host::abi::{FuncSig, ValType, Value};
use plugin_host::host::{
    instantiate, load, run_plugin, HostOutcome, InstanceState, ResolveError, TrapError,
};

/// A guest exporting `add(i32, i32) -> i32` and a no-op `run()`.
const ADD_GUEST: &[u8] = br#"
(module
  (func (export "add") (param i32 i32) (result i32)
    local.get 0
    local.get 1
    i32.add)
  (func (export "run")))
"#;

/// A guest whose only function traps at once.
const TRAP_GUEST: &[u8] = br#"
(module
  (func (export "boom")
    unreachable)
  (func (export "add") (param i32 i32) (result i32)
    local.get 0
    local.get 1
    i32.add))
"#;

fn add_sig() -> FuncSig {
    FuncSig { params: vec![ValType::I32, ValType::I32], results: vec![ValType::I32] }
}

#[test]
fn test_end_to_end_add() {
    let module = load(ADD_GUEST).expect("a valid module must load");
    let mut inst = instantiate(&module).expect("instantiation must succeed");
    assert_eq!(inst.state(), InstanceState::Ready);
    let handle = inst.resolve("add", &add_sig()).expect("resolution must succeed");
    let args = vec![Value::I32(2), Value::I32(40)];
    let vals = inst.invoke(&handle, &args).expect("the call must not trap");
    assert_eq!(vals, vec![Value::I32(42)]);
    assert_eq!(inst.state(), InstanceState::Ready);
}

#[test]
fn test_instance_reusable_after_success() {
    let module = load(ADD_GUEST).unwrap();
    let mut inst = instantiate(&module).unwrap();
    let handle = inst.resolve("add", &add_sig()).unwrap();
    let first = inst.invoke(&handle, &vec![Value::I32(1), Value::I32(2)]).unwrap();
    assert_eq!(first, vec![Value::I32(3)]);
    let second = inst.invoke(&handle, &vec![Value::I32(i32::MAX), Value::I32(1)]).unwrap();
    assert_eq!(second, vec![Value::I32(i32::MIN)]);
}

#[test]
fn test_resolve_type_mismatch() {
    let module = load(ADD_GUEST).unwrap();
    let inst = instantiate(&module).unwrap();
    let wrong = FuncSig { params: vec![ValType::I64], results: vec![ValType::I64] };
    let r = inst.resolve("add", &wrong);
    assert!(matches!(r, Err(ResolveError::TypeMismatch)));
}

#[test]
fn test_resolve_not_found() {
    let module = load(ADD_GUEST).unwrap();
    let inst = instantiate(&module).unwrap();
    let r = inst.resolve("no_such_export", &add_sig());
    assert!(matches!(r, Err(ResolveError::NotFound)));
}

#[test]
fn test_resolve_no_op_run() {
    let module = load(ADD_GUEST).unwrap();
    let mut inst = instantiate(&module).unwrap();
    let nullary = FuncSig { params: vec![], results: vec![] };
    let handle = inst.resolve("run", &nullary).expect("run() must resolve");
    let vals = inst.invoke(&handle, &vec![]).expect("run() must not trap");
    assert!(vals.is_empty());
}

#[test]
fn test_trap_isolation() {
    let module = load(TRAP_GUEST).unwrap();
    let mut inst = instantiate(&module).unwrap();
    let boom = FuncSig { params: vec![], results: vec![] };
    let handle = inst.resolve("boom", &boom).unwrap();
    let r = inst.invoke(&handle, &vec![]);
    assert!(matches!(r, Err(TrapError::Trap(_))));
    assert_eq!(inst.state(), InstanceState::Trapped);

    // The instance is terminal: every later call fails deterministically,
    // even through a handle whose own call never trapped.
    let add = inst.resolve("add", &add_sig()).unwrap();
    let again = inst.invoke(&add, &vec![Value::I32(2), Value::I32(40)]);
    assert!(matches!(again, Err(TrapError::InstanceUnusable)));
    let third = inst.invoke(&handle, &vec![]);
    assert!(matches!(third, Err(TrapError::InstanceUnusable)));
    assert_eq!(inst.state(), InstanceState::Trapped);
}

#[test]
fn test_resolve_non_function_export_mismatches() {
    let module = load(br#"(module (global (export "seven") i32 (i32.const 7)))"#).unwrap();
    let inst = instantiate(&module).unwrap();
    let r = inst.resolve("seven", &add_sig());
    assert!(matches!(r, Err(ResolveError::TypeMismatch)));
}

#[test]
fn test_resolve_export_outside_abi_types_mismatches() {
    let module = load(
        br#"(module (func (export "fadd") (param f32 f32) (result f32)
               local.get 0 local.get 1 f32.add))"#,
    )
    .unwrap();
    let inst = instantiate(&module).unwrap();
    let r = inst.resolve("fadd", &add_sig());
    assert!(matches!(r, Err(ResolveError::TypeMismatch)));
}

#[test]
fn test_invoke_i64_export() {
    let module = load(
        br#"(module (func (export "add64") (param i64 i64) (result i64)
               local.get 0 local.get 1 i64.add))"#,
    )
    .unwrap();
    let mut inst = instantiate(&module).unwrap();
    let sig = FuncSig { params: vec![ValType::I64, ValType::I64], results: vec![ValType::I64] };
    let handle = inst.resolve("add64", &sig).unwrap();
    let vals = inst.invoke(&handle, &vec![Value::I64(1 << 40), Value::I64(2)]).unwrap();
    assert_eq!(vals, vec![Value::I64((1 << 40) + 2)]);
}

#[test]
fn test_load_rejects_malformed_bytes() {
    let r = load(b"not a module at all");
    assert!(r.is_err());
    let e = r.err().unwrap();
    assert!(!e.message.is_empty());
}

#[test]
fn test_module_reusable_for_many_instances() {
    let module = load(ADD_GUEST).unwrap();
    let mut a = instantiate(&module).unwrap();
    let mut b = instantiate(&module).unwrap();
    let ha = a.resolve("add", &add_sig()).unwrap();
    let hb = b.resolve("add", &add_sig()).unwrap();
    assert_eq!(a.invoke(&ha, &vec![Value::I32(5), Value::I32(6)]).unwrap(), vec![Value::I32(11)]);
    assert_eq!(b.invoke(&hb, &vec![Value::I32(7), Value::I32(8)]).unwrap(), vec![Value::I32(15)]);
}

#[test]
fn test_instantiate_fails_on_unresolved_import() {
    let module = load(br#"(module (import "env" "f" (func)))"#).unwrap();
    let r = instantiate(&module);
    assert!(r.is_err());
    assert!(!r.err().unwrap().message.is_empty());
}

#[test]
fn test_instantiate_fails_on_trapping_start() {
    let module = load(br#"(module (func $s unreachable) (start $s))"#).unwrap();
    let r = instantiate(&module);
    assert!(r.is_err());
}

#[test]
fn test_run_plugin_missing_artifact_skips() {
    let r = run_plugin(None);
    assert!(matches!(r, HostOutcome::Skipped));
}

#[test]
fn test_run_plugin_end_to_end() {
    let r = run_plugin(Some(ADD_GUEST.to_vec()));
    match r {
        HostOutcome::Completed(v) => assert_eq!(v, Value::I32(42)),
        other => panic!("expected completion, got {other:?}"),
    }
}

#[test]
fn test_run_plugin_load_failure() {
    let r = run_plugin(Some(b"garbage".to_vec()));
    assert!(matches!(r, HostOutcome::LoadFailed(_)));
}

#[test]
fn test_run_plugin_instantiate_failure() {
    let r = run_plugin(Some(br#"(module (import "env" "f" (func)))"#.to_vec()));
    assert!(matches!(r, HostOutcome::InstantiateFailed(_)));
}

#[test]
fn test_run_plugin_resolve_failure() {
    // A valid guest, but it exports no `add`.
    let r = run_plugin(Some(br#"(module (func (export "other")))"#.to_vec()));
    assert!(matches!(r, HostOutcome::ResolveFailed(ResolveError::NotFound)));
}

#[test]
fn test_run_plugin_trapping_guest() {
    let r = run_plugin(Some(
        br#"(module (func (export "add") (param i32 i32) (result i32)
               unreachable))"#
            .to_vec(),
    ));
    assert!(matches!(r, HostOutcome::CallTrapped(TrapError::Trap(_))));
}
