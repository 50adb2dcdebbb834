//! The ABI's signature and argument typing rules.

use plugin_host::abi::{check_args, FuncSig, ValType, Value};

#[test]
fn test_sig_matches_exact() {
    let a = FuncSig { params: vec![ValType::I32, ValType::I32], results: vec![ValType::I32] };
    let b = FuncSig { params: vec![ValType::I32, ValType::I32], results: vec![ValType::I32] };
    assert!(a.matches(&b));
    assert!(b.matches(&a));
}

#[test]
fn test_sig_rejects_different_arity() {
    let a = FuncSig { params: vec![ValType::I32, ValType::I32], results: vec![ValType::I32] };
    let b = FuncSig { params: vec![ValType::I32], results: vec![ValType::I32] };
    assert!(!a.matches(&b));
}

#[test]
fn test_sig_rejects_different_types() {
    let a = FuncSig { params: vec![ValType::I32, ValType::I32], results: vec![ValType::I32] };
    let b = FuncSig { params: vec![ValType::I64, ValType::I64], results: vec![ValType::I64] };
    assert!(!a.matches(&b));
    let c = FuncSig { params: vec![ValType::I32, ValType::I32], results: vec![ValType::I64] };
    assert!(!a.matches(&c));
}

#[test]
fn test_check_args_pointwise() {
    let params = vec![ValType::I32, ValType::I64];
    assert!(check_args(&vec![Value::I32(1), Value::I64(2)], &params));
    assert!(!check_args(&vec![Value::I64(1), Value::I32(2)], &params));
    assert!(!check_args(&vec![Value::I32(1)], &params));
    assert!(check_args(&vec![], &vec![]));
}

#[test]
fn test_sig_duplicate_is_equal() {
    let a = FuncSig { params: vec![ValType::I64], results: vec![] };
    let d = a.duplicate();
    assert!(a.matches(&d));
    assert_eq!(d.params, vec![ValType::I64]);
    assert!(d.results.is_empty());
}
