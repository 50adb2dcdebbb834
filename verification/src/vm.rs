//! The trusted boundary to the sandboxed virtual machine (wasmtime) and to
//! its error type (anyhow). Each function here wraps exactly one outside
//! call; everything built on top of these wrappers is verified.
//!
//! A `wasmtime::Store` owns every instance created in it and every function
//! handle taken from such an instance; wasmtime's documentation makes using
//! a function with a store that does not own it a panic. The uninterpreted
//! functions `store_key`, `instance_key` and `func_key` name that ownership
//! relation so that the wrappers below can require it and never panic: a
//! handle may only be called in the store whose key it carries.

use vstd::prelude::*;
use crate::abi::{FuncSig, ValType, Value};

verus! {

#[verifier::external_type_specification]
#[verifier::external_body]
pub struct ExEngine(wasmtime::Engine);

#[verifier::external_type_specification]
#[verifier::external_body]
pub struct ExModule(wasmtime::Module);

#[verifier::external_type_specification]
#[verifier::external_body]
#[verifier::reject_recursive_types(T)]
pub struct ExStore<T>(wasmtime::Store<T>);

#[verifier::external_type_specification]
#[verifier::external_body]
pub struct ExInstance(wasmtime::Instance);

#[verifier::external_type_specification]
#[verifier::external_body]
pub struct ExFunc(wasmtime::Func);

#[verifier::external_type_specification]
#[verifier::external_body]
pub struct ExError(anyhow::Error);

/// The identity of a store, as the owner of instances and function handles.
pub uninterp spec fn store_key(s: wasmtime::Store<()>) -> int;

/// The key of the store that owns this instance.
pub uninterp spec fn instance_key(i: wasmtime::Instance) -> int;

/// The key of the store that owns this function handle.
pub uninterp spec fn func_key(f: wasmtime::Func) -> int;

/// Relies on wasmtime::Engine::default: an engine with the default,
/// synchronous configuration (the crate is built without async support,
/// so every store made from it performs blocking calls).
#[verifier::external_body]
pub(crate) fn engine_default() -> (r: wasmtime::Engine) {
    wasmtime::Engine::default()
}

/// Relies on wasmtime::Module::new: parses and validates a binary module
/// (or its text form), returning `Err` when the bytes are malformed, use an
/// unsupported format, or fail validation. Nothing is promised of the
/// outcome: the virtual machine decides what it accepts.
#[verifier::external_body]
pub(crate) fn module_new(engine: &wasmtime::Engine, bytes: &[u8]) -> (r: Result<
    wasmtime::Module,
    anyhow::Error,
>) {
    wasmtime::Module::new(engine, bytes)
}

/// Relies on wasmtime::Module::exports: the names of the module's exports,
/// in declaration order. A validated module's export names are unique (the
/// export table is keyed by name), so the names returned are pairwise
/// distinct.
#[verifier::external_body]
pub(crate) fn export_names(m: &wasmtime::Module) -> (r: Vec<String>)
    ensures
        forall|i: int, j: int| 0 <= i < j < r@.len() ==> r@[i]@ != r@[j]@,
{
    m.exports().map(|e| e.name().to_string()).collect()
}

/// Relies on wasmtime::Module::get_export: the type of the named export.
/// Returns the signature when the export exists, is a function, and uses
/// only ABI value types; `None` otherwise.
#[verifier::external_body]
pub(crate) fn export_func_sig(m: &wasmtime::Module, name: &str) -> (r: Option<FuncSig>) {
    let conv = |t: &wasmtime::ValType| match t {
        wasmtime::ValType::I32 => Some(ValType::I32),
        wasmtime::ValType::I64 => Some(ValType::I64),
        _ => None,
    };
    match m.get_export(name) {
        Some(wasmtime::ExternType::Func(f)) => {
            let params: Option<Vec<ValType>> = f.params().map(|t| conv(&t)).collect();
            let results: Option<Vec<ValType>> = f.results().map(|t| conv(&t)).collect();
            Some(FuncSig { params: params?, results: results? })
        },
        _ => None,
    }
}

/// Relies on wasmtime::Store::new: a fresh store tied to the given engine.
#[verifier::external_body]
pub(crate) fn store_new(engine: &wasmtime::Engine) -> (r: wasmtime::Store<()>) {
    wasmtime::Store::new(engine, ())
}

/// Relies on wasmtime::Instance::new with no imports: allocates the guest's
/// memory and tables and runs its start routine, returning `Err` when the
/// module requires imports, belongs to another engine, or its start routine
/// traps. The instance returned is owned by the store it was made in.
#[verifier::external_body]
pub(crate) fn instance_new(store: &mut wasmtime::Store<()>, m: &wasmtime::Module) -> (r: Result<
    wasmtime::Instance,
    anyhow::Error,
>)
    ensures
        store_key(*final(store)) == store_key(*old(store)),
        r matches Ok(i) ==> instance_key(i) == store_key(*final(store)),
{
    wasmtime::Instance::new(store, m, &[])
}

/// Relies on wasmtime::Instance::get_func: looks the named export up in the
/// instance and hands out its function handle, owned by the same store.
/// The instance must be owned by the store (using another store panics).
#[verifier::external_body]
pub(crate) fn instance_get_func(
    store: &mut wasmtime::Store<()>,
    i: &wasmtime::Instance,
    name: &str,
) -> (r: Option<wasmtime::Func>)
    requires
        instance_key(*i) == store_key(*old(store)),
    ensures
        store_key(*final(store)) == store_key(*old(store)),
        r matches Some(f) ==> func_key(f) == store_key(*final(store)),
{
    i.get_func(&mut *store, name)
}

/// Relies on wasmtime::Func::call: one synchronous call into the guest. On
/// `Ok` the guest ran to completion and one value per expected result was
/// written; on `Err` the call trapped (or was rejected by the virtual
/// machine) and the message describes the cause. The function handle must
/// be owned by the store (using another store panics).
#[verifier::external_body]
pub(crate) fn func_call(
    store: &mut wasmtime::Store<()>,
    f: &wasmtime::Func,
    args: &Vec<Value>,
    n_results: usize,
) -> (r: Result<Vec<Value>, String>)
    requires
        func_key(*f) == store_key(*old(store)),
    ensures
        store_key(*final(store)) == store_key(*old(store)),
        r matches Ok(vals) ==> vals@.len() == n_results,
{
    let ps: Vec<wasmtime::Val> = args.iter().map(|v| match v {
        Value::I32(x) => wasmtime::Val::I32(*x),
        Value::I64(x) => wasmtime::Val::I64(*x),
    }).collect();
    let mut rs = vec![wasmtime::Val::I32(0); n_results];
    if let Err(e) = f.call(&mut *store, &ps, &mut rs) {
        return Err(format!("{e:#}"));
    }
    rs.iter().map(|v| match v {
        wasmtime::Val::I32(x) => Ok(Value::I32(*x)),
        wasmtime::Val::I64(x) => Ok(Value::I64(*x)),
        _ => Err("call returned a value outside the ABI types".to_string()),
    }).collect()
}

/// Relies on anyhow::Error's display form: the error's description, with
/// its chain of causes.
#[verifier::external_body]
pub(crate) fn error_text(e: &anyhow::Error) -> (r: String) {
    format!("{e:#}")
}

} // verus!
