//! The host runtime: load a module from bytes, instantiate it in a
//! sandboxed virtual machine, resolve a typed export by name, and perform
//! synchronous calls, with every failure surfaced as a distinct outcome.
//!
//! Per instance the states are `Ready` (after successful initialization,
//! reusable across successful calls) and `Trapped` (terminal: entered when a
//! call traps, never left; every later call fails with
//! `TrapError::InstanceUnusable`).

use vstd::prelude::*;
use crate::abi::{FuncSig, SigModel, ValType, Value, values_match};
use crate::text::str_eq;
use crate::vm;

verus! {

/// The artifact's bytes are malformed, use an unsupported format, or fail
/// validation; nothing was instantiated.
#[derive(Debug)]
pub struct LoadError {
    pub message: String,
}

/// Instantiation failed: the module requires imports, or its start routine
/// trapped.
#[derive(Debug)]
pub struct InstantiateError {
    pub message: String,
}

/// Export lookup failed; resolution has no side effect on the instance.
#[derive(Clone, Copy, PartialEq, Eq, Structural, Debug)]
pub enum ResolveError {
    /// No export of the requested name exists.
    NotFound,
    /// The export exists, but under a different arity or different types.
    TypeMismatch,
}

/// A guest call failed; no partial result is returned.
#[derive(Debug)]
pub enum TrapError {
    /// The guest aborted this call; the message describes the cause.
    Trap(String),
    /// The instance trapped on an earlier call and is terminally unusable.
    InstanceUnusable,
}

/// The mathematical model of one export: its name and, when it is a
/// function over ABI types, its signature.
pub ghost struct ExportModel {
    pub name: Seq<char>,
    pub sig: Option<SigModel>,
}

/// Export names are pairwise distinct.
pub open spec fn unique_names(exports: Seq<ExportModel>) -> bool {
    forall|i: int, j: int|
        0 <= i < j < exports.len() ==> (#[trigger] exports[i]).name != (#[trigger] exports[j]).name
}

/// Some export carries this name.
pub open spec fn has_export(exports: Seq<ExportModel>, name: Seq<char>) -> bool {
    exists|i: int| 0 <= i < exports.len() && (#[trigger] exports[i]).name == name
}

/// The export carrying this name (unique when `unique_names` holds).
pub open spec fn export_named(exports: Seq<ExportModel>, name: Seq<char>) -> ExportModel {
    exports[choose|i: int| 0 <= i < exports.len() && (#[trigger] exports[i]).name == name]
}

proof fn lemma_export_named_at(exports: Seq<ExportModel>, name: Seq<char>, i: int)
    requires
        unique_names(exports),
        0 <= i < exports.len(),
        exports[i].name == name,
    ensures
        has_export(exports, name),
        export_named(exports, name) == exports[i],
{
    assert(has_export(exports, name));
    let k = choose|k: int| 0 <= k < exports.len() && (#[trigger] exports[k]).name == name;
    if k != i {
        assert(exports[k].name != exports[i].name);
    }
}

/// One named export of a loaded module.
struct NamedSig {
    name: String,
    sig: Option<FuncSig>,
}

impl View for NamedSig {
    type V = ExportModel;

    closed spec fn view(&self) -> ExportModel {
        ExportModel {
            name: self.name@,
            sig: match self.sig {
                Some(s) => Some(s@),
                None => None,
            },
        }
    }
}

/// An immutable, validated, compiled representation of guest code, parsed
/// once from a byte source; it may be instantiated any number of times.
pub struct GuestModule {
    engine: wasmtime::Engine,
    module: wasmtime::Module,
    exports: Vec<NamedSig>,
}

impl GuestModule {
    /// The module's export surface: every export by name, with a signature
    /// exactly when it is a function over ABI types.
    pub closed spec fn export_table(self) -> Seq<ExportModel> {
        self.exports@.map_values(|e: NamedSig| e@)
    }

    /// A validated module's export names are pairwise distinct.
    pub closed spec fn wf(self) -> bool {
        unique_names(self.export_table())
    }
}

/// Load: parse and validate a guest artifact. Fails with `LoadError` when
/// the virtual machine rejects the bytes; nothing is ever partially
/// instantiated. On success the module is well formed: its export names
/// are pairwise distinct.
pub fn load(bytes: &[u8]) -> (r: Result<GuestModule, LoadError>)
    ensures
        r matches Ok(m) ==> m.wf(),
{
    let engine = vm::engine_default();
    let module = match vm::module_new(&engine, bytes) {
        Ok(m) => m,
        Err(e) => return Err(LoadError { message: vm::error_text(&e) }),
    };
    let names = vm::export_names(&module);
    let mut exports: Vec<NamedSig> = Vec::new();
    let mut i: usize = 0;
    while i < names.len()
        invariant
            0 <= i <= names@.len(),
            exports@.len() == i,
            forall|a: int, b: int| 0 <= a < b < names@.len() ==> names@[a]@ != names@[b]@,
            forall|j: int| 0 <= j < i ==> (#[trigger] exports@[j])@.name == names@[j]@,
        decreases names@.len() - i,
    {
        let name = names[i].clone();
        let sig = vm::export_func_sig(&module, name.as_str());
        exports.push(NamedSig { name, sig });
        i += 1;
    }
    let m = GuestModule { engine, module, exports };
    proof {
        assert forall|a: int, b: int| 0 <= a < b < m.export_table().len() implies (
        #[trigger] m.export_table()[a]).name != (#[trigger] m.export_table()[b]).name by {
            assert(m.export_table()[a].name == names@[a]@);
            assert(m.export_table()[b].name == names@[b]@);
        }
    }
    Ok(m)
}

/// The lifecycle state of one instance.
#[derive(Clone, Copy, PartialEq, Eq, Structural, Debug)]
pub enum InstanceState {
    /// Initialized; calls are permitted (and remain permitted after every
    /// successful call).
    Ready,
    /// A call trapped; the state is terminal and every later call fails.
    Trapped,
}

/// One export of a live instance: its name, its signature when it is a
/// callable function over ABI types, and in exactly that case the bound
/// function handle.
struct Export {
    name: String,
    sig: Option<FuncSig>,
    func: Option<wasmtime::Func>,
}

impl View for Export {
    type V = ExportModel;

    closed spec fn view(&self) -> ExportModel {
        ExportModel {
            name: self.name@,
            sig: match self.sig {
                Some(s) => Some(s@),
                None => None,
            },
        }
    }
}

/// A reference into an instance's function table, bound at resolution time
/// to a signature that exactly matches the guest's exported one.
pub struct TypedExportHandle {
    index: usize,
    sig: FuncSig,
}

/// The mathematical model of a typed export handle.
pub ghost struct HandleModel {
    pub index: int,
    pub sig: SigModel,
}

impl View for TypedExportHandle {
    type V = HandleModel;

    closed spec fn view(&self) -> HandleModel {
        HandleModel { index: self.index as int, sig: self.sig@ }
    }
}

/// A live, isolated execution context created from exactly one module,
/// holding its own linear memory and function table.
pub struct GuestInstance {
    store: wasmtime::Store<()>,
    exports: Vec<Export>,
    state: InstanceState,
}

impl GuestInstance {
    /// The instance's export surface (identical to its module's).
    pub closed spec fn export_table(self) -> Seq<ExportModel> {
        self.exports@.map_values(|e: Export| e@)
    }

    /// The instance's lifecycle state.
    pub closed spec fn status(self) -> InstanceState {
        self.state
    }

    /// Well-formedness: export names are pairwise distinct, an export has a
    /// bound function handle exactly when it has a signature, and every
    /// bound handle is owned by this instance's store.
    pub closed spec fn wf(self) -> bool {
        &&& unique_names(self.export_table())
        &&& forall|j: int|
            0 <= j < self.exports@.len() ==> ((#[trigger] self.exports@[j]).sig is Some <==> self.exports@[j].func is Some)
        &&& forall|j: int|
            0 <= j < self.exports@.len() ==> ((#[trigger] self.exports@[j]).func matches Some(f)
                ==> vm::func_key(f) == vm::store_key(self.store))
    }

    /// A handle is valid for this instance when it points at an export
    /// whose signature is exactly the handle's.
    pub open spec fn valid_handle(self, h: HandleModel) -> bool {
        &&& 0 <= h.index < self.export_table().len()
        &&& self.export_table()[h.index].sig == Some(h.sig)
    }
}

/// Instantiate: allocate the guest's memory and function table and run its
/// start routine, in a fresh store. Fails with `InstantiateError` when
/// initialization traps or required imports are unresolved (this host
/// provides none). On success the instance is `Ready` and its export
/// surface is exactly the module's.
pub fn instantiate(m: &GuestModule) -> (r: Result<GuestInstance, InstantiateError>)
    requires
        m.wf(),
    ensures
        r matches Ok(inst) ==> inst.wf() && inst.status() == InstanceState::Ready
            && inst.export_table() == m.export_table(),
{
    let mut store = vm::store_new(&m.engine);
    let raw = match vm::instance_new(&mut store, &m.module) {
        Ok(i) => i,
        Err(e) => return Err(InstantiateError { message: vm::error_text(&e) }),
    };
    let mut exports: Vec<Export> = Vec::new();
    let mut i: usize = 0;
    while i < m.exports.len()
        invariant
            0 <= i <= m.exports@.len(),
            exports@.len() == i,
            vm::instance_key(raw) == vm::store_key(store),
            forall|j: int| 0 <= j < i ==> (#[trigger] exports@[j])@ == m.exports@[j]@,
            forall|j: int|
                0 <= j < i ==> ((#[trigger] exports@[j]).sig is Some <==> exports@[j].func is Some),
            forall|j: int|
                0 <= j < i ==> ((#[trigger] exports@[j]).func matches Some(f)
                    ==> vm::func_key(f) == vm::store_key(store)),
        decreases m.exports@.len() - i,
    {
        let entry = &m.exports[i];
        let name = entry.name.clone();
        match &entry.sig {
            Some(s) => {
                match vm::instance_get_func(&mut store, &raw, name.as_str()) {
                    Some(f) => exports.push(
                        Export { name, sig: Some(s.duplicate()), func: Some(f) },
                    ),
                    None => return Err(
                        InstantiateError {
                            message: "an exported function could not be bound".to_owned(),
                        },
                    ),
                }
            },
            None => exports.push(Export { name, sig: None, func: None }),
        }
        i += 1;
    }
    let inst = GuestInstance { store, exports, state: InstanceState::Ready };
    proof {
        assert(inst.export_table() =~= m.export_table());
    }
    Ok(inst)
}

impl GuestInstance {
    /// Resolve: look an export up by exact name. Fails with `NotFound` when
    /// no export carries the name, with `TypeMismatch` when one does but not
    /// under exactly the expected function signature; succeeds otherwise,
    /// binding a handle to that signature. Resolution never changes the
    /// instance.
    pub fn resolve(&self, name: &str, expected: &FuncSig) -> (r: Result<
        TypedExportHandle,
        ResolveError,
    >)
        requires
            self.wf(),
        ensures
            r matches Ok(h) ==> self.valid_handle(h@) && h@.sig == expected@,
            r is Ok <==> (has_export(self.export_table(), name@)
                && export_named(self.export_table(), name@).sig == Some(expected@)),
            (r == Err::<TypedExportHandle, ResolveError>(ResolveError::NotFound)) <==> !has_export(
                self.export_table(),
                name@,
            ),
            (r == Err::<TypedExportHandle, ResolveError>(ResolveError::TypeMismatch)) <==> (
            has_export(self.export_table(), name@) && export_named(self.export_table(), name@).sig
                != Some(expected@)),
    {
        let ghost table = self.export_table();
        let mut i: usize = 0;
        while i < self.exports.len()
            invariant
                0 <= i <= self.exports@.len(),
                table == self.export_table(),
                self.wf(),
                forall|j: int| 0 <= j < i ==> (#[trigger] table[j]).name != name@,
            decreases self.exports@.len() - i,
        {
            if str_eq(self.exports[i].name.as_str(), name) {
                proof {
                    lemma_export_named_at(table, name@, i as int);
                }
                match &self.exports[i].sig {
                    Some(s) => {
                        if s.matches(expected) {
                            return Ok(TypedExportHandle { index: i, sig: expected.duplicate() });
                        } else {
                            return Err(ResolveError::TypeMismatch);
                        }
                    },
                    None => return Err(ResolveError::TypeMismatch),
                }
            }
            i += 1;
        }
        proof {
            assert forall|j: int| 0 <= j < table.len() implies (#[trigger] table[j]).name != name@
            by {}
        }
        Err(ResolveError::NotFound)
    }

    /// Invoke: exactly one synchronous call into the guest through a
    /// resolved handle, with arguments typed by the handle's signature.
    /// Either a fully formed result vector comes back (one value per result
    /// type) and the instance stays `Ready`, or the call traps, the trap is
    /// reported, and the instance is `Trapped` from then on: a trapped
    /// instance fails every call with `InstanceUnusable`, deterministically,
    /// and is never silently reused.
    pub fn invoke(&mut self, handle: &TypedExportHandle, args: &Vec<Value>) -> (r: Result<
        Vec<Value>,
        TrapError,
    >)
        requires
            old(self).wf(),
            old(self).valid_handle(handle@),
            values_match(args@, handle@.sig.params),
        ensures
            final(self).wf(),
            final(self).export_table() == old(self).export_table(),
            (r == Err::<Vec<Value>, TrapError>(TrapError::InstanceUnusable)) <==> old(
                self,
            ).status() == InstanceState::Trapped,
            old(self).status() == InstanceState::Trapped ==> *final(self) == *old(self),
            final(self).status() == InstanceState::Trapped <==> (old(self).status()
                == InstanceState::Trapped || r is Err),
            r matches Ok(vals) ==> vals@.len() == handle@.sig.results.len(),
            r matches Err(e) ==> (old(self).status() == InstanceState::Ready ==> e matches
                TrapError::Trap(_)),
    {
        match self.state {
            InstanceState::Trapped => Err(TrapError::InstanceUnusable),
            InstanceState::Ready => {
                let n_results = handle.sig.results.len();
                let f = self.exports[handle.index].func.as_ref().unwrap();
                match vm::func_call(&mut self.store, f, args, n_results) {
                    Ok(vals) => Ok(vals),
                    Err(m) => {
                        self.state = InstanceState::Trapped;
                        Err(TrapError::Trap(m))
                    },
                }
            },
        }
    }

    /// The instance's current lifecycle state.
    pub fn state(&self) -> (r: InstanceState)
        ensures
            r == self.status(),
    {
        self.state
    }
}

/// Everything one host run can end in; each failing stage is a distinct,
/// inspectable outcome, and an absent artifact is a soft skip, not an error.
#[derive(Debug)]
pub enum HostOutcome {
    /// No artifact was present; nothing was loaded, instantiated, resolved
    /// or invoked.
    Skipped,
    /// The full protocol succeeded; the guest's result is carried along.
    Completed(Value),
    LoadFailed(LoadError),
    InstantiateFailed(InstantiateError),
    ResolveFailed(ResolveError),
    CallTrapped(TrapError),
}

/// The signature the host expects of the guest's `add` export:
/// `(i32, i32) -> i32`.
pub fn add_signature() -> (r: FuncSig)
    ensures
        r@.params == seq![ValType::I32, ValType::I32],
        r@.results == seq![ValType::I32],
{
    let mut params: Vec<ValType> = Vec::new();
    params.push(ValType::I32);
    params.push(ValType::I32);
    let mut results: Vec<ValType> = Vec::new();
    results.push(ValType::I32);
    proof {
        assert(params@ =~= seq![ValType::I32, ValType::I32]);
        assert(results@ =~= seq![ValType::I32]);
    }
    FuncSig { params, results }
}

/// One full host run over a present artifact: load, instantiate, resolve
/// `add` as `(i32, i32) -> i32`, call it with `(2, 40)`, and surface the
/// first failing stage, if any, as that stage's outcome.
pub fn run_module(bytes: &[u8]) -> (r: HostOutcome)
    ensures
        !(r is Skipped),
{
    let module = match load(bytes) {
        Ok(m) => m,
        Err(e) => return HostOutcome::LoadFailed(e),
    };
    let mut inst = match instantiate(&module) {
        Ok(i) => i,
        Err(e) => return HostOutcome::InstantiateFailed(e),
    };
    let sig = add_signature();
    let handle = match inst.resolve("add", &sig) {
        Ok(h) => h,
        Err(e) => return HostOutcome::ResolveFailed(e),
    };
    let mut args: Vec<Value> = Vec::new();
    args.push(Value::I32(2));
    args.push(Value::I32(40));
    match inst.invoke(&handle, &args) {
        Ok(vals) => HostOutcome::Completed(vals[0]),
        Err(e) => HostOutcome::CallTrapped(e),
    }
}

/// The host's top-level decision: with no artifact it completes without
/// error by skipping (performing no load, instantiation, resolution or
/// call); with one present it runs the full protocol.
pub fn run_plugin(artifact: Option<Vec<u8>>) -> (r: HostOutcome)
    ensures
        (r is Skipped) <==> (artifact is None),
{
    match artifact {
        None => HostOutcome::Skipped,
        Some(bytes) => run_module(bytes.as_slice()),
    }
}

} // verus!
