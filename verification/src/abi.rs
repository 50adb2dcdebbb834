//! The ABI shared between host and guest: a fixed, small set of primitive
//! numeric value types, typed function signatures over them, and dynamically
//! tagged argument/result values.

use vstd::prelude::*;

verus! {

/// A primitive numeric type of the ABI. Exports whose signatures use any
/// type outside this set are visible by name but cannot be bound to a
/// typed handle.
#[derive(Clone, Copy, PartialEq, Eq, Structural, Debug)]
pub enum ValType {
    I32,
    I64,
}

/// A dynamically tagged value crossing the host/guest boundary.
#[derive(Clone, Copy, PartialEq, Eq, Structural, Debug)]
pub enum Value {
    I32(i32),
    I64(i64),
}

/// The ABI type of a tagged value.
pub open spec fn type_of(v: Value) -> ValType {
    match v {
        Value::I32(_) => ValType::I32,
        Value::I64(_) => ValType::I64,
    }
}

/// A sequence of values is well-typed against a sequence of parameter
/// types when it has the same length and matches it pointwise.
pub open spec fn values_match(vals: Seq<Value>, types: Seq<ValType>) -> bool {
    &&& vals.len() == types.len()
    &&& forall|i: int| 0 <= i < vals.len() ==> type_of(#[trigger] vals[i]) == types[i]
}

/// The mathematical model of a function signature: parameter and result
/// types, in order.
pub ghost struct SigModel {
    pub params: Seq<ValType>,
    pub results: Seq<ValType>,
}

/// A fixed, statically typed function signature `(T1, T2, ...) -> (R, ...)`.
#[derive(Clone, Debug)]
pub struct FuncSig {
    pub params: Vec<ValType>,
    pub results: Vec<ValType>,
}

impl View for FuncSig {
    type V = SigModel;

    open spec fn view(&self) -> SigModel {
        SigModel { params: self.params@, results: self.results@ }
    }
}

impl FuncSig {
    /// A copy of this signature, equal to it in the model.
    pub fn duplicate(&self) -> (r: FuncSig)
        ensures
            r@ == self@,
    {
        FuncSig { params: copy_val_types(&self.params), results: copy_val_types(&self.results) }
    }

    /// Exact signature equality: same parameter types and same result
    /// types, in the same order; no arity or type coercion.
    pub fn matches(&self, other: &FuncSig) -> (r: bool)
        ensures
            r <==> self@ == other@,
    {
        let p = val_types_eq(&self.params, &other.params);
        let q = val_types_eq(&self.results, &other.results);
        proof {
            if self.params@ =~= other.params@ && self.results@ =~= other.results@ {
                assert(self@ == other@);
            }
        }
        p && q
    }
}

/// An element-for-element copy of a list of ABI types.
fn copy_val_types(v: &Vec<ValType>) -> (r: Vec<ValType>)
    ensures
        r@ == v@,
{
    let mut r: Vec<ValType> = Vec::new();
    let mut i: usize = 0;
    while i < v.len()
        invariant
            0 <= i <= v@.len(),
            r@ =~= v@.take(i as int),
        decreases v@.len() - i,
    {
        r.push(v[i]);
        i += 1;
    }
    proof {
        assert(r@ =~= v@);
    }
    r
}

/// Pointwise equality of two lists of ABI types.
fn val_types_eq(a: &Vec<ValType>, b: &Vec<ValType>) -> (r: bool)
    ensures
        r <==> a@ == b@,
{
    if a.len() != b.len() {
        return false;
    }
    let mut i: usize = 0;
    while i < a.len()
        invariant
            0 <= i <= a.len(),
            a.len() == b.len(),
            forall|j: int| 0 <= j < i ==> a@[j] == b@[j],
        decreases a.len() - i,
    {
        if a[i] != b[i] {
            return false;
        }
        i += 1;
    }
    proof {
        assert(a@ =~= b@);
    }
    true
}

/// Typed arguments can be checked dynamically against a parameter list;
/// the result says exactly whether `values_match` holds.
pub fn check_args(args: &Vec<Value>, params: &Vec<ValType>) -> (r: bool)
    ensures
        r <==> values_match(args@, params@),
{
    if args.len() != params.len() {
        return false;
    }
    let mut i: usize = 0;
    while i < args.len()
        invariant
            0 <= i <= args.len(),
            args.len() == params.len(),
            forall|j: int| 0 <= j < i ==> type_of(#[trigger] args@[j]) == params@[j],
        decreases args.len() - i,
    {
        let ok = match (args[i], params[i]) {
            (Value::I32(_), ValType::I32) => true,
            (Value::I64(_), ValType::I64) => true,
            _ => false,
        };
        if !ok {
            return false;
        }
        i += 1;
    }
    true
}

} // verus!
