//! Calling a host function: the arguments are checked against the declared
//! parameter kinds before the callable runs, and what it hands back is
//! checked against the declared result kinds.
use vstd::prelude::*;
use crate::functype::FuncType;
use crate::value::{ValType, WasmValue};

verus! {

/// The failure that a host callable reports.
#[derive(Debug, Clone, Copy, PartialEq, Eq, Structural)]
pub enum HostFuncError {
    /// An application-defined code, chosen by the callable's author.
    User(u32),
    /// A failure of the runtime itself.
    Runtime(u32),
}

/// Why a call through a signature failed.
#[derive(Debug, Clone, Copy, PartialEq, Eq, Structural)]
pub enum CallError {
    /// The arguments do not match the declared parameter kinds, in number or
    /// in kind. The callable was not run.
    ArgMismatch,
    /// The callable succeeded, but its results do not match the declared
    /// result kinds.
    ResultMismatch,
    /// The callable failed; its error is handed on unchanged.
    Host(HostFuncError),
}

/// The kinds of a side of a signature; an absent side has none.
pub open spec fn declared(s: Option<Seq<ValType>>) -> Seq<ValType> {
    match s {
        Some(s) => s,
        None => Seq::empty(),
    }
}

/// Whether `vals` has exactly the kinds `kinds`, position by position.
pub open spec fn kinds_match(kinds: Seq<ValType>, vals: Seq<WasmValue>) -> bool {
    &&& kinds.len() == vals.len()
    &&& forall|i: int| 0 <= i < vals.len() ==> #[trigger] vals[i].kind() == kinds[i]
}

/// What a call through signature `ty` returns once the callable has handed
/// back `out`.
pub open spec fn call_outcome(
    ty: (Option<Seq<ValType>>, Option<Seq<ValType>>),
    out: Result<Vec<WasmValue>, HostFuncError>,
) -> Result<Vec<WasmValue>, CallError> {
    match out {
        Err(e) => Err(CallError::Host(e)),
        Ok(v) => if kinds_match(declared(ty.1), v@) {
            Ok(v)
        } else {
            Err(CallError::ResultMismatch)
        },
    }
}

/// Whether the values have exactly the kinds given, position by position.
pub fn match_kinds(kinds: &[ValType], vals: &[WasmValue]) -> (r: bool)
    ensures
        r == kinds_match(kinds@, vals@),
{
    if kinds.len() != vals.len() {
        return false;
    }
    let mut i: usize = 0;
    while i < vals.len()
        invariant
            kinds@.len() == vals@.len(),
            0 <= i <= vals@.len(),
            forall|j: int| 0 <= j < i ==> #[trigger] vals@[j].kind() == kinds@[j],
        decreases vals@.len() - i,
    {
        if vals[i].ty() != kinds[i] {
            return false;
        }
        i += 1;
    }
    true
}

/// Whether `args` fits the parameter kinds of `ty`, in number and in kind.
pub fn check_args(ty: &FuncType, args: &Vec<WasmValue>) -> (r: bool)
    ensures
        r == kinds_match(declared(ty@.0), args@),
{
    match ty.args() {
        Some(kinds) => match_kinds(kinds, args.as_slice()),
        None => args.len() == 0,
    }
}

/// Whether `rets` fits the result kinds of `ty`, in number and in kind.
pub fn check_results(ty: &FuncType, rets: &Vec<WasmValue>) -> (r: bool)
    ensures
        r == kinds_match(declared(ty@.1), rets@),
{
    match ty.results() {
        Some(kinds) => match_kinds(kinds, rets.as_slice()),
        None => rets.len() == 0,
    }
}

/// Turns what a callable handed back into the result of a call through
/// `ty`: its error as a host error, its values where they fit the declared
/// result kinds, and a result mismatch otherwise.
pub fn complete_call(ty: &FuncType, out: Result<Vec<WasmValue>, HostFuncError>) -> (r: Result<
    Vec<WasmValue>,
    CallError,
>)
    ensures
        r == call_outcome(ty@, out),
{
    match out {
        Err(e) => Err(CallError::Host(e)),
        Ok(v) => {
            if check_results(ty, &v) {
                Ok(v)
            } else {
                Err(CallError::ResultMismatch)
            }
        },
    }
}

/// Calls `real_func` on `args` through the signature `ty`.
///
/// Arguments that do not fit the parameter kinds give `ArgMismatch` and the
/// callable is not run. Otherwise the callable runs once, and its outcome
/// is passed through [complete_call].
pub fn invoke<F>(ty: &FuncType, real_func: &F, args: Vec<WasmValue>) -> (r: Result<
    Vec<WasmValue>,
    CallError,
>) where F: Fn(Vec<WasmValue>) -> Result<Vec<WasmValue>, HostFuncError>
    requires
        real_func.requires((args,)),
    ensures
        !kinds_match(declared(ty@.0), args@) ==> r == Err::<Vec<WasmValue>, CallError>(
            CallError::ArgMismatch,
        ),
        kinds_match(declared(ty@.0), args@) ==> exists|out: Result<Vec<WasmValue>, HostFuncError>|
            #[trigger] real_func.ensures((args,), out) && r == call_outcome(ty@, out),
{
    if !check_args(ty, &args) {
        return Err(CallError::ArgMismatch);
    }
    let ghost given = args;
    let out = real_func(args);
    assert(real_func.ensures((given,), out));
    complete_call(ty, out)
}

} // verus!
