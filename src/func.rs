//! Host functions: a native callable bound to a signature, with the names
//! under which it is exported, and borrowed references to one.
use vstd::prelude::*;
use crate::call::{invoke, kinds_match, declared, call_outcome, CallError, HostFuncError};
use crate::functype::{func_type_of, FuncType, SigModel, WasmValTypeList};
use crate::value::WasmValue;

verus! {

/// A host function: a native callable `F` with the signature it is called
/// through, and the function and module names it is exported under, which
/// stay unset until a module exports it.
pub struct Func<F> {
    ty: FuncType,
    real_func: F,
    name: Option<String>,
    mod_name: Option<String>,
}

/// The characters of an optional string.
pub open spec fn text_of(s: Option<String>) -> Option<Seq<char>> {
    match s {
        Some(s) => Some(s@),
        None => None,
    }
}

impl<F> Func<F> {
    /// The signature the function is called through.
    pub closed spec fn sig(&self) -> SigModel {
        self.ty@
    }

    /// The native callable.
    pub closed spec fn callable(&self) -> F {
        self.real_func
    }

    /// The name the function is exported under, if any.
    pub closed spec fn export_name(&self) -> Option<Seq<char>> {
        text_of(self.name)
    }

    /// The name of the module the function is exported from, if any.
    pub closed spec fn export_mod_name(&self) -> Option<Seq<char>> {
        text_of(self.mod_name)
    }

    /// The exported name of this function; `None` unless a module exports it.
    pub fn name(&self) -> (r: Option<&str>)
        ensures
            match r {
                Some(s) => self.export_name() == Some(s@),
                None => self.export_name() is None,
            },
    {
        match &self.name {
            Some(name) => Some(name.as_str()),
            None => None,
        }
    }

    /// The name of the module this function is exported from; `None` unless
    /// a module exports it.
    pub fn mod_name(&self) -> (r: Option<&str>)
        ensures
            match r {
                Some(s) => self.export_mod_name() == Some(s@),
                None => self.export_mod_name() is None,
            },
    {
        match &self.mod_name {
            Some(mod_name) => Some(mod_name.as_str()),
            None => None,
        }
    }

    /// The signature of this function. Each call gives an equal signature.
    pub fn ty(&self) -> (r: FuncType)
        ensures
            r@ == self.sig(),
    {
        self.ty.duplicate()
    }

    /// The same function, exported as `name` from the module `mod_name`.
    pub fn exported_as(self, name: String, mod_name: String) -> (r: Func<F>)
        ensures
            r.sig() == self.sig(),
            r.callable() == self.callable(),
            r.export_name() == Some(name@),
            r.export_mod_name() == Some(mod_name@),
    {
        Func { ty: self.ty, real_func: self.real_func, name: Some(name), mod_name: Some(mod_name) }
    }

    /// A reference to this function that borrows it.
    pub fn as_ref(&self) -> (r: FuncRef<'_, F>)
        ensures
            r.target() == *self,
    {
        FuncRef { func: self }
    }
}

impl<F> Func<F> where F: Fn(Vec<WasmValue>) -> Result<Vec<WasmValue>, HostFuncError> {
    /// A host function of signature `ty`, whose callable may be run from
    /// any thread.
    pub fn new(ty: FuncType, real_func: F) -> (r: Func<F>)
        where F: Send + Sync,
        ensures
            r.sig() == ty@,
            r.callable() == real_func,
            r.export_name() is None,
            r.export_mod_name() is None,
    {
        Func { ty, real_func, name: None, mod_name: None }
    }

    /// A host function whose signature the native types `Args` and `Rets`
    /// determine, and whose callable may be run from any thread.
    pub fn wrap<Args: WasmValTypeList, Rets: WasmValTypeList>(real_func: F) -> (r: Func<F>)
        where F: Send + Sync,
        ensures
            r.sig() == (Some(Args::val_types()), Some(Rets::val_types())),
            r.callable() == real_func,
            r.export_name() is None,
            r.export_mod_name() is None,
    {
        let ty = func_type_of::<Args, Rets>();
        Func { ty, real_func, name: None, mod_name: None }
    }

    /// A host function whose signature the native types `Args` and `Rets`
    /// determine, and whose callable may keep state that is not shared
    /// across threads: all its calls must come from one thread.
    pub fn wrap_single_thread<Args: WasmValTypeList, Rets: WasmValTypeList>(real_func: F) -> (r:
        Func<F>)
        ensures
            r.sig() == (Some(Args::val_types()), Some(Rets::val_types())),
            r.callable() == real_func,
            r.export_name() is None,
            r.export_mod_name() is None,
    {
        let ty = func_type_of::<Args, Rets>();
        Func { ty, real_func, name: None, mod_name: None }
    }

    /// Runs this function on `args`, checked against its signature as
    /// [invoke] describes.
    pub fn call(&self, args: Vec<WasmValue>) -> (r: Result<Vec<WasmValue>, CallError>)
        requires
            self.callable().requires((args,)),
        ensures
            !kinds_match(declared(self.sig().0), args@) ==> r == Err::<Vec<WasmValue>, CallError>(
                CallError::ArgMismatch,
            ),
            kinds_match(declared(self.sig().0), args@) ==> exists|
                out: Result<Vec<WasmValue>, HostFuncError>,
            | #[trigger] self.callable().ensures((args,), out) && r == call_outcome(self.sig(), out),
    {
        invoke(&self.ty, &self.real_func, args)
    }
}

/// Asking a function for its signature twice, or once through a reference
/// to it, gives equal signatures: what `ty` returns depends on the function
/// alone, and `==` on signatures compares exactly these views.
pub proof fn lemma_ty_stable<F>(f: Func<F>, first: FuncType, second: FuncType)
    requires
        first@ == f.sig(),
        second@ == f.sig(),
    ensures
        first@ == second@,
{
}

/// A borrowed reference to a host function. It can be copied freely and
/// calls the function it refers to without owning it.
pub struct FuncRef<'a, F> {
    func: &'a Func<F>,
}

impl<'a, F> Clone for FuncRef<'a, F> {
    fn clone(&self) -> (r: FuncRef<'a, F>)
        ensures
            r.target() == self.target(),
    {
        FuncRef { func: self.func }
    }
}

impl<'a, F> FuncRef<'a, F> {
    /// The function this reference refers to.
    pub closed spec fn target(&self) -> Func<F> {
        *self.func
    }

    /// The signature of the function this reference refers to.
    pub fn ty(&self) -> (r: FuncType)
        ensures
            r@ == self.target().sig(),
    {
        self.func.ty()
    }
}

impl<'a, F> FuncRef<'a, F> where F: Fn(Vec<WasmValue>) -> Result<Vec<WasmValue>, HostFuncError> {
    /// Runs the function this reference refers to, as [Func::call] does.
    pub fn call(&self, args: Vec<WasmValue>) -> (r: Result<Vec<WasmValue>, CallError>)
        requires
            self.target().callable().requires((args,)),
        ensures
            !kinds_match(declared(self.target().sig().0), args@) ==> r == Err::<
                Vec<WasmValue>,
                CallError,
            >(CallError::ArgMismatch),
            kinds_match(declared(self.target().sig().0), args@) ==> exists|
                out: Result<Vec<WasmValue>, HostFuncError>,
            | #[trigger] self.target().callable().ensures((args,), out) && r == call_outcome(
                self.target().sig(),
                out,
            ),
    {
        self.func.call(args)
    }
}

} // verus!
