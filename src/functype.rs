//! Function signatures, their builder, and the signature that native
//! argument and result types determine.
use vstd::prelude::*;
use crate::value::ValType;

verus! {

/// What a signature or a builder holds: the parameter kinds and the result
/// kinds, each `None` while unset.
pub type SigModel = (Option<Seq<ValType>>, Option<Seq<ValType>>);

/// The kinds that an optional vector holds.
pub open spec fn kinds_of(v: Option<Vec<ValType>>) -> Option<Seq<ValType>> {
    match v {
        Some(v) => Some(v@),
        None => None,
    }
}

/// Whether two kind sequences are equal element by element.
fn same_kinds(a: &Vec<ValType>, b: &Vec<ValType>) -> (r: bool)
    ensures
        r == (a@ == b@),
{
    if a.len() != b.len() {
        return false;
    }
    let mut i: usize = 0;
    while i < a.len()
        invariant
            a@.len() == b@.len(),
            0 <= i <= a@.len(),
            forall|j: int| 0 <= j < i ==> a@[j] == b@[j],
        decreases a@.len() - i,
    {
        if a[i] != b[i] {
            return false;
        }
        i += 1;
    }
    assert(a@ =~= b@);
    true
}

/// A fresh vector with the kinds of `v`.
fn copy_kinds(v: &Vec<ValType>) -> (r: Vec<ValType>)
    ensures
        r@ == v@,
{
    let mut r: Vec<ValType> = Vec::new();
    let mut i: usize = 0;
    while i < v.len()
        invariant
            0 <= i <= v@.len(),
            r@ == v@.subrange(0, i as int),
        decreases v@.len() - i,
    {
        r.push(v[i]);
        i += 1;
        assert(r@ =~= v@.subrange(0, i as int));
    }
    assert(v@ =~= v@.subrange(0, v@.len() as int));
    r
}

/// A fresh optional vector with the kinds of `v`.
fn copy_opt_kinds(v: &Option<Vec<ValType>>) -> (r: Option<Vec<ValType>>)
    ensures
        kinds_of(r) == kinds_of(*v),
{
    match v {
        Some(v) => Some(copy_kinds(v)),
        None => None,
    }
}

/// Whether two optional kind sequences are equal, absence included.
fn same_opt_kinds(a: &Option<Vec<ValType>>, b: &Option<Vec<ValType>>) -> (r: bool)
    ensures
        r == (kinds_of(*a) == kinds_of(*b)),
{
    match (a, b) {
        (Some(x), Some(y)) => same_kinds(x, y),
        (None, None) => true,
        _ => false,
    }
}

/// The signature of a function: its parameter kinds and its result kinds,
/// in call order. An absent sequence means none.
#[derive(Debug, Clone)]
pub struct FuncType {
    args: Option<Vec<ValType>>,
    results: Option<Vec<ValType>>,
}

impl View for FuncType {
    type V = SigModel;

    closed spec fn view(&self) -> SigModel {
        (kinds_of(self.args), kinds_of(self.results))
    }
}

impl FuncType {
    /// A signature with the given parameter and result kinds.
    pub fn new(args: Option<Vec<ValType>>, results: Option<Vec<ValType>>) -> (r: FuncType)
        ensures
            r@ == (kinds_of(args), kinds_of(results)),
    {
        FuncType { args, results }
    }

    /// The parameter kinds, or `None` where they were never set.
    pub fn args(&self) -> (r: Option<&[ValType]>)
        ensures
            match r {
                Some(s) => self@.0 == Some(s@),
                None => self@.0 is None,
            },
    {
        match &self.args {
            Some(v) => Some(v.as_slice()),
            None => None,
        }
    }

    /// The result kinds, or `None` where they were never set.
    pub fn results(&self) -> (r: Option<&[ValType]>)
        ensures
            match r {
                Some(s) => self@.1 == Some(s@),
                None => self@.1 is None,
            },
    {
        match &self.results {
            Some(v) => Some(v.as_slice()),
            None => None,
        }
    }

    /// A signature equal to this one.
    pub fn duplicate(&self) -> (r: FuncType)
        ensures
            r@ == self@,
    {
        FuncType { args: copy_opt_kinds(&self.args), results: copy_opt_kinds(&self.results) }
    }

    /// The number of parameters; an absent sequence counts as none.
    pub fn args_len(&self) -> (r: usize)
        ensures
            r == arity(self@.0),
    {
        match &self.args {
            Some(v) => v.len(),
            None => 0,
        }
    }

    /// The number of results; an absent sequence counts as none.
    pub fn results_len(&self) -> (r: usize)
        ensures
            r == arity(self@.1),
    {
        match &self.results {
            Some(v) => v.len(),
            None => 0,
        }
    }
}

/// The length of an optional kind sequence; an absent one has none.
pub open spec fn arity(s: Option<Seq<ValType>>) -> nat {
    match s {
        Some(s) => s.len(),
        None => 0,
    }
}

impl PartialEq for FuncType {
    fn eq(&self, o: &FuncType) -> (r: bool) {
        same_opt_kinds(&self.args, &o.args) && same_opt_kinds(&self.results, &o.results)
    }
}

impl vstd::std_specs::cmp::PartialEqSpecImpl for FuncType {
    open spec fn obeys_eq_spec() -> bool {
        true
    }

    open spec fn eq_spec(&self, o: &FuncType) -> bool {
        self@ == o@
    }
}

/// The builder state after the parameter kinds are set to `args`.
pub open spec fn set_args(m: SigModel, args: Seq<ValType>) -> SigModel {
    (Some(args), m.1)
}

/// The builder state after the result kinds are set to `results`.
pub open spec fn set_returns(m: SigModel, results: Seq<ValType>) -> SigModel {
    (m.0, Some(results))
}

/// Builds a [FuncType] step by step. Each step sets a whole sequence,
/// replacing what an earlier step set.
#[derive(Debug)]
pub struct FuncTypeBuilder {
    args: Option<Vec<ValType>>,
    results: Option<Vec<ValType>>,
}

impl View for FuncTypeBuilder {
    type V = SigModel;

    closed spec fn view(&self) -> SigModel {
        (kinds_of(self.args), kinds_of(self.results))
    }
}

impl FuncTypeBuilder {
    /// A builder with neither parameters nor results set.
    pub fn new() -> (r: FuncTypeBuilder)
        ensures
            r@ == (None::<Seq<ValType>>, None::<Seq<ValType>>),
    {
        FuncTypeBuilder { args: None, results: None }
    }

    /// Sets the parameter kinds to `args`.
    pub fn with_args(self, args: Vec<ValType>) -> (r: FuncTypeBuilder)
        ensures
            r@ == set_args(self@, args@),
    {
        FuncTypeBuilder { args: Some(args), results: self.results }
    }

    /// Sets the parameter kinds to the single kind `arg`.
    pub fn with_arg(self, arg: ValType) -> (r: FuncTypeBuilder)
        ensures
            r@ == set_args(self@, seq![arg]),
    {
        let v = vec![arg];
        assert(v@ =~= seq![arg]);
        self.with_args(v)
    }

    /// Sets the result kinds to `results`.
    pub fn with_returns(self, results: Vec<ValType>) -> (r: FuncTypeBuilder)
        ensures
            r@ == set_returns(self@, results@),
    {
        FuncTypeBuilder { args: self.args, results: Some(results) }
    }

    /// Sets the result kinds to the single kind `ret`.
    pub fn with_return(self, ret: ValType) -> (r: FuncTypeBuilder)
        ensures
            r@ == set_returns(self@, seq![ret]),
    {
        let v = vec![ret];
        assert(v@ =~= seq![ret]);
        self.with_returns(v)
    }

    /// The signature that this builder describes.
    pub fn build(self) -> (r: FuncType)
        ensures
            r@ == self@,
    {
        FuncType::new(self.args, self.results)
    }
}

impl Default for FuncTypeBuilder {
    fn default() -> (r: FuncTypeBuilder)
        ensures
            r@ == (None::<Seq<ValType>>, None::<Seq<ValType>>),
    {
        FuncTypeBuilder::new()
    }
}

/// A builder keeps only the last sequence set on each side: setting the
/// parameters twice leaves the second, setting the results leaves the
/// parameters as they were (and the other way round), and a side that was
/// never set stays absent rather than empty.
pub proof fn lemma_builder_last_set_wins(
    m: SigModel,
    a1: Seq<ValType>,
    a2: Seq<ValType>,
    r1: Seq<ValType>,
    r2: Seq<ValType>,
)
    ensures
        set_args(set_args(m, a1), a2) == set_args(m, a2),
        set_returns(set_returns(m, r1), r2) == set_returns(m, r2),
        set_returns(set_args(m, a1), r1).0 == Some(a1),
        set_args(set_returns(m, r1), a1).1 == Some(r1),
        set_args(m, a1).1 == m.1,
        set_returns(m, r1).0 == m.0,
        set_args((None::<Seq<ValType>>, None::<Seq<ValType>>), a1).1 is None,
        set_returns((None::<Seq<ValType>>, None::<Seq<ValType>>), r1).0 is None,
{
}

/// A native scalar type with the value kind that it maps to.
pub trait WasmValType {
    /// The kind that this native type maps to.
    spec fn val_type() -> ValType;

    /// Returns the kind that this native type maps to.
    fn wasm_type() -> (r: ValType)
        ensures
            r == Self::val_type(),
    ;
}

impl WasmValType for i32 {
    open spec fn val_type() -> ValType {
        ValType::I32
    }

    fn wasm_type() -> (r: ValType) {
        ValType::I32
    }
}

impl WasmValType for u32 {
    open spec fn val_type() -> ValType {
        ValType::I32
    }

    fn wasm_type() -> (r: ValType) {
        ValType::I32
    }
}

impl WasmValType for i64 {
    open spec fn val_type() -> ValType {
        ValType::I64
    }

    fn wasm_type() -> (r: ValType) {
        ValType::I64
    }
}

impl WasmValType for u64 {
    open spec fn val_type() -> ValType {
        ValType::I64
    }

    fn wasm_type() -> (r: ValType) {
        ValType::I64
    }
}

impl WasmValType for i128 {
    open spec fn val_type() -> ValType {
        ValType::V128
    }

    fn wasm_type() -> (r: ValType) {
        ValType::V128
    }
}

impl WasmValType for u128 {
    open spec fn val_type() -> ValType {
        ValType::V128
    }

    fn wasm_type() -> (r: ValType) {
        ValType::V128
    }
}

/// An ordered list of native types (none, one, or a tuple) with the kinds
/// that they map to, in order.
pub trait WasmValTypeList {
    /// The kinds of the listed native types, in order.
    spec fn val_types() -> Seq<ValType>;

    /// Returns the kinds of the listed native types, in order.
    fn wasm_types() -> (r: Vec<ValType>)
        ensures
            r@ == Self::val_types(),
    ;
}

impl WasmValTypeList for () {
    open spec fn val_types() -> Seq<ValType> {
        Seq::empty()
    }

    fn wasm_types() -> (r: Vec<ValType>) {
        let v: Vec<ValType> = Vec::new();
        assert(v@ =~= Seq::<ValType>::empty());
        v
    }
}

impl<A: WasmValType> WasmValTypeList for A {
    open spec fn val_types() -> Seq<ValType> {
        seq![A::val_type()]
    }

    fn wasm_types() -> (r: Vec<ValType>) {
        let v = vec![A::wasm_type()];
        assert(v@ =~= seq![A::val_type()]);
        v
    }
}

impl<A: WasmValType, B: WasmValType> WasmValTypeList for (A, B) {
    open spec fn val_types() -> Seq<ValType> {
        seq![A::val_type(), B::val_type()]
    }

    fn wasm_types() -> (r: Vec<ValType>) {
        let v = vec![A::wasm_type(), B::wasm_type()];
        assert(v@ =~= seq![A::val_type(), B::val_type()]);
        v
    }
}

impl<A: WasmValType, B: WasmValType, C: WasmValType> WasmValTypeList for (A, B, C) {
    open spec fn val_types() -> Seq<ValType> {
        seq![A::val_type(), B::val_type(), C::val_type()]
    }

    fn wasm_types() -> (r: Vec<ValType>) {
        let v = vec![A::wasm_type(), B::wasm_type(), C::wasm_type()];
        assert(v@ =~= seq![A::val_type(), B::val_type(), C::val_type()]);
        v
    }
}

impl<
    A: WasmValType,
    B: WasmValType,
    C: WasmValType,
    D: WasmValType,
> WasmValTypeList for (A, B, C, D) {
    open spec fn val_types() -> Seq<ValType> {
        seq![A::val_type(), B::val_type(), C::val_type(), D::val_type()]
    }

    fn wasm_types() -> (r: Vec<ValType>) {
        let v = vec![A::wasm_type(), B::wasm_type(), C::wasm_type(), D::wasm_type()];
        assert(v@ =~= seq![A::val_type(), B::val_type(), C::val_type(), D::val_type()]);
        v
    }
}

/// The signature that a native callable taking `Args` and returning `Rets`
/// has: both sides set, to the kinds of the listed native types in order.
pub fn func_type_of<Args: WasmValTypeList, Rets: WasmValTypeList>() -> (r: FuncType)
    ensures
        r@ == (Some(Args::val_types()), Some(Rets::val_types())),
{
    let args = Args::wasm_types();
    let results = Rets::wasm_types();
    FuncType::new(Some(args), Some(results))
}

} // verus!
