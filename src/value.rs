//! Value kinds and the tagged value that carries one of them.
use vstd::prelude::*;

verus! {

/// The closed set of WebAssembly value kinds.
#[derive(Debug, Clone, Copy, PartialEq, Eq, Structural)]
pub enum ValType {
    I32,
    I64,
    F32,
    F64,
    V128,
    FuncRef,
    ExternRef,
}

/// The kinds of reference a null reference can have.
#[derive(Debug, Clone, Copy, PartialEq, Eq, Structural)]
pub enum RefType {
    FuncRef,
    ExternRef,
}

/// A WebAssembly value together with its kind.
///
/// Floating-point payloads are held as their IEEE-754 bit patterns; a
/// reference payload is a token naming an entry of the owning store, or
/// `None` for the null reference.
#[derive(Debug, Clone, Copy, PartialEq, Eq, Structural)]
pub enum WasmValue {
    I32(i32),
    I64(i64),
    F32(u32),
    F64(u64),
    V128(i128),
    FuncRef(Option<u64>),
    ExternRef(Option<u64>),
}

impl WasmValue {
    /// The kind that the discriminant of `self` names.
    pub open spec fn kind(self) -> ValType {
        match self {
            WasmValue::I32(_) => ValType::I32,
            WasmValue::I64(_) => ValType::I64,
            WasmValue::F32(_) => ValType::F32,
            WasmValue::F64(_) => ValType::F64,
            WasmValue::V128(_) => ValType::V128,
            WasmValue::FuncRef(_) => ValType::FuncRef,
            WasmValue::ExternRef(_) => ValType::ExternRef,
        }
    }

    /// Returns the kind of this value.
    pub fn ty(&self) -> (r: ValType)
        ensures
            r == self.kind(),
    {
        match self {
            WasmValue::I32(_) => ValType::I32,
            WasmValue::I64(_) => ValType::I64,
            WasmValue::F32(_) => ValType::F32,
            WasmValue::F64(_) => ValType::F64,
            WasmValue::V128(_) => ValType::V128,
            WasmValue::FuncRef(_) => ValType::FuncRef,
            WasmValue::ExternRef(_) => ValType::ExternRef,
        }
    }

    /// A 32-bit integer value.
    pub fn from_i32(v: i32) -> (r: WasmValue)
        ensures
            r == WasmValue::I32(v),
    {
        WasmValue::I32(v)
    }

    /// A 64-bit integer value.
    pub fn from_i64(v: i64) -> (r: WasmValue)
        ensures
            r == WasmValue::I64(v),
    {
        WasmValue::I64(v)
    }

    /// A 32-bit float value, given by its bit pattern.
    pub fn from_f32_bits(bits: u32) -> (r: WasmValue)
        ensures
            r == WasmValue::F32(bits),
    {
        WasmValue::F32(bits)
    }

    /// A 64-bit float value, given by its bit pattern.
    pub fn from_f64_bits(bits: u64) -> (r: WasmValue)
        ensures
            r == WasmValue::F64(bits),
    {
        WasmValue::F64(bits)
    }

    /// A 128-bit vector value.
    pub fn from_v128(v: i128) -> (r: WasmValue)
        ensures
            r == WasmValue::V128(v),
    {
        WasmValue::V128(v)
    }

    /// A function reference to the entry `index` of the owning store.
    pub fn from_func_ref(index: u64) -> (r: WasmValue)
        ensures
            r == WasmValue::FuncRef(Some(index)),
    {
        WasmValue::FuncRef(Some(index))
    }

    /// An external reference carrying the host token `token`.
    pub fn from_extern_ref(token: u64) -> (r: WasmValue)
        ensures
            r == WasmValue::ExternRef(Some(token)),
    {
        WasmValue::ExternRef(Some(token))
    }

    /// The null reference of the given reference kind.
    pub fn from_null_ref(kind: RefType) -> (r: WasmValue)
        ensures
            kind == RefType::FuncRef ==> r == WasmValue::FuncRef(None),
            kind == RefType::ExternRef ==> r == WasmValue::ExternRef(None),
    {
        match kind {
            RefType::FuncRef => WasmValue::FuncRef(None),
            RefType::ExternRef => WasmValue::ExternRef(None),
        }
    }

    /// Reads a 32-bit integer value.
    pub fn to_i32(&self) -> (r: i32)
        requires
            self.kind() == ValType::I32,
        ensures
            *self == WasmValue::I32(r),
    {
        match self {
            WasmValue::I32(v) => *v,
            _ => 0,
        }
    }

    /// Reads a 64-bit integer value.
    pub fn to_i64(&self) -> (r: i64)
        requires
            self.kind() == ValType::I64,
        ensures
            *self == WasmValue::I64(r),
    {
        match self {
            WasmValue::I64(v) => *v,
            _ => 0,
        }
    }

    /// Reads the bit pattern of a 32-bit float value.
    pub fn to_f32_bits(&self) -> (r: u32)
        requires
            self.kind() == ValType::F32,
        ensures
            *self == WasmValue::F32(r),
    {
        match self {
            WasmValue::F32(v) => *v,
            _ => 0,
        }
    }

    /// Reads the bit pattern of a 64-bit float value.
    pub fn to_f64_bits(&self) -> (r: u64)
        requires
            self.kind() == ValType::F64,
        ensures
            *self == WasmValue::F64(r),
    {
        match self {
            WasmValue::F64(v) => *v,
            _ => 0,
        }
    }

    /// Reads a 128-bit vector value.
    pub fn to_v128(&self) -> (r: i128)
        requires
            self.kind() == ValType::V128,
        ensures
            *self == WasmValue::V128(r),
    {
        match self {
            WasmValue::V128(v) => *v,
            _ => 0,
        }
    }

    /// Reads a function reference: its store entry, or `None` when null.
    pub fn func_ref(&self) -> (r: Option<u64>)
        requires
            self.kind() == ValType::FuncRef,
        ensures
            *self == WasmValue::FuncRef(r),
    {
        match self {
            WasmValue::FuncRef(v) => *v,
            _ => None,
        }
    }

    /// Reads an external reference: its host token, or `None` when null.
    pub fn extern_ref(&self) -> (r: Option<u64>)
        requires
            self.kind() == ValType::ExternRef,
        ensures
            *self == WasmValue::ExternRef(r),
    {
        match self {
            WasmValue::ExternRef(v) => *v,
            _ => None,
        }
    }
}

/// Every constructor gives a value of the matching kind, and the matching
/// accessor reads back exactly the payload it was given: an accessor's
/// contract `*self == K(r)` holds for that payload and for no other.
pub proof fn lemma_value_round_trip(
    a: i32,
    b: i64,
    c: u32,
    d: u64,
    e: i128,
    f: Option<u64>,
    g: Option<u64>,
)
    ensures
        WasmValue::I32(a).kind() == ValType::I32,
        WasmValue::I64(b).kind() == ValType::I64,
        WasmValue::F32(c).kind() == ValType::F32,
        WasmValue::F64(d).kind() == ValType::F64,
        WasmValue::V128(e).kind() == ValType::V128,
        WasmValue::FuncRef(f).kind() == ValType::FuncRef,
        WasmValue::ExternRef(g).kind() == ValType::ExternRef,
        forall|x: i32| WasmValue::I32(a) == WasmValue::I32(x) <==> x == a,
        forall|x: i64| WasmValue::I64(b) == WasmValue::I64(x) <==> x == b,
        forall|x: u32| WasmValue::F32(c) == WasmValue::F32(x) <==> x == c,
        forall|x: u64| WasmValue::F64(d) == WasmValue::F64(x) <==> x == d,
        forall|x: i128| WasmValue::V128(e) == WasmValue::V128(x) <==> x == e,
        forall|x: Option<u64>| WasmValue::FuncRef(f) == WasmValue::FuncRef(x) <==> x == f,
        forall|x: Option<u64>| WasmValue::ExternRef(g) == WasmValue::ExternRef(x) <==> x == g,
{
}

} // verus!
