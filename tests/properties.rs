use std::cell::Cell;
use std::sync::atomic::{AtomicBool, Ordering};
use wasmedge_sdk::call::{
    check_args, check_results, complete_call, invoke, match_kinds, CallError, HostFuncError,
};
use wasmedge_sdk::func::Func;
use wasmedge_sdk::functype::{func_type_of, FuncType, FuncTypeBuilder, WasmValTypeList};
use wasmedge_sdk::value::{RefType, ValType, WasmValue};

fn add_i32(inputs: Vec<WasmValue>) -> Result<Vec<WasmValue>, HostFuncError> {
    if inputs.len() != 2 {
        return Err(HostFuncError::User(1));
    }
    Ok(vec![WasmValue::from_i32(inputs[0].to_i32() + inputs[1].to_i32())])
}

fn i32_pair_to_i32() -> FuncType {
    FuncTypeBuilder::new()
        .with_args(vec![ValType::I32, ValType::I32])
        .with_return(ValType::I32)
        .build()
}

#[test]
fn value_round_trip_each_kind() {
    let v = WasmValue::from_i32(-7);
    assert_eq!(v.ty(), ValType::I32);
    assert_eq!(v.to_i32(), -7);
    let v = WasmValue::from_i64(i64::MIN);
    assert_eq!(v.ty(), ValType::I64);
    assert_eq!(v.to_i64(), i64::MIN);
    let v = WasmValue::from_f32_bits(1.5f32.to_bits());
    assert_eq!(v.ty(), ValType::F32);
    assert_eq!(f32::from_bits(v.to_f32_bits()), 1.5f32);
    let v = WasmValue::from_f64_bits((-2.25f64).to_bits());
    assert_eq!(v.ty(), ValType::F64);
    assert_eq!(f64::from_bits(v.to_f64_bits()), -2.25f64);
    let v = WasmValue::from_v128(i128::MAX);
    assert_eq!(v.ty(), ValType::V128);
    assert_eq!(v.to_v128(), i128::MAX);
    let v = WasmValue::from_func_ref(4);
    assert_eq!(v.ty(), ValType::FuncRef);
    assert_eq!(v.func_ref(), Some(4));
    let v = WasmValue::from_extern_ref(9);
    assert_eq!(v.ty(), ValType::ExternRef);
    assert_eq!(v.extern_ref(), Some(9));
}

#[test]
fn null_references_read_back_as_none() {
    let f = WasmValue::from_null_ref(RefType::FuncRef);
    assert_eq!(f.ty(), ValType::FuncRef);
    assert_eq!(f.func_ref(), None);
    let e = WasmValue::from_null_ref(RefType::ExternRef);
    assert_eq!(e.ty(), ValType::ExternRef);
    assert_eq!(e.extern_ref(), None);
}

#[test]
fn builder_keeps_last_sequence_set() {
    let sig = FuncTypeBuilder::new()
        .with_args(vec![ValType::I64, ValType::F32])
        .with_arg(ValType::I32)
        .with_returns(vec![ValType::V128])
        .with_returns(vec![ValType::F64, ValType::I64])
        .build();
    assert_eq!(sig.args().unwrap(), &[ValType::I32]);
    assert_eq!(sig.results().unwrap(), &[ValType::F64, ValType::I64]);
}

#[test]
fn builder_unset_side_stays_absent() {
    let sig = FuncTypeBuilder::new().with_return(ValType::I32).build();
    assert_eq!(sig.args(), None);
    assert_eq!(sig.results().unwrap(), &[ValType::I32]);
    assert_eq!(sig.args_len(), 0);
    assert_eq!(sig.results_len(), 1);
    let empty = FuncTypeBuilder::new().with_args(vec![]).build();
    assert_eq!(empty.args(), Some(&[][..]));
    assert_eq!(empty.results(), None);
    assert!(empty != FuncTypeBuilder::new().build());
    let default_built = FuncTypeBuilder::default().build();
    assert!(default_built == FuncTypeBuilder::new().build());
}

#[test]
fn signature_equality_is_structural() {
    assert!(i32_pair_to_i32() == FuncType::new(Some(vec![ValType::I32; 2]), Some(vec![ValType::I32])));
    assert!(i32_pair_to_i32() != FuncType::new(Some(vec![ValType::I32; 2]), Some(vec![ValType::I64])));
    assert!(i32_pair_to_i32() != FuncType::new(Some(vec![ValType::I32]), Some(vec![ValType::I32])));
    let sig = i32_pair_to_i32();
    assert!(sig.duplicate() == sig);
}

#[test]
fn native_types_derive_signature() {
    let sig = func_type_of::<(i32, i32), i32>();
    assert_eq!(sig.args().unwrap(), &[ValType::I32, ValType::I32]);
    assert_eq!(sig.results().unwrap(), &[ValType::I32]);
    assert!(sig == i32_pair_to_i32());
    let sig = func_type_of::<(u32, i64, u64, i128), ()>();
    assert_eq!(sig.args().unwrap(), &[ValType::I32, ValType::I64, ValType::I64, ValType::V128]);
    assert_eq!(sig.results(), Some(&[][..]));
    assert_eq!(<(i64, u128, i32) as WasmValTypeList>::wasm_types(), vec![ValType::I64, ValType::V128, ValType::I32]);
}

#[test]
fn wrapped_add_returns_sum() {
    let func = Func::wrap::<(i32, i32), i32>(add_i32);
    assert!(func.ty() == i32_pair_to_i32());
    let returns = func.call(vec![WasmValue::from_i32(2), WasmValue::from_i32(3)]).unwrap();
    assert_eq!(returns, vec![WasmValue::from_i32(5)]);
    assert_eq!(returns[0].ty(), ValType::I32);
}

#[test]
fn one_argument_is_an_arity_error() {
    let ran = AtomicBool::new(false);
    let func = Func::wrap::<(i32, i32), i32>(|args: Vec<WasmValue>| {
        ran.store(true, Ordering::SeqCst);
        add_i32(args)
    });
    let result = func.call(vec![WasmValue::from_i32(2)]);
    assert_eq!(result, Err(CallError::ArgMismatch));
    assert!(!ran.load(Ordering::SeqCst));
}

#[test]
fn wrong_argument_kind_is_a_kind_error() {
    let func = Func::wrap::<(i32, i32), i32>(add_i32);
    let result = func.call(vec![WasmValue::from_i32(2), WasmValue::from_i64(3)]);
    assert_eq!(result, Err(CallError::ArgMismatch));
}

#[test]
fn exported_names_are_set_only_by_export() {
    let func = Func::wrap::<(i32, i32), i32>(add_i32);
    assert_eq!(func.name(), None);
    assert_eq!(func.mod_name(), None);
    let func = func.exported_as("add".to_string(), "extern".to_string());
    assert_eq!(func.name(), Some("add"));
    assert_eq!(func.mod_name(), Some("extern"));
}

#[test]
fn single_thread_function_keeps_state_between_calls() {
    let count = Cell::new(0i32);
    let func = Func::wrap_single_thread::<(), i32>(|_args: Vec<WasmValue>| {
        count.set(count.get() + 1);
        Ok(vec![WasmValue::from_i32(count.get())])
    });
    assert_eq!(func.call(vec![]).unwrap(), vec![WasmValue::from_i32(1)]);
    assert_eq!(func.call(vec![]).unwrap(), vec![WasmValue::from_i32(2)]);
    assert_eq!(count.get(), 2);
}

#[test]
fn ty_twice_gives_equal_signatures() {
    let func = Func::new(i32_pair_to_i32(), add_i32);
    let first = func.ty();
    let second = func.ty();
    assert!(first == second);
    assert!(func.as_ref().ty() == first);
}

#[test]
fn host_errors_pass_through() {
    let func = Func::wrap::<i32, ()>(|args: Vec<WasmValue>| Err(HostFuncError::User(args[0].to_i32() as u32)));
    assert_eq!(func.call(vec![WasmValue::from_i32(42)]), Err(CallError::Host(HostFuncError::User(42))));
    let func = Func::wrap::<(), ()>(|_args: Vec<WasmValue>| Err(HostFuncError::Runtime(3)));
    assert_eq!(func.call(vec![]), Err(CallError::Host(HostFuncError::Runtime(3))));
}

#[test]
fn results_that_break_the_signature_are_rejected() {
    let func = Func::wrap::<(i32, i32), i32>(|_args: Vec<WasmValue>| Ok(vec![WasmValue::from_i64(5)]));
    let result = func.call(vec![WasmValue::from_i32(2), WasmValue::from_i32(3)]);
    assert_eq!(result, Err(CallError::ResultMismatch));
    let func = Func::wrap::<(), i32>(|_args: Vec<WasmValue>| Ok(vec![]));
    assert_eq!(func.call(vec![]), Err(CallError::ResultMismatch));
}

#[test]
fn reference_calls_the_same_function() {
    let func = Func::wrap::<(i32, i32), i32>(add_i32);
    let r = func.as_ref();
    let copy = r.clone();
    assert_eq!(copy.call(vec![WasmValue::from_i32(20), WasmValue::from_i32(22)]).unwrap(), vec![WasmValue::from_i32(42)]);
    assert_eq!(r.call(vec![]), Err(CallError::ArgMismatch));
}

#[test]
fn invoke_checks_both_sides() {
    let sig = i32_pair_to_i32();
    let ok = invoke(&sig, &add_i32, vec![WasmValue::from_i32(-1), WasmValue::from_i32(1)]);
    assert_eq!(ok, Ok(vec![WasmValue::from_i32(0)]));
    let no_params = FuncTypeBuilder::new().build();
    assert_eq!(invoke(&no_params, &add_i32, vec![]), Err(CallError::Host(HostFuncError::User(1))));
}

#[test]
fn argument_and_result_checks() {
    let sig = i32_pair_to_i32();
    assert!(check_args(&sig, &vec![WasmValue::from_i32(1), WasmValue::from_i32(2)]));
    assert!(!check_args(&sig, &vec![WasmValue::from_i32(1), WasmValue::from_i32(2), WasmValue::from_i32(3)]));
    assert!(check_results(&sig, &vec![WasmValue::from_i32(1)]));
    assert!(!check_results(&sig, &vec![WasmValue::from_v128(1)]));
    let absent = FuncTypeBuilder::new().build();
    assert!(check_args(&absent, &vec![]));
    assert!(!check_args(&absent, &vec![WasmValue::from_i32(1)]));
    assert!(match_kinds(&[ValType::FuncRef, ValType::ExternRef], &[WasmValue::from_func_ref(0), WasmValue::from_null_ref(RefType::ExternRef)]));
    assert!(!match_kinds(&[ValType::FuncRef], &[WasmValue::from_extern_ref(0)]));
}

#[test]
fn complete_call_maps_each_outcome() {
    let sig = i32_pair_to_i32();
    assert_eq!(complete_call(&sig, Ok(vec![WasmValue::from_i32(7)])), Ok(vec![WasmValue::from_i32(7)]));
    assert_eq!(complete_call(&sig, Ok(vec![WasmValue::from_i32(7), WasmValue::from_i32(8)])), Err(CallError::ResultMismatch));
    assert_eq!(complete_call(&sig, Err(HostFuncError::User(5))), Err(CallError::Host(HostFuncError::User(5))));
}
