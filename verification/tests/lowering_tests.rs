use adesh_aot::header::{LirBlock, LirFunction, LirInst, LirType};
use adesh_aot::lowering::{
    param_type, plan_block, plan_builtin_call, plan_constant, plan_control_instruction, plan_entry, plan_function, plan_handle_conversion,
    plan_instruction, plan_memory_instruction, return_conversion, return_zero_lane, ArgGlobal, BinOp, BlockPlan, ConvOp, FloatCond, HeapFns,
    IntCond, IrOp, LowerState, QueryFn, ReturnConv, RuntimeFn, UnOp, ValueCtor,
};
use adesh_aot::values::{AotValueType, ClifType};

fn state_with(values: &[(u32, AotValueType)]) -> LowerState {
    let mut st = LowerState::new(100);
    for (i, (id, t)) in values.iter().enumerate() {
        st.values.insert(*id, i as u64);
        st.types.insert(*id, t.duplicate());
    }
    st
}

#[test]
fn add_emits_one_iadd_and_types_the_result() {
    let mut st = state_with(&[(1, AotValueType::I64), (2, AotValueType::I64)]);
    let ops = plan_instruction(&LirInst::AddI64(3, 1, 2), &mut st).unwrap().unwrap();
    assert_eq!(ops, vec![IrOp::Binary { dst: 100, op: BinOp::Iadd, a: 0, b: 1 }]);
    assert_eq!(st.values.get(&3), Some(&100));
    assert!(matches!(st.types.get(&3), Some(AotValueType::I64)));
    assert_eq!(st.next_ir, 101);
}

#[test]
fn missing_operand_is_reported_and_nothing_changes() {
    let mut st = state_with(&[(1, AotValueType::I64)]);
    let e = plan_instruction(&LirInst::SubI64(3, 1, 42), &mut st).unwrap_err();
    assert_eq!(e, "Value 42 not found");
    assert_eq!(st.next_ir, 100);
    assert!(st.values.get(&3).is_none());
}

#[test]
fn other_instructions_are_left_alone() {
    let mut st = state_with(&[]);
    assert!(plan_instruction(&LirInst::Other("Print".to_string()), &mut st).unwrap().is_none());
    assert!(plan_instruction(&LirInst::Jump(1), &mut st).unwrap().is_none());
}

#[test]
fn comparisons_give_booleans() {
    let mut st = state_with(&[(1, AotValueType::F64), (2, AotValueType::F64)]);
    let ops = plan_instruction(&LirInst::CmpLeF64(3, 1, 2), &mut st).unwrap().unwrap();
    assert_eq!(ops, vec![IrOp::FloatCompare { dst: 100, cond: FloatCond::LessThanOrEqual, a: 0, b: 1 }]);
    assert!(matches!(st.types.get(&3), Some(AotValueType::Bool)));
    let ops = plan_instruction(&LirInst::CmpLtI64(4, 1, 2), &mut st).unwrap().unwrap();
    assert_eq!(ops, vec![IrOp::IntCompare { dst: 101, cond: IntCond::SignedLessThan, a: 0, b: 1 }]);
}

#[test]
fn unsigned_byte_and_is_masked() {
    let mut st = state_with(&[(1, AotValueType::U8), (2, AotValueType::U8)]);
    let ops = plan_instruction(&LirInst::BitAnd(3, 1, 2), &mut st).unwrap().unwrap();
    assert_eq!(
        ops,
        vec![
            IrOp::Binary { dst: 100, op: BinOp::Band, a: 0, b: 1 },
            IrOp::Iconst { dst: 101, ty: ClifType::I64, imm: 255 },
            IrOp::Binary { dst: 102, op: BinOp::Band, a: 100, b: 101 },
        ]
    );
    assert_eq!(st.values.get(&3), Some(&102));
    assert!(matches!(st.types.get(&3), Some(AotValueType::U8)));
}

#[test]
fn signed_short_or_is_sign_extended() {
    let mut st = state_with(&[(1, AotValueType::I16), (2, AotValueType::I16)]);
    let ops = plan_instruction(&LirInst::BitOr(3, 1, 2), &mut st).unwrap().unwrap();
    assert_eq!(
        ops,
        vec![
            IrOp::Binary { dst: 100, op: BinOp::Bor, a: 0, b: 1 },
            IrOp::Iconst { dst: 101, ty: ClifType::I64, imm: 65535 },
            IrOp::Binary { dst: 102, op: BinOp::Band, a: 100, b: 101 },
            IrOp::Iconst { dst: 103, ty: ClifType::I64, imm: 48 },
            IrOp::Binary { dst: 104, op: BinOp::Ishl, a: 102, b: 103 },
            IrOp::Binary { dst: 105, op: BinOp::Sshr, a: 104, b: 103 },
        ]
    );
    assert_eq!(st.values.get(&3), Some(&105));
}

#[test]
fn untyped_xor_keeps_the_64_bit_lane() {
    let mut st = LowerState::new(10);
    st.values.insert(1, 0);
    st.values.insert(2, 1);
    let ops = plan_instruction(&LirInst::BitXor(3, 1, 2), &mut st).unwrap().unwrap();
    assert_eq!(ops, vec![IrOp::Binary { dst: 10, op: BinOp::Bxor, a: 0, b: 1 }]);
    assert!(matches!(st.types.get(&3), Some(AotValueType::I64)));
}

#[test]
fn shifts_trap_on_large_counts() {
    let mut st = state_with(&[(1, AotValueType::U32), (2, AotValueType::U32)]);
    let ops = plan_instruction(&LirInst::Shr(3, 1, 2), &mut st).unwrap().unwrap();
    assert_eq!(
        ops,
        vec![
            IrOp::Iconst { dst: 100, ty: ClifType::I64, imm: 32 },
            IrOp::IntCompare { dst: 101, cond: IntCond::UnsignedGreaterThanOrEqual, a: 1, b: 100 },
            IrOp::TrapNz { cond: 101 },
            IrOp::Binary { dst: 103, op: BinOp::Ushr, a: 0, b: 1 },
            IrOp::Iconst { dst: 104, ty: ClifType::I64, imm: 4294967295 },
            IrOp::Binary { dst: 105, op: BinOp::Band, a: 103, b: 104 },
        ]
    );
    let mut st = state_with(&[(1, AotValueType::I64), (2, AotValueType::I64)]);
    let ops = plan_instruction(&LirInst::Shr(3, 1, 2), &mut st).unwrap().unwrap();
    assert_eq!(ops[3], IrOp::Binary { dst: 103, op: BinOp::Sshr, a: 0, b: 1 });
    assert_eq!(ops.len(), 4);
    let ops = plan_instruction(&LirInst::Shl(4, 1, 2), &mut st).unwrap().unwrap();
    assert_eq!(ops[0], IrOp::Iconst { dst: 104, ty: ClifType::I64, imm: 64 });
    assert_eq!(ops[3], IrOp::Binary { dst: 107, op: BinOp::Ishl, a: 0, b: 1 });
}

#[test]
fn constants_and_negation() {
    let mut st = LowerState::new(0);
    let ops = plan_instruction(&LirInst::ConstU8(1, 200), &mut st).unwrap().unwrap();
    assert_eq!(ops, vec![IrOp::Iconst { dst: 0, ty: ClifType::I64, imm: 200 }]);
    assert_eq!(st.const_ints.get(&1), Some(&200));
    let ops = plan_instruction(&LirInst::ConstBool(2, true), &mut st).unwrap().unwrap();
    assert_eq!(ops, vec![IrOp::Iconst { dst: 1, ty: ClifType::I8, imm: 1 }]);
    assert_eq!(st.const_bools.get(&2), Some(&true));
    let ops = plan_instruction(&LirInst::Not(3, 2), &mut st).unwrap().unwrap();
    assert_eq!(ops[1], IrOp::Binary { dst: 3, op: BinOp::Bxor, a: 1, b: 2 });
    let ops = plan_instruction(&LirInst::NegF64(4, 1), &mut st).unwrap().unwrap();
    assert_eq!(ops, vec![IrOp::Unary { dst: 4, op: UnOp::Fneg, a: 0 }]);
    let ops = plan_instruction(&LirInst::ConstU64(5, u64::MAX), &mut st).unwrap().unwrap();
    assert_eq!(ops, vec![IrOp::Iconst { dst: 5, ty: ClifType::I64, imm: -1 }]);
}

fn func(blocks: Vec<LirBlock>, entry: u32) -> LirFunction {
    LirFunction { name: "f".to_string(), params: vec![], ret_type: LirType::I64, is_exported: true, blocks, entry_block: entry }
}

#[test]
fn blocks_drop_what_follows_a_terminator() {
    let b = LirBlock { id: 7, instructions: vec![LirInst::ConstI64(0, 1), LirInst::Return(Some(0)), LirInst::ConstI64(1, 2)] };
    assert_eq!(plan_block(&b), BlockPlan { id: 7, kept: 2, default_return: false });
    let b = LirBlock { id: 8, instructions: vec![LirInst::ConstI64(0, 1)] };
    assert_eq!(plan_block(&b), BlockPlan { id: 8, kept: 1, default_return: true });
}

#[test]
fn function_plans_need_a_declaration_and_an_entry() {
    let f = func(vec![LirBlock { id: 0, instructions: vec![] }], 0);
    assert_eq!(plan_function(&f, &vec![]).unwrap_err(), "Function f not declared");
    let g = func(vec![LirBlock { id: 0, instructions: vec![] }], 3);
    assert_eq!(plan_function(&g, &vec!["f".to_string()]).unwrap_err(), "Entry block not found");
    let plans = plan_function(&f, &vec!["f".to_string()]).unwrap();
    assert_eq!(plans, vec![BlockPlan { id: 0, kept: 0, default_return: true }]);
}

#[test]
fn memory_instructions_call_the_runtime() {
    let none = HeapFns { malloc: false, free: false, heap_guard: false };
    let mut st = state_with(&[(1, AotValueType::I64), (2, AotValueType::I64)]);
    let ops = plan_memory_instruction(&LirInst::PtrLoad(3, 1, 2), &mut st, none).unwrap().unwrap();
    assert_eq!(ops, vec![IrOp::Call { dst: 100, callee: RuntimeFn::LoadTyped, argc: 2, a0: 0, a1: 1, a2: 0 }]);
    assert!(matches!(st.types.get(&3), Some(AotValueType::I64)));
    let ops = plan_memory_instruction(&LirInst::AllocTyped(4, 1, 8), &mut st, none).unwrap().unwrap();
    assert_eq!(
        ops,
        vec![
            IrOp::Iconst { dst: 101, ty: ClifType::I64, imm: 8 },
            IrOp::Call { dst: 102, callee: RuntimeFn::AllocTyped, argc: 2, a0: 0, a1: 101, a2: 0 },
        ]
    );
    assert!(matches!(st.types.get(&4), Some(AotValueType::Ptr)));
    let ops = plan_memory_instruction(&LirInst::ArcNew(5, 1), &mut st, none).unwrap().unwrap();
    assert_eq!(ops.len(), 1);
    assert!(matches!(st.types.get(&5), Some(AotValueType::Handle)));
    assert!(plan_memory_instruction(&LirInst::AddI64(6, 1, 2), &mut st, none).unwrap().is_none());
}

#[test]
fn memory_instructions_refuse_what_is_missing() {
    let none = HeapFns { malloc: false, free: false, heap_guard: false };
    let mut st = state_with(&[(1, AotValueType::I64)]);
    assert_eq!(plan_memory_instruction(&LirInst::Alloc(2, 1), &mut st, none).unwrap_err(), "malloc not declared");
    assert_eq!(plan_memory_instruction(&LirInst::Alloc(2, 9), &mut st, none).unwrap_err(), "Alloc size value missing");
    assert_eq!(plan_memory_instruction(&LirInst::Free(1), &mut st, none).unwrap_err(), "free not declared");
    assert_eq!(plan_memory_instruction(&LirInst::PtrStore(1, 9, 1), &mut st, none).unwrap_err(), "PtrStore index value missing");
    assert_eq!(plan_memory_instruction(&LirInst::ArcSet(1, 7), &mut st, none).unwrap_err(), "ArcSet value missing");
    assert_eq!(st.next_ir, 100);
    let all = HeapFns { malloc: true, free: true, heap_guard: true };
    let ops = plan_memory_instruction(&LirInst::Alloc(2, 1), &mut st, all).unwrap().unwrap();
    assert_eq!(
        ops,
        vec![
            IrOp::Call { dst: 100, callee: RuntimeFn::HeapGuard, argc: 0, a0: 0, a1: 0, a2: 0 },
            IrOp::Call { dst: 101, callee: RuntimeFn::Malloc, argc: 1, a0: 0, a1: 0, a2: 0 },
        ]
    );
    assert_eq!(st.values.get(&2), Some(&101));
}

#[test]
fn control_flow_is_planned() {
    let blocks = vec![0u32, 1, 2];
    let mut st = state_with(&[(1, AotValueType::Bool)]);
    let ops = plan_control_instruction(&LirInst::JumpIf(1, 1, 2), &mut st, &blocks).unwrap().unwrap();
    assert_eq!(ops, vec![IrOp::Brif { cond: 0, then_block: 1, else_block: 2 }]);
    assert_eq!(plan_control_instruction(&LirInst::Jump(5), &mut st, &blocks).unwrap_err(), "Block 5 not found");
    assert_eq!(plan_control_instruction(&LirInst::JumpIf(4, 1, 2), &mut st, &blocks).unwrap_err(), "Value 4 not found");
    let ops = plan_control_instruction(&LirInst::Return(Some(1)), &mut st, &blocks).unwrap().unwrap();
    assert_eq!(ops, vec![IrOp::Return { value: Some(0) }]);
    let ops = plan_control_instruction(&LirInst::Phi(7, vec![(0, 1)]), &mut st, &blocks).unwrap().unwrap();
    assert!(ops.is_empty());
    assert_eq!(st.values.get(&7), Some(&0));
    let ops = plan_control_instruction(&LirInst::Phi(8, vec![]), &mut st, &blocks).unwrap().unwrap();
    assert_eq!(ops, vec![IrOp::Iconst { dst: 100, ty: ClifType::I64, imm: 0 }]);
    assert!(plan_control_instruction(&LirInst::AddI64(9, 1, 1), &mut st, &blocks).unwrap().is_none());
}

fn names(v: &[&str]) -> Vec<String> {
    v.iter().map(|s| s.to_string()).collect()
}

#[test]
fn held_strings_use_their_data_and_others_get_anonymous_data() {
    let keys = names(&["%d\n", "hello"]);
    let funcs = names(&[]);
    let mut st = state_with(&[]);
    let ops = plan_constant(&LirInst::ConstString(5, "hello".to_string()), &mut st, &keys, &funcs).unwrap().unwrap();
    assert_eq!(ops, vec![IrOp::StringData { dst: 100, entry: 1 }]);
    assert_eq!(st.const_strings.get(&5).map(|s| s.as_str()), Some("hello"));
    assert!(matches!(st.types.get(&5), Some(AotValueType::String)));
    let ops = plan_constant(&LirInst::ConstString(6, "other".to_string()), &mut st, &keys, &funcs).unwrap().unwrap();
    assert_eq!(ops, vec![IrOp::AnonString { dst: 101, of: 6 }]);
    assert_eq!(st.next_ir, 102);
}

#[test]
fn float_and_wide_constants_are_planned() {
    let keys = names(&[]);
    let funcs = names(&["helper", "main"]);
    let mut st = state_with(&[]);
    let bits = 1.5f64.to_bits();
    let ops = plan_constant(&LirInst::ConstF64(1, bits), &mut st, &keys, &funcs).unwrap().unwrap();
    assert_eq!(ops, vec![IrOp::F64Const { dst: 100, bits }]);
    assert!(matches!(st.types.get(&1), Some(AotValueType::F64)));
    let bits32 = 2.5f32.to_bits();
    let ops = plan_constant(&LirInst::ConstF32(2, bits32), &mut st, &keys, &funcs).unwrap().unwrap();
    assert_eq!(ops, vec![IrOp::F32Const { dst: 101, bits: bits32 }]);
    assert!(matches!(st.types.get(&2), Some(AotValueType::F32)));
    let ops = plan_constant(&LirInst::ConstI128(3, -7), &mut st, &keys, &funcs).unwrap().unwrap();
    assert_eq!(ops, vec![IrOp::Iconst { dst: 102, ty: ClifType::I64, imm: -7 }]);
    assert!(matches!(st.types.get(&3), Some(AotValueType::I128)));
    assert_eq!(st.const_ints.get(&3), Some(&-7));
    let ops = plan_constant(&LirInst::ConstFunc(4, "main".to_string(), vec![], false), &mut st, &keys, &funcs).unwrap().unwrap();
    assert_eq!(ops, vec![IrOp::Iconst { dst: 103, ty: ClifType::I64, imm: 0 }]);
    assert_eq!(st.func_values.get(&4), Some(&1));
    assert!(plan_constant(&LirInst::AddI64(9, 1, 2), &mut st, &keys, &funcs).unwrap().is_none());
}

#[test]
fn big_integers_keep_what_fits() {
    let keys = names(&[]);
    let funcs = names(&[]);
    let mut st = state_with(&[]);
    let ops = plan_constant(&LirInst::ConstBigInt(1, false, vec![42]), &mut st, &keys, &funcs).unwrap().unwrap();
    assert_eq!(ops, vec![IrOp::Iconst { dst: 100, ty: ClifType::I64, imm: 42 }]);
    assert!(matches!(st.types.get(&1), Some(AotValueType::U64)));
    let ops = plan_constant(&LirInst::ConstBigInt(2, true, vec![5]), &mut st, &keys, &funcs).unwrap().unwrap();
    assert_eq!(ops, vec![IrOp::Iconst { dst: 101, ty: ClifType::I64, imm: -5 }]);
    assert!(matches!(st.types.get(&2), Some(AotValueType::I64)));
    let ops = plan_constant(&LirInst::ConstBigInt(3, false, vec![1, 1]), &mut st, &keys, &funcs).unwrap().unwrap();
    assert_eq!(ops, vec![IrOp::Iconst { dst: 102, ty: ClifType::I64, imm: 0 }]);
}

fn function_named(name: &str, params: Vec<(String, LirType)>) -> LirFunction {
    LirFunction { name: name.to_string(), params, ret_type: LirType::I64, is_exported: false, blocks: vec![], entry_block: 0 }
}

#[test]
fn main_stores_its_arguments_and_initialises_the_runtime() {
    let f = function_named("main", vec![]);
    let (ops, st) = plan_entry(&f, false, true, true);
    assert_eq!(
        ops,
        vec![
            IrOp::StoreArg { global: ArgGlobal::Argc, value: 0 },
            IrOp::StoreArg { global: ArgGlobal::Argv, value: 1 },
            IrOp::CallInitArgs { argc: 0, argv: 1 },
        ]
    );
    assert_eq!(st.next_ir, 2);
    assert!(st.values.is_empty());
    let (ops, _) = plan_entry(&f, true, true, false);
    assert_eq!(ops, vec![IrOp::StoreArg { global: ArgGlobal::Argc, value: 0 }]);
}

#[test]
fn other_functions_bind_their_parameters() {
    let f = function_named("add", vec![("a".to_string(), LirType::I32), ("b".to_string(), LirType::F64)]);
    let (ops, st) = plan_entry(&f, false, true, true);
    assert!(ops.is_empty());
    assert_eq!(st.values.get(&0), Some(&0));
    assert_eq!(st.values.get(&1), Some(&1));
    assert!(matches!(st.types.get(&0), Some(AotValueType::I32)));
    assert!(matches!(st.types.get(&1), Some(AotValueType::F64)));
    assert_eq!(st.next_ir, 2);
    assert!(matches!(param_type(LirType::Void), AotValueType::Int));
}

#[test]
fn returned_values_are_brought_to_the_result_lane() {
    assert_eq!(return_conversion(ClifType::I64, ClifType::I64), ReturnConv::Keep);
    assert_eq!(return_conversion(ClifType::I64, ClifType::I8), ReturnConv::ZeroExtendToI64);
    assert_eq!(return_conversion(ClifType::I8, ClifType::I64), ReturnConv::ReduceToI8);
    assert_eq!(return_conversion(ClifType::F64, ClifType::I32), ReturnConv::SignedIntToF64);
    assert_eq!(return_conversion(ClifType::F32, ClifType::F64), ReturnConv::DemoteToF32);
    assert_eq!(return_conversion(ClifType::I64, ClifType::F64), ReturnConv::FloatToUnsignedI64);
    assert_eq!(return_conversion(ClifType::I32, ClifType::I64), ReturnConv::Keep);
    assert_eq!(return_zero_lane(ClifType::F32), ClifType::F32);
    assert_eq!(return_zero_lane(ClifType::I32), ClifType::I64);
}

#[test]
fn arithmetic_builtins_accept_the_std_prefix() {
    let mut st = state_with(&[(1, AotValueType::Int), (2, AotValueType::Int)]);
    let ops = plan_builtin_call("std:sub", 3, &vec![1, 2], &mut st, true).unwrap().unwrap();
    assert_eq!(ops, vec![IrOp::Binary { dst: 100, op: BinOp::Isub, a: 0, b: 1 }]);
    assert!(matches!(st.types.get(&3), Some(AotValueType::Int)));
    let ops = plan_builtin_call("mod", 4, &vec![1, 9], &mut st, true).unwrap().unwrap();
    assert_eq!(
        ops,
        vec![IrOp::Iconst { dst: 101, ty: ClifType::I64, imm: 0 }, IrOp::Binary { dst: 102, op: BinOp::Srem, a: 0, b: 101 }]
    );
    assert!(plan_builtin_call("print", 5, &vec![1], &mut st, true).unwrap().is_none());
}

#[test]
fn abs_min_and_bool_builtins() {
    let mut st = state_with(&[(1, AotValueType::Int), (2, AotValueType::Float), (3, AotValueType::Float)]);
    let ops = plan_builtin_call("abs", 4, &vec![1], &mut st, true).unwrap().unwrap();
    assert_eq!(
        ops,
        vec![
            IrOp::Iconst { dst: 100, ty: ClifType::I64, imm: 63 },
            IrOp::Binary { dst: 101, op: BinOp::Sshr, a: 0, b: 100 },
            IrOp::Binary { dst: 102, op: BinOp::Bxor, a: 0, b: 101 },
            IrOp::Binary { dst: 103, op: BinOp::Isub, a: 102, b: 101 },
        ]
    );
    let ops = plan_builtin_call("min", 5, &vec![2, 3], &mut st, true).unwrap().unwrap();
    assert_eq!(ops, vec![IrOp::Binary { dst: 104, op: BinOp::Fmin, a: 1, b: 2 }]);
    assert!(matches!(st.types.get(&5), Some(AotValueType::Float)));
    let ops = plan_builtin_call("bool", 6, &vec![1], &mut st, true).unwrap().unwrap();
    assert_eq!(
        ops,
        vec![
            IrOp::Iconst { dst: 105, ty: ClifType::I64, imm: 0 },
            IrOp::Iconst { dst: 106, ty: ClifType::I8, imm: 1 },
            IrOp::Iconst { dst: 107, ty: ClifType::I8, imm: 0 },
            IrOp::IntCompare { dst: 108, cond: IntCond::NotEqual, a: 0, b: 105 },
            IrOp::Select { dst: 109, cond: 108, a: 106, b: 107 },
        ]
    );
    assert!(matches!(st.types.get(&6), Some(AotValueType::Bool)));
}

#[test]
fn argument_and_length_builtins() {
    let mut st = state_with(&[(1, AotValueType::Tuple(vec![AotValueType::Int, AotValueType::Bool]))]);
    let ops = plan_builtin_call("argc", 2, &vec![], &mut st, true).unwrap().unwrap();
    assert_eq!(
        ops,
        vec![
            IrOp::GlobalAddr { dst: 100, global: ArgGlobal::Argc },
            IrOp::Load { dst: 101, ty: ClifType::I32, addr: 100, offset: 0 },
            IrOp::Convert { dst: 102, op: ConvOp::Sextend64, a: 101 },
        ]
    );
    let ops = plan_builtin_call("argv", 3, &vec![], &mut st, true).unwrap().unwrap();
    assert_eq!(ops, vec![IrOp::Call { dst: 103, callee: RuntimeFn::GetArgv, argc: 0, a0: 0, a1: 0, a2: 0 }]);
    let ops = plan_builtin_call("len", 4, &vec![1], &mut st, true).unwrap().unwrap();
    assert_eq!(ops, vec![IrOp::Iconst { dst: 104, ty: ClifType::I64, imm: 2 }]);
    let ops = plan_builtin_call("argc", 5, &vec![], &mut st, false).unwrap().unwrap();
    assert_eq!(ops, vec![IrOp::Iconst { dst: 105, ty: ClifType::I64, imm: 0 }]);
}

#[test]
fn values_become_runtime_handles() {
    let mut st = state_with(&[]);
    st.const_bools.insert(7, true);
    let (ops, h, next) = plan_handle_conversion(1, 40, &AotValueType::U8, &st, 200).unwrap();
    assert_eq!(
        ops,
        vec![
            IrOp::Convert { dst: 200, op: ConvOp::WidenToI64 { signed: false }, a: 40 },
            IrOp::Call { dst: 201, callee: RuntimeFn::MakeValue(ValueCtor::U8), argc: 1, a0: 200, a1: 0, a2: 0 },
        ]
    );
    assert_eq!((h, next), (201, 202));
    let (ops, h, next) = plan_handle_conversion(2, 41, &AotValueType::Handle, &st, 200).unwrap();
    assert!(ops.is_empty());
    assert_eq!((h, next), (41, 200));
    let (ops, h, _) = plan_handle_conversion(7, 42, &AotValueType::Bool, &st, 200).unwrap();
    assert_eq!(
        ops,
        vec![
            IrOp::Iconst { dst: 200, ty: ClifType::I64, imm: 1 },
            IrOp::Call { dst: 201, callee: RuntimeFn::MakeValue(ValueCtor::Bool), argc: 1, a0: 200, a1: 0, a2: 0 },
        ]
    );
    assert_eq!(h, 201);
    let (ops, h, _) = plan_handle_conversion(3, 43, &AotValueType::String, &st, 200).unwrap();
    assert_eq!(ops, vec![IrOp::Call { dst: 200, callee: RuntimeFn::MakeValue(ValueCtor::Str), argc: 1, a0: 43, a1: 0, a2: 0 }]);
    assert_eq!(h, 200);
    assert!(plan_handle_conversion(4, 44, &AotValueType::Tuple(vec![]), &st, 200).is_none());
}

#[test]
fn runtime_questions_are_calls() {
    let mut st = state_with(&[(1, AotValueType::String)]);
    let ops = plan_builtin_call("env", 2, &vec![1], &mut st, true).unwrap().unwrap();
    assert_eq!(ops, vec![IrOp::Call { dst: 100, callee: RuntimeFn::Query(QueryFn::Env), argc: 1, a0: 0, a1: 0, a2: 0 }]);
    assert!(matches!(st.types.get(&2), Some(AotValueType::String)));
    let ops = plan_builtin_call("std:execName", 3, &vec![], &mut st, true).unwrap().unwrap();
    assert_eq!(ops, vec![IrOp::Call { dst: 101, callee: RuntimeFn::Query(QueryFn::ExecName), argc: 0, a0: 0, a1: 0, a2: 0 }]);
    let ops = plan_builtin_call("argHas", 4, &vec![9], &mut st, true).unwrap().unwrap();
    assert_eq!(ops, vec![IrOp::Iconst { dst: 102, ty: ClifType::I64, imm: 0 }]);
    assert!(matches!(st.types.get(&4), Some(AotValueType::Bool)));
    let ops = plan_builtin_call("argsCount", 5, &vec![], &mut st, true).unwrap().unwrap();
    assert_eq!(ops[0], IrOp::GlobalAddr { dst: 103, global: ArgGlobal::Argc });
}

#[test]
fn float_and_character_casts() {
    let mut st = state_with(&[(1, AotValueType::U16), (2, AotValueType::F32), (3, AotValueType::String)]);
    let ops = plan_builtin_call("f64", 4, &vec![1], &mut st, true).unwrap().unwrap();
    assert_eq!(
        ops,
        vec![IrOp::Convert { dst: 100, op: ConvOp::Uextend64, a: 0 }, IrOp::Convert { dst: 101, op: ConvOp::UintToF64, a: 100 }]
    );
    assert!(matches!(st.types.get(&4), Some(AotValueType::F64)));
    let ops = plan_builtin_call("f32", 5, &vec![2], &mut st, true).unwrap().unwrap();
    assert!(ops.is_empty());
    assert_eq!(st.values.get(&5), Some(&1));
    let ops = plan_builtin_call("f32", 6, &vec![1], &mut st, true).unwrap().unwrap();
    assert_eq!(
        ops,
        vec![
            IrOp::Convert { dst: 102, op: ConvOp::Uextend64, a: 0 },
            IrOp::Convert { dst: 103, op: ConvOp::UintToF64, a: 102 },
            IrOp::Convert { dst: 104, op: ConvOp::DemoteF32, a: 103 },
        ]
    );
    let ops = plan_builtin_call("char", 7, &vec![3], &mut st, true).unwrap().unwrap();
    assert_eq!(
        ops,
        vec![
            IrOp::Load { dst: 105, ty: ClifType::I8, addr: 2, offset: 0 },
            IrOp::Convert { dst: 106, op: ConvOp::Uextend32, a: 105 },
        ]
    );
    assert!(matches!(st.types.get(&7), Some(AotValueType::Char)));
    let ops = plan_builtin_call("char", 8, &vec![], &mut st, true).unwrap().unwrap();
    assert_eq!(ops, vec![IrOp::Iconst { dst: 107, ty: ClifType::I32, imm: 0 }]);
}

#[test]
fn fixed_width_integer_casts() {
    let mut st = state_with(&[(1, AotValueType::Int), (2, AotValueType::Float), (3, AotValueType::String)]);
    let ops = plan_builtin_call("u8", 4, &vec![1], &mut st, true).unwrap().unwrap();
    assert_eq!(ops, vec![IrOp::Convert { dst: 100, op: ConvOp::Reduce(ClifType::I8), a: 0 }]);
    assert!(matches!(st.types.get(&4), Some(AotValueType::U8)));
    let ops = plan_builtin_call("i128", 5, &vec![2], &mut st, true).unwrap().unwrap();
    assert_eq!(
        ops,
        vec![
            IrOp::Convert { dst: 101, op: ConvOp::FloatToSint64, a: 1 },
            IrOp::Convert { dst: 102, op: ConvOp::Extend128 { signed: true }, a: 101 },
        ]
    );
    assert!(matches!(st.types.get(&5), Some(AotValueType::I128)));
    let ops = plan_builtin_call("u64", 6, &vec![1], &mut st, true).unwrap().unwrap();
    assert!(ops.is_empty());
    assert_eq!(st.values.get(&6), Some(&0));
    let ops = plan_builtin_call("i16", 7, &vec![3], &mut st, true).unwrap().unwrap();
    assert_eq!(ops, vec![IrOp::Iconst { dst: 103, ty: ClifType::I16, imm: 0 }]);
    let ops = plan_builtin_call("std:u32", 8, &vec![], &mut st, true).unwrap().unwrap();
    assert_eq!(ops, vec![IrOp::Iconst { dst: 104, ty: ClifType::I32, imm: 0 }]);
}
