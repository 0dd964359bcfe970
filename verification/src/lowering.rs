//! Planning the code generator's operations for the instructions of the
//! low-level IR: a function's entry; constants, integer and float
//! arithmetic, booleans, bitwise operations and comparisons; memory and
//! reference counting, which call the runtime; control flow; part of the
//! builtins; and turning values into runtime value handles. Each LIR
//! value is bound to a numbered IR value with a runtime type; lowering an
//! instruction gives the IR operations to emit, in order, and binds its
//! result. A function's blocks keep their instructions up to the first
//! terminator.
//!
//! Fixed-width integer operands keep their lane width: results are masked
//! (unsigned) or sign-extended (signed), `Shr` selects the arithmetic or
//! logical shift from the operand's signedness, and a shift count at or
//! beyond the lane width traps instead of relying on the machine's shift.

use vstd::prelude::*;
use std::collections::HashMap;
use crate::header::{LirBlock, LirFunction, LirInst, LirType};
use crate::strs::{concat, concat3, decimal, decimal_string, owned, str_eq, strings_view};
use crate::strings::contains_text;
use crate::values::{is_narrow, native_width, native_width_of, AotValueType, ClifType, TypeView};

verus! {

broadcast use vstd::std_specs::hash::group_hash_axioms;

/// Binary operations of the code generator.
#[derive(Debug, Clone, Copy, PartialEq, Eq, Structural)]
pub enum BinOp {
    Iadd,
    Isub,
    Imul,
    Sdiv,
    Srem,
    Fadd,
    Fsub,
    Fmul,
    Fdiv,
    Fmin,
    Fmax,
    Band,
    Bor,
    Bxor,
    Ishl,
    Sshr,
    Ushr,
}

/// Unary operations of the code generator.
#[derive(Debug, Clone, Copy, PartialEq, Eq, Structural)]
pub enum UnOp {
    Ineg,
    Fneg,
    Fabs,
}

/// Conversions between lanes.
#[derive(Debug, Clone, Copy, PartialEq, Eq, Structural)]
pub enum ConvOp {
    /// Zero-extend an integer to 64 bits.
    Uextend64,
    /// Sign-extend an integer to 64 bits.
    Sextend64,
    /// A float to a signed 64-bit integer.
    FloatToSint64,
    /// A signed integer to a 64-bit float.
    SintToF64,
    /// The value as a 64-bit integer: kept when it is one, extended
    /// (signed or not) from a narrower integer, else zero.
    WidenToI64 { signed: bool },
    /// An integer reduced to a narrower lane.
    Reduce(ClifType),
    /// An integer extended (signed or not) to 128 bits.
    Extend128 { signed: bool },
    /// A 32-bit float promoted to 64 bits.
    PromoteF64,
    /// A 64-bit float demoted to 32 bits.
    DemoteF32,
    /// An unsigned integer to a 64-bit float.
    UintToF64,
    /// A float to an unsigned 64-bit integer.
    FloatToUint64,
    /// Zero-extend an integer to 32 bits.
    Uextend32,
    /// The low 32 bits of an integer, zero-extended to 64 bits first when
    /// it is narrower.
    LowI32,
    /// The value as a 64-bit float: kept when it is one, promoted from a
    /// 32-bit float, an integer's bits read as a float of `from_bits32`
    /// bits or 64 (then promoted), else zero.
    WidenToF64 { from_bits32: bool },
}

/// Integer comparison conditions.
#[derive(Debug, Clone, Copy, PartialEq, Eq, Structural)]
pub enum IntCond {
    SignedLessThan,
    SignedLessThanOrEqual,
    SignedGreaterThan,
    SignedGreaterThanOrEqual,
    Equal,
    NotEqual,
    UnsignedGreaterThanOrEqual,
}

/// Float comparison conditions.
#[derive(Debug, Clone, Copy, PartialEq, Eq, Structural)]
pub enum FloatCond {
    LessThan,
    LessThanOrEqual,
    GreaterThan,
    GreaterThanOrEqual,
    Equal,
    NotEqual,
}

/// One operation to emit; `dst` numbers the IR value it defines.
#[derive(Debug, Clone, Copy, PartialEq, Eq, Structural)]
pub enum IrOp {
    Iconst { dst: u64, ty: ClifType, imm: i64 },
    Binary { dst: u64, op: BinOp, a: u64, b: u64 },
    Unary { dst: u64, op: UnOp, a: u64 },
    IntCompare { dst: u64, cond: IntCond, a: u64, b: u64 },
    FloatCompare { dst: u64, cond: FloatCond, a: u64, b: u64 },
    /// Trap with an integer overflow when the value is not zero.
    TrapNz { cond: u64 },
    /// Call a runtime function with the first `argc` of `a0`, `a1`, `a2`;
    /// `dst` numbers its result.
    Call { dst: u64, callee: RuntimeFn, argc: u8, a0: u64, a1: u64, a2: u64 },
    /// A 64-bit float constant, by its bits.
    F64Const { dst: u64, bits: u64 },
    /// A 32-bit float constant, by its bits, widened to a 64-bit float.
    F32Const { dst: u64, bits: u32 },
    /// The address of the data object at `entry` in the string table.
    StringData { dst: u64, entry: u64 },
    /// The address of a new anonymous data object holding the constant
    /// string of LIR value `of` (a 64-bit zero if it cannot be declared).
    AnonString { dst: u64, of: u32 },
    /// A conversion.
    Convert { dst: u64, op: ConvOp, a: u64 },
    /// `a` when `cond` is not zero, else `b`.
    Select { dst: u64, cond: u64, a: u64, b: u64 },
    /// Load a value of lane `ty` from `addr` plus `offset`.
    Load { dst: u64, ty: ClifType, addr: u64, offset: i32 },
    /// The address of a runtime argument global.
    GlobalAddr { dst: u64, global: ArgGlobal },
    /// Store a value into a runtime argument global.
    StoreArg { global: ArgGlobal, value: u64 },
    /// Call the runtime's argument initialiser with `argc` and `argv`.
    CallInitArgs { argc: u64, argv: u64 },
    /// Jump to a block.
    Jump { block: u32 },
    /// Jump to `then_block` when the value is not zero, else `else_block`.
    Brif { cond: u64, then_block: u32, else_block: u32 },
    /// Return the value, converted to the function's result lane, or that
    /// lane's zero.
    Return { value: Option<u64> },
}

/// The runtime's argument globals.
#[derive(Debug, Clone, Copy, PartialEq, Eq, Structural)]
pub enum ArgGlobal {
    Argc,
    Argv,
}

/// The runtime functions memory instructions call.
#[derive(Debug, Clone, Copy, PartialEq, Eq, Structural)]
pub enum RuntimeFn {
    HeapGuard,
    Malloc,
    Free,
    AllocTyped,
    LoadTyped,
    StoreTyped,
    ArcNew,
    ArcClone,
    ArcDrop,
    ArcGet,
    ArcSet,
    ArcStrongCount,
    ArcWeakCount,
    WeakNew,
    WeakDrop,
    /// The program's arguments as text.
    GetArgv,
    /// Boxing a value of the given kind as a runtime value handle.
    MakeValue(ValueCtor),
    /// A question about the program's arguments or environment.
    Query(QueryFn),
}

/// The runtime's answers about the program's arguments and environment.
#[derive(Debug, Clone, Copy, PartialEq, Eq, Structural)]
pub enum QueryFn {
    ExecName,
    ParseArgs,
    ArgsSlice,
    ArgsJoin,
    ArgsIndexOf,
    ArgGet,
    ArgHas,
    Env,
}

/// The runtime's constructors of value handles, by kind.
#[derive(Debug, Clone, Copy, PartialEq, Eq, Structural)]
pub enum ValueCtor {
    I64,
    I32,
    I16,
    I8,
    U64,
    U32,
    U16,
    U8,
    F64,
    F32,
    Bool,
    Char,
    Str,
    WrapPtr,
}

/// Which of the runtime's allocation functions a function being compiled
/// can call: `malloc`, `free` and the heap guard.
#[derive(Debug, Clone, Copy, PartialEq, Eq, Structural)]
pub struct HeapFns {
    pub malloc: bool,
    pub free: bool,
    pub heap_guard: bool,
}

/// What lowering knows of a function's values: the IR value and runtime
/// type bound to each LIR value, the integer and boolean constants, and
/// the number the next IR value gets.
pub struct LowerState {
    pub values: HashMap<u32, u64>,
    pub types: HashMap<u32, AotValueType>,
    pub const_ints: HashMap<u32, i64>,
    pub const_bools: HashMap<u32, bool>,
    pub const_strings: HashMap<u32, String>,
    pub func_values: HashMap<u32, u64>,
    /// The values known to be runtime value handles already.
    pub runtime_handles: HashMap<u32, bool>,
    pub next_ir: u64,
}

/// The plain value of a lowering state.
#[verifier::ext_equal]
pub struct LowerView {
    pub values: Map<u32, u64>,
    pub types: Map<u32, TypeView>,
    pub ints: Map<u32, i64>,
    pub bools: Map<u32, bool>,
    pub strings: Map<u32, Seq<char>>,
    pub funcs: Map<u32, u64>,
    pub handles: Set<u32>,
    pub next: u64,
}

impl LowerState {
    pub open spec fn view(&self) -> LowerView {
        LowerView {
            values: self.values@,
            types: self.types@.map_values(|t: AotValueType| t@),
            ints: self.const_ints@,
            bools: self.const_bools@,
            strings: self.const_strings@.map_values(|t: String| t@),
            funcs: self.func_values@,
            handles: self.runtime_handles@.dom(),
            next: self.next_ir,
        }
    }

    /// A state with no values bound; IR values are numbered from `first`.
    pub fn new(first: u64) -> (st: LowerState)
        ensures
            st.view().values == Map::<u32, u64>::empty(),
            st.view().types == Map::<u32, TypeView>::empty(),
            st.view().ints == Map::<u32, i64>::empty(),
            st.view().bools == Map::<u32, bool>::empty(),
            st.view().strings == Map::<u32, Seq<char>>::empty(),
            st.view().funcs == Map::<u32, u64>::empty(),
            st.view().handles == Set::<u32>::empty(),
            st.view().next == first,
    {
        let st = LowerState {
            values: HashMap::new(),
            types: HashMap::new(),
            const_ints: HashMap::new(),
            const_bools: HashMap::new(),
            const_strings: HashMap::new(),
            func_values: HashMap::new(),
            runtime_handles: HashMap::new(),
            next_ir: first,
        };
        assert(st.view().types =~= Map::<u32, TypeView>::empty());
        assert(st.view().strings =~= Map::<u32, Seq<char>>::empty());
        st
    }
}

/// What lowering one instruction gives: nothing (another lowering handles
/// it), a missing operand, or the operations and the state afterwards.
pub enum Lowered {
    NotHandled,
    Missing(u32),
    Refused(Seq<char>),
    Done(Seq<IrOp>, LowerView),
}

/// The state with `dst` bound to IR value `v` of type `t`, and the next
/// IR number `next`.
pub open spec fn bind(st: LowerView, dst: u32, v: u64, t: TypeView, next: int) -> LowerView {
    LowerView { values: st.values.insert(dst, v), types: st.types.insert(dst, t), next: next as u64, ..st }
}

/// The bits of a lane of width 8, 16 or 32: `2^width - 1`.
pub open spec fn lane_mask(width: u32) -> i64 {
    if width == 8 {
        255
    } else if width == 16 {
        65535
    } else {
        4294967295
    }
}

/// Masking `v` to a lane width: nothing at 64 bits, else an `and` with
/// the lane's bits. Gives the operations, the result and the next number.
pub open spec fn mask_ops(v: u64, width: u32, n: int) -> (Seq<IrOp>, u64, int) {
    if width >= 64 {
        (Seq::empty(), v, n)
    } else {
        (
            seq![
                IrOp::Iconst { dst: n as u64, ty: ClifType::I64, imm: lane_mask(width) },
                IrOp::Binary { dst: (n + 1) as u64, op: BinOp::Band, a: v, b: n as u64 },
            ],
            (n + 1) as u64,
            n + 2,
        )
    }
}

/// Sign-extending the low `width` bits of `v` to 64: nothing at 64 bits,
/// else a left then an arithmetic right shift by `64 - width`.
pub open spec fn sext_ops(v: u64, width: u32, n: int) -> (Seq<IrOp>, u64, int) {
    if width >= 64 {
        (Seq::empty(), v, n)
    } else {
        (
            seq![
                IrOp::Iconst { dst: n as u64, ty: ClifType::I64, imm: (64 - width) as i64 },
                IrOp::Binary { dst: (n + 1) as u64, op: BinOp::Ishl, a: v, b: n as u64 },
                IrOp::Binary { dst: (n + 2) as u64, op: BinOp::Sshr, a: (n + 1) as u64, b: n as u64 },
            ],
            (n + 2) as u64,
            n + 3,
        )
    }
}

/// Keeping a result within its lane: masked, then sign-extended when the
/// lane is signed.
pub open spec fn narrow_ops(v: u64, width: u32, signed: bool, n: int) -> (Seq<IrOp>, u64, int) {
    let m = mask_ops(v, width, n);
    if signed {
        let s = sext_ops(m.1, width, m.2);
        (m.0 + s.0, s.1, s.2)
    } else {
        m
    }
}

/// A trap when a shift count is at or beyond the lane width.
pub open spec fn trap_ops(count: u64, width: u32, n: int) -> Seq<IrOp> {
    seq![
        IrOp::Iconst { dst: n as u64, ty: ClifType::I64, imm: width as i64 },
        IrOp::IntCompare { dst: (n + 1) as u64, cond: IntCond::UnsignedGreaterThanOrEqual, a: count, b: n as u64 },
        IrOp::TrapNz { cond: (n + 1) as u64 },
    ]
}

/// The lane of an operand from its type: its width and signedness, or a
/// signed 64-bit lane when it has none.
pub open spec fn operand_lane(st: LowerView, a: u32) -> (u32, bool) {
    if st.types.dom().contains(a) && native_width_of(st.types[a]) is Some {
        native_width_of(st.types[a])->0
    } else {
        (64, true)
    }
}

/// The type a bitwise result keeps: its first operand's, or `I64`.
pub open spec fn operand_tag(st: LowerView, a: u32) -> TypeView {
    if st.types.dom().contains(a) {
        st.types[a]
    } else {
        TypeView::I64
    }
}

/// A constant `imm` of lane `ty` bound to `dst` with type `t`; integer
/// constants are remembered.
pub open spec fn lower_const(st: LowerView, dst: u32, ty: ClifType, imm: i64, t: TypeView) -> Lowered {
    let n = st.next as int;
    let s = bind(st, dst, n as u64, t, n + 1);
    Lowered::Done(seq![IrOp::Iconst { dst: n as u64, ty, imm }], LowerView { ints: st.ints.insert(dst, imm), ..s })
}

/// The kind of a one-operation, two-operand instruction.
#[derive(Debug, Clone, Copy, PartialEq, Eq, Structural)]
pub enum TwoOp {
    Bin(BinOp),
    Int(IntCond),
    Float(FloatCond),
}

/// The operation of a two-operand instruction.
pub open spec fn two_op(k: TwoOp, d: u64, a: u64, b: u64) -> IrOp {
    match k {
        TwoOp::Bin(op) => IrOp::Binary { dst: d, op, a, b },
        TwoOp::Int(cond) => IrOp::IntCompare { dst: d, cond, a, b },
        TwoOp::Float(cond) => IrOp::FloatCompare { dst: d, cond, a, b },
    }
}

/// A two-operand instruction: both operands looked up, in order.
pub open spec fn lower_two(st: LowerView, dst: u32, a: u32, b: u32, k: TwoOp, t: TypeView) -> Lowered {
    if !st.values.dom().contains(a) {
        Lowered::Missing(a)
    } else if !st.values.dom().contains(b) {
        Lowered::Missing(b)
    } else {
        let n = st.next as int;
        Lowered::Done(seq![two_op(k, n as u64, st.values[a], st.values[b])], bind(st, dst, n as u64, t, n + 1))
    }
}

/// A one-operand instruction.
pub open spec fn lower_one(st: LowerView, dst: u32, a: u32, op: UnOp, t: TypeView) -> Lowered {
    if !st.values.dom().contains(a) {
        Lowered::Missing(a)
    } else {
        let n = st.next as int;
        Lowered::Done(seq![IrOp::Unary { dst: n as u64, op, a: st.values[a] }], bind(st, dst, n as u64, t, n + 1))
    }
}

/// A bitwise `and`, `or`, `xor` or left shift (which first traps on an
/// out-of-range count): the native operation, then the result kept within
/// the first operand's lane, typed as that operand.
pub open spec fn lower_bitwise(st: LowerView, dst: u32, a: u32, b: u32, op: BinOp, shift: bool) -> Lowered {
    if !st.values.dom().contains(a) {
        Lowered::Missing(a)
    } else if !st.values.dom().contains(b) {
        Lowered::Missing(b)
    } else {
        let (width, signed) = operand_lane(st, a);
        let va = st.values[a];
        let vb = st.values[b];
        let n = st.next as int;
        let trap = if shift { trap_ops(vb, width, n) } else { Seq::empty() };
        let n1 = n + trap.len();
        let op_seq = seq![IrOp::Binary { dst: n1 as u64, op, a: va, b: vb }];
        let k = narrow_ops(n1 as u64, width, signed, n1 + 1);
        Lowered::Done(trap + op_seq + k.0, bind(st, dst, k.1, operand_tag(st, a), k.2))
    }
}

/// A right shift: a trap on an out-of-range count, then for a signed lane
/// the operand sign-extended and shifted arithmetically, for an unsigned
/// one a logical shift then the lane mask.
pub open spec fn lower_shr(st: LowerView, dst: u32, a: u32, b: u32) -> Lowered {
    if !st.values.dom().contains(a) {
        Lowered::Missing(a)
    } else if !st.values.dom().contains(b) {
        Lowered::Missing(b)
    } else {
        let (width, signed) = operand_lane(st, a);
        let va = st.values[a];
        let vb = st.values[b];
        let n = st.next as int;
        let trap = trap_ops(vb, width, n);
        if signed {
            let sx = sext_ops(va, width, n + 3);
            let d = sx.2;
            Lowered::Done(
                trap + sx.0 + seq![IrOp::Binary { dst: d as u64, op: BinOp::Sshr, a: sx.1, b: vb }],
                bind(st, dst, d as u64, operand_tag(st, a), d + 1),
            )
        } else {
            let d = n + 3;
            let m = mask_ops(d as u64, width, d + 1);
            Lowered::Done(
                trap + seq![IrOp::Binary { dst: d as u64, op: BinOp::Ushr, a: va, b: vb }] + m.0,
                bind(st, dst, m.1, operand_tag(st, a), m.2),
            )
        }
    }
}

/// An integer constant: a 64-bit lane holding the value, typed by its
/// width.
pub open spec fn int_const_spec(inst: LirInst, st: LowerView) -> Lowered {
    match inst {
        LirInst::ConstI64(d, v) => lower_const(st, d, ClifType::I64, v, TypeView::I64),
        LirInst::ConstI8(d, v) => lower_const(st, d, ClifType::I64, v as i64, TypeView::I8),
        LirInst::ConstI16(d, v) => lower_const(st, d, ClifType::I64, v as i64, TypeView::I16),
        LirInst::ConstI32(d, v) => lower_const(st, d, ClifType::I64, v as i64, TypeView::I32),
        LirInst::ConstU8(d, v) => lower_const(st, d, ClifType::I64, v as i64, TypeView::U8),
        LirInst::ConstU16(d, v) => lower_const(st, d, ClifType::I64, v as i64, TypeView::U16),
        LirInst::ConstU32(d, v) => lower_const(st, d, ClifType::I64, v as i64, TypeView::U32),
        LirInst::ConstU64(d, v) => lower_const(st, d, ClifType::I64, v as i64, TypeView::U64),
        _ => Lowered::NotHandled,
    }
}

/// A boolean constant (an 8-bit lane holding 1 or 0, remembered) or a
/// null pointer (a 64-bit zero).
pub open spec fn other_const_spec(inst: LirInst, st: LowerView) -> Lowered {
    match inst {
        LirInst::ConstBool(d, v) => {
            let n = st.next as int;
            Lowered::Done(
                seq![IrOp::Iconst { dst: n as u64, ty: ClifType::I8, imm: if v { 1 } else { 0 } }],
                LowerView { bools: st.bools.insert(d, v), ..bind(st, d, n as u64, TypeView::Bool, n + 1) },
            )
        },
        LirInst::ConstNull(d) => {
            let n = st.next as int;
            Lowered::Done(
                seq![IrOp::Iconst { dst: n as u64, ty: ClifType::I64, imm: 0 }],
                bind(st, d, n as u64, TypeView::Ptr, n + 1),
            )
        },
        _ => Lowered::NotHandled,
    }
}

/// Boolean negation: an exclusive or with 1.
pub open spec fn lower_not(st: LowerView, d: u32, a: u32) -> Lowered {
    if !st.values.dom().contains(a) {
        Lowered::Missing(a)
    } else {
        let n = st.next as int;
        Lowered::Done(
            seq![
                IrOp::Iconst { dst: n as u64, ty: ClifType::I8, imm: 1 },
                IrOp::Binary { dst: (n + 1) as u64, op: BinOp::Bxor, a: st.values[a], b: n as u64 },
            ],
            bind(st, d, (n + 1) as u64, TypeView::Bool, n + 2),
        )
    }
}

/// What lowering an instruction gives in a state.
#[verifier::opaque]
pub open spec fn lowering_spec(inst: LirInst, st: LowerView) -> Lowered {
    match inst {
        LirInst::ConstI64(..) | LirInst::ConstI8(..) | LirInst::ConstI16(..) | LirInst::ConstI32(..)
        | LirInst::ConstU8(..) | LirInst::ConstU16(..) | LirInst::ConstU32(..) | LirInst::ConstU64(..) => int_const_spec(inst, st),
        LirInst::ConstBool(..) | LirInst::ConstNull(..) => other_const_spec(inst, st),
        LirInst::AddI64(d, a, b) => lower_two(st, d, a, b, TwoOp::Bin(BinOp::Iadd), TypeView::I64),
        LirInst::SubI64(d, a, b) => lower_two(st, d, a, b, TwoOp::Bin(BinOp::Isub), TypeView::I64),
        LirInst::MulI64(d, a, b) => lower_two(st, d, a, b, TwoOp::Bin(BinOp::Imul), TypeView::I64),
        LirInst::DivI64(d, a, b) => lower_two(st, d, a, b, TwoOp::Bin(BinOp::Sdiv), TypeView::I64),
        LirInst::ModI64(d, a, b) => lower_two(st, d, a, b, TwoOp::Bin(BinOp::Srem), TypeView::I64),
        LirInst::NegI64(d, a) => lower_one(st, d, a, UnOp::Ineg, TypeView::I64),
        LirInst::AddF64(d, a, b) => lower_two(st, d, a, b, TwoOp::Bin(BinOp::Fadd), TypeView::F64),
        LirInst::SubF64(d, a, b) => lower_two(st, d, a, b, TwoOp::Bin(BinOp::Fsub), TypeView::F64),
        LirInst::MulF64(d, a, b) => lower_two(st, d, a, b, TwoOp::Bin(BinOp::Fmul), TypeView::F64),
        LirInst::DivF64(d, a, b) => lower_two(st, d, a, b, TwoOp::Bin(BinOp::Fdiv), TypeView::F64),
        LirInst::NegF64(d, a) => lower_one(st, d, a, UnOp::Fneg, TypeView::F64),
        LirInst::Not(d, a) => lower_not(st, d, a),
        LirInst::And(d, a, b) => lower_two(st, d, a, b, TwoOp::Bin(BinOp::Band), TypeView::Bool),
        LirInst::Or(d, a, b) => lower_two(st, d, a, b, TwoOp::Bin(BinOp::Bor), TypeView::Bool),
        LirInst::BitAnd(d, a, b) => lower_bitwise(st, d, a, b, BinOp::Band, false),
        LirInst::BitOr(d, a, b) => lower_bitwise(st, d, a, b, BinOp::Bor, false),
        LirInst::BitXor(d, a, b) => lower_bitwise(st, d, a, b, BinOp::Bxor, false),
        LirInst::Shl(d, a, b) => lower_bitwise(st, d, a, b, BinOp::Ishl, true),
        LirInst::Shr(d, a, b) => lower_shr(st, d, a, b),
        LirInst::CmpLtI64(d, a, b) => lower_two(st, d, a, b, TwoOp::Int(IntCond::SignedLessThan), TypeView::Bool),
        LirInst::CmpLeI64(d, a, b) => lower_two(st, d, a, b, TwoOp::Int(IntCond::SignedLessThanOrEqual), TypeView::Bool),
        LirInst::CmpGtI64(d, a, b) => lower_two(st, d, a, b, TwoOp::Int(IntCond::SignedGreaterThan), TypeView::Bool),
        LirInst::CmpGeI64(d, a, b) => lower_two(st, d, a, b, TwoOp::Int(IntCond::SignedGreaterThanOrEqual), TypeView::Bool),
        LirInst::CmpEqI64(d, a, b) => lower_two(st, d, a, b, TwoOp::Int(IntCond::Equal), TypeView::Bool),
        LirInst::CmpNeI64(d, a, b) => lower_two(st, d, a, b, TwoOp::Int(IntCond::NotEqual), TypeView::Bool),
        LirInst::CmpLtF64(d, a, b) => lower_two(st, d, a, b, TwoOp::Float(FloatCond::LessThan), TypeView::Bool),
        LirInst::CmpLeF64(d, a, b) => lower_two(st, d, a, b, TwoOp::Float(FloatCond::LessThanOrEqual), TypeView::Bool),
        LirInst::CmpGtF64(d, a, b) => lower_two(st, d, a, b, TwoOp::Float(FloatCond::GreaterThan), TypeView::Bool),
        LirInst::CmpGeF64(d, a, b) => lower_two(st, d, a, b, TwoOp::Float(FloatCond::GreaterThanOrEqual), TypeView::Bool),
        LirInst::CmpEqF64(d, a, b) => lower_two(st, d, a, b, TwoOp::Float(FloatCond::Equal), TypeView::Bool),
        LirInst::CmpNeF64(d, a, b) => lower_two(st, d, a, b, TwoOp::Float(FloatCond::NotEqual), TypeView::Bool),
        _ => Lowered::NotHandled,
    }
}

/// The message for an operand that has no value.
pub open spec fn missing_message(id: u32) -> Seq<char> {
    "Value "@ + decimal(id as nat) + " not found"@
}

/// The IR value of an operand, or `Value <id> not found`.
fn lookup(st: &LowerState, id: u32) -> (r: Result<u64, String>)
    ensures
        st.view().values.dom().contains(id) ==> r == Ok::<u64, String>(st.view().values[id]),
        !st.view().values.dom().contains(id) ==> (r matches Err(msg) && msg@ == missing_message(id)),
{
    match st.values.get(&id) {
        Some(v) => Ok(*v),
        None => {
            let n = decimal_string(id as u64);
            Err(concat3("Value ", n.as_str(), " not found"))
        },
    }
}

/// Binds `dst` to IR value `v` of type `t` and sets the next IR number.
fn bind_result(st: &mut LowerState, dst: u32, v: u64, t: AotValueType, next: u64)
    ensures
        final(st).view() == bind(old(st).view(), dst, v, t@, next as int),
{
    let ghost tv = t@;
    st.values.insert(dst, v);
    st.types.insert(dst, t);
    st.next_ir = next;
    assert(st.view().types =~= old(st).view().types.insert(dst, tv));
    assert(st.view() =~= bind(old(st).view(), dst, v, tv, next as int));
}

fn lane_mask_exec(width: u32) -> (m: i64)
    ensures
        m == lane_mask(width),
{
    if width == 8 {
        255
    } else if width == 16 {
        65535
    } else {
        4294967295
    }
}

/// Emits `mask_ops`.
fn emit_mask(ops: &mut Vec<IrOp>, v: u64, width: u32, n: u64) -> (r: (u64, u64))
    requires
        n + 2 <= u64::MAX,
    ensures
        final(ops)@ == old(ops)@ + mask_ops(v, width, n as int).0,
        r.0 == mask_ops(v, width, n as int).1,
        r.1 == mask_ops(v, width, n as int).2,
{
    if width >= 64 {
        assert(old(ops)@ + Seq::<IrOp>::empty() =~= old(ops)@);
        (v, n)
    } else {
        let ghost start = ops@;
        ops.push(IrOp::Iconst { dst: n, ty: ClifType::I64, imm: lane_mask_exec(width) });
        ops.push(IrOp::Binary { dst: n + 1, op: BinOp::Band, a: v, b: n });
        assert(ops@ =~= start + mask_ops(v, width, n as int).0);
        (n + 1, n + 2)
    }
}

/// Emits `sext_ops`.
fn emit_sext(ops: &mut Vec<IrOp>, v: u64, width: u32, n: u64) -> (r: (u64, u64))
    requires
        n + 3 <= u64::MAX,
    ensures
        final(ops)@ == old(ops)@ + sext_ops(v, width, n as int).0,
        r.0 == sext_ops(v, width, n as int).1,
        r.1 == sext_ops(v, width, n as int).2,
{
    if width >= 64 {
        assert(old(ops)@ + Seq::<IrOp>::empty() =~= old(ops)@);
        (v, n)
    } else {
        let ghost start = ops@;
        ops.push(IrOp::Iconst { dst: n, ty: ClifType::I64, imm: (64 - width) as i64 });
        ops.push(IrOp::Binary { dst: n + 1, op: BinOp::Ishl, a: v, b: n });
        ops.push(IrOp::Binary { dst: n + 2, op: BinOp::Sshr, a: n + 1, b: n });
        assert(ops@ =~= start + sext_ops(v, width, n as int).0);
        (n + 2, n + 3)
    }
}

/// Emits `narrow_ops`.
fn emit_narrow(ops: &mut Vec<IrOp>, v: u64, width: u32, signed: bool, n: u64) -> (r: (u64, u64))
    requires
        n + 5 <= u64::MAX,
    ensures
        final(ops)@ == old(ops)@ + narrow_ops(v, width, signed, n as int).0,
        r.0 == narrow_ops(v, width, signed, n as int).1,
        r.1 == narrow_ops(v, width, signed, n as int).2,
{
    let ghost start = ops@;
    let (m, n1) = emit_mask(ops, v, width, n);
    if signed {
        let ghost mid = ops@;
        let r = emit_sext(ops, m, width, n1);
        assert(ops@ =~= start + narrow_ops(v, width, signed, n as int).0);
        r
    } else {
        (m, n1)
    }
}

/// Emits `trap_ops`.
fn emit_trap(ops: &mut Vec<IrOp>, count: u64, width: u32, n: u64)
    requires
        n + 2 <= u64::MAX,
    ensures
        final(ops)@ == old(ops)@ + trap_ops(count, width, n as int),
{
    let ghost start = ops@;
    ops.push(IrOp::Iconst { dst: n, ty: ClifType::I64, imm: width as i64 });
    ops.push(IrOp::IntCompare { dst: n + 1, cond: IntCond::UnsignedGreaterThanOrEqual, a: count, b: n });
    ops.push(IrOp::TrapNz { cond: n + 1 });
    assert(ops@ =~= start + trap_ops(count, width, n as int));
}

/// The lane of an operand (see `operand_lane`).
fn lane_of_operand(st: &LowerState, a: u32) -> (r: (u32, bool))
    ensures
        r == operand_lane(st.view(), a),
{
    match native_width(st.types.get(&a)) {
        Some(l) => l,
        None => (64, true),
    }
}

/// The type a bitwise result keeps (see `operand_tag`).
fn tag_of_operand(st: &LowerState, a: u32) -> (t: AotValueType)
    ensures
        t@ == operand_tag(st.view(), a),
{
    match st.types.get(&a) {
        Some(t) => t.duplicate(),
        None => AotValueType::I64,
    }
}

fn lower_const_exec(st: &mut LowerState, dst: u32, ty: ClifType, imm: i64, t: AotValueType) -> (ops: Vec<IrOp>)
    requires
        old(st).next_ir + 1 <= u64::MAX,
    ensures
        lower_const(old(st).view(), dst, ty, imm, t@) == Lowered::Done(ops@, final(st).view()),
{
    let n = st.next_ir;
    let ghost tv = t@;
    let mut ops: Vec<IrOp> = Vec::new();
    ops.push(IrOp::Iconst { dst: n, ty, imm });
    bind_result(st, dst, n, t, n + 1);
    st.const_ints.insert(dst, imm);
    assert(ops@ =~= seq![IrOp::Iconst { dst: n, ty, imm }]);
    ops
}

/// Plans an integer constant (see `int_const_spec`).
fn plan_int_const(inst: &LirInst, st: &mut LowerState) -> (ops: Vec<IrOp>)
    requires
        old(st).next_ir + 1 <= u64::MAX,
        int_const_spec(*inst, old(st).view()) is Done,
    ensures
        int_const_spec(*inst, old(st).view()) == Lowered::Done(ops@, final(st).view()),
{
    match inst {
        LirInst::ConstI64(d, v) => lower_const_exec(st, *d, ClifType::I64, *v, AotValueType::I64),
        LirInst::ConstI8(d, v) => lower_const_exec(st, *d, ClifType::I64, *v as i64, AotValueType::I8),
        LirInst::ConstI16(d, v) => lower_const_exec(st, *d, ClifType::I64, *v as i64, AotValueType::I16),
        LirInst::ConstI32(d, v) => lower_const_exec(st, *d, ClifType::I64, *v as i64, AotValueType::I32),
        LirInst::ConstU8(d, v) => lower_const_exec(st, *d, ClifType::I64, *v as i64, AotValueType::U8),
        LirInst::ConstU16(d, v) => lower_const_exec(st, *d, ClifType::I64, *v as i64, AotValueType::U16),
        LirInst::ConstU32(d, v) => lower_const_exec(st, *d, ClifType::I64, *v as i64, AotValueType::U32),
        LirInst::ConstU64(d, v) => lower_const_exec(st, *d, ClifType::I64, *v as i64, AotValueType::U64),
        _ => Vec::new(),
    }
}

fn two_op_exec(k: TwoOp, d: u64, a: u64, b: u64) -> (op: IrOp)
    ensures
        op == two_op(k, d, a, b),
{
    match k {
        TwoOp::Bin(op) => IrOp::Binary { dst: d, op, a, b },
        TwoOp::Int(cond) => IrOp::IntCompare { dst: d, cond, a, b },
        TwoOp::Float(cond) => IrOp::FloatCompare { dst: d, cond, a, b },
    }
}

fn lower_two_exec(st: &mut LowerState, dst: u32, a: u32, b: u32, k: TwoOp, t: AotValueType) -> (r: Result<Option<Vec<IrOp>>, String>)
    requires
        old(st).next_ir + 1 <= u64::MAX,
    ensures
        outcome_matches(lower_two(old(st).view(), dst, a, b, k, t@), r, old(st).view(), final(st).view()),
{
    let va = match lookup(st, a) {
        Ok(v) => v,
        Err(e) => return Err(e),
    };
    let vb = match lookup(st, b) {
        Ok(v) => v,
        Err(e) => return Err(e),
    };
    let n = st.next_ir;
    let mut ops: Vec<IrOp> = Vec::new();
    ops.push(two_op_exec(k, n, va, vb));
    bind_result(st, dst, n, t, n + 1);
    assert(ops@ =~= seq![two_op(k, n, va, vb)]);
    Ok(Some(ops))
}

fn lower_one_exec(st: &mut LowerState, dst: u32, a: u32, op: UnOp, t: AotValueType) -> (r: Result<Option<Vec<IrOp>>, String>)
    requires
        old(st).next_ir + 1 <= u64::MAX,
    ensures
        outcome_matches(lower_one(old(st).view(), dst, a, op, t@), r, old(st).view(), final(st).view()),
{
    let va = match lookup(st, a) {
        Ok(v) => v,
        Err(e) => return Err(e),
    };
    let n = st.next_ir;
    let mut ops: Vec<IrOp> = Vec::new();
    ops.push(IrOp::Unary { dst: n, op, a: va });
    bind_result(st, dst, n, t, n + 1);
    assert(ops@ =~= seq![IrOp::Unary { dst: n, op, a: va }]);
    Ok(Some(ops))
}

fn lower_bitwise_exec(st: &mut LowerState, dst: u32, a: u32, b: u32, op: BinOp, shift: bool) -> (r: Result<Option<Vec<IrOp>>, String>)
    requires
        old(st).next_ir + 16 <= u64::MAX,
    ensures
        outcome_matches(lower_bitwise(old(st).view(), dst, a, b, op, shift), r, old(st).view(), final(st).view()),
{
    let va = match lookup(st, a) {
        Ok(v) => v,
        Err(e) => return Err(e),
    };
    let vb = match lookup(st, b) {
        Ok(v) => v,
        Err(e) => return Err(e),
    };
    let (width, signed) = lane_of_operand(st, a);
    let tag = tag_of_operand(st, a);
    let n = st.next_ir;
    let mut ops: Vec<IrOp> = Vec::new();
    let mut n1 = n;
    if shift {
        emit_trap(&mut ops, vb, width, n);
        n1 = n + 3;
    }
    let ghost trap = ops@;
    assert(trap.len() == n1 - n);
    ops.push(IrOp::Binary { dst: n1, op, a: va, b: vb });
    let (res, next) = emit_narrow(&mut ops, n1, width, signed, n1 + 1);
    bind_result(st, dst, res, tag, next);
    proof {
        let spec_trap: Seq<IrOp> = if shift { trap_ops(vb, width, n as int) } else { Seq::empty() };
        assert(trap =~= spec_trap);
        assert(ops@ =~= spec_trap + seq![IrOp::Binary { dst: n1, op, a: va, b: vb }] + narrow_ops(n1, width, signed, n1 + 1).0);
    }
    Ok(Some(ops))
}

fn lower_shr_exec(st: &mut LowerState, dst: u32, a: u32, b: u32) -> (r: Result<Option<Vec<IrOp>>, String>)
    requires
        old(st).next_ir + 16 <= u64::MAX,
    ensures
        outcome_matches(lower_shr(old(st).view(), dst, a, b), r, old(st).view(), final(st).view()),
{
    let va = match lookup(st, a) {
        Ok(v) => v,
        Err(e) => return Err(e),
    };
    let vb = match lookup(st, b) {
        Ok(v) => v,
        Err(e) => return Err(e),
    };
    let (width, signed) = lane_of_operand(st, a);
    let tag = tag_of_operand(st, a);
    let n = st.next_ir;
    let mut ops: Vec<IrOp> = Vec::new();
    emit_trap(&mut ops, vb, width, n);
    let ghost trap = ops@;
    if signed {
        let (sx, d) = emit_sext(&mut ops, va, width, n + 3);
        ops.push(IrOp::Binary { dst: d, op: BinOp::Sshr, a: sx, b: vb });
        bind_result(st, dst, d, tag, d + 1);
        assert(ops@ =~= trap + sext_ops(va, width, n + 3).0 + seq![IrOp::Binary { dst: d, op: BinOp::Sshr, a: sx, b: vb }]);
    } else {
        let d = n + 3;
        ops.push(IrOp::Binary { dst: d, op: BinOp::Ushr, a: va, b: vb });
        let ghost mid = ops@;
        let (m, next) = emit_mask(&mut ops, d, width, d + 1);
        bind_result(st, dst, m, tag, next);
        assert(ops@ =~= trap + seq![IrOp::Binary { dst: d, op: BinOp::Ushr, a: va, b: vb }] + mask_ops(d, width, d + 1).0);
    }
    Ok(Some(ops))
}

/// Whether a planned result agrees with an outcome: not handled leaves
/// the state and gives `Ok(None)`; a missing operand leaves the state and
/// gives its message; otherwise the operations and the state afterwards.
pub open spec fn outcome_matches(o: Lowered, r: Result<Option<Vec<IrOp>>, String>, before: LowerView, after: LowerView) -> bool {
    match o {
        Lowered::NotHandled => r matches Ok(None) && after == before,
        Lowered::Missing(id) => (r matches Err(msg) && msg@ == missing_message(id)) && after == before,
        Lowered::Refused(m) => (r matches Err(msg) && msg@ == m) && after == before,
        Lowered::Done(ops, s) => (r matches Ok(Some(v)) && v@ =~= ops) && after == s,
    }
}

/// Plans the operations of one instruction and binds its result, as
/// `lowering_spec` says: `Ok(None)` for an instruction this planning does
/// not handle, `Value <id> not found` for an operand without a value.
#[verifier::rlimit(100)]
#[verifier::spinoff_prover]
pub fn plan_instruction(inst: &LirInst, st: &mut LowerState) -> (r: Result<Option<Vec<IrOp>>, String>)
    requires
        old(st).next_ir + 16 <= u64::MAX,
    ensures
        outcome_matches(lowering_spec(*inst, old(st).view()), r, old(st).view(), final(st).view()),
{
    reveal(lowering_spec);
    match inst {
        LirInst::ConstI64(..) | LirInst::ConstI8(..) | LirInst::ConstI16(..) | LirInst::ConstI32(..)
        | LirInst::ConstU8(..) | LirInst::ConstU16(..) | LirInst::ConstU32(..) | LirInst::ConstU64(..) => {
            Ok(Some(plan_int_const(inst, st)))
        },
        LirInst::ConstBool(d, v) => {
            let n = st.next_ir;
            let imm: i64 = if *v { 1 } else { 0 };
            let mut ops: Vec<IrOp> = Vec::new();
            ops.push(IrOp::Iconst { dst: n, ty: ClifType::I8, imm });
            bind_result(st, *d, n, AotValueType::Bool, n + 1);
            st.const_bools.insert(*d, *v);
            assert(ops@ =~= seq![IrOp::Iconst { dst: n, ty: ClifType::I8, imm }]);
            Ok(Some(ops))
        },
        LirInst::ConstNull(d) => {
            let n = st.next_ir;
            let mut ops: Vec<IrOp> = Vec::new();
            ops.push(IrOp::Iconst { dst: n, ty: ClifType::I64, imm: 0 });
            bind_result(st, *d, n, AotValueType::Ptr, n + 1);
            assert(ops@ =~= seq![IrOp::Iconst { dst: n, ty: ClifType::I64, imm: 0 }]);
            Ok(Some(ops))
        },
        LirInst::AddI64(d, a, b) => lower_two_exec(st, *d, *a, *b, TwoOp::Bin(BinOp::Iadd), AotValueType::I64),
        LirInst::SubI64(d, a, b) => lower_two_exec(st, *d, *a, *b, TwoOp::Bin(BinOp::Isub), AotValueType::I64),
        LirInst::MulI64(d, a, b) => lower_two_exec(st, *d, *a, *b, TwoOp::Bin(BinOp::Imul), AotValueType::I64),
        LirInst::DivI64(d, a, b) => lower_two_exec(st, *d, *a, *b, TwoOp::Bin(BinOp::Sdiv), AotValueType::I64),
        LirInst::ModI64(d, a, b) => lower_two_exec(st, *d, *a, *b, TwoOp::Bin(BinOp::Srem), AotValueType::I64),
        LirInst::NegI64(d, a) => lower_one_exec(st, *d, *a, UnOp::Ineg, AotValueType::I64),
        LirInst::AddF64(d, a, b) => lower_two_exec(st, *d, *a, *b, TwoOp::Bin(BinOp::Fadd), AotValueType::F64),
        LirInst::SubF64(d, a, b) => lower_two_exec(st, *d, *a, *b, TwoOp::Bin(BinOp::Fsub), AotValueType::F64),
        LirInst::MulF64(d, a, b) => lower_two_exec(st, *d, *a, *b, TwoOp::Bin(BinOp::Fmul), AotValueType::F64),
        LirInst::DivF64(d, a, b) => lower_two_exec(st, *d, *a, *b, TwoOp::Bin(BinOp::Fdiv), AotValueType::F64),
        LirInst::NegF64(d, a) => lower_one_exec(st, *d, *a, UnOp::Fneg, AotValueType::F64),
        LirInst::Not(d, a) => {
            let va = match lookup(st, *a) {
                Ok(v) => v,
                Err(e) => return Err(e),
            };
            let n = st.next_ir;
            let mut ops: Vec<IrOp> = Vec::new();
            ops.push(IrOp::Iconst { dst: n, ty: ClifType::I8, imm: 1 });
            ops.push(IrOp::Binary { dst: n + 1, op: BinOp::Bxor, a: va, b: n });
            bind_result(st, *d, n + 1, AotValueType::Bool, n + 2);
            assert(ops@ =~= seq![
                IrOp::Iconst { dst: n, ty: ClifType::I8, imm: 1 },
                IrOp::Binary { dst: (n + 1) as u64, op: BinOp::Bxor, a: va, b: n },
            ]);
            Ok(Some(ops))
        },
        LirInst::And(d, a, b) => lower_two_exec(st, *d, *a, *b, TwoOp::Bin(BinOp::Band), AotValueType::Bool),
        LirInst::Or(d, a, b) => lower_two_exec(st, *d, *a, *b, TwoOp::Bin(BinOp::Bor), AotValueType::Bool),
        LirInst::BitAnd(d, a, b) => lower_bitwise_exec(st, *d, *a, *b, BinOp::Band, false),
        LirInst::BitOr(d, a, b) => lower_bitwise_exec(st, *d, *a, *b, BinOp::Bor, false),
        LirInst::BitXor(d, a, b) => lower_bitwise_exec(st, *d, *a, *b, BinOp::Bxor, false),
        LirInst::Shl(d, a, b) => lower_bitwise_exec(st, *d, *a, *b, BinOp::Ishl, true),
        LirInst::Shr(d, a, b) => lower_shr_exec(st, *d, *a, *b),
        LirInst::CmpLtI64(d, a, b) => lower_two_exec(st, *d, *a, *b, TwoOp::Int(IntCond::SignedLessThan), AotValueType::Bool),
        LirInst::CmpLeI64(d, a, b) => lower_two_exec(st, *d, *a, *b, TwoOp::Int(IntCond::SignedLessThanOrEqual), AotValueType::Bool),
        LirInst::CmpGtI64(d, a, b) => lower_two_exec(st, *d, *a, *b, TwoOp::Int(IntCond::SignedGreaterThan), AotValueType::Bool),
        LirInst::CmpGeI64(d, a, b) => lower_two_exec(st, *d, *a, *b, TwoOp::Int(IntCond::SignedGreaterThanOrEqual), AotValueType::Bool),
        LirInst::CmpEqI64(d, a, b) => lower_two_exec(st, *d, *a, *b, TwoOp::Int(IntCond::Equal), AotValueType::Bool),
        LirInst::CmpNeI64(d, a, b) => lower_two_exec(st, *d, *a, *b, TwoOp::Int(IntCond::NotEqual), AotValueType::Bool),
        LirInst::CmpLtF64(d, a, b) => lower_two_exec(st, *d, *a, *b, TwoOp::Float(FloatCond::LessThan), AotValueType::Bool),
        LirInst::CmpLeF64(d, a, b) => lower_two_exec(st, *d, *a, *b, TwoOp::Float(FloatCond::LessThanOrEqual), AotValueType::Bool),
        LirInst::CmpGtF64(d, a, b) => lower_two_exec(st, *d, *a, *b, TwoOp::Float(FloatCond::GreaterThan), AotValueType::Bool),
        LirInst::CmpGeF64(d, a, b) => lower_two_exec(st, *d, *a, *b, TwoOp::Float(FloatCond::GreaterThanOrEqual), AotValueType::Bool),
        LirInst::CmpEqF64(d, a, b) => lower_two_exec(st, *d, *a, *b, TwoOp::Float(FloatCond::Equal), AotValueType::Bool),
        LirInst::CmpNeF64(d, a, b) => lower_two_exec(st, *d, *a, *b, TwoOp::Float(FloatCond::NotEqual), AotValueType::Bool),
        _ => Ok(None),
    }
}

/// Whether an instruction ends a block.
pub open spec fn is_terminator(i: LirInst) -> bool {
    match i {
        LirInst::Return(_) | LirInst::Jump(_) | LirInst::JumpIf(_, _, _) | LirInst::TailCall(_, _) => true,
        _ => false,
    }
}

fn terminates(i: &LirInst) -> (b: bool)
    ensures
        b == is_terminator(*i),
{
    match i {
        LirInst::Return(_) | LirInst::Jump(_) | LirInst::JumpIf(_, _, _) | LirInst::TailCall(_, _) => true,
        _ => false,
    }
}

/// What compiling a function does with one of its blocks: the block's
/// number, how many of its instructions are lowered, and whether a return
/// of zero is added at its end.
#[derive(Debug, Clone, Copy, PartialEq, Eq, Structural)]
pub struct BlockPlan {
    pub id: u32,
    pub kept: usize,
    pub default_return: bool,
}

/// Whether a plan is that of a block: the instructions up to and
/// including the first terminator are kept and the rest dropped; a block
/// without a terminator keeps all of them and ends with a return of zero.
pub open spec fn plans_block(p: BlockPlan, b: LirBlock) -> bool {
    let s = b.instructions@;
    &&& p.id == b.id
    &&& p.kept <= s.len()
    &&& forall|j: int| 0 <= j < p.kept - 1 ==> !is_terminator(#[trigger] s[j])
    &&& if p.default_return {
        p.kept == s.len() && (s.len() == 0 || !is_terminator(s[s.len() - 1]))
    } else {
        p.kept >= 1 && is_terminator(s[p.kept - 1])
    }
}

/// The plan of one block.
pub fn plan_block(b: &LirBlock) -> (p: BlockPlan)
    ensures
        plans_block(p, *b),
{
    let n = b.instructions.len();
    let mut i: usize = 0;
    while i < n
        invariant
            n == b.instructions@.len(),
            i <= n,
            forall|j: int| 0 <= j < i ==> !is_terminator(#[trigger] b.instructions@[j]),
        decreases n - i,
    {
        if terminates(&b.instructions[i]) {
            return BlockPlan { id: b.id, kept: i + 1, default_return: false };
        }
        i = i + 1;
    }
    BlockPlan { id: b.id, kept: n, default_return: true }
}

/// Whether a function has a block with the given number.
fn has_block(blocks: &Vec<LirBlock>, id: u32) -> (b: bool)
    ensures
        b == exists|k: int| 0 <= k < blocks@.len() && (#[trigger] blocks@[k]).id == id,
{
    let mut i: usize = 0;
    while i < blocks.len()
        invariant
            i <= blocks@.len(),
            forall|k: int| 0 <= k < i ==> (#[trigger] blocks@[k]).id != id,
        decreases blocks.len() - i,
    {
        if blocks[i].id == id {
            return true;
        }
        i = i + 1;
    }
    false
}

/// Plans how a declared function's blocks are compiled, in order (see
/// `plans_block`). A function that was not declared gives
/// `Function <name> not declared`; one whose entry block is not among its
/// blocks gives `Entry block not found`.
pub fn plan_function(f: &LirFunction, declared: &Vec<String>) -> (r: Result<Vec<BlockPlan>, String>)
    ensures
        !strings_view(declared@).contains(f.name@) ==> (r matches Err(msg) && msg@ == "Function "@ + f.name@
            + " not declared"@),
        strings_view(declared@).contains(f.name@) && !(exists|k: int|
            0 <= k < f.blocks@.len() && (#[trigger] f.blocks@[k]).id == f.entry_block) ==> (r matches Err(msg)
            && msg@ == "Entry block not found"@),
        r is Ok <==> strings_view(declared@).contains(f.name@) && exists|k: int|
            0 <= k < f.blocks@.len() && (#[trigger] f.blocks@[k]).id == f.entry_block,
        r matches Ok(plans) ==> plans@.len() == f.blocks@.len() && forall|k: int|
            0 <= k < plans@.len() ==> plans_block(#[trigger] plans@[k], f.blocks@[k]),
{
    if !contains_text(declared, f.name.as_str()) {
        return Err(concat3("Function ", f.name.as_str(), " not declared"));
    }
    if !has_block(&f.blocks, f.entry_block) {
        return Err(owned("Entry block not found"));
    }
    let mut plans: Vec<BlockPlan> = Vec::new();
    let mut i: usize = 0;
    while i < f.blocks.len()
        invariant
            i <= f.blocks@.len(),
            plans@.len() == i,
            forall|k: int| 0 <= k < i ==> plans_block(#[trigger] plans@[k], f.blocks@[k]),
        decreases f.blocks.len() - i,
    {
        let p = plan_block(&f.blocks[i]);
        plans.push(p);
        i = i + 1;
    }
    Ok(plans)
}

/// Lowering a sequence of instructions in order from a state: for each,
/// its operations or nothing when another lowering handles it, and the
/// state afterwards; the first missing operand stops it with its message.
pub open spec fn lower_all(insts: Seq<LirInst>, st: LowerView) -> Result<(Seq<Option<Seq<IrOp>>>, LowerView), Seq<char>>
    decreases insts.len(),
{
    if insts.len() == 0 {
        Ok((Seq::empty(), st))
    } else {
        match lower_all(insts.drop_last(), st) {
            Err(e) => Err(e),
            Ok(done) => match lowering_spec(insts.last(), done.1) {
                Lowered::NotHandled => Ok((done.0.push(None), done.1)),
                Lowered::Missing(id) => Err(missing_message(id)),
                Lowered::Refused(m) => Err(m),
                Lowered::Done(ops, s2) => Ok((done.0.push(Some(ops)), s2)),
            },
        }
    }
}

/// The plain value of planned operations.
pub open spec fn planned_view(v: Seq<Option<Vec<IrOp>>>) -> Seq<Option<Seq<IrOp>>> {
    v.map_values(|o: Option<Vec<IrOp>>| match o {
        Some(ops) => Some(ops@),
        None => None,
    })
}

/// Lowering one instruction uses at most 16 new IR numbers.
#[verifier::rlimit(100)]
#[verifier::spinoff_prover]
proof fn lemma_lowering_growth(inst: LirInst, st: LowerView)
    requires
        st.next + 16 <= u64::MAX,
    ensures
        lowering_spec(inst, st) matches Lowered::Done(ops, s2) ==> st.next <= s2.next <= st.next + 16,
{
    reveal(lowering_spec);
}

/// Plans the kept instructions of a block in order (see `lower_all`),
/// starting from a state.
pub fn plan_block_lowering(b: &LirBlock, kept: usize, st: &mut LowerState) -> (r: Result<Vec<Option<Vec<IrOp>>>, String>)
    requires
        kept <= b.instructions@.len(),
        old(st).next_ir + 16 * kept + 16 <= u64::MAX,
    ensures
        lower_all(b.instructions@.subrange(0, kept as int), old(st).view()) matches Ok(done) ==> (r matches Ok(v)
            && planned_view(v@) == done.0 && final(st).view() == done.1),
        lower_all(b.instructions@.subrange(0, kept as int), old(st).view()) matches Err(e) ==> (r matches Err(
            msg,
        ) && msg@ == e),
{
    let ghost start = st.view();
    let mut out: Vec<Option<Vec<IrOp>>> = Vec::new();
    let mut i: usize = 0;
    while i < kept
        invariant
            kept <= b.instructions@.len(),
            i <= kept,
            lower_all(b.instructions@.subrange(0, i as int), start) matches Ok(done) && planned_view(out@) == done.0
                && st.view() == done.1,
            st.next_ir + 16 * (kept - i) + 16 <= u64::MAX,
            start == old(st).view(),
        decreases kept - i,
    {
        let ghost before = st.view();
        let ghost out_before = out@;
        let ghost sub = b.instructions@.subrange(0, i + 1);
        proof {
            assert(sub.drop_last() =~= b.instructions@.subrange(0, i as int));
            assert(sub.last() == b.instructions@[i as int]);
            lemma_lowering_growth(b.instructions@[i as int], before);
        }
        match plan_instruction(&b.instructions[i], st) {
            Ok(o) => {
                out.push(o);
                assert(planned_view(out@) =~= planned_view(out_before).push(match o {
                    Some(ops) => Some(ops@),
                    None => None,
                }));
            },
            Err(e) => {
                proof {
                    assert(lower_all(sub, start) == Err::<(Seq<Option<Seq<IrOp>>>, LowerView), Seq<char>>(e@));
                    lemma_lower_all_stops(b.instructions@, start, i + 1, kept as int);
                }
                return Err(e);
            },
        }
        i = i + 1;
    }
    Ok(out)
}

/// Once lowering a prefix fails, lowering any longer prefix fails with the
/// same message.
proof fn lemma_lower_all_stops(s: Seq<LirInst>, st: LowerView, k: int, j: int)
    requires
        0 <= k <= j <= s.len(),
        lower_all(s.subrange(0, k), st) is Err,
    ensures
        lower_all(s.subrange(0, j), st) == lower_all(s.subrange(0, k), st),
    decreases j - k,
{
    if j > k {
        lemma_lower_all_stops(s, st, k, j - 1);
        assert(s.subrange(0, j).drop_last() =~= s.subrange(0, j - 1));
    }
}

/// A runtime call with `argc` of the IR values `a0`, `a1`, `a2`, numbered
/// `n`, after `pre`; its result bound to `dst` with type `t` when given.
pub open spec fn call_done(
    st: LowerView,
    pre: Seq<IrOp>,
    n: int,
    callee: RuntimeFn,
    argc: u8,
    a0: u64,
    a1: u64,
    a2: u64,
    result: Option<(u32, TypeView)>,
) -> Lowered {
    let op = IrOp::Call { dst: n as u64, callee, argc, a0, a1, a2 };
    match result {
        Some((dst, t)) => Lowered::Done(pre.push(op), bind(st, dst, n as u64, t, n + 1)),
        None => Lowered::Done(pre.push(op), LowerView { next: (n + 1) as u64, ..st }),
    }
}

/// A runtime call on one LIR value, refused with `msg` when it has none.
pub open spec fn call1(st: LowerView, a: u32, msg: Seq<char>, callee: RuntimeFn, result: Option<(u32, TypeView)>) -> Lowered {
    if !st.values.dom().contains(a) {
        Lowered::Refused(msg)
    } else {
        call_done(st, Seq::empty(), st.next as int, callee, 1, st.values[a], 0, 0, result)
    }
}

/// A runtime call on two LIR values, each refused with its message.
pub open spec fn call2(
    st: LowerView,
    a: u32,
    b: u32,
    ma: Seq<char>,
    mb: Seq<char>,
    callee: RuntimeFn,
    result: Option<(u32, TypeView)>,
) -> Lowered {
    if !st.values.dom().contains(a) {
        Lowered::Refused(ma)
    } else if !st.values.dom().contains(b) {
        Lowered::Refused(mb)
    } else {
        call_done(st, Seq::empty(), st.next as int, callee, 2, st.values[a], st.values[b], 0, result)
    }
}

/// What lowering a memory instruction gives: calls of the runtime's
/// allocation, typed-array and reference-counting functions, with the
/// message of the first operand that has no value. `Alloc` first calls
/// the heap guard when it can, and needs `malloc`; `Free` needs `free`.
pub open spec fn memory_spec(inst: LirInst, st: LowerView, fns: HeapFns) -> Lowered {
    match inst {
        LirInst::Alloc(d, size) => {
            let n = st.next as int;
            let pre = if fns.heap_guard {
                seq![IrOp::Call { dst: n as u64, callee: RuntimeFn::HeapGuard, argc: 0, a0: 0, a1: 0, a2: 0 }]
            } else {
                Seq::empty()
            };
            let n1 = n + pre.len();
            if !st.values.dom().contains(size) {
                Lowered::Refused("Alloc size value missing"@)
            } else if !fns.malloc {
                Lowered::Refused("malloc not declared"@)
            } else {
                call_done(st, pre, n1, RuntimeFn::Malloc, 1, st.values[size], 0, 0, Some((d, TypeView::Ptr)))
            }
        },
        LirInst::AllocTyped(d, size, elem) => {
            if !st.values.dom().contains(size) {
                Lowered::Refused("AllocTyped size value missing"@)
            } else {
                let n = st.next as int;
                call_done(
                    st,
                    seq![IrOp::Iconst { dst: n as u64, ty: ClifType::I64, imm: elem }],
                    n + 1,
                    RuntimeFn::AllocTyped,
                    2,
                    st.values[size],
                    n as u64,
                    0,
                    Some((d, TypeView::Ptr)),
                )
            }
        },
        LirInst::Free(p) => {
            if !st.values.dom().contains(p) {
                Lowered::Refused("Free pointer value missing"@)
            } else if !fns.free {
                Lowered::Refused("free not declared"@)
            } else {
                call_done(st, Seq::empty(), st.next as int, RuntimeFn::Free, 1, st.values[p], 0, 0, None)
            }
        },
        LirInst::PtrLoad(d, p, i) => call2(
            st,
            p,
            i,
            "PtrLoad ptr value missing"@,
            "PtrLoad index value missing"@,
            RuntimeFn::LoadTyped,
            Some((d, TypeView::I64)),
        ),
        LirInst::PtrStore(p, i, v) => {
            if !st.values.dom().contains(p) {
                Lowered::Refused("PtrStore ptr value missing"@)
            } else if !st.values.dom().contains(i) {
                Lowered::Refused("PtrStore index value missing"@)
            } else if !st.values.dom().contains(v) {
                Lowered::Refused("PtrStore value missing"@)
            } else {
                call_done(st, Seq::empty(), st.next as int, RuntimeFn::StoreTyped, 3, st.values[p], st.values[i], st.values[v], None)
            }
        },
        LirInst::ArcNew(d, v) => call1(st, v, "ArcNew value missing"@, RuntimeFn::ArcNew, Some((d, TypeView::Handle))),
        LirInst::ArcClone(d, a) => call1(st, a, "ArcClone handle missing"@, RuntimeFn::ArcClone, Some((d, TypeView::Handle))),
        LirInst::ArcDrop(a) => call1(st, a, "ArcDrop handle missing"@, RuntimeFn::ArcDrop, None),
        LirInst::ArcGet(d, a) => call1(st, a, "ArcGet arc handle missing"@, RuntimeFn::ArcGet, Some((d, TypeView::Handle))),
        LirInst::ArcSet(a, v) => call2(
            st,
            a,
            v,
            "ArcSet arc handle missing"@,
            "ArcSet value missing"@,
            RuntimeFn::ArcSet,
            None,
        ),
        LirInst::ArcStrongCount(d, a) => call1(st, a, "ArcStrongCount arc handle missing"@, RuntimeFn::ArcStrongCount, Some((d, TypeView::I64))),
        LirInst::ArcWeakCount(d, a) => call1(st, a, "ArcWeakCount arc handle missing"@, RuntimeFn::ArcWeakCount, Some((d, TypeView::I64))),
        LirInst::WeakNew(d, a) => call1(st, a, "WeakNew arc handle missing"@, RuntimeFn::WeakNew, Some((d, TypeView::Handle))),
        LirInst::WeakDrop(w) => call1(st, w, "WeakDrop weak handle missing"@, RuntimeFn::WeakDrop, None),
        _ => Lowered::NotHandled,
    }
}

fn emit_call(
    st: &mut LowerState,
    ops: &mut Vec<IrOp>,
    callee: RuntimeFn,
    argc: u8,
    a0: u64,
    a1: u64,
    a2: u64,
    dst: Option<u32>,
    t: AotValueType,
) -> (r: Result<Option<Vec<IrOp>>, String>)
    requires
        old(st).next_ir + 1 <= u64::MAX,
    ensures
        outcome_matches(
            call_done(
                old(st).view(),
                old(ops)@,
                old(st).next_ir as int,
                callee,
                argc,
                a0,
                a1,
                a2,
                match dst {
                    Some(d) => Some((d, t@)),
                    None => None,
                },
            ),
            r,
            old(st).view(),
            final(st).view(),
        ),
{
    let n = st.next_ir;
    let mut out: Vec<IrOp> = Vec::new();
    out.append(ops);
    out.push(IrOp::Call { dst: n, callee, argc, a0, a1, a2 });
    match dst {
        Some(d) => bind_result(st, d, n, t, n + 1),
        None => {
            st.next_ir = n + 1;
            assert(st.view() =~= (LowerView { next: (n + 1) as u64, ..old(st).view() }));
        },
    }
    Ok(Some(out))
}

fn refuse(msg: &str) -> (r: Result<Option<Vec<IrOp>>, String>)
    ensures
        r matches Err(m) && m@ == msg@,
{
    Err(owned(msg))
}

/// Plans a memory instruction as `memory_spec` says: `Ok(None)` for any
/// other instruction, the message of a missing operand or function.
#[verifier::rlimit(100)]
#[verifier::spinoff_prover]
pub fn plan_memory_instruction(inst: &LirInst, st: &mut LowerState, fns: HeapFns) -> (r: Result<Option<Vec<IrOp>>, String>)
    requires
        old(st).next_ir + 4 <= u64::MAX,
    ensures
        outcome_matches(memory_spec(*inst, old(st).view(), fns), r, old(st).view(), final(st).view()),
{
    let mut ops: Vec<IrOp> = Vec::new();
    match inst {
        LirInst::Alloc(d, size) => {
            let n0 = st.next_ir;
            if fns.heap_guard {
                let n = st.next_ir;
                ops.push(IrOp::Call { dst: n, callee: RuntimeFn::HeapGuard, argc: 0, a0: 0, a1: 0, a2: 0 });
                st.next_ir = n + 1;
            }
            let ghost mid = st.view();
            let vs = match st.values.get(size) {
                Some(v) => *v,
                None => {
                    st.next_ir = n0;
                    assert(st.view() =~= old(st).view());
                    return refuse("Alloc size value missing");
                },
            };
            if !fns.malloc {
                st.next_ir = n0;
                assert(st.view() =~= old(st).view());
                return refuse("malloc not declared");
            }
            let n1 = st.next_ir;
            let r = emit_call(st, &mut ops, RuntimeFn::Malloc, 1, vs, 0, 0, Some(*d), AotValueType::Ptr);
            proof {
                let o = old(st).view();
                assert(mid =~= (LowerView { next: n1, ..o }));
                assert(bind(mid, *d, n1, TypeView::Ptr, n1 + 1) =~= bind(o, *d, n1, TypeView::Ptr, n1 + 1));
            }
            r
        },
        LirInst::AllocTyped(d, size, elem) => {
            let vs = match st.values.get(size) {
                Some(v) => *v,
                None => return refuse("AllocTyped size value missing"),
            };
            let n = st.next_ir;
            ops.push(IrOp::Iconst { dst: n, ty: ClifType::I64, imm: *elem });
            st.next_ir = n + 1;
            let ghost mid = st.view();
            let r = emit_call(st, &mut ops, RuntimeFn::AllocTyped, 2, vs, n, 0, Some(*d), AotValueType::Ptr);
            proof {
                let o = old(st).view();
                assert(mid =~= (LowerView { next: (n + 1) as u64, ..o }));
                assert(bind(mid, *d, (n + 1) as u64, TypeView::Ptr, n + 2) =~= bind(o, *d, (n + 1) as u64, TypeView::Ptr, n + 2));
            }
            r
        },
        LirInst::Free(p) => {
            let vp = match st.values.get(p) {
                Some(v) => *v,
                None => return refuse("Free pointer value missing"),
            };
            if !fns.free {
                return refuse("free not declared");
            }
            emit_call(st, &mut ops, RuntimeFn::Free, 1, vp, 0, 0, None, AotValueType::I64)
        },
        LirInst::PtrLoad(d, p, i) => {
            let vp = match st.values.get(p) {
                Some(v) => *v,
                None => return refuse("PtrLoad ptr value missing"),
            };
            let vi = match st.values.get(i) {
                Some(v) => *v,
                None => return refuse("PtrLoad index value missing"),
            };
            emit_call(st, &mut ops, RuntimeFn::LoadTyped, 2, vp, vi, 0, Some(*d), AotValueType::I64)
        },
        LirInst::PtrStore(p, i, v) => {
            let vp = match st.values.get(p) {
                Some(x) => *x,
                None => return refuse("PtrStore ptr value missing"),
            };
            let vi = match st.values.get(i) {
                Some(x) => *x,
                None => return refuse("PtrStore index value missing"),
            };
            let vv = match st.values.get(v) {
                Some(x) => *x,
                None => return refuse("PtrStore value missing"),
            };
            emit_call(st, &mut ops, RuntimeFn::StoreTyped, 3, vp, vi, vv, None, AotValueType::I64)
        },
        LirInst::ArcNew(d, v) => {
            let x = match st.values.get(v) {
                Some(x) => *x,
                None => return refuse("ArcNew value missing"),
            };
            emit_call(st, &mut ops, RuntimeFn::ArcNew, 1, x, 0, 0, Some(*d), AotValueType::Handle)
        },
        LirInst::ArcClone(d, a) => {
            let x = match st.values.get(a) {
                Some(x) => *x,
                None => return refuse("ArcClone handle missing"),
            };
            emit_call(st, &mut ops, RuntimeFn::ArcClone, 1, x, 0, 0, Some(*d), AotValueType::Handle)
        },
        LirInst::ArcDrop(a) => {
            let x = match st.values.get(a) {
                Some(x) => *x,
                None => return refuse("ArcDrop handle missing"),
            };
            emit_call(st, &mut ops, RuntimeFn::ArcDrop, 1, x, 0, 0, None, AotValueType::I64)
        },
        LirInst::ArcGet(d, a) => {
            let x = match st.values.get(a) {
                Some(x) => *x,
                None => return refuse("ArcGet arc handle missing"),
            };
            emit_call(st, &mut ops, RuntimeFn::ArcGet, 1, x, 0, 0, Some(*d), AotValueType::Handle)
        },
        LirInst::ArcSet(a, v) => {
            let x = match st.values.get(a) {
                Some(x) => *x,
                None => return refuse("ArcSet arc handle missing"),
            };
            let y = match st.values.get(v) {
                Some(y) => *y,
                None => return refuse("ArcSet value missing"),
            };
            emit_call(st, &mut ops, RuntimeFn::ArcSet, 2, x, y, 0, None, AotValueType::I64)
        },
        LirInst::ArcStrongCount(d, a) => {
            let x = match st.values.get(a) {
                Some(x) => *x,
                None => return refuse("ArcStrongCount arc handle missing"),
            };
            emit_call(st, &mut ops, RuntimeFn::ArcStrongCount, 1, x, 0, 0, Some(*d), AotValueType::I64)
        },
        LirInst::ArcWeakCount(d, a) => {
            let x = match st.values.get(a) {
                Some(x) => *x,
                None => return refuse("ArcWeakCount arc handle missing"),
            };
            emit_call(st, &mut ops, RuntimeFn::ArcWeakCount, 1, x, 0, 0, Some(*d), AotValueType::I64)
        },
        LirInst::WeakNew(d, a) => {
            let x = match st.values.get(a) {
                Some(x) => *x,
                None => return refuse("WeakNew arc handle missing"),
            };
            emit_call(st, &mut ops, RuntimeFn::WeakNew, 1, x, 0, 0, Some(*d), AotValueType::Handle)
        },
        LirInst::WeakDrop(w) => {
            let x = match st.values.get(w) {
                Some(x) => *x,
                None => return refuse("WeakDrop weak handle missing"),
            };
            emit_call(st, &mut ops, RuntimeFn::WeakDrop, 1, x, 0, 0, None, AotValueType::I64)
        },
        _ => Ok(None),
    }
}

/// The message for a block the function does not have.
pub open spec fn block_message(id: u32) -> Seq<char> {
    "Block "@ + decimal(id as nat) + " not found"@
}

/// What lowering a control-flow instruction gives, for a function with
/// the blocks `blocks`: a jump, a conditional branch, a return, or for a
/// phi the value of its first source (a 64-bit zero when it has none or
/// that value is unknown).
pub open spec fn control_spec(inst: LirInst, st: LowerView, blocks: Seq<u32>) -> Lowered {
    match inst {
        LirInst::Jump(t) => if !blocks.contains(t) {
            Lowered::Refused(block_message(t))
        } else {
            Lowered::Done(seq![IrOp::Jump { block: t }], st)
        },
        LirInst::JumpIf(c, a, b) => if !st.values.dom().contains(c) {
            Lowered::Missing(c)
        } else if !blocks.contains(a) {
            Lowered::Refused(block_message(a))
        } else if !blocks.contains(b) {
            Lowered::Refused(block_message(b))
        } else {
            Lowered::Done(seq![IrOp::Brif { cond: st.values[c], then_block: a, else_block: b }], st)
        },
        LirInst::Return(Some(v)) => if !st.values.dom().contains(v) {
            Lowered::Missing(v)
        } else {
            Lowered::Done(seq![IrOp::Return { value: Some(st.values[v]) }], st)
        },
        LirInst::Return(None) => Lowered::Done(seq![IrOp::Return { value: None }], st),
        LirInst::Phi(d, sources) => if sources@.len() > 0 && st.values.dom().contains(sources@[0].1) {
            Lowered::Done(Seq::empty(), LowerView { values: st.values.insert(d, st.values[sources@[0].1]), ..st })
        } else {
            let n = st.next as int;
            Lowered::Done(
                seq![IrOp::Iconst { dst: n as u64, ty: ClifType::I64, imm: 0 }],
                LowerView { values: st.values.insert(d, n as u64), next: (n + 1) as u64, ..st },
            )
        },
        _ => Lowered::NotHandled,
    }
}

fn find_block(blocks: &Vec<u32>, id: u32) -> (r: Result<(), String>)
    ensures
        blocks@.contains(id) ==> r is Ok,
        !blocks@.contains(id) ==> (r matches Err(m) && m@ == block_message(id)),
{
    let mut i: usize = 0;
    while i < blocks.len()
        invariant
            i <= blocks@.len(),
            forall|k: int| 0 <= k < i ==> blocks@[k] != id,
        decreases blocks.len() - i,
    {
        if blocks[i] == id {
            assert(blocks@[i as int] == id);
            return Ok(());
        }
        i = i + 1;
    }
    let n = decimal_string(id as u64);
    Err(concat3("Block ", n.as_str(), " not found"))
}

fn one_op(op: IrOp) -> (v: Vec<IrOp>)
    ensures
        v@ == seq![op],
{
    let mut v: Vec<IrOp> = Vec::new();
    v.push(op);
    assert(v@ =~= seq![op]);
    v
}

/// Plans a control-flow instruction as `control_spec` says, for a
/// function whose blocks are numbered `blocks`: `Ok(None)` for any other
/// instruction, `Value <id> not found` or `Block <id> not found` for what
/// is missing.
pub fn plan_control_instruction(inst: &LirInst, st: &mut LowerState, blocks: &Vec<u32>) -> (r: Result<Option<Vec<IrOp>>, String>)
    requires
        old(st).next_ir + 1 <= u64::MAX,
    ensures
        outcome_matches(control_spec(*inst, old(st).view(), blocks@), r, old(st).view(), final(st).view()),
{
    match inst {
        LirInst::Jump(t) => {
            find_block(blocks, *t)?;
            Ok(Some(one_op(IrOp::Jump { block: *t })))
        },
        LirInst::JumpIf(c, a, b) => {
            let cv = lookup(st, *c)?;
            find_block(blocks, *a)?;
            find_block(blocks, *b)?;
            Ok(Some(one_op(IrOp::Brif { cond: cv, then_block: *a, else_block: *b })))
        },
        LirInst::Return(Some(v)) => {
            let x = lookup(st, *v)?;
            Ok(Some(one_op(IrOp::Return { value: Some(x) })))
        },
        LirInst::Return(None) => Ok(Some(one_op(IrOp::Return { value: None }))),
        LirInst::Phi(d, sources) => {
            if sources.len() > 0 {
                match st.values.get(&sources[0].1) {
                    Some(v) => {
                        let x = *v;
                        st.values.insert(*d, x);
                        assert(st.view() =~= (LowerView { values: old(st).view().values.insert(*d, x), ..old(st).view() }));
                        return Ok(Some(Vec::new()));
                    },
                    None => {},
                }
            }
            let n = st.next_ir;
            st.values.insert(*d, n);
            st.next_ir = n + 1;
            assert(st.view() =~= (LowerView { values: old(st).view().values.insert(*d, n), next: (n + 1) as u64, ..old(st).view() }));
            Ok(Some(one_op(IrOp::Iconst { dst: n, ty: ClifType::I64, imm: 0 })))
        },
        _ => Ok(None),
    }
}

/// The position of the first occurrence of `s` in `ks`.
pub open spec fn first_index(ks: Seq<Seq<char>>, s: Seq<char>) -> Option<int>
    decreases ks.len(),
{
    if ks.len() == 0 {
        None
    } else {
        match first_index(ks.drop_last(), s) {
            Some(i) => Some(i),
            None => if ks.last() == s {
                Some(ks.len() - 1)
            } else {
                None
            },
        }
    }
}

proof fn lemma_first_index_extends(ks: Seq<Seq<char>>, s: Seq<char>, k: int, j: int)
    requires
        0 <= k <= j <= ks.len(),
        first_index(ks.subrange(0, k), s) is Some,
    ensures
        first_index(ks.subrange(0, j), s) == first_index(ks.subrange(0, k), s),
    decreases j - k,
{
    if j > k {
        lemma_first_index_extends(ks, s, k, j - 1);
        assert(ks.subrange(0, j).drop_last() =~= ks.subrange(0, j - 1));
    }
}

/// The position of the first occurrence of a text in a list.
pub fn find_first(ks: &Vec<String>, s: &str) -> (r: Option<u64>)
    ensures
        match first_index(strings_view(ks@), s@) {
            Some(i) => r == Some(i as u64),
            None => r is None,
        },
{
    let ghost v = strings_view(ks@);
    let mut i: usize = 0;
    while i < ks.len()
        invariant
            i <= ks@.len(),
            v == strings_view(ks@),
            first_index(v.subrange(0, i as int), s@) is None,
        decreases ks.len() - i,
    {
        let ghost sub = v.subrange(0, i + 1);
        assert(sub.drop_last() =~= v.subrange(0, i as int));
        if str_eq(ks[i].as_str(), s) {
            proof {
                assert(sub.last() == s@);
                lemma_first_index_extends(v, s@, i + 1, v.len() as int);
                assert(v.subrange(0, v.len() as int) =~= v);
            }
            return Some(i as u64);
        }
        i = i + 1;
    }
    assert(v.subrange(0, i as int) =~= v);
    None
}

/// The value of a big integer when it fits a `u64` (non-negative, or
/// zero), else a negative one that fits an `i64`; with its type.
pub open spec fn big_int_const(negative: bool, limbs: Seq<u64>) -> (i64, TypeView) {
    let fits = forall|i: int| 1 <= i < limbs.len() ==> limbs[i] == 0;
    let low: u64 = if limbs.len() == 0 { 0 } else { limbs[0] };
    if fits && (!negative || low == 0) {
        (low as i64, TypeView::U64)
    } else if fits && negative && low <= 0x8000_0000_0000_0000u64 {
        ((0 - low) as i64, TypeView::I64)
    } else {
        (0, TypeView::I64)
    }
}

/// What lowering the other constants gives, with the strings the string
/// table holds (`keys`) and the declared functions (`funcs`), in order:
/// 128-bit integers keep their low 64 bits; floats are loaded from their
/// bits; a string is the address of its data object, or of a new
/// anonymous one, and is remembered; a function value is a 64-bit zero
/// that remembers the declared function it names; a big integer is
/// `big_int_const`.
pub open spec fn const_more_spec(inst: LirInst, st: LowerView, keys: Seq<Seq<char>>, funcs: Seq<Seq<char>>) -> Lowered {
    let n = st.next as int;
    match inst {
        LirInst::ConstI128(d, v) => lower_const(st, d, ClifType::I64, v as i64, TypeView::I128),
        LirInst::ConstU128(d, v) => lower_const(st, d, ClifType::I64, v as i64, TypeView::U128),
        LirInst::ConstF64(d, bits) => Lowered::Done(
            seq![IrOp::F64Const { dst: n as u64, bits }],
            bind(st, d, n as u64, TypeView::F64, n + 1),
        ),
        LirInst::ConstF32(d, bits) => Lowered::Done(
            seq![IrOp::F32Const { dst: n as u64, bits }],
            bind(st, d, n as u64, TypeView::F32, n + 1),
        ),
        LirInst::ConstString(d, s) => {
            let op = match first_index(keys, s@) {
                Some(i) => IrOp::StringData { dst: n as u64, entry: i as u64 },
                None => IrOp::AnonString { dst: n as u64, of: d },
            };
            Lowered::Done(seq![op], LowerView { strings: st.strings.insert(d, s@), ..bind(st, d, n as u64, TypeView::Str, n + 1) })
        },
        LirInst::ConstFunc(d, name, _, _) => {
            let funcs2 = match first_index(funcs, name@) {
                Some(i) => st.funcs.insert(d, i as u64),
                None => st.funcs,
            };
            Lowered::Done(
                seq![IrOp::Iconst { dst: n as u64, ty: ClifType::I64, imm: 0 }],
                LowerView { values: st.values.insert(d, n as u64), funcs: funcs2, next: (n + 1) as u64, ..st },
            )
        },
        LirInst::ConstBigInt(d, negative, limbs) => {
            let (v, t) = big_int_const(negative, limbs@);
            Lowered::Done(seq![IrOp::Iconst { dst: n as u64, ty: ClifType::I64, imm: v }], bind(st, d, n as u64, t, n + 1))
        },
        _ => Lowered::NotHandled,
    }
}

fn big_int_exec(negative: bool, limbs: &Vec<u64>) -> (r: (i64, AotValueType))
    ensures
        (r.0, r.1@) == big_int_const(negative, limbs@),
{
    let mut fits = true;
    let mut i: usize = 1;
    while i < limbs.len()
        invariant
            1 <= i,
            i <= limbs@.len() || limbs@.len() == 0,
            fits == (forall|j: int| 1 <= j < i && j < limbs@.len() ==> limbs@[j] == 0),
        decreases limbs.len() - i,
    {
        if limbs[i] != 0 {
            fits = false;
        }
        i = i + 1;
    }
    assert(fits == (forall|j: int| 1 <= j < limbs@.len() ==> limbs@[j] == 0));
    let low: u64 = if limbs.len() == 0 { 0 } else { limbs[0] };
    if fits && (!negative || low == 0) {
        (low as i64, AotValueType::U64)
    } else if fits && negative && low <= 0x8000_0000_0000_0000u64 {
        ((0i128 - low as i128) as i64, AotValueType::I64)
    } else {
        (0, AotValueType::I64)
    }
}

/// Plans the other constants as `const_more_spec` says: `keys` are the
/// strings the string table holds and `funcs` the declared functions, in
/// order.
#[verifier::rlimit(50)]
pub fn plan_constant(inst: &LirInst, st: &mut LowerState, keys: &Vec<String>, funcs: &Vec<String>) -> (r: Result<Option<Vec<IrOp>>, String>)
    requires
        old(st).next_ir + 1 <= u64::MAX,
    ensures
        outcome_matches(
            const_more_spec(*inst, old(st).view(), strings_view(keys@), strings_view(funcs@)),
            r,
            old(st).view(),
            final(st).view(),
        ),
{
    let n = st.next_ir;
    match inst {
        LirInst::ConstI128(d, v) => Ok(Some(lower_const_exec(st, *d, ClifType::I64, *v as i64, AotValueType::I128))),
        LirInst::ConstU128(d, v) => Ok(Some(lower_const_exec(st, *d, ClifType::I64, *v as i64, AotValueType::U128))),
        LirInst::ConstF64(d, bits) => {
            bind_result(st, *d, n, AotValueType::F64, n + 1);
            Ok(Some(one_op(IrOp::F64Const { dst: n, bits: *bits })))
        },
        LirInst::ConstF32(d, bits) => {
            bind_result(st, *d, n, AotValueType::F32, n + 1);
            Ok(Some(one_op(IrOp::F32Const { dst: n, bits: *bits })))
        },
        LirInst::ConstString(d, s) => {
            let op = match find_first(keys, s.as_str()) {
                Some(i) => IrOp::StringData { dst: n, entry: i },
                None => IrOp::AnonString { dst: n, of: *d },
            };
            bind_result(st, *d, n, AotValueType::String, n + 1);
            let ghost before = st.view();
            st.const_strings.insert(*d, owned(s.as_str()));
            assert(st.view() =~= (LowerView { strings: before.strings.insert(*d, s@), ..before }));
            Ok(Some(one_op(op)))
        },
        LirInst::ConstFunc(d, name, _, _) => {
            match find_first(funcs, name.as_str()) {
                Some(i) => {
                    st.func_values.insert(*d, i);
                },
                None => {},
            }
            st.values.insert(*d, n);
            st.next_ir = n + 1;
            proof {
                let o = old(st).view();
                let f2 = match first_index(strings_view(funcs@), name@) {
                    Some(i) => o.funcs.insert(*d, i as u64),
                    None => o.funcs,
                };
                assert(st.view() =~= (LowerView { values: o.values.insert(*d, n), funcs: f2, next: (n + 1) as u64, ..o }));
            }
            Ok(Some(one_op(IrOp::Iconst { dst: n, ty: ClifType::I64, imm: 0 })))
        },
        LirInst::ConstBigInt(d, negative, limbs) => {
            let (v, t) = big_int_exec(*negative, limbs);
            bind_result(st, *d, n, t, n + 1);
            Ok(Some(one_op(IrOp::Iconst { dst: n, ty: ClifType::I64, imm: v })))
        },
        _ => Ok(None),
    }
}

/// The runtime type a parameter of a LIR type gets (`Void` as `Int`).
pub open spec fn param_view(t: LirType) -> TypeView {
    match t {
        LirType::I8 => TypeView::I8,
        LirType::I16 => TypeView::I16,
        LirType::I32 => TypeView::I32,
        LirType::I64 => TypeView::I64,
        LirType::I128 => TypeView::I128,
        LirType::U8 => TypeView::U8,
        LirType::U16 => TypeView::U16,
        LirType::U32 => TypeView::U32,
        LirType::U64 => TypeView::U64,
        LirType::U128 => TypeView::U128,
        LirType::Bool => TypeView::Bool,
        LirType::F32 => TypeView::F32,
        LirType::F64 => TypeView::F64,
        LirType::Ptr => TypeView::Ptr,
        LirType::Void => TypeView::Int,
    }
}

/// The runtime type of a parameter (see `param_view`).
pub fn param_type(t: LirType) -> (r: AotValueType)
    ensures
        r@ == param_view(t),
{
    match t {
        LirType::I8 => AotValueType::I8,
        LirType::I16 => AotValueType::I16,
        LirType::I32 => AotValueType::I32,
        LirType::I64 => AotValueType::I64,
        LirType::I128 => AotValueType::I128,
        LirType::U8 => AotValueType::U8,
        LirType::U16 => AotValueType::U16,
        LirType::U32 => AotValueType::U32,
        LirType::U64 => AotValueType::U64,
        LirType::U128 => AotValueType::U128,
        LirType::Bool => AotValueType::Bool,
        LirType::F32 => AotValueType::F32,
        LirType::F64 => AotValueType::F64,
        LirType::Ptr => AotValueType::Ptr,
        LirType::Void => AotValueType::Int,
    }
}

/// What the entry of a function does, its entry block's parameters
/// numbered from 0. In `main` (parameters `argc`, `argv`) they are stored
/// in the runtime's argument globals that exist, then passed to the
/// runtime's argument initialiser unless in library mode; no LIR value
/// is bound. Elsewhere LIR value `i` is parameter `i`, typed by its LIR
/// type.
pub open spec fn entry_spec(f: LirFunction, library_mode: bool, has_argc: bool, has_argv: bool) -> (Seq<IrOp>, LowerView) {
    if f.name@ == "main"@ {
        let ops = (if has_argc { seq![IrOp::StoreArg { global: ArgGlobal::Argc, value: 0 }] } else { Seq::empty() })
            + (if has_argv { seq![IrOp::StoreArg { global: ArgGlobal::Argv, value: 1 }] } else { Seq::empty() })
            + (if !library_mode { seq![IrOp::CallInitArgs { argc: 0, argv: 1 }] } else { Seq::empty() });
        (ops, LowerView {
            values: Map::empty(),
            types: Map::empty(),
            ints: Map::empty(),
            bools: Map::empty(),
            strings: Map::empty(),
            funcs: Map::empty(),
            handles: Set::empty(),
            next: 2,
        })
    } else {
        let n = f.params@.len();
        (Seq::empty(), LowerView {
            values: Map::new(|k: u32| k < n, |k: u32| k as u64),
            types: Map::new(|k: u32| k < n, |k: u32| param_view(f.params@[k as int].1)),
            ints: Map::empty(),
            bools: Map::empty(),
            strings: Map::empty(),
            funcs: Map::empty(),
            handles: Set::empty(),
            next: n as u64,
        })
    }
}

/// Plans a function's entry (see `entry_spec`): its operations and the
/// lowering state its blocks start from.
pub fn plan_entry(f: &LirFunction, library_mode: bool, has_argc: bool, has_argv: bool) -> (r: (Vec<IrOp>, LowerState))
    requires
        f.params@.len() < u32::MAX,
    ensures
        r.0@ == entry_spec(*f, library_mode, has_argc, has_argv).0,
        r.1.view() == entry_spec(*f, library_mode, has_argc, has_argv).1,
{
    proof {
        reveal_strlit("main");
    }
    if str_eq(f.name.as_str(), "main") {
        let mut ops: Vec<IrOp> = Vec::new();
        if has_argc {
            ops.push(IrOp::StoreArg { global: ArgGlobal::Argc, value: 0 });
        }
        let ghost o1 = ops@;
        if has_argv {
            ops.push(IrOp::StoreArg { global: ArgGlobal::Argv, value: 1 });
        }
        let ghost o2 = ops@;
        if !library_mode {
            ops.push(IrOp::CallInitArgs { argc: 0, argv: 1 });
        }
        let st = LowerState::new(2);
        proof {
            let e = entry_spec(*f, library_mode, has_argc, has_argv);
            assert(o1 =~= (if has_argc { seq![IrOp::StoreArg { global: ArgGlobal::Argc, value: 0 }] } else { Seq::empty() }));
            assert(o2 =~= o1 + (if has_argv { seq![IrOp::StoreArg { global: ArgGlobal::Argv, value: 1 }] } else { Seq::empty() }));
            assert(ops@ =~= e.0);
            assert(st.view() =~= e.1);
        }
        (ops, st)
    } else {
        let mut st = LowerState::new(0);
        let n = f.params.len();
        let mut i: usize = 0;
        while i < n
            invariant
                n == f.params@.len(),
                n < u32::MAX,
                i <= n,
                st.view().values == Map::new(|k: u32| k < i, |k: u32| k as u64),
                st.view().types == Map::new(|k: u32| k < i, |k: u32| param_view(f.params@[k as int].1)),
                st.view().ints == Map::<u32, i64>::empty(),
                st.view().bools == Map::<u32, bool>::empty(),
                st.view().strings == Map::<u32, Seq<char>>::empty(),
                st.view().funcs == Map::<u32, u64>::empty(),
                st.view().handles == Set::<u32>::empty(),
                st.next_ir == 0,
            decreases n - i,
        {
            let t = param_type(f.params[i].1);
            let ghost before = st.view();
            st.values.insert(i as u32, i as u64);
            let ghost tv = t@;
            assert(tv == param_view(f.params@[i as int].1));
            st.types.insert(i as u32, t);
            assert(st.view().types =~= before.types.insert(i as u32, tv));
            assert(st.view().values =~= Map::new(|k: u32| k < i + 1, |k: u32| k as u64));
            assert(st.view().types =~= Map::new(|k: u32| k < i + 1, |k: u32| param_view(f.params@[k as int].1)));
            i = i + 1;
        }
        st.next_ir = n as u64;
        assert(st.view() =~= entry_spec(*f, library_mode, has_argc, has_argv).1);
        (Vec::new(), st)
    }
}

/// How a returned value is brought to the function's result lane.
#[derive(Debug, Clone, Copy, PartialEq, Eq, Structural)]
pub enum ReturnConv {
    Keep,
    ZeroExtendToI64,
    ReduceToI8,
    SignedIntToF64,
    DemoteToF32,
    FloatToUnsignedI64,
}

pub open spec fn is_int_lane(t: ClifType) -> bool {
    t != ClifType::F32 && t != ClifType::F64
}

pub open spec fn lane_bits(t: ClifType) -> nat {
    match t {
        ClifType::I8 => 8,
        ClifType::I16 => 16,
        ClifType::I32 | ClifType::F32 => 32,
        ClifType::I64 | ClifType::F64 => 64,
        ClifType::I128 => 128,
    }
}

/// The conversion of a returned value of lane `actual` to the result
/// lane `expected`: none when they agree; a narrower integer is
/// zero-extended to `I64`; a wider integer reduced to `I8`; an integer
/// converted to `F64`; an `F64` demoted to `F32`; a float converted to an
/// unsigned `I64`; any other pair is left as it is.
pub open spec fn return_conv_for(expected: ClifType, actual: ClifType) -> ReturnConv {
    if actual == expected {
        ReturnConv::Keep
    } else if expected == ClifType::I64 && is_int_lane(actual) && lane_bits(actual) < 64 {
        ReturnConv::ZeroExtendToI64
    } else if expected == ClifType::I8 && is_int_lane(actual) && lane_bits(actual) > 8 {
        ReturnConv::ReduceToI8
    } else if expected == ClifType::F64 && is_int_lane(actual) {
        ReturnConv::SignedIntToF64
    } else if expected == ClifType::F32 && actual == ClifType::F64 {
        ReturnConv::DemoteToF32
    } else if expected == ClifType::I64 && !is_int_lane(actual) {
        ReturnConv::FloatToUnsignedI64
    } else {
        ReturnConv::Keep
    }
}

/// See `return_conv_for`.
pub fn return_conversion(expected: ClifType, actual: ClifType) -> (c: ReturnConv)
    ensures
        c == return_conv_for(expected, actual),
{
    let actual_int = !(actual == ClifType::F32 || actual == ClifType::F64);
    let bits: u32 = match actual {
        ClifType::I8 => 8,
        ClifType::I16 => 16,
        ClifType::I32 | ClifType::F32 => 32,
        ClifType::I64 | ClifType::F64 => 64,
        ClifType::I128 => 128,
    };
    if actual == expected {
        ReturnConv::Keep
    } else if expected == ClifType::I64 && actual_int && bits < 64 {
        ReturnConv::ZeroExtendToI64
    } else if expected == ClifType::I8 && actual_int && bits > 8 {
        ReturnConv::ReduceToI8
    } else if expected == ClifType::F64 && actual_int {
        ReturnConv::SignedIntToF64
    } else if expected == ClifType::F32 && actual == ClifType::F64 {
        ReturnConv::DemoteToF32
    } else if expected == ClifType::I64 && !actual_int {
        ReturnConv::FloatToUnsignedI64
    } else {
        ReturnConv::Keep
    }
}

/// The lane of the zero returned when a return gives no value: the
/// result lane when it is `I8`, `F32` or `F64`, else `I64`.
pub fn return_zero_lane(expected: ClifType) -> (t: ClifType)
    ensures
        t == (if expected == ClifType::I8 || expected == ClifType::F32 || expected == ClifType::F64 {
            expected
        } else {
            ClifType::I64
        }),
{
    match expected {
        ClifType::I8 | ClifType::F32 | ClifType::F64 => expected,
        _ => ClifType::I64,
    }
}

/// Whether a builtin's name is `b`, with or without the `std:` prefix.
pub open spec fn builtin_is(name: Seq<char>, b: Seq<char>) -> bool {
    name == b || name == "std:"@ + b
}

fn is_builtin(name: &str, b: &str) -> (r: bool)
    ensures
        r == builtin_is(name@, b@),
{
    if str_eq(name, b) {
        return true;
    }
    let full = concat("std:", b);
    str_eq(name, full.as_str())
}

/// An operand's IR value, or a new 64-bit zero when it has none: the
/// operations, the value and the next IR number.
pub open spec fn operand_or_zero(st: LowerView, a: u32, n: int) -> (Seq<IrOp>, u64, int) {
    if st.values.dom().contains(a) {
        (Seq::empty(), st.values[a], n)
    } else {
        (seq![IrOp::Iconst { dst: n as u64, ty: ClifType::I64, imm: 0 }], n as u64, n + 1)
    }
}

/// An operand's type, `Int` when it has none.
pub open spec fn type_or_int(st: LowerView, a: u32) -> TypeView {
    if st.types.dom().contains(a) {
        st.types[a]
    } else {
        TypeView::Int
    }
}

/// `dst` bound to `v` with type `t` after `ops`, next IR number `n`.
pub open spec fn done_bound(st: LowerView, ops: Seq<IrOp>, d: u32, v: u64, t: TypeView, n: int) -> Lowered {
    Lowered::Done(ops, bind(st, d, v, t, n))
}

/// `dst` bound to a new 64-bit zero, without a type.
pub open spec fn zero_untyped(st: LowerView, d: u32) -> Lowered {
    let n = st.next as int;
    Lowered::Done(
        seq![IrOp::Iconst { dst: n as u64, ty: ClifType::I64, imm: 0 }],
        LowerView { values: st.values.insert(d, n as u64), next: (n + 1) as u64, ..st },
    )
}

/// Lowering the `arith` builtin group (see `builtin_spec`).
pub open spec fn builtin_arith_spec(name: Seq<char>, d: u32, args: Seq<u32>, st: LowerView, has_argc: bool) -> Lowered {
    let n = st.next as int;
    if args.len() >= 2 {
        let x = operand_or_zero(st, args[0], n);
        let y = operand_or_zero(st, args[1], x.2);
        let op = if builtin_is(name, "sub"@) {
            BinOp::Isub
        } else if builtin_is(name, "mul"@) {
            BinOp::Imul
        } else if builtin_is(name, "div"@) {
            BinOp::Sdiv
        } else {
            BinOp::Srem
        };
        done_bound(st, x.0 + y.0 + seq![IrOp::Binary { dst: y.2 as u64, op, a: x.1, b: y.1 }], d, y.2 as u64, TypeView::Int, y.2 + 1)
    } else {
        zero_untyped(st, d)
    }
}

/// Lowering the `abs` builtin group (see `builtin_spec`).
pub open spec fn builtin_abs_spec(name: Seq<char>, d: u32, args: Seq<u32>, st: LowerView, has_argc: bool) -> Lowered {
    let n = st.next as int;
    if args.len() >= 1 {
        let x = operand_or_zero(st, args[0], n);
        let t = type_or_int(st, args[0]);
        let m = x.2;
        if t == TypeView::Float {
            done_bound(st, x.0 + seq![IrOp::Unary { dst: m as u64, op: UnOp::Fabs, a: x.1 }], d, m as u64, t, m + 1)
        } else if t == TypeView::Int {
            done_bound(
                st,
                x.0 + seq![
                    IrOp::Iconst { dst: m as u64, ty: ClifType::I64, imm: 63 },
                    IrOp::Binary { dst: (m + 1) as u64, op: BinOp::Sshr, a: x.1, b: m as u64 },
                    IrOp::Binary { dst: (m + 2) as u64, op: BinOp::Bxor, a: x.1, b: (m + 1) as u64 },
                    IrOp::Binary { dst: (m + 3) as u64, op: BinOp::Isub, a: (m + 2) as u64, b: (m + 1) as u64 },
                ],
                d,
                (m + 3) as u64,
                t,
                m + 4,
            )
        } else {
            done_bound(st, x.0, d, x.1, t, m)
        }
    } else {
        zero_untyped(st, d)
    }
}

/// Lowering the `minmax` builtin group (see `builtin_spec`).
pub open spec fn builtin_minmax_spec(name: Seq<char>, d: u32, args: Seq<u32>, st: LowerView, has_argc: bool) -> Lowered {
    let n = st.next as int;
    if args.len() >= 2 {
        let x = operand_or_zero(st, args[0], n);
        let y = operand_or_zero(st, args[1], x.2);
        let t = type_or_int(st, args[0]);
        let m = y.2;
        let is_min = builtin_is(name, "min"@);
        if t == TypeView::Float {
            let op = if is_min { BinOp::Fmin } else { BinOp::Fmax };
            done_bound(st, x.0 + y.0 + seq![IrOp::Binary { dst: m as u64, op, a: x.1, b: y.1 }], d, m as u64, t, m + 1)
        } else {
            let cond = if is_min { IntCond::SignedLessThan } else { IntCond::SignedGreaterThan };
            done_bound(
                st,
                x.0 + y.0 + seq![
                    IrOp::IntCompare { dst: m as u64, cond, a: x.1, b: y.1 },
                    IrOp::Select { dst: (m + 1) as u64, cond: m as u64, a: x.1, b: y.1 },
                ],
                d,
                (m + 1) as u64,
                t,
                m + 2,
            )
        }
    } else {
        zero_untyped(st, d)
    }
}

/// Lowering the `str` builtin group (see `builtin_spec`).
pub open spec fn builtin_str_spec(name: Seq<char>, d: u32, args: Seq<u32>, st: LowerView, has_argc: bool) -> Lowered {
    let n = st.next as int;
    if args.len() >= 1 {
        let x = operand_or_zero(st, args[0], n);
        done_bound(st, x.0, d, x.1, TypeView::Str, x.2)
    } else {
        zero_untyped(st, d)
    }
}

/// Lowering the `int` builtin group (see `builtin_spec`).
pub open spec fn builtin_int_spec(name: Seq<char>, d: u32, args: Seq<u32>, st: LowerView, has_argc: bool) -> Lowered {
    let n = st.next as int;
    if args.len() >= 1 {
        let x = operand_or_zero(st, args[0], n);
        let t = type_or_int(st, args[0]);
        let m = x.2;
        if t == TypeView::Float {
            done_bound(st, x.0 + seq![IrOp::Convert { dst: m as u64, op: ConvOp::FloatToSint64, a: x.1 }], d, m as u64, TypeView::Int, m + 1)
        } else if t == TypeView::Bool {
            done_bound(st, x.0 + seq![IrOp::Convert { dst: m as u64, op: ConvOp::Uextend64, a: x.1 }], d, m as u64, TypeView::Int, m + 1)
        } else {
            done_bound(st, x.0, d, x.1, TypeView::Int, m)
        }
    } else {
        done_bound(st, seq![IrOp::Iconst { dst: n as u64, ty: ClifType::I64, imm: 0 }], d, n as u64, TypeView::Int, n + 1)
    }
}

/// Lowering the `float` builtin group (see `builtin_spec`).
pub open spec fn builtin_float_spec(name: Seq<char>, d: u32, args: Seq<u32>, st: LowerView, has_argc: bool) -> Lowered {
    let n = st.next as int;
    if args.len() >= 1 {
        let x = operand_or_zero(st, args[0], n);
        let t = type_or_int(st, args[0]);
        let m = x.2;
        if t == TypeView::Float {
            done_bound(st, x.0, d, x.1, TypeView::Float, m)
        } else if t == TypeView::Int {
            done_bound(st, x.0 + seq![IrOp::Convert { dst: m as u64, op: ConvOp::SintToF64, a: x.1 }], d, m as u64, TypeView::Float, m + 1)
        } else if t == TypeView::Bool {
            done_bound(
                st,
                x.0 + seq![
                    IrOp::Convert { dst: m as u64, op: ConvOp::Uextend64, a: x.1 },
                    IrOp::Convert { dst: (m + 1) as u64, op: ConvOp::SintToF64, a: m as u64 },
                ],
                d,
                (m + 1) as u64,
                TypeView::Float,
                m + 2,
            )
        } else {
            done_bound(st, x.0 + seq![IrOp::F64Const { dst: m as u64, bits: 0 }], d, m as u64, TypeView::Float, m + 1)
        }
    } else {
        done_bound(st, seq![IrOp::F64Const { dst: n as u64, bits: 0 }], d, n as u64, TypeView::Float, n + 1)
    }
}

/// Lowering the `bool` builtin group (see `builtin_spec`).
pub open spec fn builtin_bool_spec(name: Seq<char>, d: u32, args: Seq<u32>, st: LowerView, has_argc: bool) -> Lowered {
    let n = st.next as int;
    if args.len() >= 1 {
        let x = operand_or_zero(st, args[0], n);
        let t = type_or_int(st, args[0]);
        let m = x.2;
        if t == TypeView::Bool {
            done_bound(st, x.0, d, x.1, TypeView::Bool, m)
        } else if t == TypeView::Int || t == TypeView::Float {
            let zero = if t == TypeView::Int {
                IrOp::Iconst { dst: m as u64, ty: ClifType::I64, imm: 0 }
            } else {
                IrOp::F64Const { dst: m as u64, bits: 0 }
            };
            let test = if t == TypeView::Int {
                IrOp::IntCompare { dst: (m + 3) as u64, cond: IntCond::NotEqual, a: x.1, b: m as u64 }
            } else {
                IrOp::FloatCompare { dst: (m + 3) as u64, cond: FloatCond::NotEqual, a: x.1, b: m as u64 }
            };
            done_bound(
                st,
                x.0 + seq![
                    zero,
                    IrOp::Iconst { dst: (m + 1) as u64, ty: ClifType::I8, imm: 1 },
                    IrOp::Iconst { dst: (m + 2) as u64, ty: ClifType::I8, imm: 0 },
                    test,
                    IrOp::Select { dst: (m + 4) as u64, cond: (m + 3) as u64, a: (m + 1) as u64, b: (m + 2) as u64 },
                ],
                d,
                (m + 4) as u64,
                TypeView::Bool,
                m + 5,
            )
        } else {
            done_bound(st, x.0 + seq![IrOp::Iconst { dst: m as u64, ty: ClifType::I8, imm: 0 }], d, m as u64, TypeView::Bool, m + 1)
        }
    } else {
        done_bound(st, seq![IrOp::Iconst { dst: n as u64, ty: ClifType::I8, imm: 0 }], d, n as u64, TypeView::Bool, n + 1)
    }
}

/// Lowering the `argc` builtin group (see `builtin_spec`).
pub open spec fn builtin_argc_spec(name: Seq<char>, d: u32, args: Seq<u32>, st: LowerView, has_argc: bool) -> Lowered {
    let n = st.next as int;
    if has_argc {
        done_bound(
            st,
            seq![
                IrOp::GlobalAddr { dst: n as u64, global: ArgGlobal::Argc },
                IrOp::Load { dst: (n + 1) as u64, ty: ClifType::I32, addr: n as u64, offset: 0 },
                IrOp::Convert { dst: (n + 2) as u64, op: ConvOp::Sextend64, a: (n + 1) as u64 },
            ],
            d,
            (n + 2) as u64,
            TypeView::Int,
            n + 3,
        )
    } else {
        done_bound(st, seq![IrOp::Iconst { dst: n as u64, ty: ClifType::I64, imm: 0 }], d, n as u64, TypeView::Int, n + 1)
    }
}

/// Lowering the `argv` builtin group (see `builtin_spec`).
pub open spec fn builtin_argv_spec(name: Seq<char>, d: u32, args: Seq<u32>, st: LowerView, has_argc: bool) -> Lowered {
    let n = st.next as int;
    done_bound(
        st,
        seq![IrOp::Call { dst: n as u64, callee: RuntimeFn::GetArgv, argc: 0, a0: 0, a1: 0, a2: 0 }],
        d,
        n as u64,
        TypeView::Str,
        n + 1,
    )
}

/// Lowering the `pass` builtin group (see `builtin_spec`).
pub open spec fn builtin_pass_spec(name: Seq<char>, d: u32, args: Seq<u32>, st: LowerView, has_argc: bool) -> Lowered {
    let n = st.next as int;
    if args.len() >= 1 {
        let x = operand_or_zero(st, args[0], n);
        done_bound(st, x.0, d, x.1, type_or_int(st, args[0]), x.2)
    } else {
        done_bound(st, seq![IrOp::Iconst { dst: n as u64, ty: ClifType::I64, imm: 0 }], d, n as u64, TypeView::Int, n + 1)
    }
}

/// Lowering the `len` builtin group (see `builtin_spec`).
pub open spec fn builtin_len_spec(name: Seq<char>, d: u32, args: Seq<u32>, st: LowerView, has_argc: bool) -> Lowered {
    let n = st.next as int;
    let zero = done_bound(st, seq![IrOp::Iconst { dst: n as u64, ty: ClifType::I64, imm: 0 }], d, n as u64, TypeView::Int, n + 1);
    if args.len() >= 1 && st.types.dom().contains(args[0]) {
        match st.types[args[0]] {
            TypeView::Array(_, _) => if st.values.dom().contains(args[0]) {
                done_bound(
                    st,
                    seq![IrOp::Load { dst: n as u64, ty: ClifType::I64, addr: st.values[args[0]], offset: 0 }],
                    d,
                    n as u64,
                    TypeView::Int,
                    n + 1,
                )
            } else {
                zero
            },
            TypeView::Tuple(es) => done_bound(
                st,
                seq![IrOp::Iconst { dst: n as u64, ty: ClifType::I64, imm: es.len() as i64 }],
                d,
                n as u64,
                TypeView::Int,
                n + 1,
            ),
            _ => zero,
        }
    } else {
        zero
    }
}

/// Lowering the `metadata` builtin group (see `builtin_spec`).
pub open spec fn builtin_metadata_spec(name: Seq<char>, d: u32, args: Seq<u32>, st: LowerView, has_argc: bool) -> Lowered {
    let n = st.next as int;
    let size: i64 = if args.len() >= 1 && st.types.dom().contains(args[0]) && st.types[args[0]] is Array {
        if is_narrow(*st.types[args[0]]->Array_0) { 16 } else { 24 }
    } else {
        0
    };
    done_bound(st, seq![IrOp::Iconst { dst: n as u64, ty: ClifType::I64, imm: size }], d, n as u64, TypeView::Int, n + 1)
}

/// What lowering a call of a builtin gives, for the builtins planned
/// here: `sub`, `mul`, `div`, `mod`, `abs`, `min`, `max`, `str`, `int`,
/// `float`, `bool`, `argc` and `argsCount` (reading the argument-count
/// global when it exists), `argv`, `array_to_raw`, `array_to_dynamic`,
/// `len`, `metadata_size`, `f64`, `f32`, `char` (see `builtin_cast_spec`),
/// the fixed-width integer conversions (see `builtin_int_cast_spec`) and
/// the builtins the runtime answers (see `builtin_query_spec`). A missing operand reads as a 64-bit zero.
pub open spec fn builtin_spec(name: Seq<char>, d: u32, args: Seq<u32>, st: LowerView, has_argc: bool) -> Lowered {
    if builtin_is(name, "sub"@) || builtin_is(name, "mul"@) || builtin_is(name, "div"@) || builtin_is(name, "mod"@) {
        builtin_arith_spec(name, d, args, st, has_argc)
    } else if builtin_is(name, "abs"@) {
        builtin_abs_spec(name, d, args, st, has_argc)
    } else if builtin_is(name, "min"@) || builtin_is(name, "max"@) {
        builtin_minmax_spec(name, d, args, st, has_argc)
    } else if builtin_is(name, "str"@) {
        builtin_str_spec(name, d, args, st, has_argc)
    } else if builtin_is(name, "int"@) {
        builtin_int_spec(name, d, args, st, has_argc)
    } else if builtin_is(name, "float"@) {
        builtin_float_spec(name, d, args, st, has_argc)
    } else if builtin_is(name, "bool"@) {
        builtin_bool_spec(name, d, args, st, has_argc)
    } else if builtin_is(name, "argc"@) || builtin_is(name, "argsCount"@) {
        builtin_argc_spec(name, d, args, st, has_argc)
    } else if builtin_is(name, "argv"@) {
        builtin_argv_spec(name, d, args, st, has_argc)
    } else if builtin_is(name, "array_to_raw"@) || builtin_is(name, "array_to_dynamic"@) {
        builtin_pass_spec(name, d, args, st, has_argc)
    } else if builtin_is(name, "len"@) {
        builtin_len_spec(name, d, args, st, has_argc)
    } else if builtin_is(name, "metadata_size"@) {
        builtin_metadata_spec(name, d, args, st, has_argc)
    } else if builtin_is(name, "f64"@) || builtin_is(name, "f32"@) || builtin_is(name, "char"@) {
        builtin_cast_spec(name, d, args, st)
    } else if int_cast_target(name) is Some {
        builtin_int_cast_spec(name, d, args, st)
    } else {
        builtin_query_spec(name, d, args, st)
    }
}

/// The fixed-width integer builtins (`u8` to `u128`, `i8` to `i128`):
/// the result's lane, its type and whether it is signed.
pub open spec fn int_cast_target(name: Seq<char>) -> Option<(ClifType, TypeView, bool)> {
    if builtin_is(name, "u8"@) {
        Some((ClifType::I8, TypeView::U8, false))
    } else if builtin_is(name, "u16"@) {
        Some((ClifType::I16, TypeView::U16, false))
    } else if builtin_is(name, "u32"@) {
        Some((ClifType::I32, TypeView::U32, false))
    } else if builtin_is(name, "u64"@) {
        Some((ClifType::I64, TypeView::U64, false))
    } else if builtin_is(name, "u128"@) {
        Some((ClifType::I128, TypeView::U128, false))
    } else if builtin_is(name, "i8"@) {
        Some((ClifType::I8, TypeView::I8, true))
    } else if builtin_is(name, "i16"@) {
        Some((ClifType::I16, TypeView::I16, true))
    } else if builtin_is(name, "i32"@) {
        Some((ClifType::I32, TypeView::I32, true))
    } else if builtin_is(name, "i64"@) {
        Some((ClifType::I64, TypeView::I64, true))
    } else if builtin_is(name, "i128"@) {
        Some((ClifType::I128, TypeView::I128, true))
    } else {
        None
    }
}

/// A 64-bit integer `x` brought to `lane`, numbering from `m`: reduced
/// to a narrower lane, extended (signed or not) to 128 bits, else kept.
pub open spec fn to_lane_ops(lane: ClifType, signed: bool, x: u64, m: int) -> (Seq<IrOp>, u64, int) {
    if lane == ClifType::I8 || lane == ClifType::I16 || lane == ClifType::I32 {
        (seq![IrOp::Convert { dst: m as u64, op: ConvOp::Reduce(lane), a: x }], m as u64, m + 1)
    } else if lane == ClifType::I128 {
        (seq![IrOp::Convert { dst: m as u64, op: ConvOp::Extend128 { signed }, a: x }], m as u64, m + 1)
    } else {
        (Seq::empty(), x, m)
    }
}

/// Lowering a fixed-width integer builtin (see `int_cast_target`): an
/// integer argument brought to the lane, a float converted to a 64-bit
/// integer (signed or not, as the result) first, anything else that
/// lane's zero; without an argument, that lane's zero.
pub open spec fn builtin_int_cast_spec(name: Seq<char>, d: u32, args: Seq<u32>, st: LowerView) -> Lowered {
    let n = st.next as int;
    match int_cast_target(name) {
        Some((lane, t, signed)) => if args.len() >= 1 {
            let x = operand_or_zero(st, args[0], n);
            let c = type_class(type_or_int(st, args[0]));
            if c == 2 || c == 3 || c == 4 {
                let y = to_lane_ops(lane, signed, x.1, x.2);
                done_bound(st, x.0 + y.0, d, y.1, t, y.2)
            } else if c == 0 || c == 1 {
                let conv = if signed { ConvOp::FloatToSint64 } else { ConvOp::FloatToUint64 };
                let y = to_lane_ops(lane, signed, x.2 as u64, x.2 + 1);
                done_bound(st, x.0 + seq![IrOp::Convert { dst: x.2 as u64, op: conv, a: x.1 }] + y.0, d, y.1, t, y.2)
            } else {
                done_bound(st, x.0 + seq![IrOp::Iconst { dst: x.2 as u64, ty: lane, imm: 0 }], d, x.2 as u64, t, x.2 + 1)
            }
        } else {
            done_bound(st, seq![IrOp::Iconst { dst: n as u64, ty: lane, imm: 0 }], d, n as u64, t, n + 1)
        },
        None => Lowered::NotHandled,
    }
}

fn int_cast_target_exec(name: &str) -> (r: Option<(ClifType, AotValueType, bool)>)
    ensures
        match int_cast_target(name@) {
            None => r is None,
            Some(q) => r matches Some(x) && x.0 == q.0 && x.1@ == q.1 && x.2 == q.2,
        },
{
    if is_builtin(name, "u8") {
        Some((ClifType::I8, AotValueType::U8, false))
    } else if is_builtin(name, "u16") {
        Some((ClifType::I16, AotValueType::U16, false))
    } else if is_builtin(name, "u32") {
        Some((ClifType::I32, AotValueType::U32, false))
    } else if is_builtin(name, "u64") {
        Some((ClifType::I64, AotValueType::U64, false))
    } else if is_builtin(name, "u128") {
        Some((ClifType::I128, AotValueType::U128, false))
    } else if is_builtin(name, "i8") {
        Some((ClifType::I8, AotValueType::I8, true))
    } else if is_builtin(name, "i16") {
        Some((ClifType::I16, AotValueType::I16, true))
    } else if is_builtin(name, "i32") {
        Some((ClifType::I32, AotValueType::I32, true))
    } else if is_builtin(name, "i64") {
        Some((ClifType::I64, AotValueType::I64, true))
    } else if is_builtin(name, "i128") {
        Some((ClifType::I128, AotValueType::I128, true))
    } else {
        None
    }
}

fn to_lane_exec(ops: &mut Vec<IrOp>, lane: ClifType, signed: bool, x: u64, m: u64) -> (r: (u64, u64))
    requires
        m + 1 <= u64::MAX,
    ensures
        final(ops)@ == old(ops)@ + to_lane_ops(lane, signed, x, m as int).0,
        r.0 == to_lane_ops(lane, signed, x, m as int).1,
        r.1 == to_lane_ops(lane, signed, x, m as int).2,
{
    let ghost start = ops@;
    match lane {
        ClifType::I8 | ClifType::I16 | ClifType::I32 => {
            ops.push(IrOp::Convert { dst: m, op: ConvOp::Reduce(lane), a: x });
            assert(ops@ =~= start + to_lane_ops(lane, signed, x, m as int).0);
            (m, m + 1)
        },
        ClifType::I128 => {
            ops.push(IrOp::Convert { dst: m, op: ConvOp::Extend128 { signed }, a: x });
            assert(ops@ =~= start + to_lane_ops(lane, signed, x, m as int).0);
            (m, m + 1)
        },
        _ => {
            assert(start + Seq::<IrOp>::empty() =~= start);
            (x, m)
        },
    }
}

#[verifier::rlimit(50)]
fn plan_builtin_int_cast(name: &str, d: u32, args: &Vec<u32>, st: &mut LowerState) -> (r: Result<Option<Vec<IrOp>>, String>)
    requires
        old(st).next_ir + 8 <= u64::MAX,
    ensures
        outcome_matches(builtin_int_cast_spec(name@, d, args@, old(st).view()), r, old(st).view(), final(st).view()),
{
    let n = st.next_ir;
    let mut ops: Vec<IrOp> = Vec::new();
    match int_cast_target_exec(name) {
        Some((lane, t, signed)) => {
            if args.len() >= 1 {
                let (v, m) = operand_exec(st, &mut ops, args[0], n);
                let c = type_class_exec(&type_or_int_exec(st, args[0]));
                if c == 2 || c == 3 || c == 4 {
                    let (w, k) = to_lane_exec(&mut ops, lane, signed, v, m);
                    finish(st, ops, d, w, t, k)
                } else if c == 0 || c == 1 {
                    let conv = if signed { ConvOp::FloatToSint64 } else { ConvOp::FloatToUint64 };
                    let ghost before = ops@;
                    ops.push(IrOp::Convert { dst: m, op: conv, a: v });
                    let ghost mid = ops@;
                    let (w, k) = to_lane_exec(&mut ops, lane, signed, m, m + 1);
                    assert(ops@ =~= before + seq![IrOp::Convert { dst: m, op: conv, a: v }] + to_lane_ops(lane, signed, m, m + 1).0);
                    finish(st, ops, d, w, t, k)
                } else {
                    ops.push(IrOp::Iconst { dst: m, ty: lane, imm: 0 });
                    finish(st, ops, d, m, t, m + 1)
                }
            } else {
                ops.push(IrOp::Iconst { dst: n, ty: lane, imm: 0 });
                finish(st, ops, d, n, t, n + 1)
            }
        },
        None => Ok(None),
    }
}

/// How a value's type reads in a conversion: 0 a 64-bit float (or
/// `Float`), 1 a 32-bit float, 2 `Int`, 3 a signed fixed-width integer,
/// 4 an unsigned one, 5 a boolean, 6 a string, 7 anything else.
pub open spec fn type_class(t: TypeView) -> u8 {
    match t {
        TypeView::F64 | TypeView::Float => 0,
        TypeView::F32 => 1,
        TypeView::Int => 2,
        TypeView::I8 | TypeView::I16 | TypeView::I32 | TypeView::I64 | TypeView::I128 => 3,
        TypeView::U8 | TypeView::U16 | TypeView::U32 | TypeView::U64 | TypeView::U128 => 4,
        TypeView::Bool => 5,
        TypeView::Str => 6,
        _ => 7,
    }
}

fn type_class_exec(t: &AotValueType) -> (c: u8)
    ensures
        c == type_class(t@),
{
    match t {
        AotValueType::F64 | AotValueType::Float => 0,
        AotValueType::F32 => 1,
        AotValueType::Int => 2,
        AotValueType::I8 | AotValueType::I16 | AotValueType::I32 | AotValueType::I64 | AotValueType::I128 => 3,
        AotValueType::U8 | AotValueType::U16 | AotValueType::U32 | AotValueType::U64 | AotValueType::U128 => 4,
        AotValueType::Bool => 5,
        AotValueType::String => 6,
        _ => 7,
    }
}

/// A value `x` of type class `c` as a 64-bit float, numbering from `m`:
/// the operations, the value and the next IR number.
pub open spec fn to_f64_ops(c: u8, x: u64, m: int) -> (Seq<IrOp>, u64, int) {
    if c == 0 {
        (Seq::empty(), x, m)
    } else if c == 1 {
        (seq![IrOp::Convert { dst: m as u64, op: ConvOp::PromoteF64, a: x }], m as u64, m + 1)
    } else if c == 2 {
        (seq![IrOp::Convert { dst: m as u64, op: ConvOp::SintToF64, a: x }], m as u64, m + 1)
    } else if c == 3 {
        (
            seq![
                IrOp::Convert { dst: m as u64, op: ConvOp::Sextend64, a: x },
                IrOp::Convert { dst: (m + 1) as u64, op: ConvOp::SintToF64, a: m as u64 },
            ],
            (m + 1) as u64,
            m + 2,
        )
    } else if c == 4 {
        (
            seq![
                IrOp::Convert { dst: m as u64, op: ConvOp::Uextend64, a: x },
                IrOp::Convert { dst: (m + 1) as u64, op: ConvOp::UintToF64, a: m as u64 },
            ],
            (m + 1) as u64,
            m + 2,
        )
    } else {
        (seq![IrOp::F64Const { dst: m as u64, bits: 0 }], m as u64, m + 1)
    }
}

/// A value `x` of type class `c` as a character code (a 32-bit integer),
/// numbering from `m`: a string's first byte, a boolean or integer's low
/// 32 bits, a float's unsigned integer part's low 32 bits, else zero.
pub open spec fn to_char_ops(c: u8, x: u64, m: int) -> (Seq<IrOp>, u64, int) {
    if c == 6 {
        (
            seq![
                IrOp::Load { dst: m as u64, ty: ClifType::I8, addr: x, offset: 0 },
                IrOp::Convert { dst: (m + 1) as u64, op: ConvOp::Uextend32, a: m as u64 },
            ],
            (m + 1) as u64,
            m + 2,
        )
    } else if c == 5 {
        (
            seq![
                IrOp::Convert { dst: m as u64, op: ConvOp::Uextend64, a: x },
                IrOp::Convert { dst: (m + 1) as u64, op: ConvOp::LowI32, a: m as u64 },
            ],
            (m + 1) as u64,
            m + 2,
        )
    } else if c == 2 || c == 3 || c == 4 {
        (seq![IrOp::Convert { dst: m as u64, op: ConvOp::LowI32, a: x }], m as u64, m + 1)
    } else if c == 0 || c == 1 {
        (
            seq![
                IrOp::Convert { dst: m as u64, op: ConvOp::FloatToUint64, a: x },
                IrOp::Convert { dst: (m + 1) as u64, op: ConvOp::LowI32, a: m as u64 },
            ],
            (m + 1) as u64,
            m + 2,
        )
    } else {
        (seq![IrOp::Iconst { dst: m as u64, ty: ClifType::I32, imm: 0 }], m as u64, m + 1)
    }
}

/// Lowering the `f64`, `f32` and `char` builtins: the first argument (a
/// 64-bit zero when it has no value, `Int` when it has no type) converted
/// to a 64-bit float, to a 32-bit float (a 32-bit float kept, anything
/// else through a 64-bit float, demoted) or to a character code; without
/// an argument, that type's zero.
pub open spec fn builtin_cast_spec(name: Seq<char>, d: u32, args: Seq<u32>, st: LowerView) -> Lowered {
    let n = st.next as int;
    if builtin_is(name, "char"@) {
        if args.len() >= 1 {
            let x = operand_or_zero(st, args[0], n);
            let y = to_char_ops(type_class(type_or_int(st, args[0])), x.1, x.2);
            done_bound(st, x.0 + y.0, d, y.1, TypeView::Char, y.2)
        } else {
            done_bound(st, seq![IrOp::Iconst { dst: n as u64, ty: ClifType::I32, imm: 0 }], d, n as u64, TypeView::Char, n + 1)
        }
    } else if builtin_is(name, "f64"@) {
        if args.len() >= 1 {
            let x = operand_or_zero(st, args[0], n);
            let y = to_f64_ops(type_class(type_or_int(st, args[0])), x.1, x.2);
            done_bound(st, x.0 + y.0, d, y.1, TypeView::F64, y.2)
        } else {
            done_bound(st, seq![IrOp::F64Const { dst: n as u64, bits: 0 }], d, n as u64, TypeView::F64, n + 1)
        }
    } else {
        if args.len() >= 1 {
            let x = operand_or_zero(st, args[0], n);
            let c = type_class(type_or_int(st, args[0]));
            if c == 1 {
                done_bound(st, x.0, d, x.1, TypeView::F32, x.2)
            } else {
                let y = to_f64_ops(c, x.1, x.2);
                done_bound(st, x.0 + y.0 + seq![IrOp::Convert { dst: y.2 as u64, op: ConvOp::DemoteF32, a: y.1 }], d, y.2 as u64, TypeView::F32, y.2 + 1)
            }
        } else {
            done_bound(
                st,
                seq![IrOp::F64Const { dst: n as u64, bits: 0 }, IrOp::Convert { dst: (n + 1) as u64, op: ConvOp::DemoteF32, a: n as u64 }],
                d,
                (n + 1) as u64,
                TypeView::F32,
                n + 2,
            )
        }
    }
}

fn to_f64_exec(ops: &mut Vec<IrOp>, c: u8, x: u64, m: u64) -> (r: (u64, u64))
    requires
        m + 2 <= u64::MAX,
    ensures
        final(ops)@ == old(ops)@ + to_f64_ops(c, x, m as int).0,
        r.0 == to_f64_ops(c, x, m as int).1,
        r.1 == to_f64_ops(c, x, m as int).2,
{
    let ghost start = ops@;
    if c == 0 {
        assert(start + Seq::<IrOp>::empty() =~= start);
        (x, m)
    } else if c == 1 {
        ops.push(IrOp::Convert { dst: m, op: ConvOp::PromoteF64, a: x });
        assert(ops@ =~= start + to_f64_ops(c, x, m as int).0);
        (m, m + 1)
    } else if c == 2 {
        ops.push(IrOp::Convert { dst: m, op: ConvOp::SintToF64, a: x });
        assert(ops@ =~= start + to_f64_ops(c, x, m as int).0);
        (m, m + 1)
    } else if c == 3 {
        ops.push(IrOp::Convert { dst: m, op: ConvOp::Sextend64, a: x });
        ops.push(IrOp::Convert { dst: m + 1, op: ConvOp::SintToF64, a: m });
        assert(ops@ =~= start + to_f64_ops(c, x, m as int).0);
        (m + 1, m + 2)
    } else if c == 4 {
        ops.push(IrOp::Convert { dst: m, op: ConvOp::Uextend64, a: x });
        ops.push(IrOp::Convert { dst: m + 1, op: ConvOp::UintToF64, a: m });
        assert(ops@ =~= start + to_f64_ops(c, x, m as int).0);
        (m + 1, m + 2)
    } else {
        ops.push(IrOp::F64Const { dst: m, bits: 0 });
        assert(ops@ =~= start + to_f64_ops(c, x, m as int).0);
        (m, m + 1)
    }
}

fn to_char_exec(ops: &mut Vec<IrOp>, c: u8, x: u64, m: u64) -> (r: (u64, u64))
    requires
        m + 2 <= u64::MAX,
    ensures
        final(ops)@ == old(ops)@ + to_char_ops(c, x, m as int).0,
        r.0 == to_char_ops(c, x, m as int).1,
        r.1 == to_char_ops(c, x, m as int).2,
{
    let ghost start = ops@;
    if c == 6 {
        ops.push(IrOp::Load { dst: m, ty: ClifType::I8, addr: x, offset: 0 });
        ops.push(IrOp::Convert { dst: m + 1, op: ConvOp::Uextend32, a: m });
        assert(ops@ =~= start + to_char_ops(c, x, m as int).0);
        (m + 1, m + 2)
    } else if c == 5 {
        ops.push(IrOp::Convert { dst: m, op: ConvOp::Uextend64, a: x });
        ops.push(IrOp::Convert { dst: m + 1, op: ConvOp::LowI32, a: m });
        assert(ops@ =~= start + to_char_ops(c, x, m as int).0);
        (m + 1, m + 2)
    } else if c == 2 || c == 3 || c == 4 {
        ops.push(IrOp::Convert { dst: m, op: ConvOp::LowI32, a: x });
        assert(ops@ =~= start + to_char_ops(c, x, m as int).0);
        (m, m + 1)
    } else if c == 0 || c == 1 {
        ops.push(IrOp::Convert { dst: m, op: ConvOp::FloatToUint64, a: x });
        ops.push(IrOp::Convert { dst: m + 1, op: ConvOp::LowI32, a: m });
        assert(ops@ =~= start + to_char_ops(c, x, m as int).0);
        (m + 1, m + 2)
    } else {
        ops.push(IrOp::Iconst { dst: m, ty: ClifType::I32, imm: 0 });
        assert(ops@ =~= start + to_char_ops(c, x, m as int).0);
        (m, m + 1)
    }
}

#[verifier::rlimit(50)]
fn plan_builtin_cast(name: &str, d: u32, args: &Vec<u32>, st: &mut LowerState) -> (r: Result<Option<Vec<IrOp>>, String>)
    requires
        old(st).next_ir + 8 <= u64::MAX,
    ensures
        outcome_matches(builtin_cast_spec(name@, d, args@, old(st).view()), r, old(st).view(), final(st).view()),
{
    let n = st.next_ir;
    let mut ops: Vec<IrOp> = Vec::new();
    if is_builtin(name, "char") {
        if args.len() >= 1 {
            let (v, m) = operand_exec(st, &mut ops, args[0], n);
            let c = type_class_exec(&type_or_int_exec(st, args[0]));
            let (w, k) = to_char_exec(&mut ops, c, v, m);
            finish(st, ops, d, w, AotValueType::Char, k)
        } else {
            ops.push(IrOp::Iconst { dst: n, ty: ClifType::I32, imm: 0 });
            finish(st, ops, d, n, AotValueType::Char, n + 1)
        }
    } else if is_builtin(name, "f64") {
        if args.len() >= 1 {
            let (v, m) = operand_exec(st, &mut ops, args[0], n);
            let c = type_class_exec(&type_or_int_exec(st, args[0]));
            let (w, k) = to_f64_exec(&mut ops, c, v, m);
            finish(st, ops, d, w, AotValueType::F64, k)
        } else {
            ops.push(IrOp::F64Const { dst: n, bits: 0 });
            finish(st, ops, d, n, AotValueType::F64, n + 1)
        }
    } else {
        if args.len() >= 1 {
            let (v, m) = operand_exec(st, &mut ops, args[0], n);
            let c = type_class_exec(&type_or_int_exec(st, args[0]));
            if c == 1 {
                finish(st, ops, d, v, AotValueType::F32, m)
            } else {
                let ghost before = ops@;
                let (w, k) = to_f64_exec(&mut ops, c, v, m);
                ops.push(IrOp::Convert { dst: k, op: ConvOp::DemoteF32, a: w });
                assert(ops@ =~= before + to_f64_ops(c, v, m as int).0 + seq![IrOp::Convert { dst: k, op: ConvOp::DemoteF32, a: w }]);
                finish(st, ops, d, k, AotValueType::F32, k + 1)
            }
        } else {
            ops.push(IrOp::F64Const { dst: n, bits: 0 });
            ops.push(IrOp::Convert { dst: n + 1, op: ConvOp::DemoteF32, a: n });
            finish(st, ops, d, n + 1, AotValueType::F32, n + 2)
        }
    }
}

/// The builtins the runtime answers: the question, whether it takes the
/// first argument, and the result's type.
pub open spec fn query_of(name: Seq<char>) -> Option<(QueryFn, bool, TypeView)> {
    if builtin_is(name, "execName"@) {
        Some((QueryFn::ExecName, false, TypeView::Str))
    } else if builtin_is(name, "parseArgs"@) {
        Some((QueryFn::ParseArgs, false, TypeView::Str))
    } else if builtin_is(name, "argsSlice"@) {
        Some((QueryFn::ArgsSlice, true, TypeView::Str))
    } else if builtin_is(name, "argsJoin"@) {
        Some((QueryFn::ArgsJoin, true, TypeView::Str))
    } else if builtin_is(name, "argsIndexOf"@) {
        Some((QueryFn::ArgsIndexOf, true, TypeView::Int))
    } else if builtin_is(name, "argGet"@) {
        Some((QueryFn::ArgGet, true, TypeView::Str))
    } else if builtin_is(name, "argHas"@) {
        Some((QueryFn::ArgHas, true, TypeView::Bool))
    } else if builtin_is(name, "env"@) {
        Some((QueryFn::Env, true, TypeView::Str))
    } else {
        None
    }
}

/// Lowering a builtin the runtime answers (see `query_of`): a call of the
/// runtime, with the first argument's value when the question takes one;
/// a 64-bit zero when that argument has no value. Other builtins are not
/// handled here.
pub open spec fn builtin_query_spec(name: Seq<char>, d: u32, args: Seq<u32>, st: LowerView) -> Lowered {
    let n = st.next as int;
    match query_of(name) {
        Some((f, takes_arg, t)) => if !takes_arg {
            done_bound(st, seq![IrOp::Call { dst: n as u64, callee: RuntimeFn::Query(f), argc: 0, a0: 0, a1: 0, a2: 0 }], d, n as u64, t, n + 1)
        } else if args.len() >= 1 && st.values.dom().contains(args[0]) {
            done_bound(
                st,
                seq![IrOp::Call { dst: n as u64, callee: RuntimeFn::Query(f), argc: 1, a0: st.values[args[0]], a1: 0, a2: 0 }],
                d,
                n as u64,
                t,
                n + 1,
            )
        } else {
            done_bound(st, seq![IrOp::Iconst { dst: n as u64, ty: ClifType::I64, imm: 0 }], d, n as u64, t, n + 1)
        },
        None => Lowered::NotHandled,
    }
}

fn query_of_exec(name: &str) -> (r: Option<(QueryFn, bool, AotValueType)>)
    ensures
        match query_of(name@) {
            None => r is None,
            Some(q) => r matches Some(x) && x.0 == q.0 && x.1 == q.1 && x.2@ == q.2,
        },
{
    if is_builtin(name, "execName") {
        Some((QueryFn::ExecName, false, AotValueType::String))
    } else if is_builtin(name, "parseArgs") {
        Some((QueryFn::ParseArgs, false, AotValueType::String))
    } else if is_builtin(name, "argsSlice") {
        Some((QueryFn::ArgsSlice, true, AotValueType::String))
    } else if is_builtin(name, "argsJoin") {
        Some((QueryFn::ArgsJoin, true, AotValueType::String))
    } else if is_builtin(name, "argsIndexOf") {
        Some((QueryFn::ArgsIndexOf, true, AotValueType::Int))
    } else if is_builtin(name, "argGet") {
        Some((QueryFn::ArgGet, true, AotValueType::String))
    } else if is_builtin(name, "argHas") {
        Some((QueryFn::ArgHas, true, AotValueType::Bool))
    } else if is_builtin(name, "env") {
        Some((QueryFn::Env, true, AotValueType::String))
    } else {
        None
    }
}

#[verifier::rlimit(50)]
fn plan_builtin_query(name: &str, d: u32, args: &Vec<u32>, st: &mut LowerState) -> (r: Result<Option<Vec<IrOp>>, String>)
    requires
        old(st).next_ir + 8 <= u64::MAX,
    ensures
        outcome_matches(builtin_query_spec(name@, d, args@, old(st).view()), r, old(st).view(), final(st).view()),
{
    let n = st.next_ir;
    let mut ops: Vec<IrOp> = Vec::new();
    match query_of_exec(name) {
        Some((f, takes_arg, t)) => {
            if !takes_arg {
                ops.push(IrOp::Call { dst: n, callee: RuntimeFn::Query(f), argc: 0, a0: 0, a1: 0, a2: 0 });
            } else if args.len() >= 1 && st.values.contains_key(&args[0]) {
                let a = *st.values.get(&args[0]).unwrap();
                ops.push(IrOp::Call { dst: n, callee: RuntimeFn::Query(f), argc: 1, a0: a, a1: 0, a2: 0 });
            } else {
                ops.push(IrOp::Iconst { dst: n, ty: ClifType::I64, imm: 0 });
            }
            finish(st, ops, d, n, t, n + 1)
        },
        None => Ok(None),
    }
}

fn operand_exec(st: &LowerState, ops: &mut Vec<IrOp>, a: u32, n: u64) -> (r: (u64, u64))
    requires
        n + 1 <= u64::MAX,
    ensures
        final(ops)@ == old(ops)@ + operand_or_zero(st.view(), a, n as int).0,
        r.0 == operand_or_zero(st.view(), a, n as int).1,
        r.1 == operand_or_zero(st.view(), a, n as int).2,
{
    match st.values.get(&a) {
        Some(v) => {
            assert(old(ops)@ + Seq::<IrOp>::empty() =~= old(ops)@);
            (*v, n)
        },
        None => {
            let ghost start = ops@;
            ops.push(IrOp::Iconst { dst: n, ty: ClifType::I64, imm: 0 });
            assert(ops@ =~= start + seq![IrOp::Iconst { dst: n, ty: ClifType::I64, imm: 0 }]);
            (n, n + 1)
        },
    }
}

fn type_or_int_exec(st: &LowerState, a: u32) -> (t: AotValueType)
    ensures
        t@ == type_or_int(st.view(), a),
{
    match st.types.get(&a) {
        Some(t) => t.duplicate(),
        None => AotValueType::Int,
    }
}

fn zero_untyped_exec(st: &mut LowerState, d: u32) -> (r: Result<Option<Vec<IrOp>>, String>)
    requires
        old(st).next_ir + 1 <= u64::MAX,
    ensures
        outcome_matches(zero_untyped(old(st).view(), d), r, old(st).view(), final(st).view()),
{
    let n = st.next_ir;
    st.values.insert(d, n);
    st.next_ir = n + 1;
    assert(st.view() =~= (LowerView { values: old(st).view().values.insert(d, n), next: (n + 1) as u64, ..old(st).view() }));
    Ok(Some(one_op(IrOp::Iconst { dst: n, ty: ClifType::I64, imm: 0 })))
}

fn finish(st: &mut LowerState, ops: Vec<IrOp>, d: u32, v: u64, t: AotValueType, next: u64) -> (r: Result<Option<Vec<IrOp>>, String>)
    ensures
        outcome_matches(done_bound(old(st).view(), ops@, d, v, t@, next as int), r, old(st).view(), final(st).view()),
{
    bind_result(st, d, v, t, next);
    Ok(Some(ops))
}

fn is_type(t: &AotValueType, k: u8) -> (b: bool)
    ensures
        k == 0 ==> b == (t@ == TypeView::Float),
        k == 1 ==> b == (t@ == TypeView::Int),
        k == 2 ==> b == (t@ == TypeView::Bool),
{
    match t {
        AotValueType::Float => k == 0,
        AotValueType::Int => k == 1,
        AotValueType::Bool => k == 2,
        _ => false,
    }
}

#[verifier::rlimit(50)]
fn plan_builtin_arith(name: &str, d: u32, args: &Vec<u32>, st: &mut LowerState, has_argc: bool) -> (r: Result<Option<Vec<IrOp>>, String>)
    requires
        old(st).next_ir + 8 <= u64::MAX,
    ensures
        outcome_matches(builtin_arith_spec(name@, d, args@, old(st).view(), has_argc), r, old(st).view(), final(st).view()),
{
    let n = st.next_ir;
    let mut ops: Vec<IrOp> = Vec::new();
    if args.len() >= 2 {
        let (va, n1) = operand_exec(st, &mut ops, args[0], n);
        let (vb, n2) = operand_exec(st, &mut ops, args[1], n1);
        let op = if is_builtin(name, "sub") {
            BinOp::Isub
        } else if is_builtin(name, "mul") {
            BinOp::Imul
        } else if is_builtin(name, "div") {
            BinOp::Sdiv
        } else {
            BinOp::Srem
        };
        ops.push(IrOp::Binary { dst: n2, op, a: va, b: vb });
        proof {
            let o = old(st).view();
            let x = operand_or_zero(o, args@[0], n as int);
            let y = operand_or_zero(o, args@[1], x.2);
            assert(va == x.1 && n1 == x.2 && vb == y.1 && n2 == y.2);
            assert(ops@ == x.0 + y.0 + seq![IrOp::Binary { dst: n2, op, a: va, b: vb }]);
        }
        finish(st, ops, d, n2, AotValueType::Int, n2 + 1)
    } else {
        zero_untyped_exec(st, d)
    }
}

#[verifier::rlimit(50)]
fn plan_builtin_abs(name: &str, d: u32, args: &Vec<u32>, st: &mut LowerState, has_argc: bool) -> (r: Result<Option<Vec<IrOp>>, String>)
    requires
        old(st).next_ir + 8 <= u64::MAX,
    ensures
        outcome_matches(builtin_abs_spec(name@, d, args@, old(st).view(), has_argc), r, old(st).view(), final(st).view()),
{
    let n = st.next_ir;
    let mut ops: Vec<IrOp> = Vec::new();
    if args.len() >= 1 {
        let (v, m) = operand_exec(st, &mut ops, args[0], n);
        let t = type_or_int_exec(st, args[0]);
        if is_type(&t, 0) {
            ops.push(IrOp::Unary { dst: m, op: UnOp::Fabs, a: v });
            finish(st, ops, d, m, t, m + 1)
        } else if is_type(&t, 1) {
            ops.push(IrOp::Iconst { dst: m, ty: ClifType::I64, imm: 63 });
            ops.push(IrOp::Binary { dst: m + 1, op: BinOp::Sshr, a: v, b: m });
            ops.push(IrOp::Binary { dst: m + 2, op: BinOp::Bxor, a: v, b: m + 1 });
            ops.push(IrOp::Binary { dst: m + 3, op: BinOp::Isub, a: m + 2, b: m + 1 });
            finish(st, ops, d, m + 3, t, m + 4)
        } else {
            finish(st, ops, d, v, t, m)
        }
    } else {
        zero_untyped_exec(st, d)
    }
}

#[verifier::rlimit(50)]
fn plan_builtin_minmax(name: &str, d: u32, args: &Vec<u32>, st: &mut LowerState, has_argc: bool) -> (r: Result<Option<Vec<IrOp>>, String>)
    requires
        old(st).next_ir + 8 <= u64::MAX,
    ensures
        outcome_matches(builtin_minmax_spec(name@, d, args@, old(st).view(), has_argc), r, old(st).view(), final(st).view()),
{
    let n = st.next_ir;
    let mut ops: Vec<IrOp> = Vec::new();
    if args.len() >= 2 {
        let (va, n1) = operand_exec(st, &mut ops, args[0], n);
        let (vb, m) = operand_exec(st, &mut ops, args[1], n1);
        let t = type_or_int_exec(st, args[0]);
        let is_min = is_builtin(name, "min");
        if is_type(&t, 0) {
            let op = if is_min { BinOp::Fmin } else { BinOp::Fmax };
            ops.push(IrOp::Binary { dst: m, op, a: va, b: vb });
            finish(st, ops, d, m, t, m + 1)
        } else {
            let cond = if is_min { IntCond::SignedLessThan } else { IntCond::SignedGreaterThan };
            ops.push(IrOp::IntCompare { dst: m, cond, a: va, b: vb });
            ops.push(IrOp::Select { dst: m + 1, cond: m, a: va, b: vb });
            finish(st, ops, d, m + 1, t, m + 2)
        }
    } else {
        zero_untyped_exec(st, d)
    }
}

#[verifier::rlimit(50)]
fn plan_builtin_str(name: &str, d: u32, args: &Vec<u32>, st: &mut LowerState, has_argc: bool) -> (r: Result<Option<Vec<IrOp>>, String>)
    requires
        old(st).next_ir + 8 <= u64::MAX,
    ensures
        outcome_matches(builtin_str_spec(name@, d, args@, old(st).view(), has_argc), r, old(st).view(), final(st).view()),
{
    let n = st.next_ir;
    let mut ops: Vec<IrOp> = Vec::new();
    if args.len() >= 1 {
        let (v, m) = operand_exec(st, &mut ops, args[0], n);
        finish(st, ops, d, v, AotValueType::String, m)
    } else {
        zero_untyped_exec(st, d)
    }
}

#[verifier::rlimit(50)]
fn plan_builtin_int(name: &str, d: u32, args: &Vec<u32>, st: &mut LowerState, has_argc: bool) -> (r: Result<Option<Vec<IrOp>>, String>)
    requires
        old(st).next_ir + 8 <= u64::MAX,
    ensures
        outcome_matches(builtin_int_spec(name@, d, args@, old(st).view(), has_argc), r, old(st).view(), final(st).view()),
{
    let n = st.next_ir;
    let mut ops: Vec<IrOp> = Vec::new();
    if args.len() >= 1 {
        let (v, m) = operand_exec(st, &mut ops, args[0], n);
        let t = type_or_int_exec(st, args[0]);
        if is_type(&t, 0) {
            ops.push(IrOp::Convert { dst: m, op: ConvOp::FloatToSint64, a: v });
            finish(st, ops, d, m, AotValueType::Int, m + 1)
        } else if is_type(&t, 2) {
            ops.push(IrOp::Convert { dst: m, op: ConvOp::Uextend64, a: v });
            finish(st, ops, d, m, AotValueType::Int, m + 1)
        } else {
            finish(st, ops, d, v, AotValueType::Int, m)
        }
    } else {
        ops.push(IrOp::Iconst { dst: n, ty: ClifType::I64, imm: 0 });
        finish(st, ops, d, n, AotValueType::Int, n + 1)
    }
}

#[verifier::rlimit(50)]
fn plan_builtin_float(name: &str, d: u32, args: &Vec<u32>, st: &mut LowerState, has_argc: bool) -> (r: Result<Option<Vec<IrOp>>, String>)
    requires
        old(st).next_ir + 8 <= u64::MAX,
    ensures
        outcome_matches(builtin_float_spec(name@, d, args@, old(st).view(), has_argc), r, old(st).view(), final(st).view()),
{
    let n = st.next_ir;
    let mut ops: Vec<IrOp> = Vec::new();
    if args.len() >= 1 {
        let (v, m) = operand_exec(st, &mut ops, args[0], n);
        let t = type_or_int_exec(st, args[0]);
        if is_type(&t, 0) {
            finish(st, ops, d, v, AotValueType::Float, m)
        } else if is_type(&t, 1) {
            ops.push(IrOp::Convert { dst: m, op: ConvOp::SintToF64, a: v });
            finish(st, ops, d, m, AotValueType::Float, m + 1)
        } else if is_type(&t, 2) {
            ops.push(IrOp::Convert { dst: m, op: ConvOp::Uextend64, a: v });
            ops.push(IrOp::Convert { dst: m + 1, op: ConvOp::SintToF64, a: m });
            finish(st, ops, d, m + 1, AotValueType::Float, m + 2)
        } else {
            ops.push(IrOp::F64Const { dst: m, bits: 0 });
            finish(st, ops, d, m, AotValueType::Float, m + 1)
        }
    } else {
        ops.push(IrOp::F64Const { dst: n, bits: 0 });
        finish(st, ops, d, n, AotValueType::Float, n + 1)
    }
}

#[verifier::rlimit(50)]
fn plan_builtin_bool(name: &str, d: u32, args: &Vec<u32>, st: &mut LowerState, has_argc: bool) -> (r: Result<Option<Vec<IrOp>>, String>)
    requires
        old(st).next_ir + 8 <= u64::MAX,
    ensures
        outcome_matches(builtin_bool_spec(name@, d, args@, old(st).view(), has_argc), r, old(st).view(), final(st).view()),
{
    let n = st.next_ir;
    let mut ops: Vec<IrOp> = Vec::new();
    if args.len() >= 1 {
        let (v, m) = operand_exec(st, &mut ops, args[0], n);
        let t = type_or_int_exec(st, args[0]);
        if is_type(&t, 2) {
            finish(st, ops, d, v, AotValueType::Bool, m)
        } else if is_type(&t, 1) || is_type(&t, 0) {
            let is_int = is_type(&t, 1);
            if is_int {
                ops.push(IrOp::Iconst { dst: m, ty: ClifType::I64, imm: 0 });
            } else {
                ops.push(IrOp::F64Const { dst: m, bits: 0 });
            }
            ops.push(IrOp::Iconst { dst: m + 1, ty: ClifType::I8, imm: 1 });
            ops.push(IrOp::Iconst { dst: m + 2, ty: ClifType::I8, imm: 0 });
            if is_int {
                ops.push(IrOp::IntCompare { dst: m + 3, cond: IntCond::NotEqual, a: v, b: m });
            } else {
                ops.push(IrOp::FloatCompare { dst: m + 3, cond: FloatCond::NotEqual, a: v, b: m });
            }
            ops.push(IrOp::Select { dst: m + 4, cond: m + 3, a: m + 1, b: m + 2 });
            finish(st, ops, d, m + 4, AotValueType::Bool, m + 5)
        } else {
            ops.push(IrOp::Iconst { dst: m, ty: ClifType::I8, imm: 0 });
            finish(st, ops, d, m, AotValueType::Bool, m + 1)
        }
    } else {
        ops.push(IrOp::Iconst { dst: n, ty: ClifType::I8, imm: 0 });
        finish(st, ops, d, n, AotValueType::Bool, n + 1)
    }
}

#[verifier::rlimit(50)]
fn plan_builtin_argc(name: &str, d: u32, args: &Vec<u32>, st: &mut LowerState, has_argc: bool) -> (r: Result<Option<Vec<IrOp>>, String>)
    requires
        old(st).next_ir + 8 <= u64::MAX,
    ensures
        outcome_matches(builtin_argc_spec(name@, d, args@, old(st).view(), has_argc), r, old(st).view(), final(st).view()),
{
    let n = st.next_ir;
    let mut ops: Vec<IrOp> = Vec::new();
    if has_argc {
        ops.push(IrOp::GlobalAddr { dst: n, global: ArgGlobal::Argc });
        ops.push(IrOp::Load { dst: n + 1, ty: ClifType::I32, addr: n, offset: 0 });
        ops.push(IrOp::Convert { dst: n + 2, op: ConvOp::Sextend64, a: n + 1 });
        finish(st, ops, d, n + 2, AotValueType::Int, n + 3)
    } else {
        ops.push(IrOp::Iconst { dst: n, ty: ClifType::I64, imm: 0 });
        finish(st, ops, d, n, AotValueType::Int, n + 1)
    }
}

#[verifier::rlimit(50)]
fn plan_builtin_argv(name: &str, d: u32, args: &Vec<u32>, st: &mut LowerState, has_argc: bool) -> (r: Result<Option<Vec<IrOp>>, String>)
    requires
        old(st).next_ir + 8 <= u64::MAX,
    ensures
        outcome_matches(builtin_argv_spec(name@, d, args@, old(st).view(), has_argc), r, old(st).view(), final(st).view()),
{
    let n = st.next_ir;
    let mut ops: Vec<IrOp> = Vec::new();
    ops.push(IrOp::Call { dst: n, callee: RuntimeFn::GetArgv, argc: 0, a0: 0, a1: 0, a2: 0 });
    finish(st, ops, d, n, AotValueType::String, n + 1)
}

#[verifier::rlimit(50)]
fn plan_builtin_pass(name: &str, d: u32, args: &Vec<u32>, st: &mut LowerState, has_argc: bool) -> (r: Result<Option<Vec<IrOp>>, String>)
    requires
        old(st).next_ir + 8 <= u64::MAX,
    ensures
        outcome_matches(builtin_pass_spec(name@, d, args@, old(st).view(), has_argc), r, old(st).view(), final(st).view()),
{
    let n = st.next_ir;
    let mut ops: Vec<IrOp> = Vec::new();
    if args.len() >= 1 {
        let (v, m) = operand_exec(st, &mut ops, args[0], n);
        let t = type_or_int_exec(st, args[0]);
        finish(st, ops, d, v, t, m)
    } else {
        ops.push(IrOp::Iconst { dst: n, ty: ClifType::I64, imm: 0 });
        finish(st, ops, d, n, AotValueType::Int, n + 1)
    }
}

#[verifier::rlimit(50)]
fn plan_builtin_len(name: &str, d: u32, args: &Vec<u32>, st: &mut LowerState, has_argc: bool) -> (r: Result<Option<Vec<IrOp>>, String>)
    requires
        old(st).next_ir + 8 <= u64::MAX,
    ensures
        outcome_matches(builtin_len_spec(name@, d, args@, old(st).view(), has_argc), r, old(st).view(), final(st).view()),
{
    let n = st.next_ir;
    let mut ops: Vec<IrOp> = Vec::new();
    if args.len() >= 1 {
        match st.types.get(&args[0]) {
            Some(AotValueType::Array(_, _)) => {
                match st.values.get(&args[0]) {
                    Some(p) => {
                        let p = *p;
                        ops.push(IrOp::Load { dst: n, ty: ClifType::I64, addr: p, offset: 0 });
                        return finish(st, ops, d, n, AotValueType::Int, n + 1);
                    },
                    None => {},
                }
            },
            Some(AotValueType::Tuple(es)) => {
                let k = es.len();
                proof {
                    crate::values::lemma_views_of(es@);
                    assert(st.view().types[args@[0]] == TypeView::Tuple(crate::values::views_of(es@)));
                    assert(crate::values::views_of(es@).len() == k);
                }
                ops.push(IrOp::Iconst { dst: n, ty: ClifType::I64, imm: k as i64 });
                return finish(st, ops, d, n, AotValueType::Int, n + 1);
            },
            _ => {},
        }
    }
    ops.push(IrOp::Iconst { dst: n, ty: ClifType::I64, imm: 0 });
    finish(st, ops, d, n, AotValueType::Int, n + 1)
}

#[verifier::rlimit(50)]
fn plan_builtin_metadata(name: &str, d: u32, args: &Vec<u32>, st: &mut LowerState, has_argc: bool) -> (r: Result<Option<Vec<IrOp>>, String>)
    requires
        old(st).next_ir + 8 <= u64::MAX,
    ensures
        outcome_matches(builtin_metadata_spec(name@, d, args@, old(st).view(), has_argc), r, old(st).view(), final(st).view()),
{
    let n = st.next_ir;
    let mut ops: Vec<IrOp> = Vec::new();
    let mut size: i64 = 0;
    if args.len() >= 1 {
        match st.types.get(&args[0]) {
            Some(AotValueType::Array(e, _)) => {
                size = e.metadata_size();
                assert(st.view().types[args@[0]] is Array);
            },
            _ => {},
        }
    }
    ops.push(IrOp::Iconst { dst: n, ty: ClifType::I64, imm: size });
    finish(st, ops, d, n, AotValueType::Int, n + 1)
}

/// Plans a call of a builtin as `builtin_spec` says: `Ok(None)` for a
/// builtin not planned here. `has_argc` tells whether the runtime's
/// argument-count global exists.
pub fn plan_builtin_call(name: &str, d: u32, args: &Vec<u32>, st: &mut LowerState, has_argc: bool) -> (r: Result<Option<Vec<IrOp>>, String>)
    requires
        old(st).next_ir + 8 <= u64::MAX,
    ensures
        outcome_matches(builtin_spec(name@, d, args@, old(st).view(), has_argc), r, old(st).view(), final(st).view()),
{
    if is_builtin(name, "sub") || is_builtin(name, "mul") || is_builtin(name, "div") || is_builtin(name, "mod") {
        plan_builtin_arith(name, d, args, st, has_argc)
    } else if is_builtin(name, "abs") {
        plan_builtin_abs(name, d, args, st, has_argc)
    } else if is_builtin(name, "min") || is_builtin(name, "max") {
        plan_builtin_minmax(name, d, args, st, has_argc)
    } else if is_builtin(name, "str") {
        plan_builtin_str(name, d, args, st, has_argc)
    } else if is_builtin(name, "int") {
        plan_builtin_int(name, d, args, st, has_argc)
    } else if is_builtin(name, "float") {
        plan_builtin_float(name, d, args, st, has_argc)
    } else if is_builtin(name, "bool") {
        plan_builtin_bool(name, d, args, st, has_argc)
    } else if is_builtin(name, "argc") || is_builtin(name, "argsCount") {
        plan_builtin_argc(name, d, args, st, has_argc)
    } else if is_builtin(name, "argv") {
        plan_builtin_argv(name, d, args, st, has_argc)
    } else if is_builtin(name, "array_to_raw") || is_builtin(name, "array_to_dynamic") {
        plan_builtin_pass(name, d, args, st, has_argc)
    } else if is_builtin(name, "len") {
        plan_builtin_len(name, d, args, st, has_argc)
    } else if is_builtin(name, "metadata_size") {
        plan_builtin_metadata(name, d, args, st, has_argc)
    } else if is_builtin(name, "f64") || is_builtin(name, "f32") || is_builtin(name, "char") {
        plan_builtin_cast(name, d, args, st)
    } else {
        match plan_builtin_int_cast(name, d, args, st) {
            Ok(None) => plan_builtin_query(name, d, args, st),
            other => other,
        }
    }
}

/// A call of a value-handle constructor on `arg`, numbered `k`.
pub open spec fn make_value(ctor: ValueCtor, arg: u64, k: int) -> IrOp {
    IrOp::Call { dst: k as u64, callee: RuntimeFn::MakeValue(ctor), argc: 1, a0: arg, a1: 0, a2: 0 }
}

/// A scalar widened as `conv` says, then boxed by `ctor`.
pub open spec fn widened(conv: ConvOp, ctor: ValueCtor, raw: u64, n: int) -> Option<(Seq<IrOp>, u64, int)> {
    Some((seq![IrOp::Convert { dst: n as u64, op: conv, a: raw }, make_value(ctor, n as u64, n + 1)], (n + 1) as u64, n + 2))
}

/// Turning the LIR value `val`, held in IR value `raw` with type `ty`,
/// into a runtime value handle: the operations, the handle and the next
/// IR number. A known handle is kept; a constant boolean or a string is
/// boxed as such; a scalar is widened to its 64-bit lane and boxed by its
/// kind; a pointer is wrapped. Tuples, sets and arrays are not planned
/// here (`None`).
pub open spec fn handle_spec(val: u32, raw: u64, ty: TypeView, st: LowerView, n: int) -> Option<(Seq<IrOp>, u64, int)> {
    if st.handles.contains(val) || ty == TypeView::Handle {
        Some((Seq::empty(), raw, n))
    } else if st.bools.dom().contains(val) {
        Some((
            seq![
                IrOp::Iconst { dst: n as u64, ty: ClifType::I64, imm: if st.bools[val] { 1 } else { 0 } },
                make_value(ValueCtor::Bool, n as u64, n + 1),
            ],
            (n + 1) as u64,
            n + 2,
        ))
    } else if st.strings.dom().contains(val) || ty == TypeView::Str {
        Some((seq![make_value(ValueCtor::Str, raw, n)], n as u64, n + 1))
    } else {
        match ty {
            TypeView::Bool => widened(ConvOp::WidenToI64 { signed: false }, ValueCtor::Bool, raw, n),
            TypeView::Char => widened(ConvOp::WidenToI64 { signed: false }, ValueCtor::Char, raw, n),
            TypeView::F32 => widened(ConvOp::WidenToF64 { from_bits32: true }, ValueCtor::F32, raw, n),
            TypeView::F64 | TypeView::Float => widened(ConvOp::WidenToF64 { from_bits32: false }, ValueCtor::F64, raw, n),
            TypeView::U8 => widened(ConvOp::WidenToI64 { signed: false }, ValueCtor::U8, raw, n),
            TypeView::U16 => widened(ConvOp::WidenToI64 { signed: false }, ValueCtor::U16, raw, n),
            TypeView::U32 => widened(ConvOp::WidenToI64 { signed: false }, ValueCtor::U32, raw, n),
            TypeView::U64 => widened(ConvOp::WidenToI64 { signed: false }, ValueCtor::U64, raw, n),
            TypeView::I8 => widened(ConvOp::WidenToI64 { signed: true }, ValueCtor::I8, raw, n),
            TypeView::I16 => widened(ConvOp::WidenToI64 { signed: true }, ValueCtor::I16, raw, n),
            TypeView::I32 => widened(ConvOp::WidenToI64 { signed: true }, ValueCtor::I32, raw, n),
            TypeView::Ptr => Some((seq![make_value(ValueCtor::WrapPtr, raw, n)], n as u64, n + 1)),
            TypeView::Tuple(_) | TypeView::SetOf(_, _) | TypeView::Array(_, _) => None,
            _ => widened(ConvOp::WidenToI64 { signed: true }, ValueCtor::I64, raw, n),
        }
    }
}

fn make_value_exec(ctor: ValueCtor, arg: u64, k: u64) -> (op: IrOp)
    ensures
        op == make_value(ctor, arg, k as int),
{
    IrOp::Call { dst: k, callee: RuntimeFn::MakeValue(ctor), argc: 1, a0: arg, a1: 0, a2: 0 }
}

fn widened_exec(conv: ConvOp, ctor: ValueCtor, raw: u64, n: u64) -> (r: Option<(Vec<IrOp>, u64, u64)>)
    requires
        n + 2 <= u64::MAX,
    ensures
        r matches Some(x) && widened(conv, ctor, raw, n as int) matches Some(y) && x.0@ =~= y.0 && x.1 == y.1 && x.2 == y.2,
{
    let mut ops: Vec<IrOp> = Vec::new();
    ops.push(IrOp::Convert { dst: n, op: conv, a: raw });
    ops.push(make_value_exec(ctor, n, n + 1));
    Some((ops, n + 1, n + 2))
}

/// Plans turning a value into a runtime value handle (see `handle_spec`),
/// numbering new IR values from `n`.
#[verifier::rlimit(50)]
pub fn plan_handle_conversion(val: u32, raw: u64, ty: &AotValueType, st: &LowerState, n: u64) -> (r: Option<(Vec<IrOp>, u64, u64)>)
    requires
        n + 2 <= u64::MAX,
    ensures
        match handle_spec(val, raw, ty@, st.view(), n as int) {
            None => r is None,
            Some(y) => r matches Some(x) && x.0@ =~= y.0 && x.1 == y.1 && x.2 == y.2,
        },
{
    let is_handle = match ty {
        AotValueType::Handle => true,
        _ => false,
    };
    if st.runtime_handles.contains_key(&val) || is_handle {
        return Some((Vec::new(), raw, n));
    }
    match st.const_bools.get(&val) {
        Some(b) => {
            let imm: i64 = if *b { 1 } else { 0 };
            let mut ops: Vec<IrOp> = Vec::new();
            ops.push(IrOp::Iconst { dst: n, ty: ClifType::I64, imm });
            ops.push(make_value_exec(ValueCtor::Bool, n, n + 1));
            return Some((ops, n + 1, n + 2));
        },
        None => {},
    }
    let is_str = match ty {
        AotValueType::String => true,
        _ => false,
    };
    if st.const_strings.contains_key(&val) || is_str {
        let mut ops: Vec<IrOp> = Vec::new();
        ops.push(make_value_exec(ValueCtor::Str, raw, n));
        return Some((ops, n, n + 1));
    }
    match ty {
        AotValueType::Bool => widened_exec(ConvOp::WidenToI64 { signed: false }, ValueCtor::Bool, raw, n),
        AotValueType::Char => widened_exec(ConvOp::WidenToI64 { signed: false }, ValueCtor::Char, raw, n),
        AotValueType::F32 => widened_exec(ConvOp::WidenToF64 { from_bits32: true }, ValueCtor::F32, raw, n),
        AotValueType::F64 | AotValueType::Float => widened_exec(ConvOp::WidenToF64 { from_bits32: false }, ValueCtor::F64, raw, n),
        AotValueType::U8 => widened_exec(ConvOp::WidenToI64 { signed: false }, ValueCtor::U8, raw, n),
        AotValueType::U16 => widened_exec(ConvOp::WidenToI64 { signed: false }, ValueCtor::U16, raw, n),
        AotValueType::U32 => widened_exec(ConvOp::WidenToI64 { signed: false }, ValueCtor::U32, raw, n),
        AotValueType::U64 => widened_exec(ConvOp::WidenToI64 { signed: false }, ValueCtor::U64, raw, n),
        AotValueType::I8 => widened_exec(ConvOp::WidenToI64 { signed: true }, ValueCtor::I8, raw, n),
        AotValueType::I16 => widened_exec(ConvOp::WidenToI64 { signed: true }, ValueCtor::I16, raw, n),
        AotValueType::I32 => widened_exec(ConvOp::WidenToI64 { signed: true }, ValueCtor::I32, raw, n),
        AotValueType::Ptr => {
            let mut ops: Vec<IrOp> = Vec::new();
            ops.push(make_value_exec(ValueCtor::WrapPtr, raw, n));
            Some((ops, n, n + 1))
        },
        AotValueType::Tuple(_) | AotValueType::SetOf(_, _) | AotValueType::Array(_, _) => None,
        _ => widened_exec(ConvOp::WidenToI64 { signed: true }, ValueCtor::I64, raw, n),
    }
}


/// What an integer compare decides of two 64-bit values: the signed
/// order, equality, or the unsigned order (a negative value reads as the
/// larger when the signs differ).
pub open spec fn int_cond_holds(c: IntCond, x: i64, y: i64) -> bool {
    match c {
        IntCond::SignedLessThan => x < y,
        IntCond::SignedLessThanOrEqual => x <= y,
        IntCond::SignedGreaterThan => x > y,
        IntCond::SignedGreaterThanOrEqual => x >= y,
        IntCond::Equal => x == y,
        IntCond::NotEqual => x != y,
        IntCond::UnsignedGreaterThanOrEqual => if (x < 0) == (y < 0) {
            x >= y
        } else {
            x < 0
        },
    }
}

/// What a float compare decides of two ordered values (given by their
/// place in the order).
pub open spec fn float_cond_holds(c: FloatCond, x: int, y: int) -> bool {
    match c {
        FloatCond::LessThan => x < y,
        FloatCond::LessThanOrEqual => x <= y,
        FloatCond::GreaterThan => x > y,
        FloatCond::GreaterThanOrEqual => x >= y,
        FloatCond::Equal => x == y,
        FloatCond::NotEqual => x != y,
    }
}

/// The lowering is one integer compare of the two operands' values, into
/// a new boolean bound to `d`, deciding `rel`.
pub open spec fn int_compare_decides(o: Lowered, st: LowerView, d: u32, a: u32, b: u32, rel: spec_fn(i64, i64) -> bool) -> bool {
    &&& o matches Lowered::Done(ops, s)
    &&& ops.len() == 1
    &&& ops[0] matches IrOp::IntCompare { dst, cond, a: x, b: y }
    &&& dst == st.next && x == st.values[a] && y == st.values[b]
    &&& s.values.dom().contains(d) && s.values[d] == dst && s.types[d] == TypeView::Bool
    &&& forall|p: i64, q: i64| #[trigger] int_cond_holds(cond, p, q) == rel(p, q)
}

/// The lowering is one float compare of the two operands' values, into a
/// new boolean bound to `d`, deciding `rel` on ordered values.
pub open spec fn float_compare_decides(o: Lowered, st: LowerView, d: u32, a: u32, b: u32, rel: spec_fn(int, int) -> bool) -> bool {
    &&& o matches Lowered::Done(ops, s)
    &&& ops.len() == 1
    &&& ops[0] matches IrOp::FloatCompare { dst, cond, a: x, b: y }
    &&& dst == st.next && x == st.values[a] && y == st.values[b]
    &&& s.values.dom().contains(d) && s.values[d] == dst && s.types[d] == TypeView::Bool
    &&& forall|p: int, q: int| #[trigger] float_cond_holds(cond, p, q) == rel(p, q)
}

/// Each integer comparison instruction (`<`, `<=`, `>`, `>=`, `==`, `!=`)
/// is lowered to one compare of its operands, in order, that decides
/// exactly that comparison of signed 64-bit values.
pub proof fn lemma_int_comparisons_decide(st: LowerView, d: u32, a: u32, b: u32)
    requires
        st.values.dom().contains(a),
        st.values.dom().contains(b),
    ensures
        int_compare_decides(lowering_spec(LirInst::CmpLtI64(d, a, b), st), st, d, a, b, |p: i64, q: i64| p < q),
        int_compare_decides(lowering_spec(LirInst::CmpLeI64(d, a, b), st), st, d, a, b, |p: i64, q: i64| p <= q),
        int_compare_decides(lowering_spec(LirInst::CmpGtI64(d, a, b), st), st, d, a, b, |p: i64, q: i64| p > q),
        int_compare_decides(lowering_spec(LirInst::CmpGeI64(d, a, b), st), st, d, a, b, |p: i64, q: i64| p >= q),
        int_compare_decides(lowering_spec(LirInst::CmpEqI64(d, a, b), st), st, d, a, b, |p: i64, q: i64| p == q),
        int_compare_decides(lowering_spec(LirInst::CmpNeI64(d, a, b), st), st, d, a, b, |p: i64, q: i64| p != q),
{
    reveal(lowering_spec);
}

/// Each float comparison instruction is lowered to one compare of its
/// operands, in order, that decides exactly that comparison of ordered
/// values.
pub proof fn lemma_float_comparisons_decide(st: LowerView, d: u32, a: u32, b: u32)
    requires
        st.values.dom().contains(a),
        st.values.dom().contains(b),
    ensures
        float_compare_decides(lowering_spec(LirInst::CmpLtF64(d, a, b), st), st, d, a, b, |p: int, q: int| p < q),
        float_compare_decides(lowering_spec(LirInst::CmpLeF64(d, a, b), st), st, d, a, b, |p: int, q: int| p <= q),
        float_compare_decides(lowering_spec(LirInst::CmpGtF64(d, a, b), st), st, d, a, b, |p: int, q: int| p > q),
        float_compare_decides(lowering_spec(LirInst::CmpGeF64(d, a, b), st), st, d, a, b, |p: int, q: int| p >= q),
        float_compare_decides(lowering_spec(LirInst::CmpEqF64(d, a, b), st), st, d, a, b, |p: int, q: int| p == q),
        float_compare_decides(lowering_spec(LirInst::CmpNeF64(d, a, b), st), st, d, a, b, |p: int, q: int| p != q),
{
    reveal(lowering_spec);
}

/// The lowering compares the two operands' values and selects between
/// them, binding `d` to the selection, which is `pick` of the two values.
pub open spec fn selects(o: Lowered, st: LowerView, d: u32, a: u32, b: u32, pick: spec_fn(i64, i64) -> i64) -> bool {
    &&& o matches Lowered::Done(ops, s)
    &&& ops.len() == 2
    &&& ops[0] matches IrOp::IntCompare { dst: c, cond, a: x, b: y }
    &&& ops[1] matches IrOp::Select { dst: r, cond: c2, a: p, b: q }
    &&& x == st.values[a] && y == st.values[b] && c2 == c && p == x && q == y
    &&& s.values.dom().contains(d) && s.values[d] == r
    &&& forall|u: i64, v: i64| #[trigger] int_cond_holds(cond, u, v) ==> u == pick(u, v)
    &&& forall|u: i64, v: i64| !#[trigger] int_cond_holds(cond, u, v) ==> v == pick(u, v)
}

/// `min` and `max` of two values that are not floats select the smaller,
/// respectively the larger, signed value; of floats they are one float
/// minimum, respectively maximum.
pub proof fn lemma_min_max_pick(st: LowerView, d: u32, a: u32, b: u32, has_argc: bool)
    requires
        st.values.dom().contains(a),
        st.values.dom().contains(b),
    ensures
        type_or_int(st, a) != TypeView::Float ==> selects(
            builtin_spec("min"@, d, seq![a, b], st, has_argc),
            st,
            d,
            a,
            b,
            |u: i64, v: i64| if u <= v { u } else { v },
        ),
        type_or_int(st, a) != TypeView::Float ==> selects(
            builtin_spec("max"@, d, seq![a, b], st, has_argc),
            st,
            d,
            a,
            b,
            |u: i64, v: i64| if u >= v { u } else { v },
        ),
        type_or_int(st, a) == TypeView::Float ==> (builtin_spec("min"@, d, seq![a, b], st, has_argc) matches Lowered::Done(ops, s)
            && ops == seq![IrOp::Binary { dst: st.next, op: BinOp::Fmin, a: st.values[a], b: st.values[b] }]),
        type_or_int(st, a) == TypeView::Float ==> (builtin_spec("max"@, d, seq![a, b], st, has_argc) matches Lowered::Done(ops, s)
            && ops == seq![IrOp::Binary { dst: st.next, op: BinOp::Fmax, a: st.values[a], b: st.values[b] }]),
{
    reveal_strlit("min");
    reveal_strlit("max");
    reveal_strlit("sub");
    reveal_strlit("mul");
    reveal_strlit("div");
    reveal_strlit("mod");
    reveal_strlit("abs");
    reveal_strlit("std:");
    assert(("std:"@ + "sub"@).len() == 7);
    assert forall|x: Seq<char>| x.len() == 3 implies ("std:"@ + x).len() != 3 by {}
    assert("min"@[1] != "sub"@[1] && "min"@[1] != "mul"@[1] && "min"@[0] != "div"@[0]);
    assert("min"@[1] != "mod"@[1] && "min"@[1] != "abs"@[1]);
    assert("max"@[1] != "sub"@[1] && "max"@[1] != "mul"@[1] && "max"@[1] != "div"@[1]);
    assert("max"@[1] != "mod"@[1] && "max"@[1] != "abs"@[1] && "max"@[1] != "min"@[1]);
    assert(!builtin_is("min"@, "sub"@) && !builtin_is("min"@, "mul"@) && !builtin_is("min"@, "div"@));
    assert(!builtin_is("min"@, "mod"@) && !builtin_is("min"@, "abs"@) && builtin_is("min"@, "min"@));
    assert(!builtin_is("max"@, "sub"@) && !builtin_is("max"@, "mul"@) && !builtin_is("max"@, "div"@));
    assert(!builtin_is("max"@, "mod"@) && !builtin_is("max"@, "abs"@) && !builtin_is("max"@, "min"@));
    assert(builtin_is("max"@, "max"@));
    assert(seq![a, b][0] == a && seq![a, b][1] == b);
}


/// What a binary operation computes of two exact values (before any
/// wrapping or rounding): sum, difference, product, quotient, remainder,
/// minimum, maximum; `None` for the bitwise operations.
pub open spec fn binop_meaning(op: BinOp, x: int, y: int) -> Option<int> {
    match op {
        BinOp::Iadd | BinOp::Fadd => Some(x + y),
        BinOp::Isub | BinOp::Fsub => Some(x - y),
        BinOp::Imul | BinOp::Fmul => Some(x * y),
        BinOp::Sdiv | BinOp::Fdiv => Some(x / y),
        BinOp::Srem => Some(x % y),
        BinOp::Fmin => Some(if x <= y { x } else { y }),
        BinOp::Fmax => Some(if x >= y { x } else { y }),
        _ => None,
    }
}

/// The lowering is one binary operation of the two operands' values, in
/// order, into a new value bound to `d` with type `t`, computing `f`.
pub open spec fn binary_computes(o: Lowered, st: LowerView, d: u32, a: u32, b: u32, t: TypeView, f: spec_fn(int, int) -> int) -> bool {
    &&& o matches Lowered::Done(ops, s)
    &&& ops.len() == 1
    &&& ops[0] matches IrOp::Binary { dst, op, a: x, b: y }
    &&& dst == st.next && x == st.values[a] && y == st.values[b]
    &&& s.values.dom().contains(d) && s.values[d] == dst && s.types[d] == t
    &&& forall|p: int, q: int| #[trigger] binop_meaning(op, p, q) == Some(f(p, q))
}

/// Each 64-bit arithmetic instruction is one operation of its operands,
/// in order, computing what the instruction names: integer sum,
/// difference, product, quotient and remainder, and float sum,
/// difference, product and quotient.
pub proof fn lemma_arithmetic_computes(st: LowerView, d: u32, a: u32, b: u32)
    requires
        st.values.dom().contains(a),
        st.values.dom().contains(b),
    ensures
        binary_computes(lowering_spec(LirInst::AddI64(d, a, b), st), st, d, a, b, TypeView::I64, |p: int, q: int| p + q),
        binary_computes(lowering_spec(LirInst::SubI64(d, a, b), st), st, d, a, b, TypeView::I64, |p: int, q: int| p - q),
        binary_computes(lowering_spec(LirInst::MulI64(d, a, b), st), st, d, a, b, TypeView::I64, |p: int, q: int| p * q),
        binary_computes(lowering_spec(LirInst::DivI64(d, a, b), st), st, d, a, b, TypeView::I64, |p: int, q: int| p / q),
        binary_computes(lowering_spec(LirInst::ModI64(d, a, b), st), st, d, a, b, TypeView::I64, |p: int, q: int| p % q),
        binary_computes(lowering_spec(LirInst::AddF64(d, a, b), st), st, d, a, b, TypeView::F64, |p: int, q: int| p + q),
        binary_computes(lowering_spec(LirInst::SubF64(d, a, b), st), st, d, a, b, TypeView::F64, |p: int, q: int| p - q),
        binary_computes(lowering_spec(LirInst::MulF64(d, a, b), st), st, d, a, b, TypeView::F64, |p: int, q: int| p * q),
        binary_computes(lowering_spec(LirInst::DivF64(d, a, b), st), st, d, a, b, TypeView::F64, |p: int, q: int| p / q),
{
    reveal(lowering_spec);
}

} // verus!
