//! The low-level IR's functions, and their signatures as the code
//! generator and C callers see them:
//! the C header for exported functions, and the lane types and linkage of
//! a user function's declaration.

use vstd::prelude::*;
use vstd::string::StringExecFns;
use crate::strs::{owned, str_eq};
use crate::values::ClifType;

verus! {

/// Types of the low-level IR.
#[derive(Debug, Clone, Copy, PartialEq, Eq, Structural)]
pub enum LirType {
    I8,
    I16,
    I32,
    I64,
    I128,
    U8,
    U16,
    U32,
    U64,
    U128,
    F32,
    F64,
    Bool,
    Ptr,
    Void,
}

/// An instruction of the low-level IR. Values and blocks are numbered;
/// the first number of a value-producing instruction is its result.
/// Instructions not modelled here (calls of user functions, variables,
/// strings and arrays beyond the builtins) are carried as `Other` with
/// their name.
#[derive(Debug, Clone)]
pub enum LirInst {
    ConstI64(u32, i64),
    ConstI8(u32, i8),
    ConstI16(u32, i16),
    ConstI32(u32, i32),
    ConstU8(u32, u8),
    ConstU16(u32, u16),
    ConstU32(u32, u32),
    ConstU64(u32, u64),
    ConstBool(u32, bool),
    ConstNull(u32),
    ConstI128(u32, i128),
    ConstU128(u32, u128),
    /// A 64-bit float, by its bits.
    ConstF64(u32, u64),
    /// A 32-bit float, by its bits.
    ConstF32(u32, u32),
    ConstString(u32, String),
    /// A function value: the function's name, the captured values and
    /// whether it is asynchronous.
    ConstFunc(u32, String, Vec<u32>, bool),
    /// A big integer: whether it is negative, and its magnitude in 64-bit
    /// limbs, least significant first.
    ConstBigInt(u32, bool, Vec<u64>),
    AddI64(u32, u32, u32),
    SubI64(u32, u32, u32),
    MulI64(u32, u32, u32),
    DivI64(u32, u32, u32),
    ModI64(u32, u32, u32),
    NegI64(u32, u32),
    AddF64(u32, u32, u32),
    SubF64(u32, u32, u32),
    MulF64(u32, u32, u32),
    DivF64(u32, u32, u32),
    NegF64(u32, u32),
    Not(u32, u32),
    And(u32, u32, u32),
    Or(u32, u32, u32),
    BitAnd(u32, u32, u32),
    BitOr(u32, u32, u32),
    BitXor(u32, u32, u32),
    Shl(u32, u32, u32),
    Shr(u32, u32, u32),
    CmpLtI64(u32, u32, u32),
    CmpLeI64(u32, u32, u32),
    CmpGtI64(u32, u32, u32),
    CmpGeI64(u32, u32, u32),
    CmpEqI64(u32, u32, u32),
    CmpNeI64(u32, u32, u32),
    CmpLtF64(u32, u32, u32),
    CmpLeF64(u32, u32, u32),
    CmpGtF64(u32, u32, u32),
    CmpGeF64(u32, u32, u32),
    CmpEqF64(u32, u32, u32),
    CmpNeF64(u32, u32, u32),
    /// Return, with the returned value if any.
    Return(Option<u32>),
    /// Jump to a block.
    Jump(u32),
    /// Jump to the first block when the value is true, else the second.
    JumpIf(u32, u32, u32),
    /// Call a function in tail position with arguments.
    TailCall(String, Vec<u32>),
    /// A value chosen by the predecessor block: pairs of block and value.
    Phi(u32, Vec<(u32, u32)>),
    /// Allocate the given number of bytes.
    Alloc(u32, u32),
    /// Allocate a typed array of the given length and element size.
    AllocTyped(u32, u32, i64),
    /// Free an allocation.
    Free(u32),
    /// Load the element at an index of a typed array.
    PtrLoad(u32, u32, u32),
    /// Store a value at an index of a typed array.
    PtrStore(u32, u32, u32),
    /// A new reference-counted box holding the value.
    ArcNew(u32, u32),
    ArcClone(u32, u32),
    ArcDrop(u32),
    ArcGet(u32, u32),
    ArcSet(u32, u32),
    ArcStrongCount(u32, u32),
    ArcWeakCount(u32, u32),
    WeakNew(u32, u32),
    WeakDrop(u32),
    /// Call a builtin of the runtime by name with arguments.
    CallBuiltin(u32, String, Vec<u32>),
    /// Any other instruction, by name.
    Other(String),
}

/// A basic block: its number and its instructions in order.
#[derive(Debug, Clone)]
pub struct LirBlock {
    pub id: u32,
    pub instructions: Vec<LirInst>,
}

/// A function of the low-level IR: its name, its parameters with their
/// names and types in order, its return type, whether it is exported, its
/// blocks in order and the number of its entry block.
#[derive(Debug, Clone)]
pub struct LirFunction {
    pub name: String,
    pub params: Vec<(String, LirType)>,
    pub ret_type: LirType,
    pub is_exported: bool,
    pub blocks: Vec<LirBlock>,
    pub entry_block: u32,
}

/// The functions of a module, in order.
#[derive(Debug, Clone)]
pub struct LirModule {
    pub functions: Vec<LirFunction>,
}

/// The C type a LIR type is exposed as: integers of at most 32 bits and
/// `Bool` as `int32_t`, wider integers as `int64_t`.
pub open spec fn c_type_of(t: LirType) -> Seq<char> {
    match t {
        LirType::I8 | LirType::I16 | LirType::I32 | LirType::U8 | LirType::U16 | LirType::U32
        | LirType::Bool => "int32_t"@,
        LirType::I64 | LirType::I128 | LirType::U64 | LirType::U128 => "int64_t"@,
        LirType::F32 => "float"@,
        LirType::F64 => "double"@,
        LirType::Ptr => "void*"@,
        LirType::Void => "void"@,
    }
}

/// One C parameter: its type, a space, its name.
pub open spec fn c_param(p: (String, LirType)) -> Seq<char> {
    c_type_of(p.1) + " "@ + p.0@
}

/// The C parameters, separated by `", "`.
pub open spec fn c_params(ps: Seq<(String, LirType)>) -> Seq<char>
    decreases ps.len(),
{
    if ps.len() == 0 {
        Seq::empty()
    } else if ps.len() == 1 {
        c_param(ps[0])
    } else {
        c_params(ps.drop_last()) + ", "@ + c_param(ps.last())
    }
}

/// The C prototype of a function (without the `;`): return type, name,
/// and the parameters in brackets, `void` when there are none.
pub open spec fn c_signature(f: LirFunction) -> Seq<char> {
    c_type_of(f.ret_type) + " "@ + f.name@ + "("@ + (if f.params@.len() == 0 {
        "void"@
    } else {
        c_params(f.params@)
    }) + ")"@
}

/// Whether a function is declared in the header: exported and not `main`.
pub open spec fn in_header(f: LirFunction) -> bool {
    f.is_exported && f.name@ != "main"@
}

/// The declarations of the header's functions, in order, each followed by
/// `";\n\n"`.
pub open spec fn c_declarations(fs: Seq<LirFunction>) -> Seq<char>
    decreases fs.len(),
{
    if fs.len() == 0 {
        Seq::empty()
    } else {
        c_declarations(fs.drop_last()) + (if in_header(fs.last()) {
            c_signature(fs.last()) + ";\n\n"@
        } else {
            Seq::empty()
        })
    }
}

/// What the header holds before the declarations.
pub open spec fn header_prologue() -> Seq<char> {
    "#ifndef ADESH_EXPORTS_H\n"@ + "#define ADESH_EXPORTS_H\n\n"@ + "#include <stdint.h>\n"@
        + "#include <stdbool.h>\n"@ + "#include <stddef.h>\n\n"@ + "#ifdef __cplusplus\n"@
        + "extern \"C\" {\n"@ + "#endif\n\n"@ + "/* Exported Functions */\n\n"@
}

/// What the header holds after the declarations.
pub open spec fn header_epilogue() -> Seq<char> {
    "#ifdef __cplusplus\n"@ + "}\n"@ + "#endif\n\n"@ + "#endif /* ADESH_EXPORTS_H */\n"@
}

/// The C header of a module.
pub open spec fn header_text(m: LirModule) -> Seq<char> {
    header_prologue() + c_declarations(m.functions@) + header_epilogue()
}

/// Map LIR type to C type string
pub fn lir_type_to_c_type(ty: &LirType) -> (s: String)
    ensures
        s@ == c_type_of(*ty),
{
    let t: &str = match ty {
        LirType::I8 => "int32_t",
        LirType::I16 => "int32_t",
        LirType::I32 => "int32_t",
        LirType::I64 => "int64_t",
        LirType::I128 => "int64_t",
        LirType::U8 => "int32_t",
        LirType::U16 => "int32_t",
        LirType::U32 => "int32_t",
        LirType::U64 => "int64_t",
        LirType::U128 => "int64_t",
        LirType::F32 => "float",
        LirType::F64 => "double",
        LirType::Bool => "int32_t",
        LirType::Ptr => "void*",
        LirType::Void => "void",
    };
    owned(t)
}

/// Convert an LIR function to a C function signature
pub fn lir_function_to_c_signature(func: &LirFunction) -> (sig: String)
    ensures
        sig@ == c_signature(*func),
{
    let return_type = lir_type_to_c_type(&func.ret_type);
    let mut sig = return_type;
    sig.append(" ");
    sig.append(func.name.as_str());
    sig.append("(");
    let ghost head = sig@;
    if func.params.len() == 0 {
        sig.append("void");
    } else {
        let mut i: usize = 0;
        while i < func.params.len()
            invariant
                i <= func.params@.len(),
                func.params@.len() > 0,
                sig@ == head + c_params(func.params@.subrange(0, i as int)),
            decreases func.params.len() - i,
        {
            let ghost before = sig@;
            if i > 0 {
                sig.append(", ");
            }
            let c_type = lir_type_to_c_type(&func.params[i].1);
            sig.append(c_type.as_str());
            sig.append(" ");
            sig.append(func.params[i].0.as_str());
            proof {
                let ps = func.params@.subrange(0, i + 1);
                assert(ps.drop_last() =~= func.params@.subrange(0, i as int));
                assert(ps.last() == func.params@[i as int]);
                if i == 0 {
                    assert(func.params@.subrange(0, 0) =~= Seq::<(String, LirType)>::empty());
                    assert(sig@ =~= head + c_params(ps));
                } else {
                    assert(sig@ =~= head + c_params(ps));
                }
            }
            i = i + 1;
        }
        assert(func.params@.subrange(0, i as int) =~= func.params@);
    }
    sig.append(")");
    proof {
        reveal_strlit(" ");
        reveal_strlit("(");
        reveal_strlit(")");
    }
    assert(sig@ =~= c_signature(*func));
    sig
}

/// Generate a C header file for exported functions in a LIR module: the
/// include guard, the standard includes and a C++ guard around the
/// prototypes of the exported functions other than `main`, in order.
pub fn generate_header(lir_module: &LirModule) -> (header: String)
    ensures
        header@ == header_text(*lir_module),
{
    let mut header = String::new();
    header.append("#ifndef ADESH_EXPORTS_H\n");
    header.append("#define ADESH_EXPORTS_H\n\n");
    header.append("#include <stdint.h>\n");
    header.append("#include <stdbool.h>\n");
    header.append("#include <stddef.h>\n\n");
    header.append("#ifdef __cplusplus\n");
    header.append("extern \"C\" {\n");
    header.append("#endif\n\n");
    header.append("/* Exported Functions */\n\n");
    let ghost head = header@;
    proof {
        reveal_strlit("");
    }
    assert(head =~= header_prologue());
    let fs = &lir_module.functions;
    let mut i: usize = 0;
    while i < fs.len()
        invariant
            i <= fs@.len(),
            fs == &lir_module.functions,
            header@ == head + c_declarations(fs@.subrange(0, i as int)),
        decreases fs.len() - i,
    {
        let func = &fs[i];
        let ghost before = header@;
        let exported = func.is_exported && !str_eq(func.name.as_str(), "main");
        if exported {
            let sig = lir_function_to_c_signature(func);
            header.append(sig.as_str());
            header.append(";\n\n");
        }
        proof {
            let sub = fs@.subrange(0, i + 1);
            assert(sub.drop_last() =~= fs@.subrange(0, i as int));
            assert(sub.last() == fs@[i as int]);
            assert(header@ =~= head + c_declarations(sub));
        }
        i = i + 1;
    }
    assert(fs@.subrange(0, i as int) =~= fs@);
    let ghost mid = header@;
    header.append("#ifdef __cplusplus\n");
    header.append("}\n");
    header.append("#endif\n\n");
    header.append("#endif /* ADESH_EXPORTS_H */\n");
    assert(header@ =~= mid + header_epilogue());
    header
}

/// The lane type of a LIR type: 128-bit integers, pointers and `Void` take
/// a 64-bit lane, `Bool` a byte.
pub open spec fn lir_lane(t: LirType) -> ClifType {
    match t {
        LirType::I8 | LirType::U8 | LirType::Bool => ClifType::I8,
        LirType::I16 | LirType::U16 => ClifType::I16,
        LirType::I32 | LirType::U32 => ClifType::I32,
        LirType::F32 => ClifType::F32,
        LirType::F64 => ClifType::F64,
        _ => ClifType::I64,
    }
}

/// Convert LIR type to Cranelift type
pub fn lir_type_to_cranelift(ty: &LirType) -> (r: ClifType)
    ensures
        r == lir_lane(*ty),
{
    match ty {
        LirType::I8 => ClifType::I8,
        LirType::I16 => ClifType::I16,
        LirType::I32 => ClifType::I32,
        LirType::I64 => ClifType::I64,
        LirType::I128 => ClifType::I64,
        LirType::U8 => ClifType::I8,
        LirType::U16 => ClifType::I16,
        LirType::U32 => ClifType::I32,
        LirType::U64 => ClifType::I64,
        LirType::U128 => ClifType::I64,
        LirType::F32 => ClifType::F32,
        LirType::F64 => ClifType::F64,
        LirType::Bool => ClifType::I8,
        LirType::Ptr => ClifType::I64,
        LirType::Void => ClifType::I64,
    }
}

/// Whether a declared function is visible to the linker or local to the
/// object.
#[derive(Debug, Clone, Copy, PartialEq, Eq, Structural)]
pub enum FuncLinkage {
    Export,
    Local,
    Import,
}

/// The machine signature of a user function's declaration.
#[derive(Debug, Clone)]
pub struct UserSignature {
    pub params: Vec<ClifType>,
    pub ret: ClifType,
    pub linkage: FuncLinkage,
}

/// The parameter lanes of a user function: `main` takes `argc` (32-bit)
/// and `argv` (a pointer); others their parameters' lanes in order.
pub open spec fn user_param_lanes(f: LirFunction) -> Seq<ClifType> {
    if f.name@ == "main"@ {
        seq![ClifType::I32, ClifType::I64]
    } else {
        f.params@.map_values(|p: (String, LirType)| lir_lane(p.1))
    }
}

/// The signature a user function is declared with: its parameter lanes,
/// its return lane, and export linkage for `main` and exported functions.
pub fn user_function_signature(f: &LirFunction) -> (sig: UserSignature)
    ensures
        sig.params@ == user_param_lanes(*f),
        sig.ret == lir_lane(f.ret_type),
        sig.linkage == (if f.name@ == "main"@ || f.is_exported {
            FuncLinkage::Export
        } else {
            FuncLinkage::Local
        }),
{
    let is_main = str_eq(f.name.as_str(), "main");
    let mut params: Vec<ClifType> = Vec::new();
    if is_main {
        params.push(ClifType::I32);
        params.push(ClifType::I64);
        assert(params@ =~= user_param_lanes(*f));
    } else {
        let mut i: usize = 0;
        while i < f.params.len()
            invariant
                i <= f.params@.len(),
                params@ =~= f.params@.subrange(0, i as int).map_values(|p: (String, LirType)| lir_lane(p.1)),
            decreases f.params.len() - i,
        {
            params.push(lir_type_to_cranelift(&f.params[i].1));
            i = i + 1;
        }
        assert(f.params@.subrange(0, i as int) =~= f.params@);
    }
    let ret = lir_type_to_cranelift(&f.ret_type);
    let linkage = if is_main || f.is_exported {
        FuncLinkage::Export
    } else {
        FuncLinkage::Local
    };
    UserSignature { params, ret, linkage }
}


/// The width in bits of a LIR integer type; `None` for the others.
pub open spec fn lir_int_bits(t: LirType) -> Option<nat> {
    match t {
        LirType::I8 | LirType::U8 => Some(8),
        LirType::I16 | LirType::U16 => Some(16),
        LirType::I32 | LirType::U32 => Some(32),
        LirType::I64 | LirType::U64 => Some(64),
        LirType::I128 | LirType::U128 => Some(128),
        _ => None,
    }
}

/// The width in bits of a C integer type of `stdint.h` named by `s`.
pub open spec fn c_int_bits(s: Seq<char>) -> Option<nat> {
    if s == "int8_t"@ || s == "uint8_t"@ {
        Some(8)
    } else if s == "int16_t"@ || s == "uint16_t"@ {
        Some(16)
    } else if s == "int32_t"@ || s == "uint32_t"@ {
        Some(32)
    } else if s == "int64_t"@ || s == "uint64_t"@ {
        Some(64)
    } else {
        None
    }
}

/// The width in bits of a C floating-point type named by `s`.
pub open spec fn c_float_bits(s: Seq<char>) -> Option<nat> {
    if s == "float"@ {
        Some(32)
    } else if s == "double"@ {
        Some(64)
    } else {
        None
    }
}

/// Every LIR integer type, and `Bool`, is exposed in the header as a C
/// integer type wide enough for its values, up to 64 bits: 32 bits for
/// types of at most 32 bits, 64 bits for wider ones. Floats keep their
/// width.
pub proof fn lemma_c_types_hold_their_values(t: LirType)
    ensures
        lir_int_bits(t) matches Some(w) ==> c_int_bits(c_type_of(t)) == Some(if w <= 32 { 32nat } else { 64nat }),
        t == LirType::Bool ==> c_int_bits(c_type_of(t)) == Some(32nat),
        t == LirType::F32 ==> c_float_bits(c_type_of(t)) == Some(32nat),
        t == LirType::F64 ==> c_float_bits(c_type_of(t)) == Some(64nat),
{
    reveal_strlit("int8_t");
    reveal_strlit("uint8_t");
    reveal_strlit("int16_t");
    reveal_strlit("uint16_t");
    reveal_strlit("int32_t");
    reveal_strlit("uint32_t");
    reveal_strlit("int64_t");
    reveal_strlit("float");
    reveal_strlit("double");
    assert("int32_t"@.len() != "int8_t"@.len() && "int32_t"@[0] != "uint8_t"@[0]);
    assert("int32_t"@[3] != "int16_t"@[3] && "int32_t"@.len() != "uint16_t"@.len());
    assert("int64_t"@.len() != "int8_t"@.len() && "int64_t"@[0] != "uint8_t"@[0]);
    assert("int64_t"@[3] != "int16_t"@[3] && "int64_t"@.len() != "uint16_t"@.len());
    assert("int64_t"@[3] != "int32_t"@[3] && "int64_t"@.len() != "uint32_t"@.len());
    assert("double"@.len() != "float"@.len());
}

} // verus!
