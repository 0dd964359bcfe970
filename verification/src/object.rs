//! The object module a compilation fills: making it for a target,
//! declaring the runtime's functions and globals, placing strings in the
//! data section, declaring user functions, and writing the object file.

use vstd::prelude::*;
use cranelift_codegen::ir::{AbiParam, Signature, types};
use cranelift_codegen::isa::CallConv;
use cranelift_codegen::settings;
use cranelift_module::{DataDescription, DataId, FuncId, Linkage, Module};
use cranelift_object::{ObjectBuilder, ObjectModule, ObjectProduct};
use target_lexicon::Triple;
use crate::header::{lir_lane, user_param_lanes, FuncLinkage, LirFunction, user_function_signature};
use crate::strings::{
    contains_text, data_bytes, data_requests, entry_view, plan_from, plan_string_data, DataEntry, StringOrigin,
};
use crate::strs::{concat, concat3, owned, strings_view};
use crate::target::TargetSpec;
use crate::values::ClifType;

verus! {

#[verifier::external_type_specification]
#[verifier::external_body]
pub struct ExObjectModule(ObjectModule);

#[verifier::external_type_specification]
#[verifier::external_body]
pub struct ExObjectBuilder(ObjectBuilder);

#[verifier::external_type_specification]
#[verifier::external_body]
pub struct ExObjectProduct(ObjectProduct);

#[verifier::external_type_specification]
#[verifier::external_body]
pub struct ExDataId(DataId);

#[verifier::external_type_specification]
#[verifier::external_body]
pub struct ExFuncId(FuncId);

#[verifier::external_type_specification]
#[verifier::external_body]
pub struct ExSignature(Signature);

/// Why no object builder could be made for a target, with the text of the
/// outside error where there is one.
#[derive(Debug, Clone)]
pub enum ModuleSetupError {
    /// No code generator exists for the target.
    Unsupported,
    /// The code generator refused the flags.
    Isa(String),
    /// The object writer does not support the target.
    Builder(String),
}

/// `isa::lookup`, then `IsaBuilder::finish` with the flags, then
/// `ObjectBuilder::new` with the module name and the default library call
/// names. The three run together because the ISA between them is a trait
/// object. Nothing is stated of which targets succeed.
#[verifier::external_body]
fn object_builder(triple: &Triple, flags: settings::Flags, name: Vec<u8>) -> Result<ObjectBuilder, ModuleSetupError> {
    let builder = match cranelift_codegen::isa::lookup(triple.clone()) {
        Ok(b) => b,
        Err(_) => return Err(ModuleSetupError::Unsupported),
    };
    let isa = match builder.finish(flags) {
        Ok(isa) => isa,
        Err(e) => return Err(ModuleSetupError::Isa(e.to_string())),
    };
    ObjectBuilder::new(isa, name, cranelift_module::default_libcall_names()).map_err(
        |e| ModuleSetupError::Builder(e.to_string()),
    )
}

/// The names an object module has declared, each with whether it names a
/// function (`true`) or a data object (`false`).
pub uninterp spec fn module_names(m: ObjectModule) -> Map<Seq<char>, bool>;

/// The functions an object module has declared by name, each with its
/// signature's calling convention, parameter lanes and result lanes.
pub uninterp spec fn module_functions(m: ObjectModule) -> Map<Seq<char>, (CallConv, Seq<ClifType>, Seq<ClifType>)>;

/// The data objects an object module has defined by name, each with its
/// bytes and its alignment when one was set.
pub uninterp spec fn module_data(m: ObjectModule) -> Map<Seq<char>, (Seq<u8>, Option<u64>)>;

/// The calling convention of a signature.
pub uninterp spec fn signature_conv(s: Signature) -> CallConv;

/// The parameter lanes of a signature, in order.
pub uninterp spec fn signature_params(s: Signature) -> Seq<ClifType>;

/// The result lanes of a signature, in order.
pub uninterp spec fn signature_returns(s: Signature) -> Seq<ClifType>;

/// `ObjectModule::new`: an empty module for the builder's target; it has
/// declared and defined nothing.
#[verifier::external_body]
fn new_object_module(builder: ObjectBuilder) -> (r: ObjectModule)
    ensures
        module_names(r).dom() == Set::<Seq<char>>::empty(),
        module_functions(r).dom() == Set::<Seq<char>>::empty(),
        module_data(r).dom() == Set::<Seq<char>>::empty(),
{
    ObjectModule::new(builder)
}

/// `Signature::new`: a signature with the calling convention and no
/// parameters or results yet.
#[verifier::external_body]
fn new_signature(conv: CallConv) -> (r: Signature)
    ensures
        signature_conv(r) == conv,
        signature_params(r) == Seq::<ClifType>::empty(),
        signature_returns(r) == Seq::<ClifType>::empty(),
{
    Signature::new(conv)
}

/// `AbiParam::new` of a lane type, pushed onto the parameters (`result`
/// false) or the results of a signature.
#[verifier::external_body]
fn push_abi_param(sig: &mut Signature, t: ClifType, result: bool)
    ensures
        signature_conv(*final(sig)) == signature_conv(*old(sig)),
        result ==> signature_returns(*final(sig)) == signature_returns(*old(sig)).push(t)
            && signature_params(*final(sig)) == signature_params(*old(sig)),
        !result ==> signature_params(*final(sig)) == signature_params(*old(sig)).push(t)
            && signature_returns(*final(sig)) == signature_returns(*old(sig)),
{
    let ty = match t {
        ClifType::I8 => types::I8,
        ClifType::I16 => types::I16,
        ClifType::I32 => types::I32,
        ClifType::I64 => types::I64,
        ClifType::I128 => types::I128,
        ClifType::F32 => types::F32,
        ClifType::F64 => types::F64,
    };
    if result { sig.returns.push(AbiParam::new(ty)) } else { sig.params.push(AbiParam::new(ty)) }
}

/// `Module::declare_function` on an object module; a refusal is given as
/// the text its `Display` writes. A declared name names a function with
/// that signature afterwards (a repeated declaration is accepted only with
/// the same signature); a refusal leaves the module as it was. A name
/// without a NUL character that the module has not declared is always
/// accepted (the source refuses only names with NUL, names of data
/// objects and functions declared with another signature). Data objects
/// are untouched.
#[verifier::external_body]
fn module_declare_function(m: &mut ObjectModule, name: &str, linkage: FuncLinkage, sig: &Signature) -> (r: Result<FuncId, String>)
    ensures
        r is Ok ==> module_names(*final(m)) == module_names(*old(m)).insert(name@, true),
        r is Ok ==> module_functions(*final(m)) == module_functions(*old(m)).insert(
            name@,
            (signature_conv(*sig), signature_params(*sig), signature_returns(*sig)),
        ),
        r is Err ==> module_names(*final(m)) == module_names(*old(m)) && module_functions(*final(m))
            == module_functions(*old(m)),
        module_data(*final(m)) == module_data(*old(m)),
        !module_names(*old(m)).dom().contains(name@) && !name@.contains('\0') ==> r is Ok,
{
    let linkage = match linkage {
        FuncLinkage::Export => Linkage::Export,
        FuncLinkage::Local => Linkage::Local,
        FuncLinkage::Import => Linkage::Import,
    };
    m.declare_function(name, linkage, sig).map_err(|e| e.to_string())
}

/// Whether a number is a power of two.
pub open spec fn is_power_of_two(x: u64) -> bool {
    x > 0 && x & ((x - 1) as u64) == 0
}

/// How a data object is filled: with the given bytes, or with that many
/// zero bytes.
pub enum DataInit {
    Bytes(Vec<u8>),
    Zeros(usize),
}

/// The bytes a data object is filled with.
pub open spec fn init_bytes(init: DataInit) -> Seq<u8> {
    match init {
        DataInit::Bytes(b) => b@,
        DataInit::Zeros(n) => Seq::new(n as nat, |i: int| 0u8),
    }
}

/// Which step of making a data object failed, with the outside error's text.
pub enum DataFailure {
    Declare(String),
    Define(String),
}

/// `Module::declare_data` with local linkage and without thread-local
/// storage, then `Module::define_data` of that id with a description
/// filled as `init` says and, when given, the alignment (which
/// `DataDescription::set_align` requires to be a power of two). A refused
/// declaration leaves the module as it was; a refused definition leaves
/// the name declared. A name without a NUL character that the module has
/// not declared is always accepted: it is declared afresh with local
/// linkage and not yet defined, which are the only reasons the source
/// refuses a definition; a name already defined is refused. Functions are
/// untouched.
#[verifier::external_body]
fn module_data_object(m: &mut ObjectModule, name: &str, writable: bool, init: DataInit, align: Option<u64>) -> (r: Result<DataId, DataFailure>)
    requires
        align matches Some(a) ==> is_power_of_two(a),
    ensures
        r is Ok ==> module_names(*final(m)) == module_names(*old(m)).insert(name@, false),
        r is Ok ==> module_data(*final(m)) == module_data(*old(m)).insert(name@, (init_bytes(init), align)),
        r is Ok ==> !module_data(*old(m)).dom().contains(name@),
        r matches Err(DataFailure::Declare(_)) ==> module_names(*final(m)) == module_names(*old(m)),
        r matches Err(DataFailure::Define(_)) ==> module_names(*final(m)) == module_names(*old(m)).insert(name@, false),
        r is Err ==> module_data(*final(m)) == module_data(*old(m)),
        module_functions(*final(m)) == module_functions(*old(m)),
        !module_names(*old(m)).dom().contains(name@) && !name@.contains('\0') ==> r is Ok,
{
    let id = match m.declare_data(name, Linkage::Local, writable, false) {
        Ok(id) => id,
        Err(e) => return Err(DataFailure::Declare(e.to_string())),
    };
    let mut desc = DataDescription::new();
    match init {
        DataInit::Bytes(b) => desc.define(b.into_boxed_slice()),
        DataInit::Zeros(n) => desc.define_zeroinit(n),
    }
    if let Some(a) = align { desc.set_align(a) }
    m.define_data(id, &desc).map(|()| id).map_err(|e| DataFailure::Define(e.to_string()))
}

/// `ObjectModule::finish`: the object with everything declared.
#[verifier::external_body]
fn finish_module(m: ObjectModule) -> ObjectProduct {
    m.finish()
}

/// `Object::write` on the finished object: the object file's bytes, or
/// the text of the writer's error.
#[verifier::external_body]
fn write_object(p: ObjectProduct) -> Result<Vec<u8>, String> {
    p.object.write().map_err(|e| e.to_string())
}

/// The message for a target without an object module.
pub open spec fn setup_error_text(target: Seq<char>, e: ModuleSetupError) -> Seq<char> {
    match e {
        ModuleSetupError::Unsupported => "Unsupported target: "@ + target,
        ModuleSetupError::Isa(t) => "Failed to create ISA: "@ + t@,
        ModuleSetupError::Builder(t) => "Failed to create object builder: "@ + t@,
    }
}

/// The message of a setup error for a target.
pub fn setup_error_message(target: &str, e: ModuleSetupError) -> (msg: String)
    ensures
        msg@ == setup_error_text(target@, e),
{
    match e {
        ModuleSetupError::Unsupported => concat("Unsupported target: ", target),
        ModuleSetupError::Isa(t) => concat("Failed to create ISA: ", t.as_str()),
        ModuleSetupError::Builder(t) => concat("Failed to create object builder: ", t.as_str()),
    }
}

/// An empty object module for a target with the given code generator
/// flags; the module is named by 32 bytes of value 1. A target or flags
/// the code generator refuses give `setup_error_text` of the target's
/// text. A new module has declared nothing.
pub fn create_object_module(target: &TargetSpec, flags: settings::Flags) -> (r: Result<ObjectModule, String>)
    ensures
        r matches Ok(m) ==> module_names(m).dom() == Set::<Seq<char>>::empty()
            && module_functions(m).dom() == Set::<Seq<char>>::empty()
            && module_data(m).dom() == Set::<Seq<char>>::empty(),
        r matches Err(msg) ==> exists|e: ModuleSetupError| msg@ == setup_error_text(target.text@, e),
{
    let mut name: Vec<u8> = Vec::new();
    let mut i: usize = 0;
    while i < 32
        invariant
            i <= 32,
        decreases 32 - i,
    {
        name.push(1u8);
        i = i + 1;
    }
    match object_builder(&target.triple, flags, name) {
        Ok(b) => Ok(new_object_module(b)),
        Err(e) => {
            let msg = setup_error_message(target.text.as_str(), e);
            assert(msg@ == setup_error_text(target.text@, e));
            Err(msg)
        },
    }
}

/// A signature with a calling convention, parameter lanes and one result
/// lane.
fn build_signature(conv: CallConv, params: &Vec<ClifType>, ret: ClifType) -> (sig: Signature)
    ensures
        signature_conv(sig) == conv,
        signature_params(sig) == params@,
        signature_returns(sig) == seq![ret],
{
    let mut sig = new_signature(conv);
    let mut i: usize = 0;
    while i < params.len()
        invariant
            i <= params@.len(),
            signature_conv(sig) == conv,
            signature_params(sig) == params@.subrange(0, i as int),
            signature_returns(sig) == Seq::<ClifType>::empty(),
        decreases params.len() - i,
    {
        assert(params@.subrange(0, i + 1) =~= params@.subrange(0, i as int).push(params@[i as int]));
        push_abi_param(&mut sig, params[i], false);
        i = i + 1;
    }
    assert(params@.subrange(0, i as int) =~= params@);
    push_abi_param(&mut sig, ret, true);
    assert(signature_returns(sig) =~= seq![ret]);
    sig
}

/// A function of the runtime that compiled code imports: its name, its
/// parameter lanes, its result lane, and whether compilation fails when it
/// cannot be declared.
#[derive(Debug, Clone)]
pub struct RuntimeImport {
    pub name: String,
    pub params: Vec<ClifType>,
    pub ret: ClifType,
    pub required: bool,
}

/// Plain view of a runtime import.
pub open spec fn import_view(f: RuntimeImport) -> (Seq<char>, Seq<ClifType>, ClifType, bool) {
    (f.name@, f.params@, f.ret, f.required)
}

/// The runtime's imported functions, in order of declaration: the C
/// functions for printing and memory, which must be declared, then the
/// heap guard and the reference-counting functions, which may be missing.
pub open spec fn runtime_import_table() -> Seq<(Seq<char>, Seq<ClifType>, ClifType, bool)> {
    seq![
        ("printf"@, seq![ClifType::I64, ClifType::I64], ClifType::I32, true),
        ("puts"@, seq![ClifType::I64], ClifType::I32, true),
        ("malloc"@, seq![ClifType::I64], ClifType::I64, true),
        ("memcpy"@, seq![ClifType::I64, ClifType::I64, ClifType::I64], ClifType::I64, true),
        ("free"@, seq![ClifType::I64], ClifType::I64, true),
        ("adesh_rt_assert_heap_allowed"@, Seq::empty(), ClifType::I32, false),
        ("adesh_rt_arc_new"@, seq![ClifType::I64], ClifType::I64, false),
        ("adesh_rt_arc_clone"@, seq![ClifType::I64], ClifType::I64, false),
        ("adesh_rt_arc_drop"@, seq![ClifType::I64], ClifType::I64, false),
        ("adesh_rt_weak_new"@, seq![ClifType::I64], ClifType::I64, false),
        ("adesh_rt_weak_drop"@, seq![ClifType::I64], ClifType::I64, false),
        ("adesh_rt_arc_get"@, seq![ClifType::I64], ClifType::I64, false),
        ("adesh_rt_arc_set"@, seq![ClifType::I64, ClifType::I64], ClifType::I64, false),
        ("adesh_rt_arc_strong_count"@, seq![ClifType::I64], ClifType::I64, false),
        ("adesh_rt_arc_weak_count"@, seq![ClifType::I64], ClifType::I64, false),
    ]
}

fn import(name: &str, params: Vec<ClifType>, ret: ClifType, required: bool) -> (f: RuntimeImport)
    ensures
        import_view(f) == (name@, params@, ret, required),
{
    RuntimeImport { name: owned(name), params, ret, required }
}

/// `n` 64-bit lanes.
fn i64_lanes(n: usize) -> (v: Vec<ClifType>)
    ensures
        v@.len() == n,
        forall|i: int| 0 <= i < n ==> v@[i] == ClifType::I64,
{
    let mut v: Vec<ClifType> = Vec::new();
    let mut i: usize = 0;
    while i < n
        invariant
            i <= n,
            v@.len() == i,
            forall|j: int| 0 <= j < i ==> v@[j] == ClifType::I64,
        decreases n - i,
    {
        v.push(ClifType::I64);
        i = i + 1;
    }
    v
}

/// The runtime's imported functions (see `runtime_import_table`).
pub fn runtime_imports() -> (v: Vec<RuntimeImport>)
    ensures
        v@.map_values(|f: RuntimeImport| import_view(f)) == runtime_import_table(),
{
    let mut v: Vec<RuntimeImport> = Vec::new();
    v.push(import("printf", i64_lanes(2), ClifType::I32, true));
    v.push(import("puts", i64_lanes(1), ClifType::I32, true));
    v.push(import("malloc", i64_lanes(1), ClifType::I64, true));
    v.push(import("memcpy", i64_lanes(3), ClifType::I64, true));
    v.push(import("free", i64_lanes(1), ClifType::I64, true));
    v.push(import("adesh_rt_assert_heap_allowed", i64_lanes(0), ClifType::I32, false));
    v.push(import("adesh_rt_arc_new", i64_lanes(1), ClifType::I64, false));
    v.push(import("adesh_rt_arc_clone", i64_lanes(1), ClifType::I64, false));
    v.push(import("adesh_rt_arc_drop", i64_lanes(1), ClifType::I64, false));
    v.push(import("adesh_rt_weak_new", i64_lanes(1), ClifType::I64, false));
    v.push(import("adesh_rt_weak_drop", i64_lanes(1), ClifType::I64, false));
    v.push(import("adesh_rt_arc_get", i64_lanes(1), ClifType::I64, false));
    v.push(import("adesh_rt_arc_set", i64_lanes(2), ClifType::I64, false));
    v.push(import("adesh_rt_arc_strong_count", i64_lanes(1), ClifType::I64, false));
    v.push(import("adesh_rt_arc_weak_count", i64_lanes(1), ClifType::I64, false));
    proof {
        assert(v@[0].params@ =~= runtime_import_table()[0].1);
        assert(v@[1].params@ =~= runtime_import_table()[1].1);
        assert(v@[2].params@ =~= runtime_import_table()[2].1);
        assert(v@[3].params@ =~= runtime_import_table()[3].1);
        assert(v@[4].params@ =~= runtime_import_table()[4].1);
        assert(v@[5].params@ =~= runtime_import_table()[5].1);
        assert(v@[6].params@ =~= runtime_import_table()[6].1);
        assert(v@[7].params@ =~= runtime_import_table()[7].1);
        assert(v@[8].params@ =~= runtime_import_table()[8].1);
        assert(v@[9].params@ =~= runtime_import_table()[9].1);
        assert(v@[10].params@ =~= runtime_import_table()[10].1);
        assert(v@[11].params@ =~= runtime_import_table()[11].1);
        assert(v@[12].params@ =~= runtime_import_table()[12].1);
        assert(v@[13].params@ =~= runtime_import_table()[13].1);
        assert(v@[14].params@ =~= runtime_import_table()[14].1);
    }
    assert(v@.map_values(|f: RuntimeImport| import_view(f)) =~= runtime_import_table());
    v
}

/// The runtime's writable globals: their names, sizes in zero bytes,
/// alignments (none for the default) and what names them in errors. The
/// array buffer is zero-initialised; the others hold zero bytes.
pub open spec fn runtime_global_table() -> Seq<(Seq<char>, usize, Option<u64>, Seq<char>)> {
    seq![
        ("__array_buffer"@, 65536usize, Some(16u64), "array buffer"@),
        ("__array_offset"@, 8usize, Some(8u64), "array offset"@),
        ("__argc"@, 4usize, None, "argc global"@),
        ("__argv"@, 8usize, None, "argv global"@),
    ]
}

/// The names of the runtime's imported functions, in order.
pub open spec fn runtime_import_names() -> Seq<Seq<char>> {
    runtime_import_table().map_values(|t: (Seq<char>, Seq<ClifType>, ClifType, bool)| t.0)
}

/// The names of the runtime's globals, in order.
pub open spec fn runtime_global_names() -> Seq<Seq<char>> {
    runtime_global_table().map_values(|g: (Seq<char>, usize, Option<u64>, Seq<char>)| g.0)
}

/// The position of a runtime name among `runtime_import_names()` followed
/// by `runtime_global_names()`, told apart by length and a few characters.
spec fn runtime_name_index(s: Seq<char>) -> int {
    if s.len() == 4 {
        if s[0] == 'p' { 1 } else { 4 }
    } else if s.len() == 6 {
        if s[0] == 'p' { 0 } else if s[1] == 'a' { 2 } else if s[0] == 'm' { 3 } else if s[5] == 'c' { 17 } else { 18 }
    } else if s.len() == 28 {
        5
    } else if s.len() == 16 {
        if s[13] == 'n' { 6 } else if s[13] == 'g' { 11 } else { 12 }
    } else if s.len() == 18 {
        if s[9] == 'a' { 7 } else { 10 }
    } else if s.len() == 17 {
        if s[9] == 'a' { 8 } else { 9 }
    } else if s.len() == 25 {
        13
    } else if s.len() == 23 {
        14
    } else if s[8] == 'b' {
        15
    } else {
        16
    }
}

/// The runtime's names are pairwise distinct and free of NUL characters.
proof fn lemma_runtime_names_distinct()
    ensures
        (runtime_import_names() + runtime_global_names()).no_duplicates(),
        forall|k: Seq<char>| #[trigger] (runtime_import_names() + runtime_global_names()).contains(k) ==> !k.contains('\0'),
{
    reveal_strlit("printf");
    reveal_strlit("puts");
    reveal_strlit("malloc");
    reveal_strlit("memcpy");
    reveal_strlit("free");
    reveal_strlit("adesh_rt_assert_heap_allowed");
    reveal_strlit("adesh_rt_arc_new");
    reveal_strlit("adesh_rt_arc_clone");
    reveal_strlit("adesh_rt_arc_drop");
    reveal_strlit("adesh_rt_weak_new");
    reveal_strlit("adesh_rt_weak_drop");
    reveal_strlit("adesh_rt_arc_get");
    reveal_strlit("adesh_rt_arc_set");
    reveal_strlit("adesh_rt_arc_strong_count");
    reveal_strlit("adesh_rt_arc_weak_count");
    reveal_strlit("__array_buffer");
    reveal_strlit("__array_offset");
    reveal_strlit("__argc");
    reveal_strlit("__argv");
    let all = runtime_import_names() + runtime_global_names();
    let lit = seq![
        "printf"@, "puts"@, "malloc"@, "memcpy"@, "free"@, "adesh_rt_assert_heap_allowed"@,
        "adesh_rt_arc_new"@, "adesh_rt_arc_clone"@, "adesh_rt_arc_drop"@, "adesh_rt_weak_new"@,
        "adesh_rt_weak_drop"@, "adesh_rt_arc_get"@, "adesh_rt_arc_set"@,
        "adesh_rt_arc_strong_count"@, "adesh_rt_arc_weak_count"@, "__array_buffer"@,
        "__array_offset"@, "__argc"@, "__argv"@,
    ];
    assert(all =~= lit);
    assert forall|i: int| 0 <= i < all.len() implies runtime_name_index(#[trigger] all[i]) == i by {
        if i == 0 { assert(all[0] == "printf"@); }
        else if i == 1 { assert(all[1] == "puts"@); }
        else if i == 2 { assert(all[2] == "malloc"@); }
        else if i == 3 { assert(all[3] == "memcpy"@); }
        else if i == 4 { assert(all[4] == "free"@); }
        else if i == 5 { assert(all[5] == "adesh_rt_assert_heap_allowed"@); }
        else if i == 6 { assert(all[6] == "adesh_rt_arc_new"@); }
        else if i == 7 { assert(all[7] == "adesh_rt_arc_clone"@); }
        else if i == 8 { assert(all[8] == "adesh_rt_arc_drop"@); }
        else if i == 9 { assert(all[9] == "adesh_rt_weak_new"@); }
        else if i == 10 { assert(all[10] == "adesh_rt_weak_drop"@); }
        else if i == 11 { assert(all[11] == "adesh_rt_arc_get"@); }
        else if i == 12 { assert(all[12] == "adesh_rt_arc_set"@); }
        else if i == 13 { assert(all[13] == "adesh_rt_arc_strong_count"@); }
        else if i == 14 { assert(all[14] == "adesh_rt_arc_weak_count"@); }
        else if i == 15 { assert(all[15] == "__array_buffer"@); }
        else if i == 16 { assert(all[16] == "__array_offset"@); }
        else if i == 17 { assert(all[17] == "__argc"@); }
        else { assert(all[18] == "__argv"@); }
    }
    assert forall|i: int, j: int| 0 <= i < all.len() && 0 <= j < all.len() && i != j implies all[i] != all[j] by {
        assert(runtime_name_index(all[i]) == i);
        assert(runtime_name_index(all[j]) == j);
    }
}

/// What the runtime's declarations gave: the required functions, the heap
/// guard when it could be declared, and the globals.
pub struct RuntimeDecls {
    pub printf_func: FuncId,
    pub puts_func: FuncId,
    pub malloc_func: FuncId,
    pub memcpy_func: FuncId,
    pub free_func: FuncId,
    pub heap_guard_func: Option<FuncId>,
    pub array_buffer: DataId,
    pub array_offset: DataId,
    pub argc_global: DataId,
    pub argv_global: DataId,
}

/// The message when declaring something fails.
pub open spec fn declare_error(what: Seq<char>, reason: Seq<char>) -> Seq<char> {
    "Failed to declare "@ + what + ": "@ + reason
}

/// The message when defining something fails.
pub open spec fn define_error(what: Seq<char>, reason: Seq<char>) -> Seq<char> {
    "Failed to define "@ + what + ": "@ + reason
}

/// Zero bytes.
fn zeros(n: usize) -> (v: Vec<u8>)
    ensures
        v@.len() == n,
        forall|i: int| 0 <= i < n ==> v@[i] == 0,
{
    let mut v: Vec<u8> = Vec::new();
    let mut i: usize = 0;
    while i < n
        invariant
            i <= n,
            v@.len() == i,
            forall|j: int| 0 <= j < i ==> v@[j] == 0,
        decreases n - i,
    {
        v.push(0);
        i = i + 1;
    }
    v
}

/// `n` zero bytes.
pub open spec fn zero_bytes(n: nat) -> Seq<u8> {
    Seq::new(n, |i: int| 0u8)
}

/// The message of a failed data object, named by `what`.
pub open spec fn failure_message(what: Seq<char>, f: DataFailure) -> Seq<char> {
    match f {
        DataFailure::Declare(e) => declare_error(what, e@),
        DataFailure::Define(e) => define_error(what, e@),
    }
}

/// The outside error's text of a failed data object.
pub open spec fn failure_reason(f: DataFailure) -> Seq<char> {
    match f {
        DataFailure::Declare(e) => e@,
        DataFailure::Define(e) => e@,
    }
}

fn data_failure_message(what: &str, f: DataFailure) -> (msg: String)
    ensures
        msg@ == failure_message(what@, f),
{
    match f {
        DataFailure::Declare(e) => {
            let msg = concat3("Failed to declare ", what, ": ");
            concat(msg.as_str(), e.as_str())
        },
        DataFailure::Define(e) => {
            let msg = concat3("Failed to define ", what, ": ");
            concat(msg.as_str(), e.as_str())
        },
    }
}

/// Declares and defines one writable global filled as `init` says; errors
/// name it by `what`. On success the module names a data object `name`
/// holding those bytes with that alignment; a name the module has not
/// declared, without a NUL character, always succeeds.
fn declare_global(m: &mut ObjectModule, name: &str, init: DataInit, align: Option<u64>, what: &str) -> (r: Result<DataId, String>)
    requires
        align matches Some(a) ==> is_power_of_two(a),
    ensures
        r is Ok ==> module_names(*final(m)) == module_names(*old(m)).insert(name@, false),
        r is Ok ==> module_data(*final(m)) == module_data(*old(m)).insert(name@, (init_bytes(init), align)),
        module_functions(*final(m)) == module_functions(*old(m)),
        r matches Err(msg) ==> exists|reason: Seq<char>|
            msg@ == declare_error(what@, reason) || msg@ == define_error(what@, reason),
        !module_names(*old(m)).dom().contains(name@) && !name@.contains('\0') ==> r is Ok,
{
    match module_data_object(m, name, true, init, align) {
        Ok(id) => Ok(id),
        Err(f) => {
            let ghost reason = failure_reason(f);
            let msg = data_failure_message(what, f);
            assert(msg@ == declare_error(what@, reason) || msg@ == define_error(what@, reason));
            Err(msg)
        },
    }
}

/// A module's names after the runtime's declarations: every runtime
/// import names a function and every runtime global a data object, over
/// the names the module had.
pub open spec fn with_runtime_names(names: Map<Seq<char>, bool>) -> Map<Seq<char>, bool> {
    names.union_prefer_right(
        Map::new(|k: Seq<char>| runtime_import_names().contains(k), |k: Seq<char>| true),
    ).union_prefer_right(
        Map::new(|k: Seq<char>| runtime_global_names().contains(k), |k: Seq<char>| false),
    )
}

/// None of the runtime's names is among a module's names.
pub open spec fn runtime_names_free(names: Map<Seq<char>, bool>) -> bool {
    forall|k: Seq<char>| #[trigger]
        names.dom().contains(k) ==> !runtime_import_names().contains(k)
            && !runtime_global_names().contains(k)
}

/// The signature a runtime import is declared with: the calling
/// convention, its parameter lanes and its one result lane.
pub open spec fn import_signature(conv: CallConv, i: int) -> (CallConv, Seq<ClifType>, Seq<ClifType>) {
    (conv, runtime_import_table()[i].1, seq![runtime_import_table()[i].2])
}

/// What a runtime global holds: its size in zero bytes and its alignment.
pub open spec fn global_data(j: int) -> (Seq<u8>, Option<u64>) {
    (zero_bytes(runtime_global_table()[j].1 as nat), runtime_global_table()[j].2)
}

/// Declare the runtime functions that the compiled code will call, in the
/// order of `runtime_import_table`, with the given calling convention and
/// import linkage, then the writable globals of `runtime_global_table`.
/// A required function or a global that cannot be declared or defined
/// stops with `declare_error` or `define_error` of its name; the others
/// are skipped when refused. On success every required function is
/// declared with its signature and every global is defined with its
/// zero bytes and alignment. In a module that holds none of the runtime's
/// names every declaration is accepted: it succeeds, the module then names
/// exactly what `with_runtime_names` adds, every import is declared with
/// its signature, and the heap guard is there.
pub fn declare_runtime_functions(m: &mut ObjectModule, conv: CallConv) -> (r: Result<RuntimeDecls, String>)
    ensures
        r matches Err(msg) ==> {
            ||| exists|i: int, reason: Seq<char>|
                0 <= i < runtime_import_table().len() && runtime_import_table()[i].3 && msg@
                    == #[trigger] declare_error(runtime_import_table()[i].0, reason)
            ||| exists|i: int, reason: Seq<char>|
                #![trigger declare_error(runtime_global_table()[i].3, reason)]
                #![trigger define_error(runtime_global_table()[i].3, reason)]
                0 <= i < runtime_global_table().len() && (msg@ == declare_error(
                    runtime_global_table()[i].3,
                    reason,
                ) || msg@ == define_error(runtime_global_table()[i].3, reason))
        },
        r is Ok ==> forall|i: int|
            0 <= i < runtime_import_table().len() && (#[trigger] runtime_import_table()[i]).3
                ==> module_names(*final(m)).dom().contains(runtime_import_table()[i].0)
                && module_names(*final(m))[runtime_import_table()[i].0]
                && module_functions(*final(m)).dom().contains(runtime_import_table()[i].0)
                && module_functions(*final(m))[runtime_import_table()[i].0] == import_signature(conv, i),
        r is Ok ==> forall|j: int|
            0 <= j < runtime_global_table().len() ==> module_names(*final(m)).dom().contains(
                (#[trigger] runtime_global_table()[j]).0,
            ) && !module_names(*final(m))[runtime_global_table()[j].0]
                && module_data(*final(m)).dom().contains(runtime_global_table()[j].0)
                && module_data(*final(m))[runtime_global_table()[j].0] == global_data(j),
        runtime_names_free(module_names(*old(m))) ==> r is Ok,
        runtime_names_free(module_names(*old(m))) ==> (r matches Ok(d) ==> module_names(*final(m))
            == with_runtime_names(module_names(*old(m))) && d.heap_guard_func is Some),
        runtime_names_free(module_names(*old(m))) ==> forall|i: int|
            0 <= i < runtime_import_table().len() ==> module_functions(*final(m)).dom().contains(
                (#[trigger] runtime_import_table()[i]).0,
            ) && module_functions(*final(m))[runtime_import_table()[i].0] == import_signature(conv, i),
{
    let imports = runtime_imports();
    let ghost table = runtime_import_table();
    let ghost inames = runtime_import_names();
    let ghost gnames = runtime_global_names();
    let ghost all = inames + gnames;
    let ghost names0 = module_names(*m);
    let ghost fresh = runtime_names_free(names0);
    proof {
        lemma_runtime_names_distinct();
        assert(forall|k: int| 0 <= k < inames.len() ==> all[k] == #[trigger] inames[k]);
        assert(forall|k: int| 0 <= k < gnames.len() ==> all[inames.len() + k] == #[trigger] gnames[k]);
    }
    assert(imports@.len() == table.len());
    assert(table.len() == 15);
    let mut ids: Vec<FuncId> = Vec::new();
    let mut heap_guard: Option<FuncId> = None;
    let mut i: usize = 0;
    while i < imports.len()
        invariant
            i <= imports@.len(),
            imports@.map_values(|f: RuntimeImport| import_view(f)) == table,
            table == runtime_import_table(),
            inames == runtime_import_names(),
            gnames == runtime_global_names(),
            all == inames + gnames,
            all.no_duplicates(),
            forall|k: Seq<char>| #[trigger] all.contains(k) ==> !k.contains('\0'),
            forall|k: int| 0 <= k < inames.len() ==> all[k] == #[trigger] inames[k],
            imports@.len() == table.len(),
            ids@.len() == (if i <= 5 { i as int } else { 5 }),
            fresh == runtime_names_free(names0),
            names0 == module_names(*old(m)),
            module_data(*m) == module_data(*old(m)),
            forall|k: int|
                0 <= k < i && (#[trigger] table[k]).3 ==> module_names(*m).dom().contains(table[k].0)
                    && module_names(*m)[table[k].0],
            forall|k: int|
                0 <= k < i && ((#[trigger] table[k]).3 || fresh) ==> module_functions(*m).dom().contains(table[k].0)
                    && module_functions(*m)[table[k].0] == import_signature(conv, k),
            fresh ==> module_names(*m) == names0.union_prefer_right(
                Map::new(|k: Seq<char>| inames.subrange(0, i as int).contains(k), |k: Seq<char>| true),
            ),
            fresh && i > 5 ==> heap_guard is Some,
        decreases imports.len() - i,
    {
        let f = &imports[i];
        assert(import_view(*f) == table[i as int]);
        assert(inames[i as int] == table[i as int].0);
        let ghost before = module_names(*m);
        let ghost funcs_before = module_functions(*m);
        let sig = build_signature(conv, &f.params, f.ret);
        proof {
            assert forall|k: int| 0 <= k < i implies #[trigger] table[k].0 != table[i as int].0 by {
                assert(inames[k] == table[k].0);
                assert(all[k] != all[i as int]);
            }
            if fresh {
                let name = inames[i as int];
                assert(all.contains(name)) by { assert(all[i as int] == name); }
                assert(!names0.dom().contains(name)) by {
                    assert(inames.contains(name)) by { assert(inames[i as int] == name); }
                }
                assert(!inames.subrange(0, i as int).contains(name)) by {
                    if inames.subrange(0, i as int).contains(name) {
                        let k = choose|k: int| 0 <= k < i && inames.subrange(0, i as int)[k] == name;
                        assert(all[k] == all[i as int]);
                    }
                }
                assert(!before.dom().contains(name));
                assert(!name.contains('\0'));
                assert(f.name@ == name);
            }
        }
        match module_declare_function(m, f.name.as_str(), FuncLinkage::Import, &sig) {
            Ok(id) => {
                assert(module_functions(*m)[table[i as int].0] == import_signature(conv, i as int));
                if i < 5 {
                    ids.push(id);
                } else if i == 5 {
                    heap_guard = Some(id);
                }
            },
            Err(e) => {
                if f.required {
                    let msg = concat3("Failed to declare ", f.name.as_str(), ": ");
                    let msg = concat(msg.as_str(), e.as_str());
                    assert(msg@ == declare_error(table[i as int].0, e@));
                    return Err(msg);
                }
            },
        }
        proof {
            if fresh {
                let pre = inames.subrange(0, i as int);
                let post = inames.subrange(0, i + 1);
                assert(post =~= pre.push(inames[i as int]));
                assert forall|k: Seq<char>| post.contains(k) <==> (pre.contains(k) || k == inames[i as int]) by {
                    if post.contains(k) {
                        let j = choose|j: int| 0 <= j < post.len() && #[trigger] post[j] == k;
                        if j < pre.len() {
                            assert(pre[j] == k);
                        }
                    }
                    if pre.contains(k) {
                        let j = choose|j: int| 0 <= j < pre.len() && #[trigger] pre[j] == k;
                        assert(post[j] == k);
                    }
                    if k == inames[i as int] {
                        assert(post[pre.len() as int] == k);
                    }
                }
                assert(module_names(*m) =~= names0.union_prefer_right(
                    Map::new(|k: Seq<char>| post.contains(k), |k: Seq<char>| true),
                ));
            }
        }
        i = i + 1;
    }
    let ghost after_imports = module_names(*m);
    let ghost funcs_after = module_functions(*m);
    proof {
        assert(inames.subrange(0, 15) =~= inames);
        reveal_strlit("array buffer");
        reveal_strlit("array offset");
        reveal_strlit("argc global");
        reveal_strlit("argv global");
    }
    let ghost globals = runtime_global_table();
    assert(gnames[0] == "__array_buffer"@);
    assert(gnames[1] == "__array_offset"@);
    assert(gnames[2] == "__argc"@);
    assert(gnames[3] == "__argv"@);
    assert(all[15] == gnames[0] && all[16] == gnames[1] && all[17] == gnames[2] && all[18] == gnames[3]);
    assert(gnames[0] != gnames[1] && gnames[0] != gnames[2] && gnames[0] != gnames[3] && gnames[1] != gnames[2]
        && gnames[1] != gnames[3] && gnames[2] != gnames[3]) by {
        assert(all[15] != all[16] && all[15] != all[17] && all[15] != all[18] && all[16] != all[17]
            && all[16] != all[18] && all[17] != all[18]);
    }
    proof {
        assert forall|k: int| 0 <= k < 15 implies #[trigger] inames[k] != gnames[0] && inames[k] != gnames[1]
            && inames[k] != gnames[2] && inames[k] != gnames[3] by {
            assert(all[k] == inames[k]);
        }
        assert(all.contains(gnames[0]) && all.contains(gnames[1]) && all.contains(gnames[2]) && all.contains(gnames[3]));
        if fresh {
            assert(!inames.contains(gnames[0]) && !inames.contains(gnames[1]) && !inames.contains(gnames[2])
                && !inames.contains(gnames[3])) by {
                if inames.contains(gnames[0]) || inames.contains(gnames[1]) || inames.contains(gnames[2]) || inames.contains(gnames[3]) {
                    let k = choose|k: int| 0 <= k < inames.len() && (inames[k] == gnames[0] || inames[k] == gnames[1] || inames[k] == gnames[2] || inames[k] == gnames[3]);
                    assert(inames[k] != gnames[0]);
                }
            }
            assert(gnames.contains(gnames[0]) && gnames.contains(gnames[1]) && gnames.contains(gnames[2]) && gnames.contains(gnames[3]));
        }
    }
    assert(is_power_of_two(16)) by (bit_vector);
    assert(is_power_of_two(8)) by (bit_vector);
    let z8a = zeros(8);
    assert(z8a@ =~= zero_bytes(8));
    let array_buffer = match declare_global(m, "__array_buffer", DataInit::Zeros(65536), Some(16), "array buffer") {
        Ok(id) => id,
        Err(msg) => {
            assert(globals[0].3 == "array buffer"@);
            return Err(msg);
        },
    };
    let array_offset = match declare_global(m, "__array_offset", DataInit::Bytes(z8a), Some(8), "array offset") {
        Ok(id) => id,
        Err(msg) => {
            assert(globals[1].3 == "array offset"@);
            return Err(msg);
        },
    };
    let z4 = zeros(4);
    assert(z4@ =~= zero_bytes(4));
    let argc_global = match declare_global(m, "__argc", DataInit::Bytes(z4), None, "argc global") {
        Ok(id) => id,
        Err(msg) => {
            assert(globals[2].3 == "argc global"@);
            return Err(msg);
        },
    };
    let z8b = zeros(8);
    assert(z8b@ =~= zero_bytes(8));
    let argv_global = match declare_global(m, "__argv", DataInit::Bytes(z8b), None, "argv global") {
        Ok(id) => id,
        Err(msg) => {
            assert(globals[3].3 == "argv global"@);
            return Err(msg);
        },
    };
    proof {
        assert(module_names(*m) == after_imports.insert(gnames[0], false).insert(gnames[1], false).insert(
            gnames[2],
            false,
        ).insert(gnames[3], false));
        assert(module_functions(*m) == funcs_after);
        assert(zero_bytes(65536) =~= Seq::new(65536nat, |i: int| 0u8));
        assert forall|j: int| 0 <= j < 4 implies module_data(*m).dom().contains((#[trigger] globals[j]).0)
            && module_data(*m)[globals[j].0] == global_data(j) by {
            assert(globals[j].0 == gnames[j]);
        }
        assert forall|k: int| 0 <= k < 15 && (#[trigger] table[k]).3 implies module_names(*m).dom().contains(
            table[k].0,
        ) && module_names(*m)[table[k].0] by {
            assert(table[k].0 == inames[k]);
            assert(inames[k] != gnames[0] && inames[k] != gnames[1] && inames[k] != gnames[2]
                && inames[k] != gnames[3]);
        }
        if fresh {
            assert(gnames =~= seq![gnames[0], gnames[1], gnames[2], gnames[3]]);
            assert(module_names(*m) =~= with_runtime_names(names0));
        }
    }
    Ok(RuntimeDecls {
        printf_func: ids[0],
        puts_func: ids[1],
        malloc_func: ids[2],
        memcpy_func: ids[3],
        free_func: ids[4],
        heap_guard_func: heap_guard,
        array_buffer,
        array_offset,
        argc_global,
        argv_global,
    })
}

/// The strings placed in a module's data section, each with its data
/// object, in the order they were placed.
pub struct StringTable {
    entries: Vec<(String, DataId)>,
}

impl StringTable {
    /// The strings held, in order.
    pub closed spec fn keys(&self) -> Seq<Seq<char>> {
        self.entries@.map_values(|e: (String, DataId)| e.0@)
    }

    /// The data object of each string held, in the same order.
    pub closed spec fn ids(&self) -> Seq<DataId> {
        self.entries@.map_values(|e: (String, DataId)| e.1)
    }

    /// Every string held has its data object.
    pub proof fn lemma_ids_len(&self)
        ensures
            self.ids().len() == self.keys().len(),
    {
    }

    /// An empty table.
    pub fn new() -> (t: StringTable)
        ensures
            t.keys() == Seq::<Seq<char>>::empty(),
            t.ids() == Seq::<DataId>::empty(),
    {
        let t = StringTable { entries: Vec::new() };
        assert(t.keys() =~= Seq::<Seq<char>>::empty());
        assert(t.ids() =~= Seq::<DataId>::empty());
        t
    }

    /// The number of strings held.
    pub fn len(&self) -> (n: usize)
        ensures
            n == self.keys().len(),
            n == self.ids().len(),
    {
        self.entries.len()
    }

    /// The data object of `s`, when the table holds it: that of its first
    /// occurrence.
    pub fn get(&self, s: &str) -> (r: Option<DataId>)
        ensures
            r is Some <==> self.keys().contains(s@),
            r matches Some(id) ==> exists|j: int|
                0 <= j < self.keys().len() && self.keys()[j] == s@ && self.ids()[j] == id && forall|k: int|
                    0 <= k < j ==> #[trigger] self.keys()[k] != s@,
    {
        let mut i: usize = 0;
        while i < self.entries.len()
            invariant
                i <= self.entries@.len(),
                forall|j: int| 0 <= j < i ==> self.keys()[j] != s@,
            decreases self.entries.len() - i,
        {
            if crate::strs::str_eq(self.entries[i].0.as_str(), s) {
                assert(self.keys()[i as int] == s@);
                assert(self.ids()[i as int] == self.entries@[i as int].1);
                return Some(self.entries[i].1);
            }
            i = i + 1;
        }
        None
    }

    /// The data object of the string at `i`, in the order they were placed.
    pub fn id_at(&self, i: usize) -> (r: Option<DataId>)
        ensures
            r is Some <==> i < self.ids().len(),
            r matches Some(id) ==> id == self.ids()[i as int],
    {
        if i < self.entries.len() {
            Some(self.entries[i].1)
        } else {
            None
        }
    }

    /// Whether the table holds `s`.
    pub fn contains(&self, s: &str) -> (b: bool)
        ensures
            b == self.keys().contains(s@),
    {
        self.get(s).is_some()
    }

    /// The strings held, as owned copies, in order.
    pub fn key_list(&self) -> (v: Vec<String>)
        ensures
            strings_view(v@) == self.keys(),
    {
        let mut v: Vec<String> = Vec::new();
        let mut i: usize = 0;
        while i < self.entries.len()
            invariant
                i <= self.entries@.len(),
                strings_view(v@) == self.keys().subrange(0, i as int),
            decreases self.entries.len() - i,
        {
            let ghost before = v@;
            v.push(owned(self.entries[i].0.as_str()));
            assert(strings_view(v@) =~= strings_view(before).push(self.entries@[i as int].0@));
            assert(self.keys().subrange(0, i + 1) =~= self.keys().subrange(0, i as int).push(
                self.entries@[i as int].0@,
            ));
            i = i + 1;
        }
        assert(self.keys().subrange(0, i as int) =~= self.keys());
        v
    }

    fn push(&mut self, key: &str, id: DataId)
        ensures
            final(self).keys() == old(self).keys().push(key@),
            final(self).ids() == old(self).ids().push(id),
    {
        let ghost before = self.entries@;
        self.entries.push((owned(key), id));
        assert(self.entries@.map_values(|e: (String, DataId)| e.0@) =~= before.map_values(
            |e: (String, DataId)| e.0@,
        ).push(key@));
        assert(self.entries@.map_values(|e: (String, DataId)| e.1) =~= before.map_values(
            |e: (String, DataId)| e.1,
        ).push(id));
    }
}

/// How errors name a string by where it comes from.
pub open spec fn origin_text(o: StringOrigin) -> Seq<char> {
    match o {
        StringOrigin::Module => "string data"@,
        StringOrigin::Format => "format string"@,
        StringOrigin::Runtime => "string"@,
    }
}

fn origin_name(o: StringOrigin) -> (s: &'static str)
    ensures
        s@ == origin_text(o),
{
    match o {
        StringOrigin::Module => "string data",
        StringOrigin::Format => "format string",
        StringOrigin::Runtime => "string",
    }
}

/// Declares and defines the read-only data object of one planned entry,
/// holding its bytes with the default alignment. On success the module
/// names a data object by the entry's name; a name the module has not
/// declared, without a NUL character, always succeeds.
fn place_entry(m: &mut ObjectModule, e: DataEntry) -> (r: Result<DataId, String>)
    ensures
        r is Ok ==> module_names(*final(m)) == module_names(*old(m)).insert(e.name@, false),
        r is Ok ==> module_data(*final(m)) == module_data(*old(m)).insert(e.name@, (e.bytes@, None::<u64>)),
        r is Ok ==> !module_data(*old(m)).dom().contains(e.name@),
        r is Err ==> module_data(*final(m)) == module_data(*old(m)),
        module_functions(*final(m)) == module_functions(*old(m)),
        !module_names(*old(m)).dom().contains(e.name@) && !e.name@.contains('\0') ==> r is Ok,
        r matches Err(msg) ==> exists|reason: Seq<char>|
            msg@ == declare_error(origin_text(e.origin), reason) || msg@ == define_error(
                origin_text(e.origin),
                reason,
            ),
{
    let what = origin_name(e.origin);
    let ghost bytes = e.bytes@;
    match module_data_object(m, e.name.as_str(), false, DataInit::Bytes(e.bytes), None) {
        Ok(id) => Ok(id),
        Err(f) => {
            let ghost reason = failure_reason(f);
            let msg = data_failure_message(what, f);
            assert(msg@ == declare_error(origin_text(e.origin), reason) || msg@ == define_error(origin_text(e.origin), reason));
            Err(msg)
        },
    }
}

/// Whether the data objects of a plan can all be made in a module with
/// these names: their names are pairwise distinct, new to the module and
/// free of NUL characters.
pub open spec fn plan_placeable(
    names: Map<Seq<char>, bool>,
    plan: Seq<(Seq<char>, Seq<char>, StringOrigin)>,
) -> bool {
    &&& forall|i: int, j: int| 0 <= i < j < plan.len() ==> #[trigger] plan[i].1 != #[trigger] plan[j].1
    &&& forall|i: int|
        0 <= i < plan.len() ==> !names.dom().contains(#[trigger] plan[i].1) && !plan[i].1.contains('\0')
}

/// The data objects `create_string_data` plans for a table holding `keys`.
pub open spec fn string_plan(keys: Seq<Seq<char>>, strings: Seq<Seq<char>>, fast_compile: bool) -> Seq<
    (Seq<char>, Seq<char>, StringOrigin),
> {
    plan_from(keys, data_requests(strings, fast_compile)).1
}

/// Create string data in the data section: for the module's strings, the
/// printf formats, the literals printing needs and, unless compiling
/// fast, the style codes and type names, each string the table does not
/// hold yet gets a read-only data object named as `plan_string_data` says,
/// holding the string's bytes without NULs and a NUL terminator. On
/// success the table holds what it held, then the new strings in order;
/// whatever happens, the strings held before keep their data objects. A
/// refusal stops with `declare_error` or `define_error` of how the string
/// is named by its origin; a plan whose names the module can take always
/// succeeds.
pub fn create_string_data(m: &mut ObjectModule, table: &mut StringTable, strings: &Vec<String>, fast_compile: bool) -> (r: Result<(), String>)
    ensures
        r is Ok ==> final(table).keys() == old(table).keys() + string_plan(
            old(table).keys(),
            strings_view(strings@),
            fast_compile,
        ).map_values(|e: (Seq<char>, Seq<char>, StringOrigin)| e.0),
        old(table).ids().len() <= final(table).ids().len(),
        final(table).ids().subrange(0, old(table).ids().len() as int) == old(table).ids(),
        r is Ok ==> forall|k: int|
            0 <= k < string_plan(old(table).keys(), strings_view(strings@), fast_compile).len() ==> {
                let e = #[trigger] string_plan(old(table).keys(), strings_view(strings@), fast_compile)[k];
                &&& module_names(*final(m)).dom().contains(e.1)
                &&& !module_names(*final(m))[e.1]
                &&& module_data(*final(m)).dom().contains(e.1)
                &&& module_data(*final(m))[e.1] == (data_bytes(e.0), None::<u64>)
            },
        module_functions(*final(m)) == module_functions(*old(m)),
        forall|k: Seq<char>| #[trigger] module_data(*old(m)).dom().contains(k) ==> module_data(*final(m)).dom().contains(k)
            && module_data(*final(m))[k] == module_data(*old(m))[k],
        plan_placeable(
            module_names(*old(m)),
            string_plan(old(table).keys(), strings_view(strings@), fast_compile),
        ) ==> r is Ok,
        r matches Err(msg) ==> exists|o: StringOrigin, reason: Seq<char>|
            msg@ == declare_error(origin_text(o), reason) || msg@ == define_error(origin_text(o), reason),
{
    let existing = table.key_list();
    let entries = plan_string_data(&existing, strings, fast_compile);
    let ghost planned = entries@.map_values(|e: DataEntry| entry_view(e));
    let ghost start = table.keys();
    let ghost ids0 = table.ids();
    let ghost names0 = module_names(*m);
    let ghost placeable = plan_placeable(names0, planned);
    proof {
        table.lemma_ids_len();
    }
    let mut rest = entries;
    let ghost all = rest@;
    let n = rest.len();
    let mut i: usize = 0;
    while i < n
        invariant
            n == all.len(),
            i <= n,
            rest@ == all.subrange(i as int, n as int),
            planned == all.map_values(|e: DataEntry| entry_view(e)),
            forall|k: int| 0 <= k < all.len() ==> #[trigger] all[k].bytes@ == data_bytes(all[k].key@),
            table.keys() == start + planned.subrange(0, i as int).map_values(
                |e: (Seq<char>, Seq<char>, StringOrigin)| e.0,
            ),
            table.ids().len() == table.keys().len(),
            ids0.len() == start.len(),
            ids0 == old(table).ids(),
            planned == string_plan(old(table).keys(), strings_view(strings@), fast_compile),
            table.ids().subrange(0, ids0.len() as int) == ids0,
            module_functions(*m) == module_functions(*old(m)),
            forall|k: int| 0 <= k < i ==> {
                let e = #[trigger] planned[k];
                &&& module_names(*m).dom().contains(e.1)
                &&& !module_names(*m)[e.1]
                &&& module_data(*m).dom().contains(e.1)
                &&& module_data(*m)[e.1] == (data_bytes(e.0), None::<u64>)
            },
            placeable == plan_placeable(names0, planned),
            forall|k: Seq<char>| #[trigger] module_data(*old(m)).dom().contains(k) ==> module_data(*m).dom().contains(k)
                && module_data(*m)[k] == module_data(*old(m))[k],
            placeable ==> forall|k: int| i <= k < n ==> !module_names(*m).dom().contains(#[trigger] planned[k].1),
            names0 == module_names(*old(m)),
        decreases n - i,
    {
        let e = rest.remove(0);
        assert(e == all[i as int]);
        assert(planned[i as int] == entry_view(e));
        let key = owned(e.key.as_str());
        let ghost ename = e.name@;
        let ghost ebytes = e.bytes@;
        proof {
            if placeable {
                assert(!module_names(*m).dom().contains(planned[i as int].1));
                assert(!planned[i as int].1.contains('\0'));
            }
        }
        let ghost names_before = module_names(*m);
        let ghost data_before = module_data(*m);
        let id = place_entry(m, e);
        match id {
            Ok(id) => {
                let ghost before = table.keys();
                let ghost ids_before = table.ids();
                table.push(key.as_str(), id);
                proof {
                    assert(planned.subrange(0, i + 1).map_values(
                        |e: (Seq<char>, Seq<char>, StringOrigin)| e.0,
                    ) =~= planned.subrange(0, i as int).map_values(
                        |e: (Seq<char>, Seq<char>, StringOrigin)| e.0,
                    ).push(all[i as int].key@));
                    assert(table.ids().subrange(0, ids0.len() as int) =~= ids_before.subrange(0, ids0.len() as int));
                    assert forall|k: int| 0 <= k < i + 1 implies {
                        let e = #[trigger] planned[k];
                        &&& module_names(*m).dom().contains(e.1)
                        &&& !module_names(*m)[e.1]
                        &&& module_data(*m).dom().contains(e.1)
                        &&& module_data(*m)[e.1] == (data_bytes(e.0), None::<u64>)
                    } by {
                        if k < i {
                            assert(data_before.dom().contains(planned[k].1));
                            assert(planned[k].1 != ename);
                        }
                    }
                    if placeable {
                        assert forall|k: int| i + 1 <= k < n implies !module_names(*m).dom().contains(#[trigger] planned[k].1) by {
                            assert(planned[i as int].1 != planned[k].1);
                        }
                    }
                }
            },
            Err(msg) => {
                return Err(msg);
            },
        }
        i = i + 1;
        assert(rest@ =~= all.subrange(i as int, n as int));
    }
    assert(planned.subrange(0, n as int) =~= planned);
    Ok(())
}

/// Declare a user-defined function with the signature and linkage of
/// `user_function_signature` and the given calling convention; a refusal
/// gives `Failed to declare function <name>: <reason>` and leaves the
/// module's names as they were. On success the module names a function
/// `f.name` with that signature; a name the module has not declared,
/// without a NUL character, is always accepted. Data objects are
/// untouched.
pub fn declare_user_function(m: &mut ObjectModule, f: &LirFunction, conv: CallConv) -> (r: Result<FuncId, String>)
    ensures
        r is Ok ==> module_names(*final(m)) == module_names(*old(m)).insert(f.name@, true),
        r is Ok ==> module_functions(*final(m)) == module_functions(*old(m)).insert(
            f.name@,
            (conv, user_param_lanes(*f), seq![lir_lane(f.ret_type)]),
        ),
        r is Err ==> module_names(*final(m)) == module_names(*old(m)) && module_functions(*final(m))
            == module_functions(*old(m)),
        module_data(*final(m)) == module_data(*old(m)),
        !module_names(*old(m)).dom().contains(f.name@) && !f.name@.contains('\0') ==> r is Ok,
        r matches Err(msg) ==> exists|reason: Seq<char>|
            msg@ == "Failed to declare function "@ + f.name@ + ": "@ + reason,
{
    let us = user_function_signature(f);
    let sig = build_signature(conv, &us.params, us.ret);
    match module_declare_function(m, f.name.as_str(), us.linkage, &sig) {
        Ok(id) => Ok(id),
        Err(e) => {
            let msg = concat3("Failed to declare function ", f.name.as_str(), ": ");
            Err(concat(msg.as_str(), e.as_str()))
        },
    }
}

/// Finish a module and write its object file: the file's bytes, or
/// `Failed to write object: <reason>`.
pub fn emit_object(m: ObjectModule) -> (r: Result<Vec<u8>, String>)
    ensures
        r matches Err(msg) ==> exists|reason: Seq<char>| msg@ == "Failed to write object: "@ + reason,
{
    let product = finish_module(m);
    match write_object(product) {
        Ok(bytes) => Ok(bytes),
        Err(e) => Err(concat("Failed to write object: ", e.as_str())),
    }
}

} // verus!
