//! Generic, language-agnostic ABI descriptions: calling convention,
//! register classes and data layout.

use vstd::prelude::*;
use vstd::string::StringExecFns;
use crate::target::{OsKind, TargetSpec};

verus! {

/// Calling convention of a target.
#[derive(Debug, Clone, Copy, PartialEq, Eq, Structural)]
pub enum CallingConvention {
    /// System V AMD64 ABI (Linux, macOS, BSD)
    SystemV,
    /// Windows x64 calling convention
    Win64,
    /// ARM AAPCS
    ARM,
    /// Custom convention
    Custom,
}

/// Register classification for parameter passing.
#[derive(Debug, Clone, Copy, PartialEq, Eq, Structural)]
pub enum RegisterClass {
    /// Integer/pointer in register
    Integer,
    /// Floating point in register
    SSE,
    /// Passed in memory
    Memory,
    /// No class (empty struct)
    NoClass,
}

/// Data layout of a target. The alignment tables map a size in bytes to
/// an alignment in bytes; a lookup takes the first entry with that size.
#[derive(Debug, Clone)]
pub struct DataLayout {
    /// Pointer size in bytes
    pub pointer_size: usize,
    /// Pointer alignment in bytes
    pub pointer_align: usize,
    /// Integer alignments (size -> alignment)
    pub int_align: Vec<(usize, usize)>,
    /// Float alignments (size -> alignment)
    pub float_align: Vec<(usize, usize)>,
    /// Aggregate alignment
    pub aggregate_align: usize,
    /// Stack alignment
    pub stack_align: usize,
}

/// The alignment recorded for `size` by the first matching entry of
/// `table`, or `default` when no entry has that size.
pub open spec fn table_alignment(table: Seq<(usize, usize)>, size: usize, default: usize) -> usize
    decreases table.len(),
{
    if table.len() == 0 {
        default
    } else if table[0].0 == size {
        table[0].1
    } else {
        table_alignment(table.drop_first(), size, default)
    }
}

/// The integer alignment table shared by the 64-bit layouts: i8, i16,
/// i32 and i64 are aligned to their own size.
pub open spec fn standard_int_table() -> Seq<(usize, usize)> {
    seq![(1usize, 1usize), (2usize, 2usize), (4usize, 4usize), (8usize, 8usize)]
}

/// The float alignment table shared by the 64-bit layouts: f32 and f64
/// are aligned to their own size.
pub open spec fn standard_float_table() -> Seq<(usize, usize)> {
    seq![(4usize, 4usize), (8usize, 8usize)]
}

impl DataLayout {
    /// The 64-bit layout: 8-byte pointers, naturally aligned integers and
    /// floats, 8-byte aggregates and a 16-byte stack.
    pub open spec fn is_standard_64(&self) -> bool {
        &&& self.pointer_size == 8
        &&& self.pointer_align == 8
        &&& self.int_align@ == standard_int_table()
        &&& self.float_align@ == standard_float_table()
        &&& self.aggregate_align == 8
        &&& self.stack_align == 16
    }

    fn standard_64() -> (layout: Self)
        ensures
            layout.is_standard_64(),
    {
        let mut int_align: Vec<(usize, usize)> = Vec::new();
        int_align.push((1, 1));
        int_align.push((2, 2));
        int_align.push((4, 4));
        int_align.push((8, 8));
        let mut float_align: Vec<(usize, usize)> = Vec::new();
        float_align.push((4, 4));
        float_align.push((8, 8));
        assert(int_align@ =~= standard_int_table());
        assert(float_align@ =~= standard_float_table());
        DataLayout {
            pointer_size: 8,
            pointer_align: 8,
            int_align,
            float_align,
            aggregate_align: 8,
            stack_align: 16,
        }
    }

    /// Create System V data layout (64-bit)
    pub fn system_v_64() -> (layout: Self)
        ensures
            layout.is_standard_64(),
    {
        Self::standard_64()
    }

    /// Create Windows x64 data layout
    pub fn win64() -> (layout: Self)
        ensures
            layout.is_standard_64(),
    {
        Self::standard_64()
    }

    /// Get alignment for integer type
    pub fn int_alignment(&self, size: usize) -> (align: usize)
        ensures
            align == table_alignment(self.int_align@, size, self.aggregate_align),
    {
        lookup_alignment(&self.int_align, size, self.aggregate_align)
    }

    /// Get alignment for float type
    pub fn float_alignment(&self, size: usize) -> (align: usize)
        ensures
            align == table_alignment(self.float_align@, size, self.aggregate_align),
    {
        lookup_alignment(&self.float_align, size, self.aggregate_align)
    }
}

fn lookup_alignment(table: &Vec<(usize, usize)>, size: usize, default: usize) -> (align: usize)
    ensures
        align == table_alignment(table@, size, default),
{
    let mut i: usize = 0;
    assert(table@.skip(0) =~= table@);
    while i < table.len()
        invariant
            i <= table.len(),
            table_alignment(table@, size, default) == table_alignment(
                table@.skip(i as int),
                size,
                default,
            ),
        decreases table.len() - i,
    {
        let (s, a) = table[i];
        assert(table@.skip(i as int)[0] == table@[i as int]);
        assert(table@.skip(i as int).drop_first() =~= table@.skip(i + 1));
        if s == size {
            return a;
        }
        i = i + 1;
    }
    assert(table@.skip(i as int).len() == 0);
    default
}

/// The view of a list of register names.
pub open spec fn names_view(names: Seq<String>) -> Seq<Seq<char>> {
    names.map_values(|s: String| s@)
}

/// ABI specification
#[derive(Debug, Clone)]
pub struct Abi {
    /// Calling convention
    pub convention: CallingConvention,
    /// Data layout
    pub layout: DataLayout,
    /// Integer argument registers (System V)
    pub int_arg_regs: Vec<String>,
    /// Float argument registers (System V)
    pub float_arg_regs: Vec<String>,
    /// Return value registers
    pub return_regs: Vec<String>,
}

/// Builds a vector of owned strings from string slices, keeping order.
fn owned_names(names: &[&str]) -> (v: Vec<String>)
    ensures
        names_view(v@) == names@.map_values(|s: &str| s@),
{
    let mut v: Vec<String> = Vec::new();
    let mut i: usize = 0;
    while i < names.len()
        invariant
            i <= names@.len(),
            names_view(v@) =~= names@.subrange(0, i as int).map_values(|s: &str| s@),
        decreases names.len() - i,
    {
        let ghost before = v@;
        let s = String::from_str(names[i]);
        v.push(s);
        assert(v@ =~= before.push(s));
        assert(names_view(v@) =~= names_view(before).push(s@));
        assert(names@.subrange(0, i + 1) =~= names@.subrange(0, i as int).push(names@[i as int]));
        i = i + 1;
    }
    assert(names@.subrange(0, i as int) =~= names@);
    v
}

impl Abi {
    /// System V: six integer argument registers, eight SSE argument
    /// registers and two return registers.
    pub open spec fn is_system_v(&self) -> bool {
        &&& self.convention == CallingConvention::SystemV
        &&& self.layout.is_standard_64()
        &&& names_view(self.int_arg_regs@) == seq!["rdi"@, "rsi"@, "rdx"@, "rcx"@, "r8"@, "r9"@]
        &&& names_view(self.float_arg_regs@) == seq![
            "xmm0"@,
            "xmm1"@,
            "xmm2"@,
            "xmm3"@,
            "xmm4"@,
            "xmm5"@,
            "xmm6"@,
            "xmm7"@,
        ]
        &&& names_view(self.return_regs@) == seq!["rax"@, "rdx"@]
    }

    /// Windows x64: four integer and four SSE argument registers and one
    /// return register.
    pub open spec fn is_win64(&self) -> bool {
        &&& self.convention == CallingConvention::Win64
        &&& self.layout.is_standard_64()
        &&& names_view(self.int_arg_regs@) == seq!["rcx"@, "rdx"@, "r8"@, "r9"@]
        &&& names_view(self.float_arg_regs@) == seq!["xmm0"@, "xmm1"@, "xmm2"@, "xmm3"@]
        &&& names_view(self.return_regs@) == seq!["rax"@]
    }

    /// Create System V ABI
    pub fn system_v() -> (abi: Self)
        ensures
            abi.is_system_v(),
    {
        let int_regs: [&str; 6] = ["rdi", "rsi", "rdx", "rcx", "r8", "r9"];
        let float_regs: [&str; 8] = ["xmm0", "xmm1", "xmm2", "xmm3", "xmm4", "xmm5", "xmm6", "xmm7"];
        let ret_regs: [&str; 2] = ["rax", "rdx"];
        let int_arg_regs = owned_names(int_regs.as_slice());
        let float_arg_regs = owned_names(float_regs.as_slice());
        let return_regs = owned_names(ret_regs.as_slice());
        assert(names_view(int_arg_regs@) =~= seq!["rdi"@, "rsi"@, "rdx"@, "rcx"@, "r8"@, "r9"@]);
        assert(names_view(float_arg_regs@) =~= seq![
            "xmm0"@,
            "xmm1"@,
            "xmm2"@,
            "xmm3"@,
            "xmm4"@,
            "xmm5"@,
            "xmm6"@,
            "xmm7"@,
        ]);
        assert(names_view(return_regs@) =~= seq!["rax"@, "rdx"@]);
        Abi {
            convention: CallingConvention::SystemV,
            layout: DataLayout::system_v_64(),
            int_arg_regs,
            float_arg_regs,
            return_regs,
        }
    }

    /// Create Windows x64 ABI
    pub fn win64() -> (abi: Self)
        ensures
            abi.is_win64(),
    {
        let int_regs: [&str; 4] = ["rcx", "rdx", "r8", "r9"];
        let float_regs: [&str; 4] = ["xmm0", "xmm1", "xmm2", "xmm3"];
        let ret_regs: [&str; 1] = ["rax"];
        let int_arg_regs = owned_names(int_regs.as_slice());
        let float_arg_regs = owned_names(float_regs.as_slice());
        let return_regs = owned_names(ret_regs.as_slice());
        assert(names_view(int_arg_regs@) =~= seq!["rcx"@, "rdx"@, "r8"@, "r9"@]);
        assert(names_view(float_arg_regs@) =~= seq!["xmm0"@, "xmm1"@, "xmm2"@, "xmm3"@]);
        assert(names_view(return_regs@) =~= seq!["rax"@]);
        Abi {
            convention: CallingConvention::Win64,
            layout: DataLayout::win64(),
            int_arg_regs,
            float_arg_regs,
            return_regs,
        }
    }

    /// The ABI of an operating system: Windows x64 on Windows and
    /// System V everywhere else.
    pub fn platform_for(os: OsKind) -> (abi: Self)
        ensures
            os == OsKind::Windows ==> abi.is_win64(),
            os != OsKind::Windows ==> abi.is_system_v(),
    {
        if os == OsKind::Windows {
            Self::win64()
        } else {
            Self::system_v()
        }
    }

    /// Detect platform ABI: that of the operating system this code was
    /// built for.
    pub fn platform() -> (abi: Self)
        ensures
            abi.is_win64() || abi.is_system_v(),
    {
        Self::platform_for(TargetSpec::host().os)
    }

    /// Classify argument for register allocation: floats go to SSE
    /// registers and everything else to integer registers, each only when
    /// the ABI has registers of that kind; otherwise the argument is passed
    /// in memory. The size does not take part.
    pub fn classify_arg(&self, _size: usize, is_float: bool) -> (class: RegisterClass)
        ensures
            class == (if is_float {
                if self.float_arg_regs@.len() > 0 {
                    RegisterClass::SSE
                } else {
                    RegisterClass::Memory
                }
            } else if self.int_arg_regs@.len() > 0 {
                RegisterClass::Integer
            } else {
                RegisterClass::Memory
            }),
    {
        if is_float {
            if self.float_arg_regs.len() > 0 {
                RegisterClass::SSE
            } else {
                RegisterClass::Memory
            }
        } else {
            if self.int_arg_regs.len() > 0 {
                RegisterClass::Integer
            } else {
                RegisterClass::Memory
            }
        }
    }

    /// Get stack alignment
    pub fn stack_alignment(&self) -> (align: usize)
        ensures
            align == self.layout.stack_align,
    {
        self.layout.stack_align
    }
}

} // verus!
