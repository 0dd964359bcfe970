//! Verified core of the AdeshLang ahead-of-time backend: ABI and data
//! layout tables, runtime value types, C header generation, colour
//! literals, the strings of the data section, the Cranelift object
//! module and its declarations, cache keys and cache decisions, where the
//! toolchain is looked for, and the linker command planning that drives
//! native and cross linking.

pub mod abi;
pub mod strs;
pub mod target;
pub mod attempts;
pub mod linker;
pub mod options;
pub mod toolchain;
pub mod cache;
pub mod values;
pub mod header;
pub mod color;
pub mod strings;
pub mod object;
pub mod pipeline;
pub mod discovery;
pub mod order;
pub mod hash;
pub mod lowering;
