use adesh_aot::abi::{Abi, CallingConvention, DataLayout, RegisterClass};
use adesh_aot::target::OsKind;

#[test]
fn test_system_v_abi() {
    let abi = Abi::system_v();
    assert_eq!(abi.convention, CallingConvention::SystemV);
    assert_eq!(abi.layout.pointer_size, 8);
    assert_eq!(abi.int_arg_regs.len(), 6);
}

#[test]
fn test_win64_abi() {
    let abi = Abi::win64();
    assert_eq!(abi.convention, CallingConvention::Win64);
    assert_eq!(abi.int_arg_regs.len(), 4);
}

#[test]
fn test_data_layout() {
    let layout = DataLayout::system_v_64();
    assert_eq!(layout.int_alignment(4), 4);
    assert_eq!(layout.float_alignment(8), 8);
}

#[test]
fn system_v_registers_in_order() {
    let abi = Abi::system_v();
    assert_eq!(abi.int_arg_regs, vec!["rdi", "rsi", "rdx", "rcx", "r8", "r9"]);
    assert_eq!(abi.float_arg_regs.len(), 8);
    assert_eq!(abi.float_arg_regs[7], "xmm7");
    assert_eq!(abi.return_regs, vec!["rax", "rdx"]);
}

#[test]
fn win64_registers_in_order() {
    let abi = Abi::win64();
    assert_eq!(abi.int_arg_regs, vec!["rcx", "rdx", "r8", "r9"]);
    assert_eq!(abi.float_arg_regs, vec!["xmm0", "xmm1", "xmm2", "xmm3"]);
    assert_eq!(abi.return_regs, vec!["rax"]);
    assert_eq!(abi.stack_alignment(), 16);
}

#[test]
fn alignment_falls_back_to_the_default() {
    let layout = DataLayout::win64();
    assert_eq!(layout.int_alignment(1), 1);
    assert_eq!(layout.int_alignment(8), 8);
    assert_eq!(layout.int_alignment(16), 8);
    assert_eq!(layout.float_alignment(4), 4);
    assert_eq!(layout.float_alignment(2), 8);
}

#[test]
fn classify_arguments() {
    let abi = Abi::system_v();
    assert_eq!(abi.classify_arg(8, true), RegisterClass::SSE);
    assert_eq!(abi.classify_arg(8, false), RegisterClass::Integer);
    let mut empty = Abi::win64();
    empty.int_arg_regs.clear();
    empty.float_arg_regs.clear();
    assert_eq!(empty.classify_arg(4, true), RegisterClass::Memory);
    assert_eq!(empty.classify_arg(4, false), RegisterClass::Memory);
}

#[test]
fn platform_abi_follows_the_os() {
    assert_eq!(Abi::platform_for(OsKind::Windows).convention, CallingConvention::Win64);
    assert_eq!(Abi::platform_for(OsKind::Linux).convention, CallingConvention::SystemV);
    assert_eq!(Abi::platform_for(OsKind::MacOSX).convention, CallingConvention::SystemV);
    let p = Abi::platform();
    if adesh_aot::target::TargetSpec::host().os == OsKind::Windows {
        assert_eq!(p.convention, CallingConvention::Win64);
    } else {
        assert_eq!(p.convention, CallingConvention::SystemV);
    }
}
