use adesh_aot::header::{
    generate_header, lir_function_to_c_signature, lir_type_to_c_type, lir_type_to_cranelift,
    user_function_signature, FuncLinkage, LirFunction, LirModule, LirType,
};
use adesh_aot::values::ClifType;

fn func(name: &str, params: Vec<(&str, LirType)>, ret: LirType, exported: bool) -> LirFunction {
    LirFunction {
        name: name.to_string(),
        params: params.into_iter().map(|(n, t)| (n.to_string(), t)).collect(),
        ret_type: ret,
        is_exported: exported,
        blocks: vec![],
        entry_block: 0,
    }
}

#[test]
fn c_types() {
    assert_eq!(lir_type_to_c_type(&LirType::U8), "int32_t");
    assert_eq!(lir_type_to_c_type(&LirType::Bool), "int32_t");
    assert_eq!(lir_type_to_c_type(&LirType::U128), "int64_t");
    assert_eq!(lir_type_to_c_type(&LirType::F32), "float");
    assert_eq!(lir_type_to_c_type(&LirType::F64), "double");
    assert_eq!(lir_type_to_c_type(&LirType::Ptr), "void*");
    assert_eq!(lir_type_to_c_type(&LirType::Void), "void");
}

#[test]
fn c_signatures() {
    let f = func("add", vec![("a", LirType::I64), ("b", LirType::F64)], LirType::I64, true);
    assert_eq!(lir_function_to_c_signature(&f), "int64_t add(int64_t a, double b)");
    let g = func("tick", vec![], LirType::Void, true);
    assert_eq!(lir_function_to_c_signature(&g), "void tick(void)");
}

#[test]
fn header_lists_exported_functions_but_main() {
    let m = LirModule {
        functions: vec![
            func("main", vec![], LirType::I32, true),
            func("add", vec![("a", LirType::I32)], LirType::I32, true),
            func("hidden", vec![], LirType::Void, false),
        ],
    };
    let h = generate_header(&m);
    let expected = "#ifndef ADESH_EXPORTS_H\n#define ADESH_EXPORTS_H\n\n#include <stdint.h>\n#include <stdbool.h>\n#include <stddef.h>\n\n#ifdef __cplusplus\nextern \"C\" {\n#endif\n\n/* Exported Functions */\n\nint32_t add(int32_t a);\n\n#ifdef __cplusplus\n}\n#endif\n\n#endif /* ADESH_EXPORTS_H */\n";
    assert_eq!(h, expected);
}

#[test]
fn lanes_and_linkage_of_user_functions() {
    assert_eq!(lir_type_to_cranelift(&LirType::U128), ClifType::I64);
    assert_eq!(lir_type_to_cranelift(&LirType::Bool), ClifType::I8);
    let main = func("main", vec![("x", LirType::F32)], LirType::I32, false);
    let s = user_function_signature(&main);
    assert_eq!(s.params, vec![ClifType::I32, ClifType::I64]);
    assert_eq!(s.ret, ClifType::I32);
    assert_eq!(s.linkage, FuncLinkage::Export);
    let f = func("f", vec![("x", LirType::F32), ("y", LirType::U16)], LirType::Void, false);
    let s = user_function_signature(&f);
    assert_eq!(s.params, vec![ClifType::F32, ClifType::I16]);
    assert_eq!(s.ret, ClifType::I64);
    assert_eq!(s.linkage, FuncLinkage::Local);
}
