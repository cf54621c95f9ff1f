use cara::cgen::CProgram;
use cara::cgen::decl::{CConst, CTypedef, CVariable};
use cara::cgen::func::{CBlock, CBlockItem, CFunction, CReturn, CStatement};
use cara::cgen::types::{CFunctionType, CIntType, CType};
use cara::cgen::values::{BinOp, CCall, CConvertType, CGetAddr, CIdentifier, Value};
use cara::ast::BinaryOp;

#[test]
fn empty_program_prints_header_only() {
    let p = CProgram::new();
    let text = p.show();
    assert!(text.starts_with("typedef signed char i8;\ntypedef short i16;\ntypedef int i32;\ntypedef long long i64;\n\n"));
    assert!(text.ends_with("typedef unsigned long long u64;\n\n"));
}

#[test]
fn int_types_render_with_width_and_signedness() {
    assert_eq!(CType::new_int(CIntType::new(64, false)).show(), "u64");
    assert_eq!(CType::new_int(CIntType::new(8, true)).show(), "i8");
    assert_eq!(CType::new_void().show(), "void");
    let c = CType::new_const(CType::new_int(CIntType::new(32, true)));
    assert_eq!(c.show(), "const i32");
}

#[test]
fn function_type_renders_pointer_idiom() {
    let ft = CFunctionType::new(
        vec![
            CType::new_int(CIntType::new(32, true)),
            CType::new_int(CIntType::new(32, true)),
        ],
        CType::new_int(CIntType::new(64, false)),
    );
    assert_eq!(ft.show(), "u64 (*) (i32, i32)");
}

#[test]
fn values_render_structurally() {
    let one = Value::new_int(1, 64, true);
    let two = Value::new_int(2, 64, true);
    let sum = Value::new_bin_op(BinOp::new(one, two, BinaryOp::Add));
    assert_eq!(sum.show(), "(1 + 2)");
    let id = CIdentifier::new("f".to_string(), CType::new_void());
    let call = Value::new_call(CCall::new(
        Value::new_identifier(id),
        vec![Value::new_int(1, 64, true), Value::new_int(2, 64, true)],
    ));
    assert_eq!(call.show(), "(f)(1, 2)");
    let addr = Value::new_get_addr(CGetAddr::new(Value::new_identifier(CIdentifier::new(
        "g".to_string(),
        CType::new_void(),
    ))));
    assert_eq!(addr.show(), "&g");
    let cast = Value::new_convert_type(CConvertType::new(
        Value::new_int(7, 64, true),
        CType::new_int(CIntType::new(8, false)),
    ));
    assert_eq!(cast.show(), "(u8)7");
}

#[test]
fn const_and_variable_render() {
    let c = CConst::new("k".to_string(), Value::new_int(12345, 64, true));
    assert_eq!(c.show(), "const i64 k = 12345;");
    let v = CVariable::new(
        "v".to_string(),
        Value::new_int(9, 64, true),
        CType::new_int(CIntType::new(64, true)),
    );
    assert_eq!(v.show(), "i64 v = 9;");
}

#[test]
fn typedef_renders_function_pointer_idiom() {
    let ft = CFunctionType::new(vec![], CType::new_void());
    let t = CTypedef::new("cb".to_string(), CType::new_function(ft));
    assert_eq!(t.show(), "typedef void (*cb) ();");
}

#[test]
fn function_definition_renders_body_lines() {
    let mut f = CFunction::new(
        "main".to_string(),
        CType::new_int(CIntType::new(64, false)),
        true,
        false,
        vec![],
    );
    f.body.push(CBlockItem::Statement(CStatement::Return(CReturn::new(Some(
        Value::new_int(0, 64, true),
    )))));
    assert_eq!(f.show(), "static u64 main() { \nreturn 0;\n}");
}

#[test]
fn foreign_function_renders_prototype() {
    let f = CFunction::new(
        "add".to_string(),
        CType::new_int(CIntType::new(32, true)),
        false,
        true,
        vec![
            (CType::new_int(CIntType::new(32, true)), "a".to_string()),
            (CType::new_int(CIntType::new(32, true)), "b".to_string()),
        ],
    );
    assert_eq!(f.show(), "i32 add(i32 a, i32 b);");
}

#[test]
fn empty_block_renders_empty() {
    let b = CBlock::new();
    assert_eq!(b.show(), "");
}

#[test]
fn reprinting_is_byte_identical() {
    let mut p = CProgram::new();
    p.insert_const(CConst::new("k".to_string(), Value::new_int(3, 64, true)));
    let first = p.show();
    let second = p.show();
    assert_eq!(first, second);
}
