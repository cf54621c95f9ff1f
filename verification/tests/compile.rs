use cara::backend::mangle::mangled_function_name;
use cara::backend::CodegenContext;
use cara::parser::CParser;

fn compile(source: &str) -> (CodegenContext, String) {
    let parser = CParser::new(source.to_string(), "test.cara".to_string());
    let ast = match parser.parse() {
        Ok(a) => a,
        Err(e) => panic!("{}", e.show()),
    };
    let mut context = CodegenContext::new();
    if ast.codegen(&mut context).is_err() {
        panic!("lowering aborted");
    }
    let text = context.c_program.show();
    (context, text)
}

const HEADER: &str = "typedef signed char i8;\ntypedef short i16;\ntypedef int i32;\ntypedef long long i64;\n\ntypedef unsigned char u8;\ntypedef unsigned short u16;\ntypedef unsigned int u32;\ntypedef unsigned long long u64;\n\n";

#[test]
fn function_literal_lowers_to_static_function() {
    let (context, text) = compile("const main = fn () u64 { return 1+1-2; };");
    assert!(context.errors.is_empty());
    let name = mangled_function_name(0);
    let expected = format!(
        "{}static u64 {}() {{ \nreturn ((1 + 1) - 2);\n}}\nconst u64 (*main) () = (const u64 (*) ())&{};\n",
        HEADER, name, name
    );
    assert_eq!(text, expected);
}

#[test]
fn foreign_function_emits_prototype_and_call() {
    let (context, text) = compile(
        "const add = extern fn(a: i32, b: i32) i32;\nconst main = fn () u64 { add(1,2); return 0; };",
    );
    assert!(context.errors.is_empty());
    assert!(text.contains("i32 add(i32 a, i32 b);\n"));
    // the callee is the converted address bound for `add`, applied to (1, 2)
    assert!(text.contains("&add)(1, 2);\n"));
    assert!(text.contains("((const i32 (*) (i32, i32))&add)(1, 2);\n"));
}

#[test]
fn two_failing_declarations_collect_two_errors() {
    let source = "const a = x;\nconst b = y;";
    let parser = CParser::new(source.to_string(), "test.cara".to_string());
    let ast = match parser.parse() {
        Ok(a) => a,
        Err(e) => panic!("{}", e.show()),
    };
    let mut context = CodegenContext::new();
    if ast.codegen(&mut context).is_err() {
        panic!("lowering aborted");
    }
    assert_eq!(context.errors.len(), 2);
    let first = context.errors[0].show();
    let second = context.errors[1].show();
    assert!(first.contains("cannot find value `x` in this scope"));
    assert!(first.contains("test.cara:1:11"));
    assert!(second.contains("cannot find value `y` in this scope"));
    assert!(second.contains("test.cara:2:11"));
    // each diagnostic quotes its own source line and points at the reference
    assert!(first.contains("1 | const a = x;\n"));
    assert!(second.contains("2 | const b = y;\n"));
}

#[test]
fn function_locals_are_invisible_to_later_functions() {
    let source =
        "const f = fn () u64 { var x: u64 = 1; return x; };\nconst g = fn () u64 { return x; };";
    let (context, _) = compile(source);
    assert_eq!(context.errors.len(), 1);
    assert!(context.errors[0].show().contains("cannot find value `x` in this scope"));
}

#[test]
fn local_binding_wins_over_global() {
    let source = "const a = 7;\nconst main = fn () u64 { var a: u64 = 5; return a; };";
    let (context, text) = compile(source);
    assert!(context.errors.is_empty());
    // the function body declares and returns the local, not the global
    assert!(text.contains("u64 a = 5;\nreturn a;\n"));
}

#[test]
fn compiling_twice_yields_identical_text() {
    let source = "const main = fn () u64 { return 0; };";
    let (_, first) = compile(source);
    let (_, second) = compile(source);
    assert_eq!(first, second);
}

#[test]
fn distinct_literals_get_distinct_names() {
    let source = "const f = fn () u64 { return 0; };\nconst g = fn () u64 { return 1; };";
    let (context, text) = compile(source);
    assert!(context.errors.is_empty());
    let n0 = mangled_function_name(0);
    let n1 = mangled_function_name(1);
    assert_ne!(n0, n1);
    assert!(text.contains(&n0));
    assert!(text.contains(&n1));
}

#[test]
fn variables_casts_and_raw_identifiers_lower() {
    let source = "const @\"var\" = 1;\nvar p: u64 = 2;\nconst c = 3 as u8;";
    let (context, text) = compile(source);
    assert!(context.errors.is_empty());
    assert!(text.contains("const i64 var = 1;\n"));
    assert!(text.contains("u64 p = 2;\n"));
    assert!(text.contains("const u8 c = (u8)3;\n"));
}

#[test]
fn empty_and_expression_statements_lower() {
    let source = "const main = fn () u64 { ; 1+1; return 0; };";
    let (context, text) = compile(source);
    assert!(context.errors.is_empty());
    // the empty statement lowers to a no-op empty line of its own
    assert!(text.contains("{ \n;\n(1 + 1);\nreturn 0;\n}"));
}

#[test]
fn syntax_errors_are_fatal() {
    let parser = CParser::new("const main = fn () u64 { return 1+; };".to_string(), "t".to_string());
    match parser.parse() {
        Err(e) => assert_eq!(e.show(), "syntax error at 1:35"),
        Ok(_) => panic!("a malformed expression must not parse"),
    }
    let parser = CParser::new("const x = 99999999999999999999;".to_string(), "t".to_string());
    assert!(parser.parse().is_err());
    let parser = CParser::new("const x = @\"unterminated;".to_string(), "t".to_string());
    assert!(parser.parse().is_err());
    let parser = CParser::new("fn main() {}".to_string(), "t".to_string());
    assert!(parser.parse().is_err());
}

#[test]
fn operator_precedence_groups_as_specified() {
    let (context, text) = compile("const main = fn () u64 { return 1+2*3==7; };");
    assert!(context.errors.is_empty());
    assert!(text.contains("return ((1 + (2 * 3)) == 7);\n"));
}

#[test]
fn parenthesized_subexpressions_group_left() {
    let (context, text) = compile("const main = fn () u64 { return (1+2)*3; };");
    assert!(context.errors.is_empty());
    assert!(text.contains("return ((1 + 2) * 3);\n"));
}

#[test]
fn parameters_carry_into_the_definition() {
    let (context, text) = compile("const f = fn (a: i32, b: u8) void { return; };");
    assert!(context.errors.is_empty());
    assert!(text.contains("(i32 a, u8 b) { \nreturn;\n}"));
}
