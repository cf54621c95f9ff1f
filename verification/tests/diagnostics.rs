use cara::ast::Span;
use cara::backend::error::CompileError;

#[test]
fn error_rendering_points_at_the_span() {
    let span = Span::new(
        (2, 10),
        (2, 11),
        "const a = x;".to_string(),
        "test.cara".to_string(),
    );
    let err = CompileError::new_symbol_not_found(span, "x".to_string());
    let text = err.show();
    let mut expected = String::new();
    expected.push_str("error: cannot find value `x` in this scope\n");
    expected.push_str(" --> test.cara:2:10\n");
    expected.push_str("  |\n");
    expected.push_str("2 | const a = x;\n");
    expected.push_str("  | ");
    expected.push_str("         ");
    expected.push_str("^");
    assert_eq!(text, expected);
}

#[test]
fn messages_follow_each_error_kind() {
    let span = || Span::new((1, 1), (1, 2), "x".to_string(), "f".to_string());
    assert_eq!(
        CompileError::new_invalid_type_cast(span(), "void".to_string(), "function".to_string())
            .message(),
        "cannot cast `void` as `function`!"
    );
    assert_eq!(CompileError::new_terminated(span()).message(), "terminated");
    assert_eq!(
        CompileError::new_non_comptime_value(span(), "type".to_string()).message(),
        "cannot use value of type `type` as none-comptime value"
    );
}
