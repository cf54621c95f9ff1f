use cara::cgen::scope::{Symbol, SymbolTable};
use cara::cgen::values::Value;

#[test]
fn lookup_finds_most_recent_binding() {
    let mut t = SymbolTable::new();
    t.push(Symbol::Const("a".to_string(), Value::new_int(1, 64, true)));
    t.push(Symbol::Const("a".to_string(), Value::new_int(2, 64, true)));
    match t.get("a") {
        Some(Symbol::Const(_, v)) => assert_eq!(v.show(), "2"),
        _ => panic!("expected the shadowing binding"),
    }
}

#[test]
fn scope_marker_is_never_matched() {
    let mut t = SymbolTable::new();
    t.push(Symbol::Scope);
    assert!(t.get("anything").is_none());
    assert_eq!(t.len(), 1);
}

#[test]
fn pop_restores_previous_binding() {
    let mut t = SymbolTable::new();
    t.push(Symbol::Var("x".to_string(), Value::new_int(1, 64, true)));
    t.push(Symbol::Var("x".to_string(), Value::new_int(2, 64, true)));
    let _ = t.pop();
    match t.get("x") {
        Some(Symbol::Var(_, v)) => assert_eq!(v.show(), "1"),
        _ => panic!("expected the outer binding to be visible again"),
    }
}
