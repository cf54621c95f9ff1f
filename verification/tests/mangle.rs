use cara::backend::mangle::mangled_function_name;

#[test]
fn mangled_names_are_deterministic() {
    assert_eq!(mangled_function_name(0), mangled_function_name(0));
    assert_eq!(mangled_function_name(41), mangled_function_name(41));
}

#[test]
fn mangled_names_are_distinct_per_counter() {
    let a = mangled_function_name(0);
    let b = mangled_function_name(1);
    let c = mangled_function_name(10);
    assert_ne!(a, b);
    assert_ne!(a, c);
    assert_ne!(b, c);
}

#[test]
fn mangled_name_keeps_the_placeholder_tail() {
    let n = mangled_function_name(7);
    assert!(n.starts_with("_"));
    assert!(n.ends_with("_abcdefg_fn7_hijklmn"));
    // one underscore, twenty digest characters, then the placeholder
    assert_eq!(n.len(), 1 + 20 + 1 + "abcdefg_fn7_hijklmn".len());
}
