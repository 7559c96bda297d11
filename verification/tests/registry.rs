use ripen::{Builtin, Declaration, Operation, Registry, Runtime};

fn declaration(name: &str, arity: usize) -> Declaration {
    Declaration { name: name.to_string(), arity }
}

#[test]
fn empty_registry_finds_nothing() {
    let registry = Registry::new();
    assert_eq!(registry.len(), 0);
    assert_eq!(registry.lookup("+"), None);
    assert_eq!(registry.get("+"), None);
}

#[test]
fn insert_takes_the_key_as_written_and_replaces() {
    let mut registry = Registry::new();
    registry.insert("Key".to_string(), Operation::Native(Builtin::Add));
    assert_eq!(registry.get("Key"), Some(Operation::Native(Builtin::Add)));
    assert_eq!(registry.get("key"), None);
    assert_eq!(registry.lookup("Key"), None);
    registry.insert("Key".to_string(), Operation::Native(Builtin::Sub));
    assert_eq!(registry.get("Key"), Some(Operation::Native(Builtin::Sub)));
    assert_eq!(registry.len(), 1);
}

#[test]
fn with_builtins_holds_twenty_one_names() {
    let registry = Registry::with_builtins();
    assert_eq!(registry.len(), 21);
    assert_eq!(registry.get("`"), Some(Operation::Native(Builtin::Neg)));
    assert_eq!(registry.get("neg"), Some(Operation::Native(Builtin::Neg)));
    assert_eq!(registry.get("d2r"), Some(Operation::Native(Builtin::DegToRad)));
}

#[test]
fn register_all_absorbs_declarations_in_order() {
    let mut registry = Registry::with_builtins();
    let declarations =
        vec![declaration("A", 1), declaration("b", 2), declaration("a", 3), declaration("LN", 0)];
    registry.register_all(Runtime::Uiua, &declarations);
    assert_eq!(registry.len(), 23);
    assert_eq!(registry.lookup("A"), Some(Operation::Uiua { name: "a".to_string(), arity: 3 }));
    assert_eq!(registry.lookup("B"), Some(Operation::Uiua { name: "b".to_string(), arity: 2 }));
    assert_eq!(registry.lookup("ln"), Some(Operation::Uiua { name: "LN".to_string(), arity: 0 }));
    assert_eq!(registry.lookup("sin"), Some(Operation::Native(Builtin::Sin)));
    registry.register_all(Runtime::Lua, &vec![]);
    assert_eq!(registry.len(), 23);
}

#[test]
fn names_beyond_ascii_are_folded_too() {
    let mut registry = Registry::new();
    registry.register_scripted(Runtime::Lua, "\u{c9}COLE".to_string(), 1);
    let expected = Some(Operation::Lua { name: "\u{c9}COLE".to_string(), arity: 1 });
    assert_eq!(registry.lookup("\u{e9}cole"), expected);
    assert_eq!(registry.lookup("\u{c9}cole"), expected);
    assert_eq!(registry.get("\u{e9}cole"), expected);
    assert_eq!(registry.lookup("ecole"), None);
}
