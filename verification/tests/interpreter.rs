use px_syntax::interpreter::TreeWalker;
use px_syntax::nodes::Type;
use px_syntax::values::{Value, ValueData};


#[test]
#[should_panic]
fn interpreter_add_value_no_scope() {
    let mut tree_walker = TreeWalker::new();
    tree_walker.add_value("x".to_string(), Value::new(Type::Int32, ValueData::IntegerValue(2)));

    assert!(tree_walker.innermost_value(&"x".to_string()).is_some());
    assert!(matches!(tree_walker.innermost_value(&"x".to_string()).unwrap(),
        Value { type_: Type::Int32, value: ValueData::IntegerValue(2) }));
}

#[test]
fn interpreter_add_value_with_scope() {
    let mut tree_walker = TreeWalker::new();
    tree_walker.scope_in();
    tree_walker.add_value("x".to_string(), Value::new(Type::Int32, ValueData::IntegerValue(2)));

    assert!(tree_walker.innermost_value(&"x".to_string()).is_some());
    assert!(matches!(tree_walker.innermost_value(&"x".to_string()).unwrap(),
        Value { type_: Type::Int32, value: ValueData::IntegerValue(2) }));
}

#[test]
fn interpreter_get_value_single_scope() {
    let mut tree_walker = TreeWalker::new();
    tree_walker.scope_in();
    tree_walker.add_value("x".to_string(), Value::new(Type::Int32, ValueData::IntegerValue(2)));

    assert!(matches!(tree_walker.get_value("x".to_string()),
        Some(Value { type_: Type::Int32, value: ValueData::IntegerValue(2) })));
}

#[test]
fn interpreter_get_value_inner_scope_same_name() {
    let mut tree_walker = TreeWalker::new();
    tree_walker.scope_in();
    tree_walker.add_value("x".to_string(), Value::new(Type::Int32, ValueData::IntegerValue(2)));
    tree_walker.scope_in();
    tree_walker.add_value("x".to_string(), Value::new(Type::Int32, ValueData::IntegerValue(3)));

    assert!(matches!(tree_walker.get_value("x".to_string()),
        Some(Value { type_: Type::Int32, value: ValueData::IntegerValue(3) })));
}

#[test]
fn interpreter_get_value_outer_scope_diff_name() {
    let mut tree_walker = TreeWalker::new();
    tree_walker.scope_in();
    tree_walker.add_value("x".to_string(), Value::new(Type::Int32, ValueData::IntegerValue(2)));
    tree_walker.scope_in();
    tree_walker.add_value("y".to_string(), Value::new(Type::Int32, ValueData::IntegerValue(3)));

    assert!(matches!(tree_walker.get_value("x".to_string()),
        Some(Value { type_: Type::Int32, value: ValueData::IntegerValue(2) })));
}

#[test]
#[should_panic]
fn interpreter_add_type_no_scope() {
    let mut tree_walker = TreeWalker::new();
    tree_walker.add_type("i32".to_string(), Type::Int32);

    assert!(tree_walker.innermost_type(&"i32".to_string()).is_some());
    assert!(matches!(tree_walker.innermost_type(&"i32".to_string()).unwrap(), Type::Int32));
}

#[test]
fn interpreter_add_type_with_scope() {
    let mut tree_walker = TreeWalker::new();
    tree_walker.scope_in();
    tree_walker.add_type("i32".to_string(), Type::Int32);

    assert!(tree_walker.innermost_type(&"i32".to_string()).is_some());
    assert!(matches!(tree_walker.innermost_type(&"i32".to_string()).unwrap(), Type::Int32));
}

#[test]
fn interpreter_get_type_single_scope() {
    let mut tree_walker = TreeWalker::new();
    tree_walker.scope_in();
    tree_walker.add_type("i32".to_string(), Type::Int32);

    assert!(matches!(tree_walker.get_type("i32".to_string()), Some(Type::Int32)));
}

#[test]
fn interpreter_get_type_inner_scope_same_name() {
    let mut tree_walker = TreeWalker::new();
    tree_walker.scope_in();
    tree_walker.add_type("int".to_string(), Type::Int32);
    tree_walker.scope_in();
    tree_walker.add_type("int".to_string(), Type::Int16);

    assert!(matches!(tree_walker.get_type("int".to_string()), Some(Type::Int16)));
}

#[test]
fn interpreter_get_type_outer_scope_diff_name() {
    let mut tree_walker = TreeWalker::new();
    tree_walker.scope_in();
    tree_walker.add_type("i32".to_string(), Type::Int32);
    tree_walker.scope_in();
    tree_walker.add_type("i16".to_string(), Type::Int16);

    assert!(matches!(tree_walker.get_type("i32".to_string()), Some(Type::Int32)));
}

#[test]
fn interpreter_write_test() {
    let mut tree_walker = TreeWalker::new();
    tree_walker.write("test\n".to_string());
    tree_walker.write("hello\n".to_string());
    assert_eq!(tree_walker.output, "test\nhello\n".to_string());
}
