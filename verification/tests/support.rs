use px_syntax::interpreter::TreeWalker;
use px_syntax::lexer::{LexerContext, LexerError, LexerErrorType};
use px_syntax::nodes::{Expression, Type};
use px_syntax::scopes::Scopes;
use px_syntax::syntax_errors::{SyntaxError, SyntaxErrorCollector, SyntaxErrorType};
use px_syntax::values::{Value, ValueData};

fn at(index: usize) -> LexerContext {
    LexerContext { filename: "test.px".to_string(), index, column: index, line: 0 }
}

#[test]
fn new_collector_holds_nothing() {
    let collector = SyntaxErrorCollector::new();
    assert_eq!(collector.len(), 0);
    assert!(collector.errors().is_empty());
}

#[test]
fn collector_from_one_error() {
    let collector = SyntaxErrorCollector::from_error(SyntaxErrorType::AtomExpected, at(3));
    assert_eq!(
        *collector.errors(),
        vec![SyntaxError { error_type: SyntaxErrorType::AtomExpected, context: at(3) }]
    );
}

#[test]
fn collector_wraps_a_lexical_error() {
    let collector = SyntaxErrorCollector::from_lexer_error(LexerError {
        error_type: LexerErrorType::EmptyCharError,
        context: at(5),
    });
    assert_eq!(
        *collector.errors(),
        vec![SyntaxError {
            error_type: SyntaxErrorType::LexerError(LexerErrorType::EmptyCharError),
            context: at(5),
        }]
    );
}

#[test]
fn collectors_are_joined_in_order() {
    let mut first = SyntaxErrorCollector::from_error(SyntaxErrorType::AtomExpected, at(1));
    let mut second = SyntaxErrorCollector::from_error(SyntaxErrorType::TypeExpected, at(2));
    second.add_errors(SyntaxErrorCollector::from_error(SyntaxErrorType::BlockExpected, at(3)));
    first.add_errors(second);
    first.add_errors(SyntaxErrorCollector::new());
    assert_eq!(
        *first.errors(),
        vec![
            SyntaxError { error_type: SyntaxErrorType::AtomExpected, context: at(1) },
            SyntaxError { error_type: SyntaxErrorType::TypeExpected, context: at(2) },
            SyntaxError { error_type: SyntaxErrorType::BlockExpected, context: at(3) },
        ]
    );
    assert_eq!(first.len(), 3);
}

#[test]
fn innermost_binding_wins() {
    let mut scopes: Scopes<isize> = Scopes::new();
    assert_eq!(scopes.depth(), 0);
    assert_eq!(scopes.bind("x".to_string(), 1), None);
    assert_eq!(scopes.find(&"x".to_string()), None);
    scopes.enter();
    assert_eq!(scopes.bind("x".to_string(), 1), Some(()));
    assert_eq!(scopes.bind("y".to_string(), 2), Some(()));
    scopes.enter();
    assert_eq!(scopes.bind("x".to_string(), 3), Some(()));
    assert_eq!(scopes.depth(), 2);
    assert_eq!(scopes.find(&"x".to_string()), Some(&3));
    assert_eq!(scopes.find(&"y".to_string()), Some(&2));
    assert_eq!(scopes.find(&"z".to_string()), None);
    assert_eq!(scopes.find_innermost(&"y".to_string()), None);
    assert_eq!(scopes.find_in(0, &"x".to_string()), Some(&1));
    scopes.leave();
    assert_eq!(scopes.find(&"x".to_string()), Some(&1));
    scopes.leave();
    scopes.leave();
    assert_eq!(scopes.depth(), 0);
    assert_eq!(scopes.find(&"x".to_string()), None);
}

#[test]
fn binding_again_replaces() {
    let mut scopes: Scopes<isize> = Scopes::new();
    scopes.enter();
    scopes.bind("x".to_string(), 1);
    scopes.bind("y".to_string(), 2);
    scopes.bind("x".to_string(), 3);
    assert_eq!(scopes.find(&"x".to_string()), Some(&3));
    assert_eq!(scopes.find_innermost(&"y".to_string()), Some(&2));
}

#[test]
fn integer_literal_evaluates_to_its_value() {
    let mut walker = TreeWalker::new();
    assert_eq!(
        walker.interpret(Ok(Expression::IntLiteral { value: 5 })).ok(),
        Some(Value::new(Type::IntSize, ValueData::IntegerValue(5)))
    );
}

#[test]
fn other_expressions_evaluate_to_no_diagnostics() {
    let mut walker = TreeWalker::new();
    match walker.interpret(Ok(Expression::BooleanLiteral { value: true })) {
        Err(collector) => assert_eq!(collector.len(), 0),
        Ok(value) => panic!("{:?}", value),
    }
}

#[test]
fn diagnostics_pass_through_the_evaluator() {
    let mut walker = TreeWalker::new();
    let given = SyntaxErrorCollector::from_error(SyntaxErrorType::AtomExpected, at(0));
    match walker.interpret(Err(given)) {
        Err(collector) => assert_eq!(
            *collector.errors(),
            vec![SyntaxError { error_type: SyntaxErrorType::AtomExpected, context: at(0) }]
        ),
        Ok(value) => panic!("{:?}", value),
    }
}

#[test]
fn closing_a_scope_forgets_its_bindings() {
    let mut walker = TreeWalker::new();
    walker.scope_out();
    walker.scope_in();
    walker.add_type("t".to_string(), Type::Int8);
    walker.scope_in();
    walker.add_type("t".to_string(), Type::Int16);
    walker.add_value("v".to_string(), Value::new(Type::Boolean, ValueData::BooleanValue(true)));
    assert_eq!(walker.get_type("t".to_string()), Some(&Type::Int16));
    walker.scope_out();
    assert_eq!(walker.get_type("t".to_string()), Some(&Type::Int8));
    assert_eq!(walker.get_value("v".to_string()), None);
    walker.scope_out();
    assert_eq!(walker.get_type("t".to_string()), None);
    assert_eq!(walker.add_type("t".to_string(), Type::Int8), None);
}
