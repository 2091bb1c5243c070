use px_syntax::lexer::{Lexer, ProgramContext, ProgramContext::{NormalContext, TypeContext}};
use px_syntax::nodes::{Block, Expression, FunctionHeader, Item, Type};


fn lexer(filename: &str, code: &str, start_context: ProgramContext) -> Lexer {
    let mut lexer = Lexer::new(filename.to_string(), code.to_string());
    let _ = lexer.next(start_context);
    lexer
}

#[test]
fn parse_atom_int() {
    assert!(matches!(
        lexer("test.px", "2", NormalContext).parse_expression(),
        Ok(Expression::IntLiteral { value: x }) if x == 2
    ));
}

#[test]
fn parse_atom_float() {
    assert!(matches!(
        lexer("test.px", "2.0", NormalContext).parse_expression(),
        Ok(Expression::FloatLiteral { value: x }) if x.parse::<f64>().unwrap() == 2.0
    ));
}

#[test]
fn parse_atom_string() {
    assert!(matches!(
        lexer("test.px", "\"string\"", NormalContext).parse_expression(),
        Ok(Expression::StringLiteral { value: x }) if x == "string".to_string()
    ));
}

#[test]
fn parse_atom_char() {
    assert!(matches!(
        lexer("test.px", "'c'", NormalContext).parse_expression(),
        Ok(Expression::CharLiteral { value: x }) if x == 'c'
    ));
}

#[test]
fn parse_atom_true() {
    assert!(matches!(
        lexer("test.px", "true", NormalContext).parse_expression(),
        Ok(Expression::BooleanLiteral { value: x }) if x == true
    ));
}

#[test]
fn parse_atom_false() {
    assert!(matches!(
        lexer("test.px", "false", NormalContext).parse_expression(),
        Ok(Expression::BooleanLiteral { value: x }) if x == false
    ));
}

#[test]
fn parse_atom_block() {
    assert!(matches!(
        lexer("test.px", "{ 1 }", NormalContext).parse_expression(),
        Ok(Expression::BlockExpression { body: Block { statements: _, expression: Some(e) } }) if matches!(*e, Expression::IntLiteral { value: 1 })
    ));
}

#[test]
fn parse_type_i32() {
    assert!(matches!(
        lexer("test.px", "i32", TypeContext).parse_type(),
        Ok(Type::Int32)
    ));
}

#[test]
fn parse_type_i32_pointer() {
    assert!(matches!(
        lexer("test.px", "i32&", TypeContext).parse_type(),
        Ok(Type::Pointer { pointed: x }) if matches!(*x, Type::Int32)
    ));
}

#[test]
fn parse_type_i32_optional() {
    assert!(matches!(
        lexer("test.px", "i32?", TypeContext).parse_type(),
        Ok(Type::GenericType { name: s, types: t }) if s == "Option".to_string() && matches!(t[0], Type::Int32)
    ));
}

#[test]
fn parse_type_i32_usize_result() {
    assert!(matches!(
        lexer("test.px", "i32|usize", TypeContext).parse_type(),
        Ok(Type::GenericType { name: s, types: t }) if s == "Result".to_string() && matches!(t[0], Type::Int32) && matches!(t[1], Type::UIntSize)
    ));
}

#[test]
fn parse_type_i32_array() {
    assert!(matches!(
        lexer("test.px", "[i32; 2]", TypeContext).parse_type(),
        Ok(Type::Array { type_, length }) if matches!(*type_, Type::Int32) && length == 2
    ));
}

#[test]
fn parse_type_newtype() {
    assert!(matches!(
        lexer("test.px", "Test", TypeContext).parse_type(),
        Ok(Type::Type { name: s }) if s == "Test".to_string()
    ));
}

#[test]
fn parse_type_newtype_generic() {
    assert!(matches!(
        lexer("test.px", "Test<i32>", TypeContext).parse_type(),
        Ok(Type::GenericType { name: s, types: t }) if s == "Test".to_string() && matches!(t[0], Type::Int32)
    ));
}

#[test]
fn parse_type_newtype_generic_double() {
    assert!(matches!(
        lexer("test.px", "Test<i32, usize>", TypeContext).parse_type(),
        Ok(Type::GenericType { name: s, types: t }) if s == "Test".to_string() && matches!(t[0], Type::Int32) && matches!(t[1], Type::UIntSize)
    ));
}

#[test]
fn parse_type_newtype_generic_nest() {
    assert!(matches!(
        lexer("test.px", "Test<Foo<i32>>", TypeContext).parse_type(),
        Ok(Type::GenericType { name: s, types: t }) if s == "Test".to_string() && matches!(&t[0], Type::GenericType { name: s1, types: t1 } if *s1 == "Foo".to_string() && matches!(t1[0], Type::Int32))
    ));
}

#[test]
fn parse() {
    let mut lexer = lexer(
        "test.px", "fn main(x: i8, y: i16): u128 {}",
        NormalContext);
    let tree = lexer.parse().unwrap();

    assert_eq!(tree.len(), 1);

    match tree.get(0) {
        Some(
            Item::Function {
                header: FunctionHeader {
                    name, parameters, types, return_type
                },
                body: Block {
                    statements: _, expression: _ }
            }
        ) => {
            assert_eq!(name, "main");

            assert_eq!(parameters.len(), 2);
            assert_eq!(parameters[0], "x");
            assert_eq!(parameters[1], "y");

            match types[..] {
                [Type::Int8, Type::Int16] => {},
                _ => panic!("Function parameter types are not accurate"),
            }

            match return_type {
                Type::UInt128 => {},
                _ => panic!("Function return type is not accurate"),
            }
        },
        wrong_item => panic!("Item {:?} found", wrong_item),
    }
}
