//! The syntax tree: items, expressions, statements, types and traits, each
//! with the mathematical value that contracts speak of.
//!
//! Every subtree is owned by its parent. The parser builds function items,
//! blocks, expression statements, atoms and types; the other shapes are
//! declared for the rules that are still to come.

use vstd::prelude::*;

verus! {

// Types and traits

/// A type expression.
#[derive(Debug, PartialEq)]
pub enum Type {
    Void,
    Int8,
    Int16,
    Int32,
    Int64,
    Int128,
    IntSize,
    UInt8,
    UInt16,
    UInt32,
    UInt64,
    UInt128,
    UIntSize,
    Float32,
    Float64,
    Boolean,
    Char,
    /// `[T; N]`
    Array { type_: Box<Type>, length: usize },
    /// `T&`
    Pointer { pointed: Box<Type> },
    /// A type known by its name.
    Type { name: String },
    /// `Name<T1, T2, ...>`; `T?` is `Option<T>` and `T1|T2` is `Result<T1, T2>`.
    GenericType { name: String, types: Vec<Type> },
    Trait { trait_: Trait },
}

/// A trait bound.
#[derive(Debug, PartialEq)]
pub enum Trait {
    Trait { name: String },
    GenericTrait { name: String, types: Vec<Type> },
}

/// A type expression as a mathematical value.
pub enum TypeView {
    Void,
    Int8,
    Int16,
    Int32,
    Int64,
    Int128,
    IntSize,
    UInt8,
    UInt16,
    UInt32,
    UInt64,
    UInt128,
    UIntSize,
    Float32,
    Float64,
    Boolean,
    Char,
    Array { type_: Box<TypeView>, length: nat },
    Pointer { pointed: Box<TypeView> },
    Type { name: Seq<char> },
    GenericType { name: Seq<char>, types: Seq<TypeView> },
    Trait { trait_: TraitView },
}

/// A trait bound as a mathematical value.
pub enum TraitView {
    Trait { name: Seq<char> },
    GenericTrait { name: Seq<char>, types: Seq<TypeView> },
}

/// The value of a type expression.
pub open spec fn type_view(t: Type) -> TypeView
    decreases t,
{
    match t {
        Type::Void => TypeView::Void,
        Type::Int8 => TypeView::Int8,
        Type::Int16 => TypeView::Int16,
        Type::Int32 => TypeView::Int32,
        Type::Int64 => TypeView::Int64,
        Type::Int128 => TypeView::Int128,
        Type::IntSize => TypeView::IntSize,
        Type::UInt8 => TypeView::UInt8,
        Type::UInt16 => TypeView::UInt16,
        Type::UInt32 => TypeView::UInt32,
        Type::UInt64 => TypeView::UInt64,
        Type::UInt128 => TypeView::UInt128,
        Type::UIntSize => TypeView::UIntSize,
        Type::Float32 => TypeView::Float32,
        Type::Float64 => TypeView::Float64,
        Type::Boolean => TypeView::Boolean,
        Type::Char => TypeView::Char,
        Type::Array { type_, length } => TypeView::Array {
            type_: Box::new(type_view(*type_)),
            length: length as nat,
        },
        Type::Pointer { pointed } => TypeView::Pointer { pointed: Box::new(type_view(*pointed)) },
        Type::Type { name } => TypeView::Type { name: name@ },
        Type::GenericType { name, types } => TypeView::GenericType {
            name: name@,
            types: type_views(types@),
        },
        Type::Trait { trait_ } => TypeView::Trait { trait_: trait_view(trait_) },
    }
}

/// The values of a list of types, in order.
pub open spec fn type_views(types: Seq<Type>) -> Seq<TypeView>
    decreases types,
{
    Seq::new(
        types.len(),
        |i: int|
            if 0 <= i < types.len() {
                type_view(types[i])
            } else {
                arbitrary()
            },
    )
}

/// The value of a trait bound.
pub open spec fn trait_view(t: Trait) -> TraitView
    decreases t,
{
    match t {
        Trait::Trait { name } => TraitView::Trait { name: name@ },
        Trait::GenericTrait { name, types } => TraitView::GenericTrait {
            name: name@,
            types: type_views(types@),
        },
    }
}

impl View for Type {
    type V = TypeView;

    open spec fn view(&self) -> TypeView {
        type_view(*self)
    }
}

impl View for Trait {
    type V = TraitView;

    open spec fn view(&self) -> TraitView {
        trait_view(*self)
    }
}

/// The values of a list of types with one more type at its end.
pub proof fn type_views_push(types: Seq<Type>, last: Type)
    ensures
        type_views(types.push(last)) == type_views(types).push(last@),
{
    assert(type_views(types.push(last)) =~= type_views(types).push(last@));
}

/// The empty list of types has the empty list of values.
pub proof fn type_views_empty()
    ensures
        type_views(Seq::<Type>::empty()) == Seq::<TypeView>::empty(),
{
    assert(type_views(Seq::<Type>::empty()) =~= Seq::<TypeView>::empty());
}

// Expressions, blocks and statements

/// A pattern. No form of it is defined yet.
#[derive(Debug, PartialEq)]
pub struct Pattern {
}

/// An arithmetic operator.
#[derive(Debug, PartialEq)]
pub enum Operator {
    AddOperator,
    SubtractOperator,
    MultiplyOperator,
    DivideOperator,
    ModuloOperator,
    NegateOperator,
}

/// One step of a path.
#[derive(Debug, PartialEq)]
pub enum PathSegment {
    PathIdentifier { id: String },
    SuperPath,
    SelfPath,
}

/// An expression. A float literal keeps the spelling of its token.
#[derive(Debug, PartialEq)]
#[allow(inconsistent_fields)]
pub enum Expression {
    ForExpression { pattern: Pattern, iterator: Box<Expression>, body: Block },
    IfExpression { condition: Box<Expression>, body: Block, alternate: Block },
    WhileExpression { condition: Box<Expression>, body: Block },
    LoopExpression { body: Block },
    MatchExpression { discriminant: Box<Expression>, branches: Vec<MatchBranch> },
    BlockExpression { body: Block },
    TryExpression { expression: Box<Expression> },
    CatchExpression { expression: Box<Expression>, result: Box<Expression> },
    ArrayExpression { type_: Type, elements: Vec<Expression> },
    CallExpression { callee: Box<Expression>, arguments: Vec<Expression> },
    IndexExpression { indexed: Box<Expression>, argument: Box<Expression> },
    FieldExpression { left: Box<Expression>, right: String },
    TypeCastExpression { value: Box<Expression>, type_: Type },
    ReturnExpression { returned: Option<Box<Expression>> },
    BreakExpression { returned: Option<Box<Expression>> },
    ContinueExpression,
    StructExpression { struct_: String, fields: Vec<StructExpressionField> },
    PathExpression { source: PathSegment, member: PathSegment },
    BinaryOp { op: Operator, left: Box<Expression>, right: Box<Expression> },
    UnaryOp { op: Operator, child: Box<Expression> },
    Variable { name: String },
    IntLiteral { value: isize },
    FloatLiteral { value: String },
    StringLiteral { value: String },
    CharLiteral { value: char },
    BooleanLiteral { value: bool },
}

/// Statements in order, and the expression that the block ends with where
/// its last construct is an expression without a semicolon.
#[derive(Debug, PartialEq)]
pub struct Block {
    pub statements: Vec<Statement>,
    pub expression: Option<Box<Expression>>,
}

/// One branch of a match: a pattern and what it leads to.
#[derive(Debug, PartialEq)]
pub struct MatchBranch {
    pub pattern: Pattern,
    pub consequent: Expression,
}

/// One field of a struct literal: its name and its value.
#[derive(Debug, PartialEq)]
pub struct StructExpressionField {
    pub name: String,
    pub expression: Expression,
}

/// A statement.
#[derive(Debug, PartialEq)]
pub enum Statement {
    LetStatement { pattern: Pattern, expression: Expression },
    ConstStatement { pattern: Pattern, expression: Expression },
    ExpressionStatement { expression: Expression },
}

/// One step of a path as a mathematical value.
pub enum PathSegmentView {
    PathIdentifier { id: Seq<char> },
    SuperPath,
    SelfPath,
}

impl View for PathSegment {
    type V = PathSegmentView;

    open spec fn view(&self) -> PathSegmentView {
        match self {
            PathSegment::PathIdentifier { id } => PathSegmentView::PathIdentifier { id: id@ },
            PathSegment::SuperPath => PathSegmentView::SuperPath,
            PathSegment::SelfPath => PathSegmentView::SelfPath,
        }
    }
}

/// An expression as a mathematical value.
#[allow(inconsistent_fields)]
pub enum ExpressionView {
    ForExpression { pattern: Pattern, iterator: Box<ExpressionView>, body: BlockView },
    IfExpression { condition: Box<ExpressionView>, body: BlockView, alternate: BlockView },
    WhileExpression { condition: Box<ExpressionView>, body: BlockView },
    LoopExpression { body: BlockView },
    MatchExpression { discriminant: Box<ExpressionView>, branches: Seq<MatchBranchView> },
    BlockExpression { body: BlockView },
    TryExpression { expression: Box<ExpressionView> },
    CatchExpression { expression: Box<ExpressionView>, result: Box<ExpressionView> },
    ArrayExpression { type_: TypeView, elements: Seq<ExpressionView> },
    CallExpression { callee: Box<ExpressionView>, arguments: Seq<ExpressionView> },
    IndexExpression { indexed: Box<ExpressionView>, argument: Box<ExpressionView> },
    FieldExpression { left: Box<ExpressionView>, right: Seq<char> },
    TypeCastExpression { value: Box<ExpressionView>, type_: TypeView },
    ReturnExpression { returned: Option<Box<ExpressionView>> },
    BreakExpression { returned: Option<Box<ExpressionView>> },
    ContinueExpression,
    StructExpression { struct_: Seq<char>, fields: Seq<StructExpressionFieldView> },
    PathExpression { source: PathSegmentView, member: PathSegmentView },
    BinaryOp { op: Operator, left: Box<ExpressionView>, right: Box<ExpressionView> },
    UnaryOp { op: Operator, child: Box<ExpressionView> },
    Variable { name: Seq<char> },
    IntLiteral { value: int },
    FloatLiteral { value: Seq<char> },
    StringLiteral { value: Seq<char> },
    CharLiteral { value: char },
    BooleanLiteral { value: bool },
}

/// A block as a mathematical value.
pub struct BlockView {
    pub statements: Seq<StatementView>,
    pub expression: Option<Box<ExpressionView>>,
}

/// One branch of a match as a mathematical value.
pub struct MatchBranchView {
    pub pattern: Pattern,
    pub consequent: ExpressionView,
}

/// One field of a struct literal as a mathematical value.
pub struct StructExpressionFieldView {
    pub name: Seq<char>,
    pub expression: ExpressionView,
}

/// A statement as a mathematical value.
pub enum StatementView {
    LetStatement { pattern: Pattern, expression: ExpressionView },
    ConstStatement { pattern: Pattern, expression: ExpressionView },
    ExpressionStatement { expression: ExpressionView },
}

/// The value of an expression.
pub open spec fn expression_view(e: Expression) -> ExpressionView
    decreases e,
{
    match e {
        Expression::ForExpression { pattern, iterator, body } => ExpressionView::ForExpression {
            pattern,
            iterator: Box::new(expression_view(*iterator)),
            body: block_view(body),
        },
        Expression::IfExpression { condition, body, alternate } => ExpressionView::IfExpression {
            condition: Box::new(expression_view(*condition)),
            body: block_view(body),
            alternate: block_view(alternate),
        },
        Expression::WhileExpression { condition, body } => ExpressionView::WhileExpression {
            condition: Box::new(expression_view(*condition)),
            body: block_view(body),
        },
        Expression::LoopExpression { body } => ExpressionView::LoopExpression {
            body: block_view(body),
        },
        Expression::MatchExpression { discriminant, branches } => ExpressionView::MatchExpression {
            discriminant: Box::new(expression_view(*discriminant)),
            branches: match_branch_views(branches@),
        },
        Expression::BlockExpression { body } => ExpressionView::BlockExpression {
            body: block_view(body),
        },
        Expression::TryExpression { expression } => ExpressionView::TryExpression {
            expression: Box::new(expression_view(*expression)),
        },
        Expression::CatchExpression { expression, result } => ExpressionView::CatchExpression {
            expression: Box::new(expression_view(*expression)),
            result: Box::new(expression_view(*result)),
        },
        Expression::ArrayExpression { type_, elements } => ExpressionView::ArrayExpression {
            type_: type_@,
            elements: expression_views(elements@),
        },
        Expression::CallExpression { callee, arguments } => ExpressionView::CallExpression {
            callee: Box::new(expression_view(*callee)),
            arguments: expression_views(arguments@),
        },
        Expression::IndexExpression { indexed, argument } => ExpressionView::IndexExpression {
            indexed: Box::new(expression_view(*indexed)),
            argument: Box::new(expression_view(*argument)),
        },
        Expression::FieldExpression { left, right } => ExpressionView::FieldExpression {
            left: Box::new(expression_view(*left)),
            right: right@,
        },
        Expression::TypeCastExpression { value, type_ } => ExpressionView::TypeCastExpression {
            value: Box::new(expression_view(*value)),
            type_: type_@,
        },
        Expression::ReturnExpression { returned } => ExpressionView::ReturnExpression {
            returned: optional_expression_view(returned),
        },
        Expression::BreakExpression { returned } => ExpressionView::BreakExpression {
            returned: optional_expression_view(returned),
        },
        Expression::ContinueExpression => ExpressionView::ContinueExpression,
        Expression::StructExpression { struct_, fields } => ExpressionView::StructExpression {
            struct_: struct_@,
            fields: struct_field_views(fields@),
        },
        Expression::PathExpression { source, member } => ExpressionView::PathExpression {
            source: source@,
            member: member@,
        },
        Expression::BinaryOp { op, left, right } => ExpressionView::BinaryOp {
            op,
            left: Box::new(expression_view(*left)),
            right: Box::new(expression_view(*right)),
        },
        Expression::UnaryOp { op, child } => ExpressionView::UnaryOp {
            op,
            child: Box::new(expression_view(*child)),
        },
        Expression::Variable { name } => ExpressionView::Variable { name: name@ },
        Expression::IntLiteral { value } => ExpressionView::IntLiteral { value: value as int },
        Expression::FloatLiteral { value } => ExpressionView::FloatLiteral { value: value@ },
        Expression::StringLiteral { value } => ExpressionView::StringLiteral { value: value@ },
        Expression::CharLiteral { value } => ExpressionView::CharLiteral { value },
        Expression::BooleanLiteral { value } => ExpressionView::BooleanLiteral { value },
    }
}

/// The value of an expression that may be missing.
pub open spec fn optional_expression_view(e: Option<Box<Expression>>) -> Option<
    Box<ExpressionView>,
>
    decreases e,
{
    match e {
        Some(inner) => Some(Box::new(expression_view(*inner))),
        None => None,
    }
}

/// The values of a list of expressions, in order.
pub open spec fn expression_views(expressions: Seq<Expression>) -> Seq<ExpressionView>
    decreases expressions,
{
    Seq::new(
        expressions.len(),
        |i: int|
            if 0 <= i < expressions.len() {
                expression_view(expressions[i])
            } else {
                arbitrary()
            },
    )
}

/// The values of the branches of a match, in order.
pub open spec fn match_branch_views(branches: Seq<MatchBranch>) -> Seq<MatchBranchView>
    decreases branches,
{
    Seq::new(
        branches.len(),
        |i: int|
            if 0 <= i < branches.len() {
                MatchBranchView {
                    pattern: branches[i].pattern,
                    consequent: expression_view(branches[i].consequent),
                }
            } else {
                arbitrary()
            },
    )
}

/// The values of the fields of a struct literal, in order.
pub open spec fn struct_field_views(fields: Seq<StructExpressionField>) -> Seq<
    StructExpressionFieldView,
>
    decreases fields,
{
    Seq::new(
        fields.len(),
        |i: int|
            if 0 <= i < fields.len() {
                StructExpressionFieldView {
                    name: fields[i].name@,
                    expression: expression_view(fields[i].expression),
                }
            } else {
                arbitrary()
            },
    )
}

/// The value of a block.
pub open spec fn block_view(b: Block) -> BlockView
    decreases b,
{
    BlockView {
        statements: statement_views(b.statements@),
        expression: optional_expression_view(b.expression),
    }
}

/// The value of a statement.
pub open spec fn statement_view(s: Statement) -> StatementView
    decreases s,
{
    match s {
        Statement::LetStatement { pattern, expression } => StatementView::LetStatement {
            pattern,
            expression: expression_view(expression),
        },
        Statement::ConstStatement { pattern, expression } => StatementView::ConstStatement {
            pattern,
            expression: expression_view(expression),
        },
        Statement::ExpressionStatement { expression } => StatementView::ExpressionStatement {
            expression: expression_view(expression),
        },
    }
}

/// The values of a list of statements, in order.
pub open spec fn statement_views(statements: Seq<Statement>) -> Seq<StatementView>
    decreases statements,
{
    Seq::new(
        statements.len(),
        |i: int|
            if 0 <= i < statements.len() {
                statement_view(statements[i])
            } else {
                arbitrary()
            },
    )
}

impl View for Expression {
    type V = ExpressionView;

    open spec fn view(&self) -> ExpressionView {
        expression_view(*self)
    }
}

impl View for Block {
    type V = BlockView;

    open spec fn view(&self) -> BlockView {
        block_view(*self)
    }
}

impl View for Statement {
    type V = StatementView;

    open spec fn view(&self) -> StatementView {
        statement_view(*self)
    }
}

impl View for MatchBranch {
    type V = MatchBranchView;

    open spec fn view(&self) -> MatchBranchView {
        MatchBranchView { pattern: self.pattern, consequent: self.consequent@ }
    }
}

impl View for StructExpressionField {
    type V = StructExpressionFieldView;

    open spec fn view(&self) -> StructExpressionFieldView {
        StructExpressionFieldView { name: self.name@, expression: self.expression@ }
    }
}

/// The values of a list of statements with one more statement at its end.
pub proof fn statement_views_push(statements: Seq<Statement>, last: Statement)
    ensures
        statement_views(statements.push(last)) == statement_views(statements).push(last@),
{
    assert(statement_views(statements.push(last)) =~= statement_views(statements).push(last@));
}

/// The empty list of statements has the empty list of values.
pub proof fn statement_views_empty()
    ensures
        statement_views(Seq::<Statement>::empty()) == Seq::<StatementView>::empty(),
{
    assert(statement_views(Seq::<Statement>::empty()) =~= Seq::<StatementView>::empty());
}

// Items

/// The head of a function: its name, the names of its parameters and their
/// types, paired by place, and the type it returns, which is `Void` where
/// none is written.
#[derive(Debug, PartialEq)]
pub struct FunctionHeader {
    pub name: String,
    pub parameters: Vec<String>,
    pub types: Vec<Type>,
    pub return_type: Type,
}

/// One field of a struct: its name and its type.
#[derive(Debug, PartialEq)]
pub struct StructField {
    pub name: String,
    pub type_: Type,
}

/// One variant of an enum: its name and the types it holds.
#[derive(Debug, PartialEq)]
pub struct EnumField {
    pub name: String,
    pub types: Vec<Type>,
}

/// A declaration at the top level of a file.
#[derive(Debug, PartialEq)]
#[allow(inconsistent_fields)]
pub enum Item {
    Import { imported: String },
    Use { used: String },
    Function { header: FunctionHeader, body: Block },
    Struct { name: String, type_parameters: Vec<String>, fields: Vec<StructField> },
    Enum { name: String, type_parameters: Vec<String>, fields: Vec<EnumField> },
    Trait { name: String, type_parameters: Vec<String>, items: Vec<Item> },
    Instance { trait_: Trait, type_: Type, items: Vec<Item> },
    TypeAlias { newtype: String, oldtype: Type },
    ConstItem { name: String, type_: Type, value: Expression },
}

/// The head of a function as a mathematical value.
pub struct FunctionHeaderView {
    pub name: Seq<char>,
    pub parameters: Seq<Seq<char>>,
    pub types: Seq<TypeView>,
    pub return_type: TypeView,
}

/// One field of a struct as a mathematical value.
pub struct StructFieldView {
    pub name: Seq<char>,
    pub type_: TypeView,
}

/// One variant of an enum as a mathematical value.
pub struct EnumFieldView {
    pub name: Seq<char>,
    pub types: Seq<TypeView>,
}

/// An item as a mathematical value.
#[allow(inconsistent_fields)]
pub enum ItemView {
    Import { imported: Seq<char> },
    Use { used: Seq<char> },
    Function { header: FunctionHeaderView, body: BlockView },
    Struct { name: Seq<char>, type_parameters: Seq<Seq<char>>, fields: Seq<StructFieldView> },
    Enum { name: Seq<char>, type_parameters: Seq<Seq<char>>, fields: Seq<EnumFieldView> },
    Trait { name: Seq<char>, type_parameters: Seq<Seq<char>>, items: Seq<ItemView> },
    Instance { trait_: TraitView, type_: TypeView, items: Seq<ItemView> },
    TypeAlias { newtype: Seq<char>, oldtype: TypeView },
    ConstItem { name: Seq<char>, type_: TypeView, value: ExpressionView },
}

/// The texts of a list of names.
pub open spec fn name_views(names: Seq<String>) -> Seq<Seq<char>> {
    Seq::new(names.len(), |i: int| names[i]@)
}

impl View for FunctionHeader {
    type V = FunctionHeaderView;

    open spec fn view(&self) -> FunctionHeaderView {
        FunctionHeaderView {
            name: self.name@,
            parameters: name_views(self.parameters@),
            types: type_views(self.types@),
            return_type: self.return_type@,
        }
    }
}

impl View for StructField {
    type V = StructFieldView;

    open spec fn view(&self) -> StructFieldView {
        StructFieldView { name: self.name@, type_: self.type_@ }
    }
}

impl View for EnumField {
    type V = EnumFieldView;

    open spec fn view(&self) -> EnumFieldView {
        EnumFieldView { name: self.name@, types: type_views(self.types@) }
    }
}

/// The value of an item.
pub open spec fn item_view(item: Item) -> ItemView
    decreases item,
{
    match item {
        Item::Import { imported } => ItemView::Import { imported: imported@ },
        Item::Use { used } => ItemView::Use { used: used@ },
        Item::Function { header, body } => ItemView::Function { header: header@, body: body@ },
        Item::Struct { name, type_parameters, fields } => ItemView::Struct {
            name: name@,
            type_parameters: name_views(type_parameters@),
            fields: Seq::new(fields@.len(), |i: int| fields@[i]@),
        },
        Item::Enum { name, type_parameters, fields } => ItemView::Enum {
            name: name@,
            type_parameters: name_views(type_parameters@),
            fields: Seq::new(fields@.len(), |i: int| fields@[i]@),
        },
        Item::Trait { name, type_parameters, items } => ItemView::Trait {
            name: name@,
            type_parameters: name_views(type_parameters@),
            items: item_views(items@),
        },
        Item::Instance { trait_, type_, items } => ItemView::Instance {
            trait_: trait_@,
            type_: type_@,
            items: item_views(items@),
        },
        Item::TypeAlias { newtype, oldtype } => ItemView::TypeAlias {
            newtype: newtype@,
            oldtype: oldtype@,
        },
        Item::ConstItem { name, type_, value } => ItemView::ConstItem {
            name: name@,
            type_: type_@,
            value: value@,
        },
    }
}

/// The values of a list of items, in order.
pub open spec fn item_views(items: Seq<Item>) -> Seq<ItemView>
    decreases items,
{
    Seq::new(
        items.len(),
        |i: int|
            if 0 <= i < items.len() {
                item_view(items[i])
            } else {
                arbitrary()
            },
    )
}

impl View for Item {
    type V = ItemView;

    open spec fn view(&self) -> ItemView {
        item_view(*self)
    }
}

/// The values of a list of items with one more item at its end.
pub proof fn item_views_push(items: Seq<Item>, last: Item)
    ensures
        item_views(items.push(last)) == item_views(items).push(last@),
{
    assert(item_views(items.push(last)) =~= item_views(items).push(last@));
}

/// The empty list of items has the empty list of values.
pub proof fn item_views_empty()
    ensures
        item_views(Seq::<Item>::empty()) == Seq::<ItemView>::empty(),
{
    assert(item_views(Seq::<Item>::empty()) =~= Seq::<ItemView>::empty());
}

/// The texts of a list of names with one more name at its end.
pub proof fn name_views_push(names: Seq<String>, last: String)
    ensures
        name_views(names.push(last)) == name_views(names).push(last@),
{
    assert(name_views(names.push(last)) =~= name_views(names).push(last@));
}

/// The empty list of names has the empty list of texts.
pub proof fn name_views_empty()
    ensures
        name_views(Seq::<String>::empty()) == Seq::<Seq<char>>::empty(),
{
    assert(name_views(Seq::<String>::empty()) =~= Seq::<Seq<char>>::empty());
}

} // verus!
