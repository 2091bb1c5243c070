//! The grammar: function items, blocks, expression statements, atoms and
//! types.
//!
//! Every rule is a function from the state of the lexer to the state that
//! the rule leaves and to what it found. A rule starts with the lookahead
//! on its first token. Where the lookahead is left is fixed rule by rule,
//! and each rule says it:
//!
//! - An atom, an expression and a statement leave the lookahead on the last
//!   token of what they read, be that a single token or the `}` of a block.
//!   What they find does not depend on the text behind it, which they do
//!   not read.
//! - A type, a block read for itself, the head of a function, a function
//!   and an item leave the lookahead on the first token behind what they
//!   read. A type must read that token to know that it has ended.
//!
//! A rule that does not match leaves the lexer where it stopped.
//!
//! A rule that goes on behind a nested rule does so only where the nested
//! rule left the lexer no further from being done than it found it. That
//! keeps the rules well founded; the lemmas at the end of this file show
//! that every rule does leave the lexer so.

use vstd::prelude::*;
use crate::lexer::{LexerErrorView, LexerView, ProgramContext, advancing_lowers_budget};
use crate::nodes::{
    BlockView,
    ExpressionView,
    FunctionHeaderView,
    ItemView,
    StatementView,
    TypeView,
};
use crate::syntax_errors::{SyntaxErrorType, SyntaxErrorView};
use crate::tokens::{Token, TokenView};

verus! {

/// How a rule ends.
pub enum Outcome<T> {
    /// The rule matched and built `T`.
    Done(T),
    /// The rule met a token that it cannot take, or the lexer an error.
    Failed(SyntaxErrorView),
    /// The rule met what this front end does not undertake to read: a
    /// numeral that the tokens cannot hold, an item that is no function, or
    /// a `let` or `const` statement.
    Unhandled,
}

/// The state in which a rule leaves the lexer, and how it ended.
pub struct Step<T> {
    pub state: LexerView,
    pub outcome: Outcome<T>,
}

impl LexerView {
    /// The rule that ends in this state with `value`.
    pub open spec fn done<T>(self, value: T) -> Step<T> {
        Step { state: self, outcome: Outcome::Done(value) }
    }

    /// The rule that fails in this state for want of `expected`: the
    /// diagnostic carries the position of the cursor.
    pub open spec fn fails<T>(self, expected: SyntaxErrorType) -> Step<T> {
        Step {
            state: self,
            outcome: Outcome::Failed(
                SyntaxErrorView { error_type: expected, context: self.position() },
            ),
        }
    }

    /// The rule that fails in this state on the lexical error `error`, which
    /// the diagnostic wraps as it is.
    pub open spec fn fails_lexically<T>(self, error: LexerErrorView) -> Step<T> {
        Step { state: self, outcome: Outcome::Failed(SyntaxErrorView::lexical(error)) }
    }

    /// The rule that gives up in this state.
    pub open spec fn unhandled<T>(self) -> Step<T> {
        Step { state: self, outcome: Outcome::Unhandled }
    }

    /// Reading the next token under `mode`, which becomes the lookahead. A
    /// numeral that the tokens cannot hold is not read: the rule gives up
    /// where it stands.
    pub open spec fn next_token(self, mode: ProgramContext) -> Step<TokenView> {
        let after = self.advanced(mode);
        if !self.readable(mode) {
            after.unhandled()
        } else {
            match self.found(mode) {
                Ok(token) => after.done(token),
                Err(error) => after.fails_lexically(error),
            }
        }
    }

    /// The rule that takes the lookahead for `value` and reads the token
    /// behind it under `mode`, which becomes the lookahead.
    pub open spec fn step_over<T>(self, mode: ProgramContext, value: T) -> Step<T> {
        let read = self.next_token(mode);
        if read.outcome is Done {
            read.state.done(value)
        } else {
            read.carry()
        }
    }
}

impl<T> Step<T> {
    /// The same end for a rule that builds something else. Only a rule that
    /// did not match is carried over; one that did gives up.
    pub open spec fn carry<U>(self) -> Step<U> {
        Step {
            state: self.state,
            outcome: match self.outcome {
                Outcome::Done(_) => Outcome::Unhandled,
                Outcome::Failed(error) => Outcome::Failed(error),
                Outcome::Unhandled => Outcome::Unhandled,
            },
        }
    }
}

/// Every call of the lexer leaves the cursor within the text and the budget
/// no higher, and lowers the budget unless the end marker is handed out
/// once more or the lexeme cannot be read.
pub proof fn budget_never_rises()
    ensures
        forall|lexer: LexerView, mode: ProgramContext|
            lexer.inside() ==> {
                &&& (#[trigger] lexer.advanced(mode)).inside()
                &&& lexer.advanced(mode).budget() <= lexer.budget()
                &&& lexer.readable(mode) && !(lexer.at_end() && lexer.advanced(mode).at_end())
                    ==> lexer.advanced(mode).budget() < lexer.budget()
            },
{
    assert forall|lexer: LexerView, mode: ProgramContext| lexer.inside() implies {
        &&& (#[trigger] lexer.advanced(mode)).inside()
        &&& lexer.advanced(mode).budget() <= lexer.budget()
        &&& lexer.readable(mode) && !(lexer.at_end() && lexer.advanced(mode).at_end())
            ==> lexer.advanced(mode).budget() < lexer.budget()
    } by {
        advancing_lowers_budget(lexer, mode);
    }
}

/// The primitive type that a reserved word of type context names.
pub open spec fn primitive_type(token: TokenView) -> Option<TypeView> {
    match token {
        TokenView::Symbol(Token::I8Keyword) => Some(TypeView::Int8),
        TokenView::Symbol(Token::I16Keyword) => Some(TypeView::Int16),
        TokenView::Symbol(Token::I32Keyword) => Some(TypeView::Int32),
        TokenView::Symbol(Token::I64Keyword) => Some(TypeView::Int64),
        TokenView::Symbol(Token::I128Keyword) => Some(TypeView::Int128),
        TokenView::Symbol(Token::ISizeKeyword) => Some(TypeView::IntSize),
        TokenView::Symbol(Token::U8Keyword) => Some(TypeView::UInt8),
        TokenView::Symbol(Token::U16Keyword) => Some(TypeView::UInt16),
        TokenView::Symbol(Token::U32Keyword) => Some(TypeView::UInt32),
        TokenView::Symbol(Token::U64Keyword) => Some(TypeView::UInt64),
        TokenView::Symbol(Token::U128Keyword) => Some(TypeView::UInt128),
        TokenView::Symbol(Token::USizeKeyword) => Some(TypeView::UIntSize),
        TokenView::Symbol(Token::F32Keyword) => Some(TypeView::Float32),
        TokenView::Symbol(Token::F64Keyword) => Some(TypeView::Float64),
        TokenView::Symbol(Token::BoolKeyword) => Some(TypeView::Boolean),
        TokenView::Symbol(Token::CharKeyword) => Some(TypeView::Char),
        _ => None,
    }
}

/// The type `T?`.
pub open spec fn option_of(inner: TypeView) -> TypeView {
    TypeView::GenericType { name: "Option"@, types: seq![inner] }
}

/// The type `T1|T2`.
pub open spec fn result_of(value: TypeView, error: TypeView) -> TypeView {
    TypeView::GenericType { name: "Result"@, types: seq![value, error] }
}

/// A type atom: the name of a primitive type, the name of another type, or
/// `[T; N]` with `N` an integer literal that is not negative. The lookahead
/// is left on the first token behind the atom.
pub open spec fn type_atom(lexer: LexerView) -> Step<TypeView>
    decreases lexer.budget(), 0nat,
    when lexer.inside()
    via type_atom_ends
{
    match lexer.current {
        Err(error) => lexer.fails_lexically(error),
        Ok(TokenView::Identifier(name)) => lexer.step_over(
            ProgramContext::TypeContext,
            TypeView::Type { name },
        ),
        Ok(TokenView::Symbol(Token::LeftSquareBracketOperator)) => {
            let opened = lexer.next_token(ProgramContext::TypeContext);
            if opened.outcome is Done {
                let element = parse_type(opened.state);
                if let Outcome::Done(inner) = element.outcome {
                    array_tail(element.state, inner)
                } else {
                    element.carry()
                }
            } else {
                opened.carry()
            }
        },
        Ok(token) => match primitive_type(token) {
            Some(primitive) => lexer.step_over(ProgramContext::TypeContext, primitive),
            None => lexer.fails(SyntaxErrorType::TypeExpected),
        },
    }
}

/// What follows the element type of an array type: `;`, the length and `]`.
/// The lookahead starts on the `;` and is left on the first token behind
/// the `]`.
pub open spec fn array_tail(lexer: LexerView, element: TypeView) -> Step<TypeView> {
    match lexer.current {
        Err(error) => lexer.fails_lexically(error),
        Ok(TokenView::Symbol(Token::SemicolonOperator)) => {
            let number = lexer.next_token(ProgramContext::TypeContext);
            match number.outcome {
                Outcome::Done(TokenView::Int(length)) if length >= 0 => {
                    let closing = number.state.next_token(ProgramContext::TypeContext);
                    match closing.outcome {
                        Outcome::Done(
                            TokenView::Symbol(Token::RightSquareBracketOperator),
                        ) => closing.state.step_over(
                            ProgramContext::TypeContext,
                            TypeView::Array { type_: Box::new(element), length: length as nat },
                        ),
                        Outcome::Done(_) => closing.state.fails(
                            SyntaxErrorType::ClosingBracketExpected,
                        ),
                        _ => closing.carry(),
                    }
                },
                Outcome::Done(_) => number.state.fails(SyntaxErrorType::AtomExpected),
                _ => number.carry(),
            }
        },
        Ok(_) => lexer.fails(SyntaxErrorType::SemicolonExpected),
    }
}

/// A type: an atom and the sugar behind it. The lookahead is left on the
/// first token behind the type.
pub open spec fn parse_type(lexer: LexerView) -> Step<TypeView>
    decreases lexer.budget(), 2nat,
    when lexer.inside()
    via parse_type_ends
{
    let atom = type_atom(lexer);
    match atom.outcome {
        Outcome::Done(found) if atom.state.follows(lexer) => type_suffixes(atom.state, found),
        _ => atom.carry(),
    }
}

/// The sugar behind the type `so_far`, from left to right, with the
/// lookahead on the first token behind `so_far`: `&` makes a pointer, `?`
/// an `Option`, `|` with a second type a `Result`, and `<` opens the
/// arguments of a type that so far is a plain name. The first token that is
/// none of these ends the type and stays as the lookahead.
pub open spec fn type_suffixes(lexer: LexerView, so_far: TypeView) -> Step<TypeView>
    decreases lexer.budget(), 1nat,
    when lexer.inside()
    via type_suffixes_ends
{
    match lexer.current {
        Err(error) => lexer.fails_lexically(error),
        Ok(TokenView::Symbol(Token::AmpersandOperator)) => {
            let read = lexer.next_token(ProgramContext::TypeContext);
            if read.outcome is Done {
                type_suffixes(read.state, TypeView::Pointer { pointed: Box::new(so_far) })
            } else {
                read.carry()
            }
        },
        Ok(TokenView::Symbol(Token::QuestionOperator)) => {
            let read = lexer.next_token(ProgramContext::TypeContext);
            if read.outcome is Done {
                type_suffixes(read.state, option_of(so_far))
            } else {
                read.carry()
            }
        },
        Ok(TokenView::Symbol(Token::PipeOperator)) => {
            let first = lexer.next_token(ProgramContext::TypeContext);
            if first.outcome is Done {
                let second = parse_type(first.state);
                match second.outcome {
                    Outcome::Done(other) if second.state.follows(first.state) => type_suffixes(
                        second.state,
                        result_of(so_far, other),
                    ),
                    _ => second.carry(),
                }
            } else {
                first.carry()
            }
        },
        Ok(TokenView::Symbol(Token::LeftChevronOperator)) => {
            if let TypeView::Type { name } = so_far {
                let first = lexer.next_token(ProgramContext::TypeContext);
                if first.outcome is Done {
                    let arguments = type_arguments(first.state, Seq::empty());
                    match arguments.outcome {
                        Outcome::Done(types) if arguments.state.follows(first.state)
                            => type_suffixes(
                            arguments.state,
                            TypeView::GenericType { name, types },
                        ),
                        _ => arguments.carry(),
                    }
                } else {
                    first.carry()
                }
            } else {
                lexer.fails(SyntaxErrorType::AtomExpected)
            }
        },
        Ok(_) => lexer.done(so_far),
    }
}

/// The arguments of a generic type behind those in `so_far`: types with a
/// comma between them, up to the `>` that closes them. A comma may stand
/// before the `>`. The lookahead is left on the first token behind the `>`.
pub open spec fn type_arguments(lexer: LexerView, so_far: Seq<TypeView>) -> Step<Seq<TypeView>>
    decreases lexer.budget(), 3nat,
    when lexer.inside()
    via type_arguments_ends
{
    match lexer.current {
        Err(error) => lexer.fails_lexically(error),
        Ok(TokenView::Symbol(Token::RightChevronOperator)) => lexer.step_over(
            ProgramContext::TypeContext,
            so_far,
        ),
        Ok(_) => {
            let argument = parse_type(lexer);
            match argument.outcome {
                Outcome::Done(found) if argument.state.follows(lexer) => {
                    match argument.state.current {
                        Ok(
                            TokenView::Symbol(Token::RightChevronOperator),
                        ) => argument.state.step_over(
                            ProgramContext::TypeContext,
                            so_far.push(found),
                        ),
                        Ok(TokenView::Symbol(Token::CommaOperator)) => {
                            let next = argument.state.next_token(ProgramContext::TypeContext);
                            if next.outcome is Done {
                                type_arguments(next.state, so_far.push(found))
                            } else {
                                next.carry()
                            }
                        },
                        _ => argument.state.fails(SyntaxErrorType::SemicolonExpected),
                    }
                },
                _ => argument.carry(),
            }
        },
    }
}

#[via_fn]
proof fn type_atom_ends(lexer: LexerView) {
    budget_never_rises();
}

#[via_fn]
proof fn parse_type_ends(lexer: LexerView) {
    budget_never_rises();
}

#[via_fn]
proof fn type_suffixes_ends(lexer: LexerView, so_far: TypeView) {
    budget_never_rises();
}

#[via_fn]
proof fn type_arguments_ends(lexer: LexerView, so_far: Seq<TypeView>) {
    budget_never_rises();
}

/// A block as an expression: `{`, statements with a semicolon behind each,
/// and `}`. The last statement may go without its semicolon if it is an
/// expression, which is then what the block ends with. The lookahead is
/// left on the `}`.
pub open spec fn block_body(lexer: LexerView) -> Step<BlockView>
    decreases lexer.budget(), 0nat,
    when lexer.inside()
    via block_body_ends
{
    match lexer.current {
        Err(error) => lexer.fails_lexically(error),
        Ok(TokenView::Symbol(Token::LeftCurlyBracketOperator)) => block_items(lexer, Seq::empty()),
        Ok(_) => lexer.fails(SyntaxErrorType::BlockExpected),
    }
}

/// The rest of a block behind the statements in `so_far`, with the
/// lookahead on the token before the next statement: the `{` of the block
/// or the `;` of the last statement. The token behind it is a `}`, which
/// ends the block, or starts a statement. Behind a statement stands `;`,
/// and the block goes on, or `}`, and the statement is what the block ends
/// with. The lookahead is left on the `}`.
pub open spec fn block_items(lexer: LexerView, so_far: Seq<StatementView>) -> Step<BlockView>
    decreases lexer.rest(), 4nat,
    when lexer.inside()
    via block_items_ends
{
    let first = lexer.next_token(ProgramContext::NormalContext);
    match first.outcome {
        Outcome::Done(TokenView::Symbol(Token::RightCurlyBracketOperator)) => first.state.done(
            BlockView { statements: so_far, expression: None },
        ),
        Outcome::Done(_) => {
            let statement = parse_statement(first.state);
            match statement.outcome {
                Outcome::Done(found) if statement.state.follows(first.state) => {
                    let separator = statement.state.next_token(ProgramContext::NormalContext);
                    match separator.outcome {
                        Outcome::Done(TokenView::Symbol(Token::SemicolonOperator)) => block_items(
                            separator.state,
                            so_far.push(found),
                        ),
                        Outcome::Done(TokenView::Symbol(Token::RightCurlyBracketOperator)) => {
                            if let StatementView::ExpressionStatement { expression } = found {
                                separator.state.done(
                                    BlockView {
                                        statements: so_far,
                                        expression: Some(Box::new(expression)),
                                    },
                                )
                            } else {
                                separator.state.fails(SyntaxErrorType::SemicolonExpected)
                            }
                        },
                        Outcome::Done(_) => separator.state.fails(
                            SyntaxErrorType::SemicolonExpected,
                        ),
                        _ => separator.carry(),
                    }
                },
                _ => statement.carry(),
            }
        },
        _ => first.carry(),
    }
}

/// A statement. Only the expression statement is read; `let` and `const`
/// are not undertaken. The lookahead is left on the last token of the
/// statement.
pub open spec fn parse_statement(lexer: LexerView) -> Step<StatementView>
    decreases lexer.budget(), 3nat,
    when lexer.inside()
    via parse_statement_ends
{
    match lexer.current {
        Err(error) => lexer.fails_lexically(error),
        Ok(TokenView::Symbol(Token::LetKeyword)) => lexer.unhandled(),
        Ok(TokenView::Symbol(Token::ConstKeyword)) => lexer.unhandled(),
        Ok(_) => {
            let expression = parse_expression(lexer);
            match expression.outcome {
                Outcome::Done(found) => expression.state.done(
                    StatementView::ExpressionStatement { expression: found },
                ),
                _ => expression.carry(),
            }
        },
    }
}

/// An expression, which so far is an atom. The lookahead is left on the
/// last token of the expression.
pub open spec fn parse_expression(lexer: LexerView) -> Step<ExpressionView>
    decreases lexer.budget(), 2nat,
    when lexer.inside()
    via parse_expression_ends
{
    parse_atom(lexer)
}

/// An atom: a literal, an identifier, or a block. A literal or an
/// identifier is the lookahead itself, and what the atom is depends on that
/// token alone: nothing behind it is read. The lookahead is left on the
/// last token of the atom, which for a block is its `}`.
pub open spec fn parse_atom(lexer: LexerView) -> Step<ExpressionView>
    decreases lexer.budget(), 1nat,
    when lexer.inside()
    via parse_atom_ends
{
    match lexer.current {
        Err(error) => lexer.fails_lexically(error),
        Ok(TokenView::Int(value)) => lexer.done(ExpressionView::IntLiteral { value }),
        Ok(TokenView::Float(value)) => lexer.done(ExpressionView::FloatLiteral { value }),
        Ok(TokenView::Text(value)) => lexer.done(ExpressionView::StringLiteral { value }),
        Ok(TokenView::Char(value)) => lexer.done(ExpressionView::CharLiteral { value }),
        Ok(TokenView::Identifier(name)) => lexer.done(ExpressionView::Variable { name }),
        Ok(TokenView::Symbol(Token::TrueKeyword)) => lexer.done(
            ExpressionView::BooleanLiteral { value: true },
        ),
        Ok(TokenView::Symbol(Token::FalseKeyword)) => lexer.done(
            ExpressionView::BooleanLiteral { value: false },
        ),
        Ok(TokenView::Symbol(Token::LeftCurlyBracketOperator)) => {
            let block = block_body(lexer);
            match block.outcome {
                Outcome::Done(body) => block.state.done(ExpressionView::BlockExpression { body }),
                _ => block.carry(),
            }
        },
        Ok(_) => lexer.fails(SyntaxErrorType::AtomExpected),
    }
}

/// A block read for itself, as the body of a function is: the block, and
/// the token behind its `}`, on which the lookahead is left.
pub open spec fn parse_block(lexer: LexerView) -> Step<BlockView> {
    let body = block_body(lexer);
    match body.outcome {
        Outcome::Done(block) => body.state.step_over(ProgramContext::NormalContext, block),
        _ => body,
    }
}

#[via_fn]
proof fn block_body_ends(lexer: LexerView) {
    budget_never_rises();
}

#[via_fn]
proof fn block_items_ends(lexer: LexerView, so_far: Seq<StatementView>) {
    budget_never_rises();
}

#[via_fn]
proof fn parse_statement_ends(lexer: LexerView) {
    budget_never_rises();
}

#[via_fn]
proof fn parse_expression_ends(lexer: LexerView) {
    budget_never_rises();
}

#[via_fn]
proof fn parse_atom_ends(lexer: LexerView) {
    budget_never_rises();
}

/// The names and the types of parameters, paired by place.
pub struct ParametersView {
    pub names: Seq<Seq<char>>,
    pub types: Seq<TypeView>,
}

/// The parameters of a function behind those in `so_far`, up to the `)`
/// that closes them: each a name, `:` and a type. A comma behind a
/// parameter is passed over. The lookahead is left on the first token
/// behind the `)`.
pub open spec fn header_parameters(lexer: LexerView, so_far: ParametersView) -> Step<
    ParametersView,
>
    decreases lexer.budget(),
    when lexer.inside()
    via header_parameters_ends
{
    match lexer.current {
        Err(error) => lexer.fails_lexically(error),
        Ok(TokenView::Symbol(Token::RightParenthesisOperator)) => lexer.step_over(
            ProgramContext::NormalContext,
            so_far,
        ),
        Ok(TokenView::Identifier(name)) => {
            let colon = lexer.next_token(ProgramContext::NormalContext);
            match colon.outcome {
                Outcome::Done(TokenView::Symbol(Token::ColonOperator)) => {
                    let first = colon.state.next_token(ProgramContext::TypeContext);
                    if first.outcome is Done {
                        let type_ = parse_type(first.state);
                        match type_.outcome {
                            Outcome::Done(found) if type_.state.follows(first.state) => {
                                let longer = ParametersView {
                                    names: so_far.names.push(name),
                                    types: so_far.types.push(found),
                                };
                                match type_.state.current {
                                    Ok(TokenView::Symbol(Token::CommaOperator)) => {
                                        let next = type_.state.next_token(
                                            ProgramContext::NormalContext,
                                        );
                                        if next.outcome is Done {
                                            header_parameters(next.state, longer)
                                        } else {
                                            next.carry()
                                        }
                                    },
                                    _ => header_parameters(type_.state, longer),
                                }
                            },
                            _ => type_.carry(),
                        }
                    } else {
                        first.carry()
                    }
                },
                Outcome::Done(_) => colon.state.fails(SyntaxErrorType::BlockExpected),
                _ => colon.carry(),
            }
        },
        Ok(_) => lexer.fails(SyntaxErrorType::IdentifierExpected),
    }
}

#[via_fn]
proof fn header_parameters_ends(lexer: LexerView, so_far: ParametersView) {
    budget_never_rises();
}

/// The type that a function returns, with the lookahead on the first token
/// behind the `)` of its parameters: `:` and a type, or nothing, which
/// stands for `Void`. The lookahead is left on the first token behind.
pub open spec fn header_return(lexer: LexerView) -> Step<TypeView> {
    match lexer.current {
        Err(error) => lexer.fails_lexically(error),
        Ok(TokenView::Symbol(Token::ColonOperator)) => {
            let first = lexer.next_token(ProgramContext::TypeContext);
            if first.outcome is Done {
                parse_type(first.state)
            } else {
                first.carry()
            }
        },
        Ok(_) => lexer.done(TypeView::Void),
    }
}

/// The head of a function: `fn`, its name, its parameters in parentheses,
/// and the type it returns. The lookahead is left on the first token behind
/// the head.
pub open spec fn parse_function_header(lexer: LexerView) -> Step<FunctionHeaderView> {
    match lexer.current {
        Err(error) => lexer.fails_lexically(error),
        Ok(TokenView::Symbol(Token::FnKeyword)) => {
            let name = lexer.next_token(ProgramContext::NormalContext);
            match name.outcome {
                Outcome::Done(TokenView::Identifier(id)) => {
                    let opening = name.state.next_token(ProgramContext::NormalContext);
                    match opening.outcome {
                        Outcome::Done(TokenView::Symbol(Token::LeftParenthesisOperator)) => {
                            let first = opening.state.next_token(ProgramContext::NormalContext);
                            if first.outcome is Done {
                                let parameters = header_parameters(
                                    first.state,
                                    ParametersView { names: Seq::empty(), types: Seq::empty() },
                                );
                                match parameters.outcome {
                                    Outcome::Done(found) => {
                                        let returned = header_return(parameters.state);
                                        match returned.outcome {
                                            Outcome::Done(return_type) => returned.state.done(
                                                FunctionHeaderView {
                                                    name: id,
                                                    parameters: found.names,
                                                    types: found.types,
                                                    return_type,
                                                },
                                            ),
                                            _ => returned.carry(),
                                        }
                                    },
                                    _ => parameters.carry(),
                                }
                            } else {
                                first.carry()
                            }
                        },
                        Outcome::Done(_) => opening.state.fails(SyntaxErrorType::BlockExpected),
                        _ => opening.carry(),
                    }
                },
                Outcome::Done(_) => name.state.fails(SyntaxErrorType::IdentifierExpected),
                _ => name.carry(),
            }
        },
        Ok(_) => lexer.fails(SyntaxErrorType::BlockExpected),
    }
}

/// A function: its head and the block that is its body. The lookahead is
/// left on the first token behind the body.
pub open spec fn parse_function(lexer: LexerView) -> Step<ItemView> {
    let header = parse_function_header(lexer);
    match header.outcome {
        Outcome::Done(head) => {
            let block = parse_block(header.state);
            match block.outcome {
                Outcome::Done(body) => block.state.done(ItemView::Function { header: head, body }),
                _ => block.carry(),
            }
        },
        _ => header.carry(),
    }
}

/// An item. Only the function is read; an item that starts with anything
/// but `fn` is not undertaken. The lookahead is left on the first token
/// behind the item.
pub open spec fn parse_item(lexer: LexerView) -> Step<ItemView> {
    match lexer.current {
        Err(error) => lexer.fails_lexically(error),
        Ok(TokenView::Symbol(Token::FnKeyword)) => parse_function(lexer),
        Ok(_) => lexer.unhandled(),
    }
}

/// The items behind those in `so_far`, up to the end of the input. The
/// first item that does not match ends the parse with its diagnostic.
pub open spec fn parse_items(lexer: LexerView, so_far: Seq<ItemView>) -> Step<Seq<ItemView>>
    decreases lexer.budget(),
    when lexer.inside()
{
    match lexer.current {
        Err(error) => lexer.fails_lexically(error),
        Ok(TokenView::Symbol(Token::EOF)) => lexer.done(so_far),
        Ok(_) => {
            let item = parse_item(lexer);
            match item.outcome {
                Outcome::Done(found) if item.state.inside() && item.state.budget()
                    < lexer.budget() => parse_items(item.state, so_far.push(found)),
                _ => item.carry(),
            }
        },
    }
}

/// A whole file: its items in order, with the lookahead on the first token
/// of the input.
pub open spec fn parse_file(lexer: LexerView) -> Step<Seq<ItemView>> {
    parse_items(lexer, Seq::empty())
}

/// Whether `item`, if it is a function, holds as many parameter types as
/// parameter names.
pub open spec fn pairs_parameters(item: ItemView) -> bool {
    item matches ItemView::Function { header, .. } ==> header.parameters.len()
        == header.types.len()
}

proof fn type_atom_moves_forward(lexer: LexerView)
    requires
        lexer.inside(),
    ensures
        type_atom(lexer).state.follows(lexer),
        type_atom(lexer).outcome is Done ==> type_atom(lexer).state.budget() < lexer.budget()
            && type_atom(lexer).state.current is Ok,
    decreases lexer.budget(), 0nat,
{
    budget_never_rises();
    if lexer.current == Ok::<TokenView, LexerErrorView>(
        TokenView::Symbol(Token::LeftSquareBracketOperator),
    ) {
        let opened = lexer.next_token(ProgramContext::TypeContext);
        if opened.outcome is Done {
            parse_type_moves_forward(opened.state);
        }
    }
}

/// A type never moves the cursor back: the lexer is left within the text
/// and no further from being done than it was found. A type that was read
/// moved the lexer on: the lookahead is a token that was read behind it,
/// and no lexical error.
pub proof fn parse_type_moves_forward(lexer: LexerView)
    requires
        lexer.inside(),
    ensures
        parse_type(lexer).state.follows(lexer),
        parse_type(lexer).outcome is Done ==> parse_type(lexer).state.budget() < lexer.budget()
            && parse_type(lexer).state.current is Ok,
    decreases lexer.budget(), 2nat,
{
    budget_never_rises();
    type_atom_moves_forward(lexer);
    let atom = type_atom(lexer);
    if let Outcome::Done(found) = atom.outcome {
        type_suffixes_move_forward(atom.state, found);
    }
}

proof fn type_suffixes_move_forward(lexer: LexerView, so_far: TypeView)
    requires
        lexer.inside(),
    ensures
        type_suffixes(lexer, so_far).state.follows(lexer),
        type_suffixes(lexer, so_far).outcome is Done ==> type_suffixes(
            lexer,
            so_far,
        ).state.current is Ok,
    decreases lexer.budget(), 1nat,
{
    budget_never_rises();
    let read = lexer.next_token(ProgramContext::TypeContext);
    match lexer.current {
        Ok(TokenView::Symbol(Token::AmpersandOperator)) => {
            if read.outcome is Done {
                type_suffixes_move_forward(
                    read.state,
                    TypeView::Pointer { pointed: Box::new(so_far) },
                );
            }
        },
        Ok(TokenView::Symbol(Token::QuestionOperator)) => {
            if read.outcome is Done {
                type_suffixes_move_forward(read.state, option_of(so_far));
            }
        },
        Ok(TokenView::Symbol(Token::PipeOperator)) => {
            if read.outcome is Done {
                parse_type_moves_forward(read.state);
                let second = parse_type(read.state);
                if let Outcome::Done(other) = second.outcome {
                    type_suffixes_move_forward(second.state, result_of(so_far, other));
                }
            }
        },
        Ok(TokenView::Symbol(Token::LeftChevronOperator)) => {
            if let TypeView::Type { name } = so_far {
                if read.outcome is Done {
                    type_arguments_move_forward(read.state, Seq::empty());
                    let arguments = type_arguments(read.state, Seq::empty());
                    if let Outcome::Done(types) = arguments.outcome {
                        type_suffixes_move_forward(
                            arguments.state,
                            TypeView::GenericType { name, types },
                        );
                    }
                }
            }
        },
        _ => {},
    }
}

proof fn type_arguments_move_forward(lexer: LexerView, so_far: Seq<TypeView>)
    requires
        lexer.inside(),
    ensures
        type_arguments(lexer, so_far).state.follows(lexer),
        type_arguments(lexer, so_far).outcome is Done ==> type_arguments(
            lexer,
            so_far,
        ).state.current is Ok,
    decreases lexer.budget(), 3nat,
{
    budget_never_rises();
    if lexer.current is Ok && lexer.current != Ok::<TokenView, LexerErrorView>(
        TokenView::Symbol(Token::RightChevronOperator),
    ) {
        parse_type_moves_forward(lexer);
        let argument = parse_type(lexer);
        if let Outcome::Done(found) = argument.outcome {
            if argument.state.current == Ok::<TokenView, LexerErrorView>(
                TokenView::Symbol(Token::CommaOperator),
            ) {
                let next = argument.state.next_token(ProgramContext::TypeContext);
                if next.outcome is Done {
                    type_arguments_move_forward(next.state, so_far.push(found));
                }
            }
        }
    }
}

proof fn block_body_moves_forward(lexer: LexerView)
    requires
        lexer.inside(),
    ensures
        block_body(lexer).state.follows(lexer),
        block_body(lexer).outcome is Done ==> block_body(lexer).state.budget() < lexer.budget(),
    decreases lexer.budget(), 0nat,
{
    budget_never_rises();
    if lexer.current == Ok::<TokenView, LexerErrorView>(
        TokenView::Symbol(Token::LeftCurlyBracketOperator),
    ) {
        block_items_move_forward(lexer, Seq::empty());
    }
}

proof fn block_items_move_forward(lexer: LexerView, so_far: Seq<StatementView>)
    requires
        lexer.inside(),
    ensures
        block_items(lexer, so_far).state.follows(lexer),
        block_items(lexer, so_far).outcome is Done ==> block_items(lexer, so_far).state.budget()
            < lexer.budget(),
    decreases lexer.rest(), 4nat,
{
    budget_never_rises();
    let first = lexer.next_token(ProgramContext::NormalContext);
    if first.outcome is Done && first.outcome != Outcome::Done(
        TokenView::Symbol(Token::RightCurlyBracketOperator),
    ) {
        parse_statement_moves_forward(first.state);
        let statement = parse_statement(first.state);
        if let Outcome::Done(found) = statement.outcome {
            let separator = statement.state.next_token(ProgramContext::NormalContext);
            if separator.outcome == Outcome::Done(TokenView::Symbol(Token::SemicolonOperator)) {
                block_items_move_forward(separator.state, so_far.push(found));
            }
        }
    }
}

proof fn parse_statement_moves_forward(lexer: LexerView)
    requires
        lexer.inside(),
    ensures
        parse_statement(lexer).state.follows(lexer),
    decreases lexer.budget(), 3nat,
{
    parse_expression_moves_forward(lexer);
}

/// An expression never moves the cursor back: the lexer is left within the
/// text and no further from being done than it was found.
pub proof fn parse_expression_moves_forward(lexer: LexerView)
    requires
        lexer.inside(),
    ensures
        parse_expression(lexer).state.follows(lexer),
    decreases lexer.budget(), 2nat,
{
    parse_atom_moves_forward(lexer);
}

proof fn parse_atom_moves_forward(lexer: LexerView)
    requires
        lexer.inside(),
    ensures
        parse_atom(lexer).state.follows(lexer),
    decreases lexer.budget(), 1nat,
{
    if lexer.current == Ok::<TokenView, LexerErrorView>(
        TokenView::Symbol(Token::LeftCurlyBracketOperator),
    ) {
        block_body_moves_forward(lexer);
    }
}

/// What an atom is depends on the lookahead alone where that is a literal,
/// an identifier, `true` or `false`: whatever the text behind it holds, the
/// atom is found, and the lexer stays as it is.
pub proof fn single_token_atom_ignores_the_rest(lexer: LexerView)
    requires
        lexer.inside(),
        lexer.current matches Ok(token) && (token is Int || token is Float || token is Text
            || token is Char || token is Identifier || token == TokenView::Symbol(
            Token::TrueKeyword,
        ) || token == TokenView::Symbol(Token::FalseKeyword)),
    ensures
        parse_expression(lexer).outcome is Done,
        parse_expression(lexer).state == lexer,
        parse_expression(lexer).outcome == (match lexer.current->Ok_0 {
            TokenView::Int(value) => Outcome::Done(ExpressionView::IntLiteral { value }),
            TokenView::Float(value) => Outcome::Done(ExpressionView::FloatLiteral { value }),
            TokenView::Text(value) => Outcome::Done(ExpressionView::StringLiteral { value }),
            TokenView::Char(value) => Outcome::Done(ExpressionView::CharLiteral { value }),
            TokenView::Identifier(name) => Outcome::Done(ExpressionView::Variable { name }),
            TokenView::Symbol(word) => Outcome::Done(
                ExpressionView::BooleanLiteral { value: word is TrueKeyword },
            ),
        }),
{
}

/// A block read for itself never moves the cursor back, and one that was
/// read moved it on.
pub proof fn parse_block_moves_forward(lexer: LexerView)
    requires
        lexer.inside(),
    ensures
        parse_block(lexer).state.follows(lexer),
        parse_block(lexer).outcome is Done ==> parse_block(lexer).state.budget() < lexer.budget(),
{
    budget_never_rises();
    block_body_moves_forward(lexer);
}

proof fn header_parameters_move_forward(lexer: LexerView, so_far: ParametersView)
    requires
        lexer.inside(),
        so_far.names.len() == so_far.types.len(),
    ensures
        header_parameters(lexer, so_far).state.follows(lexer),
        header_parameters(lexer, so_far).outcome matches Outcome::Done(found)
            ==> found.names.len() == found.types.len(),
    decreases lexer.budget(),
{
    budget_never_rises();
    if let Ok(TokenView::Identifier(name)) = lexer.current {
        let colon = lexer.next_token(ProgramContext::NormalContext);
        if colon.outcome == Outcome::Done(TokenView::Symbol(Token::ColonOperator)) {
            let first = colon.state.next_token(ProgramContext::TypeContext);
            if first.outcome is Done {
                parse_type_moves_forward(first.state);
                let type_ = parse_type(first.state);
                if let Outcome::Done(found) = type_.outcome {
                    let longer = ParametersView {
                        names: so_far.names.push(name),
                        types: so_far.types.push(found),
                    };
                    if type_.state.current == Ok::<TokenView, LexerErrorView>(
                        TokenView::Symbol(Token::CommaOperator),
                    ) {
                        let next = type_.state.next_token(ProgramContext::NormalContext);
                        if next.outcome is Done {
                            header_parameters_move_forward(next.state, longer);
                        }
                    } else if type_.state.current is Ok {
                        header_parameters_move_forward(type_.state, longer);
                    }
                }
            }
        }
    }
}

/// The head of a function pairs its parameters by place: it holds as many
/// types as names. Reading it moves the cursor on.
pub proof fn header_pairs_names_with_types(lexer: LexerView)
    requires
        lexer.inside(),
    ensures
        parse_function_header(lexer).state.follows(lexer),
        parse_function_header(lexer).outcome matches Outcome::Done(header) ==> {
            &&& header.parameters.len() == header.types.len()
            &&& parse_function_header(lexer).state.budget() < lexer.budget()
        },
{
    budget_never_rises();
    if lexer.current == Ok::<TokenView, LexerErrorView>(TokenView::Symbol(Token::FnKeyword)) {
        let name = lexer.next_token(ProgramContext::NormalContext);
        if name.outcome is Done {
            let opening = name.state.next_token(ProgramContext::NormalContext);
            if opening.outcome is Done {
                let first = opening.state.next_token(ProgramContext::NormalContext);
                if first.outcome is Done {
                    let none = ParametersView { names: Seq::empty(), types: Seq::empty() };
                    header_parameters_move_forward(first.state, none);
                    let parameters = header_parameters(first.state, none);
                    if parameters.outcome is Done {
                        let start = parameters.state.next_token(ProgramContext::TypeContext);
                        if start.outcome is Done {
                            parse_type_moves_forward(start.state);
                        }
                    }
                }
            }
        }
    }
}

/// An item that was read moved the cursor on, and whether read or not, no
/// item moves it back.
pub proof fn parse_item_moves_forward(lexer: LexerView)
    requires
        lexer.inside(),
    ensures
        parse_item(lexer).state.follows(lexer),
        parse_item(lexer).outcome is Done ==> parse_item(lexer).state.budget() < lexer.budget(),
{
    header_pairs_names_with_types(lexer);
    let header = parse_function_header(lexer);
    if header.outcome is Done {
        parse_block_moves_forward(header.state);
    }
}

/// A whole parse never moves the cursor back. Where it succeeds it has read
/// the input to its end, and every item that it found is a function that
/// holds as many parameter types as parameter names.
pub proof fn parse_file_moves_forward(lexer: LexerView)
    requires
        lexer.inside(),
    ensures
        parse_file(lexer).state.follows(lexer),
        parse_file(lexer).outcome matches Outcome::Done(items) ==> {
            &&& parse_file(lexer).state.at_end()
            &&& forall|i: int|
                0 <= i < items.len() ==> (#[trigger] items[i]) is Function && pairs_parameters(
                    items[i],
                )
        },
{
    parse_items_move_forward(lexer, Seq::empty());
}

proof fn parse_items_move_forward(lexer: LexerView, so_far: Seq<ItemView>)
    requires
        lexer.inside(),
        forall|i: int|
            0 <= i < so_far.len() ==> (#[trigger] so_far[i]) is Function && pairs_parameters(
                so_far[i],
            ),
    ensures
        parse_items(lexer, so_far).state.follows(lexer),
        parse_items(lexer, so_far).outcome matches Outcome::Done(items) ==> {
            &&& parse_items(lexer, so_far).state.at_end()
            &&& forall|i: int|
                0 <= i < items.len() ==> (#[trigger] items[i]) is Function && pairs_parameters(
                    items[i],
                )
        },
    decreases lexer.budget(),
{
    if lexer.current is Ok && !lexer.at_end() {
        parse_item_moves_forward(lexer);
        header_pairs_names_with_types(lexer);
        let item = parse_item(lexer);
        if let Outcome::Done(found) = item.outcome {
            parse_items_move_forward(item.state, so_far.push(found));
        }
    }
}

} // verus!
