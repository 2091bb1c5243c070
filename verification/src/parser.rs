//! The parser: recursive descent over a lexer with one token of lookahead.
//!
//! Each function reads what a rule of [`crate::grammar`] describes, and is
//! proved to leave the lexer in the state and to return the result that the
//! rule gives. Like the rules, every function starts with the lookahead on
//! the first token of what it reads. An atom, an expression and a statement
//! leave it on the last token of what they read; a type, a block read for
//! itself, the head of a function, a function and an item leave it on the
//! first token behind.
//!
//! What this front end does not undertake to read comes in three ways. The
//! functions that read any input tell it apart as `Unhandled`. `parse`,
//! `parse_type`, `parse_expression` and `parse_block` leave such input out.
//! Each has a test beside it (`handles_file` and so on) and a function that
//! makes the test and then the call (`try_parse` and so on).

use vstd::prelude::*;
use vstd::string::StringExecFns;
use crate::grammar::{
    Outcome,
    ParametersView,
    array_tail,
    block_body,
    block_items,
    header_parameters,
    header_return,
    option_of,
    pairs_parameters,
    parse_atom,
    parse_block,
    parse_expression,
    parse_file,
    parse_file_moves_forward,
    parse_function,
    parse_function_header,
    parse_item,
    parse_items,
    parse_statement,
    parse_type,
    result_of,
    type_arguments,
    type_atom,
    type_suffixes,
};
use crate::lexer::{Lexer, LexerError, ProgramContext};
use crate::nodes::{
    Block,
    Expression,
    FunctionHeader,
    Item,
    ItemView,
    Statement,
    Type,
    TypeView,
    item_views,
    item_views_empty,
    item_views_push,
    name_views,
    name_views_empty,
    name_views_push,
    statement_views,
    statement_views_empty,
    statement_views_push,
    type_views,
    type_views_empty,
    type_views_push,
};
pub use crate::syntax_errors::{SyntaxError, SyntaxErrorType};
use crate::syntax_errors::SyntaxErrorView;
use crate::tokens::Token;

verus! {

/// How a rule of the parser ended.
#[derive(Debug, PartialEq)]
pub enum Parsed<T> {
    /// The rule matched and built `T`.
    Done(T),
    /// The rule met a token that it cannot take, or the lexer an error.
    Failed(SyntaxError),
    /// The rule met what this front end does not undertake to read.
    Unhandled,
}

impl<T: View> View for Parsed<T> {
    type V = Outcome<T::V>;

    open spec fn view(&self) -> Outcome<T::V> {
        match self {
            Parsed::Done(value) => Outcome::Done(value@),
            Parsed::Failed(error) => Outcome::Failed(error@),
            Parsed::Unhandled => Outcome::Unhandled,
        }
    }
}

/// How a rule that builds a list of types ended, as a mathematical value.
pub open spec fn types_outcome(r: Parsed<Vec<Type>>) -> Outcome<Seq<TypeView>> {
    match r {
        Parsed::Done(types) => Outcome::Done(type_views(types@)),
        Parsed::Failed(error) => Outcome::Failed(error@),
        Parsed::Unhandled => Outcome::Unhandled,
    }
}

/// What a result with a list of diagnostics reports: the value, or the one
/// diagnostic of the list.
pub open spec fn reported<T: View>(r: Result<T, Vec<SyntaxError>>) -> Outcome<T::V> {
    match r {
        Ok(value) => Outcome::Done(value@),
        Err(errors) => if errors@.len() == 1 {
            Outcome::Failed(errors@[0]@)
        } else {
            Outcome::Unhandled
        },
    }
}

/// The result for a rule that was handled: its value, or a list that holds
/// its one diagnostic.
pub fn settle<T: View>(parsed: Parsed<T>) -> (r: Result<T, Vec<SyntaxError>>)
    requires
        !(parsed is Unhandled),
    ensures
        reported(r) == parsed@,
{
    match parsed {
        Parsed::Done(value) => Ok(value),
        Parsed::Failed(error) => {
            let mut errors: Vec<SyntaxError> = Vec::new();
            errors.push(error);
            Err(errors)
        },
        Parsed::Unhandled => vstd::pervasive::unreached(),
    }
}

/// The names and the types of parameters, paired by place.
pub struct Parameters {
    pub names: Vec<String>,
    pub types: Vec<Type>,
}

impl View for Parameters {
    type V = ParametersView;

    open spec fn view(&self) -> ParametersView {
        ParametersView { names: name_views(self.names@), types: type_views(self.types@) }
    }
}

/// How a rule that builds a list of items ended, as a mathematical value.
pub open spec fn items_outcome(r: Parsed<Vec<Item>>) -> Outcome<Seq<ItemView>> {
    match r {
        Parsed::Done(items) => Outcome::Done(item_views(items@)),
        Parsed::Failed(error) => Outcome::Failed(error@),
        Parsed::Unhandled => Outcome::Unhandled,
    }
}

/// What the result of a whole parse reports: the items, or the one
/// diagnostic of the list.
pub open spec fn reported_items(r: Result<Vec<Item>, Vec<SyntaxError>>) -> Outcome<Seq<ItemView>> {
    match r {
        Ok(items) => Outcome::Done(item_views(items@)),
        Err(errors) => if errors@.len() == 1 {
            Outcome::Failed(errors@[0]@)
        } else {
            Outcome::Unhandled
        },
    }
}

/// The sugar that may stand behind a type.
#[derive(Clone, Copy, Debug, PartialEq, Eq)]
enum Sugar {
    Pointer,
    Optional,
    Union,
    Arguments,
}

impl Lexer {
    /// The diagnostic of kind `error_type` at the cursor.
    fn error(&self, error_type: SyntaxErrorType) -> (e: SyntaxError)
        requires
            self.wf(),
        ensures
            e@ == (SyntaxErrorView { error_type, context: self@.position() }),
    {
        SyntaxError { error_type, context: self.snapshot() }
    }

    /// The diagnostic that wraps the lexical error `lex_error` as it is.
    fn lexer_error(lex_error: &LexerError) -> (e: SyntaxError)
        ensures
            e@ == SyntaxErrorView::lexical(lex_error@),
    {
        SyntaxError {
            error_type: SyntaxErrorType::LexerError(lex_error.error_type),
            context: lex_error.context.duplicate(),
        }
    }

    /// Reads the next token under `program_context`, which becomes the
    /// lookahead.
    fn next_token(&mut self, program_context: ProgramContext) -> (r: Parsed<Token>)
        requires
            old(self).wf(),
        ensures
            final(self).wf(),
            final(self)@ == old(self)@.next_token(program_context).state,
            r@ == old(self)@.next_token(program_context).outcome,
            final(self)@.follows(old(self)@),
            !(r is Unhandled) && !(old(self)@.at_end() && final(self)@.at_end()) ==> final(self)@.budget() < old(self)@.budget(),
    {
        match self.try_next(program_context) {
            Some(Ok(token)) => Parsed::Done(token),
            Some(Err(lex_error)) => Parsed::Failed(Self::lexer_error(&lex_error)),
            None => Parsed::Unhandled,
        }
    }

    /// Takes the lookahead for `value` and reads the token behind it under
    /// `program_context`.
    fn step_over<T: View>(&mut self, program_context: ProgramContext, value: T) -> (r: Parsed<T>)
        requires
            old(self).wf(),
        ensures
            final(self).wf(),
            final(self)@ == old(self)@.step_over(program_context, value@).state,
            r@ == old(self)@.step_over(program_context, value@).outcome,
            final(self)@.follows(old(self)@),
            r is Done && !old(self)@.at_end() ==> final(self)@.budget() < old(self)@.budget(),
    {
        match self.next_token(program_context) {
            Parsed::Done(_) => Parsed::Done(value),
            Parsed::Failed(error) => Parsed::Failed(error),
            Parsed::Unhandled => Parsed::Unhandled,
        }
    }

    /// Reads a type atom.
    fn parse_type_atom(&mut self) -> (r: Parsed<Type>)
        requires
            old(self).wf(),
        ensures
            final(self).wf(),
            final(self)@ == type_atom(old(self)@).state,
            r@ == type_atom(old(self)@).outcome,
            final(self)@.follows(old(self)@),
        decreases old(self)@.budget(), 0nat,
    {
        proof {
            self.cursor_is_inside();
        }
        let single = match self.current() {
            Err(lex_error) => {
                return Parsed::Failed(Self::lexer_error(lex_error));
            },
            Ok(Token::I8Keyword) => Some(Type::Int8),
            Ok(Token::I16Keyword) => Some(Type::Int16),
            Ok(Token::I32Keyword) => Some(Type::Int32),
            Ok(Token::I64Keyword) => Some(Type::Int64),
            Ok(Token::I128Keyword) => Some(Type::Int128),
            Ok(Token::ISizeKeyword) => Some(Type::IntSize),
            Ok(Token::U8Keyword) => Some(Type::UInt8),
            Ok(Token::U16Keyword) => Some(Type::UInt16),
            Ok(Token::U32Keyword) => Some(Type::UInt32),
            Ok(Token::U64Keyword) => Some(Type::UInt64),
            Ok(Token::U128Keyword) => Some(Type::UInt128),
            Ok(Token::USizeKeyword) => Some(Type::UIntSize),
            Ok(Token::F32Keyword) => Some(Type::Float32),
            Ok(Token::F64Keyword) => Some(Type::Float64),
            Ok(Token::BoolKeyword) => Some(Type::Boolean),
            Ok(Token::CharKeyword) => Some(Type::Char),
            Ok(Token::Identifier(id)) => Some(Type::Type { name: id.clone() }),
            Ok(Token::LeftSquareBracketOperator) => None,
            Ok(_) => {
                return Parsed::Failed(self.error(SyntaxErrorType::TypeExpected));
            },
        };
        match single {
            Some(found) => {
                return self.step_over(ProgramContext::TypeContext, found);
            },
            None => {},
        }
        match self.next_token(ProgramContext::TypeContext) {
            Parsed::Done(_) => {},
            Parsed::Failed(error) => {
                return Parsed::Failed(error);
            },
            Parsed::Unhandled => {
                return Parsed::Unhandled;
            },
        }
        let inner_type = match self.read_type() {
            Parsed::Done(found) => found,
            Parsed::Failed(error) => {
                return Parsed::Failed(error);
            },
            Parsed::Unhandled => {
                return Parsed::Unhandled;
            },
        };
        self.parse_array_tail(inner_type)
    }

    /// Reads what follows the element type of an array type.
    fn parse_array_tail(&mut self, inner_type: Type) -> (r: Parsed<Type>)
        requires
            old(self).wf(),
        ensures
            final(self).wf(),
            final(self)@ == array_tail(old(self)@, inner_type@).state,
            r@ == array_tail(old(self)@, inner_type@).outcome,
            final(self)@.follows(old(self)@),
    {
        proof {
            self.cursor_is_inside();
        }
        match self.current() {
            Err(lex_error) => {
                return Parsed::Failed(Self::lexer_error(lex_error));
            },
            Ok(Token::SemicolonOperator) => {},
            Ok(_) => {
                return Parsed::Failed(self.error(SyntaxErrorType::SemicolonExpected));
            },
        }
        let length: usize = match self.next_token(ProgramContext::TypeContext) {
            Parsed::Done(Token::IntToken(number)) => {
                if number >= 0 {
                    number as usize
                } else {
                    return Parsed::Failed(self.error(SyntaxErrorType::AtomExpected));
                }
            },
            Parsed::Done(_) => {
                return Parsed::Failed(self.error(SyntaxErrorType::AtomExpected));
            },
            Parsed::Failed(error) => {
                return Parsed::Failed(error);
            },
            Parsed::Unhandled => {
                return Parsed::Unhandled;
            },
        };
        match self.next_token(ProgramContext::TypeContext) {
            Parsed::Done(Token::RightSquareBracketOperator) => {},
            Parsed::Done(_) => {
                return Parsed::Failed(self.error(SyntaxErrorType::ClosingBracketExpected));
            },
            Parsed::Failed(error) => {
                return Parsed::Failed(error);
            },
            Parsed::Unhandled => {
                return Parsed::Unhandled;
            },
        }
        self.step_over(
            ProgramContext::TypeContext,
            Type::Array { type_: Box::new(inner_type), length },
        )
    }

    /// Reads a type: an atom and the sugar behind it. Any input is read;
    /// what is not undertaken is told apart.
    fn read_type(&mut self) -> (r: Parsed<Type>)
        requires
            old(self).wf(),
        ensures
            final(self).wf(),
            final(self)@ == parse_type(old(self)@).state,
            r@ == parse_type(old(self)@).outcome,
            final(self)@.follows(old(self)@),
        decreases old(self)@.budget(), 2nat,
    {
        proof {
            self.cursor_is_inside();
        }
        let mut type_ = match self.parse_type_atom() {
            Parsed::Done(found) => found,
            Parsed::Failed(error) => {
                return Parsed::Failed(error);
            },
            Parsed::Unhandled => {
                return Parsed::Unhandled;
            },
        };
        loop
            invariant
                self.wf(),
                old(self)@.inside(),
                self@.follows(old(self)@),
                type_suffixes(self@, type_@) == parse_type(old(self)@),
            decreases self@.budget(),
        {
            proof {
                self.cursor_is_inside();
            }
            let ghost so_far = type_@;
            let sugar = match self.current() {
                Err(lex_error) => {
                    return Parsed::Failed(Self::lexer_error(lex_error));
                },
                Ok(Token::AmpersandOperator) => Sugar::Pointer,
                Ok(Token::QuestionOperator) => Sugar::Optional,
                Ok(Token::PipeOperator) => Sugar::Union,
                Ok(Token::LeftChevronOperator) => Sugar::Arguments,
                Ok(_) => {
                    return Parsed::Done(type_);
                },
            };
            match sugar {
                Sugar::Pointer => {
                    match self.next_token(ProgramContext::TypeContext) {
                        Parsed::Done(_) => {},
                        Parsed::Failed(error) => {
                            return Parsed::Failed(error);
                        },
                        Parsed::Unhandled => {
                            return Parsed::Unhandled;
                        },
                    }
                    type_ = Type::Pointer { pointed: Box::new(type_) };
                },
                Sugar::Optional => {
                    match self.next_token(ProgramContext::TypeContext) {
                        Parsed::Done(_) => {},
                        Parsed::Failed(error) => {
                            return Parsed::Failed(error);
                        },
                        Parsed::Unhandled => {
                            return Parsed::Unhandled;
                        },
                    }
                    let mut types: Vec<Type> = Vec::new();
                    types.push(type_);
                    assert(type_views(types@) =~= seq![so_far]);
                    type_ = Type::GenericType { name: String::from_str("Option"), types };
                },
                Sugar::Union => {
                    match self.next_token(ProgramContext::TypeContext) {
                        Parsed::Done(_) => {},
                        Parsed::Failed(error) => {
                            return Parsed::Failed(error);
                        },
                        Parsed::Unhandled => {
                            return Parsed::Unhandled;
                        },
                    }
                    let type2 = match self.read_type() {
                        Parsed::Done(found) => found,
                        Parsed::Failed(error) => {
                            return Parsed::Failed(error);
                        },
                        Parsed::Unhandled => {
                            return Parsed::Unhandled;
                        },
                    };
                    let mut types: Vec<Type> = Vec::new();
                    types.push(type_);
                    types.push(type2);
                    assert(type_views(types@) =~= seq![so_far, type2@]);
                    type_ = Type::GenericType { name: String::from_str("Result"), types };
                },
                Sugar::Arguments => {
                    let name = match type_ {
                        Type::Type { name } => name,
                        _ => {
                            return Parsed::Failed(self.error(SyntaxErrorType::AtomExpected));
                        },
                    };
                    match self.next_token(ProgramContext::TypeContext) {
                        Parsed::Done(_) => {},
                        Parsed::Failed(error) => {
                            return Parsed::Failed(error);
                        },
                        Parsed::Unhandled => {
                            return Parsed::Unhandled;
                        },
                    }
                    let types = match self.parse_type_arguments() {
                        Parsed::Done(found) => found,
                        Parsed::Failed(error) => {
                            return Parsed::Failed(error);
                        },
                        Parsed::Unhandled => {
                            return Parsed::Unhandled;
                        },
                    };
                    type_ = Type::GenericType { name, types };
                },
            }
        }
    }

    /// Reads the arguments of a generic type up to the `>` that closes
    /// them.
    fn parse_type_arguments(&mut self) -> (r: Parsed<Vec<Type>>)
        requires
            old(self).wf(),
        ensures
            final(self).wf(),
            final(self)@ == type_arguments(old(self)@, Seq::empty()).state,
            types_outcome(r) == type_arguments(old(self)@, Seq::empty()).outcome,
            final(self)@.follows(old(self)@),
        decreases old(self)@.budget(), 3nat,
    {
        let mut types: Vec<Type> = Vec::new();
        proof {
            type_views_empty();
            self.cursor_is_inside();
        }
        loop
            invariant
                self.wf(),
                old(self)@.inside(),
                self@.follows(old(self)@),
                type_arguments(self@, type_views(types@)) == type_arguments(
                    old(self)@,
                    Seq::empty(),
                ),
            decreases self@.budget(),
        {
            proof {
                self.cursor_is_inside();
            }
            let closes = match self.current() {
                Err(lex_error) => {
                    return Parsed::Failed(Self::lexer_error(lex_error));
                },
                Ok(Token::RightChevronOperator) => true,
                Ok(_) => false,
            };
            if closes {
                return match self.next_token(ProgramContext::TypeContext) {
                    Parsed::Done(_) => Parsed::Done(types),
                    Parsed::Failed(error) => Parsed::Failed(error),
                    Parsed::Unhandled => Parsed::Unhandled,
                };
            }
            let argument = match self.read_type() {
                Parsed::Done(found) => found,
                Parsed::Failed(error) => {
                    return Parsed::Failed(error);
                },
                Parsed::Unhandled => {
                    return Parsed::Unhandled;
                },
            };
            proof {
                type_views_push(types@, argument);
                self.cursor_is_inside();
            }
            types.push(argument);
            let closes = match self.current() {
                Ok(Token::RightChevronOperator) => true,
                Ok(Token::CommaOperator) => false,
                _ => {
                    return Parsed::Failed(self.error(SyntaxErrorType::SemicolonExpected));
                },
            };
            match self.next_token(ProgramContext::TypeContext) {
                Parsed::Done(_) => {
                    if closes {
                        return Parsed::Done(types);
                    }
                },
                Parsed::Failed(error) => {
                    return Parsed::Failed(error);
                },
                Parsed::Unhandled => {
                    return Parsed::Unhandled;
                },
            }
        }
    }

    /// Whether the type under the lookahead is one that this front end
    /// undertakes to read. Nothing moves.
    pub fn handles_type(&self) -> (b: bool)
        requires
            self.wf(),
        ensures
            b == !(parse_type(self@).outcome is Unhandled),
    {
        let mut probe = self.duplicate();
        match probe.read_type() {
            Parsed::Unhandled => false,
            _ => true,
        }
    }

    /// Reads a type: an atom and the sugar behind it. The type must be one
    /// that this front end undertakes to read; `try_parse_type` tests that
    /// first.
    pub fn parse_type(&mut self) -> (r: Result<Type, Vec<SyntaxError>>)
        requires
            old(self).wf(),
            !(parse_type(old(self)@).outcome is Unhandled),
        ensures
            final(self).wf(),
            final(self)@ == parse_type(old(self)@).state,
            reported(r) == parse_type(old(self)@).outcome,
            final(self)@.follows(old(self)@),
    {
        settle(self.read_type())
    }

    /// Reads a type if it is one that this front end undertakes to read, as
    /// `parse_type` does; `None`, and nothing changes, if it is not.
    pub fn try_parse_type(&mut self) -> (r: Option<Result<Type, Vec<SyntaxError>>>)
        requires
            old(self).wf(),
        ensures
            final(self).wf(),
            r is Some <==> !(parse_type(old(self)@).outcome is Unhandled),
            r matches Some(found) ==> final(self)@ == parse_type(old(self)@).state && reported(
                found,
            ) == parse_type(old(self)@).outcome,
            r is None ==> final(self)@ == old(self)@,
    {
        if self.handles_type() {
            Some(self.parse_type())
        } else {
            None
        }
    }

    /// Reads a block as an expression, up to its `}`. Any input is read;
    /// what is not undertaken is told apart.
    fn read_block_body(&mut self) -> (r: Parsed<Block>)
        requires
            old(self).wf(),
        ensures
            final(self).wf(),
            final(self)@ == block_body(old(self)@).state,
            r@ == block_body(old(self)@).outcome,
            final(self)@.follows(old(self)@),
            r is Done ==> final(self)@.budget() < old(self)@.budget(),
        decreases old(self)@.budget(), 0nat,
    {
        proof {
            self.cursor_is_inside();
        }
        match self.current() {
            Err(lex_error) => {
                return Parsed::Failed(Self::lexer_error(lex_error));
            },
            Ok(Token::LeftCurlyBracketOperator) => {},
            Ok(_) => {
                return Parsed::Failed(self.error(SyntaxErrorType::BlockExpected));
            },
        }
        let mut statements: Vec<Statement> = Vec::new();
        proof {
            statement_views_empty();
        }
        loop
            invariant
                self.wf(),
                old(self)@.inside(),
                self@.follows(old(self)@),
                !self@.at_end(),
                block_items(self@, statement_views(statements@)) == block_body(old(self)@),
            decreases self@.budget(),
        {
            proof {
                self.cursor_is_inside();
            }
            match self.next_token(ProgramContext::NormalContext) {
                Parsed::Done(Token::RightCurlyBracketOperator) => {
                    return Parsed::Done(Block { statements, expression: None });
                },
                Parsed::Done(_) => {},
                Parsed::Failed(error) => {
                    return Parsed::Failed(error);
                },
                Parsed::Unhandled => {
                    return Parsed::Unhandled;
                },
            }
            let statement = match self.parse_statement() {
                Parsed::Done(found) => found,
                Parsed::Failed(error) => {
                    return Parsed::Failed(error);
                },
                Parsed::Unhandled => {
                    return Parsed::Unhandled;
                },
            };
            proof {
                self.cursor_is_inside();
                statement_views_push(statements@, statement);
            }
            match self.next_token(ProgramContext::NormalContext) {
                Parsed::Done(Token::SemicolonOperator) => {
                    statements.push(statement);
                },
                Parsed::Done(Token::RightCurlyBracketOperator) => {
                    match statement {
                        Statement::ExpressionStatement { expression } => {
                            return Parsed::Done(
                                Block { statements, expression: Some(Box::new(expression)) },
                            );
                        },
                        _ => {
                            return Parsed::Failed(self.error(SyntaxErrorType::SemicolonExpected));
                        },
                    }
                },
                Parsed::Done(_) => {
                    return Parsed::Failed(self.error(SyntaxErrorType::SemicolonExpected));
                },
                Parsed::Failed(error) => {
                    return Parsed::Failed(error);
                },
                Parsed::Unhandled => {
                    return Parsed::Unhandled;
                },
            }
        }
    }

    /// Reads a block for itself: the block and the token behind its `}`.
    /// Any input is read; what is not undertaken is told apart.
    fn read_block(&mut self) -> (r: Parsed<Block>)
        requires
            old(self).wf(),
        ensures
            final(self).wf(),
            final(self)@ == parse_block(old(self)@).state,
            r@ == parse_block(old(self)@).outcome,
            final(self)@.follows(old(self)@),
            r is Done ==> final(self)@.budget() < old(self)@.budget(),
    {
        match self.read_block_body() {
            Parsed::Done(block) => self.step_over(ProgramContext::NormalContext, block),
            Parsed::Failed(error) => Parsed::Failed(error),
            Parsed::Unhandled => Parsed::Unhandled,
        }
    }

    /// Reads a statement.
    fn parse_statement(&mut self) -> (r: Parsed<Statement>)
        requires
            old(self).wf(),
        ensures
            final(self).wf(),
            final(self)@ == parse_statement(old(self)@).state,
            r@ == parse_statement(old(self)@).outcome,
            final(self)@.follows(old(self)@),
        decreases old(self)@.budget(), 3nat,
    {
        proof {
            self.cursor_is_inside();
        }
        match self.current() {
            Ok(Token::LetKeyword) => {
                return Parsed::Unhandled;
            },
            Ok(Token::ConstKeyword) => {
                return Parsed::Unhandled;
            },
            Ok(_) => {},
            Err(lex_error) => {
                return Parsed::Failed(Self::lexer_error(lex_error));
            },
        }
        match self.read_expression() {
            Parsed::Done(expression) => Parsed::Done(Statement::ExpressionStatement { expression }),
            Parsed::Failed(error) => Parsed::Failed(error),
            Parsed::Unhandled => Parsed::Unhandled,
        }
    }

    /// Reads an expression. Any input is read; what is not undertaken is
    /// told apart.
    fn read_expression(&mut self) -> (r: Parsed<Expression>)
        requires
            old(self).wf(),
        ensures
            final(self).wf(),
            final(self)@ == parse_expression(old(self)@).state,
            r@ == parse_expression(old(self)@).outcome,
            final(self)@.follows(old(self)@),
        decreases old(self)@.budget(), 2nat,
    {
        proof {
            self.cursor_is_inside();
        }
        self.parse_atom()
    }

    /// Reads an atom.
    fn parse_atom(&mut self) -> (r: Parsed<Expression>)
        requires
            old(self).wf(),
        ensures
            final(self).wf(),
            final(self)@ == parse_atom(old(self)@).state,
            r@ == parse_atom(old(self)@).outcome,
            final(self)@.follows(old(self)@),
        decreases old(self)@.budget(), 1nat,
    {
        proof {
            self.cursor_is_inside();
        }
        let single = match self.current() {
            Ok(Token::IntToken(int_value)) => Some(Expression::IntLiteral { value: *int_value }),
            Ok(Token::FloatToken(float)) => Some(Expression::FloatLiteral { value: float.clone() }),
            Ok(Token::StringToken(string)) => Some(
                Expression::StringLiteral { value: string.clone() },
            ),
            Ok(Token::CharToken(character)) => Some(Expression::CharLiteral { value: *character }),
            Ok(Token::Identifier(id)) => Some(Expression::Variable { name: id.clone() }),
            Ok(Token::TrueKeyword) => Some(Expression::BooleanLiteral { value: true }),
            Ok(Token::FalseKeyword) => Some(Expression::BooleanLiteral { value: false }),
            Ok(Token::LeftCurlyBracketOperator) => None,
            Ok(_) => {
                return Parsed::Failed(self.error(SyntaxErrorType::AtomExpected));
            },
            Err(lex_error) => {
                return Parsed::Failed(Self::lexer_error(lex_error));
            },
        };
        match single {
            Some(found) => {
                return Parsed::Done(found);
            },
            None => {},
        }
        match self.read_block_body() {
            Parsed::Done(body) => Parsed::Done(Expression::BlockExpression { body }),
            Parsed::Failed(error) => Parsed::Failed(error),
            Parsed::Unhandled => Parsed::Unhandled,
        }
    }

    /// Whether the block under the lookahead is one that this front end
    /// undertakes to read. Nothing moves.
    pub fn handles_block(&self) -> (b: bool)
        requires
            self.wf(),
        ensures
            b == !(parse_block(self@).outcome is Unhandled),
    {
        let mut probe = self.duplicate();
        match probe.read_block() {
            Parsed::Unhandled => false,
            _ => true,
        }
    }

    /// Reads a block for itself: `{`, statements with a semicolon behind
    /// each, `}`, and the token behind it, which becomes the lookahead. The
    /// block must be one that this front end undertakes to read;
    /// `try_parse_block` tests that first.
    pub fn parse_block(&mut self) -> (r: Result<Block, Vec<SyntaxError>>)
        requires
            old(self).wf(),
            !(parse_block(old(self)@).outcome is Unhandled),
        ensures
            final(self).wf(),
            final(self)@ == parse_block(old(self)@).state,
            reported(r) == parse_block(old(self)@).outcome,
            final(self)@.follows(old(self)@),
    {
        settle(self.read_block())
    }

    /// Reads a block if it is one that this front end undertakes to read,
    /// as `parse_block` does; `None`, and nothing changes, if it is not.
    pub fn try_parse_block(&mut self) -> (r: Option<Result<Block, Vec<SyntaxError>>>)
        requires
            old(self).wf(),
        ensures
            final(self).wf(),
            r is Some <==> !(parse_block(old(self)@).outcome is Unhandled),
            r matches Some(found) ==> final(self)@ == parse_block(old(self)@).state && reported(
                found,
            ) == parse_block(old(self)@).outcome,
            r is None ==> final(self)@ == old(self)@,
    {
        if self.handles_block() {
            Some(self.parse_block())
        } else {
            None
        }
    }

    /// Whether the expression under the lookahead is one that this front
    /// end undertakes to read. Nothing moves.
    pub fn handles_expression(&self) -> (b: bool)
        requires
            self.wf(),
        ensures
            b == !(parse_expression(self@).outcome is Unhandled),
    {
        let mut probe = self.duplicate();
        match probe.read_expression() {
            Parsed::Unhandled => false,
            _ => true,
        }
    }

    /// Reads an expression and leaves the lookahead on its last token:
    /// nothing behind the expression is read. The expression must be one
    /// that this front end undertakes to read; `try_parse_expression` tests
    /// that first.
    pub fn parse_expression(&mut self) -> (r: Result<Expression, Vec<SyntaxError>>)
        requires
            old(self).wf(),
            !(parse_expression(old(self)@).outcome is Unhandled),
        ensures
            final(self).wf(),
            final(self)@ == parse_expression(old(self)@).state,
            reported(r) == parse_expression(old(self)@).outcome,
            final(self)@.follows(old(self)@),
    {
        settle(self.read_expression())
    }

    /// Reads an expression if it is one that this front end undertakes to
    /// read, as `parse_expression` does; `None`, and nothing changes, if it
    /// is not.
    pub fn try_parse_expression(&mut self) -> (r: Option<Result<Expression, Vec<SyntaxError>>>)
        requires
            old(self).wf(),
        ensures
            final(self).wf(),
            r is Some <==> !(parse_expression(old(self)@).outcome is Unhandled),
            r matches Some(found) ==> final(self)@ == parse_expression(old(self)@).state
                && reported(found) == parse_expression(old(self)@).outcome,
            r is None ==> final(self)@ == old(self)@,
    {
        if self.handles_expression() {
            Some(self.parse_expression())
        } else {
            None
        }
    }

    /// Reads the parameters of a function up to the `)` that closes them.
    fn parse_parameters(&mut self) -> (r: Parsed<Parameters>)
        requires
            old(self).wf(),
        ensures
            final(self).wf(),
            final(self)@ == header_parameters(
                old(self)@,
                ParametersView { names: Seq::empty(), types: Seq::empty() },
            ).state,
            r@ == header_parameters(
                old(self)@,
                ParametersView { names: Seq::empty(), types: Seq::empty() },
            ).outcome,
            final(self)@.follows(old(self)@),
    {
        let mut parameters: Vec<String> = Vec::new();
        let mut types: Vec<Type> = Vec::new();
        proof {
            name_views_empty();
            type_views_empty();
            self.cursor_is_inside();
        }
        loop
            invariant
                self.wf(),
                old(self)@.inside(),
                self@.follows(old(self)@),
                header_parameters(
                    self@,
                    ParametersView { names: name_views(parameters@), types: type_views(types@) },
                ) == header_parameters(
                    old(self)@,
                    ParametersView { names: Seq::empty(), types: Seq::empty() },
                ),
            decreases self@.budget(),
        {
            proof {
                self.cursor_is_inside();
            }
            let name = match self.current() {
                Err(lex_error) => {
                    return Parsed::Failed(Self::lexer_error(lex_error));
                },
                Ok(Token::RightParenthesisOperator) => None,
                Ok(Token::Identifier(id)) => Some(id.clone()),
                Ok(_) => {
                    return Parsed::Failed(self.error(SyntaxErrorType::IdentifierExpected));
                },
            };
            let name = match name {
                Some(name) => name,
                None => {
                    return self.step_over(
                        ProgramContext::NormalContext,
                        Parameters { names: parameters, types },
                    );
                },
            };
            match self.next_token(ProgramContext::NormalContext) {
                Parsed::Done(Token::ColonOperator) => {},
                Parsed::Done(_) => {
                    return Parsed::Failed(self.error(SyntaxErrorType::BlockExpected));
                },
                Parsed::Failed(error) => {
                    return Parsed::Failed(error);
                },
                Parsed::Unhandled => {
                    return Parsed::Unhandled;
                },
            }
            match self.next_token(ProgramContext::TypeContext) {
                Parsed::Done(_) => {},
                Parsed::Failed(error) => {
                    return Parsed::Failed(error);
                },
                Parsed::Unhandled => {
                    return Parsed::Unhandled;
                },
            }
            let type_ = match self.read_type() {
                Parsed::Done(found) => found,
                Parsed::Failed(error) => {
                    return Parsed::Failed(error);
                },
                Parsed::Unhandled => {
                    return Parsed::Unhandled;
                },
            };
            proof {
                name_views_push(parameters@, name);
                type_views_push(types@, type_);
                self.cursor_is_inside();
            }
            parameters.push(name);
            types.push(type_);
            let comma = match self.current() {
                Ok(Token::CommaOperator) => true,
                _ => false,
            };
            if comma {
                match self.next_token(ProgramContext::NormalContext) {
                    Parsed::Done(_) => {},
                    Parsed::Failed(error) => {
                        return Parsed::Failed(error);
                    },
                    Parsed::Unhandled => {
                        return Parsed::Unhandled;
                    },
                }
            }
        }
    }

    /// Reads the type that a function returns, behind the `)` of its
    /// parameters.
    fn parse_return_type(&mut self) -> (r: Parsed<Type>)
        requires
            old(self).wf(),
        ensures
            final(self).wf(),
            final(self)@ == header_return(old(self)@).state,
            r@ == header_return(old(self)@).outcome,
            final(self)@.follows(old(self)@),
    {
        proof {
            self.cursor_is_inside();
        }
        match self.current() {
            Err(lex_error) => {
                return Parsed::Failed(Self::lexer_error(lex_error));
            },
            Ok(Token::ColonOperator) => {},
            Ok(_) => {
                return Parsed::Done(Type::Void);
            },
        }
        match self.next_token(ProgramContext::TypeContext) {
            Parsed::Done(_) => {},
            Parsed::Failed(error) => {
                return Parsed::Failed(error);
            },
            Parsed::Unhandled => {
                return Parsed::Unhandled;
            },
        }
        self.read_type()
    }

    /// Reads the head of a function.
    fn parse_function_header(&mut self) -> (r: Parsed<FunctionHeader>)
        requires
            old(self).wf(),
        ensures
            final(self).wf(),
            final(self)@ == parse_function_header(old(self)@).state,
            r@ == parse_function_header(old(self)@).outcome,
            final(self)@.follows(old(self)@),
            r is Done ==> final(self)@.budget() < old(self)@.budget(),
    {
        proof {
            self.cursor_is_inside();
        }
        match self.current() {
            Err(lex_error) => {
                return Parsed::Failed(Self::lexer_error(lex_error));
            },
            Ok(Token::FnKeyword) => {},
            Ok(_) => {
                return Parsed::Failed(self.error(SyntaxErrorType::BlockExpected));
            },
        }
        let name = match self.next_token(ProgramContext::NormalContext) {
            Parsed::Done(Token::Identifier(id)) => id,
            Parsed::Done(_) => {
                return Parsed::Failed(self.error(SyntaxErrorType::IdentifierExpected));
            },
            Parsed::Failed(error) => {
                return Parsed::Failed(error);
            },
            Parsed::Unhandled => {
                return Parsed::Unhandled;
            },
        };
        match self.next_token(ProgramContext::NormalContext) {
            Parsed::Done(Token::LeftParenthesisOperator) => {},
            Parsed::Done(_) => {
                return Parsed::Failed(self.error(SyntaxErrorType::BlockExpected));
            },
            Parsed::Failed(error) => {
                return Parsed::Failed(error);
            },
            Parsed::Unhandled => {
                return Parsed::Unhandled;
            },
        }
        match self.next_token(ProgramContext::NormalContext) {
            Parsed::Done(_) => {},
            Parsed::Failed(error) => {
                return Parsed::Failed(error);
            },
            Parsed::Unhandled => {
                return Parsed::Unhandled;
            },
        }
        let found = match self.parse_parameters() {
            Parsed::Done(found) => found,
            Parsed::Failed(error) => {
                return Parsed::Failed(error);
            },
            Parsed::Unhandled => {
                return Parsed::Unhandled;
            },
        };
        let return_type = match self.parse_return_type() {
            Parsed::Done(return_type) => return_type,
            Parsed::Failed(error) => {
                return Parsed::Failed(error);
            },
            Parsed::Unhandled => {
                return Parsed::Unhandled;
            },
        };
        Parsed::Done(
            FunctionHeader { name, parameters: found.names, types: found.types, return_type },
        )
    }

    /// Reads a function.
    fn parse_function(&mut self) -> (r: Parsed<Item>)
        requires
            old(self).wf(),
        ensures
            final(self).wf(),
            final(self)@ == parse_function(old(self)@).state,
            r@ == parse_function(old(self)@).outcome,
            final(self)@.follows(old(self)@),
            r is Done ==> final(self)@.budget() < old(self)@.budget(),
    {
        let header = match self.parse_function_header() {
            Parsed::Done(header) => header,
            Parsed::Failed(error) => {
                return Parsed::Failed(error);
            },
            Parsed::Unhandled => {
                return Parsed::Unhandled;
            },
        };
        match self.read_block() {
            Parsed::Done(block) => Parsed::Done(Item::Function { header, body: block }),
            Parsed::Failed(error) => Parsed::Failed(error),
            Parsed::Unhandled => Parsed::Unhandled,
        }
    }

    /// Reads an item.
    fn parse_item(&mut self) -> (r: Parsed<Item>)
        requires
            old(self).wf(),
        ensures
            final(self).wf(),
            final(self)@ == parse_item(old(self)@).state,
            r@ == parse_item(old(self)@).outcome,
            final(self)@.follows(old(self)@),
            r is Done ==> final(self)@.budget() < old(self)@.budget(),
    {
        proof {
            self.cursor_is_inside();
        }
        match self.current() {
            Err(lex_error) => {
                return Parsed::Failed(Self::lexer_error(lex_error));
            },
            Ok(Token::FnKeyword) => {},
            Ok(_) => {
                return Parsed::Unhandled;
            },
        }
        self.parse_function()
    }

    /// Reads items up to the end of the input. The first item that does not
    /// match ends the parse. Any input is read; what is not undertaken is
    /// told apart.
    fn read_file(&mut self) -> (r: Parsed<Vec<Item>>)
        requires
            old(self).wf(),
        ensures
            final(self).wf(),
            final(self)@ == parse_file(old(self)@).state,
            items_outcome(r) == parse_file(old(self)@).outcome,
            final(self)@.follows(old(self)@),
            r matches Parsed::Done(items) ==> final(self)@.at_end() && forall|i: int|
                0 <= i < items@.len() ==> (#[trigger] items@[i])@ is Function && pairs_parameters(
                    items@[i]@,
                ),
    {
        let mut items: Vec<Item> = Vec::new();
        proof {
            item_views_empty();
            self.cursor_is_inside();
        }
        loop
            invariant
                self.wf(),
                old(self)@.inside(),
                self@.follows(old(self)@),
                parse_items(self@, item_views(items@)) == parse_file(old(self)@),
            decreases self@.budget(),
        {
            proof {
                self.cursor_is_inside();
            }
            match self.current() {
                Err(lex_error) => {
                    return Parsed::Failed(Self::lexer_error(lex_error));
                },
                Ok(Token::EOF) => {
                    proof {
                        parse_file_moves_forward(old(self)@);
                        assert forall|i: int| 0 <= i < items@.len() implies (#[trigger] items@[i])@
                            == item_views(items@)[i] by {}
                    }
                    return Parsed::Done(items);
                },
                Ok(_) => {},
            }
            match self.parse_item() {
                Parsed::Done(item) => {
                    proof {
                        item_views_push(items@, item);
                    }
                    items.push(item);
                },
                Parsed::Failed(error) => {
                    return Parsed::Failed(error);
                },
                Parsed::Unhandled => {
                    return Parsed::Unhandled;
                },
            }
        }
    }

    /// Whether the input from the lookahead on is one that this front end
    /// undertakes to read as a file. Nothing moves.
    pub fn handles_file(&self) -> (b: bool)
        requires
            self.wf(),
        ensures
            b == !(parse_file(self@).outcome is Unhandled),
    {
        let mut probe = self.duplicate();
        match probe.read_file() {
            Parsed::Unhandled => false,
            _ => true,
        }
    }

    /// Reads items up to the end of the input: the items in order, or the
    /// diagnostic of the first that did not match, alone in its list. The
    /// lookahead must stand on the first token of the input, and the input
    /// must be one that this front end undertakes to read; `try_parse`
    /// tests that first.
    pub fn parse(&mut self) -> (r: Result<Vec<Item>, Vec<SyntaxError>>)
        requires
            old(self).wf(),
            !(parse_file(old(self)@).outcome is Unhandled),
        ensures
            final(self).wf(),
            final(self)@ == parse_file(old(self)@).state,
            reported_items(r) == parse_file(old(self)@).outcome,
            final(self)@.follows(old(self)@),
            r matches Ok(items) ==> final(self)@.at_end() && forall|i: int|
                0 <= i < items@.len() ==> (#[trigger] items@[i])@ is Function && pairs_parameters(
                    items@[i]@,
                ),
            r matches Err(errors) ==> errors@.len() == 1,
    {
        match self.read_file() {
            Parsed::Done(items) => Ok(items),
            Parsed::Failed(error) => {
                let mut errors: Vec<SyntaxError> = Vec::new();
                errors.push(error);
                Err(errors)
            },
            Parsed::Unhandled => vstd::pervasive::unreached(),
        }
    }

    /// Reads items up to the end of the input if the input is one that this
    /// front end undertakes to read, as `parse` does; `None`, and nothing
    /// changes, if it is not.
    pub fn try_parse(&mut self) -> (r: Option<Result<Vec<Item>, Vec<SyntaxError>>>)
        requires
            old(self).wf(),
        ensures
            final(self).wf(),
            r is Some <==> !(parse_file(old(self)@).outcome is Unhandled),
            r matches Some(found) ==> final(self)@ == parse_file(old(self)@).state
                && reported_items(found) == parse_file(old(self)@).outcome,
            r is None ==> final(self)@ == old(self)@,
    {
        if self.handles_file() {
            Some(self.parse())
        } else {
            None
        }
    }
}

} // verus!
