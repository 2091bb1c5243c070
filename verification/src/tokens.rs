//! The closed set of lexemes: literals, identifiers, reserved words and
//! operators, with the spelling of each and the table that reads a spelling
//! back under a lexical context.

use vstd::prelude::*;
use crate::charset::ascii_punctuation;
use crate::text::{collect_chars, decimal_text, render_decimal, spelled};
use crate::lexer::ProgramContext;

verus! {

/// One lexeme. Literals and identifiers carry what was written; every
/// reserved word and every operator is a variant of its own.
///
/// A float literal keeps its spelling as written (digits, one point, digits):
/// turning it into a binary floating-point number is left to the consumer.
#[derive(Debug, Clone, PartialEq)]
pub enum Token {
    BOF,
    EOF,
    // Literals and identifiers
    IntToken(isize),
    FloatToken(String),
    StringToken(String),
    CharToken(char),
    Identifier(String),
    // Reserved words of value context
    TrueKeyword,
    FalseKeyword,
    ImportKeyword,
    UseKeyword,
    FnKeyword,
    StructKeyword,
    EnumKeyword,
    TraitKeyword,
    InstanceKeyword,
    TypeKeyword,
    ConstKeyword,
    LetKeyword,
    ForKeyword,
    InKeyword,
    IfKeyword,
    ElseKeyword,
    WhileKeyword,
    LoopKeyword,
    TryKeyword,
    CatchKeyword,
    OrKeyword,
    AndKeyword,
    NotKeyword,
    ReturnKeyword,
    BreakKeyword,
    ContinueKeyword,
    SuperKeyword,
    SelfKeyword,
    // Reserved words of type context
    I8Keyword,
    I16Keyword,
    I32Keyword,
    I64Keyword,
    I128Keyword,
    ISizeKeyword,
    U8Keyword,
    U16Keyword,
    U32Keyword,
    U64Keyword,
    U128Keyword,
    USizeKeyword,
    F32Keyword,
    F64Keyword,
    BoolKeyword,
    CharKeyword,
    // Operators
    LeftCurlyBracketOperator,
    RightCurlyBracketOperator,
    LeftSquareBracketOperator,
    RightSquareBracketOperator,
    LeftParenthesisOperator,
    RightParenthesisOperator,
    SemicolonOperator,
    CommaOperator,
    ColonOperator,
    EqualOperator,
    PipeOperator,
    DoubleEqualOperator,
    BangEqualOperator,
    LeftChevronOperator,
    RightChevronOperator,
    LeftChevronEqualOperator,
    RightChevronEqualOperator,
    DoubleLeftChevronOperator,
    DoubleRightChevronOperator,
    PlusOperator,
    MinusOperator,
    StarOperator,
    SlashOperator,
    PercentOperator,
    DoubleStarOperator,
    CaretOperator,
    AmpersandOperator,
    TildeOperator,
    DoubleLeftChevronEqualOperator,
    DoubleRightChevronEqualOperator,
    PlusEqualOperator,
    MinusEqualOperator,
    StarEqualOperator,
    SlashEqualOperator,
    PercentEqualOperator,
    DoubleStarEqualOperator,
    CaretEqualOperator,
    AmpersandEqualOperator,
    TildeEqualOperator,
    PipeEqualOperator,
    BangOperator,
    DoubleBangOperator,
    QuestionOperator,
    DotOperator,
    ScopeResolutionOperator,
    DoubleArrowOperator,
}

/// What a token is, as a mathematical value: the payload of a literal or an
/// identifier as a number or a sequence of characters, and for every other
/// token the token itself.
pub enum TokenView {
    Int(int),
    Float(Seq<char>),
    Text(Seq<char>),
    Char(char),
    Identifier(Seq<char>),
    /// A marker, a reserved word or an operator, none of which has a payload.
    Symbol(Token),
}

impl View for Token {
    type V = TokenView;

    open spec fn view(&self) -> TokenView {
        match self {
            Token::IntToken(n) => TokenView::Int(*n as int),
            Token::FloatToken(s) => TokenView::Float(s@),
            Token::StringToken(s) => TokenView::Text(s@),
            Token::CharToken(c) => TokenView::Char(*c),
            Token::Identifier(s) => TokenView::Identifier(s@),
            _ => TokenView::Symbol(*self),
        }
    }
}

impl TokenView {
    /// How the token is written.
    pub open spec fn spelling(self) -> Seq<char> {
        match self {
            TokenView::Int(n) => decimal_text(n),
            TokenView::Float(s) => s,
            TokenView::Text(s) => s,
            TokenView::Char(c) => seq![c],
            TokenView::Identifier(s) => s,
            TokenView::Symbol(t) => t.fixed_spelling(),
        }
    }
}

impl Token {
    /// Whether the token has no payload: a marker, a reserved word or an
    /// operator.
    pub open spec fn is_plain(&self) -> bool {
        match self {
            Token::IntToken(_) => false,
            Token::FloatToken(_) => false,
            Token::StringToken(_) => false,
            Token::CharToken(_) => false,
            Token::Identifier(_) => false,
            _ => true,
        }
    }

    /// Whether the token is a reserved word or an operator: a token with one
    /// fixed spelling that the lexer can read.
    pub open spec fn is_fixed(&self) -> bool {
        self.is_plain() && !(self is BOF) && !(self is EOF)
    }

    /// The spelling of a token without payload; the empty text for the
    /// others, whose spelling depends on the payload.
    pub open spec fn fixed_spelling(&self) -> Seq<char> {
        match self {
            Token::BOF => "BOF"@,
            Token::EOF => "EOF"@,
            Token::TrueKeyword => "true"@,
            Token::FalseKeyword => "false"@,
            Token::ImportKeyword => "import"@,
            Token::UseKeyword => "use"@,
            Token::FnKeyword => "fn"@,
            Token::StructKeyword => "struct"@,
            Token::EnumKeyword => "enum"@,
            Token::TraitKeyword => "trait"@,
            Token::InstanceKeyword => "instance"@,
            Token::TypeKeyword => "type"@,
            Token::ConstKeyword => "const"@,
            Token::LetKeyword => "let"@,
            Token::ForKeyword => "for"@,
            Token::InKeyword => "in"@,
            Token::IfKeyword => "if"@,
            Token::ElseKeyword => "else"@,
            Token::WhileKeyword => "while"@,
            Token::LoopKeyword => "loop"@,
            Token::TryKeyword => "try"@,
            Token::CatchKeyword => "catch"@,
            Token::OrKeyword => "or"@,
            Token::AndKeyword => "and"@,
            Token::NotKeyword => "not"@,
            Token::ReturnKeyword => "return"@,
            Token::BreakKeyword => "break"@,
            Token::ContinueKeyword => "continue"@,
            Token::SuperKeyword => "super"@,
            Token::SelfKeyword => "self"@,
            Token::I8Keyword => "i8"@,
            Token::I16Keyword => "i16"@,
            Token::I32Keyword => "i32"@,
            Token::I64Keyword => "i64"@,
            Token::I128Keyword => "i128"@,
            Token::ISizeKeyword => "isize"@,
            Token::U8Keyword => "u8"@,
            Token::U16Keyword => "u16"@,
            Token::U32Keyword => "u32"@,
            Token::U64Keyword => "u64"@,
            Token::U128Keyword => "u128"@,
            Token::USizeKeyword => "usize"@,
            Token::F32Keyword => "f32"@,
            Token::F64Keyword => "f64"@,
            Token::BoolKeyword => "bool"@,
            Token::CharKeyword => "char"@,
            Token::LeftCurlyBracketOperator => "{"@,
            Token::RightCurlyBracketOperator => "}"@,
            Token::LeftSquareBracketOperator => "["@,
            Token::RightSquareBracketOperator => "]"@,
            Token::LeftParenthesisOperator => "("@,
            Token::RightParenthesisOperator => ")"@,
            Token::SemicolonOperator => ";"@,
            Token::CommaOperator => ","@,
            Token::ColonOperator => ":"@,
            Token::EqualOperator => "="@,
            Token::PipeOperator => "|"@,
            Token::DoubleEqualOperator => "=="@,
            Token::BangEqualOperator => "!="@,
            Token::LeftChevronOperator => "<"@,
            Token::RightChevronOperator => ">"@,
            Token::LeftChevronEqualOperator => "<="@,
            Token::RightChevronEqualOperator => ">="@,
            Token::DoubleLeftChevronOperator => "<<"@,
            Token::DoubleRightChevronOperator => ">>"@,
            Token::PlusOperator => "+"@,
            Token::MinusOperator => "-"@,
            Token::StarOperator => "*"@,
            Token::SlashOperator => "/"@,
            Token::PercentOperator => "%"@,
            Token::DoubleStarOperator => "**"@,
            Token::CaretOperator => "^"@,
            Token::AmpersandOperator => "&"@,
            Token::TildeOperator => "~"@,
            Token::DoubleLeftChevronEqualOperator => "<<="@,
            Token::DoubleRightChevronEqualOperator => ">>="@,
            Token::PlusEqualOperator => "+="@,
            Token::MinusEqualOperator => "-="@,
            Token::StarEqualOperator => "*="@,
            Token::SlashEqualOperator => "/="@,
            Token::PercentEqualOperator => "%="@,
            Token::DoubleStarEqualOperator => "**="@,
            Token::CaretEqualOperator => "^="@,
            Token::AmpersandEqualOperator => "&="@,
            Token::TildeEqualOperator => "~="@,
            Token::PipeEqualOperator => "|="@,
            Token::BangOperator => "!"@,
            Token::DoubleBangOperator => "!!"@,
            Token::QuestionOperator => "?"@,
            Token::DotOperator => "."@,
            Token::ScopeResolutionOperator => "::"@,
            Token::DoubleArrowOperator => "=>"@,
            _ => Seq::empty(),
        }
    }

    /// How the token is written.
    pub open spec fn spelling(&self) -> Seq<char> {
        self@.spelling()
    }

    /// Whether the token is a reserved word of value context.
    pub open spec fn is_value_keyword(&self) -> bool {
        match self {
            Token::TrueKeyword => true,
            Token::FalseKeyword => true,
            Token::ImportKeyword => true,
            Token::UseKeyword => true,
            Token::FnKeyword => true,
            Token::StructKeyword => true,
            Token::EnumKeyword => true,
            Token::TraitKeyword => true,
            Token::InstanceKeyword => true,
            Token::TypeKeyword => true,
            Token::ConstKeyword => true,
            Token::LetKeyword => true,
            Token::ForKeyword => true,
            Token::InKeyword => true,
            Token::IfKeyword => true,
            Token::ElseKeyword => true,
            Token::WhileKeyword => true,
            Token::LoopKeyword => true,
            Token::TryKeyword => true,
            Token::CatchKeyword => true,
            Token::OrKeyword => true,
            Token::AndKeyword => true,
            Token::NotKeyword => true,
            Token::ReturnKeyword => true,
            Token::BreakKeyword => true,
            Token::ContinueKeyword => true,
            Token::SuperKeyword => true,
            Token::SelfKeyword => true,
            _ => false,
        }
    }

    /// Whether the token names a primitive type.
    pub open spec fn is_type_keyword(&self) -> bool {
        match self {
            Token::I8Keyword => true,
            Token::I16Keyword => true,
            Token::I32Keyword => true,
            Token::I64Keyword => true,
            Token::I128Keyword => true,
            Token::ISizeKeyword => true,
            Token::U8Keyword => true,
            Token::U16Keyword => true,
            Token::U32Keyword => true,
            Token::U64Keyword => true,
            Token::U128Keyword => true,
            Token::USizeKeyword => true,
            Token::F32Keyword => true,
            Token::F64Keyword => true,
            Token::BoolKeyword => true,
            Token::CharKeyword => true,
            _ => false,
        }
    }

    /// Whether the token is an operator.
    pub open spec fn is_operator(&self) -> bool {
        self.is_fixed() && !self.is_value_keyword() && !self.is_type_keyword()
    }

    /// Whether the table of `mode` holds this token. The reserved words of
    /// values belong to value context and the names of the primitive types
    /// to type context; the two shift operators are read in value context
    /// only, the question mark in type context only; every other operator
    /// is read in both.
    pub open spec fn recognised(&self, mode: ProgramContext) -> bool {
        match mode {
            ProgramContext::NormalContext => {
                ||| self.is_value_keyword()
                ||| self.is_operator() && !(self is QuestionOperator)
            },
            ProgramContext::TypeContext => {
                ||| self.is_type_keyword()
                ||| self.is_operator() && !(self is DoubleLeftChevronOperator) && !(self
                    is DoubleRightChevronOperator)
            },
        }
    }
}

/// The reserved word of value context that is spelled `s`.
pub open spec fn value_keyword(s: Seq<char>) -> Option<Token> {
    if s == "true"@ {
        Some(Token::TrueKeyword)
    } else if s == "false"@ {
        Some(Token::FalseKeyword)
    } else if s == "import"@ {
        Some(Token::ImportKeyword)
    } else if s == "use"@ {
        Some(Token::UseKeyword)
    } else if s == "fn"@ {
        Some(Token::FnKeyword)
    } else if s == "struct"@ {
        Some(Token::StructKeyword)
    } else if s == "enum"@ {
        Some(Token::EnumKeyword)
    } else if s == "trait"@ {
        Some(Token::TraitKeyword)
    } else if s == "instance"@ {
        Some(Token::InstanceKeyword)
    } else if s == "type"@ {
        Some(Token::TypeKeyword)
    } else if s == "const"@ {
        Some(Token::ConstKeyword)
    } else if s == "let"@ {
        Some(Token::LetKeyword)
    } else if s == "for"@ {
        Some(Token::ForKeyword)
    } else if s == "in"@ {
        Some(Token::InKeyword)
    } else if s == "if"@ {
        Some(Token::IfKeyword)
    } else if s == "else"@ {
        Some(Token::ElseKeyword)
    } else if s == "while"@ {
        Some(Token::WhileKeyword)
    } else if s == "loop"@ {
        Some(Token::LoopKeyword)
    } else if s == "try"@ {
        Some(Token::TryKeyword)
    } else if s == "catch"@ {
        Some(Token::CatchKeyword)
    } else if s == "or"@ {
        Some(Token::OrKeyword)
    } else if s == "and"@ {
        Some(Token::AndKeyword)
    } else if s == "not"@ {
        Some(Token::NotKeyword)
    } else if s == "return"@ {
        Some(Token::ReturnKeyword)
    } else if s == "break"@ {
        Some(Token::BreakKeyword)
    } else if s == "continue"@ {
        Some(Token::ContinueKeyword)
    } else if s == "super"@ {
        Some(Token::SuperKeyword)
    } else if s == "self"@ {
        Some(Token::SelfKeyword)
    } else {
        None
    }
}

/// The primitive type name that is spelled `s`.
pub open spec fn type_keyword(s: Seq<char>) -> Option<Token> {
    if s == "i8"@ {
        Some(Token::I8Keyword)
    } else if s == "i16"@ {
        Some(Token::I16Keyword)
    } else if s == "i32"@ {
        Some(Token::I32Keyword)
    } else if s == "i64"@ {
        Some(Token::I64Keyword)
    } else if s == "i128"@ {
        Some(Token::I128Keyword)
    } else if s == "isize"@ {
        Some(Token::ISizeKeyword)
    } else if s == "u8"@ {
        Some(Token::U8Keyword)
    } else if s == "u16"@ {
        Some(Token::U16Keyword)
    } else if s == "u32"@ {
        Some(Token::U32Keyword)
    } else if s == "u64"@ {
        Some(Token::U64Keyword)
    } else if s == "u128"@ {
        Some(Token::U128Keyword)
    } else if s == "usize"@ {
        Some(Token::USizeKeyword)
    } else if s == "f32"@ {
        Some(Token::F32Keyword)
    } else if s == "f64"@ {
        Some(Token::F64Keyword)
    } else if s == "bool"@ {
        Some(Token::BoolKeyword)
    } else if s == "char"@ {
        Some(Token::CharKeyword)
    } else {
        None
    }
}

/// The operator spelled `s`, among those that both contexts read.
pub open spec fn common_operator(s: Seq<char>) -> Option<Token> {
    if s == "{"@ {
        Some(Token::LeftCurlyBracketOperator)
    } else if s == "}"@ {
        Some(Token::RightCurlyBracketOperator)
    } else if s == "["@ {
        Some(Token::LeftSquareBracketOperator)
    } else if s == "]"@ {
        Some(Token::RightSquareBracketOperator)
    } else if s == "("@ {
        Some(Token::LeftParenthesisOperator)
    } else if s == ")"@ {
        Some(Token::RightParenthesisOperator)
    } else if s == ";"@ {
        Some(Token::SemicolonOperator)
    } else if s == ","@ {
        Some(Token::CommaOperator)
    } else if s == ":"@ {
        Some(Token::ColonOperator)
    } else if s == "="@ {
        Some(Token::EqualOperator)
    } else if s == "|"@ {
        Some(Token::PipeOperator)
    } else if s == "=="@ {
        Some(Token::DoubleEqualOperator)
    } else if s == "!="@ {
        Some(Token::BangEqualOperator)
    } else if s == "<"@ {
        Some(Token::LeftChevronOperator)
    } else if s == ">"@ {
        Some(Token::RightChevronOperator)
    } else if s == "<="@ {
        Some(Token::LeftChevronEqualOperator)
    } else if s == ">="@ {
        Some(Token::RightChevronEqualOperator)
    } else if s == "+"@ {
        Some(Token::PlusOperator)
    } else if s == "-"@ {
        Some(Token::MinusOperator)
    } else if s == "*"@ {
        Some(Token::StarOperator)
    } else if s == "/"@ {
        Some(Token::SlashOperator)
    } else if s == "%"@ {
        Some(Token::PercentOperator)
    } else if s == "**"@ {
        Some(Token::DoubleStarOperator)
    } else if s == "^"@ {
        Some(Token::CaretOperator)
    } else if s == "&"@ {
        Some(Token::AmpersandOperator)
    } else if s == "~"@ {
        Some(Token::TildeOperator)
    } else if s == "<<="@ {
        Some(Token::DoubleLeftChevronEqualOperator)
    } else if s == ">>="@ {
        Some(Token::DoubleRightChevronEqualOperator)
    } else if s == "+="@ {
        Some(Token::PlusEqualOperator)
    } else if s == "-="@ {
        Some(Token::MinusEqualOperator)
    } else if s == "*="@ {
        Some(Token::StarEqualOperator)
    } else if s == "/="@ {
        Some(Token::SlashEqualOperator)
    } else if s == "%="@ {
        Some(Token::PercentEqualOperator)
    } else if s == "**="@ {
        Some(Token::DoubleStarEqualOperator)
    } else if s == "^="@ {
        Some(Token::CaretEqualOperator)
    } else if s == "&="@ {
        Some(Token::AmpersandEqualOperator)
    } else if s == "~="@ {
        Some(Token::TildeEqualOperator)
    } else if s == "|="@ {
        Some(Token::PipeEqualOperator)
    } else if s == "!"@ {
        Some(Token::BangOperator)
    } else if s == "!!"@ {
        Some(Token::DoubleBangOperator)
    } else if s == "."@ {
        Some(Token::DotOperator)
    } else if s == "::"@ {
        Some(Token::ScopeResolutionOperator)
    } else if s == "=>"@ {
        Some(Token::DoubleArrowOperator)
    } else {
        None
    }
}

/// The token that the table of `mode` holds for the spelling `s`, if any.
/// Type context has no shift operators, so that `>>` can close two nested
/// argument lists there.
pub open spec fn lookup(s: Seq<char>, mode: ProgramContext) -> Option<Token> {
    match mode {
        ProgramContext::NormalContext => {
            if value_keyword(s) is Some {
                value_keyword(s)
            } else if s == "<<"@ {
                Some(Token::DoubleLeftChevronOperator)
            } else if s == ">>"@ {
                Some(Token::DoubleRightChevronOperator)
            } else {
                common_operator(s)
            }
        },
        ProgramContext::TypeContext => {
            if type_keyword(s) is Some {
                type_keyword(s)
            } else if s == "?"@ {
                Some(Token::QuestionOperator)
            } else {
                common_operator(s)
            }
        },
    }
}

fn find_value_keyword(chars: &Vec<char>, from: usize, to: usize) -> (r: Option<Token>)
    requires
        from <= to <= chars.len(),
    ensures
        r == value_keyword(chars@.subrange(from as int, to as int)),
{
    if spelled(chars, from, to, "true") {
        Some(Token::TrueKeyword)
    } else if spelled(chars, from, to, "false") {
        Some(Token::FalseKeyword)
    } else if spelled(chars, from, to, "import") {
        Some(Token::ImportKeyword)
    } else if spelled(chars, from, to, "use") {
        Some(Token::UseKeyword)
    } else if spelled(chars, from, to, "fn") {
        Some(Token::FnKeyword)
    } else if spelled(chars, from, to, "struct") {
        Some(Token::StructKeyword)
    } else if spelled(chars, from, to, "enum") {
        Some(Token::EnumKeyword)
    } else if spelled(chars, from, to, "trait") {
        Some(Token::TraitKeyword)
    } else if spelled(chars, from, to, "instance") {
        Some(Token::InstanceKeyword)
    } else if spelled(chars, from, to, "type") {
        Some(Token::TypeKeyword)
    } else if spelled(chars, from, to, "const") {
        Some(Token::ConstKeyword)
    } else if spelled(chars, from, to, "let") {
        Some(Token::LetKeyword)
    } else if spelled(chars, from, to, "for") {
        Some(Token::ForKeyword)
    } else if spelled(chars, from, to, "in") {
        Some(Token::InKeyword)
    } else if spelled(chars, from, to, "if") {
        Some(Token::IfKeyword)
    } else if spelled(chars, from, to, "else") {
        Some(Token::ElseKeyword)
    } else if spelled(chars, from, to, "while") {
        Some(Token::WhileKeyword)
    } else if spelled(chars, from, to, "loop") {
        Some(Token::LoopKeyword)
    } else if spelled(chars, from, to, "try") {
        Some(Token::TryKeyword)
    } else if spelled(chars, from, to, "catch") {
        Some(Token::CatchKeyword)
    } else if spelled(chars, from, to, "or") {
        Some(Token::OrKeyword)
    } else if spelled(chars, from, to, "and") {
        Some(Token::AndKeyword)
    } else if spelled(chars, from, to, "not") {
        Some(Token::NotKeyword)
    } else if spelled(chars, from, to, "return") {
        Some(Token::ReturnKeyword)
    } else if spelled(chars, from, to, "break") {
        Some(Token::BreakKeyword)
    } else if spelled(chars, from, to, "continue") {
        Some(Token::ContinueKeyword)
    } else if spelled(chars, from, to, "super") {
        Some(Token::SuperKeyword)
    } else if spelled(chars, from, to, "self") {
        Some(Token::SelfKeyword)
    } else {
        None
    }
}

fn find_type_keyword(chars: &Vec<char>, from: usize, to: usize) -> (r: Option<Token>)
    requires
        from <= to <= chars.len(),
    ensures
        r == type_keyword(chars@.subrange(from as int, to as int)),
{
    if spelled(chars, from, to, "i8") {
        Some(Token::I8Keyword)
    } else if spelled(chars, from, to, "i16") {
        Some(Token::I16Keyword)
    } else if spelled(chars, from, to, "i32") {
        Some(Token::I32Keyword)
    } else if spelled(chars, from, to, "i64") {
        Some(Token::I64Keyword)
    } else if spelled(chars, from, to, "i128") {
        Some(Token::I128Keyword)
    } else if spelled(chars, from, to, "isize") {
        Some(Token::ISizeKeyword)
    } else if spelled(chars, from, to, "u8") {
        Some(Token::U8Keyword)
    } else if spelled(chars, from, to, "u16") {
        Some(Token::U16Keyword)
    } else if spelled(chars, from, to, "u32") {
        Some(Token::U32Keyword)
    } else if spelled(chars, from, to, "u64") {
        Some(Token::U64Keyword)
    } else if spelled(chars, from, to, "u128") {
        Some(Token::U128Keyword)
    } else if spelled(chars, from, to, "usize") {
        Some(Token::USizeKeyword)
    } else if spelled(chars, from, to, "f32") {
        Some(Token::F32Keyword)
    } else if spelled(chars, from, to, "f64") {
        Some(Token::F64Keyword)
    } else if spelled(chars, from, to, "bool") {
        Some(Token::BoolKeyword)
    } else if spelled(chars, from, to, "char") {
        Some(Token::CharKeyword)
    } else {
        None
    }
}

fn find_common_operator(chars: &Vec<char>, from: usize, to: usize) -> (r: Option<Token>)
    requires
        from <= to <= chars.len(),
    ensures
        r == common_operator(chars@.subrange(from as int, to as int)),
{
    if spelled(chars, from, to, "{") {
        Some(Token::LeftCurlyBracketOperator)
    } else if spelled(chars, from, to, "}") {
        Some(Token::RightCurlyBracketOperator)
    } else if spelled(chars, from, to, "[") {
        Some(Token::LeftSquareBracketOperator)
    } else if spelled(chars, from, to, "]") {
        Some(Token::RightSquareBracketOperator)
    } else if spelled(chars, from, to, "(") {
        Some(Token::LeftParenthesisOperator)
    } else if spelled(chars, from, to, ")") {
        Some(Token::RightParenthesisOperator)
    } else if spelled(chars, from, to, ";") {
        Some(Token::SemicolonOperator)
    } else if spelled(chars, from, to, ",") {
        Some(Token::CommaOperator)
    } else if spelled(chars, from, to, ":") {
        Some(Token::ColonOperator)
    } else if spelled(chars, from, to, "=") {
        Some(Token::EqualOperator)
    } else if spelled(chars, from, to, "|") {
        Some(Token::PipeOperator)
    } else if spelled(chars, from, to, "==") {
        Some(Token::DoubleEqualOperator)
    } else if spelled(chars, from, to, "!=") {
        Some(Token::BangEqualOperator)
    } else if spelled(chars, from, to, "<") {
        Some(Token::LeftChevronOperator)
    } else if spelled(chars, from, to, ">") {
        Some(Token::RightChevronOperator)
    } else if spelled(chars, from, to, "<=") {
        Some(Token::LeftChevronEqualOperator)
    } else if spelled(chars, from, to, ">=") {
        Some(Token::RightChevronEqualOperator)
    } else if spelled(chars, from, to, "+") {
        Some(Token::PlusOperator)
    } else if spelled(chars, from, to, "-") {
        Some(Token::MinusOperator)
    } else if spelled(chars, from, to, "*") {
        Some(Token::StarOperator)
    } else if spelled(chars, from, to, "/") {
        Some(Token::SlashOperator)
    } else if spelled(chars, from, to, "%") {
        Some(Token::PercentOperator)
    } else if spelled(chars, from, to, "**") {
        Some(Token::DoubleStarOperator)
    } else if spelled(chars, from, to, "^") {
        Some(Token::CaretOperator)
    } else if spelled(chars, from, to, "&") {
        Some(Token::AmpersandOperator)
    } else if spelled(chars, from, to, "~") {
        Some(Token::TildeOperator)
    } else if spelled(chars, from, to, "<<=") {
        Some(Token::DoubleLeftChevronEqualOperator)
    } else if spelled(chars, from, to, ">>=") {
        Some(Token::DoubleRightChevronEqualOperator)
    } else if spelled(chars, from, to, "+=") {
        Some(Token::PlusEqualOperator)
    } else if spelled(chars, from, to, "-=") {
        Some(Token::MinusEqualOperator)
    } else if spelled(chars, from, to, "*=") {
        Some(Token::StarEqualOperator)
    } else if spelled(chars, from, to, "/=") {
        Some(Token::SlashEqualOperator)
    } else if spelled(chars, from, to, "%=") {
        Some(Token::PercentEqualOperator)
    } else if spelled(chars, from, to, "**=") {
        Some(Token::DoubleStarEqualOperator)
    } else if spelled(chars, from, to, "^=") {
        Some(Token::CaretEqualOperator)
    } else if spelled(chars, from, to, "&=") {
        Some(Token::AmpersandEqualOperator)
    } else if spelled(chars, from, to, "~=") {
        Some(Token::TildeEqualOperator)
    } else if spelled(chars, from, to, "|=") {
        Some(Token::PipeEqualOperator)
    } else if spelled(chars, from, to, "!") {
        Some(Token::BangOperator)
    } else if spelled(chars, from, to, "!!") {
        Some(Token::DoubleBangOperator)
    } else if spelled(chars, from, to, ".") {
        Some(Token::DotOperator)
    } else if spelled(chars, from, to, "::") {
        Some(Token::ScopeResolutionOperator)
    } else if spelled(chars, from, to, "=>") {
        Some(Token::DoubleArrowOperator)
    } else {
        None
    }
}

/// Looks up the spelling that `chars` holds from `from` up to `to`.
pub fn lookup_run(chars: &Vec<char>, from: usize, to: usize, mode: ProgramContext) -> (r: Option<
    Token,
>)
    requires
        from <= to <= chars.len(),
    ensures
        r == lookup(chars@.subrange(from as int, to as int), mode),
{
    match mode {
        ProgramContext::NormalContext => {
            let word = find_value_keyword(chars, from, to);
            if word.is_some() {
                word
            } else if spelled(chars, from, to, "<<") {
                Some(Token::DoubleLeftChevronOperator)
            } else if spelled(chars, from, to, ">>") {
                Some(Token::DoubleRightChevronOperator)
            } else {
                find_common_operator(chars, from, to)
            }
        },
        ProgramContext::TypeContext => {
            let word = find_type_keyword(chars, from, to);
            if word.is_some() {
                word
            } else if spelled(chars, from, to, "?") {
                Some(Token::QuestionOperator)
            } else {
                find_common_operator(chars, from, to)
            }
        },
    }
}

impl Token {
    /// The spelling of the token: the decimal numeral of an integer, the
    /// text of the other literals and of an identifier, the fixed spelling
    /// of everything else.
    pub fn as_string(&self) -> (s: String)
        ensures
            s@ == self.spelling(),
    {
        match self {
            Token::BOF => String::from_str("BOF"),
            Token::EOF => String::from_str("EOF"),
            Token::IntToken(n) => render_decimal(*n),
            Token::FloatToken(text) => text.clone(),
            Token::StringToken(text) => text.clone(),
            Token::CharToken(c) => {
                let mut s = String::new();
                s.push(*c);
                assert(s@ =~= seq![*c]);
                s
            },
            Token::Identifier(name) => name.clone(),
            Token::TrueKeyword => String::from_str("true"),
            Token::FalseKeyword => String::from_str("false"),
            Token::ImportKeyword => String::from_str("import"),
            Token::UseKeyword => String::from_str("use"),
            Token::FnKeyword => String::from_str("fn"),
            Token::StructKeyword => String::from_str("struct"),
            Token::EnumKeyword => String::from_str("enum"),
            Token::TraitKeyword => String::from_str("trait"),
            Token::InstanceKeyword => String::from_str("instance"),
            Token::TypeKeyword => String::from_str("type"),
            Token::ConstKeyword => String::from_str("const"),
            Token::LetKeyword => String::from_str("let"),
            Token::ForKeyword => String::from_str("for"),
            Token::InKeyword => String::from_str("in"),
            Token::IfKeyword => String::from_str("if"),
            Token::ElseKeyword => String::from_str("else"),
            Token::WhileKeyword => String::from_str("while"),
            Token::LoopKeyword => String::from_str("loop"),
            Token::TryKeyword => String::from_str("try"),
            Token::CatchKeyword => String::from_str("catch"),
            Token::OrKeyword => String::from_str("or"),
            Token::AndKeyword => String::from_str("and"),
            Token::NotKeyword => String::from_str("not"),
            Token::ReturnKeyword => String::from_str("return"),
            Token::BreakKeyword => String::from_str("break"),
            Token::ContinueKeyword => String::from_str("continue"),
            Token::SuperKeyword => String::from_str("super"),
            Token::SelfKeyword => String::from_str("self"),
            Token::I8Keyword => String::from_str("i8"),
            Token::I16Keyword => String::from_str("i16"),
            Token::I32Keyword => String::from_str("i32"),
            Token::I64Keyword => String::from_str("i64"),
            Token::I128Keyword => String::from_str("i128"),
            Token::ISizeKeyword => String::from_str("isize"),
            Token::U8Keyword => String::from_str("u8"),
            Token::U16Keyword => String::from_str("u16"),
            Token::U32Keyword => String::from_str("u32"),
            Token::U64Keyword => String::from_str("u64"),
            Token::U128Keyword => String::from_str("u128"),
            Token::USizeKeyword => String::from_str("usize"),
            Token::F32Keyword => String::from_str("f32"),
            Token::F64Keyword => String::from_str("f64"),
            Token::BoolKeyword => String::from_str("bool"),
            Token::CharKeyword => String::from_str("char"),
            Token::LeftCurlyBracketOperator => String::from_str("{"),
            Token::RightCurlyBracketOperator => String::from_str("}"),
            Token::LeftSquareBracketOperator => String::from_str("["),
            Token::RightSquareBracketOperator => String::from_str("]"),
            Token::LeftParenthesisOperator => String::from_str("("),
            Token::RightParenthesisOperator => String::from_str(")"),
            Token::SemicolonOperator => String::from_str(";"),
            Token::CommaOperator => String::from_str(","),
            Token::ColonOperator => String::from_str(":"),
            Token::EqualOperator => String::from_str("="),
            Token::PipeOperator => String::from_str("|"),
            Token::DoubleEqualOperator => String::from_str("=="),
            Token::BangEqualOperator => String::from_str("!="),
            Token::LeftChevronOperator => String::from_str("<"),
            Token::RightChevronOperator => String::from_str(">"),
            Token::LeftChevronEqualOperator => String::from_str("<="),
            Token::RightChevronEqualOperator => String::from_str(">="),
            Token::DoubleLeftChevronOperator => String::from_str("<<"),
            Token::DoubleRightChevronOperator => String::from_str(">>"),
            Token::PlusOperator => String::from_str("+"),
            Token::MinusOperator => String::from_str("-"),
            Token::StarOperator => String::from_str("*"),
            Token::SlashOperator => String::from_str("/"),
            Token::PercentOperator => String::from_str("%"),
            Token::DoubleStarOperator => String::from_str("**"),
            Token::CaretOperator => String::from_str("^"),
            Token::AmpersandOperator => String::from_str("&"),
            Token::TildeOperator => String::from_str("~"),
            Token::DoubleLeftChevronEqualOperator => String::from_str("<<="),
            Token::DoubleRightChevronEqualOperator => String::from_str(">>="),
            Token::PlusEqualOperator => String::from_str("+="),
            Token::MinusEqualOperator => String::from_str("-="),
            Token::StarEqualOperator => String::from_str("*="),
            Token::SlashEqualOperator => String::from_str("/="),
            Token::PercentEqualOperator => String::from_str("%="),
            Token::DoubleStarEqualOperator => String::from_str("**="),
            Token::CaretEqualOperator => String::from_str("^="),
            Token::AmpersandEqualOperator => String::from_str("&="),
            Token::TildeEqualOperator => String::from_str("~="),
            Token::PipeEqualOperator => String::from_str("|="),
            Token::BangOperator => String::from_str("!"),
            Token::DoubleBangOperator => String::from_str("!!"),
            Token::QuestionOperator => String::from_str("?"),
            Token::DotOperator => String::from_str("."),
            Token::ScopeResolutionOperator => String::from_str("::"),
            Token::DoubleArrowOperator => String::from_str("=>"),
        }
    }

    /// The reserved word or operator that `s` spells under `context`; `None`
    /// where the table of that context holds no such spelling.
    pub fn string_to_token_content(s: String, context: &ProgramContext) -> (r: Option<Token>)
        ensures
            r == lookup(s@, *context),
    {
        let chars = collect_chars(&s);
        assert(chars@.subrange(0, chars@.len() as int) =~= s@);
        lookup_run(&chars, 0, chars.len(), *context)
    }

    /// A copy of the token.
    pub fn duplicate(&self) -> (t: Token)
        ensures
            t@ == self@,
    {
        match self {
            Token::BOF => Token::BOF,
            Token::EOF => Token::EOF,
            Token::IntToken(n) => Token::IntToken(*n),
            Token::FloatToken(text) => Token::FloatToken(text.clone()),
            Token::StringToken(text) => Token::StringToken(text.clone()),
            Token::CharToken(c) => Token::CharToken(*c),
            Token::Identifier(name) => Token::Identifier(name.clone()),
            Token::TrueKeyword => Token::TrueKeyword,
            Token::FalseKeyword => Token::FalseKeyword,
            Token::ImportKeyword => Token::ImportKeyword,
            Token::UseKeyword => Token::UseKeyword,
            Token::FnKeyword => Token::FnKeyword,
            Token::StructKeyword => Token::StructKeyword,
            Token::EnumKeyword => Token::EnumKeyword,
            Token::TraitKeyword => Token::TraitKeyword,
            Token::InstanceKeyword => Token::InstanceKeyword,
            Token::TypeKeyword => Token::TypeKeyword,
            Token::ConstKeyword => Token::ConstKeyword,
            Token::LetKeyword => Token::LetKeyword,
            Token::ForKeyword => Token::ForKeyword,
            Token::InKeyword => Token::InKeyword,
            Token::IfKeyword => Token::IfKeyword,
            Token::ElseKeyword => Token::ElseKeyword,
            Token::WhileKeyword => Token::WhileKeyword,
            Token::LoopKeyword => Token::LoopKeyword,
            Token::TryKeyword => Token::TryKeyword,
            Token::CatchKeyword => Token::CatchKeyword,
            Token::OrKeyword => Token::OrKeyword,
            Token::AndKeyword => Token::AndKeyword,
            Token::NotKeyword => Token::NotKeyword,
            Token::ReturnKeyword => Token::ReturnKeyword,
            Token::BreakKeyword => Token::BreakKeyword,
            Token::ContinueKeyword => Token::ContinueKeyword,
            Token::SuperKeyword => Token::SuperKeyword,
            Token::SelfKeyword => Token::SelfKeyword,
            Token::I8Keyword => Token::I8Keyword,
            Token::I16Keyword => Token::I16Keyword,
            Token::I32Keyword => Token::I32Keyword,
            Token::I64Keyword => Token::I64Keyword,
            Token::I128Keyword => Token::I128Keyword,
            Token::ISizeKeyword => Token::ISizeKeyword,
            Token::U8Keyword => Token::U8Keyword,
            Token::U16Keyword => Token::U16Keyword,
            Token::U32Keyword => Token::U32Keyword,
            Token::U64Keyword => Token::U64Keyword,
            Token::U128Keyword => Token::U128Keyword,
            Token::USizeKeyword => Token::USizeKeyword,
            Token::F32Keyword => Token::F32Keyword,
            Token::F64Keyword => Token::F64Keyword,
            Token::BoolKeyword => Token::BoolKeyword,
            Token::CharKeyword => Token::CharKeyword,
            Token::LeftCurlyBracketOperator => Token::LeftCurlyBracketOperator,
            Token::RightCurlyBracketOperator => Token::RightCurlyBracketOperator,
            Token::LeftSquareBracketOperator => Token::LeftSquareBracketOperator,
            Token::RightSquareBracketOperator => Token::RightSquareBracketOperator,
            Token::LeftParenthesisOperator => Token::LeftParenthesisOperator,
            Token::RightParenthesisOperator => Token::RightParenthesisOperator,
            Token::SemicolonOperator => Token::SemicolonOperator,
            Token::CommaOperator => Token::CommaOperator,
            Token::ColonOperator => Token::ColonOperator,
            Token::EqualOperator => Token::EqualOperator,
            Token::PipeOperator => Token::PipeOperator,
            Token::DoubleEqualOperator => Token::DoubleEqualOperator,
            Token::BangEqualOperator => Token::BangEqualOperator,
            Token::LeftChevronOperator => Token::LeftChevronOperator,
            Token::RightChevronOperator => Token::RightChevronOperator,
            Token::LeftChevronEqualOperator => Token::LeftChevronEqualOperator,
            Token::RightChevronEqualOperator => Token::RightChevronEqualOperator,
            Token::DoubleLeftChevronOperator => Token::DoubleLeftChevronOperator,
            Token::DoubleRightChevronOperator => Token::DoubleRightChevronOperator,
            Token::PlusOperator => Token::PlusOperator,
            Token::MinusOperator => Token::MinusOperator,
            Token::StarOperator => Token::StarOperator,
            Token::SlashOperator => Token::SlashOperator,
            Token::PercentOperator => Token::PercentOperator,
            Token::DoubleStarOperator => Token::DoubleStarOperator,
            Token::CaretOperator => Token::CaretOperator,
            Token::AmpersandOperator => Token::AmpersandOperator,
            Token::TildeOperator => Token::TildeOperator,
            Token::DoubleLeftChevronEqualOperator => Token::DoubleLeftChevronEqualOperator,
            Token::DoubleRightChevronEqualOperator => Token::DoubleRightChevronEqualOperator,
            Token::PlusEqualOperator => Token::PlusEqualOperator,
            Token::MinusEqualOperator => Token::MinusEqualOperator,
            Token::StarEqualOperator => Token::StarEqualOperator,
            Token::SlashEqualOperator => Token::SlashEqualOperator,
            Token::PercentEqualOperator => Token::PercentEqualOperator,
            Token::DoubleStarEqualOperator => Token::DoubleStarEqualOperator,
            Token::CaretEqualOperator => Token::CaretEqualOperator,
            Token::AmpersandEqualOperator => Token::AmpersandEqualOperator,
            Token::TildeEqualOperator => Token::TildeEqualOperator,
            Token::PipeEqualOperator => Token::PipeEqualOperator,
            Token::BangOperator => Token::BangOperator,
            Token::DoubleBangOperator => Token::DoubleBangOperator,
            Token::QuestionOperator => Token::QuestionOperator,
            Token::DotOperator => Token::DotOperator,
            Token::ScopeResolutionOperator => Token::ScopeResolutionOperator,
            Token::DoubleArrowOperator => Token::DoubleArrowOperator,
        }
    }
}

/// The letters of the reserved words of value context.
proof fn value_keyword_letters()
    ensures
        "true"@.len() == 4 && "true"@[0] == 't' && "true"@[1] == 'r' && "true"@[2] == 'u' && "true"@[3] == 'e',
        "false"@.len() == 5 && "false"@[0] == 'f' && "false"@[1] == 'a' && "false"@[2] == 'l' && "false"@[3] == 's' && "false"@[4] == 'e',
        "import"@.len() == 6 && "import"@[0] == 'i' && "import"@[1] == 'm' && "import"@[2] == 'p' && "import"@[3] == 'o' && "import"@[4] == 'r' && "import"@[5] == 't',
        "use"@.len() == 3 && "use"@[0] == 'u' && "use"@[1] == 's' && "use"@[2] == 'e',
        "fn"@.len() == 2 && "fn"@[0] == 'f' && "fn"@[1] == 'n',
        "struct"@.len() == 6 && "struct"@[0] == 's' && "struct"@[1] == 't' && "struct"@[2] == 'r' && "struct"@[3] == 'u' && "struct"@[4] == 'c' && "struct"@[5] == 't',
        "enum"@.len() == 4 && "enum"@[0] == 'e' && "enum"@[1] == 'n' && "enum"@[2] == 'u' && "enum"@[3] == 'm',
        "trait"@.len() == 5 && "trait"@[0] == 't' && "trait"@[1] == 'r' && "trait"@[2] == 'a' && "trait"@[3] == 'i' && "trait"@[4] == 't',
        "instance"@.len() == 8 && "instance"@[0] == 'i' && "instance"@[1] == 'n' && "instance"@[2] == 's' && "instance"@[3] == 't' && "instance"@[4] == 'a' && "instance"@[5] == 'n' && "instance"@[6] == 'c' && "instance"@[7] == 'e',
        "type"@.len() == 4 && "type"@[0] == 't' && "type"@[1] == 'y' && "type"@[2] == 'p' && "type"@[3] == 'e',
        "const"@.len() == 5 && "const"@[0] == 'c' && "const"@[1] == 'o' && "const"@[2] == 'n' && "const"@[3] == 's' && "const"@[4] == 't',
        "let"@.len() == 3 && "let"@[0] == 'l' && "let"@[1] == 'e' && "let"@[2] == 't',
        "for"@.len() == 3 && "for"@[0] == 'f' && "for"@[1] == 'o' && "for"@[2] == 'r',
        "in"@.len() == 2 && "in"@[0] == 'i' && "in"@[1] == 'n',
        "if"@.len() == 2 && "if"@[0] == 'i' && "if"@[1] == 'f',
        "else"@.len() == 4 && "else"@[0] == 'e' && "else"@[1] == 'l' && "else"@[2] == 's' && "else"@[3] == 'e',
        "while"@.len() == 5 && "while"@[0] == 'w' && "while"@[1] == 'h' && "while"@[2] == 'i' && "while"@[3] == 'l' && "while"@[4] == 'e',
        "loop"@.len() == 4 && "loop"@[0] == 'l' && "loop"@[1] == 'o' && "loop"@[2] == 'o' && "loop"@[3] == 'p',
        "try"@.len() == 3 && "try"@[0] == 't' && "try"@[1] == 'r' && "try"@[2] == 'y',
        "catch"@.len() == 5 && "catch"@[0] == 'c' && "catch"@[1] == 'a' && "catch"@[2] == 't' && "catch"@[3] == 'c' && "catch"@[4] == 'h',
        "or"@.len() == 2 && "or"@[0] == 'o' && "or"@[1] == 'r',
        "and"@.len() == 3 && "and"@[0] == 'a' && "and"@[1] == 'n' && "and"@[2] == 'd',
        "not"@.len() == 3 && "not"@[0] == 'n' && "not"@[1] == 'o' && "not"@[2] == 't',
        "return"@.len() == 6 && "return"@[0] == 'r' && "return"@[1] == 'e' && "return"@[2] == 't' && "return"@[3] == 'u' && "return"@[4] == 'r' && "return"@[5] == 'n',
        "break"@.len() == 5 && "break"@[0] == 'b' && "break"@[1] == 'r' && "break"@[2] == 'e' && "break"@[3] == 'a' && "break"@[4] == 'k',
        "continue"@.len() == 8 && "continue"@[0] == 'c' && "continue"@[1] == 'o' && "continue"@[2] == 'n' && "continue"@[3] == 't' && "continue"@[4] == 'i' && "continue"@[5] == 'n' && "continue"@[6] == 'u' && "continue"@[7] == 'e',
        "super"@.len() == 5 && "super"@[0] == 's' && "super"@[1] == 'u' && "super"@[2] == 'p' && "super"@[3] == 'e' && "super"@[4] == 'r',
        "self"@.len() == 4 && "self"@[0] == 's' && "self"@[1] == 'e' && "self"@[2] == 'l' && "self"@[3] == 'f',
{
    reveal_strlit("true");
    reveal_strlit("false");
    reveal_strlit("import");
    reveal_strlit("use");
    reveal_strlit("fn");
    reveal_strlit("struct");
    reveal_strlit("enum");
    reveal_strlit("trait");
    reveal_strlit("instance");
    reveal_strlit("type");
    reveal_strlit("const");
    reveal_strlit("let");
    reveal_strlit("for");
    reveal_strlit("in");
    reveal_strlit("if");
    reveal_strlit("else");
    reveal_strlit("while");
    reveal_strlit("loop");
    reveal_strlit("try");
    reveal_strlit("catch");
    reveal_strlit("or");
    reveal_strlit("and");
    reveal_strlit("not");
    reveal_strlit("return");
    reveal_strlit("break");
    reveal_strlit("continue");
    reveal_strlit("super");
    reveal_strlit("self");
}

/// The letters of the names of the primitive types.
proof fn type_keyword_letters()
    ensures
        "i8"@.len() == 2 && "i8"@[0] == 'i' && "i8"@[1] == '8',
        "i16"@.len() == 3 && "i16"@[0] == 'i' && "i16"@[1] == '1' && "i16"@[2] == '6',
        "i32"@.len() == 3 && "i32"@[0] == 'i' && "i32"@[1] == '3' && "i32"@[2] == '2',
        "i64"@.len() == 3 && "i64"@[0] == 'i' && "i64"@[1] == '6' && "i64"@[2] == '4',
        "i128"@.len() == 4 && "i128"@[0] == 'i' && "i128"@[1] == '1' && "i128"@[2] == '2' && "i128"@[3] == '8',
        "isize"@.len() == 5 && "isize"@[0] == 'i' && "isize"@[1] == 's' && "isize"@[2] == 'i' && "isize"@[3] == 'z' && "isize"@[4] == 'e',
        "u8"@.len() == 2 && "u8"@[0] == 'u' && "u8"@[1] == '8',
        "u16"@.len() == 3 && "u16"@[0] == 'u' && "u16"@[1] == '1' && "u16"@[2] == '6',
        "u32"@.len() == 3 && "u32"@[0] == 'u' && "u32"@[1] == '3' && "u32"@[2] == '2',
        "u64"@.len() == 3 && "u64"@[0] == 'u' && "u64"@[1] == '6' && "u64"@[2] == '4',
        "u128"@.len() == 4 && "u128"@[0] == 'u' && "u128"@[1] == '1' && "u128"@[2] == '2' && "u128"@[3] == '8',
        "usize"@.len() == 5 && "usize"@[0] == 'u' && "usize"@[1] == 's' && "usize"@[2] == 'i' && "usize"@[3] == 'z' && "usize"@[4] == 'e',
        "f32"@.len() == 3 && "f32"@[0] == 'f' && "f32"@[1] == '3' && "f32"@[2] == '2',
        "f64"@.len() == 3 && "f64"@[0] == 'f' && "f64"@[1] == '6' && "f64"@[2] == '4',
        "bool"@.len() == 4 && "bool"@[0] == 'b' && "bool"@[1] == 'o' && "bool"@[2] == 'o' && "bool"@[3] == 'l',
        "char"@.len() == 4 && "char"@[0] == 'c' && "char"@[1] == 'h' && "char"@[2] == 'a' && "char"@[3] == 'r',
{
    reveal_strlit("i8");
    reveal_strlit("i16");
    reveal_strlit("i32");
    reveal_strlit("i64");
    reveal_strlit("i128");
    reveal_strlit("isize");
    reveal_strlit("u8");
    reveal_strlit("u16");
    reveal_strlit("u32");
    reveal_strlit("u64");
    reveal_strlit("u128");
    reveal_strlit("usize");
    reveal_strlit("f32");
    reveal_strlit("f64");
    reveal_strlit("bool");
    reveal_strlit("char");
}

/// The characters of the operators.
proof fn operator_characters()
    ensures
        "{"@.len() == 1 && "{"@[0] == '{',
        "}"@.len() == 1 && "}"@[0] == '}',
        "["@.len() == 1 && "["@[0] == '[',
        "]"@.len() == 1 && "]"@[0] == ']',
        "("@.len() == 1 && "("@[0] == '(',
        ")"@.len() == 1 && ")"@[0] == ')',
        ";"@.len() == 1 && ";"@[0] == ';',
        ","@.len() == 1 && ","@[0] == ',',
        ":"@.len() == 1 && ":"@[0] == ':',
        "="@.len() == 1 && "="@[0] == '=',
        "|"@.len() == 1 && "|"@[0] == '|',
        "=="@.len() == 2 && "=="@[0] == '=' && "=="@[1] == '=',
        "!="@.len() == 2 && "!="@[0] == '!' && "!="@[1] == '=',
        "<"@.len() == 1 && "<"@[0] == '<',
        ">"@.len() == 1 && ">"@[0] == '>',
        "<="@.len() == 2 && "<="@[0] == '<' && "<="@[1] == '=',
        ">="@.len() == 2 && ">="@[0] == '>' && ">="@[1] == '=',
        "<<"@.len() == 2 && "<<"@[0] == '<' && "<<"@[1] == '<',
        ">>"@.len() == 2 && ">>"@[0] == '>' && ">>"@[1] == '>',
        "+"@.len() == 1 && "+"@[0] == '+',
        "-"@.len() == 1 && "-"@[0] == '-',
        "*"@.len() == 1 && "*"@[0] == '*',
        "/"@.len() == 1 && "/"@[0] == '/',
        "%"@.len() == 1 && "%"@[0] == '%',
        "**"@.len() == 2 && "**"@[0] == '*' && "**"@[1] == '*',
        "^"@.len() == 1 && "^"@[0] == '^',
        "&"@.len() == 1 && "&"@[0] == '&',
        "~"@.len() == 1 && "~"@[0] == '~',
        "<<="@.len() == 3 && "<<="@[0] == '<' && "<<="@[1] == '<' && "<<="@[2] == '=',
        ">>="@.len() == 3 && ">>="@[0] == '>' && ">>="@[1] == '>' && ">>="@[2] == '=',
        "+="@.len() == 2 && "+="@[0] == '+' && "+="@[1] == '=',
        "-="@.len() == 2 && "-="@[0] == '-' && "-="@[1] == '=',
        "*="@.len() == 2 && "*="@[0] == '*' && "*="@[1] == '=',
        "/="@.len() == 2 && "/="@[0] == '/' && "/="@[1] == '=',
        "%="@.len() == 2 && "%="@[0] == '%' && "%="@[1] == '=',
        "**="@.len() == 3 && "**="@[0] == '*' && "**="@[1] == '*' && "**="@[2] == '=',
        "^="@.len() == 2 && "^="@[0] == '^' && "^="@[1] == '=',
        "&="@.len() == 2 && "&="@[0] == '&' && "&="@[1] == '=',
        "~="@.len() == 2 && "~="@[0] == '~' && "~="@[1] == '=',
        "|="@.len() == 2 && "|="@[0] == '|' && "|="@[1] == '=',
        "!"@.len() == 1 && "!"@[0] == '!',
        "!!"@.len() == 2 && "!!"@[0] == '!' && "!!"@[1] == '!',
        "?"@.len() == 1 && "?"@[0] == '?',
        "."@.len() == 1 && "."@[0] == '.',
        "::"@.len() == 2 && "::"@[0] == ':' && "::"@[1] == ':',
        "=>"@.len() == 2 && "=>"@[0] == '=' && "=>"@[1] == '>',
{
    reveal_strlit("{");
    reveal_strlit("}");
    reveal_strlit("[");
    reveal_strlit("]");
    reveal_strlit("(");
    reveal_strlit(")");
    reveal_strlit(";");
    reveal_strlit(",");
    reveal_strlit(":");
    reveal_strlit("=");
    reveal_strlit("|");
    reveal_strlit("==");
    reveal_strlit("!=");
    reveal_strlit("<");
    reveal_strlit(">");
    reveal_strlit("<=");
    reveal_strlit(">=");
    reveal_strlit("<<");
    reveal_strlit(">>");
    reveal_strlit("+");
    reveal_strlit("-");
    reveal_strlit("*");
    reveal_strlit("/");
    reveal_strlit("%");
    reveal_strlit("**");
    reveal_strlit("^");
    reveal_strlit("&");
    reveal_strlit("~");
    reveal_strlit("<<=");
    reveal_strlit(">>=");
    reveal_strlit("+=");
    reveal_strlit("-=");
    reveal_strlit("*=");
    reveal_strlit("/=");
    reveal_strlit("%=");
    reveal_strlit("**=");
    reveal_strlit("^=");
    reveal_strlit("&=");
    reveal_strlit("~=");
    reveal_strlit("|=");
    reveal_strlit("!");
    reveal_strlit("!!");
    reveal_strlit("?");
    reveal_strlit(".");
    reveal_strlit("::");
    reveal_strlit("=>");
}

/// Whatever the table hands out for a spelling is a reserved word or an
/// operator that the context reads, and it is written exactly so.
pub proof fn lookup_is_sound(s: Seq<char>, mode: ProgramContext)
    ensures
        lookup(s, mode) matches Some(t) ==> t.is_fixed() && t.recognised(mode) && t.spelling() == s,
{
}

/// A reserved word starts with a small letter of ASCII.
pub proof fn keywords_start_with_a_letter(s: Seq<char>)
    requires
        value_keyword(s) is Some || type_keyword(s) is Some,
    ensures
        s.len() > 0,
        'a' <= s[0] <= 'z',
{
    value_keyword_letters();
    type_keyword_letters();
}

/// An operator starts with a punctuation character of ASCII and has at most
/// three characters.
pub proof fn operators_start_with_punctuation(t: Token)
    requires
        t.is_operator(),
    ensures
        0 < t.spelling().len() <= 3,
        ascii_punctuation(t.spelling()[0]),
{
    operator_characters();
}

proof fn value_keyword_is_found(t: Token)
    requires
        t.is_value_keyword(),
    ensures
        value_keyword(t.spelling()) == Some(t),
{
    value_keyword_letters();
    match t {
        Token::TrueKeyword => {
            assert(value_keyword("true"@) == Some(Token::TrueKeyword));
        },
        Token::FalseKeyword => {
            assert(value_keyword("false"@) == Some(Token::FalseKeyword));
        },
        Token::ImportKeyword => {
            assert(value_keyword("import"@) == Some(Token::ImportKeyword));
        },
        Token::UseKeyword => {
            assert(value_keyword("use"@) == Some(Token::UseKeyword));
        },
        Token::FnKeyword => {
            assert(value_keyword("fn"@) == Some(Token::FnKeyword));
        },
        Token::StructKeyword => {
            assert(value_keyword("struct"@) == Some(Token::StructKeyword));
        },
        Token::EnumKeyword => {
            assert(value_keyword("enum"@) == Some(Token::EnumKeyword));
        },
        Token::TraitKeyword => {
            assert(value_keyword("trait"@) == Some(Token::TraitKeyword));
        },
        Token::InstanceKeyword => {
            assert(value_keyword("instance"@) == Some(Token::InstanceKeyword));
        },
        Token::TypeKeyword => {
            assert(value_keyword("type"@) == Some(Token::TypeKeyword));
        },
        Token::ConstKeyword => {
            assert(value_keyword("const"@) == Some(Token::ConstKeyword));
        },
        Token::LetKeyword => {
            assert(value_keyword("let"@) == Some(Token::LetKeyword));
        },
        Token::ForKeyword => {
            assert(value_keyword("for"@) == Some(Token::ForKeyword));
        },
        Token::InKeyword => {
            assert(value_keyword("in"@) == Some(Token::InKeyword));
        },
        Token::IfKeyword => {
            assert(value_keyword("if"@) == Some(Token::IfKeyword));
        },
        Token::ElseKeyword => {
            assert(value_keyword("else"@) == Some(Token::ElseKeyword));
        },
        Token::WhileKeyword => {
            assert(value_keyword("while"@) == Some(Token::WhileKeyword));
        },
        Token::LoopKeyword => {
            assert(value_keyword("loop"@) == Some(Token::LoopKeyword));
        },
        Token::TryKeyword => {
            assert(value_keyword("try"@) == Some(Token::TryKeyword));
        },
        Token::CatchKeyword => {
            assert(value_keyword("catch"@) == Some(Token::CatchKeyword));
        },
        Token::OrKeyword => {
            assert(value_keyword("or"@) == Some(Token::OrKeyword));
        },
        Token::AndKeyword => {
            assert(value_keyword("and"@) == Some(Token::AndKeyword));
        },
        Token::NotKeyword => {
            assert(value_keyword("not"@) == Some(Token::NotKeyword));
        },
        Token::ReturnKeyword => {
            assert(value_keyword("return"@) == Some(Token::ReturnKeyword));
        },
        Token::BreakKeyword => {
            assert(value_keyword("break"@) == Some(Token::BreakKeyword));
        },
        Token::ContinueKeyword => {
            assert(value_keyword("continue"@) == Some(Token::ContinueKeyword));
        },
        Token::SuperKeyword => {
            assert(value_keyword("super"@) == Some(Token::SuperKeyword));
        },
        Token::SelfKeyword => {
            assert(value_keyword("self"@) == Some(Token::SelfKeyword));
        },
        _ => {},
    }
}

proof fn type_keyword_is_found(t: Token)
    requires
        t.is_type_keyword(),
    ensures
        type_keyword(t.spelling()) == Some(t),
{
    type_keyword_letters();
    match t {
        Token::I8Keyword => {
            assert(type_keyword("i8"@) == Some(Token::I8Keyword));
        },
        Token::I16Keyword => {
            assert(type_keyword("i16"@) == Some(Token::I16Keyword));
        },
        Token::I32Keyword => {
            assert(type_keyword("i32"@) == Some(Token::I32Keyword));
        },
        Token::I64Keyword => {
            assert(type_keyword("i64"@) == Some(Token::I64Keyword));
        },
        Token::I128Keyword => {
            assert(type_keyword("i128"@) == Some(Token::I128Keyword));
        },
        Token::ISizeKeyword => {
            assert(type_keyword("isize"@) == Some(Token::ISizeKeyword));
        },
        Token::U8Keyword => {
            assert(type_keyword("u8"@) == Some(Token::U8Keyword));
        },
        Token::U16Keyword => {
            assert(type_keyword("u16"@) == Some(Token::U16Keyword));
        },
        Token::U32Keyword => {
            assert(type_keyword("u32"@) == Some(Token::U32Keyword));
        },
        Token::U64Keyword => {
            assert(type_keyword("u64"@) == Some(Token::U64Keyword));
        },
        Token::U128Keyword => {
            assert(type_keyword("u128"@) == Some(Token::U128Keyword));
        },
        Token::USizeKeyword => {
            assert(type_keyword("usize"@) == Some(Token::USizeKeyword));
        },
        Token::F32Keyword => {
            assert(type_keyword("f32"@) == Some(Token::F32Keyword));
        },
        Token::F64Keyword => {
            assert(type_keyword("f64"@) == Some(Token::F64Keyword));
        },
        Token::BoolKeyword => {
            assert(type_keyword("bool"@) == Some(Token::BoolKeyword));
        },
        Token::CharKeyword => {
            assert(type_keyword("char"@) == Some(Token::CharKeyword));
        },
        _ => {},
    }
}

proof fn common_operator_is_found(t: Token)
    requires
        t.is_operator(),
        t !is DoubleLeftChevronOperator,
        t !is DoubleRightChevronOperator,
        t !is QuestionOperator,
    ensures
        common_operator(t.spelling()) == Some(t),
        t.spelling() != "<<"@,
        t.spelling() != ">>"@,
        t.spelling() != "?"@,
{
    operator_characters();
    match t {
        Token::LeftCurlyBracketOperator => {
            assert(common_operator("{"@) == Some(Token::LeftCurlyBracketOperator));
        },
        Token::RightCurlyBracketOperator => {
            assert(common_operator("}"@) == Some(Token::RightCurlyBracketOperator));
        },
        Token::LeftSquareBracketOperator => {
            assert(common_operator("["@) == Some(Token::LeftSquareBracketOperator));
        },
        Token::RightSquareBracketOperator => {
            assert(common_operator("]"@) == Some(Token::RightSquareBracketOperator));
        },
        Token::LeftParenthesisOperator => {
            assert(common_operator("("@) == Some(Token::LeftParenthesisOperator));
        },
        Token::RightParenthesisOperator => {
            assert(common_operator(")"@) == Some(Token::RightParenthesisOperator));
        },
        Token::SemicolonOperator => {
            assert(common_operator(";"@) == Some(Token::SemicolonOperator));
        },
        Token::CommaOperator => {
            assert(common_operator(","@) == Some(Token::CommaOperator));
        },
        Token::ColonOperator => {
            assert(common_operator(":"@) == Some(Token::ColonOperator));
        },
        Token::EqualOperator => {
            assert(common_operator("="@) == Some(Token::EqualOperator));
        },
        Token::PipeOperator => {
            assert(common_operator("|"@) == Some(Token::PipeOperator));
        },
        Token::DoubleEqualOperator => {
            assert(common_operator("=="@) == Some(Token::DoubleEqualOperator));
        },
        Token::BangEqualOperator => {
            assert(common_operator("!="@) == Some(Token::BangEqualOperator));
        },
        Token::LeftChevronOperator => {
            assert(common_operator("<"@) == Some(Token::LeftChevronOperator));
        },
        Token::RightChevronOperator => {
            assert(common_operator(">"@) == Some(Token::RightChevronOperator));
        },
        Token::LeftChevronEqualOperator => {
            assert(common_operator("<="@) == Some(Token::LeftChevronEqualOperator));
        },
        Token::RightChevronEqualOperator => {
            assert(common_operator(">="@) == Some(Token::RightChevronEqualOperator));
        },
        Token::PlusOperator => {
            assert(common_operator("+"@) == Some(Token::PlusOperator));
        },
        Token::MinusOperator => {
            assert(common_operator("-"@) == Some(Token::MinusOperator));
        },
        Token::StarOperator => {
            assert(common_operator("*"@) == Some(Token::StarOperator));
        },
        Token::SlashOperator => {
            assert(common_operator("/"@) == Some(Token::SlashOperator));
        },
        Token::PercentOperator => {
            assert(common_operator("%"@) == Some(Token::PercentOperator));
        },
        Token::DoubleStarOperator => {
            assert(common_operator("**"@) == Some(Token::DoubleStarOperator));
        },
        Token::CaretOperator => {
            assert(common_operator("^"@) == Some(Token::CaretOperator));
        },
        Token::AmpersandOperator => {
            assert(common_operator("&"@) == Some(Token::AmpersandOperator));
        },
        Token::TildeOperator => {
            assert(common_operator("~"@) == Some(Token::TildeOperator));
        },
        Token::DoubleLeftChevronEqualOperator => {
            assert(common_operator("<<="@) == Some(Token::DoubleLeftChevronEqualOperator));
        },
        Token::DoubleRightChevronEqualOperator => {
            assert(common_operator(">>="@) == Some(Token::DoubleRightChevronEqualOperator));
        },
        Token::PlusEqualOperator => {
            assert(common_operator("+="@) == Some(Token::PlusEqualOperator));
        },
        Token::MinusEqualOperator => {
            assert(common_operator("-="@) == Some(Token::MinusEqualOperator));
        },
        Token::StarEqualOperator => {
            assert(common_operator("*="@) == Some(Token::StarEqualOperator));
        },
        Token::SlashEqualOperator => {
            assert(common_operator("/="@) == Some(Token::SlashEqualOperator));
        },
        Token::PercentEqualOperator => {
            assert(common_operator("%="@) == Some(Token::PercentEqualOperator));
        },
        Token::DoubleStarEqualOperator => {
            assert(common_operator("**="@) == Some(Token::DoubleStarEqualOperator));
        },
        Token::CaretEqualOperator => {
            assert(common_operator("^="@) == Some(Token::CaretEqualOperator));
        },
        Token::AmpersandEqualOperator => {
            assert(common_operator("&="@) == Some(Token::AmpersandEqualOperator));
        },
        Token::TildeEqualOperator => {
            assert(common_operator("~="@) == Some(Token::TildeEqualOperator));
        },
        Token::PipeEqualOperator => {
            assert(common_operator("|="@) == Some(Token::PipeEqualOperator));
        },
        Token::BangOperator => {
            assert(common_operator("!"@) == Some(Token::BangOperator));
        },
        Token::DoubleBangOperator => {
            assert(common_operator("!!"@) == Some(Token::DoubleBangOperator));
        },
        Token::DotOperator => {
            assert(common_operator("."@) == Some(Token::DotOperator));
        },
        Token::ScopeResolutionOperator => {
            assert(common_operator("::"@) == Some(Token::ScopeResolutionOperator));
        },
        Token::DoubleArrowOperator => {
            assert(common_operator("=>"@) == Some(Token::DoubleArrowOperator));
        },
        _ => {},
    }
}

/// Every reserved word and every operator that a context reads is found
/// again from its own spelling.
pub proof fn lookup_finds_spelling(t: Token, mode: ProgramContext)
    requires
        t.recognised(mode),
    ensures
        lookup(t.spelling(), mode) == Some(t),
{
    let s = t.spelling();
    if t.is_value_keyword() {
        value_keyword_is_found(t);
    } else if t.is_type_keyword() {
        type_keyword_is_found(t);
    } else {
        operators_start_with_punctuation(t);
        if value_keyword(s) is Some || type_keyword(s) is Some {
            keywords_start_with_a_letter(s);
        }
        if t is DoubleLeftChevronOperator || t is DoubleRightChevronOperator || t is QuestionOperator {
            operator_characters();
        } else {
            common_operator_is_found(t);
        }
    }
}

/// The table is the inverse of the spelling: under a context a spelling is
/// read as a token exactly if the context reads that token and the token is
/// written so.
pub proof fn lookup_inverts_spelling(s: Seq<char>, t: Token, mode: ProgramContext)
    ensures
        lookup(s, mode) == Some(t) <==> t.recognised(mode) && t.spelling() == s,
{
    lookup_is_sound(s, mode);
    if t.recognised(mode) {
        lookup_finds_spelling(t, mode);
    }
}

/// No name of a primitive type is also a reserved word of values.
proof fn keywords_are_apart(s: Seq<char>)
    requires
        type_keyword(s) is Some,
    ensures
        value_keyword(s) is None,
{
    value_keyword_letters();
    type_keyword_letters();
}

/// No two reserved words or operators are written alike, whichever context
/// reads them: a spelling stands for at most one token.
pub proof fn spelling_determines_token(a: Token, b: Token)
    requires
        a.is_fixed(),
        b.is_fixed(),
        a.spelling() == b.spelling(),
    ensures
        a == b,
{
    let s = a.spelling();
    let normal = ProgramContext::NormalContext;
    let typed = ProgramContext::TypeContext;
    if a.is_operator() != b.is_operator() {
        let (word, operator) = if a.is_operator() {
            (b, a)
        } else {
            (a, b)
        };
        operators_start_with_punctuation(operator);
        if word.is_value_keyword() {
            value_keyword_is_found(word);
        } else {
            type_keyword_is_found(word);
        }
        keywords_start_with_a_letter(s);
    } else if a.recognised(normal) && b.recognised(normal) {
        lookup_finds_spelling(a, normal);
        lookup_finds_spelling(b, normal);
    } else if a.recognised(typed) && b.recognised(typed) {
        lookup_finds_spelling(a, typed);
        lookup_finds_spelling(b, typed);
    } else if a.is_operator() {
        operator_characters();
    } else {
        let (value, type_) = if a.is_value_keyword() {
            (a, b)
        } else {
            (b, a)
        };
        value_keyword_is_found(value);
        type_keyword_is_found(type_);
        keywords_are_apart(s);
    }
}

} // verus!
