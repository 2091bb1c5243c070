//! Source positions, and the lexer that the parser reads from: a tokenizer
//! with one token of lookahead.

use vstd::prelude::*;
use crate::charset::white_space;
use crate::tokenizer::{
    Lexed,
    Lexeme,
    Tokenizer,
    TokenizerError,
    TokenizerErrorType,
    lex,
    blank_rest_ends,
    lex_moves_on,
};
use crate::tokens::{Token, TokenView};

verus! {

/// The lexical context that the caller passes to every tokenization call:
/// value expressions and statements, or type expressions.
#[derive(Clone, Copy, Debug, PartialEq, Eq)]
pub enum ProgramContext {
    NormalContext,
    TypeContext,
}

/// What can be wrong with a lexeme.
#[derive(Clone, Copy, Debug, PartialEq, Eq)]
pub enum LexerErrorType {
    UnclosedStringError,
    UnclosedCharError,
    OverlengthyCharError,
    EmptyCharError,
    UnknownTokenStartError,
}

/// A lexical error and the position at which the offending lexeme began.
#[derive(Clone, Debug, PartialEq)]
pub struct LexerError {
    pub error_type: LexerErrorType,
    pub context: LexerContext,
}

/// A lexical error as a mathematical value.
pub struct LexerErrorView {
    pub error_type: LexerErrorType,
    pub context: Position,
}

/// A snapshot of the cursor: where in which file a token or a diagnostic
/// arose. Lines and columns count from zero; a line feed ends its line, so
/// the character after it stands in column zero of the next line.
#[derive(Clone, Debug, PartialEq)]
pub struct LexerContext {
    pub filename: String,
    pub index: usize,
    pub column: usize,
    pub line: usize,
}

/// A source position as a mathematical value.
pub struct Position {
    pub filename: Seq<char>,
    pub index: nat,
    pub column: nat,
    pub line: nat,
}

impl View for LexerContext {
    type V = Position;

    open spec fn view(&self) -> Position {
        Position {
            filename: self.filename@,
            index: self.index as nat,
            column: self.column as nat,
            line: self.line as nat,
        }
    }
}

impl View for LexerError {
    type V = LexerErrorView;

    open spec fn view(&self) -> LexerErrorView {
        LexerErrorView { error_type: self.error_type, context: self.context@ }
    }
}

impl LexerErrorType {
    /// The kind of lexical error that the tokenizer calls `kind`.
    pub open spec fn of(kind: TokenizerErrorType) -> LexerErrorType {
        match kind {
            TokenizerErrorType::UnclosedStringError => LexerErrorType::UnclosedStringError,
            TokenizerErrorType::UnclosedCharError => LexerErrorType::UnclosedCharError,
            TokenizerErrorType::OverlengthyCharError => LexerErrorType::OverlengthyCharError,
            TokenizerErrorType::EmptyCharError => LexerErrorType::EmptyCharError,
            TokenizerErrorType::UnknownTokenStartError => LexerErrorType::UnknownTokenStartError,
        }
    }

    /// The kind of lexical error that the tokenizer calls `kind`.
    pub fn from_tokenizer(kind: TokenizerErrorType) -> (r: LexerErrorType)
        ensures
            r == LexerErrorType::of(kind),
    {
        match kind {
            TokenizerErrorType::UnclosedStringError => LexerErrorType::UnclosedStringError,
            TokenizerErrorType::UnclosedCharError => LexerErrorType::UnclosedCharError,
            TokenizerErrorType::OverlengthyCharError => LexerErrorType::OverlengthyCharError,
            TokenizerErrorType::EmptyCharError => LexerErrorType::EmptyCharError,
            TokenizerErrorType::UnknownTokenStartError => LexerErrorType::UnknownTokenStartError,
        }
    }
}

impl LexerError {
    /// The error of kind `error_type` at `context`.
    pub fn new(error_type: LexerErrorType, context: LexerContext) -> (e: LexerError)
        ensures
            e@ == (LexerErrorView { error_type, context: context@ }),
    {
        LexerError { error_type, context }
    }

    /// A copy of the error.
    pub fn duplicate(&self) -> (e: LexerError)
        ensures
            e@ == self@,
    {
        LexerError { error_type: self.error_type, context: self.context.duplicate() }
    }
}

impl LexerContext {
    /// A copy of the snapshot.
    pub fn duplicate(&self) -> (c: LexerContext)
        ensures
            c@ == self@,
    {
        LexerContext {
            filename: self.filename.clone(),
            index: self.index,
            column: self.column,
            line: self.line,
        }
    }
}

/// The number of line feeds among the first `index` characters of `source`.
pub open spec fn line_of(source: Seq<char>, index: int) -> nat
    decreases index,
{
    if index <= 0 || index > source.len() {
        0
    } else if source[index - 1] == '\n' {
        line_of(source, index - 1) + 1
    } else {
        line_of(source, index - 1)
    }
}

/// The number of characters between the last line feed before `index` and
/// `index`; all of them where there is no line feed.
pub open spec fn column_of(source: Seq<char>, index: int) -> nat
    decreases index,
{
    if index <= 0 || index > source.len() {
        0
    } else if source[index - 1] == '\n' {
        0
    } else {
        column_of(source, index - 1) + 1
    }
}

/// The position of the character at `index` of `source`, or of the end of
/// `source`.
pub open spec fn position_of(filename: Seq<char>, source: Seq<char>, index: int) -> Position {
    Position {
        filename,
        index: index as nat,
        column: column_of(source, index),
        line: line_of(source, index),
    }
}

/// Neither the line nor the column of a position exceeds its index.
pub proof fn position_is_bounded(source: Seq<char>, index: int)
    requires
        0 <= index <= source.len(),
    ensures
        line_of(source, index) <= index,
        column_of(source, index) <= index,
    decreases index,
{
    if index > 0 {
        position_is_bounded(source, index - 1);
    }
}

/// What the lexer answers to one call: a token, which at the end of the
/// input is the end marker, or a lexical error.
pub open spec fn token_view(r: Result<Token, LexerError>) -> Result<TokenView, LexerErrorView> {
    match r {
        Ok(token) => Ok(token@),
        Err(error) => Err(error@),
    }
}

/// A lexer as a mathematical value: the text, the name of its file, the
/// index of the cursor, and what the last call answered.
pub struct LexerView {
    pub source: Seq<char>,
    pub filename: Seq<char>,
    pub index: int,
    pub current: Result<TokenView, LexerErrorView>,
}

impl LexerView {
    /// The position of the cursor.
    pub open spec fn position(self) -> Position {
        position_of(self.filename, self.source, self.index)
    }

    /// The next lexeme under `mode`.
    pub open spec fn lexeme(self, mode: ProgramContext) -> Lexeme {
        lex(self.source, self.index, mode)
    }

    /// Whether the next lexeme under `mode` can be read: it is not a
    /// numeral that the tokens cannot hold.
    pub open spec fn readable(self, mode: ProgramContext) -> bool {
        !(self.lexeme(mode).outcome is Unreadable)
    }

    /// What the next call under `mode` answers: the token of the next
    /// lexeme, the end marker where the input has ended, or the error with
    /// the position at which the lexeme began. Where the lexeme cannot be
    /// read, the answer of the last call stands.
    pub open spec fn found(self, mode: ProgramContext) -> Result<TokenView, LexerErrorView> {
        match self.lexeme(mode).outcome {
            Lexed::End => Ok(TokenView::Symbol(Token::EOF)),
            Lexed::Token(token) => Ok(token),
            Lexed::Error(error) => Err(
                LexerErrorView {
                    error_type: LexerErrorType::of(error),
                    context: position_of(self.filename, self.source, self.lexeme(mode).start),
                },
            ),
            Lexed::Unreadable => self.current,
        }
    }

    /// The lexer after an attempt to read the next lexeme under `mode`.
    /// Where the lexeme can be read, the cursor stands behind it and the
    /// answer is kept for looking back at; where it cannot, nothing changes.
    pub open spec fn advanced(self, mode: ProgramContext) -> LexerView {
        if self.readable(mode) {
            LexerView { index: self.lexeme(mode).end, current: self.found(mode), ..self }
        } else {
            self
        }
    }

    /// Whether the last call answered that the input has ended.
    pub open spec fn at_end(self) -> bool {
        self.current == Ok::<TokenView, LexerErrorView>(TokenView::Symbol(Token::EOF))
    }

    /// What is left of the text: twice the number of characters behind the
    /// cursor.
    pub open spec fn rest(self) -> nat {
        if self.index <= self.source.len() {
            (2 * (self.source.len() - self.index)) as nat
        } else {
            0
        }
    }

    /// How far the lexer is from being done: what is left of the text, and
    /// one more until the end marker has been handed out. No call raises
    /// it, and every call lowers it but one that hands out the end marker
    /// again or finds a lexeme that it cannot read.
    pub open spec fn budget(self) -> nat {
        if self.at_end() {
            self.rest()
        } else {
            self.rest() + 1
        }
    }

    /// The cursor lies within the text.
    pub open spec fn inside(self) -> bool {
        0 <= self.index <= self.source.len()
    }

    /// Whether this state can follow `origin` in a parse: the cursor lies
    /// within the text and the lexer is no further from being done.
    pub open spec fn follows(self, origin: LexerView) -> bool {
        self.inside() && self.budget() <= origin.budget()
    }
}

/// A call never raises the budget, and lowers it unless the end marker is
/// handed out once more or the lexeme cannot be read.
pub proof fn advancing_lowers_budget(lexer: LexerView, mode: ProgramContext)
    requires
        lexer.inside(),
    ensures
        lexer.advanced(mode).inside(),
        lexer.advanced(mode).budget() <= lexer.budget(),
        lexer.readable(mode) && !(lexer.at_end() && lexer.advanced(mode).at_end())
            ==> lexer.advanced(mode).budget() < lexer.budget(),
{
    lex_moves_on(lexer.source, lexer.index, mode);
}

/// On input that holds nothing but white space from the cursor on, a call
/// answers with the end marker, whatever the context, and leaves the cursor
/// at the end of the input.
pub proof fn blank_input_ends(lexer: LexerView, mode: ProgramContext)
    requires
        lexer.inside(),
        forall|i: int|
            lexer.index <= i < lexer.source.len() ==> white_space(#[trigger] lexer.source[i]),
    ensures
        lexer.readable(mode),
        lexer.found(mode) == Ok::<TokenView, LexerErrorView>(TokenView::Symbol(Token::EOF)),
        lexer.advanced(mode).index == lexer.source.len(),
{
    blank_rest_ends(lexer.source, lexer.index, mode);
}

/// A tokenizer with one token of lookahead: the answer of the last call
/// stays available until the next.
pub struct Lexer {
    tokenizer: Tokenizer,
    last_token: Result<Token, LexerError>,
}

impl View for Lexer {
    type V = LexerView;

    closed spec fn view(&self) -> LexerView {
        LexerView {
            source: self.tokenizer@.source,
            filename: self.tokenizer@.filename,
            index: self.tokenizer@.index,
            current: token_view(self.last_token),
        }
    }
}

impl Lexer {
    /// The cursor lies within the text, and its line and column are those of
    /// its index.
    pub closed spec fn wf(&self) -> bool {
        self.tokenizer.wf()
    }

    /// The cursor of a well-formed lexer lies within the text.
    pub proof fn cursor_is_inside(&self)
        requires
            self.wf(),
        ensures
            self@.inside(),
    {
        self.tokenizer.cursor_is_inside();
    }

    /// A lexer at the start of `code`, which was read from `filename`. No
    /// token has been read yet: looking back finds the marker of the start.
    pub fn new(filename: String, code: String) -> (lexer: Lexer)
        ensures
            lexer.wf(),
            lexer@ == (LexerView {
                source: code@,
                filename: filename@,
                index: 0,
                current: Ok(TokenView::Symbol(Token::BOF)),
            }),
    {
        Lexer { tokenizer: Tokenizer::new(filename, code), last_token: Ok(Token::BOF) }
    }

    /// The characters of the text.
    pub fn chars(&self) -> (chars: &Vec<char>)
        ensures
            chars@ == self@.source,
    {
        self.tokenizer.chars()
    }

    /// The position of the cursor.
    pub fn context(&self) -> (context: &LexerContext)
        requires
            self.wf(),
        ensures
            context@ == self@.position(),
    {
        self.tokenizer.context()
    }

    /// A snapshot of the cursor.
    pub fn snapshot(&self) -> (context: LexerContext)
        requires
            self.wf(),
        ensures
            context@ == self@.position(),
    {
        self.tokenizer.snapshot()
    }

    /// A lexer over a copy of the text, in the same state.
    pub fn duplicate(&self) -> (lexer: Lexer)
        requires
            self.wf(),
        ensures
            lexer.wf(),
            lexer@ == self@,
    {
        Lexer {
            tokenizer: self.tokenizer.duplicate(),
            last_token: match &self.last_token {
                Ok(token) => Ok(token.duplicate()),
                Err(error) => Err(error.duplicate()),
            },
        }
    }

    /// Whether the next lexeme under `program_context` can be read: it is
    /// not a numeral that the tokens cannot hold. Nothing moves.
    pub fn can_read_next(&self, program_context: ProgramContext) -> (b: bool)
        requires
            self.wf(),
        ensures
            b == self@.readable(program_context),
    {
        self.tokenizer.can_read_next(program_context)
    }

    /// Reads the next lexeme under `program_context` and keeps the answer
    /// for looking back at: a token, the end marker where nothing but white
    /// space was left, or a lexical error with the position at which the
    /// lexeme began. The lexeme must not be a numeral that the tokens cannot
    /// hold; `try_next` tests that first.
    pub fn next(&mut self, program_context: ProgramContext) -> (r: Result<Token, LexerError>)
        requires
            old(self).wf(),
            old(self)@.readable(program_context),
        ensures
            final(self).wf(),
            final(self)@ == old(self)@.advanced(program_context),
            final(self)@.follows(old(self)@),
            !(old(self)@.at_end() && final(self)@.at_end()) ==> final(self)@.budget() < old(self)@.budget(),
            token_view(r) == old(self)@.found(program_context),
    {
        proof {
            self.cursor_is_inside();
            advancing_lowers_budget(self@, program_context);
        }
        match self.tokenizer.next(program_context) {
            Ok(None) => {
                self.last_token = Ok(Token::EOF);
                Ok(Token::EOF)
            },
            Ok(Some(placed)) => {
                let token = placed.content;
                self.last_token = Ok(token.duplicate());
                Ok(token)
            },
            Err(error) => {
                let kind = LexerErrorType::from_tokenizer(error.error_type);
                self.last_token = Err(LexerError::new(kind, error.context.duplicate()));
                Err(LexerError::new(kind, error.context))
            },
        }
    }

    /// Reads the next lexeme under `program_context` if it can be read, as
    /// `next` does. `None`, and nothing changes, where the lexeme is a
    /// numeral that the tokens cannot hold.
    pub fn try_next(&mut self, program_context: ProgramContext) -> (r: Option<
        Result<Token, LexerError>,
    >)
        requires
            old(self).wf(),
        ensures
            final(self).wf(),
            final(self)@ == old(self)@.advanced(program_context),
            final(self)@.follows(old(self)@),
            r is Some && !(old(self)@.at_end() && final(self)@.at_end()) ==> final(self)@.budget()
                < old(self)@.budget(),
            r is Some <==> old(self)@.readable(program_context),
            r matches Some(found) ==> token_view(found) == old(self)@.found(program_context),
    {
        proof {
            self.cursor_is_inside();
        }
        if self.can_read_next(program_context) {
            Some(self.next(program_context))
        } else {
            None
        }
    }

    /// The answer of the last call, without moving.
    pub fn peek(&self) -> (r: Result<Token, LexerError>)
        ensures
            token_view(r) == self@.current,
    {
        match &self.last_token {
            Ok(token) => Ok(token.duplicate()),
            Err(error) => Err(error.duplicate()),
        }
    }

    /// The answer of the last call, borrowed.
    pub fn current(&self) -> (r: &Result<Token, LexerError>)
        ensures
            token_view(*r) == self@.current,
    {
        &self.last_token
    }
}

} // verus!
