//! The cursor over the source text and the lexical rules.
//!
//! The rules are stated once as functions of the source text, a starting
//! index and the lexical context ([`lex`] and what it is made of). The
//! tokenizer is proved to move its cursor and to answer exactly as they say.

use vstd::prelude::*;
use crate::charset::{
    ascii_punctuation,
    decimal_digit,
    is_ascii_punctuation,
    is_decimal_digit,
    is_numeral_part,
    is_white_space,
    is_word_part,
    is_word_start,
    numeral_part,
    white_space,
    word_part,
    word_start,
};
use crate::lexer::{
    LexerContext,
    Position,
    column_of,
    line_of,
    position_is_bounded,
    position_of,
};
use crate::text::{
    all_digits,
    collect_chars,
    decimal_value,
    digits_only,
    integer_numeral,
    integer_of,
    text_of,
};
use crate::tokens::{Token, TokenView, lookup, lookup_is_sound, lookup_run};

verus! {

/// The longest spelling of an operator, in characters.
pub const MAX_OPERATOR_LENGTH: usize = 3;

pub use crate::lexer::ProgramContext;

/// What can be wrong with a lexeme.
#[derive(Clone, Copy, Debug, PartialEq, Eq)]
pub enum TokenizerErrorType {
    UnclosedStringError,
    UnclosedCharError,
    OverlengthyCharError,
    EmptyCharError,
    UnknownTokenStartError,
}

/// A lexical error and the position at which the offending lexeme began.
#[derive(Debug, PartialEq)]
pub struct TokenizerError {
    pub error_type: TokenizerErrorType,
    pub context: LexerContext,
}

/// A lexical error as a mathematical value.
pub struct TokenizerErrorView {
    pub error_type: TokenizerErrorType,
    pub context: Position,
}

impl View for TokenizerError {
    type V = TokenizerErrorView;

    open spec fn view(&self) -> TokenizerErrorView {
        TokenizerErrorView { error_type: self.error_type, context: self.context@ }
    }
}

impl TokenizerError {
    /// The error of kind `error_type` at `context`.
    pub fn new(error_type: TokenizerErrorType, context: LexerContext) -> (e: TokenizerError)
        ensures
            e@ == (TokenizerErrorView { error_type, context: context@ }),
    {
        TokenizerError { error_type, context }
    }
}

/// A token and the position of the cursor when it was produced, which is
/// the position just behind the lexeme.
#[derive(Debug, PartialEq)]
pub struct PlacedToken {
    pub content: Token,
    pub context: LexerContext,
}

/// What one tokenization call answers: a token, `None` at the end of the
/// input, or a lexical error.
pub type TokenizerResult = Result<Option<PlacedToken>, TokenizerError>;

/// A stretch of characters that a rule consumes as a whole.
#[derive(Clone, Copy, Debug, PartialEq, Eq)]
pub enum Run {
    /// White space between lexemes.
    Blank,
    /// The digits and underscores of a numeral, on either side of its point.
    Numeral,
    /// The characters of a word after its first.
    Word,
    /// Punctuation that no operator starts.
    Punctuation,
    /// What stands between the quotes of a string, which ends with its line.
    StringBody,
    /// What stands between the quotes of a character literal.
    CharBody,
}

impl Run {
    /// Whether `c` belongs to a run of this kind.
    pub open spec fn holds(self, c: char) -> bool {
        match self {
            Run::Blank => white_space(c),
            Run::Numeral => numeral_part(c),
            Run::Word => word_part(c),
            Run::Punctuation => ascii_punctuation(c),
            Run::StringBody => c != '"' && c != '\n',
            Run::CharBody => c != '\'' && c != '\n',
        }
    }

    /// Whether `c` belongs to a run of this kind.
    pub fn admits(self, c: char) -> (b: bool)
        ensures
            b == self.holds(c),
    {
        match self {
            Run::Blank => is_white_space(c),
            Run::Numeral => is_numeral_part(c),
            Run::Word => is_word_part(c),
            Run::Punctuation => is_ascii_punctuation(c),
            Run::StringBody => c != '"' && c != '\n',
            Run::CharBody => c != '\'' && c != '\n',
        }
    }
}

/// The index at which the run of kind `run` that starts at `from` ends: the
/// first index from `from` on whose character does not belong to the run,
/// or the end of `source`.
pub open spec fn run_end(source: Seq<char>, from: int, run: Run) -> int
    decreases source.len() - from,
{
    if 0 <= from < source.len() && run.holds(source[from]) {
        run_end(source, from + 1, run)
    } else {
        from
    }
}

/// The index behind the character at `index`; `index` itself at the end.
pub open spec fn behind(source: Seq<char>, index: int) -> int {
    if 0 <= index < source.len() {
        index + 1
    } else {
        index
    }
}

/// What a tokenization call finds.
pub enum Lexed {
    /// Nothing but white space was left.
    End,
    /// A lexeme, as the token it stands for.
    Token(TokenView),
    /// A malformed lexeme.
    Error(TokenizerErrorType),
    /// A numeral that the tokens cannot hold: one with a character that is
    /// no decimal digit, or an integer above `isize::MAX`. Reading such a
    /// numeral is outside what the tokenizer undertakes.
    Unreadable,
}

/// One lexeme of the source: where it starts, where the cursor stands after
/// it, and what it is.
pub struct Lexeme {
    pub start: int,
    pub end: int,
    pub outcome: Lexed,
}

/// Whether the point at `at` continues a numeral: it does where a digit, an
/// underscore or another point follows it. A point followed by anything
/// else is an operator behind an integer.
pub open spec fn point_joins(source: Seq<char>, at: int) -> bool {
    &&& 0 <= at && at + 1 < source.len()
    &&& source[at] == '.'
    &&& (numeral_part(source[at + 1]) || source[at + 1] == '.')
}

/// The numeral that starts at `start`: digits and underscores, then, where a
/// point joins them, the point and more digits and underscores. With a
/// point it is a float, whose token keeps the text as written; without one
/// an integer, whose token holds the value.
pub open spec fn lex_number(source: Seq<char>, start: int) -> Lexeme {
    let whole_end = run_end(source, start, Run::Numeral);
    if point_joins(source, whole_end) {
        let end = run_end(source, whole_end + 1, Run::Numeral);
        let readable = all_digits(source.subrange(start, whole_end)) && all_digits(
            source.subrange(whole_end + 1, end),
        );
        Lexeme {
            start,
            end,
            outcome: if readable {
                Lexed::Token(TokenView::Float(source.subrange(start, end)))
            } else {
                Lexed::Unreadable
            },
        }
    } else {
        let text = source.subrange(start, whole_end);
        Lexeme {
            start,
            end: whole_end,
            outcome: if integer_numeral(text) {
                Lexed::Token(TokenView::Int(decimal_value(text) as int))
            } else {
                Lexed::Unreadable
            },
        }
    }
}

/// The string literal whose opening quote stands at `start`: everything up
/// to the closing quote, which must come before the line ends.
pub open spec fn lex_string(source: Seq<char>, start: int) -> Lexeme {
    let body = behind(source, start);
    let body_end = run_end(source, body, Run::StringBody);
    if 0 <= body_end < source.len() && source[body_end] == '"' {
        Lexeme {
            start,
            end: body_end + 1,
            outcome: Lexed::Token(TokenView::Text(source.subrange(body, body_end))),
        }
    } else {
        Lexeme {
            start,
            end: body_end,
            outcome: Lexed::Error(TokenizerErrorType::UnclosedStringError),
        }
    }
}

/// The character literal whose opening quote stands at `start`: exactly one
/// character between two quotes on one line.
pub open spec fn lex_char(source: Seq<char>, start: int) -> Lexeme {
    let body = behind(source, start);
    let body_end = run_end(source, body, Run::CharBody);
    if 0 <= body_end < source.len() && source[body_end] == '\'' {
        Lexeme {
            start,
            end: body_end + 1,
            outcome: if body_end - body == 1 {
                Lexed::Token(TokenView::Char(source[body]))
            } else if body_end == body {
                Lexed::Error(TokenizerErrorType::EmptyCharError)
            } else {
                Lexed::Error(TokenizerErrorType::OverlengthyCharError)
            },
        }
    } else {
        Lexeme {
            start,
            end: body_end,
            outcome: Lexed::Error(TokenizerErrorType::UnclosedCharError),
        }
    }
}

/// The word that starts at `start`: the longest run of letters, numbers and
/// underscores. It is the reserved word that the context has for it, or
/// else an identifier.
pub open spec fn lex_word(source: Seq<char>, start: int, mode: ProgramContext) -> Lexeme {
    let end = run_end(source, start, Run::Word);
    let text = source.subrange(start, end);
    Lexeme {
        start,
        end,
        outcome: Lexed::Token(
            match lookup(text, mode) {
                Some(t) => TokenView::Symbol(t),
                None => TokenView::Identifier(text),
            },
        ),
    }
}

/// The token that the context has for the `width` characters from `start`.
pub open spec fn operator_at(source: Seq<char>, start: int, width: int, mode: ProgramContext)
    -> Option<Token> {
    if 0 <= start && start + width <= source.len() {
        lookup(source.subrange(start, start + width), mode)
    } else {
        None
    }
}

/// The operator that starts at `start`: the longest of three, two or one
/// characters that the context reads. Where it reads none, the character at
/// `start` and all punctuation that follows it are given up as one unknown
/// lexeme, so that the cursor always moves on.
pub open spec fn lex_operator(source: Seq<char>, start: int, mode: ProgramContext) -> Lexeme {
    if let Some(t) = operator_at(source, start, 3, mode) {
        Lexeme { start, end: start + 3, outcome: Lexed::Token(TokenView::Symbol(t)) }
    } else if let Some(t) = operator_at(source, start, 2, mode) {
        Lexeme { start, end: start + 2, outcome: Lexed::Token(TokenView::Symbol(t)) }
    } else if let Some(t) = operator_at(source, start, 1, mode) {
        Lexeme { start, end: start + 1, outcome: Lexed::Token(TokenView::Symbol(t)) }
    } else {
        Lexeme {
            start,
            end: run_end(source, behind(source, start), Run::Punctuation),
            outcome: Lexed::Error(TokenizerErrorType::UnknownTokenStartError),
        }
    }
}

/// The next lexeme of `source` from `from` on: white space is skipped, and
/// the first character behind it decides which rule reads the lexeme.
#[verifier::opaque]
pub open spec fn lex(source: Seq<char>, from: int, mode: ProgramContext) -> Lexeme {
    let start = run_end(source, from, Run::Blank);
    if !(0 <= start < source.len()) {
        Lexeme { start, end: start, outcome: Lexed::End }
    } else if decimal_digit(source[start]) {
        lex_number(source, start)
    } else if source[start] == '"' {
        lex_string(source, start)
    } else if source[start] == '\'' {
        lex_char(source, start)
    } else if word_start(source[start]) {
        lex_word(source, start, mode)
    } else {
        lex_operator(source, start, mode)
    }
}

/// A run ends at or behind its start, within the source, on a character
/// that is not of the run; every character before that is.
pub proof fn run_end_is_first_outside(source: Seq<char>, from: int, run: Run)
    requires
        0 <= from <= source.len(),
    ensures
        from <= run_end(source, from, run) <= source.len(),
        run_end(source, from, run) < source.len() ==> !run.holds(
            source[run_end(source, from, run)],
        ),
        forall|i: int| from <= i < run_end(source, from, run) ==> run.holds(#[trigger] source[i]),
    decreases source.len() - from,
{
    if from < source.len() && run.holds(source[from]) {
        run_end_is_first_outside(source, from + 1, run);
    }
}

/// Where nothing but white space is left from `from` on, the input has
/// ended there, whatever the context: no lexeme and no error is found, and
/// the white space is passed over.
pub proof fn blank_rest_ends(source: Seq<char>, from: int, mode: ProgramContext)
    requires
        0 <= from <= source.len(),
        forall|i: int| from <= i < source.len() ==> white_space(#[trigger] source[i]),
    ensures
        lex(source, from, mode).outcome is End,
        lex(source, from, mode).end == source.len(),
{
    reveal(lex);
    run_end_is_first_outside(source, from, Run::Blank);
}

/// The input has ended exactly where nothing but white space is left.
pub proof fn end_means_blank_rest(source: Seq<char>, from: int, mode: ProgramContext)
    requires
        0 <= from <= source.len(),
        lex(source, from, mode).outcome is End,
    ensures
        forall|i: int| from <= i < source.len() ==> white_space(#[trigger] source[i]),
{
    reveal(lex);
    run_end_is_first_outside(source, from, Run::Blank);
    assert forall|i: int| from <= i < source.len() implies white_space(
        #[trigger] source[i],
    ) by {
        assert(Run::Blank.holds(source[i]));
    }
}

/// The context matters to words and operators only: white space is skipped
/// alike under both contexts, and a numeral, a string or a character
/// literal is read alike.
pub proof fn literals_ignore_the_context(source: Seq<char>, from: int)
    ensures
        lex(source, from, ProgramContext::NormalContext).start == lex(
            source,
            from,
            ProgramContext::TypeContext,
        ).start,
        ({
            let lexeme = lex(source, from, ProgramContext::NormalContext);
            lexeme.outcome is End || (0 <= lexeme.start < source.len() && (decimal_digit(
                source[lexeme.start],
            ) || source[lexeme.start] == '"' || source[lexeme.start] == '\''))
        }) ==> lex(source, from, ProgramContext::NormalContext) == lex(
            source,
            from,
            ProgramContext::TypeContext,
        ),
{
    reveal(lex);
}

/// A lexeme lies within the source and behind the index from which it was
/// looked for. Unless the input has ended, the lexeme holds at least one
/// character: the cursor moves on, whatever the lexeme is.
pub proof fn lex_moves_on(source: Seq<char>, from: int, mode: ProgramContext)
    requires
        0 <= from <= source.len(),
    ensures
        from <= lex(source, from, mode).start <= lex(source, from, mode).end <= source.len(),
        lex(source, from, mode).outcome is End ==> lex(source, from, mode).end == source.len(),
        !(lex(source, from, mode).outcome is End) ==> lex(source, from, mode).start < lex(
            source,
            from,
            mode,
        ).end,
{
    reveal(lex);
    let start = run_end(source, from, Run::Blank);
    run_end_is_first_outside(source, from, Run::Blank);
    if start < source.len() {
        run_end_is_first_outside(source, start, Run::Numeral);
        let whole_end = run_end(source, start, Run::Numeral);
        if whole_end + 1 <= source.len() {
            run_end_is_first_outside(source, whole_end + 1, Run::Numeral);
        }
        run_end_is_first_outside(source, start + 1, Run::StringBody);
        run_end_is_first_outside(source, start + 1, Run::CharBody);
        run_end_is_first_outside(source, start + 1, Run::Punctuation);
        run_end_is_first_outside(source, start, Run::Word);
        if word_start(source[start]) {
            assert(Run::Word.holds(source[start]));
        }
        if decimal_digit(source[start]) {
            assert(Run::Numeral.holds(source[start]));
        }
    }
}

impl View for PlacedToken {
    type V = (TokenView, Position);

    open spec fn view(&self) -> (TokenView, Position) {
        (self.content@, self.context@)
    }
}

/// A tokenization result as a mathematical value.
pub open spec fn result_view(r: TokenizerResult) -> Result<
    Option<(TokenView, Position)>,
    TokenizerErrorView,
> {
    match r {
        Ok(Some(token)) => Ok(Some(token@)),
        Ok(None) => Ok(None),
        Err(error) => Err(error@),
    }
}

/// What a rule answers before the error is given its position.
pub open spec fn rule_view(r: Result<Option<PlacedToken>, TokenizerErrorType>) -> Result<
    Option<(TokenView, Position)>,
    TokenizerErrorType,
> {
    match r {
        Ok(Some(token)) => Ok(Some(token@)),
        Ok(None) => Ok(None),
        Err(error) => Err(error),
    }
}

/// A tokenizer as a mathematical value: the text, the name of its file, and
/// the index of the cursor.
pub struct TokenizerView {
    pub source: Seq<char>,
    pub filename: Seq<char>,
    pub index: int,
}

impl TokenizerView {
    /// The same text with the cursor at `index`.
    pub open spec fn at(self, index: int) -> TokenizerView {
        TokenizerView { index, ..self }
    }

    /// The position of the cursor.
    pub open spec fn position(self) -> Position {
        position_of(self.filename, self.source, self.index)
    }

    /// The character under the cursor, if the input has not ended.
    pub open spec fn here(self) -> Option<char> {
        self.ahead(0)
    }

    /// The character `forward` places behind the cursor, if there is one.
    pub open spec fn ahead(self, forward: int) -> Option<char> {
        if 0 <= self.index + forward < self.source.len() {
            Some(self.source[self.index + forward])
        } else {
            None
        }
    }

    /// The next lexeme under `mode`.
    pub open spec fn lexeme(self, mode: ProgramContext) -> Lexeme {
        lex(self.source, self.index, mode)
    }

    /// Whether the next lexeme under `mode` can be read: it is not a
    /// numeral that the tokens cannot hold.
    pub open spec fn readable(self, mode: ProgramContext) -> bool {
        !(self.lexeme(mode).outcome is Unreadable)
    }

    /// The tokenizer after an attempt to read the next lexeme under `mode`:
    /// the cursor stands behind the lexeme if it can be read, and stays
    /// where it was if not.
    pub open spec fn advanced(self, mode: ProgramContext) -> TokenizerView {
        if self.readable(mode) {
            self.at(self.lexeme(mode).end)
        } else {
            self
        }
    }

    /// What a rule answers for the lexeme `lexeme` of this text: the token
    /// with the position behind the lexeme, or the kind of error.
    pub open spec fn rule_answer(self, lexeme: Lexeme) -> Result<
        Option<(TokenView, Position)>,
        TokenizerErrorType,
    > {
        match lexeme.outcome {
            Lexed::Token(token) => Ok(Some((token, self.at(lexeme.end).position()))),
            Lexed::Error(error) => Err(error),
            _ => Ok(None),
        }
    }

    /// What a tokenization call answers for the lexeme `lexeme` of this
    /// text: the token with the position behind the lexeme, nothing at the
    /// end of the input, or the error with the position at which the lexeme
    /// began.
    pub open spec fn answer(self, lexeme: Lexeme) -> Result<
        Option<(TokenView, Position)>,
        TokenizerErrorView,
    > {
        match lexeme.outcome {
            Lexed::Token(token) => Ok(Some((token, self.at(lexeme.end).position()))),
            Lexed::Error(error) => Err(
                TokenizerErrorView { error_type: error, context: self.at(lexeme.start).position() },
            ),
            _ => Ok(None),
        }
    }
}

/// A character buffer with a cursor that walks it lexeme by lexeme.
pub struct Tokenizer {
    chars: Vec<char>,
    context: LexerContext,
}

impl View for Tokenizer {
    type V = TokenizerView;

    closed spec fn view(&self) -> TokenizerView {
        TokenizerView {
            source: self.chars@,
            filename: self.context.filename@,
            index: self.context.index as int,
        }
    }
}

impl Tokenizer {
    /// The cursor lies within the text, and its line and column are those of
    /// its index.
    pub closed spec fn wf(&self) -> bool {
        &&& self.context.index <= self.chars.len()
        &&& self.context.line == line_of(self.chars@, self.context.index as int)
        &&& self.context.column == column_of(self.chars@, self.context.index as int)
    }

    /// The cursor of a well-formed tokenizer lies within the text.
    pub proof fn cursor_is_inside(&self)
        requires
            self.wf(),
        ensures
            0 <= self@.index <= self@.source.len(),
    {
    }

    /// A tokenizer at the start of `code`, which was read from `filename`.
    pub fn new(filename: String, code: String) -> (t: Tokenizer)
        ensures
            t.wf(),
            t@ == (TokenizerView { source: code@, filename: filename@, index: 0 }),
    {
        Tokenizer {
            chars: collect_chars(&code),
            context: LexerContext { filename, index: 0, column: 0, line: 0 },
        }
    }

    /// A tokenizer over a copy of the text, with its cursor at the same
    /// place.
    pub fn duplicate(&self) -> (t: Tokenizer)
        requires
            self.wf(),
        ensures
            t.wf(),
            t@ == self@,
    {
        let mut chars: Vec<char> = Vec::new();
        let mut i: usize = 0;
        while i < self.chars.len()
            invariant
                i <= self.chars.len(),
                chars@ == self.chars@.take(i as int),
            decreases self.chars.len() - i,
        {
            chars.push(self.chars[i]);
            assert(self.chars@.take(i + 1) =~= self.chars@.take(i as int).push(self.chars@[i as int]));
            i += 1;
        }
        assert(self.chars@.take(self.chars.len() as int) =~= self.chars@);
        Tokenizer { chars, context: self.context.duplicate() }
    }

    /// The characters of the text.
    pub fn chars(&self) -> (chars: &Vec<char>)
        ensures
            chars@ == self@.source,
    {
        &self.chars
    }

    /// The position of the cursor.
    pub fn context(&self) -> (context: &LexerContext)
        requires
            self.wf(),
        ensures
            context@ == self@.position(),
    {
        &self.context
    }

    /// A snapshot of the cursor.
    pub fn snapshot(&self) -> (context: LexerContext)
        requires
            self.wf(),
        ensures
            context@ == self@.position(),
    {
        self.context.duplicate()
    }

    /// The character under the cursor.
    pub fn peek_char(&self) -> (c: Option<char>)
        requires
            self.wf(),
        ensures
            c == self@.here(),
    {
        self.peek_chars(0)
    }

    /// The character `forward` places behind the cursor.
    pub fn peek_chars(&self, forward: usize) -> (c: Option<char>)
        requires
            self.wf(),
        ensures
            c == self@.ahead(forward as int),
    {
        if forward < self.chars.len() - self.context.index {
            Some(self.chars[self.context.index + forward])
        } else {
            None
        }
    }

    /// Moves the cursor over one character and returns it; at the end of the
    /// text nothing moves.
    pub fn next_char(&mut self) -> (c: Option<char>)
        requires
            old(self).wf(),
        ensures
            final(self).wf(),
            c == old(self)@.here(),
            final(self)@ == old(self)@.at(behind(old(self)@.source, old(self)@.index)),
    {
        if self.context.index < self.chars.len() {
            let ch = self.chars[self.context.index];
            proof {
                position_is_bounded(self.chars@, self.context.index as int);
            }
            if ch == '\n' {
                self.context.line = self.context.line + 1;
                self.context.column = 0;
            } else {
                self.context.column = self.context.column + 1;
            }
            self.context.index = self.context.index + 1;
            Some(ch)
        } else {
            None
        }
    }

    /// Moves the cursor over `forward` characters and one more, as far as
    /// the text goes, and returns the last of them if the text holds it.
    pub fn next_chars(&mut self, forward: usize) -> (c: Option<char>)
        requires
            old(self).wf(),
        ensures
            final(self).wf(),
            c == old(self)@.ahead(forward as int),
            final(self)@ == old(self)@.at(
                if old(self)@.index + forward < old(self)@.source.len() {
                    old(self)@.index + forward + 1
                } else {
                    old(self)@.source.len() as int
                },
            ),
    {
        let mut done: usize = 0;
        while done < forward
            invariant
                self.wf(),
                done <= forward,
                0 <= old(self)@.index <= old(self)@.source.len(),
                self@ == old(self)@.at(
                    if old(self)@.index + done < old(self)@.source.len() {
                        old(self)@.index + done
                    } else {
                        old(self)@.source.len() as int
                    },
                ),
            decreases forward - done,
        {
            self.next_char();
            done += 1;
        }
        self.next_char()
    }

    /// Moves the cursor to the end of the run of kind `run` that starts
    /// under it.
    pub fn skip_run(&mut self, run: Run)
        requires
            old(self).wf(),
        ensures
            final(self).wf(),
            final(self)@ == old(self)@.at(run_end(old(self)@.source, old(self)@.index, run)),
    {
        loop
            invariant
                self.wf(),
                self@.source == old(self)@.source,
                self@.filename == old(self)@.filename,
                old(self)@.index <= self@.index <= self@.source.len(),
                run_end(old(self)@.source, old(self)@.index, run) == run_end(
                    self@.source,
                    self@.index,
                    run,
                ),
            ensures
                self.wf(),
                self@ == old(self)@.at(run_end(old(self)@.source, old(self)@.index, run)),
            decreases self@.source.len() - self@.index,
        {
            match self.peek_char() {
                Some(ch) => {
                    if run.admits(ch) {
                        self.next_char();
                    } else {
                        break ;
                    }
                },
                None => {
                    break ;
                },
            }
        }
    }

    /// Moves the cursor on until the character under it is outside `run`,
    /// and returns the characters that it passed over.
    pub fn next_chars_until(&mut self, run: Run) -> (word: String)
        requires
            old(self).wf(),
        ensures
            final(self).wf(),
            final(self)@ == old(self)@.at(run_end(old(self)@.source, old(self)@.index, run)),
            word@ == old(self)@.source.subrange(
                old(self)@.index,
                run_end(old(self)@.source, old(self)@.index, run),
            ),
    {
        let start = self.context.index;
        proof {
            run_end_is_first_outside(self@.source, start as int, run);
        }
        self.skip_run(run);
        text_of(&self.chars, start, self.context.index)
    }

    /// The token `content` at the position of the cursor.
    fn contextual_token(&self, content: Token) -> (r: Result<
        Option<PlacedToken>,
        TokenizerErrorType,
    >)
        requires
            self.wf(),
        ensures
            rule_view(r) == Ok::<Option<(TokenView, Position)>, TokenizerErrorType>(
                Some((content@, self@.position())),
            ),
    {
        Ok(Some(PlacedToken { content, context: self.context.duplicate() }))
    }

    /// Gives the error of a rule the position `context`.
    fn wrap_context(context: LexerContext, result: Result<Option<PlacedToken>, TokenizerErrorType>)
        -> (r: TokenizerResult)
        ensures
            result_view(r) == match rule_view(result) {
                Ok(found) => Ok(found),
                Err(error) => Err(TokenizerErrorView { error_type: error, context: context@ }),
            },
    {
        match result {
            Ok(found) => Ok(found),
            Err(error) => Err(TokenizerError::new(error, context)),
        }
    }
}

impl Tokenizer {
    /// The index at which the run of kind `run` that starts at `from` ends,
    /// without moving the cursor.
    pub fn run_end_from(&self, from: usize, run: Run) -> (end: usize)
        ensures
            end == run_end(self@.source, from as int, run),
    {
        let mut end: usize = from;
        while end < self.chars.len() && run.admits(self.chars[end])
            invariant
                from <= end,
                run_end(self@.source, from as int, run) == run_end(self@.source, end as int, run),
            decreases self.chars.len() - end,
        {
            end += 1;
        }
        end
    }

    /// Whether the numeral that starts at `start` is one that the tokens can
    /// hold.
    fn numeral_reads_at(&self, start: usize) -> (b: bool)
        requires
            start <= self@.source.len(),
        ensures
            b == !(lex_number(self@.source, start as int).outcome is Unreadable),
    {
        proof {
            run_end_is_first_outside(self@.source, start as int, Run::Numeral);
        }
        let whole_end = self.run_end_from(start, Run::Numeral);
        let joins = whole_end < self.chars.len() && self.chars.len() - whole_end > 1
            && self.chars[whole_end] == '.' && (is_numeral_part(self.chars[whole_end + 1])
            || self.chars[whole_end + 1] == '.');
        if joins {
            proof {
                run_end_is_first_outside(self@.source, whole_end + 1, Run::Numeral);
            }
            let end = self.run_end_from(whole_end + 1, Run::Numeral);
            digits_only(&self.chars, start, whole_end) && digits_only(
                &self.chars,
                whole_end + 1,
                end,
            )
        } else {
            integer_of(&self.chars, start, whole_end).is_some()
        }
    }

    /// Whether the numeral under the cursor is one that the tokens can hold.
    pub fn can_read_number(&self) -> (b: bool)
        requires
            self.wf(),
        ensures
            b == !(lex_number(self@.source, self@.index).outcome is Unreadable),
    {
        self.numeral_reads_at(self.context.index)
    }

    /// Whether the next lexeme under `program_context` can be read: it is
    /// not a numeral that the tokens cannot hold. The cursor stays.
    pub fn can_read_next(&self, program_context: ProgramContext) -> (b: bool)
        requires
            self.wf(),
        ensures
            b == self@.readable(program_context),
    {
        proof {
            reveal(lex);
            run_end_is_first_outside(self@.source, self@.index, Run::Blank);
        }
        let start = self.run_end_from(self.context.index, Run::Blank);
        if start < self.chars.len() && is_decimal_digit(self.chars[start]) {
            self.numeral_reads_at(start)
        } else {
            true
        }
    }

    /// Reads the numeral under the cursor, which must be one that the tokens
    /// can hold; `try_lex_number` tests that first.
    pub fn lex_number(&mut self) -> (r: Result<Option<PlacedToken>, TokenizerErrorType>)
        requires
            old(self).wf(),
            !(lex_number(old(self)@.source, old(self)@.index).outcome is Unreadable),
        ensures
            final(self).wf(),
            final(self)@ == old(self)@.at(lex_number(old(self)@.source, old(self)@.index).end),
            rule_view(r) == old(self)@.rule_answer(
                lex_number(old(self)@.source, old(self)@.index),
            ),
    {
        let start = self.context.index;
        proof {
            run_end_is_first_outside(self@.source, start as int, Run::Numeral);
        }
        self.skip_run(Run::Numeral);
        let whole_end = self.context.index;
        let joins = match self.peek_char() {
            Some(ch) => ch == '.' && match self.peek_chars(1) {
                Some(next) => is_numeral_part(next) || next == '.',
                None => false,
            },
            None => false,
        };
        if joins {
            proof {
                run_end_is_first_outside(self@.source, whole_end + 1, Run::Numeral);
            }
            self.next_char();
            self.skip_run(Run::Numeral);
            let end = self.context.index;
            let text = text_of(&self.chars, start, end);
            self.contextual_token(Token::FloatToken(text))
        } else {
            match integer_of(&self.chars, start, whole_end) {
                Some(value) => self.contextual_token(Token::IntToken(value)),
                None => vstd::pervasive::unreached(),
            }
        }
    }

    /// Reads the numeral under the cursor if it is one that the tokens can
    /// hold; `None`, and the cursor stays, if it is not.
    pub fn try_lex_number(&mut self) -> (r: Option<
        Result<Option<PlacedToken>, TokenizerErrorType>,
    >)
        requires
            old(self).wf(),
        ensures
            final(self).wf(),
            r is Some <==> !(lex_number(old(self)@.source, old(self)@.index).outcome is Unreadable),
            r matches Some(found) ==> {
                &&& final(self)@ == old(self)@.at(
                    lex_number(old(self)@.source, old(self)@.index).end,
                )
                &&& rule_view(found) == old(self)@.rule_answer(
                    lex_number(old(self)@.source, old(self)@.index),
                )
            },
            r is None ==> final(self)@ == old(self)@,
    {
        if self.can_read_number() {
            Some(self.lex_number())
        } else {
            None
        }
    }

    /// Reads the string literal whose opening quote is under the cursor.
    pub fn lex_string(&mut self) -> (r: Result<Option<PlacedToken>, TokenizerErrorType>)
        requires
            old(self).wf(),
        ensures
            final(self).wf(),
            final(self)@ == old(self)@.at(lex_string(old(self)@.source, old(self)@.index).end),
            rule_view(r) == old(self)@.rule_answer(
                lex_string(old(self)@.source, old(self)@.index),
            ),
    {
        self.next_char();
        proof {
            run_end_is_first_outside(self@.source, self@.index, Run::StringBody);
        }
        let word = self.next_chars_until(Run::StringBody);
        match self.peek_char() {
            Some(ch) => {
                if ch == '"' {
                    self.next_char();
                    self.contextual_token(Token::StringToken(word))
                } else {
                    Err(TokenizerErrorType::UnclosedStringError)
                }
            },
            None => Err(TokenizerErrorType::UnclosedStringError),
        }
    }

    /// Reads the character literal whose opening quote is under the cursor.
    pub fn lex_char(&mut self) -> (r: Result<Option<PlacedToken>, TokenizerErrorType>)
        requires
            old(self).wf(),
        ensures
            final(self).wf(),
            final(self)@ == old(self)@.at(lex_char(old(self)@.source, old(self)@.index).end),
            rule_view(r) == old(self)@.rule_answer(lex_char(old(self)@.source, old(self)@.index)),
    {
        self.next_char();
        let body = self.context.index;
        proof {
            run_end_is_first_outside(self@.source, body as int, Run::CharBody);
        }
        self.skip_run(Run::CharBody);
        let body_end = self.context.index;
        match self.peek_char() {
            Some(ch) => {
                if ch == '\'' {
                    self.next_char();
                    if body_end - body == 1 {
                        let c = self.chars[body];
                        self.contextual_token(Token::CharToken(c))
                    } else if body_end == body {
                        Err(TokenizerErrorType::EmptyCharError)
                    } else {
                        Err(TokenizerErrorType::OverlengthyCharError)
                    }
                } else {
                    Err(TokenizerErrorType::UnclosedCharError)
                }
            },
            None => Err(TokenizerErrorType::UnclosedCharError),
        }
    }

    /// Reads the operator that starts under the cursor.
    pub fn lex_operator(&mut self, context: ProgramContext) -> (r: Result<
        Option<PlacedToken>,
        TokenizerErrorType,
    >)
        requires
            old(self).wf(),
        ensures
            final(self).wf(),
            final(self)@ == old(self)@.at(
                lex_operator(old(self)@.source, old(self)@.index, context).end,
            ),
            rule_view(r) == old(self)@.rule_answer(
                lex_operator(old(self)@.source, old(self)@.index, context),
            ),
    {
        let start = self.context.index;
        let mut length: usize = MAX_OPERATOR_LENGTH;
        while length > 0
            invariant
                self.wf(),
                *self == *old(self),
                start == self@.index,
                length <= 3,
                forall|width: int|
                    length < width <= 3 ==> operator_at(self@.source, start as int, width, context)
                        is None,
            decreases length,
        {
            if length <= self.chars.len() - start {
                match lookup_run(&self.chars, start, start + length, context) {
                    Some(token) => {
                        proof {
                            lookup_is_sound(
                                self@.source.subrange(start as int, start + length),
                                context,
                            );
                        }
                        self.next_chars(length - 1);
                        return self.contextual_token(token);
                    },
                    None => {},
                }
            }
            length -= 1;
        }
        proof {
            let after = behind(self@.source, start as int);
            run_end_is_first_outside(self@.source, after, Run::Punctuation);
        }
        self.next_char();
        self.skip_run(Run::Punctuation);
        Err(TokenizerErrorType::UnknownTokenStartError)
    }

    /// Reads the word that starts under the cursor.
    pub fn lex_word(&mut self, context: ProgramContext) -> (r: Result<
        Option<PlacedToken>,
        TokenizerErrorType,
    >)
        requires
            old(self).wf(),
        ensures
            final(self).wf(),
            final(self)@ == old(self)@.at(lex_word(old(self)@.source, old(self)@.index, context).end),
            rule_view(r) == old(self)@.rule_answer(
                lex_word(old(self)@.source, old(self)@.index, context),
            ),
    {
        let start = self.context.index;
        proof {
            run_end_is_first_outside(self@.source, start as int, Run::Word);
        }
        let word = self.next_chars_until(Run::Word);
        let end = self.context.index;
        match lookup_run(&self.chars, start, end, context) {
            Some(token) => {
                proof {
                    lookup_is_sound(self@.source.subrange(start as int, end as int), context);
                }
                self.contextual_token(token)
            },
            None => self.contextual_token(Token::Identifier(word)),
        }
    }

    /// Skips white space and reads the next lexeme under `program_context`:
    /// a token, `None` at the end of the input, or a lexical error with the
    /// position at which the lexeme began. The lexeme must not be a numeral
    /// that the tokens cannot hold; `try_next` tests that first.
    pub fn next(&mut self, program_context: ProgramContext) -> (r: TokenizerResult)
        requires
            old(self).wf(),
            old(self)@.readable(program_context),
        ensures
            final(self).wf(),
            final(self)@ == old(self)@.at(old(self)@.lexeme(program_context).end),
            result_view(r) == old(self)@.answer(old(self)@.lexeme(program_context)),
    {
        proof {
            reveal(lex);
            run_end_is_first_outside(self@.source, self@.index, Run::Blank);
        }
        self.skip_run(Run::Blank);
        let context = self.snapshot();
        let found = match self.peek_char() {
            None => {
                return Ok(None);
            },
            Some(x) => {
                if is_decimal_digit(x) {
                    self.lex_number()
                } else if x == '"' {
                    self.lex_string()
                } else if x == '\'' {
                    self.lex_char()
                } else if is_word_start(x) {
                    self.lex_word(program_context)
                } else {
                    self.lex_operator(program_context)
                }
            },
        };
        Self::wrap_context(context, found)
    }

    /// Reads the next lexeme under `program_context` if it can be read, as
    /// `next` does. `None`, and the cursor stays, where the lexeme is a
    /// numeral that the tokens cannot hold.
    pub fn try_next(&mut self, program_context: ProgramContext) -> (r: Option<TokenizerResult>)
        requires
            old(self).wf(),
        ensures
            final(self).wf(),
            final(self)@ == old(self)@.advanced(program_context),
            r is Some <==> old(self)@.readable(program_context),
            r matches Some(found) ==> result_view(found) == old(self)@.answer(
                old(self)@.lexeme(program_context),
            ),
    {
        if self.can_read_next(program_context) {
            Some(self.next(program_context))
        } else {
            None
        }
    }
}

} // verus!
