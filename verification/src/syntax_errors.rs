//! Diagnostics of the parser: what was expected and where, and a collector
//! that gathers several of them.

use vstd::prelude::*;
use crate::lexer::{LexerContext, LexerError, LexerErrorType, LexerErrorView, Position};

verus! {

/// What the grammar missed, or the lexical error that stopped it.
#[derive(Clone, Copy, Debug, PartialEq, Eq)]
pub enum SyntaxErrorType {
    LexerError(LexerErrorType),
    AtomExpected,
    ClosingBracketExpected,
    TypeExpected,
    BlockExpected,
    SemicolonExpected,
    IdentifierExpected,
}

/// A diagnostic: its kind and the position it refers to. For a lexical
/// error that is where the lexeme began, for the others where the cursor
/// stood when the token at hand failed to match.
#[derive(Debug, PartialEq)]
pub struct SyntaxError {
    pub error_type: SyntaxErrorType,
    pub context: LexerContext,
}

/// A diagnostic as a mathematical value.
pub struct SyntaxErrorView {
    pub error_type: SyntaxErrorType,
    pub context: Position,
}

impl View for SyntaxError {
    type V = SyntaxErrorView;

    open spec fn view(&self) -> SyntaxErrorView {
        SyntaxErrorView { error_type: self.error_type, context: self.context@ }
    }
}

impl SyntaxErrorView {
    /// The diagnostic that wraps the lexical error `error`, kind and
    /// position as they are.
    pub open spec fn lexical(error: LexerErrorView) -> SyntaxErrorView {
        SyntaxErrorView {
            error_type: SyntaxErrorType::LexerError(error.error_type),
            context: error.context,
        }
    }
}

/// The values of a list of diagnostics.
pub open spec fn error_views(errors: Seq<SyntaxError>) -> Seq<SyntaxErrorView> {
    Seq::new(errors.len(), |i: int| errors[i]@)
}

/// Diagnostics in the order in which they were added.
pub struct SyntaxErrorCollector {
    errors: Vec<SyntaxError>,
}

impl View for SyntaxErrorCollector {
    type V = Seq<SyntaxErrorView>;

    closed spec fn view(&self) -> Seq<SyntaxErrorView> {
        error_views(self.errors@)
    }
}

impl SyntaxErrorCollector {
    /// A collector that holds nothing.
    pub fn new() -> (collector: SyntaxErrorCollector)
        ensures
            collector@ == Seq::<SyntaxErrorView>::empty(),
    {
        let collector = SyntaxErrorCollector { errors: Vec::new() };
        assert(collector@ =~= Seq::<SyntaxErrorView>::empty());
        collector
    }

    /// Appends what `error_collector` holds, in its order, behind what this
    /// collector holds.
    pub fn add_errors(&mut self, error_collector: SyntaxErrorCollector)
        ensures
            final(self)@ == old(self)@ + error_collector@,
    {
        let mut other = error_collector.errors;
        let ghost mine = self.errors@;
        let ghost theirs = other@;
        self.errors.append(&mut other);
        assert(error_views(mine + theirs) =~= error_views(mine) + error_views(theirs));
    }

    /// A collector that holds the one diagnostic of kind `error_type` at
    /// `context`.
    pub fn from_error(error_type: SyntaxErrorType, context: LexerContext) -> (collector:
        SyntaxErrorCollector)
        ensures
            collector@ == seq![SyntaxErrorView { error_type, context: context@ }],
    {
        let mut error_collector = Self::new();
        error_collector.errors.push(SyntaxError { error_type, context });
        assert(error_collector@ =~= seq![SyntaxErrorView { error_type, context: context@ }]);
        error_collector
    }

    /// A collector that holds the one diagnostic that wraps `lexer_error`.
    pub fn from_lexer_error(lexer_error: LexerError) -> (collector: SyntaxErrorCollector)
        ensures
            collector@ == seq![SyntaxErrorView::lexical(lexer_error@)],
    {
        Self::from_error(SyntaxErrorType::LexerError(lexer_error.error_type), lexer_error.context)
    }

    /// How many diagnostics the collector holds.
    pub fn len(&self) -> (n: usize)
        ensures
            n == self@.len(),
    {
        self.errors.len()
    }

    /// The diagnostics, in the order in which they were added.
    pub fn errors(&self) -> (errors: &Vec<SyntaxError>)
        ensures
            error_views(errors@) == self@,
    {
        &self.errors
    }
}

} // verus!
