use px_syntax::lexer::{Lexer, LexerContext, LexerError, LexerErrorType, ProgramContext};
use px_syntax::charset::{
    is_ascii, is_ascii_punctuation, is_decimal_digit, is_letter, is_number, is_numeral_part, is_white_space,
    is_word_part, is_word_start, value_of_digit,
};
use px_syntax::tokenizer::{PlacedToken, Run, Tokenizer, TokenizerError, TokenizerErrorType};
use px_syntax::tokens::Token;

fn new_lexer(code: &str) -> Lexer {
    Lexer::new("test.px".to_string(), code.to_string())
}

fn new_tokenizer(code: &str) -> Tokenizer {
    Tokenizer::new("test.px".to_string(), code.to_string())
}

fn at(index: usize, line: usize, column: usize) -> LexerContext {
    LexerContext { filename: "test.px".to_string(), index, column, line }
}

fn all(code: &str, context: ProgramContext) -> Vec<Result<Token, LexerError>> {
    let mut lexer = new_lexer(code);
    let mut found = Vec::new();
    loop {
        match lexer.next(context) {
            Ok(Token::EOF) => break,
            other => found.push(other),
        }
    }
    found
}

#[test]
fn fresh_lexer_looks_back_at_the_start_marker() {
    let lexer = new_lexer("fn");
    assert_eq!(lexer.peek(), Ok(Token::BOF));
    assert_eq!(*lexer.context(), at(0, 0, 0));
}

#[test]
fn peek_repeats_the_last_answer_without_moving() {
    let mut lexer = new_lexer("let x");
    assert_eq!(lexer.next(ProgramContext::NormalContext), Ok(Token::LetKeyword));
    assert_eq!(lexer.peek(), Ok(Token::LetKeyword));
    assert_eq!(lexer.peek(), Ok(Token::LetKeyword));
    assert_eq!(*lexer.context(), at(3, 0, 3));
    assert_eq!(lexer.next(ProgramContext::NormalContext), Ok(Token::Identifier("x".to_string())));
    assert_eq!(lexer.peek(), Ok(Token::Identifier("x".to_string())));
}

#[test]
fn peek_repeats_an_error() {
    let mut lexer = new_lexer("''");
    let error = LexerError { error_type: LexerErrorType::EmptyCharError, context: at(0, 0, 0) };
    assert_eq!(lexer.next(ProgramContext::NormalContext), Err(error.clone()));
    assert_eq!(lexer.peek(), Err(error));
}

#[test]
fn empty_input_ends_at_once() {
    let mut lexer = new_lexer("");
    assert_eq!(lexer.next(ProgramContext::NormalContext), Ok(Token::EOF));
    assert_eq!(lexer.next(ProgramContext::TypeContext), Ok(Token::EOF));
    let mut tokenizer = new_tokenizer("");
    assert!(matches!(tokenizer.next(ProgramContext::NormalContext), Ok(None)));
}

#[test]
fn blank_input_ends_without_error() {
    for code in [" ", "\n", "\t \r\n  ", "\u{a0}\u{2003}\u{3000}", "   \n\n\n   "] {
        for context in [ProgramContext::NormalContext, ProgramContext::TypeContext] {
            let mut lexer = new_lexer(code);
            assert_eq!(lexer.next(context), Ok(Token::EOF));
            assert_eq!(lexer.context().index, code.chars().count());
            assert_eq!(lexer.next(context), Ok(Token::EOF));
            let mut tokenizer = new_tokenizer(code);
            assert!(matches!(tokenizer.next(context), Ok(None)));
        }
    }
}

#[test]
fn float_is_one_token() {
    let mut lexer = new_lexer("42.0");
    match lexer.next(ProgramContext::NormalContext) {
        Ok(Token::FloatToken(text)) => {
            assert_eq!(text, "42.0");
            assert_eq!(text.parse::<f64>().unwrap(), 42.0);
        },
        other => panic!("{:?}", other),
    }
    assert_eq!(lexer.next(ProgramContext::NormalContext), Ok(Token::EOF));
}

#[test]
fn integer_then_dot() {
    assert_eq!(
        all("42.", ProgramContext::NormalContext),
        vec![Ok(Token::IntToken(42)), Ok(Token::DotOperator)]
    );
}

#[test]
fn integer_then_field() {
    assert_eq!(
        all("42.a", ProgramContext::NormalContext),
        vec![Ok(Token::IntToken(42)), Ok(Token::DotOperator), Ok(Token::Identifier("a".to_string()))]
    );
}

#[test]
fn second_point_ends_a_float() {
    assert_eq!(
        all("1.5.2", ProgramContext::NormalContext),
        vec![Ok(Token::FloatToken("1.5".to_string())), Ok(Token::DotOperator), Ok(Token::IntToken(2))]
    );
    assert_eq!(
        all("42..", ProgramContext::NormalContext),
        vec![Ok(Token::FloatToken("42.".to_string())), Ok(Token::DotOperator)]
    );
}

#[test]
fn integers_up_to_the_largest() {
    assert_eq!(all("0", ProgramContext::NormalContext), vec![Ok(Token::IntToken(0))]);
    assert_eq!(all("007", ProgramContext::NormalContext), vec![Ok(Token::IntToken(7))]);
    let largest = isize::MAX.to_string();
    assert_eq!(all(&largest, ProgramContext::NormalContext), vec![Ok(Token::IntToken(isize::MAX))]);
}

#[test]
fn unreadable_numerals_are_told_apart() {
    let beyond = format!("{}0", isize::MAX);
    for code in ["1_000", "1_0.5", "1.5_", "12\u{b2}", beyond.as_str()] {
        let mut lexer = new_lexer(code);
        assert!(!lexer.can_read_next(ProgramContext::NormalContext));
        assert_eq!(lexer.try_next(ProgramContext::NormalContext), None);
        assert_eq!(lexer.peek(), Ok(Token::BOF));
        assert_eq!(*lexer.context(), at(0, 0, 0));
        assert_eq!(lexer.try_next(ProgramContext::TypeContext), None);
        let mut tokenizer = new_tokenizer(code);
        assert!(!tokenizer.can_read_next(ProgramContext::TypeContext));
        assert!(!tokenizer.can_read_number());
        assert_eq!(tokenizer.try_next(ProgramContext::TypeContext), None);
        assert_eq!(tokenizer.try_lex_number(), None);
        assert_eq!(*tokenizer.context(), at(0, 0, 0));
    }
}

#[test]
fn try_next_answers_like_next() {
    let mut lexer = new_lexer("x 1 'c");
    assert_eq!(
        lexer.try_next(ProgramContext::NormalContext),
        Some(Ok(Token::Identifier("x".to_string())))
    );
    assert_eq!(lexer.try_next(ProgramContext::NormalContext), Some(Ok(Token::IntToken(1))));
    assert_eq!(
        lexer.try_next(ProgramContext::NormalContext),
        Some(Err(LexerError { error_type: LexerErrorType::UnclosedCharError, context: at(4, 0, 4) }))
    );
    assert_eq!(lexer.try_next(ProgramContext::NormalContext), Some(Ok(Token::EOF)));
}

#[test]
fn double_chevron_depends_on_the_context() {
    let mut lexer = new_lexer(">>");
    assert_eq!(lexer.next(ProgramContext::NormalContext), Ok(Token::DoubleRightChevronOperator));
    assert_eq!(lexer.next(ProgramContext::NormalContext), Ok(Token::EOF));

    let mut lexer = new_lexer(">>");
    assert_eq!(lexer.next(ProgramContext::TypeContext), Ok(Token::RightChevronOperator));
    assert_eq!(lexer.context().index, 1);
    assert_eq!(lexer.next(ProgramContext::TypeContext), Ok(Token::RightChevronOperator));
    assert_eq!(lexer.context().index, 2);
    assert_eq!(lexer.next(ProgramContext::TypeContext), Ok(Token::EOF));
}

#[test]
fn context_can_change_between_calls() {
    let mut lexer = new_lexer("i32 i32 let let ? >>");
    assert_eq!(lexer.next(ProgramContext::TypeContext), Ok(Token::I32Keyword));
    assert_eq!(lexer.next(ProgramContext::NormalContext), Ok(Token::Identifier("i32".to_string())));
    assert_eq!(lexer.next(ProgramContext::TypeContext), Ok(Token::Identifier("let".to_string())));
    assert_eq!(lexer.next(ProgramContext::NormalContext), Ok(Token::LetKeyword));
    assert_eq!(lexer.next(ProgramContext::TypeContext), Ok(Token::QuestionOperator));
    assert_eq!(lexer.next(ProgramContext::NormalContext), Ok(Token::DoubleRightChevronOperator));
}

#[test]
fn longest_operator_wins() {
    assert_eq!(
        all("<<= << < <=", ProgramContext::NormalContext),
        vec![
            Ok(Token::DoubleLeftChevronEqualOperator),
            Ok(Token::DoubleLeftChevronOperator),
            Ok(Token::LeftChevronOperator),
            Ok(Token::LeftChevronEqualOperator),
        ]
    );
    assert_eq!(
        all("**=**", ProgramContext::NormalContext),
        vec![Ok(Token::DoubleStarEqualOperator), Ok(Token::DoubleStarOperator)]
    );
    assert_eq!(
        all(">>=>>", ProgramContext::TypeContext),
        vec![
            Ok(Token::DoubleRightChevronEqualOperator),
            Ok(Token::RightChevronOperator),
            Ok(Token::RightChevronOperator),
        ]
    );
    assert_eq!(
        all("<<", ProgramContext::TypeContext),
        vec![Ok(Token::LeftChevronOperator), Ok(Token::LeftChevronOperator)]
    );
}

#[test]
fn unclosed_string_is_reported_at_its_opening_quote() {
    let mut lexer = new_lexer("\"abc");
    assert_eq!(
        lexer.next(ProgramContext::NormalContext),
        Err(LexerError { error_type: LexerErrorType::UnclosedStringError, context: at(0, 0, 0) })
    );
    assert_eq!(lexer.next(ProgramContext::NormalContext), Ok(Token::EOF));

    let mut lexer = new_lexer("x\n  \"abc\nlet");
    assert_eq!(lexer.next(ProgramContext::NormalContext), Ok(Token::Identifier("x".to_string())));
    assert_eq!(
        lexer.next(ProgramContext::NormalContext),
        Err(LexerError { error_type: LexerErrorType::UnclosedStringError, context: at(4, 1, 2) })
    );
    assert_eq!(*lexer.context(), at(8, 1, 6));
    assert_eq!(lexer.next(ProgramContext::NormalContext), Ok(Token::LetKeyword));
}

#[test]
fn character_literals_hold_exactly_one_character() {
    let mut lexer = new_lexer("'ab'");
    assert_eq!(
        lexer.next(ProgramContext::NormalContext),
        Err(LexerError { error_type: LexerErrorType::OverlengthyCharError, context: at(0, 0, 0) })
    );
    assert_eq!(lexer.context().index, 4);

    let mut lexer = new_lexer("''");
    assert_eq!(
        lexer.next(ProgramContext::NormalContext),
        Err(LexerError { error_type: LexerErrorType::EmptyCharError, context: at(0, 0, 0) })
    );
    assert_eq!(lexer.context().index, 2);

    let mut lexer = new_lexer(" 'a");
    assert_eq!(
        lexer.next(ProgramContext::NormalContext),
        Err(LexerError { error_type: LexerErrorType::UnclosedCharError, context: at(1, 0, 1) })
    );

    let mut lexer = new_lexer("'\u{e9}' '\"'");
    assert_eq!(lexer.next(ProgramContext::NormalContext), Ok(Token::CharToken('\u{e9}')));
    assert_eq!(lexer.next(ProgramContext::NormalContext), Ok(Token::CharToken('"')));
}

#[test]
fn strings_keep_what_stands_between_the_quotes() {
    assert_eq!(
        all("\"\" \"a b\" \"'\"", ProgramContext::NormalContext),
        vec![
            Ok(Token::StringToken("".to_string())),
            Ok(Token::StringToken("a b".to_string())),
            Ok(Token::StringToken("'".to_string())),
        ]
    );
}

#[test]
fn unknown_punctuation_is_given_up_as_one_run() {
    let mut lexer = new_lexer("$$ let");
    assert_eq!(
        lexer.next(ProgramContext::NormalContext),
        Err(LexerError { error_type: LexerErrorType::UnknownTokenStartError, context: at(0, 0, 0) })
    );
    assert_eq!(lexer.context().index, 2);
    assert_eq!(lexer.next(ProgramContext::NormalContext), Ok(Token::LetKeyword));

    let mut lexer = new_lexer("?x");
    assert_eq!(
        lexer.next(ProgramContext::NormalContext),
        Err(LexerError { error_type: LexerErrorType::UnknownTokenStartError, context: at(0, 0, 0) })
    );
    assert_eq!(lexer.context().index, 1);
    assert_eq!(lexer.next(ProgramContext::NormalContext), Ok(Token::Identifier("x".to_string())));
}

#[test]
fn unknown_character_always_moves_the_cursor() {
    let mut lexer = new_lexer("\u{20ac}x");
    assert_eq!(
        lexer.next(ProgramContext::NormalContext),
        Err(LexerError { error_type: LexerErrorType::UnknownTokenStartError, context: at(0, 0, 0) })
    );
    assert_eq!(lexer.context().index, 1);
    assert_eq!(lexer.next(ProgramContext::NormalContext), Ok(Token::Identifier("x".to_string())));

    let mut lexer = new_lexer("\u{20ac}$#");
    assert!(lexer.next(ProgramContext::NormalContext).is_err());
    assert_eq!(lexer.context().index, 3);
    assert_eq!(lexer.next(ProgramContext::NormalContext), Ok(Token::EOF));
}

#[test]
fn words_take_letters_numbers_and_underscores() {
    assert_eq!(
        all("_a1 \u{e9}t\u{e9} x\u{b2} __ fn2", ProgramContext::NormalContext),
        vec![
            Ok(Token::Identifier("_a1".to_string())),
            Ok(Token::Identifier("\u{e9}t\u{e9}".to_string())),
            Ok(Token::Identifier("x\u{b2}".to_string())),
            Ok(Token::Identifier("__".to_string())),
            Ok(Token::Identifier("fn2".to_string())),
        ]
    );
}

#[test]
fn lines_and_columns_count_from_zero() {
    let mut tokenizer = new_tokenizer("ab\n cd\n\nx");
    match tokenizer.next(ProgramContext::NormalContext) {
        Ok(Some(PlacedToken { content, context })) => {
            assert_eq!(content, Token::Identifier("ab".to_string()));
            assert_eq!(context, at(2, 0, 2));
        },
        other => panic!("{:?}", other),
    }
    match tokenizer.next(ProgramContext::NormalContext) {
        Ok(Some(PlacedToken { content, context })) => {
            assert_eq!(content, Token::Identifier("cd".to_string()));
            assert_eq!(context, at(6, 1, 3));
        },
        other => panic!("{:?}", other),
    }
    match tokenizer.next(ProgramContext::NormalContext) {
        Ok(Some(PlacedToken { content, context })) => {
            assert_eq!(content, Token::Identifier("x".to_string()));
            assert_eq!(context, at(9, 3, 1));
        },
        other => panic!("{:?}", other),
    }
    assert!(matches!(tokenizer.next(ProgramContext::NormalContext), Ok(None)));
    assert_eq!(*tokenizer.context(), at(9, 3, 1));
}

#[test]
fn line_feed_resets_the_column() {
    let mut tokenizer = new_tokenizer("a\nb");
    assert_eq!(tokenizer.next_char(), Some('a'));
    assert_eq!(*tokenizer.context(), at(1, 0, 1));
    assert_eq!(tokenizer.next_char(), Some('\n'));
    assert_eq!(*tokenizer.context(), at(2, 1, 0));
    assert_eq!(tokenizer.peek_char(), Some('b'));
    assert_eq!(tokenizer.peek_chars(1), None);
    assert_eq!(tokenizer.next_char(), Some('b'));
    assert_eq!(*tokenizer.context(), at(3, 1, 1));
    assert_eq!(tokenizer.next_char(), None);
    assert_eq!(*tokenizer.context(), at(3, 1, 1));
}

#[test]
fn tokenizer_errors_carry_the_start_of_the_lexeme() {
    let mut tokenizer = new_tokenizer("  'xy'");
    assert_eq!(
        tokenizer.next(ProgramContext::NormalContext),
        Err(TokenizerError { error_type: TokenizerErrorType::OverlengthyCharError, context: at(2, 0, 2) })
    );
    assert_eq!(*tokenizer.context(), at(6, 0, 6));
}

#[test]
fn rules_can_be_called_on_their_own() {
    let mut tokenizer = new_tokenizer("\"s\"'c'12.5 x+");
    assert!(matches!(
        tokenizer.lex_string(),
        Ok(Some(PlacedToken { content: Token::StringToken(s), context: _ })) if s == "s"
    ));
    assert!(matches!(
        tokenizer.lex_char(),
        Ok(Some(PlacedToken { content: Token::CharToken('c'), context: _ }))
    ));
    assert!(matches!(
        tokenizer.lex_number(),
        Ok(Some(PlacedToken { content: Token::FloatToken(s), context: _ })) if s == "12.5"
    ));
    tokenizer.skip_run(Run::Blank);
    assert!(matches!(
        tokenizer.lex_word(ProgramContext::NormalContext),
        Ok(Some(PlacedToken { content: Token::Identifier(s), context: _ })) if s == "x"
    ));
    assert!(matches!(
        tokenizer.lex_operator(ProgramContext::NormalContext),
        Ok(Some(PlacedToken { content: Token::PlusOperator, context: _ }))
    ));
    assert!(matches!(
        tokenizer.lex_operator(ProgramContext::NormalContext),
        Err(TokenizerErrorType::UnknownTokenStartError)
    ));
    assert!(matches!(tokenizer.lex_string(), Err(TokenizerErrorType::UnclosedStringError)));
    assert!(matches!(tokenizer.lex_char(), Err(TokenizerErrorType::UnclosedCharError)));
    assert!(!tokenizer.can_read_number());
    assert_eq!(tokenizer.try_lex_number(), None);
}

#[test]
fn next_chars_until_returns_what_it_passed_over() {
    let mut tokenizer = new_tokenizer("ab1 \"x y\"\nz");
    assert_eq!(tokenizer.next_chars_until(Run::Word), "ab1");
    assert_eq!(tokenizer.next_chars_until(Run::Word), "");
    assert_eq!(tokenizer.next_chars_until(Run::Blank), " ");
    assert_eq!(tokenizer.next_char(), Some('"'));
    assert_eq!(tokenizer.next_chars_until(Run::StringBody), "x y");
    assert_eq!(tokenizer.next_char(), Some('"'));
    assert_eq!(tokenizer.next_chars_until(Run::CharBody), "");
    assert_eq!(tokenizer.next_chars_until(Run::Blank), "\n");
    assert_eq!(tokenizer.next_chars_until(Run::Numeral), "");
    assert_eq!(tokenizer.next_chars_until(Run::Punctuation), "");
    assert_eq!(tokenizer.next_chars_until(Run::Word), "z");
    assert_eq!(tokenizer.next_chars_until(Run::Word), "");
    assert_eq!(*tokenizer.context(), at(11, 1, 1));
}

#[test]
fn next_chars_stops_at_the_end() {
    let mut tokenizer = new_tokenizer("abcd");
    assert_eq!(tokenizer.next_chars(1), Some('b'));
    assert_eq!(tokenizer.context().index, 2);
    assert_eq!(tokenizer.next_chars(0), Some('c'));
    assert_eq!(tokenizer.context().index, 3);
    assert_eq!(tokenizer.next_chars(5), None);
    assert_eq!(tokenizer.context().index, 4);
    assert_eq!(tokenizer.next_chars(0), None);
    assert_eq!(tokenizer.context().index, 4);
}

#[test]
fn runs_admit_their_characters() {
    assert!(Run::Blank.admits(' ') && Run::Blank.admits('\n') && Run::Blank.admits('\u{2003}'));
    assert!(!Run::Blank.admits('a') && !Run::Blank.admits('_'));
    assert!(Run::Numeral.admits('0') && Run::Numeral.admits('_') && Run::Numeral.admits('\u{b2}'));
    assert!(!Run::Numeral.admits('.') && !Run::Numeral.admits('a'));
    assert!(Run::Word.admits('a') && Run::Word.admits('9') && Run::Word.admits('_'));
    assert!(Run::Word.admits('\u{e9}') && !Run::Word.admits('-') && !Run::Word.admits(' '));
    assert!(Run::Punctuation.admits('!') && Run::Punctuation.admits('/') && Run::Punctuation.admits(':'));
    assert!(Run::Punctuation.admits('@') && Run::Punctuation.admits('[') && Run::Punctuation.admits('`'));
    assert!(Run::Punctuation.admits('{') && Run::Punctuation.admits('~'));
    assert!(!Run::Punctuation.admits(' ') && !Run::Punctuation.admits('0') && !Run::Punctuation.admits('a'));
    assert!(!Run::Punctuation.admits('\u{7f}') && !Run::Punctuation.admits('\u{20ac}'));
    assert!(Run::StringBody.admits('\'') && !Run::StringBody.admits('"') && !Run::StringBody.admits('\n'));
    assert!(Run::CharBody.admits('"') && !Run::CharBody.admits('\'') && !Run::CharBody.admits('\n'));
}

#[test]
fn character_classes_agree_with_the_standard_library() {
    for code in 0u32..=0x10ffff {
        if let Some(c) = char::from_u32(code) {
            assert_eq!(is_ascii(c), c.is_ascii());
            assert_eq!(is_white_space(c), c.is_whitespace());
            assert_eq!(is_letter(c), c.is_alphabetic());
            assert_eq!(is_number(c), c.is_numeric());
            assert_eq!(is_decimal_digit(c), c.is_digit(10));
            assert_eq!(is_ascii_punctuation(c), c.is_ascii_punctuation());
            assert_eq!(is_numeral_part(c), c.is_numeric() || c == '_');
            assert_eq!(is_word_start(c), c.is_alphabetic() || c == '_');
            assert_eq!(is_word_part(c), c.is_alphanumeric() || c == '_');
            assert_eq!(Run::Blank.admits(c), c.is_whitespace());
        }
    }
    for (digit, value) in [('0', 0u8), ('1', 1), ('5', 5), ('9', 9)] {
        assert_eq!(value_of_digit(digit), value);
    }
}

#[test]
fn ascii_classes_are_as_written_out() {
    for c in [' ', '\t', '\n', '\u{b}', '\u{c}', '\r'] {
        assert!(is_white_space(c));
    }
    for c in ['\u{8}', '\u{e}', '\u{1f}', '!', '0', 'a', '_', '\u{7f}'] {
        assert!(!is_white_space(c));
    }
    assert!(is_white_space('\u{85}') && is_white_space('\u{a0}') && is_white_space('\u{3000}'));
    for c in ['a', 'z', 'A', 'Z', 'm'] {
        assert!(is_letter(c) && !is_number(c));
    }
    for c in ['@', '[', '`', '{', '0', '_', ' '] {
        assert!(!is_letter(c));
    }
    for c in ['0', '5', '9'] {
        assert!(is_number(c) && !is_letter(c));
    }
    for c in ['/', ':', 'a', '_'] {
        assert!(!is_number(c));
    }
    assert!(is_letter('\u{e9}') && is_number('\u{b2}') && !is_letter('\u{20ac}'));
}

#[test]
fn an_unreadable_numeral_behind_white_space_leaves_the_cursor() {
    let mut lexer = new_lexer("x  \n 1_0");
    assert!(lexer.can_read_next(ProgramContext::NormalContext));
    assert_eq!(lexer.try_next(ProgramContext::NormalContext), Some(Ok(Token::Identifier("x".to_string()))));
    assert!(!lexer.can_read_next(ProgramContext::NormalContext));
    assert_eq!(lexer.try_next(ProgramContext::NormalContext), None);
    assert_eq!(lexer.peek(), Ok(Token::Identifier("x".to_string())));
    assert_eq!(*lexer.context(), at(1, 0, 1));
}

#[test]
fn readable_lexemes_pass_the_test() {
    for code in ["", "  ", "x", "42", "42.5", "42.", "\"s", "''", "$", "  7 ", "0.5.5"] {
        for context in [ProgramContext::NormalContext, ProgramContext::TypeContext] {
            let mut lexer = new_lexer(code);
            assert!(lexer.can_read_next(context));
            assert_eq!(*lexer.context(), at(0, 0, 0));
            let mut twin = lexer.duplicate();
            let tried = lexer.try_next(context);
            assert_eq!(tried, Some(twin.next(context)));
            assert_eq!(lexer.context(), twin.context());
            assert_eq!(lexer.peek(), twin.peek());
        }
    }
}

#[test]
fn try_lex_number_reads_what_can_be_read() {
    let mut tokenizer = new_tokenizer("12.5x");
    assert!(tokenizer.can_read_number());
    assert!(matches!(
        tokenizer.try_lex_number(),
        Some(Ok(Some(PlacedToken { content: Token::FloatToken(s), context }))) if s == "12.5" && context == at(4, 0, 4)
    ));
    let mut tokenizer = new_tokenizer("7");
    assert!(matches!(
        tokenizer.try_lex_number(),
        Some(Ok(Some(PlacedToken { content: Token::IntToken(7), context: _ })))
    ));
}

#[test]
fn run_end_from_looks_ahead_without_moving() {
    let tokenizer = new_tokenizer("ab12 ;;x");
    assert_eq!(tokenizer.run_end_from(0, Run::Word), 4);
    assert_eq!(tokenizer.run_end_from(2, Run::Numeral), 4);
    assert_eq!(tokenizer.run_end_from(4, Run::Blank), 5);
    assert_eq!(tokenizer.run_end_from(5, Run::Punctuation), 7);
    assert_eq!(tokenizer.run_end_from(5, Run::Word), 5);
    assert_eq!(tokenizer.run_end_from(7, Run::Word), 8);
    assert_eq!(tokenizer.run_end_from(8, Run::Word), 8);
    assert_eq!(tokenizer.run_end_from(20, Run::Word), 20);
    assert_eq!(*tokenizer.context(), at(0, 0, 0));
}

#[test]
fn duplicate_copies_text_and_cursor() {
    let mut lexer = new_lexer("a\nb c");
    let _ = lexer.next(ProgramContext::NormalContext);
    let _ = lexer.next(ProgramContext::NormalContext);
    let mut twin = lexer.duplicate();
    assert_eq!(twin.chars(), lexer.chars());
    assert_eq!(twin.context(), lexer.context());
    assert_eq!(twin.peek(), Ok(Token::Identifier("b".to_string())));
    assert_eq!(twin.next(ProgramContext::NormalContext), Ok(Token::Identifier("c".to_string())));
    assert_eq!(lexer.peek(), Ok(Token::Identifier("b".to_string())));
    assert_eq!(*lexer.context(), at(3, 1, 1));
}
