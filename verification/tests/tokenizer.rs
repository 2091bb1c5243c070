use px_syntax::lexer::LexerContext;
use px_syntax::tokenizer::{PlacedToken, ProgramContext, Tokenizer, TokenizerError, TokenizerErrorType};
use px_syntax::tokens::Token;


fn tokenizer(filename: &str, code: &str) -> Tokenizer {
    Tokenizer::new(filename.to_string(), code.to_string())
}

#[test]
fn new_tokenizer() {
    let tokenizer = tokenizer("test.px", "test");

    assert!(matches!(
        tokenizer.chars()[..],
        ['t', 'e', 's', 't']
    ));

    assert!(matches!(
        tokenizer.context().clone(),
        LexerContext { filename, index, column, line }
            if filename == "test.px".to_string()
            && index == 0
            && column == 0
            && line == 0
    ));
}

#[test]
fn tokenizer_lex_word_main_identifier() {
    let mut tokenizer = tokenizer("test.px", "main");

    assert!(matches!(
        tokenizer.lex_word(ProgramContext::NormalContext),
        Ok(Some(PlacedToken { content: Token::Identifier(x), context: _ }))
            if x == "main".to_string()
    ));
}

#[test]
fn tokenizer_lex_operator_plus() {
    let mut tokenizer = tokenizer("test.px", "+");

    assert!(matches!(
        tokenizer.lex_operator(ProgramContext::NormalContext),
        Ok(Some(PlacedToken { content: Token::PlusOperator, context: _ }))
    ));
}

#[test]
fn tokenizer_lex_operator_plus_equal() {
    let mut tokenizer = tokenizer("test.px", "+=");

    assert!(matches!(
        tokenizer.lex_operator(ProgramContext::NormalContext),
        Ok(Some(PlacedToken { content: Token::PlusEqualOperator, context: _ }))
    ));
}

#[test]
fn tokenizer_lex_operator_one_gt() {
    let mut tokenizer = tokenizer("test.px", ">");

    assert!(matches!(
        tokenizer.lex_operator(ProgramContext::NormalContext),
        Ok(Some(PlacedToken { content: Token::RightChevronOperator, context: _ }))
    ));
}

#[test]
fn tokenizer_lex_operator_two_gt_normal() {
    let mut tokenizer = tokenizer("test.px", ">>");

    assert!(matches!(
        tokenizer.lex_operator(ProgramContext::NormalContext),
        Ok(Some(PlacedToken { content: Token::DoubleRightChevronOperator, context: _ }))
    ));
}

#[test]
fn tokenizer_lex_operator_two_gt_type() {
    let mut tokenizer = tokenizer("test.px", ">>");

    assert!(matches!(
        tokenizer.lex_operator(ProgramContext::TypeContext),
        Ok(Some(PlacedToken { content: Token::RightChevronOperator, context: _ }))
    ));

    assert!(matches!(
        tokenizer.lex_operator(ProgramContext::TypeContext),
        Ok(Some(PlacedToken { content: Token::RightChevronOperator, context: _ }))
    ));
}


#[test]
fn tokenizer_lex_number_integer_42() {
    let mut tokenizer = tokenizer("test.px", "42");

    assert!(matches!(
        tokenizer.lex_number(),
        Ok(Some(PlacedToken { content: Token::IntToken(x), context: _ }))
            if x == 42
    ));
}

#[test]
fn tokenizer_lex_number_float_42() {
    let mut tokenizer = tokenizer("test.px", "42.0");

    assert!(matches!(
        tokenizer.lex_number(),
        Ok(Some(PlacedToken { content: Token::FloatToken(x), context: _ }))
            if x.parse::<f64>().unwrap() == 42.0
    ));
}

#[test]
fn tokenizer_lex_int_then_dot() {
    let mut tokenizer = tokenizer("test.px", "42.");

    assert!(matches!(
        tokenizer.next(ProgramContext::NormalContext),
        Ok(Some(PlacedToken { content: Token::IntToken(x), context: _ }))
            if x == 42
    ));

    assert!(matches!(
        tokenizer.next(ProgramContext::NormalContext),
        Ok(Some(PlacedToken { content: Token::DotOperator, context: _ }))
    ));
}

#[test]
fn tokenizer_lex_int_then_field() {
    let mut tokenizer = tokenizer("test.px", "42.a");

    assert!(matches!(
        tokenizer.next(ProgramContext::NormalContext),
        Ok(Some(PlacedToken { content: Token::IntToken(x), context: _ }))
            if x == 42
    ));

    assert!(matches!(
        tokenizer.next(ProgramContext::NormalContext),
        Ok(Some(PlacedToken { content: Token::DotOperator, context: _ }))
    ));

    assert!(matches!(
        tokenizer.next(ProgramContext::NormalContext),
        Ok(Some(PlacedToken { content: Token::Identifier(x), context: _ }))
            if x == "a".to_string()
    ));
}

#[test]
fn tokenizer_lex_float_then_dot() {
    let mut tokenizer = tokenizer("test.px", "42.0.");

    assert!(matches!(
        tokenizer.next(ProgramContext::NormalContext),
        Ok(Some(PlacedToken { content: Token::FloatToken(x), context: _ }))
            if x.parse::<f64>().unwrap() == 42.0
    ));

    assert!(matches!(
        tokenizer.next(ProgramContext::NormalContext),
        Ok(Some(PlacedToken { content: Token::DotOperator, context: _ }))
    ));
}

#[test]
fn tokenizer_lex_float_then_field() {
    let mut tokenizer = tokenizer("test.px", "42.0.a");

    assert!(matches!(
        tokenizer.next(ProgramContext::NormalContext),
        Ok(Some(PlacedToken { content: Token::FloatToken(x), context: _ }))
            if x.parse::<f64>().unwrap() == 42.0
    ));

    assert!(matches!(
        tokenizer.next(ProgramContext::NormalContext),
        Ok(Some(PlacedToken { content: Token::DotOperator, context: _ }))
    ));

    assert!(matches!(
        tokenizer.next(ProgramContext::NormalContext),
        Ok(Some(PlacedToken { content: Token::Identifier(x), context: _ }))
            if x == "a".to_string()
    ));
}

#[test]
fn tokenizer_lex_word_keyword() {
    let mut tokenizer = tokenizer("test.px", "let");

    assert!(matches!(
        tokenizer.next(ProgramContext::NormalContext),
        Ok(Some(PlacedToken { content: Token::LetKeyword, context: _ }))
    ));
}

#[test]
fn tokenizer_lex_word_keyword_type() {
    let mut tokenizer = tokenizer("test.px", "i32");

    assert!(matches!(
        tokenizer.next(ProgramContext::TypeContext),
        Ok(Some(PlacedToken { content: Token::I32Keyword, context: _ }))
    ));
}

#[test]
fn tokenizer_lex_operator_unknown_start() {
    let mut tokenizer = tokenizer("test.px", "$$ let");

    assert!(matches!(
        tokenizer.next(ProgramContext::NormalContext),
        Err(TokenizerError {
            error_type: TokenizerErrorType::UnknownTokenStartError,
            context: _,
        })
    ));

    assert!(matches!(
        tokenizer.next(ProgramContext::NormalContext),
        Ok(Some(PlacedToken { content: Token::LetKeyword, context: _ }))
    ));
}

#[test]
fn tokenizer_lex_string() {
    let mut tokenizer = tokenizer("test.px", "\"string\" \"string2\"");

    assert!(matches!(
        tokenizer.next(ProgramContext::NormalContext),
        Ok(Some(PlacedToken { content: Token::StringToken(x), context: _ }))
            if x == "string".to_string()
    ));

    assert!(matches!(
        tokenizer.next(ProgramContext::NormalContext),
        Ok(Some(PlacedToken { content: Token::StringToken(x), context: _ }))
            if x == "string2".to_string()
    ));
}

#[test]
fn tokenizer_lex_string_unclosed_eol() {
    let mut tokenizer = tokenizer("test.px", "\"string");

    assert!(matches!(
        tokenizer.next(ProgramContext::NormalContext),
        Err(TokenizerError {
            error_type: TokenizerErrorType::UnclosedStringError,
            context: _,
        })
    ));
}

#[test]
fn tokenizer_lex_string_unclosed_newline() {
    let mut tokenizer = tokenizer("test.px", "\"string\nlet");

    assert!(matches!(
        tokenizer.next(ProgramContext::NormalContext),
        Err(TokenizerError {
            error_type: TokenizerErrorType::UnclosedStringError,
            context: _,
        })
    ));

    assert!(matches!(
        tokenizer.next(ProgramContext::NormalContext),
        Ok(Some(PlacedToken { content: Token::LetKeyword, context: _ }))
    ));
}

#[test]
fn tokenizer_lex_char() {
    let mut tokenizer = tokenizer("test.px", "'c' 'd'");

    assert!(matches!(
        tokenizer.next(ProgramContext::NormalContext),
        Ok(Some(PlacedToken { content: Token::CharToken(x), context: _ }))
            if x == 'c'
    ));

    assert!(matches!(
        tokenizer.next(ProgramContext::NormalContext),
        Ok(Some(PlacedToken { content: Token::CharToken(x), context: _ }))
            if x == 'd'
    ));
}

#[test]
fn tokenizer_lex_char_unclosed_eol() {
    let mut tokenizer = tokenizer("test.px", "'c");

    assert!(matches!(
        tokenizer.next(ProgramContext::NormalContext),
        Err(TokenizerError {
            error_type: TokenizerErrorType::UnclosedCharError,
            context: _,
        })
    ));
}

#[test]
fn tokenizer_lex_char_unclosed_newline() {
    let mut tokenizer = tokenizer("test.px", "'c\nlet");

    assert!(matches!(
        tokenizer.next(ProgramContext::NormalContext),
        Err(TokenizerError {
            error_type: TokenizerErrorType::UnclosedCharError,
            context: _,
        })
    ));

    assert!(matches!(
        tokenizer.next(ProgramContext::NormalContext),
        Ok(Some(PlacedToken { content: Token::LetKeyword, context: _ }))
    ));
}

#[test]
fn tokenizer_lex_char_overlengthy() {
    let mut tokenizer = tokenizer("test.px", "'ch'let");

    assert!(matches!(
        tokenizer.next(ProgramContext::NormalContext),
        Err(TokenizerError {
            error_type: TokenizerErrorType::OverlengthyCharError,
            context: _,
        })
    ));

    assert!(matches!(
        tokenizer.next(ProgramContext::NormalContext),
        Ok(Some(PlacedToken { content: Token::LetKeyword, context: _ }))
    ));
}
