use px_syntax::lexer::ProgramContext;
use px_syntax::text::{collect_chars, digits_only, integer_of, render_decimal, spelled, text_of};
use px_syntax::tokens::{lookup_run, Token};

fn fixed_tokens() -> Vec<(&'static str, Token, bool, bool)> {
    vec![
        ("true", Token::TrueKeyword, true, false),
        ("false", Token::FalseKeyword, true, false),
        ("import", Token::ImportKeyword, true, false),
        ("use", Token::UseKeyword, true, false),
        ("fn", Token::FnKeyword, true, false),
        ("struct", Token::StructKeyword, true, false),
        ("enum", Token::EnumKeyword, true, false),
        ("trait", Token::TraitKeyword, true, false),
        ("instance", Token::InstanceKeyword, true, false),
        ("type", Token::TypeKeyword, true, false),
        ("const", Token::ConstKeyword, true, false),
        ("let", Token::LetKeyword, true, false),
        ("for", Token::ForKeyword, true, false),
        ("in", Token::InKeyword, true, false),
        ("if", Token::IfKeyword, true, false),
        ("else", Token::ElseKeyword, true, false),
        ("while", Token::WhileKeyword, true, false),
        ("loop", Token::LoopKeyword, true, false),
        ("try", Token::TryKeyword, true, false),
        ("catch", Token::CatchKeyword, true, false),
        ("or", Token::OrKeyword, true, false),
        ("and", Token::AndKeyword, true, false),
        ("not", Token::NotKeyword, true, false),
        ("return", Token::ReturnKeyword, true, false),
        ("break", Token::BreakKeyword, true, false),
        ("continue", Token::ContinueKeyword, true, false),
        ("super", Token::SuperKeyword, true, false),
        ("self", Token::SelfKeyword, true, false),
        ("i8", Token::I8Keyword, false, true),
        ("i16", Token::I16Keyword, false, true),
        ("i32", Token::I32Keyword, false, true),
        ("i64", Token::I64Keyword, false, true),
        ("i128", Token::I128Keyword, false, true),
        ("isize", Token::ISizeKeyword, false, true),
        ("u8", Token::U8Keyword, false, true),
        ("u16", Token::U16Keyword, false, true),
        ("u32", Token::U32Keyword, false, true),
        ("u64", Token::U64Keyword, false, true),
        ("u128", Token::U128Keyword, false, true),
        ("usize", Token::USizeKeyword, false, true),
        ("f32", Token::F32Keyword, false, true),
        ("f64", Token::F64Keyword, false, true),
        ("bool", Token::BoolKeyword, false, true),
        ("char", Token::CharKeyword, false, true),
        ("{", Token::LeftCurlyBracketOperator, true, true),
        ("}", Token::RightCurlyBracketOperator, true, true),
        ("[", Token::LeftSquareBracketOperator, true, true),
        ("]", Token::RightSquareBracketOperator, true, true),
        ("(", Token::LeftParenthesisOperator, true, true),
        (")", Token::RightParenthesisOperator, true, true),
        (";", Token::SemicolonOperator, true, true),
        (",", Token::CommaOperator, true, true),
        (":", Token::ColonOperator, true, true),
        ("=", Token::EqualOperator, true, true),
        ("|", Token::PipeOperator, true, true),
        ("==", Token::DoubleEqualOperator, true, true),
        ("!=", Token::BangEqualOperator, true, true),
        ("<", Token::LeftChevronOperator, true, true),
        (">", Token::RightChevronOperator, true, true),
        ("<=", Token::LeftChevronEqualOperator, true, true),
        (">=", Token::RightChevronEqualOperator, true, true),
        ("<<", Token::DoubleLeftChevronOperator, true, false),
        (">>", Token::DoubleRightChevronOperator, true, false),
        ("+", Token::PlusOperator, true, true),
        ("-", Token::MinusOperator, true, true),
        ("*", Token::StarOperator, true, true),
        ("/", Token::SlashOperator, true, true),
        ("%", Token::PercentOperator, true, true),
        ("**", Token::DoubleStarOperator, true, true),
        ("^", Token::CaretOperator, true, true),
        ("&", Token::AmpersandOperator, true, true),
        ("~", Token::TildeOperator, true, true),
        ("<<=", Token::DoubleLeftChevronEqualOperator, true, true),
        (">>=", Token::DoubleRightChevronEqualOperator, true, true),
        ("+=", Token::PlusEqualOperator, true, true),
        ("-=", Token::MinusEqualOperator, true, true),
        ("*=", Token::StarEqualOperator, true, true),
        ("/=", Token::SlashEqualOperator, true, true),
        ("%=", Token::PercentEqualOperator, true, true),
        ("**=", Token::DoubleStarEqualOperator, true, true),
        ("^=", Token::CaretEqualOperator, true, true),
        ("&=", Token::AmpersandEqualOperator, true, true),
        ("~=", Token::TildeEqualOperator, true, true),
        ("|=", Token::PipeEqualOperator, true, true),
        ("!", Token::BangOperator, true, true),
        ("!!", Token::DoubleBangOperator, true, true),
        ("?", Token::QuestionOperator, false, true),
        (".", Token::DotOperator, true, true),
        ("::", Token::ScopeResolutionOperator, true, true),
        ("=>", Token::DoubleArrowOperator, true, true),
    ]
}

#[test]
fn every_fixed_token_is_spelled_as_tabled() {
    for (spelling, token, _, _) in fixed_tokens() {
        assert_eq!(token.as_string(), spelling);
    }
    assert_eq!(fixed_tokens().len(), 90);
}

#[test]
fn the_table_is_the_inverse_of_the_spelling() {
    for (spelling, token, in_normal, in_type) in fixed_tokens() {
        let normal = Token::string_to_token_content(spelling.to_string(), &ProgramContext::NormalContext);
        let typed = Token::string_to_token_content(spelling.to_string(), &ProgramContext::TypeContext);
        assert_eq!(normal, if in_normal { Some(token.clone()) } else { None });
        assert_eq!(typed, if in_type { Some(token.clone()) } else { None });
        if in_normal {
            assert_eq!(normal.unwrap().as_string(), spelling);
        }
        if in_type {
            assert_eq!(typed.unwrap().as_string(), spelling);
        }
    }
}

#[test]
fn the_table_knows_nothing_else() {
    for spelling in ["", " ", "main", "fnn", "f", "True", "i7", "$", "<<<", "=>>", "BOF", "EOF", "42", "fn "] {
        for context in [ProgramContext::NormalContext, ProgramContext::TypeContext] {
            assert_eq!(Token::string_to_token_content(spelling.to_string(), &context), None);
        }
    }
}

#[test]
fn markers_and_payloads_are_spelled() {
    assert_eq!(Token::BOF.as_string(), "BOF");
    assert_eq!(Token::EOF.as_string(), "EOF");
    assert_eq!(Token::IntToken(0).as_string(), "0");
    assert_eq!(Token::IntToken(7).as_string(), "7");
    assert_eq!(Token::IntToken(42).as_string(), "42");
    assert_eq!(Token::IntToken(-42).as_string(), "-42");
    assert_eq!(Token::IntToken(1000).as_string(), "1000");
    assert_eq!(Token::IntToken(isize::MAX).as_string(), isize::MAX.to_string());
    assert_eq!(Token::IntToken(isize::MIN).as_string(), isize::MIN.to_string());
    assert_eq!(Token::FloatToken("42.0".to_string()).as_string(), "42.0");
    assert_eq!(Token::StringToken("a b".to_string()).as_string(), "a b");
    assert_eq!(Token::CharToken('c').as_string(), "c");
    assert_eq!(Token::Identifier("main".to_string()).as_string(), "main");
}

#[test]
fn duplicate_copies_the_payload() {
    for token in [
        Token::BOF,
        Token::EOF,
        Token::IntToken(-3),
        Token::FloatToken("1.5".to_string()),
        Token::StringToken("s".to_string()),
        Token::CharToken('c'),
        Token::Identifier("x".to_string()),
        Token::FnKeyword,
        Token::DoubleArrowOperator,
    ] {
        assert_eq!(token.duplicate(), token);
    }
    for (_, token, _, _) in fixed_tokens() {
        assert_eq!(token.duplicate(), token);
    }
}

#[test]
fn lookup_reads_a_stretch_of_a_buffer() {
    let chars: Vec<char> = "a>>=b".chars().collect();
    assert_eq!(
        lookup_run(&chars, 1, 4, ProgramContext::NormalContext),
        Some(Token::DoubleRightChevronEqualOperator)
    );
    assert_eq!(
        lookup_run(&chars, 1, 3, ProgramContext::NormalContext),
        Some(Token::DoubleRightChevronOperator)
    );
    assert_eq!(lookup_run(&chars, 1, 3, ProgramContext::TypeContext), None);
    assert_eq!(lookup_run(&chars, 1, 2, ProgramContext::TypeContext), Some(Token::RightChevronOperator));
    assert_eq!(lookup_run(&chars, 0, 1, ProgramContext::TypeContext), None);
    assert_eq!(lookup_run(&chars, 2, 2, ProgramContext::TypeContext), None);
}

#[test]
fn text_is_copied_both_ways() {
    let chars = collect_chars(&"h\u{e9}llo".to_string());
    assert_eq!(chars, vec!['h', '\u{e9}', 'l', 'l', 'o']);
    assert_eq!(text_of(&chars, 0, 5), "h\u{e9}llo");
    assert_eq!(text_of(&chars, 1, 3), "\u{e9}l");
    assert_eq!(text_of(&chars, 2, 2), "");
    assert_eq!(collect_chars(&String::new()), Vec::<char>::new());
}

#[test]
fn spelled_compares_a_stretch_with_a_word() {
    let chars: Vec<char> = "xfn(".chars().collect();
    assert!(spelled(&chars, 1, 3, "fn"));
    assert!(!spelled(&chars, 0, 2, "fn"));
    assert!(!spelled(&chars, 1, 4, "fn"));
    assert!(!spelled(&chars, 1, 2, "fn"));
    assert!(spelled(&chars, 2, 2, ""));
    assert!(!spelled(&chars, 1, 3, "fm"));
}

#[test]
fn numerals_are_read_in_base_ten() {
    let chars: Vec<char> = "x1203y".chars().collect();
    assert_eq!(integer_of(&chars, 1, 5), Some(1203));
    assert_eq!(integer_of(&chars, 2, 4), Some(20));
    assert_eq!(integer_of(&chars, 3, 4), Some(0));
    assert_eq!(integer_of(&chars, 1, 1), None);
    assert_eq!(integer_of(&chars, 0, 3), None);
    assert_eq!(integer_of(&chars, 4, 6), None);
    assert!(digits_only(&chars, 1, 5));
    assert!(digits_only(&chars, 3, 3));
    assert!(!digits_only(&chars, 0, 2));

    let largest: Vec<char> = isize::MAX.to_string().chars().collect();
    assert_eq!(integer_of(&largest, 0, largest.len()), Some(isize::MAX));
    let beyond: Vec<char> = (isize::MAX as u128 + 1).to_string().chars().collect();
    assert_eq!(integer_of(&beyond, 0, beyond.len()), None);
    let long: Vec<char> = "100000000000000000000000000000000000000000".chars().collect();
    assert_eq!(integer_of(&long, 0, long.len()), None);
    let padded: Vec<char> = "000000000000000000000000000000000000000012".chars().collect();
    assert_eq!(integer_of(&padded, 0, padded.len()), Some(12));
}

#[test]
fn rendering_and_reading_agree() {
    for n in [0isize, 1, 9, 10, 11, 99, 100, 12345, isize::MAX] {
        let text = render_decimal(n);
        assert_eq!(text, n.to_string());
        let chars: Vec<char> = text.chars().collect();
        assert_eq!(integer_of(&chars, 0, chars.len()), Some(n));
    }
    for n in [-1isize, -10, -12345, isize::MIN] {
        assert_eq!(render_decimal(n), n.to_string());
    }
}
