use vandior_lexer::code_source_location::CodeSourceLocation;
use vandior_lexer::token::{Token, TokenList};
use vandior_lexer::token_type::{RawToken, TokenType};
use vandior_lexer::tokenizer::Tokenizer;

fn lex(src: &str) -> TokenList {
    Tokenizer::new("test.vn", src).tokenize()
}

fn kinds(src: &str) -> Vec<TokenType> {
    lex(src).tokens.iter().map(|t| t.token_type).collect()
}

fn values(src: &str) -> Vec<String> {
    lex(src).tokens.iter().map(|t| t.value.clone()).collect()
}

fn loc(t: &Token) -> (usize, usize) {
    (t.source_location.line, t.source_location.column)
}

#[test]
fn empty_input_is_only_the_sentinel() {
    let list = lex("");
    assert_eq!(list.tokens.len(), 1);
    assert_eq!(list.tokens[0].token_type, TokenType::Eoft);
    assert_eq!(list.tokens[0].value, "");
    assert_eq!(loc(&list.tokens[0]), (1, 0));
}

#[test]
fn whitespace_only_input_is_only_the_sentinel() {
    assert_eq!(kinds("  \n\t \u{3000}"), vec![TokenType::Eoft]);
}

#[test]
fn stream_always_ends_with_one_sentinel() {
    for src in ["var x = 10", "@@@", "\"open", "/* open", "a\nb\n", "é"] {
        let k = kinds(src);
        assert_eq!(*k.last().unwrap(), TokenType::Eoft);
        assert_eq!(k.iter().filter(|t| **t == TokenType::Eoft).count(), 1);
    }
}

#[test]
fn file_name_is_kept() {
    let list = Tokenizer::new("main.vn", "x").tokenize();
    assert_eq!(list.file_name, "main.vn");
}

#[test]
fn tokenizing_twice_gives_the_same_stream() {
    let t = Tokenizer::new("f", "fun main() { var x = 3.5 + 'a' }");
    let a = t.tokenize();
    let b = t.tokenize();
    assert_eq!(a.tokens.len(), b.tokens.len());
    for (x, y) in a.tokens.iter().zip(b.tokens.iter()) {
        assert_eq!(x.token_type, y.token_type);
        assert_eq!(x.value, y.value);
        assert_eq!(loc(x), loc(y));
    }
}

#[test]
fn slices_cover_the_input_outside_whitespace() {
    let list = lex("a+=12 // c\n\"s\"");
    let k: Vec<TokenType> = list.tokens.iter().map(|t| t.token_type).collect();
    assert_eq!(
        k,
        vec![
            TokenType::Identifier,
            TokenType::PlusEqual,
            TokenType::Integer,
            TokenType::Comment,
            TokenType::String,
            TokenType::Eoft
        ]
    );
    let v: Vec<String> = list.tokens.iter().map(|t| t.value.clone()).collect();
    assert_eq!(v, vec!["a", "", "12", "// c", "s", ""]);
    let l: Vec<(usize, usize)> = list.tokens.iter().map(loc).collect();
    assert_eq!(l, vec![(1, 0), (1, 1), (1, 3), (1, 6), (2, 0), (2, 3)]);
}

#[test]
fn keywords_classify_to_their_kinds() {
    let table = [
        ("main", TokenType::KMain),
        ("var", TokenType::KVar),
        ("if", TokenType::KIf),
        ("while", TokenType::KWhile),
        ("else", TokenType::KElse),
        ("for", TokenType::KFor),
        ("break", TokenType::KBreak),
        ("fun", TokenType::KFun),
        ("return", TokenType::KReturn),
    ];
    for (word, kind) in table {
        assert_eq!(TokenType::map_keword_to_token_type(word), kind);
        assert!(kind.is_keyword());
        let (t, v) = TokenType::map_raw_token_type(RawToken::IdentifierAscii, word);
        assert_eq!(t, kind);
        assert_eq!(v, "");
        assert_eq!(kinds(word), vec![kind, TokenType::Eoft]);
    }
}

#[test]
fn other_identifiers_are_identifiers() {
    assert_eq!(TokenType::map_keword_to_token_type("foobar"), TokenType::Identifier);
    assert_eq!(TokenType::map_keword_to_token_type("Main"), TokenType::Identifier);
    let (t, v) = TokenType::map_raw_token_type(RawToken::IdentifierAscii, "foobar");
    assert_eq!(t, TokenType::Identifier);
    assert_eq!(v, "foobar");
    assert!(!TokenType::Identifier.is_keyword());
    assert!(!TokenType::KNullptr.is_keyword());
    assert_eq!(values("mainly"), vec!["mainly", ""]);
}

#[test]
fn numbers_classify_by_decimal_point() {
    assert_eq!(
        TokenType::map_raw_token_type(RawToken::Number, "42"),
        (TokenType::Integer, "42".to_string())
    );
    assert_eq!(
        TokenType::map_raw_token_type(RawToken::Number, "3.14"),
        (TokenType::Double, "3.14".to_string())
    );
    assert_eq!(
        TokenType::map_raw_token_type(RawToken::Number, "2."),
        (TokenType::Double, "2.".to_string())
    );
    assert_eq!(kinds("42 3.14 2. .5"), vec![
        TokenType::Integer,
        TokenType::Double,
        TokenType::Double,
        TokenType::Double,
        TokenType::Eoft
    ]);
}

#[test]
fn radix_literals_are_integers() {
    assert_eq!(
        TokenType::map_raw_token_type(RawToken::Hexadecimal, "#ff"),
        (TokenType::Integer, "#ff".to_string())
    );
    assert_eq!(
        TokenType::map_raw_token_type(RawToken::Binary, "##101"),
        (TokenType::Integer, "##101".to_string())
    );
    assert_eq!(
        TokenType::map_raw_token_type(RawToken::Octal, "#o17"),
        (TokenType::Integer, "#o17".to_string())
    );
    assert_eq!(kinds("#ff ##101 #o17 #1.5"), vec![
        TokenType::Integer,
        TokenType::Integer,
        TokenType::Integer,
        TokenType::Integer,
        TokenType::Double,
        TokenType::Eoft
    ]);
    assert_eq!(values("#ff ##101 #o17"), vec!["#ff", "##101", "#o17", ""]);
}

#[test]
fn exponent_and_suffix_without_point_are_integers() {
    assert_eq!(kinds("1e10 5f 2.5e-3i"), vec![
        TokenType::Integer,
        TokenType::Integer,
        TokenType::Double,
        TokenType::Eoft
    ]);
    assert_eq!(values("1e10 5f 2.5e-3i"), vec!["1e10", "5f", "2.5e-3i", ""]);
}

#[test]
fn string_literal_loses_its_quotes() {
    let list = lex("\"abc\"");
    assert_eq!(list.tokens[0].token_type, TokenType::String);
    assert_eq!(list.tokens[0].value, "abc");
    assert_eq!(
        TokenType::map_raw_token_type(RawToken::STRING, "\"abc\""),
        (TokenType::String, "abc".to_string())
    );
}

#[test]
fn string_escapes_pass_through() {
    let list = lex(r#""a\"b""#);
    assert_eq!(list.tokens.len(), 2);
    assert_eq!(list.tokens[0].token_type, TokenType::String);
    assert_eq!(list.tokens[0].value, r#"a\"b"#);
    assert_eq!(values(r#""""#), vec!["", ""]);
}

#[test]
fn char_literals() {
    assert_eq!(values("'c' '\\n' '\\''"), vec!["c", "\\n", "\\'", ""]);
    assert_eq!(kinds("'c'"), vec![TokenType::Char, TokenType::Eoft]);
}

#[test]
fn plus_equal_is_one_token() {
    assert_eq!(kinds("+="), vec![TokenType::PlusEqual, TokenType::Eoft]);
}

#[test]
fn longest_operators_win() {
    assert_eq!(kinds("++ -- -= <= >= != ^= %= || && + - < > ! ^ % | & = * / : ,"), vec![
        TokenType::PlusPlus,
        TokenType::MinusMinus,
        TokenType::MinusEqual,
        TokenType::LessEqual,
        TokenType::GreaterEqual,
        TokenType::NotEqual,
        TokenType::XorEqual,
        TokenType::PercentEqual,
        TokenType::OrOr,
        TokenType::AndAnd,
        TokenType::Plus,
        TokenType::Minus,
        TokenType::Less,
        TokenType::Greater,
        TokenType::Not,
        TokenType::Xor,
        TokenType::Percent,
        TokenType::Or,
        TokenType::And,
        TokenType::Equal,
        TokenType::Star,
        TokenType::Divide,
        TokenType::Colon,
        TokenType::Comma,
        TokenType::Eoft
    ]);
    assert_eq!(kinds("+++"), vec![TokenType::PlusPlus, TokenType::Plus, TokenType::Eoft]);
}

#[test]
fn brackets_and_dot() {
    assert_eq!(kinds("()[]{}."), vec![
        TokenType::OpenParenthesis,
        TokenType::CloseParenthesis,
        TokenType::OpenSqParenthesis,
        TokenType::CloseSqParenthesis,
        TokenType::OpenCurParenthesis,
        TokenType::CloseCurParenthesis,
        TokenType::Dot,
        TokenType::Eoft
    ]);
}

#[test]
fn second_line_starts_at_column_zero() {
    let list = lex("ab\ncd");
    assert_eq!(list.tokens[1].value, "cd");
    assert_eq!(loc(&list.tokens[1]), (2, 0));
    assert_eq!(loc(&list.tokens[0]), (1, 0));
    assert_eq!(loc(&list.tokens[2]), (2, 2));
}

#[test]
fn columns_count_characters_not_bytes() {
    let list = lex("é x");
    assert_eq!(loc(&list.tokens[1]), (1, 2));
}

#[test]
fn var_declaration_scenario() {
    let list = lex("var x = 10");
    assert_eq!(kinds("var x = 10"), vec![
        TokenType::KVar,
        TokenType::Identifier,
        TokenType::Equal,
        TokenType::Integer,
        TokenType::Eoft
    ]);
    assert_eq!(list.tokens[1].value, "x");
    assert_eq!(list.tokens[3].value, "10");
    assert_eq!(loc(&list.tokens[4]), (1, 10));
}

#[test]
fn string_plus_char_scenario() {
    let list = lex("\"hi\" + 'c'");
    assert_eq!(kinds("\"hi\" + 'c'"), vec![
        TokenType::String,
        TokenType::Plus,
        TokenType::Char,
        TokenType::Eoft
    ]);
    assert_eq!(list.tokens[0].value, "hi");
    assert_eq!(list.tokens[2].value, "c");
}

#[test]
fn booleans_and_type_names() {
    assert_eq!(kinds("true false trueish i32 i32x string bool char"), vec![
        TokenType::Boolean,
        TokenType::Boolean,
        TokenType::Identifier,
        TokenType::TypeI32,
        TokenType::Identifier,
        TokenType::TypeString,
        TokenType::TypeBool,
        TokenType::TypeChar,
        TokenType::Eoft
    ]);
    assert_eq!(values("true i8"), vec!["true", "", ""]);
}

#[test]
fn unicode_identifiers_are_never_keywords() {
    let list = lex("héllo αβγ a² _x1");
    let k: Vec<TokenType> = list.tokens.iter().map(|t| t.token_type).collect();
    assert_eq!(k, vec![
        TokenType::Identifier,
        TokenType::Identifier,
        TokenType::Identifier,
        TokenType::Identifier,
        TokenType::Eoft
    ]);
    assert_eq!(values("héllo αβγ a² _x1"), vec!["héllo", "αβγ", "a²", "_x1", ""]);
    assert_eq!(
        TokenType::map_raw_token_type(RawToken::IdentifierUnicode, "main"),
        (TokenType::Identifier, "main".to_string())
    );
}

#[test]
fn comments_are_kept_as_comment_tokens() {
    assert_eq!(values("// line\nx /* a * b */ y"), vec!["// line", "x", "/* a * b */", "y", ""]);
    assert_eq!(kinds("/**/"), vec![TokenType::Comment, TokenType::Eoft]);
}

#[test]
fn unknown_characters_become_single_tokens() {
    assert_eq!(kinds("@$"), vec![TokenType::Unknown, TokenType::Unknown, TokenType::Eoft]);
    assert_eq!(values("@$"), vec!["@", "$", ""]);
    assert_eq!(kinds("\r"), vec![TokenType::Unknown, TokenType::Eoft]);
}

#[test]
fn unterminated_constructs_do_not_abort() {
    assert_eq!(values("\"ab"), vec!["\"", "ab", ""]);
    assert_eq!(kinds("\"ab"), vec![TokenType::Unknown, TokenType::Identifier, TokenType::Eoft]);
    assert_eq!(kinds("/* x"), vec![
        TokenType::Divide,
        TokenType::Star,
        TokenType::Identifier,
        TokenType::Eoft
    ]);
    assert_eq!(kinds("'ab'"), vec![
        TokenType::Unknown,
        TokenType::Identifier,
        TokenType::Unknown,
        TokenType::Eoft
    ]);
    assert_eq!(kinds("#"), vec![TokenType::Unknown, TokenType::Eoft]);
}

#[test]
fn location_renderings() {
    let l = CodeSourceLocation::new(3, 17);
    assert_eq!(l.line, 3);
    assert_eq!(l.column, 17);
    assert_eq!(l.to_compact_string(), "(ln: 3, cln: 17)");
    assert_eq!(l.to_verbose_string(), "(line: 3, column: 17)");
    assert_eq!(CodeSourceLocation::new(0, 100).to_compact_string(), "(ln: 0, cln: 100)");
}

#[test]
fn token_renderings() {
    let t = Token::new(TokenType::Integer, "42".to_string(), CodeSourceLocation::new(1, 4));
    assert_eq!(t.to_compact_string(), "(typ: INT, val: '42', sl: (ln: 1, cln: 4))");
    assert_eq!(
        t.to_verbose_string(),
        "Token(type: Integer, value: '42', sourceLocation: (line: 1, column: 4))"
    );
    let e = Token::new_with_empty_value(TokenType::Eoft, CodeSourceLocation::new(2, 0));
    assert_eq!(e.value, "");
    assert_eq!(e.to_compact_string(), "(typ: EOF, sl: (ln: 2, cln: 0))");
    assert_eq!(e.to_verbose_string(), "Token(type: Eoft, sourceLocation: (line: 2, column: 0))");
}

#[test]
fn kind_names() {
    assert_eq!(TokenType::KBreak.compact_to_string(), "BREAK");
    assert_eq!(TokenType::TypeBool.compact_to_string(), "BOOL");
    assert_eq!(TokenType::PlusEqual.compact_to_string(), "PLUSEQUAL_OP");
    assert_eq!(TokenType::CloseCurParenthesis.name(), "CloseCurParenthesis");
}

#[test]
fn token_queries() {
    let t = Token::new(TokenType::Plus, String::new(), CodeSourceLocation::new(1, 0));
    assert!(t.is_type(&TokenType::Plus));
    assert!(!t.is_type(&TokenType::Minus));
    assert!(t.is_type_any_of(&[TokenType::Minus, TokenType::Plus]));
    assert!(!t.is_type_any_of(&[TokenType::Minus, TokenType::Star]));
    assert!(!t.is_type_any_of(&[]));
    let u = Token::new(TokenType::String, "é€".to_string(), CodeSourceLocation::new(1, 0));
    assert_eq!(u.value_size(), 5);
    assert_eq!(t.value_size(), 0);
}

#[test]
fn operator_classification_has_empty_value() {
    assert_eq!(
        TokenType::map_raw_token_type(RawToken::Slash, "/"),
        (TokenType::Divide, String::new())
    );
    assert_eq!(
        TokenType::map_raw_token_type(RawToken::TYPEU64, "u64"),
        (TokenType::TypeU64, String::new())
    );
    assert_eq!(
        TokenType::map_raw_token_type(RawToken::Unknown, "@"),
        (TokenType::Unknown, "@".to_string())
    );
    assert_eq!(
        TokenType::map_raw_token_type(RawToken::SingleLineComment, "// x"),
        (TokenType::Comment, "// x".to_string())
    );
}

#[test]
fn empty_token_list() {
    let l = TokenList::new("f.vn".to_string());
    assert_eq!(l.file_name, "f.vn");
    assert!(l.tokens.is_empty());
}
