use eheh::lexer::Lexer;
use eheh::token::{KeywordTokenType, Token, TokenType};

fn scan_kinds(source: &str) -> Vec<TokenType> {
    let mut lexer = Lexer::new(source);
    let mut kinds = Vec::new();
    loop {
        let token = lexer.scan();
        let done = token.t == TokenType::EOF;
        kinds.push(token.t);
        if done {
            break;
        }
    }
    kinds
}

#[test]
fn compound_operators_win_over_their_first_character() {
    assert_eq!(
        scan_kinds("== = <= < && & .. . -> - ++ +"),
        vec![
            TokenType::EQ,
            TokenType::ASSIGN,
            TokenType::LTE,
            TokenType::LT,
            TokenType::AND,
            TokenType::AMPERSAND,
            TokenType::RANGE,
            TokenType::DOT,
            TokenType::ARROW,
            TokenType::MINUS,
            TokenType::INCR,
            TokenType::PLUS,
            TokenType::EOF,
        ]
    );
    assert_eq!(
        scan_kinds("!= ! >= >> > << || | :: : --"),
        vec![
            TokenType::NEQ,
            TokenType::BANG,
            TokenType::GTE,
            TokenType::RSHIFT,
            TokenType::GT,
            TokenType::LSHIFT,
            TokenType::OR,
            TokenType::PIPE,
            TokenType::SCOPE,
            TokenType::COLON,
            TokenType::DECR,
            TokenType::EOF,
        ]
    );
}

#[test]
fn powers_and_inclusive_ranges_are_tokens() {
    assert_eq!(
        scan_kinds("a ** b * c ..= d .. e ..== f"),
        vec![
            TokenType::IDENT,
            TokenType::DASTERISK,
            TokenType::IDENT,
            TokenType::ASTERISK,
            TokenType::IDENT,
            TokenType::IRANGE,
            TokenType::IDENT,
            TokenType::RANGE,
            TokenType::IDENT,
            TokenType::IRANGE,
            TokenType::ASSIGN,
            TokenType::IDENT,
            TokenType::EOF,
        ]
    );
    let mut lexer = Lexer::new("1..=2**3");
    assert_eq!(lexer.scan().literal, "1");
    let range = lexer.scan();
    assert_eq!((range.t, range.literal.as_str(), range.column), (TokenType::IRANGE, "..=", 2));
    assert_eq!(lexer.scan().literal, "2");
    let power = lexer.scan();
    assert_eq!((power.t, power.literal.as_str(), power.column), (TokenType::DASTERISK, "**", 6));
    assert_eq!(lexer.scan().literal, "3");
}

#[test]
fn a_comment_is_no_division() {
    assert_eq!(
        scan_kinds("8 / 2 // the rest is a comment / 4\n3"),
        vec![
            TokenType::INT,
            TokenType::FORWARDSLASH,
            TokenType::INT,
            TokenType::INT,
            TokenType::EOF,
        ]
    );
    assert_eq!(
        scan_kinds("1 /* a\n block */ 2 /* open"),
        vec![TokenType::INT, TokenType::INT, TokenType::EOF]
    );
}

#[test]
fn compound_tokens_carry_both_characters() {
    let mut lexer = Lexer::new("a<=b");
    assert_eq!(lexer.scan().literal, "a");
    let token = lexer.scan();
    assert_eq!(token.t, TokenType::LTE);
    assert_eq!(token.literal, "<=");
    assert_eq!(token.column, 2);
    assert_eq!(lexer.scan().literal, "b");
}

#[test]
fn scanning_after_the_end_gives_the_same_end() {
    let mut lexer = Lexer::new("x  ");
    assert_eq!(lexer.scan().t, TokenType::IDENT);
    let first = lexer.scan();
    assert_eq!(first.t, TokenType::EOF);
    assert_eq!(first.literal, "\0");
    for _ in 0..5 {
        let again = lexer.scan();
        assert_eq!(again.t, TokenType::EOF);
        assert_eq!(again.literal, first.literal);
        assert_eq!(again.line, first.line);
        assert_eq!(again.column, first.column);
        assert_eq!(lexer.position, 3);
    }
}

#[test]
fn a_nul_character_ends_the_input() {
    let mut lexer = Lexer::new("a\0b");
    assert_eq!(lexer.scan().t, TokenType::IDENT);
    assert_eq!(lexer.scan().t, TokenType::EOF);
    assert_eq!(lexer.scan().t, TokenType::EOF);
    assert_eq!(lexer.position, 1);
}

#[test]
fn the_text_of_a_token_is_a_slice_of_the_source() {
    let source = "let total = add(first_1, 42) >= \"text\"; // done";
    let chars: Vec<char> = source.chars().collect();
    let mut lexer = Lexer::new(source);
    let mut seen = 0;
    loop {
        let token: Token = lexer.scan();
        if token.t == TokenType::EOF {
            break;
        }
        // on the first line the column is the offset plus one
        let mut start = token.column - 1;
        if token.t == TokenType::STRING {
            start += 1;
        }
        let length = token.literal.chars().count();
        let slice: String = chars[start..start + length].iter().collect();
        assert_eq!(slice, token.literal);
        seen += 1;
    }
    assert_eq!(seen, 12);
}

#[test]
fn lines_and_columns_count_from_one() {
    let mut lexer = Lexer::new("a\n  b\rc");
    let a = lexer.scan();
    assert_eq!((a.line, a.column), (1, 1));
    let b = lexer.scan();
    // the column is measured from the offset of the last line break
    assert_eq!((b.line, b.column), (2, 4));
    let c = lexer.scan();
    assert_eq!((c.line, c.column), (3, 2));
    assert_eq!(a.file, None);
}

#[test]
fn get_line_gives_the_lines_of_the_source() {
    let lexer = Lexer::new("first\nsecond\n\nfourth");
    assert_eq!(lexer.get_line(0), None);
    assert_eq!(lexer.get_line(1), Some("first".to_string()));
    assert_eq!(lexer.get_line(2), Some("second".to_string()));
    assert_eq!(lexer.get_line(3), Some("".to_string()));
    assert_eq!(lexer.get_line(4), Some("fourth".to_string()));
    assert_eq!(lexer.get_line(5), None);
    let empty = Lexer::new("");
    assert_eq!(empty.get_line(1), Some("".to_string()));
    assert_eq!(empty.get_line(2), None);
    let ends_in_break = Lexer::new("a\n");
    assert_eq!(ends_in_break.get_line(2), Some("".to_string()));
    assert_eq!(ends_in_break.get_line(3), None);
}

#[test]
fn every_keyword_is_recognised() {
    let words = [
        ("fn", KeywordTokenType::FUN),
        ("let", KeywordTokenType::LET),
        ("const", KeywordTokenType::CONST),
        ("var", KeywordTokenType::VAR),
        ("true", KeywordTokenType::TRUE),
        ("false", KeywordTokenType::FALSE),
        ("if", KeywordTokenType::IF),
        ("else", KeywordTokenType::ELSE),
        ("end", KeywordTokenType::END),
        ("do", KeywordTokenType::DO),
        ("null", KeywordTokenType::NULL),
        ("return", KeywordTokenType::RETURN),
        ("defer", KeywordTokenType::DEFER),
        ("errdefer", KeywordTokenType::ERRDEFER),
    ];
    for (word, keyword) in words {
        assert_eq!(KeywordTokenType::from_str(word), Some(keyword));
        assert_eq!(keyword.to_literal(), word);
        assert_eq!(scan_kinds(word)[0], TokenType::KEYWORD(keyword));
        assert_eq!(TokenType::KEYWORD(keyword).to_literal(), word);
    }
    assert_eq!(KeywordTokenType::from_str("lets"), None);
    assert_eq!(KeywordTokenType::from_str(""), None);
    assert_eq!(scan_kinds("iffy _x x9")[0..3], [TokenType::IDENT, TokenType::IDENT, TokenType::IDENT]);
}

#[test]
fn digits_that_do_not_fit_are_illegal() {
    let mut lexer = Lexer::new("9223372036854775807 9223372036854775808 007");
    let fits = lexer.scan();
    assert_eq!(fits.t, TokenType::INT);
    assert_eq!(fits.literal, "9223372036854775807");
    let too_big = lexer.scan();
    assert_eq!(too_big.t, TokenType::ILLEGAL);
    assert_eq!(too_big.literal, "9223372036854775808");
    let zeros = lexer.scan();
    assert_eq!(zeros.t, TokenType::INT);
    assert_eq!(zeros.literal, "007");
}

#[test]
fn strings_hold_what_is_between_the_quotes() {
    let mut lexer = Lexer::new("\"a b\" \"\" \"open");
    let first = lexer.scan();
    assert_eq!((first.t, first.literal.as_str()), (TokenType::STRING, "a b"));
    let empty = lexer.scan();
    assert_eq!((empty.t, empty.literal.as_str()), (TokenType::STRING, ""));
    let open = lexer.scan();
    assert_eq!((open.t, open.literal.as_str()), (TokenType::STRING, "open"));
    assert_eq!(lexer.scan().t, TokenType::EOF);
}

#[test]
fn characters_without_meaning_are_illegal() {
    let mut lexer = Lexer::new("é `");
    let first = lexer.scan();
    assert_eq!((first.t, first.literal.as_str()), (TokenType::ILLEGAL, "é"));
    assert_eq!(lexer.scan().t, TokenType::ILLEGAL);
    assert_eq!(
        scan_kinds("^ # @ \\ $ % ? ~ ' ( ) { } [ ] , ;"),
        vec![
            TokenType::EXPONENT,
            TokenType::HASH,
            TokenType::AT,
            TokenType::BACKSLASH,
            TokenType::DOLLAR,
            TokenType::PERCENT,
            TokenType::QUESTION,
            TokenType::TILDE,
            TokenType::SQUOTE,
            TokenType::LPAREN,
            TokenType::RPAREN,
            TokenType::LBRACE,
            TokenType::RBRACE,
            TokenType::LBRACK,
            TokenType::RBRACK,
            TokenType::COMMA,
            TokenType::SEMICOLON,
            TokenType::EOF,
        ]
    );
}

#[test]
fn scan_all_gives_every_token_once() {
    let mut lexer = Lexer::new("a + 1");
    let tokens = lexer.scan_all();
    let kinds: Vec<TokenType> = tokens.iter().map(|t| t.t).collect();
    assert_eq!(
        kinds,
        vec![TokenType::IDENT, TokenType::PLUS, TokenType::INT, TokenType::EOF]
    );
}

#[test]
fn tokens_name_their_place() {
    let bare = Token::new(TokenType::IDENT, "x".to_string(), 12, 7, None);
    assert_eq!(bare.get_location(), "12:7");
    let filed = Token::new(TokenType::IDENT, "x".to_string(), 3, 10, Some("main.eh".to_string()));
    assert_eq!(filed.get_location(), "main.eh:3:10");
    let copy = filed.clone();
    assert_eq!(copy.literal, "x");
    assert_eq!(copy.file, Some("main.eh".to_string()));
}

#[test]
fn delimiters_have_their_pairs() {
    assert_eq!(TokenType::matching_delimiter(TokenType::LPAREN), Some(TokenType::RPAREN));
    assert_eq!(TokenType::matching_delimiter(TokenType::RPAREN), Some(TokenType::LPAREN));
    assert_eq!(TokenType::matching_delimiter(TokenType::LBRACE), Some(TokenType::RBRACE));
    assert_eq!(TokenType::matching_delimiter(TokenType::RBRACK), Some(TokenType::LBRACK));
    assert_eq!(TokenType::matching_delimiter(TokenType::PIPE), Some(TokenType::PIPE));
    assert_eq!(TokenType::matching_delimiter(TokenType::DQUOTE), Some(TokenType::DQUOTE));
    assert_eq!(TokenType::matching_delimiter(TokenType::PLUS), None);
    assert_eq!(TokenType::EOF.to_literal(), "<EOF>");
    assert_eq!(TokenType::IRANGE.to_literal(), "..=");
    assert_eq!(TokenType::BACKSLASH.to_literal(), "\\");
    assert_eq!(TokenType::STRING.to_literal(), "\"[...]\"");
}
