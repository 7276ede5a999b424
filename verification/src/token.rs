//! Tokens: their kinds, their text and their place in the source.

use vstd::prelude::*;
use vstd::string::*;
use crate::text::{decimal, push_char, spec_decimal, str_equals};

verus! {

/// The kind of a token.
#[derive(Debug, Clone, Copy, Hash, PartialEq, Eq, Structural)]
pub enum TokenType {
    AMPERSAND,
    ASSIGN,
    ASTERISK,
    AND,
    AT,
    BACKSLASH,
    BANG,
    COLON,
    COMMA,
    COMMENT,
    COMMENTBLOCK,
    DECR,
    DOLLAR,
    DOT,
    DASTERISK,
    DQUOTE,
    EOF,
    EQ,
    EXPONENT,
    FORWARDSLASH,
    GT,
    GTE,
    HASH,
    IDENT,
    ILLEGAL,
    INT,
    INCR,
    KEYWORD(KeywordTokenType),
    LBRACE,
    LBRACK,
    LPAREN,
    LSHIFT,
    LT,
    LTE,
    MINUS,
    NEQ,
    OR,
    PERCENT,
    PIPE,
    PLUS,
    QUESTION,
    RANGE,
    IRANGE,
    RBRACE,
    RBRACK,
    RPAREN,
    RSHIFT,
    SEMICOLON,
    SCOPE,
    SQUOTE,
    STRING,
    TILDE,
    UNDERSCORE,
    ARROW,
}

/// The reserved words of the language.
#[derive(Debug, Clone, Copy, Hash, PartialEq, Eq, Structural)]
pub enum KeywordTokenType {
    FUN,
    LET,
    CONST,
    VAR,
    TRUE,
    FALSE,
    IF,
    ELSE,
    END,
    DO,
    NULL,
    RETURN,
    DEFER,
    ERRDEFER,
}

impl KeywordTokenType {
    /// The spelling of the keyword.
    pub open spec fn spec_literal(self) -> Seq<char> {
        match self {
            KeywordTokenType::FUN => "fn"@,
            KeywordTokenType::LET => "let"@,
            KeywordTokenType::CONST => "const"@,
            KeywordTokenType::VAR => "var"@,
            KeywordTokenType::TRUE => "true"@,
            KeywordTokenType::FALSE => "false"@,
            KeywordTokenType::IF => "if"@,
            KeywordTokenType::ELSE => "else"@,
            KeywordTokenType::END => "end"@,
            KeywordTokenType::DO => "do"@,
            KeywordTokenType::NULL => "null"@,
            KeywordTokenType::RETURN => "return"@,
            KeywordTokenType::DEFER => "defer"@,
            KeywordTokenType::ERRDEFER => "errdefer"@,
        }
    }

    /// The keyword that a word spells, if it spells one.
    pub open spec fn spec_from_str(word: Seq<char>) -> Option<KeywordTokenType> {
        if word == "fn"@ {
            Some(KeywordTokenType::FUN)
        } else if word == "let"@ {
            Some(KeywordTokenType::LET)
        } else if word == "const"@ {
            Some(KeywordTokenType::CONST)
        } else if word == "var"@ {
            Some(KeywordTokenType::VAR)
        } else if word == "true"@ {
            Some(KeywordTokenType::TRUE)
        } else if word == "false"@ {
            Some(KeywordTokenType::FALSE)
        } else if word == "if"@ {
            Some(KeywordTokenType::IF)
        } else if word == "else"@ {
            Some(KeywordTokenType::ELSE)
        } else if word == "end"@ {
            Some(KeywordTokenType::END)
        } else if word == "do"@ {
            Some(KeywordTokenType::DO)
        } else if word == "null"@ {
            Some(KeywordTokenType::NULL)
        } else if word == "return"@ {
            Some(KeywordTokenType::RETURN)
        } else if word == "defer"@ {
            Some(KeywordTokenType::DEFER)
        } else if word == "errdefer"@ {
            Some(KeywordTokenType::ERRDEFER)
        } else {
            None
        }
    }

    /// The spelling of the keyword.
    pub fn to_literal(&self) -> (s: String)
        ensures
            s@ == self.spec_literal(),
    {
        match self {
            KeywordTokenType::FUN => String::from_str("fn"),
            KeywordTokenType::LET => String::from_str("let"),
            KeywordTokenType::CONST => String::from_str("const"),
            KeywordTokenType::VAR => String::from_str("var"),
            KeywordTokenType::TRUE => String::from_str("true"),
            KeywordTokenType::FALSE => String::from_str("false"),
            KeywordTokenType::IF => String::from_str("if"),
            KeywordTokenType::ELSE => String::from_str("else"),
            KeywordTokenType::END => String::from_str("end"),
            KeywordTokenType::DO => String::from_str("do"),
            KeywordTokenType::NULL => String::from_str("null"),
            KeywordTokenType::RETURN => String::from_str("return"),
            KeywordTokenType::DEFER => String::from_str("defer"),
            KeywordTokenType::ERRDEFER => String::from_str("errdefer"),
        }
    }

    /// The keyword that a word spells, if it spells one.
    pub fn from_str(identifier: &str) -> (r: Option<KeywordTokenType>)
        ensures
            r == Self::spec_from_str(identifier@),
    {
        if str_equals(identifier, "fn") {
            Some(KeywordTokenType::FUN)
        } else if str_equals(identifier, "let") {
            Some(KeywordTokenType::LET)
        } else if str_equals(identifier, "const") {
            Some(KeywordTokenType::CONST)
        } else if str_equals(identifier, "var") {
            Some(KeywordTokenType::VAR)
        } else if str_equals(identifier, "true") {
            Some(KeywordTokenType::TRUE)
        } else if str_equals(identifier, "false") {
            Some(KeywordTokenType::FALSE)
        } else if str_equals(identifier, "if") {
            Some(KeywordTokenType::IF)
        } else if str_equals(identifier, "else") {
            Some(KeywordTokenType::ELSE)
        } else if str_equals(identifier, "end") {
            Some(KeywordTokenType::END)
        } else if str_equals(identifier, "do") {
            Some(KeywordTokenType::DO)
        } else if str_equals(identifier, "null") {
            Some(KeywordTokenType::NULL)
        } else if str_equals(identifier, "return") {
            Some(KeywordTokenType::RETURN)
        } else if str_equals(identifier, "defer") {
            Some(KeywordTokenType::DEFER)
        } else if str_equals(identifier, "errdefer") {
            Some(KeywordTokenType::ERRDEFER)
        } else {
            None
        }
    }
}

impl TokenType {
    /// The text that stands for the kind in messages: the spelling of an
    /// operator, delimiter or keyword, and a placeholder for the others.
    pub open spec fn spec_literal(self) -> Seq<char> {
        match self {
            TokenType::AMPERSAND => "&"@,
            TokenType::ASSIGN => "="@,
            TokenType::ASTERISK => "*"@,
            TokenType::AND => "&&"@,
            TokenType::AT => "@"@,
            TokenType::BACKSLASH => "\\"@,
            TokenType::BANG => "!"@,
            TokenType::COLON => ":"@,
            TokenType::COMMA => ","@,
            TokenType::COMMENT => "//"@,
            TokenType::COMMENTBLOCK => "/*"@,
            TokenType::DECR => "--"@,
            TokenType::DOLLAR => "$"@,
            TokenType::DOT => "."@,
            TokenType::DASTERISK => "**"@,
            TokenType::DQUOTE => "\""@,
            TokenType::EOF => "<EOF>"@,
            TokenType::EQ => "=="@,
            TokenType::EXPONENT => "^"@,
            TokenType::FORWARDSLASH => "/"@,
            TokenType::GT => ">"@,
            TokenType::GTE => ">="@,
            TokenType::HASH => "#"@,
            TokenType::IDENT => "IDENT (e.g: first_name)"@,
            TokenType::ILLEGAL => "???"@,
            TokenType::INT => "e.g: 10"@,
            TokenType::INCR => "++"@,
            TokenType::KEYWORD(kw) => kw.spec_literal(),
            TokenType::LBRACE => "{"@,
            TokenType::LBRACK => "["@,
            TokenType::LPAREN => "("@,
            TokenType::LSHIFT => "<<"@,
            TokenType::LT => "<"@,
            TokenType::LTE => "<="@,
            TokenType::MINUS => "-"@,
            TokenType::NEQ => "!="@,
            TokenType::OR => "||"@,
            TokenType::PERCENT => "%"@,
            TokenType::PIPE => "|"@,
            TokenType::PLUS => "+"@,
            TokenType::QUESTION => "?"@,
            TokenType::RANGE => ".."@,
            TokenType::IRANGE => "..="@,
            TokenType::RBRACE => "}"@,
            TokenType::RBRACK => "]"@,
            TokenType::RPAREN => ")"@,
            TokenType::RSHIFT => ">>"@,
            TokenType::SEMICOLON => ";"@,
            TokenType::SCOPE => "::"@,
            TokenType::SQUOTE => "'"@,
            TokenType::STRING => "\"[...]\""@,
            TokenType::TILDE => "~"@,
            TokenType::UNDERSCORE => "_"@,
            TokenType::ARROW => "->"@,
        }
    }

    /// The delimiter that pairs with the given one, if it is a delimiter.
    pub open spec fn spec_matching_delimiter(delimiter: TokenType) -> Option<TokenType> {
        match delimiter {
            TokenType::COMMENTBLOCK => Some(TokenType::COMMENTBLOCK),
            TokenType::DQUOTE => Some(TokenType::DQUOTE),
            TokenType::LBRACE => Some(TokenType::RBRACE),
            TokenType::LBRACK => Some(TokenType::RBRACK),
            TokenType::LPAREN => Some(TokenType::RPAREN),
            TokenType::PIPE => Some(TokenType::PIPE),
            TokenType::RBRACE => Some(TokenType::LBRACE),
            TokenType::RBRACK => Some(TokenType::LBRACK),
            TokenType::RPAREN => Some(TokenType::LPAREN),
            TokenType::SQUOTE => Some(TokenType::SQUOTE),
            _ => None,
        }
    }

    /// Whether the kind opens or closes a delimited region.
    pub open spec fn spec_is_delimiter(self) -> bool {
        Self::spec_matching_delimiter(self) is Some
    }

    /// The text that stands for the kind in messages.
    pub fn to_literal(&self) -> (s: String)
        ensures
            s@ == self.spec_literal(),
    {
        match self {
            TokenType::AMPERSAND => String::from_str("&"),
            TokenType::ASSIGN => String::from_str("="),
            TokenType::ASTERISK => String::from_str("*"),
            TokenType::AND => String::from_str("&&"),
            TokenType::AT => String::from_str("@"),
            TokenType::BACKSLASH => String::from_str("\\"),
            TokenType::BANG => String::from_str("!"),
            TokenType::COLON => String::from_str(":"),
            TokenType::COMMA => String::from_str(","),
            TokenType::COMMENT => String::from_str("//"),
            TokenType::COMMENTBLOCK => String::from_str("/*"),
            TokenType::DECR => String::from_str("--"),
            TokenType::DOLLAR => String::from_str("$"),
            TokenType::DOT => String::from_str("."),
            TokenType::DASTERISK => String::from_str("**"),
            TokenType::DQUOTE => String::from_str("\""),
            TokenType::EOF => String::from_str("<EOF>"),
            TokenType::EQ => String::from_str("=="),
            TokenType::EXPONENT => String::from_str("^"),
            TokenType::FORWARDSLASH => String::from_str("/"),
            TokenType::GT => String::from_str(">"),
            TokenType::GTE => String::from_str(">="),
            TokenType::HASH => String::from_str("#"),
            TokenType::IDENT => String::from_str("IDENT (e.g: first_name)"),
            TokenType::ILLEGAL => String::from_str("???"),
            TokenType::INT => String::from_str("e.g: 10"),
            TokenType::INCR => String::from_str("++"),
            TokenType::KEYWORD(kw) => kw.to_literal(),
            TokenType::LBRACE => String::from_str("{"),
            TokenType::LBRACK => String::from_str("["),
            TokenType::LPAREN => String::from_str("("),
            TokenType::LSHIFT => String::from_str("<<"),
            TokenType::LT => String::from_str("<"),
            TokenType::LTE => String::from_str("<="),
            TokenType::MINUS => String::from_str("-"),
            TokenType::NEQ => String::from_str("!="),
            TokenType::OR => String::from_str("||"),
            TokenType::PERCENT => String::from_str("%"),
            TokenType::PIPE => String::from_str("|"),
            TokenType::PLUS => String::from_str("+"),
            TokenType::QUESTION => String::from_str("?"),
            TokenType::RANGE => String::from_str(".."),
            TokenType::IRANGE => String::from_str("..="),
            TokenType::RBRACE => String::from_str("}"),
            TokenType::RBRACK => String::from_str("]"),
            TokenType::RPAREN => String::from_str(")"),
            TokenType::RSHIFT => String::from_str(">>"),
            TokenType::SEMICOLON => String::from_str(";"),
            TokenType::SCOPE => String::from_str("::"),
            TokenType::SQUOTE => String::from_str("'"),
            TokenType::STRING => String::from_str("\"[...]\""),
            TokenType::TILDE => String::from_str("~"),
            TokenType::UNDERSCORE => String::from_str("_"),
            TokenType::ARROW => String::from_str("->"),
        }
    }

    /// The delimiter that pairs with the given one, if it is a delimiter.
    pub fn matching_delimiter(delimiter: TokenType) -> (r: Option<TokenType>)
        ensures
            r == Self::spec_matching_delimiter(delimiter),
    {
        match delimiter {
            TokenType::COMMENTBLOCK => Some(TokenType::COMMENTBLOCK),
            TokenType::DQUOTE => Some(TokenType::DQUOTE),
            TokenType::LBRACE => Some(TokenType::RBRACE),
            TokenType::LBRACK => Some(TokenType::RBRACK),
            TokenType::LPAREN => Some(TokenType::RPAREN),
            TokenType::PIPE => Some(TokenType::PIPE),
            TokenType::RBRACE => Some(TokenType::LBRACE),
            TokenType::RBRACK => Some(TokenType::LBRACK),
            TokenType::RPAREN => Some(TokenType::LPAREN),
            TokenType::SQUOTE => Some(TokenType::SQUOTE),
            _ => None,
        }
    }
}

/// A token: its kind, its text, and where it starts (line and column count
/// from one).
#[derive(Debug)]
pub struct Token {
    pub t: TokenType,
    pub literal: String,
    pub line: usize,
    pub column: usize,
    pub file: Option<String>,
}

/// What a token is, as plain values.
pub struct TokenView {
    pub t: TokenType,
    pub literal: Seq<char>,
    pub line: nat,
    pub column: nat,
    pub file: Option<Seq<char>>,
}

impl TokenView {
    /// The place of the token as text: `file:line:column`, or `line:column`
    /// when no file is known.
    pub open spec fn location(self) -> Seq<char> {
        let place = spec_decimal(self.line) + seq![':'] + spec_decimal(self.column);
        match self.file {
            Some(file) => file + seq![':'] + place,
            None => place,
        }
    }
}

/// The view of an optional string.
pub open spec fn spec_opt_text(s: Option<String>) -> Option<Seq<char>> {
    match s {
        Some(text) => Some(text@),
        None => None,
    }
}

/// A copy of an optional string.
pub fn clone_opt_text(s: &Option<String>) -> (r: Option<String>)
    ensures
        r == *s,
{
    match s {
        Some(text) => Some(text.clone()),
        None => None,
    }
}

impl View for Token {
    type V = TokenView;

    open spec fn view(&self) -> TokenView {
        TokenView {
            t: self.t,
            literal: self.literal@,
            line: self.line as nat,
            column: self.column as nat,
            file: spec_opt_text(self.file),
        }
    }
}

impl Clone for Token {
    fn clone(&self) -> (r: Self)
        ensures
            r == *self,
    {
        Token {
            t: self.t,
            literal: self.literal.clone(),
            line: self.line,
            column: self.column,
            file: clone_opt_text(&self.file),
        }
    }
}

impl Token {
    pub fn new(t: TokenType, literal: String, line: usize, column: usize, file: Option<String>) -> (r:
        Self)
        ensures
            r == (Token { t, literal, line, column, file }),
    {
        Token { t, literal, line, column, file }
    }

    /// The place of the token as text: `file:line:column`, or `line:column`
    /// when no file is known.
    pub fn get_location(&self) -> (s: String)
        ensures
            s@ == self@.location(),
    {
        let mut s = String::new();
        match &self.file {
            Some(file) => {
                s.append(file.as_str());
                push_char(&mut s, ':');
            },
            None => {},
        }
        let line = decimal(self.line as u64);
        s.append(line.as_str());
        push_char(&mut s, ':');
        let column = decimal(self.column as u64);
        s.append(column.as_str());
        proof {
            let place = spec_decimal(self.line as nat) + seq![':'] + spec_decimal(
                self.column as nat,
            );
            if self.file is Some {
                assert(s@ =~= self.file->0@ + seq![':'] + place);
            } else {
                assert(s@ =~= place);
            }
        }
        s
    }
}

} // verus!
