//! The lexer: a single pass over the characters of the source that hands out
//! one token per call.
//!
//! The input ends at its last character or at the first NUL character,
//! whichever comes first; from there on every scan gives `EOF`.

use vstd::prelude::*;
use vstd::string::*;
use crate::text::{
    chars_of, is_digit, is_letter, parse_decimal, push_char, spec_is_digit, spec_is_letter,
    spec_parse_decimal, string_from_chars,
};
use crate::token::{
    KeywordTokenType, Token, TokenType, TokenView,
};

verus! {

/// Where the lexer stands: the offset of the current character, the number
/// of the current line (from one), and the offset of the last line break
/// passed (zero before the first).
pub struct Cursor {
    pub position: nat,
    pub line: nat,
    pub last_new_line: nat,
}

/// What one scan gives: the token, the offset of its first character, and
/// where the lexer stands afterwards.
pub struct Scanned {
    pub token: TokenView,
    pub start: nat,
    pub cursor: Cursor,
}

/// The runs of characters that the lexer takes greedily.
pub enum Run {
    /// Letters, digits and underscores.
    Identifier,
    /// Decimal digits.
    Digits,
    /// Everything up to the end of the line.
    LineComment,
    /// Everything up to the closing double quote.
    StringBody,
    /// Everything up to the next line feed.
    Line,
}

/// The character at an offset; NUL beyond the last one.
pub open spec fn spec_char_at(input: Seq<char>, p: nat) -> char {
    if p < input.len() {
        input[p as int]
    } else {
        '\0'
    }
}

pub open spec fn spec_is_blank(c: char) -> bool {
    c == ' ' || c == '\t'
}

pub open spec fn spec_is_line_break(c: char) -> bool {
    c == '\n' || c == '\r'
}

pub open spec fn spec_is_identifier_start(c: char) -> bool {
    spec_is_letter(c) || c == '_'
}

pub open spec fn spec_is_identifier_part(c: char) -> bool {
    spec_is_letter(c) || spec_is_digit(c) || c == '_'
}

/// Whether a run of the given kind goes on over the character.
pub open spec fn spec_run_keeps(run: Run, c: char) -> bool {
    match run {
        Run::Identifier => spec_is_identifier_part(c),
        Run::Digits => spec_is_digit(c),
        Run::LineComment => !spec_is_line_break(c) && c != '\0',
        Run::StringBody => c != '"' && c != '\0',
        Run::Line => c != '\n',
    }
}

/// The offset at which the run that starts at `from` ends: that of the first
/// character from there on that the run does not keep, or the length of the
/// input.
pub open spec fn spec_run_end(input: Seq<char>, from: nat, run: Run) -> nat
    decreases input.len() - from,
{
    if from < input.len() && spec_run_keeps(run, input[from as int]) {
        spec_run_end(input, from + 1, run)
    } else {
        from
    }
}

/// One character forward, unless the input has ended.
pub open spec fn spec_advance(input: Seq<char>, cur: Cursor) -> Cursor {
    if spec_char_at(input, cur.position) == '\0' {
        cur
    } else {
        Cursor { position: cur.position + 1, ..cur }
    }
}

/// Past blanks and line breaks; each line break counts one line and is
/// remembered as the last one passed.
pub open spec fn spec_skip_whitespace(input: Seq<char>, cur: Cursor) -> Cursor
    decreases input.len() - cur.position,
{
    let c = spec_char_at(input, cur.position);
    if cur.position >= input.len() {
        cur
    } else if spec_is_blank(c) {
        spec_skip_whitespace(input, Cursor { position: cur.position + 1, ..cur })
    } else if spec_is_line_break(c) {
        spec_skip_whitespace(
            input,
            Cursor { position: cur.position + 1, line: cur.line + 1, last_new_line: cur.position },
        )
    } else {
        cur
    }
}

/// The offset behind a block comment whose body starts at `from`: behind the
/// first `*/`, or where the input ends.
pub open spec fn spec_block_comment_end(input: Seq<char>, from: nat) -> nat
    decreases input.len() - from,
{
    if spec_char_at(input, from) == '\0' {
        from
    } else if spec_char_at(input, from) == '*' && spec_char_at(input, from + 1) == '/' {
        from + 2
    } else {
        spec_block_comment_end(input, from + 1)
    }
}

/// The operator that two characters spell together, if they spell one. (The
/// inclusive range `..=` has three characters: it is a range with `=`
/// behind it.)
pub open spec fn spec_compound_kind(c: char, next: char) -> Option<TokenType> {
    if c == '+' && next == '+' {
        Some(TokenType::INCR)
    } else if c == '-' && next == '-' {
        Some(TokenType::DECR)
    } else if c == '-' && next == '>' {
        Some(TokenType::ARROW)
    } else if c == '&' && next == '&' {
        Some(TokenType::AND)
    } else if c == '=' && next == '=' {
        Some(TokenType::EQ)
    } else if c == '!' && next == '=' {
        Some(TokenType::NEQ)
    } else if c == '.' && next == '.' {
        Some(TokenType::RANGE)
    } else if c == '*' && next == '*' {
        Some(TokenType::DASTERISK)
    } else if c == '|' && next == '|' {
        Some(TokenType::OR)
    } else if c == ':' && next == ':' {
        Some(TokenType::SCOPE)
    } else if c == '>' && next == '>' {
        Some(TokenType::RSHIFT)
    } else if c == '>' && next == '=' {
        Some(TokenType::GTE)
    } else if c == '<' && next == '<' {
        Some(TokenType::LSHIFT)
    } else if c == '<' && next == '=' {
        Some(TokenType::LTE)
    } else {
        None
    }
}

/// The kind of the token that a character makes on its own. NUL, the end of
/// the input, makes `EOF`; a character with no meaning makes `ILLEGAL`.
pub open spec fn spec_single_kind(c: char) -> TokenType {
    if c == '+' {
        TokenType::PLUS
    } else if c == '-' {
        TokenType::MINUS
    } else if c == '^' {
        TokenType::EXPONENT
    } else if c == '#' {
        TokenType::HASH
    } else if c == '&' {
        TokenType::AMPERSAND
    } else if c == '=' {
        TokenType::ASSIGN
    } else if c == '*' {
        TokenType::ASTERISK
    } else if c == '@' {
        TokenType::AT
    } else if c == '\\' {
        TokenType::BACKSLASH
    } else if c == '!' {
        TokenType::BANG
    } else if c == '$' {
        TokenType::DOLLAR
    } else if c == '.' {
        TokenType::DOT
    } else if c == '/' {
        TokenType::FORWARDSLASH
    } else if c == '%' {
        TokenType::PERCENT
    } else if c == '|' {
        TokenType::PIPE
    } else if c == '?' {
        TokenType::QUESTION
    } else if c == '~' {
        TokenType::TILDE
    } else if c == '\'' {
        TokenType::SQUOTE
    } else if c == '(' {
        TokenType::LPAREN
    } else if c == ')' {
        TokenType::RPAREN
    } else if c == '{' {
        TokenType::LBRACE
    } else if c == '}' {
        TokenType::RBRACE
    } else if c == '[' {
        TokenType::LBRACK
    } else if c == ']' {
        TokenType::RBRACK
    } else if c == ',' {
        TokenType::COMMA
    } else if c == ':' {
        TokenType::COLON
    } else if c == ';' {
        TokenType::SEMICOLON
    } else if c == '>' {
        TokenType::GT
    } else if c == '<' {
        TokenType::LT
    } else if c == '\0' {
        TokenType::EOF
    } else {
        TokenType::ILLEGAL
    }
}

/// The kind of a word: a keyword where it spells one, else an identifier.
pub open spec fn spec_word_kind(word: Seq<char>) -> TokenType {
    match KeywordTokenType::spec_from_str(word) {
        Some(keyword) => TokenType::KEYWORD(keyword),
        None => TokenType::IDENT,
    }
}

/// The kind of a run of digits: an integer where it fits 64 bits with sign,
/// else illegal.
pub open spec fn spec_number_kind(digits: Seq<char>) -> TokenType {
    if spec_parse_decimal(digits) is Some {
        TokenType::INT
    } else {
        TokenType::ILLEGAL
    }
}

/// The token that starts at the cursor, which stands on neither white space
/// nor a comment.
pub open spec fn spec_scan_token(input: Seq<char>, at: Cursor) -> Scanned {
    let p = at.position;
    let c = spec_char_at(input, p);
    let next = spec_char_at(input, p + 1);
    let column = (p - at.last_new_line + 1) as nat;
    if spec_is_identifier_start(c) {
        let end = spec_run_end(input, p, Run::Identifier);
        let word = input.subrange(p as int, end as int);
        Scanned {
            token: TokenView {
                t: spec_word_kind(word),
                literal: word,
                line: at.line,
                column,
                file: None,
            },
            start: p,
            cursor: Cursor { position: end, ..at },
        }
    } else if spec_is_digit(c) {
        let end = spec_run_end(input, p, Run::Digits);
        let digits = input.subrange(p as int, end as int);
        Scanned {
            token: TokenView {
                t: spec_number_kind(digits),
                literal: digits,
                line: at.line,
                column,
                file: None,
            },
            start: p,
            cursor: Cursor { position: end, ..at },
        }
    } else if c == '"' {
        let end = spec_run_end(input, p + 1, Run::StringBody);
        Scanned {
            token: TokenView {
                t: TokenType::STRING,
                literal: input.subrange(p + 1 as int, end as int),
                line: at.line,
                column,
                file: None,
            },
            start: p,
            cursor: spec_advance(input, Cursor { position: end, ..at }),
        }
    } else {
        match spec_compound_kind(c, next) {
            Some(kind) => if kind == TokenType::RANGE && spec_char_at(input, p + 2) == '=' {
                Scanned {
                    token: TokenView {
                        t: TokenType::IRANGE,
                        literal: seq![c, next, '='],
                        line: at.line,
                        column,
                        file: None,
                    },
                    start: p,
                    cursor: Cursor { position: p + 3, ..at },
                }
            } else {
                Scanned {
                    token: TokenView {
                        t: kind,
                        literal: seq![c, next],
                        line: at.line,
                        column,
                        file: None,
                    },
                    start: p,
                    cursor: Cursor { position: p + 2, ..at },
                }
            },
            None => Scanned {
                token: TokenView {
                    t: spec_single_kind(c),
                    literal: seq![c],
                    line: at.line,
                    column,
                    file: None,
                },
                start: p,
                cursor: spec_advance(input, at),
            },
        }
    }
}

/// The next token from the cursor on: white space and comments are passed
/// over, then one token is taken.
pub open spec fn spec_scan(input: Seq<char>, cur: Cursor) -> Scanned
    decreases input.len() - cur.position,
{
    let at = spec_skip_whitespace(input, cur);
    let p = at.position;
    let c = spec_char_at(input, p);
    let next = spec_char_at(input, p + 1);
    if c == '/' && next == '/' {
        proof {
            lemma_skip_whitespace_forward(input, cur);
            lemma_run_end_bounds(input, p + 2, Run::LineComment);
        }
        spec_scan(input, Cursor { position: spec_run_end(input, p + 2, Run::LineComment), ..at })
    } else if c == '/' && next == '*' {
        proof {
            lemma_skip_whitespace_forward(input, cur);
            lemma_block_comment_end_bounds(input, p + 2);
        }
        spec_scan(input, Cursor { position: spec_block_comment_end(input, p + 2), ..at })
    } else {
        spec_scan_token(input, at)
    }
}

/// The line with the given number, counted from `from` as the start of line
/// one; lines are separated by line feeds.
pub open spec fn spec_line_from(input: Seq<char>, from: nat, n: nat) -> Option<Seq<char>>
    decreases input.len() - from,
{
    let end = spec_run_end(input, from, Run::Line);
    if n == 0 || from > input.len() {
        None
    } else if n == 1 {
        Some(input.subrange(from as int, end as int))
    } else if end >= input.len() {
        None
    } else {
        proof {
            lemma_run_end_bounds(input, from, Run::Line);
        }
        spec_line_from(input, end + 1, (n - 1) as nat)
    }
}

/// The `n`-th line of the source, counted from one.
pub open spec fn spec_get_line(input: Seq<char>, n: nat) -> Option<Seq<char>> {
    spec_line_from(input, 0, n)
}

/// A run ends at or behind its start, within the input, on a character that
/// it does not keep, and keeps every character before that.
pub proof fn lemma_run_end_bounds(input: Seq<char>, from: nat, run: Run)
    ensures
        from <= spec_run_end(input, from, run),
        from <= input.len() ==> spec_run_end(input, from, run) <= input.len(),
        spec_run_end(input, from, run) < input.len() ==> !spec_run_keeps(
            run,
            input[spec_run_end(input, from, run) as int],
        ),
        forall|j: int|
            from <= j < spec_run_end(input, from, run) ==> spec_run_keeps(run, #[trigger] input[j]),
    decreases input.len() - from,
{
    if from < input.len() && spec_run_keeps(run, input[from as int]) {
        lemma_run_end_bounds(input, from + 1, run);
    }
}

/// A run that keeps every character of `[from, to)` and stops at `to` ends
/// at `to`.
pub proof fn lemma_run_end_is(input: Seq<char>, from: nat, to: nat, run: Run)
    requires
        from <= to <= input.len(),
        forall|j: int| from <= j < to ==> spec_run_keeps(run, #[trigger] input[j]),
        to < input.len() ==> !spec_run_keeps(run, input[to as int]),
    ensures
        spec_run_end(input, from, run) == to,
    decreases to - from,
{
    if from < to {
        lemma_run_end_is(input, from + 1, to, run);
    }
}

/// Passing over white space never moves back, stays within the input, and
/// keeps the line count and the last line break within what was passed.
pub proof fn lemma_skip_whitespace_forward(input: Seq<char>, cur: Cursor)
    ensures
        cur.position <= spec_skip_whitespace(input, cur).position,
        cur.position <= input.len() ==> spec_skip_whitespace(input, cur).position <= input.len(),
        cur.last_new_line <= cur.position ==> spec_skip_whitespace(input, cur).last_new_line
            <= spec_skip_whitespace(input, cur).position,
        cur.line <= cur.position + 1 ==> spec_skip_whitespace(input, cur).line
            <= spec_skip_whitespace(input, cur).position + 1,
        cur.line <= spec_skip_whitespace(input, cur).line,
        !spec_is_blank(spec_char_at(input, spec_skip_whitespace(input, cur).position)),
        !spec_is_line_break(spec_char_at(input, spec_skip_whitespace(input, cur).position)),
        spec_skip_whitespace(input, spec_skip_whitespace(input, cur)) == spec_skip_whitespace(
            input,
            cur,
        ),
    decreases input.len() - cur.position,
{
    let c = spec_char_at(input, cur.position);
    if cur.position >= input.len() {
    } else if spec_is_blank(c) {
        lemma_skip_whitespace_forward(input, Cursor { position: cur.position + 1, ..cur });
    } else if spec_is_line_break(c) {
        lemma_skip_whitespace_forward(
            input,
            Cursor { position: cur.position + 1, line: cur.line + 1, last_new_line: cur.position },
        );
    }
}

/// A block comment ends behind its start and within the input.
pub proof fn lemma_block_comment_end_bounds(input: Seq<char>, from: nat)
    ensures
        from <= spec_block_comment_end(input, from),
        from <= input.len() ==> spec_block_comment_end(input, from) <= input.len(),
    decreases input.len() - from,
{
    if spec_char_at(input, from) == '\0' {
    } else if spec_char_at(input, from) == '*' && spec_char_at(input, from + 1) == '/' {
    } else {
        lemma_block_comment_end_bounds(input, from + 1);
    }
}


/// The operator that two characters spell together, if they spell one.
pub fn compound_kind(c: char, next: char) -> (r: Option<TokenType>)
    ensures
        r == spec_compound_kind(c, next),
{
    if c == '+' && next == '+' {
        Some(TokenType::INCR)
    } else if c == '-' && next == '-' {
        Some(TokenType::DECR)
    } else if c == '-' && next == '>' {
        Some(TokenType::ARROW)
    } else if c == '&' && next == '&' {
        Some(TokenType::AND)
    } else if c == '=' && next == '=' {
        Some(TokenType::EQ)
    } else if c == '!' && next == '=' {
        Some(TokenType::NEQ)
    } else if c == '.' && next == '.' {
        Some(TokenType::RANGE)
    } else if c == '*' && next == '*' {
        Some(TokenType::DASTERISK)
    } else if c == '|' && next == '|' {
        Some(TokenType::OR)
    } else if c == ':' && next == ':' {
        Some(TokenType::SCOPE)
    } else if c == '>' && next == '>' {
        Some(TokenType::RSHIFT)
    } else if c == '>' && next == '=' {
        Some(TokenType::GTE)
    } else if c == '<' && next == '<' {
        Some(TokenType::LSHIFT)
    } else if c == '<' && next == '=' {
        Some(TokenType::LTE)
    } else {
        None
    }
}

/// The kind of the token that a character makes on its own.
pub fn single_kind(c: char) -> (r: TokenType)
    ensures
        r == spec_single_kind(c),
{
    if c == '+' {
        TokenType::PLUS
    } else if c == '-' {
        TokenType::MINUS
    } else if c == '^' {
        TokenType::EXPONENT
    } else if c == '#' {
        TokenType::HASH
    } else if c == '&' {
        TokenType::AMPERSAND
    } else if c == '=' {
        TokenType::ASSIGN
    } else if c == '*' {
        TokenType::ASTERISK
    } else if c == '@' {
        TokenType::AT
    } else if c == '\\' {
        TokenType::BACKSLASH
    } else if c == '!' {
        TokenType::BANG
    } else if c == '$' {
        TokenType::DOLLAR
    } else if c == '.' {
        TokenType::DOT
    } else if c == '/' {
        TokenType::FORWARDSLASH
    } else if c == '%' {
        TokenType::PERCENT
    } else if c == '|' {
        TokenType::PIPE
    } else if c == '?' {
        TokenType::QUESTION
    } else if c == '~' {
        TokenType::TILDE
    } else if c == '\'' {
        TokenType::SQUOTE
    } else if c == '(' {
        TokenType::LPAREN
    } else if c == ')' {
        TokenType::RPAREN
    } else if c == '{' {
        TokenType::LBRACE
    } else if c == '}' {
        TokenType::RBRACE
    } else if c == '[' {
        TokenType::LBRACK
    } else if c == ']' {
        TokenType::RBRACK
    } else if c == ',' {
        TokenType::COMMA
    } else if c == ':' {
        TokenType::COLON
    } else if c == ';' {
        TokenType::SEMICOLON
    } else if c == '>' {
        TokenType::GT
    } else if c == '<' {
        TokenType::LT
    } else if c == '\0' {
        TokenType::EOF
    } else {
        TokenType::ILLEGAL
    }
}

/// The lexer. `c` is the character at `position`, NUL once the input has
/// ended; `next_position` is the offset behind it.
#[derive(Debug)]
pub struct Lexer {
    pub input: Vec<char>,
    pub raw_input: String,
    pub line: usize,
    pub last_new_line: usize,
    pub position: usize,
    pub next_position: usize,
    pub c: char,
}

impl Lexer {
    /// Where the lexer stands.
    pub open spec fn cursor(&self) -> Cursor {
        Cursor {
            position: self.position as nat,
            line: self.line as nat,
            last_new_line: self.last_new_line as nat,
        }
    }

    /// The fields agree with each other: the current character is the one at
    /// the position, and the line count and the last line break lie within
    /// what has been passed.
    pub open spec fn wf(&self) -> bool {
        &&& self.raw_input@ == self.input@
        &&& self.input@.len() < usize::MAX
        &&& self.position <= self.input@.len()
        &&& self.next_position == self.position + 1
        &&& self.c == spec_char_at(self.input@, self.position as nat)
        &&& self.last_new_line <= self.position
        &&& self.line <= self.position + 1
    }

    /// Whether both lexers read the same source.
    pub open spec fn same_source(&self, other: &Lexer) -> bool {
        self.input == other.input && self.raw_input == other.raw_input
    }

    /// Whether the input has ended.
    pub open spec fn at_end(&self) -> bool {
        spec_char_at(self.input@, self.position as nat) == '\0'
    }

    /// A lexer at the start of the source.
    pub fn new(input: &str) -> (lexer: Self)
        requires
            input@.len() < usize::MAX,
        ensures
            lexer.wf(),
            lexer.input@ == input@,
            lexer.cursor() == (Cursor { position: 0, line: 1, last_new_line: 0 }),
    {
        let chars = chars_of(input);
        let c = if chars.len() == 0 {
            '\0'
        } else {
            chars[0]
        };
        Lexer {
            input: chars,
            raw_input: String::from_str(input),
            line: 1,
            last_new_line: 0,
            position: 0,
            next_position: 1,
            c,
        }
    }

    /// The `n`-th line of the source, counted from one; lines are separated
    /// by line feeds.
    pub fn get_line(&self, n: usize) -> (line: Option<String>)
        requires
            self.wf(),
        ensures
            match line {
                Some(text) => spec_get_line(self.input@, n as nat) == Some(text@),
                None => spec_get_line(self.input@, n as nat) is None,
            },
    {
        if n == 0 {
            return None;
        }
        let len = self.input.len();
        let mut start: usize = 0;
        let mut k: usize = n;
        loop
            invariant
                len == self.input@.len(),
                start <= len,
                1 <= k <= n,
                spec_get_line(self.input@, n as nat) == spec_line_from(
                    self.input@,
                    start as nat,
                    k as nat,
                ),
            decreases len - start,
        {
            let mut end: usize = start;
            while end < len && self.input[end] != '\n'
                invariant
                    len == self.input@.len(),
                    start <= end <= len,
                    forall|j: int|
                        start <= j < end ==> spec_run_keeps(Run::Line, #[trigger] self.input@[j]),
                decreases len - end,
            {
                end = end + 1;
            }
            proof {
                lemma_run_end_is(self.input@, start as nat, end as nat, Run::Line);
            }
            if k == 1 {
                return Some(string_from_chars(&self.input, start, end));
            }
            if end >= len {
                return None;
            }
            start = end + 1;
            k = k - 1;
        }
    }

    /// The character behind the current one; NUL beyond the last one.
    pub fn peek(&self) -> (c: char)
        requires
            self.wf(),
        ensures
            c == spec_char_at(self.input@, self.position as nat + 1),
    {
        if self.next_position >= self.input.len() {
            '\0'
        } else {
            self.input[self.next_position]
        }
    }

    /// One character forward, unless the input has ended.
    pub fn advance(&mut self)
        requires
            old(self).wf(),
        ensures
            final(self).wf(),
            final(self).same_source(old(self)),
            final(self).cursor() == spec_advance(old(self).input@, old(self).cursor()),
    {
        if self.c != '\0' {
            self.position = self.next_position;
            self.next_position = self.next_position + 1;
            if self.position >= self.input.len() {
                self.c = '\0';
            } else {
                self.c = self.input[self.position];
            }
        }
    }

    /// Takes the identifier or keyword that starts at the current character.
    fn scan_identifier(&mut self) -> (word: String)
        requires
            old(self).wf(),
        ensures
            final(self).wf(),
            final(self).same_source(old(self)),
            final(self).position == spec_run_end(
                old(self).input@,
                old(self).position as nat,
                Run::Identifier,
            ),
            final(self).line == old(self).line,
            final(self).last_new_line == old(self).last_new_line,
            old(self).position <= final(self).position,
            word@ == old(self).input@.subrange(
                old(self).position as int,
                final(self).position as int,
            ),
    {
        let position = self.position;
        while self.position < self.input.len() && (is_letter(self.c) || is_digit(self.c) || self.c
            == '_')
            invariant
                self.wf(),
                self.same_source(old(self)),
                self.line == old(self).line,
                self.last_new_line == old(self).last_new_line,
                position == old(self).position,
                position <= self.position,
                forall|j: int|
                    position <= j < self.position ==> spec_run_keeps(
                        Run::Identifier,
                        #[trigger] self.input@[j],
                    ),
            decreases self.input@.len() - self.position,
        {
            self.advance();
        }
        proof {
            lemma_run_end_is(self.input@, position as nat, self.position as nat, Run::Identifier);
        }
        string_from_chars(&self.input, position, self.position)
    }

    /// Takes the run of digits that starts at the current character.
    fn scan_number(&mut self) -> (digits: String)
        requires
            old(self).wf(),
        ensures
            final(self).wf(),
            final(self).same_source(old(self)),
            final(self).position == spec_run_end(
                old(self).input@,
                old(self).position as nat,
                Run::Digits,
            ),
            final(self).line == old(self).line,
            final(self).last_new_line == old(self).last_new_line,
            old(self).position <= final(self).position,
            digits@ == old(self).input@.subrange(
                old(self).position as int,
                final(self).position as int,
            ),
    {
        let position = self.position;
        while self.position < self.input.len() && is_digit(self.c)
            invariant
                self.wf(),
                self.same_source(old(self)),
                self.line == old(self).line,
                self.last_new_line == old(self).last_new_line,
                position == old(self).position,
                position <= self.position,
                forall|j: int|
                    position <= j < self.position ==> spec_run_keeps(
                        Run::Digits,
                        #[trigger] self.input@[j],
                    ),
            decreases self.input@.len() - self.position,
        {
            self.advance();
        }
        proof {
            lemma_run_end_is(self.input@, position as nat, self.position as nat, Run::Digits);
        }
        string_from_chars(&self.input, position, self.position)
    }

    /// Takes the text between the delimiter at the current character and the
    /// next one, and stops on the closing delimiter or where the input ends.
    fn scan_delimiter(&mut self) -> (body: String)
        requires
            old(self).wf(),
            old(self).c == '"',
        ensures
            final(self).wf(),
            final(self).same_source(old(self)),
            final(self).position == spec_run_end(
                old(self).input@,
                old(self).position as nat + 1,
                Run::StringBody,
            ),
            final(self).line == old(self).line,
            final(self).last_new_line == old(self).last_new_line,
            old(self).position < final(self).position,
            body@ == old(self).input@.subrange(
                old(self).position + 1,
                final(self).position as int,
            ),
    {
        let position = self.next_position;
        self.advance();
        while self.c != '\0' && self.c != '"'
            invariant
                self.wf(),
                self.same_source(old(self)),
                self.line == old(self).line,
                self.last_new_line == old(self).last_new_line,
                position == old(self).position + 1,
                position <= self.position,
                forall|j: int|
                    position <= j < self.position ==> spec_run_keeps(
                        Run::StringBody,
                        #[trigger] self.input@[j],
                    ),
            decreases self.input@.len() - self.position,
        {
            self.advance();
        }
        proof {
            lemma_run_end_is(self.input@, position as nat, self.position as nat, Run::StringBody);
        }
        string_from_chars(&self.input, position, self.position)
    }

    /// Where the current character and the one behind it are `token`'s first
    /// and `next_c`, makes `token` the compound `expected_token` and steps
    /// over both; else changes nothing.
    fn scan_compound_token(&mut self, token: &mut Token, next_c: char, expected_token: TokenType) -> (taken:
        bool)
        requires
            old(self).wf(),
            old(self).c != '\0',
            next_c != '\0',
        ensures
            final(self).wf(),
            final(self).same_source(old(self)),
            taken == (spec_char_at(old(self).input@, old(self).position as nat + 1) == next_c),
            taken ==> final(self).cursor() == (Cursor {
                position: old(self).position as nat + 2,
                ..old(self).cursor()
            }) && final(token)@ == (TokenView {
                t: expected_token,
                literal: seq![old(self).c, next_c],
                ..old(token)@
            }),
            !taken ==> *final(self) == *old(self) && *final(token) == *old(token),
    {
        if self.peek() == next_c {
            let c = self.c;
            self.advance();
            let mut literal = String::new();
            push_char(&mut literal, c);
            push_char(&mut literal, self.c);
            token.t = expected_token;
            token.literal = literal;
            self.advance();
            proof {
                assert(literal@ =~= seq![c, next_c]);
            }
            true
        } else {
            false
        }
    }

    /// Steps over blanks and line breaks, counting the lines.
    fn eat_whitespace(&mut self)
        requires
            old(self).wf(),
        ensures
            final(self).wf(),
            final(self).same_source(old(self)),
            final(self).cursor() == spec_skip_whitespace(old(self).input@, old(self).cursor()),
    {
        loop
            invariant
                self.wf(),
                self.same_source(old(self)),
                spec_skip_whitespace(self.input@, self.cursor()) == spec_skip_whitespace(
                    old(self).input@,
                    old(self).cursor(),
                ),
            ensures
                self.wf(),
                self.same_source(old(self)),
                self.cursor() == spec_skip_whitespace(old(self).input@, old(self).cursor()),
            decreases self.input@.len() - self.position,
        {
            if self.c == ' ' || self.c == '\t' {
                self.advance();
            } else if self.c == '\n' || self.c == '\r' {
                let at = self.position;
                self.advance();
                self.line = self.line + 1;
                self.last_new_line = at;
            } else {
                break ;
            }
        }
    }

    /// Steps to the end of the line.
    fn eat_comment(&mut self)
        requires
            old(self).wf(),
        ensures
            final(self).wf(),
            final(self).same_source(old(self)),
            final(self).cursor() == (Cursor {
                position: spec_run_end(
                    old(self).input@,
                    old(self).position as nat,
                    Run::LineComment,
                ),
                ..old(self).cursor()
            }),
            old(self).position <= final(self).position,
    {
        let ghost start = self.position;
        while self.c != '\n' && self.c != '\r' && self.c != '\0'
            invariant
                self.wf(),
                self.same_source(old(self)),
                self.line == old(self).line,
                self.last_new_line == old(self).last_new_line,
                start == old(self).position,
                start <= self.position,
                forall|j: int|
                    start <= j < self.position ==> spec_run_keeps(
                        Run::LineComment,
                        #[trigger] self.input@[j],
                    ),
            decreases self.input@.len() - self.position,
        {
            self.advance();
        }
        proof {
            lemma_run_end_is(self.input@, start as nat, self.position as nat, Run::LineComment);
        }
    }

    /// Steps behind the `*/` that closes the block comment, or to where the
    /// input ends.
    fn eat_comment_block(&mut self)
        requires
            old(self).wf(),
        ensures
            final(self).wf(),
            final(self).same_source(old(self)),
            final(self).cursor() == (Cursor {
                position: spec_block_comment_end(old(self).input@, old(self).position as nat),
                ..old(self).cursor()
            }),
            old(self).position <= final(self).position,
    {
        loop
            invariant_except_break
                spec_block_comment_end(self.input@, self.position as nat)
                    == spec_block_comment_end(old(self).input@, old(self).position as nat),
            invariant
                self.wf(),
                self.same_source(old(self)),
                self.line == old(self).line,
                self.last_new_line == old(self).last_new_line,
                old(self).position <= self.position,
            ensures
                self.wf(),
                self.same_source(old(self)),
                self.line == old(self).line,
                self.last_new_line == old(self).last_new_line,
                old(self).position <= self.position,
                self.position == spec_block_comment_end(
                    old(self).input@,
                    old(self).position as nat,
                ),
            decreases self.input@.len() - self.position,
        {
            if self.c == '\0' {
                break ;
            } else if self.c == '*' && self.peek() == '/' {
                self.advance();
                self.advance();
                break ;
            } else {
                self.advance();
            }
        }
    }

    /// The next token. White space and comments are passed over; once the
    /// input has ended, every call gives `EOF` and changes nothing.
    pub fn scan(&mut self) -> (token: Token)
        requires
            old(self).wf(),
        ensures
            final(self).wf(),
            final(self).same_source(old(self)),
            token@ == spec_scan(old(self).input@, old(self).cursor()).token,
            final(self).cursor() == spec_scan(old(self).input@, old(self).cursor()).cursor,
        decreases old(self).input@.len() - old(self).position,
    {
        proof {
            lemma_skip_whitespace_forward(self.input@, self.cursor());
        }
        self.eat_whitespace();
        let column = self.position - self.last_new_line + 1;
        let c = self.c;
        let next = self.peek();
        if c == '/' && next == '/' {
            self.advance();
            self.advance();
            self.eat_comment();
            return self.scan();
        }
        if c == '/' && next == '*' {
            self.advance();
            self.advance();
            self.eat_comment_block();
            return self.scan();
        }
        let mut literal = String::new();
        push_char(&mut literal, c);
        proof {
            assert(literal@ =~= seq![c]);
        }
        let mut token = Token::new(TokenType::ILLEGAL, literal, self.line, column, None);
        if is_letter(c) || c == '_' {
            let word = self.scan_identifier();
            token.t =
            match KeywordTokenType::from_str(word.as_str()) {
                Some(keyword) => TokenType::KEYWORD(keyword),
                None => TokenType::IDENT,
            };
            token.literal = word;
            return token;
        }
        if is_digit(c) {
            let digits = self.scan_number();
            token.t =
            match parse_decimal(digits.as_str()) {
                Some(_) => TokenType::INT,
                None => TokenType::ILLEGAL,
            };
            token.literal = digits;
            return token;
        }
        if c == '"' {
            token.t = TokenType::STRING;
            token.literal = self.scan_delimiter();
            self.advance();
            return token;
        }
        match compound_kind(c, next) {
            Some(kind) => {
                let taken = self.scan_compound_token(&mut token, next, kind);
                assert(taken);
                if kind == TokenType::RANGE && self.c == '=' {
                    let mut literal = String::new();
                    push_char(&mut literal, c);
                    push_char(&mut literal, next);
                    push_char(&mut literal, '=');
                    proof {
                        assert(literal@ =~= seq![c, next, '=']);
                    }
                    token.t = TokenType::IRANGE;
                    token.literal = literal;
                    self.advance();
                }
                token
            },
            None => {
                token.t = single_kind(c);
                self.advance();
                token
            },
        }
    }
}


/// Where the text of a token starts in the source: at the token's first
/// character, or behind the opening quote of a string.
pub open spec fn spec_literal_start(scanned: Scanned) -> nat {
    if scanned.token.t == TokenType::STRING {
        scanned.start + 1
    } else {
        scanned.start
    }
}

/// The text of every token but `EOF` is the slice of the source that the
/// scan took it from: it lies between the place where the lexer stood and
/// the place where it stands afterwards, behind white space and comments.
pub proof fn lemma_literal_is_source_slice(input: Seq<char>, cur: Cursor)
    requires
        cur.position <= input.len(),
    ensures
        ({
            let scanned = spec_scan(input, cur);
            let from = spec_literal_start(scanned);
            scanned.token.t != TokenType::EOF ==> {
                &&& cur.position <= scanned.start <= from
                &&& from + scanned.token.literal.len() <= scanned.cursor.position <= input.len()
                &&& scanned.token.literal == input.subrange(
                    from as int,
                    (from + scanned.token.literal.len()) as int,
                )
            }
        }),
    decreases input.len() - cur.position,
{
    lemma_skip_whitespace_forward(input, cur);
    let at = spec_skip_whitespace(input, cur);
    let p = at.position;
    let c = spec_char_at(input, p);
    let next = spec_char_at(input, p + 1);
    if c == '/' && next == '/' {
        lemma_run_end_bounds(input, p + 2, Run::LineComment);
        lemma_literal_is_source_slice(
            input,
            Cursor { position: spec_run_end(input, p + 2, Run::LineComment), ..at },
        );
    } else if c == '/' && next == '*' {
        lemma_block_comment_end_bounds(input, p + 2);
        lemma_literal_is_source_slice(
            input,
            Cursor { position: spec_block_comment_end(input, p + 2), ..at },
        );
    } else {
        let scanned = spec_scan_token(input, at);
        if spec_is_identifier_start(c) {
            lemma_run_end_bounds(input, p, Run::Identifier);
        } else if spec_is_digit(c) {
            lemma_run_end_bounds(input, p, Run::Digits);
        } else if c == '"' {
            lemma_run_end_bounds(input, p + 1, Run::StringBody);
        } else if spec_compound_kind(c, next) is Some {
            assert(seq![c, next] =~= input.subrange(p as int, p + 2 as int));
            if spec_char_at(input, p + 2) == '=' {
                assert(seq![c, next, '='] =~= input.subrange(p as int, p + 3 as int));
            }
        } else if c != '\0' {
            assert(seq![c] =~= input.subrange(p as int, p + 1 as int));
        }
    }
}

/// A scan never moves back; a token other than `EOF` takes at least one
/// character, and `EOF` leaves the lexer on the end of the input.
pub proof fn lemma_scan_progress(input: Seq<char>, cur: Cursor)
    requires
        cur.position <= input.len(),
    ensures
        ({
            let scanned = spec_scan(input, cur);
            &&& cur.position <= scanned.cursor.position <= input.len()
            &&& scanned.token.t != TokenType::EOF ==> cur.position < scanned.cursor.position
            &&& scanned.token.t == TokenType::EOF ==> spec_char_at(input, scanned.cursor.position)
                == '\0'
        }),
    decreases input.len() - cur.position,
{
    lemma_skip_whitespace_forward(input, cur);
    let at = spec_skip_whitespace(input, cur);
    let p = at.position;
    let c = spec_char_at(input, p);
    let next = spec_char_at(input, p + 1);
    if c == '/' && next == '/' {
        lemma_run_end_bounds(input, p + 2, Run::LineComment);
        lemma_scan_progress(
            input,
            Cursor { position: spec_run_end(input, p + 2, Run::LineComment), ..at },
        );
    } else if c == '/' && next == '*' {
        lemma_block_comment_end_bounds(input, p + 2);
        lemma_scan_progress(input, Cursor { position: spec_block_comment_end(input, p + 2), ..at });
    } else {
        if spec_is_identifier_start(c) {
            lemma_run_end_bounds(input, p, Run::Identifier);
        } else if spec_is_digit(c) {
            lemma_run_end_bounds(input, p, Run::Digits);
        } else if c == '"' {
            lemma_run_end_bounds(input, p + 1, Run::StringBody);
        }
    }
}

/// Once a scan has given `EOF`, scanning again gives the same token and
/// leaves the lexer where it stands.
pub proof fn lemma_scan_idempotent_after_eof(input: Seq<char>, cur: Cursor)
    requires
        cur.position <= input.len(),
    ensures
        spec_scan(input, cur).token.t == TokenType::EOF ==> spec_scan(
            input,
            spec_scan(input, cur).cursor,
        ) == spec_scan(input, cur),
    decreases input.len() - cur.position,
{
    lemma_skip_whitespace_forward(input, cur);
    let at = spec_skip_whitespace(input, cur);
    let p = at.position;
    let c = spec_char_at(input, p);
    let next = spec_char_at(input, p + 1);
    if c == '/' && next == '/' {
        lemma_run_end_bounds(input, p + 2, Run::LineComment);
        lemma_scan_idempotent_after_eof(
            input,
            Cursor { position: spec_run_end(input, p + 2, Run::LineComment), ..at },
        );
    } else if c == '/' && next == '*' {
        lemma_block_comment_end_bounds(input, p + 2);
        lemma_scan_idempotent_after_eof(
            input,
            Cursor { position: spec_block_comment_end(input, p + 2), ..at },
        );
    } else {
        if spec_scan(input, cur).token.t == TokenType::EOF {
            assert(c == '\0');
            assert(spec_scan(input, cur).cursor == at);
            lemma_skip_whitespace_forward(input, at);
            assert(spec_skip_whitespace(input, at) == at);
        }
    }
}

/// Where the lexer stands on the end of the input, a scan gives `EOF` and
/// leaves it there.
pub proof fn lemma_scan_at_end(input: Seq<char>, cur: Cursor)
    requires
        spec_char_at(input, cur.position) == '\0',
    ensures
        spec_scan(input, cur).token.t == TokenType::EOF,
        spec_scan(input, cur).cursor == cur,
{
    assert(spec_skip_whitespace(input, cur) == cur);
}

/// Longest match: behind white space, where the next two characters spell a
/// compound operator the scan gives that operator with both characters as
/// its text (and the inclusive range for `..` with `=` behind it), and where
/// they open a comment the comment is passed over; only otherwise does the
/// first character make a token of its own.
pub proof fn lemma_longest_match(input: Seq<char>, cur: Cursor)
    ensures
        ({
            let at = spec_skip_whitespace(input, cur);
            let c = spec_char_at(input, at.position);
            let next = spec_char_at(input, at.position + 1);
            let scanned = spec_scan(input, cur);
            &&& c == '/' && next == '/' ==> scanned == spec_scan(
                input,
                Cursor {
                    position: spec_run_end(input, at.position + 2, Run::LineComment),
                    ..at
                },
            )
            &&& c == '/' && next == '*' ==> scanned == spec_scan(
                input,
                Cursor { position: spec_block_comment_end(input, at.position + 2), ..at },
            )
            &&& spec_compound_kind(c, next) matches Some(kind) ==> {
                if kind == TokenType::RANGE && spec_char_at(input, at.position + 2) == '=' {
                    &&& scanned.token.t == TokenType::IRANGE
                    &&& scanned.token.literal == seq![c, next, '=']
                    &&& scanned.cursor.position == at.position + 3
                } else {
                    &&& scanned.token.t == kind
                    &&& scanned.token.literal == seq![c, next]
                    &&& scanned.cursor.position == at.position + 2
                }
            }
            &&& (spec_compound_kind(c, next) is None && !(c == '/' && (next == '/' || next == '*'))
                && !spec_is_identifier_start(c) && !spec_is_digit(c) && c != '"') ==> {
                &&& scanned.token.t == spec_single_kind(c)
                &&& scanned.token.literal == seq![c]
            }
        }),
        spec_compound_kind('=', '=') == Some(TokenType::EQ),
        spec_compound_kind('<', '=') == Some(TokenType::LTE),
        spec_compound_kind('&', '&') == Some(TokenType::AND),
        spec_compound_kind('.', '.') == Some(TokenType::RANGE),
        spec_compound_kind('-', '>') == Some(TokenType::ARROW),
        spec_compound_kind('+', '+') == Some(TokenType::INCR),
        spec_compound_kind('*', '*') == Some(TokenType::DASTERISK),
        spec_single_kind('*') == TokenType::ASTERISK,
        spec_single_kind('=') == TokenType::ASSIGN,
        spec_single_kind('<') == TokenType::LT,
        spec_single_kind('&') == TokenType::AMPERSAND,
        spec_single_kind('.') == TokenType::DOT,
        spec_single_kind('/') == TokenType::FORWARDSLASH,
        spec_single_kind('-') == TokenType::MINUS,
        spec_single_kind('+') == TokenType::PLUS,
{
}


/// The tokens from the cursor on, up to and with the first `EOF`.
pub open spec fn spec_tokens(input: Seq<char>, cur: Cursor) -> Seq<TokenView>
    decreases input.len() - cur.position,
{
    let scanned = spec_scan(input, cur);
    if scanned.token.t == TokenType::EOF || cur.position > input.len() {
        seq![scanned.token]
    } else {
        proof {
            lemma_scan_progress(input, cur);
        }
        seq![scanned.token] + spec_tokens(input, scanned.cursor)
    }
}

/// The views of the tokens, in order.
pub open spec fn spec_token_views(tokens: Seq<Token>) -> Seq<TokenView> {
    Seq::new(tokens.len(), |i: int| tokens[i]@)
}

impl Lexer {
    /// The tokens from where the lexer stands, up to and with the first
    /// `EOF`; the lexer is left at the end of the input.
    pub fn scan_all(&mut self) -> (tokens: Vec<Token>)
        requires
            old(self).wf(),
        ensures
            final(self).wf(),
            final(self).same_source(old(self)),
            spec_token_views(tokens@) == spec_tokens(old(self).input@, old(self).cursor()),
            tokens@.len() > 0,
            tokens@[tokens@.len() - 1].t == TokenType::EOF,
    {
        let mut tokens: Vec<Token> = Vec::new();
        loop
            invariant_except_break
                spec_tokens(old(self).input@, old(self).cursor()) == spec_token_views(tokens@)
                    + spec_tokens(self.input@, self.cursor()),
            invariant
                self.wf(),
                self.same_source(old(self)),
            ensures
                spec_token_views(tokens@) == spec_tokens(old(self).input@, old(self).cursor()),
                tokens@.len() > 0,
                tokens@[tokens@.len() - 1].t == TokenType::EOF,
            decreases self.input@.len() - self.position,
        {
            let ghost before = self.cursor();
            let ghost taken = tokens@;
            proof {
                lemma_scan_progress(self.input@, before);
            }
            let token = self.scan();
            let done = token.t == TokenType::EOF;
            tokens.push(token);
            proof {
                assert(spec_token_views(tokens@) =~= spec_token_views(taken) + seq![token@]);
                if done {
                    assert(spec_tokens(self.input@, before) == seq![token@]);
                } else {
                    assert(spec_tokens(self.input@, before) == seq![token@] + spec_tokens(
                        self.input@,
                        self.cursor(),
                    ));
                    assert(spec_token_views(tokens@) + spec_tokens(self.input@, self.cursor())
                        =~= spec_token_views(taken) + (seq![token@] + spec_tokens(
                        self.input@,
                        self.cursor(),
                    )));
                }
            }
            if done {
                break ;
            }
        }
        tokens
    }
}

} // verus!
