//! The text form of the diagnostics for a terminal: a coloured code, the
//! message, the place, the source line, and carets under the offending
//! token.
//!
//! Colouring is done by an outside crate, and whether it adds anything
//! depends on the terminal: a coloured piece is its text, or its text
//! between two escape sequences. So each rendering is split in two: the
//! pieces that are coloured are made first, each known to hold its text,
//! and a layout function, which is verified, puts them together with the
//! plain text.

use vstd::prelude::*;
use vstd::string::*;
use crate::diagnostics::{
    ParserError, ParserErrorCode, ParserErrorCodeView, ParserWarning, ParserWarningView,
    RuntimeError, RuntimeErrorCode, RuntimeErrorCodeView,
};
use crate::object::{
    runtime_error_message, Error,
};
use crate::text::{
    decimal, join, pad_left, pad_right, repeat_char, spec_decimal, spec_join, spec_padded_left,
    spec_padded_right, spec_repeat, spec_texts,
};
use crate::token::{
    Token, TokenType, TokenView,
};

verus! {

/// The colour of the code and of the carets of a diagnostic.
#[derive(Debug, Clone, Copy, PartialEq, Eq, Structural)]
pub enum Accent {
    Red,
    Yellow,
}

/// Whether the text holds no escape character.
pub open spec fn spec_plain(text: Seq<char>) -> bool {
    forall|i: int| 0 <= i < text.len() ==> #[trigger] text[i] != '\u{1b}'
}

/// Whether `whole` holds `part` as a run of characters.
pub open spec fn spec_holds(whole: Seq<char>, part: Seq<char>) -> bool {
    exists|before: Seq<char>, behind: Seq<char>| whole == before + part + behind
}

/// The text in red, as the terminal takes it.
///
/// Trusted: wraps `colored::Colorize::red` on a `&str` and the `Display` of
/// the `ColoredString` that it gives. Whether escape sequences are added
/// depends on whether the process colours its output; either way a text
/// without an escape character comes back whole, alone or between a style
/// sequence and a reset sequence.
#[verifier::external_body]
fn paint_red(text: &str) -> (r: String)
    ensures
        spec_plain(text@) ==> spec_holds(r@, text@),
{
    format!("{}", colored::Colorize::red(text))
}

/// The text in yellow, as the terminal takes it.
///
/// Trusted: wraps `colored::Colorize::yellow` on a `&str` and the `Display`
/// of the `ColoredString` that it gives. Whether escape sequences are added
/// depends on whether the process colours its output; either way a text
/// without an escape character comes back whole, alone or between a style
/// sequence and a reset sequence.
#[verifier::external_body]
fn paint_yellow(text: &str) -> (r: String)
    ensures
        spec_plain(text@) ==> spec_holds(r@, text@),
{
    format!("{}", colored::Colorize::yellow(text))
}

/// The text in blue, as the terminal takes it.
///
/// Trusted: wraps `colored::Colorize::blue` on a `&str` and the `Display`
/// of the `ColoredString` that it gives. Whether escape sequences are added
/// depends on whether the process colours its output; either way a text
/// without an escape character comes back whole, alone or between a style
/// sequence and a reset sequence.
#[verifier::external_body]
fn paint_blue(text: &str) -> (r: String)
    ensures
        spec_plain(text@) ==> spec_holds(r@, text@),
{
    format!("{}", colored::Colorize::blue(text))
}

/// The coloured pieces of a diagnostic: the code, the arrow before the
/// place, the bar of the margin, the line number, and the carets.
#[derive(Debug)]
pub struct Painted {
    pub code: String,
    pub arrow: String,
    pub bar: String,
    pub line_number: String,
    pub carets: String,
}

/// What a [`Painted`] is, as plain values.
pub struct PaintedView {
    pub code: Seq<char>,
    pub arrow: Seq<char>,
    pub bar: Seq<char>,
    pub line_number: Seq<char>,
    pub carets: Seq<char>,
}

impl View for Painted {
    type V = PaintedView;

    open spec fn view(&self) -> PaintedView {
        PaintedView {
            code: self.code@,
            arrow: self.arrow@,
            bar: self.bar@,
            line_number: self.line_number@,
            carets: self.carets@,
        }
    }
}

/// The code of a diagnostic before it is coloured: the kind, and the
/// number in five digits between `[E` and `]`.
pub open spec fn spec_code_label(kind: Seq<char>, id: nat) -> Seq<char> {
    kind + "[E"@ + spec_padded_left(spec_decimal(id), '0', 5) + "]"@
}

/// The code of a diagnostic before it is coloured.
pub fn code_label(kind: &str, id: usize) -> (s: String)
    ensures
        s@ == spec_code_label(kind@, id as nat),
{
    let mut s = String::from_str(kind);
    s.append("[E");
    let numeral = decimal(id as u64);
    let padded = pad_left(numeral.as_str(), '0', 5);
    s.append(padded.as_str());
    s.append("]");
    s
}

/// The pieces are those of a diagnostic of the given kind and number for a
/// token on the given line with `carets` characters: each holds its text,
/// whatever colouring has put around it.
pub open spec fn spec_painted(p: PaintedView, kind: Seq<char>, id: nat, line: nat, carets: nat) -> bool {
    &&& spec_holds(p.code, spec_code_label(kind, id))
    &&& spec_holds(p.arrow, "-->"@)
    &&& spec_holds(p.bar, "|"@)
    &&& spec_holds(p.line_number, spec_padded_right(spec_decimal(line), ' ', 3))
    &&& spec_holds(p.carets, spec_repeat('^', carets))
}

/// A decimal numeral holds no escape character.
pub proof fn lemma_decimal_is_plain(n: nat)
    ensures
        spec_plain(spec_decimal(n)),
    decreases n,
{
    if n >= 10 {
        lemma_decimal_is_plain(n / 10);
    }
}

/// Two texts without an escape character make one without.
pub proof fn lemma_plain_concat(a: Seq<char>, b: Seq<char>)
    requires
        spec_plain(a),
        spec_plain(b),
    ensures
        spec_plain(a + b),
{
    assert forall|i: int| 0 <= i < (a + b).len() implies #[trigger] (a + b)[i] != '\u{1b}' by {
        if i < a.len() {
            assert((a + b)[i] == a[i]);
        } else {
            assert((a + b)[i] == b[i - a.len()]);
        }
    }
}

/// The code of a diagnostic holds no escape character where its kind holds
/// none.
pub proof fn lemma_code_label_is_plain(kind: Seq<char>, id: nat)
    requires
        spec_plain(kind),
    ensures
        spec_plain(spec_code_label(kind, id)),
{
    reveal_strlit("[E");
    reveal_strlit("]");
    lemma_decimal_is_plain(id);
    let digits = spec_decimal(id);
    let padded = spec_padded_left(digits, '0', 5);
    if digits.len() < 5 {
        lemma_plain_concat(spec_repeat('0', (5 - digits.len()) as nat), digits);
    }
    lemma_plain_concat(kind, "[E"@);
    lemma_plain_concat(kind + "[E"@, padded);
    lemma_plain_concat(kind + "[E"@ + padded, "]"@);
}

/// The coloured pieces of a diagnostic of the given kind and number for a
/// token on the given line with `carets` characters. Where the kind holds
/// no escape character, each piece holds its text.
pub fn paint(accent: Accent, kind: &str, id: usize, line: usize, carets: usize) -> (r: Painted)
    ensures
        spec_plain(kind@) ==> spec_painted(
            r@,
            kind@,
            id as nat,
            line as nat,
            carets as nat,
        ),
{
    let label = code_label(kind, id);
    let marks = repeat_char('^', carets);
    let number = decimal(line as u64);
    let padded = pad_right(number.as_str(), ' ', 3);
    proof {
        reveal_strlit("-->");
        reveal_strlit("|");
        if spec_plain(kind@) {
            lemma_code_label_is_plain(kind@, id as nat);
        }
        lemma_decimal_is_plain(line as nat);
        if number@.len() < 3 {
            lemma_plain_concat(number@, spec_repeat(' ', (3 - number@.len()) as nat));
        }
    }
    let (code, carets) = match accent {
        Accent::Red => (paint_red(label.as_str()), paint_red(marks.as_str())),
        Accent::Yellow => (paint_yellow(label.as_str()), paint_yellow(marks.as_str())),
    };
    Painted {
        code,
        arrow: paint_blue("-->"),
        bar: paint_blue("|"),
        line_number: paint_blue(padded.as_str()),
        carets,
    }
}

/// The line that names the place of a token.
pub open spec fn spec_location_line(p: PaintedView, token: TokenView) -> Seq<char> {
    "  "@ + p.arrow + " "@ + token.location() + "\n"@
}

/// The number of blanks before the carets: one less than the column.
pub open spec fn spec_indent(token: TokenView) -> nat {
    if token.column > 0 {
        (token.column - 1) as nat
    } else {
        0
    }
}

/// The source lines in the margin: an empty margin line, then the lines
/// behind the line number, joined by `sep`.
pub open spec fn spec_context_lines(p: PaintedView, lines: Seq<Seq<char>>, sep: Seq<char>) -> Seq<
    char,
> {
    "    "@ + p.bar + "\n"@ + p.line_number + " "@ + p.bar + "\t"@ + spec_join(lines, sep) + "\n"@
}

/// The line with the carets under the token.
pub open spec fn spec_marker_line(p: PaintedView, token: TokenView) -> Seq<char> {
    "    "@ + p.bar + "\t"@ + spec_repeat(' ', spec_indent(token)) + p.carets + " "@
}

/// A diagnostic: the code and the message; for a token, the line that names
/// its place where that is asked for; and for source lines, those lines
/// with the carets under the token and the trailer behind them.
pub open spec fn spec_layout(
    p: PaintedView,
    message: Seq<char>,
    token: Option<TokenView>,
    with_location: bool,
    context: Option<Seq<Seq<char>>>,
    sep: Seq<char>,
    trailer: Seq<char>,
) -> Seq<char> {
    p.code + message + match token {
        Some(t) => (if with_location {
            spec_location_line(p, t)
        } else {
            Seq::empty()
        }) + match context {
            Some(lines) => spec_context_lines(p, lines, sep) + spec_marker_line(p, t) + trailer,
            None => Seq::empty(),
        },
        None => Seq::empty(),
    }
}

/// The line that names the place of a token.
pub fn location_line(p: &Painted, token: &Token) -> (s: String)
    ensures
        s@ == spec_location_line(p@, token@),
{
    let mut s = String::from_str("  ");
    s.append(p.arrow.as_str());
    s.append(" ");
    let place = token.get_location();
    s.append(place.as_str());
    s.append("\n");
    s
}

/// The source lines in the margin.
pub fn context_lines(p: &Painted, lines: &Vec<String>, sep: &str) -> (s: String)
    ensures
        s@ == spec_context_lines(p@, spec_texts(lines@), sep@),
{
    let mut s = String::from_str("    ");
    s.append(p.bar.as_str());
    s.append("\n");
    s.append(p.line_number.as_str());
    s.append(" ");
    s.append(p.bar.as_str());
    s.append("\t");
    let joined = join(lines, sep);
    s.append(joined.as_str());
    s.append("\n");
    s
}

/// The line with the carets under the token.
pub fn marker_line(p: &Painted, token: &Token) -> (s: String)
    ensures
        s@ == spec_marker_line(p@, token@),
{
    let mut s = String::from_str("    ");
    s.append(p.bar.as_str());
    s.append("\t");
    let indent = if token.column > 0 {
        token.column - 1
    } else {
        0
    };
    let blanks = repeat_char(' ', indent);
    s.append(blanks.as_str());
    s.append(p.carets.as_str());
    s.append(" ");
    s
}

/// Puts a diagnostic together from its coloured pieces and its plain text.
pub fn layout(
    p: &Painted,
    message: &str,
    token: Option<&Token>,
    with_location: bool,
    context: Option<&Vec<String>>,
    sep: &str,
    trailer: &str,
) -> (s: String)
    ensures
        s@ == spec_layout(
            p@,
            message@,
            match token {
                Some(t) => Some(t@),
                None => None,
            },
            with_location,
            match context {
                Some(lines) => Some(spec_texts(lines@)),
                None => None,
            },
            sep@,
            trailer@,
        ),
{
    let mut s = p.code.clone();
    s.append(message);
    match token {
        Some(t) => {
            let ghost head = s@;
            let mut rest = String::new();
            if with_location {
                let line = location_line(p, t);
                rest.append(line.as_str());
            }
            match context {
                Some(lines) => {
                    let block = context_lines(p, lines, sep);
                    rest.append(block.as_str());
                    let marker = marker_line(p, t);
                    rest.append(marker.as_str());
                    rest.append(trailer);
                    proof {
                        let location = if with_location {
                            spec_location_line(p@, t@)
                        } else {
                            Seq::empty()
                        };
                        assert(rest@ =~= location + (spec_context_lines(
                            p@,
                            spec_texts(lines@),
                            sep@,
                        ) + spec_marker_line(p@, t@) + trailer@));
                    }
                },
                None => {
                    proof {
                        let location = if with_location {
                            spec_location_line(p@, t@)
                        } else {
                            Seq::empty()
                        };
                        assert(rest@ =~= location + Seq::<char>::empty());
                    }
                },
            }
            s.append(rest.as_str());
        },
        None => {
            assert(s@ =~= p.code@ + message@ + Seq::<char>::empty());
        },
    }
    s
}


/// The kinds between backquotes, in order.
pub open spec fn spec_quoted_kinds(kinds: Seq<TokenType>) -> Seq<Seq<char>> {
    Seq::new(kinds.len(), |i: int| "`"@ + kinds[i].spec_literal() + "`"@)
}

/// What was expected, as part of a message: nothing for no kind, the kind
/// for one, and the kinds as a list that ends in `or` for more.
pub open spec fn spec_expected_text(kinds: Seq<TokenType>) -> Seq<char> {
    if kinds.len() == 0 {
        Seq::empty()
    } else if kinds.len() == 1 {
        ": expected `"@ + kinds[0].spec_literal() + "`"@
    } else {
        ": expected one of "@ + spec_join(spec_quoted_kinds(kinds.drop_last()), ", "@) + " or `"@
            + kinds.last().spec_literal() + "`"@
    }
}

/// What was expected, as part of a message.
pub fn expected_text(kinds: &Vec<TokenType>) -> (s: String)
    ensures
        s@ == spec_expected_text(kinds@),
{
    let n = kinds.len();
    if n == 0 {
        String::new()
    } else if n == 1 {
        let mut s = String::from_str(": expected `");
        let literal = kinds[0].to_literal();
        s.append(literal.as_str());
        s.append("`");
        s
    } else {
        let mut quoted: Vec<String> = Vec::new();
        let mut i: usize = 0;
        while i < n - 1
            invariant
                n == kinds@.len(),
                n >= 2,
                i <= n - 1,
                quoted@.len() == i,
                forall|j: int|
                    0 <= j < i ==> (#[trigger] quoted@[j])@ == "`"@ + kinds@[j].spec_literal() + "`"@,
            decreases n - 1 - i,
        {
            let mut q = String::from_str("`");
            let literal = kinds[i].to_literal();
            q.append(literal.as_str());
            q.append("`");
            quoted.push(q);
            i = i + 1;
        }
        assert(spec_texts(quoted@) =~= spec_quoted_kinds(kinds@.drop_last()));
        let mut s = String::from_str(": expected one of ");
        let list = join(&quoted, ", ");
        s.append(list.as_str());
        s.append(" or `");
        let literal = kinds[n - 1].to_literal();
        s.append(literal.as_str());
        s.append("`");
        s
    }
}

/// The kind of delimiter named first in the message of a mismatch: the
/// pair of the expected one.
pub open spec fn spec_pair_of(expected: TokenType) -> TokenType {
    match TokenType::spec_matching_delimiter(expected) {
        Some(pair) => pair,
        None => expected,
    }
}

impl ParserErrorCodeView {
    /// The token that the error is about, if it is about one.
    pub open spec fn token(self) -> Option<TokenView> {
        match self {
            ParserErrorCodeView::UnexpectedToken { token, .. } => Some(token),
            ParserErrorCodeView::UnknownPrefixToken { token, .. } => Some(token),
            ParserErrorCodeView::MissingIfCondition { token, .. } => Some(token),
            ParserErrorCodeView::DelimiterMismatch { token, .. } => Some(token),
            ParserErrorCodeView::MissingFnReturnType { token, .. } => Some(token),
            ParserErrorCodeView::Unknown => None,
        }
    }

    /// The source lines that show the error, if any are known.
    pub open spec fn context_lines(self) -> Option<Seq<Seq<char>>> {
        match self {
            ParserErrorCodeView::UnexpectedToken { context, .. }
            | ParserErrorCodeView::UnknownPrefixToken { context, .. }
            | ParserErrorCodeView::MissingIfCondition { context, .. }
            | ParserErrorCodeView::MissingFnReturnType { context, .. } => match context {
                Some(line) => Some(seq![line]),
                None => None,
            },
            ParserErrorCodeView::DelimiterMismatch { context, .. } => context,
            ParserErrorCodeView::Unknown => None,
        }
    }

    /// The message behind the code, with its line break.
    pub open spec fn message(self) -> Seq<char> {
        match self {
            ParserErrorCodeView::UnexpectedToken { token, expected_token_types, .. } => {
                spec_expected_text(expected_token_types) + ", found `"@ + token.literal + "`\n"@
            },
            ParserErrorCodeView::UnknownPrefixToken { token, .. } => ": Unknown prefix token: `"@
                + token.literal + "`.\n"@,
            ParserErrorCodeView::MissingIfCondition { .. } => {
                ": The `if` expression is missing a condition.\n"@
            },
            ParserErrorCodeView::DelimiterMismatch {
                token,
                expected_delimiter,
                current_delimiter,
                ..
            } => ": The `"@ + spec_pair_of(expected_delimiter).spec_literal()
                + "` delimiter is missing its pair, expected to match with a `"@
                + expected_delimiter.spec_literal() + "`, got "@ + (match current_delimiter {
                Some(d) => d,
                None => token.t,
            }).spec_literal() + ".\n"@,
            ParserErrorCodeView::MissingFnReturnType { .. } => {
                ": The function is missing a return type.\n"@
            },
            ParserErrorCodeView::Unknown => ": An unknown error occured while parsing the code.\n"@,
        }
    }

    /// What stands behind the carets: what was expected, where the error
    /// says so, and a line break.
    pub open spec fn trailer(self) -> Seq<char> {
        match self {
            ParserErrorCodeView::UnexpectedToken { expected_token_types, .. } => spec_expected_text(
                expected_token_types,
            ) + "\n"@,
            _ => "\n"@,
        }
    }

    /// The diagnostic with the given coloured pieces.
    pub open spec fn rendered(self, p: PaintedView) -> Seq<char> {
        spec_layout(
            p,
            self.message(),
            self.token(),
            true,
            self.context_lines(),
            "\n"@,
            self.trailer(),
        )
    }

    /// The pieces are those of this error: the code `error[E..]` with its
    /// number, the line number of its token, and one caret for each
    /// character of the token.
    pub open spec fn painted(self, p: PaintedView) -> bool {
        spec_painted(
            p,
            "error"@,
            self.id(),
            match self.token() {
                Some(t) => t.line,
                None => 0,
            },
            match self.token() {
                Some(t) => t.literal.len(),
                None => 0,
            },
        )
    }
}

impl ParserErrorCode {
    /// The token that the error is about, if it is about one.
    pub fn token(&self) -> (r: Option<&Token>)
        ensures
            match r {
                Some(t) => self@.token() == Some(t@),
                None => self@.token() is None,
            },
    {
        match self {
            ParserErrorCode::UnexpectedToken { token, .. } => Some(token),
            ParserErrorCode::UnknownPrefixToken { token, .. } => Some(token),
            ParserErrorCode::MissingIfCondition { token, .. } => Some(token),
            ParserErrorCode::DelimiterMismatch { token, .. } => Some(token),
            ParserErrorCode::MissingFnReturnType { token, .. } => Some(token),
            ParserErrorCode::Unknown => None,
        }
    }

    /// The source lines that show the error, if any are known.
    pub fn context_lines(&self) -> (r: Option<Vec<String>>)
        ensures
            match r {
                Some(lines) => self@.context_lines() == Some(spec_texts(lines@)),
                None => self@.context_lines() is None,
            },
    {
        match self {
            ParserErrorCode::UnexpectedToken { context, .. }
            | ParserErrorCode::UnknownPrefixToken { context, .. }
            | ParserErrorCode::MissingIfCondition { context, .. }
            | ParserErrorCode::MissingFnReturnType { context, .. } => match context {
                Some(line) => {
                    let mut lines: Vec<String> = Vec::new();
                    lines.push(line.clone());
                    assert(spec_texts(lines@) =~= seq![line@]);
                    Some(lines)
                },
                None => None,
            },
            ParserErrorCode::DelimiterMismatch { context, .. } => match context {
                Some(lines) => Some(crate::diagnostics::clone_texts(lines)),
                None => None,
            },
            ParserErrorCode::Unknown => None,
        }
    }

    /// The message behind the code, with its line break.
    pub fn message(&self) -> (s: String)
        ensures
            s@ == self@.message(),
    {
        match self {
            ParserErrorCode::UnexpectedToken { token, expected_token_types, .. } => {
                let mut s = expected_text(expected_token_types);
                s.append(", found `");
                s.append(token.literal.as_str());
                s.append("`\n");
                s
            },
            ParserErrorCode::UnknownPrefixToken { token, .. } => {
                let mut s = String::from_str(": Unknown prefix token: `");
                s.append(token.literal.as_str());
                s.append("`.\n");
                s
            },
            ParserErrorCode::MissingIfCondition { .. } => String::from_str(
                ": The `if` expression is missing a condition.\n",
            ),
            ParserErrorCode::DelimiterMismatch {
                token,
                expected_delimiter,
                current_delimiter,
                ..
            } => {
                let pair = match TokenType::matching_delimiter(*expected_delimiter) {
                    Some(pair) => pair,
                    None => *expected_delimiter,
                };
                let got = match current_delimiter {
                    Some(d) => *d,
                    None => token.t,
                };
                let mut s = String::from_str(": The `");
                let pair_text = pair.to_literal();
                s.append(pair_text.as_str());
                s.append("` delimiter is missing its pair, expected to match with a `");
                let expected_text = expected_delimiter.to_literal();
                s.append(expected_text.as_str());
                s.append("`, got ");
                let got_text = got.to_literal();
                s.append(got_text.as_str());
                s.append(".\n");
                s
            },
            ParserErrorCode::MissingFnReturnType { .. } => String::from_str(
                ": The function is missing a return type.\n",
            ),
            ParserErrorCode::Unknown => String::from_str(
                ": An unknown error occured while parsing the code.\n",
            ),
        }
    }

    /// What stands behind the carets.
    pub fn trailer(&self) -> (s: String)
        ensures
            s@ == self@.trailer(),
    {
        match self {
            ParserErrorCode::UnexpectedToken { expected_token_types, .. } => {
                let mut s = expected_text(expected_token_types);
                s.append("\n");
                s
            },
            _ => String::from_str("\n"),
        }
    }

    /// The diagnostic with the given coloured pieces.
    pub fn render(&self, p: &Painted) -> (s: String)
        ensures
            s@ == self@.rendered(p@),
    {
        let message = self.message();
        let trailer = self.trailer();
        let lines = self.context_lines();
        layout(p, message.as_str(), self.token(), true, lines.as_ref(), "\n", trailer.as_str())
    }

    /// The diagnostic for a terminal: the code and the carets in red, the
    /// margin in blue. The text is the layout of pieces that hold the code,
    /// the line number and the carets.
    pub fn to_string(&self) -> (s: String)
        ensures
            exists|p: PaintedView| s@ == self@.rendered(p) && self@.painted(p),
    {
        let (line, carets) = match self.token() {
            Some(token) => (token.line, token.literal.as_str().unicode_len()),
            None => (0, 0),
        };
        proof {
            reveal_strlit("error");
        }
        let p = paint(Accent::Red, "error", self.id(), line, carets);
        self.render(&p)
    }
}

impl ParserError {
    /// The diagnostic for a terminal.
    pub fn to_string(&self) -> (s: String)
        ensures
            exists|p: PaintedView| s@ == self@.code.rendered(p) && self@.code.painted(p),
    {
        self.code.to_string()
    }
}

impl ParserWarningView {
    /// The token that the warning is about, if it is about one.
    pub open spec fn token(self) -> Option<TokenView> {
        match self {
            ParserWarningView::UnnecessaryParentheses { token, .. }
            | ParserWarningView::EmptyIfExpression { token, .. }
            | ParserWarningView::EmptyIfConsequenceBranch { token, .. }
            | ParserWarningView::EmptyIfAlternativeBranch { token, .. }
            | ParserWarningView::RedundantIfBranch { token, .. }
            | ParserWarningView::PredictableIfBranch { token, .. }
            | ParserWarningView::EmptyFunction { token, .. } => Some(token),
            ParserWarningView::Unknown => None,
        }
    }

    /// The source lines that show the warning, if there are any.
    pub open spec fn context_lines(self) -> Option<Seq<Seq<char>>> {
        match self {
            ParserWarningView::UnnecessaryParentheses { context, .. }
            | ParserWarningView::EmptyIfExpression { context, .. }
            | ParserWarningView::EmptyIfConsequenceBranch { context, .. }
            | ParserWarningView::EmptyIfAlternativeBranch { context, .. }
            | ParserWarningView::RedundantIfBranch { context, .. }
            | ParserWarningView::PredictableIfBranch { context, .. }
            | ParserWarningView::EmptyFunction { context, .. } => if context.len() > 0 {
                Some(context)
            } else {
                None
            },
            ParserWarningView::Unknown => None,
        }
    }

    /// The message behind the code, with its line break.
    pub open spec fn message(self) -> Seq<char> {
        match self {
            ParserWarningView::UnnecessaryParentheses { token, .. } => {
                ": Unnecessary parentheses around "@ + token.literal + "\n"@
            },
            ParserWarningView::EmptyIfExpression { .. } => {
                ": The if expression has no meaningful consequence or alternative. Consider removing it.\n"@
            },
            ParserWarningView::EmptyIfConsequenceBranch { has_alternative, .. } => {
                if has_alternative {
                    ": The consequence of the if expression is empty. Consider swapping the alternative and consequence branches of the if expression.\n"@
                } else {
                    ": The if expression has no meaningful consequence. Consider removing it.\n"@
                }
            },
            ParserWarningView::EmptyIfAlternativeBranch { .. } => {
                ": The alternative of the if expression is empty, consider removing the alternative branch.\n"@
            },
            ParserWarningView::RedundantIfBranch { branch, .. } => {
                if branch {
                    ": The true branch of the if expression is redundant.\n"@
                } else {
                    ": The false branch of the if expression is redundant.\n"@
                }
            },
            ParserWarningView::PredictableIfBranch { is_true_branch, .. } => {
                if is_true_branch {
                    ": The if expression always selects the true branch, consider removing the other branch and inlining the if expression.\n"@
                } else {
                    ": The if expression always selects the false branch, consider removing the other branch and inlining the if expression.\n"@
                }
            },
            ParserWarningView::EmptyFunction { .. } => {
                ": The function has an empty body. Consider removing it if unnecessary.\n"@
            },
            ParserWarningView::Unknown => ": An unknown warning.\n"@,
        }
    }

    /// The diagnostic with the given coloured pieces.
    pub open spec fn rendered(self, p: PaintedView) -> Seq<char> {
        spec_layout(
            p,
            self.message(),
            self.token(),
            false,
            self.context_lines(),
            "\n    "@ + p.bar,
            Seq::empty(),
        ) + "\n"@
    }

    /// The pieces are those of this warning: the code `warning[E..]` with
    /// its number, the line number of its token, and one caret for each
    /// character of the token.
    pub open spec fn painted(self, p: PaintedView) -> bool {
        spec_painted(
            p,
            "warning"@,
            self.id(),
            match self.token() {
                Some(t) => t.line,
                None => 0,
            },
            match self.token() {
                Some(t) => t.literal.len(),
                None => 0,
            },
        )
    }
}

impl ParserWarning {
    /// The token that the warning is about, if it is about one.
    pub fn token(&self) -> (r: Option<&Token>)
        ensures
            match r {
                Some(t) => self@.token() == Some(t@),
                None => self@.token() is None,
            },
    {
        match self {
            ParserWarning::UnnecessaryParentheses { token, .. }
            | ParserWarning::EmptyIfExpression { token, .. }
            | ParserWarning::EmptyIfConsequenceBranch { token, .. }
            | ParserWarning::EmptyIfAlternativeBranch { token, .. }
            | ParserWarning::RedundantIfBranch { token, .. }
            | ParserWarning::PredictableIfBranch { token, .. }
            | ParserWarning::EmptyFunction { token, .. } => Some(token),
            ParserWarning::Unknown => None,
        }
    }

    /// The source lines that show the warning, if there are any.
    pub fn context_lines(&self) -> (r: Option<&Vec<String>>)
        ensures
            match r {
                Some(lines) => self@.context_lines() == Some(spec_texts(lines@)),
                None => self@.context_lines() is None,
            },
    {
        match self {
            ParserWarning::UnnecessaryParentheses { context, .. }
            | ParserWarning::EmptyIfExpression { context, .. }
            | ParserWarning::EmptyIfConsequenceBranch { context, .. }
            | ParserWarning::EmptyIfAlternativeBranch { context, .. }
            | ParserWarning::RedundantIfBranch { context, .. }
            | ParserWarning::PredictableIfBranch { context, .. }
            | ParserWarning::EmptyFunction { context, .. } => if context.len() > 0 {
                Some(context)
            } else {
                None
            },
            ParserWarning::Unknown => None,
        }
    }

    /// The message behind the code, with its line break.
    pub fn message(&self) -> (s: String)
        ensures
            s@ == self@.message(),
    {
        match self {
            ParserWarning::UnnecessaryParentheses { token, .. } => {
                let mut s = String::from_str(": Unnecessary parentheses around ");
                s.append(token.literal.as_str());
                s.append("\n");
                s
            },
            ParserWarning::EmptyIfExpression { .. } => String::from_str(
                ": The if expression has no meaningful consequence or alternative. Consider removing it.\n",
            ),
            ParserWarning::EmptyIfConsequenceBranch { has_alternative, .. } => {
                if *has_alternative {
                    String::from_str(
                        ": The consequence of the if expression is empty. Consider swapping the alternative and consequence branches of the if expression.\n",
                    )
                } else {
                    String::from_str(
                        ": The if expression has no meaningful consequence. Consider removing it.\n",
                    )
                }
            },
            ParserWarning::EmptyIfAlternativeBranch { .. } => String::from_str(
                ": The alternative of the if expression is empty, consider removing the alternative branch.\n",
            ),
            ParserWarning::RedundantIfBranch { branch, .. } => {
                if *branch {
                    String::from_str(": The true branch of the if expression is redundant.\n")
                } else {
                    String::from_str(": The false branch of the if expression is redundant.\n")
                }
            },
            ParserWarning::PredictableIfBranch { is_true_branch, .. } => {
                if *is_true_branch {
                    String::from_str(
                        ": The if expression always selects the true branch, consider removing the other branch and inlining the if expression.\n",
                    )
                } else {
                    String::from_str(
                        ": The if expression always selects the false branch, consider removing the other branch and inlining the if expression.\n",
                    )
                }
            },
            ParserWarning::EmptyFunction { .. } => String::from_str(
                ": The function has an empty body. Consider removing it if unnecessary.\n",
            ),
            ParserWarning::Unknown => String::from_str(": An unknown warning.\n"),
        }
    }

    /// The diagnostic with the given coloured pieces.
    pub fn render(&self, p: &Painted) -> (s: String)
        ensures
            s@ == self@.rendered(p@),
    {
        let message = self.message();
        let mut sep = String::from_str("\n    ");
        sep.append(p.bar.as_str());
        let mut s = layout(
            p,
            message.as_str(),
            self.token(),
            false,
            self.context_lines(),
            sep.as_str(),
            "",
        );
        s.append("\n");
        proof {
            reveal_strlit("");
            assert(""@ =~= Seq::<char>::empty());
        }
        s
    }

    /// The diagnostic for a terminal: the code and the carets in yellow,
    /// the margin in blue. The text is the layout of pieces that hold the
    /// code, the line number and the carets.
    pub fn to_string(&self) -> (s: String)
        ensures
            exists|p: PaintedView| s@ == self@.rendered(p) && self@.painted(p),
    {
        let (line, carets) = match self.token() {
            Some(token) => (token.line, token.literal.as_str().unicode_len()),
            None => (0, 0),
        };
        proof {
            reveal_strlit("warning");
        }
        let p = paint(Accent::Yellow, "warning", self.id(), line, carets);
        self.render(&p)
    }
}

impl RuntimeErrorCodeView {
    /// What is known of the place of the error, if anything.
    pub open spec fn context(self) -> Option<Seq<char>> {
        match self {
            RuntimeErrorCodeView::IdentifierNotFound { context, .. }
            | RuntimeErrorCodeView::InvalidOperation { context, .. }
            | RuntimeErrorCodeView::FunctionNotFound { context, .. }
            | RuntimeErrorCodeView::UnknownInfixOperator { context, .. } => context,
            _ => None,
        }
    }

    /// The diagnostic with the given coloured pieces: the code, the plain
    /// message, and what is known of the place on a line of its own.
    pub open spec fn rendered(self, p: PaintedView) -> Seq<char> {
        p.code + ": "@ + runtime_error_message(self) + "\n"@ + match self.context() {
            Some(context) => "    "@ + p.bar + "\t"@ + context + "\n"@,
            None => Seq::empty(),
        }
    }

    /// The pieces are those of this error: the code `runtime_error[E..]`
    /// with its number; it has no token.
    pub open spec fn painted(self, p: PaintedView) -> bool {
        spec_painted(p, "runtime_error"@, self.id(), 0, 0)
    }
}

impl RuntimeErrorCode {
    /// What is known of the place of the error, if anything.
    pub fn context(&self) -> (r: Option<&String>)
        ensures
            match r {
                Some(context) => self@.context() == Some(context@),
                None => self@.context() is None,
            },
    {
        match self {
            RuntimeErrorCode::IdentifierNotFound { context, .. }
            | RuntimeErrorCode::InvalidOperation { context, .. }
            | RuntimeErrorCode::FunctionNotFound { context, .. }
            | RuntimeErrorCode::UnknownInfixOperator { context, .. } => context.as_ref(),
            _ => None,
        }
    }
}

impl RuntimeError {
    /// The diagnostic with the given coloured pieces.
    pub fn render(&self, p: &Painted) -> (s: String)
        ensures
            s@ == self@.code.rendered(p@),
    {
        let mut s = p.code.clone();
        s.append(": ");
        let message = self.message();
        s.append(message.as_str());
        s.append("\n");
        match self.code.context() {
            Some(context) => {
                let mut line = String::from_str("    ");
                line.append(p.bar.as_str());
                line.append("\t");
                line.append(context.as_str());
                line.append("\n");
                s.append(line.as_str());
            },
            None => {
                assert(s@ =~= p.code@ + ": "@ + runtime_error_message(self@.code) + "\n"@
                    + Seq::<char>::empty());
            },
        }
        s
    }

    /// The diagnostic for a terminal: the code in red, the margin in blue.
    pub fn to_string(&self) -> (s: String)
        ensures
            exists|p: PaintedView| s@ == self@.code.rendered(p) && self@.code.painted(p),
    {
        proof {
            reveal_strlit("runtime_error");
        }
        let p = paint(Accent::Red, "runtime_error", self.code.id(), 0, 0);
        self.render(&p)
    }
}

impl Error {
    /// The diagnostic of the error for a terminal.
    pub fn to_string(&self) -> (s: String)
        ensures
            exists|p: PaintedView| s@ == self.err@.code.rendered(p) && self.err@.code.painted(p),
    {
        self.err.to_string()
    }
}

} // verus!
