//! What the parser computes, as functions on the sequence of tokens.
//!
//! A state is a position in the token sequence with the errors and warnings
//! gathered so far. Each function takes the state in which a construct
//! starts and gives the state behind it with the outcome: the node, or the
//! error that ended the attempt.

use vstd::prelude::*;
use crate::ast::{
    BlockStatementView, BooleanExpressionView, ExpressionView, IdentifierView, IntegerLiteralView,
    NullExpressionView, StatementView, StringLiteralView, TypedIdentifierView,
};
use crate::diagnostics::{
    ParserErrorCodeView, ParserErrorView, ParserWarningView,
};
use crate::lexer::spec_get_line;
use crate::precedence::Precedence;
use crate::text::spec_parse_decimal;
use crate::token::{
    KeywordTokenType, TokenType, TokenView,
};

verus! {

/// The tokens of a source text, up to the first `EOF`, and the text itself.
pub struct Source {
    pub tokens: Seq<TokenView>,
    pub text: Seq<char>,
}

/// Where the parser stands, and what it has reported so far.
pub struct ParserState {
    pub position: nat,
    pub errors: Seq<ParserErrorView>,
    pub warnings: Seq<ParserWarningView>,
}

/// The state behind a construct, and the construct or the error that ended
/// the attempt.
pub struct Parsed<T> {
    pub state: ParserState,
    pub result: Result<T, ParserErrorView>,
}

/// The token that stands for the end of the input behind the last token.
pub open spec fn spec_end_token() -> TokenView {
    TokenView { t: TokenType::EOF, literal: seq!['\0'], line: 0, column: 0, file: None }
}

/// The delimiter that the token kind is, if it is one.
pub open spec fn spec_delimiter(t: TokenType) -> Option<TokenType> {
    if t.spec_is_delimiter() {
        Some(t)
    } else {
        None
    }
}

/// Whether an expression can start with a token of the kind.
pub open spec fn spec_has_prefix(t: TokenType) -> bool {
    match t {
        TokenType::IDENT
        | TokenType::INT
        | TokenType::STRING
        | TokenType::LPAREN
        | TokenType::INCR
        | TokenType::DECR
        | TokenType::BANG
        | TokenType::MINUS
        | TokenType::RANGE
        | TokenType::IRANGE
        | TokenType::KEYWORD(KeywordTokenType::TRUE)
        | TokenType::KEYWORD(KeywordTokenType::FALSE)
        | TokenType::KEYWORD(KeywordTokenType::NULL)
        | TokenType::KEYWORD(KeywordTokenType::IF)
        | TokenType::KEYWORD(KeywordTokenType::FUN) => true,
        _ => false,
    }
}

/// Whether a token of the kind can extend an expression on its left: the
/// binary operators, and `(` for a call.
pub open spec fn spec_is_infix(t: TokenType) -> bool {
    match t {
        TokenType::PLUS
        | TokenType::MINUS
        | TokenType::ASTERISK
        | TokenType::FORWARDSLASH
        | TokenType::IRANGE
        | TokenType::RANGE
        | TokenType::DASTERISK
        | TokenType::EXPONENT
        | TokenType::AND
        | TokenType::OR
        | TokenType::LT
        | TokenType::LTE
        | TokenType::GT
        | TokenType::GTE
        | TokenType::EQ
        | TokenType::NEQ
        | TokenType::LSHIFT
        | TokenType::RSHIFT
        | TokenType::PERCENT
        | TokenType::LPAREN => true,
        _ => false,
    }
}

/// An error that no other error led to.
pub open spec fn spec_error(code: ParserErrorCodeView) -> ParserErrorView {
    ParserErrorView { source: None, code }
}

/// The error for a token that is none of the expected kinds.
pub open spec fn spec_unexpected(
    token: TokenView,
    expected: Seq<TokenType>,
    context: Option<Seq<char>>,
) -> ParserErrorView {
    spec_error(
        ParserErrorCodeView::UnexpectedToken { token, expected_token_types: expected, context },
    )
}

/// The identifier that a token spells.
pub open spec fn spec_identifier(token: TokenView) -> IdentifierView {
    IdentifierView { token, value: token.literal }
}

impl Source {
    /// The token at a position; the end token behind the last one.
    pub open spec fn at(self, position: nat) -> TokenView {
        if position < self.tokens.len() {
            self.tokens[position as int]
        } else {
            spec_end_token()
        }
    }

    /// The position behind the given one; the same position once the end
    /// of the input is reached.
    pub open spec fn next(self, position: nat) -> nat {
        if self.at(position).t == TokenType::EOF {
            position
        } else {
            position + 1
        }
    }

    /// The number of tokens from a position on.
    pub open spec fn remaining(self, position: nat) -> nat {
        if position <= self.tokens.len() {
            (self.tokens.len() - position) as nat
        } else {
            0
        }
    }

    /// The current token of a state.
    pub open spec fn current(self, state: ParserState) -> TokenView {
        self.at(state.position)
    }

    /// The token behind the current one.
    pub open spec fn peek(self, state: ParserState) -> TokenView {
        self.at(self.next(state.position))
    }

    /// The state one token further.
    pub open spec fn advance(self, state: ParserState) -> ParserState {
        ParserState { position: self.next(state.position), ..state }
    }

    /// The source line with the given number, if there is one.
    pub open spec fn line(self, n: nat) -> Option<Seq<char>> {
        spec_get_line(self.text, n)
    }

    /// The source line with the given number as the context of a warning:
    /// no line where there is none.
    pub open spec fn context(self, n: nat) -> Seq<Seq<char>> {
        match self.line(n) {
            Some(line) => seq![line],
            None => Seq::empty(),
        }
    }

    /// The source line with the given number as the context of a delimiter
    /// mismatch: an empty line where there is none.
    pub open spec fn context_or_empty(self, n: nat) -> Seq<Seq<char>> {
        match self.line(n) {
            Some(line) => seq![line],
            None => seq![Seq::empty()],
        }
    }
}

impl ParserState {
    /// The state with one more error reported.
    pub open spec fn error(self, e: ParserErrorView) -> ParserState {
        ParserState { errors: self.errors.push(e), ..self }
    }

    /// The state with one more warning reported.
    pub open spec fn warn(self, w: ParserWarningView) -> ParserState {
        ParserState { warnings: self.warnings.push(w), ..self }
    }

    /// The state, held to stand no earlier than `before`: the parser never
    /// moves back.
    pub open spec fn since(self, before: ParserState) -> ParserState {
        if self.position >= before.position {
            self
        } else {
            ParserState { position: before.position, ..self }
        }
    }
}

/// The success of a construct.
pub open spec fn spec_ok<T>(state: ParserState, value: T) -> Parsed<T> {
    Parsed { state, result: Ok(value) }
}

/// The failure of a construct.
pub open spec fn spec_fail<T>(state: ParserState, error: ParserErrorView) -> Parsed<T> {
    Parsed { state, result: Err(error) }
}

/// Error recovery: past every token of the given line, up to the end of the
/// input.
pub open spec fn spec_skip_line(src: Source, state: ParserState, line: nat) -> ParserState
    decreases src.remaining(state.position),
{
    if src.current(state).line == line && src.current(state).t != TokenType::EOF {
        spec_skip_line(src, src.advance(state), line)
    } else {
        state
    }
}

/// Error recovery never moves back.
pub proof fn lemma_skip_line_forward(src: Source, state: ParserState, line: nat)
    ensures
        spec_skip_line(src, state, line).position >= state.position,
        spec_skip_line(src, state, line).errors == state.errors,
        spec_skip_line(src, state, line).warnings == state.warnings,
    decreases src.remaining(state.position),
{
    if src.current(state).line == line && src.current(state).t != TokenType::EOF {
        lemma_skip_line_forward(src, src.advance(state), line);
    }
}

/// Error recovery from a token that is not the end of the input passes over
/// that token at least.
pub proof fn lemma_skip_line_progress(src: Source, state: ParserState)
    ensures
        src.current(state).t != TokenType::EOF ==> spec_skip_line(
            src,
            state,
            src.current(state).line,
        ).position > state.position,
{
    if src.current(state).t != TokenType::EOF {
        lemma_skip_line_forward(src, src.advance(state), src.current(state).line);
    }
}

/// The optional type annotation of a declaration: `: IDENT` gives the name
/// of the type; a `:` with no identifier behind it is passed over.
pub open spec fn spec_parse_type_specifier(src: Source, state: ParserState) -> (
    ParserState,
    Option<Seq<char>>,
) {
    if src.peek(state).t == TokenType::COLON {
        let at_colon = src.advance(state);
        if src.peek(at_colon).t == TokenType::IDENT {
            let at_type = src.advance(at_colon);
            (at_type, Some(src.current(at_type).literal))
        } else {
            (at_colon, None)
        }
    } else {
        (state, None)
    }
}

/// One parameter at the current token: its name, and its type where a `:`
/// follows.
pub open spec fn spec_parse_parameter(src: Source, state: ParserState) -> (
    ParserState,
    TypedIdentifierView,
) {
    let identifier = spec_identifier(src.current(state));
    if src.peek(state).t == TokenType::COLON {
        let at_type = src.advance(src.advance(state));
        (
            at_type,
            TypedIdentifierView { identifier, t: Some(spec_identifier(src.current(at_type))) },
        )
    } else {
        (state, TypedIdentifierView { identifier, t: None })
    }
}

/// The parameters behind the first, each behind a comma.
pub open spec fn spec_parse_more_parameters(
    src: Source,
    state: ParserState,
    parameters: Seq<TypedIdentifierView>,
) -> (ParserState, Seq<TypedIdentifierView>)
    decreases src.remaining(state.position),
{
    if src.peek(state).t == TokenType::COMMA {
        let (behind, parameter) = spec_parse_parameter(src, src.advance(src.advance(state)));
        spec_parse_more_parameters(src, behind, parameters.push(parameter))
    } else {
        (state, parameters)
    }
}

/// The parameter list of a function literal, from its `(` to its `)`.
pub open spec fn spec_parse_function_parameters(src: Source, state: ParserState) -> Parsed<
    Seq<TypedIdentifierView>,
> {
    if src.peek(state).t == TokenType::RPAREN {
        spec_ok(src.advance(state), Seq::empty())
    } else {
        let (at_first, first) = spec_parse_parameter(src, src.advance(state));
        let (at_last, parameters) = spec_parse_more_parameters(src, at_first, seq![first]);
        if src.peek(at_last).t == TokenType::RPAREN {
            spec_ok(src.advance(at_last), parameters)
        } else {
            spec_fail(
                at_last,
                spec_unexpected(
                    src.peek(at_last),
                    seq![TokenType::RPAREN],
                    src.line(src.current(at_last).line),
                ),
            )
        }
    }
}

/// The warning for the branches of an `if` that hold no statement, if any
/// is due: for both branches empty, for an empty consequence, or for an
/// empty alternative. `alternative_empty` is `None` where there is no
/// alternative.
pub open spec fn spec_if_warning(
    consequence_token: TokenView,
    consequence_empty: bool,
    alternative_token: TokenView,
    alternative_empty: Option<bool>,
    context: Seq<Seq<char>>,
) -> Option<ParserWarningView> {
    match alternative_empty {
        Some(alt_empty) => {
            if alt_empty && consequence_empty {
                Some(ParserWarningView::EmptyIfExpression { token: consequence_token, context })
            } else if consequence_empty {
                Some(
                    ParserWarningView::EmptyIfConsequenceBranch {
                        token: consequence_token,
                        context,
                        has_alternative: true,
                    },
                )
            } else if alt_empty {
                Some(
                    ParserWarningView::EmptyIfAlternativeBranch { token: alternative_token, context },
                )
            } else {
                None
            }
        },
        None => {
            if consequence_empty {
                Some(
                    ParserWarningView::EmptyIfConsequenceBranch {
                        token: consequence_token,
                        context,
                        has_alternative: false,
                    },
                )
            } else {
                None
            }
        },
    }
}

/// The state with the warning reported, if there is one.
pub open spec fn spec_warn_if_some(state: ParserState, warning: Option<ParserWarningView>) -> ParserState {
    match warning {
        Some(w) => state.warn(w),
        None => state,
    }
}

/// The statements of a program from the state on, behind those already
/// parsed, up to the end of the input. Stray semicolons are passed over; a
/// `{` starts a block; a statement that fails is reported, the rest of the
/// line on which the attempt ended is passed over, and parsing goes on at
/// the first token of another line.
#[verifier::opaque]
pub open spec fn spec_parse_program(
    src: Source,
    state: ParserState,
    statements: Seq<StatementView>,
) -> (ParserState, Seq<StatementView>)
    decreases src.remaining(state.position), 7nat,
{
    let current = src.current(state);
    if current.t == TokenType::EOF {
        (state, statements)
    } else if current.t == TokenType::SEMICOLON {
        spec_parse_program(src, src.advance(state), statements)
    } else if current.t == TokenType::LBRACE {
        let inside = src.advance(state);
        let block = spec_parse_block_body(src, inside, current, Seq::empty());
        let behind = block.state.since(inside);
        match block.result {
            Ok(b) => spec_parse_program(
                src,
                src.advance(behind),
                statements.push(StatementView::Block(b)),
            ),
            Err(e) => {
                proof {
                    lemma_skip_line_forward(src, behind.error(e), src.current(behind).line);
                }
                spec_parse_program(
                    src,
                    spec_skip_line(src, behind.error(e), src.current(behind).line),
                    statements,
                )
            },
        }
    } else {
        let statement = spec_parse_statement(src, state);
        let behind = statement.state.since(state);
        match statement.result {
            Ok(s) => spec_parse_program(src, src.advance(behind), statements.push(s)),
            Err(e) => {
                proof {
                    lemma_skip_line_progress(src, behind.error(e));
                }
                spec_parse_program(
                    src,
                    spec_skip_line(src, behind.error(e), src.current(behind).line),
                    statements,
                )
            },
        }
    }
}

/// A block whose `{` is the current token.
pub open spec fn spec_parse_block_statement(src: Source, state: ParserState) -> Parsed<
    BlockStatementView,
> {
    spec_parse_block_body(src, src.advance(state), src.current(state), Seq::empty())
}

/// The statements of a block from the state on, up to its `}`, behind those
/// already parsed. A statement that fails is reported and left out.
#[verifier::opaque]
pub open spec fn spec_parse_block_body(
    src: Source,
    state: ParserState,
    token: TokenView,
    statements: Seq<StatementView>,
) -> Parsed<BlockStatementView>
    decreases src.remaining(state.position), 6nat,
{
    let current = src.current(state);
    if current.t == TokenType::RBRACE {
        spec_ok(state, BlockStatementView { token, statements })
    } else if current.t == TokenType::EOF {
        spec_fail(
            state,
            spec_unexpected(current, seq![TokenType::RBRACE], src.line(current.line)),
        )
    } else {
        let statement = spec_parse_statement(src, state);
        let behind = statement.state.since(state);
        match statement.result {
            Ok(s) => spec_parse_block_body(src, src.advance(behind), token, statements.push(s)),
            Err(e) => spec_parse_block_body(src, src.advance(behind.error(e)), token, statements),
        }
    }
}

/// One statement: a declaration, a `return`, or an expression.
#[verifier::opaque]
pub open spec fn spec_parse_statement(src: Source, state: ParserState) -> Parsed<StatementView>
    decreases src.remaining(state.position), 5nat,
{
    match src.current(state).t {
        TokenType::KEYWORD(KeywordTokenType::LET)
        | TokenType::KEYWORD(KeywordTokenType::CONST)
        | TokenType::KEYWORD(KeywordTokenType::VAR) => spec_parse_declare_statement(src, state),
        TokenType::KEYWORD(KeywordTokenType::RETURN) => spec_parse_return_statement(src, state),
        _ => spec_parse_expression_statement(src, state),
    }
}

/// A declaration: the keyword, a name, an optional type annotation, and
/// either `;` or `=`, a value and `;`. Where neither `;` nor `=` follows the
/// name, the `=` is reported as missing.
#[verifier::opaque]
pub open spec fn spec_parse_declare_statement(src: Source, state: ParserState) -> Parsed<
    StatementView,
>
    decreases src.remaining(state.position), 4nat,
    when src.current(state).t != TokenType::EOF
{
    let token = src.current(state);
    if src.peek(state).t != TokenType::IDENT {
        spec_fail(state, spec_unexpected(token, seq![TokenType::IDENT], src.line(token.line)))
    } else {
        let at_name = src.advance(state);
        let name = spec_identifier(src.current(at_name));
        let (at_type, type_specifier) = spec_parse_type_specifier(src, at_name);
        if src.peek(at_type).t == TokenType::SEMICOLON {
            spec_ok(
                src.advance(at_type),
                StatementView::Declare { token, name, type_specifier, value: None },
            )
        } else if src.peek(at_type).t != TokenType::ASSIGN {
            spec_fail(
                at_type,
                spec_unexpected(
                    src.current(at_type),
                    seq![TokenType::ASSIGN],
                    src.line(src.current(at_type).line),
                ),
            )
        } else {
            let at_value = src.advance(src.advance(at_type));
            let value = spec_parse_expression(src, at_value, Precedence::LOWEST);
            let behind = value.state.since(at_value);
            match value.result {
                Ok(v) => {
                    if src.peek(behind).t == TokenType::SEMICOLON {
                        spec_ok(
                            src.advance(behind),
                            StatementView::Declare { token, name, type_specifier, value: Some(v) },
                        )
                    } else {
                        spec_fail(
                            behind,
                            spec_unexpected(
                                src.current(behind),
                                seq![TokenType::SEMICOLON],
                                src.line(src.current(behind).line),
                            ),
                        )
                    }
                },
                Err(e) => spec_fail(behind, e),
            }
        }
    }
}

/// A `return`: the keyword and `;`, or the keyword, a value and `;`.
#[verifier::opaque]
pub open spec fn spec_parse_return_statement(src: Source, state: ParserState) -> Parsed<
    StatementView,
>
    decreases src.remaining(state.position), 4nat,
    when src.current(state).t != TokenType::EOF
{
    let token = src.current(state);
    if src.peek(state).t == TokenType::SEMICOLON {
        spec_ok(src.advance(state), StatementView::Return { token, value: None })
    } else {
        let at_value = src.advance(state);
        let value = spec_parse_expression(src, at_value, Precedence::LOWEST);
        let behind = value.state.since(at_value);
        match value.result {
            Ok(v) => {
                if src.peek(behind).t == TokenType::SEMICOLON {
                    spec_ok(src.advance(behind), StatementView::Return { token, value: Some(v) })
                } else {
                    spec_fail(
                        behind,
                        spec_unexpected(
                            src.current(behind),
                            seq![TokenType::SEMICOLON],
                            src.line(src.peek(behind).line),
                        ),
                    )
                }
            },
            Err(e) => spec_fail(behind, e),
        }
    }
}

/// An expression as a statement, with the `;` behind it where there is one.
#[verifier::opaque]
pub open spec fn spec_parse_expression_statement(src: Source, state: ParserState) -> Parsed<
    StatementView,
>
    decreases src.remaining(state.position), 4nat,
{
    let expression = spec_parse_expression(src, state, Precedence::LOWEST);
    let behind = expression.state.since(state);
    match expression.result {
        Ok(e) => {
            let statement = StatementView::Expression { token: src.current(state), expression: e };
            if src.peek(behind).t == TokenType::SEMICOLON {
                spec_ok(src.advance(behind), statement)
            } else {
                spec_ok(behind, statement)
            }
        },
        Err(e) => spec_fail(behind, e),
    }
}

/// An expression whose operators all bind tighter than `precedence`.
#[verifier::opaque]
pub open spec fn spec_parse_expression(src: Source, state: ParserState, precedence: Precedence) -> Parsed<
    ExpressionView,
>
    decreases src.remaining(state.position), 3nat,
{
    let current = src.current(state);
    if spec_has_prefix(current.t) {
        let left = spec_parse_prefix(src, state);
        let behind = left.state.since(state);
        match left.result {
            Ok(l) => spec_parse_operators(src, behind, precedence, l),
            Err(e) => spec_fail(behind, e),
        }
    } else {
        spec_fail(
            state,
            spec_error(
                ParserErrorCodeView::UnknownPrefixToken {
                    token: current,
                    context: src.line(current.line),
                },
            ),
        )
    }
}

/// The operators that extend `left`, as long as they bind tighter than
/// `precedence`. A `;` ahead ends the expression; so does the end of the
/// input, as an error.
#[verifier::opaque]
pub open spec fn spec_parse_operators(
    src: Source,
    state: ParserState,
    precedence: Precedence,
    left: ExpressionView,
) -> Parsed<ExpressionView>
    decreases src.remaining(state.position), 2nat,
{
    let current = src.current(state);
    let peek = src.peek(state);
    if peek.t == TokenType::SEMICOLON {
        spec_ok(state, left)
    } else if current.t == TokenType::EOF {
        spec_fail(state, spec_unexpected(current, seq![TokenType::EOF], src.line(current.line)))
    } else if precedence.spec_rank() >= Precedence::spec_from_token_type(peek.t).spec_rank() {
        spec_ok(state, left)
    } else if !spec_is_infix(peek.t) {
        spec_ok(state, left)
    } else {
        let at_operator = src.advance(state);
        let extended = spec_parse_infix(src, at_operator, left);
        let behind = extended.state.since(at_operator);
        match extended.result {
            Ok(l) => spec_parse_operators(src, behind, precedence, l),
            Err(e) => spec_fail(behind, e),
        }
    }
}

/// The expression that starts at the current token and has no operand on
/// its left.
#[verifier::opaque]
pub open spec fn spec_parse_prefix(src: Source, state: ParserState) -> Parsed<ExpressionView>
    decreases src.remaining(state.position), 2nat,
{
    let current = src.current(state);
    match current.t {
        TokenType::IDENT => spec_ok(state, ExpressionView::Identifier(spec_identifier(current))),
        TokenType::KEYWORD(KeywordTokenType::TRUE) | TokenType::KEYWORD(
            KeywordTokenType::FALSE,
        ) => spec_ok(
            state,
            ExpressionView::Boolean(
                BooleanExpressionView { token: current, value: current.literal == "true"@ },
            ),
        ),
        TokenType::KEYWORD(KeywordTokenType::NULL) => spec_ok(
            state,
            ExpressionView::Null(NullExpressionView { token: current }),
        ),
        TokenType::INT => match spec_parse_decimal(current.literal) {
            Some(value) => spec_ok(
                state,
                ExpressionView::IntegerLiteral(IntegerLiteralView { token: current, value }),
            ),
            None => spec_fail(
                state,
                spec_error(
                    ParserErrorCodeView::UnknownPrefixToken {
                        token: current,
                        context: src.line(current.line),
                    },
                ),
            ),
        },
        TokenType::STRING => spec_ok(
            state,
            ExpressionView::StringLiteral(
                StringLiteralView { token: current, content: current.literal },
            ),
        ),
        TokenType::LPAREN => spec_parse_grouped_expression(src, state),
        TokenType::KEYWORD(KeywordTokenType::IF) => spec_parse_if_expression(src, state),
        TokenType::KEYWORD(KeywordTokenType::FUN) => spec_parse_function_literal(src, state),
        _ => spec_parse_prefix_expression(src, state),
    }
}

/// A parenthesised expression: the expression between the parentheses.
/// Where no `)` follows, that is the error, whatever the expression was.
#[verifier::opaque]
pub open spec fn spec_parse_grouped_expression(src: Source, state: ParserState) -> Parsed<
    ExpressionView,
>
    decreases src.remaining(state.position), 0nat,
    when src.current(state).t != TokenType::EOF
{
    let inside = src.advance(state);
    let inner = spec_parse_expression(src, inside, Precedence::LOWEST);
    let behind = inner.state.since(inside);
    if src.peek(behind).t != TokenType::RPAREN {
        spec_fail(
            behind,
            spec_unexpected(
                src.current(behind),
                seq![TokenType::RPAREN],
                src.line(src.current(behind).line),
            ),
        )
    } else {
        Parsed { state: src.advance(behind), result: inner.result }
    }
}

/// A prefix operator and its operand. Behind a failing operand one token
/// is passed over.
#[verifier::opaque]
pub open spec fn spec_parse_prefix_expression(src: Source, state: ParserState) -> Parsed<
    ExpressionView,
>
    decreases src.remaining(state.position), 0nat,
    when src.current(state).t != TokenType::EOF
{
    let token = src.current(state);
    let at_operand = src.advance(state);
    let operand = spec_parse_expression(src, at_operand, Precedence::PREFIX);
    let behind = operand.state.since(at_operand);
    match operand.result {
        Ok(rhs) => spec_ok(
            behind,
            ExpressionView::Prefix { token, operator: token.literal, rhs: Box::new(rhs) },
        ),
        Err(e) => spec_fail(src.advance(behind), e),
    }
}

/// A binary operator and its right operand, or the arguments of a call,
/// behind the operand `left`; the current token is the operator or the `(`.
#[verifier::opaque]
pub open spec fn spec_parse_infix(src: Source, state: ParserState, left: ExpressionView) -> Parsed<
    ExpressionView,
>
    decreases src.remaining(state.position), 1nat,
    when src.current(state).t != TokenType::EOF
{
    let token = src.current(state);
    if token.t == TokenType::LPAREN {
        let arguments = spec_parse_call_arguments(src, state);
        let behind = arguments.state.since(state);
        match arguments.result {
            Ok(args) => spec_ok(
                behind,
                ExpressionView::Call { token, function: Box::new(left), args },
            ),
            Err(e) => spec_fail(behind, e),
        }
    } else {
        let at_operand = src.advance(state);
        let operand = spec_parse_expression(
            src,
            at_operand,
            Precedence::spec_from_token_type(token.t),
        );
        let behind = operand.state.since(at_operand);
        match operand.result {
            Ok(rhs) => spec_ok(
                behind,
                ExpressionView::Infix {
                    token,
                    lhs: Box::new(left),
                    operator: token.literal,
                    rhs: Box::new(rhs),
                },
            ),
            Err(e) => spec_fail(behind, e),
        }
    }
}

/// The arguments of a call, from its `(` to its `)`.
#[verifier::opaque]
pub open spec fn spec_parse_call_arguments(src: Source, state: ParserState) -> Parsed<
    Seq<ExpressionView>,
>
    decreases src.remaining(state.position), 0nat,
    when src.current(state).t != TokenType::EOF
{
    if src.peek(state).t == TokenType::RPAREN {
        spec_ok(src.advance(state), Seq::empty())
    } else {
        let at_first = src.advance(state);
        let first = spec_parse_expression(src, at_first, Precedence::LOWEST);
        let behind = first.state.since(at_first);
        match first.result {
            Ok(argument) => spec_parse_more_arguments(src, behind, seq![argument]),
            Err(e) => spec_fail(behind, e),
        }
    }
}

/// The arguments behind the first, each behind a comma, and the `)`.
#[verifier::opaque]
pub open spec fn spec_parse_more_arguments(
    src: Source,
    state: ParserState,
    arguments: Seq<ExpressionView>,
) -> Parsed<Seq<ExpressionView>>
    decreases src.remaining(state.position), 0nat,
{
    if src.peek(state).t == TokenType::COMMA {
        let at_next = src.advance(src.advance(state));
        let next = spec_parse_expression(src, at_next, Precedence::LOWEST);
        let behind = next.state.since(at_next);
        match next.result {
            Ok(argument) => spec_parse_more_arguments(src, behind, arguments.push(argument)),
            Err(e) => spec_fail(behind, e),
        }
    } else if src.peek(state).t == TokenType::RPAREN {
        spec_ok(src.advance(state), arguments)
    } else {
        spec_fail(
            state,
            spec_unexpected(
                src.current(state),
                seq![TokenType::RPAREN],
                src.line(src.peek(state).line),
            ),
        )
    }
}

/// What stands between `fn` and the body of a function literal.
pub struct FunctionHeaderView {
    pub name: Option<IdentifierView>,
    pub parameters: Seq<TypedIdentifierView>,
    pub return_type: Option<IdentifierView>,
}

/// The header of a function literal, from `fn` to the `{` of the body: an
/// optional name, the parameters, and an optional `->` with a return type.
pub open spec fn spec_parse_function_header(src: Source, state: ParserState) -> Parsed<
    FunctionHeaderView,
> {
    let named = src.peek(state).t == TokenType::IDENT;
    let at_name = if named {
        src.advance(state)
    } else {
        state
    };
    let name = if named {
        Some(spec_identifier(src.current(at_name)))
    } else {
        None
    };
    if src.peek(at_name).t != TokenType::LPAREN {
        spec_fail(
            at_name,
            spec_unexpected(
                src.current(at_name),
                seq![TokenType::LPAREN],
                src.line(src.current(at_name).line),
            ),
        )
    } else {
        let parameters = spec_parse_function_parameters(src, src.advance(at_name));
        let behind = parameters.state;
        match parameters.result {
            Err(e) => spec_fail(behind, e),
            Ok(params) => {
                let arrow = src.peek(behind).t == TokenType::ARROW;
                let at_arrow = src.advance(behind);
                if arrow && src.peek(at_arrow).t != TokenType::IDENT {
                    spec_fail(
                        at_arrow,
                        spec_error(
                            ParserErrorCodeView::MissingFnReturnType {
                                token: src.current(at_arrow),
                                context: src.line(src.current(at_arrow).line),
                            },
                        ),
                    )
                } else {
                    let at_type = if arrow {
                        src.advance(at_arrow)
                    } else {
                        behind
                    };
                    let return_type = if arrow {
                        Some(spec_identifier(src.current(at_type)))
                    } else {
                        None
                    };
                    if src.peek(at_type).t != TokenType::LBRACE {
                        spec_fail(
                            at_type,
                            spec_unexpected(
                                src.current(at_type),
                                seq![TokenType::LBRACE, TokenType::ARROW],
                                src.line(src.current(at_type).line),
                            ),
                        )
                    } else {
                        spec_ok(
                            src.advance(at_type),
                            FunctionHeaderView { name, parameters: params, return_type },
                        )
                    }
                }
            },
        }
    }
}

/// The function literal made of the given parts, with the warning for a
/// body without statements where it is due.
pub open spec fn spec_finish_function(
    src: Source,
    state: ParserState,
    token: TokenView,
    header: FunctionHeaderView,
    body: BlockStatementView,
) -> Parsed<ExpressionView> {
    spec_ok(
        if body.statements.len() == 0 {
            state.warn(
                ParserWarningView::EmptyFunction {
                    token: src.current(state),
                    context: src.context(src.current(state).line),
                },
            )
        } else {
            state
        },
        ExpressionView::Function {
            token,
            name: header.name,
            visibility: None,
            parameters: header.parameters,
            return_type: header.return_type,
            body,
        },
    )
}

/// A function literal: `fn`, the header, and the body.
#[verifier::opaque]
pub open spec fn spec_parse_function_literal(src: Source, state: ParserState) -> Parsed<
    ExpressionView,
>
    decreases src.remaining(state.position), 0nat,
    when src.current(state).t != TokenType::EOF
{
    let header = spec_parse_function_header(src, state);
    let at_brace = header.state.since(state);
    match header.result {
        Err(e) => spec_fail(at_brace, e),
        Ok(h) => {
            let inside = src.advance(at_brace).since(src.advance(state));
            let body = spec_parse_block_body(src, inside, src.current(at_brace), Seq::empty());
            let end = body.state.since(inside);
            match body.result {
                Err(e) => spec_fail(end, e),
                Ok(b) => spec_finish_function(src, end, src.current(state), h, b),
            }
        },
    }
}

/// The start of an `if` expression, up to the token before the condition:
/// whether the condition stands in parentheses (then a warning is due), or
/// the error for a condition that is missing.
pub open spec fn spec_parse_if_opening(src: Source, state: ParserState) -> Parsed<bool> {
    let paren = src.peek(state).t == TokenType::LPAREN;
    let at_open = if paren {
        src.advance(state).warn(
            ParserWarningView::UnnecessaryParentheses {
                token: src.peek(src.advance(state)),
                context: src.context(src.current(src.advance(state)).line),
            },
        )
    } else {
        state
    };
    if (paren && src.peek(at_open).t == TokenType::RPAREN) || src.peek(at_open).t
        == TokenType::LBRACE {
        spec_fail(
            at_open,
            spec_error(
                ParserErrorCodeView::MissingIfCondition {
                    token: src.current(at_open),
                    context: src.line(src.current(at_open).line),
                },
            ),
        )
    } else {
        spec_ok(at_open, paren)
    }
}

/// From the last token of the condition of an `if` to the `{` of its
/// consequence: the `)` where the condition stands in parentheses, and the
/// errors for a parenthesis without its pair and for a missing `{`.
pub open spec fn spec_parse_if_closing(src: Source, state: ParserState, paren: bool) -> Parsed<()> {
    if !paren && src.peek(state).t == TokenType::RPAREN {
        spec_fail(
            state,
            spec_error(
                ParserErrorCodeView::DelimiterMismatch {
                    token: src.current(state),
                    expected_delimiter: TokenType::LPAREN,
                    current_delimiter: spec_delimiter(src.current(state).t),
                    context: Some(src.context_or_empty(src.current(state).line)),
                },
            ),
        )
    } else if paren && src.peek(state).t != TokenType::RPAREN {
        spec_fail(
            state,
            spec_error(
                ParserErrorCodeView::DelimiterMismatch {
                    token: src.peek(state),
                    expected_delimiter: TokenType::RPAREN,
                    current_delimiter: spec_delimiter(src.current(state).t),
                    context: Some(src.context_or_empty(src.peek(state).line)),
                },
            ),
        )
    } else {
        let at_brace = if paren {
            src.advance(src.advance(state))
        } else {
            src.advance(state)
        };
        if src.current(at_brace).t != TokenType::LBRACE {
            spec_fail(
                at_brace,
                spec_unexpected(
                    src.current(at_brace),
                    seq![TokenType::LBRACE],
                    src.line(src.current(at_brace).line),
                ),
            )
        } else {
            spec_ok(at_brace, ())
        }
    }
}

/// An `if` expression: `if`, the condition, which may stand in parentheses,
/// the consequence block, and optionally `else` with the alternative block.
#[verifier::opaque]
pub open spec fn spec_parse_if_expression(src: Source, state: ParserState) -> Parsed<ExpressionView>
    decreases src.remaining(state.position), 1nat,
    when src.current(state).t != TokenType::EOF
{
    let opening = spec_parse_if_opening(src, state);
    match opening.result {
        Err(e) => spec_fail(opening.state, e),
        Ok(paren) => {
            let at_condition = src.advance(opening.state.since(state));
            let condition = spec_parse_expression(src, at_condition, Precedence::LOWEST);
            let behind = condition.state.since(at_condition);
            match condition.result {
                Err(e) => spec_fail(behind, e),
                Ok(c) => {
                    let closing = spec_parse_if_closing(src, behind, paren);
                    match closing.result {
                        Err(e) => spec_fail(closing.state, e),
                        Ok(_) => spec_parse_if_branches(
                            src,
                            closing.state.since(behind),
                            src.current(state),
                            c,
                        ),
                    }
                },
            }
        },
    }
}

/// The `if` expression made of the given parts, with the warning for
/// branches without statements where one is due.
pub open spec fn spec_finish_if(
    src: Source,
    state: ParserState,
    token: TokenView,
    condition: ExpressionView,
    consequence_token: TokenView,
    consequence: BlockStatementView,
    alternative_token: TokenView,
    alternative: Option<BlockStatementView>,
) -> Parsed<ExpressionView> {
    spec_ok(
        spec_warn_if_some(
            state,
            spec_if_warning(
                consequence_token,
                consequence.statements.len() == 0,
                alternative_token,
                match alternative {
                    Some(alt) => Some(alt.statements.len() == 0),
                    None => None,
                },
                src.context(src.current(state).line),
            ),
        ),
        ExpressionView::If { token, condition: Box::new(condition), consequence, alternative },
    )
}

/// The branches of an `if` expression with the given `if` token and
/// condition, from the `{` of the consequence on.
#[verifier::opaque]
pub open spec fn spec_parse_if_branches(
    src: Source,
    state: ParserState,
    token: TokenView,
    condition: ExpressionView,
) -> Parsed<ExpressionView>
    decreases src.remaining(state.position), 0nat,
    when src.current(state).t != TokenType::EOF
{
    let consequence_token = src.current(state);
    let inside = src.advance(state);
    let consequence = spec_parse_block_body(src, inside, consequence_token, Seq::empty());
    let at_end = consequence.state.since(inside);
    match consequence.result {
        Err(e) => spec_fail(at_end, e),
        Ok(cons) => {
            if src.peek(at_end).t == TokenType::KEYWORD(KeywordTokenType::ELSE) {
                let at_alternative = src.advance(src.advance(at_end));
                let alternative_token = src.current(at_alternative);
                let alternative = spec_parse_block_body(
                    src,
                    src.advance(at_alternative),
                    alternative_token,
                    Seq::empty(),
                );
                let end = alternative.state.since(src.advance(at_alternative));
                match alternative.result {
                    Err(e) => spec_fail(end, e),
                    Ok(alt) => spec_finish_if(
                        src,
                        end,
                        token,
                        condition,
                        consequence_token,
                        cons,
                        alternative_token,
                        Some(alt),
                    ),
                }
            } else {
                spec_finish_if(
                    src,
                    at_end,
                    token,
                    condition,
                    consequence_token,
                    cons,
                    consequence_token,
                    None,
                )
            }
        },
    }
}

/// Error recovery ends on another line than the one it passes over, or at
/// the end of the input.
pub proof fn lemma_skip_line_leaves_line(src: Source, state: ParserState, line: nat)
    ensures
        src.current(spec_skip_line(src, state, line)).line != line || src.current(
            spec_skip_line(src, state, line),
        ).t == TokenType::EOF,
    decreases src.remaining(state.position),
{
    if src.current(state).line == line && src.current(state).t != TokenType::EOF {
        lemma_skip_line_leaves_line(src, src.advance(state), line);
    }
}

/// Error isolation: where a statement fails, its error is reported, the
/// statements parsed before stay as they are, and the program goes on at
/// the first token that is not on the line where the attempt ended; no
/// token of another line is passed over.
pub proof fn lemma_error_isolation(src: Source, state: ParserState, statements: Seq<StatementView>)
    requires
        src.current(state).t != TokenType::EOF,
        src.current(state).t != TokenType::SEMICOLON,
        src.current(state).t != TokenType::LBRACE,
        spec_parse_statement(src, state).result is Err,
    ensures
        ({
            let failed = spec_parse_statement(src, state);
            let behind = failed.state.since(state);
            let line = src.current(behind).line;
            let resumed = spec_skip_line(src, behind.error(failed.result->Err_0), line);
            &&& spec_parse_program(src, state, statements) == spec_parse_program(
                src,
                resumed,
                statements,
            )
            &&& resumed.errors == failed.state.errors.push(failed.result->Err_0)
            &&& resumed.warnings == failed.state.warnings
            &&& resumed.position > state.position
            &&& (src.current(resumed).line != line || src.current(resumed).t == TokenType::EOF)
            &&& forall|p: nat|
                behind.position <= p < resumed.position ==> (#[trigger] src.at(p)).line == line
        }),
{
    reveal_with_fuel(spec_parse_program, 1);
    let failed = spec_parse_statement(src, state);
    let behind = failed.state.since(state);
    let reported = behind.error(failed.result->Err_0);
    lemma_skip_line_forward(src, reported, src.current(behind).line);
    lemma_skip_line_progress(src, reported);
    lemma_skip_line_leaves_line(src, reported, src.current(behind).line);
    lemma_skip_line_passes_line(src, reported, src.current(behind).line);
}

/// Error recovery passes over tokens of the given line only.
pub proof fn lemma_skip_line_passes_line(src: Source, state: ParserState, line: nat)
    ensures
        forall|p: nat|
            state.position <= p < spec_skip_line(src, state, line).position ==> (#[trigger] src.at(
                p,
            )).line == line,
    decreases src.remaining(state.position),
{
    if src.current(state).line == line && src.current(state).t != TokenType::EOF {
        lemma_skip_line_passes_line(src, src.advance(state), line);
    }
}

/// A `;` ends every expression: with a `;` ahead no operator extends the
/// operand, whatever stands behind the `;`. This is why the text of a
/// program keeps its statements apart by a `;`.
pub proof fn lemma_semicolon_ends_expression(
    src: Source,
    state: ParserState,
    precedence: Precedence,
    left: ExpressionView,
)
    requires
        src.peek(state).t == TokenType::SEMICOLON,
    ensures
        spec_parse_operators(src, state, precedence, left) == spec_ok(state, left),
{
    reveal_with_fuel(spec_parse_operators, 1);
}

/// The initial state: at the first token, with nothing reported.
pub open spec fn spec_initial_state() -> ParserState {
    ParserState { position: 0, errors: Seq::empty(), warnings: Seq::empty() }
}

} // verus!
