//! The parser: a Pratt parser for expressions with a recogniser for
//! statements. It reports errors and style warnings as it goes and always
//! comes to an end with a program.

use vstd::prelude::*;
use vstd::string::*;
use crate::ast::{
    expressions_view, lemma_expressions_view_push, lemma_statements_view_push,
    lemma_typed_identifiers_view_push, spec_opt_block, spec_opt_identifier, statements_view,
    typed_identifiers_view, BlockStatement, BlockStatementView, BooleanExpression, CallExpression,
    DeclareStatement, Expression, ExpressionStatement, ExpressionView, FunctionLiteral,
    Identifier, IfExpression, InfixExpression, IntegerLiteral, NullExpression, PrefixExpression,
    Program, ReturnStatement, Statement, StatementView, StringLiteral, TypedIdentifier,
    TypedIdentifierView,
};
use crate::diagnostics::{
    parser_errors_view, parser_warnings_view, ParserError, ParserErrorCode, ParserErrorView,
    ParserWarning,
};
use crate::grammar::{
    lemma_skip_line_progress,
    spec_delimiter, spec_finish_function, spec_finish_if, spec_has_prefix, spec_if_warning,
    spec_initial_state, spec_is_infix, spec_parse_block_body, spec_parse_block_statement,
    spec_parse_call_arguments, spec_parse_declare_statement, spec_parse_expression,
    spec_parse_expression_statement, spec_parse_function_header, spec_parse_function_literal,
    spec_parse_function_parameters, spec_parse_grouped_expression, spec_parse_if_branches,
    spec_parse_if_closing, spec_parse_if_expression, spec_parse_if_opening, spec_parse_infix,
    spec_parse_more_arguments, spec_parse_more_parameters, spec_parse_operators,
    spec_parse_parameter, spec_parse_prefix, spec_parse_prefix_expression, spec_parse_program,
    spec_parse_return_statement, spec_parse_statement, spec_parse_type_specifier, spec_skip_line,
    spec_unexpected, FunctionHeaderView, Parsed, ParserState, Source,
};
use crate::lexer::{spec_token_views, spec_tokens, Lexer};
use crate::precedence::Precedence;
use crate::text::{parse_decimal, spec_texts};
use crate::token::{spec_opt_text, KeywordTokenType, Token, TokenType};

verus! {

/// The parser. `tokens` holds the tokens of the source up to the first
/// `EOF`; `position` is the index of the current token.
#[derive(Debug)]
pub struct Parser {
    pub lexer: Lexer,
    pub errors: Vec<ParserError>,
    pub warnings: Vec<ParserWarning>,
    pub tokens: Vec<Token>,
    pub position: usize,
    pub current_delimiter: Option<TokenType>,
}

/// What stands between `fn` and the body of a function literal.
pub struct FunctionHeader {
    pub name: Option<Identifier>,
    pub parameters: Vec<TypedIdentifier>,
    pub return_type: Option<Identifier>,
}

impl View for FunctionHeader {
    type V = FunctionHeaderView;

    open spec fn view(&self) -> FunctionHeaderView {
        FunctionHeaderView {
            name: spec_opt_identifier(self.name),
            parameters: typed_identifiers_view(self.parameters@),
            return_type: spec_opt_identifier(self.return_type),
        }
    }
}

/// Whether an expression can start with a token of the kind.
pub fn has_prefix(t: TokenType) -> (r: bool)
    ensures
        r == spec_has_prefix(t),
{
    match t {
        TokenType::IDENT
        | TokenType::INT
        | TokenType::STRING
        | TokenType::LPAREN
        | TokenType::INCR
        | TokenType::DECR
        | TokenType::BANG
        | TokenType::MINUS
        | TokenType::RANGE
        | TokenType::IRANGE
        | TokenType::KEYWORD(KeywordTokenType::TRUE)
        | TokenType::KEYWORD(KeywordTokenType::FALSE)
        | TokenType::KEYWORD(KeywordTokenType::NULL)
        | TokenType::KEYWORD(KeywordTokenType::IF)
        | TokenType::KEYWORD(KeywordTokenType::FUN) => true,
        _ => false,
    }
}

/// Whether a token of the kind can extend an expression on its left.
pub fn is_infix(t: TokenType) -> (r: bool)
    ensures
        r == spec_is_infix(t),
{
    match t {
        TokenType::PLUS
        | TokenType::MINUS
        | TokenType::ASTERISK
        | TokenType::FORWARDSLASH
        | TokenType::IRANGE
        | TokenType::RANGE
        | TokenType::DASTERISK
        | TokenType::EXPONENT
        | TokenType::AND
        | TokenType::OR
        | TokenType::LT
        | TokenType::LTE
        | TokenType::GT
        | TokenType::GTE
        | TokenType::EQ
        | TokenType::NEQ
        | TokenType::LSHIFT
        | TokenType::RSHIFT
        | TokenType::PERCENT
        | TokenType::LPAREN => true,
        _ => false,
    }
}

/// The delimiter that the token kind is, if it is one.
pub fn delimiter_of(t: TokenType) -> (r: Option<TokenType>)
    ensures
        r == spec_delimiter(t),
{
    match TokenType::matching_delimiter(t) {
        Some(_) => Some(t),
        None => None,
    }
}

/// An error that no other error led to.
pub fn unexpected_token(token: Token, expected: Vec<TokenType>, context: Option<String>) -> (e:
    ParserError)
    ensures
        e@ == spec_unexpected(token@, expected@, spec_opt_text(context)),
{
    ParserError::new(
        ParserErrorCode::UnexpectedToken { token, expected_token_types: expected, context },
    )
}

/// The list of one token kind.
pub fn one_kind(t: TokenType) -> (v: Vec<TokenType>)
    ensures
        v@ == seq![t],
{
    let mut v: Vec<TokenType> = Vec::new();
    v.push(t);
    assert(v@ =~= seq![t]);
    v
}

impl Parser {
    /// The tokens and the text that the parser reads.
    pub open spec fn source(&self) -> Source {
        Source { tokens: spec_token_views(self.tokens@), text: self.lexer.input@ }
    }

    /// Where the parser stands, and what it has reported so far.
    pub open spec fn state(&self) -> ParserState {
        ParserState {
            position: self.position as nat,
            errors: parser_errors_view(self.errors@),
            warnings: parser_warnings_view(self.warnings@),
        }
    }

    /// The token sequence ends with `EOF`, the position lies within it, and
    /// the delimiter on record is that of the current token.
    pub open spec fn wf(&self) -> bool {
        &&& self.lexer.wf()
        &&& self.tokens@.len() > 0
        &&& self.position < self.tokens@.len()
        &&& self.tokens@[self.tokens@.len() - 1].t == TokenType::EOF
        &&& self.current_delimiter == spec_delimiter(self.tokens@[self.position as int].t)
    }

    /// The parser stands on the end of the input.
    pub open spec fn at_end(&self) -> bool {
        self.source().current(self.state()).t == TokenType::EOF
    }

    /// The parser is well-formed, reads what `before` read, and stands no
    /// earlier.
    pub open spec fn follows(&self, before: Parser) -> bool {
        &&& self.wf()
        &&& self.tokens == before.tokens
        &&& self.lexer == before.lexer
        &&& self.position >= before.position
    }

    /// The parser has done what `parsed` says: it stands in that state, and
    /// `result` is that outcome.
    pub open spec fn did_expression(
        &self,
        before: Parser,
        result: Result<Expression, ParserError>,
        parsed: Parsed<ExpressionView>,
    ) -> bool {
        &&& self.follows(before)
        &&& self.state() == parsed.state
        &&& match result {
            Ok(e) => parsed.result == Ok::<ExpressionView, ParserErrorView>(e@),
            Err(e) => parsed.result == Err::<ExpressionView, ParserErrorView>(e@),
        }
    }

    /// The same for a statement.
    pub open spec fn did_statement(
        &self,
        before: Parser,
        result: Result<Statement, ParserError>,
        parsed: Parsed<StatementView>,
    ) -> bool {
        &&& self.follows(before)
        &&& self.state() == parsed.state
        &&& match result {
            Ok(s) => parsed.result == Ok::<StatementView, ParserErrorView>(s@),
            Err(e) => parsed.result == Err::<StatementView, ParserErrorView>(e@),
        }
    }

    /// The same for a block.
    pub open spec fn did_block(
        &self,
        before: Parser,
        result: Result<BlockStatement, ParserError>,
        parsed: Parsed<BlockStatementView>,
    ) -> bool {
        &&& self.follows(before)
        &&& self.state() == parsed.state
        &&& match result {
            Ok(b) => parsed.result == Ok::<BlockStatementView, ParserErrorView>(b@),
            Err(e) => parsed.result == Err::<BlockStatementView, ParserErrorView>(e@),
        }
    }

    /// A parser at the first token of what the lexer has yet to read.
    pub fn new(lexer: Lexer) -> (parser: Self)
        requires
            lexer.wf(),
        ensures
            parser.wf(),
            parser.state() == spec_initial_state(),
            parser.source() == (Source {
                tokens: spec_tokens(lexer.input@, lexer.cursor()),
                text: lexer.input@,
            }),
    {
        let mut lexer = lexer;
        let tokens = lexer.scan_all();
        let current_delimiter = delimiter_of(tokens[0].t);
        let parser = Parser {
            lexer,
            errors: Vec::new(),
            warnings: Vec::new(),
            tokens,
            position: 0,
            current_delimiter,
        };
        proof {
            assert(parser.state().errors =~= Seq::empty());
            assert(parser.state().warnings =~= Seq::empty());
        }
        parser
    }

    /// The current token.
    pub fn current(&self) -> (token: &Token)
        requires
            self.wf(),
        ensures
            token@ == self.source().current(self.state()),
            *token == self.tokens@[self.position as int],
    {
        &self.tokens[self.position]
    }

    /// The token behind the current one.
    pub fn peek(&self) -> (token: &Token)
        requires
            self.wf(),
        ensures
            token@ == self.source().peek(self.state()),
    {
        if self.tokens[self.position].t == TokenType::EOF {
            &self.tokens[self.position]
        } else {
            assert(self.position != self.tokens@.len() - 1);
            assert(self.tokens.len() <= usize::MAX);
            &self.tokens[self.position + 1]
        }
    }

    /// One token forward, unless the current token is `EOF`.
    fn advance_token(&mut self)
        requires
            old(self).wf(),
        ensures
            final(self).follows(*old(self)),
            final(self).state() == old(self).source().advance(old(self).state()),
    {
        if self.tokens[self.position].t != TokenType::EOF {
            assert(self.position != self.tokens@.len() - 1);
            assert(self.tokens.len() <= usize::MAX);
            self.position = self.position + 1;
        }
        self.maybe_save_current_delimiter();
    }

    /// Records the delimiter that the current token is, or that it is none.
    fn maybe_save_current_delimiter(&mut self)
        requires
            old(self).lexer.wf(),
            old(self).tokens@.len() > 0,
            old(self).position < old(self).tokens@.len(),
            old(self).tokens@[old(self).tokens@.len() - 1].t == TokenType::EOF,
        ensures
            final(self).wf(),
            final(self).tokens == old(self).tokens,
            final(self).lexer == old(self).lexer,
            final(self).position == old(self).position,
            final(self).errors == old(self).errors,
            final(self).warnings == old(self).warnings,
    {
        self.current_delimiter = delimiter_of(self.tokens[self.position].t);
    }

    fn peek_token_is(&self, t: TokenType) -> (r: bool)
        requires
            self.wf(),
        ensures
            r == (self.source().peek(self.state()).t == t),
    {
        self.peek().t == t
    }

    fn current_token_is(&self, t: TokenType) -> (r: bool)
        requires
            self.wf(),
        ensures
            r == (self.source().current(self.state()).t == t),
    {
        self.current().t == t
    }

    fn peek_precedence(&self) -> (r: Precedence)
        requires
            self.wf(),
        ensures
            r == Precedence::spec_from_token_type(self.source().peek(self.state()).t),
    {
        Precedence::from_token_type(&self.peek().t)
    }

    fn current_precedence(&self) -> (r: Precedence)
        requires
            self.wf(),
        ensures
            r == Precedence::spec_from_token_type(self.source().current(self.state()).t),
    {
        Precedence::from_token_type(&self.current().t)
    }

    /// Steps onto the next token where it is of the given kind.
    fn expect_peek_token_to_be(&mut self, t: TokenType) -> (r: bool)
        requires
            old(self).wf(),
        ensures
            final(self).follows(*old(self)),
            r == (old(self).source().peek(old(self).state()).t == t),
            r ==> final(self).state() == old(self).source().advance(old(self).state()),
            !r ==> final(self).state() == old(self).state(),
    {
        if self.peek_token_is(t) {
            self.advance_token();
            true
        } else {
            false
        }
    }

    /// Reports an error.
    fn report(&mut self, error: ParserError)
        requires
            old(self).wf(),
        ensures
            final(self).follows(*old(self)),
            final(self).state() == old(self).state().error(error@),
    {
        self.errors.push(error);
        proof {
            assert(parser_errors_view(self.errors@) =~= parser_errors_view(old(self).errors@).push(
                error@,
            ));
        }
    }

    /// Reports a warning.
    fn warn(&mut self, warning: ParserWarning)
        requires
            old(self).wf(),
        ensures
            final(self).follows(*old(self)),
            final(self).state() == old(self).state().warn(warning@),
    {
        self.warnings.push(warning);
        proof {
            assert(parser_warnings_view(self.warnings@) =~= parser_warnings_view(
                old(self).warnings@,
            ).push(warning@));
        }
    }

    /// The source line with the given number, if there is one.
    fn line(&self, n: usize) -> (r: Option<String>)
        requires
            self.wf(),
        ensures
            spec_opt_text(r) == self.source().line(n as nat),
    {
        self.lexer.get_line(n)
    }

    /// The source line with the given number as the context of a warning.
    fn context(&self, n: usize) -> (r: Vec<String>)
        requires
            self.wf(),
        ensures
            spec_texts(r@) == self.source().context(n as nat),
    {
        let mut lines: Vec<String> = Vec::new();
        match self.lexer.get_line(n) {
            Some(line) => {
                lines.push(line);
                assert(spec_texts(lines@) =~= seq![line@]);
            },
            None => {
                assert(spec_texts(lines@) =~= Seq::empty());
            },
        }
        lines
    }

    /// The source line with the given number as the context of a delimiter
    /// mismatch.
    fn context_or_empty(&self, n: usize) -> (r: Vec<String>)
        requires
            self.wf(),
        ensures
            spec_texts(r@) == self.source().context_or_empty(n as nat),
    {
        let mut lines: Vec<String> = Vec::new();
        match self.lexer.get_line(n) {
            Some(line) => {
                lines.push(line);
                assert(spec_texts(lines@) =~= seq![line@]);
            },
            None => {
                let empty = String::new();
                lines.push(empty);
                assert(spec_texts(lines@) =~= seq![Seq::<char>::empty()]);
            },
        }
        lines
    }
}


impl Parser {
    /// The optional type annotation of a declaration.
    fn parse_type_specifier(&mut self) -> (r: Option<String>)
        requires
            old(self).wf(),
        ensures
            final(self).follows(*old(self)),
            final(self).state() == spec_parse_type_specifier(
                old(self).source(),
                old(self).state(),
            ).0,
            spec_opt_text(r) == spec_parse_type_specifier(old(self).source(), old(self).state()).1,
    {
        if self.peek_token_is(TokenType::COLON) {
            self.advance_token();
            if self.expect_peek_token_to_be(TokenType::IDENT) {
                Some(self.current().literal.clone())
            } else {
                None
            }
        } else {
            None
        }
    }

    /// One parameter at the current token.
    fn parse_parameter(&mut self) -> (r: TypedIdentifier)
        requires
            old(self).wf(),
        ensures
            final(self).follows(*old(self)),
            final(self).state() == spec_parse_parameter(old(self).source(), old(self).state()).0,
            r@ == spec_parse_parameter(old(self).source(), old(self).state()).1,
    {
        let identifier = Identifier::from_token(self.current());
        if self.peek_token_is(TokenType::COLON) {
            self.advance_token();
            self.advance_token();
            let t = Identifier::from_token(self.current());
            TypedIdentifier::new(identifier, Some(t))
        } else {
            TypedIdentifier::new(identifier, None)
        }
    }

    /// The parameter list of a function literal; the current token is its
    /// `(`.
    fn parse_function_parameters(&mut self) -> (r: Result<Vec<TypedIdentifier>, ParserError>)
        requires
            old(self).wf(),
        ensures
            final(self).follows(*old(self)),
            final(self).state() == spec_parse_function_parameters(
                old(self).source(),
                old(self).state(),
            ).state,
            match r {
                Ok(parameters) => spec_parse_function_parameters(
                    old(self).source(),
                    old(self).state(),
                ).result == Ok::<Seq<TypedIdentifierView>, ParserErrorView>(
                    typed_identifiers_view(parameters@),
                ),
                Err(e) => spec_parse_function_parameters(
                    old(self).source(),
                    old(self).state(),
                ).result == Err::<Seq<TypedIdentifierView>, ParserErrorView>(e@),
            },
    {
        let mut parameters: Vec<TypedIdentifier> = Vec::new();
        if self.peek_token_is(TokenType::RPAREN) {
            self.advance_token();
            assert(typed_identifiers_view(parameters@) =~= Seq::empty());
            return Ok(parameters);
        }
        self.advance_token();
        let first = self.parse_parameter();
        parameters.push(first);
        assert(typed_identifiers_view(parameters@) =~= seq![first@]);
        let ghost at_first = self.state();
        loop
            invariant_except_break
                spec_parse_more_parameters(
                    self.source(),
                    self.state(),
                    typed_identifiers_view(parameters@),
                ) == spec_parse_more_parameters(old(self).source(), at_first, seq![first@]),
            invariant
                self.follows(*old(self)),
            ensures
                self.follows(*old(self)),
                (self.state(), typed_identifiers_view(parameters@)) == spec_parse_more_parameters(
                    old(self).source(),
                    at_first,
                    seq![first@],
                ),
            decreases self.tokens@.len() - self.position,
        {
            if !self.peek_token_is(TokenType::COMMA) {
                break ;
            }
            let ghost before = parameters@;
            self.advance_token();
            self.advance_token();
            let parameter = self.parse_parameter();
            parameters.push(parameter);
            proof {
                lemma_typed_identifiers_view_push(before, parameter);
            }
        }
        if !self.expect_peek_token_to_be(TokenType::RPAREN) {
            let context = self.line(self.current().line);
            return Err(
                unexpected_token(self.peek().clone(), one_kind(TokenType::RPAREN), context),
            );
        }
        Ok(parameters)
    }

    /// The identifier at the current token.
    fn parse_identifier(&self) -> (r: Expression)
        requires
            self.wf(),
            self.source().current(self.state()).t == TokenType::IDENT,
        ensures
            Ok::<ExpressionView, ParserErrorView>(r@) == spec_parse_prefix(
                self.source(),
                self.state(),
            ).result,
            self.state() == spec_parse_prefix(self.source(), self.state()).state,
    {
        proof {
            reveal_with_fuel(spec_parse_prefix, 1);
        }
        Expression::Identifier(Identifier::from_token(self.current()))
    }

    /// The boolean literal at the current token.
    fn parse_boolean(&self) -> (r: Expression)
        requires
            self.wf(),
            self.source().current(self.state()).t == TokenType::KEYWORD(KeywordTokenType::TRUE)
                || self.source().current(self.state()).t == TokenType::KEYWORD(
                KeywordTokenType::FALSE,
            ),
        ensures
            Ok::<ExpressionView, ParserErrorView>(r@) == spec_parse_prefix(
                self.source(),
                self.state(),
            ).result,
            self.state() == spec_parse_prefix(self.source(), self.state()).state,
    {
        proof {
            reveal_with_fuel(spec_parse_prefix, 1);
        }
        Expression::Boolean(BooleanExpression::from_token(self.current()))
    }

    /// The `null` at the current token.
    fn parse_null(&self) -> (r: Expression)
        requires
            self.wf(),
            self.source().current(self.state()).t == TokenType::KEYWORD(KeywordTokenType::NULL),
        ensures
            Ok::<ExpressionView, ParserErrorView>(r@) == spec_parse_prefix(
                self.source(),
                self.state(),
            ).result,
            self.state() == spec_parse_prefix(self.source(), self.state()).state,
    {
        proof {
            reveal_with_fuel(spec_parse_prefix, 1);
        }
        Expression::Null(NullExpression::new(self.current().clone()))
    }

    /// The string literal at the current token.
    fn parse_string_literal(&self) -> (r: Expression)
        requires
            self.wf(),
            self.source().current(self.state()).t == TokenType::STRING,
        ensures
            Ok::<ExpressionView, ParserErrorView>(r@) == spec_parse_prefix(
                self.source(),
                self.state(),
            ).result,
            self.state() == spec_parse_prefix(self.source(), self.state()).state,
    {
        proof {
            reveal_with_fuel(spec_parse_prefix, 1);
        }
        let token = self.current();
        Expression::StringLiteral(StringLiteral::new(token.clone(), token.literal.clone()))
    }

    /// The integer literal at the current token; an error where its digits
    /// do not fit 64 bits with sign.
    fn parse_integer_literal(&self) -> (r: Result<Expression, ParserError>)
        requires
            self.wf(),
            self.source().current(self.state()).t == TokenType::INT,
        ensures
            match r {
                Ok(e) => spec_parse_prefix(self.source(), self.state()).result == Ok::<
                    ExpressionView,
                    ParserErrorView,
                >(e@),
                Err(e) => spec_parse_prefix(self.source(), self.state()).result == Err::<
                    ExpressionView,
                    ParserErrorView,
                >(e@),
            },
            self.state() == spec_parse_prefix(self.source(), self.state()).state,
    {
        proof {
            reveal_with_fuel(spec_parse_prefix, 1);
        }
        let token = self.current();
        match parse_decimal(token.literal.as_str()) {
            Some(value) => Ok(Expression::IntegerLiteral(IntegerLiteral::new(token.clone(), value))),
            None => Err(
                ParserError::new(
                    ParserErrorCode::UnknownPrefixToken {
                        token: token.clone(),
                        context: self.line(token.line),
                    },
                ),
            ),
        }
    }

    /// Error recovery: steps over every token of the given line, up to the
    /// end of the input.
    fn skip_line(&mut self, line: usize)
        requires
            old(self).wf(),
        ensures
            final(self).follows(*old(self)),
            final(self).state() == spec_skip_line(
                old(self).source(),
                old(self).state(),
                line as nat,
            ),
    {
        while self.current().line == line && !self.current_token_is(TokenType::EOF)
            invariant
                self.follows(*old(self)),
                spec_skip_line(self.source(), self.state(), line as nat) == spec_skip_line(
                    old(self).source(),
                    old(self).state(),
                    line as nat,
                ),
            decreases self.tokens@.len() - self.position,
        {
            self.advance_token();
        }
    }
}


/// The warning for the branches of an `if` that hold no statement, if any
/// is due.
pub fn if_warning(
    consequence_token: Token,
    consequence_empty: bool,
    alternative_token: Token,
    alternative_empty: Option<bool>,
    context: Vec<String>,
) -> (r: Option<ParserWarning>)
    ensures
        match r {
            Some(w) => spec_if_warning(
                consequence_token@,
                consequence_empty,
                alternative_token@,
                alternative_empty,
                spec_texts(context@),
            ) == Some(w@),
            None => spec_if_warning(
                consequence_token@,
                consequence_empty,
                alternative_token@,
                alternative_empty,
                spec_texts(context@),
            ) is None,
        },
{
    match alternative_empty {
        Some(alt_empty) => {
            if alt_empty && consequence_empty {
                Some(ParserWarning::EmptyIfExpression { token: consequence_token, context })
            } else if consequence_empty {
                Some(
                    ParserWarning::EmptyIfConsequenceBranch {
                        token: consequence_token,
                        context,
                        has_alternative: true,
                    },
                )
            } else if alt_empty {
                Some(ParserWarning::EmptyIfAlternativeBranch { token: alternative_token, context })
            } else {
                None
            }
        },
        None => {
            if consequence_empty {
                Some(
                    ParserWarning::EmptyIfConsequenceBranch {
                        token: consequence_token,
                        context,
                        has_alternative: false,
                    },
                )
            } else {
                None
            }
        },
    }
}

impl Parser {
    /// Reports the warning, if there is one.
    fn warn_if_some(&mut self, warning: Option<ParserWarning>)
        requires
            old(self).wf(),
        ensures
            final(self).follows(*old(self)),
            match warning {
                Some(w) => final(self).state() == old(self).state().warn(w@),
                None => final(self).state() == old(self).state(),
            },
    {
        match warning {
            Some(w) => self.warn(w),
            None => {},
        }
    }

    /// One statement: a declaration, a `return`, or an expression.
    #[verifier::rlimit(40)]
    fn parse_statement(&mut self) -> (r: Result<Statement, ParserError>)
        requires
            old(self).wf(),
            old(self).source().current(old(self).state()).t != TokenType::EOF,
        ensures
            final(self).did_statement(
                *old(self),
                r,
                spec_parse_statement(old(self).source(), old(self).state()),
            ),
        decreases old(self).tokens@.len() - old(self).position, 5nat,
    {
        proof {
            reveal_with_fuel(spec_parse_statement, 1);
            reveal_with_fuel(spec_parse_declare_statement, 1);
            reveal_with_fuel(spec_parse_return_statement, 1);
            reveal_with_fuel(spec_parse_expression_statement, 1);
        }
        match self.current().t {
            TokenType::KEYWORD(KeywordTokenType::LET)
            | TokenType::KEYWORD(KeywordTokenType::CONST)
            | TokenType::KEYWORD(KeywordTokenType::VAR) => self.parse_declare_statement(),
            TokenType::KEYWORD(KeywordTokenType::RETURN) => self.parse_return_statement(),
            _ => self.parse_expression_statement(),
        }
    }

    /// A declaration; the current token is its keyword.
    #[verifier::rlimit(40)]
    fn parse_declare_statement(&mut self) -> (r: Result<Statement, ParserError>)
        requires
            old(self).wf(),
            old(self).source().current(old(self).state()).t != TokenType::EOF,
        ensures
            final(self).did_statement(
                *old(self),
                r,
                spec_parse_declare_statement(old(self).source(), old(self).state()),
            ),
        decreases old(self).tokens@.len() - old(self).position, 4nat,
    {
        proof {
            reveal_with_fuel(spec_parse_declare_statement, 1);
            reveal_with_fuel(spec_parse_expression, 1);
        }
        let token = self.current().clone();
        if !self.expect_peek_token_to_be(TokenType::IDENT) {
            let context = self.line(self.current().line);
            return Err(unexpected_token(self.current().clone(), one_kind(TokenType::IDENT), context));
        }
        let name = Identifier::from_token(self.current());
        let type_specifier = self.parse_type_specifier();
        if self.peek_token_is(TokenType::ASSIGN) {
            self.advance_token();
        } else if self.peek_token_is(TokenType::SEMICOLON) {
            self.advance_token();
            return Ok(Statement::Declare(DeclareStatement::new(token, name, type_specifier, None)));
        } else {
            let context = self.line(self.current().line);
            return Err(
                unexpected_token(self.current().clone(), one_kind(TokenType::ASSIGN), context),
            );
        }
        self.advance_token();
        match self.parse_expression(Precedence::LOWEST) {
            Ok(value) => {
                if !self.expect_peek_token_to_be(TokenType::SEMICOLON) {
                    let context = self.line(self.current().line);
                    return Err(
                        unexpected_token(
                            self.current().clone(),
                            one_kind(TokenType::SEMICOLON),
                            context,
                        ),
                    );
                }
                Ok(Statement::Declare(DeclareStatement::new(token, name, type_specifier, Some(value))))
            },
            Err(e) => Err(e),
        }
    }

    /// A `return`; the current token is the keyword.
    #[verifier::rlimit(40)]
    fn parse_return_statement(&mut self) -> (r: Result<Statement, ParserError>)
        requires
            old(self).wf(),
            old(self).source().current(old(self).state()).t != TokenType::EOF,
        ensures
            final(self).did_statement(
                *old(self),
                r,
                spec_parse_return_statement(old(self).source(), old(self).state()),
            ),
        decreases old(self).tokens@.len() - old(self).position, 4nat,
    {
        proof {
            reveal_with_fuel(spec_parse_return_statement, 1);
            reveal_with_fuel(spec_parse_expression, 1);
        }
        let token = self.current().clone();
        if self.peek_token_is(TokenType::SEMICOLON) {
            self.advance_token();
            return Ok(Statement::Return(ReturnStatement::new(token, None)));
        }
        self.advance_token();
        match self.parse_expression(Precedence::LOWEST) {
            Ok(value) => {
                if !self.expect_peek_token_to_be(TokenType::SEMICOLON) {
                    let context = self.line(self.peek().line);
                    return Err(
                        unexpected_token(
                            self.current().clone(),
                            one_kind(TokenType::SEMICOLON),
                            context,
                        ),
                    );
                }
                Ok(Statement::Return(ReturnStatement::new(token, Some(value))))
            },
            Err(e) => Err(e),
        }
    }

    /// An expression as a statement.
    fn parse_expression_statement(&mut self) -> (r: Result<Statement, ParserError>)
        requires
            old(self).wf(),
        ensures
            final(self).did_statement(
                *old(self),
                r,
                spec_parse_expression_statement(old(self).source(), old(self).state()),
            ),
        decreases old(self).tokens@.len() - old(self).position, 4nat,
    {
        proof {
            reveal_with_fuel(spec_parse_expression_statement, 1);
            reveal_with_fuel(spec_parse_expression, 1);
        }
        let token = self.current().clone();
        match self.parse_expression(Precedence::LOWEST) {
            Ok(expression) => {
                let statement = ExpressionStatement::new(token, expression);
                if self.peek_token_is(TokenType::SEMICOLON) {
                    self.advance_token();
                }
                Ok(Statement::Expression(statement))
            },
            Err(e) => Err(e),
        }
    }

    /// An expression whose operators all bind tighter than `precedence`.
    #[verifier::rlimit(40)]
    fn parse_expression(&mut self, precedence: Precedence) -> (r: Result<Expression, ParserError>)
        requires
            old(self).wf(),
        ensures
            final(self).did_expression(
                *old(self),
                r,
                spec_parse_expression(old(self).source(), old(self).state(), precedence),
            ),
        decreases old(self).tokens@.len() - old(self).position, 3nat,
    {
        proof {
            reveal_with_fuel(spec_parse_expression, 1);
            reveal_with_fuel(spec_parse_prefix, 1);
            reveal_with_fuel(spec_parse_operators, 1);
        }
        if !has_prefix(self.current().t) {
            let token = self.current().clone();
            let context = self.line(token.line);
            return Err(ParserError::new(ParserErrorCode::UnknownPrefixToken { token, context }));
        }
        let mut left = match self.parse_prefix() {
            Ok(l) => l,
            Err(e) => {
                return Err(e);
            },
        };
        loop
            invariant
                self.follows(*old(self)),
                spec_parse_operators(self.source(), self.state(), precedence, left@)
                    == spec_parse_expression(old(self).source(), old(self).state(), precedence),
            decreases self.tokens@.len() - self.position,
        {
            proof {
                reveal_with_fuel(spec_parse_operators, 1);
                reveal_with_fuel(spec_parse_infix, 1);
            }
            if self.peek_token_is(TokenType::SEMICOLON) {
                return Ok(left);
            }
            if self.current_token_is(TokenType::EOF) {
                let token = self.current().clone();
                let context = self.line(token.line);
                return Err(unexpected_token(token, one_kind(TokenType::EOF), context));
            }
            if precedence.rank() >= self.peek_precedence().rank() {
                return Ok(left);
            }
            if !is_infix(self.peek().t) {
                return Ok(left);
            }
            self.advance_token();
            match self.parse_infix(left) {
                Ok(l) => {
                    left = l;
                },
                Err(e) => {
                    return Err(e);
                },
            }
        }
    }

    /// The expression that starts at the current token and has no operand
    /// on its left.
    #[verifier::rlimit(40)]
    fn parse_prefix(&mut self) -> (r: Result<Expression, ParserError>)
        requires
            old(self).wf(),
            spec_has_prefix(old(self).source().current(old(self).state()).t),
        ensures
            final(self).did_expression(
                *old(self),
                r,
                spec_parse_prefix(old(self).source(), old(self).state()),
            ),
        decreases old(self).tokens@.len() - old(self).position, 2nat,
    {
        proof {
            reveal_with_fuel(spec_parse_prefix, 1);
            reveal_with_fuel(spec_parse_grouped_expression, 1);
            reveal_with_fuel(spec_parse_if_expression, 1);
            reveal_with_fuel(spec_parse_function_literal, 1);
            reveal_with_fuel(spec_parse_prefix_expression, 1);
        }
        match self.current().t {
            TokenType::IDENT => Ok(self.parse_identifier()),
            TokenType::KEYWORD(KeywordTokenType::TRUE) | TokenType::KEYWORD(
                KeywordTokenType::FALSE,
            ) => Ok(self.parse_boolean()),
            TokenType::KEYWORD(KeywordTokenType::NULL) => Ok(self.parse_null()),
            TokenType::INT => self.parse_integer_literal(),
            TokenType::STRING => Ok(self.parse_string_literal()),
            TokenType::LPAREN => self.parse_grouped_expression(),
            TokenType::KEYWORD(KeywordTokenType::IF) => self.parse_if_expression(),
            TokenType::KEYWORD(KeywordTokenType::FUN) => self.parse_function_literal(),
            _ => self.parse_prefix_expression(),
        }
    }

    /// A parenthesised expression; the current token is its `(`.
    fn parse_grouped_expression(&mut self) -> (r: Result<Expression, ParserError>)
        requires
            old(self).wf(),
            old(self).source().current(old(self).state()).t != TokenType::EOF,
        ensures
            final(self).did_expression(
                *old(self),
                r,
                spec_parse_grouped_expression(old(self).source(), old(self).state()),
            ),
        decreases old(self).tokens@.len() - old(self).position, 0nat,
    {
        proof {
            reveal_with_fuel(spec_parse_grouped_expression, 1);
            reveal_with_fuel(spec_parse_expression, 1);
        }
        self.advance_token();
        let inner = self.parse_expression(Precedence::LOWEST);
        if !self.peek_token_is(TokenType::RPAREN) {
            let token = self.current().clone();
            let context = self.line(token.line);
            return Err(unexpected_token(token, one_kind(TokenType::RPAREN), context));
        }
        self.advance_token();
        inner
    }

    /// A prefix operator and its operand; the current token is the
    /// operator.
    fn parse_prefix_expression(&mut self) -> (r: Result<Expression, ParserError>)
        requires
            old(self).wf(),
            old(self).source().current(old(self).state()).t != TokenType::EOF,
        ensures
            final(self).did_expression(
                *old(self),
                r,
                spec_parse_prefix_expression(old(self).source(), old(self).state()),
            ),
        decreases old(self).tokens@.len() - old(self).position, 0nat,
    {
        proof {
            reveal_with_fuel(spec_parse_prefix_expression, 1);
            reveal_with_fuel(spec_parse_expression, 1);
        }
        let token = self.current().clone();
        self.advance_token();
        match self.parse_expression(Precedence::PREFIX) {
            Ok(rhs) => {
                let operator = token.literal.clone();
                Ok(Expression::Prefix(PrefixExpression::new(token, operator, rhs)))
            },
            Err(e) => {
                self.advance_token();
                Err(e)
            },
        }
    }

    /// What extends the operand `left`; the current token is the operator
    /// or the `(` of a call.
    fn parse_infix(&mut self, left: Expression) -> (r: Result<Expression, ParserError>)
        requires
            old(self).wf(),
            old(self).source().current(old(self).state()).t != TokenType::EOF,
        ensures
            final(self).did_expression(
                *old(self),
                r,
                spec_parse_infix(old(self).source(), old(self).state(), left@),
            ),
        decreases old(self).tokens@.len() - old(self).position, 2nat,
    {
        if self.current_token_is(TokenType::LPAREN) {
            self.parse_call_expression(left)
        } else {
            self.parse_infix_expression(left)
        }
    }

    /// A binary operator and its right operand; the current token is the
    /// operator.
    fn parse_infix_expression(&mut self, lhs: Expression) -> (r: Result<Expression, ParserError>)
        requires
            old(self).wf(),
            old(self).source().current(old(self).state()).t != TokenType::EOF,
            old(self).source().current(old(self).state()).t != TokenType::LPAREN,
        ensures
            final(self).did_expression(
                *old(self),
                r,
                spec_parse_infix(old(self).source(), old(self).state(), lhs@),
            ),
        decreases old(self).tokens@.len() - old(self).position, 1nat,
    {
        proof {
            reveal_with_fuel(spec_parse_infix, 1);
            reveal_with_fuel(spec_parse_expression, 1);
        }
        let precedence = self.current_precedence();
        let token = self.current().clone();
        self.advance_token();
        match self.parse_expression(precedence) {
            Ok(rhs) => {
                let operator = token.literal.clone();
                Ok(Expression::Infix(InfixExpression::new(token, lhs, operator, rhs)))
            },
            Err(e) => Err(e),
        }
    }

    /// The arguments of a call of `function`; the current token is the `(`.
    fn parse_call_expression(&mut self, function: Expression) -> (r: Result<
        Expression,
        ParserError,
    >)
        requires
            old(self).wf(),
            old(self).source().current(old(self).state()).t == TokenType::LPAREN,
        ensures
            final(self).did_expression(
                *old(self),
                r,
                spec_parse_infix(old(self).source(), old(self).state(), function@),
            ),
        decreases old(self).tokens@.len() - old(self).position, 1nat,
    {
        proof {
            reveal_with_fuel(spec_parse_infix, 1);
            reveal_with_fuel(spec_parse_call_arguments, 1);
        }
        let token = self.current().clone();
        match self.parse_call_arguments() {
            Ok(args) => Ok(Expression::Call(CallExpression::new(token, function, args))),
            Err(e) => Err(e),
        }
    }

    /// The arguments of a call, from its `(`, the current token, to its
    /// `)`.
    #[verifier::rlimit(40)]
    fn parse_call_arguments(&mut self) -> (r: Result<Vec<Expression>, ParserError>)
        requires
            old(self).wf(),
            old(self).source().current(old(self).state()).t != TokenType::EOF,
        ensures
            final(self).follows(*old(self)),
            final(self).state() == spec_parse_call_arguments(
                old(self).source(),
                old(self).state(),
            ).state,
            match r {
                Ok(args) => spec_parse_call_arguments(old(self).source(), old(self).state()).result
                    == Ok::<Seq<ExpressionView>, ParserErrorView>(expressions_view(args@)),
                Err(e) => spec_parse_call_arguments(old(self).source(), old(self).state()).result
                    == Err::<Seq<ExpressionView>, ParserErrorView>(e@),
            },
        decreases old(self).tokens@.len() - old(self).position, 0nat,
    {
        proof {
            reveal_with_fuel(spec_parse_call_arguments, 1);
            reveal_with_fuel(spec_parse_expression, 1);
            reveal_with_fuel(spec_parse_more_arguments, 1);
        }
        let mut args: Vec<Expression> = Vec::new();
        if self.peek_token_is(TokenType::RPAREN) {
            self.advance_token();
            assert(expressions_view(args@) =~= Seq::empty());
            return Ok(args);
        }
        self.advance_token();
        match self.parse_expression(Precedence::LOWEST) {
            Ok(argument) => {
                args.push(argument);
                assert(expressions_view(args@) =~= seq![argument@]);
            },
            Err(e) => {
                return Err(e);
            },
        }
        loop
            invariant
                self.follows(*old(self)),
                self.position > old(self).position,
                spec_parse_more_arguments(self.source(), self.state(), expressions_view(args@))
                    == spec_parse_call_arguments(old(self).source(), old(self).state()),
            decreases self.tokens@.len() - self.position,
        {
            proof {
                reveal_with_fuel(spec_parse_more_arguments, 1);
                reveal_with_fuel(spec_parse_expression, 1);
            }
            if !self.peek_token_is(TokenType::COMMA) {
                if !self.expect_peek_token_to_be(TokenType::RPAREN) {
                    let context = self.line(self.peek().line);
                    return Err(
                        unexpected_token(
                            self.current().clone(),
                            one_kind(TokenType::RPAREN),
                            context,
                        ),
                    );
                }
                return Ok(args);
            }
            let ghost before = args@;
            self.advance_token();
            self.advance_token();
            match self.parse_expression(Precedence::LOWEST) {
                Ok(argument) => {
                    args.push(argument);
                    proof {
                        lemma_expressions_view_push(before, argument);
                    }
                },
                Err(e) => {
                    return Err(e);
                },
            }
        }
    }

    /// A block; the current token is its `{`.
    fn parse_block_statement(&mut self) -> (r: Result<BlockStatement, ParserError>)
        requires
            old(self).wf(),
        ensures
            final(self).did_block(
                *old(self),
                r,
                spec_parse_block_statement(old(self).source(), old(self).state()),
            ),
            old(self).source().current(old(self).state()).t != TokenType::EOF ==> final(self).position
                > old(self).position,
        decreases old(self).tokens@.len() - old(self).position, 7nat,
    {
        let token = self.current().clone();
        self.advance_token();
        self.parse_block_body(token)
    }

    /// The statements of a block up to its `}`; `token` is its `{`, and the
    /// current token is the one behind that.
    #[verifier::rlimit(40)]
    fn parse_block_body(&mut self, token: Token) -> (r: Result<BlockStatement, ParserError>)
        requires
            old(self).wf(),
        ensures
            final(self).did_block(
                *old(self),
                r,
                spec_parse_block_body(
                    old(self).source(),
                    old(self).state(),
                    token@,
                    Seq::empty(),
                ),
            ),
        decreases old(self).tokens@.len() - old(self).position, 6nat,
    {
        let mut statements: Vec<Statement> = Vec::new();
        assert(statements_view(statements@) =~= Seq::empty());
        loop
            invariant
                self.follows(*old(self)),
                spec_parse_block_body(
                    self.source(),
                    self.state(),
                    token@,
                    statements_view(statements@),
                ) == spec_parse_block_body(
                    old(self).source(),
                    old(self).state(),
                    token@,
                    Seq::empty(),
                ),
            decreases self.tokens@.len() - self.position,
        {
            proof {
                reveal_with_fuel(spec_parse_block_body, 1);
                reveal_with_fuel(spec_parse_statement, 1);
            }
            if self.current_token_is(TokenType::RBRACE) {
                return Ok(BlockStatement::new(token, statements));
            } else if self.current_token_is(TokenType::EOF) {
                let context = self.line(self.current().line);
                return Err(
                    unexpected_token(self.current().clone(), one_kind(TokenType::RBRACE), context),
                );
            }
            let ghost before = statements@;
            match self.parse_statement() {
                Ok(statement) => {
                    statements.push(statement);
                    proof {
                        lemma_statements_view_push(before, statement);
                    }
                },
                Err(e) => {
                    self.report(e);
                },
            }
            self.advance_token();
        }
    }

    /// The header of a function literal, from `fn`, the current token, to
    /// the `{` of the body.
    #[verifier::rlimit(40)]
    fn parse_function_header(&mut self) -> (r: Result<FunctionHeader, ParserError>)
        requires
            old(self).wf(),
            old(self).source().current(old(self).state()).t != TokenType::EOF,
        ensures
            final(self).follows(*old(self)),
            final(self).state() == spec_parse_function_header(
                old(self).source(),
                old(self).state(),
            ).state,
            match r {
                Ok(header) => spec_parse_function_header(
                    old(self).source(),
                    old(self).state(),
                ).result == Ok::<FunctionHeaderView, ParserErrorView>(header@)
                    && final(self).position > old(self).position,
                Err(e) => spec_parse_function_header(old(self).source(), old(self).state()).result
                    == Err::<FunctionHeaderView, ParserErrorView>(e@),
            },
    {
        let mut name: Option<Identifier> = None;
        if self.peek_token_is(TokenType::IDENT) {
            self.advance_token();
            name = Some(Identifier::from_token(self.current()));
        }
        if !self.expect_peek_token_to_be(TokenType::LPAREN) {
            let context = self.line(self.current().line);
            return Err(
                unexpected_token(self.current().clone(), one_kind(TokenType::LPAREN), context),
            );
        }
        let parameters = match self.parse_function_parameters() {
            Ok(p) => p,
            Err(e) => {
                return Err(e);
            },
        };
        let mut return_type: Option<Identifier> = None;
        if self.peek_token_is(TokenType::ARROW) {
            self.advance_token();
            if !self.expect_peek_token_to_be(TokenType::IDENT) {
                let context = self.line(self.current().line);
                return Err(
                    ParserError::new(
                        ParserErrorCode::MissingFnReturnType {
                            token: self.current().clone(),
                            context,
                        },
                    ),
                );
            }
            return_type = Some(Identifier::from_token(self.current()));
        }
        if !self.expect_peek_token_to_be(TokenType::LBRACE) {
            let context = self.line(self.current().line);
            let mut expected = one_kind(TokenType::LBRACE);
            expected.push(TokenType::ARROW);
            assert(expected@ =~= seq![TokenType::LBRACE, TokenType::ARROW]);
            return Err(unexpected_token(self.current().clone(), expected, context));
        }
        Ok(FunctionHeader { name, parameters, return_type })
    }

    /// The function literal made of the given parts, with the warning for a
    /// body without statements where it is due.
    fn finish_function(&mut self, token: Token, header: FunctionHeader, body: BlockStatement) -> (r:
        Expression)
        requires
            old(self).wf(),
        ensures
            final(self).did_expression(
                *old(self),
                Ok(r),
                spec_finish_function(
                    old(self).source(),
                    old(self).state(),
                    token@,
                    header@,
                    body@,
                ),
            ),
    {
        if body.statements.len() == 0 {
            let context = self.context(self.current().line);
            self.warn(ParserWarning::EmptyFunction { token: self.current().clone(), context });
        }
        Expression::Function(
            FunctionLiteral::new(
                token,
                header.name,
                None,
                header.parameters,
                header.return_type,
                body,
            ),
        )
    }

    /// A function literal; the current token is `fn`.
    #[verifier::rlimit(40)]
    fn parse_function_literal(&mut self) -> (r: Result<Expression, ParserError>)
        requires
            old(self).wf(),
            old(self).source().current(old(self).state()).t != TokenType::EOF,
        ensures
            final(self).did_expression(
                *old(self),
                r,
                spec_parse_function_literal(old(self).source(), old(self).state()),
            ),
        decreases old(self).tokens@.len() - old(self).position, 0nat,
    {
        proof {
            reveal_with_fuel(spec_parse_function_literal, 1);
            reveal_with_fuel(spec_parse_block_body, 1);
        }
        let token = self.current().clone();
        let header = match self.parse_function_header() {
            Ok(h) => h,
            Err(e) => {
                return Err(e);
            },
        };
        let brace = self.current().clone();
        self.advance_token();
        let body = match self.parse_block_body(brace) {
            Ok(b) => b,
            Err(e) => {
                return Err(e);
            },
        };
        Ok(self.finish_function(token, header, body))
    }

    /// The start of an `if` expression, up to the token before the
    /// condition; the current token is `if`. Gives whether the condition
    /// stands in parentheses.
    fn parse_if_opening(&mut self) -> (r: Result<bool, ParserError>)
        requires
            old(self).wf(),
        ensures
            final(self).follows(*old(self)),
            final(self).state() == spec_parse_if_opening(old(self).source(), old(self).state()).state,
            match r {
                Ok(paren) => spec_parse_if_opening(old(self).source(), old(self).state()).result
                    == Ok::<bool, ParserErrorView>(paren),
                Err(e) => spec_parse_if_opening(old(self).source(), old(self).state()).result
                    == Err::<bool, ParserErrorView>(e@),
            },
    {
        let paren = self.peek_token_is(TokenType::LPAREN);
        if paren {
            self.advance_token();
            let context = self.context(self.current().line);
            self.warn(
                ParserWarning::UnnecessaryParentheses { token: self.peek().clone(), context },
            );
        }
        if (paren && self.peek_token_is(TokenType::RPAREN)) || self.peek_token_is(
            TokenType::LBRACE,
        ) {
            let context = self.line(self.current().line);
            return Err(
                ParserError::new(
                    ParserErrorCode::MissingIfCondition { token: self.current().clone(), context },
                ),
            );
        }
        Ok(paren)
    }

    /// From the last token of the condition of an `if` to the `{` of its
    /// consequence.
    fn parse_if_closing(&mut self, paren: bool) -> (r: Result<(), ParserError>)
        requires
            old(self).wf(),
        ensures
            final(self).follows(*old(self)),
            final(self).state() == spec_parse_if_closing(
                old(self).source(),
                old(self).state(),
                paren,
            ).state,
            match r {
                Ok(_) => spec_parse_if_closing(old(self).source(), old(self).state(), paren).result
                    is Ok,
                Err(e) => spec_parse_if_closing(old(self).source(), old(self).state(), paren).result
                    == Err::<(), ParserErrorView>(e@),
            },
    {
        if !paren && self.peek_token_is(TokenType::RPAREN) {
            let context = self.context_or_empty(self.current().line);
            return Err(
                ParserError::new(
                    ParserErrorCode::DelimiterMismatch {
                        token: self.current().clone(),
                        expected_delimiter: TokenType::LPAREN,
                        current_delimiter: self.current_delimiter,
                        context: Some(context),
                    },
                ),
            );
        } else if paren && !self.peek_token_is(TokenType::RPAREN) {
            let context = self.context_or_empty(self.peek().line);
            return Err(
                ParserError::new(
                    ParserErrorCode::DelimiterMismatch {
                        token: self.peek().clone(),
                        expected_delimiter: TokenType::RPAREN,
                        current_delimiter: self.current_delimiter,
                        context: Some(context),
                    },
                ),
            );
        }
        if paren {
            self.advance_token();
        }
        self.advance_token();
        if !self.current_token_is(TokenType::LBRACE) {
            let context = self.line(self.current().line);
            return Err(
                unexpected_token(self.current().clone(), one_kind(TokenType::LBRACE), context),
            );
        }
        Ok(())
    }

    /// An `if` expression; the current token is `if`.
    #[verifier::rlimit(40)]
    fn parse_if_expression(&mut self) -> (r: Result<Expression, ParserError>)
        requires
            old(self).wf(),
            old(self).source().current(old(self).state()).t != TokenType::EOF,
        ensures
            final(self).did_expression(
                *old(self),
                r,
                spec_parse_if_expression(old(self).source(), old(self).state()),
            ),
        decreases old(self).tokens@.len() - old(self).position, 1nat,
    {
        proof {
            reveal_with_fuel(spec_parse_if_expression, 1);
            reveal_with_fuel(spec_parse_expression, 1);
            reveal_with_fuel(spec_parse_if_branches, 1);
        }
        let token = self.current().clone();
        let paren = match self.parse_if_opening() {
            Ok(p) => p,
            Err(e) => {
                return Err(e);
            },
        };
        self.advance_token();
        let condition = match self.parse_expression(Precedence::LOWEST) {
            Ok(c) => c,
            Err(e) => {
                return Err(e);
            },
        };
        match self.parse_if_closing(paren) {
            Ok(_) => {},
            Err(e) => {
                return Err(e);
            },
        }
        self.parse_if_branches(token, condition)
    }

    /// The `if` expression made of the given parts, with the warning for
    /// branches without statements where one is due.
    fn finish_if(
        &mut self,
        token: Token,
        condition: Expression,
        consequence_token: Token,
        consequence: BlockStatement,
        alternative_token: Token,
        alternative: Option<BlockStatement>,
    ) -> (r: Expression)
        requires
            old(self).wf(),
        ensures
            final(self).did_expression(
                *old(self),
                Ok(r),
                spec_finish_if(
                    old(self).source(),
                    old(self).state(),
                    token@,
                    condition@,
                    consequence_token@,
                    consequence@,
                    alternative_token@,
                    spec_opt_block(alternative),
                ),
            ),
    {
        let alternative_empty = match &alternative {
            Some(alt) => Some(alt.statements.len() == 0),
            None => None,
        };
        let context = self.context(self.current().line);
        let warning = if_warning(
            consequence_token,
            consequence.statements.len() == 0,
            alternative_token,
            alternative_empty,
            context,
        );
        self.warn_if_some(warning);
        Expression::If(IfExpression::new(token, condition, consequence, alternative))
    }

    /// The branches of an `if` expression with the given `if` token and
    /// condition; the current token is the `{` of the consequence.
    #[verifier::rlimit(40)]
    fn parse_if_branches(&mut self, token: Token, condition: Expression) -> (r: Result<
        Expression,
        ParserError,
    >)
        requires
            old(self).wf(),
            old(self).source().current(old(self).state()).t != TokenType::EOF,
        ensures
            final(self).did_expression(
                *old(self),
                r,
                spec_parse_if_branches(old(self).source(), old(self).state(), token@, condition@),
            ),
        decreases old(self).tokens@.len() - old(self).position, 0nat,
    {
        proof {
            reveal_with_fuel(spec_parse_if_branches, 1);
            reveal_with_fuel(spec_parse_block_body, 1);
        }
        let consequence_token = self.current().clone();
        self.advance_token();
        let consequence = match self.parse_block_body(consequence_token.clone()) {
            Ok(b) => b,
            Err(e) => {
                return Err(e);
            },
        };
        if self.peek_token_is(TokenType::KEYWORD(KeywordTokenType::ELSE)) {
            self.advance_token();
            self.advance_token();
            let alternative_token = self.current().clone();
            self.advance_token();
            let alternative = match self.parse_block_body(alternative_token.clone()) {
                Ok(b) => b,
                Err(e) => {
                    return Err(e);
                },
            };
            Ok(
                self.finish_if(
                    token,
                    condition,
                    consequence_token,
                    consequence,
                    alternative_token,
                    Some(alternative),
                ),
            )
        } else {
            let alternative_token = consequence_token.clone();
            Ok(
                self.finish_if(
                    token,
                    condition,
                    consequence_token,
                    consequence,
                    alternative_token,
                    None,
                ),
            )
        }
    }
}


impl Parser {
    /// Parses the whole input, up to its end. The program holds the
    /// statements that parsed; `errors` and `warnings` gain what was
    /// reported on the way. A token that the lexer could not read is
    /// reported like any other token that starts no statement. Parsing
    /// always comes to an end and always gives a program.
    #[verifier::rlimit(40)]
    pub fn parse(&mut self) -> (r: Result<Program, ParserError>)
        requires
            old(self).wf(),
        ensures
            final(self).follows(*old(self)),
            match r {
                Ok(program) => (final(self).state(), program@.statements) == spec_parse_program(
                    old(self).source(),
                    old(self).state(),
                    Seq::empty(),
                ),
                Err(_) => false,
            },
            final(self).at_end(),
    {
        let mut statements: Vec<Statement> = Vec::new();
        assert(statements_view(statements@) =~= Seq::empty());
        loop
            invariant
                self.follows(*old(self)),
                spec_parse_program(self.source(), self.state(), statements_view(statements@))
                    == spec_parse_program(old(self).source(), old(self).state(), Seq::empty()),
            decreases self.tokens@.len() - self.position,
        {
            proof {
                reveal_with_fuel(spec_parse_program, 1);
                reveal_with_fuel(spec_parse_block_body, 1);
                reveal_with_fuel(spec_parse_statement, 1);
            }
            let ghost before = statements@;
            let kind = self.current().t;
            if kind == TokenType::EOF {
                return Ok(Program { statements });
            } else if kind == TokenType::SEMICOLON {
                self.advance_token();
            } else if kind == TokenType::LBRACE {
                match self.parse_block_statement() {
                    Ok(block) => {
                        let statement = Statement::Block(block);
                        statements.push(statement);
                        proof {
                            lemma_statements_view_push(before, statement);
                        }
                        self.advance_token();
                    },
                    Err(e) => {
                        self.report(e);
                        let line = self.current().line;
                        self.skip_line(line);
                    },
                }
            } else {
                match self.parse_statement() {
                    Ok(statement) => {
                        statements.push(statement);
                        proof {
                            lemma_statements_view_push(before, statement);
                        }
                        self.advance_token();
                    },
                    Err(e) => {
                        self.report(e);
                        let line = self.current().line;
                        proof {
                            lemma_skip_line_progress(self.source(), self.state());
                        }
                        self.skip_line(line);
                    },
                }
            }
        }
    }
}

} // verus!
