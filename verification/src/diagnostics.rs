//! Structured diagnostics: what the parser reports as errors and warnings,
//! and what the evaluator reports as runtime errors.

use vstd::prelude::*;
use vstd::string::*;
use crate::text::spec_texts;
use crate::token::{
    clone_opt_text, spec_opt_text, Token, TokenType, TokenView,
};

verus! {

/// The view of an optional list of strings.
pub open spec fn spec_opt_texts(v: Option<Vec<String>>) -> Option<Seq<Seq<char>>> {
    match v {
        Some(lines) => Some(spec_texts(lines@)),
        None => None,
    }
}

/// A copy of the strings.
pub fn clone_texts(v: &Vec<String>) -> (r: Vec<String>)
    ensures
        spec_texts(r@) == spec_texts(v@),
{
    let mut r: Vec<String> = Vec::new();
    let mut i: usize = 0;
    while i < v.len()
        invariant
            i <= v.len(),
            r@.len() == i,
            forall|j: int| 0 <= j < i ==> r@[j]@ == v@[j]@,
        decreases v.len() - i,
    {
        r.push(v[i].clone());
        i = i + 1;
    }
    assert(spec_texts(r@) =~= spec_texts(v@));
    r
}

/// A copy of the token kinds.
pub fn clone_token_types(v: &Vec<TokenType>) -> (r: Vec<TokenType>)
    ensures
        r@ == v@,
{
    let mut r: Vec<TokenType> = Vec::new();
    let mut i: usize = 0;
    while i < v.len()
        invariant
            i <= v.len(),
            r@ == v@.subrange(0, i as int),
        decreases v.len() - i,
    {
        r.push(v[i]);
        i = i + 1;
        assert(r@ =~= v@.subrange(0, i as int));
    }
    assert(v@.subrange(0, v.len() as int) =~= v@);
    r
}

/// What went wrong while parsing.
#[allow(inconsistent_fields)]
#[derive(Debug)]
pub enum ParserErrorCode {
    /// A token other than one of the expected kinds was found.
    UnexpectedToken { token: Token, expected_token_types: Vec<TokenType>, context: Option<String> },
    /// No expression can start with the token.
    UnknownPrefixToken { token: Token, context: Option<String> },
    /// An `if` without a condition.
    MissingIfCondition { token: Token, context: Option<String> },
    /// A delimiter without its pair.
    DelimiterMismatch {
        token: Token,
        expected_delimiter: TokenType,
        current_delimiter: Option<TokenType>,
        context: Option<Vec<String>>,
    },
    /// A `->` without a return type behind it.
    MissingFnReturnType { token: Token, context: Option<String> },
    Unknown,
}

/// What a [`ParserErrorCode`] is, as plain values.
#[allow(inconsistent_fields)]
pub enum ParserErrorCodeView {
    UnexpectedToken {
        token: TokenView,
        expected_token_types: Seq<TokenType>,
        context: Option<Seq<char>>,
    },
    UnknownPrefixToken { token: TokenView, context: Option<Seq<char>> },
    MissingIfCondition { token: TokenView, context: Option<Seq<char>> },
    DelimiterMismatch {
        token: TokenView,
        expected_delimiter: TokenType,
        current_delimiter: Option<TokenType>,
        context: Option<Seq<Seq<char>>>,
    },
    MissingFnReturnType { token: TokenView, context: Option<Seq<char>> },
    Unknown,
}

impl View for ParserErrorCode {
    type V = ParserErrorCodeView;

    open spec fn view(&self) -> ParserErrorCodeView {
        match *self {
            ParserErrorCode::UnexpectedToken { token, expected_token_types, context } => {
                ParserErrorCodeView::UnexpectedToken {
                    token: token@,
                    expected_token_types: expected_token_types@,
                    context: spec_opt_text(context),
                }
            },
            ParserErrorCode::UnknownPrefixToken { token, context } => {
                ParserErrorCodeView::UnknownPrefixToken {
                    token: token@,
                    context: spec_opt_text(context),
                }
            },
            ParserErrorCode::MissingIfCondition { token, context } => {
                ParserErrorCodeView::MissingIfCondition {
                    token: token@,
                    context: spec_opt_text(context),
                }
            },
            ParserErrorCode::DelimiterMismatch {
                token,
                expected_delimiter,
                current_delimiter,
                context,
            } => ParserErrorCodeView::DelimiterMismatch {
                token: token@,
                expected_delimiter,
                current_delimiter,
                context: spec_opt_texts(context),
            },
            ParserErrorCode::MissingFnReturnType { token, context } => {
                ParserErrorCodeView::MissingFnReturnType {
                    token: token@,
                    context: spec_opt_text(context),
                }
            },
            ParserErrorCode::Unknown => ParserErrorCodeView::Unknown,
        }
    }
}

impl ParserErrorCodeView {
    /// The number of the kind of error.
    pub open spec fn id(self) -> nat {
        match self {
            ParserErrorCodeView::UnexpectedToken { .. } => 1000,
            ParserErrorCodeView::UnknownPrefixToken { .. } => 1001,
            ParserErrorCodeView::MissingIfCondition { .. } => 1002,
            ParserErrorCodeView::DelimiterMismatch { .. } => 1003,
            ParserErrorCodeView::MissingFnReturnType { .. } => 1004,
            ParserErrorCodeView::Unknown => 1005,
        }
    }
}

impl ParserErrorCode {
    /// The number of the kind of error.
    pub fn id(&self) -> (r: usize)
        ensures
            r == self@.id(),
    {
        match self {
            ParserErrorCode::UnexpectedToken { .. } => 1000,
            ParserErrorCode::UnknownPrefixToken { .. } => 1001,
            ParserErrorCode::MissingIfCondition { .. } => 1002,
            ParserErrorCode::DelimiterMismatch { .. } => 1003,
            ParserErrorCode::MissingFnReturnType { .. } => 1004,
            ParserErrorCode::Unknown => 1005,
        }
    }
}

impl Clone for ParserErrorCode {
    fn clone(&self) -> (r: Self)
        ensures
            r@ == self@,
    {
        match self {
            ParserErrorCode::UnexpectedToken { token, expected_token_types, context } => {
                ParserErrorCode::UnexpectedToken {
                    token: token.clone(),
                    expected_token_types: clone_token_types(expected_token_types),
                    context: clone_opt_text(context),
                }
            },
            ParserErrorCode::UnknownPrefixToken { token, context } => {
                ParserErrorCode::UnknownPrefixToken {
                    token: token.clone(),
                    context: clone_opt_text(context),
                }
            },
            ParserErrorCode::MissingIfCondition { token, context } => {
                ParserErrorCode::MissingIfCondition {
                    token: token.clone(),
                    context: clone_opt_text(context),
                }
            },
            ParserErrorCode::DelimiterMismatch {
                token,
                expected_delimiter,
                current_delimiter,
                context,
            } => {
                let lines = match context {
                    Some(lines) => Some(clone_texts(lines)),
                    None => None,
                };
                ParserErrorCode::DelimiterMismatch {
                    token: token.clone(),
                    expected_delimiter: *expected_delimiter,
                    current_delimiter: *current_delimiter,
                    context: lines,
                }
            },
            ParserErrorCode::MissingFnReturnType { token, context } => {
                ParserErrorCode::MissingFnReturnType {
                    token: token.clone(),
                    context: clone_opt_text(context),
                }
            },
            ParserErrorCode::Unknown => ParserErrorCode::Unknown,
        }
    }
}

/// A parser error, with the error that led to it where there is one.
#[derive(Debug)]
pub struct ParserError {
    pub source: Option<Box<ParserError>>,
    pub code: ParserErrorCode,
}

/// What a [`ParserError`] is, as plain values.
pub struct ParserErrorView {
    pub source: Option<Box<ParserErrorView>>,
    pub code: ParserErrorCodeView,
}

/// The view of a parser error.
pub open spec fn parser_error_view(e: ParserError) -> ParserErrorView
    decreases e,
{
    ParserErrorView {
        source: match e.source {
            Some(inner) => Some(Box::new(parser_error_view(*inner))),
            None => None,
        },
        code: e.code@,
    }
}

impl View for ParserError {
    type V = ParserErrorView;

    open spec fn view(&self) -> ParserErrorView {
        parser_error_view(*self)
    }
}

/// The views of the errors, in order.
pub open spec fn parser_errors_view(v: Seq<ParserError>) -> Seq<ParserErrorView> {
    Seq::new(v.len(), |i: int| v[i]@)
}

impl ParserError {
    /// An error of the given kind that no other error led to.
    pub fn new(code: ParserErrorCode) -> (r: Self)
        ensures
            r@ == (ParserErrorView { source: None, code: code@ }),
    {
        ParserError { source: None, code }
    }

    /// Records the error that led to this one.
    pub fn set_source(&mut self, err: ParserError)
        ensures
            final(self)@ == (ParserErrorView { source: Some(Box::new(err@)), code: old(self)@.code }),
    {
        self.source = Some(Box::new(err));
    }
}

impl Clone for ParserError {
    fn clone(&self) -> (r: Self)
        ensures
            r@ == self@,
        decreases self,
    {
        let source = match &self.source {
            Some(inner) => Some(Box::new(ParserError::clone(inner))),
            None => None,
        };
        ParserError { source, code: self.code.clone() }
    }
}

/// A style lint of the parser: the token that set it off and the source
/// lines that show it.
#[derive(Debug)]
pub enum ParserWarning {
    UnnecessaryParentheses { token: Token, context: Vec<String> },
    EmptyIfExpression { token: Token, context: Vec<String> },
    EmptyIfConsequenceBranch { token: Token, context: Vec<String>, has_alternative: bool },
    EmptyIfAlternativeBranch { token: Token, context: Vec<String> },
    RedundantIfBranch { token: Token, context: Vec<String>, branch: bool },
    PredictableIfBranch { token: Token, context: Vec<String>, is_true_branch: bool },
    EmptyFunction { token: Token, context: Vec<String> },
    Unknown,
}

/// What a [`ParserWarning`] is, as plain values.
pub enum ParserWarningView {
    UnnecessaryParentheses { token: TokenView, context: Seq<Seq<char>> },
    EmptyIfExpression { token: TokenView, context: Seq<Seq<char>> },
    EmptyIfConsequenceBranch { token: TokenView, context: Seq<Seq<char>>, has_alternative: bool },
    EmptyIfAlternativeBranch { token: TokenView, context: Seq<Seq<char>> },
    RedundantIfBranch { token: TokenView, context: Seq<Seq<char>>, branch: bool },
    PredictableIfBranch { token: TokenView, context: Seq<Seq<char>>, is_true_branch: bool },
    EmptyFunction { token: TokenView, context: Seq<Seq<char>> },
    Unknown,
}

impl View for ParserWarning {
    type V = ParserWarningView;

    open spec fn view(&self) -> ParserWarningView {
        match *self {
            ParserWarning::UnnecessaryParentheses { token, context } => {
                ParserWarningView::UnnecessaryParentheses {
                    token: token@,
                    context: spec_texts(context@),
                }
            },
            ParserWarning::EmptyIfExpression { token, context } => {
                ParserWarningView::EmptyIfExpression { token: token@, context: spec_texts(context@) }
            },
            ParserWarning::EmptyIfConsequenceBranch { token, context, has_alternative } => {
                ParserWarningView::EmptyIfConsequenceBranch {
                    token: token@,
                    context: spec_texts(context@),
                    has_alternative,
                }
            },
            ParserWarning::EmptyIfAlternativeBranch { token, context } => {
                ParserWarningView::EmptyIfAlternativeBranch {
                    token: token@,
                    context: spec_texts(context@),
                }
            },
            ParserWarning::RedundantIfBranch { token, context, branch } => {
                ParserWarningView::RedundantIfBranch {
                    token: token@,
                    context: spec_texts(context@),
                    branch,
                }
            },
            ParserWarning::PredictableIfBranch { token, context, is_true_branch } => {
                ParserWarningView::PredictableIfBranch {
                    token: token@,
                    context: spec_texts(context@),
                    is_true_branch,
                }
            },
            ParserWarning::EmptyFunction { token, context } => {
                ParserWarningView::EmptyFunction { token: token@, context: spec_texts(context@) }
            },
            ParserWarning::Unknown => ParserWarningView::Unknown,
        }
    }
}

/// The views of the warnings, in order.
pub open spec fn parser_warnings_view(v: Seq<ParserWarning>) -> Seq<ParserWarningView> {
    Seq::new(v.len(), |i: int| v[i]@)
}

impl ParserWarningView {
    /// The number of the kind of warning.
    pub open spec fn id(self) -> nat {
        match self {
            ParserWarningView::UnnecessaryParentheses { .. } => 1000,
            ParserWarningView::EmptyIfExpression { .. } => 1001,
            ParserWarningView::EmptyIfConsequenceBranch { .. } => 1002,
            ParserWarningView::EmptyIfAlternativeBranch { .. } => 1003,
            ParserWarningView::RedundantIfBranch { .. } => 1004,
            ParserWarningView::PredictableIfBranch { .. } => 1005,
            ParserWarningView::EmptyFunction { .. } => 1006,
            ParserWarningView::Unknown => 1007,
        }
    }
}

impl ParserWarning {
    /// The number of the kind of warning.
    pub fn id(&self) -> (r: usize)
        ensures
            r == self@.id(),
    {
        match self {
            ParserWarning::UnnecessaryParentheses { .. } => 1000,
            ParserWarning::EmptyIfExpression { .. } => 1001,
            ParserWarning::EmptyIfConsequenceBranch { .. } => 1002,
            ParserWarning::EmptyIfAlternativeBranch { .. } => 1003,
            ParserWarning::RedundantIfBranch { .. } => 1004,
            ParserWarning::PredictableIfBranch { .. } => 1005,
            ParserWarning::EmptyFunction { .. } => 1006,
            ParserWarning::Unknown => 1007,
        }
    }
}

/// What went wrong while evaluating.
#[derive(Debug)]
pub enum RuntimeErrorCode {
    /// A name with no binding in the environment chain.
    IdentifierNotFound { identifier: String, context: Option<String> },
    /// A division or a remainder by zero.
    DivisionByZero { operation: String },
    /// An operator applied to operands that it has no meaning for.
    InvalidOperation { operation: String, context: Option<String> },
    TypeMismatch { expected_type: String, actual_type: String },
    /// A call of a value that is no function.
    FunctionNotFound { function_name: String, context: Option<String> },
    IndexOutOfRange { index: i64, collection: String },
    /// An operator that the operand types have no rule for.
    UnknownInfixOperator { operator: String, context: Option<String> },
    /// A result outside the 64-bit signed integers, or calls nested too
    /// deep.
    OverflowError,
}

/// What a [`RuntimeErrorCode`] is, as plain values.
pub enum RuntimeErrorCodeView {
    IdentifierNotFound { identifier: Seq<char>, context: Option<Seq<char>> },
    DivisionByZero { operation: Seq<char> },
    InvalidOperation { operation: Seq<char>, context: Option<Seq<char>> },
    TypeMismatch { expected_type: Seq<char>, actual_type: Seq<char> },
    FunctionNotFound { function_name: Seq<char>, context: Option<Seq<char>> },
    IndexOutOfRange { index: i64, collection: Seq<char> },
    UnknownInfixOperator { operator: Seq<char>, context: Option<Seq<char>> },
    OverflowError,
}

impl View for RuntimeErrorCode {
    type V = RuntimeErrorCodeView;

    open spec fn view(&self) -> RuntimeErrorCodeView {
        match *self {
            RuntimeErrorCode::IdentifierNotFound { identifier, context } => {
                RuntimeErrorCodeView::IdentifierNotFound {
                    identifier: identifier@,
                    context: spec_opt_text(context),
                }
            },
            RuntimeErrorCode::DivisionByZero { operation } => {
                RuntimeErrorCodeView::DivisionByZero { operation: operation@ }
            },
            RuntimeErrorCode::InvalidOperation { operation, context } => {
                RuntimeErrorCodeView::InvalidOperation {
                    operation: operation@,
                    context: spec_opt_text(context),
                }
            },
            RuntimeErrorCode::TypeMismatch { expected_type, actual_type } => {
                RuntimeErrorCodeView::TypeMismatch {
                    expected_type: expected_type@,
                    actual_type: actual_type@,
                }
            },
            RuntimeErrorCode::FunctionNotFound { function_name, context } => {
                RuntimeErrorCodeView::FunctionNotFound {
                    function_name: function_name@,
                    context: spec_opt_text(context),
                }
            },
            RuntimeErrorCode::IndexOutOfRange { index, collection } => {
                RuntimeErrorCodeView::IndexOutOfRange { index, collection: collection@ }
            },
            RuntimeErrorCode::UnknownInfixOperator { operator, context } => {
                RuntimeErrorCodeView::UnknownInfixOperator {
                    operator: operator@,
                    context: spec_opt_text(context),
                }
            },
            RuntimeErrorCode::OverflowError => RuntimeErrorCodeView::OverflowError,
        }
    }
}

impl RuntimeErrorCodeView {
    /// The number of the kind of error.
    pub open spec fn id(self) -> nat {
        match self {
            RuntimeErrorCodeView::IdentifierNotFound { .. } => 0,
            RuntimeErrorCodeView::DivisionByZero { .. } => 1,
            RuntimeErrorCodeView::InvalidOperation { .. } => 2,
            RuntimeErrorCodeView::TypeMismatch { .. } => 3,
            RuntimeErrorCodeView::FunctionNotFound { .. } => 4,
            RuntimeErrorCodeView::IndexOutOfRange { .. } => 5,
            RuntimeErrorCodeView::UnknownInfixOperator { .. } => 6,
            RuntimeErrorCodeView::OverflowError => 7,
        }
    }
}

impl RuntimeErrorCode {
    /// The number of the kind of error.
    pub fn id(&self) -> (r: usize)
        ensures
            r == self@.id(),
    {
        match self {
            RuntimeErrorCode::IdentifierNotFound { .. } => 0,
            RuntimeErrorCode::DivisionByZero { .. } => 1,
            RuntimeErrorCode::InvalidOperation { .. } => 2,
            RuntimeErrorCode::TypeMismatch { .. } => 3,
            RuntimeErrorCode::FunctionNotFound { .. } => 4,
            RuntimeErrorCode::IndexOutOfRange { .. } => 5,
            RuntimeErrorCode::UnknownInfixOperator { .. } => 6,
            RuntimeErrorCode::OverflowError => 7,
        }
    }
}

impl Clone for RuntimeErrorCode {
    fn clone(&self) -> (r: Self)
        ensures
            r@ == self@,
    {
        match self {
            RuntimeErrorCode::IdentifierNotFound { identifier, context } => {
                RuntimeErrorCode::IdentifierNotFound {
                    identifier: identifier.clone(),
                    context: clone_opt_text(context),
                }
            },
            RuntimeErrorCode::DivisionByZero { operation } => {
                RuntimeErrorCode::DivisionByZero { operation: operation.clone() }
            },
            RuntimeErrorCode::InvalidOperation { operation, context } => {
                RuntimeErrorCode::InvalidOperation {
                    operation: operation.clone(),
                    context: clone_opt_text(context),
                }
            },
            RuntimeErrorCode::TypeMismatch { expected_type, actual_type } => {
                RuntimeErrorCode::TypeMismatch {
                    expected_type: expected_type.clone(),
                    actual_type: actual_type.clone(),
                }
            },
            RuntimeErrorCode::FunctionNotFound { function_name, context } => {
                RuntimeErrorCode::FunctionNotFound {
                    function_name: function_name.clone(),
                    context: clone_opt_text(context),
                }
            },
            RuntimeErrorCode::IndexOutOfRange { index, collection } => {
                RuntimeErrorCode::IndexOutOfRange { index: *index, collection: collection.clone() }
            },
            RuntimeErrorCode::UnknownInfixOperator { operator, context } => {
                RuntimeErrorCode::UnknownInfixOperator {
                    operator: operator.clone(),
                    context: clone_opt_text(context),
                }
            },
            RuntimeErrorCode::OverflowError => RuntimeErrorCode::OverflowError,
        }
    }
}

/// A runtime error, with the error that led to it where there is one.
#[derive(Debug)]
pub struct RuntimeError {
    pub source: Option<Box<RuntimeError>>,
    pub code: RuntimeErrorCode,
}

/// What a [`RuntimeError`] is, as plain values.
pub struct RuntimeErrorView {
    pub source: Option<Box<RuntimeErrorView>>,
    pub code: RuntimeErrorCodeView,
}

/// The view of a runtime error.
pub open spec fn runtime_error_view(e: RuntimeError) -> RuntimeErrorView
    decreases e,
{
    RuntimeErrorView {
        source: match e.source {
            Some(inner) => Some(Box::new(runtime_error_view(*inner))),
            None => None,
        },
        code: e.code@,
    }
}

impl View for RuntimeError {
    type V = RuntimeErrorView;

    open spec fn view(&self) -> RuntimeErrorView {
        runtime_error_view(*self)
    }
}

impl RuntimeError {
    /// An error of the given kind that no other error led to.
    pub fn new(code: RuntimeErrorCode) -> (r: Self)
        ensures
            r@ == (RuntimeErrorView { source: None, code: code@ }),
    {
        RuntimeError { source: None, code }
    }

    /// Records the error that led to this one.
    pub fn set_source(&mut self, err: RuntimeError)
        ensures
            final(self)@ == (RuntimeErrorView {
                source: Some(Box::new(err@)),
                code: old(self)@.code,
            }),
    {
        self.source = Some(Box::new(err));
    }
}

impl Clone for RuntimeError {
    fn clone(&self) -> (r: Self)
        ensures
            r@ == self@,
        decreases self,
    {
        let source = match &self.source {
            Some(inner) => Some(Box::new(RuntimeError::clone(inner))),
            None => None,
        };
        RuntimeError { source, code: self.code.clone() }
    }
}

} // verus!
