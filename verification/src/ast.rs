//! The syntax tree: one type per kind of node, each with the token it
//! started at, and the view of the tree as plain values.

use vstd::prelude::*;
use vstd::string::*;
use crate::text::{
    parse_decimal, spec_parse_decimal, str_equals,
};
use crate::token::{
    clone_opt_text, spec_opt_text, Token, TokenView,
};

verus! {

/// An identifier: a name in an expression, a declaration or a type annotation.
#[derive(Debug)]
pub struct Identifier {
    pub token: Token,
    pub value: String,
}

/// What a value of [`Identifier`] is, as plain values.
pub struct IdentifierView {
    pub token: TokenView,
    pub value: Seq<char>,
}

/// A 64-bit signed integer literal.
#[derive(Debug)]
pub struct IntegerLiteral {
    pub token: Token,
    pub value: i64,
}

/// What a value of [`IntegerLiteral`] is, as plain values.
pub struct IntegerLiteralView {
    pub token: TokenView,
    pub value: i64,
}

/// One of the literals `true` and `false`.
#[derive(Debug)]
pub struct BooleanExpression {
    pub token: Token,
    pub value: bool,
}

/// What a value of [`BooleanExpression`] is, as plain values.
pub struct BooleanExpressionView {
    pub token: TokenView,
    pub value: bool,
}

/// The literal `null`.
#[derive(Debug)]
pub struct NullExpression {
    pub token: Token,
}

/// What a value of [`NullExpression`] is, as plain values.
pub struct NullExpressionView {
    pub token: TokenView,
}

/// A string literal; `content` is the text between the quotes.
#[derive(Debug)]
pub struct StringLiteral {
    pub token: Token,
    pub content: String,
}

/// What a value of [`StringLiteral`] is, as plain values.
pub struct StringLiteralView {
    pub token: TokenView,
    pub content: Seq<char>,
}

/// A function parameter: a name with an optional type annotation.
#[derive(Debug)]
pub struct TypedIdentifier {
    pub identifier: Identifier,
    pub t: Option<Identifier>,
}

/// What a value of [`TypedIdentifier`] is, as plain values.
pub struct TypedIdentifierView {
    pub identifier: IdentifierView,
    pub t: Option<IdentifierView>,
}

/// A prefix operator applied to an operand.
#[derive(Debug)]
pub struct PrefixExpression {
    pub token: Token,
    pub operator: String,
    pub rhs: Box<Expression>,
}

/// A binary operator between two operands.
#[derive(Debug)]
pub struct InfixExpression {
    pub token: Token,
    pub lhs: Box<Expression>,
    pub operator: String,
    pub rhs: Box<Expression>,
}

/// A conditional with a consequence block and an optional alternative block.
#[derive(Debug)]
pub struct IfExpression {
    pub token: Token,
    pub condition: Box<Expression>,
    pub consequence: BlockStatement,
    pub alternative: Option<BlockStatement>,
}

/// A function literal: optional name, parameters, optional return type and body.
#[derive(Debug)]
pub struct FunctionLiteral {
    pub token: Token,
    pub name: Option<Identifier>,
    pub visibility: Option<Token>,
    pub parameters: Vec<TypedIdentifier>,
    pub return_type: Option<Identifier>,
    pub body: BlockStatement,
}

/// A call: the callee and its arguments in order.
#[derive(Debug)]
pub struct CallExpression {
    pub token: Token,
    pub function: Box<Expression>,
    pub args: Vec<Expression>,
}

/// A `let`, `const` or `var` declaration; the kind is that of `token`.
#[derive(Debug)]
pub struct DeclareStatement {
    pub token: Token,
    pub name: Identifier,
    pub type_specifier: Option<String>,
    pub value: Option<Expression>,
}

/// A `return` with an optional value.
#[derive(Debug)]
pub struct ReturnStatement {
    pub token: Token,
    pub value: Option<Expression>,
}

/// An expression in statement position.
#[derive(Debug)]
pub struct ExpressionStatement {
    pub token: Token,
    pub expression: Expression,
}

/// A deferred expression.
#[derive(Debug)]
pub struct DeferStatement {
    pub token: Token,
    pub value: Expression,
}

/// A brace-delimited sequence of statements.
#[derive(Debug)]
pub struct BlockStatement {
    pub token: Token,
    pub statements: Vec<Statement>,
}

/// What a value of [`BlockStatement`] is, as plain values.
pub struct BlockStatementView {
    pub token: TokenView,
    pub statements: Seq<StatementView>,
}

/// An expression.
#[derive(Debug)]
pub enum Expression {
    Identifier(Identifier),
    IntegerLiteral(IntegerLiteral),
    Boolean(BooleanExpression),
    Null(NullExpression),
    StringLiteral(StringLiteral),
    Prefix(PrefixExpression),
    Infix(InfixExpression),
    If(IfExpression),
    Function(FunctionLiteral),
    Call(CallExpression),
}

/// What an [`Expression`] is, as plain values.
pub enum ExpressionView {
    Identifier(IdentifierView),
    IntegerLiteral(IntegerLiteralView),
    Boolean(BooleanExpressionView),
    Null(NullExpressionView),
    StringLiteral(StringLiteralView),
    Prefix {
        token: TokenView,
        operator: Seq<char>,
        rhs: Box<ExpressionView>,
    },
    Infix {
        token: TokenView,
        lhs: Box<ExpressionView>,
        operator: Seq<char>,
        rhs: Box<ExpressionView>,
    },
    If {
        token: TokenView,
        condition: Box<ExpressionView>,
        consequence: BlockStatementView,
        alternative: Option<BlockStatementView>,
    },
    Function {
        token: TokenView,
        name: Option<IdentifierView>,
        visibility: Option<TokenView>,
        parameters: Seq<TypedIdentifierView>,
        return_type: Option<IdentifierView>,
        body: BlockStatementView,
    },
    Call {
        token: TokenView,
        function: Box<ExpressionView>,
        args: Seq<ExpressionView>,
    },
}

/// A statement.
#[derive(Debug)]
pub enum Statement {
    Declare(DeclareStatement),
    Return(ReturnStatement),
    Expression(ExpressionStatement),
    Defer(DeferStatement),
    Block(BlockStatement),
}

/// What a [`Statement`] is, as plain values.
#[allow(inconsistent_fields)]
pub enum StatementView {
    Declare {
        token: TokenView,
        name: IdentifierView,
        type_specifier: Option<Seq<char>>,
        value: Option<ExpressionView>,
    },
    Return {
        token: TokenView,
        value: Option<ExpressionView>,
    },
    Expression {
        token: TokenView,
        expression: ExpressionView,
    },
    Defer {
        token: TokenView,
        value: ExpressionView,
    },
    Block(BlockStatementView),
}

/// A program: its statements in order.
#[derive(Debug)]
pub struct Program {
    pub statements: Vec<Statement>,
}

/// What a [`Program`] is, as plain values.
pub struct ProgramView {
    pub statements: Seq<StatementView>,
}

/// The view of an optional token.
pub open spec fn spec_opt_token(t: Option<Token>) -> Option<TokenView> {
    match t {
        Some(token) => Some(token@),
        None => None,
    }
}

/// The view of an optional identifier.
pub open spec fn spec_opt_identifier(i: Option<Identifier>) -> Option<IdentifierView> {
    match i {
        Some(identifier) => Some(identifier@),
        None => None,
    }
}

/// The views of the parameters, in order.
pub open spec fn typed_identifiers_view(v: Seq<TypedIdentifier>) -> Seq<TypedIdentifierView> {
    Seq::new(v.len(), |i: int| v[i]@)
}

impl View for Identifier {
    type V = IdentifierView;

    open spec fn view(&self) -> IdentifierView {
        IdentifierView {
            token: self.token@,
            value: self.value@,
        }
    }
}

impl View for IntegerLiteral {
    type V = IntegerLiteralView;

    open spec fn view(&self) -> IntegerLiteralView {
        IntegerLiteralView {
            token: self.token@,
            value: self.value,
        }
    }
}

impl View for BooleanExpression {
    type V = BooleanExpressionView;

    open spec fn view(&self) -> BooleanExpressionView {
        BooleanExpressionView {
            token: self.token@,
            value: self.value,
        }
    }
}

impl View for NullExpression {
    type V = NullExpressionView;

    open spec fn view(&self) -> NullExpressionView {
        NullExpressionView {
            token: self.token@,
        }
    }
}

impl View for StringLiteral {
    type V = StringLiteralView;

    open spec fn view(&self) -> StringLiteralView {
        StringLiteralView {
            token: self.token@,
            content: self.content@,
        }
    }
}

impl View for TypedIdentifier {
    type V = TypedIdentifierView;

    open spec fn view(&self) -> TypedIdentifierView {
        TypedIdentifierView {
            identifier: self.identifier@,
            t: spec_opt_identifier(self.t),
        }
    }
}

/// The view of an expression.
pub open spec fn expression_view(e: Expression) -> ExpressionView
    decreases e,
{
    match e {
        Expression::Identifier(node) => ExpressionView::Identifier(node@),
        Expression::IntegerLiteral(node) => ExpressionView::IntegerLiteral(node@),
        Expression::Boolean(node) => ExpressionView::Boolean(node@),
        Expression::Null(node) => ExpressionView::Null(node@),
        Expression::StringLiteral(node) => ExpressionView::StringLiteral(node@),
        Expression::Prefix(node) => ExpressionView::Prefix {
            token: node.token@,
            operator: node.operator@,
            rhs: Box::new(expression_view(*node.rhs)),
        },
        Expression::Infix(node) => ExpressionView::Infix {
            token: node.token@,
            lhs: Box::new(expression_view(*node.lhs)),
            operator: node.operator@,
            rhs: Box::new(expression_view(*node.rhs)),
        },
        Expression::If(node) => ExpressionView::If {
            token: node.token@,
            condition: Box::new(expression_view(*node.condition)),
            consequence: block_statement_view(node.consequence),
            alternative: match node.alternative {
                Some(inner) => Some(block_statement_view(inner)),
                None => None,
            },
        },
        Expression::Function(node) => ExpressionView::Function {
            token: node.token@,
            name: spec_opt_identifier(node.name),
            visibility: spec_opt_token(node.visibility),
            parameters: typed_identifiers_view(node.parameters@),
            return_type: spec_opt_identifier(node.return_type),
            body: block_statement_view(node.body),
        },
        Expression::Call(node) => ExpressionView::Call {
            token: node.token@,
            function: Box::new(expression_view(*node.function)),
            args: expressions_view(node.args@),
        },
    }
}

/// The view of a statement.
pub open spec fn statement_view(s: Statement) -> StatementView
    decreases s,
{
    match s {
        Statement::Declare(node) => StatementView::Declare {
            token: node.token@,
            name: node.name@,
            type_specifier: spec_opt_text(node.type_specifier),
            value: match node.value {
                Some(inner) => Some(expression_view(inner)),
                None => None,
            },
        },
        Statement::Return(node) => StatementView::Return {
            token: node.token@,
            value: match node.value {
                Some(inner) => Some(expression_view(inner)),
                None => None,
            },
        },
        Statement::Expression(node) => StatementView::Expression {
            token: node.token@,
            expression: expression_view(node.expression),
        },
        Statement::Defer(node) => StatementView::Defer {
            token: node.token@,
            value: expression_view(node.value),
        },
        Statement::Block(node) => StatementView::Block(block_statement_view(node)),
    }
}

/// The view of a block.
pub open spec fn block_statement_view(b: BlockStatement) -> BlockStatementView
    decreases b,
{
    BlockStatementView { token: b.token@, statements: statements_view(b.statements@) }
}

/// The views of the expressions, in order.
pub open spec fn expressions_view(v: Seq<Expression>) -> Seq<ExpressionView>
    decreases v,
{
    Seq::new(
        v.len(),
        |i: int|
            if 0 <= i < v.len() {
                expression_view(v[i])
            } else {
                arbitrary()
            },
    )
}

/// The views of the statements, in order.
pub open spec fn statements_view(v: Seq<Statement>) -> Seq<StatementView>
    decreases v,
{
    Seq::new(
        v.len(),
        |i: int|
            if 0 <= i < v.len() {
                statement_view(v[i])
            } else {
                arbitrary()
            },
    )
}

/// The view of an optional expression.
pub open spec fn spec_opt_expression(e: Option<Expression>) -> Option<ExpressionView> {
    match e {
        Some(expression) => Some(expression_view(expression)),
        None => None,
    }
}

/// The view of an optional block.
pub open spec fn spec_opt_block(b: Option<BlockStatement>) -> Option<BlockStatementView> {
    match b {
        Some(block) => Some(block_statement_view(block)),
        None => None,
    }
}

impl View for Expression {
    type V = ExpressionView;

    open spec fn view(&self) -> ExpressionView {
        expression_view(*self)
    }
}

impl View for Statement {
    type V = StatementView;

    open spec fn view(&self) -> StatementView {
        statement_view(*self)
    }
}

impl View for BlockStatement {
    type V = BlockStatementView;

    open spec fn view(&self) -> BlockStatementView {
        block_statement_view(*self)
    }
}

impl View for Program {
    type V = ProgramView;

    open spec fn view(&self) -> ProgramView {
        ProgramView { statements: statements_view(self.statements@) }
    }
}

impl View for PrefixExpression {
    type V = ExpressionView;

    /// The view of the expression that the node is.
    open spec fn view(&self) -> ExpressionView {
        expression_view(Expression::Prefix(*self))
    }
}

impl View for InfixExpression {
    type V = ExpressionView;

    /// The view of the expression that the node is.
    open spec fn view(&self) -> ExpressionView {
        expression_view(Expression::Infix(*self))
    }
}

impl View for IfExpression {
    type V = ExpressionView;

    /// The view of the expression that the node is.
    open spec fn view(&self) -> ExpressionView {
        expression_view(Expression::If(*self))
    }
}

impl View for FunctionLiteral {
    type V = ExpressionView;

    /// The view of the expression that the node is.
    open spec fn view(&self) -> ExpressionView {
        expression_view(Expression::Function(*self))
    }
}

impl View for CallExpression {
    type V = ExpressionView;

    /// The view of the expression that the node is.
    open spec fn view(&self) -> ExpressionView {
        expression_view(Expression::Call(*self))
    }
}

impl View for DeclareStatement {
    type V = StatementView;

    /// The view of the statement that the node is.
    open spec fn view(&self) -> StatementView {
        statement_view(Statement::Declare(*self))
    }
}

impl View for ReturnStatement {
    type V = StatementView;

    /// The view of the statement that the node is.
    open spec fn view(&self) -> StatementView {
        statement_view(Statement::Return(*self))
    }
}

impl View for ExpressionStatement {
    type V = StatementView;

    /// The view of the statement that the node is.
    open spec fn view(&self) -> StatementView {
        statement_view(Statement::Expression(*self))
    }
}

impl View for DeferStatement {
    type V = StatementView;

    /// The view of the statement that the node is.
    open spec fn view(&self) -> StatementView {
        statement_view(Statement::Defer(*self))
    }
}

/// A copy of an optional token.
pub fn clone_opt_token(t: &Option<Token>) -> (r: Option<Token>)
    ensures
        r == *t,
{
    match t {
        Some(token) => Some(token.clone()),
        None => None,
    }
}

/// A copy of an optional identifier.
pub fn clone_opt_identifier(i: &Option<Identifier>) -> (r: Option<Identifier>)
    ensures
        spec_opt_identifier(r) == spec_opt_identifier(*i),
{
    match i {
        Some(identifier) => Some(identifier.clone()),
        None => None,
    }
}

/// A copy of the parameters.
pub fn clone_typed_identifiers(v: &Vec<TypedIdentifier>) -> (r: Vec<TypedIdentifier>)
    ensures
        typed_identifiers_view(r@) == typed_identifiers_view(v@),
{
    let mut r: Vec<TypedIdentifier> = Vec::new();
    let mut i: usize = 0;
    while i < v.len()
        invariant
            i <= v.len(),
            r@.len() == i,
            forall|j: int| 0 <= j < i ==> r@[j]@ == v@[j]@,
        decreases v.len() - i,
    {
        r.push(v[i].clone());
        i = i + 1;
    }
    assert(typed_identifiers_view(r@) =~= typed_identifiers_view(v@));
    r
}

/// A copy of the expressions.
pub fn clone_expressions(v: &Vec<Expression>) -> (r: Vec<Expression>)
    ensures
        expressions_view(r@) == expressions_view(v@),
    decreases v,
{
    let mut r: Vec<Expression> = Vec::new();
    let mut i: usize = 0;
    while i < v.len()
        invariant
            i <= v.len(),
            r@.len() == i,
            forall|j: int| 0 <= j < i ==> r@[j]@ == v@[j]@,
        decreases v.len() - i,
    {
        r.push(Expression::clone(&v[i]));
        i = i + 1;
    }
    assert(expressions_view(r@) =~= expressions_view(v@));
    r
}

/// A copy of the statements.
pub fn clone_statements(v: &Vec<Statement>) -> (r: Vec<Statement>)
    ensures
        statements_view(r@) == statements_view(v@),
    decreases v,
{
    let mut r: Vec<Statement> = Vec::new();
    let mut i: usize = 0;
    while i < v.len()
        invariant
            i <= v.len(),
            r@.len() == i,
            forall|j: int| 0 <= j < i ==> r@[j]@ == v@[j]@,
        decreases v.len() - i,
    {
        r.push(Statement::clone(&v[i]));
        i = i + 1;
    }
    assert(statements_view(r@) =~= statements_view(v@));
    r
}

impl Identifier {
    pub fn new(token: Token, value: String) -> (r: Self)
        ensures
            r@ == (IdentifierView { token: token@, value: value@ }),
    {
        Identifier { token, value }
    }

    /// The text of the token that the node started at.
    pub fn get_token_literal(&self) -> (s: String)
        ensures
            s@ == self@.token.literal,
    {
        self.token.literal.clone()
    }

    /// The identifier that a token spells.
    pub fn from_token(token: &Token) -> (r: Self)
        ensures
            r@ == (IdentifierView { token: token@, value: token@.literal }),
    {
        Identifier { token: token.clone(), value: token.literal.clone() }
    }
}

impl Clone for Identifier {
    fn clone(&self) -> (r: Self)
        ensures
            r@ == self@,
    {
        Identifier { token: self.token.clone(), value: self.value.clone() }
    }
}

impl IntegerLiteral {
    pub fn new(token: Token, value: i64) -> (r: Self)
        ensures
            r@ == (IntegerLiteralView { token: token@, value: value }),
    {
        IntegerLiteral { token, value }
    }

    /// The text of the token that the node started at.
    pub fn get_token_literal(&self) -> (s: String)
        ensures
            s@ == self@.token.literal,
    {
        self.token.literal.clone()
    }

    /// The integer literal that a token spells.
    pub fn from_token(token: &Token) -> (r: Self)
        requires
            spec_parse_decimal(token@.literal) is Some,
        ensures
            r@ == (IntegerLiteralView {
                token: token@,
                value: spec_parse_decimal(token@.literal)->0,
            }),
    {
        match parse_decimal(token.literal.as_str()) {
            Some(value) => IntegerLiteral { token: token.clone(), value },
            None => unreached(),
        }
    }
}

impl Clone for IntegerLiteral {
    fn clone(&self) -> (r: Self)
        ensures
            r@ == self@,
    {
        IntegerLiteral { token: self.token.clone(), value: self.value }
    }
}

impl BooleanExpression {
    pub fn new(token: Token, value: bool) -> (r: Self)
        ensures
            r@ == (BooleanExpressionView { token: token@, value: value }),
    {
        BooleanExpression { token, value }
    }

    /// The text of the token that the node started at.
    pub fn get_token_literal(&self) -> (s: String)
        ensures
            s@ == self@.token.literal,
    {
        self.token.literal.clone()
    }

    /// The boolean literal that a token spells: `true` where its text is
    /// `true`, else `false`.
    pub fn from_token(token: &Token) -> (r: Self)
        ensures
            r@ == (BooleanExpressionView { token: token@, value: token@.literal == "true"@ }),
    {
        BooleanExpression {
            token: token.clone(),
            value: str_equals(token.literal.as_str(), "true"),
        }
    }
}

impl Clone for BooleanExpression {
    fn clone(&self) -> (r: Self)
        ensures
            r@ == self@,
    {
        BooleanExpression { token: self.token.clone(), value: self.value }
    }
}

impl NullExpression {
    pub fn new(token: Token) -> (r: Self)
        ensures
            r@ == (NullExpressionView { token: token@ }),
    {
        NullExpression { token }
    }

    /// The text of the token that the node started at.
    pub fn get_token_literal(&self) -> (s: String)
        ensures
            s@ == self@.token.literal,
    {
        self.token.literal.clone()
    }
}

impl Clone for NullExpression {
    fn clone(&self) -> (r: Self)
        ensures
            r@ == self@,
    {
        NullExpression { token: self.token.clone() }
    }
}

impl StringLiteral {
    pub fn new(token: Token, content: String) -> (r: Self)
        ensures
            r@ == (StringLiteralView { token: token@, content: content@ }),
    {
        StringLiteral { token, content }
    }

    /// The text of the token that the node started at.
    pub fn get_token_literal(&self) -> (s: String)
        ensures
            s@ == self@.token.literal,
    {
        self.token.literal.clone()
    }
}

impl Clone for StringLiteral {
    fn clone(&self) -> (r: Self)
        ensures
            r@ == self@,
    {
        StringLiteral { token: self.token.clone(), content: self.content.clone() }
    }
}

impl TypedIdentifier {
    pub fn new(identifier: Identifier, t: Option<Identifier>) -> (r: Self)
        ensures
            r@ == (TypedIdentifierView { identifier: identifier@, t: spec_opt_identifier(t) }),
    {
        TypedIdentifier { identifier, t }
    }

    /// The text of the token that the node started at.
    pub fn get_token_literal(&self) -> (s: String)
        ensures
            s@ == self@.identifier.token.literal,
    {
        self.identifier.token.literal.clone()
    }
}

impl Clone for TypedIdentifier {
    fn clone(&self) -> (r: Self)
        ensures
            r@ == self@,
    {
        TypedIdentifier { identifier: self.identifier.clone(), t: clone_opt_identifier(&self.t) }
    }
}

impl PrefixExpression {
    pub fn new(token: Token, operator: String, rhs: Expression) -> (r: Self)
        ensures
            r@ == (ExpressionView::Prefix {
                token: token@,
                operator: operator@,
                rhs: Box::new(rhs@),
            }),
    {
        PrefixExpression { token, operator, rhs: Box::new(rhs) }
    }

    /// The text of the token that the node started at.
    pub fn get_token_literal(&self) -> (s: String)
        ensures
            s@ == self@.token().literal,
    {
        self.token.literal.clone()
    }
}

impl Clone for PrefixExpression {
    fn clone(&self) -> (r: Self)
        ensures
            r@ == self@,
        decreases self,
    {
        PrefixExpression {
            token: self.token.clone(),
            operator: self.operator.clone(),
            rhs: Box::new(Expression::clone(&self.rhs)),
        }
    }
}

impl InfixExpression {
    pub fn new(token: Token, lhs: Expression, operator: String, rhs: Expression) -> (r: Self)
        ensures
            r@ == (ExpressionView::Infix {
                token: token@,
                lhs: Box::new(lhs@),
                operator: operator@,
                rhs: Box::new(rhs@),
            }),
    {
        InfixExpression { token, lhs: Box::new(lhs), operator, rhs: Box::new(rhs) }
    }

    /// The text of the token that the node started at.
    pub fn get_token_literal(&self) -> (s: String)
        ensures
            s@ == self@.token().literal,
    {
        self.token.literal.clone()
    }
}

impl Clone for InfixExpression {
    fn clone(&self) -> (r: Self)
        ensures
            r@ == self@,
        decreases self,
    {
        InfixExpression {
            token: self.token.clone(),
            lhs: Box::new(Expression::clone(&self.lhs)),
            operator: self.operator.clone(),
            rhs: Box::new(Expression::clone(&self.rhs)),
        }
    }
}

impl IfExpression {
    pub fn new(
        token: Token,
        condition: Expression,
        consequence: BlockStatement,
        alternative: Option<BlockStatement>,
    ) -> (r: Self)
        ensures
            r@ == (ExpressionView::If {
                token: token@,
                condition: Box::new(condition@),
                consequence: consequence@,
                alternative: spec_opt_block(alternative),
            }),
    {
        IfExpression { token, condition: Box::new(condition), consequence, alternative }
    }

    /// The text of the token that the node started at.
    pub fn get_token_literal(&self) -> (s: String)
        ensures
            s@ == self@.token().literal,
    {
        self.token.literal.clone()
    }
}

impl Clone for IfExpression {
    fn clone(&self) -> (r: Self)
        ensures
            r@ == self@,
        decreases self,
    {
        let alternative = match &self.alternative {
            Some(inner) => Some(BlockStatement::clone(inner)),
            None => None,
        };
        IfExpression {
            token: self.token.clone(),
            condition: Box::new(Expression::clone(&self.condition)),
            consequence: BlockStatement::clone(&self.consequence),
            alternative,
        }
    }
}

impl FunctionLiteral {
    pub fn new(
        token: Token,
        name: Option<Identifier>,
        visibility: Option<Token>,
        parameters: Vec<TypedIdentifier>,
        return_type: Option<Identifier>,
        body: BlockStatement,
    ) -> (r: Self)
        ensures
            r@ == (ExpressionView::Function {
                token: token@,
                name: spec_opt_identifier(name),
                visibility: spec_opt_token(visibility),
                parameters: typed_identifiers_view(parameters@),
                return_type: spec_opt_identifier(return_type),
                body: body@,
            }),
    {
        FunctionLiteral { token, name, visibility, parameters, return_type, body }
    }

    /// The text of the token that the node started at.
    pub fn get_token_literal(&self) -> (s: String)
        ensures
            s@ == self@.token().literal,
    {
        self.token.literal.clone()
    }
}

impl Clone for FunctionLiteral {
    fn clone(&self) -> (r: Self)
        ensures
            r@ == self@,
        decreases self,
    {
        FunctionLiteral {
            token: self.token.clone(),
            name: clone_opt_identifier(&self.name),
            visibility: clone_opt_token(&self.visibility),
            parameters: clone_typed_identifiers(&self.parameters),
            return_type: clone_opt_identifier(&self.return_type),
            body: BlockStatement::clone(&self.body),
        }
    }
}

impl CallExpression {
    pub fn new(token: Token, function: Expression, args: Vec<Expression>) -> (r: Self)
        ensures
            r@ == (ExpressionView::Call {
                token: token@,
                function: Box::new(function@),
                args: expressions_view(args@),
            }),
    {
        CallExpression { token, function: Box::new(function), args }
    }

    /// The text of the token that the node started at.
    pub fn get_token_literal(&self) -> (s: String)
        ensures
            s@ == self@.token().literal,
    {
        self.token.literal.clone()
    }
}

impl Clone for CallExpression {
    fn clone(&self) -> (r: Self)
        ensures
            r@ == self@,
        decreases self,
    {
        CallExpression {
            token: self.token.clone(),
            function: Box::new(Expression::clone(&self.function)),
            args: clone_expressions(&self.args),
        }
    }
}

impl DeclareStatement {
    pub fn new(
        token: Token,
        name: Identifier,
        type_specifier: Option<String>,
        value: Option<Expression>,
    ) -> (r: Self)
        ensures
            r@ == (StatementView::Declare {
                token: token@,
                name: name@,
                type_specifier: spec_opt_text(type_specifier),
                value: spec_opt_expression(value),
            }),
    {
        DeclareStatement { token, name, type_specifier, value }
    }

    /// The text of the token that the node started at.
    pub fn get_token_literal(&self) -> (s: String)
        ensures
            s@ == self@.token().literal,
    {
        self.token.literal.clone()
    }
}

impl Clone for DeclareStatement {
    fn clone(&self) -> (r: Self)
        ensures
            r@ == self@,
        decreases self,
    {
        let value = match &self.value {
            Some(inner) => Some(Expression::clone(inner)),
            None => None,
        };
        DeclareStatement {
            token: self.token.clone(),
            name: self.name.clone(),
            type_specifier: clone_opt_text(&self.type_specifier),
            value,
        }
    }
}

impl ReturnStatement {
    pub fn new(token: Token, value: Option<Expression>) -> (r: Self)
        ensures
            r@ == (StatementView::Return { token: token@, value: spec_opt_expression(value) }),
    {
        ReturnStatement { token, value }
    }

    /// The text of the token that the node started at.
    pub fn get_token_literal(&self) -> (s: String)
        ensures
            s@ == self@.token().literal,
    {
        self.token.literal.clone()
    }
}

impl Clone for ReturnStatement {
    fn clone(&self) -> (r: Self)
        ensures
            r@ == self@,
        decreases self,
    {
        let value = match &self.value {
            Some(inner) => Some(Expression::clone(inner)),
            None => None,
        };
        ReturnStatement { token: self.token.clone(), value }
    }
}

impl ExpressionStatement {
    pub fn new(token: Token, expression: Expression) -> (r: Self)
        ensures
            r@ == (StatementView::Expression { token: token@, expression: expression@ }),
    {
        ExpressionStatement { token, expression }
    }

    /// The text of the token that the node started at.
    pub fn get_token_literal(&self) -> (s: String)
        ensures
            s@ == self@.token().literal,
    {
        self.token.literal.clone()
    }
}

impl Clone for ExpressionStatement {
    fn clone(&self) -> (r: Self)
        ensures
            r@ == self@,
        decreases self,
    {
        ExpressionStatement {
            token: self.token.clone(),
            expression: Expression::clone(&self.expression),
        }
    }
}

impl DeferStatement {
    pub fn new(token: Token, value: Expression) -> (r: Self)
        ensures
            r@ == (StatementView::Defer { token: token@, value: value@ }),
    {
        DeferStatement { token, value }
    }

    /// The text of the token that the node started at.
    pub fn get_token_literal(&self) -> (s: String)
        ensures
            s@ == self@.token().literal,
    {
        self.token.literal.clone()
    }
}

impl Clone for DeferStatement {
    fn clone(&self) -> (r: Self)
        ensures
            r@ == self@,
        decreases self,
    {
        DeferStatement { token: self.token.clone(), value: Expression::clone(&self.value) }
    }
}

impl BlockStatement {
    pub fn new(token: Token, statements: Vec<Statement>) -> (r: Self)
        ensures
            r@ == (BlockStatementView { token: token@, statements: statements_view(statements@) }),
    {
        BlockStatement { token, statements }
    }

    /// The text of the token that the node started at.
    pub fn get_token_literal(&self) -> (s: String)
        ensures
            s@ == self@.token.literal,
    {
        self.token.literal.clone()
    }
}

impl Clone for BlockStatement {
    fn clone(&self) -> (r: Self)
        ensures
            r@ == self@,
        decreases self,
    {
        BlockStatement { token: self.token.clone(), statements: clone_statements(&self.statements) }
    }
}

impl ExpressionView {
    /// The token that the node started at.
    pub open spec fn token(self) -> TokenView {
        match self {
            ExpressionView::Identifier(node) => node.token,
            ExpressionView::IntegerLiteral(node) => node.token,
            ExpressionView::Boolean(node) => node.token,
            ExpressionView::Null(node) => node.token,
            ExpressionView::StringLiteral(node) => node.token,
            ExpressionView::Prefix { token, .. } => token,
            ExpressionView::Infix { token, .. } => token,
            ExpressionView::If { token, .. } => token,
            ExpressionView::Function { token, .. } => token,
            ExpressionView::Call { token, .. } => token,
        }
    }
}

impl Expression {
    /// The text of the token that the node started at.
    pub fn get_token_literal(&self) -> (s: String)
        ensures
            s@ == self@.token().literal,
    {
        match self {
            Expression::Identifier(node) => node.get_token_literal(),
            Expression::IntegerLiteral(node) => node.get_token_literal(),
            Expression::Boolean(node) => node.get_token_literal(),
            Expression::Null(node) => node.get_token_literal(),
            Expression::StringLiteral(node) => node.get_token_literal(),
            Expression::Prefix(node) => node.get_token_literal(),
            Expression::Infix(node) => node.get_token_literal(),
            Expression::If(node) => node.get_token_literal(),
            Expression::Function(node) => node.get_token_literal(),
            Expression::Call(node) => node.get_token_literal(),
        }
    }
}

impl Clone for Expression {
    fn clone(&self) -> (r: Self)
        ensures
            r@ == self@,
        decreases self,
    {
        match self {
            Expression::Identifier(node) => Expression::Identifier(Identifier::clone(node)),
            Expression::IntegerLiteral(node) => Expression::IntegerLiteral(IntegerLiteral::clone(node)),
            Expression::Boolean(node) => Expression::Boolean(BooleanExpression::clone(node)),
            Expression::Null(node) => Expression::Null(NullExpression::clone(node)),
            Expression::StringLiteral(node) => Expression::StringLiteral(StringLiteral::clone(node)),
            Expression::Prefix(node) => Expression::Prefix(PrefixExpression::clone(node)),
            Expression::Infix(node) => Expression::Infix(InfixExpression::clone(node)),
            Expression::If(node) => Expression::If(IfExpression::clone(node)),
            Expression::Function(node) => Expression::Function(FunctionLiteral::clone(node)),
            Expression::Call(node) => Expression::Call(CallExpression::clone(node)),
        }
    }
}

impl StatementView {
    /// The token that the node started at.
    pub open spec fn token(self) -> TokenView {
        match self {
            StatementView::Declare { token, .. } => token,
            StatementView::Return { token, .. } => token,
            StatementView::Expression { token, .. } => token,
            StatementView::Defer { token, .. } => token,
            StatementView::Block(node) => node.token,
        }
    }
}

impl Statement {
    /// The text of the token that the node started at.
    pub fn get_token_literal(&self) -> (s: String)
        ensures
            s@ == self@.token().literal,
    {
        match self {
            Statement::Declare(node) => node.get_token_literal(),
            Statement::Return(node) => node.get_token_literal(),
            Statement::Expression(node) => node.get_token_literal(),
            Statement::Defer(node) => node.get_token_literal(),
            Statement::Block(node) => node.get_token_literal(),
        }
    }
}

impl Clone for Statement {
    fn clone(&self) -> (r: Self)
        ensures
            r@ == self@,
        decreases self,
    {
        match self {
            Statement::Declare(node) => Statement::Declare(DeclareStatement::clone(node)),
            Statement::Return(node) => Statement::Return(ReturnStatement::clone(node)),
            Statement::Expression(node) => Statement::Expression(ExpressionStatement::clone(node)),
            Statement::Defer(node) => Statement::Defer(DeferStatement::clone(node)),
            Statement::Block(node) => Statement::Block(BlockStatement::clone(node)),
        }
    }
}

impl Program {
    /// The empty program.
    pub fn new() -> (r: Self)
        ensures
            r@.statements == Seq::<StatementView>::empty(),
    {
        let r = Program { statements: Vec::new() };
        assert(r@.statements =~= Seq::<StatementView>::empty());
        r
    }

    /// The text of the token that the first statement started at; empty for
    /// the empty program.
    pub fn get_token_literal(&self) -> (s: String)
        ensures
            s@ == self@.token_literal(),
    {
        if self.statements.len() == 0 {
            String::new()
        } else {
            self.statements[0].get_token_literal()
        }
    }
}

impl ProgramView {
    /// The text of the token that the first statement started at; empty for
    /// the empty program.
    pub open spec fn token_literal(self) -> Seq<char> {
        if self.statements.len() == 0 {
            Seq::empty()
        } else {
            self.statements[0].token().literal
        }
    }
}

impl Clone for Program {
    fn clone(&self) -> (r: Self)
        ensures
            r@ == self@,
    {
        Program { statements: clone_statements(&self.statements) }
    }
}

/// Appending a statement appends its view.
pub proof fn lemma_statements_view_push(v: Seq<Statement>, s: Statement)
    ensures
        statements_view(v.push(s)) == statements_view(v).push(statement_view(s)),
{
    assert(statements_view(v.push(s)) =~= statements_view(v).push(statement_view(s)));
}

/// Appending an expression appends its view.
pub proof fn lemma_expressions_view_push(v: Seq<Expression>, e: Expression)
    ensures
        expressions_view(v.push(e)) == expressions_view(v).push(expression_view(e)),
{
    assert(expressions_view(v.push(e)) =~= expressions_view(v).push(expression_view(e)));
}

/// Appending a parameter appends its view.
pub proof fn lemma_typed_identifiers_view_push(v: Seq<TypedIdentifier>, t: TypedIdentifier)
    ensures
        typed_identifiers_view(v.push(t)) == typed_identifiers_view(v).push(t@),
{
    assert(typed_identifiers_view(v.push(t)) =~= typed_identifiers_view(v).push(t@));
}

} // verus!
