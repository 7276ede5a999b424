//! The text form of the syntax tree: every node prints as source text that
//! parses to the same tree again. Operators are fully parenthesised, the
//! condition of an `if` stands in parentheses, and statements that do not
//! end in `;` are kept apart by one.

use vstd::prelude::*;
use vstd::string::*;
use crate::ast::{
    expressions_view, statements_view, typed_identifiers_view, BlockStatement, BlockStatementView,
    BooleanExpression, CallExpression, DeclareStatement, DeferStatement, Expression,
    ExpressionStatement, ExpressionView, FunctionLiteral, Identifier, IfExpression,
    InfixExpression, IntegerLiteral, NullExpression, PrefixExpression, Program, ProgramView,
    ReturnStatement, Statement, StatementView, StringLiteral, TypedIdentifier,
    TypedIdentifierView,
};
use crate::text::{
    signed_decimal, spec_signed_decimal,
};

verus! {

/// The text of a parameter: its name, and `: ` with its type where it has
/// one.
pub open spec fn typed_identifier_text(t: TypedIdentifierView) -> Seq<char> {
    match t.t {
        Some(annotation) => t.identifier.value + ": "@ + annotation.value,
        None => t.identifier.value,
    }
}

/// The texts of the parameters, separated by `, `.
pub open spec fn typed_identifiers_text(v: Seq<TypedIdentifierView>) -> Seq<char>
    decreases v.len(),
{
    if v.len() == 0 {
        Seq::empty()
    } else if v.len() == 1 {
        typed_identifier_text(v[0])
    } else {
        typed_identifiers_text(v.drop_last()) + ", "@ + typed_identifier_text(v.last())
    }
}

/// The text of an expression.
pub open spec fn expression_text(e: ExpressionView) -> Seq<char>
    decreases e,
{
    match e {
        ExpressionView::Identifier(node) => node.value,
        ExpressionView::IntegerLiteral(node) => spec_signed_decimal(node.value as int),
        ExpressionView::Boolean(node) => if node.value {
            "true"@
        } else {
            "false"@
        },
        ExpressionView::Null(_) => "null"@,
        ExpressionView::StringLiteral(node) => "\""@ + node.content + "\""@,
        ExpressionView::Prefix { operator, rhs, .. } => "("@ + operator + expression_text(*rhs)
            + ")"@,
        ExpressionView::Infix { lhs, operator, rhs, .. } => "("@ + expression_text(*lhs) + " "@
            + operator + " "@ + expression_text(*rhs) + ")"@,
        ExpressionView::If { condition, consequence, alternative, .. } => match alternative {
            Some(alt) => "if ("@ + expression_text(*condition) + ") "@ + block_text(consequence)
                + " else"@ + block_text(alt),
            None => "if ("@ + expression_text(*condition) + ") "@ + block_text(consequence),
        },
        ExpressionView::Function { name, visibility, parameters, return_type, body, .. } => {
            (match visibility {
                Some(v) => v.literal,
                None => Seq::empty(),
            }) + "fn "@ + (match name {
                Some(n) => n.token.literal,
                None => Seq::empty(),
            }) + "("@ + typed_identifiers_text(parameters) + ")"@ + (match return_type {
                Some(r) => " -> "@ + r.token.literal + " "@,
                None => Seq::empty(),
            }) + block_text(body)
        },
        ExpressionView::Call { function, args, .. } => expression_text(*function) + "("@
            + expressions_text(args) + ")"@,
    }
}

/// The texts of the expressions, separated by `, `.
pub open spec fn expressions_text(v: Seq<ExpressionView>) -> Seq<char>
    decreases v,
{
    if v.len() == 0 {
        Seq::empty()
    } else if v.len() == 1 {
        expression_text(v[0])
    } else {
        expressions_text(v.drop_last()) + ", "@ + expression_text(v.last())
    }
}

/// The text of a statement.
pub open spec fn statement_text(s: StatementView) -> Seq<char>
    decreases s,
{
    match s {
        StatementView::Declare { token, name, type_specifier, value } => token.literal + " "@
            + name.token.literal + (match type_specifier {
            Some(t) => ": "@ + t,
            None => Seq::empty(),
        }) + (match value {
            Some(v) => " = "@ + expression_text(v),
            None => Seq::empty(),
        }) + ";"@,
        StatementView::Return { value, .. } => match value {
            Some(v) => "return "@ + expression_text(v) + ";"@,
            None => "return;"@,
        },
        StatementView::Expression { expression, .. } => expression_text(expression),
        StatementView::Defer { value, .. } => "defer "@ + expression_text(value) + ";"@,
        StatementView::Block(block) => block_text(block),
    }
}

/// What keeps a statement apart from the one behind it: `;` for an
/// expression and for a block, nothing for a statement that ends in `;`.
pub open spec fn statement_end(s: StatementView) -> Seq<char> {
    match s {
        StatementView::Expression { .. } | StatementView::Block(_) => ";"@,
        _ => Seq::empty(),
    }
}

/// The texts of the statements of a block, one behind the other, each
/// behind four blanks, and each but the last with what keeps it apart from
/// the next.
pub open spec fn indented_statements_text(v: Seq<StatementView>) -> Seq<char>
    decreases v,
{
    if v.len() == 0 {
        Seq::empty()
    } else if v.len() == 1 {
        "    "@ + statement_text(v[0])
    } else {
        indented_statements_text(v.drop_last()) + statement_end(v[v.len() - 2]) + "    "@
            + statement_text(v.last())
    }
}

/// The text of a block: its statements between braces on lines of their
/// own.
pub open spec fn block_text(b: BlockStatementView) -> Seq<char>
    decreases b,
{
    "{\n"@ + indented_statements_text(b.statements) + "\n}"@
}

/// The texts of the statements, one behind the other with a blank between,
/// each but the last with what keeps it apart from the next.
pub open spec fn statements_text(v: Seq<StatementView>) -> Seq<char>
    decreases v.len(),
{
    if v.len() == 0 {
        Seq::empty()
    } else if v.len() == 1 {
        statement_text(v[0])
    } else {
        statements_text(v.drop_last()) + statement_end(v[v.len() - 2]) + " "@ + statement_text(
            v.last(),
        )
    }
}

/// The text of a program: the texts of its statements, kept apart.
pub open spec fn program_text(p: ProgramView) -> Seq<char> {
    statements_text(p.statements)
}


/// The text of the first `i + 1` parameters, from that of the first `i`.
pub proof fn lemma_typed_identifiers_text_step(v: Seq<TypedIdentifierView>, i: int)
    requires
        0 <= i < v.len(),
    ensures
        typed_identifiers_text(v.subrange(0, i + 1)) == if i == 0 {
            typed_identifier_text(v[0])
        } else {
            typed_identifiers_text(v.subrange(0, i)) + ", "@ + typed_identifier_text(v[i])
        },
{
    assert(v.subrange(0, i + 1).drop_last() =~= v.subrange(0, i));
}

/// The text of the first `i + 1` expressions, from that of the first `i`.
pub proof fn lemma_expressions_text_step(v: Seq<ExpressionView>, i: int)
    requires
        0 <= i < v.len(),
    ensures
        expressions_text(v.subrange(0, i + 1)) == if i == 0 {
            expression_text(v[0])
        } else {
            expressions_text(v.subrange(0, i)) + ", "@ + expression_text(v[i])
        },
{
    assert(v.subrange(0, i + 1).drop_last() =~= v.subrange(0, i));
}

/// The text of the first `i + 1` statements of a block, from that of the
/// first `i`.
pub proof fn lemma_indented_statements_text_step(v: Seq<StatementView>, i: int)
    requires
        0 <= i < v.len(),
    ensures
        indented_statements_text(v.subrange(0, i + 1)) == if i == 0 {
            "    "@ + statement_text(v[0])
        } else {
            indented_statements_text(v.subrange(0, i)) + statement_end(v[i - 1]) + "    "@
                + statement_text(v[i])
        },
{
    assert(v.subrange(0, i + 1).drop_last() =~= v.subrange(0, i));
}

/// The text of the first `i + 1` statements, from that of the first `i`.
pub proof fn lemma_statements_text_step(v: Seq<StatementView>, i: int)
    requires
        0 <= i < v.len(),
    ensures
        statements_text(v.subrange(0, i + 1)) == if i == 0 {
            statement_text(v[0])
        } else {
            statements_text(v.subrange(0, i)) + statement_end(v[i - 1]) + " "@ + statement_text(
                v[i],
            )
        },
{
    assert(v.subrange(0, i + 1).drop_last() =~= v.subrange(0, i));
}

impl Identifier {
    /// The name.
    pub fn to_string(&self) -> (s: String)
        ensures
            s@ == self@.value,
    {
        self.value.clone()
    }
}

impl IntegerLiteral {
    /// The decimal numeral of the value.
    pub fn to_string(&self) -> (s: String)
        ensures
            s@ == spec_signed_decimal(self@.value as int),
    {
        signed_decimal(self.value)
    }
}

impl BooleanExpression {
    /// `true` or `false`.
    pub fn to_string(&self) -> (s: String)
        ensures
            s@ == if self@.value {
                "true"@
            } else {
                "false"@
            },
    {
        if self.value {
            String::from_str("true")
        } else {
            String::from_str("false")
        }
    }
}

impl NullExpression {
    /// `null`.
    pub fn to_string(&self) -> (s: String)
        ensures
            s@ == "null"@,
    {
        String::from_str("null")
    }
}

impl StringLiteral {
    /// The content between double quotes.
    pub fn to_string(&self) -> (s: String)
        ensures
            s@ == "\""@ + self@.content + "\""@,
    {
        let mut s = String::from_str("\"");
        s.append(self.content.as_str());
        s.append("\"");
        s
    }
}

impl TypedIdentifier {
    /// The name, and `: ` with the type where there is one.
    pub fn to_string(&self) -> (s: String)
        ensures
            s@ == typed_identifier_text(self@),
    {
        let mut s = self.identifier.value.clone();
        match &self.t {
            Some(annotation) => {
                s.append(": ");
                s.append(annotation.value.as_str());
            },
            None => {},
        }
        s
    }
}

/// The texts of the parameters, separated by `, `.
pub fn typed_identifiers_to_string(v: &Vec<TypedIdentifier>) -> (s: String)
    ensures
        s@ == typed_identifiers_text(typed_identifiers_view(v@)),
{
    let ghost views = typed_identifiers_view(v@);
    let mut s = String::new();
    let mut i: usize = 0;
    while i < v.len()
        invariant
            i <= v.len(),
            views == typed_identifiers_view(v@),
            s@ == typed_identifiers_text(views.subrange(0, i as int)),
        decreases v.len() - i,
    {
        proof {
            lemma_typed_identifiers_text_step(views, i as int);
        }
        if i > 0 {
            s.append(", ");
        }
        let part = v[i].to_string();
        s.append(part.as_str());
        i = i + 1;
    }
    assert(views.subrange(0, v.len() as int) =~= views);
    s
}

/// The texts of the expressions, separated by `, `.
pub fn expressions_to_string(v: &Vec<Expression>) -> (s: String)
    ensures
        s@ == expressions_text(expressions_view(v@)),
    decreases v,
{
    let ghost views = expressions_view(v@);
    let mut s = String::new();
    let mut i: usize = 0;
    while i < v.len()
        invariant
            i <= v.len(),
            views == expressions_view(v@),
            s@ == expressions_text(views.subrange(0, i as int)),
        decreases v.len() - i,
    {
        proof {
            lemma_expressions_text_step(views, i as int);
        }
        if i > 0 {
            s.append(", ");
        }
        let part = Expression::to_string(&v[i]);
        s.append(part.as_str());
        i = i + 1;
    }
    assert(views.subrange(0, v.len() as int) =~= views);
    s
}

impl PrefixExpression {
    /// `(`, the operator, the operand, `)`.
    pub fn to_string(&self) -> (s: String)
        ensures
            s@ == expression_text(self@),
        decreases self,
    {
        let mut s = String::from_str("(");
        s.append(self.operator.as_str());
        let rhs = Expression::to_string(&self.rhs);
        s.append(rhs.as_str());
        s.append(")");
        s
    }
}

impl InfixExpression {
    /// `(`, the left operand, the operator between blanks, the right
    /// operand, `)`.
    pub fn to_string(&self) -> (s: String)
        ensures
            s@ == expression_text(self@),
        decreases self,
    {
        let mut s = String::from_str("(");
        let lhs = Expression::to_string(&self.lhs);
        s.append(lhs.as_str());
        s.append(" ");
        s.append(self.operator.as_str());
        s.append(" ");
        let rhs = Expression::to_string(&self.rhs);
        s.append(rhs.as_str());
        s.append(")");
        s
    }
}

impl IfExpression {
    /// `if`, the condition in parentheses, the consequence, and ` else`
    /// with the alternative where there is one.
    pub fn to_string(&self) -> (s: String)
        ensures
            s@ == expression_text(self@),
        decreases self,
    {
        let mut s = String::from_str("if (");
        let condition = Expression::to_string(&self.condition);
        s.append(condition.as_str());
        s.append(") ");
        let consequence = BlockStatement::to_string(&self.consequence);
        s.append(consequence.as_str());
        match &self.alternative {
            Some(alt) => {
                s.append(" else");
                let alternative = BlockStatement::to_string(alt);
                s.append(alternative.as_str());
            },
            None => {},
        }
        s
    }
}

impl FunctionLiteral {
    /// The visibility where there is one, `fn `, the name where there is
    /// one, the parameters in parentheses, ` -> ` with the return type where
    /// there is one, and the body.
    pub fn to_string(&self) -> (s: String)
        ensures
            s@ == expression_text(self@),
        decreases self,
    {
        let mut s = String::new();
        match &self.visibility {
            Some(visibility) => {
                s.append(visibility.literal.as_str());
            },
            None => {},
        }
        s.append("fn ");
        match &self.name {
            Some(name) => {
                s.append(name.token.literal.as_str());
            },
            None => {},
        }
        s.append("(");
        let parameters = typed_identifiers_to_string(&self.parameters);
        s.append(parameters.as_str());
        s.append(")");
        match &self.return_type {
            Some(return_type) => {
                s.append(" -> ");
                s.append(return_type.token.literal.as_str());
                s.append(" ");
            },
            None => {},
        }
        let body = BlockStatement::to_string(&self.body);
        s.append(body.as_str());
        proof {
            let v = self@;
            let vis = match v->Function_visibility {
                Some(t) => t.literal,
                None => Seq::empty(),
            };
            let name = match v->Function_name {
                Some(n) => n.token.literal,
                None => Seq::empty(),
            };
            let ret = match v->Function_return_type {
                Some(r) => " -> "@ + r.token.literal + " "@,
                None => Seq::empty(),
            };
            assert(s@ =~= vis + "fn "@ + name + "("@ + typed_identifiers_text(
                v->Function_parameters,
            ) + ")"@ + ret + block_text(v->Function_body));
        }
        s
    }
}

impl CallExpression {
    /// The callee, and the arguments in parentheses, separated by `, `.
    pub fn to_string(&self) -> (s: String)
        ensures
            s@ == expression_text(self@),
        decreases self,
    {
        let mut s = Expression::to_string(&self.function);
        s.append("(");
        let args = expressions_to_string(&self.args);
        s.append(args.as_str());
        s.append(")");
        s
    }
}

impl Expression {
    /// The text of the expression.
    pub fn to_string(&self) -> (s: String)
        ensures
            s@ == expression_text(self@),
        decreases self,
    {
        match self {
            Expression::Identifier(node) => node.to_string(),
            Expression::IntegerLiteral(node) => node.to_string(),
            Expression::Boolean(node) => node.to_string(),
            Expression::Null(node) => node.to_string(),
            Expression::StringLiteral(node) => node.to_string(),
            Expression::Prefix(node) => PrefixExpression::to_string(node),
            Expression::Infix(node) => InfixExpression::to_string(node),
            Expression::If(node) => IfExpression::to_string(node),
            Expression::Function(node) => FunctionLiteral::to_string(node),
            Expression::Call(node) => CallExpression::to_string(node),
        }
    }
}

impl DeclareStatement {
    /// The keyword, the name, `: ` with the type and ` = ` with the value
    /// where there are any, and `;`.
    pub fn to_string(&self) -> (s: String)
        ensures
            s@ == statement_text(self@),
        decreases self,
    {
        let mut s = self.token.literal.clone();
        s.append(" ");
        s.append(self.name.token.literal.as_str());
        match &self.type_specifier {
            Some(t) => {
                s.append(": ");
                s.append(t.as_str());
            },
            None => {},
        }
        match &self.value {
            Some(value) => {
                s.append(" = ");
                let text = Expression::to_string(value);
                s.append(text.as_str());
            },
            None => {},
        }
        s.append(";");
        proof {
            let v = self@;
            let annotation = match v->Declare_type_specifier {
                Some(t) => ": "@ + t,
                None => Seq::empty(),
            };
            let value = match v->Declare_value {
                Some(e) => " = "@ + expression_text(e),
                None => Seq::empty(),
            };
            assert(s@ =~= v->Declare_token.literal + " "@ + v->Declare_name.token.literal
                + annotation + value + ";"@);
        }
        s
    }
}

impl ReturnStatement {
    /// `return`, the value where there is one, and `;`.
    pub fn to_string(&self) -> (s: String)
        ensures
            s@ == statement_text(self@),
        decreases self,
    {
        match &self.value {
            Some(value) => {
                let mut s = String::from_str("return ");
                let text = Expression::to_string(value);
                s.append(text.as_str());
                s.append(";");
                s
            },
            None => String::from_str("return;"),
        }
    }
}

impl ExpressionStatement {
    /// The text of the expression.
    pub fn to_string(&self) -> (s: String)
        ensures
            s@ == statement_text(self@),
        decreases self,
    {
        Expression::to_string(&self.expression)
    }
}

impl DeferStatement {
    /// `defer `, the expression, and `;`.
    pub fn to_string(&self) -> (s: String)
        ensures
            s@ == statement_text(self@),
        decreases self,
    {
        let mut s = String::from_str("defer ");
        let text = Expression::to_string(&self.value);
        s.append(text.as_str());
        s.append(";");
        s
    }
}

impl BlockStatement {
    /// The statements between braces, each behind four blanks and kept
    /// apart from the next.
    pub fn to_string(&self) -> (s: String)
        ensures
            s@ == block_text(self@),
        decreases self,
    {
        let ghost views = statements_view(self.statements@);
        let mut inner = String::new();
        let mut i: usize = 0;
        while i < self.statements.len()
            invariant
                i <= self.statements.len(),
                views == statements_view(self.statements@),
                inner@ == indented_statements_text(views.subrange(0, i as int)),
            decreases self.statements.len() - i,
        {
            proof {
                lemma_indented_statements_text_step(views, i as int);
            }
            if i > 0 {
                let end = self.statements[i - 1].end();
                inner.append(end.as_str());
            }
            inner.append("    ");
            let text = Statement::to_string(&self.statements[i]);
            inner.append(text.as_str());
            i = i + 1;
        }
        assert(views.subrange(0, self.statements.len() as int) =~= views);
        let mut s = String::from_str("{\n");
        s.append(inner.as_str());
        s.append("\n}");
        s
    }
}

impl Statement {
    /// What keeps the statement apart from the one behind it.
    pub fn end(&self) -> (s: String)
        ensures
            s@ == statement_end(self@),
    {
        match self {
            Statement::Expression(_) | Statement::Block(_) => String::from_str(";"),
            _ => String::new(),
        }
    }

    /// The text of the statement.
    pub fn to_string(&self) -> (s: String)
        ensures
            s@ == statement_text(self@),
        decreases self,
    {
        match self {
            Statement::Declare(node) => DeclareStatement::to_string(node),
            Statement::Return(node) => ReturnStatement::to_string(node),
            Statement::Expression(node) => ExpressionStatement::to_string(node),
            Statement::Defer(node) => DeferStatement::to_string(node),
            Statement::Block(node) => BlockStatement::to_string(node),
        }
    }
}

impl Program {
    /// The texts of the statements, kept apart, so that the text parses to
    /// the same statements again.
    pub fn to_string(&self) -> (s: String)
        ensures
            s@ == program_text(self@),
    {
        let ghost views = statements_view(self.statements@);
        let mut s = String::new();
        let mut i: usize = 0;
        while i < self.statements.len()
            invariant
                i <= self.statements.len(),
                views == statements_view(self.statements@),
                s@ == statements_text(views.subrange(0, i as int)),
            decreases self.statements.len() - i,
        {
            proof {
                lemma_statements_text_step(views, i as int);
            }
            if i > 0 {
                let end = self.statements[i - 1].end();
                s.append(end.as_str());
                s.append(" ");
            }
            let text = self.statements[i].to_string();
            s.append(text.as_str());
            i = i + 1;
        }
        assert(views.subrange(0, self.statements.len() as int) =~= views);
        s
    }
}

} // verus!
