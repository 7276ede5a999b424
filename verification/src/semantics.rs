//! What evaluation computes, as functions on the views of the syntax tree,
//! of the values and of the environment.

use vstd::prelude::*;
use vstd::arithmetic::power::pow;
use crate::ast::{
    ExpressionView, ProgramView, StatementView, TypedIdentifierView,
};
use crate::diagnostics::{
    RuntimeErrorCodeView, RuntimeErrorView,
};
use crate::environment::{
    spec_fresh_environment, EnvironmentView,
};
use crate::object::{
    object_text, object_type, ObjectView,
};

verus! {

/// The binary operators that the evaluator knows.
#[derive(Debug, Clone, Copy, PartialEq, Eq, Structural)]
pub enum InfixOperator {
    And,
    Or,
    Equal,
    NotEqual,
    Greater,
    Less,
    GreaterEqual,
    LessEqual,
    Range,
    RangeInclusive,
    Plus,
    Minus,
    Times,
    Remainder,
    Power,
    Divide,
}

/// The operator that a text spells, if it spells one.
pub open spec fn spec_infix_operator(op: Seq<char>) -> Option<InfixOperator> {
    if op == "+"@ {
        Some(InfixOperator::Plus)
    } else if op == "-"@ {
        Some(InfixOperator::Minus)
    } else if op == "*"@ {
        Some(InfixOperator::Times)
    } else if op == "/"@ {
        Some(InfixOperator::Divide)
    } else if op == "%"@ {
        Some(InfixOperator::Remainder)
    } else if op == "^"@ || op == "**"@ {
        Some(InfixOperator::Power)
    } else if op == "=="@ {
        Some(InfixOperator::Equal)
    } else if op == "!="@ {
        Some(InfixOperator::NotEqual)
    } else if op == ">"@ {
        Some(InfixOperator::Greater)
    } else if op == "<"@ {
        Some(InfixOperator::Less)
    } else if op == ">="@ {
        Some(InfixOperator::GreaterEqual)
    } else if op == "<="@ {
        Some(InfixOperator::LessEqual)
    } else if op == "&&"@ {
        Some(InfixOperator::And)
    } else if op == "||"@ {
        Some(InfixOperator::Or)
    } else if op == ".."@ {
        Some(InfixOperator::Range)
    } else if op == "..="@ {
        Some(InfixOperator::RangeInclusive)
    } else {
        None
    }
}

impl InfixOperator {
    /// Whether the operator is logical or a comparison: its result is a
    /// boolean.
    pub open spec fn spec_is_logical(self) -> bool {
        match self {
            InfixOperator::And
            | InfixOperator::Or
            | InfixOperator::Equal
            | InfixOperator::NotEqual
            | InfixOperator::Greater
            | InfixOperator::Less
            | InfixOperator::GreaterEqual
            | InfixOperator::LessEqual => true,
            _ => false,
        }
    }
}

/// An error value with the given kind of error.
pub open spec fn spec_error_value(code: RuntimeErrorCodeView) -> ObjectView {
    ObjectView::Error(RuntimeErrorView { source: None, code })
}

/// The error value for a result outside the 64-bit signed integers.
pub open spec fn spec_overflow() -> ObjectView {
    spec_error_value(RuntimeErrorCodeView::OverflowError)
}

/// The integer value of a mathematical integer, or the overflow error where
/// it does not fit 64 bits with sign.
pub open spec fn spec_integer_or_overflow(n: int) -> ObjectView {
    if i64::MIN <= n <= i64::MAX {
        ObjectView::Integer(n as i64)
    } else {
        spec_overflow()
    }
}

/// The quotient of a division that truncates toward zero.
pub open spec fn spec_truncated_quotient(a: int, b: int) -> int {
    if a >= 0 && b > 0 {
        a / b
    } else if a < 0 && b < 0 {
        (-a) / (-b)
    } else if a < 0 {
        -((-a) / b)
    } else {
        -(a / (-b))
    }
}

/// The remainder of a division that truncates toward zero: it has the sign
/// of the dividend.
pub open spec fn spec_truncated_remainder(a: int, b: int) -> int {
    if a >= 0 && b > 0 {
        a % b
    } else if a < 0 && b < 0 {
        -((-a) % (-b))
    } else if a < 0 {
        -((-a) % b)
    } else {
        a % (-b)
    }
}

/// The power of an integer, where it fits 64 bits with sign.
pub open spec fn spec_checked_pow(base: i64, exp: u32) -> Option<i64> {
    if i64::MIN <= pow(base as int, exp as nat) <= i64::MAX {
        Some(pow(base as int, exp as nat) as i64)
    } else {
        None
    }
}

/// An operand in an error message: its text with its type in parentheses.
pub open spec fn spec_operand_text(o: ObjectView) -> Seq<char> {
    object_text(o) + "("@ + object_type(o).spec_text() + ")"@
}

/// A binary operation in an error message: both operands with their types
/// around the operator.
pub open spec fn spec_operation_text(l: ObjectView, op: Seq<char>, r: ObjectView) -> Seq<char> {
    spec_operand_text(l) + op + spec_operand_text(r)
}

/// Whether a value counts as true: `true`, and every integer but zero.
pub open spec fn spec_is_truthy(o: ObjectView) -> bool {
    match o {
        ObjectView::Boolean(value) => value,
        ObjectView::Integer(value) => value != 0,
        _ => false,
    }
}

/// Whether a value is an error.
pub open spec fn spec_is_error(o: ObjectView) -> bool {
    o is Error
}

/// The error for a prefix operator on an operand that it has no meaning
/// for.
pub open spec fn spec_invalid_prefix(op: Seq<char>, rhs: ObjectView) -> ObjectView {
    spec_error_value(
        RuntimeErrorCodeView::InvalidOperation {
            operation: op + object_text(rhs),
            context: Some(op + object_text(rhs)),
        },
    )
}

/// `!`: the negation of a boolean; whether an integer is zero; true for
/// `null`.
pub open spec fn spec_eval_bang(rhs: ObjectView) -> ObjectView {
    match rhs {
        ObjectView::Boolean(value) => ObjectView::Boolean(!value),
        ObjectView::Integer(value) => ObjectView::Boolean(value == 0),
        ObjectView::Null => ObjectView::Boolean(true),
        _ => spec_invalid_prefix("!"@, rhs),
    }
}

/// `-`: the negative of an integer; true for `null`.
pub open spec fn spec_eval_minus(rhs: ObjectView) -> ObjectView {
    match rhs {
        ObjectView::Integer(value) => spec_integer_or_overflow(-value),
        ObjectView::Null => ObjectView::Boolean(true),
        _ => spec_invalid_prefix("-"@, rhs),
    }
}

/// `++`: the integer plus one.
pub open spec fn spec_eval_incr(rhs: ObjectView) -> ObjectView {
    match rhs {
        ObjectView::Integer(value) => spec_integer_or_overflow(value + 1),
        _ => spec_invalid_prefix("++"@, rhs),
    }
}

/// `--`: the integer minus one.
pub open spec fn spec_eval_decr(rhs: ObjectView) -> ObjectView {
    match rhs {
        ObjectView::Integer(value) => spec_integer_or_overflow(value - 1),
        _ => spec_invalid_prefix("--"@, rhs),
    }
}

/// A binary operator on two booleans; false counts as less than true.
pub open spec fn spec_eval_boolean_infix(op: Seq<char>, p: bool, q: bool) -> ObjectView {
    match spec_infix_operator(op) {
        Some(InfixOperator::And) => ObjectView::Boolean(p && q),
        Some(InfixOperator::Or) => ObjectView::Boolean(p || q),
        Some(InfixOperator::Equal) => ObjectView::Boolean(p == q),
        Some(InfixOperator::NotEqual) => ObjectView::Boolean(p != q),
        Some(InfixOperator::Less) => ObjectView::Boolean(!p && q),
        Some(InfixOperator::Greater) => ObjectView::Boolean(p && !q),
        Some(InfixOperator::LessEqual) => ObjectView::Boolean(!p || q),
        Some(InfixOperator::GreaterEqual) => ObjectView::Boolean(p || !q),
        _ => spec_error_value(
            RuntimeErrorCodeView::UnknownInfixOperator {
                operator: op,
                context: Some(
                    spec_operation_text(ObjectView::Boolean(p), op, ObjectView::Boolean(q)),
                ),
            },
        ),
    }
}

/// The error for a division or a remainder by zero.
pub open spec fn spec_division_by_zero(a: i64, op: Seq<char>, b: i64) -> ObjectView {
    spec_error_value(
        RuntimeErrorCodeView::DivisionByZero {
            operation: spec_operation_text(ObjectView::Integer(a), op, ObjectView::Integer(b)),
        },
    )
}

/// A binary operator on two integers. Arithmetic that leaves the 64-bit
/// signed integers is an overflow error; division truncates toward zero, and
/// by zero it is an error; the logical operators take every integer but
/// zero for true; a range gives the number of integers in it.
pub open spec fn spec_eval_integer_infix(op: Seq<char>, a: i64, b: i64) -> ObjectView {
    match spec_infix_operator(op) {
        Some(InfixOperator::And) | Some(InfixOperator::Or) => spec_eval_boolean_infix(
            op,
            a != 0,
            b != 0,
        ),
        Some(InfixOperator::Equal) => ObjectView::Boolean(a == b),
        Some(InfixOperator::NotEqual) => ObjectView::Boolean(a != b),
        Some(InfixOperator::Greater) => ObjectView::Boolean(a > b),
        Some(InfixOperator::Less) => ObjectView::Boolean(a < b),
        Some(InfixOperator::GreaterEqual) => ObjectView::Boolean(a >= b),
        Some(InfixOperator::LessEqual) => ObjectView::Boolean(a <= b),
        Some(InfixOperator::Range) => spec_integer_or_overflow(b - a),
        Some(InfixOperator::RangeInclusive) => spec_integer_or_overflow(b - a + 1),
        Some(InfixOperator::Plus) => spec_integer_or_overflow(a + b),
        Some(InfixOperator::Minus) => spec_integer_or_overflow(a - b),
        Some(InfixOperator::Times) => spec_integer_or_overflow(a * b),
        Some(InfixOperator::Divide) => if b == 0 {
            spec_division_by_zero(a, op, b)
        } else {
            spec_integer_or_overflow(spec_truncated_quotient(a as int, b as int))
        },
        Some(InfixOperator::Remainder) => if b == 0 {
            spec_division_by_zero(a, op, b)
        } else {
            spec_integer_or_overflow(spec_truncated_remainder(a as int, b as int))
        },
        Some(InfixOperator::Power) => spec_integer_or_overflow(pow(a as int, (b as u32) as nat)),
        None => spec_error_value(
            RuntimeErrorCodeView::UnknownInfixOperator {
                operator: op,
                context: Some(
                    spec_operation_text(ObjectView::Integer(a), op, ObjectView::Integer(b)),
                ),
            },
        ),
    }
}

/// A binary operator on two values. Two booleans and two integers follow
/// their own rules. With a boolean on the left and an integer on the right,
/// a logical operator or a comparison takes the integer for a boolean, and
/// any other operator takes the boolean for one or zero. All else is an
/// invalid operation.
pub open spec fn spec_eval_infix(op: Seq<char>, lhs: ObjectView, rhs: ObjectView) -> ObjectView {
    match (lhs, rhs) {
        (ObjectView::Boolean(p), ObjectView::Boolean(q)) => spec_eval_boolean_infix(op, p, q),
        (ObjectView::Integer(a), ObjectView::Integer(b)) => spec_eval_integer_infix(op, a, b),
        (ObjectView::Boolean(p), ObjectView::Integer(b)) => match spec_infix_operator(op) {
            Some(operator) if operator.spec_is_logical() => spec_eval_boolean_infix(op, p, b != 0),
            _ => spec_eval_integer_infix(
                op,
                if p {
                    1i64
                } else {
                    0i64
                },
                b,
            ),
        },
        _ => spec_error_value(
            RuntimeErrorCodeView::InvalidOperation {
                operation: spec_operation_text(lhs, op, rhs),
                context: None,
            },
        ),
    }
}

/// A prefix operator on a value. A range operator on an integer `n` is the
/// range from zero to `n`.
pub open spec fn spec_eval_prefix(op: Seq<char>, rhs: ObjectView) -> ObjectView {
    if op == "!"@ {
        spec_eval_bang(rhs)
    } else if op == "-"@ {
        spec_eval_minus(rhs)
    } else if op == "--"@ {
        spec_eval_decr(rhs)
    } else if op == "++"@ {
        spec_eval_incr(rhs)
    } else if op == ".."@ || op == "..="@ {
        match rhs {
            ObjectView::Integer(n) => spec_eval_integer_infix(op, 0, n),
            _ => spec_error_value(
                RuntimeErrorCodeView::InvalidOperation {
                    operation: op + object_text(rhs),
                    context: None,
                },
            ),
        }
    } else {
        spec_error_value(
            RuntimeErrorCodeView::UnknownInfixOperator {
                operator: op,
                context: Some(op + spec_operand_text(rhs)),
            },
        )
    }
}


/// What the operator texts spell.
pub proof fn lemma_operator_texts()
    ensures
        spec_infix_operator("+"@) == Some(InfixOperator::Plus),
        spec_infix_operator("-"@) == Some(InfixOperator::Minus),
        spec_infix_operator("*"@) == Some(InfixOperator::Times),
        spec_infix_operator("/"@) == Some(InfixOperator::Divide),
        spec_infix_operator("%"@) == Some(InfixOperator::Remainder),
        spec_infix_operator("^"@) == Some(InfixOperator::Power),
        spec_infix_operator("**"@) == Some(InfixOperator::Power),
        spec_infix_operator("=="@) == Some(InfixOperator::Equal),
        spec_infix_operator("!="@) == Some(InfixOperator::NotEqual),
        spec_infix_operator(">"@) == Some(InfixOperator::Greater),
        spec_infix_operator("<"@) == Some(InfixOperator::Less),
        spec_infix_operator(">="@) == Some(InfixOperator::GreaterEqual),
        spec_infix_operator("<="@) == Some(InfixOperator::LessEqual),
        spec_infix_operator("&&"@) == Some(InfixOperator::And),
        spec_infix_operator("||"@) == Some(InfixOperator::Or),
        spec_infix_operator(".."@) == Some(InfixOperator::Range),
        spec_infix_operator("..="@) == Some(InfixOperator::RangeInclusive),
{
    reveal_strlit("+");
    reveal_strlit("-");
    reveal_strlit("*");
    reveal_strlit("/");
    reveal_strlit("%");
    reveal_strlit("^");
    reveal_strlit("**");
    reveal_strlit("==");
    reveal_strlit("!=");
    reveal_strlit(">");
    reveal_strlit("<");
    reveal_strlit(">=");
    reveal_strlit("<=");
    reveal_strlit("&&");
    reveal_strlit("||");
    reveal_strlit("..");
    reveal_strlit("..=");
    assert("+"@.len() == 1 && "-"@.len() == 1 && "*"@.len() == 1 && "/"@.len() == 1);
    assert("%"@.len() == 1 && "^"@.len() == 1 && ">"@.len() == 1 && "<"@.len() == 1);
    assert("**"@.len() == 2 && "=="@.len() == 2 && "!="@.len() == 2 && ">="@.len() == 2);
    assert("<="@.len() == 2 && "&&"@.len() == 2 && "||"@.len() == 2 && ".."@.len() == 2);
    assert("..="@.len() == 3);
    assert("+"@[0] == '+');
    assert("-"@[0] == '-');
    assert("*"@[0] == '*');
    assert("/"@[0] == '/');
    assert("%"@[0] == '%');
    assert("^"@[0] == '^');
    assert("**"@[0] == '*');
    assert("=="@[0] == '=');
    assert("!="@[0] == '!');
    assert(">"@[0] == '>');
    assert("<"@[0] == '<');
    assert(">="@[0] == '>');
    assert("<="@[0] == '<');
    assert("&&"@[0] == '&');
    assert("||"@[0] == '|');
    assert(".."@[0] == '.');
    assert("..="@[0] == '.');
}

/// Addition of two integers is the sum, where the sum fits 64 bits with
/// sign; the sum that does not fit is an overflow error.
pub proof fn lemma_addition_is_sum(a: i64, b: i64)
    ensures
        i64::MIN <= a + b <= i64::MAX ==> spec_eval_infix(
            "+"@,
            ObjectView::Integer(a),
            ObjectView::Integer(b),
        ) == ObjectView::Integer((a + b) as i64),
        !(i64::MIN <= a + b <= i64::MAX) ==> spec_eval_infix(
            "+"@,
            ObjectView::Integer(a),
            ObjectView::Integer(b),
        ) == spec_overflow(),
{
    lemma_operator_texts();
}

/// Division of two integers truncates toward zero: the quotient `q` leaves
/// a remainder `a - q * b` that is smaller in magnitude than the divisor
/// and is zero or has the sign of the dividend. The one quotient that does
/// not fit 64 bits with sign is an overflow error.
pub proof fn lemma_division_truncates(a: i64, b: i64)
    requires
        b != 0,
    ensures
        spec_eval_infix("/"@, ObjectView::Integer(a), ObjectView::Integer(b))
            == spec_integer_or_overflow(spec_truncated_quotient(a as int, b as int)),
        !(a == i64::MIN && b == -1) ==> spec_eval_infix(
            "/"@,
            ObjectView::Integer(a),
            ObjectView::Integer(b),
        ) == ObjectView::Integer(spec_truncated_quotient(a as int, b as int) as i64),
        ({
            let q = spec_truncated_quotient(a as int, b as int);
            let r = a - q * b;
            &&& (b > 0 ==> -b < r < b)
            &&& (b < 0 ==> b < r < -b)
            &&& (a >= 0 ==> r >= 0)
            &&& (a <= 0 ==> r <= 0)
        }),
{
    lemma_operator_texts();
    let x = a as int;
    let d = b as int;
    if x >= 0 && d > 0 {
        assert(x == d * (x / d) + x % d && 0 <= x % d < d && 0 <= x / d <= x) by (nonlinear_arith)
            requires
                x >= 0,
                d > 0,
        ;
        assert(x - (x / d) * d == x % d) by (nonlinear_arith)
            requires
                x == d * (x / d) + x % d,
        ;
    } else if x < 0 && d < 0 {
        let nx = -x;
        let nd = -d;
        assert(nx == nd * (nx / nd) + nx % nd && 0 <= nx % nd < nd && 0 <= nx / nd <= nx)
            by (nonlinear_arith)
            requires
                nx >= 0,
                nd > 0,
        ;
        assert(x - (nx / nd) * d == -(nx % nd)) by (nonlinear_arith)
            requires
                nx == nd * (nx / nd) + nx % nd,
                nx == -x,
                nd == -d,
        ;
        assert(nd >= 2 ==> nx / nd < nx) by (nonlinear_arith)
            requires
                nx > 0,
                nd > 0,
                nx == nd * (nx / nd) + nx % nd,
                0 <= nx % nd,
                0 <= nx / nd,
        ;
    } else if x < 0 {
        let nx = -x;
        assert(nx == d * (nx / d) + nx % d && 0 <= nx % d < d && 0 <= nx / d <= nx)
            by (nonlinear_arith)
            requires
                nx >= 0,
                d > 0,
        ;
        assert(x - (-(nx / d)) * d == -(nx % d)) by (nonlinear_arith)
            requires
                nx == d * (nx / d) + nx % d,
                nx == -x,
        ;
    } else {
        let nd = -d;
        assert(x == nd * (x / nd) + x % nd && 0 <= x % nd < nd && 0 <= x / nd <= x)
            by (nonlinear_arith)
            requires
                x >= 0,
                nd > 0,
        ;
        assert(x - (-(x / nd)) * d == x % nd) by (nonlinear_arith)
            requires
                x == nd * (x / nd) + x % nd,
                nd == -d,
        ;
    }
}

/// `&&` on two booleans is their conjunction, in either order.
pub proof fn lemma_and_commutes(p: bool, q: bool)
    ensures
        spec_eval_infix("&&"@, ObjectView::Boolean(p), ObjectView::Boolean(q)) == spec_eval_infix(
            "&&"@,
            ObjectView::Boolean(q),
            ObjectView::Boolean(p),
        ),
        spec_eval_infix("&&"@, ObjectView::Boolean(p), ObjectView::Boolean(q))
            == ObjectView::Boolean(p && q),
{
    lemma_operator_texts();
}


/// What evaluating a node gives: the value, and the environment as
/// evaluation leaves it.
pub struct Outcome {
    pub value: ObjectView,
    pub env: EnvironmentView,
}

/// What evaluating the arguments of a call gives: their values, or the
/// first error among them, and the environment as evaluation leaves it.
pub struct Arguments {
    pub values: Result<Seq<ObjectView>, ObjectView>,
    pub env: EnvironmentView,
}

/// The error for a name with no binding.
pub open spec fn spec_identifier_not_found(name: Seq<char>) -> ObjectView {
    spec_error_value(
        RuntimeErrorCodeView::IdentifierNotFound { identifier: name, context: Some(name) },
    )
}

/// The error for a call of a value that is no function, or of a function
/// whose scope is unknown.
pub open spec fn spec_not_callable(callee: ObjectView) -> ObjectView {
    spec_error_value(
        RuntimeErrorCodeView::FunctionNotFound {
            function_name: object_text(callee),
            context: None,
        },
    )
}

/// The error for a call with more or fewer arguments than parameters.
pub open spec fn spec_wrong_arity() -> ObjectView {
    spec_error_value(
        RuntimeErrorCodeView::InvalidOperation {
            operation: "wrong number of arguments"@,
            context: None,
        },
    )
}

/// What a `Return` holds; any other value as it is.
pub open spec fn spec_unwrap_return(value: ObjectView) -> ObjectView {
    match value {
        ObjectView::Return(Some(inner)) => *inner,
        ObjectView::Return(None) => ObjectView::Null,
        _ => value,
    }
}

/// The environment with the parameters from the `i`-th on bound to their
/// arguments in the current scope.
pub open spec fn spec_bind_parameters(
    env: EnvironmentView,
    parameters: Seq<TypedIdentifierView>,
    arguments: Seq<ObjectView>,
    i: nat,
) -> EnvironmentView
    decreases parameters.len() - i,
{
    if i < parameters.len() && i < arguments.len() {
        spec_bind_parameters(
            env.bind(parameters[i as int].identifier.value, arguments[i as int]),
            parameters,
            arguments,
            i + 1,
        )
    } else {
        env
    }
}

/// The value of an expression. `fuel` is the number of calls that may
/// still be nested.
#[verifier::opaque]
pub open spec fn spec_eval_expression(e: ExpressionView, env: EnvironmentView, fuel: nat) -> Outcome
    decreases 2 * fuel, e, 0nat,
{
    match e {
        ExpressionView::Identifier(node) => match env.lookup(node.value) {
            Some(value) => Outcome { value, env },
            None => Outcome { value: spec_identifier_not_found(node.value), env },
        },
        ExpressionView::IntegerLiteral(node) => Outcome {
            value: ObjectView::Integer(node.value),
            env,
        },
        ExpressionView::Boolean(node) => Outcome { value: ObjectView::Boolean(node.value), env },
        ExpressionView::Null(_) => Outcome { value: ObjectView::Null, env },
        ExpressionView::StringLiteral(_) => Outcome { value: ObjectView::Null, env },
        ExpressionView::Prefix { operator, rhs, .. } => {
            let operand = spec_eval_expression(*rhs, env, fuel);
            if spec_is_error(operand.value) {
                operand
            } else {
                Outcome { value: spec_eval_prefix(operator, operand.value), env: operand.env }
            }
        },
        ExpressionView::Infix { lhs, operator, rhs, .. } => {
            let left = spec_eval_expression(*lhs, env, fuel);
            if spec_is_error(left.value) {
                left
            } else {
                let right = spec_eval_expression(*rhs, left.env, fuel);
                if spec_is_error(right.value) {
                    right
                } else {
                    Outcome {
                        value: spec_eval_infix(operator, left.value, right.value),
                        env: right.env,
                    }
                }
            }
        },
        ExpressionView::If { condition, consequence, alternative, .. } => {
            let decided = spec_eval_expression(*condition, env, fuel);
            if spec_is_error(decided.value) {
                decided
            } else if spec_is_truthy(decided.value) {
                spec_eval_block(consequence.statements, 0, decided.env, fuel, ObjectView::Null)
            } else {
                match alternative {
                    Some(alt) => spec_eval_block(
                        alt.statements,
                        0,
                        decided.env,
                        fuel,
                        ObjectView::Null,
                    ),
                    None => Outcome { value: ObjectView::Null, env: decided.env },
                }
            }
        },
        ExpressionView::Function { parameters, return_type, body, .. } => Outcome {
            value: ObjectView::Function { parameters, body, return_type, env: env.current },
            env,
        },
        ExpressionView::Call { function, args, .. } => {
            let callee = spec_eval_expression(*function, env, fuel);
            if spec_is_error(callee.value) {
                callee
            } else {
                let arguments = spec_eval_expressions(args, 0, callee.env, fuel, Seq::empty());
                match arguments.values {
                    Err(error) => Outcome { value: error, env: arguments.env },
                    Ok(values) => if fuel == 0 {
                        Outcome { value: spec_overflow(), env: arguments.env }
                    } else {
                        spec_apply_function(callee.value, values, arguments.env, fuel)
                    },
                }
            }
        },
    }
}

/// The values of the expressions from the `i`-th on, from left to right,
/// behind those already known; the first error ends the evaluation.
#[verifier::opaque]
pub open spec fn spec_eval_expressions(
    expressions: Seq<ExpressionView>,
    i: nat,
    env: EnvironmentView,
    fuel: nat,
    values: Seq<ObjectView>,
) -> Arguments
    decreases 2 * fuel, expressions, expressions.len() - i,
{
    if i >= expressions.len() {
        Arguments { values: Ok(values), env }
    } else {
        let next = spec_eval_expression(expressions[i as int], env, fuel);
        if spec_is_error(next.value) {
            Arguments { values: Err(next.value), env: next.env }
        } else {
            spec_eval_expressions(expressions, i + 1, next.env, fuel, values.push(next.value))
        }
    }
}

/// The value of a statement. A declaration binds its name in the current
/// scope and gives `null`; a `return` wraps its value in a `Return`.
#[verifier::opaque]
pub open spec fn spec_eval_statement(s: StatementView, env: EnvironmentView, fuel: nat) -> Outcome
    decreases 2 * fuel, s, 0nat,
{
    match s {
        StatementView::Declare { name, value, .. } => match value {
            Some(v) => {
                let bound = spec_eval_expression(v, env, fuel);
                if spec_is_error(bound.value) {
                    bound
                } else {
                    Outcome {
                        value: ObjectView::Null,
                        env: bound.env.bind(name.value, bound.value),
                    }
                }
            },
            None => Outcome { value: ObjectView::Null, env },
        },
        StatementView::Return { value, .. } => match value {
            Some(v) => {
                let returned = spec_eval_expression(v, env, fuel);
                if spec_is_error(returned.value) {
                    returned
                } else {
                    Outcome {
                        value: ObjectView::Return(Some(Box::new(returned.value))),
                        env: returned.env,
                    }
                }
            },
            None => Outcome { value: ObjectView::Return(None), env },
        },
        StatementView::Expression { expression, .. } => spec_eval_expression(expression, env, fuel),
        StatementView::Defer { .. } => Outcome { value: ObjectView::Null, env },
        StatementView::Block(block) => spec_eval_block(
            block.statements,
            0,
            env,
            fuel,
            ObjectView::Null,
        ),
    }
}

/// The value of the statements of a block from the `i`-th on: that of the
/// last statement, or `last` where none is left. A `Return` or an error ends
/// the block and is its value as it is.
#[verifier::opaque]
pub open spec fn spec_eval_block(
    statements: Seq<StatementView>,
    i: nat,
    env: EnvironmentView,
    fuel: nat,
    last: ObjectView,
) -> Outcome
    decreases 2 * fuel, statements, statements.len() - i,
{
    if i >= statements.len() {
        Outcome { value: last, env }
    } else {
        let next = spec_eval_statement(statements[i as int], env, fuel);
        if next.value is Return || next.value is Error {
            next
        } else {
            spec_eval_block(statements, i + 1, next.env, fuel, next.value)
        }
    }
}

/// The value of a call of `function` with the given arguments: the body is
/// evaluated in a new scope inside the scope that the function was made in,
/// with the parameters bound to the arguments; a `Return` is unwrapped. The
/// call takes one from `fuel`; with none left it is an overflow error.
#[verifier::opaque]
pub open spec fn spec_apply_function(
    function: ObjectView,
    arguments: Seq<ObjectView>,
    env: EnvironmentView,
    fuel: nat,
) -> Outcome
    decreases
            if fuel > 0 {
                2 * fuel - 1
            } else {
                0
            },
            function,
            0nat,
{
    match function {
        ObjectView::Function { parameters, body, env: scope, .. } => {
            if fuel == 0 {
                Outcome { value: spec_overflow(), env }
            } else if scope >= env.scopes.len() {
                Outcome { value: spec_not_callable(function), env }
            } else if parameters.len() != arguments.len() {
                Outcome { value: spec_wrong_arity(), env }
            } else {
                let inside = spec_bind_parameters(
                    env.extend(scope).enter(env.scopes.len()),
                    parameters,
                    arguments,
                    0,
                );
                let result = spec_eval_block(
                    body.statements,
                    0,
                    inside,
                    (fuel - 1) as nat,
                    ObjectView::Null,
                );
                Outcome {
                    value: spec_unwrap_return(result.value),
                    env: result.env.enter(env.current),
                }
            }
        },
        _ => Outcome { value: spec_not_callable(function), env },
    }
}

/// The value of the statements of a program from the `i`-th on: that of
/// the last statement, or `last` where none is left. A `Return` ends the
/// program with what it holds; an error ends it as it is.
pub open spec fn spec_eval_program(
    statements: Seq<StatementView>,
    i: nat,
    env: EnvironmentView,
    fuel: nat,
    last: ObjectView,
) -> Outcome
    decreases statements.len() - i,
{
    if i >= statements.len() {
        Outcome { value: last, env }
    } else {
        let next = spec_eval_statement(statements[i as int], env, fuel);
        if next.value is Return {
            Outcome { value: spec_unwrap_return(next.value), env: next.env }
        } else if next.value is Error {
            next
        } else {
            spec_eval_program(statements, i + 1, next.env, fuel, next.value)
        }
    }
}

/// The number of calls that may be nested. The language itself sets no
/// limit; this one keeps the evaluator within the stack of the host, also
/// on a thread with a stack of two megabytes. A call beyond it does not
/// abort the process: its value is the error `OverflowError`, the same kind
/// as for arithmetic that leaves the 64-bit integers.
pub const MAX_CALL_DEPTH: usize = 256;

/// The value of a program in an environment.
pub open spec fn spec_eval(program: ProgramView, env: EnvironmentView) -> Outcome {
    spec_eval_program(program.statements, 0, env, MAX_CALL_DEPTH as nat, ObjectView::Null)
}

/// Evaluation depends on nothing but the program and the environment: in
/// any two fresh environments a program gives the same value and leaves the
/// same environment behind.
pub proof fn lemma_eval_in_fresh_environments(
    program: ProgramView,
    first: EnvironmentView,
    second: EnvironmentView,
)
    requires
        first == spec_fresh_environment(),
        second == spec_fresh_environment(),
    ensures
        spec_eval(program, first) == spec_eval(program, second),
{
}

} // verus!
