//! The evaluator: a recursive walk over the syntax tree that computes
//! values. Errors and `return` travel as values; nothing here panics.

use vstd::prelude::*;
use vstd::string::*;
use vstd::arithmetic::power::pow;
use crate::ast::{
    clone_opt_identifier, clone_typed_identifiers, expressions_view, statements_view,
    typed_identifiers_view, BlockStatement, CallExpression, Expression, Identifier, IfExpression,
    InfixExpression, PrefixExpression, Program, Statement,
};
use crate::diagnostics::{
    RuntimeError, RuntimeErrorCode,
};
use crate::environment::Environment;
use crate::object::{
    lemma_objects_view_push, objects_view, Boolean, Error, Function, Integer, Null, Object,
    ObjectView, Return,
};
use crate::semantics::{
    spec_apply_function, spec_bind_parameters, spec_checked_pow, spec_division_by_zero, spec_eval,
    spec_eval_bang, spec_eval_block, spec_eval_boolean_infix, spec_eval_decr,
    spec_eval_expression, spec_eval_expressions, spec_eval_incr, spec_eval_infix,
    spec_eval_integer_infix, spec_eval_minus, spec_eval_prefix, spec_eval_program,
    spec_eval_statement, spec_identifier_not_found, spec_infix_operator, spec_integer_or_overflow,
    spec_invalid_prefix, spec_is_error, spec_is_truthy, spec_not_callable, spec_operand_text,
    spec_operation_text, spec_overflow, spec_truncated_quotient, spec_truncated_remainder,
    spec_unwrap_return, InfixOperator, MAX_CALL_DEPTH, Outcome,
};
use crate::text::str_equals;

verus! {

/// The evaluator. It holds no state: everything that evaluation changes is
/// in the environment.
#[derive(Debug, Clone, Copy)]
pub struct Evaluator {}

/// The power of an integer, where it fits 64 bits with sign.
///
/// Trusted: wraps `i64::checked_pow`, which computes `base` to the power
/// `exp` and gives `None` where the result overflows.
#[verifier::external_body]
fn checked_pow(base: i64, exp: u32) -> (r: Option<i64>)
    ensures
        r == spec_checked_pow(base, exp),
{
    base.checked_pow(exp)
}

/// Zero divided by anything but zero is zero, with remainder zero.
pub proof fn lemma_zero_dividend(b: int)
    requires
        b != 0,
    ensures
        spec_truncated_quotient(0, b) == 0,
        spec_truncated_remainder(0, b) == 0,
{
    if b > 0 {
        assert(0int / b == 0 && 0int % b == 0) by (nonlinear_arith)
            requires
                b > 0,
        ;
    } else {
        assert(0int / (-b) == 0 && 0int % (-b) == 0) by (nonlinear_arith)
            requires
                -b > 0,
        ;
    }
}

/// The remainder of a truncating division is smaller in magnitude than the
/// divisor.
pub proof fn lemma_remainder_bounds(a: int, b: int)
    requires
        b != 0,
    ensures
        b > 0 ==> -b < spec_truncated_remainder(a, b) < b,
        b < 0 ==> b < spec_truncated_remainder(a, b) < -b,
{
    if a >= 0 && b > 0 {
        assert(0 <= a % b < b) by (nonlinear_arith)
            requires
                b > 0,
        ;
    } else if a < 0 && b < 0 {
        assert(0 <= (-a) % (-b) < -b) by (nonlinear_arith)
            requires
                -b > 0,
        ;
    } else if a < 0 {
        assert(0 <= (-a) % b < b) by (nonlinear_arith)
            requires
                b > 0,
        ;
    } else {
        assert(0 <= a % (-b) < -b) by (nonlinear_arith)
            requires
                -b > 0,
        ;
    }
}

/// The operator that a text spells, if it spells one.
pub fn infix_operator(op: &str) -> (r: Option<InfixOperator>)
    ensures
        r == spec_infix_operator(op@),
{
    if str_equals(op, "+") {
        Some(InfixOperator::Plus)
    } else if str_equals(op, "-") {
        Some(InfixOperator::Minus)
    } else if str_equals(op, "*") {
        Some(InfixOperator::Times)
    } else if str_equals(op, "/") {
        Some(InfixOperator::Divide)
    } else if str_equals(op, "%") {
        Some(InfixOperator::Remainder)
    } else if str_equals(op, "^") || str_equals(op, "**") {
        Some(InfixOperator::Power)
    } else if str_equals(op, "==") {
        Some(InfixOperator::Equal)
    } else if str_equals(op, "!=") {
        Some(InfixOperator::NotEqual)
    } else if str_equals(op, ">") {
        Some(InfixOperator::Greater)
    } else if str_equals(op, "<") {
        Some(InfixOperator::Less)
    } else if str_equals(op, ">=") {
        Some(InfixOperator::GreaterEqual)
    } else if str_equals(op, "<=") {
        Some(InfixOperator::LessEqual)
    } else if str_equals(op, "&&") {
        Some(InfixOperator::And)
    } else if str_equals(op, "||") {
        Some(InfixOperator::Or)
    } else if str_equals(op, "..") {
        Some(InfixOperator::Range)
    } else if str_equals(op, "..=") {
        Some(InfixOperator::RangeInclusive)
    } else {
        None
    }
}

impl InfixOperator {
    /// Whether the operator is logical or a comparison.
    pub fn is_logical(&self) -> (r: bool)
        ensures
            r == self.spec_is_logical(),
    {
        match self {
            InfixOperator::And
            | InfixOperator::Or
            | InfixOperator::Equal
            | InfixOperator::NotEqual
            | InfixOperator::Greater
            | InfixOperator::Less
            | InfixOperator::GreaterEqual
            | InfixOperator::LessEqual => true,
            _ => false,
        }
    }
}

/// An operand in an error message: its text with its type in parentheses.
pub fn operand_text(o: &Object) -> (s: String)
    ensures
        s@ == spec_operand_text(o@),
{
    let mut s = o.to_string();
    s.append("(");
    let t = o.t().to_string();
    s.append(t.as_str());
    s.append(")");
    s
}

/// A binary operation in an error message.
pub fn operation_text(lhs: &Object, op: &str, rhs: &Object) -> (s: String)
    ensures
        s@ == spec_operation_text(lhs@, op@, rhs@),
{
    let mut s = operand_text(lhs);
    s.append(op);
    let r = operand_text(rhs);
    s.append(r.as_str());
    s
}

/// The integer value of a checked result, or the overflow error.
fn integer_or_overflow(n: Option<i64>) -> (r: Object)
    ensures
        match n {
            Some(v) => r@ == ObjectView::Integer(v),
            None => r@ == spec_overflow(),
        },
{
    match n {
        Some(v) => Object::Integer(Integer::new(v)),
        None => Evaluator::new_error(RuntimeError::new(RuntimeErrorCode::OverflowError)),
    }
}

/// The error for a prefix operator on an operand that it has no meaning
/// for.
fn invalid_prefix(op: &str, rhs: &Object) -> (r: Object)
    ensures
        r@ == spec_invalid_prefix(op@, rhs@),
{
    let mut operation = String::from_str(op);
    let text = rhs.to_string();
    operation.append(text.as_str());
    let context = operation.clone();
    Evaluator::new_error(
        RuntimeError::new(RuntimeErrorCode::InvalidOperation { operation, context: Some(context) }),
    )
}

impl Evaluator {
    /// The error value of a runtime error.
    pub fn new_error(error: RuntimeError) -> (r: Object)
        ensures
            r@ == ObjectView::Error(error@),
    {
        Object::Error(Error::new(error))
    }

    /// Whether a value counts as true: `true`, and every integer but zero.
    pub fn is_truthy(object: &Object) -> (r: bool)
        ensures
            r == spec_is_truthy(object@),
    {
        match object {
            Object::Boolean(b) => b.value,
            Object::Integer(i) => i.value != 0,
            _ => false,
        }
    }

    /// Whether a value is an error.
    pub fn is_error(object: &Object) -> (r: bool)
        ensures
            r == spec_is_error(object@),
    {
        match object {
            Object::Error(_) => true,
            _ => false,
        }
    }

    /// `!` on a value.
    pub fn eval_bang_prefix_expression(rhs: Object) -> (r: Object)
        ensures
            r@ == spec_eval_bang(rhs@),
    {
        match &rhs {
            Object::Boolean(b) => Object::Boolean(Boolean::new(!b.value)),
            Object::Integer(i) => Object::Boolean(Boolean::new(i.value == 0)),
            Object::Null(_) => Object::Boolean(Boolean::new(true)),
            _ => invalid_prefix("!", &rhs),
        }
    }

    /// `-` on a value.
    pub fn eval_minus_prefix_expression(rhs: Object) -> (r: Object)
        ensures
            r@ == spec_eval_minus(rhs@),
    {
        match &rhs {
            Object::Integer(i) => integer_or_overflow(0i64.checked_sub(i.value)),
            Object::Null(_) => Object::Boolean(Boolean::new(true)),
            _ => invalid_prefix("-", &rhs),
        }
    }

    /// `++` on a value.
    pub fn eval_incr_prefix_expression(rhs: Object) -> (r: Object)
        ensures
            r@ == spec_eval_incr(rhs@),
    {
        match &rhs {
            Object::Integer(i) => integer_or_overflow(i.value.checked_add(1)),
            _ => invalid_prefix("++", &rhs),
        }
    }

    /// `--` on a value.
    pub fn eval_decr_prefix_expression(rhs: Object) -> (r: Object)
        ensures
            r@ == spec_eval_decr(rhs@),
    {
        match &rhs {
            Object::Integer(i) => integer_or_overflow(i.value.checked_sub(1)),
            _ => invalid_prefix("--", &rhs),
        }
    }

    /// A binary operator on two booleans.
    pub fn eval_boolean_to_boolean_infix_expression(operator: &str, lhs: Object, rhs: Object) -> (r:
        Object)
        requires
            lhs@ is Boolean,
            rhs@ is Boolean,
        ensures
            r@ == spec_eval_boolean_infix(operator@, lhs@->Boolean_0, rhs@->Boolean_0),
    {
        let p = match &lhs {
            Object::Boolean(b) => b.value,
            _ => false,
        };
        let q = match &rhs {
            Object::Boolean(b) => b.value,
            _ => false,
        };
        let value = match infix_operator(operator) {
            Some(InfixOperator::And) => p && q,
            Some(InfixOperator::Or) => p || q,
            Some(InfixOperator::Equal) => p == q,
            Some(InfixOperator::NotEqual) => p != q,
            Some(InfixOperator::Less) => !p && q,
            Some(InfixOperator::Greater) => p && !q,
            Some(InfixOperator::LessEqual) => !p || q,
            Some(InfixOperator::GreaterEqual) => p || !q,
            _ => {
                let context = operation_text(&lhs, operator, &rhs);
                return Evaluator::new_error(
                    RuntimeError::new(
                        RuntimeErrorCode::UnknownInfixOperator {
                            operator: String::from_str(operator),
                            context: Some(context),
                        },
                    ),
                );
            },
        };
        Object::Boolean(Boolean::new(value))
    }

    /// A binary operator on two integers.
    pub fn eval_integer_to_integer_infix_expression(operator: &str, lhs: Object, rhs: Object) -> (r:
        Object)
        requires
            lhs@ is Integer,
            rhs@ is Integer,
        ensures
            r@ == spec_eval_integer_infix(operator@, lhs@->Integer_0, rhs@->Integer_0),
    {
        let a = match &lhs {
            Object::Integer(i) => i.value,
            _ => 0,
        };
        let b = match &rhs {
            Object::Integer(i) => i.value,
            _ => 0,
        };
        match infix_operator(operator) {
            Some(InfixOperator::And) | Some(InfixOperator::Or) => {
                Evaluator::eval_boolean_to_boolean_infix_expression(
                    operator,
                    Object::Boolean(Boolean::new(a != 0)),
                    Object::Boolean(Boolean::new(b != 0)),
                )
            },
            Some(InfixOperator::Equal) => Object::Boolean(Boolean::new(a == b)),
            Some(InfixOperator::NotEqual) => Object::Boolean(Boolean::new(a != b)),
            Some(InfixOperator::Greater) => Object::Boolean(Boolean::new(a > b)),
            Some(InfixOperator::Less) => Object::Boolean(Boolean::new(a < b)),
            Some(InfixOperator::GreaterEqual) => Object::Boolean(Boolean::new(a >= b)),
            Some(InfixOperator::LessEqual) => Object::Boolean(Boolean::new(a <= b)),
            Some(InfixOperator::Range) => integer_or_overflow(b.checked_sub(a)),
            Some(InfixOperator::RangeInclusive) => {
                let wide: i128 = b as i128 - a as i128 + 1;
                if wide < -9223372036854775808i128 || wide > 9223372036854775807i128 {
                    integer_or_overflow(None)
                } else {
                    integer_or_overflow(Some(wide as i64))
                }
            },
            Some(InfixOperator::Plus) => integer_or_overflow(a.checked_add(b)),
            Some(InfixOperator::Minus) => integer_or_overflow(a.checked_sub(b)),
            Some(InfixOperator::Times) => integer_or_overflow(a.checked_mul(b)),
            Some(InfixOperator::Divide) => {
                if b == 0 {
                    Evaluator::division_by_zero(&lhs, operator, &rhs)
                } else {
                    proof {
                        lemma_zero_dividend(b as int);
                    }
                    let result = integer_or_overflow(a.checked_div(b));
                    assert(result@ == spec_integer_or_overflow(
                        spec_truncated_quotient(a as int, b as int),
                    ));
                    result
                }
            },
            Some(InfixOperator::Remainder) => {
                if b == 0 {
                    Evaluator::division_by_zero(&lhs, operator, &rhs)
                } else if a == i64::MIN && b == -1 {
                    assert(spec_truncated_remainder(a as int, b as int) == 0) by {
                        assert((-(a as int)) % 1 == 0);
                    }
                    integer_or_overflow(Some(0))
                } else {
                    proof {
                        lemma_zero_dividend(b as int);
                        lemma_remainder_bounds(a as int, b as int);
                    }
                    let result = integer_or_overflow(a.checked_rem(b));
                    assert(result@ == spec_integer_or_overflow(
                        spec_truncated_remainder(a as int, b as int),
                    ));
                    result
                }
            },
            Some(InfixOperator::Power) => {
                let result = integer_or_overflow(checked_pow(a, #[verifier::truncate] (b as u32)));
                assert(result@ == spec_integer_or_overflow(pow(a as int, (b as u32) as nat)));
                result
            },
            None => {
                let context = operation_text(&lhs, operator, &rhs);
                Evaluator::new_error(
                    RuntimeError::new(
                        RuntimeErrorCode::UnknownInfixOperator {
                            operator: String::from_str(operator),
                            context: Some(context),
                        },
                    ),
                )
            },
        }
    }

    /// The error for a division or a remainder by zero.
    fn division_by_zero(lhs: &Object, operator: &str, rhs: &Object) -> (r: Object)
        requires
            lhs@ is Integer,
            rhs@ is Integer,
        ensures
            r@ == spec_division_by_zero(lhs@->Integer_0, operator@, rhs@->Integer_0),
    {
        let operation = operation_text(lhs, operator, rhs);
        Evaluator::new_error(RuntimeError::new(RuntimeErrorCode::DivisionByZero { operation }))
    }

    /// A binary operator on two values.
    pub fn eval_infix_expression(operator: &str, lhs: Object, rhs: Object) -> (r: Object)
        ensures
            r@ == spec_eval_infix(operator@, lhs@, rhs@),
    {
        match (&lhs, &rhs) {
            (Object::Boolean(_), Object::Boolean(_)) => {
                Evaluator::eval_boolean_to_boolean_infix_expression(operator, lhs, rhs)
            },
            (Object::Integer(_), Object::Integer(_)) => {
                Evaluator::eval_integer_to_integer_infix_expression(operator, lhs, rhs)
            },
            (Object::Boolean(p), Object::Integer(b)) => {
                let logical = match infix_operator(operator) {
                    Some(op) => op.is_logical(),
                    None => false,
                };
                if logical {
                    let coerced = Object::Boolean(Boolean::new(b.value != 0));
                    Evaluator::eval_boolean_to_boolean_infix_expression(operator, lhs, coerced)
                } else {
                    let coerced = Object::Integer(
                        Integer::new(
                            if p.value {
                                1
                            } else {
                                0
                            },
                        ),
                    );
                    Evaluator::eval_integer_to_integer_infix_expression(operator, coerced, rhs)
                }
            },
            _ => {
                let operation = operation_text(&lhs, operator, &rhs);
                Evaluator::new_error(
                    RuntimeError::new(
                        RuntimeErrorCode::InvalidOperation { operation, context: None },
                    ),
                )
            },
        }
    }

    /// A prefix operator on a value.
    pub fn eval_prefix_expression(operator: &str, rhs: Object) -> (r: Object)
        ensures
            r@ == spec_eval_prefix(operator@, rhs@),
    {
        if str_equals(operator, "!") {
            Evaluator::eval_bang_prefix_expression(rhs)
        } else if str_equals(operator, "-") {
            Evaluator::eval_minus_prefix_expression(rhs)
        } else if str_equals(operator, "--") {
            Evaluator::eval_decr_prefix_expression(rhs)
        } else if str_equals(operator, "++") {
            Evaluator::eval_incr_prefix_expression(rhs)
        } else if str_equals(operator, "..") || str_equals(operator, "..=") {
            match &rhs {
                Object::Integer(_) => Evaluator::eval_integer_to_integer_infix_expression(
                    operator,
                    Object::Integer(Integer::new(0)),
                    rhs,
                ),
                _ => {
                    let mut operation = String::from_str(operator);
                    let text = rhs.to_string();
                    operation.append(text.as_str());
                    Evaluator::new_error(
                        RuntimeError::new(
                            RuntimeErrorCode::InvalidOperation { operation, context: None },
                        ),
                    )
                },
            }
        } else {
            let mut context = String::from_str(operator);
            let text = operand_text(&rhs);
            context.append(text.as_str());
            Evaluator::new_error(
                RuntimeError::new(
                    RuntimeErrorCode::UnknownInfixOperator {
                        operator: String::from_str(operator),
                        context: Some(context),
                    },
                ),
            )
        }
    }
}


/// Evaluation went from `before` to `after` with `value` as `outcome`
/// says; the environment stays well-formed and stands in the same scope,
/// and no scope is lost.
pub open spec fn evaluated(
    before: Environment,
    after: Environment,
    value: Object,
    outcome: Outcome,
) -> bool {
    &&& after.wf()
    &&& value@ == outcome.value
    &&& after@ == outcome.env
    &&& after@.current == before@.current
    &&& after@.scopes.len() >= before@.scopes.len()
}

impl Evaluator {
    /// The value of a program in an environment. Declarations at the top of
    /// the program bind their names in the current scope of the
    /// environment.
    ///
    /// Calls may be nested `MAX_CALL_DEPTH` deep. The language sets no such
    /// limit; it stands for the stack of the host. The value of a call
    /// nested deeper is the error `OverflowError`, which ends the program
    /// like any other error.
    pub fn eval(program: &Program, environment: &mut Environment) -> (r: Result<
        Object,
        RuntimeError,
    >)
        requires
            old(environment).wf(),
        ensures
            match r {
                Ok(value) => evaluated(
                    *old(environment),
                    *final(environment),
                    value,
                    spec_eval(program@, old(environment)@),
                ),
                Err(_) => false,
            },
    {
        Ok(Evaluator::eval_program(&program.statements, environment, MAX_CALL_DEPTH))
    }

    /// The value of the statements of a program.
    fn eval_program(statements: &Vec<Statement>, environment: &mut Environment, fuel: usize) -> (r:
        Object)
        requires
            old(environment).wf(),
            fuel <= MAX_CALL_DEPTH,
        ensures
            evaluated(
                *old(environment),
                *final(environment),
                r,
                spec_eval_program(
                    statements_view(statements@),
                    0,
                    old(environment)@,
                    fuel as nat,
                    ObjectView::Null,
                ),
            ),
    {
        let mut last = Object::Null(Null::new());
        let mut i: usize = 0;
        while i < statements.len()
            invariant
                i <= statements.len(),
                fuel <= MAX_CALL_DEPTH,
                environment.wf(),
                environment@.current == old(environment)@.current,
                environment@.scopes.len() >= old(environment)@.scopes.len(),
                spec_eval_program(
                    statements_view(statements@),
                    i as nat,
                    environment@,
                    fuel as nat,
                    last@,
                ) == spec_eval_program(
                    statements_view(statements@),
                    0,
                    old(environment)@,
                    fuel as nat,
                    ObjectView::Null,
                ),
            decreases statements.len() - i,
        {
            let value = Evaluator::eval_statement(&statements[i], environment, fuel);
            match &value {
                Object::Return(_) => {
                    return Evaluator::unwrap_return_value(value);
                },
                Object::Error(_) => {
                    return value;
                },
                _ => {},
            }
            last = value;
            i = i + 1;
        }
        last
    }

    /// What a `Return` holds; any other value as it is.
    fn unwrap_return_value(object: Object) -> (r: Object)
        ensures
            r@ == spec_unwrap_return(object@),
    {
        match object {
            Object::Return(returned) => match returned.value {
                Some(inner) => *inner,
                None => Object::Null(Null::new()),
            },
            other => other,
        }
    }

    /// The value of a block.
    fn eval_block_statement(block: &BlockStatement, environment: &mut Environment, fuel: usize) -> (r:
        Object)
        requires
            old(environment).wf(),
            fuel <= MAX_CALL_DEPTH,
        ensures
            evaluated(
                *old(environment),
                *final(environment),
                r,
                spec_eval_block(
                    block@.statements,
                    0,
                    old(environment)@,
                    fuel as nat,
                    ObjectView::Null,
                ),
            ),
        decreases 2 * fuel, block, 0nat,
    {
        let mut last = Object::Null(Null::new());
        let mut i: usize = 0;
        while i < block.statements.len()
            invariant
                i <= block.statements.len(),
                fuel <= MAX_CALL_DEPTH,
                environment.wf(),
                environment@.current == old(environment)@.current,
                environment@.scopes.len() >= old(environment)@.scopes.len(),
                spec_eval_block(block@.statements, i as nat, environment@, fuel as nat, last@)
                    == spec_eval_block(
                    block@.statements,
                    0,
                    old(environment)@,
                    fuel as nat,
                    ObjectView::Null,
                ),
            decreases block.statements.len() - i,
        {
            proof {
                reveal_with_fuel(spec_eval_block, 1);
                reveal_with_fuel(spec_eval_statement, 1);
            }
            let value = Evaluator::eval_statement(&block.statements[i], environment, fuel);
            match &value {
                Object::Return(_) => {
                    return value;
                },
                Object::Error(_) => {
                    return value;
                },
                _ => {},
            }
            last = value;
            i = i + 1;
        }
        proof {
            reveal_with_fuel(spec_eval_block, 1);
        }
        last
    }

    /// The value of a statement.
    fn eval_statement(statement: &Statement, environment: &mut Environment, fuel: usize) -> (r:
        Object)
        requires
            old(environment).wf(),
            fuel <= MAX_CALL_DEPTH,
        ensures
            evaluated(
                *old(environment),
                *final(environment),
                r,
                spec_eval_statement(statement@, old(environment)@, fuel as nat),
            ),
        decreases 2 * fuel, statement, 0nat,
    {
        proof {
            reveal_with_fuel(spec_eval_statement, 1);
            reveal_with_fuel(spec_eval_expression, 1);
            reveal_with_fuel(spec_eval_block, 1);
        }
        match statement {
            Statement::Declare(declaration) => match &declaration.value {
                Some(expression) => {
                    let value = Evaluator::eval_expression(expression, environment, fuel);
                    if Evaluator::is_error(&value) {
                        return value;
                    }
                    let _ = environment.set(declaration.name.value.clone(), value);
                    Object::Null(Null::new())
                },
                None => Object::Null(Null::new()),
            },
            Statement::Return(returned) => match &returned.value {
                Some(expression) => {
                    let value = Evaluator::eval_expression(expression, environment, fuel);
                    if Evaluator::is_error(&value) {
                        return value;
                    }
                    Object::Return(Return::new(Some(value)))
                },
                None => Object::Return(Return::new(None)),
            },
            Statement::Expression(node) => Evaluator::eval_expression(
                &node.expression,
                environment,
                fuel,
            ),
            Statement::Defer(_) => Object::Null(Null::new()),
            Statement::Block(block) => Evaluator::eval_block_statement(block, environment, fuel),
        }
    }

    /// The value of an expression.
    fn eval_expression(expression: &Expression, environment: &mut Environment, fuel: usize) -> (r:
        Object)
        requires
            old(environment).wf(),
            fuel <= MAX_CALL_DEPTH,
        ensures
            evaluated(
                *old(environment),
                *final(environment),
                r,
                spec_eval_expression(expression@, old(environment)@, fuel as nat),
            ),
        decreases 2 * fuel, expression, 1nat,
    {
        proof {
            reveal_with_fuel(spec_eval_expression, 1);
        }
        match expression {
            Expression::Identifier(identifier) => Evaluator::eval_identifier(
                identifier,
                environment,
            ),
            Expression::IntegerLiteral(literal) => Object::Integer(Integer::new(literal.value)),
            Expression::Boolean(literal) => Object::Boolean(Boolean::new(literal.value)),
            Expression::Null(_) => Object::Null(Null::new()),
            Expression::StringLiteral(_) => Object::Null(Null::new()),
            Expression::Prefix(node) => Evaluator::eval_prefix_node(node, environment, fuel),
            Expression::Infix(node) => Evaluator::eval_infix_node(node, environment, fuel),
            Expression::If(node) => Evaluator::eval_if_expression(node, environment, fuel),
            Expression::Function(literal) => Object::Function(
                Function::new(
                    clone_typed_identifiers(&literal.parameters),
                    literal.body.clone(),
                    clone_opt_identifier(&literal.return_type),
                    environment.current,
                ),
            ),
            Expression::Call(node) => Evaluator::eval_call_expression(node, environment, fuel),
        }
    }

    /// The value that a name is bound to, or the error for a name without a
    /// binding.
    fn eval_identifier(identifier: &Identifier, environment: &Environment) -> (r: Object)
        requires
            environment.wf(),
        ensures
            match environment@.lookup(identifier@.value) {
                Some(value) => r@ == value,
                None => r@ == spec_identifier_not_found(identifier@.value),
            },
    {
        match environment.get(identifier.value.as_str()) {
            Some(value) => value,
            None => Evaluator::new_error(
                RuntimeError::new(
                    RuntimeErrorCode::IdentifierNotFound {
                        identifier: identifier.value.clone(),
                        context: Some(identifier.value.clone()),
                    },
                ),
            ),
        }
    }

    /// The value of a prefix operator on its operand.
    fn eval_prefix_node(node: &PrefixExpression, environment: &mut Environment, fuel: usize) -> (r:
        Object)
        requires
            old(environment).wf(),
            fuel <= MAX_CALL_DEPTH,
        ensures
            evaluated(
                *old(environment),
                *final(environment),
                r,
                spec_eval_expression(node@, old(environment)@, fuel as nat),
            ),
        decreases 2 * fuel, node, 0nat,
    {
        proof {
            reveal_with_fuel(spec_eval_expression, 1);
        }
        let operand = Evaluator::eval_expression(&node.rhs, environment, fuel);
        if Evaluator::is_error(&operand) {
            return operand;
        }
        Evaluator::eval_prefix_expression(node.operator.as_str(), operand)
    }

    /// The value of a binary operator on its operands, the left one first.
    fn eval_infix_node(node: &InfixExpression, environment: &mut Environment, fuel: usize) -> (r:
        Object)
        requires
            old(environment).wf(),
            fuel <= MAX_CALL_DEPTH,
        ensures
            evaluated(
                *old(environment),
                *final(environment),
                r,
                spec_eval_expression(node@, old(environment)@, fuel as nat),
            ),
        decreases 2 * fuel, node, 0nat,
    {
        proof {
            reveal_with_fuel(spec_eval_expression, 1);
        }
        let left = Evaluator::eval_expression(&node.lhs, environment, fuel);
        if Evaluator::is_error(&left) {
            return left;
        }
        let right = Evaluator::eval_expression(&node.rhs, environment, fuel);
        if Evaluator::is_error(&right) {
            return right;
        }
        Evaluator::eval_infix_expression(node.operator.as_str(), left, right)
    }

    /// The value of an `if` expression: that of the branch that the
    /// condition chooses, or `null` where there is no such branch.
    fn eval_if_expression(if_exp: &IfExpression, environment: &mut Environment, fuel: usize) -> (r:
        Object)
        requires
            old(environment).wf(),
            fuel <= MAX_CALL_DEPTH,
        ensures
            evaluated(
                *old(environment),
                *final(environment),
                r,
                spec_eval_expression(if_exp@, old(environment)@, fuel as nat),
            ),
        decreases 2 * fuel, if_exp, 0nat,
    {
        proof {
            reveal_with_fuel(spec_eval_expression, 1);
            reveal_with_fuel(spec_eval_block, 1);
        }
        let condition = Evaluator::eval_expression(&if_exp.condition, environment, fuel);
        if Evaluator::is_error(&condition) {
            return condition;
        }
        if Evaluator::is_truthy(&condition) {
            Evaluator::eval_block_statement(&if_exp.consequence, environment, fuel)
        } else {
            match &if_exp.alternative {
                Some(alternative) => Evaluator::eval_block_statement(alternative, environment, fuel),
                None => Object::Null(Null::new()),
            }
        }
    }

    /// The value of a call: the callee and the arguments are evaluated,
    /// then the function is applied.
    fn eval_call_expression(call: &CallExpression, environment: &mut Environment, fuel: usize) -> (r:
        Object)
        requires
            old(environment).wf(),
            fuel <= MAX_CALL_DEPTH,
        ensures
            evaluated(
                *old(environment),
                *final(environment),
                r,
                spec_eval_expression(call@, old(environment)@, fuel as nat),
            ),
        decreases 2 * fuel, call, 0nat,
    {
        proof {
            reveal_with_fuel(spec_eval_expression, 1);
            reveal_with_fuel(spec_eval_expressions, 1);
            reveal_with_fuel(spec_apply_function, 1);
        }
        let callee = Evaluator::eval_expression(&call.function, environment, fuel);
        if Evaluator::is_error(&callee) {
            return callee;
        }
        match Evaluator::eval_expressions(&call.args, environment, fuel) {
            Err(error) => error,
            Ok(arguments) => {
                if fuel == 0 {
                    Evaluator::new_error(RuntimeError::new(RuntimeErrorCode::OverflowError))
                } else {
                    Evaluator::apply_function(callee, arguments, environment, fuel)
                }
            },
        }
    }

    /// The values of the expressions, from left to right; the first error
    /// ends the evaluation.
    fn eval_expressions(exps: &Vec<Expression>, environment: &mut Environment, fuel: usize) -> (r:
        Result<Vec<Object>, Object>)
        requires
            old(environment).wf(),
            fuel <= MAX_CALL_DEPTH,
        ensures
            final(environment).wf(),
            final(environment)@.current == old(environment)@.current,
            final(environment)@.scopes.len() >= old(environment)@.scopes.len(),
            final(environment)@ == spec_eval_expressions(
                expressions_view(exps@),
                0,
                old(environment)@,
                fuel as nat,
                Seq::empty(),
            ).env,
            match r {
                Ok(values) => spec_eval_expressions(
                    expressions_view(exps@),
                    0,
                    old(environment)@,
                    fuel as nat,
                    Seq::empty(),
                ).values == Ok::<Seq<ObjectView>, ObjectView>(objects_view(values@)),
                Err(error) => spec_eval_expressions(
                    expressions_view(exps@),
                    0,
                    old(environment)@,
                    fuel as nat,
                    Seq::empty(),
                ).values == Err::<Seq<ObjectView>, ObjectView>(error@),
            },
        decreases 2 * fuel, exps, 0nat,
    {
        let mut values: Vec<Object> = Vec::new();
        assert(objects_view(values@) =~= Seq::empty());
        let mut i: usize = 0;
        while i < exps.len()
            invariant
                i <= exps.len(),
                fuel <= MAX_CALL_DEPTH,
                environment.wf(),
                environment@.current == old(environment)@.current,
                environment@.scopes.len() >= old(environment)@.scopes.len(),
                spec_eval_expressions(
                    expressions_view(exps@),
                    i as nat,
                    environment@,
                    fuel as nat,
                    objects_view(values@),
                ) == spec_eval_expressions(
                    expressions_view(exps@),
                    0,
                    old(environment)@,
                    fuel as nat,
                    Seq::empty(),
                ),
            decreases exps.len() - i,
        {
            proof {
                reveal_with_fuel(spec_eval_expressions, 1);
                reveal_with_fuel(spec_eval_expression, 1);
            }
            let ghost before = values@;
            let value = Evaluator::eval_expression(&exps[i], environment, fuel);
            if Evaluator::is_error(&value) {
                return Err(value);
            }
            values.push(value);
            proof {
                lemma_objects_view_push(before, value);
            }
            i = i + 1;
        }
        proof {
            reveal_with_fuel(spec_eval_expressions, 1);
        }
        Ok(values)
    }

    /// Makes the scope of a call inside the scope of the function, lets
    /// evaluation stand in it, and binds the parameters to the arguments.
    fn extend_environment(fun: &Function, args: &Vec<Object>, environment: &mut Environment)
        requires
            old(environment).wf(),
            fun.env < old(environment)@.scopes.len(),
            fun.parameters@.len() == args@.len(),
        ensures
            final(environment).wf(),
            final(environment)@ == spec_bind_parameters(
                old(environment)@.extend(fun.env as nat).enter(old(environment)@.scopes.len()),
                typed_identifiers_view(fun.parameters@),
                objects_view(args@),
                0,
            ),
            final(environment)@.current == old(environment)@.scopes.len(),
            final(environment)@.scopes.len() == old(environment)@.scopes.len() + 1,
    {
        let scope = environment.extend(fun.env);
        environment.enter(scope);
        let mut i: usize = 0;
        while i < fun.parameters.len()
            invariant
                i <= fun.parameters.len(),
                fun.parameters@.len() == args@.len(),
                environment.wf(),
                environment@.current == old(environment)@.scopes.len(),
                environment@.scopes.len() == old(environment)@.scopes.len() + 1,
                spec_bind_parameters(
                    environment@,
                    typed_identifiers_view(fun.parameters@),
                    objects_view(args@),
                    i as nat,
                ) == spec_bind_parameters(
                    old(environment)@.extend(fun.env as nat).enter(old(environment)@.scopes.len()),
                    typed_identifiers_view(fun.parameters@),
                    objects_view(args@),
                    0,
                ),
            decreases fun.parameters.len() - i,
        {
            let _ = environment.set(fun.parameters[i].identifier.value.clone(), args[i].clone());
            i = i + 1;
        }
    }

    /// The value of a call of `function` with the given arguments.
    fn apply_function(
        function: Object,
        args: Vec<Object>,
        environment: &mut Environment,
        fuel: usize,
    ) -> (r: Object)
        requires
            old(environment).wf(),
            0 < fuel <= MAX_CALL_DEPTH,
        ensures
            evaluated(
                *old(environment),
                *final(environment),
                r,
                spec_apply_function(
                    function@,
                    objects_view(args@),
                    old(environment)@,
                    fuel as nat,
                ),
            ),
        decreases 2 * fuel - 1, function, 0nat,
    {
        proof {
            reveal_with_fuel(spec_apply_function, 1);
            reveal_with_fuel(spec_eval_block, 1);
        }
        match &function {
            Object::Function(fun) => {
                if fun.env >= environment.scopes.len() {
                    Evaluator::not_callable(&function)
                } else if fun.parameters.len() != args.len() {
                    Evaluator::new_error(
                        RuntimeError::new(
                            RuntimeErrorCode::InvalidOperation {
                                operation: String::from_str("wrong number of arguments"),
                                context: None,
                            },
                        ),
                    )
                } else {
                    let outside = environment.current;
                    Evaluator::extend_environment(fun, &args, environment);
                    let result = Evaluator::eval_block_statement(&fun.body, environment, fuel - 1);
                    environment.enter(outside);
                    Evaluator::unwrap_return_value(result)
                }
            },
            _ => Evaluator::not_callable(&function),
        }
    }

    /// The error for a call of a value that is no function.
    fn not_callable(callee: &Object) -> (r: Object)
        ensures
            r@ == spec_not_callable(callee@),
    {
        Evaluator::new_error(
            RuntimeError::new(
                RuntimeErrorCode::FunctionNotFound {
                    function_name: callee.to_string(),
                    context: None,
                },
            ),
        )
    }
}

} // verus!
