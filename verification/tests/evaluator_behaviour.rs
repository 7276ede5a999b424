use eheh::diagnostics::RuntimeErrorCode;
use eheh::environment::Environment;
use eheh::evaluator::{infix_operator, Evaluator};
use eheh::lexer::Lexer;
use eheh::object::{Boolean, Error, Function, Integer, Null, Object, ObjectType, Return, StringObj};
use eheh::parser::Parser;
use eheh::semantics::{InfixOperator, MAX_CALL_DEPTH};

fn run_in(source: &str, environment: &mut Environment) -> Object {
    let lexer = Lexer::new(source);
    let mut parser = Parser::new(lexer);
    let program = parser.parse().unwrap();
    assert!(parser.errors.is_empty(), "{:?}", parser.errors);
    Evaluator::eval(&program, environment).unwrap()
}

fn run(source: &str) -> Object {
    let mut environment = Environment::new();
    run_in(source, &mut environment)
}

fn integer(source: &str) -> i64 {
    match run(source) {
        Object::Integer(i) => i.value,
        other => panic!("no integer for {:?}: {:?}", source, other),
    }
}

fn boolean(source: &str) -> bool {
    match run(source) {
        Object::Boolean(b) => b.value,
        other => panic!("no boolean for {:?}: {:?}", source, other),
    }
}

fn error_id(source: &str) -> usize {
    match run(source) {
        Object::Error(e) => e.err.code.id(),
        other => panic!("no error for {:?}: {:?}", source, other),
    }
}

fn whole(value: i64) -> Object {
    Object::Integer(Integer::new(value))
}

fn truth(value: bool) -> Object {
    Object::Boolean(Boolean::new(value))
}

#[test]
fn sums_and_differences() {
    assert_eq!(integer("5 + 5 + 5 + 5 - 10"), 10);
}

#[test]
fn arithmetic_with_parentheses() {
    assert_eq!(integer("(5 + 10 * 2 + 15 / 3) * 2 + -10"), 50);
}

#[test]
fn logic_with_parentheses() {
    assert!(boolean("true && (false || (1 < 2))"));
}

#[test]
fn the_alternative_is_taken() {
    assert_eq!(integer("if (1 > 2) { 10 } else { 20 }"), 20);
}

#[test]
fn an_inner_return_ends_the_program() {
    assert_eq!(integer("if true { if true { return 1; } return 2; }"), 1);
}

#[test]
fn declarations_bind_names() {
    assert_eq!(integer("let a = 5; let b = a; let c = a + b + 5; c"), 15);
}

#[test]
fn functions_are_called() {
    assert_eq!(integer("let add = fn(x, y) { x + y }; add(5 + 5, add(5, 5))"), 20);
}

#[test]
fn closures_keep_their_scope() {
    assert_eq!(
        integer("let newAdder = fn(x) { fn(y) { x + y } }; let addTwo = newAdder(2); addTwo(3)"),
        5
    );
}

#[test]
fn an_unbound_name_is_an_error() {
    match run("foobar") {
        Object::Error(e) => match &e.err.code {
            RuntimeErrorCode::IdentifierNotFound { identifier, context } => {
                assert_eq!(identifier, "foobar");
                assert_eq!(context, &Some("foobar".to_string()));
            }
            other => panic!("unexpected {:?}", other),
        },
        other => panic!("unexpected {:?}", other),
    }
}

#[test]
fn an_integer_plus_a_boolean_is_an_error() {
    match run("5 + true") {
        Object::Error(e) => match &e.err.code {
            RuntimeErrorCode::InvalidOperation { operation, context } => {
                assert_eq!(operation, "5(i64)+true(boolean)");
                assert_eq!(context, &None);
            }
            other => panic!("unexpected {:?}", other),
        },
        other => panic!("unexpected {:?}", other),
    }
}

#[test]
fn bang_tells_truth() {
    assert!(boolean("!!5"));
    assert!(boolean("!0"));
    assert!(boolean("!null"));
    assert!(!boolean("!7"));
}

#[test]
fn integer_arithmetic_is_that_of_the_machine() {
    for (a, b) in [(0i64, 1i64), (7, 2), (-7, 2), (7, -2), (-7, -2), (100, 7), (-1, 1), (6, 3)] {
        let sum = Evaluator::eval_infix_expression("+", whole(a), whole(b));
        assert!(matches!(sum, Object::Integer(i) if i.value == a + b));
        let quotient = Evaluator::eval_infix_expression("/", whole(a), whole(b));
        assert!(matches!(quotient, Object::Integer(i) if i.value == a / b), "{} / {}", a, b);
        let remainder = Evaluator::eval_infix_expression("%", whole(a), whole(b));
        assert!(matches!(remainder, Object::Integer(i) if i.value == a % b), "{} % {}", a, b);
    }
    assert_eq!(integer("-7 / 2"), -3);
    assert_eq!(integer("7 / -2"), -3);
    assert_eq!(integer("-7 % 2"), -1);
    assert_eq!(integer("7 % -2"), 1);
    assert_eq!(integer("7 - 10"), -3);
    assert_eq!(integer("6 * -7"), -42);
}

#[test]
fn results_that_do_not_fit_are_overflow_errors() {
    assert_eq!(error_id("9223372036854775807 + 1"), 7);
    assert_eq!(error_id("-9223372036854775807 - 2"), 7);
    assert_eq!(error_id("9223372036854775807 * 2"), 7);
    assert_eq!(error_id("++9223372036854775807"), 7);
    assert_eq!(error_id("2 ^ 63"), 7);
    assert_eq!(error_id("..=9223372036854775807"), 7);
    let min = i64::MIN;
    let quotient = Evaluator::eval_infix_expression("/", whole(min), whole(-1));
    assert!(matches!(quotient, Object::Error(_)));
    let remainder = Evaluator::eval_infix_expression("%", whole(min), whole(-1));
    assert!(matches!(remainder, Object::Integer(i) if i.value == 0));
    let negated = Evaluator::eval_minus_prefix_expression(whole(min));
    assert!(matches!(negated, Object::Error(_)));
    let lowered = Evaluator::eval_decr_prefix_expression(whole(min));
    assert!(matches!(lowered, Object::Error(_)));
    let range = Evaluator::eval_infix_expression("..=", whole(1), whole(min));
    assert!(matches!(range, Object::Integer(i) if i.value == min));
}

#[test]
fn division_by_zero_is_an_error() {
    assert_eq!(error_id("1 / 0"), 1);
    assert_eq!(error_id("1 % 0"), 1);
    match run("10 / (5 - 5)") {
        Object::Error(e) => match &e.err.code {
            RuntimeErrorCode::DivisionByZero { operation } => {
                assert_eq!(operation, "10(i64)/0(i64)")
            }
            other => panic!("unexpected {:?}", other),
        },
        other => panic!("unexpected {:?}", other),
    }
}

#[test]
fn powers_are_computed() {
    assert_eq!(integer("2 ^ 10"), 1024);
    assert_eq!(integer("3 ^ 0"), 1);
    assert_eq!(integer("-2 ^ 3"), -8);
    assert_eq!(integer("7 ^ 1"), 7);
    let starred = Evaluator::eval_infix_expression("**", whole(5), whole(3));
    assert!(matches!(starred, Object::Integer(i) if i.value == 125));
    // the exponent is taken as an unsigned 32-bit number
    let wrapped = Evaluator::eval_infix_expression("^", whole(2), whole(4294967296 + 3));
    assert!(matches!(wrapped, Object::Integer(i) if i.value == 8));
}

#[test]
fn conjunction_does_not_mind_the_order() {
    for p in [false, true] {
        for q in [false, true] {
            let one = Evaluator::eval_infix_expression("&&", truth(p), truth(q));
            let other = Evaluator::eval_infix_expression("&&", truth(q), truth(p));
            assert!(matches!(one, Object::Boolean(b) if b.value == (p && q)));
            assert!(matches!(other, Object::Boolean(b) if b.value == (p && q)));
        }
    }
}

#[test]
fn booleans_are_ordered() {
    assert!(boolean("false < true"));
    assert!(!boolean("true < false"));
    assert!(boolean("true > false"));
    assert!(boolean("true >= true"));
    assert!(boolean("false <= false"));
    assert!(!boolean("true <= false"));
    assert!(boolean("true || false"));
    assert!(boolean("1 <= 1") && boolean("2 >= 1") && boolean("1 != 2") && !boolean("1 == 2"));
}

#[test]
fn a_boolean_on_the_left_is_coerced() {
    assert!(boolean("true && 1"));
    assert!(!boolean("true && 0"));
    assert!(boolean("true == 5"));
    assert_eq!(integer("true + 5"), 6);
    assert_eq!(integer("false * 5"), 0);
    assert_eq!(error_id("5 == true"), 2);
    assert_eq!(error_id("null + 1"), 2);
}

#[test]
fn operators_without_a_rule_are_errors() {
    assert_eq!(error_id("true + false"), 6);
    assert_eq!(error_id("true << true"), 6);
    assert_eq!(error_id("1 << 2"), 6);
    assert_eq!(error_id("-true"), 2);
    assert_eq!(error_id("++true"), 2);
    assert_eq!(error_id("--null"), 2);
    assert_eq!(error_id("!fn(x) { x }"), 2);
    assert_eq!(error_id("..true"), 2);
    let unknown = Evaluator::eval_prefix_expression("~", whole(1));
    match unknown {
        Object::Error(e) => match &e.err.code {
            RuntimeErrorCode::UnknownInfixOperator { operator, context } => {
                assert_eq!(operator, "~");
                assert_eq!(context, &Some("~1(i64)".to_string()));
            }
            other => panic!("unexpected {:?}", other),
        },
        other => panic!("unexpected {:?}", other),
    }
    match run("true + false") {
        Object::Error(e) => match &e.err.code {
            RuntimeErrorCode::UnknownInfixOperator { operator, context } => {
                assert_eq!(operator, "+");
                assert_eq!(context, &Some("true(boolean)+false(boolean)".to_string()));
            }
            other => panic!("unexpected {:?}", other),
        },
        other => panic!("unexpected {:?}", other),
    }
}

#[test]
fn prefix_operators_on_integers() {
    assert_eq!(integer("-5"), -5);
    assert_eq!(integer("--5"), 4);
    assert_eq!(integer("++5"), 6);
    assert_eq!(integer("..5"), 5);
    assert_eq!(integer("3 .. 10"), 7);
    assert_eq!(integer("3 ..= 10"), 8);
    assert_eq!(integer("..=5"), 6);
    assert_eq!(integer("2 ** 5"), 32);
    assert_eq!(integer("2 * 3 ** 2"), 18);
    assert!(boolean("-null"));
    let inclusive = Evaluator::eval_prefix_expression("..=", whole(5));
    assert!(matches!(inclusive, Object::Integer(i) if i.value == 6));
    let bang = Evaluator::eval_bang_prefix_expression(truth(true));
    assert!(matches!(bang, Object::Boolean(b) if !b.value));
    let incr = Evaluator::eval_incr_prefix_expression(whole(41));
    assert!(matches!(incr, Object::Integer(i) if i.value == 42));
}

#[test]
fn operator_texts_are_known() {
    assert_eq!(infix_operator("+"), Some(InfixOperator::Plus));
    assert_eq!(infix_operator("**"), Some(InfixOperator::Power));
    assert_eq!(infix_operator("^"), Some(InfixOperator::Power));
    assert_eq!(infix_operator("..="), Some(InfixOperator::RangeInclusive));
    assert_eq!(infix_operator("<="), Some(InfixOperator::LessEqual));
    assert_eq!(infix_operator("<<"), None);
    assert!(InfixOperator::And.is_logical());
    assert!(!InfixOperator::Plus.is_logical());
}

#[test]
fn truthiness() {
    assert!(Evaluator::is_truthy(&truth(true)));
    assert!(!Evaluator::is_truthy(&truth(false)));
    assert!(Evaluator::is_truthy(&whole(-3)));
    assert!(!Evaluator::is_truthy(&whole(0)));
    assert!(!Evaluator::is_truthy(&Object::Null(Null::new())));
    assert!(!Evaluator::is_error(&whole(0)));
    assert_eq!(integer("if 0 { 1 } else { 2 }"), 2);
    assert_eq!(integer("if 7 { 1 } else { 2 }"), 1);
    assert_eq!(integer("if 1 < 2 { 1 } else { 2 }"), 1);
    assert!(matches!(run("if false { 1 }"), Object::Null(_)));
    assert_eq!(error_id("if missing { 1 }"), 0);
}

#[test]
fn the_same_program_gives_the_same_in_fresh_environments() {
    let source = "let f = fn(n) { if n < 2 { return n; } return f(n - 1) + f(n - 2); }; f(12)";
    let mut first = Environment::new();
    let mut second = Environment::new();
    let one = run_in(source, &mut first);
    let other = run_in(source, &mut second);
    assert!(matches!(one, Object::Integer(i) if i.value == 144));
    assert!(matches!(other, Object::Integer(i) if i.value == 144));
    assert_eq!(first.scopes.len(), second.scopes.len());
    assert_eq!(first.current, second.current);
}

#[test]
fn the_environment_lives_across_programs() {
    let mut environment = Environment::new();
    assert!(matches!(run_in("let x = 41;", &mut environment), Object::Null(_)));
    assert!(matches!(run_in("let bump = fn(n) { n + 1 };", &mut environment), Object::Null(_)));
    assert!(matches!(run_in("bump(x)", &mut environment), Object::Integer(i) if i.value == 42));
    // a function sees what was bound after it was made
    assert!(matches!(run_in("let late = fn() { later };", &mut environment), Object::Null(_)));
    assert!(matches!(run_in("late()", &mut environment), Object::Error(_)));
    assert!(matches!(run_in("let later = 7;", &mut environment), Object::Null(_)));
    assert!(matches!(run_in("late()", &mut environment), Object::Integer(i) if i.value == 7));
    assert_eq!(environment.current, 0);
}

#[test]
fn scopes_nest() {
    assert_eq!(integer("let x = 1; let f = fn(x) { x * 10 }; f(5) + x"), 51);
    assert_eq!(integer("let x = 1; let f = fn() { let x = 2; x }; f() + x"), 3);
    assert_eq!(
        integer("let a = 1; let f = fn(b) { fn(c) { fn(d) { a + b + c + d } } }; f(10)(100)(1000)"),
        1111
    );
    assert_eq!(integer("let x = 1; let x = x + 1; x"), 2);
    assert_eq!(error_id("let f = fn(inner) { 1 }; f(1); inner"), 0);
}

#[test]
fn calls_check_their_callee_and_arguments() {
    assert_eq!(error_id("5(1)"), 4);
    assert_eq!(error_id("let f = fn(x) { x }; f()"), 2);
    assert_eq!(error_id("let f = fn(x) { x }; f(1, 2)"), 2);
    assert_eq!(error_id("let f = fn(x) { x }; f(missing)"), 0);
    assert_eq!(error_id("missing(1)"), 0);
    assert_eq!(integer("fn() { 7 }()"), 7);
    assert!(matches!(run("fn() { }()"), Object::Null(_)));
    assert!(matches!(run("fn() { return; }()"), Object::Null(_)));
    assert_eq!(integer("fn(x) { return x; 99 }(5)"), 5);
}

#[test]
fn calls_nest_up_to_the_limit() {
    let count = "let count = fn(n) { if n == 0 { return 0; } return 1 + count(n - 1); };";
    let deep = MAX_CALL_DEPTH - 1;
    assert_eq!(integer(&format!("{} count({})", count, deep)), deep as i64);
    assert_eq!(error_id(&format!("{} count({})", count, MAX_CALL_DEPTH)), 7);
    assert_eq!(error_id("let forever = fn() { forever() }; forever()"), 7);
}

#[test]
fn statements_have_values() {
    assert!(matches!(run(""), Object::Null(_)));
    assert!(matches!(run("let y;"), Object::Null(_)));
    assert!(matches!(run("let a = 1;"), Object::Null(_)));
    assert!(matches!(run("return;"), Object::Null(_)));
    assert!(matches!(run("\"text\""), Object::Null(_)));
    assert_eq!(integer("1; 2; 3"), 3);
    assert_eq!(integer("return 10; 9;"), 10);
    assert_eq!(error_id("1; missing; 3"), 0);
    assert_eq!(error_id("let a = missing; 1"), 0);
    assert_eq!(error_id("return missing;"), 0);
    assert_eq!(error_id("missing + 1"), 0);
    assert_eq!(error_id("1 + missing"), 0);
    assert_eq!(error_id("-missing"), 0);
}

#[test]
fn values_have_texts_and_types() {
    assert_eq!(whole(-12).to_string(), "-12");
    assert_eq!(truth(true).to_string(), "true");
    assert_eq!(Object::Null(Null::new()).to_string(), "null");
    assert_eq!(Object::Return(Return::new(Some(whole(3)))).to_string(), "return 3");
    assert_eq!(Object::Return(Return::new(None)).inspect(), "return");
    assert_eq!(StringObj::new("hi").to_string(), "\"hi\"");
    assert_eq!(StringObj::new("hi").inspect(), "\"hi\"");
    let function = run("fn(x: int, y) -> int { x + y }");
    assert_eq!(function.to_string(), "fn (x: int, y) -> int {\n    (x + y)\n}");
    assert_eq!(function.t(), ObjectType::Function);
    match &function {
        Object::Function(f) => {
            assert_eq!(f.env, 0);
            assert_eq!(f.parameters.len(), 2);
            let again = Function::new(vec![], f.body.clone(), None, 3);
            assert_eq!(again.to_string(), "fn (){\n    (x + y)\n}");
            assert_eq!(again.inspect(), again.to_string());
            assert_eq!(again.t(), ObjectType::Function);
        }
        other => panic!("unexpected {:?}", other),
    }
    assert_eq!(whole(1).t().to_string(), "i64");
    assert_eq!(truth(true).t().to_string(), "boolean");
    assert_eq!(Object::Null(Null::new()).t().to_string(), "null");
    assert_eq!(ObjectType::Return.to_string(), "return");
    assert_eq!(ObjectType::Error.to_string(), "error");
    assert_eq!(Return::new(None).t(), ObjectType::Return);
    assert_eq!(Integer::new(5).inspect(), "5");
    assert_eq!(Boolean::new(false).inspect(), "false");
    assert_eq!(Null::new().inspect(), "null");
    let error = run("missing");
    assert_eq!(error.t(), ObjectType::Error);
    assert_eq!(error.to_string(), "Identifier 'missing' not found");
    let copy = function.clone();
    assert_eq!(copy.to_string(), function.to_string());
    match run("1 / 0") {
        Object::Error(Error { err }) => {
            assert_eq!(err.message(), "Division by zero: 1(i64)/0(i64)")
        }
        other => panic!("unexpected {:?}", other),
    }
}
