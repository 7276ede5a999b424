use eheh::ast::{Expression, Program, Statement};
use eheh::diagnostics::{ParserError, ParserErrorCode, ParserWarning};
use eheh::lexer::Lexer;
use eheh::parser::Parser;
use eheh::precedence::Precedence;
use eheh::token::TokenType;

fn parse(source: &str) -> (Program, Vec<ParserError>, Vec<ParserWarning>) {
    let lexer = Lexer::new(source);
    let mut parser = Parser::new(lexer);
    let program = parser.parse().unwrap();
    (program, parser.errors, parser.warnings)
}

fn text_of(source: &str) -> String {
    let (program, errors, _) = parse(source);
    assert!(errors.is_empty(), "{:?}", errors);
    program.to_string()
}

#[test]
fn precedence_follows_the_ladder() {
    assert_eq!(text_of("-a * b"), "((-a) * b)");
    assert_eq!(text_of("a + b * c + d / e - f"), "(((a + (b * c)) + (d / e)) - f)");
    assert_eq!(text_of("5 > 4 == 3 < 4"), "((5 > 4) == (3 < 4))");
    assert_eq!(text_of("a || b && c"), "(a || (b && c))");
    assert_eq!(text_of("a == b && c != d"), "((a == b) && (c != d))");
    assert_eq!(text_of("1 << 2 + 3"), "(1 << (2 + 3))");
    assert_eq!(text_of("a < b << c"), "(a < (b << c))");
    assert_eq!(text_of("1 .. 2 || 3"), "(1 .. (2 || 3))");
    assert_eq!(text_of("2 * 3 ^ 4"), "(2 * (3 ^ 4))");
    assert_eq!(text_of("a % b * c"), "((a % b) * c)");
    assert_eq!(text_of("!a == b"), "((!a) == b)");
    assert_eq!(text_of("a + f(b) * c"), "(a + (f(b) * c))");
    assert_eq!(text_of("-f(1)"), "(-f(1))");
    let ladder = [
        Precedence::LOWEST,
        Precedence::RANGE,
        Precedence::OR,
        Precedence::AND,
        Precedence::EQ,
        Precedence::LGT,
        Precedence::BITWISE,
        Precedence::SUM,
        Precedence::PRODUCT,
        Precedence::EXPONENT,
        Precedence::CAST,
        Precedence::PREFIX,
        Precedence::FieldAccess,
        Precedence::CALL,
        Precedence::PATH,
    ];
    for (rank, level) in ladder.iter().enumerate() {
        assert_eq!(level.rank() as usize, rank);
    }
    assert_eq!(Precedence::from_token_type(&TokenType::PLUS), Precedence::SUM);
    assert_eq!(Precedence::from_token_type(&TokenType::LPAREN), Precedence::CALL);
    assert_eq!(Precedence::from_token_type(&TokenType::IDENT), Precedence::LOWEST);
}

#[test]
fn printing_and_parsing_again_gives_the_same_tree() {
    let sources = [
        "a + b * c",
        "(a + b) * c",
        "-(5 + 5)",
        "!(true == false)",
        "let x: i32 = 1 + 2 * 3;",
        "return f(1, g(2), 3);",
        "add(1, 2 * 3)",
        "if x < y { x } else { y }",
        "if (x) { 1 }",
        "if 1 < 2 { a; b } else { c; (d) }",
        "if ((a + b)(c)) { 1 }",
        "if !a { 1 }",
        "fn(x, y) { x + y }",
        "fn named(x: int) -> int { let y = x; y; (y); return y; }",
        "let add = fn(a: int, b: int) -> int { return a + b; };",
        "a;b",
        "3 + 4; -5 * 5",
        "a; (b); -c; f(x); (g)(y)",
        "let x = 1; x; let y; y; return x; z",
        "{ 1; (2) }; (3); { a }",
        "fn() { 1 }; (2)",
        "if a { 1 }; (2)",
        "fn(x) { x }(5); (6)",
        "\"text\"; \"\"; let s = \"a b\";",
        "2 ** 3 ** 4; ..=5; 1 ..= 9; ..7; a .. b",
        "7; true; false; null",
        "++a; --b; a << b >> c; a % b ^ c",
        "x;;;y;",
    ];
    for source in sources {
        let (first, errors, _) = parse(source);
        assert!(errors.is_empty(), "for {:?}: {:?}", source, errors);
        let printed = first.to_string();
        let (second, errors, _) = parse(&printed);
        assert!(errors.is_empty(), "for {:?} printed as {:?}: {:?}", source, printed, errors);
        assert_eq!(second.statements.len(), first.statements.len(), "for {:?}", source);
        assert_eq!(second.to_string(), printed, "for {:?}", source);
        assert_eq!(shape_of(&second), shape_of(&first), "for {:?}", source);
    }
    assert_eq!(text_of("a;b"), "a; b");
    assert_eq!(text_of("3 + 4; -5 * 5"), "(3 + 4); ((-5) * 5)");
    assert_eq!(text_of("let x = 1; x; y"), "let x = 1; x; y");
    assert_eq!(
        text_of("fn() { a; b; let c = 1; c }"),
        "fn (){\n    a;    b;    let c = 1;    c\n}"
    );
}

/// The tree without its tokens: the nesting, the names, the operators and
/// the literal values.
fn shape_of(program: &Program) -> String {
    let text = format!("{:?}", program);
    let mut shape = String::new();
    let mut rest = text.as_str();
    loop {
        match rest.find("Token {") {
            Some(start) => {
                shape.push_str(&rest[..start]);
                let from = &rest[start..];
                let end = from.find("file: None }").expect("a token ends with its file");
                rest = &from[end + "file: None }".len()..];
            }
            None => {
                shape.push_str(rest);
                break;
            }
        }
    }
    shape
}

#[test]
fn an_error_on_one_line_leaves_later_lines_alone() {
    let (program, errors, _) = parse("let x 5;\nfoo;\nlet y = 10;\nz + 1;\n");
    assert_eq!(errors.len(), 1);
    assert_eq!(errors[0].code.id(), 1000);
    assert_eq!(program.statements.len(), 3);
    assert_eq!(program.statements[0].to_string(), "foo");
    assert_eq!(program.statements[1].to_string(), "let y = 10;");
    assert_eq!(program.statements[2].to_string(), "(z + 1)");

    let (program, errors, _) = parse("let = 5;\nlet y = 10;\n");
    assert_eq!(errors.len(), 1);
    assert!(matches!(errors[0].code, ParserErrorCode::UnexpectedToken { .. }));
    assert_eq!(program.statements.len(), 1);
    assert_eq!(program.statements[0].to_string(), "let y = 10;");

    let (program, errors, _) = parse("1 +;\n2 * ;\n3");
    assert_eq!(errors.len(), 2);
    assert_eq!(program.statements.len(), 1);
    assert_eq!(program.statements[0].to_string(), "3");
}

#[test]
fn a_token_that_cannot_be_read_is_an_error() {
    let (program, errors, _) = parse("`");
    assert!(program.statements.is_empty());
    assert_eq!(errors.len(), 1);
    match &errors[0].code {
        ParserErrorCode::UnknownPrefixToken { token, .. } => {
            assert_eq!(token.t, TokenType::ILLEGAL);
            assert_eq!(token.literal, "`");
        }
        other => panic!("unexpected {:?}", other),
    }
    let (program, errors, _) = parse("1;\n`;\n2");
    assert_eq!(errors.len(), 1);
    assert_eq!(program.statements.len(), 2);
    assert_eq!(program.to_string(), "1; 2");
}

#[test]
fn every_kind_of_error_is_reported() {
    let cases = [
        ("let = 5;", 1000),
        ("+ 1", 1001),
        ("if () { 1 }", 1002),
        ("if x) { 1 }", 1003),
        ("if (x { 1 }", 1003),
        ("fn () -> { 1 }", 1004),
        ("fn x { 1 }", 1000),
        ("fn (a, b { 1 }", 1000),
        ("f(1, 2", 1000),
        ("(1 + 2", 1000),
        ("return 1 2;", 1000),
        ("if x 1", 1000),
        ("if ) { 1 }", 1001),
        ("let x 5;", 1000),
        ("`", 1001),
    ];
    for (source, code) in cases {
        let (_, errors, _) = parse(source);
        assert!(!errors.is_empty(), "no error for {:?}", source);
        assert_eq!(errors[0].code.id(), code, "for {:?}", source);
    }
    assert_eq!(ParserErrorCode::Unknown.id(), 1005);
}

#[test]
fn errors_carry_the_token_and_the_line() {
    let (_, errors, _) = parse("let a = 1;\nlet = 5;");
    assert_eq!(errors.len(), 1);
    match &errors[0].code {
        ParserErrorCode::UnexpectedToken { token, expected_token_types, context } => {
            assert_eq!(token.literal, "let");
            assert_eq!(token.line, 2);
            assert_eq!(expected_token_types, &vec![TokenType::IDENT]);
            assert_eq!(context, &Some("let = 5;".to_string()));
        }
        other => panic!("unexpected {:?}", other),
    }
    let (_, errors, _) = parse("if x) { 1 }");
    match &errors[0].code {
        ParserErrorCode::DelimiterMismatch {
            token,
            expected_delimiter,
            current_delimiter,
            context,
        } => {
            assert_eq!(token.literal, "x");
            assert_eq!(*expected_delimiter, TokenType::LPAREN);
            assert_eq!(*current_delimiter, None);
            assert_eq!(context, &Some(vec!["if x) { 1 }".to_string()]));
        }
        other => panic!("unexpected {:?}", other),
    }
}

#[test]
fn a_failing_operand_is_reported_once() {
    let (program, errors, _) = parse("-;");
    assert_eq!(program.statements.len(), 0);
    assert_eq!(errors.len(), 1);
    assert_eq!(errors[0].code.id(), 1001);
}

#[test]
fn a_failing_statement_in_a_block_is_reported() {
    let (program, errors, _) = parse("fn() { let = 1; 2 }");
    assert_eq!(program.statements.len(), 1);
    assert!(!errors.is_empty());
    assert_eq!(errors[0].code.id(), 1000);
    let (program, errors, _) = parse("if x { 1 + ; 3 } else { 2 }");
    assert_eq!(program.statements.len(), 1);
    assert_eq!(errors.len(), 1);
    assert_eq!(errors[0].code.id(), 1001);
}

#[test]
fn style_warnings_are_given() {
    let (program, errors, warnings) = parse("if (x) { 1 }");
    assert!(errors.is_empty());
    assert_eq!(program.statements.len(), 1);
    assert_eq!(warnings.len(), 1);
    match &warnings[0] {
        ParserWarning::UnnecessaryParentheses { token, context } => {
            assert_eq!(token.literal, "x");
            assert_eq!(context, &vec!["if (x) { 1 }".to_string()]);
        }
        other => panic!("unexpected {:?}", other),
    }

    let (_, _, warnings) = parse("if x { } else { }");
    assert!(matches!(warnings[0], ParserWarning::EmptyIfExpression { .. }));
    assert_eq!(warnings[0].id(), 1001);
    let (_, _, warnings) = parse("if x { } else { 1 }");
    assert!(matches!(
        warnings[0],
        ParserWarning::EmptyIfConsequenceBranch { has_alternative: true, .. }
    ));
    let (_, _, warnings) = parse("if x { }");
    assert!(matches!(
        warnings[0],
        ParserWarning::EmptyIfConsequenceBranch { has_alternative: false, .. }
    ));
    let (_, _, warnings) = parse("if x { 1 } else { }");
    assert!(matches!(warnings[0], ParserWarning::EmptyIfAlternativeBranch { .. }));
    assert_eq!(warnings[0].id(), 1003);
    let (_, _, warnings) = parse("fn f() { }");
    assert!(matches!(warnings[0], ParserWarning::EmptyFunction { .. }));
    assert_eq!(warnings[0].id(), 1006);
    let (_, _, warnings) = parse("if x { 1 } else { 2 }");
    assert!(warnings.is_empty());
}

#[test]
fn string_literals_are_expressions() {
    let (program, errors, _) = parse("let name: string = \"Ada\"; \"x\"");
    assert!(errors.is_empty(), "{:?}", errors);
    assert_eq!(program.statements.len(), 2);
    assert_eq!(program.statements[0].to_string(), "let name: string = \"Ada\";");
    match &program.statements[1] {
        Statement::Expression(statement) => match &statement.expression {
            Expression::StringLiteral(literal) => assert_eq!(literal.content, "x"),
            other => panic!("unexpected {:?}", other),
        },
        other => panic!("unexpected {:?}", other),
    }
}

#[test]
fn digits_that_do_not_fit_are_no_integer_literal() {
    let (program, errors, _) = parse("1 + 99999999999999999999");
    assert_eq!(program.statements.len(), 0);
    assert_eq!(errors.len(), 1);
    assert_eq!(errors[0].code.id(), 1001);
    // at the start of a statement they are an error like any other
    let (program, errors, _) = parse("1;\n99999999999999999999;\n2");
    assert_eq!(program.statements.len(), 2);
    assert_eq!(errors.len(), 1);
    assert_eq!(errors[0].code.id(), 1001);
}

#[test]
fn a_block_at_the_top_is_a_statement() {
    let (program, errors, _) = parse("{ 1; x }\nlet y = 2;");
    assert!(errors.is_empty(), "{:?}", errors);
    assert_eq!(program.statements.len(), 2);
    assert!(matches!(program.statements[0], Statement::Block(_)));
    assert_eq!(program.statements[0].to_string(), "{\n    1;    x\n}");
    assert_eq!(program.statements[1].to_string(), "let y = 2;");
    let (_, errors, _) = parse("{ 1");
    assert_eq!(errors[0].code.id(), 1000);
}

#[test]
fn nodes_print_as_source_text() {
    assert_eq!(text_of("fn add(x: int, y) -> int { return x + y; }"),
        "fn add(x: int, y) -> int {\n    return (x + y);\n}");
    assert_eq!(text_of("if a { b } else { c }"), "if (a) {\n    b\n} else{\n    c\n}");
    assert_eq!(text_of("if 1 < 2 { b }"), "if ((1 < 2)) {\n    b\n}");
    assert_eq!(text_of("f()"), "f()");
    assert_eq!(text_of("f(a, 1 + 2)(3)"), "f(a, (1 + 2))(3)");
    assert_eq!(text_of("null"), "null");
    assert_eq!(text_of("var v;"), "var v;");
    assert_eq!(text_of("return;"), "return;");
    assert_eq!(text_of("++i"), "(++i)");
    assert_eq!(text_of("..10"), "(..10)");
    let (program, _, _) = parse("let a = 1; b");
    assert_eq!(program.get_token_literal(), "let");
    assert_eq!(program.statements[1].get_token_literal(), "b");
    assert_eq!(Program::new().get_token_literal(), "");
    assert_eq!(Program::new().to_string(), "");
    let copy = program.clone();
    assert_eq!(copy.to_string(), program.to_string());
}
