use eheh::lexer::Lexer;
use eheh::parser::Parser;

    #[test]
    fn test_program_to_string() {
        const CODE: &'static str = r#"
            let x = 0;
            let y;
            const NUMBER_OF_ROWS: i32 = 100;
            var notifier = 10;
            let age: u32 = 20 + 3;
            return 10;
        "#;

        let lexer = Lexer::new(CODE);
        let mut parser = Parser::new(lexer);

        let program = parser.parse().unwrap();

        assert_eq!(program.statements.len(), 6);

        let expected_strings: Vec<&str> = vec![
            "let x = 0;",
            "let y;",
            "const NUMBER_OF_ROWS: i32 = 100;",
            "var notifier = 10;",
            "let age: u32 = (20 + 3);",
            "return 10;",
        ];

        expected_strings.iter().enumerate().for_each(|(i, s)| {
            if let Some(stmt) = program.statements.get(i) {
                assert_eq!(stmt.to_string(), s.to_string());
            }
        });
    }
