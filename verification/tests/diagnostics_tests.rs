use eheh::lexer::Lexer;
use eheh::parser::Parser;

    #[test]
    fn parser_test_various_errors() {
        const CODE: &'static str = r#"
            fn x: number) -> void {
                x * 2
            }

            fn () -> {}

            if (true
            {
                
            }
        "#;

        let lexer = Lexer::new(CODE);
        let mut parser = Parser::new(lexer);
        let _program = parser.parse().unwrap();

        // unexpected token: `x` -> `(`
        // Unknown prefix token: the `}` of the function that did not parse
        // Missing return type
        // Delimiter mismatch (true -> missing `)`
        let error_codes: Vec<usize> = vec![1000, 1001, 1004, 1003];
        assert_eq!(parser.errors.len(), error_codes.len());
        for (index, code) in error_codes.iter().enumerate() {
            assert_eq!(parser.errors[index].code.id(), *code);
        }
    }

    #[test]
    fn runtime_test_various_errors() {}
