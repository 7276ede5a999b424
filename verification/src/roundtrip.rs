//! Printing and parsing again. Where the tokens of a source spell the
//! printed form of a program, the parser reports no error and gives a
//! program of the same shape: the same statements, nesting, names,
//! operators and literal values.
//!
//! This is shown for programs of declarations, `return` statements and
//! expression statements whose expressions are made of names, literals,
//! operators and calls. "Spell" is meant of tokens: the lemmas start from
//! the tokens that the printed text stands for, one token for each name,
//! literal, operator, keyword and delimiter that the printer writes.

use vstd::prelude::*;
use crate::ast::{ExpressionView, ProgramView, StatementView};
use crate::grammar::{
    spec_has_prefix, spec_identifier, spec_initial_state, spec_is_infix, spec_parse_call_arguments,
    spec_parse_declare_statement, spec_parse_expression, spec_parse_expression_statement,
    spec_parse_grouped_expression, spec_parse_infix, spec_parse_more_arguments,
    spec_parse_operators, spec_parse_prefix, spec_parse_prefix_expression, spec_parse_program,
    spec_parse_return_statement, spec_parse_statement, spec_parse_type_specifier, ParserState,
    Source,
};
use crate::precedence::Precedence;
use crate::printer::{
    expression_text, expressions_text, program_text, statement_end, statement_text,
    statements_text,
};
use crate::text::spec_parse_decimal;
use crate::token::{KeywordTokenType, TokenType};

verus! {

/// Whether a token of the kind is a prefix operator.
pub open spec fn spec_prefix_operator(t: TokenType) -> bool {
    match t {
        TokenType::INCR
        | TokenType::DECR
        | TokenType::BANG
        | TokenType::MINUS
        | TokenType::RANGE
        | TokenType::IRANGE => true,
        _ => false,
    }
}

/// Whether a token of the kind is a binary operator.
pub open spec fn spec_binary_operator(t: TokenType) -> bool {
    spec_is_infix(t) && t != TokenType::LPAREN
}

/// Whether a token of the kind is one of the keywords of a declaration.
pub open spec fn spec_declares(t: TokenType) -> bool {
    t == TokenType::KEYWORD(KeywordTokenType::LET) || t == TokenType::KEYWORD(
        KeywordTokenType::CONST,
    ) || t == TokenType::KEYWORD(KeywordTokenType::VAR)
}

/// Whether a token of the kind ends an expression that stands before it:
/// a `;`, or a token that binds nothing.
pub open spec fn spec_ends_expression(t: TokenType) -> bool {
    t == TokenType::SEMICOLON || Precedence::spec_from_token_type(t).spec_rank() == 0
}

/// Whether two expressions made of names, literals, operators and calls are
/// the same but for their tokens: the same nesting, names, operators and
/// literal values.
pub open spec fn spec_same_shape(a: ExpressionView, b: ExpressionView) -> bool
    decreases a, 0nat,
{
    match (a, b) {
        (ExpressionView::Identifier(x), ExpressionView::Identifier(y)) => x.value == y.value,
        (ExpressionView::IntegerLiteral(x), ExpressionView::IntegerLiteral(y)) => x.value
            == y.value,
        (ExpressionView::Boolean(x), ExpressionView::Boolean(y)) => x.value == y.value,
        (ExpressionView::Null(_), ExpressionView::Null(_)) => true,
        (ExpressionView::StringLiteral(x), ExpressionView::StringLiteral(y)) => x.content
            == y.content,
        (
            ExpressionView::Prefix { operator: op_a, rhs: rhs_a, .. },
            ExpressionView::Prefix { operator: op_b, rhs: rhs_b, .. },
        ) => op_a == op_b && spec_same_shape(*rhs_a, *rhs_b),
        (
            ExpressionView::Infix { lhs: lhs_a, operator: op_a, rhs: rhs_a, .. },
            ExpressionView::Infix { lhs: lhs_b, operator: op_b, rhs: rhs_b, .. },
        ) => op_a == op_b && spec_same_shape(*lhs_a, *lhs_b) && spec_same_shape(*rhs_a, *rhs_b),
        (
            ExpressionView::Call { function: f_a, args: args_a, .. },
            ExpressionView::Call { function: f_b, args: args_b, .. },
        ) => spec_same_shape(*f_a, *f_b) && spec_same_shapes(args_a, args_b, 0),
        _ => false,
    }
}

/// Whether the expressions from the `i`-th on are of the same shape, one by
/// one.
pub open spec fn spec_same_shapes(a: Seq<ExpressionView>, b: Seq<ExpressionView>, i: nat) -> bool
    decreases a, a.len() - i,
{
    a.len() == b.len() && (i >= a.len() || (spec_same_shape(a[i as int], b[i as int])
        && spec_same_shapes(a, b, i + 1)))
}

/// Whether two statements are the same but for the places of their tokens.
pub open spec fn spec_same_statement_shape(a: StatementView, b: StatementView) -> bool {
    match (a, b) {
        (
            StatementView::Expression { expression: e_a, .. },
            StatementView::Expression { expression: e_b, .. },
        ) => spec_same_shape(e_a, e_b),
        (
            StatementView::Declare { token: t_a, name: n_a, type_specifier: s_a, value: v_a },
            StatementView::Declare { token: t_b, name: n_b, type_specifier: s_b, value: v_b },
        ) => t_a.literal == t_b.literal && n_a.value == n_b.value && n_a.token.literal
            == n_b.token.literal && s_a == s_b && match (v_a, v_b) {
            (Some(x), Some(y)) => spec_same_shape(x, y),
            (None, None) => true,
            _ => false,
        },
        (StatementView::Return { value: v_a, .. }, StatementView::Return { value: v_b, .. }) => {
            match (v_a, v_b) {
                (Some(x), Some(y)) => spec_same_shape(x, y),
                (None, None) => true,
                _ => false,
            }
        },
        _ => false,
    }
}

/// Where the tokens from `position` on spell the printed form of the
/// expression, the position of the last of them. A name and a literal are
/// one token; an operator with its operands stands between parentheses; the
/// arguments of a call stand between parentheses behind the callee, with
/// commas between them.
pub open spec fn spec_spelled_at(src: Source, position: nat, e: ExpressionView) -> Option<nat>
    decreases e, 0nat,
{
    let first = src.at(position);
    match e {
        ExpressionView::Identifier(node) => if first.t == TokenType::IDENT && first.literal
            == node.value {
            Some(position)
        } else {
            None
        },
        ExpressionView::IntegerLiteral(node) => if first.t == TokenType::INT && spec_parse_decimal(
            first.literal,
        ) == Some(node.value) {
            Some(position)
        } else {
            None
        },
        ExpressionView::Boolean(node) => if (first.t == TokenType::KEYWORD(KeywordTokenType::TRUE)
            || first.t == TokenType::KEYWORD(KeywordTokenType::FALSE)) && (first.literal
            == "true"@) == node.value {
            Some(position)
        } else {
            None
        },
        ExpressionView::Null(_) => if first.t == TokenType::KEYWORD(KeywordTokenType::NULL) {
            Some(position)
        } else {
            None
        },
        ExpressionView::StringLiteral(node) => if first.t == TokenType::STRING && first.literal
            == node.content {
            Some(position)
        } else {
            None
        },
        ExpressionView::Prefix { operator, rhs, .. } => {
            if first.t == TokenType::LPAREN && spec_prefix_operator(src.at(position + 1).t)
                && src.at(position + 1).literal == operator {
                match spec_spelled_at(src, position + 2, *rhs) {
                    Some(end) => if src.at(end + 1).t == TokenType::RPAREN {
                        Some(end + 1)
                    } else {
                        None
                    },
                    None => None,
                }
            } else {
                None
            }
        },
        ExpressionView::Infix { lhs, operator, rhs, .. } => {
            if first.t == TokenType::LPAREN {
                match spec_spelled_at(src, position + 1, *lhs) {
                    Some(middle) => if spec_binary_operator(src.at(middle + 1).t) && src.at(
                        middle + 1,
                    ).literal == operator {
                        match spec_spelled_at(src, middle + 2, *rhs) {
                            Some(end) => if src.at(end + 1).t == TokenType::RPAREN {
                                Some(end + 1)
                            } else {
                                None
                            },
                            None => None,
                        }
                    } else {
                        None
                    },
                    None => None,
                }
            } else {
                None
            }
        },
        ExpressionView::Call { function, args, .. } => {
            match spec_spelled_at(src, position, *function) {
                Some(callee) => if src.at(callee + 1).t != TokenType::LPAREN {
                    None
                } else if args.len() == 0 {
                    if src.at(callee + 2).t == TokenType::RPAREN {
                        Some(callee + 2)
                    } else {
                        None
                    }
                } else {
                    match spec_spelled_at(src, callee + 2, args[0]) {
                        Some(first_end) => spec_arguments_spelled_at(src, first_end, args, 1),
                        None => None,
                    }
                },
                None => None,
            }
        },
        _ => None,
    }
}

/// Where the tokens behind `position`, the last token of the argument
/// before, spell the arguments from the `i`-th on, each behind a comma, and
/// the `)`: the position of the `)`.
pub open spec fn spec_arguments_spelled_at(
    src: Source,
    position: nat,
    args: Seq<ExpressionView>,
    i: nat,
) -> Option<nat>
    decreases args, args.len() - i,
{
    if i >= args.len() {
        if src.at(position + 1).t == TokenType::RPAREN {
            Some(position + 1)
        } else {
            None
        }
    } else if src.at(position + 1).t == TokenType::COMMA {
        match spec_spelled_at(src, position + 2, args[i as int]) {
            Some(end) => spec_arguments_spelled_at(src, end, args, i + 1),
            None => None,
        }
    } else {
        None
    }
}

/// What the parser gives for tokens that spell an expression: the
/// expression and the state behind it.
pub struct Reparsed {
    pub value: ExpressionView,
    pub state: ParserState,
}

/// Whether `r` is what the parser gives for the tokens that spell `e` from
/// the state on: it takes exactly those tokens as one operand, reports no
/// error, and gives an expression of the same shape as `e`.
pub open spec fn spec_reparsed(
    src: Source,
    state: ParserState,
    e: ExpressionView,
    precedence: Precedence,
    r: Reparsed,
) -> bool {
    &&& Some(r.state.position) == spec_spelled_at(src, state.position, e)
    &&& r.state.position >= state.position
    &&& r.state.errors == state.errors
    &&& src.at(r.state.position).t != TokenType::EOF
    &&& spec_has_prefix(src.at(state.position).t)
    &&& spec_same_shape(r.value, e)
    &&& spec_parse_expression(src, state, precedence) == spec_parse_operators(
        src,
        r.state,
        precedence,
        r.value,
    )
}

/// Round trip for expressions made of names, literals, operators and calls:
/// where the tokens from the current one on spell the printed form of `e`,
/// the parser takes exactly those tokens as one operand, reports no error,
/// and gives an expression of the same shape as `e`; and where a token that
/// ends an expression follows, that is the whole expression.
pub proof fn lemma_spelled_expression_parses(
    src: Source,
    state: ParserState,
    e: ExpressionView,
    precedence: Precedence,
) -> (r: Reparsed)
    requires
        spec_spelled_at(src, state.position, e) is Some,
        precedence.spec_rank() < Precedence::CALL.spec_rank(),
    ensures
        spec_reparsed(src, state, e, precedence, r),
        spec_ends_expression(src.at(r.state.position + 1).t) ==> spec_parse_expression(
            src,
            state,
            precedence,
        ).state == r.state && spec_parse_expression(src, state, precedence).result == Ok::<
            ExpressionView,
            crate::diagnostics::ParserErrorView,
        >(r.value),
    decreases e, 1nat,
{
    let r = match e {
        ExpressionView::Prefix { .. } => lemma_spelled_prefix_parses(src, state, e, precedence),
        ExpressionView::Infix { .. } => lemma_spelled_infix_parses(src, state, e, precedence),
        ExpressionView::Call { .. } => lemma_spelled_call_parses(src, state, e, precedence),
        _ => lemma_spelled_atom_parses(src, state, e, precedence),
    };
    assert(src.peek(r.state) == src.at(r.state.position + 1));
    reveal_with_fuel(spec_parse_operators, 1);
    r
}

/// Round trip for a name and for a literal.
pub proof fn lemma_spelled_atom_parses(
    src: Source,
    state: ParserState,
    e: ExpressionView,
    precedence: Precedence,
) -> (r: Reparsed)
    requires
        spec_spelled_at(src, state.position, e) is Some,
        !(e is Prefix),
        !(e is Infix),
        !(e is Call),
    ensures
        spec_reparsed(src, state, e, precedence, r),
{
    reveal_with_fuel(spec_parse_prefix, 1);
    reveal_with_fuel(spec_parse_expression, 1);
    reveal_with_fuel(spec_parse_operators, 1);
    Reparsed { value: spec_parse_prefix(src, state).result->Ok_0, state }
}

/// Round trip for a prefix operator with its operand.
pub proof fn lemma_spelled_prefix_parses(
    src: Source,
    state: ParserState,
    e: ExpressionView,
    precedence: Precedence,
) -> (r: Reparsed)
    requires
        spec_spelled_at(src, state.position, e) is Some,
        e is Prefix,
    ensures
        spec_reparsed(src, state, e, precedence, r),
    decreases e, 0nat,
{
    reveal_with_fuel(spec_parse_prefix, 1);
    reveal_with_fuel(spec_parse_expression, 1);
    reveal_with_fuel(spec_parse_operators, 1);
    reveal_with_fuel(spec_parse_grouped_expression, 1);
    reveal_with_fuel(spec_parse_prefix_expression, 1);
    let position = state.position;
    match e {
        ExpressionView::Prefix { operator, rhs, .. } => {
            let at_operator = ParserState { position: position + 1, ..state };
            let at_operand = ParserState { position: position + 2, ..state };
            assert(src.advance(state) == at_operator);
            assert(src.advance(at_operator) == at_operand);
            let operand = lemma_spelled_expression_parses(src, at_operand, *rhs, Precedence::PREFIX);
            let behind = operand.state;
            assert(src.peek(behind) == src.at(behind.position + 1));
            let negated = spec_parse_prefix_expression(src, at_operator);
            assert(negated.state == behind);
            assert(negated.result is Ok);
            assert(spec_parse_prefix(src, at_operator) == negated);
            assert(spec_parse_expression(src, at_operator, Precedence::LOWEST) == negated);
            let after = ParserState { position: behind.position + 1, ..behind };
            assert(src.advance(behind) == after);
            Reparsed { value: negated.result->Ok_0, state: after }
        },
        _ => Reparsed { value: e, state },
    }
}

/// Round trip for a binary operator with its operands.
pub proof fn lemma_spelled_infix_parses(
    src: Source,
    state: ParserState,
    e: ExpressionView,
    precedence: Precedence,
) -> (r: Reparsed)
    requires
        spec_spelled_at(src, state.position, e) is Some,
        e is Infix,
    ensures
        spec_reparsed(src, state, e, precedence, r),
    decreases e, 0nat,
{
    reveal_with_fuel(spec_parse_prefix, 1);
    reveal_with_fuel(spec_parse_expression, 1);
    reveal_with_fuel(spec_parse_operators, 1);
    reveal_with_fuel(spec_parse_grouped_expression, 1);
    reveal_with_fuel(spec_parse_infix, 1);
    let position = state.position;
    match e {
        ExpressionView::Infix { lhs, operator, rhs, .. } => {
            let at_left = ParserState { position: position + 1, ..state };
            assert(src.advance(state) == at_left);
            let left = lemma_spelled_expression_parses(src, at_left, *lhs, Precedence::LOWEST);
            let behind_left = left.state;
            let middle = behind_left.position;
            let at_operator = ParserState { position: middle + 1, ..behind_left };
            let at_right = ParserState { position: middle + 2, ..behind_left };
            assert(src.peek(behind_left) == src.at(middle + 1));
            assert(src.advance(behind_left) == at_operator);
            assert(src.advance(at_operator) == at_right);
            let binding = Precedence::spec_from_token_type(src.at(middle + 1).t);
            assert(0 < binding.spec_rank() < Precedence::CALL.spec_rank());
            let right = lemma_spelled_expression_parses(src, at_right, *rhs, binding);
            let behind = right.state;
            assert(src.peek(behind) == src.at(behind.position + 1));
            let joined = spec_parse_infix(src, at_operator, left.value);
            assert(joined.state == behind);
            assert(joined.result is Ok);
            assert(spec_parse_operators(src, behind, Precedence::LOWEST, joined.result->Ok_0)
                == joined);
            assert(spec_parse_operators(src, behind_left, Precedence::LOWEST, left.value)
                == joined);
            assert(spec_parse_expression(src, at_left, Precedence::LOWEST) == joined);
            let after = ParserState { position: behind.position + 1, ..behind };
            assert(src.advance(behind) == after);
            Reparsed { value: joined.result->Ok_0, state: after }
        },
        _ => Reparsed { value: e, state },
    }
}

/// Round trip for a call: the callee and the arguments.
pub proof fn lemma_spelled_call_parses(
    src: Source,
    state: ParserState,
    e: ExpressionView,
    precedence: Precedence,
) -> (r: Reparsed)
    requires
        spec_spelled_at(src, state.position, e) is Some,
        e is Call,
        precedence.spec_rank() < Precedence::CALL.spec_rank(),
    ensures
        spec_reparsed(src, state, e, precedence, r),
    decreases e, 0nat,
{
    reveal_with_fuel(spec_parse_expression, 1);
    reveal_with_fuel(spec_parse_operators, 1);
    reveal_with_fuel(spec_parse_infix, 1);
    reveal_with_fuel(spec_parse_call_arguments, 1);
    reveal_with_fuel(spec_parse_more_arguments, 1);
    match e {
        ExpressionView::Call { function, args, .. } => {
            let callee = lemma_spelled_expression_parses(src, state, *function, precedence);
            let behind_callee = callee.state;
            let at_paren = ParserState { position: behind_callee.position + 1, ..behind_callee };
            assert(src.peek(behind_callee) == src.at(behind_callee.position + 1));
            assert(src.advance(behind_callee) == at_paren);
            assert(src.peek(at_paren) == src.at(at_paren.position + 1));
            let token = src.at(at_paren.position);
            if args.len() == 0 {
                let after = ParserState { position: at_paren.position + 1, ..at_paren };
                assert(src.advance(at_paren) == after);
                let value = ExpressionView::Call {
                    token,
                    function: Box::new(callee.value),
                    args: Seq::empty(),
                };
                assert(spec_parse_call_arguments(src, at_paren).state == after);
                assert(spec_parse_infix(src, at_paren, callee.value).state == after);
                assert(spec_parse_infix(src, at_paren, callee.value).result == Ok::<
                    ExpressionView,
                    crate::diagnostics::ParserErrorView,
                >(value));
                assert(spec_same_shapes(Seq::<ExpressionView>::empty(), args, 0));
                Reparsed { value, state: after }
            } else {
                let at_first = ParserState { position: at_paren.position + 1, ..at_paren };
                assert(src.advance(at_paren) == at_first);
                let first = lemma_spelled_expression_parses(
                    src,
                    at_first,
                    args[0],
                    Precedence::LOWEST,
                );
                lemma_arguments_end_expression(src, first.state.position, args, 1);
                let rest = lemma_spelled_arguments_parse(
                    src,
                    first.state,
                    args,
                    1,
                    seq![first.value],
                );
                let value = ExpressionView::Call {
                    token,
                    function: Box::new(callee.value),
                    args: rest.values,
                };
                assert(spec_parse_call_arguments(src, at_paren).state == rest.state);
                assert(spec_parse_infix(src, at_paren, callee.value).state == rest.state);
                assert(spec_parse_infix(src, at_paren, callee.value).result == Ok::<
                    ExpressionView,
                    crate::diagnostics::ParserErrorView,
                >(value));
                Reparsed { value, state: rest.state }
            }
        },
        _ => Reparsed { value: e, state },
    }
}

/// Behind an argument stands a comma or the closing parenthesis: a token
/// that ends an expression.
pub proof fn lemma_arguments_end_expression(
    src: Source,
    position: nat,
    args: Seq<ExpressionView>,
    i: nat,
)
    requires
        spec_arguments_spelled_at(src, position, args, i) is Some,
    ensures
        spec_ends_expression(src.at(position + 1).t),
{
}

/// What the parser gives for tokens that spell arguments: the arguments and
/// the state on the closing parenthesis.
pub struct ReparsedArguments {
    pub values: Seq<ExpressionView>,
    pub state: ParserState,
}

/// Round trip for the arguments of a call from the `i`-th on, behind those
/// already parsed.
pub proof fn lemma_spelled_arguments_parse(
    src: Source,
    state: ParserState,
    args: Seq<ExpressionView>,
    i: nat,
    parsed: Seq<ExpressionView>,
) -> (r: ReparsedArguments)
    requires
        spec_arguments_spelled_at(src, state.position, args, i) is Some,
        src.at(state.position).t != TokenType::EOF,
        1 <= i <= args.len(),
        parsed.len() == i,
        forall|j: int| 0 <= j < i ==> spec_same_shape(#[trigger] parsed[j], args[j]),
    ensures
        r.state.position == spec_arguments_spelled_at(src, state.position, args, i)->0,
        r.state.position > state.position,
        r.state.errors == state.errors,
        src.at(r.state.position).t == TokenType::RPAREN,
        spec_parse_more_arguments(src, state, parsed).state == r.state,
        spec_parse_more_arguments(src, state, parsed).result == Ok::<
            Seq<ExpressionView>,
            crate::diagnostics::ParserErrorView,
        >(r.values),
        r.values.len() == args.len(),
        forall|j: int| 0 <= j < args.len() ==> spec_same_shape(#[trigger] r.values[j], args[j]),
        spec_same_shapes(r.values, args, 0),
    decreases args, args.len() - i,
{
    reveal_with_fuel(spec_parse_more_arguments, 1);
    reveal_with_fuel(spec_parse_expression, 1);
    assert(src.peek(state) == src.at(state.position + 1));
    if i >= args.len() {
        let after = ParserState { position: state.position + 1, ..state };
        assert(src.advance(state) == after);
        lemma_same_shapes_from(parsed, args, 0);
        ReparsedArguments { values: parsed, state: after }
    } else {
        let at_comma = ParserState { position: state.position + 1, ..state };
        let at_next = ParserState { position: state.position + 2, ..state };
        assert(src.advance(state) == at_comma);
        assert(src.advance(at_comma) == at_next);
        let next = lemma_spelled_expression_parses(
            src,
            at_next,
            args[i as int],
            Precedence::LOWEST,
        );
        lemma_arguments_end_expression(src, next.state.position, args, i + 1);
        let longer = parsed.push(next.value);
        assert forall|j: int| 0 <= j < i + 1 implies spec_same_shape(
            #[trigger] longer[j],
            args[j],
        ) by {
            if j < i {
                assert(longer[j] == parsed[j]);
            }
        }
        lemma_spelled_arguments_parse(src, next.state, args, i + 1, longer)
    }
}

/// Expressions that are of the same shape one by one are so from any index
/// on.
pub proof fn lemma_same_shapes_from(a: Seq<ExpressionView>, b: Seq<ExpressionView>, i: nat)
    requires
        a.len() == b.len(),
        forall|j: int| 0 <= j < a.len() ==> spec_same_shape(#[trigger] a[j], b[j]),
    ensures
        spec_same_shapes(a, b, i),
    decreases a.len() - i,
{
    if i < a.len() {
        lemma_same_shapes_from(a, b, i + 1);
    }
}


/// Where the tokens from `position` on spell the printed form of the
/// statement, the position of the last of them; for a declaration and a
/// `return` that is their `;`. (Blocks and the expressions that hold
/// blocks, `if` and function literals, are not covered.)
pub open spec fn spec_statement_spelled_at(src: Source, position: nat, s: StatementView) -> Option<
    nat,
> {
    match s {
        StatementView::Expression { expression, .. } => spec_spelled_at(src, position, expression),
        StatementView::Declare { token, name, type_specifier, value } => {
            let named = match type_specifier {
                Some(_) => position + 3,
                None => position + 1,
            };
            let typed = match type_specifier {
                Some(t) => src.at(position + 2).t == TokenType::COLON && src.at(position + 3).t
                    == TokenType::IDENT && src.at(position + 3).literal == t,
                None => true,
            };
            if spec_declares(src.at(position).t) && src.at(position).literal == token.literal
                && src.at(position + 1).t == TokenType::IDENT && src.at(position + 1).literal
                == name.value && name.token.literal == name.value && typed {
                match value {
                    Some(v) => if src.at(named + 1).t == TokenType::ASSIGN {
                        match spec_spelled_at(src, named + 2, v) {
                            Some(end) => if src.at(end + 1).t == TokenType::SEMICOLON {
                                Some(end + 1)
                            } else {
                                None
                            },
                            None => None,
                        }
                    } else {
                        None
                    },
                    None => if src.at(named + 1).t == TokenType::SEMICOLON {
                        Some(named + 1)
                    } else {
                        None
                    },
                }
            } else {
                None
            }
        },
        StatementView::Return { value, .. } => {
            if src.at(position).t == TokenType::KEYWORD(KeywordTokenType::RETURN) {
                match value {
                    Some(v) => match spec_spelled_at(src, position + 1, v) {
                        Some(end) => if src.at(end + 1).t == TokenType::SEMICOLON {
                            Some(end + 1)
                        } else {
                            None
                        },
                        None => None,
                    },
                    None => if src.at(position + 1).t == TokenType::SEMICOLON {
                        Some(position + 1)
                    } else {
                        None
                    },
                }
            } else {
                None
            }
        },
        _ => None,
    }
}

/// Whether the tokens from `position` on spell the printed form of the
/// statements from the `i`-th on, up to the end of the input: an expression
/// statement is kept apart from the next statement by a `;`.
pub open spec fn spec_program_spelled_at(
    src: Source,
    position: nat,
    statements: Seq<StatementView>,
    i: nat,
) -> bool
    decreases statements.len() - i,
{
    if i >= statements.len() {
        src.at(position).t == TokenType::EOF
    } else {
        match spec_statement_spelled_at(src, position, statements[i as int]) {
            Some(end) => if statements[i as int] is Expression && i + 1 < statements.len() {
                src.at(end + 1).t == TokenType::SEMICOLON && spec_program_spelled_at(
                    src,
                    end + 2,
                    statements,
                    i + 1,
                )
            } else {
                spec_program_spelled_at(src, end + 1, statements, i + 1)
            },
            None => false,
        }
    }
}

/// What the parser gives for tokens that spell a statement: the statement
/// and the state behind it.
pub struct ReparsedStatement {
    pub value: StatementView,
    pub state: ParserState,
}

/// Round trip for a statement: where the tokens from the current one on
/// spell its printed form, and a token that ends an expression follows an
/// expression statement, the parser reports no error and gives a statement
/// of the same shape. It ends on the last token of the statement, or on the
/// `;` that follows an expression statement.
pub proof fn lemma_spelled_statement_parses(src: Source, state: ParserState, s: StatementView) -> (r:
    ReparsedStatement)
    requires
        spec_statement_spelled_at(src, state.position, s) is Some,
        s is Expression ==> spec_ends_expression(
            src.at(spec_statement_spelled_at(src, state.position, s)->0 + 1).t,
        ),
    ensures
        spec_parse_statement(src, state).state == r.state,
        spec_parse_statement(src, state).result == Ok::<
            StatementView,
            crate::diagnostics::ParserErrorView,
        >(r.value),
        spec_same_statement_shape(r.value, s),
        r.state.errors == state.errors,
        r.state.position >= state.position,
        r.state.position == spec_statement_spelled_at(src, state.position, s)->0 + if s
            is Expression && src.at(spec_statement_spelled_at(src, state.position, s)->0 + 1).t
            == TokenType::SEMICOLON {
            1nat
        } else {
            0nat
        },
        src.at(r.state.position).t != TokenType::EOF,
        src.at(state.position).t != TokenType::EOF,
        src.at(state.position).t != TokenType::SEMICOLON,
        src.at(state.position).t != TokenType::LBRACE,
{
    reveal_with_fuel(spec_parse_statement, 1);
    reveal_with_fuel(spec_parse_expression, 1);
    let position = state.position;
    match s {
        StatementView::Expression { expression, .. } => {
            reveal_with_fuel(spec_parse_expression_statement, 1);
            let parsed = lemma_spelled_expression_parses(
                src,
                state,
                expression,
                Precedence::LOWEST,
            );
            let behind = parsed.state;
            assert(src.peek(behind) == src.at(behind.position + 1));
            let value = StatementView::Expression { token: src.at(position), expression: parsed.value };
            if src.at(behind.position + 1).t == TokenType::SEMICOLON {
                let after = ParserState { position: behind.position + 1, ..behind };
                assert(src.advance(behind) == after);
                ReparsedStatement { value, state: after }
            } else {
                ReparsedStatement { value, state: behind }
            }
        },
        StatementView::Declare { token, name, type_specifier, value } => {
            reveal_with_fuel(spec_parse_declare_statement, 1);
            let at_name = ParserState { position: position + 1, ..state };
            assert(src.peek(state) == src.at(position + 1));
            assert(src.advance(state) == at_name);
            assert(src.peek(at_name) == src.at(position + 2));
            let named = match type_specifier {
                Some(_) => position + 3,
                None => position + 1,
            };
            let at_type = ParserState { position: named, ..state };
            match type_specifier {
                Some(_) => {
                    let at_colon = ParserState { position: position + 2, ..state };
                    assert(src.advance(at_name) == at_colon);
                    assert(src.peek(at_colon) == src.at(position + 3));
                    assert(src.advance(at_colon) == at_type);
                },
                None => {},
            }
            assert(spec_parse_type_specifier(src, at_name) == (at_type, type_specifier));
            assert(src.peek(at_type) == src.at(named + 1));
            let parsed_name = spec_identifier(src.at(position + 1));
            match value {
                Some(v) => {
                    let at_assign = ParserState { position: named + 1, ..state };
                    let at_value = ParserState { position: named + 2, ..state };
                    assert(src.advance(at_type) == at_assign);
                    assert(src.advance(at_assign) == at_value);
                    let parsed = lemma_spelled_expression_parses(
                        src,
                        at_value,
                        v,
                        Precedence::LOWEST,
                    );
                    let behind = parsed.state;
                    assert(src.peek(behind) == src.at(behind.position + 1));
                    let after = ParserState { position: behind.position + 1, ..behind };
                    assert(src.advance(behind) == after);
                    ReparsedStatement {
                        value: StatementView::Declare {
                            token: src.at(position),
                            name: parsed_name,
                            type_specifier,
                            value: Some(parsed.value),
                        },
                        state: after,
                    }
                },
                None => {
                    let after = ParserState { position: named + 1, ..state };
                    assert(src.advance(at_type) == after);
                    ReparsedStatement {
                        value: StatementView::Declare {
                            token: src.at(position),
                            name: parsed_name,
                            type_specifier,
                            value: None,
                        },
                        state: after,
                    }
                },
            }
        },
        StatementView::Return { value, .. } => {
            reveal_with_fuel(spec_parse_return_statement, 1);
            assert(src.peek(state) == src.at(position + 1));
            let at_value = ParserState { position: position + 1, ..state };
            assert(src.advance(state) == at_value);
            match value {
                Some(v) => {
                    let parsed = lemma_spelled_expression_parses(
                        src,
                        at_value,
                        v,
                        Precedence::LOWEST,
                    );
                    let behind = parsed.state;
                    assert(src.peek(behind) == src.at(behind.position + 1));
                    let after = ParserState { position: behind.position + 1, ..behind };
                    assert(src.advance(behind) == after);
                    ReparsedStatement {
                        value: StatementView::Return {
                            token: src.at(position),
                            value: Some(parsed.value),
                        },
                        state: after,
                    }
                },
                None => ReparsedStatement {
                    value: StatementView::Return { token: src.at(position), value: None },
                    state: at_value,
                },
            }
        },
        _ => ReparsedStatement { value: s, state },
    }
}

/// What the parser gives for tokens that spell a program: the statements
/// and the state at the end of the input.
pub struct ReparsedProgram {
    pub statements: Seq<StatementView>,
    pub state: ParserState,
}

/// Round trip for the statements of a program from the `i`-th on, behind
/// those already parsed.
pub proof fn lemma_spelled_statements_parse(
    src: Source,
    state: ParserState,
    statements: Seq<StatementView>,
    i: nat,
    parsed: Seq<StatementView>,
) -> (r: ReparsedProgram)
    requires
        spec_program_spelled_at(src, state.position, statements, i),
        i <= statements.len(),
        parsed.len() == i,
        forall|j: int| 0 <= j < i ==> spec_same_statement_shape(#[trigger] parsed[j], statements[j]),
    ensures
        spec_parse_program(src, state, parsed) == (r.state, r.statements),
        r.state.errors == state.errors,
        src.at(r.state.position).t == TokenType::EOF,
        r.statements.len() == statements.len(),
        forall|j: int|
            0 <= j < statements.len() ==> spec_same_statement_shape(
                #[trigger] r.statements[j],
                statements[j],
            ),
    decreases statements.len() - i,
{
    reveal_with_fuel(spec_parse_program, 1);
    reveal_with_fuel(spec_parse_statement, 1);
    if i >= statements.len() {
        ReparsedProgram { statements: parsed, state }
    } else {
        let s = statements[i as int];
        let end = spec_statement_spelled_at(src, state.position, s)->0;
        if s is Expression && i + 1 >= statements.len() {
            assert(spec_program_spelled_at(src, end + 1, statements, i + 1));
            assert(src.at(end + 1).t == TokenType::EOF);
        }
        let one = lemma_spelled_statement_parses(src, state, s);
        let behind = one.state;
        let next = ParserState { position: behind.position + 1, ..behind };
        assert(src.advance(behind) == next);
        let longer = parsed.push(one.value);
        assert forall|j: int| 0 <= j < i + 1 implies spec_same_statement_shape(
            #[trigger] longer[j],
            statements[j],
        ) by {
            if j < i {
                assert(longer[j] == parsed[j]);
            }
        }
        lemma_spelled_statements_parse(src, next, statements, i + 1, longer)
    }
}

/// Round trip: where the tokens of a source spell the printed form of a
/// program, parsing reports no error and gives statements of the same
/// shapes, one for one.
pub proof fn lemma_printed_program_parses(src: Source, program: ProgramView)
    requires
        spec_program_spelled_at(src, 0, program.statements, 0),
    ensures
        ({
            let (state, statements) = spec_parse_program(
                src,
                spec_initial_state(),
                Seq::empty(),
            );
            &&& state.errors == Seq::<crate::diagnostics::ParserErrorView>::empty()
            &&& statements.len() == program.statements.len()
            &&& forall|j: int|
                0 <= j < statements.len() ==> spec_same_statement_shape(
                    #[trigger] statements[j],
                    program.statements[j],
                )
        }),
{
    let r = lemma_spelled_statements_parse(
        src,
        spec_initial_state(),
        program.statements,
        0,
        Seq::empty(),
    );
}


/// Expressions that are of the same shape from an index on are so one by
/// one.
pub proof fn lemma_same_shapes_each(a: Seq<ExpressionView>, b: Seq<ExpressionView>, i: nat, j: int)
    requires
        spec_same_shapes(a, b, i),
        i <= j < a.len(),
    ensures
        spec_same_shape(a[j], b[j]),
    decreases a.len() - i,
{
    if i < j {
        lemma_same_shapes_each(a, b, i + 1, j);
    }
}

/// Expressions of the same shape print as the same text.
pub proof fn lemma_same_shape_same_text(a: ExpressionView, b: ExpressionView)
    requires
        spec_same_shape(a, b),
    ensures
        expression_text(a) == expression_text(b),
    decreases a, 0nat,
{
    match (a, b) {
        (
            ExpressionView::Prefix { rhs: rhs_a, .. },
            ExpressionView::Prefix { rhs: rhs_b, .. },
        ) => {
            lemma_same_shape_same_text(*rhs_a, *rhs_b);
        },
        (
            ExpressionView::Infix { lhs: lhs_a, rhs: rhs_a, .. },
            ExpressionView::Infix { lhs: lhs_b, rhs: rhs_b, .. },
        ) => {
            lemma_same_shape_same_text(*lhs_a, *lhs_b);
            lemma_same_shape_same_text(*rhs_a, *rhs_b);
        },
        (
            ExpressionView::Call { function: f_a, args: args_a, .. },
            ExpressionView::Call { function: f_b, args: args_b, .. },
        ) => {
            lemma_same_shape_same_text(*f_a, *f_b);
            assert(spec_same_shapes(args_a, args_b, 0));
            lemma_same_shapes_same_text(args_a, args_b, args_a.len());
            assert(args_a.subrange(0, args_a.len() as int) =~= args_a);
            assert(args_b.subrange(0, args_a.len() as int) =~= args_b);
        },
        _ => {},
    }
}

/// The first `n` of expressions that are of the same shape one by one print
/// as the same text.
pub proof fn lemma_same_shapes_same_text(a: Seq<ExpressionView>, b: Seq<ExpressionView>, n: nat)
    requires
        spec_same_shapes(a, b, 0),
        n <= a.len(),
    ensures
        expressions_text(a.subrange(0, n as int)) == expressions_text(b.subrange(0, n as int)),
    decreases a, n,
{
    if n > 0 {
        lemma_same_shapes_same_text(a, b, (n - 1) as nat);
        lemma_same_shapes_each(a, b, 0, n - 1);
        lemma_same_shape_same_text(a[n - 1], b[n - 1]);
        let first = a.subrange(0, n as int);
        let second = b.subrange(0, n as int);
        assert(first.drop_last() =~= a.subrange(0, n - 1));
        assert(second.drop_last() =~= b.subrange(0, n - 1));
        assert(first.last() == a[n - 1]);
        assert(second.last() == b[n - 1]);
        if n == 1 {
            assert(first[0] == a[0]);
            assert(second[0] == b[0]);
        }
    }
}

/// Statements of the same shape print as the same text and are kept apart
/// from the next statement in the same way.
pub proof fn lemma_same_statement_shape_same_text(a: StatementView, b: StatementView)
    requires
        spec_same_statement_shape(a, b),
    ensures
        statement_text(a) == statement_text(b),
        statement_end(a) == statement_end(b),
{
    match (a, b) {
        (
            StatementView::Expression { expression: e_a, .. },
            StatementView::Expression { expression: e_b, .. },
        ) => {
            lemma_same_shape_same_text(e_a, e_b);
        },
        (
            StatementView::Declare { value: v_a, .. },
            StatementView::Declare { value: v_b, .. },
        ) => {
            match (v_a, v_b) {
                (Some(x), Some(y)) => {
                    lemma_same_shape_same_text(x, y);
                },
                _ => {},
            }
        },
        (StatementView::Return { value: v_a, .. }, StatementView::Return { value: v_b, .. }) => {
            match (v_a, v_b) {
                (Some(x), Some(y)) => {
                    lemma_same_shape_same_text(x, y);
                },
                _ => {},
            }
        },
        _ => {},
    }
}

/// The first `n` of statements that are of the same shape one by one print
/// as the same text.
pub proof fn lemma_same_statement_shapes_same_text(
    a: Seq<StatementView>,
    b: Seq<StatementView>,
    n: nat,
)
    requires
        a.len() == b.len(),
        forall|j: int| 0 <= j < a.len() ==> spec_same_statement_shape(#[trigger] a[j], b[j]),
        n <= a.len(),
    ensures
        statements_text(a.subrange(0, n as int)) == statements_text(b.subrange(0, n as int)),
    decreases n,
{
    if n > 0 {
        lemma_same_statement_shapes_same_text(a, b, (n - 1) as nat);
        lemma_same_statement_shape_same_text(a[n - 1], b[n - 1]);
        let first = a.subrange(0, n as int);
        let second = b.subrange(0, n as int);
        assert(first.drop_last() =~= a.subrange(0, n - 1));
        assert(second.drop_last() =~= b.subrange(0, n - 1));
        assert(first.last() == a[n - 1]);
        assert(second.last() == b[n - 1]);
        if n == 1 {
            assert(first[0] == a[0]);
            assert(second[0] == b[0]);
        } else {
            lemma_same_statement_shape_same_text(a[n - 2], b[n - 2]);
            assert(first[n - 2] == a[n - 2]);
            assert(second[n - 2] == b[n - 2]);
        }
    }
}

/// Round trip, in terms of the printed text: the program that parsing
/// gives for tokens that spell the printed form of `program` prints as the
/// same text as `program`.
pub proof fn lemma_printed_program_prints_the_same(src: Source, program: ProgramView)
    requires
        spec_program_spelled_at(src, 0, program.statements, 0),
    ensures
        ({
            let (state, statements) = spec_parse_program(
                src,
                spec_initial_state(),
                Seq::empty(),
            );
            &&& state.errors == Seq::<crate::diagnostics::ParserErrorView>::empty()
            &&& program_text(ProgramView { statements }) == program_text(program)
        }),
{
    lemma_printed_program_parses(src, program);
    let (state, statements) = spec_parse_program(src, spec_initial_state(), Seq::empty());
    lemma_same_statement_shapes_same_text(statements, program.statements, statements.len());
    assert(statements.subrange(0, statements.len() as int) =~= statements);
    assert(program.statements.subrange(0, statements.len() as int) =~= program.statements);
}

} // verus!
