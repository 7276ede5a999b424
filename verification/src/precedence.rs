//! Binding strengths of the operators.

use vstd::prelude::*;
use crate::token::TokenType;

verus! {

/// How tightly an operator binds; later variants bind tighter.
#[derive(Debug, Clone, Copy, PartialEq, Eq, Structural)]
pub enum Precedence {
    LOWEST,
    RANGE,
    OR,
    AND,
    EQ,
    LGT,
    BITWISE,
    SUM,
    PRODUCT,
    EXPONENT,
    CAST,
    PREFIX,
    FieldAccess,
    CALL,
    PATH,
}

impl Precedence {
    /// The place of the level on the ladder, from zero for the lowest.
    pub open spec fn spec_rank(self) -> nat {
        match self {
            Precedence::LOWEST => 0,
            Precedence::RANGE => 1,
            Precedence::OR => 2,
            Precedence::AND => 3,
            Precedence::EQ => 4,
            Precedence::LGT => 5,
            Precedence::BITWISE => 6,
            Precedence::SUM => 7,
            Precedence::PRODUCT => 8,
            Precedence::EXPONENT => 9,
            Precedence::CAST => 10,
            Precedence::PREFIX => 11,
            Precedence::FieldAccess => 12,
            Precedence::CALL => 13,
            Precedence::PATH => 14,
        }
    }

    /// The level at which a token binds as an operator; the lowest for a
    /// token that is none.
    pub open spec fn spec_from_token_type(t: TokenType) -> Precedence {
        match t {
            TokenType::EQ | TokenType::NEQ => Precedence::EQ,
            TokenType::AND => Precedence::AND,
            TokenType::OR => Precedence::OR,
            TokenType::LT | TokenType::GT | TokenType::LTE | TokenType::GTE => Precedence::LGT,
            TokenType::LSHIFT | TokenType::RSHIFT => Precedence::BITWISE,
            TokenType::IRANGE | TokenType::RANGE => Precedence::RANGE,
            TokenType::PLUS | TokenType::MINUS => Precedence::SUM,
            TokenType::ASTERISK | TokenType::FORWARDSLASH | TokenType::PERCENT => Precedence::PRODUCT,
            TokenType::EXPONENT | TokenType::DASTERISK => Precedence::EXPONENT,
            TokenType::INCR | TokenType::DECR | TokenType::BANG => Precedence::PREFIX,
            TokenType::LPAREN => Precedence::CALL,
            _ => Precedence::LOWEST,
        }
    }

    /// The place of the level on the ladder, from zero for the lowest.
    pub fn rank(&self) -> (r: u8)
        ensures
            r == self.spec_rank(),
    {
        match self {
            Precedence::LOWEST => 0,
            Precedence::RANGE => 1,
            Precedence::OR => 2,
            Precedence::AND => 3,
            Precedence::EQ => 4,
            Precedence::LGT => 5,
            Precedence::BITWISE => 6,
            Precedence::SUM => 7,
            Precedence::PRODUCT => 8,
            Precedence::EXPONENT => 9,
            Precedence::CAST => 10,
            Precedence::PREFIX => 11,
            Precedence::FieldAccess => 12,
            Precedence::CALL => 13,
            Precedence::PATH => 14,
        }
    }

    /// The level at which a token binds as an operator; the lowest for a
    /// token that is none.
    pub fn from_token_type(t: &TokenType) -> (r: Self)
        ensures
            r == Self::spec_from_token_type(*t),
    {
        match t {
            TokenType::EQ | TokenType::NEQ => Precedence::EQ,
            TokenType::AND => Precedence::AND,
            TokenType::OR => Precedence::OR,
            TokenType::LT | TokenType::GT | TokenType::LTE | TokenType::GTE => Precedence::LGT,
            TokenType::LSHIFT | TokenType::RSHIFT => Precedence::BITWISE,
            TokenType::IRANGE | TokenType::RANGE => Precedence::RANGE,
            TokenType::PLUS | TokenType::MINUS => Precedence::SUM,
            TokenType::ASTERISK | TokenType::FORWARDSLASH | TokenType::PERCENT => Precedence::PRODUCT,
            TokenType::EXPONENT | TokenType::DASTERISK => Precedence::EXPONENT,
            TokenType::INCR | TokenType::DECR | TokenType::BANG => Precedence::PREFIX,
            TokenType::LPAREN => Precedence::CALL,
            _ => Precedence::LOWEST,
        }
    }
}

} // verus!
