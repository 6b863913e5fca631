//! Binding strength of expressions: the levels, their order, and the level of
//! each infix operator.

use vstd::prelude::*;

verus! {

/// How tightly an expression holds its operands, from the loosest level to
/// the tightest. An expression of a tighter level can stand as an operand of
/// a looser one without parentheses.
#[derive(Clone, Copy, Debug, PartialEq, Eq, Hash)]
pub enum OperatorPrecedence {
    Comma,
    Yield,
    Assignment,
    Conditional,
    Coalesce,
    LogicalOr,
    LogicalAnd,
    BitwiseOr,
    BitwiseXor,
    BitwiseAnd,
    Equality,
    Relational,
    Shift,
    Additive,
    Multiplicative,
    Exponential,
    Unary,
    Update,
    /// `new` without an argument list.
    NewWithoutArguments,
    LeftHandSide,
    Member,
    Primary,
    /// An expression in parentheses.
    Group,
}

impl OperatorPrecedence {
    /// The position of the level in the order, counted from the loosest.
    pub open spec fn rank(self) -> int {
        match self {
            OperatorPrecedence::Comma => 0,
            OperatorPrecedence::Yield => 1,
            OperatorPrecedence::Assignment => 2,
            OperatorPrecedence::Conditional => 3,
            OperatorPrecedence::Coalesce => 4,
            OperatorPrecedence::LogicalOr => 5,
            OperatorPrecedence::LogicalAnd => 6,
            OperatorPrecedence::BitwiseOr => 7,
            OperatorPrecedence::BitwiseXor => 8,
            OperatorPrecedence::BitwiseAnd => 9,
            OperatorPrecedence::Equality => 10,
            OperatorPrecedence::Relational => 11,
            OperatorPrecedence::Shift => 12,
            OperatorPrecedence::Additive => 13,
            OperatorPrecedence::Multiplicative => 14,
            OperatorPrecedence::Exponential => 15,
            OperatorPrecedence::Unary => 16,
            OperatorPrecedence::Update => 17,
            OperatorPrecedence::NewWithoutArguments => 18,
            OperatorPrecedence::LeftHandSide => 19,
            OperatorPrecedence::Member => 20,
            OperatorPrecedence::Primary => 21,
            OperatorPrecedence::Group => 22,
        }
    }

    /// Whether operators of this level group from the right: `a ** b ** c`
    /// reads as `a ** (b ** c)`. Among the infix operators only the
    /// exponential level does.
    pub open spec fn right_associative(self) -> bool {
        self is Exponential
    }

    /// The level that binds loosest.
    pub fn lowest() -> (level: OperatorPrecedence)
        ensures
            level == OperatorPrecedence::Comma,
            forall|other: OperatorPrecedence| level.rank() <= other.rank(),
    {
        OperatorPrecedence::Comma
    }

    /// The level that binds tightest.
    pub fn highest() -> (level: OperatorPrecedence)
        ensures
            level == OperatorPrecedence::Group,
            forall|other: OperatorPrecedence| other.rank() <= level.rank(),
    {
        OperatorPrecedence::Group
    }

    /// The rank as a machine integer.
    pub fn level(self) -> (level: u8)
        ensures
            level == self.rank(),
    {
        match self {
            OperatorPrecedence::Comma => 0,
            OperatorPrecedence::Yield => 1,
            OperatorPrecedence::Assignment => 2,
            OperatorPrecedence::Conditional => 3,
            OperatorPrecedence::Coalesce => 4,
            OperatorPrecedence::LogicalOr => 5,
            OperatorPrecedence::LogicalAnd => 6,
            OperatorPrecedence::BitwiseOr => 7,
            OperatorPrecedence::BitwiseXor => 8,
            OperatorPrecedence::BitwiseAnd => 9,
            OperatorPrecedence::Equality => 10,
            OperatorPrecedence::Relational => 11,
            OperatorPrecedence::Shift => 12,
            OperatorPrecedence::Additive => 13,
            OperatorPrecedence::Multiplicative => 14,
            OperatorPrecedence::Exponential => 15,
            OperatorPrecedence::Unary => 16,
            OperatorPrecedence::Update => 17,
            OperatorPrecedence::NewWithoutArguments => 18,
            OperatorPrecedence::LeftHandSide => 19,
            OperatorPrecedence::Member => 20,
            OperatorPrecedence::Primary => 21,
            OperatorPrecedence::Group => 22,
        }
    }

    /// Whether this level binds strictly looser than `other`.
    pub fn looser_than(self, other: OperatorPrecedence) -> (looser: bool)
        ensures
            looser == (self.rank() < other.rank()),
    {
        self.level() < other.level()
    }

    /// Whether this level binds as tightly as `other` or tighter.
    pub fn at_least(self, other: OperatorPrecedence) -> (reached: bool)
        ensures
            reached == (self.rank() >= other.rank()),
    {
        self.level() >= other.level()
    }

    /// Whether operators of this level group from the right.
    pub fn is_right_associative(self) -> (right: bool)
        ensures
            right == self.right_associative(),
    {
        match self {
            OperatorPrecedence::Exponential => true,
            _ => false,
        }
    }
}

/// The levels are totally ordered by their rank: two levels of one rank are
/// the same level, and every rank lies between that of `Comma` and that of
/// `Group`.
pub proof fn lemma_rank_is_total_order(a: OperatorPrecedence, b: OperatorPrecedence)
    ensures
        a.rank() == b.rank() <==> a == b,
        a.rank() < b.rank() || a.rank() == b.rank() || b.rank() < a.rank(),
        0 <= a.rank() <= 22,
{
}

/// The arithmetic, relational, equality, shift and bitwise infix operators.
#[derive(Clone, Copy, Debug, PartialEq, Eq, Hash)]
pub enum BinaryOperator {
    LessThan,
    GreaterThan,
    LessThanOrEqual,
    GreaterThanOrEqual,
    Equality,
    StrictEquality,
    Inequality,
    StrictInequality,
    Plus,
    Minus,
    Times,
    Divide,
    Remainder,
    Exponent,
    LeftShift,
    RightShift,
    UnsignedRightShift,
    BitwiseAnd,
    BitwiseOr,
    BitwiseXor,
}

impl BinaryOperator {
    /// The level at which the operator binds.
    pub open spec fn spec_precedence(self) -> OperatorPrecedence {
        match self {
            BinaryOperator::LessThan
            | BinaryOperator::GreaterThan
            | BinaryOperator::LessThanOrEqual
            | BinaryOperator::GreaterThanOrEqual => OperatorPrecedence::Relational,
            BinaryOperator::Equality
            | BinaryOperator::StrictEquality
            | BinaryOperator::Inequality
            | BinaryOperator::StrictInequality => OperatorPrecedence::Equality,
            BinaryOperator::Plus | BinaryOperator::Minus => OperatorPrecedence::Additive,
            BinaryOperator::Times
            | BinaryOperator::Divide
            | BinaryOperator::Remainder => OperatorPrecedence::Multiplicative,
            BinaryOperator::Exponent => OperatorPrecedence::Exponential,
            BinaryOperator::LeftShift
            | BinaryOperator::RightShift
            | BinaryOperator::UnsignedRightShift => OperatorPrecedence::Shift,
            BinaryOperator::BitwiseAnd => OperatorPrecedence::BitwiseAnd,
            BinaryOperator::BitwiseOr => OperatorPrecedence::BitwiseOr,
            BinaryOperator::BitwiseXor => OperatorPrecedence::BitwiseXor,
        }
    }

    /// The level at which the operator binds.
    #[verifier::when_used_as_spec(spec_precedence)]
    pub fn precedence(self) -> (level: OperatorPrecedence)
        ensures
            level == self.spec_precedence(),
    {
        match self {
            BinaryOperator::LessThan
            | BinaryOperator::GreaterThan
            | BinaryOperator::LessThanOrEqual
            | BinaryOperator::GreaterThanOrEqual => OperatorPrecedence::Relational,
            BinaryOperator::Equality
            | BinaryOperator::StrictEquality
            | BinaryOperator::Inequality
            | BinaryOperator::StrictInequality => OperatorPrecedence::Equality,
            BinaryOperator::Plus | BinaryOperator::Minus => OperatorPrecedence::Additive,
            BinaryOperator::Times
            | BinaryOperator::Divide
            | BinaryOperator::Remainder => OperatorPrecedence::Multiplicative,
            BinaryOperator::Exponent => OperatorPrecedence::Exponential,
            BinaryOperator::LeftShift
            | BinaryOperator::RightShift
            | BinaryOperator::UnsignedRightShift => OperatorPrecedence::Shift,
            BinaryOperator::BitwiseAnd => OperatorPrecedence::BitwiseAnd,
            BinaryOperator::BitwiseOr => OperatorPrecedence::BitwiseOr,
            BinaryOperator::BitwiseXor => OperatorPrecedence::BitwiseXor,
        }
    }

    /// Whether this is the exponentiation operator `**`.
    pub fn is_exponent(self) -> (yes: bool)
        ensures
            yes == (self is Exponent),
    {
        match self {
            BinaryOperator::Exponent => true,
            _ => false,
        }
    }
}

/// The short-circuiting infix operators.
#[derive(Clone, Copy, Debug, PartialEq, Eq, Hash)]
pub enum LogicalOperator {
    NullishCoalescing,
    LogicalOr,
    LogicalAnd,
}

impl LogicalOperator {
    /// The level at which the operator binds.
    pub open spec fn spec_precedence(self) -> OperatorPrecedence {
        match self {
            LogicalOperator::NullishCoalescing => OperatorPrecedence::Coalesce,
            LogicalOperator::LogicalOr => OperatorPrecedence::LogicalOr,
            LogicalOperator::LogicalAnd => OperatorPrecedence::LogicalAnd,
        }
    }

    /// The level at which the operator binds.
    #[verifier::when_used_as_spec(spec_precedence)]
    pub fn precedence(self) -> (level: OperatorPrecedence)
        ensures
            level == self.spec_precedence(),
    {
        match self {
            LogicalOperator::NullishCoalescing => OperatorPrecedence::Coalesce,
            LogicalOperator::LogicalOr => OperatorPrecedence::LogicalOr,
            LogicalOperator::LogicalAnd => OperatorPrecedence::LogicalAnd,
        }
    }
}

} // verus!
