//! How an expression that is written without parentheses is read back: each
//! slot of a parent takes an expression as its child only if the expression
//! binds tightly enough. Against this reading the rewrite of the rule is
//! held.

use crate::parens::{
    spec_does_exponentiation_expression_need_parens, spec_does_expression_need_parens,
    spec_is_argument,
};
use crate::precedence::{BinaryOperator, OperatorPrecedence};
use crate::rule::{spec_fix, spec_operands, Edit, NewExpression, RuleContext};
use crate::syntax::{ExpressionKind, SyntaxKind, SyntaxTree};
use vstd::prelude::*;

verus! {

/// The loosest rank that the operand of an infix operator of this level may
/// have. An operator that groups from the left takes its own level on the
/// left and the next on the right. `**`, which groups from the right, takes
/// its own level on the right; on its left it takes an update expression or
/// tighter, since no unary expression may stand there.
pub open spec fn spec_operand_floor(level: OperatorPrecedence, slot: int) -> Option<int> {
    if slot == 0 {
        if level.right_associative() {
            Some(OperatorPrecedence::Update.rank())
        } else {
            Some(level.rank())
        }
    } else if slot == 1 {
        if level.right_associative() {
            Some(level.rank())
        } else {
            Some(level.rank() + 1)
        }
    } else {
        None
    }
}

/// The loosest rank that an expression may have to stand without
/// parentheses in a slot of an expression of this kind and be read back as
/// the child in that slot. There is none for a slot that the kind does not
/// have, and none where the operator of an infix expression is unknown.
pub open spec fn spec_slot_floor(kind: ExpressionKind, slot: int) -> Option<int> {
    if slot < 0 {
        None
    } else {
        match kind {
            ExpressionKind::Parenthesized => if slot == 0 {
                Some(OperatorPrecedence::Comma.rank())
            } else {
                None
            },
            ExpressionKind::Sequence => if slot == 0 {
                Some(OperatorPrecedence::Comma.rank())
            } else if slot == 1 {
                Some(OperatorPrecedence::Assignment.rank())
            } else {
                None
            },
            ExpressionKind::Yield => if slot == 0 {
                Some(OperatorPrecedence::Assignment.rank())
            } else {
                None
            },
            ExpressionKind::Conditional => if slot == 0 {
                Some(OperatorPrecedence::Coalesce.rank())
            } else if slot <= 2 {
                Some(OperatorPrecedence::Assignment.rank())
            } else {
                None
            },
            ExpressionKind::Assignment => if slot == 0 {
                Some(OperatorPrecedence::LeftHandSide.rank())
            } else if slot == 1 {
                Some(OperatorPrecedence::Assignment.rank())
            } else {
                None
            },
            ExpressionKind::In | ExpressionKind::Instanceof => spec_operand_floor(
                OperatorPrecedence::Relational,
                slot,
            ),
            ExpressionKind::As | ExpressionKind::Satisfies => if slot == 0 {
                Some(OperatorPrecedence::Relational.rank())
            } else {
                None
            },
            ExpressionKind::Logical(operator) => match operator {
                Some(operator) => spec_operand_floor(operator.spec_precedence(), slot),
                None => None,
            },
            ExpressionKind::Binary(operator) => match operator {
                Some(operator) => spec_operand_floor(operator.spec_precedence(), slot),
                None => None,
            },
            ExpressionKind::TypeAssertion
            | ExpressionKind::Unary
            | ExpressionKind::Await
            | ExpressionKind::PreUpdate => if slot == 0 {
                Some(OperatorPrecedence::Unary.rank())
            } else {
                None
            },
            ExpressionKind::PostUpdate
            | ExpressionKind::NonNullAssertion
            | ExpressionKind::Instantiation
            | ExpressionKind::StaticMember => if slot == 0 {
                Some(OperatorPrecedence::LeftHandSide.rank())
            } else {
                None
            },
            ExpressionKind::Call { .. } => if slot == 0 {
                Some(OperatorPrecedence::LeftHandSide.rank())
            } else {
                Some(OperatorPrecedence::Assignment.rank())
            },
            ExpressionKind::New { .. } => if slot == 0 {
                Some(OperatorPrecedence::Member.rank())
            } else {
                Some(OperatorPrecedence::Assignment.rank())
            },
            ExpressionKind::ImportCall
            | ExpressionKind::Array
            | ExpressionKind::Object
            | ExpressionKind::ArrowFunction
            | ExpressionKind::JsxTag => Some(OperatorPrecedence::Assignment.rank()),
            ExpressionKind::ComputedMember => if slot == 0 {
                Some(OperatorPrecedence::LeftHandSide.rank())
            } else if slot == 1 {
                Some(OperatorPrecedence::Comma.rank())
            } else {
                None
            },
            ExpressionKind::Template => if slot == 0 {
                Some(OperatorPrecedence::LeftHandSide.rank())
            } else {
                Some(OperatorPrecedence::Comma.rank())
            },
            ExpressionKind::Super
            | ExpressionKind::ImportMeta
            | ExpressionKind::NewTarget
            | ExpressionKind::This
            | ExpressionKind::Literal
            | ExpressionKind::StringLiteral
            | ExpressionKind::Class
            | ExpressionKind::Function
            | ExpressionKind::Identifier
            | ExpressionKind::Bogus => None,
        }
    }
}

/// Whether an expression of this level, written without parentheses, is
/// read back whole where the rank `floor` is asked for.
pub open spec fn spec_binds(level: Option<OperatorPrecedence>, floor: int) -> bool {
    level matches Some(level) && level.rank() >= floor
}

/// The slots that ask for more than `**` gives and for which the test on the
/// parent has no rule: the operand of `await`, of a type assertion, of a
/// non-null assertion, of an instantiation and of an update, and the target
/// of an assignment.
pub open spec fn spec_slot_without_rule(kind: ExpressionKind, slot: int) -> bool {
    slot == 0 && (kind is Await || kind is TypeAssertion || kind is NonNullAssertion
        || kind is Instantiation || kind is PreUpdate || kind is PostUpdate || kind is Assignment)
}

/// The operands of the exponentiation that a fix writes are the two
/// arguments of the call, in their order, once the parentheses that the fix
/// adds are taken away; and every edit before the last only puts its target
/// in parentheses.
pub proof fn lemma_fix_pairs_the_arguments(ctx: &RuleContext, edits: Seq<Edit>)
    requires
        spec_fix(ctx) == Some(edits),
    ensures
        edits.len() > 0,
        edits.last().target == ctx.query,
        match spec_operands(ctx.tree, ctx.query) {
            Some((base, exponent)) => edits.last().replacement.spec_without_new_parentheses()
                == NewExpression::Binary(
                Box::new(NewExpression::Node(base)),
                BinaryOperator::Exponent,
                Box::new(NewExpression::Node(exponent)),
            ),
            None => false,
        },
        forall|i: int|
            0 <= i < edits.len() - 1 ==> (#[trigger] edits[i]).replacement
                == NewExpression::Parenthesized(Box::new(NewExpression::Node(edits[i].target))),
{
    reveal_with_fuel(NewExpression::spec_without_new_parentheses, 4);
}

/// The exponentiation that a fix writes, under the parentheses around it if
/// it has any.
pub open spec fn spec_written_power(edits: Seq<Edit>) -> NewExpression {
    match edits.last().replacement {
        NewExpression::Parenthesized(inner) => *inner,
        other => other,
    }
}

/// Whether an operand that was written is not a node in parentheses put into
/// new parentheses.
pub open spec fn spec_not_wrapped_twice(tree: &SyntaxTree, written: NewExpression) -> bool {
    match written {
        NewExpression::Parenthesized(inner) => inner.spec_kind(tree) != Some(
            ExpressionKind::Parenthesized,
        ),
        _ => true,
    }
}

/// Whether `power` is an exponentiation whose operands bind tightly enough,
/// as they are written, to be read back as its operands: the exponent
/// always, the base unless it is a type assertion or a non-null assertion,
/// which rank with the unary expressions and get no parentheses.
pub open spec fn spec_operands_bind(tree: &SyntaxTree, power: NewExpression) -> bool {
    match power {
        NewExpression::Binary(left, operator, right) => {
            let kind = ExpressionKind::Binary(Some(operator));
            let base = left.spec_without_new_parentheses().spec_kind(tree);
            &&& operator == BinaryOperator::Exponent
            &&& spec_binds(right.spec_precedence(tree), spec_slot_floor(kind, 1)->Some_0)
            &&& base == Some(ExpressionKind::TypeAssertion) || base == Some(
                ExpressionKind::NonNullAssertion,
            ) || spec_binds(left.spec_precedence(tree), spec_slot_floor(kind, 0)->Some_0)
            &&& spec_not_wrapped_twice(tree, *left)
            &&& spec_not_wrapped_twice(tree, *right)
        },
        _ => false,
    }
}

/// Each operand of the exponentiation that a fix writes is read back as
/// that operand, and none that stands in parentheses already gets new ones.
pub proof fn lemma_operands_bind_as_written(ctx: &RuleContext, edits: Seq<Edit>)
    requires
        spec_fix(ctx) == Some(edits),
    ensures
        spec_operands_bind(ctx.tree, spec_written_power(edits)),
{
    reveal_with_fuel(NewExpression::spec_without_new_parentheses, 3);
}

/// Whether `written` is read back as the child at `at` where it stands
/// there without parentheses of the tree around it: in a slot of an
/// expression it binds tightly enough for the slot, unless the test on the
/// parent has no rule for the slot; under an extends clause it binds as
/// tightly as a super class must. And under parentheses it is not itself in
/// new ones.
pub open spec fn spec_binds_in_place(
    tree: &SyntaxTree,
    parent: usize,
    slot: int,
    written: NewExpression,
) -> bool {
    match tree.spec_kind(parent) {
        Some(SyntaxKind::Expression(kind)) => {
            &&& kind is Parenthesized ==> !(written is Parenthesized)
            &&& match spec_slot_floor(kind, slot) {
                Some(floor) => spec_slot_without_rule(kind, slot) || spec_binds(
                    written.spec_precedence(tree),
                    floor,
                ),
                None => true,
            }
        },
        Some(SyntaxKind::ExtendsClause) => spec_binds(
            written.spec_precedence(tree),
            OperatorPrecedence::LeftHandSide.rank(),
        ),
        _ => true,
    }
}

/// Where the test on the parent of `node` asks for no parentheses, the
/// slot in which `node` stands takes an exponentiation as it is, unless the
/// test has no rule for the slot.
proof fn lemma_bare_power_fits_the_slot(tree: &SyntaxTree, node: usize)
    requires
        tree.wf(),
        tree.spec_position(node) is Some,
        tree.spec_expression_kind(tree.spec_position(node)->Some_0.parent) is Some,
        spec_does_expression_need_parens(tree, node, tree.spec_position(node)->Some_0.parent)
            == Some(false),
    ensures
        ({
            let at = tree.spec_position(node)->Some_0;
            let kind = tree.spec_expression_kind(at.parent)->Some_0;
            match spec_slot_floor(kind, at.slot as int) {
                Some(floor) => spec_slot_without_rule(kind, at.slot as int) || floor
                    <= OperatorPrecedence::Exponential.rank(),
                None => true,
            }
        }),
{
    let at = tree.spec_position(node)->Some_0;
    let parent = at.parent;
    let kind = tree.spec_expression_kind(parent)->Some_0;
    let children = tree.nodes()[parent as int].children@;
    assert(children[at.slot as int] == Some(node));
    assert(children.len() == tree.nodes()[parent as int].children.len());
    // A node stands in one slot only.
    assert forall|k: int| 0 <= k < children.len() && children[k] == Some(node) implies k
        == at.slot by {
        assert(tree.nodes()[parent as int].children@[k] == Some(node));
    }
    match kind {
        ExpressionKind::Call { arguments } => {
            if at.slot == 0 {
                assert(spec_is_argument(tree, parent, node));
                let k = choose|k: int|
                    1 <= k && #[trigger] tree.spec_child(parent, k) == Some(node);
                assert(children[k] == Some(node));
            }
        },
        ExpressionKind::New { arguments } => {
            if at.slot == 0 {
                assert(spec_is_argument(tree, parent, node));
                let k = choose|k: int|
                    1 <= k && #[trigger] tree.spec_child(parent, k) == Some(node);
                assert(children[k] == Some(node));
            }
        },
        ExpressionKind::Binary(operator) => {
            let right = tree.spec_child(parent, 1);
            assert(right is Some && operator is Some);
            if operator == Some(BinaryOperator::Exponent) {
                assert(right == Some(node));
                assert(children[1] == Some(node));
            }
        },
        ExpressionKind::ComputedMember => {
            let member = tree.spec_child(parent, 1);
            assert(member == Some(node));
            assert(children[1] == Some(node));
        },
        _ => {},
    }
}

/// The expression that a fix writes in place of the call is read back as
/// the child that the call was.
pub proof fn lemma_new_expression_binds_where_it_stands(ctx: &RuleContext, edits: Seq<Edit>)
    requires
        ctx.tree.wf(),
        spec_fix(ctx) == Some(edits),
    ensures
        match ctx.tree.spec_position(ctx.query) {
            Some(at) => spec_binds_in_place(
                ctx.tree,
                at.parent,
                at.slot as int,
                edits.last().replacement,
            ),
            None => true,
        },
{
    let tree = ctx.tree;
    let node = ctx.query;
    if let Some(at) = tree.spec_position(node) {
        let parent = at.parent;
        let written = edits.last().replacement;
        let answer = spec_does_exponentiation_expression_need_parens(tree, node);
        assert(answer is Some);
        let wrap = answer->Some_0.0;
        assert(tree.spec_parent(node) == Some(parent));
        if wrap {
            assert(written is Parenthesized);
            assert(written.spec_precedence(tree) == Some(OperatorPrecedence::Group));
        } else {
            assert(written is Binary);
            assert(written.spec_precedence(tree) == Some(OperatorPrecedence::Exponential));
            if tree.spec_expression_kind(parent) is Some {
                lemma_bare_power_fits_the_slot(tree, node);
            }
        }
    }
}

} // verus!
