//! Where parentheses are needed when a call is rewritten to an
//! exponentiation: around its operands, and around the new expression in the
//! place where the call stood.

use crate::precedence::OperatorPrecedence;
use crate::syntax::{ExpressionKind, SyntaxKind, SyntaxTree};
use vstd::prelude::*;

verus! {

/// Whether `node` is one of the arguments of the call or constructor
/// invocation `call`: a child in a slot behind that of the callee.
pub open spec fn spec_is_argument(tree: &SyntaxTree, call: usize, node: usize) -> bool {
    exists|k: int| 1 <= k && #[trigger] tree.spec_child(call, k) == Some(node)
}

/// Whether `expression` is the left operand of an `in` test.
pub open spec fn spec_is_left_of_in(tree: &SyntaxTree, expression: usize) -> bool {
    tree.spec_parent(expression) matches Some(owner) && tree.spec_expression_kind(owner) == Some(
        ExpressionKind::In,
    ) && tree.spec_child(owner, 0) == Some(expression)
}

/// The answer for a parent whose kind asks for parentheses if `needed`: yes
/// only where the parent binds at least as tightly as `**`, unknown where its
/// level is.
pub open spec fn spec_where_tight_enough(
    tree: &SyntaxTree,
    expression: usize,
    needed: bool,
) -> Option<bool> {
    if !needed {
        Some(false)
    } else {
        match tree.spec_precedence(expression) {
            Some(level) => Some(level.rank() >= OperatorPrecedence::Exponential.rank()),
            None => None,
        }
    }
}

/// Whether an exponentiation that takes the place of `node` needs
/// parentheses under `expression`. The answer is unknown where a child of
/// `expression` that decides it is missing (the right operand or the
/// operator of an infix expression, the argument list of a call, the member
/// of a computed member access) and where `expression` is no expression. A
/// constructor invocation may stand without an argument list: it then has
/// no arguments.
///
/// Under parentheses it needs none. Under `in` it always needs them, and so
/// it does under an infix expression that is the left operand of `in`.
/// Otherwise it needs them only under a parent that binds at least as
/// tightly as `**`: under an infix expression unless that is a `**` with
/// `node` on its right; under a call or constructor invocation unless `node`
/// is one of the arguments; under a computed member access unless `node` is
/// the member; always under a class, a static member access, a unary
/// expression and a template; and under no other kind.
pub open spec fn spec_does_expression_need_parens(
    tree: &SyntaxTree,
    node: usize,
    expression: usize,
) -> Option<bool> {
    match tree.spec_expression_kind(expression) {
        None => None,
        Some(kind) => match kind {
            ExpressionKind::Parenthesized => Some(false),
            ExpressionKind::Binary(operator) => if spec_is_left_of_in(tree, expression) {
                Some(true)
            } else {
                match (tree.spec_child(expression, 1), operator) {
                    (Some(right), Some(operator)) => spec_where_tight_enough(
                        tree,
                        expression,
                        !(operator is Exponent && right == node),
                    ),
                    _ => None,
                }
            },
            ExpressionKind::Call { arguments } => if arguments {
                spec_where_tight_enough(tree, expression, !spec_is_argument(tree, expression, node))
            } else {
                None
            },
            ExpressionKind::New { arguments } => spec_where_tight_enough(
                tree,
                expression,
                !(arguments && spec_is_argument(tree, expression, node)),
            ),
            ExpressionKind::ComputedMember => match tree.spec_child(expression, 1) {
                Some(member) => spec_where_tight_enough(tree, expression, member != node),
                None => None,
            },
            ExpressionKind::In => Some(true),
            ExpressionKind::Class
            | ExpressionKind::StaticMember
            | ExpressionKind::Unary
            | ExpressionKind::Template => spec_where_tight_enough(tree, expression, true),
            _ => Some(false),
        },
    }
}

/// Whether the exponentiation that takes the place of `node` needs
/// parentheses where `node` stands, and which node around it needs them too.
/// The answer is unknown where that of [`spec_does_expression_need_parens`]
/// is.
///
/// Under an expression the test on that parent decides, and a parent that
/// asks for parentheses gets its own. Under an extends clause the new
/// expression always needs them; the class gets its own where it is an
/// expression and the test on it says so. Anywhere else none are needed.
pub open spec fn spec_does_exponentiation_expression_need_parens(
    tree: &SyntaxTree,
    node: usize,
) -> Option<(bool, Option<usize>)> {
    match tree.spec_parent(node) {
        None => Some((false, None)),
        Some(parent) => match tree.spec_kind(parent) {
            Some(SyntaxKind::Expression(_)) => match spec_does_expression_need_parens(
                tree,
                node,
                parent,
            ) {
                None => None,
                Some(true) => Some((true, Some(parent))),
                Some(false) => Some((false, None)),
            },
            Some(SyntaxKind::ExtendsClause) => match tree.spec_parent(parent) {
                None => Some((true, None)),
                Some(class) => match tree.spec_kind(class) {
                    Some(SyntaxKind::Expression(_)) => match spec_does_expression_need_parens(
                        tree,
                        node,
                        class,
                    ) {
                        None => None,
                        Some(true) => Some((true, Some(class))),
                        Some(false) => Some((true, None)),
                    },
                    _ => Some((true, None)),
                },
            },
            _ => Some((false, None)),
        },
    }
}

/// Whether `base` needs parentheses as the left operand of `**`; unknown
/// where its level is. It needs them where it binds no tighter than `**`,
/// which groups from the right, and where it is a unary, an await or an
/// update expression.
pub open spec fn spec_does_base_need_parens(tree: &SyntaxTree, base: usize) -> Option<bool> {
    match tree.spec_precedence(base) {
        None => None,
        Some(level) => Some(
            level.rank() <= OperatorPrecedence::Exponential.rank() || tree.spec_expression_kind(
                base,
            ) == Some(ExpressionKind::Unary) || tree.spec_expression_kind(base) == Some(
                ExpressionKind::Await,
            ) || tree.spec_expression_kind(base) == Some(ExpressionKind::PreUpdate)
                || tree.spec_expression_kind(base) == Some(ExpressionKind::PostUpdate),
        ),
    }
}

/// Whether `exponent` needs parentheses as the right operand of `**`;
/// unknown where its level is. It needs them where it binds looser than `**`.
pub open spec fn spec_does_exponent_need_parens(tree: &SyntaxTree, exponent: usize) -> Option<
    bool,
> {
    match tree.spec_precedence(exponent) {
        None => None,
        Some(level) => Some(level.rank() < OperatorPrecedence::Exponential.rank()),
    }
}

fn is_argument(tree: &SyntaxTree, call: usize, node: usize) -> (found: bool)
    ensures
        found == spec_is_argument(tree, call, node),
{
    match tree.node(call) {
        None => false,
        Some(call_node) => {
            let count: usize = call_node.children.len();
            let mut k: usize = 1;
            while k < count
                invariant
                    1 <= k,
                    count == call_node.children@.len(),
                    tree.has(call),
                    *call_node == tree.nodes()[call as int],
                    forall|j: int| 1 <= j < k ==> tree.spec_child(call, j) != Some(node),
                decreases count - k,
            {
                if let Some(child) = call_node.children[k] {
                    if child == node {
                        assert(tree.spec_child(call, k as int) == Some(node));
                        return true;
                    }
                }
                k += 1;
            }
            false
        },
    }
}

fn is_left_of_in(tree: &SyntaxTree, expression: usize) -> (found: bool)
    requires
        tree.wf(),
    ensures
        found == spec_is_left_of_in(tree, expression),
{
    match tree.parent(expression) {
        None => false,
        Some(owner) => match tree.expression_kind(owner) {
            Some(ExpressionKind::In) => match tree.child(owner, 0) {
                Some(left) => left == expression,
                None => false,
            },
            _ => false,
        },
    }
}

fn where_tight_enough(tree: &SyntaxTree, expression: usize, needed: bool) -> (answer: Option<bool>)
    ensures
        answer == spec_where_tight_enough(tree, expression, needed),
{
    if !needed {
        Some(false)
    } else {
        match tree.precedence(expression) {
            Some(level) => Some(level.at_least(OperatorPrecedence::Exponential)),
            None => None,
        }
    }
}

/// Determines whether an exponentiation that takes the place of `node` needs
/// parentheses under `expression`.
pub fn does_expression_need_parens(tree: &SyntaxTree, node: usize, expression: usize) -> (answer:
    Option<bool>)
    requires
        tree.wf(),
    ensures
        answer == spec_does_expression_need_parens(tree, node, expression),
{
    match tree.expression_kind(expression) {
        None => None,
        Some(kind) => match kind {
            // Skips already parenthesized expressions
            ExpressionKind::Parenthesized => Some(false),
            ExpressionKind::Binary(operator) => {
                if is_left_of_in(tree, expression) {
                    return Some(true);
                }
                match (tree.child(expression, 1), operator) {
                    (Some(right), Some(operator)) => where_tight_enough(
                        tree,
                        expression,
                        !(operator.is_exponent() && right == node),
                    ),
                    _ => None,
                }
            },
            ExpressionKind::Call { arguments } => if arguments {
                where_tight_enough(tree, expression, !is_argument(tree, expression, node))
            } else {
                None
            },
            ExpressionKind::New { arguments } => where_tight_enough(
                tree,
                expression,
                !(arguments && is_argument(tree, expression, node)),
            ),
            ExpressionKind::ComputedMember => match tree.child(expression, 1) {
                Some(member) => where_tight_enough(tree, expression, member != node),
                None => None,
            },
            ExpressionKind::In => Some(true),
            ExpressionKind::Class
            | ExpressionKind::StaticMember
            | ExpressionKind::Unary
            | ExpressionKind::Template => where_tight_enough(tree, expression, true),
            _ => Some(false),
        },
    }
}

/// Determines whether the exponentiation that takes the place of `node`
/// needs parentheses where `node` stands, and which node around it needs
/// them too.
pub fn does_exponentiation_expression_need_parens(tree: &SyntaxTree, node: usize) -> (answer:
    Option<(bool, Option<usize>)>)
    requires
        tree.wf(),
    ensures
        answer == spec_does_exponentiation_expression_need_parens(tree, node),
{
    match tree.parent(node) {
        None => Some((false, None)),
        Some(parent) => match tree.kind(parent) {
            Some(SyntaxKind::Expression(_)) => match does_expression_need_parens(
                tree,
                node,
                parent,
            ) {
                None => None,
                Some(true) => Some((true, Some(parent))),
                Some(false) => Some((false, None)),
            },
            Some(SyntaxKind::ExtendsClause) => match tree.parent(parent) {
                None => Some((true, None)),
                Some(class) => match tree.kind(class) {
                    Some(SyntaxKind::Expression(_)) => match does_expression_need_parens(
                        tree,
                        node,
                        class,
                    ) {
                        None => None,
                        Some(true) => Some((true, Some(class))),
                        Some(false) => Some((true, None)),
                    },
                    _ => Some((true, None)),
                },
            },
            _ => Some((false, None)),
        },
    }
}

/// Determines whether `base` needs parentheses as the left operand of `**`.
pub fn does_base_need_parens(tree: &SyntaxTree, base: usize) -> (answer: Option<bool>)
    ensures
        answer == spec_does_base_need_parens(tree, base),
{
    match tree.precedence(base) {
        None => None,
        Some(level) => {
            // '**' is right-associative, parens are needed when the base is
            // itself an exponentiation
            let loose = !OperatorPrecedence::Exponential.looser_than(level);
            let kind = tree.expression_kind(base);
            Some(
                loose || match kind {
                    // A unary operator cannot be used immediately before an
                    // exponentiation expression
                    Some(ExpressionKind::Unary) | Some(ExpressionKind::Await) => true,
                    // Parentheses could be avoided in these cases.
                    // However, they improve readability.
                    Some(ExpressionKind::PreUpdate) | Some(ExpressionKind::PostUpdate) => true,
                    _ => false,
                },
            )
        },
    }
}

/// Determines whether `exponent` needs parentheses as the right operand of
/// `**`.
pub fn does_exponent_need_parens(tree: &SyntaxTree, exponent: usize) -> (answer: Option<bool>)
    ensures
        answer == spec_does_exponent_need_parens(tree, exponent),
{
    match tree.precedence(exponent) {
        None => None,
        Some(level) => Some(level.looser_than(OperatorPrecedence::Exponential)),
    }
}

} // verus!
