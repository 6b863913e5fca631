//! The rule that asks for `**` in place of `Math.pow`: what it matches, what
//! it reports, and the rewrite it proposes.

use crate::parens::{
    does_base_need_parens, does_exponent_need_parens, does_exponentiation_expression_need_parens,
    spec_does_base_need_parens, spec_does_exponent_need_parens,
    spec_does_exponentiation_expression_need_parens,
};
use crate::precedence::{BinaryOperator, OperatorPrecedence};
use crate::semantic::SemanticModel;
use crate::syntax::{ExpressionKind, SyntaxKind, SyntaxTree, TextRange};
use vstd::prelude::*;

verus! {

/// What a rule is given when it looks at a node: the tree and the bindings of
/// one snapshot, both read only, and the node in question.
pub struct RuleContext<'a> {
    pub tree: &'a SyntaxTree,
    pub model: &'a SemanticModel,
    pub query: usize,
}

/// What a rule reports of a node that it matched.
#[derive(Clone, Copy, Debug, PartialEq, Eq)]
pub struct RuleDiagnostic {
    pub category: &'static str,
    pub range: TextRange,
    pub message: &'static str,
}

/// The kind of change that an action makes.
#[derive(Clone, Copy, Debug, PartialEq, Eq)]
pub enum ActionCategory {
    QuickFix,
    Refactor,
}

/// How far the change of an action can be trusted to keep the meaning of the
/// program.
#[derive(Clone, Copy, Debug, PartialEq, Eq)]
pub enum Applicability {
    Always,
    MaybeIncorrect,
}

/// An expression that an edit writes: nodes of the tree under new
/// parentheses and operators.
#[derive(Debug, PartialEq, Eq)]
pub enum NewExpression {
    /// A node of the tree, with all that is below it, as it stands.
    Node(usize),
    /// `(a)`.
    Parenthesized(Box<NewExpression>),
    /// `a op b`.
    Binary(Box<NewExpression>, BinaryOperator, Box<NewExpression>),
}

impl NewExpression {
    /// The level at which the expression binds as it is written.
    pub open spec fn spec_precedence(self, tree: &SyntaxTree) -> Option<OperatorPrecedence> {
        match self {
            NewExpression::Node(id) => tree.spec_precedence(id),
            NewExpression::Parenthesized(_) => Some(OperatorPrecedence::Group),
            NewExpression::Binary(_, operator, _) => Some(operator.spec_precedence()),
        }
    }

    /// The kind of expression that is written; none for a node that is no
    /// expression.
    pub open spec fn spec_kind(self, tree: &SyntaxTree) -> Option<ExpressionKind> {
        match self {
            NewExpression::Node(id) => tree.spec_expression_kind(id),
            NewExpression::Parenthesized(_) => Some(ExpressionKind::Parenthesized),
            NewExpression::Binary(_, operator, _) => Some(ExpressionKind::Binary(Some(operator))),
        }
    }

    /// The expression without the parentheses that were written with it:
    /// those of the nodes of the tree stay.
    pub open spec fn spec_without_new_parentheses(self) -> NewExpression
        decreases self,
    {
        match self {
            NewExpression::Node(id) => NewExpression::Node(id),
            NewExpression::Parenthesized(inner) => inner.spec_without_new_parentheses(),
            NewExpression::Binary(left, operator, right) => NewExpression::Binary(
                Box::new(left.spec_without_new_parentheses()),
                operator,
                Box::new(right.spec_without_new_parentheses()),
            ),
        }
    }
}

/// One replacement: the expression that is written where `target` stood.
#[derive(Debug, PartialEq, Eq)]
pub struct Edit {
    pub target: usize,
    pub replacement: NewExpression,
}

/// A proposed change of the tree. The edits apply together or not at all.
#[derive(Debug, PartialEq, Eq)]
pub struct RuleAction {
    pub category: ActionCategory,
    pub applicability: Applicability,
    pub message: &'static str,
    pub mutation: Vec<Edit>,
}

/// The reference to `Math` in a call of the shape `Math.pow(..)`: the call's
/// callee, parentheses aside, is a member access that reads the member `pow`
/// of an object that is, parentheses aside, the identifier `Math`.
pub open spec fn spec_math_reference(tree: &SyntaxTree, node: usize) -> Option<usize> {
    match tree.spec_expression_kind(node) {
        Some(ExpressionKind::Call { .. }) => match tree.spec_child(node, 0) {
            Some(callee) => {
                let member = tree.spec_omit_parentheses(callee);
                if tree.spec_member_name(member) == Some("pow"@) {
                    match tree.spec_child(member, 0) {
                        Some(object) => match tree.spec_global_identifier(
                            tree.spec_omit_parentheses(object),
                        ) {
                            Some((reference, name)) => if name == "Math"@ {
                                Some(reference)
                            } else {
                                None
                            },
                            None => None,
                        },
                        None => None,
                    }
                } else {
                    None
                }
            },
            None => None,
        },
        _ => None,
    }
}

/// Whether the rule matches the node in question: it is a call of the shape
/// `Math.pow(..)` in which `Math` is not bound to a declaration.
pub open spec fn spec_run(ctx: &RuleContext) -> bool {
    match spec_math_reference(ctx.tree, ctx.query) {
        Some(reference) => ctx.model.spec_binding(reference) is None,
        None => false,
    }
}

/// The base and the exponent of a call that can be rewritten: its two
/// arguments, where it has exactly two and both are expressions.
pub open spec fn spec_operands(tree: &SyntaxTree, node: usize) -> Option<(usize, usize)> {
    if tree.spec_expression_kind(node) == Some(ExpressionKind::Call { arguments: true })
        && tree.nodes()[node as int].children@.len() == 3 {
        match (tree.spec_child(node, 1), tree.spec_child(node, 2)) {
            (Some(base), Some(exponent)) => if tree.spec_expression_kind(base) is Some
                && tree.spec_expression_kind(exponent) is Some {
                Some((base, exponent))
            } else {
                None
            },
            _ => None,
        }
    } else {
        None
    }
}

/// `expression`, in parentheses if `parenthesized`.
pub open spec fn spec_wrap_if(parenthesized: bool, expression: NewExpression) -> NewExpression {
    if parenthesized {
        NewExpression::Parenthesized(Box::new(expression))
    } else {
        expression
    }
}

/// The exponentiation that is written for a call with these operands.
pub open spec fn spec_power(
    base: usize,
    wrap_base: bool,
    exponent: usize,
    wrap_exponent: bool,
) -> NewExpression {
    NewExpression::Binary(
        Box::new(spec_wrap_if(wrap_base, NewExpression::Node(base))),
        BinaryOperator::Exponent,
        Box::new(spec_wrap_if(wrap_exponent, NewExpression::Node(exponent))),
    )
}

/// The edits that rewrite the call in question to an exponentiation, where
/// it can be rewritten: it has a base and an exponent, and it is known
/// whether each of them, and the place of the call, need parentheses.
///
/// The last edit writes the exponentiation in place of the call, each
/// operand and the whole in parentheses where needed. Where a node around
/// the call needs parentheses too, an edit before it writes that node in
/// parentheses.
pub open spec fn spec_fix(ctx: &RuleContext) -> Option<Seq<Edit>> {
    match spec_operands(ctx.tree, ctx.query) {
        None => None,
        Some((base, exponent)) => match (
            spec_does_base_need_parens(ctx.tree, base),
            spec_does_exponent_need_parens(ctx.tree, exponent),
            spec_does_exponentiation_expression_need_parens(ctx.tree, ctx.query),
        ) {
            (Some(wrap_base), Some(wrap_exponent), Some((wrap, around))) => {
                let power = spec_power(base, wrap_base, exponent, wrap_exponent);
                let last = Edit { target: ctx.query, replacement: spec_wrap_if(wrap, power) };
                match around {
                    Some(parent) => if wrap {
                        Some(
                            seq![
                                Edit {
                                    target: parent,
                                    replacement: NewExpression::Parenthesized(
                                        Box::new(NewExpression::Node(parent)),
                                    ),
                                },
                                last,
                            ],
                        )
                    } else {
                        Some(seq![last])
                    },
                    None => Some(seq![last]),
                }
            },
            _ => None,
        },
    }
}

/// Whether `diagnostic` is what the rule reports of the node in question:
/// its own message, at the range of the node.
pub open spec fn is_diagnostic_of(ctx: &RuleContext, diagnostic: RuleDiagnostic) -> bool {
    &&& ctx.tree.has(ctx.query)
    &&& diagnostic.category@ == "lint/style/useExponentiationOperator"@
    &&& diagnostic.range == ctx.tree.nodes()[ctx.query as int].range
    &&& diagnostic.message@ == "Use the '**' operator instead of 'Math.pow'."@
}

/// Whether `action` is what the rule proposes for the node in question: a
/// quick fix that may be incorrect, with the edits of [`spec_fix`], or
/// nothing where there are none.
pub open spec fn is_action_of(ctx: &RuleContext, action: Option<RuleAction>) -> bool {
    match action {
        Some(action) => {
            &&& spec_fix(ctx) == Some(action.mutation@)
            &&& action.category == ActionCategory::QuickFix
            &&& action.applicability == Applicability::MaybeIncorrect
            &&& action.message@ == "Use the '**' operator instead of 'Math.pow'."@
        },
        None => spec_fix(ctx) is None,
    }
}

fn wrap_if(parenthesized: bool, expression: NewExpression) -> (wrapped: NewExpression)
    ensures
        wrapped == spec_wrap_if(parenthesized, expression),
{
    if parenthesized {
        NewExpression::Parenthesized(Box::new(expression))
    } else {
        expression
    }
}

fn operands(tree: &SyntaxTree, node: usize) -> (found: Option<(usize, usize)>)
    ensures
        found == spec_operands(tree, node),
{
    match tree.node(node) {
        None => None,
        Some(call) => match call.kind {
            SyntaxKind::Expression(ExpressionKind::Call { arguments: true }) => {
                // require no extra arguments
                if call.children.len() != 3 {
                    return None;
                }
                match (call.children[1], call.children[2]) {
                    (Some(base), Some(exponent)) => {
                        if tree.expression_kind(base).is_some() && tree.expression_kind(
                            exponent,
                        ).is_some() {
                            Some((base, exponent))
                        } else {
                            None
                        }
                    },
                    _ => None,
                }
            },
            _ => None,
        },
    }
}

fn math_reference(tree: &SyntaxTree, node: usize) -> (found: Option<usize>)
    requires
        tree.wf(),
    ensures
        found == spec_math_reference(tree, node),
{
    match tree.expression_kind(node) {
        Some(ExpressionKind::Call { .. }) => {
            let callee = match tree.child(node, 0) {
                Some(callee) => tree.omit_parentheses(callee),
                None => {
                    return None;
                },
            };
            match tree.member_name(callee) {
                Some(name) => {
                    if *name != "pow".to_owned() {
                        return None;
                    }
                },
                None => {
                    return None;
                },
            }
            let object = match tree.child(callee, 0) {
                Some(object) => tree.omit_parentheses(object),
                None => {
                    return None;
                },
            };
            match tree.global_identifier(object) {
                Some((reference, name)) => {
                    if *name != "Math".to_owned() {
                        return None;
                    }
                    Some(reference)
                },
                None => None,
            }
        },
        _ => None,
    }
}

/// Disallow the use of `Math.pow` in favor of the `**` operator.
///
/// The infix exponentiation operator `**` is an alternative for the standard
/// `Math.pow` function. Infix notation is considered to be more readable and
/// thus more preferable than the function notation.
pub struct UseExponentiationOperator;

/// What an engine is told of a rule when the rule is registered.
#[derive(Clone, Copy, Debug, PartialEq, Eq)]
pub struct RuleMetadata {
    pub version: &'static str,
    pub name: &'static str,
    pub recommended: bool,
}

impl UseExponentiationOperator {
    /// The data under which the rule is registered.
    pub fn metadata() -> (metadata: RuleMetadata)
        ensures
            metadata.version@ == "1.0.0"@,
            metadata.name@ == "useExponentiationOperator"@,
            metadata.recommended,
    {
        RuleMetadata { version: "1.0.0", name: "useExponentiationOperator", recommended: true }
    }

    /// Looks at the node in question and signals where the rule matches it.
    pub fn run(ctx: &RuleContext) -> (signal: Option<()>)
        requires
            ctx.tree.wf(),
        ensures
            signal is Some <==> spec_run(ctx),
    {
        match math_reference(ctx.tree, ctx.query) {
            Some(reference) => if ctx.model.binding(reference).is_none() {
                Some(())
            } else {
                None
            },
            None => None,
        }
    }

    /// The diagnostic for a node that the rule matched: at the range of the
    /// node. There is none where the context names no node.
    pub fn diagnostic(ctx: &RuleContext, _state: &()) -> (diagnostic: Option<RuleDiagnostic>)
        ensures
            diagnostic is Some <==> ctx.tree.has(ctx.query),
            diagnostic matches Some(diagnostic) ==> is_diagnostic_of(ctx, diagnostic),
    {
        match ctx.tree.node(ctx.query) {
            Some(node) => Some(
                RuleDiagnostic {
                    category: "lint/style/useExponentiationOperator",
                    range: node.range,
                    message: "Use the '**' operator instead of 'Math.pow'.",
                },
            ),
            None => None,
        }
    }

    /// The rewrite of a node that the rule matched, where there is one: a
    /// quick fix that may be incorrect, with the edits of [`spec_fix`].
    pub fn action(ctx: &RuleContext, _state: &()) -> (action: Option<RuleAction>)
        requires
            ctx.tree.wf(),
        ensures
            is_action_of(ctx, action),
    {
        let (base, exponent) = match operands(ctx.tree, ctx.query) {
            Some(found) => found,
            None => {
                return None;
            },
        };
        let wrap_base = match does_base_need_parens(ctx.tree, base) {
            Some(answer) => answer,
            None => {
                return None;
            },
        };
        let wrap_exponent = match does_exponent_need_parens(ctx.tree, exponent) {
            Some(answer) => answer,
            None => {
                return None;
            },
        };
        let (wrap, around) = match does_exponentiation_expression_need_parens(
            ctx.tree,
            ctx.query,
        ) {
            Some(answer) => answer,
            None => {
                return None;
            },
        };
        let new_node = NewExpression::Binary(
            Box::new(wrap_if(wrap_base, NewExpression::Node(base))),
            BinaryOperator::Exponent,
            Box::new(wrap_if(wrap_exponent, NewExpression::Node(exponent))),
        );
        let mut mutation: Vec<Edit> = Vec::new();
        if wrap {
            if let Some(parent) = around {
                mutation.push(
                    Edit {
                        target: parent,
                        replacement: NewExpression::Parenthesized(
                            Box::new(NewExpression::Node(parent)),
                        ),
                    },
                );
            }
        }
        mutation.push(Edit { target: ctx.query, replacement: wrap_if(wrap, new_node) });
        proof {
            assert(mutation@ =~= spec_fix(ctx)->Some_0);
        }
        Some(
            RuleAction {
                category: ActionCategory::QuickFix,
                applicability: Applicability::MaybeIncorrect,
                message: "Use the '**' operator instead of 'Math.pow'.",
                mutation,
            },
        )
    }
}

/// The rule matches calls only, and only those in which the reference to
/// `Math` is free: where every identifier `Math` of the tree is bound to a
/// declaration, the rule matches no node, whatever its shape.
pub proof fn lemma_shadowed_math_is_never_matched(
    tree: &SyntaxTree,
    model: &SemanticModel,
    node: usize,
)
    requires
        forall|id: usize|
            tree.spec_expression_kind(id) == Some(ExpressionKind::Identifier) && tree.spec_text(id)
                == "Math"@ ==> #[trigger] model.spec_binding(id) is Some,
    ensures
        !spec_run(&RuleContext { tree, model, query: node }),
{
}

/// A match says that the reference to `Math` is free, and a bound reference
/// says that there is no match.
pub proof fn lemma_match_has_free_math(ctx: &RuleContext)
    ensures
        spec_run(ctx) ==> ctx.tree.spec_expression_kind(ctx.query) matches Some(
            ExpressionKind::Call { .. },
        ),
        spec_run(ctx) ==> (spec_math_reference(ctx.tree, ctx.query) matches Some(reference)
            && ctx.model.spec_binding(reference) is None),
        (spec_math_reference(ctx.tree, ctx.query) matches Some(reference)
            && ctx.model.spec_binding(reference) is Some) ==> !spec_run(ctx),
{
}

/// Only a call with exactly two arguments, both expressions, is rewritten: a
/// call with fewer or more, with a spread or with a missing argument gets
/// its diagnostic and no fix.
pub proof fn lemma_fix_needs_exactly_two_arguments(ctx: &RuleContext)
    requires
        spec_fix(ctx) is Some,
    ensures
        ctx.tree.spec_expression_kind(ctx.query) == Some(ExpressionKind::Call { arguments: true }),
        ctx.tree.nodes()[ctx.query as int].children@.len() == 3,
        (ctx.tree.spec_child(ctx.query, 1) matches Some(base) && ctx.tree.spec_expression_kind(
            base,
        ) is Some),
        (ctx.tree.spec_child(ctx.query, 2) matches Some(exponent)
            && ctx.tree.spec_expression_kind(exponent) is Some),
{
}

/// What a fix writes is never a call: in place of the call it writes an
/// exponentiation, in parentheses or not, and around it only parentheses.
/// The rule matches calls only, so it does not match what it wrote.
pub proof fn lemma_fix_writes_no_call(ctx: &RuleContext, edits: Seq<Edit>)
    requires
        spec_fix(ctx) == Some(edits),
    ensures
        edits.len() > 0,
        edits.last().target == ctx.query,
        forall|i: int|
            0 <= i < edits.len() ==> !((#[trigger] edits[i]).replacement.spec_kind(ctx.tree)
                matches Some(ExpressionKind::Call { .. })),
        edits.last().replacement.spec_without_new_parentheses().spec_kind(ctx.tree) == Some(
            ExpressionKind::Binary(Some(BinaryOperator::Exponent)),
        ),
{
    reveal_with_fuel(NewExpression::spec_without_new_parentheses, 3);
}

} // verus!
