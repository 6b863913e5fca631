//! Running the rule over a tree: every node is looked at once, and what the
//! rule has to say of the nodes it matches is collected.

use crate::rule::{
    is_action_of, is_diagnostic_of, spec_run, RuleAction, RuleContext, RuleDiagnostic,
    UseExponentiationOperator,
};
use crate::semantic::SemanticModel;
use crate::syntax::SyntaxTree;
use vstd::prelude::*;

verus! {

/// What the rule has to say of one node that it matched.
#[derive(Debug, PartialEq, Eq)]
pub struct Signal {
    pub node: usize,
    pub diagnostic: RuleDiagnostic,
    /// The rewrite, where the call can be rewritten.
    pub action: Option<RuleAction>,
}

/// The context in which the rule looks at `node`.
pub open spec fn context_of<'a>(
    tree: &'a SyntaxTree,
    model: &'a SemanticModel,
    node: usize,
) -> RuleContext<'a> {
    RuleContext { tree, model, query: node }
}

/// Whether `signal` is what the rule says of its node: the rule matches the
/// node, and the diagnostic and the action are those of the rule.
pub open spec fn is_signal_of(tree: &SyntaxTree, model: &SemanticModel, signal: Signal) -> bool {
    &&& spec_run(&context_of(tree, model, signal.node))
    &&& is_diagnostic_of(&context_of(tree, model, signal.node), signal.diagnostic)
    &&& is_action_of(&context_of(tree, model, signal.node), signal.action)
}

/// Whether one of `signals` is about `node`.
pub open spec fn reports(signals: Seq<Signal>, node: usize) -> bool {
    exists|i: int| 0 <= i < signals.len() && #[trigger] signals[i].node == node
}

/// Runs the rule on every node of `tree` and collects its signals: one for
/// each node that the rule matches and for no other, in the order of the
/// nodes. Each rewrite is made from the tree as it stands, so that none sees
/// the edits of another.
pub fn analyze(tree: &SyntaxTree, model: &SemanticModel) -> (signals: Vec<Signal>)
    requires
        tree.wf(),
    ensures
        forall|i: int| 0 <= i < signals@.len() ==> is_signal_of(tree, model, #[trigger] signals@[i]),
        forall|i: int, j: int|
            0 <= i < j < signals@.len() ==> (#[trigger] signals@[i]).node < (
            #[trigger] signals@[j]).node,
        forall|node: usize| #[trigger]
            spec_run(&context_of(tree, model, node)) ==> reports(signals@, node),
{
    let mut signals: Vec<Signal> = Vec::new();
    let count: usize = tree.len();
    let mut node: usize = 0;
    while node < count
        invariant
            tree.wf(),
            count == tree.nodes().len(),
            node <= count,
            forall|i: int|
                0 <= i < signals@.len() ==> is_signal_of(tree, model, #[trigger] signals@[i]),
            forall|i: int| 0 <= i < signals@.len() ==> (#[trigger] signals@[i]).node < node,
            forall|i: int, j: int|
                0 <= i < j < signals@.len() ==> (#[trigger] signals@[i]).node < (
                #[trigger] signals@[j]).node,
            forall|other: usize|
                other < node && #[trigger] spec_run(&context_of(tree, model, other)) ==> reports(
                    signals@,
                    other,
                ),
        decreases count - node,
    {
        let ctx = RuleContext { tree, model, query: node };
        assert(ctx == context_of(tree, model, node));
        if let Some(state) = UseExponentiationOperator::run(&ctx) {
            let diagnostic = UseExponentiationOperator::diagnostic(&ctx, &state);
            let action = UseExponentiationOperator::action(&ctx, &state);
            if let Some(diagnostic) = diagnostic {
                let ghost before = signals@;
                signals.push(Signal { node, diagnostic, action });
                proof {
                    assert(signals@[before.len() as int].node == node);
                    assert forall|other: usize|
                        other < node + 1 && #[trigger] spec_run(
                            &context_of(tree, model, other),
                        ) implies reports(signals@, other) by {
                        if other < node {
                            assert(reports(before, other));
                            let i = choose|i: int|
                                0 <= i < before.len() && #[trigger] before[i].node == other;
                            assert(signals@[i].node == other);
                        }
                    }
                }
            }
        }
        node += 1;
    }
    proof {
        assert forall|other: usize| #[trigger]
            spec_run(&context_of(tree, model, other)) implies reports(signals@, other) by {
            assert(tree.has(other));
        }
    }
    signals
}

} // verus!
