use exponent_lint::parens::{
    does_base_need_parens, does_exponent_need_parens, does_exponentiation_expression_need_parens,
    does_expression_need_parens,
};
use exponent_lint::precedence::{BinaryOperator, LogicalOperator};
use exponent_lint::syntax::{ExpressionKind, SyntaxKind, SyntaxNode, SyntaxTree, TextRange};

fn add(tree: &mut SyntaxTree, kind: SyntaxKind, children: Vec<Option<usize>>) -> usize {
    let node = SyntaxNode {
        kind,
        range: TextRange { start: 0, end: 0 },
        text: String::new(),
        children,
    };
    tree.add(node).expect("the tree accepts the node")
}

fn node(tree: &mut SyntaxTree, kind: ExpressionKind, children: &[usize]) -> usize {
    let children = children.iter().map(|child| Some(*child)).collect();
    add(tree, SyntaxKind::Expression(kind), children)
}

fn leaf(tree: &mut SyntaxTree) -> usize {
    node(tree, ExpressionKind::Identifier, &[])
}

fn call(tree: &mut SyntaxTree) -> usize {
    let callee = leaf(tree);
    node(tree, ExpressionKind::Call { arguments: true }, &[callee])
}

/// The answer for a call that is the only child of a parent of this kind.
fn under(kind: ExpressionKind) -> Option<(bool, Option<usize>)> {
    let mut tree = SyntaxTree::new();
    let target = call(&mut tree);
    let parent = node(&mut tree, kind, &[target]);
    let answer = does_exponentiation_expression_need_parens(&tree, target);
    assert_eq!(
        answer.map(|(wrap, _)| wrap),
        does_expression_need_parens(&tree, target, parent)
    );
    if let Some((true, around)) = answer {
        assert_eq!(around, Some(parent));
    }
    answer
}

#[test]
fn base_needs_parentheses_up_to_the_exponential_level_and_for_prefix_forms() {
    let cases = [
        (ExpressionKind::Sequence, true),
        (ExpressionKind::Conditional, true),
        (ExpressionKind::Assignment, true),
        (ExpressionKind::Logical(Some(LogicalOperator::LogicalAnd)), true),
        (ExpressionKind::Binary(Some(BinaryOperator::Plus)), true),
        (ExpressionKind::Binary(Some(BinaryOperator::Times)), true),
        (ExpressionKind::Binary(Some(BinaryOperator::Exponent)), true),
        (ExpressionKind::Unary, true),
        (ExpressionKind::Await, true),
        (ExpressionKind::PreUpdate, true),
        (ExpressionKind::PostUpdate, true),
        (ExpressionKind::Bogus, true),
        (ExpressionKind::TypeAssertion, false),
        (ExpressionKind::NonNullAssertion, false),
        (ExpressionKind::Call { arguments: true }, false),
        (ExpressionKind::New { arguments: false }, false),
        (ExpressionKind::StaticMember, false),
        (ExpressionKind::Identifier, false),
        (ExpressionKind::Literal, false),
        (ExpressionKind::Parenthesized, false),
    ];
    for (kind, expected) in cases {
        let mut tree = SyntaxTree::new();
        let base = node(&mut tree, kind, &[]);
        assert_eq!(does_base_need_parens(&tree, base), Some(expected), "{:?}", kind);
    }
}

#[test]
fn exponent_needs_parentheses_below_the_exponential_level_only() {
    let cases = [
        (ExpressionKind::Sequence, true),
        (ExpressionKind::Yield, true),
        (ExpressionKind::Binary(Some(BinaryOperator::Plus)), true),
        (ExpressionKind::Binary(Some(BinaryOperator::Times)), true),
        (ExpressionKind::In, true),
        (ExpressionKind::Binary(Some(BinaryOperator::Exponent)), false),
        (ExpressionKind::Unary, false),
        (ExpressionKind::Await, false),
        (ExpressionKind::PostUpdate, false),
        (ExpressionKind::Call { arguments: true }, false),
        (ExpressionKind::Identifier, false),
        (ExpressionKind::Parenthesized, false),
    ];
    for (kind, expected) in cases {
        let mut tree = SyntaxTree::new();
        let exponent = node(&mut tree, kind, &[]);
        assert_eq!(does_exponent_need_parens(&tree, exponent), Some(expected), "{:?}", kind);
    }
}

#[test]
fn operand_of_unknown_level_gives_no_answer() {
    let mut tree = SyntaxTree::new();
    let unknown = node(&mut tree, ExpressionKind::Binary(None), &[]);
    assert_eq!(does_base_need_parens(&tree, unknown), None);
    assert_eq!(does_exponent_need_parens(&tree, unknown), None);
    let logical = node(&mut tree, ExpressionKind::Logical(None), &[]);
    assert_eq!(does_base_need_parens(&tree, logical), None);
    let clause = add(&mut tree, SyntaxKind::ExtendsClause, vec![]);
    assert_eq!(does_base_need_parens(&tree, clause), None);
    assert_eq!(does_exponent_need_parens(&tree, 99), None);
}

#[test]
fn parent_in_parentheses_asks_for_none() {
    assert_eq!(under(ExpressionKind::Parenthesized), Some((false, None)));
}

#[test]
fn parents_that_always_ask_for_parentheses() {
    for kind in [
        ExpressionKind::In,
        ExpressionKind::Class,
        ExpressionKind::StaticMember,
        ExpressionKind::Unary,
        ExpressionKind::Template,
    ] {
        let answer = under(kind);
        assert!(matches!(answer, Some((true, Some(_)))), "{:?}", kind);
    }
}

#[test]
fn parents_of_other_kinds_ask_for_none() {
    for kind in [
        ExpressionKind::Sequence,
        ExpressionKind::Yield,
        ExpressionKind::Conditional,
        ExpressionKind::Assignment,
        ExpressionKind::Instanceof,
        ExpressionKind::Logical(Some(LogicalOperator::LogicalOr)),
        ExpressionKind::Logical(None),
        ExpressionKind::Await,
        ExpressionKind::Array,
        ExpressionKind::ArrowFunction,
        ExpressionKind::NonNullAssertion,
    ] {
        assert_eq!(under(kind), Some((false, None)), "{:?}", kind);
    }
}

#[test]
fn infix_parent_asks_for_parentheses_from_the_exponential_level_up() {
    // target * x and x * target: `*` binds looser than `**`.
    let mut tree = SyntaxTree::new();
    let target = call(&mut tree);
    let x = leaf(&mut tree);
    let product = node(&mut tree, ExpressionKind::Binary(Some(BinaryOperator::Times)), &[target, x]);
    assert_eq!(does_expression_need_parens(&tree, target, product), Some(false));
    assert_eq!(does_exponentiation_expression_need_parens(&tree, target), Some((false, None)));

    // target ** x: the base of a `**`.
    let mut tree = SyntaxTree::new();
    let target = call(&mut tree);
    let x = leaf(&mut tree);
    let outer =
        node(&mut tree, ExpressionKind::Binary(Some(BinaryOperator::Exponent)), &[target, x]);
    assert_eq!(does_expression_need_parens(&tree, target, outer), Some(true));
    assert_eq!(
        does_exponentiation_expression_need_parens(&tree, target),
        Some((true, Some(outer)))
    );

    // x ** target: the exponent of a `**`.
    let mut tree = SyntaxTree::new();
    let x = leaf(&mut tree);
    let target = call(&mut tree);
    let outer =
        node(&mut tree, ExpressionKind::Binary(Some(BinaryOperator::Exponent)), &[x, target]);
    assert_eq!(does_expression_need_parens(&tree, target, outer), Some(false));
    assert_eq!(does_exponentiation_expression_need_parens(&tree, target), Some((false, None)));
}

#[test]
fn infix_parent_on_the_left_of_in_always_asks_for_parentheses() {
    // target + x in y: even under `+`, which binds looser than `**`.
    let mut tree = SyntaxTree::new();
    let target = call(&mut tree);
    let x = leaf(&mut tree);
    let sum = node(&mut tree, ExpressionKind::Binary(Some(BinaryOperator::Plus)), &[target, x]);
    let y = leaf(&mut tree);
    node(&mut tree, ExpressionKind::In, &[sum, y]);
    assert_eq!(does_expression_need_parens(&tree, target, sum), Some(true));
    assert_eq!(does_exponentiation_expression_need_parens(&tree, target), Some((true, Some(sum))));

    // y in target + x: on the right of `in` the level of `+` decides.
    let mut tree = SyntaxTree::new();
    let y = leaf(&mut tree);
    let target = call(&mut tree);
    let x = leaf(&mut tree);
    let sum = node(&mut tree, ExpressionKind::Binary(Some(BinaryOperator::Plus)), &[target, x]);
    node(&mut tree, ExpressionKind::In, &[y, sum]);
    assert_eq!(does_expression_need_parens(&tree, target, sum), Some(false));
}

#[test]
fn infix_parent_with_a_missing_part_gives_no_answer() {
    let mut tree = SyntaxTree::new();
    let target = call(&mut tree);
    let x = leaf(&mut tree);
    let unknown = node(&mut tree, ExpressionKind::Binary(None), &[target, x]);
    assert_eq!(does_expression_need_parens(&tree, target, unknown), None);
    assert_eq!(does_exponentiation_expression_need_parens(&tree, target), None);

    let mut tree = SyntaxTree::new();
    let target = call(&mut tree);
    let lonely = add(
        &mut tree,
        SyntaxKind::Expression(ExpressionKind::Binary(Some(BinaryOperator::Exponent))),
        vec![Some(target), None],
    );
    assert_eq!(does_expression_need_parens(&tree, target, lonely), None);
    assert_eq!(does_exponentiation_expression_need_parens(&tree, target), None);
}

#[test]
fn call_parent_asks_for_parentheses_around_its_callee_only() {
    for kind in [ExpressionKind::Call { arguments: true }, ExpressionKind::New { arguments: true }]
    {
        // target(x)
        let mut tree = SyntaxTree::new();
        let target = call(&mut tree);
        let x = leaf(&mut tree);
        let outer = node(&mut tree, kind, &[target, x]);
        assert_eq!(does_expression_need_parens(&tree, target, outer), Some(true));
        assert_eq!(
            does_exponentiation_expression_need_parens(&tree, target),
            Some((true, Some(outer)))
        );

        // f(x, target)
        let mut tree = SyntaxTree::new();
        let f = leaf(&mut tree);
        let x = leaf(&mut tree);
        let target = call(&mut tree);
        let outer = node(&mut tree, kind, &[f, x, target]);
        assert_eq!(does_expression_need_parens(&tree, target, outer), Some(false));
        assert_eq!(does_exponentiation_expression_need_parens(&tree, target), Some((false, None)));
    }
}

#[test]
fn call_parent_without_an_argument_list_gives_no_answer() {
    let mut tree = SyntaxTree::new();
    let target = call(&mut tree);
    let outer = node(&mut tree, ExpressionKind::Call { arguments: false }, &[target]);
    assert_eq!(does_expression_need_parens(&tree, target, outer), None);
    assert_eq!(does_exponentiation_expression_need_parens(&tree, target), None);
}

#[test]
fn constructor_parent_without_an_argument_list_asks_for_parentheses() {
    // new target: nothing in it is an argument.
    let mut tree = SyntaxTree::new();
    let target = call(&mut tree);
    let outer = node(&mut tree, ExpressionKind::New { arguments: false }, &[target]);
    assert_eq!(does_expression_need_parens(&tree, target, outer), Some(true));
    assert_eq!(
        does_exponentiation_expression_need_parens(&tree, target),
        Some((true, Some(outer)))
    );

    let mut tree = SyntaxTree::new();
    let callee = leaf(&mut tree);
    let target = call(&mut tree);
    let outer = node(&mut tree, ExpressionKind::New { arguments: false }, &[callee, target]);
    assert_eq!(does_expression_need_parens(&tree, target, outer), Some(true));
}

#[test]
fn computed_member_parent_asks_for_parentheses_around_its_object_only() {
    // target[x]
    let mut tree = SyntaxTree::new();
    let target = call(&mut tree);
    let x = leaf(&mut tree);
    let access = node(&mut tree, ExpressionKind::ComputedMember, &[target, x]);
    assert_eq!(does_expression_need_parens(&tree, target, access), Some(true));

    // x[target]
    let mut tree = SyntaxTree::new();
    let x = leaf(&mut tree);
    let target = call(&mut tree);
    let access = node(&mut tree, ExpressionKind::ComputedMember, &[x, target]);
    assert_eq!(does_expression_need_parens(&tree, target, access), Some(false));

    // target[ ] with the member missing
    let mut tree = SyntaxTree::new();
    let target = call(&mut tree);
    let access = node(&mut tree, ExpressionKind::ComputedMember, &[target]);
    assert_eq!(does_expression_need_parens(&tree, target, access), None);
}

#[test]
fn template_parent_binds_at_the_member_level_with_a_tag_and_still_asks() {
    let mut tree = SyntaxTree::new();
    let target = call(&mut tree);
    let tagged = node(&mut tree, ExpressionKind::Template, &[target]);
    assert_eq!(does_expression_need_parens(&tree, target, tagged), Some(true));

    let mut tree = SyntaxTree::new();
    let target = call(&mut tree);
    let untagged =
        add(&mut tree, SyntaxKind::Expression(ExpressionKind::Template), vec![None, Some(target)]);
    assert_eq!(does_expression_need_parens(&tree, target, untagged), Some(true));
}

#[test]
fn place_without_an_expression_around_it_asks_for_none() {
    let mut tree = SyntaxTree::new();
    let target = call(&mut tree);
    assert_eq!(does_exponentiation_expression_need_parens(&tree, target), Some((false, None)));
    add(&mut tree, SyntaxKind::Other, vec![Some(target)]);
    assert_eq!(does_exponentiation_expression_need_parens(&tree, target), Some((false, None)));

    let mut tree = SyntaxTree::new();
    let target = call(&mut tree);
    add(&mut tree, SyntaxKind::Spread, vec![Some(target)]);
    assert_eq!(does_exponentiation_expression_need_parens(&tree, target), Some((false, None)));
    assert_eq!(does_exponentiation_expression_need_parens(&tree, 99), Some((false, None)));
}

#[test]
fn extends_clause_always_asks_for_parentheses() {
    // Under a class declaration.
    let mut tree = SyntaxTree::new();
    let target = call(&mut tree);
    let clause = add(&mut tree, SyntaxKind::ExtendsClause, vec![Some(target)]);
    assert_eq!(does_exponentiation_expression_need_parens(&tree, target), Some((true, None)));
    add(&mut tree, SyntaxKind::ClassDeclaration, vec![Some(clause)]);
    assert_eq!(does_exponentiation_expression_need_parens(&tree, target), Some((true, None)));

    // Under a class that is a value.
    let mut tree = SyntaxTree::new();
    let target = call(&mut tree);
    let clause = add(&mut tree, SyntaxKind::ExtendsClause, vec![Some(target)]);
    let class = node(&mut tree, ExpressionKind::Class, &[clause]);
    assert_eq!(
        does_exponentiation_expression_need_parens(&tree, target),
        Some((true, Some(class)))
    );
}

#[test]
fn test_on_a_node_that_is_no_expression_gives_no_answer() {
    let mut tree = SyntaxTree::new();
    let target = call(&mut tree);
    let other = add(&mut tree, SyntaxKind::Other, vec![Some(target)]);
    assert_eq!(does_expression_need_parens(&tree, target, other), None);
    assert_eq!(does_expression_need_parens(&tree, target, 99), None);
}
