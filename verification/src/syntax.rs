//! The syntax tree that the rule reads: nodes with a kind, a source range and
//! children, held by the tree that owns them and named by their index in it.

use crate::precedence::{BinaryOperator, LogicalOperator, OperatorPrecedence};
use vstd::prelude::*;

verus! {

/// A range of the source text, in bytes from its start.
#[derive(Clone, Copy, Debug, PartialEq, Eq, Hash)]
pub struct TextRange {
    pub start: u32,
    pub end: u32,
}

/// The kinds of expression. The comment on a kind names its children in the
/// order of their slots; a slot is empty where the source left the child out.
#[derive(Clone, Copy, Debug, PartialEq, Eq, Hash)]
pub enum ExpressionKind {
    /// `a, b`: the left and the right expression.
    Sequence,
    /// `yield a`: the argument.
    Yield,
    /// `a ? b : c`: the test, the consequent, the alternate.
    Conditional,
    /// `a = b`: the target, the value.
    Assignment,
    /// `a in b`: the property, the object.
    In,
    /// `a instanceof b`: the left and the right expression.
    Instanceof,
    /// `a as T`: the expression.
    As,
    /// `a satisfies T`: the expression.
    Satisfies,
    /// `a && b`, `a || b`, `a ?? b`, with the operator where it could be
    /// read: the left and the right expression.
    Logical(Option<LogicalOperator>),
    /// `a + b` and the like, with the operator where it could be read: the
    /// left and the right expression.
    Binary(Option<BinaryOperator>),
    /// `<T>a`: the expression.
    TypeAssertion,
    /// `a!`: the expression.
    NonNullAssertion,
    /// `-a`, `!a`, `typeof a` and the like: the argument.
    Unary,
    /// `await a`: the argument.
    Await,
    /// `a++`, `a--`: the operand.
    PostUpdate,
    /// `++a`, `--a`: the operand.
    PreUpdate,
    /// `f(a, b)`: the callee, then the arguments, where the call has an
    /// argument list.
    Call { arguments: bool },
    /// `import(a)`: the arguments.
    ImportCall,
    /// `super`.
    Super,
    /// `new C(a, b)` or `new C`: the callee, then the arguments, where there
    /// is an argument list.
    New { arguments: bool },
    /// `a[b]`: the object, the member.
    ComputedMember,
    /// `a.b`: the object. The text of the node is the name of the member.
    StaticMember,
    /// `import.meta`.
    ImportMeta,
    /// `f<T>`: the expression.
    Instantiation,
    /// `new.target`.
    NewTarget,
    /// `this`.
    This,
    /// A number, a boolean, `null`, a regular expression, a big integer.
    Literal,
    /// A string literal. The text of the node is the value of the string.
    StringLiteral,
    /// `[a, b]`: the elements.
    Array,
    /// `(a) => b`: the body, where it is an expression.
    ArrowFunction,
    /// `class extends A {}` as a value: the extends clause.
    Class,
    /// `function () {}` as a value.
    Function,
    /// A reference to a name. The text of the node is the name.
    Identifier,
    /// `{ a: b }`: the values of the members.
    Object,
    /// A JSX element.
    JsxTag,
    /// A template literal: the tag, then the substitutions.
    Template,
    /// Source text that could not be read as an expression.
    Bogus,
    /// `(a)`: the expression.
    Parenthesized,
}

/// The kinds of node.
#[derive(Clone, Copy, Debug, PartialEq, Eq, Hash)]
pub enum SyntaxKind {
    Expression(ExpressionKind),
    /// `...a` among the arguments of a call: the argument.
    Spread,
    /// `extends A` in a class: the super class.
    ExtendsClause,
    /// A class declaration: the extends clause.
    ClassDeclaration,
    /// Any other syntax: statements, declarations, patterns, types.
    Other,
}

/// What a tree is told of a node that is added to it.
#[derive(Clone, Debug, PartialEq, Eq)]
pub struct SyntaxNode {
    pub kind: SyntaxKind,
    pub range: TextRange,
    /// The text of an identifier, the name of the member of a static member
    /// access, the value of a string literal; empty for other kinds.
    pub text: String,
    /// The children, one slot each, in source order.
    pub children: Vec<Option<usize>>,
}

/// Where a node stands: in which slot of which node.
#[derive(Clone, Copy, Debug, PartialEq, Eq, Hash)]
pub struct Position {
    pub parent: usize,
    pub slot: usize,
}

/// A syntax tree, or several side by side. The tree owns its nodes; a node is
/// named by its index, and children are added before their parent, so that
/// the index of a child is below that of its parent.
pub struct SyntaxTree {
    nodes: Vec<SyntaxNode>,
    positions: Vec<Option<Position>>,
}

impl SyntaxTree {
    /// The nodes, by index.
    pub closed spec fn nodes(&self) -> Seq<SyntaxNode> {
        self.nodes@
    }

    /// The place of each node, by index: none for a node without a parent.
    pub closed spec fn positions(&self) -> Seq<Option<Position>> {
        self.positions@
    }

    /// Parents and children agree: a child stands where its parent holds it,
    /// in that one slot, and below its parent in the order of indices.
    pub open spec fn wf(&self) -> bool {
        &&& self.positions().len() == self.nodes().len()
        &&& forall|p: int, k: int|
            0 <= p < self.nodes().len() && 0 <= k < self.nodes()[p].children@.len() ==> (
            #[trigger] self.nodes()[p].children@[k] matches Some(c) ==> c < p
                && self.positions()[c as int] == Some(
                Position { parent: p as usize, slot: k as usize },
            ))
        &&& forall|c: int|
            0 <= c < self.nodes().len() ==> (#[trigger] self.positions()[c] matches Some(at) ==> c
                < at.parent < self.nodes().len() && at.slot
                < self.nodes()[at.parent as int].children@.len()
                && self.nodes()[at.parent as int].children@[at.slot as int] == Some(c as usize))
    }

    /// Whether `node` can be added: each of its children is a node of the
    /// tree that has no parent yet, and none stands in two of its slots.
    pub open spec fn accepts(&self, node: SyntaxNode) -> bool {
        forall|k: int|
            0 <= k < node.children@.len() ==> (#[trigger] node.children@[k] matches Some(c) ==> c
                < self.nodes().len() && self.positions()[c as int] is None && forall|i: int|
                0 <= i < k ==> node.children@[i] != Some(c))
    }

    /// Whether `id` names a node of the tree.
    pub open spec fn has(&self, id: usize) -> bool {
        id < self.nodes().len()
    }

    /// A tree without nodes.
    pub fn new() -> (tree: SyntaxTree)
        ensures
            tree.wf(),
            tree.nodes().len() == 0,
    {
        SyntaxTree { nodes: Vec::new(), positions: Vec::new() }
    }

    /// The number of nodes.
    pub fn len(&self) -> (len: usize)
        ensures
            len == self.nodes().len(),
    {
        self.nodes.len()
    }

    /// Adds `node` as the parent of its children and answers with its index.
    /// A node that the tree does not accept is not added.
    pub fn add(&mut self, node: SyntaxNode) -> (id: Option<usize>)
        requires
            old(self).wf(),
        ensures
            final(self).wf(),
            id is Some <==> old(self).accepts(node),
            id is None ==> *final(self) == *old(self),
            id matches Some(id) ==> {
                &&& id == old(self).nodes().len()
                &&& final(self).nodes() == old(self).nodes().push(node)
                &&& final(self).positions()[id as int] is None
                &&& forall|k: int|
                    0 <= k < node.children@.len() ==> (#[trigger] node.children@[k] matches Some(
                        c,
                    ) ==> final(self).positions()[c as int] == Some(
                        Position { parent: id, slot: k as usize },
                    ))
                &&& forall|c: int|
                    0 <= c < id && !node.children@.contains(Some(c as usize))
                        ==> final(self).positions()[c] == old(self).positions()[c]
            },
    {
        let n: usize = self.nodes.len();
        let count: usize = node.children.len();
        let mut k: usize = 0;
        while k < count
            invariant
                k <= count,
                count == node.children@.len(),
                n == self.nodes@.len(),
                old(self).wf(),
                *self == *old(self),
                forall|j: int|
                    0 <= j < k ==> (#[trigger] node.children@[j] matches Some(c) ==> c < n
                        && self.positions@[c as int] is None && forall|i: int|
                        0 <= i < j ==> node.children@[i] != Some(c)),
            decreases count - k,
        {
            if let Some(c) = node.children[k] {
                if c >= n {
                    return None;
                }
                if self.positions[c].is_some() {
                    return None;
                }
                let mut i: usize = 0;
                while i < k
                    invariant
                        i <= k < count,
                        count == node.children@.len(),
                        node.children@[k as int] == Some(c),
                        old(self).wf(),
                        *self == *old(self),
                        forall|h: int| 0 <= h < i ==> node.children@[h] != Some(c),
                    decreases k - i,
                {
                    if let Some(d) = node.children[i] {
                        if d == c {
                            return None;
                        }
                    }
                    i += 1;
                }
            }
            k += 1;
        }
        assert(old(self).accepts(node));
        let mut k: usize = 0;
        while k < count
            invariant
                k <= count,
                count == node.children@.len(),
                old(self).wf(),
                old(self).accepts(node),
                n == old(self).nodes@.len(),
                self.nodes@ == old(self).nodes@,
                self.positions@.len() == n,
                forall|j: int|
                    0 <= j < k ==> (#[trigger] node.children@[j] matches Some(c)
                        ==> self.positions@[c as int] == Some(
                        Position { parent: n, slot: j as usize },
                    )),
                forall|c: int|
                    0 <= c < n ==> #[trigger] self.positions@[c] == old(self).positions@[c] || (
                    self.positions@[c] matches Some(at) && at.parent == n && at.slot < k
                        && node.children@[at.slot as int] == Some(c as usize)),
            decreases count - k,
        {
            if let Some(c) = node.children[k] {
                self.positions.set(c, Some(Position { parent: n, slot: k }));
            }
            k += 1;
        }
        self.nodes.push(node);
        self.positions.push(None);
        proof {
            assert forall|c: int|
                0 <= c < n && !node.children@.contains(Some(c as usize)) implies self.positions@[c]
                == old(self).positions@[c] by {
                if self.positions@[c] != old(self).positions@[c] {
                    let at = self.positions@[c]->Some_0;
                    assert(node.children@[at.slot as int] == Some(c as usize));
                }
            }
            assert forall|p: int, k: int|
                0 <= p < self.nodes().len() && 0 <= k < self.nodes()[p].children@.len() implies (
            #[trigger] self.nodes()[p].children@[k] matches Some(c) ==> c < p
                && self.positions()[c as int] == Some(
                Position { parent: p as usize, slot: k as usize },
            )) by {
                if p < n {
                    if let Some(c) = old(self).nodes()[p].children@[k] {
                        assert(old(self).positions()[c as int] is Some);
                        if self.positions@[c as int] != old(self).positions@[c as int] {
                            let at = self.positions@[c as int]->Some_0;
                            assert(node.children@[at.slot as int] == Some(c));
                        }
                    }
                }
            }
        }
        Some(n)
    }
}

impl SyntaxTree {
    /// The kind of a node; none where `id` names no node.
    pub open spec fn spec_kind(&self, id: usize) -> Option<SyntaxKind> {
        if self.has(id) {
            Some(self.nodes()[id as int].kind)
        } else {
            None
        }
    }

    /// The kind of an expression; none for any other node.
    pub open spec fn spec_expression_kind(&self, id: usize) -> Option<ExpressionKind> {
        match self.spec_kind(id) {
            Some(SyntaxKind::Expression(kind)) => Some(kind),
            _ => None,
        }
    }

    /// The child in a slot of a node; none where the slot is empty or there
    /// is no such slot.
    pub open spec fn spec_child(&self, id: usize, slot: int) -> Option<usize> {
        if self.has(id) && 0 <= slot < self.nodes()[id as int].children@.len() {
            self.nodes()[id as int].children@[slot]
        } else {
            None
        }
    }

    /// Where a node stands; none for a node without a parent.
    pub open spec fn spec_position(&self, id: usize) -> Option<Position> {
        if self.has(id) {
            self.positions()[id as int]
        } else {
            None
        }
    }

    /// The parent of a node.
    pub open spec fn spec_parent(&self, id: usize) -> Option<usize> {
        match self.spec_position(id) {
            Some(at) => Some(at.parent),
            None => None,
        }
    }

    /// The text of a node; empty where `id` names no node.
    pub open spec fn spec_text(&self, id: usize) -> Seq<char> {
        if self.has(id) {
            self.nodes()[id as int].text@
        } else {
            Seq::empty()
        }
    }

    /// The node of index `id`.
    pub fn node(&self, id: usize) -> (node: Option<&SyntaxNode>)
        ensures
            node == if self.has(id) {
                Some(&self.nodes()[id as int])
            } else {
                None
            },
    {
        if id < self.nodes.len() {
            Some(&self.nodes[id])
        } else {
            None
        }
    }

    /// The kind of a node.
    pub fn kind(&self, id: usize) -> (kind: Option<SyntaxKind>)
        ensures
            kind == self.spec_kind(id),
    {
        if id < self.nodes.len() {
            Some(self.nodes[id].kind)
        } else {
            None
        }
    }

    /// The kind of an expression.
    pub fn expression_kind(&self, id: usize) -> (kind: Option<ExpressionKind>)
        ensures
            kind == self.spec_expression_kind(id),
    {
        match self.kind(id) {
            Some(SyntaxKind::Expression(kind)) => Some(kind),
            _ => None,
        }
    }

    /// The child in a slot of a node.
    pub fn child(&self, id: usize, slot: usize) -> (child: Option<usize>)
        ensures
            child == self.spec_child(id, slot as int),
    {
        if id < self.nodes.len() && slot < self.nodes[id].children.len() {
            self.nodes[id].children[slot]
        } else {
            None
        }
    }

    /// Where a node stands.
    pub fn position(&self, id: usize) -> (position: Option<Position>)
        requires
            self.wf(),
        ensures
            position == self.spec_position(id),
    {
        if id < self.positions.len() {
            self.positions[id]
        } else {
            None
        }
    }

    /// The parent of a node.
    pub fn parent(&self, id: usize) -> (parent: Option<usize>)
        requires
            self.wf(),
        ensures
            parent == self.spec_parent(id),
    {
        match self.position(id) {
            Some(at) => Some(at.parent),
            None => None,
        }
    }

    /// The level at which an expression binds. It is unknown where the
    /// operator of an infix expression could not be read, and for a node
    /// that is no expression.
    pub open spec fn spec_precedence(&self, id: usize) -> Option<OperatorPrecedence> {
        match self.spec_expression_kind(id) {
            None => None,
            Some(kind) => match kind {
                ExpressionKind::Sequence => Some(OperatorPrecedence::Comma),
                ExpressionKind::Yield => Some(OperatorPrecedence::Yield),
                ExpressionKind::Conditional => Some(OperatorPrecedence::Conditional),
                ExpressionKind::Assignment => Some(OperatorPrecedence::Assignment),
                ExpressionKind::In
                | ExpressionKind::Instanceof
                | ExpressionKind::As
                | ExpressionKind::Satisfies => Some(OperatorPrecedence::Relational),
                ExpressionKind::Logical(operator) => match operator {
                    Some(operator) => Some(operator.spec_precedence()),
                    None => None,
                },
                ExpressionKind::Binary(operator) => match operator {
                    Some(operator) => Some(operator.spec_precedence()),
                    None => None,
                },
                ExpressionKind::TypeAssertion
                | ExpressionKind::NonNullAssertion
                | ExpressionKind::Unary
                | ExpressionKind::Await => Some(OperatorPrecedence::Unary),
                ExpressionKind::PostUpdate | ExpressionKind::PreUpdate => Some(
                    OperatorPrecedence::Update,
                ),
                ExpressionKind::Call { .. }
                | ExpressionKind::ImportCall
                | ExpressionKind::Super => Some(OperatorPrecedence::LeftHandSide),
                ExpressionKind::New { arguments } => if arguments {
                    Some(OperatorPrecedence::LeftHandSide)
                } else {
                    Some(OperatorPrecedence::NewWithoutArguments)
                },
                ExpressionKind::ComputedMember
                | ExpressionKind::StaticMember
                | ExpressionKind::ImportMeta
                | ExpressionKind::Instantiation
                | ExpressionKind::NewTarget => Some(OperatorPrecedence::Member),
                ExpressionKind::This
                | ExpressionKind::Literal
                | ExpressionKind::StringLiteral
                | ExpressionKind::Array
                | ExpressionKind::ArrowFunction
                | ExpressionKind::Class
                | ExpressionKind::Function
                | ExpressionKind::Identifier
                | ExpressionKind::Object
                | ExpressionKind::JsxTag => Some(OperatorPrecedence::Primary),
                ExpressionKind::Template => if self.spec_child(id, 0) is Some {
                    Some(OperatorPrecedence::Member)
                } else {
                    Some(OperatorPrecedence::Primary)
                },
                ExpressionKind::Bogus => Some(OperatorPrecedence::Comma),
                ExpressionKind::Parenthesized => Some(OperatorPrecedence::Group),
            },
        }
    }

    /// The level at which an expression binds.
    pub fn precedence(&self, id: usize) -> (level: Option<OperatorPrecedence>)
        ensures
            level == self.spec_precedence(id),
    {
        match self.expression_kind(id) {
            None => None,
            Some(kind) => match kind {
                ExpressionKind::Sequence => Some(OperatorPrecedence::Comma),
                ExpressionKind::Yield => Some(OperatorPrecedence::Yield),
                ExpressionKind::Conditional => Some(OperatorPrecedence::Conditional),
                ExpressionKind::Assignment => Some(OperatorPrecedence::Assignment),
                ExpressionKind::In
                | ExpressionKind::Instanceof
                | ExpressionKind::As
                | ExpressionKind::Satisfies => Some(OperatorPrecedence::Relational),
                ExpressionKind::Logical(operator) => match operator {
                    Some(operator) => Some(operator.precedence()),
                    None => None,
                },
                ExpressionKind::Binary(operator) => match operator {
                    Some(operator) => Some(operator.precedence()),
                    None => None,
                },
                ExpressionKind::TypeAssertion
                | ExpressionKind::NonNullAssertion
                | ExpressionKind::Unary
                | ExpressionKind::Await => Some(OperatorPrecedence::Unary),
                ExpressionKind::PostUpdate | ExpressionKind::PreUpdate => Some(
                    OperatorPrecedence::Update,
                ),
                ExpressionKind::Call { .. }
                | ExpressionKind::ImportCall
                | ExpressionKind::Super => Some(OperatorPrecedence::LeftHandSide),
                ExpressionKind::New { arguments } => if arguments {
                    Some(OperatorPrecedence::LeftHandSide)
                } else {
                    Some(OperatorPrecedence::NewWithoutArguments)
                },
                ExpressionKind::ComputedMember
                | ExpressionKind::StaticMember
                | ExpressionKind::ImportMeta
                | ExpressionKind::Instantiation
                | ExpressionKind::NewTarget => Some(OperatorPrecedence::Member),
                ExpressionKind::This
                | ExpressionKind::Literal
                | ExpressionKind::StringLiteral
                | ExpressionKind::Array
                | ExpressionKind::ArrowFunction
                | ExpressionKind::Class
                | ExpressionKind::Function
                | ExpressionKind::Identifier
                | ExpressionKind::Object
                | ExpressionKind::JsxTag => Some(OperatorPrecedence::Primary),
                ExpressionKind::Template => if self.child(id, 0).is_some() {
                    Some(OperatorPrecedence::Member)
                } else {
                    Some(OperatorPrecedence::Primary)
                },
                ExpressionKind::Bogus => Some(OperatorPrecedence::lowest()),
                ExpressionKind::Parenthesized => Some(OperatorPrecedence::highest()),
            },
        }
    }

    /// The expression inside the parentheses around it: `id` itself unless it
    /// is a parenthesized expression that holds one.
    pub open spec fn spec_omit_parentheses(&self, id: usize) -> usize
        decreases id,
    {
        if self.spec_expression_kind(id) == Some(ExpressionKind::Parenthesized) && self.spec_child(
            id,
            0,
        ) is Some && self.spec_child(id, 0)->Some_0 < id {
            self.spec_omit_parentheses(self.spec_child(id, 0)->Some_0)
        } else {
            id
        }
    }

    /// The expression inside the parentheses around it.
    pub fn omit_parentheses(&self, id: usize) -> (inner: usize)
        requires
            self.wf(),
        ensures
            inner == self.spec_omit_parentheses(id),
    {
        let mut current: usize = id;
        loop
            invariant
                self.wf(),
                self.spec_omit_parentheses(current) == self.spec_omit_parentheses(id),
            decreases current,
        {
            match self.expression_kind(current) {
                Some(ExpressionKind::Parenthesized) => match self.child(current, 0) {
                    Some(inner) => {
                        current = inner;
                    },
                    None => {
                        return current;
                    },
                },
                _ => {
                    return current;
                },
            }
        }
    }

    /// The name of the member that a member access reads: the name behind
    /// the dot, or the value of the string literal between the brackets.
    /// Any other access, and any other node, has none.
    pub open spec fn spec_member_name(&self, id: usize) -> Option<Seq<char>> {
        match self.spec_expression_kind(id) {
            Some(ExpressionKind::StaticMember) => Some(self.spec_text(id)),
            Some(ExpressionKind::ComputedMember) => match self.spec_child(id, 1) {
                Some(member) => {
                    let key = self.spec_omit_parentheses(member);
                    if self.spec_expression_kind(key) == Some(ExpressionKind::StringLiteral) {
                        Some(self.spec_text(key))
                    } else {
                        None
                    }
                },
                None => None,
            },
            _ => None,
        }
    }

    /// The name of the member that a member access reads.
    pub fn member_name(&self, id: usize) -> (name: Option<&String>)
        requires
            self.wf(),
        ensures
            match name {
                Some(name) => self.spec_member_name(id) == Some(name@),
                None => self.spec_member_name(id) is None,
            },
    {
        match self.expression_kind(id) {
            Some(ExpressionKind::StaticMember) => Some(&self.nodes[id].text),
            Some(ExpressionKind::ComputedMember) => match self.child(id, 1) {
                Some(member) => {
                    let key = self.omit_parentheses(member);
                    match self.expression_kind(key) {
                        Some(ExpressionKind::StringLiteral) => Some(&self.nodes[key].text),
                        _ => None,
                    }
                },
                None => None,
            },
            _ => None,
        }
    }

    /// The reference through which an expression names a global, with the
    /// name: the expression itself where it is an identifier.
    pub open spec fn spec_global_identifier(&self, id: usize) -> Option<(usize, Seq<char>)> {
        if self.spec_expression_kind(id) == Some(ExpressionKind::Identifier) {
            Some((id, self.spec_text(id)))
        } else {
            None
        }
    }

    /// The reference through which an expression names a global, with the
    /// name.
    pub fn global_identifier(&self, id: usize) -> (found: Option<(usize, &String)>)
        ensures
            match found {
                Some((reference, name)) => self.spec_global_identifier(id) == Some(
                    (reference, name@),
                ),
                None => self.spec_global_identifier(id) is None,
            },
    {
        match self.expression_kind(id) {
            Some(ExpressionKind::Identifier) => Some((id, &self.nodes[id].text)),
            _ => None,
        }
    }
}

/// Stripping parentheses stays inside the tree, never goes up, and ends at a
/// node that is not a parenthesized expression with something inside.
pub proof fn lemma_omit_parentheses(tree: SyntaxTree, id: usize)
    requires
        tree.wf(),
    ensures
        tree.spec_omit_parentheses(id) <= id,
        tree.has(id) ==> tree.has(tree.spec_omit_parentheses(id)),
        !(tree.spec_expression_kind(tree.spec_omit_parentheses(id)) == Some(
            ExpressionKind::Parenthesized,
        ) && tree.spec_child(tree.spec_omit_parentheses(id), 0) is Some),
        tree.spec_omit_parentheses(tree.spec_omit_parentheses(id)) == tree.spec_omit_parentheses(
            id,
        ),
    decreases id,
{
    if tree.spec_expression_kind(id) == Some(ExpressionKind::Parenthesized) && tree.spec_child(
        id,
        0,
    ) is Some {
        let inner = tree.spec_child(id, 0)->Some_0;
        assert(tree.nodes()[id as int].children@[0] == Some(inner));
        lemma_omit_parentheses(tree, inner);
    }
}

} // verus!
