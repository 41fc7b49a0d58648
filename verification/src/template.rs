//! What a template with switch blocks renders to.
//!
//! The host renders the nodes of a template in document order and keeps a
//! stack of scopes. A `switch` block pushes a scope, renders its body and
//! pops the scope again; `case` and `default` are decided by the helpers of
//! the innermost scope. This module writes that down as a function on
//! sequences of nodes and proves what the three helpers achieve together.

use vstd::prelude::*;
use serde_json::Value;
use crate::json::matches_any;
use crate::switch::{case_renders, default_renders, Scope};

verus! {

/// A piece of a template.
pub enum Node {
    /// Anything that renders to the same text whatever the scopes hold.
    Text(Seq<char>),
    /// A `switch` block on a value. A switch without an argument is not a
    /// node: the helper refuses it before any scope exists.
    Switch { value: Value, body: Seq<Node> },
    /// A `case` block with its arguments.
    Case { args: Seq<Value>, body: Seq<Node> },
    /// A `default` block.
    Default { body: Seq<Node> },
}

/// The scopes after rendering, innermost last, and the text written.
pub struct Rendered {
    pub scopes: Seq<Scope>,
    pub text: Seq<char>,
}

impl Rendered {
    /// Nothing written, the scopes as they are.
    pub open spec fn nothing(scopes: Seq<Scope>) -> Rendered {
        Rendered { scopes, text: Seq::empty() }
    }
}

/// Renders `nodes` in order, each in the scopes that the one before left.
pub open spec fn render(scopes: Seq<Scope>, nodes: Seq<Node>) -> Rendered
    decreases nodes, 0nat,
{
    if nodes.len() == 0 {
        Rendered::nothing(scopes)
    } else {
        let first = render_node(scopes, nodes.first());
        let rest = render(first.scopes, nodes.drop_first());
        Rendered { scopes: rest.scopes, text: first.text + rest.text }
    }
}

/// Renders one node. Outside every scope the helpers of `case` and
/// `default` have no flag to decide on and skip: such a block is given no
/// text. (The host does not get that far. It knows the two names only
/// inside a switch block and fails the render anywhere else.)
pub open spec fn render_node(scopes: Seq<Scope>, node: Node) -> Rendered
    decreases node, 1nat,
{
    match node {
        Node::Text(text) => Rendered { scopes, text },
        Node::Switch { value, body } => {
            let inner = render(scopes.push(Scope::opened(value)), body);
            Rendered { scopes: inner.scopes.drop_last(), text: inner.text }
        },
        Node::Case { args, body } => {
            if scopes.len() > 0 && case_renders(scopes.last().matched, scopes.last().value, args) {
                render(scopes.update(scopes.len() - 1, scopes.last().raised()), body)
            } else {
                Rendered::nothing(scopes)
            }
        },
        Node::Default { body } => {
            if scopes.len() > 0 && default_renders(scopes.last().matched) {
                render(scopes, body)
            } else {
                Rendered::nothing(scopes)
            }
        },
    }
}

/// Whether `after` is `before` with at most the innermost match flag raised.
pub open spec fn at_most_raised(before: Seq<Scope>, after: Seq<Scope>) -> bool {
    &&& after.len() == before.len()
    &&& forall|k: int| 0 <= k < before.len() - 1 ==> after[k] == before[k]
    &&& before.len() > 0 ==> {
        &&& after.last().value == before.last().value
        &&& before.last().matched ==> after.last().matched
    }
}

/// Rendering never opens or closes a scope for good, never touches a scope
/// below the innermost, and never lowers a match flag.
pub proof fn lemma_render_keeps_scopes(scopes: Seq<Scope>, nodes: Seq<Node>)
    ensures
        at_most_raised(scopes, render(scopes, nodes).scopes),
    decreases nodes, 0nat,
{
    if nodes.len() > 0 {
        let first = render_node(scopes, nodes.first());
        lemma_render_node_keeps_scopes(scopes, nodes.first());
        lemma_render_keeps_scopes(first.scopes, nodes.drop_first());
    }
}

/// The same for one node. A `switch` block leaves every scope as it was.
pub proof fn lemma_render_node_keeps_scopes(scopes: Seq<Scope>, node: Node)
    ensures
        at_most_raised(scopes, render_node(scopes, node).scopes),
        node is Switch ==> render_node(scopes, node).scopes == scopes,
    decreases node, 1nat,
{
    match node {
        Node::Text(text) => {},
        Node::Switch { value, body } => {
            let pushed = scopes.push(Scope::opened(value));
            lemma_render_keeps_scopes(pushed, body);
        },
        Node::Case { args, body } => {
            if scopes.len() > 0 && case_renders(scopes.last().matched, scopes.last().value, args) {
                lemma_render_keeps_scopes(
                    scopes.update(scopes.len() - 1, scopes.last().raised()),
                    body,
                );
            }
        },
        Node::Default { body } => {
            if scopes.len() > 0 && default_renders(scopes.last().matched) {
                lemma_render_keeps_scopes(scopes, body);
            }
        },
    }
}

/// What was rendered in `rendered.scopes`, seen with the scopes `below`
/// under them.
pub open spec fn on_top_of(below: Seq<Scope>, rendered: Rendered) -> Rendered {
    Rendered { scopes: below + rendered.scopes, text: rendered.text }
}

/// Inside a scope, rendering neither reads nor changes the scopes below
/// it.
pub proof fn lemma_render_ignores_outer_scopes(
    below: Seq<Scope>,
    scopes: Seq<Scope>,
    nodes: Seq<Node>,
)
    requires
        scopes.len() > 0,
    ensures
        render(below + scopes, nodes) == on_top_of(below, render(scopes, nodes)),
    decreases nodes, 0nat,
{
    if nodes.len() > 0 {
        let first = render_node(scopes, nodes.first());
        lemma_render_node_ignores_outer_scopes(below, scopes, nodes.first());
        lemma_render_node_keeps_scopes(scopes, nodes.first());
        lemma_render_ignores_outer_scopes(below, first.scopes, nodes.drop_first());
    }
}

/// The same for one node.
pub proof fn lemma_render_node_ignores_outer_scopes(
    below: Seq<Scope>,
    scopes: Seq<Scope>,
    node: Node,
)
    requires
        scopes.len() > 0,
    ensures
        render_node(below + scopes, node) == on_top_of(below, render_node(scopes, node)),
    decreases node, 1nat,
{
    let all = below + scopes;
    match node {
        Node::Text(text) => {},
        Node::Switch { value, body } => {
            let pushed = scopes.push(Scope::opened(value));
            lemma_render_ignores_outer_scopes(below, pushed, body);
            lemma_render_keeps_scopes(pushed, body);
            let inner = render(pushed, body);
            assert((below + inner.scopes).drop_last() =~= below + inner.scopes.drop_last());
        },
        Node::Case { args, body } => {
            if case_renders(scopes.last().matched, scopes.last().value, args) {
                let raised = scopes.update(scopes.len() - 1, scopes.last().raised());
                assert(all.update(all.len() - 1, all.last().raised()) =~= below + raised);
                lemma_render_ignores_outer_scopes(below, raised, body);
            }
        },
        Node::Default { body } => {
            if default_renders(scopes.last().matched) {
                lemma_render_ignores_outer_scopes(below, scopes, body);
            }
        },
    }
}

impl Node {
    /// Whether the node is a `case` or a `default` block.
    pub open spec fn is_branch(self) -> bool {
        self is Case || self is Default
    }
}

/// Whether every node of `nodes` is a `case` or a `default` block.
pub open spec fn only_branches(nodes: Seq<Node>) -> bool {
    forall|k: int| 0 <= k < nodes.len() ==> (#[trigger] nodes[k]).is_branch()
}

/// In a scope whose match flag is up, `case` and `default` blocks render
/// nothing and change nothing.
pub proof fn lemma_branches_silent_once_matched(scopes: Seq<Scope>, nodes: Seq<Node>)
    requires
        scopes.len() > 0,
        scopes.last().matched,
        only_branches(nodes),
    ensures
        render(scopes, nodes) == Rendered::nothing(scopes),
    decreases nodes.len(),
{
    if nodes.len() > 0 {
        assert(render_node(scopes, nodes.first()) == Rendered::nothing(scopes));
        assert(only_branches(nodes.drop_first()));
        lemma_branches_silent_once_matched(scopes, nodes.drop_first());
    }
}

/// Matching is exclusive: in a scope, once a `case` block has been passed
/// whose arguments hold the switched value, the `case` and `default` blocks
/// after it render nothing and change nothing, whatever their arguments.
pub proof fn lemma_match_is_exclusive(
    scopes: Seq<Scope>,
    args: Seq<Value>,
    body: Seq<Node>,
    later: Seq<Node>,
)
    requires
        scopes.len() > 0,
        matches_any(scopes.last().value, args),
        only_branches(later),
    ensures
        render(scopes, seq![Node::Case { args, body }] + later) == render(
            scopes,
            seq![Node::Case { args, body }],
        ),
{
    let case = Node::Case { args, body };
    let alone = seq![case];
    let all = alone + later;
    let first = render_node(scopes, case);
    lemma_render_node_keeps_scopes(scopes, case);
    if !scopes.last().matched {
        lemma_render_keeps_scopes(scopes.update(scopes.len() - 1, scopes.last().raised()), body);
    }
    assert(all.drop_first() =~= later);
    lemma_branches_silent_once_matched(first.scopes, later);
    assert(render(first.scopes, alone.drop_first()) == Rendered::nothing(first.scopes));
}

/// Nesting independence: a `switch` block leaves every scope around it as
/// it was, and renders the same text whatever those scopes hold.
pub proof fn lemma_nested_switch_is_independent(
    outer: Seq<Scope>,
    other: Seq<Scope>,
    value: Value,
    body: Seq<Node>,
)
    ensures
        render_node(outer, Node::Switch { value, body }).scopes == outer,
        render_node(outer, Node::Switch { value, body }).text == render_node(
            other,
            Node::Switch { value, body },
        ).text,
{
    let node = Node::Switch { value, body };
    let own = seq![Scope::opened(value)];
    lemma_render_node_keeps_scopes(outer, node);
    assert(outer.push(Scope::opened(value)) =~= outer + own);
    assert(other.push(Scope::opened(value)) =~= other + own);
    lemma_render_ignores_outer_scopes(outer, own, body);
    lemma_render_ignores_outer_scopes(other, own, body);
}

/// The body of a switch block that holds the `case` blocks of `cases` in
/// order, each given by its arguments and its body, and after them a
/// `default` block with the body `fallback`, where there is one.
pub open spec fn branches(cases: Seq<(Seq<Value>, Seq<Node>)>, fallback: Option<Seq<Node>>) -> Seq<
    Node,
> {
    Seq::new(cases.len(), |i: int| Node::Case { args: cases[i].0, body: cases[i].1 }) + (
    match fallback {
        Some(body) => seq![Node::Default { body }],
        None => Seq::empty(),
    })
}

/// Whether case `i` is the first of `cases` whose arguments hold `value`.
pub open spec fn is_first_match(value: Value, cases: Seq<(Seq<Value>, Seq<Node>)>, i: int) -> bool {
    &&& 0 <= i < cases.len()
    &&& matches_any(value, cases[i].0)
    &&& forall|j: int| 0 <= j < i ==> !matches_any(value, (#[trigger] cases[j]).0)
}

/// Whether no case of `cases` has arguments that hold `value`.
pub open spec fn no_match(value: Value, cases: Seq<(Seq<Value>, Seq<Node>)>) -> bool {
    forall|j: int| 0 <= j < cases.len() ==> !matches_any(value, (#[trigger] cases[j]).0)
}

/// A body made by `branches` starts with the first case and goes on as the
/// body made of the cases after it.
proof fn lemma_branches_unfold(cases: Seq<(Seq<Value>, Seq<Node>)>, fallback: Option<Seq<Node>>)
    requires
        cases.len() > 0,
    ensures
        branches(cases, fallback).first() == (Node::Case { args: cases[0].0, body: cases[0].1 }),
        branches(cases, fallback).drop_first() == branches(cases.drop_first(), fallback),
        only_branches(branches(cases, fallback)),
{
}

/// In a scope whose flag is down, the branches render what the body of the
/// first matching case renders once the flag is up.
proof fn lemma_first_match_in_scope(
    scopes: Seq<Scope>,
    cases: Seq<(Seq<Value>, Seq<Node>)>,
    fallback: Option<Seq<Node>>,
    i: int,
)
    requires
        scopes.len() > 0,
        !scopes.last().matched,
        is_first_match(scopes.last().value, cases, i),
    ensures
        render(scopes, branches(cases, fallback)).text == render(
            scopes.update(scopes.len() - 1, scopes.last().raised()),
            cases[i].1,
        ).text,
    decreases cases.len(),
{
    let nodes = branches(cases, fallback);
    lemma_branches_unfold(cases, fallback);
    let rest = cases.drop_first();
    if i == 0 {
        let raised = scopes.update(scopes.len() - 1, scopes.last().raised());
        let first = render(raised, cases[0].1);
        assert(render_node(scopes, nodes.first()) == first);
        lemma_render_keeps_scopes(raised, cases[0].1);
        assert(only_branches(nodes.drop_first())) by {
            if rest.len() > 0 {
                lemma_branches_unfold(rest, fallback);
            }
        }
        lemma_branches_silent_once_matched(first.scopes, nodes.drop_first());
    } else {
        assert(render_node(scopes, nodes.first()) == Rendered::nothing(scopes));
        assert(is_first_match(scopes.last().value, rest, i - 1));
        lemma_first_match_in_scope(scopes, rest, fallback, i - 1);
    }
}

/// In a scope whose flag is down, branches without a matching case render
/// what the body of the default renders, if there is one.
proof fn lemma_no_match_in_scope(
    scopes: Seq<Scope>,
    cases: Seq<(Seq<Value>, Seq<Node>)>,
    fallback: Option<Seq<Node>>,
)
    requires
        scopes.len() > 0,
        !scopes.last().matched,
        no_match(scopes.last().value, cases),
    ensures
        render(scopes, branches(cases, fallback)).text == (match fallback {
            Some(body) => render(scopes, body).text,
            None => Seq::empty(),
        }),
    decreases cases.len(),
{
    let nodes = branches(cases, fallback);
    if cases.len() == 0 {
        if let Some(body) = fallback {
            let first = render_node(scopes, Node::Default { body });
            assert(render(first.scopes, nodes.drop_first()) == Rendered::nothing(first.scopes));
        }
    } else {
        lemma_branches_unfold(cases, fallback);
        let rest = cases.drop_first();
        assert(render_node(scopes, nodes.first()) == Rendered::nothing(scopes));
        assert(no_match(scopes.last().value, rest));
        lemma_no_match_in_scope(scopes, rest, fallback);
    }
}

/// First match wins: a switch on `value` over `cases` renders what the
/// body of the first case whose arguments hold `value` renders, inside the
/// scope of the switch with its match flag up. No later case and no
/// default adds to it. Where the body is plain text, that is the text
/// itself (`lemma_text_renders_as_written`).
pub proof fn lemma_first_match_wins(
    outer: Seq<Scope>,
    value: Value,
    cases: Seq<(Seq<Value>, Seq<Node>)>,
    fallback: Option<Seq<Node>>,
    i: int,
)
    requires
        is_first_match(value, cases, i),
    ensures
        render_node(outer, Node::Switch { value, body: branches(cases, fallback) }).text == render(
            outer.push(Scope::opened(value).raised()),
            cases[i].1,
        ).text,
{
    let scopes = outer.push(Scope::opened(value));
    lemma_first_match_in_scope(scopes, cases, fallback, i);
    assert(scopes.update(scopes.len() - 1, scopes.last().raised()) =~= outer.push(
        Scope::opened(value).raised(),
    ));
}

/// Without a match the default renders: a switch on `value` over `cases`,
/// none of which holds `value`, renders what the body of its `default`
/// block renders inside the scope of the switch, and nothing where it has
/// no `default` block.
pub proof fn lemma_default_without_match(
    outer: Seq<Scope>,
    value: Value,
    cases: Seq<(Seq<Value>, Seq<Node>)>,
    fallback: Option<Seq<Node>>,
)
    requires
        no_match(value, cases),
    ensures
        render_node(outer, Node::Switch { value, body: branches(cases, fallback) }).text == (
        match fallback {
            Some(body) => render(outer.push(Scope::opened(value)), body).text,
            None => Seq::empty(),
        }),
{
    lemma_no_match_in_scope(outer.push(Scope::opened(value)), cases, fallback);
}

/// Text renders as it is written, in any scopes.
pub proof fn lemma_text_renders_as_written(scopes: Seq<Scope>, text: Seq<char>)
    ensures
        render(scopes, seq![Node::Text(text)]) == (Rendered { scopes, text }),
{
    let nodes = seq![Node::Text(text)];
    assert(render_node(scopes, nodes.first()) == (Rendered { scopes, text }));
    assert(render(scopes, nodes.drop_first()) == Rendered::nothing(scopes));
}

} // verus!
