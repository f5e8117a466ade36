//! Recursive macro expansion.
//!
//! One level of expansion comes from a [`MacroExpander`]. Every invocation
//! found in its result is expanded in turn, down to a fixed depth, and each
//! one that succeeds takes the place of the invocation it came from; one that
//! fails stays as it was written. Finding the invocations and putting their
//! expansions in place is one rebuild of the tree: each invocation met on the
//! walk is expanded once, at its own position, so two occurrences of the same
//! text are expanded independently.
use vstd::prelude::*;
use crate::syntax::{Children, NodeKind, SyntaxElement, SyntaxNode};

verus! {

/// A macro substitution engine: expands one invocation by one level.
pub trait MacroExpander {
    /// The one-level expansion of `call`, or `None` where it cannot be expanded.
    spec fn spec_expand(&self, call: SyntaxNode) -> Option<SyntaxNode>;

    fn expand_one_level(&self, call: &SyntaxNode) -> (r: Option<SyntaxNode>)
        ensures
            r == self.spec_expand(*call),
    ;
}

/// The full expansion of the invocation `call`, with at most `depth` levels
/// of nested expansion: `None` where `call` itself cannot be expanded or the
/// depth is spent.
pub open spec fn expansion<E: MacroExpander>(e: &E, call: SyntaxNode, depth: nat) -> Option<
    SyntaxNode,
>
    decreases depth, call, 0nat,
{
    if depth == 0 {
        None
    } else {
        match e.spec_expand(call) {
            None => None,
            Some(t) => Some(substituted(e, t, (depth - 1) as nat)),
        }
    }
}

/// `n` with every invocation in it replaced by its full expansion, where that
/// expansion exists. An invocation that is replaced is not looked into; one
/// that fails is kept and its children are looked into. This holds of `n`
/// itself too: when `n` is an invocation that expands, the whole of `n` is
/// replaced.
pub open spec fn substituted<E: MacroExpander>(e: &E, n: SyntaxNode, depth: nat) -> SyntaxNode
    decreases depth, n, 1nat,
{
    if n.kind == NodeKind::MacroCall && expansion(e, n, depth) is Some {
        expansion(e, n, depth).unwrap()
    } else {
        SyntaxNode { children: substituted_list(e, n.children, depth), ..n }
    }
}

pub open spec fn substituted_list<E: MacroExpander>(e: &E, l: Children, depth: nat) -> Children
    decreases depth, l, 1nat,
{
    match l {
        Children::Nil => Children::Nil,
        Children::Cons(h, t) => Children::Cons(
            Box::new(substituted_elem(e, *h, depth)),
            Box::new(substituted_list(e, *t, depth)),
        ),
    }
}

pub open spec fn substituted_elem<E: MacroExpander>(
    e: &E,
    el: SyntaxElement,
    depth: nat,
) -> SyntaxElement
    decreases depth, el, 1nat,
{
    match el {
        SyntaxElement::Token(t) => SyntaxElement::Token(t),
        SyntaxElement::Node(n) => SyntaxElement::Node(substituted(e, n, depth)),
    }
}

/// Expands `call` fully, with at most `depth` levels of nesting.
pub fn expand_macro_recur<E: MacroExpander>(e: &E, call: &SyntaxNode, depth: u64) -> (r: Option<
    SyntaxNode,
>)
    ensures
        r == expansion(e, *call, depth as nat),
        r is Some <==> depth > 0 && e.spec_expand(*call) is Some,
    decreases depth, *call, 0nat,
{
    if depth == 0 {
        return None;
    }
    match e.expand_one_level(call) {
        None => None,
        Some(t) => Some(substitute(e, &t, depth - 1)),
    }
}

/// Replaces every invocation in `n` that expands by its full expansion.
pub fn substitute<E: MacroExpander>(e: &E, n: &SyntaxNode, depth: u64) -> (r: SyntaxNode)
    ensures
        r == substituted(e, *n, depth as nat),
    decreases depth, *n, 1nat,
{
    if n.kind == NodeKind::MacroCall {
        match expand_macro_recur(e, n, depth) {
            Some(r) => {
                return r;
            },
            None => {},
        }
    }
    SyntaxNode {
        kind: n.kind,
        start: n.start,
        end: n.end,
        children: substitute_list(e, &n.children, depth),
    }
}

fn substitute_list<E: MacroExpander>(e: &E, l: &Children, depth: u64) -> (r: Children)
    ensures
        r == substituted_list(e, *l, depth as nat),
    decreases depth, *l, 1nat,
{
    match l {
        Children::Nil => Children::Nil,
        Children::Cons(h, t) => Children::Cons(
            Box::new(substitute_elem(e, &**h, depth)),
            Box::new(substitute_list(e, &**t, depth)),
        ),
    }
}

fn substitute_elem<E: MacroExpander>(e: &E, el: &SyntaxElement, depth: u64) -> (r: SyntaxElement)
    ensures
        r == substituted_elem(e, *el, depth as nat),
    decreases depth, *el, 1nat,
{
    match el {
        SyntaxElement::Token(t) => SyntaxElement::Token(t.duplicate()),
        SyntaxElement::Node(n) => SyntaxElement::Node(substitute(e, n, depth)),
    }
}

/// No node of `n`, `n` included, is an invocation.
pub open spec fn free_of_calls(n: SyntaxNode) -> bool
    decreases n, 1nat,
{
    n.kind != NodeKind::MacroCall && free_of_calls_list(n.children)
}

pub open spec fn free_of_calls_list(l: Children) -> bool
    decreases l, 1nat,
{
    match l {
        Children::Nil => true,
        Children::Cons(h, t) => (match *h {
            SyntaxElement::Node(c) => free_of_calls(c),
            SyntaxElement::Token(_) => true,
        }) && free_of_calls_list(*t),
    }
}

proof fn lemma_substituted_list_free<E: MacroExpander>(e: &E, l: Children, depth: nat)
    requires
        free_of_calls_list(l),
    ensures
        substituted_list(e, l, depth) == l,
    decreases l,
{
    match l {
        Children::Nil => {
            assert(substituted_list(e, l, depth) == l);
        },
        Children::Cons(h, t) => {
            match *h {
                SyntaxElement::Node(c) => {
                    assert(free_of_calls(c));
                    lemma_substituted_list_free(e, c.children, depth);
                    assert(substituted(e, c, depth) == c);
                },
                SyntaxElement::Token(_) => {},
            }
            lemma_substituted_list_free(e, *t, depth);
            assert(substituted_elem(e, *h, depth) == *h);
        },
    }
}

/// Expanding an invocation whose one-level expansion holds no further
/// invocation gives that one-level expansion unchanged.
pub proof fn lemma_expansion_without_nested_calls<E: MacroExpander>(
    e: &E,
    call: SyntaxNode,
    t: SyntaxNode,
    depth: nat,
)
    requires
        depth >= 1,
        e.spec_expand(call) == Some(t),
        free_of_calls(t),
    ensures
        expansion(e, call, depth) == Some(t),
{
    lemma_substituted_list_free(e, t.children, (depth - 1) as nat);
}

/// Where the one-level expansion of `call` is exactly an invocation `inner`
/// that expands, the expansion of `call` is that of `inner`, with no trace of
/// `call` left.
pub proof fn lemma_collapse<E: MacroExpander>(
    e: &E,
    call: SyntaxNode,
    inner: SyntaxNode,
    depth: nat,
)
    requires
        depth >= 1,
        e.spec_expand(call) == Some(inner),
        inner.kind == NodeKind::MacroCall,
        expansion(e, inner, (depth - 1) as nat) is Some,
    ensures
        expansion(e, call, depth) == expansion(e, inner, (depth - 1) as nat),
{
}

/// A chain of invocations `a`, `b`, `c`, where `a` expands to exactly `b`,
/// `b` to exactly `c`, and `c` to a tree `f` free of invocations: expanding
/// `a` gives `f` itself.
pub proof fn lemma_chain_collapse<E: MacroExpander>(
    e: &E,
    a: SyntaxNode,
    b: SyntaxNode,
    c: SyntaxNode,
    f: SyntaxNode,
    depth: nat,
)
    requires
        depth >= 3,
        e.spec_expand(a) == Some(b),
        b.kind == NodeKind::MacroCall,
        e.spec_expand(b) == Some(c),
        c.kind == NodeKind::MacroCall,
        e.spec_expand(c) == Some(f),
        free_of_calls(f),
    ensures
        expansion(e, a, depth) == Some(f),
{
    lemma_expansion_without_nested_calls(e, c, f, (depth - 2) as nat);
    lemma_collapse(e, b, c, (depth - 1) as nat);
    lemma_collapse(e, a, b, depth);
}

/// Where the one-level expansion of `call` is exactly an invocation `inner`
/// that cannot be expanded, expanding `call` still succeeds and gives `inner`
/// as written.
pub proof fn lemma_nested_failure_kept<E: MacroExpander>(
    e: &E,
    call: SyntaxNode,
    inner: SyntaxNode,
    depth: nat,
)
    requires
        depth >= 1,
        e.spec_expand(call) == Some(inner),
        inner.kind == NodeKind::MacroCall,
        e.spec_expand(inner) is None,
        free_of_calls_list(inner.children),
    ensures
        expansion(e, call, depth) == Some(inner),
{
    let d = (depth - 1) as nat;
    lemma_substituted_list_free(e, inner.children, d);
    assert(expansion(e, inner, d) is None);
    assert(substituted(e, inner, d) == inner);
}

} // verus!
