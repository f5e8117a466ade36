//! Finding the macro invocation under a cursor.
use vstd::prelude::*;
use crate::syntax::{Children, NodeKind, SyntaxElement, SyntaxNode, text_of_node};

verus! {

/// The span of `n` contains `offset` (both ends included).
pub open spec fn covers(n: SyntaxNode, offset: u64) -> bool {
    n.start <= offset && offset <= n.end
}

pub open spec fn deref_opt(o: Option<&SyntaxNode>) -> Option<SyntaxNode> {
    match o {
        Some(n) => Some(*n),
        None => None,
    }
}

/// Descends from `n` towards `offset`, always into the first child node whose
/// span covers it. `None` where no name reference lies on that path; else
/// `Some` of what the innermost one gives: its text and the nearest
/// invocation strictly above it, or `None` where it has no such ancestor.
/// `enclosing` is the nearest invocation strictly above `n`.
pub open spec fn located(n: SyntaxNode, offset: u64, enclosing: Option<SyntaxNode>) -> Option<
    Option<(Seq<char>, SyntaxNode)>,
>
    decreases n, 1nat,
{
    let below = if n.kind == NodeKind::MacroCall {
        Some(n)
    } else {
        enclosing
    };
    match located_list(n.children, offset, below) {
        Some(r) => Some(r),
        None => if n.kind == NodeKind::NameRef {
            match enclosing {
                Some(m) => Some(Some((text_of_node(n), m))),
                None => Some(None),
            }
        } else {
            None
        },
    }
}

pub open spec fn located_list(l: Children, offset: u64, enclosing: Option<SyntaxNode>) -> Option<
    Option<(Seq<char>, SyntaxNode)>,
>
    decreases l, 1nat,
{
    match l {
        Children::Nil => None,
        Children::Cons(h, t) => match *h {
            SyntaxElement::Node(c) => if covers(c, offset) {
                located(c, offset, enclosing)
            } else {
                located_list(*t, offset, enclosing)
            },
            SyntaxElement::Token(_) => located_list(*t, offset, enclosing),
        },
    }
}

/// The name under `offset` in the tree `root` and the invocation that
/// encloses it: found from the innermost name reference whose span covers
/// `offset`, then its nearest invocation ancestor.
pub open spec fn location(root: SyntaxNode, offset: u64) -> Option<(Seq<char>, SyntaxNode)> {
    if covers(root, offset) {
        match located(root, offset, None) {
            Some(Some(r)) => Some(r),
            _ => None,
        }
    } else {
        None
    }
}

fn locate_node(n: &SyntaxNode, offset: u64, enclosing: Option<&SyntaxNode>) -> (r: Option<
    Option<(String, SyntaxNode)>,
>)
    ensures
        match (r, located(*n, offset, deref_opt(enclosing))) {
            (None, None) => true,
            (Some(None), Some(None)) => true,
            (Some(Some(x)), Some(Some(y))) => x.0@ == y.0 && x.1 == y.1,
            _ => false,
        },
    decreases *n, 1nat,
{
    let below = if n.kind == NodeKind::MacroCall {
        Some(n)
    } else {
        enclosing
    };
    match locate_list(&n.children, offset, below) {
        Some(r) => Some(r),
        None => if n.kind == NodeKind::NameRef {
            match enclosing {
                Some(m) => Some(Some((n.text(), m.duplicate()))),
                None => Some(None),
            }
        } else {
            None
        },
    }
}

fn locate_list(l: &Children, offset: u64, enclosing: Option<&SyntaxNode>) -> (r: Option<
    Option<(String, SyntaxNode)>,
>)
    ensures
        match (r, located_list(*l, offset, deref_opt(enclosing))) {
            (None, None) => true,
            (Some(None), Some(None)) => true,
            (Some(Some(x)), Some(Some(y))) => x.0@ == y.0 && x.1 == y.1,
            _ => false,
        },
    decreases *l, 1nat,
{
    match l {
        Children::Nil => None,
        Children::Cons(h, t) => match &**h {
            SyntaxElement::Node(c) => if c.start <= offset && offset <= c.end {
                locate_node(c, offset, enclosing)
            } else {
                locate_list(&**t, offset, enclosing)
            },
            SyntaxElement::Token(_) => locate_list(&**t, offset, enclosing),
        },
    }
}

/// The text of the name reference under `offset` and a copy of the macro
/// invocation that encloses it; `None` where there is no such pair.
pub fn locate(root: &SyntaxNode, offset: u64) -> (r: Option<(String, SyntaxNode)>)
    ensures
        match (r, location(*root, offset)) {
            (None, None) => true,
            (Some(x), Some(y)) => x.0@ == y.0 && x.1 == y.1,
            _ => false,
        },
{
    if root.start <= offset && offset <= root.end {
        match locate_node(root, offset, None) {
            Some(Some(r)) => Some(r),
            _ => None,
        }
    } else {
        None
    }
}

/// Some invocation in `n`, `n` included, has a span that covers `offset`.
pub open spec fn call_covers(n: SyntaxNode, offset: u64) -> bool
    decreases n, 1nat,
{
    (n.kind == NodeKind::MacroCall && covers(n, offset)) || call_covers_list(n.children, offset)
}

pub open spec fn call_covers_list(l: Children, offset: u64) -> bool
    decreases l, 1nat,
{
    match l {
        Children::Nil => false,
        Children::Cons(h, t) => (match *h {
            SyntaxElement::Node(c) => call_covers(c, offset),
            SyntaxElement::Token(_) => false,
        }) || call_covers_list(*t, offset),
    }
}

proof fn lemma_located_from(n: SyntaxNode, offset: u64, enclosing: Option<SyntaxNode>)
    requires
        covers(n, offset),
    ensures
        located(n, offset, enclosing) matches Some(Some((_, m))) ==> enclosing == Some(m)
            || call_covers(n, offset),
    decreases n, 1nat,
{
    let below = if n.kind == NodeKind::MacroCall {
        Some(n)
    } else {
        enclosing
    };
    lemma_located_list_from(n.children, offset, below);
}

proof fn lemma_located_list_from(l: Children, offset: u64, enclosing: Option<SyntaxNode>)
    ensures
        located_list(l, offset, enclosing) matches Some(Some((_, m))) ==> enclosing == Some(m)
            || call_covers_list(l, offset),
    decreases l, 1nat,
{
    match l {
        Children::Nil => {},
        Children::Cons(h, t) => {
            match *h {
                SyntaxElement::Node(c) => {
                    if covers(c, offset) {
                        lemma_located_from(c, offset, enclosing);
                    } else {
                        lemma_located_list_from(*t, offset, enclosing);
                    }
                },
                SyntaxElement::Token(_) => {
                    lemma_located_list_from(*t, offset, enclosing);
                },
            }
        },
    }
}

/// At an offset that no invocation in `root` covers, nothing is located.
pub proof fn lemma_miss_is_absent(root: SyntaxNode, offset: u64)
    requires
        !call_covers(root, offset),
    ensures
        location(root, offset) is None,
{
    if covers(root, offset) {
        lemma_located_from(root, offset, None);
    }
}

} // verus!
