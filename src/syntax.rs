//! Immutable syntax trees: nodes with a kind and a span, tokens with a kind
//! and a text, and the token stream of a tree in document order.
use vstd::prelude::*;

verus! {

/// The kind of a leaf token.
#[derive(Clone, Copy, Debug, PartialEq, Eq, Structural)]
pub enum TokenKind {
    Ident,
    Keyword,
    Literal,
    LCurly,
    RCurly,
    Semicolon,
    /// `->`
    ThinArrow,
    /// `=`
    Eq,
    /// `=>`
    FatArrow,
    /// Any other punctuation symbol (parentheses, `!`, `+`, `::`, ...).
    Punct,
    /// Anything that is neither punctuation nor text-like (a lifetime, ...).
    Other,
}

impl TokenKind {
    /// Identifiers, keywords and literals.
    pub open spec fn spec_is_text(self) -> bool {
        self == TokenKind::Ident || self == TokenKind::Keyword || self == TokenKind::Literal
    }

    pub open spec fn spec_is_punct(self) -> bool {
        match self {
            TokenKind::Ident | TokenKind::Keyword | TokenKind::Literal | TokenKind::Other => false,
            _ => true,
        }
    }

    pub fn is_text(self) -> (r: bool)
        ensures
            r == self.spec_is_text(),
    {
        match self {
            TokenKind::Ident | TokenKind::Keyword | TokenKind::Literal => true,
            _ => false,
        }
    }

    pub fn is_punct(self) -> (r: bool)
        ensures
            r == self.spec_is_punct(),
    {
        match self {
            TokenKind::Ident | TokenKind::Keyword | TokenKind::Literal | TokenKind::Other => false,
            _ => true,
        }
    }
}

/// The kind of an inner node.
#[derive(Clone, Copy, Debug, PartialEq, Eq, Structural)]
pub enum NodeKind {
    /// A `name!(...)` invocation.
    MacroCall,
    /// A reference to a name.
    NameRef,
    /// The delimited argument tokens of an invocation.
    TokenTree,
    Other,
}

#[derive(Debug)]
pub struct SyntaxToken {
    pub kind: TokenKind,
    pub text: String,
}

/// A node: its kind, the span `start..end` it covers in the source text, and
/// its children in order.
#[derive(Debug)]
pub struct SyntaxNode {
    pub kind: NodeKind,
    pub start: u64,
    pub end: u64,
    pub children: Children,
}

#[derive(Debug)]
pub enum SyntaxElement {
    Node(SyntaxNode),
    Token(SyntaxToken),
}

/// The children of a node, first to last.
#[derive(Debug)]
pub enum Children {
    Nil,
    Cons(Box<SyntaxElement>, Box<Children>),
}

/// The children as a sequence.
pub open spec fn elems(l: Children) -> Seq<SyntaxElement>
    decreases l,
{
    match l {
        Children::Nil => seq![],
        Children::Cons(h, t) => seq![*h] + elems(*t),
    }
}

/// The tokens of a node in document order (depth first, tokens only).
pub open spec fn tokens_of_node(n: SyntaxNode) -> Seq<SyntaxToken>
    decreases n, 2nat,
{
    tokens_of_list(n.children)
}

pub open spec fn tokens_of_list(l: Children) -> Seq<SyntaxToken>
    decreases l, 1nat,
{
    match l {
        Children::Nil => seq![],
        Children::Cons(h, t) => tokens_of_elem(*h) + tokens_of_list(*t),
    }
}

pub open spec fn tokens_of_elem(e: SyntaxElement) -> Seq<SyntaxToken>
    decreases e, 1nat,
{
    match e {
        SyntaxElement::Token(t) => seq![t],
        SyntaxElement::Node(n) => tokens_of_node(n),
    }
}

/// The concatenated texts of a token sequence.
pub open spec fn text_of_tokens(s: Seq<SyntaxToken>) -> Seq<char>
    decreases s.len(),
{
    if s.len() == 0 {
        seq![]
    } else {
        text_of_tokens(s.drop_last()) + s.last().text@
    }
}

/// The source text of a node: the texts of its tokens, one after another.
pub open spec fn text_of_node(n: SyntaxNode) -> Seq<char> {
    text_of_tokens(tokens_of_node(n))
}

impl SyntaxToken {
    pub fn new(kind: TokenKind, text: &str) -> (r: SyntaxToken)
        ensures
            r.kind == kind,
            r.text@ == text@,
    {
        SyntaxToken { kind, text: text.to_owned() }
    }

    pub fn duplicate(&self) -> (r: SyntaxToken)
        ensures
            r == *self,
    {
        SyntaxToken { kind: self.kind, text: self.text.clone() }
    }
}

impl SyntaxNode {
    /// A node with the given children, first to last.
    pub fn new(kind: NodeKind, start: u64, end: u64, children: Vec<SyntaxElement>) -> (r:
        SyntaxNode)
        ensures
            r.kind == kind,
            r.start == start,
            r.end == end,
            elems(r.children) == children@,
    {
        let ghost all = children@;
        let mut rest = children;
        let mut list = Children::Nil;
        while rest.len() > 0
            invariant
                rest@.len() <= all.len(),
                rest@ == all.subrange(0, rest@.len() as int),
                elems(list) == all.subrange(rest@.len() as int, all.len() as int),
            decreases rest@.len(),
        {
            let ghost before = rest@.len() as int;
            let e = rest.pop().unwrap();
            assert(e == all[before - 1]);
            assert(all.subrange(before - 1, all.len() as int) =~= seq![e] + all.subrange(
                before,
                all.len() as int,
            ));
            list = Children::Cons(Box::new(e), Box::new(list));
        }
        assert(all.subrange(0, all.len() as int) =~= all);
        SyntaxNode { kind, start, end, children: list }
    }

    pub fn duplicate(&self) -> (r: SyntaxNode)
        ensures
            r == *self,
        decreases *self, 2nat,
    {
        SyntaxNode {
            kind: self.kind,
            start: self.start,
            end: self.end,
            children: self.children.duplicate(),
        }
    }

    /// Appends the tokens of this node to `out`, in document order.
    pub fn collect_tokens(&self, out: &mut Vec<SyntaxToken>)
        ensures
            final(out)@ == old(out)@ + tokens_of_node(*self),
        decreases *self, 2nat,
    {
        self.children.collect_tokens(out);
    }

    /// The text of this node.
    pub fn text(&self) -> (r: String)
        ensures
            r@ == text_of_node(*self),
    {
        let mut toks: Vec<SyntaxToken> = Vec::new();
        self.collect_tokens(&mut toks);
        assert(toks@ =~= tokens_of_node(*self));
        let mut r = String::new();
        let mut i: usize = 0;
        while i < toks.len()
            invariant
                i <= toks@.len(),
                toks@ == tokens_of_node(*self),
                r@ == text_of_tokens(toks@.subrange(0, i as int)),
            decreases toks@.len() - i,
        {
            assert(toks@.subrange(0, i + 1).drop_last() =~= toks@.subrange(0, i as int));
            r.append(toks[i].text.as_str());
            i = i + 1;
        }
        assert(toks@.subrange(0, i as int) =~= toks@);
        r
    }
}

impl SyntaxElement {
    pub fn duplicate(&self) -> (r: SyntaxElement)
        ensures
            r == *self,
        decreases *self, 2nat,
    {
        match self {
            SyntaxElement::Node(n) => SyntaxElement::Node(n.duplicate()),
            SyntaxElement::Token(t) => SyntaxElement::Token(t.duplicate()),
        }
    }

    pub fn collect_tokens(&self, out: &mut Vec<SyntaxToken>)
        ensures
            final(out)@ == old(out)@ + tokens_of_elem(*self),
        decreases *self, 1nat,
    {
        match self {
            SyntaxElement::Node(n) => n.collect_tokens(out),
            SyntaxElement::Token(t) => {
                out.push(t.duplicate());
            },
        }
    }
}

impl Children {
    pub fn duplicate(&self) -> (r: Children)
        ensures
            r == *self,
        decreases *self, 1nat,
    {
        match self {
            Children::Nil => Children::Nil,
            Children::Cons(h, t) => Children::Cons(
                Box::new((**h).duplicate()),
                Box::new((**t).duplicate()),
            ),
        }
    }

    pub fn collect_tokens(&self, out: &mut Vec<SyntaxToken>)
        ensures
            final(out)@ == old(out)@ + tokens_of_list(*self),
        decreases *self, 1nat,
    {
        match self {
            Children::Nil => {
                assert(final(out)@ =~= old(out)@ + tokens_of_list(*self));
            },
            Children::Cons(h, t) => {
                (**h).collect_tokens(out);
                (**t).collect_tokens(out);
                assert(final(out)@ =~= old(out)@ + tokens_of_list(*self));
            },
        }
    }
}

} // verus!
