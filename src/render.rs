//! Rendering of a tree without whitespace as readable, indented text.
//!
//! Expansion output carries no layout, so spacing, line breaks and
//! indentation are inferred from the kinds of adjacent tokens alone.
use vstd::prelude::*;
use crate::syntax::{SyntaxNode, SyntaxToken, TokenKind, tokens_of_node};

verus! {

/// `n` levels of indentation, two spaces each.
pub open spec fn indent_text(n: nat) -> Seq<char>
    decreases n,
{
    if n == 0 {
        seq![]
    } else {
        indent_text((n - 1) as nat) + seq![' ', ' ']
    }
}

/// What one token renders as, given the kinds of its neighbours and the
/// current indentation, together with the indentation that follows it.
pub open spec fn emit(
    tok: SyntaxToken,
    prev: Option<TokenKind>,
    next: Option<TokenKind>,
    indent: nat,
) -> (Seq<char>, nat) {
    if tok.kind.spec_is_text() && (next matches Some(k) ==> !k.spec_is_punct()) {
        (tok.text@ + seq![' '], indent)
    } else if tok.kind == TokenKind::LCurly && (next matches Some(k) ==> k != TokenKind::RCurly) {
        let lead = if prev matches Some(k) && k.spec_is_text() {
            seq![' ']
        } else {
            seq![]
        };
        (lead + seq!['{', '\n'] + indent_text(indent + 1), indent + 1)
    } else if tok.kind == TokenKind::RCurly && (prev matches Some(k) ==> k != TokenKind::LCurly) {
        let i: nat = if indent == 0 {
            0
        } else {
            (indent - 1) as nat
        };
        (seq!['\n'] + indent_text(i) + seq!['}'], i)
    } else if tok.kind == TokenKind::RCurly {
        (seq!['}', '\n'] + indent_text(indent), indent)
    } else if tok.kind == TokenKind::Semicolon {
        (seq![';', '\n'] + indent_text(indent), indent)
    } else if tok.kind == TokenKind::ThinArrow {
        (seq![' ', '-', '>', ' '], indent)
    } else if tok.kind == TokenKind::Eq {
        (seq![' ', '=', ' '], indent)
    } else if tok.kind == TokenKind::FatArrow {
        (seq![' ', '=', '>', ' '], indent)
    } else {
        (tok.text@, indent)
    }
}

/// The rendering of `toks` from position `i` on, with indentation `indent`
/// in effect there.
pub open spec fn render_from(toks: Seq<SyntaxToken>, i: int, indent: nat) -> Seq<char>
    decreases toks.len() - i,
{
    if i < 0 || i >= toks.len() {
        seq![]
    } else {
        let prev = if i == 0 {
            None
        } else {
            Some(toks[i - 1].kind)
        };
        let next = if i + 1 < toks.len() {
            Some(toks[i + 1].kind)
        } else {
            None
        };
        let (out, after) = emit(toks[i], prev, next, indent);
        out + render_from(toks, i + 1, after)
    }
}

/// The rendering of a token stream, starting unindented.
pub open spec fn render_tokens(toks: Seq<SyntaxToken>) -> Seq<char> {
    render_from(toks, 0, 0)
}

/// The rendering of a tree: that of its tokens in document order.
pub open spec fn render(n: SyntaxNode) -> Seq<char> {
    render_tokens(tokens_of_node(n))
}

/// An opening brace followed at once by a closing one renders as the two
/// braces with nothing between them, then a line break at the current
/// indentation, which stays as it was.
pub proof fn lemma_empty_block(toks: Seq<SyntaxToken>, i: int, indent: nat)
    requires
        0 <= i,
        i + 1 < toks.len(),
        toks[i].kind == TokenKind::LCurly,
        toks[i + 1].kind == TokenKind::RCurly,
    ensures
        render_from(toks, i, indent) == toks[i].text@ + seq!['}', '\n'] + indent_text(indent)
            + render_from(toks, i + 2, indent),
{
    assert(render_from(toks, i + 1, indent) == seq!['}', '\n'] + indent_text(indent)
        + render_from(toks, i + 2, indent));
    assert(render_from(toks, i, indent) == toks[i].text@ + render_from(toks, i + 1, indent));
}

fn push_indent(res: &mut String, n: usize)
    ensures
        final(res)@ == old(res)@ + indent_text(n as nat),
{
    let ghost start = res@;
    let mut i: usize = 0;
    while i < n
        invariant
            i <= n,
            res@ == start + indent_text(i as nat),
        decreases n - i,
    {
        proof {
            reveal_strlit("  ");
        }
        res.append("  ");
        i = i + 1;
        assert(res@ =~= start + indent_text(i as nat));
    }
}

/// Appends the rendering of one token to `res` and returns the indentation
/// that follows it.
#[verifier::spinoff_prover]
fn emit_token(
    res: &mut String,
    tok: &SyntaxToken,
    prev: Option<TokenKind>,
    next: Option<TokenKind>,
    indent: usize,
) -> (after: usize)
    requires
        indent < usize::MAX,
    ensures
        final(res)@ == old(res)@ + emit(*tok, prev, next, indent as nat).0,
        after as nat == emit(*tok, prev, next, indent as nat).1,
{
    let next_not_punct = match next {
        Some(k) => !k.is_punct(),
        None => true,
    };
    let next_not_close = match next {
        Some(k) => k != TokenKind::RCurly,
        None => true,
    };
    let prev_is_text = match prev {
        Some(k) => k.is_text(),
        None => false,
    };
    let prev_not_open = match prev {
        Some(k) => k != TokenKind::LCurly,
        None => true,
    };
    let ghost start = res@;
    if tok.kind.is_text() && next_not_punct {
        proof {
            reveal_strlit(" ");
        }
        res.append(tok.text.as_str());
        res.append(" ");
        assert(res@ =~= start + emit(*tok, prev, next, indent as nat).0);
        indent
    } else if tok.kind == TokenKind::LCurly && next_not_close {
        proof {
            reveal_strlit(" ");
            reveal_strlit("{\n");
        }
        if prev_is_text {
            res.append(" ");
        }
        res.append("{\n");
        push_indent(res, indent + 1);
        assert(res@ =~= start + emit(*tok, prev, next, indent as nat).0);
        indent + 1
    } else if tok.kind == TokenKind::RCurly && prev_not_open {
        let i: usize = if indent == 0 {
            0
        } else {
            indent - 1
        };
        proof {
            reveal_strlit("\n");
            reveal_strlit("}");
        }
        res.append("\n");
        push_indent(res, i);
        res.append("}");
        assert(res@ =~= start + emit(*tok, prev, next, indent as nat).0);
        i
    } else if tok.kind == TokenKind::RCurly {
        proof {
            reveal_strlit("}\n");
        }
        res.append("}\n");
        push_indent(res, indent);
        assert(res@ =~= start + emit(*tok, prev, next, indent as nat).0);
        indent
    } else if tok.kind == TokenKind::Semicolon {
        proof {
            reveal_strlit(";\n");
        }
        res.append(";\n");
        push_indent(res, indent);
        assert(res@ =~= start + emit(*tok, prev, next, indent as nat).0);
        indent
    } else if tok.kind == TokenKind::ThinArrow {
        proof {
            reveal_strlit(" -> ");
        }
        res.append(" -> ");
        indent
    } else if tok.kind == TokenKind::Eq {
        proof {
            reveal_strlit(" = ");
        }
        res.append(" = ");
        indent
    } else if tok.kind == TokenKind::FatArrow {
        proof {
            reveal_strlit(" => ");
        }
        res.append(" => ");
        indent
    } else {
        res.append(tok.text.as_str());
        indent
    }
}

/// Renders the tokens of `syn` as indented text.
pub fn insert_whitespaces(syn: &SyntaxNode) -> (r: String)
    ensures
        r@ == render(*syn),
{
    let mut toks: Vec<SyntaxToken> = Vec::new();
    syn.collect_tokens(&mut toks);
    assert(toks@ =~= tokens_of_node(*syn));
    let mut res = String::new();
    let mut indent: usize = 0;
    let mut last: Option<TokenKind> = None;
    let mut i: usize = 0;
    while i < toks.len()
        invariant
            i <= toks@.len(),
            indent <= i,
            toks@ == tokens_of_node(*syn),
            last == (if i == 0 {
                None
            } else {
                Some(toks@[i - 1].kind)
            }),
            res@ + render_from(toks@, i as int, indent as nat) == render_tokens(toks@),
        decreases toks@.len() - i,
    {
        let next = if i + 1 < toks.len() {
            Some(toks[i + 1].kind)
        } else {
            None
        };
        let ghost before = res@;
        let after = emit_token(&mut res, &toks[i], last, next, indent);
        assert(before + render_from(toks@, i as int, indent as nat) == res@ + render_from(
            toks@,
            i + 1,
            after as nat,
        ));
        indent = after;
        last = Some(toks[i].kind);
        i = i + 1;
    }
    assert(res@ =~= res@ + render_from(toks@, i as int, indent as nat));
    res
}

} // verus!
