//! A table of macro rules: each gives a fixed body to invocations of one name
//! with one argument text.
use vstd::prelude::*;
use crate::expand::MacroExpander;
use crate::syntax::{Children, NodeKind, SyntaxElement, SyntaxNode, text_of_node};

verus! {

/// Invocations named `name` whose argument text is `args` (delimiters
/// included, no whitespace) expand to `body`.
pub struct MacroRule {
    pub name: String,
    pub args: String,
    pub body: SyntaxNode,
}

/// Invocations expand to the body of the first rule that matches them.
pub struct MacroTable {
    pub rules: Vec<MacroRule>,
}

/// The first name reference in `n`, in document order.
pub open spec fn first_name_ref(n: SyntaxNode) -> Option<SyntaxNode>
    decreases n, 1nat,
{
    if n.kind == NodeKind::NameRef {
        Some(n)
    } else {
        first_name_ref_list(n.children)
    }
}

pub open spec fn first_name_ref_list(l: Children) -> Option<SyntaxNode>
    decreases l, 1nat,
{
    match l {
        Children::Nil => None,
        Children::Cons(h, t) => match *h {
            SyntaxElement::Node(c) => match first_name_ref(c) {
                Some(r) => Some(r),
                None => first_name_ref_list(*t),
            },
            SyntaxElement::Token(_) => first_name_ref_list(*t),
        },
    }
}

/// The first child node of an invocation that holds its arguments.
pub open spec fn token_tree_of(l: Children) -> Option<SyntaxNode>
    decreases l,
{
    match l {
        Children::Nil => None,
        Children::Cons(h, t) => match *h {
            SyntaxElement::Node(c) => if c.kind == NodeKind::TokenTree {
                Some(c)
            } else {
                token_tree_of(*t)
            },
            SyntaxElement::Token(_) => token_tree_of(*t),
        },
    }
}

/// The argument text of an invocation: empty where it has no arguments.
pub open spec fn args_of(call: SyntaxNode) -> Seq<char> {
    match token_tree_of(call.children) {
        Some(tt) => text_of_node(tt),
        None => seq![],
    }
}

/// The body of the first rule for `name` and `args`.
pub open spec fn rule_for(rules: Seq<MacroRule>, name: Seq<char>, args: Seq<char>) -> Option<
    SyntaxNode,
>
    decreases rules.len(),
{
    if rules.len() == 0 {
        None
    } else if rules[0].name@ == name && rules[0].args@ == args {
        Some(rules[0].body)
    } else {
        rule_for(rules.drop_first(), name, args)
    }
}

fn find_token_tree(l: &Children) -> (r: Option<&SyntaxNode>)
    ensures
        deref(r) == token_tree_of(*l),
    decreases *l,
{
    match l {
        Children::Nil => None,
        Children::Cons(h, t) => match &**h {
            SyntaxElement::Node(c) => if c.kind == NodeKind::TokenTree {
                Some(c)
            } else {
                find_token_tree(&**t)
            },
            SyntaxElement::Token(_) => find_token_tree(&**t),
        },
    }
}

fn call_args(call: &SyntaxNode) -> (r: String)
    ensures
        r@ == args_of(*call),
{
    match find_token_tree(&call.children) {
        Some(tt) => tt.text(),
        None => String::new(),
    }
}

fn find_name_ref(n: &SyntaxNode) -> (r: Option<&SyntaxNode>)
    ensures
        deref(r) == first_name_ref(*n),
    decreases *n, 1nat,
{
    if n.kind == NodeKind::NameRef {
        Some(n)
    } else {
        find_name_ref_list(&n.children)
    }
}

fn find_name_ref_list(l: &Children) -> (r: Option<&SyntaxNode>)
    ensures
        deref(r) == first_name_ref_list(*l),
    decreases *l, 1nat,
{
    match l {
        Children::Nil => None,
        Children::Cons(h, t) => match &**h {
            SyntaxElement::Node(c) => match find_name_ref(c) {
                Some(r) => Some(r),
                None => find_name_ref_list(&**t),
            },
            SyntaxElement::Token(_) => find_name_ref_list(&**t),
        },
    }
}

pub open spec fn deref(o: Option<&SyntaxNode>) -> Option<SyntaxNode> {
    match o {
        Some(n) => Some(*n),
        None => None,
    }
}

impl MacroTable {
    pub fn new() -> (r: MacroTable)
        ensures
            r.rules@.len() == 0,
    {
        MacroTable { rules: Vec::new() }
    }

    /// Adds a rule after those already there.
    pub fn add_rule(&mut self, name: &str, args: &str, body: SyntaxNode)
        ensures
            final(self).rules@ == old(self).rules@.push(
                MacroRule {
                    name: final(self).rules@.last().name,
                    args: final(self).rules@.last().args,
                    body,
                },
            ),
            final(self).rules@.last().name@ == name@,
            final(self).rules@.last().args@ == args@,
    {
        self.rules.push(MacroRule { name: name.to_owned(), args: args.to_owned(), body });
    }
}

impl MacroExpander for MacroTable {
    /// An invocation expands to the body of the first rule named as its first
    /// name reference and with its argument text; anything else does not
    /// expand.
    open spec fn spec_expand(&self, call: SyntaxNode) -> Option<SyntaxNode> {
        if call.kind != NodeKind::MacroCall {
            None
        } else {
            match first_name_ref(call) {
                None => None,
                Some(name) => rule_for(self.rules@, text_of_node(name), args_of(call)),
            }
        }
    }

    fn expand_one_level(&self, call: &SyntaxNode) -> (r: Option<SyntaxNode>) {
        if call.kind != NodeKind::MacroCall {
            return None;
        }
        let name = match find_name_ref(call) {
            None => {
                return None;
            },
            Some(n) => n.text(),
        };
        let args = call_args(call);
        assert(self.spec_expand(*call) == rule_for(self.rules@, name@, args@));
        let mut i: usize = 0;
        assert(self.rules@.subrange(0, self.rules@.len() as int) =~= self.rules@);
        while i < self.rules.len()
            invariant
                i <= self.rules@.len(),
                self.spec_expand(*call) == rule_for(self.rules@, name@, args@),
                rule_for(self.rules@.subrange(i as int, self.rules@.len() as int), name@, args@)
                    == rule_for(self.rules@, name@, args@),
            decreases self.rules@.len() - i,
        {
            let ghost rest = self.rules@.subrange(i as int, self.rules@.len() as int);
            assert(rest[0] == self.rules@[i as int]);
            let same = self.rules[i].name.eq(&name) && self.rules[i].args.eq(&args);
            if same {
                assert(rule_for(rest, name@, args@) == Some(self.rules@[i as int].body));
                return Some(self.rules[i].body.duplicate());
            }
            assert(rest.drop_first() =~= self.rules@.subrange(i + 1, self.rules@.len() as int));
            i = i + 1;
        }
        None
    }
}

} // verus!
