//! Interactive macro expansion: find the macro invocation under a cursor,
//! expand it recursively, and render the result as indented text.
use vstd::prelude::*;

pub mod syntax;
pub mod render;
pub mod expand;
pub mod locate;
pub mod table;

pub use syntax::{Children, NodeKind, SyntaxElement, SyntaxNode, SyntaxToken, TokenKind};
pub use expand::{MacroExpander, expand_macro_recur};
pub use locate::locate;
pub use render::insert_whitespaces;
pub use table::{MacroRule, MacroTable};

use crate::expand::expansion;
use crate::locate::location;
use crate::render::render;

verus! {

/// The name of an invocation and the text of its full expansion.
pub struct ExpandedMacro {
    pub name: String,
    pub expansion: String,
}

/// Expands the macro invocation under `offset` in the tree `file`, with at
/// most `max_expansion_depth` levels of nesting. `None` where no name under
/// `offset` lies inside an invocation, or where that invocation does not
/// expand.
pub fn expand_macro<E: MacroExpander>(
    e: &E,
    file: &SyntaxNode,
    offset: u64,
    max_expansion_depth: u64,
) -> (r: Option<ExpandedMacro>)
    ensures
        match location(*file, offset) {
            None => r is None,
            Some((name, call)) => match expansion(e, call, max_expansion_depth as nat) {
                None => r is None,
                Some(t) => r is Some && r.unwrap().name@ == name && r.unwrap().expansion@
                    == render(t),
            },
        },
{
    let (name, call) = match locate(file, offset) {
        Some(found) => found,
        None => {
            return None;
        },
    };
    let expanded = match expand_macro_recur(e, &call, max_expansion_depth) {
        Some(t) => t,
        None => {
            return None;
        },
    };
    let expansion = insert_whitespaces(&expanded);
    Some(ExpandedMacro { name, expansion })
}

} // verus!
