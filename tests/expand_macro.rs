use macro_expand::{
    expand_macro, expand_macro_recur, insert_whitespaces, locate, MacroExpander, MacroTable,
    NodeKind, SyntaxElement, SyntaxNode, SyntaxToken, TokenKind,
};

const KEYWORDS: [&str; 8] = ["fn", "let", "if", "else", "match", "continue", "loop", "return"];

fn kind_of(word: &str) -> TokenKind {
    match word {
        "{" => TokenKind::LCurly,
        "}" => TokenKind::RCurly,
        ";" => TokenKind::Semicolon,
        "->" => TokenKind::ThinArrow,
        "=" => TokenKind::Eq,
        "=>" => TokenKind::FatArrow,
        _ if KEYWORDS.contains(&word) => TokenKind::Keyword,
        _ if word.starts_with(|c: char| c.is_ascii_digit()) => TokenKind::Literal,
        _ if word.starts_with(|c: char| c.is_alphabetic() || c == '_' || c == '$') => {
            TokenKind::Ident
        }
        _ => TokenKind::Punct,
    }
}

/// Tokens of a source text whose tokens are separated by spaces.
fn lex(src: &str) -> Vec<SyntaxElement> {
    src.split_whitespace()
        .map(|w| SyntaxElement::Token(SyntaxToken::new(kind_of(w), w)))
        .collect()
}

/// The argument text of `src` as an invocation carries it: no whitespace.
fn joined(src: &str) -> String {
    src.split_whitespace().collect::<Vec<_>>().concat()
}

fn body(src: &str) -> SyntaxNode {
    SyntaxNode::new(NodeKind::Other, 0, 0, lex(src))
}

/// `name ! args trailing` as an invocation starting at `start`.
fn call_at(name: &str, args: &str, trailing: &str, start: u64) -> SyntaxNode {
    let name_end = start + name.len() as u64;
    let end = name_end + 1 + joined(args).len() as u64 + joined(trailing).len() as u64;
    let mut children = vec![
        SyntaxElement::Node(SyntaxNode::new(
            NodeKind::NameRef,
            start,
            name_end,
            lex(name),
        )),
        SyntaxElement::Token(SyntaxToken::new(TokenKind::Punct, "!")),
        SyntaxElement::Node(SyntaxNode::new(NodeKind::TokenTree, name_end + 1, end, lex(args))),
    ];
    children.extend(lex(trailing));
    SyntaxNode::new(NodeKind::MacroCall, start, end, children)
}

fn call(name: &str, args: &str, trailing: &str) -> SyntaxNode {
    call_at(name, args, trailing, 0)
}

/// A file `fn main ( ) { let res = <invocation> }` with the invocation at 20.
fn file_with(invocation: SyntaxNode) -> SyntaxNode {
    let mut children = lex("fn main ( ) { let res =");
    children.push(SyntaxElement::Node(invocation));
    children.extend(lex("}"));
    SyntaxNode::new(NodeKind::Other, 0, 200, children)
}

fn check_expand_macro(table: &MacroTable, invocation: SyntaxNode, offset: u64) -> (String, String) {
    let file = file_with(invocation);
    let res = expand_macro(table, &file, offset, 64).unwrap();
    (res.name, res.expansion)
}

#[test]
fn macro_expand_recursive_expansion() {
    let mut table = MacroTable::new();
    table.add_rule("bar", "()", body("fn b ( ) { }"));
    table.add_rule("foo", "()", call("bar", "( )", ";"));
    table.add_rule("baz", "()", call("foo", "( )", ";"));
    let (name, expansion) = check_expand_macro(&table, call_at("foo", "( )", ";", 20), 21);
    assert_eq!(name, "foo");
    assert_eq!(expansion, "fn b(){}\n");
}

#[test]
fn macro_expand_multiple_lines() {
    let mut table = MacroTable::new();
    table.add_rule(
        "foo",
        "()",
        body("fn some_thing ( ) -> u32 { let a = 0 ; a + 10 }"),
    );
    let (name, expansion) = check_expand_macro(&table, call_at("foo", "( )", ";", 20), 21);
    assert_eq!(name, "foo");
    assert_eq!(expansion, "fn some_thing() -> u32 {\n  let a = 0;\n  a+10\n}");
}

#[test]
fn macro_expand_match_ast() {
    let arms = "{ ast :: TraitDef ( it ) => { } , ast :: ImplBlock ( it ) => { } , \
                _ => { continue } , }";
    let outer_args = format!("{{ match container {} }}", arms);
    let inner_args = format!("( match ( container ) {} )", arms);
    let mut table = MacroTable::new();
    table.add_rule("match_ast", &joined(&outer_args), call("match_ast", &inner_args, ""));
    table.add_rule(
        "match_ast",
        &joined(&inner_args),
        body(
            "{ if let Some ( it ) = ast :: TraitDef :: cast ( container . clone ( ) ) { } \
             else if let Some ( it ) = ast :: ImplBlock :: cast ( container . clone ( ) ) { } \
             else { { continue } } }",
        ),
    );
    let (name, expansion) =
        check_expand_macro(&table, call_at("match_ast", &outer_args, "", 20), 23);
    assert_eq!(name, "match_ast");
    assert_eq!(
        expansion,
        "{\n  if let Some(it) = ast::TraitDef::cast(container.clone()){}\n  \
         else if let Some(it) = ast::ImplBlock::cast(container.clone()){}\n  \
         else {\n    {\n      continue\n    }\n  }\n}"
    );
}

#[test]
fn macro_expand_match_ast_inside_let_statement() {
    let outer_args = "{ match c { } }";
    let inner_args = "( match ( c ) { } )";
    let mut table = MacroTable::new();
    table.add_rule("match_ast", &joined(outer_args), call("match_ast", inner_args, ""));
    table.add_rule("match_ast", &joined(inner_args), body("{ }"));
    let (name, expansion) =
        check_expand_macro(&table, call_at("match_ast", outer_args, ";", 20), 23);
    assert_eq!(name, "match_ast");
    assert_eq!(expansion, "{}\n");
}

#[test]
fn macro_expand_inner_macro_fail_to_expand() {
    let mut table = MacroTable::new();
    table.add_rule("bar", "(BAD)", body(""));
    table.add_rule("foo", "()", call("bar", "( )", ""));
    let (name, expansion) = check_expand_macro(&table, call_at("foo", "( )", ";", 20), 22);
    assert_eq!(name, "foo");
    assert_eq!(expansion, "bar!()");
}

#[test]
fn macro_expand_with_dollar_crate() {
    let path = SyntaxNode::new(
        NodeKind::Other,
        0,
        0,
        vec![
            SyntaxElement::Token(SyntaxToken::new(TokenKind::Ident, "$crate")),
            SyntaxElement::Token(SyntaxToken::new(TokenKind::Punct, "::")),
            SyntaxElement::Node(SyntaxNode::new(NodeKind::NameRef, 0, 0, lex("bar"))),
        ],
    );
    let crate_bar = SyntaxNode::new(
        NodeKind::MacroCall,
        0,
        0,
        vec![
            SyntaxElement::Node(path),
            SyntaxElement::Token(SyntaxToken::new(TokenKind::Punct, "!")),
            SyntaxElement::Node(SyntaxNode::new(NodeKind::TokenTree, 0, 0, lex("( )"))),
        ],
    );
    let mut table = MacroTable::new();
    table.add_rule("bar", "()", body("0"));
    table.add_rule("foo", "()", crate_bar);
    let (name, expansion) = check_expand_macro(&table, call_at("foo", "( )", ";", 20), 22);
    assert_eq!(name, "foo");
    assert_eq!(expansion, "0 ");
}

fn render(src: &str) -> String {
    insert_whitespaces(&body(src))
}

#[test]
fn expansion_without_nested_calls_is_one_level() {
    let mut table = MacroTable::new();
    table.add_rule("foo", "()", body("let x = 1 ;"));
    let (name, expansion) = check_expand_macro(&table, call_at("foo", "( )", "", 20), 20);
    assert_eq!(name, "foo");
    assert_eq!(expansion, render("let x = 1 ;"));
    assert_eq!(expansion, "let x = 1;\n");
}

#[test]
fn chain_of_calls_collapses() {
    let mut table = MacroTable::new();
    table.add_rule("a", "()", call("b", "( )", ""));
    table.add_rule("b", "()", call("c", "( )", ""));
    table.add_rule("c", "()", body("fn f ( ) { }"));
    let direct = expand_macro_recur(&table, &call("c", "( )", ""), 8).unwrap();
    let chained = expand_macro_recur(&table, &call("a", "( )", ""), 8).unwrap();
    assert_eq!(insert_whitespaces(&chained), insert_whitespaces(&direct));
    assert_eq!(insert_whitespaces(&chained), "fn f(){}\n");
}

#[test]
fn unknown_nested_call_is_kept() {
    let mut table = MacroTable::new();
    table.add_rule("foo", "()", call("bar", "( )", ""));
    let r = expand_macro_recur(&table, &call("foo", "( )", ""), 8).unwrap();
    assert_eq!(insert_whitespaces(&r), "bar!()");
}

#[test]
fn nested_call_inside_body_is_spliced_each_time() {
    let mut table = MacroTable::new();
    table.add_rule("one", "()", body("1"));
    let mut children = lex("{ let a =");
    children.push(SyntaxElement::Node(call("one", "( )", "")));
    children.extend(lex("; let b ="));
    children.push(SyntaxElement::Node(call("one", "( )", "")));
    children.extend(lex("; }"));
    table.add_rule("two", "()", SyntaxNode::new(NodeKind::Other, 0, 0, children));
    let r = expand_macro_recur(&table, &call("two", "( )", ""), 8).unwrap();
    assert_eq!(
        insert_whitespaces(&r),
        "{\n  let a = 1;\n  let b = 1;\n  \n}"
    );
}

#[test]
fn failed_top_level_expansion_is_absent() {
    let table = MacroTable::new();
    let file = file_with(call_at("foo", "( )", ";", 20));
    assert!(expand_macro(&table, &file, 21, 8).is_none());
}

#[test]
fn depth_limit_bounds_recursion() {
    let mut table = MacroTable::new();
    table.add_rule("loop_me", "()", call("loop_me", "( )", ""));
    assert!(expand_macro_recur(&table, &call("loop_me", "( )", ""), 0).is_none());
    let r = expand_macro_recur(&table, &call("loop_me", "( )", ""), 5).unwrap();
    assert_eq!(insert_whitespaces(&r), "loop_me!()");
}

#[test]
fn formatter_block_structure() {
    // The leading space before `{` comes only after text-like tokens: `)` is
    // punctuation.
    assert_eq!(
        render("fn f ( ) { let a = 0 ; a + 10 }"),
        "fn f(){\n  let a = 0;\n  a+10\n}"
    );
    assert_eq!(
        render("fn f ( ) -> u8 { let a = 0 ; a + 10 }"),
        "fn f() -> u8 {\n  let a = 0;\n  a+10\n}"
    );
}

#[test]
fn empty_block_renders_without_break() {
    assert_eq!(render("{ }"), "{}\n");
    assert_eq!(render("{ { } }"), "{\n  {}\n  \n}");
}

#[test]
fn closing_brace_indent_does_not_go_below_zero() {
    assert_eq!(render("a } }"), "a\n}\n}");
}

#[test]
fn arrows_and_assignment_are_spaced() {
    assert_eq!(render("x => y"), "x => y ");
    assert_eq!(render("( ) -> u8"), "() -> u8 ");
    assert_eq!(render("a = b"), "a = b ");
}

#[test]
fn text_before_text_gets_a_space() {
    assert_eq!(render("pub fn x"), "pub fn x ");
    assert_eq!(render("x ( y )"), "x(y)");
    assert_eq!(render(""), "");
}

#[test]
fn position_miss_returns_absent() {
    let mut table = MacroTable::new();
    table.add_rule("foo", "()", body("1"));
    let file = file_with(call_at("foo", "( )", ";", 20));
    assert!(locate(&file, 5).is_none());
    assert!(expand_macro(&table, &file, 5, 8).is_none());
    assert!(locate(&file, 500).is_none());
}

#[test]
fn name_outside_any_call_is_absent() {
    let name = SyntaxNode::new(NodeKind::NameRef, 0, 3, lex("foo"));
    let file = SyntaxNode::new(NodeKind::Other, 0, 10, vec![SyntaxElement::Node(name)]);
    assert!(locate(&file, 1).is_none());
}

#[test]
fn locate_finds_name_and_call() {
    let file = file_with(call_at("foo", "( )", ";", 20));
    let (name, found) = locate(&file, 21).unwrap();
    assert_eq!(name, "foo");
    assert_eq!(found.kind, NodeKind::MacroCall);
    assert_eq!(found.start, 20);
    assert_eq!(found.text(), "foo!();");
}

#[test]
fn table_matches_name_and_arguments() {
    let mut table = MacroTable::new();
    table.add_rule("bar", "(BAD)", body("1"));
    table.add_rule("bar", "()", body("2"));
    let r = table.expand_one_level(&call("bar", "( )", "")).unwrap();
    assert_eq!(r.text(), "2");
    let r = table.expand_one_level(&call("bar", "( BAD )", "")).unwrap();
    assert_eq!(r.text(), "1");
    assert!(table.expand_one_level(&call("baz", "( )", "")).is_none());
    assert!(table.expand_one_level(&body("bar ! ( )")).is_none());
}

#[test]
fn token_kind_classes() {
    assert!(TokenKind::Ident.is_text());
    assert!(TokenKind::Literal.is_text());
    assert!(!TokenKind::Punct.is_text());
    assert!(TokenKind::Semicolon.is_punct());
    assert!(!TokenKind::Other.is_punct());
    assert!(!TokenKind::Keyword.is_punct());
}
