//! Tests of the ECSS parser, run on sources tokenized with cssparser.

use cssparser::{Parser, ParserInput, Token as CssToken};
use ecss_parser::ast::{ConditionExpr, ConditionValue, EcssStylesheet};
use ecss_parser::error::{format_error, EcssError, ErrorKind, ParseError};
use ecss_parser::parser::{parse, strip_important_suffix, TokenTree};
use ecss_parser::token::{BlockKind, Node, SourceLocation, Token};
use serde_json::Value;

// ---------------------------------------------------------------------------
// Helpers: source text to token tree, condition to JSON
// ---------------------------------------------------------------------------

fn location(l: cssparser::SourceLocation) -> SourceLocation {
    SourceLocation { line: l.line, column: l.column }
}

fn leaf(tok: &CssToken<'_>) -> Token {
    match tok {
        CssToken::Ident(s) => Token::Ident(s.to_string()),
        CssToken::AtKeyword(s) => Token::AtKeyword(s.to_string()),
        CssToken::Hash(s) => Token::Hash(s.to_string()),
        CssToken::IDHash(s) => Token::IDHash(s.to_string()),
        CssToken::QuotedString(s) => Token::QuotedString(s.to_string()),
        CssToken::UnquotedUrl(s) => Token::UnquotedUrl(s.to_string()),
        CssToken::Delim(c) => Token::Delim(*c),
        CssToken::Number { value, .. } => Token::Number(value.to_string()),
        CssToken::Percentage { unit_value, .. } => Token::Percentage((unit_value * 100.0).to_string()),
        CssToken::Dimension { value, unit, .. } => Token::Dimension(value.to_string(), unit.to_string()),
        CssToken::WhiteSpace(_) => Token::WhiteSpace,
        CssToken::Comment(_) => Token::Comment,
        CssToken::Colon => Token::Colon,
        CssToken::Semicolon => Token::Semicolon,
        CssToken::Comma => Token::Comma,
        CssToken::IncludeMatch => Token::IncludeMatch,
        CssToken::DashMatch => Token::DashMatch,
        CssToken::PrefixMatch => Token::PrefixMatch,
        CssToken::SuffixMatch => Token::SuffixMatch,
        CssToken::SubstringMatch => Token::SubstringMatch,
        CssToken::CDO => Token::CDO,
        CssToken::CDC => Token::CDC,
        CssToken::BadUrl(_) => Token::BadUrl,
        CssToken::BadString(_) => Token::BadString,
        CssToken::CloseParenthesis => Token::CloseParenthesis,
        CssToken::CloseSquareBracket => Token::CloseSquareBracket,
        CssToken::CloseCurlyBracket => Token::CloseCurlyBracket,
        CssToken::Function(_)
        | CssToken::ParenthesisBlock
        | CssToken::SquareBracketBlock
        | CssToken::CurlyBracketBlock => unreachable!("blocks are handled by the caller"),
    }
}

fn nodes_of(input: &mut Parser<'_, '_>) -> Vec<Node> {
    let mut out = Vec::new();
    loop {
        let loc = location(input.current_source_location());
        let tok = match input.next_including_whitespace_and_comments() {
            Ok(t) => t.clone(),
            Err(_) => break,
        };
        let debug = format!("{tok:?}");
        let kind = match &tok {
            CssToken::Function(name) => Some(BlockKind::Function(name.to_string())),
            CssToken::ParenthesisBlock => Some(BlockKind::Parenthesis),
            CssToken::SquareBracketBlock => Some(BlockKind::SquareBracket),
            CssToken::CurlyBracketBlock => Some(BlockKind::CurlyBracket),
            _ => None,
        };
        match kind {
            Some(kind) => {
                let (children, end) = input
                    .parse_nested_block(|i| -> Result<_, cssparser::ParseError<'_, ()>> {
                        let children = nodes_of(i);
                        Ok((children, location(i.current_source_location())))
                    })
                    .expect("a block's contents are always read whole");
                out.push(Node::Block { kind, debug, loc, children, end });
            }
            None => out.push(Node::Leaf { token: leaf(&tok), debug, loc }),
        }
    }
    out
}

fn tree_of(source: &str) -> TokenTree {
    let mut input = ParserInput::new(source);
    let mut parser = Parser::new(&mut input);
    let nodes = nodes_of(&mut parser);
    let end = location(parser.current_source_location());
    TokenTree { nodes, end }
}

fn parse_src(source: &str) -> Result<EcssStylesheet, ParseError> {
    parse(&tree_of(source))
}

fn value_json(v: &ConditionValue) -> Value {
    let mut m = serde_json::Map::new();
    m.insert("kind".to_string(), Value::String(v.kind.clone()));
    m.insert("value".to_string(), Value::String(v.value.clone()));
    Value::Object(m)
}

fn condition_json(c: &ConditionExpr) -> Value {
    let mut m = serde_json::Map::new();
    match c {
        ConditionExpr::Var { var } => {
            m.insert("kind".to_string(), Value::String("var".to_string()));
            m.insert("var".to_string(), Value::String(var.clone()));
        }
        ConditionExpr::Comparison { left, op, right } => {
            m.insert("kind".to_string(), Value::String("comparison".to_string()));
            m.insert("left".to_string(), Value::String(left.clone()));
            m.insert("op".to_string(), Value::String(op.clone()));
            m.insert("right".to_string(), value_json(right));
        }
        ConditionExpr::And { left, right } => {
            m.insert("kind".to_string(), Value::String("and".to_string()));
            m.insert("left".to_string(), condition_json(left));
            m.insert("right".to_string(), condition_json(right));
        }
        ConditionExpr::Or { left, right } => {
            m.insert("kind".to_string(), Value::String("or".to_string()));
            m.insert("left".to_string(), condition_json(left));
            m.insert("right".to_string(), condition_json(right));
        }
    }
    Value::Object(m)
}

// ---------------------------------------------------------------------------
// @state-variant
// ---------------------------------------------------------------------------

#[test]
fn parses_state_variant_basic() {
    let src = r#"
    @state-variant Theme {
      values: light, dark;
    }
  "#;
    let ast = parse_src(src).expect("should parse");
    assert_eq!(ast.rules.len(), 1);
    let rule = &ast.rules[0];
    assert_eq!(rule.kind, "state-variant");
    let sv = rule.state_variant.as_ref().unwrap();
    assert_eq!(sv.name, "Theme");
    assert_eq!(sv.values, vec!["light", "dark"]);
}

#[test]
fn parses_state_variant_quoted_values() {
    let src = r#"
    @state-variant Size {
      values: small, "extra large", medium;
    }
  "#;
    let ast = parse_src(src).expect("should parse");
    let sv = ast.rules[0].state_variant.as_ref().unwrap();
    assert_eq!(sv.values, vec!["small", "extra large", "medium"]);
}

// ---------------------------------------------------------------------------
// @state-def
// ---------------------------------------------------------------------------

#[test]
fn parses_state_def_no_params_no_braces() {
    let src = r#"
    @state-def Card {
      background: red;
    }
  "#;
    let ast = parse_src(src).expect("should parse");
    assert_eq!(ast.rules[0].kind, "state-def");
    let sd = ast.rules[0].state_def.as_ref().unwrap();
    assert_eq!(sd.name, "Card");
    assert!(sd.params.is_empty());
    assert_eq!(sd.body.len(), 1);
    let decl = sd.body[0].declaration.as_ref().unwrap();
    assert_eq!(decl.property, "background");
    assert_eq!(decl.value, "red");
    assert!(!decl.important);
}

#[test]
fn parses_state_def_empty_parens() {
    let src = r#"
    @state-def Card() {
      color: blue;
    }
  "#;
    let ast = parse_src(src).expect("should parse");
    let sd = ast.rules[0].state_def.as_ref().unwrap();
    assert!(sd.params.is_empty());
}

#[test]
fn parses_state_def_boolean_param() {
    let src = r#"
    @state-def Card(--is-active) {
      background: green;
    }
  "#;
    let ast = parse_src(src).expect("should parse");
    let sd = ast.rules[0].state_def.as_ref().unwrap();
    assert_eq!(sd.params.len(), 1);
    let p = &sd.params[0];
    assert_eq!(p.name, "--is-active");
    assert_eq!(p.param_type, "boolean");
    assert!(p.variant_name.is_none());
    assert!(p.default_value.is_none());
}

#[test]
fn parses_state_def_boolean_param_explicit_default() {
    let src = r#"
    @state-def Card(--is-active boolean: true) {
      background: green;
    }
  "#;
    let ast = parse_src(src).expect("should parse");
    let p = &ast.rules[0].state_def.as_ref().unwrap().params[0];
    assert_eq!(p.param_type, "boolean");
    assert_eq!(p.default_value.as_deref(), Some("true"));
}

#[test]
fn parses_state_def_variant_param() {
    let src = r#"
    @state-def Card(--theme Theme: "light") {
      background: white;
    }
  "#;
    let ast = parse_src(src).expect("should parse");
    let p = &ast.rules[0].state_def.as_ref().unwrap().params[0];
    assert_eq!(p.name, "--theme");
    assert_eq!(p.param_type, "variant");
    assert_eq!(p.variant_name.as_deref(), Some("Theme"));
    assert_eq!(p.default_value.as_deref(), Some("light"));
}

#[test]
fn parses_state_def_multiple_params() {
    let src = r#"
    @state-def Card(--is-active, --theme Theme: "dark") {
      background: black;
    }
  "#;
    let ast = parse_src(src).expect("should parse");
    let params = &ast.rules[0].state_def.as_ref().unwrap().params;
    assert_eq!(params.len(), 2);
    assert_eq!(params[0].name, "--is-active");
    assert_eq!(params[1].param_type, "variant");
}

// ---------------------------------------------------------------------------
// @if / @elseif / @else
// ---------------------------------------------------------------------------

#[test]
fn parses_if_var_condition() {
    let src = r#"
    @state-def Card(--is-active) {
      @if (--is-active) {
        color: red;
      }
    }
  "#;
    let ast = parse_src(src).expect("should parse");
    let body = &ast.rules[0].state_def.as_ref().unwrap().body;
    assert_eq!(body.len(), 1);
    assert_eq!(body[0].kind, "if-chain");
    let chain = body[0].if_chain.as_ref().unwrap();
    assert!(chain.else_if_clauses.is_empty());
    assert!(chain.else_body.is_none());

    let cond = &condition_json(&chain.if_clause.condition);
    assert_eq!(cond["kind"], "var");
    assert_eq!(cond["var"], "--is-active");
}

#[test]
fn parses_if_comparison_condition() {
    let src = r#"
    @state-def Card(--theme Theme) {
      @if (--theme == "dark") {
        background: black;
      }
    }
  "#;
    let ast = parse_src(src).expect("should parse");
    let chain = ast.rules[0].state_def.as_ref().unwrap().body[0]
        .if_chain
        .as_ref()
        .unwrap();
    let cond = &condition_json(&chain.if_clause.condition);
    assert_eq!(cond["kind"], "comparison");
    assert_eq!(cond["left"], "--theme");
    assert_eq!(cond["op"], "==");
    assert_eq!(cond["right"]["kind"], "string");
    assert_eq!(cond["right"]["value"], "dark");
}

#[test]
fn parses_if_and_condition() {
    let src = r#"
    @state-def Card(--is-active, --theme Theme) {
      @if (--is-active && --theme == "dark") {
        color: white;
      }
    }
  "#;
    let ast = parse_src(src).expect("should parse");
    let chain = ast.rules[0].state_def.as_ref().unwrap().body[0]
        .if_chain
        .as_ref()
        .unwrap();
    let cond = &condition_json(&chain.if_clause.condition);
    assert_eq!(cond["kind"], "and");
    assert_eq!(cond["left"]["kind"], "var");
    assert_eq!(cond["right"]["kind"], "comparison");
}

#[test]
fn parses_if_elseif_else_chain() {
    let src = r#"
    @state-def Card(--theme Theme) {
      @if (--theme == "light") {
        background: white;
      }
      @elseif (--theme == "dark") {
        background: black;
      }
      @else {
        background: gray;
      }
    }
  "#;
    let ast = parse_src(src).expect("should parse");
    let chain = ast.rules[0].state_def.as_ref().unwrap().body[0]
        .if_chain
        .as_ref()
        .unwrap();
    assert_eq!(chain.else_if_clauses.len(), 1);
    assert!(chain.else_body.is_some());
    let else_body = chain.else_body.as_ref().unwrap();
    assert_eq!(else_body.len(), 1);
    assert_eq!(else_body[0].declaration.as_ref().unwrap().value, "gray");
}

// ---------------------------------------------------------------------------
// Nested selectors
// ---------------------------------------------------------------------------

#[test]
fn parses_nested_selector_in_state_def() {
    let src = r#"
    @state-def Card(--is-active) {
      padding: 16px;

      &:hover {
        background: green;

        @if (--is-active) {
          background: yellow;
        }
      }
    }
  "#;
    let ast = parse_src(src).expect("should parse");
    let body = &ast.rules[0].state_def.as_ref().unwrap().body;
    assert_eq!(body.len(), 2);
    assert_eq!(body[0].kind, "declaration");
    assert_eq!(body[1].kind, "qualified-rule");
    let nested = body[1].qualified_rule.as_ref().unwrap();
    assert!(nested.selector.contains("hover"));
    assert_eq!(nested.body.len(), 2);
    assert_eq!(nested.body[1].kind, "if-chain");
}

// ---------------------------------------------------------------------------
// !important
// ---------------------------------------------------------------------------

#[test]
fn parses_important_declaration() {
    let src = r#"
    @state-def Card {
      background: red !important;
    }
  "#;
    let ast = parse_src(src).expect("should parse");
    let decl = ast.rules[0].state_def.as_ref().unwrap().body[0]
        .declaration
        .as_ref()
        .unwrap();
    assert!(decl.important);
    assert_eq!(decl.value, "red");
}

// ---------------------------------------------------------------------------
// Multiple rules in one file
// ---------------------------------------------------------------------------

#[test]
fn parses_multiple_top_level_rules() {
    let src = r#"
    @state-variant Theme { values: light, dark; }
    @state-def Card { background: white; }
  "#;
    let ast = parse_src(src).expect("should parse");
    assert_eq!(ast.rules.len(), 2);
    assert_eq!(ast.rules[0].kind, "state-variant");
    assert_eq!(ast.rules[1].kind, "state-def");
}

// ---------------------------------------------------------------------------
// Error handling
// ---------------------------------------------------------------------------

#[test]
fn returns_error_on_missing_variant_name() {
    let src = r#"
    @state-variant {
      values: a, b;
    }
  "#;
    assert!(parse_src(src).is_err());
}

// ---------------------------------------------------------------------------
// Further cases: conditions
// ---------------------------------------------------------------------------

fn first_condition(src: &str) -> Value {
    let ast = parse_src(src).expect("should parse");
    let chain = ast.rules[0].state_def.as_ref().unwrap().body[0]
        .if_chain
        .as_ref()
        .unwrap();
    condition_json(&chain.if_clause.condition)
}

fn first_error(src: &str) -> ParseError {
    match parse_src(src) {
        Ok(_) => panic!("should not parse"),
        Err(e) => e,
    }
}

#[test]
fn and_binds_tighter_than_or() {
    let cond = first_condition("@state-def A(--a, --b, --c) { @if (--a || --b && --c) { color: red; } }");
    assert_eq!(cond["kind"], "or");
    assert_eq!(cond["left"]["kind"], "var");
    assert_eq!(cond["left"]["var"], "--a");
    assert_eq!(cond["right"]["kind"], "and");
    assert_eq!(cond["right"]["left"]["var"], "--b");
    assert_eq!(cond["right"]["right"]["var"], "--c");
}

#[test]
fn and_and_or_group_to_the_left() {
    let cond = first_condition("@state-def A { @if (--a && --b && --c) { color: red; } }");
    assert_eq!(cond["kind"], "and");
    assert_eq!(cond["left"]["kind"], "and");
    assert_eq!(cond["left"]["left"]["var"], "--a");
    assert_eq!(cond["left"]["right"]["var"], "--b");
    assert_eq!(cond["right"]["var"], "--c");

    let cond = first_condition("@state-def A { @if (--a || --b || --c) { color: red; } }");
    assert_eq!(cond["kind"], "or");
    assert_eq!(cond["left"]["kind"], "or");
    assert_eq!(cond["right"]["var"], "--c");
}

#[test]
fn parentheses_group_a_condition() {
    let cond = first_condition("@state-def A { @if ((--a || --b) && --c) { color: red; } }");
    assert_eq!(cond["kind"], "and");
    assert_eq!(cond["left"]["kind"], "or");
    assert_eq!(cond["left"]["left"]["var"], "--a");
    assert_eq!(cond["left"]["right"]["var"], "--b");
    assert_eq!(cond["right"]["var"], "--c");
}

#[test]
fn grouped_variable_can_be_compared() {
    let cond = first_condition("@state-def A { @if ((--a) == x) { color: red; } }");
    assert_eq!(cond["kind"], "comparison");
    assert_eq!(cond["left"], "--a");
    assert_eq!(cond["right"]["kind"], "ident");
    assert_eq!(cond["right"]["value"], "x");
}

#[test]
fn comparison_right_sides() {
    let cond = first_condition("@state-def A { @if (--on == true) { color: red; } }");
    assert_eq!(cond["right"]["kind"], "boolean");
    assert_eq!(cond["right"]["value"], "true");

    let cond = first_condition("@state-def A { @if (--on != false) { color: red; } }");
    assert_eq!(cond["op"], "!=");
    assert_eq!(cond["right"]["kind"], "boolean");
    assert_eq!(cond["right"]["value"], "false");

    let cond = first_condition("@state-def A { @if (--size != large) { color: red; } }");
    assert_eq!(cond["op"], "!=");
    assert_eq!(cond["right"]["kind"], "ident");
    assert_eq!(cond["right"]["value"], "large");

    let cond = first_condition("@state-def A { @if (--theme == 'dark') { color: red; } }");
    assert_eq!(cond["right"]["kind"], "string");
    assert_eq!(cond["right"]["value"], "dark");
}

#[test]
fn comparison_needs_a_variable_on_the_left() {
    let e = first_error("@state-def A { @if ((--a || --b) == x) { color: red; } }");
    assert_eq!(e.message, "Invalid condition: Left side of comparison must be a variable");
}

#[test]
fn condition_must_start_with_a_variable() {
    let e = first_error("@state-def A { @if (theme) { color: red; } }");
    assert_eq!(e.message, "Unexpected token: Ident(\"theme\")");
}

// ---------------------------------------------------------------------------
// Further cases: @if chains
// ---------------------------------------------------------------------------

#[test]
fn elseif_chain_collects_clauses_in_order() {
    let src = "@state-def A(--s S) { @if (--s == a) { x: 1; } @elseif (--s == b) { x: 2; } @elseif (--s == c) { x: 3; } }";
    let ast = parse_src(src).expect("should parse");
    let body = &ast.rules[0].state_def.as_ref().unwrap().body;
    assert_eq!(body.len(), 1);
    let chain = body[0].if_chain.as_ref().unwrap();
    assert_eq!(chain.else_if_clauses.len(), 2);
    let c1 = condition_json(&chain.else_if_clauses[0].condition);
    let c2 = condition_json(&chain.else_if_clauses[1].condition);
    assert_eq!(c1["right"]["value"], "b");
    assert_eq!(c2["right"]["value"], "c");
    assert!(chain.else_body.is_none());
}

#[test]
fn declaration_breaks_an_if_chain() {
    let src = "@state-def A { @if (--a) { x: 1; } color: red; @else { x: 2; } }";
    let e = first_error(src);
    assert_eq!(e.message, "@else without preceding @if");
}

#[test]
fn else_without_if_is_refused() {
    let e = first_error("@state-def A { @else { color: red; } }");
    assert_eq!(e.message, "@else without preceding @if");
    let e = first_error("@state-def A { @elseif (--a) { color: red; } }");
    assert_eq!(e.message, "@else without preceding @if");
}

#[test]
fn second_else_is_refused() {
    let e = first_error("@state-def A { @if (--a) { x: 1; } @else { x: 2; } @else { x: 3; } }");
    assert_eq!(e.message, "Duplicate @else");
}

#[test]
fn elseif_after_else_is_refused() {
    let e = first_error("@state-def A { @if (--a) { x: 1; } @else { x: 2; } @elseif (--b) { x: 3; } }");
    assert_eq!(e.message, "@elseif after @else");
}

#[test]
fn nested_if_chains() {
    let src = "@state-def A { @if (--a) { @if (--b) { x: 1; } @else { x: 2; } } }";
    let ast = parse_src(src).expect("should parse");
    let outer = ast.rules[0].state_def.as_ref().unwrap().body[0].if_chain.as_ref().unwrap();
    assert_eq!(outer.if_clause.body.len(), 1);
    let inner = outer.if_clause.body[0].if_chain.as_ref().unwrap();
    assert!(inner.else_body.is_some());
    assert!(outer.else_body.is_none());
}

// ---------------------------------------------------------------------------
// Further cases: declarations
// ---------------------------------------------------------------------------

fn first_declaration(src: &str) -> ecss_parser::ast::CssDeclaration {
    let mut ast = parse_src(src).expect("should parse");
    let mut sd = ast.rules.remove(0).state_def.unwrap();
    sd.body.remove(0).declaration.unwrap()
}

#[test]
fn important_without_space_and_in_capitals() {
    let d = first_declaration("@state-def A { color: red!important; }");
    assert!(d.important);
    assert_eq!(d.value, "red");

    let d = first_declaration("@state-def A { color: RED !IMPORTANT; }");
    assert!(d.important);
    assert_eq!(d.value, "RED");

    let d = first_declaration("@state-def A { color: Red !important; }");
    assert!(d.important);
    assert_eq!(d.value, "Red");

    let d = first_declaration("@state-def A { font-family: \u{130}STANBUL !IMPORTANT; }");
    assert!(d.important);
    assert_eq!(d.value, "\u{130}STANBUL");

    let d = first_declaration("@state-def A { color: Red; }");
    assert!(!d.important);
    assert_eq!(d.value, "Red");
}

#[test]
fn numbers_are_written_as_their_values() {
    assert_eq!(first_declaration("@state-def A { opacity: 0.50; }").value, "0.5");
    assert_eq!(first_declaration("@state-def A { width: 50%; }").value, "50%");
    assert_eq!(first_declaration("@state-def A { margin: +5px 0; }").value, "5px 0");
    assert_eq!(first_declaration("@state-def A { color: #fff; }").value, "#fff");
}

#[test]
fn function_values_keep_their_arguments() {
    let d = first_declaration("@state-def A { box-shadow: 0 4px 12px rgba(0, 0, 0, 0.15); }");
    assert_eq!(d.value, "0 4px 12px rgba(0, 0, 0, 0.15)");
    let d = first_declaration("@state-def A { grid-area: [a] / b; }");
    assert_eq!(d.value, "[a] / b");
}

#[test]
fn nested_selector_keeps_its_brackets() {
    let ast = parse_src("@state-def A { &:not(.active) { color: red; } }").expect("should parse");
    let q = ast.rules[0].state_def.as_ref().unwrap().body[0].qualified_rule.as_ref().unwrap();
    assert_eq!(q.selector, "&:not(.active)");
}

#[test]
fn declaration_span_runs_from_colon_to_end_of_value() {
    let d = first_declaration("@state-def A { color: red; }");
    assert_eq!(d.property, "color");
    assert_eq!((d.span.line, d.span.column, d.span.end_line, d.span.end_column), (0, 22, 0, 26));
}

// ---------------------------------------------------------------------------
// Further cases: @state-variant and @state-def heads
// ---------------------------------------------------------------------------

#[test]
fn state_variant_trailing_comma_and_span() {
    let ast = parse_src("@state-variant T { values: a, b,; }").expect("should parse");
    let sv = ast.rules[0].state_variant.as_ref().unwrap();
    assert_eq!(sv.values, vec!["a", "b"]);

    let ast = parse_src("@state-variant T { values: a; }").expect("should parse");
    let sv = ast.rules[0].state_variant.as_ref().unwrap();
    assert_eq!((sv.span.line, sv.span.column, sv.span.end_line, sv.span.end_column), (0, 15, 0, 30));
}

#[test]
fn state_variant_needs_values_keyword() {
    let e = first_error("@state-variant T { vals: a; }");
    assert_eq!(e.message, "Expected 'values:' inside @state-variant");
}

#[test]
fn state_variant_values_are_idents_or_strings() {
    let e = first_error("@state-variant T { values: 1; }");
    assert!(e.message.starts_with("Unexpected token: Number"));
}

#[test]
fn state_variant_needs_a_block() {
    let e = first_error("@state-variant T;");
    assert_eq!(e.message, "Unexpected token: Semicolon");
}

#[test]
fn missing_variant_name_is_located() {
    let e = first_error("@state-variant { values: a, b; }");
    assert_eq!(e.message, "Expected identifier");
    assert_eq!((e.line, e.column), (0, 16));
    assert_eq!(e.to_display_string(), "[0:16] Expected identifier");
}

#[test]
fn param_default_without_type_is_boolean() {
    let ast = parse_src("@state-def A(--a Theme: dark, --b: true) { }").expect("should parse");
    let ps = &ast.rules[0].state_def.as_ref().unwrap().params;
    assert_eq!(ps.len(), 2);
    assert_eq!(ps[0].param_type, "variant");
    assert_eq!(ps[0].variant_name.as_deref(), Some("Theme"));
    assert_eq!(ps[0].default_value.as_deref(), Some("dark"));
    assert_eq!(ps[1].param_type, "boolean");
    assert!(ps[1].variant_name.is_none());
    assert_eq!(ps[1].default_value.as_deref(), Some("true"));
}

#[test]
fn param_list_with_trailing_comma() {
    let ast = parse_src("@state-def A(--a, --b boolean,) { }").expect("should parse");
    let ps = &ast.rules[0].state_def.as_ref().unwrap().params;
    assert_eq!(ps.len(), 2);
    assert_eq!(ps[1].name, "--b");
    assert_eq!(ps[1].param_type, "boolean");
}

#[test]
fn param_names_must_start_with_dashes() {
    let e = first_error("@state-def A(x) { }");
    assert_eq!(e.message, "Unexpected token: Ident(\"x\")");
}

#[test]
fn params_must_be_separated_by_commas() {
    let e = first_error("@state-def A(--a --b) { }");
    assert_eq!(e.message, "Unexpected token: Ident(\"--b\")");
}

// ---------------------------------------------------------------------------
// Further cases: plain CSS
// ---------------------------------------------------------------------------

#[test]
fn unknown_at_rules_are_kept_as_text() {
    let ast = parse_src("@import url(x.css); @media (min-width: 100px) { body { color: red; } }")
        .expect("should parse");
    assert_eq!(ast.rules.len(), 2);
    assert_eq!(ast.rules[0].kind, "at-rule");
    let import = ast.rules[0].at_rule.as_ref().unwrap();
    assert_eq!(import.name, "import");
    assert_eq!(import.prelude, "url(x.css)");
    assert!(import.block.is_none());
    let media = ast.rules[1].at_rule.as_ref().unwrap();
    assert_eq!(media.name, "media");
    assert_eq!(media.prelude, "(min-width: 100px)");
    assert_eq!(media.block.as_deref(), Some("body { color: red; }"));
}

#[test]
fn unknown_at_rule_in_a_body() {
    let ast = parse_src("@state-def A { @media print { color: red; } }").expect("should parse");
    let item = &ast.rules[0].state_def.as_ref().unwrap().body[0];
    assert_eq!(item.kind, "at-rule");
    let at = item.at_rule.as_ref().unwrap();
    assert_eq!(at.name, "media");
    assert_eq!(at.prelude, "print");
    assert_eq!(at.block.as_deref(), Some("color: red;"));
}

#[test]
fn leading_charset_is_passed_over() {
    let ast = parse_src("@charset \"utf-8\"; a > b { color: red; }").expect("should parse");
    assert_eq!(ast.rules.len(), 1);
    assert_eq!(ast.rules[0].kind, "qualified-rule");
    let q = ast.rules[0].qualified_rule.as_ref().unwrap();
    assert_eq!(q.selector, "a > b");
    assert_eq!(q.body.len(), 1);
}

#[test]
fn declaration_at_top_level_is_refused() {
    let e = first_error("color: red;");
    assert_eq!(e.message, "Unexpected end of input");
}

#[test]
fn custom_property_at_top_level_is_refused() {
    let e = first_error("--x: red { }");
    assert_eq!(e.message, "Invalid qualified rule");
}

#[test]
fn empty_source_has_no_rules() {
    assert_eq!(parse_src("").expect("should parse").rules.len(), 0);
    assert_eq!(parse_src("  /* only a comment */  ").expect("should parse").rules.len(), 0);
}

#[test]
fn mixed_css_and_ecss() {
    let src = r#"
*, *::before, *::after {
  box-sizing: border-box;
}

@state-variant Status {
  values: idle, loading, error, success;
}

@state-def Badge(--status Status: "idle") {
  display: inline-flex;
  @if (--status == "idle")    { background: #f0f0f0; color: #555555; }
  @elseif (--status == "loading") { background: #e0f0ff; color: #0055cc; }
  @elseif (--status == "error")   { background: #ffe0e0; color: #cc0000; }
  @else                           { background: #e0ffe0; color: #006600; }
}

@media (prefers-color-scheme: dark) {
  body { background: #0a0a0a; }
}
"#;
    let ast = parse_src(src).expect("should parse");
    let kinds: Vec<&str> = ast.rules.iter().map(|r| r.kind.as_str()).collect();
    assert_eq!(kinds, vec!["qualified-rule", "state-variant", "state-def", "at-rule"]);
    assert_eq!(ast.rules[0].qualified_rule.as_ref().unwrap().selector, "*, *::before, *::after");
    let sd = ast.rules[2].state_def.as_ref().unwrap();
    assert_eq!(sd.body.len(), 2);
    let chain = sd.body[1].if_chain.as_ref().unwrap();
    assert_eq!(chain.else_if_clauses.len(), 2);
    assert_eq!(chain.else_body.as_ref().unwrap().len(), 2);
    let media = ast.rules[3].at_rule.as_ref().unwrap();
    assert_eq!(media.prelude, "(prefers-color-scheme: dark)");
    assert_eq!(media.block.as_deref(), Some("body { background: #0a0a0a; }"));
}

// ---------------------------------------------------------------------------
// Library pieces on their own
// ---------------------------------------------------------------------------

#[test]
fn parse_error_display() {
    let e = ParseError::new("Unknown at-rule: @unknown".to_string(), 3, 5);
    assert_eq!(e.message, "Unknown at-rule: @unknown");
    assert_eq!((e.line, e.column), (3, 5));
    assert_eq!(e.to_display_string(), "[3:5] Unknown at-rule: @unknown");
}

#[test]
fn strip_important_suffix_cases() {
    assert_eq!(strip_important_suffix("red !important", "red !important").as_deref(), Some("red"));
    assert_eq!(strip_important_suffix("Red !IMPORTANT", "red !important").as_deref(), Some("Red"));
    let raw = "\u{130}X !important";
    assert_eq!(strip_important_suffix(raw, &raw.to_lowercase()).as_deref(), Some("\u{130}X"));
    assert_eq!(strip_important_suffix("red!important", "red!important").as_deref(), Some("red"));
    assert_eq!(strip_important_suffix("red ! important", "red ! important").as_deref(), Some("red"));
    assert_eq!(strip_important_suffix("red important", "red important"), None);
    assert_eq!(strip_important_suffix("red", "red"), None);
}

#[test]
fn error_messages_of_each_kind() {
    assert_eq!(format_error(&ErrorKind::UnexpectedToken("Comma".to_string())), "Unexpected token: Comma");
    assert_eq!(format_error(&ErrorKind::EndOfInput), "Unexpected end of input");
    assert_eq!(format_error(&ErrorKind::AtRuleBodyInvalid), "Invalid at-rule body");
    assert_eq!(format_error(&ErrorKind::AtRuleInvalid("x".to_string())), "Unknown at-rule: @x");
    assert_eq!(format_error(&ErrorKind::QualifiedRuleInvalid), "Invalid qualified rule");
    assert_eq!(EcssError::ExpectedBlock.message(), "Expected '{' block");
    assert_eq!(EcssError::InvalidArgument("a".to_string()).message(), "Invalid argument: a");
    assert_eq!(EcssError::UnexpectedToken("b".to_string()).message(), "Unexpected token: b");
    assert_eq!(format_error(&ErrorKind::Custom(EcssError::Custom("c".to_string()))), "c");
}

#[test]
fn condition_constructors() {
    let v = ConditionValue::boolean(true);
    assert_eq!((v.kind.as_str(), v.value.as_str()), ("boolean", "true"));
    let v = ConditionValue::boolean(false);
    assert_eq!(v.value, "false");
    let v = ConditionValue::string("x".to_string());
    assert_eq!(v.kind, "string");
    let v = ConditionValue::ident("y".to_string());
    assert_eq!(v.kind, "ident");
    let c = ConditionExpr::and(ConditionExpr::var("--a".to_string()), ConditionExpr::var("--b".to_string()));
    assert_eq!(condition_json(&c)["kind"], "and");
}
