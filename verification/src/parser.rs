//! Core ECSS parser: the stylesheet, its rules, `@state-variant` and
//! `@state-def` heads and bodies, rule bodies with declarations, nested
//! rules and `@if` chains.
//!
//! The specification functions (`s_*`) define the parse over the token tree;
//! each exec function below is proved to compute what its specification
//! says.

use vstd::prelude::*;

use crate::ast::chain_model;
use crate::ast::chain_wf;
use crate::ast::clause_wf;
use crate::ast::item_model;
use crate::ast::item_wf;
use crate::ast::items_model;
use crate::ast::lemma_clauses_push;
use crate::ast::items_wf;
use crate::ast::lemma_items_push;
use crate::ast::make_span;
use crate::ast::span_of;
use crate::ast::strings_model;
use crate::ast::opt_string_model;
use crate::ast::params_model;
use crate::ast::ConditionExpr;
use crate::ast::ConditionModel;
use crate::ast::CssDeclaration;
use crate::ast::EcssRule;
use crate::ast::EcssStylesheet;
use crate::ast::StateDef;
use crate::ast::StateVariant;
use crate::ast::rule_model;
use crate::ast::rule_wf;
use crate::ast::rules_model;
use crate::ast::stylesheet_wf;
use crate::ast::CssQualifiedRule;
use crate::ast::IfChain;
use crate::ast::CssRawAtRule;
use crate::ast::IfClause;
use crate::ast::CssDeclarationModel;
use crate::ast::CssQualifiedRuleModel;
use crate::ast::CssRawAtRuleModel;
use crate::ast::IfChainModel;
use crate::ast::IfClauseModel;
use crate::ast::ItemModel;
use crate::ast::RuleModel;
use crate::ast::Span;
use crate::ast::StateDefModel;
use crate::ast::StateVariantModel;
use crate::ast::StateDefItem;
use crate::ast::StateParam;
use crate::ast::StateParamModel;
use crate::condition::parse_condition;
use crate::condition::s_condition;
use crate::condition::same_input;
use crate::cursor::agrees;
use crate::cursor::entirely;
use crate::cursor::blank_end;
use crate::cursor::comment_end;
use crate::cursor::lemma_cdx_end;
use crate::cursor::lemma_comment_end;
use crate::cursor::lemma_delim_end;
use crate::cursor::lemma_next;
use crate::cursor::lemma_next_iw;
use crate::cursor::lemma_skip_ws;
use crate::cursor::has_block;
use crate::cursor::progressed;
use crate::cursor::s_after_block;
use crate::cursor::s_after_delimited;
use crate::cursor::s_after_next;
use crate::cursor::s_child;
use crate::cursor::s_delimited;
use crate::cursor::s_expect;
use crate::cursor::s_expect_exhausted;
use crate::cursor::s_is_exhausted;
use crate::cursor::s_next;
use crate::cursor::s_next_iw;
use crate::cursor::s_next_iwc;
use crate::cursor::s_skip_cdx;
use crate::cursor::s_skip_ws;
use crate::cursor::unexpected;
use crate::cursor::CurM;
use crate::cursor::Cursor;
use crate::cursor::Delims;
use crate::cursor::Expect;
use crate::error::located;
use crate::error::reported;
use crate::error::to_parse_error;
use crate::error::ParseError;
use crate::error::EcssError;
use crate::error::ErrorKind;
use crate::error::LocatedError;
use crate::error::EcssErrorModel;
use crate::error::ErrorKindModel;
use crate::error::LocatedErrorModel;
use crate::text::has_dash_prefix;
use crate::text::lowercase;
use crate::text::str_eq;
use crate::text::to_lowercase;
use crate::text::trim_end;
use crate::text::trim;
use crate::text::starts_with_dashes;
use crate::text::trim_end_seq;
use crate::text::lemma_trim_end_prefix;
use crate::text::trim_seq;
use crate::token::append_node;
use crate::token::is_curly_block;
use crate::token::BlockKind;
use crate::token::node_text;
use crate::token::nodes_text;
use crate::token::Node;
use crate::token::SourceLocation;
use crate::token::Token;

verus! {

// ---------------------------------------------------------------------------
// Preludes
// ---------------------------------------------------------------------------

/// What the head of a top-level at-rule says.
pub enum AtPrelude {
    StateVariant { name: String, loc: SourceLocation },
    StateDef { name: String, params: Vec<StateParam>, loc: SourceLocation },
    Unknown { name: String, prelude: String, loc: SourceLocation },
}

pub enum AtPreludeModel {
    StateVariant { name: Seq<char>, loc: SourceLocation },
    StateDef { name: Seq<char>, params: Seq<StateParamModel>, loc: SourceLocation },
    Unknown { name: Seq<char>, prelude: Seq<char>, loc: SourceLocation },
}

impl View for AtPrelude {
    type V = AtPreludeModel;

    open spec fn view(&self) -> AtPreludeModel {
        match self {
            AtPrelude::StateVariant { name, loc } => AtPreludeModel::StateVariant {
                name: name@,
                loc: *loc,
            },
            AtPrelude::StateDef { name, params, loc } => AtPreludeModel::StateDef {
                name: name@,
                params: params_model(params@),
                loc: *loc,
            },
            AtPrelude::Unknown { name, prelude, loc } => AtPreludeModel::Unknown {
                name: name@,
                prelude: prelude@,
                loc: *loc,
            },
        }
    }
}

/// What the head of an at-rule inside a body says.
pub enum BodyAtPrelude {
    If { condition: ConditionExpr, loc: SourceLocation },
    ElseIf { condition: ConditionExpr, loc: SourceLocation },
    Else { loc: SourceLocation },
    Unknown { name: String, prelude: String, loc: SourceLocation },
}

pub enum BodyAtPreludeModel {
    If { condition: ConditionModel, loc: SourceLocation },
    ElseIf { condition: ConditionModel, loc: SourceLocation },
    Else { loc: SourceLocation },
    Unknown { name: Seq<char>, prelude: Seq<char>, loc: SourceLocation },
}

impl View for BodyAtPrelude {
    type V = BodyAtPreludeModel;

    open spec fn view(&self) -> BodyAtPreludeModel {
        match self {
            BodyAtPrelude::If { condition, loc } => BodyAtPreludeModel::If {
                condition: condition@,
                loc: *loc,
            },
            BodyAtPrelude::ElseIf { condition, loc } => BodyAtPreludeModel::ElseIf {
                condition: condition@,
                loc: *loc,
            },
            BodyAtPrelude::Else { loc } => BodyAtPreludeModel::Else { loc: *loc },
            BodyAtPrelude::Unknown { name, prelude, loc } => BodyAtPreludeModel::Unknown {
                name: name@,
                prelude: prelude@,
                loc: *loc,
            },
        }
    }
}

// ---------------------------------------------------------------------------
// Specification: small pieces
// ---------------------------------------------------------------------------

pub open spec fn ident_text(n: Node) -> Seq<char> {
    match n {
        Node::Leaf { token: Token::Ident(s), .. } => s@,
        _ => seq![],
    }
}

/// The rest of the stretch written out and trimmed; the cursor ends at
/// the end of the stretch.
pub open spec fn s_collect_raw(c: CurM) -> (Seq<char>, CurM) {
    (trim_seq(nodes_text(c.nodes, c.pos, c.hi)), c.at(c.hi, false))
}

/// An identifier, with `err` reported (where the cursor stops) when the
/// next token is something else.
pub open spec fn s_ident_owned(c: CurM, err: EcssErrorModel) -> Result<
    (Seq<char>, CurM),
    LocatedErrorModel,
> {
    match s_expect(c, Expect::Ident) {
        Ok((i, c2)) => Ok((ident_text(c.nodes[i]), c2)),
        Err(_) => Err(located(ErrorKindModel::Custom(err), s_after_next(c).loc())),
    }
}

/// The cursor after a stretch read with `parse_until_after`: past the
/// delimiter, when the stretch ended at one.
pub open spec fn s_after_until_after(c: CurM, d: CurM) -> CurM {
    if d.hi < c.hi {
        c.at(d.hi + 1, false)
    } else {
        c.at(d.hi, false)
    }
}

pub open spec fn custom_error(e: EcssErrorModel, loc: SourceLocation) -> LocatedErrorModel {
    located(ErrorKindModel::Custom(e), loc)
}

// ---------------------------------------------------------------------------
// Specification: `@state-variant` body
// ---------------------------------------------------------------------------

/// The string of an identifier or a quoted string.
pub open spec fn ident_or_string(n: Node) -> Option<Seq<char>> {
    match n {
        Node::Leaf { token: Token::Ident(s), .. } => Some(s@),
        Node::Leaf { token: Token::QuotedString(s), .. } => Some(s@),
        _ => None,
    }
}

/// The values after `values:`: identifiers or strings, with optional commas,
/// up to a `;` or the end of the block.
pub open spec fn s_values_loop(c: CurM, acc: Seq<Seq<char>>) -> Result<
    (Seq<Seq<char>>, CurM),
    LocatedErrorModel,
>
    decreases c.nodes.len() - c.pos,
{
    let c1 = s_skip_ws(c);
    if s_is_exhausted(c1) {
        Ok((acc, c1))
    } else {
        match s_expect(c1, Expect::Semicolon) {
            Ok((_, c2)) => Ok((acc, c2)),
            Err(_) => match s_next(c1) {
                Err(e) => Err(e),
                Ok((i, c3)) => match ident_or_string(c1.nodes[i]) {
                    Some(v) => {
                        let c4 = s_skip_ws(c3);
                        let c5 = match s_expect(c4, Expect::Comma) {
                            Ok((_, c)) => c,
                            Err(_) => c4,
                        };
                        if progressed(c, c5) {
                            s_values_loop(c5, acc.push(v))
                        } else {
                            Ok((acc.push(v), c5))
                        }
                    },
                    None => Err(unexpected(c1.nodes[i], c3.loc())),
                },
            },
        }
    }
}

/// `values: v1, v2, ...;` inside `@state-variant Name { ... }`.
pub open spec fn s_variant_block(c: CurM) -> Result<(Seq<Seq<char>>, CurM), LocatedErrorModel> {
    match s_ident_owned(c, EcssErrorModel::ExpectedValues) {
        Err(e) => Err(e),
        Ok((kw, c1)) => if kw != "values"@ {
            Err(custom_error(EcssErrorModel::ExpectedValues, c1.loc()))
        } else {
            match s_expect(c1, Expect::Colon) {
                Err(_) => Err(custom_error(EcssErrorModel::ExpectedValues, s_after_next(c1).loc())),
                Ok((_, c2)) => s_values_loop(c2, seq![]),
            }
        },
    }
}

// ---------------------------------------------------------------------------
// Specification: `@state-def` parameters
// ---------------------------------------------------------------------------

/// An optional type after a parameter name: an identifier not starting with `--`.
pub open spec fn s_param_type(c: CurM) -> Option<(Seq<char>, CurM)> {
    match s_next(s_skip_ws(c)) {
        Ok((i, c2)) => match c.nodes[i] {
            Node::Leaf { token: Token::Ident(s), .. } => if !starts_with_dashes(s@) {
                Some((s@, c2))
            } else {
                None
            },
            _ => None,
        },
        Err(_) => None,
    }
}

/// An optional default: `:` then an identifier or a string.
pub open spec fn s_param_default(c: CurM) -> Option<(Seq<char>, CurM)> {
    match s_next(s_skip_ws(c)) {
        Ok((i, c2)) => if c.nodes[i] matches Node::Leaf { token: Token::Colon, .. } {
            match s_next(s_skip_ws(c2)) {
                Ok((j, c3)) => match ident_or_string(c.nodes[j]) {
                    Some(v) => Some((v, c3)),
                    None => None,
                },
                Err(_) => None,
            }
        } else {
            None
        },
        Err(_) => None,
    }
}

/// A parameter: no type or `boolean` makes it boolean; any other type names
/// a `@state-variant`.
pub open spec fn param_model(
    name: Seq<char>,
    ty: Option<Seq<char>>,
    default_value: Option<Seq<char>>,
) -> StateParamModel {
    match ty {
        Some(t) => if t == "boolean"@ {
            StateParamModel { name, param_type: "boolean"@, variant_name: None, default_value }
        } else {
            StateParamModel { name, param_type: "variant"@, variant_name: Some(t), default_value }
        },
        None => StateParamModel {
            name,
            param_type: "boolean"@,
            variant_name: None,
            default_value,
        },
    }
}

/// Parameters `--name type? (: default)?` separated by commas.
pub open spec fn s_params_loop(c: CurM, acc: Seq<StateParamModel>) -> Result<
    (Seq<StateParamModel>, CurM),
    LocatedErrorModel,
>
    decreases c.nodes.len() - c.pos,
{
    let c1 = s_skip_ws(c);
    if s_is_exhausted(c1) {
        Ok((acc, c1))
    } else {
        match s_next(c1) {
            Err(e) => Err(e),
            Ok((i, c2)) => {
                let n = c1.nodes[i];
                if n matches Node::Leaf { token: Token::Ident(s), .. } && starts_with_dashes(
                    ident_text(n),
                ) {
                    let (ty, c3) = match s_param_type(c2) {
                        Some((t, c)) => (Some(t), c),
                        None => (None, c2),
                    };
                    let (dv, c4) = match s_param_default(c3) {
                        Some((v, c)) => (Some(v), c),
                        None => (None, c3),
                    };
                    let acc2 = acc.push(param_model(ident_text(n), ty, dv));
                    let c5 = s_skip_ws(c4);
                    match s_expect(c5, Expect::Comma) {
                        Err(_) => Ok((acc2, c5)),
                        Ok((_, c6)) => if progressed(c, c6) {
                            s_params_loop(c6, acc2)
                        } else {
                            Ok((acc2, c6))
                        },
                    }
                } else {
                    Err(unexpected(n, c2.loc()))
                }
            },
        }
    }
}

pub open spec fn s_params(c: CurM) -> Result<(Seq<StateParamModel>, CurM), LocatedErrorModel> {
    s_params_loop(c, seq![])
}

// ---------------------------------------------------------------------------
// Specification: declarations
// ---------------------------------------------------------------------------

pub open spec fn important_word() -> Seq<char> {
    seq!['i', 'm', 'p', 'o', 'r', 't', 'a', 'n', 't']
}

/// Where the `!` of a trailing `!important` stands in a lowercased value
/// (spaces allowed before `important` and before `!`): the length of the
/// text before the `!`.
pub open spec fn important_cut(lower: Seq<char>) -> Option<int> {
    if lower.len() >= 9 && lower.skip(lower.len() - 9) == important_word() {
        let rest = trim_end_seq(lower.take(lower.len() - 9));
        if rest.len() > 0 && rest.last() == '!' {
            Some(rest.len() - 1)
        } else {
            None
        }
    } else {
        None
    }
}

/// For a value `raw` whose lowercased text `lower` ends in `!important`:
/// the part of `raw` before the `!`, in its own case, without trailing
/// whitespace. The `!important` suffix (from the `!` on) has the same
/// length in both texts, since lowercasing leaves `!`, whitespace and
/// `IMPORTANT` in any case one character each, so `raw` is cut that many
/// characters before its end. (Were `raw` shorter than the suffix, which
/// lowercasing cannot produce, the part is taken from `lower`.)
pub open spec fn strip_important(raw: Seq<char>, lower: Seq<char>) -> Option<Seq<char>> {
    match important_cut(lower) {
        Some(k) => {
            let cut = raw.len() - (lower.len() - k);
            if cut >= 0 {
                Some(trim_end_seq(raw.take(cut)))
            } else {
                Some(trim_end_seq(lower.take(k)))
            }
        },
        None => None,
    }
}

/// The tokens of a declaration value (comments left out), written out.
pub open spec fn s_value_tokens(c: CurM, acc: Seq<char>) -> (Seq<char>, CurM)
    decreases c.nodes.len() - c.pos,
{
    if s_is_exhausted(c) {
        (acc, c)
    } else {
        match s_next_iw(c) {
            Ok((i, c2)) => if progressed(c, c2) {
                s_value_tokens(c2, acc + node_text(c.nodes[i]))
            } else {
                (acc + node_text(c.nodes[i]), c2)
            },
            Err(_) => (acc, c),
        }
    }
}

/// The declaration that a value with the given raw text makes: a value that
/// ends in `!important` (in any case) is kept without it.
pub open spec fn declaration_model(
    name: Seq<char>,
    raw: Seq<char>,
    start: SourceLocation,
    end: SourceLocation,
) -> CssDeclarationModel {
    match strip_important(raw, lowercase(raw)) {
        Some(v) => CssDeclarationModel {
            property: name,
            value: v,
            important: true,
            span: span_of(start, end),
        },
        None => CssDeclarationModel {
            property: name,
            value: raw,
            important: false,
            span: span_of(start, end),
        },
    }
}

/// The value of a declaration (after its colon), appended to `items`.
pub open spec fn s_decl_value(c: CurM, name: Seq<char>, items: Seq<ItemModel>) -> (
    Seq<ItemModel>,
    CurM,
) {
    let (raw, c2) = s_value_tokens(c, seq![]);
    (
        items.push(
            ItemModel::Declaration(declaration_model(name, trim_seq(raw), c.loc(), c2.loc())),
        ),
        c2,
    )
}

/// `name: value` up to the next `;` (the name already taken, `c` just after it).
pub open spec fn s_declaration(c: CurM, name: Seq<char>, items: Seq<ItemModel>) -> Result<
    (Seq<ItemModel>, CurM),
    LocatedErrorModel,
> {
    let d = s_delimited(c, Delims::Semicolon);
    match s_expect(d, Expect::Colon) {
        Err(e) => Err(e),
        Ok((_, d2)) => {
            let (items2, d3) = s_decl_value(d2, name, items);
            match s_expect_exhausted(d3) {
                Err(e) => Err(e),
                Ok(_) => Ok((items2, s_after_until_after(c, d))),
            }
        },
    }
}

/// The head of a qualified rule looks like a custom property declaration
/// (`--name:`).
pub open spec fn s_looks_like_custom_property(c: CurM) -> bool {
    match s_expect(c, Expect::Ident) {
        Ok((i, c2)) => starts_with_dashes(ident_text(c.nodes[i])) && s_expect(
            c2,
            Expect::Colon,
        ) is Ok,
        Err(_) => false,
    }
}

// ---------------------------------------------------------------------------
// Specification: at-rules inside bodies
// ---------------------------------------------------------------------------

/// The head of an at-rule in a body: `@if (cond)`, `@elseif (cond)`, `@else`,
/// or any other at-rule, kept as text.
pub open spec fn s_body_at_prelude(d: CurM, name: Seq<char>) -> Result<
    (BodyAtPreludeModel, CurM),
    LocatedErrorModel,
> {
    let loc = d.loc();
    if name == "if"@ || name == "elseif"@ {
        match s_expect(d, Expect::ParenthesisBlock) {
            Err(e) => Err(e),
            Ok((_, d1)) => match entirely(s_condition(s_child(d1))) {
                Err(e) => Err(e),
                Ok((cond, _)) => Ok(
                    (
                        if name == "if"@ {
                            BodyAtPreludeModel::If { condition: cond, loc }
                        } else {
                            BodyAtPreludeModel::ElseIf { condition: cond, loc }
                        },
                        s_after_block(d1),
                    ),
                ),
            },
        }
    } else if name == "else"@ {
        Ok((BodyAtPreludeModel::Else { loc }, d))
    } else {
        let (p, d1) = s_collect_raw(d);
        Ok((BodyAtPreludeModel::Unknown { name, prelude: p, loc }, d1))
    }
}

pub open spec fn semicolon_error(loc: SourceLocation) -> LocatedErrorModel {
    located(ErrorKindModel::UnexpectedToken("Semicolon"@), loc)
}

/// An at-rule in a body that ends without a block: kept when it is not an
/// ECSS rule.
pub open spec fn s_body_without_block(
    p: BodyAtPreludeModel,
    items: Seq<ItemModel>,
    c: CurM,
) -> Result<(Seq<ItemModel>, CurM), LocatedErrorModel> {
    match p {
        BodyAtPreludeModel::Unknown { name, prelude, loc } => Ok(
            (
                items.push(
                    ItemModel::AtRule(
                        CssRawAtRuleModel { name, prelude, block: None, span: span_of(loc, loc) },
                    ),
                ),
                c,
            ),
        ),
        _ => Err(semicolon_error(c.loc())),
    }
}

/// The chain that the last item holds, if the last item is an `@if` chain.
pub open spec fn last_chain(items: Seq<ItemModel>) -> Option<IfChainModel> {
    if items.len() > 0 {
        match items.last() {
            ItemModel::IfChain(ch) => Some(ch),
            _ => None,
        }
    } else {
        None
    }
}

pub open spec fn extend_span(s: Span, end: SourceLocation) -> Span {
    Span { line: s.line, column: s.column, end_line: end.line, end_column: end.column }
}

/// Attaches an `@elseif` clause to the chain of the last item.
pub open spec fn attach_elseif_model(
    items: Seq<ItemModel>,
    clause: IfClauseModel,
    end: SourceLocation,
) -> Result<Seq<ItemModel>, LocatedErrorModel> {
    match last_chain(items) {
        Some(ch) => if ch.else_body is None {
            Ok(
                items.drop_last().push(
                    ItemModel::IfChain(
                        IfChainModel {
                            else_if_clauses: ch.else_if_clauses.push(clause),
                            span: extend_span(ch.span, end),
                            ..ch
                        },
                    ),
                ),
            )
        } else {
            Err(custom_error(EcssErrorModel::Custom("@elseif after @else"@), end))
        },
        None => Err(custom_error(EcssErrorModel::UnexpectedElse, end)),
    }
}

/// Attaches an `@else` body to the chain of the last item.
pub open spec fn attach_else_model(items: Seq<ItemModel>, body: Seq<ItemModel>, end: SourceLocation) -> Result<
    Seq<ItemModel>,
    LocatedErrorModel,
> {
    match last_chain(items) {
        Some(ch) => if ch.else_body is None {
            Ok(
                items.drop_last().push(
                    ItemModel::IfChain(
                        IfChainModel { else_body: Some(body), span: extend_span(ch.span, end), ..ch },
                    ),
                ),
            )
        } else {
            Err(custom_error(EcssErrorModel::Custom("Duplicate @else"@), end))
        },
        None => Err(custom_error(EcssErrorModel::UnexpectedElse, end)),
    }
}

// ---------------------------------------------------------------------------
// Specification: rule bodies (mutually recursive through nested blocks)
// ---------------------------------------------------------------------------

/// Tokens that a body passes over between items.
pub open spec fn skipped_in_body(n: Node) -> bool {
    ||| n matches Node::Leaf { token: Token::CloseCurlyBracket, .. }
    ||| n matches Node::Leaf { token: Token::WhiteSpace, .. }
    ||| n matches Node::Leaf { token: Token::Semicolon, .. }
    ||| n matches Node::Leaf { token: Token::Comment, .. }
}

/// The block of an at-rule in a body, read with the prelude `p`.
pub open spec fn s_body_at_block(c: CurM, p: BodyAtPreludeModel, items: Seq<ItemModel>) -> Result<
    (Seq<ItemModel>, CurM),
    LocatedErrorModel,
>
    decreases c.nodes, 10int, 0int,
{
    match p {
        BodyAtPreludeModel::Unknown { name, prelude, loc } => {
            let (b, c1) = s_collect_raw(c);
            Ok(
                (
                    items.push(
                        ItemModel::AtRule(
                            CssRawAtRuleModel {
                                name,
                                prelude,
                                block: Some(b),
                                span: span_of(loc, c1.loc()),
                            },
                        ),
                    ),
                    c1,
                ),
            )
        },
        _ => match s_rule_body(c) {
            Err(e) => Err(e),
            Ok((body, c1)) => {
                let end = c1.loc();
                match p {
                    BodyAtPreludeModel::If { condition, loc } => Ok(
                        (
                            items.push(
                                ItemModel::IfChain(
                                    IfChainModel {
                                        if_clause: IfClauseModel {
                                            condition,
                                            body,
                                            span: span_of(loc, end),
                                        },
                                        else_if_clauses: seq![],
                                        else_body: None,
                                        span: span_of(loc, end),
                                    },
                                ),
                            ),
                            c1,
                        ),
                    ),
                    BodyAtPreludeModel::ElseIf { condition, loc } => match attach_elseif_model(
                        items,
                        IfClauseModel { condition, body, span: span_of(loc, end) },
                        end,
                    ) {
                        Ok(items2) => Ok((items2, c1)),
                        Err(e) => Err(e),
                    },
                    _ => match attach_else_model(items, body, end) {
                        Ok(items2) => Ok((items2, c1)),
                        Err(e) => Err(e),
                    },
                }
            },
        },
    }
}

/// An at-rule in a body; `c` is just after its at-keyword.
pub open spec fn s_body_at_rule(c: CurM, name: Seq<char>, items: Seq<ItemModel>) -> Result<
    (Seq<ItemModel>, CurM),
    LocatedErrorModel,
>
    decreases c.nodes, 7int, 0int,
{
    let d = s_delimited(c, Delims::SemicolonOrCurlyBracketBlock);
    let c3 = s_after_delimited(c, d);
    match entirely(s_body_at_prelude(d, name)) {
        Err(e) => Err(e),
        Ok((p, _)) => match s_next(c3) {
            Ok((i, c4)) => if is_curly_block(c3.nodes[i]) {
                if has_block(c4) && same_input(c, c4) {
                    match entirely(s_body_at_block(s_child(c4), p, items)) {
                        Ok((items2, _)) => Ok((items2, s_after_block(c4))),
                        Err(e) => Err(e),
                    }
                } else {
                    Err(semicolon_error(c4.loc()))
                }
            } else {
                s_body_without_block(p, items, c4)
            },
            Err(_) => s_body_without_block(p, items, s_skip_ws(c3)),
        },
    }
}

/// A nested rule in a body: a selector (up to `;` or `{`) and a block.
pub open spec fn s_body_qualified_rule(c: CurM, items: Seq<ItemModel>) -> Result<
    (Seq<ItemModel>, CurM),
    LocatedErrorModel,
>
    decreases c.nodes, 6int, 0int,
{
    let c1 = s_skip_ws(c);
    if s_looks_like_custom_property(c1) {
        Err(located(ErrorKindModel::QualifiedRuleInvalid, c1.loc()))
    } else {
        let d = s_delimited(c1, Delims::SemicolonOrCurlyBracketBlock);
        let loc = d.loc();
        let (selector, _) = s_collect_raw(d);
        let c2 = s_after_delimited(c1, d);
        match s_expect(c2, Expect::CurlyBracketBlock) {
            Err(e) => Err(e),
            Ok((_, c3)) => if has_block(c3) && same_input(c, c3) {
                match entirely(s_rule_body(s_child(c3))) {
                    Err(e) => Err(e),
                    Ok((body, cb)) => Ok(
                        (
                            items.push(
                                ItemModel::QualifiedRule(
                                    CssQualifiedRuleModel {
                                        selector,
                                        body,
                                        span: span_of(loc, cb.loc()),
                                    },
                                ),
                            ),
                            s_after_block(c3),
                        ),
                    ),
                }
            } else {
                Err(located(ErrorKindModel::QualifiedRuleInvalid, c3.loc()))
            },
        }
    }
}

/// The items of a body, from the cursor on.
pub open spec fn s_body_loop(c: CurM, items: Seq<ItemModel>) -> Result<
    (Seq<ItemModel>, CurM),
    LocatedErrorModel,
>
    decreases c.nodes, 8int, c.nodes.len() - c.pos,
{
    let c1 = s_skip_ws(c);
    match s_next_iwc(c1) {
        Err(_) => Ok((items, c1)),
        Ok((i, c2)) => {
            let n = c1.nodes[i];
            let step = if skipped_in_body(n) {
                Ok((items, c2))
            } else if !same_input(c, c2) || !same_input(c, c1) {
                Ok((items, c2))
            } else if n matches Node::Leaf { token: Token::AtKeyword(name), .. } {
                s_body_at_rule(c2, at_keyword_text(n), items)
            } else if n matches Node::Leaf { token: Token::Ident(name), .. } {
                match s_declaration(c2, ident_text(n), items) {
                    Ok(x) => Ok(x),
                    Err(e) => match s_body_qualified_rule(c1, items) {
                        Ok(x) => Ok(x),
                        Err(_) => Err(e),
                    },
                }
            } else {
                s_body_qualified_rule(c1, items)
            };
            match step {
                Err(e) => Err(e),
                Ok((items2, c3)) => if progressed(c, c3) {
                    s_body_loop(c3, items2)
                } else {
                    Ok((items2, c3))
                },
            }
        },
    }
}

/// A whole body: the contents of a `@state-def`, nested rule or `@if` block.
pub open spec fn s_rule_body(c: CurM) -> Result<(Seq<ItemModel>, CurM), LocatedErrorModel>
    decreases c.nodes, 9int, 0int,
{
    s_body_loop(c, seq![])
}

pub open spec fn at_keyword_text(n: Node) -> Seq<char> {
    match n {
        Node::Leaf { token: Token::AtKeyword(s), .. } => s@,
        _ => seq![],
    }
}

// ---------------------------------------------------------------------------
// Specification: the stylesheet
// ---------------------------------------------------------------------------

/// The head of a top-level at-rule: `@state-variant Name`, `@state-def Name`
/// or `@state-def Name(params)`, or any other at-rule, kept as text.
pub open spec fn s_top_at_prelude(d: CurM, name: Seq<char>) -> Result<
    (AtPreludeModel, CurM),
    LocatedErrorModel,
> {
    let loc = d.loc();
    if name == "state-variant"@ {
        match s_ident_owned(d, EcssErrorModel::ExpectedIdent) {
            Ok((n, d1)) => Ok((AtPreludeModel::StateVariant { name: n, loc }, d1)),
            Err(e) => Err(e),
        }
    } else if name == "state-def"@ {
        match s_next(d) {
            Err(e) => Err(e),
            Ok((i, d1)) => match d.nodes[i] {
                Node::Leaf { token: Token::Ident(n), .. } => Ok(
                    (AtPreludeModel::StateDef { name: n@, params: seq![], loc }, d1),
                ),
                Node::Block { kind: BlockKind::Function(n), .. } => match entirely(
                    s_params(s_child(d1)),
                ) {
                    Ok((params, _)) => Ok(
                        (AtPreludeModel::StateDef { name: n@, params, loc }, s_after_block(d1)),
                    ),
                    Err(e) => Err(e),
                },
                other => Err(unexpected(other, d1.loc())),
            },
        }
    } else {
        let (p, d1) = s_collect_raw(d);
        Ok((AtPreludeModel::Unknown { name, prelude: p, loc }, d1))
    }
}

/// A top-level at-rule that ends without a block: kept when it is not an
/// ECSS rule.
pub open spec fn s_top_without_block(p: AtPreludeModel, c: CurM) -> Result<
    (RuleModel, CurM),
    LocatedErrorModel,
> {
    match p {
        AtPreludeModel::Unknown { name, prelude, loc } => Ok(
            (
                RuleModel::AtRule(
                    CssRawAtRuleModel { name, prelude, block: None, span: span_of(loc, loc) },
                ),
                c,
            ),
        ),
        _ => Err(semicolon_error(c.loc())),
    }
}

/// The block of a top-level at-rule, read with the prelude `p`.
pub open spec fn s_top_at_block(c: CurM, p: AtPreludeModel) -> Result<
    (RuleModel, CurM),
    LocatedErrorModel,
> {
    match p {
        AtPreludeModel::StateVariant { name, loc } => match s_variant_block(c) {
            Ok((values, c1)) => Ok(
                (
                    RuleModel::StateVariant(
                        StateVariantModel { name, values, span: span_of(loc, c1.loc()) },
                    ),
                    c1,
                ),
            ),
            Err(e) => Err(e),
        },
        AtPreludeModel::StateDef { name, params, loc } => match s_rule_body(c) {
            Ok((body, c1)) => Ok(
                (
                    RuleModel::StateDef(
                        StateDefModel { name, params, body, span: span_of(loc, c1.loc()) },
                    ),
                    c1,
                ),
            ),
            Err(e) => Err(e),
        },
        AtPreludeModel::Unknown { name, prelude, loc } => {
            let (b, c1) = s_collect_raw(c);
            Ok(
                (
                    RuleModel::AtRule(
                        CssRawAtRuleModel {
                            name,
                            prelude,
                            block: Some(b),
                            span: span_of(loc, c1.loc()),
                        },
                    ),
                    c1,
                ),
            )
        },
    }
}

/// A top-level at-rule; `c` is just after its at-keyword.
pub open spec fn s_top_at_rule(c: CurM, name: Seq<char>) -> Result<
    (RuleModel, CurM),
    LocatedErrorModel,
> {
    let d = s_delimited(c, Delims::SemicolonOrCurlyBracketBlock);
    let c3 = s_after_delimited(c, d);
    match entirely(s_top_at_prelude(d, name)) {
        Err(e) => Err(e),
        Ok((p, _)) => match s_next(c3) {
            Ok((i, c4)) => if is_curly_block(c3.nodes[i]) {
                match entirely(s_top_at_block(s_child(c4), p)) {
                    Ok((rule, _)) => Ok((rule, s_after_block(c4))),
                    Err(e) => Err(e),
                }
            } else {
                s_top_without_block(p, c4)
            },
            Err(_) => s_top_without_block(p, s_skip_ws(c3)),
        },
    }
}

/// A top-level rule with a selector (everything up to its `{` block).
pub open spec fn s_top_qualified_rule(c: CurM) -> Result<(RuleModel, CurM), LocatedErrorModel> {
    let c1 = s_skip_ws(c);
    if s_looks_like_custom_property(c1) {
        Err(located(ErrorKindModel::QualifiedRuleInvalid, c1.loc()))
    } else {
        let d = s_delimited(c1, Delims::CurlyBracketBlock);
        let loc = d.loc();
        let (selector, _) = s_collect_raw(d);
        let c2 = s_after_delimited(c1, d);
        match s_expect(c2, Expect::CurlyBracketBlock) {
            Err(e) => Err(e),
            Ok((_, c3)) => match entirely(s_rule_body(s_child(c3))) {
                Err(e) => Err(e),
                Ok((body, cb)) => Ok(
                    (
                        RuleModel::QualifiedRule(
                            CssQualifiedRuleModel { selector, body, span: span_of(loc, cb.loc()) },
                        ),
                        s_after_block(c3),
                    ),
                ),
            },
        }
    }
}

/// `charset`, in any ASCII case.
pub open spec fn is_charset(s: Seq<char>) -> bool {
    &&& s.len() == 7
    &&& (s[0] == 'c' || s[0] == 'C')
    &&& (s[1] == 'h' || s[1] == 'H')
    &&& (s[2] == 'a' || s[2] == 'A')
    &&& (s[3] == 'r' || s[3] == 'R')
    &&& (s[4] == 's' || s[4] == 'S')
    &&& (s[5] == 'e' || s[5] == 'E')
    &&& (s[6] == 't' || s[6] == 'T')
}

/// The rules of a stylesheet, from the cursor on. An `@charset` rule that
/// comes first is passed over.
pub open spec fn s_sheet_loop(c: CurM, rules: Seq<RuleModel>, any_rule: bool) -> Result<
    (Seq<RuleModel>, CurM),
    LocatedErrorModel,
>
    decreases c.nodes.len() - c.pos,
{
    let c1 = s_skip_cdx(c);
    if c1.pos >= c1.hi {
        Ok((rules, c1))
    } else {
        let n = c1.nodes[c1.pos];
        let step = if n matches Node::Leaf { token: Token::AtKeyword(_), .. } {
            let c2 = c1.at(c1.pos + 1, false);
            if !any_rule && is_charset(at_keyword_text(n)) {
                let d = s_delimited(c2, Delims::SemicolonOrCurlyBracketBlock);
                Ok((rules, s_after_until_after(c2, d)))
            } else {
                match s_top_at_rule(c2, at_keyword_text(n)) {
                    Ok((rule, c3)) => Ok((rules.push(rule), c3)),
                    Err(e) => Err(e),
                }
            }
        } else {
            match s_top_qualified_rule(c1) {
                Ok((rule, c3)) => Ok((rules.push(rule), c3)),
                Err(e) => Err(e),
            }
        };
        match step {
            Err(e) => Err(e),
            Ok((rules2, c3)) => if progressed(c, c3) {
                s_sheet_loop(c3, rules2, true)
            } else {
                Ok((rules2, c3))
            },
        }
    }
}

/// A token tree: the nodes of a whole source and the location of its end.
pub struct TokenTree {
    pub nodes: Vec<Node>,
    pub end: SourceLocation,
}

pub open spec fn tree_cursor(t: TokenTree) -> CurM {
    CurM { nodes: t.nodes@, hi: t.nodes@.len() as int, end: t.end, pos: 0, pending: false }
}

/// The rules of a whole source, or the first error.
pub open spec fn s_stylesheet(t: TokenTree) -> Result<Seq<RuleModel>, LocatedErrorModel> {
    match s_sheet_loop(tree_cursor(t), seq![], false) {
        Ok((rules, _)) => Ok(rules),
        Err(e) => Err(e),
    }
}

// ---------------------------------------------------------------------------
// Implementation: small pieces
// ---------------------------------------------------------------------------

/// Collect the remaining tokens of the stretch as trimmed text (selectors,
/// unknown preludes and blocks).
pub fn collect_raw(input: &mut Cursor) -> (r: String)
    requires
        old(input)@.wf(),
    ensures
        (r@, final(input)@) == s_collect_raw(old(input)@),
        final(input).nodes == old(input).nodes,
{
    let ghost c0 = input@;
    let mut out = String::new();
    loop
        invariant
            input@.wf(),
            input.nodes == old(input).nodes,
            input.hi == c0.hi,
            input.end == c0.end,
            c0.nodes == input@.nodes,
            c0.pos <= input.pos,
            out@ == nodes_text(c0.nodes, c0.pos, input.pos as int),
        ensures
            input@ == c0.at(c0.hi, false),
            out@ == nodes_text(c0.nodes, c0.pos, c0.hi),
        decreases input.hi - input.pos,
    {
        match input.next_including_whitespace_and_comments() {
            Ok(i) => {
                append_node(&mut out, &input.nodes[i]);
            },
            Err(_) => {
                break ;
            },
        }
    }
    trim(out.as_str())
}

/// An identifier, or the error `err` where the cursor stopped.
pub fn parse_ident_owned(input: &mut Cursor, err: EcssError) -> (r: Result<String, LocatedError>)
    requires
        old(input)@.wf(),
    ensures
        agrees(r, s_ident_owned(old(input)@, err@), final(input)@),
        final(input)@ == s_after_next(old(input)@),
        final(input).nodes == old(input).nodes,
{
    let c0 = *input;
    match input.expect(Expect::Ident) {
        Ok(i) => match &c0.nodes[i] {
            Node::Leaf { token: Token::Ident(s), .. } => Ok(s.clone()),
            _ => {
                assert(false);
                Err(LocatedError { kind: ErrorKind::Custom(err), loc: input.loc() })
            },
        },
        Err(_) => {
            proof {
                lemma_next(c0@);
            }
            Err(LocatedError { kind: ErrorKind::Custom(err), loc: input.loc() })
        },
    }
}

fn ident_or_string_of(n: &Node) -> (r: Option<String>)
    ensures
        match ident_or_string(*n) {
            Some(v) => r is Some && r->0@ == v,
            None => r is None,
        },
{
    match n {
        Node::Leaf { token: Token::Ident(s), .. } => Some(s.clone()),
        Node::Leaf { token: Token::QuotedString(s), .. } => Some(s.clone()),
        _ => None,
    }
}

/// Parse `values: a, "b", c;` in a `@state-variant` block.
pub fn parse_variant_block(input: &mut Cursor) -> (r: Result<Vec<String>, LocatedError>)
    requires
        old(input)@.wf(),
    ensures
        match s_variant_block(old(input)@) {
            Ok((vals, c2)) => r is Ok && strings_model(r->Ok_0@) == vals && final(input)@ == c2,
            Err(e) => r is Err && r->Err_0@ == e,
        },
        r is Ok ==> final(input)@.advanced_from(old(input)@),
        final(input).nodes == old(input).nodes,
{
    let ghost c0 = input@;
    proof {
        lemma_next(c0);
    }
    let kw = parse_ident_owned(input, EcssError::ExpectedValues)?;
    if !str_eq(kw.as_str(), "values") {
        return Err(
            LocatedError { kind: ErrorKind::Custom(EcssError::ExpectedValues), loc: input.loc() },
        );
    }
    let ghost c1 = input@;
    proof {
        lemma_next(c1);
    }
    if input.expect(Expect::Colon).is_err() {
        return Err(
            LocatedError { kind: ErrorKind::Custom(EcssError::ExpectedValues), loc: input.loc() },
        );
    }
    let mut values: Vec<String> = Vec::new();
    assert(strings_model(values@) =~= seq![]);
    loop
        invariant_except_break
            s_variant_block(c0) == s_values_loop(input@, strings_model(values@)),
        invariant
            input@.wf(),
            input@.advanced_from(c0),
            input.nodes == old(input).nodes,
            c0 == old(input)@,
        ensures
            s_variant_block(c0) == Ok::<(Seq<Seq<char>>, CurM), LocatedErrorModel>(
                (strings_model(values@), input@),
            ),
            input@.advanced_from(c0),
            input.nodes == old(input).nodes,
        decreases input.nodes@.len() - input.pos,
    {
        let ghost c = input@;
        let ghost acc = strings_model(values@);
        proof {
            lemma_skip_ws(c);
        }
        input.skip_whitespace();
        let c1 = *input;
        proof {
            lemma_next(c1@);
        }
        if input.is_exhausted() {
            break ;
        }
        if input.expect(Expect::Semicolon).is_ok() {
            break ;
        }
        *input = c1;
        let i = match input.next() {
            Ok(i) => i,
            Err(e) => {
                return Err(e);
            },
        };
        let ghost c3 = input@;
        let val = match ident_or_string_of(&c1.nodes[i]) {
            Some(v) => v,
            None => {
                return Err(
                    LocatedError {
                        kind: ErrorKind::UnexpectedToken(c1.nodes[i].debug_text()),
                        loc: input.loc(),
                    },
                );
            },
        };
        let ghost v = val@;
        values.push(val);
        assert(strings_model(values@) =~= acc.push(v));
        proof {
            lemma_skip_ws(c3);
        }
        input.skip_whitespace();
        let c4 = *input;
        proof {
            lemma_next(c4@);
        }
        if input.expect(Expect::Comma).is_err() {
            *input = c4;
        }
        assert(progressed(c, input@));
    }
    Ok(values)
}

// ---------------------------------------------------------------------------
// Implementation: `@state-def` parameters
// ---------------------------------------------------------------------------

/// An optional type after a parameter name, or the cursor left where it was.
fn try_param_type(input: &mut Cursor) -> (r: Option<String>)
    requires
        old(input)@.wf(),
    ensures
        match s_param_type(old(input)@) {
            Some((t, c2)) => r is Some && r->0@ == t && final(input)@ == c2,
            None => r is None && final(input)@ == old(input)@,
        },
        final(input)@.advanced_from(old(input)@),
        final(input).nodes == old(input).nodes,
{
    let checkpoint = *input;
    proof {
        lemma_skip_ws(input@);
    }
    input.skip_whitespace();
    let c = *input;
    proof {
        lemma_next(c@);
    }
    match input.next() {
        Ok(i) => match &c.nodes[i] {
            Node::Leaf { token: Token::Ident(s), .. } => {
                if !has_dash_prefix(s.as_str()) {
                    return Some(s.clone());
                }
            },
            _ => {},
        },
        Err(_) => {},
    }
    *input = checkpoint;
    None
}

/// An optional `: default`, or the cursor left where it was.
fn try_param_default(input: &mut Cursor) -> (r: Option<String>)
    requires
        old(input)@.wf(),
    ensures
        match s_param_default(old(input)@) {
            Some((v, c2)) => r is Some && r->0@ == v && final(input)@ == c2,
            None => r is None && final(input)@ == old(input)@,
        },
        final(input)@.advanced_from(old(input)@),
        final(input).nodes == old(input).nodes,
{
    let checkpoint = *input;
    proof {
        lemma_skip_ws(input@);
    }
    input.skip_whitespace();
    let c = *input;
    proof {
        lemma_next(c@);
    }
    match input.next() {
        Ok(i) => {
            if matches!(c.nodes[i], Node::Leaf { token: Token::Colon, .. }) {
                proof {
                    lemma_skip_ws(input@);
                }
                input.skip_whitespace();
                let c2 = *input;
                proof {
                    lemma_next(c2@);
                }
                match input.next() {
                    Ok(j) => match ident_or_string_of(&c2.nodes[j]) {
                        Some(v) => {
                            return Some(v);
                        },
                        None => {},
                    },
                    Err(_) => {},
                }
            }
        },
        Err(_) => {},
    }
    *input = checkpoint;
    None
}

fn opt_clone(o: &Option<String>) -> (r: Option<String>)
    ensures
        opt_string_model(r) == opt_string_model(*o),
{
    match o {
        Some(s) => Some(s.clone()),
        None => None,
    }
}

/// Parse the parameter list of `@state-def Name(...)`.
pub fn parse_state_def_params(input: &mut Cursor) -> (r: Result<Vec<StateParam>, LocatedError>)
    requires
        old(input)@.wf(),
    ensures
        match s_params(old(input)@) {
            Ok((ps, c2)) => r is Ok && params_model(r->Ok_0@) == ps && final(input)@ == c2,
            Err(e) => r is Err && r->Err_0@ == e,
        },
        r is Ok ==> final(input)@.advanced_from(old(input)@),
        final(input).nodes == old(input).nodes,
{
    let ghost c0 = input@;
    let mut params: Vec<StateParam> = Vec::new();
    assert(params_model(params@) =~= seq![]);
    loop
        invariant_except_break
            s_params(c0) == s_params_loop(input@, params_model(params@)),
        invariant
            input@.wf(),
            input@.advanced_from(c0),
            input.nodes == old(input).nodes,
            c0 == old(input)@,
        ensures
            s_params(c0) == Ok::<(Seq<StateParamModel>, CurM), LocatedErrorModel>(
                (params_model(params@), input@),
            ),
            input@.advanced_from(c0),
            input.nodes == old(input).nodes,
        decreases input.nodes@.len() - input.pos,
    {
        let ghost c = input@;
        let ghost acc = params_model(params@);
        proof {
            lemma_skip_ws(c);
        }
        input.skip_whitespace();
        if input.is_exhausted() {
            break ;
        }
        let c1 = *input;
        proof {
            lemma_next(c1@);
        }
        let i = match input.next() {
            Ok(i) => i,
            Err(e) => {
                return Err(e);
            },
        };
        let param_name = match &c1.nodes[i] {
            Node::Leaf { token: Token::Ident(s), .. } => {
                if has_dash_prefix(s.as_str()) {
                    s.clone()
                } else {
                    return Err(
                        LocatedError {
                            kind: ErrorKind::UnexpectedToken(c1.nodes[i].debug_text()),
                            loc: input.loc(),
                        },
                    );
                }
            },
            other => {
                return Err(
                    LocatedError {
                        kind: ErrorKind::UnexpectedToken(other.debug_text()),
                        loc: input.loc(),
                    },
                );
            },
        };
        let type_ident = try_param_type(input);
        let default_value = try_param_default(input);
        let ghost ty = opt_string_model(type_ident);
        let ghost dv = opt_string_model(default_value);
        let p = match type_ident {
            None => StateParam {
                name: param_name,
                param_type: String::from_str("boolean"),
                variant_name: None,
                default_value,
            },
            Some(name) => {
                if str_eq(name.as_str(), "boolean") {
                    StateParam {
                        name: param_name,
                        param_type: String::from_str("boolean"),
                        variant_name: None,
                        default_value,
                    }
                } else {
                    StateParam {
                        name: param_name,
                        param_type: String::from_str("variant"),
                        variant_name: Some(name),
                        default_value,
                    }
                }
            },
        };
        assert(p@ == param_model(ident_text(c1@.nodes[i as int]), ty, dv));
        params.push(p);
        assert(params_model(params@) =~= acc.push(
            param_model(ident_text(c1@.nodes[i as int]), ty, dv),
        ));
        proof {
            lemma_skip_ws(input@);
        }
        input.skip_whitespace();
        let c5 = *input;
        proof {
            lemma_next(c5@);
        }
        if input.expect(Expect::Comma).is_err() {
            *input = c5;
            break ;
        }
        assert(progressed(c, input@));
    }
    Ok(params)
}

// ---------------------------------------------------------------------------
// Implementation: declarations
// ---------------------------------------------------------------------------

fn ends_with_important(s: &str) -> (r: bool)
    ensures
        r == (s@.len() >= 9 && s@.skip(s@.len() - 9) == important_word()),
{
    let n = s.unicode_len();
    if n < 9 {
        return false;
    }
    let k = n - 9;
    let r = s.get_char(k) == 'i' && s.get_char(k + 1) == 'm' && s.get_char(k + 2) == 'p'
        && s.get_char(k + 3) == 'o' && s.get_char(k + 4) == 'r' && s.get_char(k + 5) == 't'
        && s.get_char(k + 6) == 'a' && s.get_char(k + 7) == 'n' && s.get_char(k + 8) == 't';
    proof {
        let t = s@.skip(k as int);
        if r {
            assert(t =~= important_word());
        } else if t == important_word() {
            assert(t[0] == s@[k as int]);
            assert(t[1] == s@[k + 1]);
            assert(t[2] == s@[k + 2]);
            assert(t[3] == s@[k + 3]);
            assert(t[4] == s@[k + 4]);
            assert(t[5] == s@[k + 5]);
            assert(t[6] == s@[k + 6]);
            assert(t[7] == s@[k + 7]);
            assert(t[8] == s@[k + 8]);
            assert(important_word()[0] == 'i');
            assert(false);
        }
    }
    r
}

/// For a declaration value `raw` and its lowercased text `raw_lower` that
/// ends in `!important`: the part of `raw` before the `!` (see
/// `strip_important`). Handles "red !important" and "Red!IMPORTANT".
pub fn strip_important_suffix(raw: &str, raw_lower: &str) -> (r: Option<String>)
    ensures
        match strip_important(raw@, raw_lower@) {
            Some(v) => r is Some && r->0@ == v,
            None => r is None,
        },
{
    if !ends_with_important(raw_lower) {
        return None;
    }
    let n = raw_lower.unicode_len();
    let head = raw_lower.substring_char(0, n - 9);
    assert(head@ =~= raw_lower@.take(n - 9));
    let rest = trim_end(head);
    proof {
        lemma_trim_end_prefix(head@);
    }
    let m = rest.unicode_len();
    if m > 0 && rest.get_char(m - 1) == '!' {
        let k = m - 1;
        let suffix = n - k;
        let rn = raw.unicode_len();
        if rn >= suffix {
            let part = raw.substring_char(0, rn - suffix);
            assert(part@ =~= raw@.take(rn - suffix));
            Some(trim_end(part))
        } else {
            let part = rest.as_str().substring_char(0, k);
            assert(part@ =~= raw_lower@.take(k as int));
            Some(trim_end(part))
        }
    } else {
        None
    }
}

proof fn lemma_comment_end_blank(nodes: Seq<Node>, pos: int, hi: int)
    requires
        pos <= hi,
        comment_end(nodes, pos, hi) >= hi,
    ensures
        blank_end(nodes, pos, hi) == hi,
    decreases hi - pos,
{
    if pos < hi {
        lemma_comment_end_blank(nodes, pos + 1, hi);
    }
}

proof fn lemma_value_tokens(c: CurM, acc: Seq<char>)
    requires
        c.wf(),
    ensures
        s_value_tokens(c, acc).1.advanced_from(c),
        s_is_exhausted(s_value_tokens(c, acc).1),
    decreases c.nodes.len() - c.pos,
{
    if !s_is_exhausted(c) {
        lemma_next_iw(c);
        lemma_comment_end(c.nodes, c.pos, c.hi);
        match s_next_iw(c) {
            Ok((i, c2)) => {
                lemma_value_tokens(c2, acc + node_text(c.nodes[i]));
            },
            Err(_) => {
                lemma_comment_end_blank(c.nodes, c.pos, c.hi);
            },
        }
    }
}

/// The tokens of a declaration value, written out (comments left out).
fn value_tokens(input: &mut Cursor) -> (r: String)
    requires
        old(input)@.wf(),
    ensures
        (r@, final(input)@) == s_value_tokens(old(input)@, seq![]),
        final(input).nodes == old(input).nodes,
{
    let ghost c0 = input@;
    let mut raw = String::new();
    loop
        invariant_except_break
            s_value_tokens(c0, seq![]) == s_value_tokens(input@, raw@),
        invariant
            input@.wf(),
            input@.advanced_from(c0),
            input.nodes == old(input).nodes,
        ensures
            s_value_tokens(c0, seq![]) == (raw@, input@),
            input.nodes == old(input).nodes,
        decreases input.nodes@.len() - input.pos,
    {
        let ghost acc = raw@;
        if input.is_exhausted() {
            break ;
        }
        let c = *input;
        proof {
            lemma_next_iw(c@);
        }
        match input.next_including_whitespace() {
            Ok(i) => {
                append_node(&mut raw, &c.nodes[i]);
            },
            Err(_) => {
                *input = c;
                break ;
            },
        }
    }
    raw
}

/// The value of a declaration named `name` (the cursor just after its
/// colon); the declaration is appended to `items`.
fn parse_declaration_value(input: &mut Cursor, name: String, items: &mut Vec<StateDefItem>)
    requires
        old(input)@.wf(),
        items_wf(old(items)@),
    ensures
        (items_model(final(items)@), final(input)@) == s_decl_value(
            old(input)@,
            name@,
            items_model(old(items)@),
        ),
        items_wf(final(items)@),
        final(input).nodes == old(input).nodes,
{
    let loc = input.loc();
    proof {
        lemma_value_tokens(input@, seq![]);
    }
    let raw0 = value_tokens(input);
    let end = input.loc();
    let raw = trim(raw0.as_str());
    let value_lower = to_lowercase(raw.as_str());
    let (value, important) = match strip_important_suffix(raw.as_str(), value_lower.as_str()) {
        Some(v) => (v, true),
        None => (raw, false),
    };
    let item = StateDefItem::declaration(
        CssDeclaration { property: name, value, important, span: make_span(loc, end) },
    );
    proof {
        lemma_items_push(items@, item);
    }
    items.push(item);
}

/// `name: value` up to the next `;`, appended to `items`; the cursor is just
/// after the name. On failure `items` is unchanged.
fn parse_declaration(input: &mut Cursor, name: String, items: &mut Vec<StateDefItem>) -> (r:
    Result<(), LocatedError>)
    requires
        old(input)@.wf(),
        items_wf(old(items)@),
    ensures
        match s_declaration(old(input)@, name@, items_model(old(items)@)) {
            Ok((its, c2)) => r is Ok && items_model(final(items)@) == its && final(input)@ == c2,
            Err(e) => r is Err && r->Err_0@ == e && final(items)@ == old(items)@,
        },
        items_wf(final(items)@),
        r is Ok ==> final(input)@.advanced_from(old(input)@),
        final(input).nodes == old(input).nodes,
{
    let mut sub = input.delimited(Delims::Semicolon);
    proof {
        lemma_next(sub@);
    }
    sub.expect(Expect::Colon)?;
    proof {
        lemma_value_tokens(sub@, seq![]);
    }
    parse_declaration_value(&mut sub, name, items);
    match sub.expect_exhausted() {
        Err(e) => {
            return Err(e);
        },
        Ok(()) => {},
    }
    proof {
        lemma_delim_end(input.nodes@, input.pos as int, input.hi as int, Delims::Semicolon);
    }
    if sub.hi < input.hi {
        input.pos = sub.hi + 1;
    } else {
        input.pos = sub.hi;
    }
    input.pending = false;
    Ok(())
}

/// Whether the cursor stands at `--name:`.
fn looks_like_a_custom_property(input: &Cursor) -> (r: bool)
    requires
        input@.wf(),
    ensures
        r == s_looks_like_custom_property(input@),
{
    let mut probe = *input;
    proof {
        lemma_next(probe@);
    }
    match probe.expect(Expect::Ident) {
        Ok(i) => {
            let is_custom = match &input.nodes[i] {
                Node::Leaf { token: Token::Ident(s), .. } => has_dash_prefix(s.as_str()),
                _ => false,
            };
            is_custom && probe.expect(Expect::Colon).is_ok()
        },
        Err(_) => false,
    }
}

// ---------------------------------------------------------------------------
// Implementation: rule bodies
// ---------------------------------------------------------------------------

/// The head of an at-rule in a body (the stretch before its `;` or block).
fn body_parse_prelude(d: &mut Cursor, name: &String) -> (r: Result<BodyAtPrelude, LocatedError>)
    requires
        old(d)@.wf(),
    ensures
        agrees(r, s_body_at_prelude(old(d)@, name@), final(d)@),
        r is Ok ==> final(d)@.advanced_from(old(d)@),
        final(d).nodes == old(d).nodes,
{
    let loc = d.loc();
    let is_if = str_eq(name.as_str(), "if");
    let is_elseif = str_eq(name.as_str(), "elseif");
    if is_if || is_elseif {
        proof {
            lemma_next(d@);
        }
        d.expect(Expect::ParenthesisBlock)?;
        let mut child = d.child();
        let condition = parse_condition(&mut child)?;
        child.expect_exhausted()?;
        d.finish_block();
        if is_if {
            Ok(BodyAtPrelude::If { condition, loc })
        } else {
            Ok(BodyAtPrelude::ElseIf { condition, loc })
        }
    } else if str_eq(name.as_str(), "else") {
        Ok(BodyAtPrelude::Else { loc })
    } else {
        let prelude = collect_raw(d);
        Ok(BodyAtPrelude::Unknown { name: name.clone(), prelude, loc })
    }
}

/// An at-rule in a body without a block: kept unless it is an ECSS rule.
fn body_rule_without_block(
    prelude: BodyAtPrelude,
    items: &mut Vec<StateDefItem>,
    at: &Cursor,
) -> (r: Result<(), LocatedError>)
    requires
        at@.wf(),
        items_wf(old(items)@),
    ensures
        match s_body_without_block(prelude@, items_model(old(items)@), at@) {
            Ok((its, _)) => r is Ok && items_model(final(items)@) == its,
            Err(e) => r is Err && r->Err_0@ == e && final(items)@ == old(items)@,
        },
        items_wf(final(items)@),
{
    match prelude {
        BodyAtPrelude::Unknown { name, prelude, loc } => {
            let item = StateDefItem::at_rule(
                CssRawAtRule { name, prelude, block: None, span: make_span(loc, loc) },
            );
            proof {
                lemma_items_push(items@, item);
            }
            items.push(item);
            Ok(())
        },
        _ => Err(
            LocatedError {
                kind: ErrorKind::UnexpectedToken(String::from_str("Semicolon")),
                loc: at.loc(),
            },
        ),
    }
}

proof fn lemma_items_last(s: Seq<StateDefItem>)
    requires
        s.len() > 0,
        items_wf(s),
    ensures
        items_model(s).last() == item_model(s.last()),
        items_model(s).drop_last() == items_model(s.drop_last()),
        items_model(s).len() == s.len(),
        items_wf(s.drop_last()),
        item_wf(s.last()),
        last_chain(items_model(s)) is Some <==> s.last().if_chain is Some,
        s.last().if_chain is Some ==> last_chain(items_model(s)) == Some(
            chain_model(s.last().if_chain->0),
        ),
        s.last().if_chain is Some ==> chain_wf(s.last().if_chain->0),
{
    lemma_items_len(s);
    assert(items_model(s) == items_model(s.drop_last()).push(item_model(s.last())));
    assert(items_model(s).drop_last() =~= items_model(s.drop_last()));
}

proof fn lemma_items_len(s: Seq<StateDefItem>)
    ensures
        items_model(s).len() == s.len(),
    decreases s.len(),
{
    if s.len() > 0 {
        lemma_items_len(s.drop_last());
    }
}

/// Attaches an `@elseif` clause to the `@if` chain that is the last item.
fn attach_elseif(items: &mut Vec<StateDefItem>, clause: IfClause, end: SourceLocation) -> (r:
    Result<(), LocatedError>)
    requires
        items_wf(old(items)@),
        clause_wf(clause),
    ensures
        match attach_elseif_model(items_model(old(items)@), clause@, end) {
            Ok(its) => r is Ok && items_model(final(items)@) == its,
            Err(e) => r is Err && r->Err_0@ == e && final(items)@ == old(items)@,
        },
        items_wf(final(items)@),
{
    let n = items.len();
    if n > 0 && items[n - 1].if_chain.is_some() {
        proof {
            lemma_items_last(items@);
        }
        let open_chain = match &items[n - 1].if_chain {
            Some(ch) => ch.else_body.is_none(),
            None => false,
        };
        if open_chain {
            let ghost old_items = items@;
            let last = items.pop().unwrap();
            assert(items@ == old_items.drop_last());
            let StateDefItem { kind: _, declaration: _, qualified_rule: _, if_chain, at_rule: _ } =
                last;
            let mut chain = if_chain.unwrap();
            let ghost old_clauses = chain.else_if_clauses@;
            chain.span.end_line = end.line;
            chain.span.end_column = end.column;
            chain.else_if_clauses.push(clause);
            proof {
                lemma_clauses_push(old_clauses, clause);
            }
            let item = StateDefItem::if_chain(chain);
            proof {
                lemma_items_push(items@, item);
            }
            items.push(item);
            Ok(())
        } else {
            Err(
                LocatedError {
                    kind: ErrorKind::Custom(EcssError::Custom(String::from_str("@elseif after @else"))),
                    loc: end,
                },
            )
        }
    } else {
        proof {
            if n > 0 {
                lemma_items_last(items@);
            }
        }
        Err(LocatedError { kind: ErrorKind::Custom(EcssError::UnexpectedElse), loc: end })
    }
}

/// Attaches an `@else` body to the `@if` chain that is the last item.
fn attach_else(items: &mut Vec<StateDefItem>, body: Vec<StateDefItem>, end: SourceLocation) -> (r:
    Result<(), LocatedError>)
    requires
        items_wf(old(items)@),
        items_wf(body@),
    ensures
        match attach_else_model(items_model(old(items)@), items_model(body@), end) {
            Ok(its) => r is Ok && items_model(final(items)@) == its,
            Err(e) => r is Err && r->Err_0@ == e && final(items)@ == old(items)@,
        },
        items_wf(final(items)@),
{
    let n = items.len();
    if n > 0 && items[n - 1].if_chain.is_some() {
        proof {
            lemma_items_last(items@);
        }
        let open_chain = match &items[n - 1].if_chain {
            Some(ch) => ch.else_body.is_none(),
            None => false,
        };
        if open_chain {
            let ghost old_items = items@;
            let last = items.pop().unwrap();
            assert(items@ == old_items.drop_last());
            let StateDefItem { kind: _, declaration: _, qualified_rule: _, if_chain, at_rule: _ } =
                last;
            let mut chain = if_chain.unwrap();
            chain.span.end_line = end.line;
            chain.span.end_column = end.column;
            chain.else_body = Some(body);
            let item = StateDefItem::if_chain(chain);
            proof {
                lemma_items_push(items@, item);
            }
            items.push(item);
            Ok(())
        } else {
            Err(
                LocatedError {
                    kind: ErrorKind::Custom(EcssError::Custom(String::from_str("Duplicate @else"))),
                    loc: end,
                },
            )
        }
    } else {
        proof {
            if n > 0 {
                lemma_items_last(items@);
            }
        }
        Err(LocatedError { kind: ErrorKind::Custom(EcssError::UnexpectedElse), loc: end })
    }
}

/// The block of an at-rule in a body, read with its prelude: an `@if`
/// starts a chain, `@elseif` / `@else` extend the chain before them, any
/// other at-rule keeps its block as text.
fn body_parse_block(input: &mut Cursor, prelude: BodyAtPrelude, items: &mut Vec<StateDefItem>) -> (r:
    Result<(), LocatedError>)
    requires
        old(input)@.wf(),
        items_wf(old(items)@),
    ensures
        match s_body_at_block(old(input)@, prelude@, items_model(old(items)@)) {
            Ok((its, c2)) => r is Ok && items_model(final(items)@) == its && final(input)@ == c2
                && items_wf(final(items)@),
            Err(e) => r is Err && r->Err_0@ == e && final(items)@ == old(items)@,
        },
        r is Ok ==> final(input)@.advanced_from(old(input)@),
        final(input).nodes == old(input).nodes,
    decreases old(input).nodes@, 4int,
{
    match prelude {
        BodyAtPrelude::Unknown { name, prelude, loc } => {
            let block = collect_raw(input);
            let end = input.loc();
            let item = StateDefItem::at_rule(
                CssRawAtRule { name, prelude, block: Some(block), span: make_span(loc, end) },
            );
            proof {
                lemma_items_push(items@, item);
            }
            items.push(item);
            Ok(())
        },
        BodyAtPrelude::If { condition, loc } => {
            let body = parse_rule_body(input)?;
            let end = input.loc();
            let chain = IfChain {
                if_clause: IfClause { condition, body, span: make_span(loc, end) },
                else_if_clauses: Vec::new(),
                else_body: None,
                span: make_span(loc, end),
            };
            assert(chain.else_if_clauses@ =~= Seq::<IfClause>::empty());
            let item = StateDefItem::if_chain(chain);
            proof {
                lemma_items_push(items@, item);
            }
            items.push(item);
            Ok(())
        },
        BodyAtPrelude::ElseIf { condition, loc } => {
            let body = parse_rule_body(input)?;
            let end = input.loc();
            attach_elseif(items, IfClause { condition, body, span: make_span(loc, end) }, end)
        },
        BodyAtPrelude::Else { loc: _ } => {
            let body = parse_rule_body(input)?;
            let end = input.loc();
            attach_else(items, body, end)
        },
    }
}

/// An at-rule in a body; the cursor is just after its at-keyword.
fn body_parse_at_rule(input: &mut Cursor, name: String, items: &mut Vec<StateDefItem>) -> (r:
    Result<(), LocatedError>)
    requires
        old(input)@.wf(),
        items_wf(old(items)@),
    ensures
        match s_body_at_rule(old(input)@, name@, items_model(old(items)@)) {
            Ok((its, c2)) => r is Ok && items_model(final(items)@) == its && final(input)@ == c2
                && items_wf(final(items)@),
            Err(e) => r is Err && r->Err_0@ == e,
        },
        r is Ok ==> final(input)@.advanced_from(old(input)@),
        final(input).nodes == old(input).nodes,
    decreases old(input).nodes@, 2int,
{
    let ghost c = input@;
    let mut d = input.delimited(Delims::SemicolonOrCurlyBracketBlock);
    proof {
        lemma_delim_end(
            input.nodes@,
            input.pos as int,
            input.hi as int,
            Delims::SemicolonOrCurlyBracketBlock,
        );
    }
    let pre = body_parse_prelude(&mut d, &name)?;
    d.expect_exhausted()?;
    input.finish_delimited(&d);
    let c3 = *input;
    proof {
        lemma_next(c3@);
    }
    match input.next() {
        Ok(i) => {
            if matches!(c3.nodes[i], Node::Block { kind: BlockKind::CurlyBracket, .. }) {
                assert(same_input(c, input@));
                let mut child = input.child();
                body_parse_block(&mut child, pre, items)?;
                child.expect_exhausted()?;
                input.finish_block();
                Ok(())
            } else {
                let at = *input;
                body_rule_without_block(pre, items, &at)
            }
        },
        Err(_) => {
            let at = *input;
            body_rule_without_block(pre, items, &at)
        },
    }
}

/// A nested rule in a body: selector text and a block.
fn body_parse_qualified_rule(input: &mut Cursor, items: &mut Vec<StateDefItem>) -> (r: Result<
    (),
    LocatedError,
>)
    requires
        old(input)@.wf(),
        items_wf(old(items)@),
    ensures
        match s_body_qualified_rule(old(input)@, items_model(old(items)@)) {
            Ok((its, c2)) => r is Ok && items_model(final(items)@) == its && final(input)@ == c2
                && items_wf(final(items)@),
            Err(e) => r is Err && r->Err_0@ == e && final(items)@ == old(items)@,
        },
        r is Ok ==> final(input)@.advanced_from(old(input)@) && final(input).pos > old(input).pos,
        final(input).nodes == old(input).nodes,
    decreases old(input).nodes@, 2int,
{
    let ghost c = input@;
    proof {
        lemma_skip_ws(input@);
    }
    input.skip_whitespace();
    let c1 = *input;
    if looks_like_a_custom_property(&c1) {
        return Err(LocatedError { kind: ErrorKind::QualifiedRuleInvalid, loc: c1.loc() });
    }
    let mut d = input.delimited(Delims::SemicolonOrCurlyBracketBlock);
    proof {
        lemma_delim_end(
            input.nodes@,
            input.pos as int,
            input.hi as int,
            Delims::SemicolonOrCurlyBracketBlock,
        );
    }
    let loc = d.loc();
    let selector = collect_raw(&mut d);
    input.finish_delimited(&d);
    let c2 = *input;
    proof {
        lemma_next(c2@);
    }
    input.expect(Expect::CurlyBracketBlock)?;
    assert(same_input(c, input@));
    let mut child = input.child();
    let body = parse_rule_body(&mut child)?;
    let end = child.loc();
    child.expect_exhausted()?;
    input.finish_block();
    let item = StateDefItem::qualified(CssQualifiedRule { selector, body, span: make_span(loc, end) });
    proof {
        lemma_items_push(items@, item);
    }
    items.push(item);
    Ok(())
}

/// Parse the items of a body (the contents of a `@state-def`, nested rule
/// or `@if` block): declarations, nested rules, `@if` chains and other
/// at-rules.
pub fn parse_rule_body(input: &mut Cursor) -> (r: Result<Vec<StateDefItem>, LocatedError>)
    requires
        old(input)@.wf(),
    ensures
        match s_rule_body(old(input)@) {
            Ok((its, c2)) => r is Ok && items_model(r->Ok_0@) == its && final(input)@ == c2
                && items_wf(r->Ok_0@),
            Err(e) => r is Err && r->Err_0@ == e,
        },
        r is Ok ==> final(input)@.advanced_from(old(input)@),
        final(input).nodes == old(input).nodes,
    decreases old(input).nodes@, 3int,
{
    let ghost c0 = input@;
    let mut items: Vec<StateDefItem> = Vec::new();
    assert(items_model(items@) =~= seq![]);
    loop
        invariant_except_break
            s_rule_body(c0) == s_body_loop(input@, items_model(items@)),
        invariant
            input@.wf(),
            input@.advanced_from(c0),
            input.nodes == old(input).nodes,
            c0 == old(input)@,
            items_wf(items@),
        ensures
            s_rule_body(c0) == Ok::<(Seq<ItemModel>, CurM), LocatedErrorModel>(
                (items_model(items@), input@),
            ),
            input@.advanced_from(c0),
            input.nodes == old(input).nodes,
            items_wf(items@),
        decreases input.nodes@.len() - input.pos,
    {
        let ghost c = input@;
        let ghost its = items_model(items@);
        proof {
            lemma_skip_ws(c);
        }
        input.skip_whitespace();
        let c1 = *input;
        let i = match input.next_including_whitespace_and_comments() {
            Ok(i) => i,
            Err(_) => {
                break ;
            },
        };
        let ghost c2 = input@;
        match &c1.nodes[i] {
            Node::Leaf { token: Token::CloseCurlyBracket, .. } | Node::Leaf {
                token: Token::WhiteSpace,
                ..
            } | Node::Leaf { token: Token::Semicolon, .. } | Node::Leaf {
                token: Token::Comment,
                ..
            } => {},
            Node::Leaf { token: Token::AtKeyword(name), .. } => {
                match body_parse_at_rule(input, name.clone(), &mut items) {
                    Ok(()) => {},
                    Err(e) => {
                        return Err(e);
                    },
                }
            },
            Node::Leaf { token: Token::Ident(name), .. } => {
                match parse_declaration(input, name.clone(), &mut items) {
                    Ok(()) => {},
                    Err(e) => {
                        *input = c1;
                        match body_parse_qualified_rule(input, &mut items) {
                            Ok(()) => {},
                            Err(_) => {
                                return Err(e);
                            },
                        }
                    },
                }
            },
            _ => {
                *input = c1;
                match body_parse_qualified_rule(input, &mut items) {
                    Ok(()) => {},
                    Err(e) => {
                        return Err(e);
                    },
                }
            },
        }
        assert(progressed(c, input@));
    }
    Ok(items)
}

// ---------------------------------------------------------------------------
// Implementation: the stylesheet
// ---------------------------------------------------------------------------

/// The head of a top-level at-rule (the stretch before its `;` or block).
fn top_parse_prelude(d: &mut Cursor, name: &String) -> (r: Result<AtPrelude, LocatedError>)
    requires
        old(d)@.wf(),
    ensures
        agrees(r, s_top_at_prelude(old(d)@, name@), final(d)@),
        r is Ok ==> final(d)@.advanced_from(old(d)@),
        final(d).nodes == old(d).nodes,
{
    let loc = d.loc();
    if str_eq(name.as_str(), "state-variant") {
        proof {
            lemma_next(d@);
        }
        let n = parse_ident_owned(d, EcssError::ExpectedIdent)?;
        Ok(AtPrelude::StateVariant { name: n, loc })
    } else if str_eq(name.as_str(), "state-def") {
        // `Name(` is one function token; `Name` alone is an identifier.
        let c = *d;
        proof {
            lemma_next(c@);
        }
        let i = d.next()?;
        match &c.nodes[i] {
            Node::Leaf { token: Token::Ident(n), .. } => {
                let params: Vec<StateParam> = Vec::new();
                assert(params_model(params@) =~= seq![]);
                Ok(AtPrelude::StateDef { name: n.clone(), params, loc })
            },
            Node::Block { kind: BlockKind::Function(n), .. } => {
                let mut child = d.child();
                let params = parse_state_def_params(&mut child)?;
                child.expect_exhausted()?;
                d.finish_block();
                Ok(AtPrelude::StateDef { name: n.clone(), params, loc })
            },
            other => Err(
                LocatedError { kind: ErrorKind::UnexpectedToken(other.debug_text()), loc: d.loc() },
            ),
        }
    } else {
        let prelude = collect_raw(d);
        Ok(AtPrelude::Unknown { name: name.clone(), prelude, loc })
    }
}

/// A top-level at-rule without a block: kept unless it is an ECSS rule.
fn top_rule_without_block(prelude: AtPrelude, at: &Cursor) -> (r: Result<EcssRule, LocatedError>)
    requires
        at@.wf(),
    ensures
        agrees(r, s_top_without_block(prelude@, at@), at@),
        r is Ok ==> rule_wf(r->Ok_0),
{
    match prelude {
        AtPrelude::Unknown { name, prelude, loc } => Ok(
            EcssRule::at_rule(CssRawAtRule { name, prelude, block: None, span: make_span(loc, loc) }),
        ),
        _ => Err(
            LocatedError {
                kind: ErrorKind::UnexpectedToken(String::from_str("Semicolon")),
                loc: at.loc(),
            },
        ),
    }
}

/// The block of a top-level at-rule, read with its prelude.
fn top_parse_block(input: &mut Cursor, prelude: AtPrelude) -> (r: Result<EcssRule, LocatedError>)
    requires
        old(input)@.wf(),
    ensures
        agrees(r, s_top_at_block(old(input)@, prelude@), final(input)@),
        r is Ok ==> final(input)@.advanced_from(old(input)@) && rule_wf(r->Ok_0),
        final(input).nodes == old(input).nodes,
{
    match prelude {
        AtPrelude::StateVariant { name, loc } => {
            let values = parse_variant_block(input)?;
            let end = input.loc();
            Ok(EcssRule::variant(StateVariant { name, values, span: make_span(loc, end) }))
        },
        AtPrelude::StateDef { name, params, loc } => {
            let body = parse_rule_body(input)?;
            let end = input.loc();
            Ok(EcssRule::state_def(StateDef { name, params, body, span: make_span(loc, end) }))
        },
        AtPrelude::Unknown { name, prelude, loc } => {
            let block = collect_raw(input);
            let end = input.loc();
            Ok(
                EcssRule::at_rule(
                    CssRawAtRule { name, prelude, block: Some(block), span: make_span(loc, end) },
                ),
            )
        },
    }
}

/// A top-level at-rule; the cursor is just after its at-keyword.
fn top_parse_at_rule(input: &mut Cursor, name: String) -> (r: Result<EcssRule, LocatedError>)
    requires
        old(input)@.wf(),
    ensures
        agrees(r, s_top_at_rule(old(input)@, name@), final(input)@),
        r is Ok ==> final(input)@.advanced_from(old(input)@) && rule_wf(r->Ok_0),
        final(input).nodes == old(input).nodes,
{
    let mut d = input.delimited(Delims::SemicolonOrCurlyBracketBlock);
    proof {
        lemma_delim_end(
            input.nodes@,
            input.pos as int,
            input.hi as int,
            Delims::SemicolonOrCurlyBracketBlock,
        );
    }
    let pre = top_parse_prelude(&mut d, &name)?;
    d.expect_exhausted()?;
    input.finish_delimited(&d);
    let c3 = *input;
    proof {
        lemma_next(c3@);
    }
    match input.next() {
        Ok(i) => {
            if matches!(c3.nodes[i], Node::Block { kind: BlockKind::CurlyBracket, .. }) {
                let mut child = input.child();
                let rule = top_parse_block(&mut child, pre)?;
                child.expect_exhausted()?;
                input.finish_block();
                Ok(rule)
            } else {
                let at = *input;
                top_rule_without_block(pre, &at)
            }
        },
        Err(_) => {
            let at = *input;
            top_rule_without_block(pre, &at)
        },
    }
}

/// A top-level rule with a selector and a block.
fn top_parse_qualified_rule(input: &mut Cursor) -> (r: Result<EcssRule, LocatedError>)
    requires
        old(input)@.wf(),
    ensures
        agrees(r, s_top_qualified_rule(old(input)@), final(input)@),
        r is Ok ==> final(input)@.advanced_from(old(input)@) && final(input).pos > old(input).pos
            && rule_wf(r->Ok_0),
        final(input).nodes == old(input).nodes,
{
    proof {
        lemma_skip_ws(input@);
    }
    input.skip_whitespace();
    let c1 = *input;
    if looks_like_a_custom_property(&c1) {
        return Err(LocatedError { kind: ErrorKind::QualifiedRuleInvalid, loc: c1.loc() });
    }
    let mut d = input.delimited(Delims::CurlyBracketBlock);
    proof {
        lemma_delim_end(input.nodes@, input.pos as int, input.hi as int, Delims::CurlyBracketBlock);
    }
    let loc = d.loc();
    let selector = collect_raw(&mut d);
    input.finish_delimited(&d);
    let c2 = *input;
    proof {
        lemma_next(c2@);
    }
    input.expect(Expect::CurlyBracketBlock)?;
    let mut child = input.child();
    let body = parse_rule_body(&mut child)?;
    let end = child.loc();
    child.expect_exhausted()?;
    input.finish_block();
    Ok(EcssRule::qualified(CssQualifiedRule { selector, body, span: make_span(loc, end) }))
}

fn is_charset_name(s: &String) -> (r: bool)
    ensures
        r == is_charset(s@),
{
    let t = s.as_str();
    if t.unicode_len() != 7 {
        return false;
    }
    let c0 = t.get_char(0);
    let c1 = t.get_char(1);
    let c2 = t.get_char(2);
    let c3 = t.get_char(3);
    let c4 = t.get_char(4);
    let c5 = t.get_char(5);
    let c6 = t.get_char(6);
    (c0 == 'c' || c0 == 'C') && (c1 == 'h' || c1 == 'H') && (c2 == 'a' || c2 == 'A') && (c3
        == 'r' || c3 == 'R') && (c4 == 's' || c4 == 'S') && (c5 == 'e' || c5 == 'E') && (c6
        == 't' || c6 == 'T')
}

proof fn lemma_rules_push(s: Seq<EcssRule>, x: EcssRule)
    ensures
        rules_model(s.push(x)) == rules_model(s).push(rule_model(x)),
{
    assert(rules_model(s.push(x)) =~= rules_model(s).push(rule_model(x)));
}

/// Parse a whole ECSS source, given as its token tree.
///
/// Returns the rules in source order, or the first error with its location.
pub fn parse(tree: &TokenTree) -> (r: Result<EcssStylesheet, ParseError>)
    ensures
        match s_stylesheet(*tree) {
            Ok(rules) => r is Ok && r->Ok_0@ == rules && stylesheet_wf(r->Ok_0),
            Err(e) => r is Err && (r->Err_0.message@, r->Err_0.line, r->Err_0.column) == reported(
                e,
            ),
        },
{
    let mut input = Cursor::new(&tree.nodes, tree.end);
    let ghost c0 = input@;
    let mut rules: Vec<EcssRule> = Vec::new();
    let mut any_rule = false;
    assert(rules_model(rules@) =~= seq![]);
    loop
        invariant_except_break
            s_sheet_loop(c0, seq![], false) == s_sheet_loop(input@, rules_model(rules@), any_rule),
        invariant
            input@.wf(),
            input@.advanced_from(c0),
            c0 == tree_cursor(*tree),
            input.nodes@ == tree.nodes@,
            forall|k: int| 0 <= k < rules@.len() ==> rule_wf(#[trigger] rules@[k]),
        ensures
            s_sheet_loop(c0, seq![], false) == Ok::<(Seq<RuleModel>, CurM), LocatedErrorModel>(
                (rules_model(rules@), input@),
            ),
            forall|k: int| 0 <= k < rules@.len() ==> rule_wf(#[trigger] rules@[k]),
        decreases input.nodes@.len() - input.pos,
    {
        let ghost c = input@;
        proof {
            lemma_cdx_end(input.nodes@, input.pos as int, input.hi as int);
        }
        input.skip_cdc_and_cdo();
        if input.pos >= input.hi {
            break ;
        }
        let c1 = input;
        let nodes = input.nodes;
        let i = input.pos;
        let ghost old_rules = rules@;
        match &nodes[i] {
            Node::Leaf { token: Token::AtKeyword(name), .. } => {
                input.pos = i + 1;
                input.pending = false;
                if !any_rule && is_charset_name(name) {
                    let d = input.delimited(Delims::SemicolonOrCurlyBracketBlock);
                    proof {
                        lemma_delim_end(
                            input.nodes@,
                            input.pos as int,
                            input.hi as int,
                            Delims::SemicolonOrCurlyBracketBlock,
                        );
                    }
                    if d.hi < input.hi {
                        input.pos = d.hi + 1;
                    } else {
                        input.pos = d.hi;
                    }
                } else {
                    match top_parse_at_rule(&mut input, name.clone()) {
                        Ok(rule) => {
                            proof {
                                lemma_rules_push(rules@, rule);
                            }
                            rules.push(rule);
                        },
                        Err(e) => {
                            return Err(to_parse_error(&e));
                        },
                    }
                }
            },
            _ => {
                match top_parse_qualified_rule(&mut input) {
                    Ok(rule) => {
                        proof {
                            lemma_rules_push(rules@, rule);
                        }
                        rules.push(rule);
                    },
                    Err(e) => {
                        return Err(to_parse_error(&e));
                    },
                }
            },
        }
        any_rule = true;
        assert(progressed(c, input@));
    }
    Ok(EcssStylesheet { rules })
}

} // verus!
