//! What the parser makes of inputs of a given shape: comparisons, typed
//! parameters, `values:` lists, `@if` clauses and the spelling of tokens.
//! Each law is stated over the tokens of the input and the parts of the
//! result, for every input of its shape.

use vstd::prelude::*;

use crate::ast::ConditionModel;
use crate::ast::ConditionValueModel;
use crate::ast::StateParamModel;
use crate::condition::s_compare;
use crate::parser::s_params;
use crate::parser::s_params_loop;
use crate::parser::s_body_at_block;
use crate::parser::s_rule_body;
use crate::parser::last_chain;
use crate::parser::BodyAtPreludeModel;
use crate::ast::IfChainModel;
use crate::ast::IfClauseModel;
use crate::ast::ItemModel;
use crate::ast::span_of;
use crate::parser::s_values_loop;
use crate::parser::s_variant_block;
use crate::condition::s_condition;
use crate::cursor::CurM;
use crate::text::starts_with_dashes;
use crate::token::Node;
use crate::token::Token;
use crate::token::token_text;

verus! {

// ---------------------------------------------------------------------------
// Comparisons
// ---------------------------------------------------------------------------

/// The node is the identifier `s`.
pub open spec fn is_ident_node(n: Node, s: Seq<char>) -> bool {
    n matches Node::Leaf { token: Token::Ident(t), .. } && t@ == s
}

/// The node is the quoted string `s`.
pub open spec fn is_string_node(n: Node, s: Seq<char>) -> bool {
    n matches Node::Leaf { token: Token::QuotedString(t), .. } && t@ == s
}

/// The node is the delimiter `ch`.
pub open spec fn is_delim_node(n: Node, ch: char) -> bool {
    n matches Node::Leaf { token: Token::Delim(d), .. } && d == ch
}

/// The right side that a value token stands for: a string, `true` /
/// `false`, or an identifier.
pub open spec fn right_side(n: Node) -> ConditionValueModel {
    match n {
        Node::Leaf { token: Token::QuotedString(s), .. } => ConditionValueModel {
            kind: "string"@,
            value: s@,
        },
        Node::Leaf { token: Token::Ident(s), .. } => if s@ == "true"@ || s@ == "false"@ {
            ConditionValueModel { kind: "boolean"@, value: s@ }
        } else {
            ConditionValueModel { kind: "ident"@, value: s@ }
        },
        _ => ConditionValueModel { kind: seq![], value: seq![] },
    }
}

/// `--v` `a` `=` `value` from `c.pos` on, with `a` being `!` or `=`.
pub open spec fn comparison_shape(c: CurM, v: Seq<char>, a: char) -> bool {
    &&& 0 <= c.pos
    &&& c.pos + 4 <= c.hi <= c.nodes.len()
    &&& starts_with_dashes(v)
    &&& is_ident_node(c.nodes[c.pos], v)
    &&& is_delim_node(c.nodes[c.pos + 1], a)
    &&& is_delim_node(c.nodes[c.pos + 2], '=')
    &&& (c.nodes[c.pos + 3] matches Node::Leaf { token: Token::Ident(_), .. } || c.nodes[c.pos
        + 3] matches Node::Leaf { token: Token::QuotedString(_), .. })
}

/// The operator of a comparison is spelled by its tokens alone: `!` `=`
/// gives `!=` and `=` `=` gives `==`, whatever the right side is; the left
/// side is the variable and the right side the value token.
pub proof fn comparison_operator_follows_tokens(c: CurM, v: Seq<char>, a: char)
    requires
        comparison_shape(c, v, a),
        a == '!' || a == '=',
    ensures
        s_compare(c) == Ok::<_, crate::error::LocatedErrorModel>(
            (
                ConditionModel::Comparison(
                    v,
                    if a == '!' {
                        "!="@
                    } else {
                        "=="@
                    },
                    right_side(c.nodes[c.pos + 3]),
                ),
                c.at(c.pos + 4, false),
            ),
        ),
        c.hi == c.pos + 4 ==> s_condition(c) == Ok::<_, crate::error::LocatedErrorModel>(
            (
                ConditionModel::Comparison(
                    v,
                    if a == '!' {
                        "!="@
                    } else {
                        "=="@
                    },
                    right_side(c.nodes[c.pos + 3]),
                ),
                c.at(c.pos + 4, false),
            ),
        ),
{
    let p = c.pos;
    reveal_with_fuel(crate::cursor::blank_end, 2);
    assert(crate::cursor::blank_end(c.nodes, p, c.hi) == p);
    assert(crate::cursor::blank_end(c.nodes, p + 1, c.hi) == p + 1);
    assert(crate::cursor::blank_end(c.nodes, p + 2, c.hi) == p + 2);
    assert(crate::cursor::blank_end(c.nodes, p + 3, c.hi) == p + 3);
    assert(crate::cursor::blank_end(c.nodes, p + 4, c.hi) == p + 4 || c.hi > p + 4);
}

/// `--a` `x` `x` `--b` from `c.pos` to the end, with `x` being `&` or `|`.
pub open spec fn binary_shape(c: CurM, a: Seq<char>, x: char, b: Seq<char>) -> bool {
    &&& 0 <= c.pos
    &&& c.hi == c.pos + 4
    &&& c.hi <= c.nodes.len()
    &&& starts_with_dashes(a)
    &&& starts_with_dashes(b)
    &&& is_ident_node(c.nodes[c.pos], a)
    &&& is_delim_node(c.nodes[c.pos + 1], x)
    &&& is_delim_node(c.nodes[c.pos + 2], x)
    &&& is_ident_node(c.nodes[c.pos + 3], b)
}

/// `--a && --b` is the conjunction and `--a || --b` the disjunction of the
/// two variables, the left one first.
pub proof fn binary_condition_follows_tokens(c: CurM, a: Seq<char>, x: char, b: Seq<char>)
    requires
        binary_shape(c, a, x, b),
        x == '&' || x == '|',
    ensures
        s_condition(c) == Ok::<_, crate::error::LocatedErrorModel>(
            (
                if x == '&' {
                    ConditionModel::And(
                        Box::new(ConditionModel::Var(a)),
                        Box::new(ConditionModel::Var(b)),
                    )
                } else {
                    ConditionModel::Or(
                        Box::new(ConditionModel::Var(a)),
                        Box::new(ConditionModel::Var(b)),
                    )
                },
                c.at(c.pos + 4, false),
            ),
        ),
{
    let p = c.pos;
    reveal_with_fuel(crate::cursor::blank_end, 2);
    assert(crate::cursor::blank_end(c.nodes, p, c.hi) == p);
    assert(crate::cursor::blank_end(c.nodes, p + 1, c.hi) == p + 1);
    assert(crate::cursor::blank_end(c.nodes, p + 2, c.hi) == p + 2);
    assert(crate::cursor::blank_end(c.nodes, p + 3, c.hi) == p + 3);
    assert(crate::cursor::blank_end(c.nodes, p + 4, c.hi) == p + 4);
    let va = ConditionModel::Var(a);
    let vb = ConditionModel::Var(b);
    let c1 = c.at(p + 1, false);
    let c3 = c.at(p + 3, false);
    let c4 = c.at(p + 4, false);
    assert(crate::condition::s_compare_op(c1) is None);
    assert(s_compare(c) == Ok::<_, crate::error::LocatedErrorModel>((va, c1)));
    assert(crate::condition::s_compare_op(c4) is None);
    assert(s_compare(c3) == Ok::<_, crate::error::LocatedErrorModel>((vb, c4)));
    assert(crate::condition::s_double_delim(c4, '&', '&') is None);
    assert(crate::condition::s_double_delim(c4, '|', '|') is None);
    assert(crate::condition::s_and_loop(c4, vb) == Ok::<_, crate::error::LocatedErrorModel>((vb, c4)));
    assert(crate::condition::s_and_expr(c3) == Ok::<_, crate::error::LocatedErrorModel>((vb, c4)));
    if x == '&' {
        let ab = ConditionModel::And(Box::new(va), Box::new(vb));
        assert(crate::condition::s_double_delim(c1, '&', '&') == Some(c3));
        assert(crate::condition::s_and_loop(c4, ab) == Ok::<_, crate::error::LocatedErrorModel>((ab, c4)));
        assert(crate::condition::s_and_loop(c1, va) == Ok::<_, crate::error::LocatedErrorModel>((ab, c4)));
        assert(crate::condition::s_or_loop(c4, ab) == Ok::<_, crate::error::LocatedErrorModel>((ab, c4)));
    } else {
        let ab = ConditionModel::Or(Box::new(va), Box::new(vb));
        assert(crate::condition::s_double_delim(c1, '&', '&') is None);
        assert(crate::condition::s_and_loop(c1, va) == Ok::<_, crate::error::LocatedErrorModel>((va, c1)));
        assert(crate::condition::s_double_delim(c1, '|', '|') == Some(c3));
        assert(crate::condition::s_or_loop(c4, ab) == Ok::<_, crate::error::LocatedErrorModel>((ab, c4)));
        assert(crate::condition::s_or_loop(c1, va) == Ok::<_, crate::error::LocatedErrorModel>((ab, c4)));
    }
}

// ---------------------------------------------------------------------------
// Parameters
// ---------------------------------------------------------------------------

pub open spec fn is_ws_node(n: Node) -> bool {
    n matches Node::Leaf { token: Token::WhiteSpace, .. }
}

pub open spec fn is_colon_node(n: Node) -> bool {
    n matches Node::Leaf { token: Token::Colon, .. }
}

/// Where the default of a parameter written from `p` on starts.
pub open spec fn default_pos(p: int, ty: Option<Seq<char>>) -> int {
    if ty is Some {
        p + 3
    } else {
        p + 1
    }
}

/// Where a parameter written from `p` on ends.
pub open spec fn param_end(p: int, ty: Option<Seq<char>>, dv: Option<Seq<char>>) -> int {
    if dv is Some {
        default_pos(p, ty) + 3
    } else {
        default_pos(p, ty)
    }
}

/// From `c.pos` on, one parameter: `--name`, then optionally ` Type`, then
/// optionally `: default` (an identifier or a string); after it, a comma
/// or the end of the list.
pub open spec fn param_shape(
    c: CurM,
    name: Seq<char>,
    ty: Option<Seq<char>>,
    dv: Option<Seq<char>>,
) -> bool {
    let p = c.pos;
    let d = default_pos(p, ty);
    &&& 0 <= p
    &&& param_end(p, ty, dv) <= c.hi <= c.nodes.len()
    &&& (param_end(p, ty, dv) < c.hi ==> is_comma_node(c.nodes[param_end(p, ty, dv)]))
    &&& starts_with_dashes(name)
    &&& is_ident_node(c.nodes[p], name)
    &&& (ty matches Some(t) ==> is_ws_node(c.nodes[p + 1]) && is_ident_node(c.nodes[p + 2], t)
        && !starts_with_dashes(t))
    &&& (dv matches Some(v) ==> is_colon_node(c.nodes[d]) && is_ws_node(c.nodes[d + 1]) && (
    is_ident_node(c.nodes[d + 2], v) || is_string_node(c.nodes[d + 2], v)))
}

/// The parameter that `--name`, the type `ty` and the default `dv` make: a
/// type other than `boolean` makes a `variant` parameter naming it; `boolean`
/// or no type makes a `boolean` parameter with no variant name.
pub open spec fn typed_param(name: Seq<char>, ty: Option<Seq<char>>, dv: Option<Seq<char>>) -> StateParamModel {
    match ty {
        Some(t) => if t != "boolean"@ {
            StateParamModel { name, param_type: "variant"@, variant_name: Some(t), default_value: dv }
        } else {
            StateParamModel { name, param_type: "boolean"@, variant_name: None, default_value: dv }
        },
        None => StateParamModel { name, param_type: "boolean"@, variant_name: None, default_value: dv },
    }
}

/// A parameter's type: written as any identifier other than `boolean`, it
/// makes a `variant` parameter naming that identifier; written as `boolean`
/// or left out, a `boolean` parameter with no variant name. The typing does
/// not depend on the default, which is kept as written. A parameter list
/// reads its parameters one by one: after a parameter and a comma, the
/// rest of the list is read on with that parameter added.
pub proof fn parameter_typing_follows_tokens(
    c: CurM,
    name: Seq<char>,
    ty: Option<Seq<char>>,
    dv: Option<Seq<char>>,
    acc: Seq<StateParamModel>,
)
    requires
        param_shape(c, name, ty, dv),
    ensures
        c.hi == param_end(c.pos, ty, dv) ==> s_params_loop(c, acc) == Ok::<
            _,
            crate::error::LocatedErrorModel,
        >((acc.push(typed_param(name, ty, dv)), c.at(c.hi, false))),
        c.hi == param_end(c.pos, ty, dv) ==> s_params(c) == Ok::<
            _,
            crate::error::LocatedErrorModel,
        >((seq![typed_param(name, ty, dv)], c.at(c.hi, false))),
        c.hi > param_end(c.pos, ty, dv) ==> s_params_loop(c, acc) == s_params_loop(
            c.at(param_end(c.pos, ty, dv) + 1, false),
            acc.push(typed_param(name, ty, dv)),
        ),
{
    let p = c.pos;
    let d = default_pos(p, ty);
    let e = param_end(p, ty, dv);
    reveal_with_fuel(crate::cursor::blank_end, 3);
    assert(crate::cursor::blank_end(c.nodes, p, c.hi) == p);
    assert(crate::cursor::blank_end(c.nodes, e, c.hi) == e);
    if ty is Some {
        assert(crate::cursor::blank_end(c.nodes, p + 1, c.hi) == p + 2);
    }
    if dv is Some {
        assert(crate::cursor::blank_end(c.nodes, d, c.hi) == d);
        assert(crate::cursor::blank_end(c.nodes, d + 1, c.hi) == d + 2);
    }
    assert(seq![].push(typed_param(name, ty, dv)) =~= seq![typed_param(name, ty, dv)]);
}

// ---------------------------------------------------------------------------
// `values:` lists
// ---------------------------------------------------------------------------

pub open spec fn is_comma_node(n: Node) -> bool {
    n matches Node::Leaf { token: Token::Comma, .. }
}

pub open spec fn is_semicolon_node(n: Node) -> bool {
    n matches Node::Leaf { token: Token::Semicolon, .. }
}

pub open spec fn is_value_node(n: Node, v: Seq<char>) -> bool {
    is_ident_node(n, v) || is_string_node(n, v)
}

/// Where the `;` of a `values:` list of `m` values written from `p` stands
/// (`trailing`: with a comma after the last value).
pub open spec fn values_semicolon(p: int, m: int, trailing: bool) -> int {
    if m == 0 {
        p + 2
    } else if trailing {
        p + 2 + 2 * m
    } else {
        p + 1 + 2 * m
    }
}

/// From `c.pos` on: `values`, `:`, the values `vals` (identifiers or
/// strings) separated by commas (with a comma after the last one when
/// `trailing`), and `;`.
pub open spec fn values_shape(c: CurM, vals: Seq<Seq<char>>, trailing: bool) -> bool {
    let p = c.pos;
    let m = vals.len() as int;
    &&& 0 <= p
    &&& values_semicolon(p, m, trailing) < c.hi <= c.nodes.len()
    &&& (trailing && m > 0 ==> is_comma_node(c.nodes[p + 1 + 2 * m]))
    &&& is_ident_node(c.nodes[p], "values"@)
    &&& is_colon_node(c.nodes[p + 1])
    &&& forall|k: int| 0 <= k < m ==> is_value_node(#[trigger] c.nodes[p + 2 + 2 * k], vals[k])
    &&& forall|k: int| 0 <= k < m - 1 ==> is_comma_node(#[trigger] c.nodes[p + 3 + 2 * k])
    &&& is_semicolon_node(c.nodes[values_semicolon(p, m, trailing)])
}

proof fn lemma_values_from(c: CurM, vals: Seq<Seq<char>>, trailing: bool, k: int)
    requires
        values_shape(c, vals, trailing),
        0 <= k < vals.len(),
    ensures
        s_values_loop(c.at(c.pos + 2 + 2 * k, false), vals.take(k)) == Ok::<
            _,
            crate::error::LocatedErrorModel,
        >((vals, c.at(values_semicolon(c.pos, vals.len() as int, trailing) + 1, false))),
    decreases vals.len() - k,
{
    let p = c.pos;
    let m = vals.len() as int;
    let q = p + 2 + 2 * k;
    reveal_with_fuel(crate::cursor::blank_end, 2);
    assert(is_value_node(c.nodes[p + 2 + 2 * k], vals[k]));
    assert(crate::cursor::blank_end(c.nodes, q, c.hi) == q);
    assert(vals.take(k).push(vals[k]) =~= vals.take(k + 1));
    if k + 1 < m {
        assert(is_comma_node(c.nodes[p + 3 + 2 * k]));
        assert(crate::cursor::blank_end(c.nodes, q + 1, c.hi) == q + 1);
        lemma_values_from(c, vals, trailing, k + 1);
    } else {
        assert(vals.take(k + 1) =~= vals);
        if trailing {
            assert(values_semicolon(p, m, trailing) == q + 2);
            assert(is_comma_node(c.nodes[q + 1]));
            assert(is_semicolon_node(c.nodes[q + 2]));
            assert(crate::cursor::blank_end(c.nodes, q + 1, c.hi) == q + 1);
            assert(crate::cursor::blank_end(c.nodes, q + 2, c.hi) == q + 2);
            let c5 = c.at(q + 2, false);
            assert(s_values_loop(c5, vals) == Ok::<_, crate::error::LocatedErrorModel>(
                (vals, c.at(q + 3, false)),
            ));
        } else {
            assert(values_semicolon(p, m, trailing) == q + 1);
            assert(is_semicolon_node(c.nodes[q + 1]));
            assert(crate::cursor::blank_end(c.nodes, q + 1, c.hi) == q + 1);
            let c5 = c.at(q + 1, false);
            assert(s_values_loop(c5, vals) == Ok::<_, crate::error::LocatedErrorModel>(
                (vals, c.at(q + 2, false)),
            ));
        }
    }
}

/// A `values:` list gives exactly its values, in order: one entry for each
/// identifier or string before the `;`, holding its text, whether or not a
/// comma follows the last one.
pub proof fn variant_values_follow_tokens(c: CurM, vals: Seq<Seq<char>>, trailing: bool)
    requires
        values_shape(c, vals, trailing),
    ensures
        s_variant_block(c) == Ok::<_, crate::error::LocatedErrorModel>(
            (vals, c.at(values_semicolon(c.pos, vals.len() as int, trailing) + 1, false)),
        ),
{
    let p = c.pos;
    reveal_with_fuel(crate::cursor::blank_end, 2);
    assert(crate::cursor::blank_end(c.nodes, p, c.hi) == p);
    assert(crate::cursor::blank_end(c.nodes, p + 1, c.hi) == p + 1);
    if vals.len() == 0 {
        assert(is_semicolon_node(c.nodes[p + 2]));
        assert(crate::cursor::blank_end(c.nodes, p + 2, c.hi) == p + 2);
        assert(vals =~= seq![]);
        assert(s_values_loop(c.at(p + 2, false), seq![]) == Ok::<
            _,
            crate::error::LocatedErrorModel,
        >((vals, c.at(p + 3, false))));
    } else {
        lemma_values_from(c, vals, trailing, 0);
        assert(vals.take(0) =~= seq![]);
    }
}

// ---------------------------------------------------------------------------
// `@if` / `@elseif` / `@else` blocks
// ---------------------------------------------------------------------------

/// How the items of a body change when a `@if`, `@elseif` or `@else` block
/// whose contents parse as `body` (ending at `end`) is read after `items`.
pub open spec fn clause_added(
    p: BodyAtPreludeModel,
    items: Seq<ItemModel>,
    its: Seq<ItemModel>,
    body: Seq<ItemModel>,
    end: crate::token::SourceLocation,
) -> bool {
    match p {
        BodyAtPreludeModel::If { condition, loc } => {
            &&& its.len() == items.len() + 1
            &&& its.drop_last() == items
            &&& its.last() == ItemModel::IfChain(
                IfChainModel {
                    if_clause: IfClauseModel { condition, body, span: span_of(loc, end) },
                    else_if_clauses: seq![],
                    else_body: None,
                    span: span_of(loc, end),
                },
            )
        },
        BodyAtPreludeModel::ElseIf { condition, loc } => {
            &&& its.len() == items.len()
            &&& its.drop_last() == items.drop_last()
            &&& last_chain(items) is Some
            &&& last_chain(its) is Some
            &&& last_chain(its)->0.if_clause == last_chain(items)->0.if_clause
            &&& last_chain(its)->0.else_if_clauses == last_chain(items)->0.else_if_clauses.push(
                IfClauseModel { condition, body, span: span_of(loc, end) },
            )
            &&& last_chain(its)->0.else_body is None
        },
        BodyAtPreludeModel::Else { .. } => {
            &&& its.len() == items.len()
            &&& its.drop_last() == items.drop_last()
            &&& last_chain(items) is Some
            &&& last_chain(its) is Some
            &&& last_chain(its)->0.if_clause == last_chain(items)->0.if_clause
            &&& last_chain(its)->0.else_if_clauses == last_chain(items)->0.else_if_clauses
            &&& last_chain(its)->0.else_body == Some(body)
        },
        BodyAtPreludeModel::Unknown { .. } => false,
    }
}

/// Each clause of an `@if` chain carries the body parsed from its own
/// block: reading a `@if`, `@elseif` or `@else` block succeeds only when
/// the block's contents parse as a rule body, and then the new clause (or
/// the `@else` body) is exactly that body, with the clause's condition, and
/// the rest of the chain and the items before it are kept.
pub proof fn clauses_carry_their_bodies(
    c: CurM,
    p: BodyAtPreludeModel,
    items: Seq<ItemModel>,
)
    requires
        !(p is Unknown),
    ensures
        s_body_at_block(c, p, items) matches Ok((its, c1)) ==> (s_rule_body(c) matches Ok((body, cb))
            && cb == c1 && clause_added(p, items, its, body, c1.loc())),
{
    if let Ok((body, c1)) = s_rule_body(c) {
        match p {
            BodyAtPreludeModel::If { condition, loc } => {
                let x = ItemModel::IfChain(
                    IfChainModel {
                        if_clause: IfClauseModel { condition, body, span: span_of(loc, c1.loc()) },
                        else_if_clauses: seq![],
                        else_body: None,
                        span: span_of(loc, c1.loc()),
                    },
                );
                assert(items.push(x).drop_last() =~= items);
            },
            BodyAtPreludeModel::ElseIf { condition, loc } => {
                if let Ok(its) = crate::parser::attach_elseif_model(
                    items,
                    IfClauseModel { condition, body, span: span_of(loc, c1.loc()) },
                    c1.loc(),
                ) {
                    assert(its.drop_last() =~= items.drop_last());
                }
            },
            _ => {
                if let Ok(its) = crate::parser::attach_else_model(items, body, c1.loc()) {
                    assert(its.drop_last() =~= items.drop_last());
                }
            },
        }
    }
}

// ---------------------------------------------------------------------------
// Spelling of tokens
// ---------------------------------------------------------------------------

/// Reads back a token from its CSS spelling, for the tokens that have one
/// fixed spelling (punctuation, the attribute-selector matchers, `<!--`,
/// `-->`, closing brackets, a space), or a single other character as a
/// delimiter.
pub open spec fn read_token(s: Seq<char>) -> Option<Token> {
    if s.len() == 1 {
        let ch = s[0];
        Some(
            if ch == ':' {
                Token::Colon
            } else if ch == ';' {
                Token::Semicolon
            } else if ch == ',' {
                Token::Comma
            } else if ch == ' ' {
                Token::WhiteSpace
            } else if ch == ')' {
                Token::CloseParenthesis
            } else if ch == ']' {
                Token::CloseSquareBracket
            } else if ch == '}' {
                Token::CloseCurlyBracket
            } else {
                Token::Delim(ch)
            },
        )
    } else if s.len() == 2 && s[1] == '=' {
        let ch = s[0];
        if ch == '~' {
            Some(Token::IncludeMatch)
        } else if ch == '|' {
            Some(Token::DashMatch)
        } else if ch == '^' {
            Some(Token::PrefixMatch)
        } else if ch == '$' {
            Some(Token::SuffixMatch)
        } else if ch == '*' {
            Some(Token::SubstringMatch)
        } else {
            None
        }
    } else if s.len() == 4 && s[0] == '<' && s[1] == '!' && s[2] == '-' && s[3] == '-' {
        Some(Token::CDO)
    } else if s.len() == 3 && s[0] == '-' && s[1] == '-' && s[2] == '>' {
        Some(Token::CDC)
    } else {
        None
    }
}

/// Tokens that are written back with a fixed spelling.
pub open spec fn has_fixed_spelling(t: Token) -> bool {
    ||| t is Colon
    ||| t is Semicolon
    ||| t is Comma
    ||| t is WhiteSpace
    ||| t is CloseParenthesis
    ||| t is CloseSquareBracket
    ||| t is CloseCurlyBracket
    ||| t is IncludeMatch
    ||| t is DashMatch
    ||| t is PrefixMatch
    ||| t is SuffixMatch
    ||| t is SubstringMatch
    ||| t is CDO
    ||| t is CDC
}

/// A delimiter character that no fixed spelling uses on its own.
pub open spec fn plain_delim(ch: char) -> bool {
    ch != ':' && ch != ';' && ch != ',' && ch != ' ' && ch != ')' && ch != ']' && ch != '}'
}

/// Tokens are written back with their CSS spelling: reading the written
/// text of a punctuation token, an attribute-selector matcher (`~=`, `|=`,
/// `^=`, `$=`, `*=`), `<!--`, `-->`, a closing bracket, whitespace or a
/// delimiter gives back the same token. So no two of them are written
/// alike.
pub proof fn tokens_read_back(t: Token)
    requires
        has_fixed_spelling(t) || (t matches Token::Delim(ch) && plain_delim(ch)),
    ensures
        read_token(token_text(t)) == Some(t),
{
}

} // verus!
