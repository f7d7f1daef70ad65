//! Properties of the parser that hold for every input: how parameters are
//! typed, how `@if` chains close, and how `!important` is read.

use vstd::prelude::*;

use crate::ast::ConditionModel;
use crate::condition::lemma_compare_op;
use crate::condition::lemma_double_delim;
use crate::condition::s_and_expr;
use crate::condition::s_and_loop;
use crate::condition::s_compare;
use crate::condition::s_compare_op;
use crate::condition::s_condition;
use crate::condition::s_double_delim;
use crate::condition::s_or_loop;
use crate::condition::s_primary;
use crate::condition::s_variable;
use crate::cursor::lemma_next;
use crate::token::BlockKind;
use crate::ast::IfClauseModel;
use crate::ast::ItemModel;
use crate::ast::RuleModel;
use crate::ast::StateParamModel;
use crate::cursor::entirely;
use crate::cursor::progressed;
use crate::cursor::s_expect;
use crate::cursor::s_is_exhausted;
use crate::cursor::s_next;
use crate::cursor::s_skip_ws;
use crate::cursor::CurM;
use crate::cursor::Expect;
use crate::error::error_message;
use crate::error::parse_error_text;
use crate::error::reported;
use crate::error::EcssErrorModel;
use crate::error::ParseError;
use crate::text::decimal;
use crate::parser::attach_else_model;
use crate::parser::attach_elseif_model;
use crate::parser::custom_error;
use crate::parser::ident_text;
use crate::parser::important_word;
use crate::parser::last_chain;
use crate::parser::param_model;
use crate::parser::s_param_default;
use crate::parser::s_param_type;
use crate::parser::s_params;
use crate::parser::s_params_loop;
use crate::parser::s_sheet_loop;
use crate::parser::s_stylesheet;
use crate::parser::s_top_at_block;
use crate::parser::s_top_at_prelude;
use crate::parser::s_top_at_rule;
use crate::parser::s_top_qualified_rule;
use crate::parser::s_top_without_block;
use crate::parser::strip_important;
use crate::parser::tree_cursor;
use crate::parser::AtPreludeModel;
use crate::parser::TokenTree;
use crate::text::is_ws;
use crate::text::lemma_trim_end_take;
use crate::text::starts_with_dashes;
use crate::text::trim_end_seq;
use crate::token::Node;
use crate::token::Token;

verus! {

// ---------------------------------------------------------------------------
// Parameters
// ---------------------------------------------------------------------------

/// A parameter as the grammar allows it: its name starts with `--`, and it
/// is either `boolean` with no variant name, or `variant` naming a type that
/// is neither `boolean` nor a `--` name.
pub open spec fn param_well_typed(p: StateParamModel) -> bool {
    &&& starts_with_dashes(p.name)
    &&& ((p.param_type == "boolean"@ && p.variant_name is None) || (p.param_type == "variant"@
        && p.variant_name is Some && p.variant_name->0 != "boolean"@ && !starts_with_dashes(
        p.variant_name->0,
    )))
}

pub open spec fn all_params_well_typed(ps: Seq<StateParamModel>) -> bool {
    forall|i: int| 0 <= i < ps.len() ==> param_well_typed(#[trigger] ps[i])
}

/// Every `@state-def` among the rules has well-typed parameters.
pub open spec fn rules_params_well_typed(rules: Seq<RuleModel>) -> bool {
    forall|i: int|
        0 <= i < rules.len() ==> (#[trigger] rules[i] matches RuleModel::StateDef(d)
            ==> all_params_well_typed(d.params))
}

proof fn lemma_params_loop(c: CurM, acc: Seq<StateParamModel>)
    requires
        all_params_well_typed(acc),
    ensures
        s_params_loop(c, acc) matches Ok((ps, _)) ==> all_params_well_typed(ps),
    decreases c.nodes.len() - c.pos,
{
    let c1 = s_skip_ws(c);
    if !s_is_exhausted(c1) {
        if let Ok((i, c2)) = s_next(c1) {
            let n = c1.nodes[i];
            if n matches Node::Leaf { token: Token::Ident(s), .. } && starts_with_dashes(
                ident_text(n),
            ) {
                let (ty, c3) = match s_param_type(c2) {
                    Some((t, c)) => (Some(t), c),
                    None => (None, c2),
                };
                let (dv, c4) = match s_param_default(c3) {
                    Some((v, c)) => (Some(v), c),
                    None => (None, c3),
                };
                let p = param_model(ident_text(n), ty, dv);
                assert(param_well_typed(p));
                let acc2 = acc.push(p);
                assert(all_params_well_typed(acc2)) by {
                    assert forall|k: int| 0 <= k < acc2.len() implies param_well_typed(
                        #[trigger] acc2[k],
                    ) by {
                        if k < acc.len() {
                            assert(acc2[k] == acc[k]);
                        }
                    }
                }
                let c5 = s_skip_ws(c4);
                if let Ok((_, c6)) = s_expect(c5, Expect::Comma) {
                    if progressed(c, c6) {
                        lemma_params_loop(c6, acc2);
                    }
                }
            }
        }
    }
}

/// Every parameter that a parameter list yields is well typed: a missing
/// type or `boolean` gives a `boolean` parameter with no variant name, and
/// any other type gives a `variant` parameter that names it.
pub proof fn params_are_well_typed(c: CurM)
    ensures
        s_params(c) matches Ok((ps, _)) ==> all_params_well_typed(ps),
{
    lemma_params_loop(c, seq![]);
}

pub open spec fn prelude_params_well_typed(p: AtPreludeModel) -> bool {
    p matches AtPreludeModel::StateDef { params, .. } ==> all_params_well_typed(params)
}

proof fn lemma_top_prelude(d: CurM, name: Seq<char>)
    ensures
        s_top_at_prelude(d, name) matches Ok((p, _)) ==> prelude_params_well_typed(p),
{
    if name != "state-variant"@ && name == "state-def"@ {
        if let Ok((i, d1)) = s_next(d) {
            if let Node::Block { kind: crate::token::BlockKind::Function(_), .. } = d.nodes[i] {
                params_are_well_typed(crate::cursor::s_child(d1));
            }
        }
    }
}

proof fn lemma_top_at_rule(c: CurM, name: Seq<char>)
    ensures
        s_top_at_rule(c, name) matches Ok((r, _)) ==> rules_params_well_typed(seq![r]),
{
    let d = crate::cursor::s_delimited(c, crate::cursor::Delims::SemicolonOrCurlyBracketBlock);
    lemma_top_prelude(d, name);
    if let Ok((p, _)) = entirely(s_top_at_prelude(d, name)) {
        let c3 = crate::cursor::s_after_delimited(c, d);
        if let Ok((i, c4)) = s_next(c3) {
            let cb = crate::cursor::s_child(c4);
            if let Ok((r, _)) = entirely(s_top_at_block(cb, p)) {
                assert(rules_params_well_typed(seq![r]) <== (r matches RuleModel::StateDef(dm)
                    ==> all_params_well_typed(dm.params)));
            }
            if let Ok((r, _)) = s_top_without_block(p, c4) {
                assert(seq![r][0] == r);
            }
        }
        if let Ok((r, _)) = s_top_without_block(p, s_skip_ws(c3)) {
            assert(seq![r][0] == r);
        }
    }
}

proof fn lemma_sheet_loop(c: CurM, rules: Seq<RuleModel>, any_rule: bool)
    requires
        rules_params_well_typed(rules),
    ensures
        s_sheet_loop(c, rules, any_rule) matches Ok((rs, _)) ==> rules_params_well_typed(rs),
    decreases c.nodes.len() - c.pos,
{
    let c1 = crate::cursor::s_skip_cdx(c);
    if c1.pos < c1.hi {
        let n = c1.nodes[c1.pos];
        let step = if n matches Node::Leaf { token: Token::AtKeyword(_), .. } {
            let c2 = c1.at(c1.pos + 1, false);
            if !any_rule && crate::parser::is_charset(crate::parser::at_keyword_text(n)) {
                let d = crate::cursor::s_delimited(
                    c2,
                    crate::cursor::Delims::SemicolonOrCurlyBracketBlock,
                );
                Ok((rules, crate::parser::s_after_until_after(c2, d)))
            } else {
                lemma_top_at_rule(c2, crate::parser::at_keyword_text(n));
                match s_top_at_rule(c2, crate::parser::at_keyword_text(n)) {
                    Ok((rule, c3)) => Ok((rules.push(rule), c3)),
                    Err(e) => Err(e),
                }
            }
        } else {
            match s_top_qualified_rule(c1) {
                Ok((rule, c3)) => Ok((rules.push(rule), c3)),
                Err(e) => Err(e),
            }
        };
        if let Ok((rules2, c3)) = step {
            assert(rules_params_well_typed(rules2)) by {
                assert forall|k: int| 0 <= k < rules2.len() implies (#[trigger] rules2[k] matches RuleModel::StateDef(d)
                    ==> all_params_well_typed(d.params)) by {
                    if k < rules.len() {
                        assert(rules2[k] == rules[k]);
                    } else {
                        if n matches Node::Leaf { token: Token::AtKeyword(_), .. } {
                            let c2 = c1.at(c1.pos + 1, false);
                            if let Ok((rule, _)) = s_top_at_rule(
                                c2,
                                crate::parser::at_keyword_text(n),
                            ) {
                                assert(seq![rule][0] == rule);
                            }
                        }
                    }
                }
            }
            if progressed(c, c3) {
                lemma_sheet_loop(c3, rules2, true);
            }
        }
    }
}

/// Every `@state-def` of a parsed stylesheet has well-typed parameters.
pub proof fn stylesheet_params_are_well_typed(t: TokenTree)
    ensures
        s_stylesheet(t) matches Ok(rules) ==> rules_params_well_typed(rules),
{
    lemma_sheet_loop(tree_cursor(t), seq![], false);
}

// ---------------------------------------------------------------------------
// Conditions
// ---------------------------------------------------------------------------

/// No parenthesized group among the nodes.
pub open spec fn no_groups(nodes: Seq<Node>) -> bool {
    forall|k: int|
        0 <= k < nodes.len() ==> !(#[trigger] nodes[k] matches Node::Block {
            kind: BlockKind::Parenthesis,
            ..
        })
}

/// A variable or a comparison.
pub open spec fn is_operand(e: ConditionModel) -> bool {
    e is Var || e is Comparison
}

/// `a && b && c` grouped to the left, over operands.
pub open spec fn and_chain(e: ConditionModel) -> bool
    decreases e,
{
    match e {
        ConditionModel::And(l, r) => and_chain(*l) && is_operand(*r),
        _ => is_operand(e),
    }
}

/// `a || b || c` grouped to the left, over `&&` chains.
pub open spec fn or_chain(e: ConditionModel) -> bool
    decreases e,
{
    match e {
        ConditionModel::Or(l, r) => or_chain(*l) && and_chain(*r),
        _ => and_chain(e),
    }
}

proof fn lemma_compare_flat(c: CurM)
    requires
        c.wf(),
        no_groups(c.nodes),
    ensures
        s_compare(c) matches Ok((e, c3)) ==> is_operand(e) && c3.advanced_from(c),
{
    lemma_next(c);
    assert(s_primary(c) == s_variable(c));
    if let Ok((p, c1)) = s_variable(c) {
        lemma_compare_op(c1);
        if let Some((op, c2)) = s_compare_op(c1) {
            lemma_next(c2);
        }
    }
}

proof fn lemma_and_loop_flat(c: CurM, left: ConditionModel)
    requires
        c.wf(),
        no_groups(c.nodes),
        and_chain(left),
    ensures
        s_and_loop(c, left) matches Ok((e, c3)) ==> and_chain(e) && c3.advanced_from(c),
    decreases c.nodes.len() - c.pos,
{
    lemma_double_delim(c, '&', '&');
    if let Some(c2) = s_double_delim(c, '&', '&') {
        lemma_compare_flat(c2);
        if let Ok((right, c3)) = s_compare(c2) {
            let acc = ConditionModel::And(Box::new(left), Box::new(right));
            assert(and_chain(acc));
            if progressed(c, c3) {
                lemma_and_loop_flat(c3, acc);
            }
        }
    }
}

proof fn lemma_and_flat(c: CurM)
    requires
        c.wf(),
        no_groups(c.nodes),
    ensures
        s_and_expr(c) matches Ok((e, c3)) ==> and_chain(e) && c3.advanced_from(c),
{
    lemma_compare_flat(c);
    if let Ok((left, c1)) = s_compare(c) {
        lemma_and_loop_flat(c1, left);
    }
}

proof fn lemma_or_loop_flat(c: CurM, left: ConditionModel)
    requires
        c.wf(),
        no_groups(c.nodes),
        or_chain(left),
    ensures
        s_or_loop(c, left) matches Ok((e, c3)) ==> or_chain(e) && c3.advanced_from(c),
    decreases c.nodes.len() - c.pos,
{
    lemma_double_delim(c, '|', '|');
    if let Some(c2) = s_double_delim(c, '|', '|') {
        lemma_and_flat(c2);
        if let Ok((right, c3)) = s_and_expr(c2) {
            let acc = ConditionModel::Or(Box::new(left), Box::new(right));
            assert(or_chain(acc));
            if progressed(c, c3) {
                lemma_or_loop_flat(c3, acc);
            }
        }
    }
}

/// Operator precedence: without parentheses, `==` and `!=` bind tighter than
/// `&&`, which binds tighter than `||`, and `&&` and `||` group to the left.
/// The result is a left-leaning chain of `||` whose operands are
/// left-leaning chains of `&&` over variables and comparisons.
pub proof fn condition_precedence(c: CurM)
    requires
        c.wf(),
        no_groups(c.nodes),
    ensures
        s_condition(c) matches Ok((e, _)) ==> or_chain(e),
{
    lemma_and_flat(c);
    if let Ok((left, c1)) = s_and_expr(c) {
        assert(or_chain(left));
        lemma_or_loop_flat(c1, left);
    }
}

// ---------------------------------------------------------------------------
// `@if` chains
// ---------------------------------------------------------------------------

/// `@elseif` and `@else` need an `@if` chain just before them: where the
/// last item is not a chain, both are refused.
pub proof fn else_needs_preceding_if(
    items: Seq<ItemModel>,
    clause: IfClauseModel,
    body: Seq<ItemModel>,
    end: crate::token::SourceLocation,
)
    requires
        last_chain(items) is None,
    ensures
        attach_elseif_model(items, clause, end) == Err::<Seq<ItemModel>, _>(
            custom_error(EcssErrorModel::UnexpectedElse, end),
        ),
        attach_else_model(items, body, end) == Err::<Seq<ItemModel>, _>(
            custom_error(EcssErrorModel::UnexpectedElse, end),
        ),
{
}

/// An `@else` closes its chain: a second `@else`, or an `@elseif` after it,
/// is refused.
pub proof fn else_closes_chain(
    items: Seq<ItemModel>,
    body: Seq<ItemModel>,
    end: crate::token::SourceLocation,
    clause: IfClauseModel,
    body2: Seq<ItemModel>,
    end2: crate::token::SourceLocation,
)
    requires
        attach_else_model(items, body, end) is Ok,
    ensures
        attach_else_model(attach_else_model(items, body, end)->Ok_0, body2, end2) == Err::<
            Seq<ItemModel>,
            _,
        >(custom_error(EcssErrorModel::Custom("Duplicate @else"@), end2)),
        attach_elseif_model(attach_else_model(items, body, end)->Ok_0, clause, end2) == Err::<
            Seq<ItemModel>,
            _,
        >(custom_error(EcssErrorModel::Custom("@elseif after @else"@), end2)),
{
    let items2 = attach_else_model(items, body, end)->Ok_0;
    assert(items2.last() matches ItemModel::IfChain(ch) && ch.else_body == Some(body));
}

/// An `@elseif` extends the chain just before it and touches nothing else:
/// the items before the chain, the `@if` clause and the earlier `@elseif`
/// clauses stay, and the chain still has no `@else`.
pub proof fn elseif_extends_chain(
    items: Seq<ItemModel>,
    clause: IfClauseModel,
    end: crate::token::SourceLocation,
)
    requires
        attach_elseif_model(items, clause, end) is Ok,
    ensures
        ({
            let items2 = attach_elseif_model(items, clause, end)->Ok_0;
            let ch = last_chain(items)->0;
            &&& items2.len() == items.len()
            &&& items2.drop_last() == items.drop_last()
            &&& last_chain(items2) matches Some(ch2) && ch2.if_clause == ch.if_clause
                && ch2.else_if_clauses == ch.else_if_clauses.push(clause) && ch2.else_body is None
        }),
{
    let items2 = attach_elseif_model(items, clause, end)->Ok_0;
    assert(items2.drop_last() =~= items.drop_last());
}

// ---------------------------------------------------------------------------
// `!important`
// ---------------------------------------------------------------------------

proof fn lemma_trim_end_ws_suffix(s: Seq<char>, w: Seq<char>)
    requires
        forall|k: int| 0 <= k < w.len() ==> is_ws(#[trigger] w[k]),
    ensures
        trim_end_seq(s + w) == trim_end_seq(s),
{
    let sw = s + w;
    assert forall|k: int| s.len() <= k < sw.len() implies is_ws(#[trigger] sw[k]) by {
        assert(sw[k] == w[k - s.len()]);
    }
    lemma_trim_end_take(sw, s.len() as int);
    assert(sw.take(s.len() as int) =~= s);
}

/// A value written with `!important` after it (in any case, with any
/// whitespace before the `!` and between it and `important`) is read back
/// as the part of the written value before the `!`, in its own case,
/// without trailing whitespace. `raw` is the value as written; its
/// lowercased text is `lv`, the gaps, `!` and `important`, where the part
/// from the `!` on has as many characters as in `raw`.
pub proof fn important_marker_is_stripped(
    raw: Seq<char>,
    lv: Seq<char>,
    gap1: Seq<char>,
    gap2: Seq<char>,
)
    requires
        forall|k: int| 0 <= k < gap1.len() ==> is_ws(#[trigger] gap1[k]),
        forall|k: int| 0 <= k < gap2.len() ==> is_ws(#[trigger] gap2[k]),
        raw.len() >= gap2.len() + 10,
    ensures
        strip_important(raw, lv + gap1 + seq!['!'] + gap2 + important_word()) == Some(
            trim_end_seq(raw.take(raw.len() - gap2.len() - 10)),
        ),
{
    let head = lv + gap1 + seq!['!'];
    let lower = head + gap2 + important_word();
    assert(lower.skip(lower.len() - 9) =~= important_word());
    assert(lower.take(lower.len() - 9) =~= head + gap2);
    lemma_trim_end_ws_suffix(head, gap2);
    assert(!is_ws('!'));
    assert(head.last() == '!');
    assert(trim_end_seq(head) == head);
    assert(lv + gap1 + seq!['!'] + gap2 + important_word() =~= lower);
}

// ---------------------------------------------------------------------------
// Errors
// ---------------------------------------------------------------------------

/// A refused source is reported as `[line:column] description`, with the
/// location and the description of the first error that the parse meets.
pub proof fn refusal_shows_location(t: TokenTree, pe: ParseError)
    requires
        s_stylesheet(t) is Err,
        (pe.message@, pe.line, pe.column) == reported(s_stylesheet(t)->Err_0),
    ensures
        ({
            let e = s_stylesheet(t)->Err_0;
            parse_error_text(pe.message@, pe.line, pe.column) == seq!['['] + decimal(
                e.loc.line as nat,
            ) + seq![':'] + decimal(e.loc.column as nat) + seq![']', ' '] + error_message(e.kind)
        }),
{
}

} // verus!
