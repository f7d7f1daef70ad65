//! Recursive-descent parser for ECSS `@if` conditions.
//!
//! Grammar (JS-style operator precedence):
//! ```text
//!   expression   = or_expr
//!   or_expr      = and_expr ("||" and_expr)*
//!   and_expr     = compare_expr ("&&" compare_expr)*
//!   compare_expr = primary (("==" | "!=") value)?
//!   primary      = "(" expression ")" | variable
//!   variable     = "--" ident      (implicit == true when used alone)
//!   value        = quoted_string | "true" | "false" | ident
//! ```

use vstd::prelude::*;

use crate::ast::ConditionExpr;
use crate::ast::ConditionModel;
use crate::ast::ConditionValue;
use crate::ast::ConditionValueModel;
use crate::cursor::agrees;
use crate::cursor::entirely;
use crate::cursor::has_block;
use crate::cursor::lemma_next;
use crate::cursor::progressed;
use crate::cursor::s_after_block;
use crate::cursor::s_child;
use crate::cursor::s_expect;
use crate::cursor::s_next;
use crate::cursor::unexpected;
use crate::cursor::CurM;
use crate::cursor::Cursor;
use crate::cursor::Expect;
use crate::error::located;
use crate::error::EcssError;
use crate::error::EcssErrorModel;
use crate::error::ErrorKind;
use crate::error::ErrorKindModel;
use crate::error::LocatedError;
use crate::error::LocatedErrorModel;
use crate::text::has_dash_prefix;
use crate::text::starts_with_dashes;
use crate::text::str_eq;
use crate::token::Node;
use crate::token::Token;

verus! {

pub open spec fn is_delim_char(n: Node, ch: char) -> bool {
    match n {
        Node::Leaf { token: Token::Delim(d), .. } => d == ch,
        _ => false,
    }
}

/// The same input, read further along.
pub open spec fn same_input(c: CurM, c2: CurM) -> bool {
    c2.nodes == c.nodes
}

/// The two delimiters `a` and `b` next (whitespace may stand between them);
/// the cursor after them.
pub open spec fn s_double_delim(c: CurM, a: char, b: char) -> Option<CurM> {
    match s_next(c) {
        Ok((i, c1)) => if is_delim_char(c.nodes[i], a) {
            match s_next(c1) {
                Ok((j, c2)) => if is_delim_char(c1.nodes[j], b) {
                    Some(c2)
                } else {
                    None
                },
                Err(_) => None,
            }
        } else {
            None
        },
        Err(_) => None,
    }
}

/// A comparison operator `==` or `!=` next.
pub open spec fn s_compare_op(c: CurM) -> Option<(Seq<char>, CurM)> {
    match s_next(c) {
        Ok((i, c1)) => match s_next(c1) {
            Ok((j, c2)) => if is_delim_char(c.nodes[i], '=') && is_delim_char(c1.nodes[j], '=') {
                Some(("=="@, c2))
            } else if is_delim_char(c.nodes[i], '!') && is_delim_char(c1.nodes[j], '=') {
                Some(("!="@, c2))
            } else {
                None
            },
            Err(_) => None,
        },
        Err(_) => None,
    }
}

/// The right side of a comparison: a string, `true` / `false`, or an identifier.
pub open spec fn s_cond_value(c: CurM) -> Result<(ConditionValueModel, CurM), LocatedErrorModel> {
    match s_next(c) {
        Err(e) => Err(e),
        Ok((i, c1)) => match c.nodes[i] {
            Node::Leaf { token: Token::QuotedString(s), .. } => Ok(
                (ConditionValueModel { kind: "string"@, value: s@ }, c1),
            ),
            Node::Leaf { token: Token::Ident(s), .. } => if s@ == "true"@ {
                Ok((ConditionValueModel { kind: "boolean"@, value: "true"@ }, c1))
            } else if s@ == "false"@ {
                Ok((ConditionValueModel { kind: "boolean"@, value: "false"@ }, c1))
            } else {
                Ok((ConditionValueModel { kind: "ident"@, value: s@ }, c1))
            },
            n => Err(unexpected(n, c1.loc())),
        },
    }
}

/// A variable: an identifier that starts with `--`.
pub open spec fn s_variable(c: CurM) -> Result<(ConditionModel, CurM), LocatedErrorModel> {
    match s_next(c) {
        Err(e) => Err(e),
        Ok((i, c1)) => match c.nodes[i] {
            Node::Leaf { token: Token::Ident(s), .. } => if starts_with_dashes(s@) {
                Ok((ConditionModel::Var(s@), c1))
            } else {
                Err(unexpected(c.nodes[i], c1.loc()))
            },
            n => Err(unexpected(n, c1.loc())),
        },
    }
}

/// `primary = "(" expression ")" | variable`. A parenthesized group that
/// does not parse as a whole expression is read as a variable instead.
pub open spec fn s_primary(c: CurM) -> Result<(ConditionModel, CurM), LocatedErrorModel>
    decreases c.nodes, 2int, 0int,
{
    match s_expect(c, Expect::ParenthesisBlock) {
        Ok((_, c1)) => if has_block(c1) && same_input(c, c1) {
            match entirely(s_or_expr(s_child(c1))) {
                Ok((e, _)) => Ok((e, s_after_block(c1))),
                Err(_) => s_variable(c),
            }
        } else {
            s_variable(c)
        },
        Err(_) => s_variable(c),
    }
}

pub open spec fn comparison_left_error(loc: crate::token::SourceLocation) -> LocatedErrorModel {
    located(
        ErrorKindModel::Custom(
            EcssErrorModel::InvalidCondition("Left side of comparison must be a variable"@),
        ),
        loc,
    )
}

/// `compare_expr = primary (("==" | "!=") value)?`; the left side of a
/// comparison must be a variable.
pub open spec fn s_compare(c: CurM) -> Result<(ConditionModel, CurM), LocatedErrorModel>
    decreases c.nodes, 3int, 0int,
{
    match s_primary(c) {
        Err(e) => Err(e),
        Ok((p, c1)) => match s_compare_op(c1) {
            None => Ok((p, c1)),
            Some((op, c2)) => match p {
                ConditionModel::Var(v) => match s_cond_value(c2) {
                    Ok((rhs, c3)) => Ok((ConditionModel::Comparison(v, op, rhs), c3)),
                    Err(e) => Err(e),
                },
                _ => Err(comparison_left_error(c2.loc())),
            },
        },
    }
}

/// `("&&" compare_expr)*` after `left`, folding to the left.
pub open spec fn s_and_loop(c: CurM, left: ConditionModel) -> Result<
    (ConditionModel, CurM),
    LocatedErrorModel,
>
    decreases c.nodes, 4int, c.nodes.len() - c.pos,
{
    match s_double_delim(c, '&', '&') {
        None => Ok((left, c)),
        Some(c2) => if same_input(c, c2) {
            match s_compare(c2) {
                Err(e) => Err(e),
                Ok((right, c3)) => {
                    let acc = ConditionModel::And(Box::new(left), Box::new(right));
                    if progressed(c, c3) {
                        s_and_loop(c3, acc)
                    } else {
                        Ok((acc, c3))
                    }
                },
            }
        } else {
            Ok((left, c))
        },
    }
}

/// `and_expr = compare_expr ("&&" compare_expr)*`.
pub open spec fn s_and_expr(c: CurM) -> Result<(ConditionModel, CurM), LocatedErrorModel>
    decreases c.nodes, 5int, 0int,
{
    match s_compare(c) {
        Err(e) => Err(e),
        Ok((left, c1)) => if same_input(c, c1) {
            s_and_loop(c1, left)
        } else {
            Ok((left, c1))
        },
    }
}

/// `("||" and_expr)*` after `left`, folding to the left.
pub open spec fn s_or_loop(c: CurM, left: ConditionModel) -> Result<
    (ConditionModel, CurM),
    LocatedErrorModel,
>
    decreases c.nodes, 6int, c.nodes.len() - c.pos,
{
    match s_double_delim(c, '|', '|') {
        None => Ok((left, c)),
        Some(c2) => if same_input(c, c2) {
            match s_and_expr(c2) {
                Err(e) => Err(e),
                Ok((right, c3)) => {
                    let acc = ConditionModel::Or(Box::new(left), Box::new(right));
                    if progressed(c, c3) {
                        s_or_loop(c3, acc)
                    } else {
                        Ok((acc, c3))
                    }
                },
            }
        } else {
            Ok((left, c))
        },
    }
}

/// `or_expr = and_expr ("||" and_expr)*`.
pub open spec fn s_or_expr(c: CurM) -> Result<(ConditionModel, CurM), LocatedErrorModel>
    decreases c.nodes, 7int, 0int,
{
    match s_and_expr(c) {
        Err(e) => Err(e),
        Ok((left, c1)) => if same_input(c, c1) {
            s_or_loop(c1, left)
        } else {
            Ok((left, c1))
        },
    }
}

/// A whole condition.
pub open spec fn s_condition(c: CurM) -> Result<(ConditionModel, CurM), LocatedErrorModel> {
    s_or_expr(c)
}

fn is_delim_node(n: &Node, ch: char) -> (r: bool)
    ensures
        r == is_delim_char(*n, ch),
{
    match n {
        Node::Leaf { token: Token::Delim(d), .. } => *d == ch,
        _ => false,
    }
}

pub proof fn lemma_double_delim(c: CurM, a: char, b: char)
    requires
        c.wf(),
    ensures
        s_double_delim(c, a, b) matches Some(c2) ==> c2.advanced_from(c) && progressed(c, c2),
{
    lemma_next(c);
    if let Ok((i, c1)) = s_next(c) {
        lemma_next(c1);
    }
}

pub proof fn lemma_compare_op(c: CurM)
    requires
        c.wf(),
    ensures
        s_compare_op(c) matches Some((_, c2)) ==> c2.advanced_from(c),
{
    lemma_next(c);
    if let Ok((i, c1)) = s_next(c) {
        lemma_next(c1);
    }
}

/// Takes two consecutive delimiter tokens `a` and `b`, or leaves the
/// cursor where it was and returns `false`.
fn try_consume_double_delim(input: &mut Cursor, a: char, b: char) -> (r: bool)
    requires
        old(input)@.wf(),
    ensures
        match s_double_delim(old(input)@, a, b) {
            Some(c2) => r && final(input)@ == c2,
            None => !r && final(input)@ == old(input)@,
        },
        final(input)@.advanced_from(old(input)@),
        final(input).nodes == old(input).nodes,
{
    proof {
        lemma_double_delim(input@, a, b);
    }
    let checkpoint = *input;
    let ok = match input.next() {
        Ok(i) => {
            if is_delim_node(&input.nodes[i], a) {
                proof {
                    lemma_next(checkpoint@);
                }
                match input.next() {
                    Ok(j) => is_delim_node(&input.nodes[j], b),
                    Err(_) => false,
                }
            } else {
                false
            }
        },
        Err(_) => false,
    };
    if !ok {
        *input = checkpoint;
    }
    ok
}

/// Takes `==` or `!=`, or leaves the cursor where it was.
fn try_compare_op(input: &mut Cursor) -> (r: Option<String>)
    requires
        old(input)@.wf(),
    ensures
        match s_compare_op(old(input)@) {
            Some((op, c2)) => r is Some && r->0@ == op && final(input)@ == c2,
            None => r is None && final(input)@ == old(input)@,
        },
        final(input)@.advanced_from(old(input)@),
        final(input).nodes == old(input).nodes,
{
    proof {
        lemma_compare_op(input@);
        lemma_next(input@);
    }
    let checkpoint = *input;
    let first = match input.next() {
        Ok(i) => i,
        Err(_) => {
            *input = checkpoint;
            return None;
        },
    };
    proof {
        lemma_next(input@);
    }
    let mid = *input;
    let second = match input.next() {
        Ok(j) => j,
        Err(_) => {
            *input = checkpoint;
            return None;
        },
    };
    if is_delim_node(&checkpoint.nodes[first], '=') && is_delim_node(&mid.nodes[second], '=') {
        Some(String::from_str("=="))
    } else if is_delim_node(&checkpoint.nodes[first], '!') && is_delim_node(
        &mid.nodes[second],
        '=',
    ) {
        Some(String::from_str("!="))
    } else {
        *input = checkpoint;
        None
    }
}

/// `value = quoted_string | "true" | "false" | ident`.
pub fn parse_value(input: &mut Cursor) -> (r: Result<ConditionValue, LocatedError>)
    requires
        old(input)@.wf(),
    ensures
        agrees(r, s_cond_value(old(input)@), final(input)@),
        r is Ok ==> final(input)@.advanced_from(old(input)@),
        final(input).nodes == old(input).nodes,
{
    proof {
        lemma_next(input@);
    }
    let c0 = *input;
    let i = input.next()?;
    match &c0.nodes[i] {
        Node::Leaf { token: Token::QuotedString(s), .. } => Ok(ConditionValue::string(s.clone())),
        Node::Leaf { token: Token::Ident(s), .. } => {
            if str_eq(s.as_str(), "true") {
                Ok(ConditionValue::boolean(true))
            } else if str_eq(s.as_str(), "false") {
                Ok(ConditionValue::boolean(false))
            } else {
                Ok(ConditionValue::ident(s.clone()))
            }
        },
        n => Err(
            LocatedError { kind: ErrorKind::UnexpectedToken(n.debug_text()), loc: input.loc() },
        ),
    }
}

/// `variable = "--" ident`.
pub fn parse_variable(input: &mut Cursor) -> (r: Result<ConditionExpr, LocatedError>)
    requires
        old(input)@.wf(),
    ensures
        agrees(r, s_variable(old(input)@), final(input)@),
        r is Ok ==> final(input)@.advanced_from(old(input)@),
        final(input).nodes == old(input).nodes,
{
    proof {
        lemma_next(input@);
    }
    let c0 = *input;
    let i = input.next()?;
    match &c0.nodes[i] {
        Node::Leaf { token: Token::Ident(name), .. } => {
            if has_dash_prefix(name.as_str()) {
                Ok(ConditionExpr::var(name.clone()))
            } else {
                Err(
                    LocatedError {
                        kind: ErrorKind::UnexpectedToken(c0.nodes[i].debug_text()),
                        loc: input.loc(),
                    },
                )
            }
        },
        n => Err(
            LocatedError { kind: ErrorKind::UnexpectedToken(n.debug_text()), loc: input.loc() },
        ),
    }
}

/// `primary = "(" expression ")" | variable`.
pub fn parse_primary(input: &mut Cursor) -> (r: Result<ConditionExpr, LocatedError>)
    requires
        old(input)@.wf(),
    ensures
        agrees(r, s_primary(old(input)@), final(input)@),
        r is Ok ==> final(input)@.advanced_from(old(input)@),
        final(input).nodes == old(input).nodes,
    decreases old(input).nodes@, 1int,
{
    proof {
        lemma_next(input@);
    }
    let checkpoint = *input;
    if let Ok(_) = input.expect(Expect::ParenthesisBlock) {
        let mut child = input.child();
        let grouped = parse_or_expr(&mut child);
        if let Ok(e) = grouped {
            if child.expect_exhausted().is_ok() {
                input.finish_block();
                return Ok(e);
            }
        }
    }
    *input = checkpoint;
    parse_variable(input)
}

/// `compare_expr = primary (("==" | "!=") value)?`.
pub fn parse_compare_expr(input: &mut Cursor) -> (r: Result<ConditionExpr, LocatedError>)
    requires
        old(input)@.wf(),
    ensures
        agrees(r, s_compare(old(input)@), final(input)@),
        r is Ok ==> final(input)@.advanced_from(old(input)@),
        final(input).nodes == old(input).nodes,
    decreases old(input).nodes@, 2int,
{
    let primary = parse_primary(input)?;
    let op = try_compare_op(input);
    match op {
        Some(op_str) => {
            let var_name = match &primary {
                ConditionExpr::Var { var } => var.clone(),
                _ => {
                    return Err(
                        LocatedError {
                            kind: ErrorKind::Custom(
                                EcssError::InvalidCondition(
                                    String::from_str("Left side of comparison must be a variable"),
                                ),
                            ),
                            loc: input.loc(),
                        },
                    );
                },
            };
            let rhs = parse_value(input)?;
            Ok(ConditionExpr::comparison(var_name, op_str, rhs))
        },
        None => Ok(primary),
    }
}

/// `and_expr = compare_expr ("&&" compare_expr)*`.
pub fn parse_and_expr(input: &mut Cursor) -> (r: Result<ConditionExpr, LocatedError>)
    requires
        old(input)@.wf(),
    ensures
        agrees(r, s_and_expr(old(input)@), final(input)@),
        r is Ok ==> final(input)@.advanced_from(old(input)@),
        final(input).nodes == old(input).nodes,
    decreases old(input).nodes@, 3int,
{
    let ghost c0 = input@;
    let mut left = parse_compare_expr(input)?;
    loop
        invariant
            c0 == old(input)@,
            input@.advanced_from(c0),
            input.nodes == old(input).nodes,
            s_and_expr(c0) == s_and_loop(input@, left@),
        ensures
            s_and_expr(c0) == Ok::<(ConditionModel, CurM), LocatedErrorModel>((left@, input@)),
        decreases input.hi - input.pos,
    {
        let ghost c = input@;
        if try_consume_double_delim(input, '&', '&') {
            proof {
                lemma_double_delim(c, '&', '&');
            }
            let ghost c2 = input@;
            let right = match parse_compare_expr(input) {
                Ok(right) => right,
                Err(e) => {
                    assert(same_input(c, c2));

                    return Err(e);
                },
            };
            left = ConditionExpr::and(left, right);
        } else {
            break ;
        }
    }
    Ok(left)
}

/// `or_expr = and_expr ("||" and_expr)*`.
pub fn parse_or_expr(input: &mut Cursor) -> (r: Result<ConditionExpr, LocatedError>)
    requires
        old(input)@.wf(),
    ensures
        agrees(r, s_or_expr(old(input)@), final(input)@),
        r is Ok ==> final(input)@.advanced_from(old(input)@),
        final(input).nodes == old(input).nodes,
    decreases old(input).nodes@, 4int,
{
    let ghost c0 = input@;
    let mut left = parse_and_expr(input)?;
    loop
        invariant
            c0 == old(input)@,
            input@.advanced_from(c0),
            input.nodes == old(input).nodes,
            s_or_expr(c0) == s_or_loop(input@, left@),
        ensures
            s_or_expr(c0) == Ok::<(ConditionModel, CurM), LocatedErrorModel>((left@, input@)),
        decreases input.hi - input.pos,
    {
        let ghost c = input@;
        if try_consume_double_delim(input, '|', '|') {
            proof {
                lemma_double_delim(c, '|', '|');
            }
            let ghost c2 = input@;
            let right = match parse_and_expr(input) {
                Ok(right) => right,
                Err(e) => {
                    assert(same_input(c, c2));
                    return Err(e);
                },
            };
            left = ConditionExpr::or(left, right);
        } else {
            break ;
        }
    }
    Ok(left)
}

/// Parses a whole condition (the contents of the parentheses after `@if`).
pub fn parse_condition(input: &mut Cursor) -> (r: Result<ConditionExpr, LocatedError>)
    requires
        old(input)@.wf(),
    ensures
        agrees(r, s_condition(old(input)@), final(input)@),
        r is Ok ==> final(input)@.advanced_from(old(input)@),
        final(input).nodes == old(input).nodes,
{
    parse_or_expr(input)
}

} // verus!
