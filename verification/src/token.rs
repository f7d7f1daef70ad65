//! The token tree that the parser reads.
//!
//! A CSS tokenizer (cssparser's) turns the source into tokens; blocks
//! (`(...)`, `[...]`, `{...}` and functions `name(...)`) hold their contents
//! as children. Each node carries the source location where it starts, and
//! a block also the location where it ends (its closing bracket, or the end
//! of input when it is not closed). Numbers are carried as the text that the
//! parser prints for them.

use vstd::prelude::*;

use crate::text::push_char;
use crate::text::push_str;

verus! {

/// A position in the source: line (from 0) and column (from 1).
#[derive(Clone, Copy, Debug, PartialEq, Eq, Structural)]
pub struct SourceLocation {
    pub line: u32,
    pub column: u32,
}

/// A token that is not a block.
#[derive(Clone, Debug)]
pub enum Token {
    Ident(String),
    AtKeyword(String),
    Hash(String),
    IDHash(String),
    QuotedString(String),
    UnquotedUrl(String),
    Delim(char),
    /// A number, as printed.
    Number(String),
    /// A percentage: the printed number of percent (without the `%`).
    Percentage(String),
    /// A dimension: the printed number and the unit.
    Dimension(String, String),
    WhiteSpace,
    Comment,
    Colon,
    Semicolon,
    Comma,
    IncludeMatch,
    DashMatch,
    PrefixMatch,
    SuffixMatch,
    SubstringMatch,
    CDO,
    CDC,
    BadUrl,
    BadString,
    CloseParenthesis,
    CloseSquareBracket,
    CloseCurlyBracket,
}

/// The opening token of a block.
#[derive(Clone, Debug)]
pub enum BlockKind {
    Function(String),
    Parenthesis,
    SquareBracket,
    CurlyBracket,
}

/// A node of the token tree. `debug` is the tokenizer's own description of
/// the token, used in error messages.
#[derive(Debug)]
pub enum Node {
    Leaf { token: Token, debug: String, loc: SourceLocation },
    Block {
        kind: BlockKind,
        debug: String,
        loc: SourceLocation,
        children: Vec<Node>,
        end: SourceLocation,
    },
}

pub open spec fn node_loc(n: Node) -> SourceLocation {
    match n {
        Node::Leaf { loc, .. } => loc,
        Node::Block { loc, .. } => loc,
    }
}

pub open spec fn node_debug(n: Node) -> Seq<char> {
    match n {
        Node::Leaf { debug, .. } => debug@,
        Node::Block { debug, .. } => debug@,
    }
}

/// The location just inside a block's opening bracket.
pub open spec fn inner_loc(n: Node) -> SourceLocation {
    match n {
        Node::Block { children, end, .. } => if children@.len() > 0 {
            node_loc(children@[0])
        } else {
            end
        },
        Node::Leaf { loc, .. } => loc,
    }
}

pub open spec fn is_leaf_ws(n: Node) -> bool {
    n matches Node::Leaf { token: Token::WhiteSpace, .. }
}

pub open spec fn is_leaf_comment(n: Node) -> bool {
    n matches Node::Leaf { token: Token::Comment, .. }
}

/// Whitespace or a comment: what `skip_whitespace` passes over.
pub open spec fn is_blank(n: Node) -> bool {
    is_leaf_ws(n) || is_leaf_comment(n)
}

/// Blank, or one of the `<!--` / `-->` markers.
pub open spec fn is_blank_or_cdx(n: Node) -> bool {
    is_blank(n) || n matches Node::Leaf { token: Token::CDO, .. } || n matches Node::Leaf {
        token: Token::CDC,
        ..
    }
}

pub open spec fn is_semicolon(n: Node) -> bool {
    n matches Node::Leaf { token: Token::Semicolon, .. }
}

pub open spec fn is_curly_block(n: Node) -> bool {
    n matches Node::Block { kind: BlockKind::CurlyBracket, .. }
}

/// The text that one token contributes when a stretch of tokens is written
/// back out (selectors, preludes, declaration values, raw blocks).
pub open spec fn token_text(t: Token) -> Seq<char> {
    match t {
        Token::Ident(s) => s@,
        Token::AtKeyword(s) => seq!['@'] + s@,
        Token::Hash(s) => seq!['#'] + s@,
        Token::IDHash(s) => seq!['#'] + s@,
        Token::QuotedString(s) => seq!['"'] + s@ + seq!['"'],
        Token::UnquotedUrl(s) => seq!['u', 'r', 'l', '('] + s@ + seq![')'],
        Token::Delim(c) => seq![c],
        Token::Number(v) => v@,
        Token::Percentage(v) => v@ + seq!['%'],
        Token::Dimension(v, unit) => v@ + unit@,
        Token::WhiteSpace => seq![' '],
        Token::Comment => seq![],
        Token::BadString => seq![],
        Token::BadUrl => seq![],
        Token::Colon => seq![':'],
        Token::Semicolon => seq![';'],
        Token::Comma => seq![','],
        Token::IncludeMatch => seq!['~', '='],
        Token::DashMatch => seq!['|', '='],
        Token::PrefixMatch => seq!['^', '='],
        Token::SuffixMatch => seq!['$', '='],
        Token::SubstringMatch => seq!['*', '='],
        Token::CDO => seq!['<', '!', '-', '-'],
        Token::CDC => seq!['-', '-', '>'],
        Token::CloseParenthesis => seq![')'],
        Token::CloseSquareBracket => seq![']'],
        Token::CloseCurlyBracket => seq!['}'],
    }
}

/// The opening text of a block: a function's name and `(`, or its bracket.
pub open spec fn opener_text(k: BlockKind) -> Seq<char> {
    match k {
        BlockKind::Function(name) => name@ + seq!['('],
        BlockKind::Parenthesis => seq!['('],
        BlockKind::SquareBracket => seq!['['],
        BlockKind::CurlyBracket => seq!['{'],
    }
}

/// The closing bracket of a block.
pub open spec fn closer_text(k: BlockKind) -> Seq<char> {
    match k {
        BlockKind::Function(_) => seq![')'],
        BlockKind::Parenthesis => seq![')'],
        BlockKind::SquareBracket => seq![']'],
        BlockKind::CurlyBracket => seq!['}'],
    }
}

/// The text of a node: a token's text, or a block's opening text, the text
/// of its contents and its closing bracket.
pub open spec fn node_text(n: Node) -> Seq<char>
    decreases n, 0int,
{
    match n {
        Node::Leaf { token, .. } => token_text(token),
        Node::Block { kind, children, .. } => {
            proof {
                assert(decreases_to!(n => children));
                assert(decreases_to!(children => children@));
            }
            opener_text(kind) + nodes_text(children@, 0, children@.len() as int) + closer_text(
                kind,
            )
        },
    }
}

/// The texts of `nodes[lo..hi]`, one after the other.
pub open spec fn nodes_text(nodes: Seq<Node>, lo: int, hi: int) -> Seq<char>
    decreases nodes, hi - lo,
{
    if lo >= hi {
        seq![]
    } else if 0 <= hi - 1 < nodes.len() {
        nodes_text(nodes, lo, hi - 1) + node_text(nodes[hi - 1])
    } else {
        nodes_text(nodes, lo, hi - 1)
    }
}

impl Node {
    pub fn loc(&self) -> (r: SourceLocation)
        ensures
            r == node_loc(*self),
    {
        match self {
            Node::Leaf { loc, .. } => *loc,
            Node::Block { loc, .. } => *loc,
        }
    }

    pub fn debug_text(&self) -> (r: String)
        ensures
            r@ == node_debug(*self),
    {
        match self {
            Node::Leaf { debug, .. } => debug.clone(),
            Node::Block { debug, .. } => debug.clone(),
        }
    }

    pub fn inner_loc(&self) -> (r: SourceLocation)
        ensures
            r == inner_loc(*self),
    {
        match self {
            Node::Block { children, end, .. } => {
                if children.len() > 0 {
                    children[0].loc()
                } else {
                    *end
                }
            },
            Node::Leaf { loc, .. } => *loc,
        }
    }

    pub fn is_blank(&self) -> (r: bool)
        ensures
            r == is_blank(*self),
    {
        match self {
            Node::Leaf { token: Token::WhiteSpace, .. } => true,
            Node::Leaf { token: Token::Comment, .. } => true,
            _ => false,
        }
    }

    pub fn is_comment(&self) -> (r: bool)
        ensures
            r == is_leaf_comment(*self),
    {
        match self {
            Node::Leaf { token: Token::Comment, .. } => true,
            _ => false,
        }
    }

    pub fn is_blank_or_cdx(&self) -> (r: bool)
        ensures
            r == is_blank_or_cdx(*self),
    {
        match self {
            Node::Leaf { token: Token::WhiteSpace, .. } => true,
            Node::Leaf { token: Token::Comment, .. } => true,
            Node::Leaf { token: Token::CDO, .. } => true,
            Node::Leaf { token: Token::CDC, .. } => true,
            _ => false,
        }
    }

    pub fn is_block(&self) -> (r: bool)
        ensures
            r == (*self is Block),
    {
        match self {
            Node::Block { .. } => true,
            _ => false,
        }
    }
}

fn push_chars2(out: &mut String, a: char, b: char)
    ensures
        final(out)@ == old(out)@ + seq![a, b],
{
    push_char(out, a);
    push_char(out, b);
    assert(old(out)@.push(a).push(b) =~= old(out)@ + seq![a, b]);
}

/// Appends the text of one token (see `token_text`).
pub fn append_token(out: &mut String, tok: &Token)
    ensures
        final(out)@ == old(out)@ + token_text(*tok),
{
    let ghost o = out@;
    match tok {
        Token::Ident(s) => push_str(out, s.as_str()),
        Token::AtKeyword(s) => {
            push_char(out, '@');
            push_str(out, s.as_str());
            assert(o.push('@') + s@ =~= o + (seq!['@'] + s@));
        },
        Token::Hash(s) | Token::IDHash(s) => {
            push_char(out, '#');
            push_str(out, s.as_str());
            assert(o.push('#') + s@ =~= o + (seq!['#'] + s@));
        },
        Token::QuotedString(s) => {
            push_char(out, '"');
            push_str(out, s.as_str());
            push_char(out, '"');
            assert((o.push('"') + s@).push('"') =~= o + (seq!['"'] + s@ + seq!['"']));
        },
        Token::UnquotedUrl(s) => {
            push_chars2(out, 'u', 'r');
            push_chars2(out, 'l', '(');
            push_str(out, s.as_str());
            push_char(out, ')');
            assert((o + seq!['u', 'r'] + seq!['l', '('] + s@).push(')') =~= o + (seq![
                'u',
                'r',
                'l',
                '(',
            ] + s@ + seq![')']));
        },
        Token::Delim(c) => {
            push_char(out, *c);
            assert(o.push(*c) =~= o + seq![*c]);
        },
        Token::Number(v) => push_str(out, v.as_str()),
        Token::Percentage(v) => {
            push_str(out, v.as_str());
            push_char(out, '%');
            assert((o + v@).push('%') =~= o + (v@ + seq!['%']));
        },
        Token::Dimension(v, unit) => {
            push_str(out, v.as_str());
            push_str(out, unit.as_str());
            assert(o + v@ + unit@ =~= o + (v@ + unit@));
        },
        Token::WhiteSpace => {
            push_char(out, ' ');
            assert(o.push(' ') =~= o + seq![' ']);
        },
        Token::Comment | Token::BadString | Token::BadUrl => {
            assert(o =~= o + seq![]);
        },
        Token::Colon => {
            push_char(out, ':');
            assert(o.push(':') =~= o + seq![':']);
        },
        Token::Semicolon => {
            push_char(out, ';');
            assert(o.push(';') =~= o + seq![';']);
        },
        Token::Comma => {
            push_char(out, ',');
            assert(o.push(',') =~= o + seq![',']);
        },
        Token::IncludeMatch => push_chars2(out, '~', '='),
        Token::DashMatch => push_chars2(out, '|', '='),
        Token::PrefixMatch => push_chars2(out, '^', '='),
        Token::SuffixMatch => push_chars2(out, '$', '='),
        Token::SubstringMatch => push_chars2(out, '*', '='),
        Token::CDO => {
            push_chars2(out, '<', '!');
            push_chars2(out, '-', '-');
            assert(o + seq!['<', '!'] + seq!['-', '-'] =~= o + seq!['<', '!', '-', '-']);
        },
        Token::CDC => {
            push_chars2(out, '-', '-');
            push_char(out, '>');
            assert((o + seq!['-', '-']).push('>') =~= o + seq!['-', '-', '>']);
        },
        Token::CloseParenthesis => {
            push_char(out, ')');
            assert(o.push(')') =~= o + seq![')']);
        },
        Token::CloseSquareBracket => {
            push_char(out, ']');
            assert(o.push(']') =~= o + seq![']']);
        },
        Token::CloseCurlyBracket => {
            push_char(out, '}');
            assert(o.push('}') =~= o + seq!['}']);
        },
    }
}

fn append_opener(out: &mut String, kind: &BlockKind)
    ensures
        final(out)@ == old(out)@ + opener_text(*kind),
{
    let ghost o = out@;
    match kind {
        BlockKind::Function(name) => {
            push_str(out, name.as_str());
            push_char(out, '(');
            assert((o + name@).push('(') =~= o + (name@ + seq!['(']));
        },
        BlockKind::Parenthesis => {
            push_char(out, '(');
            assert(o.push('(') =~= o + seq!['(']);
        },
        BlockKind::SquareBracket => {
            push_char(out, '[');
            assert(o.push('[') =~= o + seq!['[']);
        },
        BlockKind::CurlyBracket => {
            push_char(out, '{');
            assert(o.push('{') =~= o + seq!['{']);
        },
    }
}

fn append_closer(out: &mut String, kind: &BlockKind)
    ensures
        final(out)@ == old(out)@ + closer_text(*kind),
{
    let ghost o = out@;
    let c = match kind {
        BlockKind::Function(_) => ')',
        BlockKind::Parenthesis => ')',
        BlockKind::SquareBracket => ']',
        BlockKind::CurlyBracket => '}',
    };
    push_char(out, c);
    assert(o.push(c) =~= o + closer_text(*kind));
}

/// Appends the text of a node (see `node_text`): a token's text, or a whole
/// block with its contents and closing bracket.
pub fn append_node(out: &mut String, n: &Node)
    ensures
        final(out)@ == old(out)@ + node_text(*n),
    decreases n,
{
    let ghost o = out@;
    match n {
        Node::Leaf { token, .. } => append_token(out, token),
        Node::Block { kind, children, .. } => {
            append_opener(out, kind);
            let mut i: usize = 0;
            while i < children.len()
                invariant
                    i <= children.len(),
                    *n matches Node::Block { children: ch, .. } && ch == *children,
                    out@ == o + opener_text(*kind) + nodes_text(children@, 0, i as int),
                decreases children.len() - i,
            {
                let ghost before = out@;
                proof {
                    assert(decreases_to!(*n => *children));
                    assert(decreases_to!(*children => children@));
                    assert(decreases_to!(children@ => children@[i as int]));
                }
                append_node(out, &children[i]);
                i = i + 1;
                assert(out@ =~= o + opener_text(*kind) + nodes_text(children@, 0, i as int));
            }
            append_closer(out, kind);
            assert(out@ =~= o + node_text(*n));
        },
    }
}

} // verus!
