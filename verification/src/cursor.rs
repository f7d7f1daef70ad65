//! A cursor over one level of the token tree, with the reading operations
//! of a CSS parser: skipping whitespace, taking the next token, expecting a
//! given token, limiting the input to the stretch before a delimiter, and
//! entering a block.
//!
//! The cursor reads `nodes[pos..hi]`; `end` is the location reported once
//! the stretch is used up. After a block token has been taken, `pending` is
//! set: the position is then just inside the block, and the next step past
//! it skips the whole block.

use vstd::prelude::*;

use crate::error::located;
use crate::error::ErrorKind;
use crate::error::ErrorKindModel;
use crate::error::LocatedError;
use crate::error::LocatedErrorModel;
use crate::token::inner_loc;
use crate::token::is_blank;
use crate::token::is_blank_or_cdx;
use crate::token::is_curly_block;
use crate::token::is_leaf_comment;
use crate::token::is_semicolon;
use crate::token::node_debug;
use crate::token::node_loc;
use crate::token::BlockKind;
use crate::token::Node;
use crate::token::SourceLocation;
use crate::token::Token;

verus! {

#[derive(Clone, Copy)]
pub struct Cursor<'a> {
    pub nodes: &'a Vec<Node>,
    pub hi: usize,
    pub end: SourceLocation,
    pub pos: usize,
    pub pending: bool,
}

/// The model of a cursor.
pub struct CurM {
    pub nodes: Seq<Node>,
    pub hi: int,
    pub end: SourceLocation,
    pub pos: int,
    pub pending: bool,
}

impl<'a> View for Cursor<'a> {
    type V = CurM;

    open spec fn view(&self) -> CurM {
        CurM {
            nodes: self.nodes@,
            hi: self.hi as int,
            end: self.end,
            pos: self.pos as int,
            pending: self.pending,
        }
    }
}

impl CurM {
    pub open spec fn wf(self) -> bool {
        &&& 0 <= self.pos <= self.hi <= self.nodes.len()
        &&& self.pending ==> 0 < self.pos && self.nodes[self.pos - 1] is Block
    }

    pub open spec fn at(self, pos: int, pending: bool) -> CurM {
        CurM { pos, pending, ..self }
    }

    /// The current location.
    pub open spec fn loc(self) -> SourceLocation {
        if self.pending {
            inner_loc(self.nodes[self.pos - 1])
        } else if self.pos < self.hi {
            node_loc(self.nodes[self.pos])
        } else {
            self.end
        }
    }

    /// Same stretch of the same nodes, at a position no earlier.
    pub open spec fn advanced_from(self, old: CurM) -> bool {
        &&& self.wf()
        &&& self.nodes == old.nodes
        &&& self.hi == old.hi
        &&& self.end == old.end
        &&& old.pos <= self.pos
    }
}

/// The first index from `pos` that is not whitespace or a comment.
pub open spec fn blank_end(nodes: Seq<Node>, pos: int, hi: int) -> int
    decreases hi - pos,
{
    if pos < hi && is_blank(nodes[pos]) {
        blank_end(nodes, pos + 1, hi)
    } else {
        pos
    }
}

/// The first index from `pos` that is not whitespace, a comment, `<!--` or `-->`.
pub open spec fn cdx_end(nodes: Seq<Node>, pos: int, hi: int) -> int
    decreases hi - pos,
{
    if pos < hi && is_blank_or_cdx(nodes[pos]) {
        cdx_end(nodes, pos + 1, hi)
    } else {
        pos
    }
}

/// The first index from `pos` that is not a comment.
pub open spec fn comment_end(nodes: Seq<Node>, pos: int, hi: int) -> int
    decreases hi - pos,
{
    if pos < hi && is_leaf_comment(nodes[pos]) {
        comment_end(nodes, pos + 1, hi)
    } else {
        pos
    }
}

pub proof fn lemma_blank_end(nodes: Seq<Node>, pos: int, hi: int)
    requires
        pos <= hi,
    ensures
        pos <= blank_end(nodes, pos, hi) <= hi,
        forall|k: int| pos <= k < blank_end(nodes, pos, hi) ==> is_blank(#[trigger] nodes[k]),
        blank_end(nodes, pos, hi) < hi ==> !is_blank(nodes[blank_end(nodes, pos, hi)]),
    decreases hi - pos,
{
    if pos < hi && is_blank(nodes[pos]) {
        lemma_blank_end(nodes, pos + 1, hi);
    }
}

pub proof fn lemma_cdx_end(nodes: Seq<Node>, pos: int, hi: int)
    requires
        pos <= hi,
    ensures
        pos <= cdx_end(nodes, pos, hi) <= hi,
    decreases hi - pos,
{
    if pos < hi && is_blank_or_cdx(nodes[pos]) {
        lemma_cdx_end(nodes, pos + 1, hi);
    }
}

pub proof fn lemma_comment_end(nodes: Seq<Node>, pos: int, hi: int)
    requires
        pos <= hi,
    ensures
        pos <= comment_end(nodes, pos, hi) <= hi,
    decreases hi - pos,
{
    if pos < hi && is_leaf_comment(nodes[pos]) {
        lemma_comment_end(nodes, pos + 1, hi);
    }
}

/// Passes over whitespace and comments (and a block just taken).
pub open spec fn s_skip_ws(c: CurM) -> CurM {
    c.at(blank_end(c.nodes, c.pos, c.hi), false)
}

/// Passes over whitespace, comments and `<!--` / `-->` markers.
pub open spec fn s_skip_cdx(c: CurM) -> CurM {
    c.at(cdx_end(c.nodes, c.pos, c.hi), false)
}

/// Passes over comments only.
pub open spec fn s_skip_comments(c: CurM) -> CurM {
    c.at(comment_end(c.nodes, c.pos, c.hi), false)
}

/// Takes the next node, whitespace and comments included. The result is
/// the node's index.
pub open spec fn s_next_iwc(c: CurM) -> Result<(int, CurM), LocatedErrorModel> {
    if c.pos < c.hi {
        Ok((c.pos, c.at(c.pos + 1, c.nodes[c.pos] is Block)))
    } else {
        Err(located(ErrorKindModel::EndOfInput, c.at(c.pos, false).loc()))
    }
}

/// Takes the next node that is not whitespace or a comment.
pub open spec fn s_next(c: CurM) -> Result<(int, CurM), LocatedErrorModel> {
    s_next_iwc(s_skip_ws(c))
}

/// Takes the next node that is not a comment.
pub open spec fn s_next_iw(c: CurM) -> Result<(int, CurM), LocatedErrorModel> {
    s_next_iwc(s_skip_comments(c))
}

/// Where the cursor stands after `next`, whether it found a node or not.
pub open spec fn s_after_next(c: CurM) -> CurM {
    match s_next(c) {
        Ok((_, c2)) => c2,
        Err(_) => s_skip_ws(c),
    }
}

/// Only whitespace and comments are left.
pub open spec fn s_is_exhausted(c: CurM) -> bool {
    s_next(c) is Err
}

pub open spec fn unexpected(n: Node, loc: SourceLocation) -> LocatedErrorModel {
    located(ErrorKindModel::UnexpectedToken(node_debug(n)), loc)
}

/// Succeeds, leaving the cursor where it is, when only whitespace and
/// comments are left; otherwise reports the next token as unexpected.
pub open spec fn s_expect_exhausted(c: CurM) -> Result<(), LocatedErrorModel> {
    match s_next(c) {
        Err(_) => Ok(()),
        Ok((i, _)) => Err(unexpected(c.nodes[i], c.loc())),
    }
}

/// The kinds of token that the parser asks for by name.
#[derive(Clone, Copy, PartialEq, Eq, Structural)]
pub enum Expect {
    Ident,
    Colon,
    Semicolon,
    Comma,
    ParenthesisBlock,
    CurlyBracketBlock,
}

pub open spec fn matches_expect(n: Node, e: Expect) -> bool {
    match e {
        Expect::Ident => n matches Node::Leaf { token: Token::Ident(_), .. },
        Expect::Colon => n matches Node::Leaf { token: Token::Colon, .. },
        Expect::Semicolon => n matches Node::Leaf { token: Token::Semicolon, .. },
        Expect::Comma => n matches Node::Leaf { token: Token::Comma, .. },
        Expect::ParenthesisBlock => n matches Node::Block { kind: BlockKind::Parenthesis, .. },
        Expect::CurlyBracketBlock => n matches Node::Block { kind: BlockKind::CurlyBracket, .. },
    }
}

/// Takes the next token, which must be of the given kind; otherwise the
/// error is located where the cursor stood before.
pub open spec fn s_expect(c: CurM, e: Expect) -> Result<(int, CurM), LocatedErrorModel> {
    match s_next(c) {
        Err(err) => Err(err),
        Ok((i, c2)) => if matches_expect(c.nodes[i], e) {
            Ok((i, c2))
        } else {
            Err(unexpected(c.nodes[i], c.loc()))
        },
    }
}

/// The delimiter sets that limit a stretch of input.
#[derive(Clone, Copy, PartialEq, Eq, Structural)]
pub enum Delims {
    Semicolon,
    CurlyBracketBlock,
    SemicolonOrCurlyBracketBlock,
}

pub open spec fn is_delim(n: Node, d: Delims) -> bool {
    match d {
        Delims::Semicolon => is_semicolon(n),
        Delims::CurlyBracketBlock => is_curly_block(n),
        Delims::SemicolonOrCurlyBracketBlock => is_semicolon(n) || is_curly_block(n),
    }
}

/// The first index from `pos` that holds a delimiter of `d`, or `hi`.
pub open spec fn delim_end(nodes: Seq<Node>, pos: int, hi: int, d: Delims) -> int
    decreases hi - pos,
{
    if pos < hi && !is_delim(nodes[pos], d) {
        delim_end(nodes, pos + 1, hi, d)
    } else {
        pos
    }
}

pub proof fn lemma_delim_end(nodes: Seq<Node>, pos: int, hi: int, d: Delims)
    requires
        pos <= hi,
    ensures
        pos <= delim_end(nodes, pos, hi, d) <= hi,
        delim_end(nodes, pos, hi, d) < hi ==> is_delim(nodes[delim_end(nodes, pos, hi, d)], d),
    decreases hi - pos,
{
    if pos < hi && !is_delim(nodes[pos], d) {
        lemma_delim_end(nodes, pos + 1, hi, d);
    }
}

/// The stretch of input before the next delimiter of `d` at this level.
pub open spec fn s_delimited(c: CurM, d: Delims) -> CurM {
    let e = delim_end(c.nodes, c.pos, c.hi, d);
    CurM {
        hi: e,
        end: if e < c.hi {
            node_loc(c.nodes[e])
        } else {
            c.end
        },
        ..c
    }
}

/// The cursor just after a delimited stretch (before its delimiter).
pub open spec fn s_after_delimited(c: CurM, sub: CurM) -> CurM {
    c.at(sub.hi, false)
}

/// A block was just taken.
pub open spec fn has_block(c: CurM) -> bool {
    0 < c.pos <= c.nodes.len() && c.nodes[c.pos - 1] is Block
}

pub open spec fn block_children(n: Node) -> Seq<Node> {
    match n {
        Node::Block { children, .. } => children@,
        Node::Leaf { .. } => seq![],
    }
}

pub open spec fn block_end(n: Node) -> SourceLocation {
    match n {
        Node::Block { end, .. } => end,
        Node::Leaf { loc, .. } => loc,
    }
}

/// A cursor over the contents of the block just taken.
pub open spec fn s_child(c: CurM) -> CurM {
    let b = c.nodes[c.pos - 1];
    CurM {
        nodes: block_children(b),
        hi: block_children(b).len() as int,
        end: block_end(b),
        pos: 0,
        pending: false,
    }
}

/// The cursor after the block just taken has been read.
pub open spec fn s_after_block(c: CurM) -> CurM {
    c.at(c.pos, false)
}

/// The overall result of reading a stretch or a block: the reading must
/// leave only whitespace and comments behind.
pub open spec fn entirely<V>(r: Result<(V, CurM), LocatedErrorModel>) -> Result<
    (V, CurM),
    LocatedErrorModel,
> {
    match r {
        Ok((v, c)) => match s_expect_exhausted(c) {
            Ok(_) => Ok((v, c)),
            Err(e) => Err(e),
        },
        Err(e) => Err(e),
    }
}

pub proof fn lemma_skip_ws(c: CurM)
    requires
        c.wf(),
    ensures
        s_skip_ws(c).advanced_from(c),
        !s_skip_ws(c).pending,
        s_skip_ws(c).pos < c.hi ==> !is_blank(c.nodes[s_skip_ws(c).pos]),
{
    lemma_blank_end(c.nodes, c.pos, c.hi);
}

pub proof fn lemma_next(c: CurM)
    requires
        c.wf(),
    ensures
        s_next(c) matches Ok((i, c2)) ==> c.pos <= i && i + 1 == c2.pos && c2.advanced_from(c) && c2.pos
            > c.pos && i < c.hi && !is_blank(c.nodes[i]) && i == s_skip_ws(c).pos && c2.pending
            == (c.nodes[i] is Block),
        s_after_next(c).advanced_from(c),
{
    lemma_blank_end(c.nodes, c.pos, c.hi);
}

pub proof fn lemma_next_iw(c: CurM)
    requires
        c.wf(),
    ensures
        s_next_iw(c) matches Ok((i, c2)) ==> c.pos <= i && i + 1 == c2.pos && c2.advanced_from(c) && c2.pos
            > c.pos && i < c.hi,
{
    lemma_comment_end(c.nodes, c.pos, c.hi);
}

/// The cursor moved forward within the same input.
pub open spec fn progressed(c: CurM, c2: CurM) -> bool {
    c2.nodes == c.nodes && c.pos < c2.pos <= c.nodes.len()
}

/// An exec result matches a spec result: the same value (by its view), and
/// on success the cursor ends where the spec says.
pub open spec fn agrees<T: View>(
    r: Result<T, LocatedError>,
    s: Result<(T::V, CurM), LocatedErrorModel>,
    fin: CurM,
) -> bool {
    match s {
        Ok((v, c2)) => r is Ok && r->Ok_0@ == v && fin == c2,
        Err(e) => r is Err && r->Err_0@ == e,
    }
}

pub open spec fn agrees_idx(
    r: Result<usize, LocatedError>,
    s: Result<(int, CurM), LocatedErrorModel>,
) -> bool {
    match s {
        Ok((i, _)) => r is Ok && r->Ok_0 == i,
        Err(e) => r is Err && r->Err_0@ == e,
    }
}

impl<'a> Cursor<'a> {
    /// A cursor over a whole list of nodes, which ends at `end`.
    pub fn new(nodes: &'a Vec<Node>, end: SourceLocation) -> (r: Self)
        ensures
            r@ == (CurM { nodes: nodes@, hi: nodes@.len() as int, end, pos: 0, pending: false }),
            r@.wf(),
    {
        Cursor { nodes, hi: nodes.len(), end, pos: 0, pending: false }
    }

    pub fn loc(&self) -> (r: SourceLocation)
        requires
            self@.wf(),
        ensures
            r == self@.loc(),
    {
        if self.pending {
            self.nodes[self.pos - 1].inner_loc()
        } else if self.pos < self.hi {
            self.nodes[self.pos].loc()
        } else {
            self.end
        }
    }

    pub fn skip_whitespace(&mut self)
        requires
            old(self)@.wf(),
        ensures
            final(self)@ == s_skip_ws(old(self)@),
            final(self).nodes == old(self).nodes,
    {
        self.pending = false;
        while self.pos < self.hi && self.nodes[self.pos].is_blank()
            invariant
                self.nodes == old(self).nodes,
                self.hi == old(self).hi,
                self.end == old(self).end,
                old(self).pos <= self.pos <= self.hi <= self.nodes@.len(),
                !self.pending,
                blank_end(self.nodes@, self.pos as int, self.hi as int) == blank_end(
                    old(self).nodes@,
                    old(self).pos as int,
                    old(self).hi as int,
                ),
            decreases self.hi - self.pos,
        {
            self.pos = self.pos + 1;
        }
    }

    pub fn skip_cdc_and_cdo(&mut self)
        requires
            old(self)@.wf(),
        ensures
            final(self)@ == s_skip_cdx(old(self)@),
            final(self).nodes == old(self).nodes,
    {
        self.pending = false;
        while self.pos < self.hi && self.nodes[self.pos].is_blank_or_cdx()
            invariant
                self.nodes == old(self).nodes,
                self.hi == old(self).hi,
                self.end == old(self).end,
                old(self).pos <= self.pos <= self.hi <= self.nodes@.len(),
                !self.pending,
                cdx_end(self.nodes@, self.pos as int, self.hi as int) == cdx_end(
                    old(self).nodes@,
                    old(self).pos as int,
                    old(self).hi as int,
                ),
            decreases self.hi - self.pos,
        {
            self.pos = self.pos + 1;
        }
    }

    fn skip_comments(&mut self)
        requires
            old(self)@.wf(),
        ensures
            final(self)@ == s_skip_comments(old(self)@),
            final(self).nodes == old(self).nodes,
    {
        self.pending = false;
        while self.pos < self.hi && self.nodes[self.pos].is_comment()
            invariant
                self.nodes == old(self).nodes,
                self.hi == old(self).hi,
                self.end == old(self).end,
                old(self).pos <= self.pos <= self.hi <= self.nodes@.len(),
                !self.pending,
                comment_end(self.nodes@, self.pos as int, self.hi as int) == comment_end(
                    old(self).nodes@,
                    old(self).pos as int,
                    old(self).hi as int,
                ),
            decreases self.hi - self.pos,
        {
            self.pos = self.pos + 1;
        }
    }

    pub fn next_including_whitespace_and_comments(&mut self) -> (r: Result<usize, LocatedError>)
        requires
            old(self)@.wf(),
        ensures
            agrees_idx(r, s_next_iwc(old(self)@)),
            final(self)@ == match s_next_iwc(old(self)@) {
                Ok((_, c2)) => c2,
                Err(_) => old(self)@.at(old(self)@.pos, false),
            },
            final(self).nodes == old(self).nodes,
    {
        self.pending = false;
        if self.pos < self.hi {
            let i = self.pos;
            self.pos = self.pos + 1;
            self.pending = self.nodes[i].is_block();
            Ok(i)
        } else {
            Err(LocatedError { kind: ErrorKind::EndOfInput, loc: self.loc() })
        }
    }

    pub fn next(&mut self) -> (r: Result<usize, LocatedError>)
        requires
            old(self)@.wf(),
        ensures
            agrees_idx(r, s_next(old(self)@)),
            final(self)@ == s_after_next(old(self)@),
            final(self).nodes == old(self).nodes,
    {
        proof {
            lemma_skip_ws(self@);
        }
        self.skip_whitespace();
        self.next_including_whitespace_and_comments()
    }

    pub fn next_including_whitespace(&mut self) -> (r: Result<usize, LocatedError>)
        requires
            old(self)@.wf(),
        ensures
            agrees_idx(r, s_next_iw(old(self)@)),
            final(self)@ == match s_next_iw(old(self)@) {
                Ok((_, c2)) => c2,
                Err(_) => s_skip_comments(old(self)@).at(s_skip_comments(old(self)@).pos, false),
            },
            final(self).nodes == old(self).nodes,
    {
        proof {
            lemma_comment_end(self.nodes@, self.pos as int, self.hi as int);
        }
        self.skip_comments();
        self.next_including_whitespace_and_comments()
    }

    pub fn is_exhausted(&self) -> (r: bool)
        requires
            self@.wf(),
        ensures
            r == s_is_exhausted(self@),
    {
        let mut probe = *self;
        let r = probe.next();
        r.is_err()
    }

    pub fn expect_exhausted(&self) -> (r: Result<(), LocatedError>)
        requires
            self@.wf(),
        ensures
            match s_expect_exhausted(self@) {
                Ok(_) => r is Ok,
                Err(e) => r is Err && r->Err_0@ == e,
            },
    {
        let start = self.loc();
        let mut probe = *self;
        match probe.next() {
            Err(_) => Ok(()),
            Ok(i) => Err(
                LocatedError {
                    kind: ErrorKind::UnexpectedToken(self.nodes[i].debug_text()),
                    loc: start,
                },
            ),
        }
    }

    pub fn expect(&mut self, e: Expect) -> (r: Result<usize, LocatedError>)
        requires
            old(self)@.wf(),
        ensures
            agrees_idx(r, s_expect(old(self)@, e)),
            final(self)@ == s_after_next(old(self)@),
            final(self).nodes == old(self).nodes,
    {
        let start = self.loc();
        let i = self.next()?;
        let ok = match e {
            Expect::Ident => matches!(self.nodes[i], Node::Leaf { token: Token::Ident(_), .. }),
            Expect::Colon => matches!(self.nodes[i], Node::Leaf { token: Token::Colon, .. }),
            Expect::Semicolon => matches!(self.nodes[i], Node::Leaf { token: Token::Semicolon, .. }),
            Expect::Comma => matches!(self.nodes[i], Node::Leaf { token: Token::Comma, .. }),
            Expect::ParenthesisBlock => matches!(
                self.nodes[i],
                Node::Block { kind: BlockKind::Parenthesis, .. }
            ),
            Expect::CurlyBracketBlock => matches!(
                self.nodes[i],
                Node::Block { kind: BlockKind::CurlyBracket, .. }
            ),
        };
        if ok {
            Ok(i)
        } else {
            Err(
                LocatedError {
                    kind: ErrorKind::UnexpectedToken(self.nodes[i].debug_text()),
                    loc: start,
                },
            )
        }
    }

    /// The stretch of this cursor's input before the next delimiter of `d`.
    pub fn delimited(&self, d: Delims) -> (r: Cursor<'a>)
        requires
            self@.wf(),
        ensures
            r@ == s_delimited(self@, d),
            r@.wf(),
            r.nodes == self.nodes,
    {
        let mut e = self.pos;
        while e < self.hi && !self.is_delim_at(e, d)
            invariant
                self.pos <= e <= self.hi <= self.nodes@.len(),
                delim_end(self.nodes@, e as int, self.hi as int, d) == delim_end(
                    self.nodes@,
                    self.pos as int,
                    self.hi as int,
                    d,
                ),
            decreases self.hi - e,
        {
            e = e + 1;
        }
        let end = if e < self.hi {
            self.nodes[e].loc()
        } else {
            self.end
        };
        Cursor { nodes: self.nodes, hi: e, end, pos: self.pos, pending: self.pending }
    }

    fn is_delim_at(&self, i: usize, d: Delims) -> (r: bool)
        requires
            i < self.nodes@.len(),
        ensures
            r == is_delim(self.nodes@[i as int], d),
    {
        let semi = matches!(self.nodes[i], Node::Leaf { token: Token::Semicolon, .. });
        let curly = matches!(self.nodes[i], Node::Block { kind: BlockKind::CurlyBracket, .. });
        match d {
            Delims::Semicolon => semi,
            Delims::CurlyBracketBlock => curly,
            Delims::SemicolonOrCurlyBracketBlock => semi || curly,
        }
    }

    /// Moves past a delimited stretch that was read with `sub`.
    pub fn finish_delimited(&mut self, sub: &Cursor<'a>)
        requires
            old(self)@.wf(),
            sub.hi <= old(self).hi,
            old(self).pos <= sub.hi,
        ensures
            final(self)@ == s_after_delimited(old(self)@, sub@),
            final(self)@.wf(),
            final(self).nodes == old(self).nodes,
    {
        self.pos = sub.hi;
        self.pending = false;
    }

    /// A cursor over the contents of the block just taken.
    pub fn child(&self) -> (r: Cursor<'a>)
        requires
            self@.wf(),
            self.pending,
        ensures
            r@ == s_child(self@),
            r@.wf(),
    {
        let nodes: &'a Vec<Node> = self.nodes;
        match &nodes[self.pos - 1] {
            Node::Block { children, end, .. } => Cursor {
                nodes: children,
                hi: children.len(),
                end: *end,
                pos: 0,
                pending: false,
            },
            Node::Leaf { .. } => {
                assert(false);
                *self
            },
        }
    }

    /// Moves past the block just taken, once its contents have been read.
    pub fn finish_block(&mut self)
        requires
            old(self)@.wf(),
        ensures
            final(self)@ == s_after_block(old(self)@),
            final(self)@.wf(),
            final(self).nodes == old(self).nodes,
    {
        self.pending = false;
    }
}

} // verus!
