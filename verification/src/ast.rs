//! ECSS AST types.
//!
//! The rules and body items are tagged unions written as structs: a `kind`
//! string names the variant and exactly the matching optional field is
//! populated (`wf`). Each type has a model (its view) in which the tagged
//! unions are real sum types and strings are character sequences.

use vstd::prelude::*;

use crate::token::SourceLocation;

verus! {

// ---------------------------------------------------------------------------
// Source location
// ---------------------------------------------------------------------------

#[derive(Debug, Clone, Copy, PartialEq, Eq, Structural)]
pub struct Span {
    pub line: u32,
    pub column: u32,
    pub end_line: u32,
    pub end_column: u32,
}

pub open spec fn span_of(start: SourceLocation, end: SourceLocation) -> Span {
    Span { line: start.line, column: start.column, end_line: end.line, end_column: end.column }
}

pub fn make_span(start: SourceLocation, end: SourceLocation) -> (r: Span)
    ensures
        r == span_of(start, end),
{
    Span { line: start.line, column: start.column, end_line: end.line, end_column: end.column }
}

// ---------------------------------------------------------------------------
// Types
// ---------------------------------------------------------------------------

#[derive(Debug)]
pub struct EcssStylesheet {
    pub rules: Vec<EcssRule>,
}

/// A top-level rule. `kind`: "state-variant" | "state-def" | "qualified-rule" | "at-rule".
#[derive(Debug)]
pub struct EcssRule {
    pub kind: String,
    pub state_variant: Option<StateVariant>,
    pub state_def: Option<StateDef>,
    pub qualified_rule: Option<CssQualifiedRule>,
    pub at_rule: Option<CssRawAtRule>,
}

#[derive(Debug)]
pub struct StateVariant {
    pub name: String,
    pub values: Vec<String>,
    pub span: Span,
}

#[derive(Debug)]
pub struct StateDef {
    pub name: String,
    pub params: Vec<StateParam>,
    pub body: Vec<StateDefItem>,
    pub span: Span,
}

#[derive(Debug)]
pub struct StateParam {
    pub name: String,
    /// "boolean" | "variant"
    pub param_type: String,
    /// For variant params: the @state-variant name (e.g. "Theme")
    pub variant_name: Option<String>,
    /// Default value as written ("true"/"false" for boolean; the value for variant)
    pub default_value: Option<String>,
}

/// An item of a `@state-def` or `@if` body.
/// `kind`: "declaration" | "qualified-rule" | "if-chain" | "at-rule".
#[derive(Debug)]
pub struct StateDefItem {
    pub kind: String,
    pub declaration: Option<CssDeclaration>,
    pub qualified_rule: Option<CssQualifiedRule>,
    pub if_chain: Option<IfChain>,
    pub at_rule: Option<CssRawAtRule>,
}

#[derive(Debug)]
pub struct CssDeclaration {
    pub property: String,
    pub value: String,
    pub important: bool,
    pub span: Span,
}

#[derive(Debug)]
pub struct CssQualifiedRule {
    /// Selector text, e.g. "&:hover", "span", ".class > div"
    pub selector: String,
    pub body: Vec<StateDefItem>,
    pub span: Span,
}

#[derive(Debug)]
pub struct CssRawAtRule {
    pub name: String,
    pub prelude: String,
    pub block: Option<String>,
    pub span: Span,
}

#[derive(Debug)]
pub struct IfChain {
    pub if_clause: IfClause,
    pub else_if_clauses: Vec<IfClause>,
    pub else_body: Option<Vec<StateDefItem>>,
    pub span: Span,
}

#[derive(Debug)]
pub struct IfClause {
    pub condition: ConditionExpr,
    pub body: Vec<StateDefItem>,
    pub span: Span,
}

/// A condition of `@if` / `@elseif`.
#[derive(Debug)]
pub enum ConditionExpr {
    Var { var: String },
    Comparison { left: String, op: String, right: ConditionValue },
    And { left: Box<ConditionExpr>, right: Box<ConditionExpr> },
    Or { left: Box<ConditionExpr>, right: Box<ConditionExpr> },
}

/// The right side of a comparison. `kind`: "string" | "boolean" | "ident".
#[derive(Debug, Clone)]
pub struct ConditionValue {
    pub kind: String,
    pub value: String,
}

// ---------------------------------------------------------------------------
// Models
// ---------------------------------------------------------------------------

pub struct StateVariantModel {
    pub name: Seq<char>,
    pub values: Seq<Seq<char>>,
    pub span: Span,
}

pub struct StateParamModel {
    pub name: Seq<char>,
    pub param_type: Seq<char>,
    pub variant_name: Option<Seq<char>>,
    pub default_value: Option<Seq<char>>,
}

pub struct CssDeclarationModel {
    pub property: Seq<char>,
    pub value: Seq<char>,
    pub important: bool,
    pub span: Span,
}

pub struct CssRawAtRuleModel {
    pub name: Seq<char>,
    pub prelude: Seq<char>,
    pub block: Option<Seq<char>>,
    pub span: Span,
}

pub struct CssQualifiedRuleModel {
    pub selector: Seq<char>,
    pub body: Seq<ItemModel>,
    pub span: Span,
}

pub struct IfClauseModel {
    pub condition: ConditionModel,
    pub body: Seq<ItemModel>,
    pub span: Span,
}

pub struct IfChainModel {
    pub if_clause: IfClauseModel,
    pub else_if_clauses: Seq<IfClauseModel>,
    pub else_body: Option<Seq<ItemModel>>,
    pub span: Span,
}

pub enum ItemModel {
    Declaration(CssDeclarationModel),
    QualifiedRule(CssQualifiedRuleModel),
    IfChain(IfChainModel),
    AtRule(CssRawAtRuleModel),
}

pub struct StateDefModel {
    pub name: Seq<char>,
    pub params: Seq<StateParamModel>,
    pub body: Seq<ItemModel>,
    pub span: Span,
}

pub enum RuleModel {
    StateVariant(StateVariantModel),
    StateDef(StateDefModel),
    QualifiedRule(CssQualifiedRuleModel),
    AtRule(CssRawAtRuleModel),
}

pub enum ConditionModel {
    Var(Seq<char>),
    Comparison(Seq<char>, Seq<char>, ConditionValueModel),
    And(Box<ConditionModel>, Box<ConditionModel>),
    Or(Box<ConditionModel>, Box<ConditionModel>),
}

pub struct ConditionValueModel {
    pub kind: Seq<char>,
    pub value: Seq<char>,
}

pub open spec fn strings_model(s: Seq<String>) -> Seq<Seq<char>> {
    s.map_values(|x: String| x@)
}

pub open spec fn opt_string_model(o: Option<String>) -> Option<Seq<char>> {
    match o {
        Some(s) => Some(s@),
        None => None,
    }
}

pub open spec fn condition_model(c: ConditionExpr) -> ConditionModel
    decreases c,
{
    match c {
        ConditionExpr::Var { var } => ConditionModel::Var(var@),
        ConditionExpr::Comparison { left, op, right } => ConditionModel::Comparison(
            left@,
            op@,
            right@,
        ),
        ConditionExpr::And { left, right } => ConditionModel::And(
            Box::new(condition_model(*left)),
            Box::new(condition_model(*right)),
        ),
        ConditionExpr::Or { left, right } => ConditionModel::Or(
            Box::new(condition_model(*left)),
            Box::new(condition_model(*right)),
        ),
    }
}

pub open spec fn item_model(x: StateDefItem) -> ItemModel
    decreases x,
{
    if let Some(d) = x.declaration {
        ItemModel::Declaration(d@)
    } else if let Some(q) = x.qualified_rule {
        ItemModel::QualifiedRule(qualified_model(q))
    } else if let Some(c) = x.if_chain {
        ItemModel::IfChain(chain_model(c))
    } else if let Some(a) = x.at_rule {
        ItemModel::AtRule(a@)
    } else {
        ItemModel::Declaration(
            CssDeclarationModel {
                property: seq![],
                value: seq![],
                important: false,
                span: Span { line: 0, column: 0, end_line: 0, end_column: 0 },
            },
        )
    }
}

pub open spec fn items_model(s: Seq<StateDefItem>) -> Seq<ItemModel>
    decreases s,
{
    if s.len() == 0 {
        seq![]
    } else {
        items_model(s.drop_last()).push(item_model(s.last()))
    }
}

pub open spec fn qualified_model(q: CssQualifiedRule) -> CssQualifiedRuleModel
    decreases q,
{
    CssQualifiedRuleModel { selector: q.selector@, body: items_model(q.body@), span: q.span }
}

pub open spec fn clause_model(c: IfClause) -> IfClauseModel
    decreases c,
{
    IfClauseModel {
        condition: condition_model(c.condition),
        body: items_model(c.body@),
        span: c.span,
    }
}

pub open spec fn clauses_model(s: Seq<IfClause>) -> Seq<IfClauseModel>
    decreases s,
{
    if s.len() == 0 {
        seq![]
    } else {
        clauses_model(s.drop_last()).push(clause_model(s.last()))
    }
}

pub open spec fn chain_model(c: IfChain) -> IfChainModel
    decreases c,
{
    IfChainModel {
        if_clause: clause_model(c.if_clause),
        else_if_clauses: clauses_model(c.else_if_clauses@),
        else_body: match c.else_body {
            Some(b) => Some(items_model(b@)),
            None => None,
        },
        span: c.span,
    }
}

pub open spec fn rule_model(r: EcssRule) -> RuleModel {
    if let Some(v) = r.state_variant {
        RuleModel::StateVariant(v@)
    } else if let Some(d) = r.state_def {
        RuleModel::StateDef(d@)
    } else if let Some(q) = r.qualified_rule {
        RuleModel::QualifiedRule(qualified_model(q))
    } else if let Some(a) = r.at_rule {
        RuleModel::AtRule(a@)
    } else {
        RuleModel::QualifiedRule(
            CssQualifiedRuleModel {
                selector: seq![],
                body: seq![],
                span: Span { line: 0, column: 0, end_line: 0, end_column: 0 },
            },
        )
    }
}

pub open spec fn rules_model(s: Seq<EcssRule>) -> Seq<RuleModel> {
    s.map_values(|r: EcssRule| rule_model(r))
}

impl View for StateVariant {
    type V = StateVariantModel;

    open spec fn view(&self) -> StateVariantModel {
        StateVariantModel { name: self.name@, values: strings_model(self.values@), span: self.span }
    }
}

impl View for StateParam {
    type V = StateParamModel;

    open spec fn view(&self) -> StateParamModel {
        StateParamModel {
            name: self.name@,
            param_type: self.param_type@,
            variant_name: opt_string_model(self.variant_name),
            default_value: opt_string_model(self.default_value),
        }
    }
}

pub open spec fn params_model(s: Seq<StateParam>) -> Seq<StateParamModel> {
    s.map_values(|p: StateParam| p@)
}

impl View for CssDeclaration {
    type V = CssDeclarationModel;

    open spec fn view(&self) -> CssDeclarationModel {
        CssDeclarationModel {
            property: self.property@,
            value: self.value@,
            important: self.important,
            span: self.span,
        }
    }
}

impl View for CssRawAtRule {
    type V = CssRawAtRuleModel;

    open spec fn view(&self) -> CssRawAtRuleModel {
        CssRawAtRuleModel {
            name: self.name@,
            prelude: self.prelude@,
            block: opt_string_model(self.block),
            span: self.span,
        }
    }
}

impl View for CssQualifiedRule {
    type V = CssQualifiedRuleModel;

    open spec fn view(&self) -> CssQualifiedRuleModel {
        qualified_model(*self)
    }
}

impl View for IfClause {
    type V = IfClauseModel;

    open spec fn view(&self) -> IfClauseModel {
        clause_model(*self)
    }
}

impl View for IfChain {
    type V = IfChainModel;

    open spec fn view(&self) -> IfChainModel {
        chain_model(*self)
    }
}

impl View for StateDefItem {
    type V = ItemModel;

    open spec fn view(&self) -> ItemModel {
        item_model(*self)
    }
}

impl View for StateDef {
    type V = StateDefModel;

    open spec fn view(&self) -> StateDefModel {
        StateDefModel {
            name: self.name@,
            params: params_model(self.params@),
            body: items_model(self.body@),
            span: self.span,
        }
    }
}

impl View for EcssRule {
    type V = RuleModel;

    open spec fn view(&self) -> RuleModel {
        rule_model(*self)
    }
}

impl View for EcssStylesheet {
    type V = Seq<RuleModel>;

    open spec fn view(&self) -> Seq<RuleModel> {
        rules_model(self.rules@)
    }
}

impl View for ConditionExpr {
    type V = ConditionModel;

    open spec fn view(&self) -> ConditionModel {
        condition_model(*self)
    }
}

impl View for ConditionValue {
    type V = ConditionValueModel;

    open spec fn view(&self) -> ConditionValueModel {
        ConditionValueModel { kind: self.kind@, value: self.value@ }
    }
}

// ---------------------------------------------------------------------------
// Well-formedness: each tagged union names the one field it populates
// ---------------------------------------------------------------------------

pub open spec fn item_wf(x: StateDefItem) -> bool
    decreases x,
{
    &&& ({
        ||| x.kind@ == "declaration"@ && x.declaration is Some && x.qualified_rule is None
            && x.if_chain is None && x.at_rule is None
        ||| x.kind@ == "qualified-rule"@ && x.declaration is None && x.qualified_rule is Some
            && x.if_chain is None && x.at_rule is None
        ||| x.kind@ == "if-chain"@ && x.declaration is None && x.qualified_rule is None
            && x.if_chain is Some && x.at_rule is None
        ||| x.kind@ == "at-rule"@ && x.declaration is None && x.qualified_rule is None
            && x.if_chain is None && x.at_rule is Some
    })
    &&& match x.qualified_rule {
        Some(q) => qualified_wf(q),
        None => true,
    }
    &&& match x.if_chain {
        Some(c) => chain_wf(c),
        None => true,
    }
}

pub open spec fn items_wf(s: Seq<StateDefItem>) -> bool
    decreases s,
{
    if s.len() == 0 {
        true
    } else {
        items_wf(s.drop_last()) && item_wf(s.last())
    }
}

pub open spec fn qualified_wf(q: CssQualifiedRule) -> bool
    decreases q,
{
    items_wf(q.body@)
}

pub open spec fn clause_wf(c: IfClause) -> bool
    decreases c,
{
    items_wf(c.body@)
}

pub open spec fn clauses_wf(s: Seq<IfClause>) -> bool
    decreases s,
{
    if s.len() == 0 {
        true
    } else {
        clauses_wf(s.drop_last()) && clause_wf(s.last())
    }
}

pub open spec fn chain_wf(c: IfChain) -> bool
    decreases c,
{
    &&& clause_wf(c.if_clause)
    &&& clauses_wf(c.else_if_clauses@)
    &&& match c.else_body {
        Some(b) => items_wf(b@),
        None => true,
    }
}

pub open spec fn rule_wf(r: EcssRule) -> bool {
    &&& ({
        ||| r.kind@ == "state-variant"@ && r.state_variant is Some && r.state_def is None
            && r.qualified_rule is None && r.at_rule is None
        ||| r.kind@ == "state-def"@ && r.state_variant is None && r.state_def is Some
            && r.qualified_rule is None && r.at_rule is None
        ||| r.kind@ == "qualified-rule"@ && r.state_variant is None && r.state_def is None
            && r.qualified_rule is Some && r.at_rule is None
        ||| r.kind@ == "at-rule"@ && r.state_variant is None && r.state_def is None
            && r.qualified_rule is None && r.at_rule is Some
    })
    &&& match r.state_def {
        Some(d) => items_wf(d.body@),
        None => true,
    }
    &&& match r.qualified_rule {
        Some(q) => qualified_wf(q),
        None => true,
    }
}

pub open spec fn stylesheet_wf(s: EcssStylesheet) -> bool {
    forall|i: int| 0 <= i < s.rules@.len() ==> rule_wf(#[trigger] s.rules@[i])
}

pub proof fn lemma_items_push(s: Seq<StateDefItem>, x: StateDefItem)
    ensures
        items_model(s.push(x)) == items_model(s).push(item_model(x)),
        items_wf(s.push(x)) == (items_wf(s) && item_wf(x)),
{
    assert(s.push(x).drop_last() =~= s);
}

pub proof fn lemma_clauses_push(s: Seq<IfClause>, x: IfClause)
    ensures
        clauses_model(s.push(x)) == clauses_model(s).push(clause_model(x)),
        clauses_wf(s.push(x)) == (clauses_wf(s) && clause_wf(x)),
{
    assert(s.push(x).drop_last() =~= s);
}

// ---------------------------------------------------------------------------
// Constructors
// ---------------------------------------------------------------------------

impl EcssRule {
    pub fn variant(v: StateVariant) -> (r: Self)
        ensures
            rule_wf(r),
            r.kind@ == "state-variant"@,
            r@ == RuleModel::StateVariant(v@),
            r.state_variant == Some(v),
            r.state_def is None,
            r.qualified_rule is None,
            r.at_rule is None,
    {
        Self {
            kind: String::from_str("state-variant"),
            state_variant: Some(v),
            state_def: None,
            qualified_rule: None,
            at_rule: None,
        }
    }

    pub fn state_def(d: StateDef) -> (r: Self)
        ensures
            rule_wf(r) == items_wf(d.body@),
            r.kind@ == "state-def"@,
            r@ == RuleModel::StateDef(d@),
            r.state_variant is None,
            r.state_def == Some(d),
            r.qualified_rule is None,
            r.at_rule is None,
    {
        Self {
            kind: String::from_str("state-def"),
            state_variant: None,
            state_def: Some(d),
            qualified_rule: None,
            at_rule: None,
        }
    }

    pub fn qualified(q: CssQualifiedRule) -> (r: Self)
        ensures
            rule_wf(r) == qualified_wf(q),
            r.kind@ == "qualified-rule"@,
            r@ == RuleModel::QualifiedRule(q@),
            r.state_variant is None,
            r.state_def is None,
            r.qualified_rule == Some(q),
            r.at_rule is None,
    {
        Self {
            kind: String::from_str("qualified-rule"),
            state_variant: None,
            state_def: None,
            qualified_rule: Some(q),
            at_rule: None,
        }
    }

    pub fn at_rule(a: CssRawAtRule) -> (r: Self)
        ensures
            rule_wf(r),
            r.kind@ == "at-rule"@,
            r@ == RuleModel::AtRule(a@),
            r.state_variant is None,
            r.state_def is None,
            r.qualified_rule is None,
            r.at_rule == Some(a),
    {
        Self {
            kind: String::from_str("at-rule"),
            state_variant: None,
            state_def: None,
            qualified_rule: None,
            at_rule: Some(a),
        }
    }
}

impl StateDefItem {
    pub fn declaration(d: CssDeclaration) -> (r: Self)
        ensures
            item_wf(r),
            r.kind@ == "declaration"@,
            r@ == ItemModel::Declaration(d@),
            r.declaration == Some(d),
            r.qualified_rule is None,
            r.if_chain is None,
            r.at_rule is None,
    {
        Self {
            kind: String::from_str("declaration"),
            declaration: Some(d),
            qualified_rule: None,
            if_chain: None,
            at_rule: None,
        }
    }

    pub fn qualified(q: CssQualifiedRule) -> (r: Self)
        ensures
            item_wf(r) == qualified_wf(q),
            r.kind@ == "qualified-rule"@,
            r@ == ItemModel::QualifiedRule(q@),
            r.declaration is None,
            r.qualified_rule == Some(q),
            r.if_chain is None,
            r.at_rule is None,
    {
        Self {
            kind: String::from_str("qualified-rule"),
            declaration: None,
            qualified_rule: Some(q),
            if_chain: None,
            at_rule: None,
        }
    }

    pub fn if_chain(c: IfChain) -> (r: Self)
        ensures
            item_wf(r) == chain_wf(c),
            r.kind@ == "if-chain"@,
            r@ == ItemModel::IfChain(c@),
            r.declaration is None,
            r.qualified_rule is None,
            r.if_chain == Some(c),
            r.at_rule is None,
    {
        Self {
            kind: String::from_str("if-chain"),
            declaration: None,
            qualified_rule: None,
            if_chain: Some(c),
            at_rule: None,
        }
    }

    pub fn at_rule(a: CssRawAtRule) -> (r: Self)
        ensures
            item_wf(r),
            r.kind@ == "at-rule"@,
            r@ == ItemModel::AtRule(a@),
            r.declaration is None,
            r.qualified_rule is None,
            r.if_chain is None,
            r.at_rule == Some(a),
    {
        Self {
            kind: String::from_str("at-rule"),
            declaration: None,
            qualified_rule: None,
            if_chain: None,
            at_rule: Some(a),
        }
    }
}

impl ConditionExpr {
    pub fn var(name: String) -> (r: Self)
        ensures
            r@ == ConditionModel::Var(name@),
    {
        Self::Var { var: name }
    }

    pub fn comparison(left: String, op: String, right: ConditionValue) -> (r: Self)
        ensures
            r@ == ConditionModel::Comparison(left@, op@, right@),
    {
        Self::Comparison { left, op, right }
    }

    pub fn and(left: ConditionExpr, right: ConditionExpr) -> (r: Self)
        ensures
            r@ == ConditionModel::And(Box::new(left@), Box::new(right@)),
    {
        Self::And { left: Box::new(left), right: Box::new(right) }
    }

    pub fn or(left: ConditionExpr, right: ConditionExpr) -> (r: Self)
        ensures
            r@ == ConditionModel::Or(Box::new(left@), Box::new(right@)),
    {
        Self::Or { left: Box::new(left), right: Box::new(right) }
    }
}

/// The text `true` or `false`.
pub open spec fn bool_text(b: bool) -> Seq<char> {
    if b {
        "true"@
    } else {
        "false"@
    }
}

impl ConditionValue {
    pub fn string(s: String) -> (r: Self)
        ensures
            r@ == (ConditionValueModel { kind: "string"@, value: s@ }),
    {
        Self { kind: String::from_str("string"), value: s }
    }

    pub fn boolean(b: bool) -> (r: Self)
        ensures
            r@ == (ConditionValueModel { kind: "boolean"@, value: bool_text(b) }),
    {
        Self {
            kind: String::from_str("boolean"),
            value: if b {
                String::from_str("true")
            } else {
                String::from_str("false")
            },
        }
    }

    pub fn ident(s: String) -> (r: Self)
        ensures
            r@ == (ConditionValueModel { kind: "ident"@, value: s@ }),
    {
        Self { kind: String::from_str("ident"), value: s }
    }
}

} // verus!
