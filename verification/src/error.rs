//! Parse error types for ECSS.

use vstd::prelude::*;

use crate::text::decimal;
use crate::text::push_char;
use crate::text::push_decimal;
use crate::text::push_str;
use crate::token::SourceLocation;

verus! {

/// A parse error with source location.
#[derive(Debug, Clone)]
pub struct ParseError {
    pub message: String,
    pub line: u32,
    pub column: u32,
}

/// The text of a parse error as it is shown to users: `[line:column] message`.
pub open spec fn parse_error_text(message: Seq<char>, line: u32, column: u32) -> Seq<char> {
    seq!['['] + decimal(line as nat) + seq![':'] + decimal(column as nat) + seq![']', ' ']
        + message
}

impl ParseError {
    pub fn new(message: String, line: u32, column: u32) -> (r: Self)
        ensures
            r.message@ == message@,
            r.line == line,
            r.column == column,
    {
        ParseError { message, line, column }
    }

    /// `[line:column] message`.
    pub fn to_display_string(&self) -> (r: String)
        ensures
            r@ == parse_error_text(self.message@, self.line, self.column),
    {
        let mut out = String::new();
        push_char(&mut out, '[');
        push_decimal(&mut out, self.line);
        push_char(&mut out, ':');
        push_decimal(&mut out, self.column);
        push_char(&mut out, ']');
        push_char(&mut out, ' ');
        push_str(&mut out, self.message.as_str());
        assert(out@ =~= parse_error_text(self.message@, self.line, self.column));
        out
    }
}

/// The errors that the ECSS grammar itself reports.
#[derive(Debug, Clone)]
pub enum EcssError {
    UnexpectedToken(String),
    ExpectedIdent,
    ExpectedBlock,
    ExpectedValues,
    InvalidArgument(String),
    InvalidCondition(String),
    UnexpectedElse,
    Custom(String),
}

pub enum EcssErrorModel {
    UnexpectedToken(Seq<char>),
    ExpectedIdent,
    ExpectedBlock,
    ExpectedValues,
    InvalidArgument(Seq<char>),
    InvalidCondition(Seq<char>),
    UnexpectedElse,
    Custom(Seq<char>),
}

impl View for EcssError {
    type V = EcssErrorModel;

    open spec fn view(&self) -> EcssErrorModel {
        match self {
            EcssError::UnexpectedToken(s) => EcssErrorModel::UnexpectedToken(s@),
            EcssError::ExpectedIdent => EcssErrorModel::ExpectedIdent,
            EcssError::ExpectedBlock => EcssErrorModel::ExpectedBlock,
            EcssError::ExpectedValues => EcssErrorModel::ExpectedValues,
            EcssError::InvalidArgument(s) => EcssErrorModel::InvalidArgument(s@),
            EcssError::InvalidCondition(s) => EcssErrorModel::InvalidCondition(s@),
            EcssError::UnexpectedElse => EcssErrorModel::UnexpectedElse,
            EcssError::Custom(s) => EcssErrorModel::Custom(s@),
        }
    }
}

/// The message of each ECSS error.
pub open spec fn ecss_error_message(e: EcssErrorModel) -> Seq<char> {
    match e {
        EcssErrorModel::UnexpectedToken(t) => "Unexpected token: "@ + t,
        EcssErrorModel::ExpectedIdent => "Expected identifier"@,
        EcssErrorModel::ExpectedBlock => "Expected '{' block"@,
        EcssErrorModel::ExpectedValues => "Expected 'values:' inside @state-variant"@,
        EcssErrorModel::InvalidArgument(s) => "Invalid argument: "@ + s,
        EcssErrorModel::InvalidCondition(s) => "Invalid condition: "@ + s,
        EcssErrorModel::UnexpectedElse => "@else without preceding @if"@,
        EcssErrorModel::Custom(s) => s,
    }
}

impl EcssError {
    /// The message of this error (what the error displays as).
    pub fn message(&self) -> (r: String)
        ensures
            r@ == ecss_error_message(self@),
    {
        match self {
            EcssError::UnexpectedToken(t) => {
                let mut out = String::from_str("Unexpected token: ");
                push_str(&mut out, t.as_str());
                out
            },
            EcssError::ExpectedIdent => String::from_str("Expected identifier"),
            EcssError::ExpectedBlock => String::from_str("Expected '{' block"),
            EcssError::ExpectedValues => String::from_str(
                "Expected 'values:' inside @state-variant",
            ),
            EcssError::InvalidArgument(s) => {
                let mut out = String::from_str("Invalid argument: ");
                push_str(&mut out, s.as_str());
                out
            },
            EcssError::InvalidCondition(s) => {
                let mut out = String::from_str("Invalid condition: ");
                push_str(&mut out, s.as_str());
                out
            },
            EcssError::UnexpectedElse => String::from_str("@else without preceding @if"),
            EcssError::Custom(s) => s.clone(),
        }
    }
}

/// What went wrong at a point of the parse: the failures that the CSS rule
/// machinery reports, or an ECSS error.
#[derive(Debug, Clone)]
pub enum ErrorKind {
    /// A token that does not fit; it carries the tokenizer's description of it.
    UnexpectedToken(String),
    EndOfInput,
    AtRuleInvalid(String),
    AtRuleBodyInvalid,
    QualifiedRuleInvalid,
    Custom(EcssError),
}

pub enum ErrorKindModel {
    UnexpectedToken(Seq<char>),
    EndOfInput,
    AtRuleInvalid(Seq<char>),
    AtRuleBodyInvalid,
    QualifiedRuleInvalid,
    Custom(EcssErrorModel),
}

impl View for ErrorKind {
    type V = ErrorKindModel;

    open spec fn view(&self) -> ErrorKindModel {
        match self {
            ErrorKind::UnexpectedToken(t) => ErrorKindModel::UnexpectedToken(t@),
            ErrorKind::EndOfInput => ErrorKindModel::EndOfInput,
            ErrorKind::AtRuleInvalid(n) => ErrorKindModel::AtRuleInvalid(n@),
            ErrorKind::AtRuleBodyInvalid => ErrorKindModel::AtRuleBodyInvalid,
            ErrorKind::QualifiedRuleInvalid => ErrorKindModel::QualifiedRuleInvalid,
            ErrorKind::Custom(e) => ErrorKindModel::Custom(e@),
        }
    }
}

/// An error together with the location where it was found.
#[derive(Debug, Clone)]
pub struct LocatedError {
    pub kind: ErrorKind,
    pub loc: SourceLocation,
}

pub struct LocatedErrorModel {
    pub kind: ErrorKindModel,
    pub loc: SourceLocation,
}

impl View for LocatedError {
    type V = LocatedErrorModel;

    open spec fn view(&self) -> LocatedErrorModel {
        LocatedErrorModel { kind: self.kind@, loc: self.loc }
    }
}

pub open spec fn located(kind: ErrorKindModel, loc: SourceLocation) -> LocatedErrorModel {
    LocatedErrorModel { kind, loc }
}

/// The message of a parse error.
pub open spec fn error_message(k: ErrorKindModel) -> Seq<char> {
    match k {
        ErrorKindModel::UnexpectedToken(t) => "Unexpected token: "@ + t,
        ErrorKindModel::EndOfInput => "Unexpected end of input"@,
        ErrorKindModel::AtRuleBodyInvalid => "Invalid at-rule body"@,
        ErrorKindModel::AtRuleInvalid(n) => "Unknown at-rule: @"@ + n,
        ErrorKindModel::QualifiedRuleInvalid => "Invalid qualified rule"@,
        ErrorKindModel::Custom(e) => ecss_error_message(e),
    }
}

pub fn format_error(kind: &ErrorKind) -> (r: String)
    ensures
        r@ == error_message(kind@),
{
    match kind {
        ErrorKind::UnexpectedToken(t) => {
            let mut out = String::from_str("Unexpected token: ");
            push_str(&mut out, t.as_str());
            out
        },
        ErrorKind::EndOfInput => String::from_str("Unexpected end of input"),
        ErrorKind::AtRuleBodyInvalid => String::from_str("Invalid at-rule body"),
        ErrorKind::AtRuleInvalid(n) => {
            let mut out = String::from_str("Unknown at-rule: @");
            push_str(&mut out, n.as_str());
            out
        },
        ErrorKind::QualifiedRuleInvalid => String::from_str("Invalid qualified rule"),
        ErrorKind::Custom(e) => e.message(),
    }
}

/// The `ParseError` reported for an error found during the parse.
pub open spec fn reported(e: LocatedErrorModel) -> (Seq<char>, u32, u32) {
    (error_message(e.kind), e.loc.line, e.loc.column)
}

pub fn to_parse_error(e: &LocatedError) -> (r: ParseError)
    ensures
        (r.message@, r.line, r.column) == reported(e@),
{
    ParseError::new(format_error(&e.kind), e.loc.line, e.loc.column)
}

} // verus!
