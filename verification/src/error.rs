//! Diagnostics of the widget parser.

use crate::token::Span;
use vstd::prelude::*;

verus! {

/// What went wrong.
#[derive(Clone, Copy, Debug, PartialEq, Eq, Structural)]
pub enum ErrorKind {
    /// An identifier was required.
    ExpectedIdent,
    /// A `=>` was required.
    ExpectedFatArrow,
    /// A `#` followed by a bracketed attribute was required.
    ExpectedAttribute,
    /// A group in curly braces was required.
    ExpectedBraces,
    /// A group in parentheses was required.
    ExpectedParentheses,
    /// An `if` or an `else` was required.
    ExpectedBranch,
    /// A token stands where the item should have ended.
    UnexpectedToken,
    /// An attribute that the parser does not know.
    UnknownAttribute,
    /// A widget marked `local` or `local_ref` was given a new name with `=`.
    RenamedLocal,
    /// The widget's name was given in more than one way.
    NameSpecifiedTwice,
    /// An attribute that may stand once was repeated, or stands beside one
    /// that excludes it.
    AttributeTwice,
    /// An attribute that a widget cannot have.
    InvalidWidgetAttribute,
    /// An attribute that an assignment cannot have.
    InvalidPropertyAttribute,
    /// The arguments of a constructor stand where a property is named.
    UnexpectedArguments,
    /// A widget marked `local` or `local_ref` names something other than one
    /// identifier.
    ExpectedLocalIdent,
}

/// A diagnostic: what went wrong, and where in the source text.
#[derive(Clone, Copy, Debug, PartialEq, Eq, Structural)]
pub struct Error {
    pub kind: ErrorKind,
    pub span: Span,
}

impl Error {
    /// A diagnostic of kind `kind` at `span`.
    pub fn new(span: Span, kind: ErrorKind) -> (e: Error)
        ensures
            e == (Error { kind, span }),
    {
        Error { kind, span }
    }

    /// The text of a diagnostic of kind `kind`.
    pub open spec fn spec_message(kind: ErrorKind) -> Seq<char> {
        match kind {
            ErrorKind::ExpectedIdent => "expected identifier"@,
            ErrorKind::ExpectedFatArrow => "expected `=>`"@,
            ErrorKind::ExpectedAttribute => "expected `#[...]`"@,
            ErrorKind::ExpectedBraces => "expected curly braces"@,
            ErrorKind::ExpectedParentheses => "expected parentheses"@,
            ErrorKind::ExpectedBranch => "expected `if` or `else`"@,
            ErrorKind::UnexpectedToken => "unexpected token"@,
            ErrorKind::UnknownAttribute => "Expected `local`, `local_ref`, `root`, `name`, `watch`, `track` or `doc`."@,
            ErrorKind::RenamedLocal => "When using the `local` or `local_ref` attributes you cannot rename the existing local variable."@,
            ErrorKind::NameSpecifiedTwice => "Widget name is specified more than once (attribute, assignment or local attribute)."@,
            ErrorKind::AttributeTwice => "Cannot use the same attribute twice."@,
            ErrorKind::InvalidWidgetAttribute => "Widgets can only have docs and `local`, `local_ref` or `root` as attribute."@,
            ErrorKind::InvalidPropertyAttribute => "Properties can only have `watch` or `track` as attribute."@,
            ErrorKind::UnexpectedArguments => "A property name cannot have arguments."@,
            ErrorKind::ExpectedLocalIdent => "Expected identifier due to the `local` or `local_ref` attribute."@,
        }
    }

    /// The text of this diagnostic.
    pub fn message(&self) -> (m: String)
        ensures
            m@ == Self::spec_message(self.kind),
    {
        let text = match self.kind {
            ErrorKind::ExpectedIdent => "expected identifier",
            ErrorKind::ExpectedFatArrow => "expected `=>`",
            ErrorKind::ExpectedAttribute => "expected `#[...]`",
            ErrorKind::ExpectedBraces => "expected curly braces",
            ErrorKind::ExpectedParentheses => "expected parentheses",
            ErrorKind::ExpectedBranch => "expected `if` or `else`",
            ErrorKind::UnexpectedToken => "unexpected token",
            ErrorKind::UnknownAttribute => "Expected `local`, `local_ref`, `root`, `name`, `watch`, `track` or `doc`.",
            ErrorKind::RenamedLocal => "When using the `local` or `local_ref` attributes you cannot rename the existing local variable.",
            ErrorKind::NameSpecifiedTwice => "Widget name is specified more than once (attribute, assignment or local attribute).",
            ErrorKind::AttributeTwice => "Cannot use the same attribute twice.",
            ErrorKind::InvalidWidgetAttribute => "Widgets can only have docs and `local`, `local_ref` or `root` as attribute.",
            ErrorKind::InvalidPropertyAttribute => "Properties can only have `watch` or `track` as attribute.",
            ErrorKind::UnexpectedArguments => "A property name cannot have arguments.",
            ErrorKind::ExpectedLocalIdent => "Expected identifier due to the `local` or `local_ref` attribute.",
        };
        String::from_str(text)
    }
}

} // verus!
