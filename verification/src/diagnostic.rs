//! The diagnostics with which a generator gives up.

use vstd::prelude::*;
use vstd::string::*;

verus! {

/// What is wrong with the arguments of an attribute.
#[derive(Clone, Copy, Debug, PartialEq, Eq, Structural)]
pub enum Malformation {
    /// An entry of the argument list does not begin with an identifier.
    ExpectedIdentifier,
    /// A key that takes a value is not followed by `=`.
    ExpectedEquals,
    /// A key that takes no value is followed by something other than `,`.
    ExpectedComma,
    /// The attribute has no argument list at all.
    ExpectedArguments,
    /// The attribute is written `name = value` where a list is needed.
    ExpectedParentheses,
    /// The value of a visibility key is no visibility specifier.
    UnknownVisibility,
}

/// Why a generator produced nothing.
#[derive(Debug)]
pub enum Error {
    /// The declaration is of a kind the generator does not accept.
    UnsupportedItem,
    /// An attribute names a key that the generator does not know at that
    /// position.
    UnknownAttributeKey,
    /// A key's value is missing or is not of the expected syntactic category.
    MalformedAttributeValue(Malformation),
    /// A field marked for flattening whose type is no named path; holds the
    /// type in the debug form of the parser's syntax tree.
    InvalidFlattenTarget(String),
    /// The argument of a display attribute is none of the known strategies.
    UnsupportedStrategy,
}

/// The mathematical content of an [`Error`].
pub ghost enum ErrorView {
    UnsupportedItem,
    UnknownAttributeKey,
    MalformedAttributeValue(Malformation),
    InvalidFlattenTarget(Seq<char>),
    UnsupportedStrategy,
}

impl View for Error {
    type V = ErrorView;

    open spec fn view(&self) -> ErrorView {
        match self {
            Error::UnsupportedItem => ErrorView::UnsupportedItem,
            Error::UnknownAttributeKey => ErrorView::UnknownAttributeKey,
            Error::MalformedAttributeValue(m) => ErrorView::MalformedAttributeValue(*m),
            Error::InvalidFlattenTarget(ty) => ErrorView::InvalidFlattenTarget(ty@),
            Error::UnsupportedStrategy => ErrorView::UnsupportedStrategy,
        }
    }
}

/// The text of the diagnostic for a malformed attribute.
pub open spec fn malformation_message(m: Malformation) -> Seq<char> {
    match m {
        Malformation::ExpectedIdentifier => "expected identifier"@,
        Malformation::ExpectedEquals => "expected `=`"@,
        Malformation::ExpectedComma => "expected `,`"@,
        Malformation::ExpectedArguments => "expected attribute arguments in parentheses"@,
        Malformation::ExpectedParentheses => "expected parentheses"@,
        Malformation::UnknownVisibility => "Unknown visibility"@,
    }
}

/// The text of the diagnostic for `e`.
pub open spec fn message(e: ErrorView) -> Seq<char> {
    match e {
        ErrorView::UnsupportedItem => "Unsupported item"@,
        ErrorView::UnknownAttributeKey => "Unknown attribute"@,
        ErrorView::MalformedAttributeValue(m) => malformation_message(m),
        ErrorView::InvalidFlattenTarget(ty) => "Cannot flatten "@ + ty,
        ErrorView::UnsupportedStrategy => "Unsupported strategy"@,
    }
}

impl Malformation {
    /// The diagnostic text.
    pub fn message(&self) -> (s: &'static str)
        ensures
            s@ == malformation_message(*self),
    {
        match self {
            Malformation::ExpectedIdentifier => "expected identifier",
            Malformation::ExpectedEquals => "expected `=`",
            Malformation::ExpectedComma => "expected `,`",
            Malformation::ExpectedArguments => "expected attribute arguments in parentheses",
            Malformation::ExpectedParentheses => "expected parentheses",
            Malformation::UnknownVisibility => "Unknown visibility",
        }
    }
}

impl Error {
    /// The diagnostic text, as a caller reports it.
    pub fn message(&self) -> (s: String)
        ensures
            s@ == message(self@),
    {
        match self {
            Error::UnsupportedItem => String::from_str("Unsupported item"),
            Error::UnknownAttributeKey => String::from_str("Unknown attribute"),
            Error::MalformedAttributeValue(m) => String::from_str(m.message()),
            Error::InvalidFlattenTarget(ty) => {
                let mut s = String::from_str("Cannot flatten ");
                s.append(ty.as_str());
                s
            },
            Error::UnsupportedStrategy => String::from_str("Unsupported strategy"),
        }
    }
}

} // verus!
