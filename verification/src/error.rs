//! The error generator: an empty implementation of the standard error
//! trait for a struct or an enum.

use crate::declaration::{impl_header, write_impl_header, Declaration, DeclarationView};
use crate::diagnostic::{Error, ErrorView};
use vstd::prelude::*;
use vstd::string::*;

verus! {

/// The trait that the generated block implements, with `for` after it.
pub open spec fn subject() -> Seq<char> {
    "::core::error::Error for "@
}

/// What the generator gives for `declaration`: the implementation block
/// for a struct or an enum, the failure for anything else.
pub open spec fn expansion(declaration: DeclarationView) -> Result<Seq<char>, ErrorView> {
    match declaration {
        DeclarationView::Struct(item) => Ok(impl_header(item.generics, subject(), item.name) + "}"@),
        DeclarationView::Enum(item) => Ok(impl_header(item.generics, subject(), item.name) + "}"@),
        DeclarationView::Other => Err(ErrorView::UnsupportedItem),
    }
}

/// The error generator.
pub struct Macro;

impl Macro {
    /// Generates the error implementation of `declaration`.
    pub fn handle(declaration: &Declaration) -> (r: Result<String, Error>)
        ensures
            match r {
                Ok(s) => expansion(declaration@) == Ok::<Seq<char>, ErrorView>(s@),
                Err(e) => expansion(declaration@) == Err::<Seq<char>, ErrorView>(e@),
            },
    {
        let mut s = String::new();
        match declaration {
            Declaration::Struct(item) => {
                write_impl_header(
                    &mut s,
                    &item.generics,
                    "::core::error::Error for ",
                    item.name.as_str(),
                );
            },
            Declaration::Enum(item) => {
                write_impl_header(
                    &mut s,
                    &item.generics,
                    "::core::error::Error for ",
                    item.name.as_str(),
                );
            },
            Declaration::Other => {
                return Err(Error::UnsupportedItem);
            },
        }
        s.append("}");
        assert(s@ =~= expansion(declaration@)->Ok_0);
        Ok(s)
    }
}

} // verus!
