//! The inner generator: the sibling `…Inner` and the method
//! `into_inner`.

use crate::declaration::Declaration;
use crate::diagnostic::{Error, ErrorView};
use crate::projection::{expansion, generate, Projection};
use vstd::prelude::*;

verus! {

/// The inner generator.
pub struct Macro;

impl Macro {
    /// Generates the inner projection of `declaration`.
    pub fn handle(declaration: &Declaration) -> (r: Result<String, Error>)
        ensures
            match r {
                Ok(s) => expansion(Projection::Inner, declaration@) == Ok::<
                    Seq<char>,
                    ErrorView,
                >(s@),
                Err(e) => expansion(Projection::Inner, declaration@) == Err::<
                    Seq<char>,
                    ErrorView,
                >(e@),
            },
    {
        generate(Projection::Inner, declaration)
    }
}

} // verus!
