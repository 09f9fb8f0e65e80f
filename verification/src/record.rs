//! The record generator: the sibling `…Record` and the method
//! `into_record`.

use crate::declaration::Declaration;
use crate::diagnostic::{Error, ErrorView};
use crate::projection::{expansion, generate, Projection};
use vstd::prelude::*;

verus! {

/// The record generator.
pub struct Macro;

impl Macro {
    /// Generates the record projection of `declaration`.
    pub fn handle(declaration: &Declaration) -> (r: Result<String, Error>)
        ensures
            match r {
                Ok(s) => expansion(Projection::Record, declaration@) == Ok::<
                    Seq<char>,
                    ErrorView,
                >(s@),
                Err(e) => expansion(Projection::Record, declaration@) == Err::<
                    Seq<char>,
                    ErrorView,
                >(e@),
            },
    {
        generate(Projection::Record, declaration)
    }
}

} // verus!
