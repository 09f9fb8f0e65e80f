//! The generators under one roof: which there are, and what each gives
//! for a declaration.

use crate::declaration::{Declaration, DeclarationView};
use crate::diagnostic::{Error, ErrorView};
use crate::projection::Projection;
use vstd::prelude::*;

verus! {

/// The generators of this crate.
#[derive(Clone, Copy, Debug, PartialEq, Eq, Structural)]
pub enum Generator {
    Constructor,
    Display,
    Error,
    From,
    Inner,
    Method,
    Record,
}

/// Whether `generator` can give `outcome` for `declaration`: the generated
/// source text, or the failure with which it gives up. The constructor
/// and the display generator ask the parser and can give what its answers
/// allow; what every other generator gives is fixed by the declaration.
pub open spec fn may_generate(
    generator: Generator,
    declaration: DeclarationView,
    outcome: Result<Seq<char>, ErrorView>,
) -> bool {
    match generator {
        Generator::Constructor => crate::constructor::may_expand(declaration, outcome),
        Generator::Display => crate::display::may_expand(declaration, outcome),
        Generator::Error => outcome == crate::error::expansion(declaration),
        Generator::From => outcome == crate::from::expansion(declaration),
        Generator::Inner => outcome == crate::projection::expansion(
            Projection::Inner,
            declaration,
        ),
        Generator::Method => outcome == crate::method::expansion(declaration),
        Generator::Record => outcome == crate::projection::expansion(
            Projection::Record,
            declaration,
        ),
    }
}

/// Runs `generator` on `declaration`.
pub fn generate(generator: Generator, declaration: &Declaration) -> (r: Result<String, Error>)
    ensures
        match r {
            Ok(s) => may_generate(generator, declaration@, Ok(s@)),
            Err(e) => may_generate(generator, declaration@, Err(e@)),
        },
{
    match generator {
        Generator::Constructor => crate::constructor::Macro::handle(declaration),
        Generator::Display => crate::display::Macro::handle(declaration),
        Generator::Error => crate::error::Macro::handle(declaration),
        Generator::From => crate::from::Macro::handle(declaration),
        Generator::Inner => crate::inner::Macro::handle(declaration),
        Generator::Method => crate::method::Macro::handle(declaration),
        Generator::Record => crate::record::Macro::handle(declaration),
    }
}

/// A second run repeats the first. What the error, conversion, method and
/// projection generators give is a function of the declaration's content
/// and of nothing else. The constructor generator asks the parser about a
/// visibility value, and whenever it succeeds it gives the same text. The
/// display generator's text is fixed by the declaration and by the form
/// that the parser finds each strategy to have.
pub proof fn lemma_generation_repeats(
    generator: Generator,
    declaration: DeclarationView,
    first: Result<Seq<char>, ErrorView>,
    second: Result<Seq<char>, ErrorView>,
)
    requires
        may_generate(generator, declaration, first),
        may_generate(generator, declaration, second),
    ensures
        generator != Generator::Constructor && generator != Generator::Display ==> first
            == second,
        generator == Generator::Constructor && first is Ok && second is Ok ==> first == second,
{
}

/// Whether `generator` takes items of the kind of `declaration`: every
/// generator takes structs; the display, error and conversion generators
/// take enums too; none takes anything else.
pub open spec fn accepts(generator: Generator, declaration: DeclarationView) -> bool {
    match declaration {
        DeclarationView::Struct(_) => true,
        DeclarationView::Enum(_) => generator == Generator::Display || generator
            == Generator::Error || generator == Generator::From,
        DeclarationView::Other => false,
    }
}

/// Which failures a generator can have. An item is unsupported exactly
/// when the generator does not take its kind, and then nothing else is
/// looked at. Only the display generator fails on a strategy, and it fails
/// on nothing else; only the projections fail on a flattened field; the
/// error generator fails on nothing but the item's kind.
pub proof fn lemma_failure_kinds(
    generator: Generator,
    declaration: DeclarationView,
    outcome: Result<Seq<char>, ErrorView>,
)
    requires
        may_generate(generator, declaration, outcome),
    ensures
        !accepts(generator, declaration) ==> outcome == Err::<Seq<char>, ErrorView>(
            ErrorView::UnsupportedItem,
        ),
        outcome matches Err(e) ==> {
            &&& e is UnsupportedItem ==> !accepts(generator, declaration)
            &&& e is UnsupportedStrategy ==> generator == Generator::Display
            &&& e is InvalidFlattenTarget ==> generator == Generator::Inner || generator
                == Generator::Record
            &&& crate::attribute::attribute_failure(e) ==> generator != Generator::Display
                && generator != Generator::Error
        },
{
    match declaration {
        DeclarationView::Struct(item) => {
            crate::constructor::lemma_read_failures(item);
            crate::method::lemma_read_failures(item);
            crate::projection::lemma_failures(Projection::Inner, item);
            crate::projection::lemma_failures(Projection::Record, item);
            if generator == Generator::Display {
                if let Err(e) = outcome {
                    crate::display::lemma_strategy_failures(item.attributes, 0, e);
                }
            }
        },
        DeclarationView::Enum(item) => {
            crate::from::lemma_read_failures(item);
            if generator == Generator::Display {
                if let Err(e) = outcome {
                    crate::display::lemma_read_failures(item, e);
                }
            }
        },
        DeclarationView::Other => {},
    }
}

} // verus!
