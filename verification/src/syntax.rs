//! What the Rust parser decides: whether a piece of source text belongs to
//! a syntactic category, and how a generic parameter list is written after
//! `impl` and after a type's name. These are the crate's only calls into
//! `syn`. Nothing is claimed of what the parser answers: which lexer reads
//! the text depends on the process, so verified code takes each answer as
//! it comes and says what follows from it.

use proc_macro2::{Spacing, TokenTree};
use quote::ToTokens;
use vstd::prelude::*;
use vstd::string::*;

verus! {

/// One token as it is spelled, and whether the next token follows it
/// without a space.
#[derive(Debug)]
pub struct Spelled {
    pub text: String,
    pub joint: bool,
}

/// The mathematical content of a [`Spelled`].
pub ghost struct SpelledView {
    pub text: Seq<char>,
    pub joint: bool,
}

impl View for Spelled {
    type V = SpelledView;

    open spec fn view(&self) -> SpelledView {
        SpelledView { text: self.text@, joint: self.joint }
    }
}

impl DeepView for Spelled {
    type V = SpelledView;

    open spec fn deep_view(&self) -> SpelledView {
        self@
    }
}

/// The first `n` tokens written out: each token's spelling, followed by a
/// space unless the token is joint with the next.
pub open spec fn spelled_text(tokens: Seq<SpelledView>, n: int) -> Seq<char>
    decreases n,
{
    if n <= 0 || n > tokens.len() {
        Seq::empty()
    } else {
        spelled_text(tokens, n - 1) + tokens[n - 1].text + (if tokens[n - 1].joint {
            ""@
        } else {
            " "@
        })
    }
}

/// Writes the tokens out.
pub fn spell_out(tokens: &Vec<Spelled>) -> (s: String)
    ensures
        s@ == spelled_text(tokens.deep_view(), tokens.len() as int),
{
    let mut s = String::new();
    let mut i: usize = 0;
    while i < tokens.len()
        invariant
            i <= tokens.len(),
            s@ == spelled_text(tokens.deep_view(), i as int),
        decreases tokens.len() - i,
    {
        let ghost before = s@;
        assert(tokens.deep_view()[i as int] == tokens[i as int]@);
        s.append(tokens[i].text.as_str());
        if !tokens[i].joint {
            s.append(" ");
        }
        i += 1;
        assert(s@ =~= spelled_text(tokens.deep_view(), i as int)) by {
            reveal_strlit("");
            assert(before + tokens[i - 1]@.text + ""@ =~= before + tokens[i - 1]@.text);
        }
    }
    s
}

/// What a piece of source text is when it is read as a visibility.
#[derive(Clone, Copy, Debug, PartialEq, Eq, Structural)]
pub enum VisibilitySyntax {
    /// `pub`
    Public,
    /// `pub(crate)`, `pub(self)`, `pub(super)` or `pub(in path)`
    Restricted,
    /// Nothing written.
    Inherited,
    /// No visibility: the parser refuses the text.
    Invalid,
}

/// `syn::parse_str::<syn::Visibility>`: reads the whole of `text` as a
/// visibility and tells which of the three forms the parser found, or that
/// it found none.
#[verifier::external_body]
pub(crate) fn visibility_syntax(text: &str) -> (syntax: VisibilitySyntax) {
    match syn::parse_str::<syn::Visibility>(text) {
        Ok(syn::Visibility::Public(_)) => VisibilitySyntax::Public,
        Ok(syn::Visibility::Restricted(_)) => VisibilitySyntax::Restricted,
        Ok(syn::Visibility::Inherited) => VisibilitySyntax::Inherited,
        Err(_) => VisibilitySyntax::Invalid,
    }
}

/// `syn::parse_str::<syn::LitStr>`: whether the parser reads the whole of
/// `text` as a string literal.
#[verifier::external_body]
pub(crate) fn parses_as_string_literal(text: &str) -> (b: bool) {
    syn::parse_str::<syn::LitStr>(text).is_ok()
}

/// `syn::parse_str::<syn::ExprClosure>`: whether the parser reads the whole
/// of `text` as a closure expression.
#[verifier::external_body]
pub(crate) fn parses_as_closure(text: &str) -> (b: bool) {
    syn::parse_str::<syn::ExprClosure>(text).is_ok()
}

/// `syn::parse_str::<syn::ExprBlock>`: whether the parser reads the whole
/// of `text` as a block expression.
#[verifier::external_body]
pub(crate) fn parses_as_block(text: &str) -> (b: bool) {
    syn::parse_str::<syn::ExprBlock>(text).is_ok()
}

/// `syn::parse_str::<syn::ExprCall>`: whether the parser reads the whole of
/// `text` as a function call expression.
#[verifier::external_body]
pub(crate) fn parses_as_call(text: &str) -> (b: bool) {
    syn::parse_str::<syn::ExprCall>(text).is_ok()
}

/// `syn::parse_str::<syn::ExprPath>`: whether the parser reads the whole of
/// `text` as a path expression.
#[verifier::external_body]
pub(crate) fn parses_as_path(text: &str) -> (b: bool) {
    syn::parse_str::<syn::ExprPath>(text).is_ok()
}

/// `syn::Generics::split_for_impl`, on the list that the parser reads from
/// `declared`: the tokens of the list as it stands after `impl` and of the
/// list as it stands after the type's name, one for one. `None` where the
/// parser refuses the text.
#[verifier::external_body]
pub(crate) fn split_generics(declared: &str) -> (parts: Option<(Vec<Spelled>, Vec<Spelled>)>) {
    match syn::parse_str::<syn::Generics>(declared) {
        Ok(generics) => {
            let (first, second, _) = generics.split_for_impl();
            let spell = |tree: TokenTree| match tree {
                TokenTree::Punct(p) => Spelled { text: p.to_string(), joint: p.spacing() == Spacing::Joint },
                other => Spelled { text: other.to_string(), joint: false },
            };
            let first = first.to_token_stream().into_iter().map(spell).collect();
            Some((first, second.to_token_stream().into_iter().map(spell).collect()))
        },
        Err(_) => None,
    }
}

} // verus!
