use proc_macro2::{Spacing, TokenStream, TokenTree};
use quote::ToTokens;
use ztd::declaration::{
    Arguments, Attribute, Declaration, EnumDeclaration, Field, Generics, Shape,
    StructDeclaration, TypeExpr, TypePath, Variant,
};
use ztd::token::{Delimiter, Token};

fn delimiter(delimiter: proc_macro2::Delimiter) -> Delimiter {
    match delimiter {
        proc_macro2::Delimiter::Parenthesis => Delimiter::Parenthesis,
        proc_macro2::Delimiter::Brace => Delimiter::Brace,
        proc_macro2::Delimiter::Bracket => Delimiter::Bracket,
        proc_macro2::Delimiter::None => Delimiter::Invisible,
    }
}

fn tokens(stream: TokenStream) -> Vec<Token> {
    stream
        .into_iter()
        .map(|tree| match tree {
            TokenTree::Ident(ident) => Token::Ident(ident.to_string()),
            TokenTree::Punct(punct) => Token::Punct {
                symbol: punct.as_char(),
                joint: punct.spacing() == Spacing::Joint,
            },
            TokenTree::Literal(literal) => Token::Literal(literal.to_string()),
            TokenTree::Group(group) => Token::Group {
                delimiter: delimiter(group.delimiter()),
                content: group.stream().to_string(),
            },
        })
        .collect()
}

fn attributes(attributes: &[syn::Attribute]) -> Vec<Attribute> {
    attributes
        .iter()
        .map(|attribute| Attribute {
            path: attribute.path().to_token_stream().to_string(),
            arguments: match &attribute.meta {
                syn::Meta::Path(_) => Arguments::Absent,
                syn::Meta::List(list) => Arguments::List {
                    delimiter: match list.delimiter {
                        syn::MacroDelimiter::Paren(_) => Delimiter::Parenthesis,
                        syn::MacroDelimiter::Brace(_) => Delimiter::Brace,
                        syn::MacroDelimiter::Bracket(_) => Delimiter::Bracket,
                    },
                    tokens: tokens(list.tokens.clone()),
                },
                syn::Meta::NameValue(pair) => {
                    Arguments::Value(pair.value.to_token_stream().to_string())
                }
            },
        })
        .collect()
}

fn type_expr(ty: &syn::Type) -> TypeExpr {
    let text = ty.to_token_stream().to_string();
    match ty {
        syn::Type::Tuple(tuple) => TypeExpr::Tuple(tuple.elems.iter().map(type_expr).collect()),
        syn::Type::Path(path) => match path.path.segments.last() {
            Some(last) => {
                let name = last.ident.to_string();
                let arguments = last.arguments.to_token_stream().to_string();
                let tail = last.to_token_stream().to_string();
                match text.strip_suffix(&tail) {
                    Some(qualifier) => TypeExpr::Path(TypePath {
                        qualifier: String::from(qualifier),
                        name,
                        arguments,
                    }),
                    None => TypeExpr::Other(text),
                }
            }
            None => TypeExpr::Other(text),
        },
        _ => TypeExpr::Other(text),
    }
}

fn fields(fields: &syn::Fields) -> Vec<Field> {
    fields
        .iter()
        .map(|field| Field {
            attributes: attributes(&field.attrs),
            name: field.ident.as_ref().map(|ident| ident.to_string()).unwrap_or_default(),
            ty: type_expr(&field.ty),
            type_debug: format!("{:?}", field.ty),
        })
        .collect()
}

fn shape(syntax: &syn::Fields) -> Shape {
    match syntax {
        syn::Fields::Named(_) => Shape::Named(fields(syntax)),
        syn::Fields::Unnamed(_) => Shape::Positional(fields(syntax)),
        syn::Fields::Unit => Shape::Unit,
    }
}

fn generics(generics: &syn::Generics) -> Generics {
    Generics::parse(
        &generics.to_token_stream().to_string(),
        &generics.where_clause.to_token_stream().to_string(),
    )
    .unwrap()
}

fn declaration(source: &str) -> Declaration {
    match syn::parse_str::<syn::Item>(source).unwrap() {
        syn::Item::Struct(item) => Declaration::Struct(StructDeclaration {
            attributes: attributes(&item.attrs),
            visibility: item.vis.to_token_stream().to_string(),
            name: item.ident.to_string(),
            generics: generics(&item.generics),
            shape: shape(&item.fields),
        }),
        syn::Item::Enum(item) => Declaration::Enum(EnumDeclaration {
            attributes: attributes(&item.attrs),
            visibility: item.vis.to_token_stream().to_string(),
            name: item.ident.to_string(),
            generics: generics(&item.generics),
            variants: item
                .variants
                .iter()
                .map(|variant| Variant {
                    attributes: attributes(&variant.attrs),
                    name: variant.ident.to_string(),
                    shape: shape(&variant.fields),
                })
                .collect(),
        }),
        _ => Declaration::Other,
    }
}

fn spell(stream: TokenStream, words: &mut Vec<String>) {
    for tree in stream {
        match tree {
            TokenTree::Group(group) => {
                words.push(format!("{:?}", group.delimiter()));
                spell(group.stream(), words);
                words.push(String::from("end"));
            }
            other => words.push(other.to_string()),
        }
    }
}

fn normal(source: &str) -> String {
    let mut words = Vec::new();
    spell(source.parse::<TokenStream>().unwrap(), &mut words);
    words.join(" ")
}

use ztd::diagnostic::Error;
use ztd::from::Macro;

fn expand(source: &str) -> String {
    normal(&Macro::handle(&declaration(source)).unwrap())
}

fn conversion(name: &str, from: &str, value: &str) -> String {
    format!(
        "impl ::std::convert::From<{from}> for {name} {{
            fn from(value: {from}) -> Self {{ {value} }}
        }} "
    )
}

const TWO_NAMED: &str = "Self::Case { _first: value.0, _second: value.1, }";

#[test]
fn enum_named_variant_with_two_fields() {
    assert_eq!(
        expand("enum Enum { #[From] Case { _first: String, _second: String }, }"),
        normal(&conversion("Enum", "(String, String,)", TWO_NAMED))
    );
}

#[test]
fn enum_named_variant_with_named() {
    assert_eq!(
        expand("#[From(named)] enum Enum { Case { _first: String, _second: String }, }"),
        normal(&conversion("Enum", "(String, String,)", TWO_NAMED))
    );
}

#[test]
fn enum_unnamed_variant_with_zero_fields() {
    assert_eq!(
        expand("enum Enum { #[From] Case(), }"),
        normal(&conversion("Enum", "()", "Self::Case()"))
    );
}

#[test]
fn from_enum_unnamed_variant_with_one_field() {
    assert_eq!(
        expand("enum Enum { #[From] Case(String), }"),
        normal(&conversion("Enum", "String", "Self::Case(value,)"))
    );
}

#[test]
fn from_enum_unnamed_variant_with_two_fields() {
    assert_eq!(
        expand("enum Enum { #[From] Case(String, String), }"),
        normal(&conversion("Enum", "(String, String,)", "Self::Case(value.0, value.1,)"))
    );
}

#[test]
fn enum_unnamed_variant_with_unnamed() {
    assert_eq!(
        expand("#[From(unnamed)] enum Enum { Case(String, String), }"),
        normal(&conversion("Enum", "(String, String,)", "Self::Case(value.0, value.1,)"))
    );
}

#[test]
fn from_enum_unit_variant() {
    assert_eq!(
        expand("enum Enum { #[From] Case, }"),
        normal(&conversion("Enum", "()", "Self::Case"))
    );
}

#[test]
fn enum_unit_variant_with_all() {
    assert_eq!(
        expand("#[From(all)] enum Enum { Case, }"),
        normal(&conversion("Enum", "()", "Self::Case"))
    );
}

#[test]
fn enum_unit_variant_with_unit() {
    assert_eq!(
        expand("#[From(unit)] enum Enum { Case, }"),
        normal(&conversion("Enum", "()", "Self::Case"))
    );
}

#[test]
fn enum_unit_variant_with_explicit_enable() {
    assert_eq!(
        expand("enum Enum { #[From(enable)] Case, }"),
        normal(&conversion("Enum", "()", "Self::Case"))
    );
}

#[test]
fn enum_unit_variant_with_skip() {
    assert_eq!(
        expand("#[From(all)] enum Enum { #[From(skip)] _Case0, Case1, }"),
        normal(&conversion("Enum", "()", "Self::Case1"))
    );
}

#[test]
fn from_unit_struct() {
    assert_eq!(expand("struct Struct;"), normal(&conversion("Struct", "()", "Self")));
}

#[test]
fn from_tuple_struct_with_zero_fields() {
    assert_eq!(expand("struct TupleStruct();"), normal(&conversion("TupleStruct", "()", "Self()")));
}

#[test]
fn tuple_struct_with_one_field() {
    assert_eq!(
        expand("struct TupleStruct(String);"),
        normal(&conversion("TupleStruct", "String", "Self(value,)"))
    );
}

#[test]
fn tuple_struct_with_two_fields() {
    assert_eq!(
        expand("struct TupleStruct(String, String);"),
        normal(&conversion("TupleStruct", "(String, String,)", "Self(value.0, value.1,)"))
    );
}

#[test]
fn from_struct() {
    assert_eq!(
        expand("struct Struct { _first: String, _second: String, }"),
        normal(&conversion(
            "Struct",
            "(String, String,)",
            "Self { _first: value.0, _second: value.1, }"
        ))
    );
}

#[test]
fn multiple_enum_variants() {
    assert_eq!(
        expand(
            "#[From(all)] enum Enum {
                Case0,
                Case1(std::io::Error),
                Case2 { _first: String, _second: String },
            }"
        ),
        normal(&format!(
            "{}{}{}",
            conversion("Enum", "()", "Self::Case0"),
            conversion("Enum", "std::io::Error", "Self::Case1(value,)"),
            conversion(
                "Enum",
                "(String, String,)",
                "Self::Case2 { _first: value.0, _second: value.1, }"
            )
        ))
    );
}

#[test]
fn union_should_panic() {
    let error = Macro::handle(&declaration("#[derive(From)] union Union { }")).unwrap_err();
    assert!(matches!(error, Error::UnsupportedItem));
    assert_eq!(error.message(), "Unsupported item");
}

enum Failure {
    Error(std::io::Error, String),
}

impl ::std::convert::From<(std::io::Error, String)> for Failure {
    fn from(value: (std::io::Error, String)) -> Self {
        Self::Error(value.0, value.1)
    }
}

#[test]
fn positional_variant_is_built_in_field_order() {
    assert_eq!(
        expand("#[From(unnamed)] enum Failure { Error(std::io::Error, String), Other, Named { a: u8 } }"),
        normal(&conversion(
            "Failure",
            "(std::io::Error, String,)",
            "Self::Error(value.0, value.1,)"
        ))
    );
    let Failure::Error(first, second) =
        Failure::from((std::io::Error::new(std::io::ErrorKind::Other, "x"), String::from("bar")));
    assert_eq!(first.to_string(), "x");
    assert_eq!(second, "bar");
}

#[test]
fn skipped_unit_variant_has_no_conversion() {
    assert_eq!(expand("#[From(all)] enum Enum { #[From(skip)] Unit, }"), "");
    assert_eq!(
        expand("#[From(all)] enum Enum { #[From(skip)] Unit, Other(u8), }"),
        normal(&conversion("Enum", "u8", "Self::Other(value,)"))
    );
}

#[test]
fn one_named_field_is_converted_from_its_bare_type() {
    assert_eq!(
        expand("struct Struct { only: Vec<u8> }"),
        normal(&conversion("Struct", "Vec<u8>", "Self { only: value, }"))
    );
    assert_eq!(
        expand("struct Struct {}"),
        normal(&conversion("Struct", "()", "Self { }"))
    );
}

#[test]
fn category_switches() {
    let source = |keys: &str| {
        format!("#[From({keys})] enum E {{ N {{ a: u8 }}, P(u16), U, }}")
    };
    let named = conversion("E", "u8", "Self::N { a: value, }");
    let positional = conversion("E", "u16", "Self::P(value,)");
    let unit = conversion("E", "()", "Self::U");
    assert_eq!(expand(&source("")), "");
    assert_eq!(expand(&source("named")), normal(&named));
    assert_eq!(expand(&source("unnamed")), normal(&positional));
    assert_eq!(expand(&source("unit")), normal(&unit));
    assert_eq!(expand(&source("unit, named")), normal(&format!("{named}{unit}")));
    assert_eq!(expand(&source("all")), normal(&format!("{named}{positional}{unit}")));
    assert_eq!(expand("enum E { N { a: u8 }, P(u16), U, }"), "");
}

#[test]
fn later_variant_key_wins() {
    assert_eq!(
        expand("enum E { #[From(skip, enable)] U }"),
        normal(&conversion("E", "()", "Self::U"))
    );
    assert_eq!(expand("enum E { #[From(enable)] #[From(skip)] U }"), "");
    assert_eq!(expand("#[From(all)] enum E { #[From] #[From(skip)] U }"), "");
}

#[test]
fn from_failures() {
    let failure = |source: &str| Macro::handle(&declaration(source)).unwrap_err();
    assert!(matches!(failure("#[From(every)] enum E { A }"), Error::UnknownAttributeKey));
    assert!(matches!(failure("enum E { #[From(all)] A }"), Error::UnknownAttributeKey));
    assert!(matches!(failure("#[From(enable)] enum E { A }"), Error::UnknownAttributeKey));
    assert_eq!(failure("#[From] enum E { A }").message(), "expected attribute arguments in parentheses");
    assert_eq!(failure("#[From = 1] enum E { A }").message(), "expected parentheses");
    assert_eq!(failure("#[From(all = 1)] enum E { #[From(nothing)] A }").message(), "expected `,`");
}

#[test]
fn conversions_carry_generics() {
    assert_eq!(
        expand("#[From(all)] enum Either<L, R: Clone> where L: Copy { Left(L), Right(R) }"),
        normal(
            "impl<L, R: Clone> ::std::convert::From<L> for Either<L, R> where L: Copy {
                fn from(value: L) -> Self { Self::Left(value,) }
            }
            impl<L, R: Clone> ::std::convert::From<R> for Either<L, R> where L: Copy {
                fn from(value: R) -> Self { Self::Right(value,) }
            }"
        )
    );
}
