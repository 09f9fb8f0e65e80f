use proc_macro2::{Spacing, TokenStream, TokenTree};
use quote::ToTokens;
use ztd::declaration::{
    Arguments, Attribute, Declaration, EnumDeclaration, Field, Generics, Shape,
    StructDeclaration, TypeExpr, TypePath, Variant,
};
use ztd::token::{Delimiter, Token};

fn delimiter(delimiter: proc_macro2::Delimiter) -> Delimiter {
    match delimiter {
        proc_macro2::Delimiter::Parenthesis => Delimiter::Parenthesis,
        proc_macro2::Delimiter::Brace => Delimiter::Brace,
        proc_macro2::Delimiter::Bracket => Delimiter::Bracket,
        proc_macro2::Delimiter::None => Delimiter::Invisible,
    }
}

fn tokens(stream: TokenStream) -> Vec<Token> {
    stream
        .into_iter()
        .map(|tree| match tree {
            TokenTree::Ident(ident) => Token::Ident(ident.to_string()),
            TokenTree::Punct(punct) => Token::Punct {
                symbol: punct.as_char(),
                joint: punct.spacing() == Spacing::Joint,
            },
            TokenTree::Literal(literal) => Token::Literal(literal.to_string()),
            TokenTree::Group(group) => Token::Group {
                delimiter: delimiter(group.delimiter()),
                content: group.stream().to_string(),
            },
        })
        .collect()
}

fn attributes(attributes: &[syn::Attribute]) -> Vec<Attribute> {
    attributes
        .iter()
        .map(|attribute| Attribute {
            path: attribute.path().to_token_stream().to_string(),
            arguments: match &attribute.meta {
                syn::Meta::Path(_) => Arguments::Absent,
                syn::Meta::List(list) => Arguments::List {
                    delimiter: match list.delimiter {
                        syn::MacroDelimiter::Paren(_) => Delimiter::Parenthesis,
                        syn::MacroDelimiter::Brace(_) => Delimiter::Brace,
                        syn::MacroDelimiter::Bracket(_) => Delimiter::Bracket,
                    },
                    tokens: tokens(list.tokens.clone()),
                },
                syn::Meta::NameValue(pair) => {
                    Arguments::Value(pair.value.to_token_stream().to_string())
                }
            },
        })
        .collect()
}

fn type_expr(ty: &syn::Type) -> TypeExpr {
    let text = ty.to_token_stream().to_string();
    match ty {
        syn::Type::Tuple(tuple) => TypeExpr::Tuple(tuple.elems.iter().map(type_expr).collect()),
        syn::Type::Path(path) => match path.path.segments.last() {
            Some(last) => {
                let name = last.ident.to_string();
                let arguments = last.arguments.to_token_stream().to_string();
                let tail = last.to_token_stream().to_string();
                match text.strip_suffix(&tail) {
                    Some(qualifier) => TypeExpr::Path(TypePath {
                        qualifier: String::from(qualifier),
                        name,
                        arguments,
                    }),
                    None => TypeExpr::Other(text),
                }
            }
            None => TypeExpr::Other(text),
        },
        _ => TypeExpr::Other(text),
    }
}

fn fields(fields: &syn::Fields) -> Vec<Field> {
    fields
        .iter()
        .map(|field| Field {
            attributes: attributes(&field.attrs),
            name: field.ident.as_ref().map(|ident| ident.to_string()).unwrap_or_default(),
            ty: type_expr(&field.ty),
            type_debug: format!("{:?}", field.ty),
        })
        .collect()
}

fn shape(syntax: &syn::Fields) -> Shape {
    match syntax {
        syn::Fields::Named(_) => Shape::Named(fields(syntax)),
        syn::Fields::Unnamed(_) => Shape::Positional(fields(syntax)),
        syn::Fields::Unit => Shape::Unit,
    }
}

fn generics(generics: &syn::Generics) -> Generics {
    Generics::parse(
        &generics.to_token_stream().to_string(),
        &generics.where_clause.to_token_stream().to_string(),
    )
    .unwrap()
}

fn declaration(source: &str) -> Declaration {
    match syn::parse_str::<syn::Item>(source).unwrap() {
        syn::Item::Struct(item) => Declaration::Struct(StructDeclaration {
            attributes: attributes(&item.attrs),
            visibility: item.vis.to_token_stream().to_string(),
            name: item.ident.to_string(),
            generics: generics(&item.generics),
            shape: shape(&item.fields),
        }),
        syn::Item::Enum(item) => Declaration::Enum(EnumDeclaration {
            attributes: attributes(&item.attrs),
            visibility: item.vis.to_token_stream().to_string(),
            name: item.ident.to_string(),
            generics: generics(&item.generics),
            variants: item
                .variants
                .iter()
                .map(|variant| Variant {
                    attributes: attributes(&variant.attrs),
                    name: variant.ident.to_string(),
                    shape: shape(&variant.fields),
                })
                .collect(),
        }),
        _ => Declaration::Other,
    }
}

fn spell(stream: TokenStream, words: &mut Vec<String>) {
    for tree in stream {
        match tree {
            TokenTree::Group(group) => {
                words.push(format!("{:?}", group.delimiter()));
                spell(group.stream(), words);
                words.push(String::from("end"));
            }
            other => words.push(other.to_string()),
        }
    }
}

fn normal(source: &str) -> String {
    let mut words = Vec::new();
    spell(source.parse::<TokenStream>().unwrap(), &mut words);
    words.join(" ")
}

fn expand(source: &str) -> String {
    normal(&ztd::constructor::Macro::handle(&declaration(source)).unwrap())
}

use ztd::constructor::visibility_entry;
use ztd::syntax::VisibilitySyntax;

fn failure(source: &str) -> ztd::diagnostic::Error {
    ztd::constructor::Macro::handle(&declaration(source)).unwrap_err()
}

struct Struct {
    _first: String,
    second: String,
}

impl Struct {
    fn new(_first: String, second: String) -> Self {
        Self { _first, second }
    }
}

#[test]
fn constructor_struct() {
    assert_eq!(
        expand("struct Struct { _first: String, second: String, }"),
        normal(
            "impl Struct {
                fn new(_first: String, second: String) -> Self {
                    Self { _first, second }
                }
            }"
        )
    );
    assert!(Struct::new(String::from("foo"), String::from("bar")).second == String::from("bar"));
}

#[test]
fn struct_with_lifetimes() {
    assert_eq!(
        expand(
            "struct StructWithLifetimes<'a> {
                _first: &'a mut String,
                second: &'a String,
                _third: String,
            }"
        ),
        normal(
            "impl<'a> StructWithLifetimes<'a> {
                fn new(_first: &'a mut String, second: &'a String, _third: String) -> Self {
                    Self { _first, second, _third }
                }
            }"
        )
    );
}

struct TupleStruct(String, String);

impl TupleStruct {
    fn new(value0: String, value1: String) -> Self {
        Self(value0, value1)
    }
}

#[test]
fn constructor_tuple_struct() {
    assert_eq!(
        expand("struct TupleStruct(String, String);"),
        normal(
            "impl TupleStruct {
                fn new(value0: String, value1: String) -> Self {
                    Self(value0, value1)
                }
            }"
        )
    );
    assert!(TupleStruct::new(String::from("foo"), String::from("bar")).1 == String::from("bar"));
    assert!(TupleStruct::new(String::from("foo"), String::from("bar")).0 == String::from("foo"));
}

#[test]
fn tuple_struct_with_lifetimes() {
    assert_eq!(
        expand("struct TupleStructWithLifetimes<'a>(&'a String, &'a mut String);"),
        normal(
            "impl<'a> TupleStructWithLifetimes<'a> {
                fn new(value0: &'a String, value1: &'a mut String) -> Self {
                    Self(value0, value1)
                }
            }"
        )
    );
}

#[test]
fn constructor_unit_struct() {
    assert_eq!(
        expand("struct UnitStruct;"),
        normal("impl UnitStruct { fn new() -> Self { Self } }")
    );
}

#[test]
fn visibility() {
    assert_eq!(
        expand("#[Constructor(visibility = pub(crate))] pub struct _Struct { _first: usize, }"),
        normal("impl _Struct { pub(crate) fn new(_first: usize) -> Self { Self { _first } } }")
    );
}

#[test]
fn visiblity_should_panic_without_value() {
    let error = failure(
        "#[derive(Constructor)] #[Constructor(visibility)] pub struct _Struct { _first: usize, }",
    );
    assert!(matches!(
        error,
        ztd::diagnostic::Error::MalformedAttributeValue(
            ztd::diagnostic::Malformation::ExpectedEquals
        )
    ));
    assert_eq!(error.message(), "expected `=`");
}

#[test]
fn visiblity_should_panic_without_visibility_syntax() {
    let error = failure(
        "#[derive(Constructor)] #[Constructor(visibility = foobar)]
        pub struct _Struct { _first: usize, }",
    );
    assert!(matches!(
        error,
        ztd::diagnostic::Error::MalformedAttributeValue(
            ztd::diagnostic::Malformation::UnknownVisibility
        )
    ));
    assert_eq!(error.message(), "Unknown visibility");
}

#[test]
fn should_panic_with_unknown_attribute() {
    let error = failure(
        "#[derive(Constructor)] #[Constructor(foo = bar)] pub struct _Struct { _first: usize, }",
    );
    assert!(matches!(error, ztd::diagnostic::Error::UnknownAttributeKey));
    assert_eq!(error.message(), "Unknown attribute");
}

#[test]
fn ui_visibility() {
    assert_eq!(
        expand(
            "#[derive(Constructor)] #[Constructor(visibility = pub(self))]
            pub struct Struct { _first: String, }"
        ),
        normal("impl Struct { pub(self) fn new(_first: String) -> Self { Self { _first } } }")
    );
}

#[test]
fn declaration_visibility_is_the_default() {
    assert_eq!(
        expand("pub struct Struct { first: String, }"),
        normal("impl Struct { pub fn new(first: String) -> Self { Self { first } } }")
    );
}

#[test]
fn later_visibility_wins() {
    assert_eq!(
        expand("#[Constructor(visibility = pub, visibility = pub(crate),)] struct S;"),
        normal("impl S { pub(crate) fn new() -> Self { Self } }")
    );
}

#[test]
fn only_the_first_attribute_of_the_declaration_is_read() {
    assert_eq!(
        expand("#[Constructor(visibility = pub)] #[Constructor(unknown)] struct S;"),
        normal("impl S { pub fn new() -> Self { Self } }")
    );
}

#[test]
fn default_field_is_no_argument() {
    assert_eq!(
        expand("struct Struct { first: String, #[Constructor(default)] second: u8, third: bool }"),
        normal(
            "impl Struct {
                fn new(first: String, third: bool) -> Self {
                    Self {
                        first,
                        second: <u8 as ::core::default::Default>::default(),
                        third
                    }
                }
            }"
        )
    );
}

#[test]
fn default_positional_field_keeps_its_place() {
    assert_eq!(
        expand("struct Tuple(String, #[Constructor(default)] Vec<u8>, bool);"),
        normal(
            "impl Tuple {
                fn new(value0: String, value1: bool) -> Self {
                    Self(value0, <Vec<u8> as ::core::default::Default>::default(), value1)
                }
            }"
        )
    );
}

#[test]
fn every_attribute_of_a_field_is_read() {
    let error = failure("struct S { #[Constructor(default)] #[Constructor(other)] first: u8 }");
    assert!(matches!(error, ztd::diagnostic::Error::UnknownAttributeKey));
}

#[test]
fn flag_with_value_is_malformed() {
    let error = failure("struct S { #[Constructor(default = 1)] first: u8 }");
    assert!(matches!(
        error,
        ztd::diagnostic::Error::MalformedAttributeValue(
            ztd::diagnostic::Malformation::ExpectedComma
        )
    ));
    assert_eq!(error.message(), "expected `,`");
}

#[test]
fn attribute_without_arguments_is_malformed() {
    let error = failure("#[Constructor] struct S;");
    assert!(matches!(
        error,
        ztd::diagnostic::Error::MalformedAttributeValue(
            ztd::diagnostic::Malformation::ExpectedArguments
        )
    ));
    let error = failure("#[Constructor = \"pub\"] struct S;");
    assert!(matches!(
        error,
        ztd::diagnostic::Error::MalformedAttributeValue(
            ztd::diagnostic::Malformation::ExpectedParentheses
        )
    ));
    let error = failure("#[Constructor(, visibility = pub)] struct S;");
    assert!(matches!(
        error,
        ztd::diagnostic::Error::MalformedAttributeValue(
            ztd::diagnostic::Malformation::ExpectedIdentifier
        )
    ));
}

#[test]
fn first_failure_stands() {
    let error = failure(
        "#[Constructor(visibility)] struct S { #[Constructor(unknown)] first: u8 }",
    );
    assert_eq!(error.message(), "expected `=`");
    let error = failure(
        "struct S { #[Constructor(unknown)] first: u8, #[Constructor(default = 1)] second: u8 }",
    );
    assert_eq!(error.message(), "Unknown attribute");
}

#[test]
fn generics_and_where_clause_are_carried() {
    assert_eq!(
        expand("pub struct Pair<'a, T: Clone = u8> where T: Default { first: &'a T, }"),
        normal(
            "impl<'a, T: Clone> Pair<'a, T> where T: Default {
                pub fn new(first: &'a T) -> Self { Self { first } }
            }"
        )
    );
}

#[test]
fn constructor_refuses_other_items() {
    assert!(matches!(failure("enum E { A }"), ztd::diagnostic::Error::UnsupportedItem));
    assert!(matches!(failure("union U { a: u8 }"), ztd::diagnostic::Error::UnsupportedItem));
    assert_eq!(failure("fn f() {}").message(), "Unsupported item");
}

#[test]
fn a_second_run_repeats_the_first() {
    let source = "struct Struct { first: String, #[Constructor(default)] second: u8 }";
    assert_eq!(
        ztd::constructor::Macro::handle(&declaration(source)).unwrap(),
        ztd::constructor::Macro::handle(&declaration(source)).unwrap()
    );
    assert_eq!(
        ztd::generator::generate(ztd::generator::Generator::Constructor, &declaration(source))
            .unwrap(),
        ztd::constructor::Macro::handle(&declaration(source)).unwrap()
    );
}

#[test]
fn visibility_values_are_taken_by_their_syntax() {
    let entry = |syntax: VisibilitySyntax| {
        visibility_entry(String::from("given"), syntax).map_err(|error| error.message())
    };
    assert_eq!(entry(VisibilitySyntax::Public), Ok(String::from("given")));
    assert_eq!(entry(VisibilitySyntax::Restricted), Ok(String::from("given")));
    assert_eq!(entry(VisibilitySyntax::Inherited), Err(String::from("Unknown visibility")));
    assert_eq!(entry(VisibilitySyntax::Invalid), Err(String::from("Unknown visibility")));
}

#[test]
fn visibility_values_are_put_to_the_parser() {
    assert_eq!(failure("#[Constructor(visibility = )] struct S;").message(), "Unknown visibility");
    assert_eq!(
        failure("#[Constructor(visibility = pub(crate) x)] struct S;").message(),
        "Unknown visibility"
    );
    assert_eq!(
        failure("#[Constructor(visibility = pub, visibility = crate)] struct S;").message(),
        "Unknown visibility"
    );
    assert_eq!(
        failure("#[Constructor(visibility = pub(in))] struct S;").message(),
        "Unknown visibility"
    );
    assert_eq!(
        expand("#[Constructor(visibility = pub(in crate::a))] struct S;"),
        normal("impl S { pub(in crate::a) fn new() -> Self { Self } }")
    );
}

#[test]
fn the_attribute_is_read_to_its_end_before_the_parser_is_asked() {
    assert_eq!(
        failure("#[Constructor(visibility = foobar, unknown)] struct S;").message(),
        "Unknown attribute"
    );
    assert_eq!(
        failure("#[Constructor(visibility = foobar)] struct S { #[Constructor(unknown)] a: u8 }")
            .message(),
        "Unknown visibility"
    );
}
