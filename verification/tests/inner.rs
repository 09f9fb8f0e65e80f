use proc_macro2::{Spacing, TokenStream, TokenTree};
use quote::ToTokens;
use ztd::declaration::{
    Arguments, Attribute, Declaration, EnumDeclaration, Field, Generics, Shape,
    StructDeclaration, TypeExpr, TypePath, Variant,
};
use ztd::token::{Delimiter, Token};

fn delimiter(delimiter: proc_macro2::Delimiter) -> Delimiter {
    match delimiter {
        proc_macro2::Delimiter::Parenthesis => Delimiter::Parenthesis,
        proc_macro2::Delimiter::Brace => Delimiter::Brace,
        proc_macro2::Delimiter::Bracket => Delimiter::Bracket,
        proc_macro2::Delimiter::None => Delimiter::Invisible,
    }
}

fn tokens(stream: TokenStream) -> Vec<Token> {
    stream
        .into_iter()
        .map(|tree| match tree {
            TokenTree::Ident(ident) => Token::Ident(ident.to_string()),
            TokenTree::Punct(punct) => Token::Punct {
                symbol: punct.as_char(),
                joint: punct.spacing() == Spacing::Joint,
            },
            TokenTree::Literal(literal) => Token::Literal(literal.to_string()),
            TokenTree::Group(group) => Token::Group {
                delimiter: delimiter(group.delimiter()),
                content: group.stream().to_string(),
            },
        })
        .collect()
}

fn attributes(attributes: &[syn::Attribute]) -> Vec<Attribute> {
    attributes
        .iter()
        .map(|attribute| Attribute {
            path: attribute.path().to_token_stream().to_string(),
            arguments: match &attribute.meta {
                syn::Meta::Path(_) => Arguments::Absent,
                syn::Meta::List(list) => Arguments::List {
                    delimiter: match list.delimiter {
                        syn::MacroDelimiter::Paren(_) => Delimiter::Parenthesis,
                        syn::MacroDelimiter::Brace(_) => Delimiter::Brace,
                        syn::MacroDelimiter::Bracket(_) => Delimiter::Bracket,
                    },
                    tokens: tokens(list.tokens.clone()),
                },
                syn::Meta::NameValue(pair) => {
                    Arguments::Value(pair.value.to_token_stream().to_string())
                }
            },
        })
        .collect()
}

fn type_expr(ty: &syn::Type) -> TypeExpr {
    let text = ty.to_token_stream().to_string();
    match ty {
        syn::Type::Tuple(tuple) => TypeExpr::Tuple(tuple.elems.iter().map(type_expr).collect()),
        syn::Type::Path(path) => match path.path.segments.last() {
            Some(last) => {
                let name = last.ident.to_string();
                let arguments = last.arguments.to_token_stream().to_string();
                let tail = last.to_token_stream().to_string();
                match text.strip_suffix(&tail) {
                    Some(qualifier) => TypeExpr::Path(TypePath {
                        qualifier: String::from(qualifier),
                        name,
                        arguments,
                    }),
                    None => TypeExpr::Other(text),
                }
            }
            None => TypeExpr::Other(text),
        },
        _ => TypeExpr::Other(text),
    }
}

fn fields(fields: &syn::Fields) -> Vec<Field> {
    fields
        .iter()
        .map(|field| Field {
            attributes: attributes(&field.attrs),
            name: field.ident.as_ref().map(|ident| ident.to_string()).unwrap_or_default(),
            ty: type_expr(&field.ty),
            type_debug: format!("{:?}", field.ty),
        })
        .collect()
}

fn shape(syntax: &syn::Fields) -> Shape {
    match syntax {
        syn::Fields::Named(_) => Shape::Named(fields(syntax)),
        syn::Fields::Unnamed(_) => Shape::Positional(fields(syntax)),
        syn::Fields::Unit => Shape::Unit,
    }
}

fn generics(generics: &syn::Generics) -> Generics {
    Generics::parse(
        &generics.to_token_stream().to_string(),
        &generics.where_clause.to_token_stream().to_string(),
    )
    .unwrap()
}

fn declaration(source: &str) -> Declaration {
    match syn::parse_str::<syn::Item>(source).unwrap() {
        syn::Item::Struct(item) => Declaration::Struct(StructDeclaration {
            attributes: attributes(&item.attrs),
            visibility: item.vis.to_token_stream().to_string(),
            name: item.ident.to_string(),
            generics: generics(&item.generics),
            shape: shape(&item.fields),
        }),
        syn::Item::Enum(item) => Declaration::Enum(EnumDeclaration {
            attributes: attributes(&item.attrs),
            visibility: item.vis.to_token_stream().to_string(),
            name: item.ident.to_string(),
            generics: generics(&item.generics),
            variants: item
                .variants
                .iter()
                .map(|variant| Variant {
                    attributes: attributes(&variant.attrs),
                    name: variant.ident.to_string(),
                    shape: shape(&variant.fields),
                })
                .collect(),
        }),
        _ => Declaration::Other,
    }
}

fn spell(stream: TokenStream, words: &mut Vec<String>) {
    for tree in stream {
        match tree {
            TokenTree::Group(group) => {
                words.push(format!("{:?}", group.delimiter()));
                spell(group.stream(), words);
                words.push(String::from("end"));
            }
            other => words.push(other.to_string()),
        }
    }
}

fn normal(source: &str) -> String {
    let mut words = Vec::new();
    spell(source.parse::<TokenStream>().unwrap(), &mut words);
    words.join(" ")
}

use ztd::diagnostic::Error;
use ztd::projection::{ExclusiveFieldModifier, FieldModifier};
use ztd::inner::Macro;

fn expand(source: &str) -> String {
    normal(&Macro::handle(&declaration(source)).unwrap())
}

struct Struct {
    first: String,
}

struct StructInner {
    pub first: String,
}

impl Struct {
    fn into_inner(self) -> StructInner {
        StructInner { first: self.first }
    }
}

#[test]
fn inner_struct() {
    assert_eq!(
        expand("struct Struct { first: String, }"),
        normal(
            "struct StructInner { pub first: String, }
            impl Struct {
                fn into_inner(self) -> StructInner {
                    StructInner { first: self.first, }
                }
            }"
        )
    );
    assert!((Struct { first: String::from("foo") }).into_inner().first == String::from("foo"))
}

#[test]
fn inner_struct_with_lifetime() {
    assert_eq!(
        expand("struct StructWithLifetime<'a> { first: &'a String, }"),
        normal(
            "struct StructWithLifetimeInner<'a> { pub first: &'a String, }
            impl<'a> StructWithLifetime<'a> {
                fn into_inner(self) -> StructWithLifetimeInner<'a> {
                    StructWithLifetimeInner { first: self.first, }
                }
            }"
        )
    );
}

#[test]
fn inner_struct_flatten() {
    assert_eq!(
        expand("struct Struct { #[Inner(flatten)] child: Struct2, }"),
        normal(
            "struct StructInner { pub child: Struct2Inner, }
            impl Struct {
                fn into_inner(self) -> StructInner {
                    StructInner { child: self.child.into_inner(), }
                }
            }"
        )
    );
}

struct TupleStruct2(&'static str, &'static str);

struct TupleStruct2Inner(pub &'static str, pub &'static str);

impl TupleStruct2 {
    fn into_inner(self) -> TupleStruct2Inner {
        TupleStruct2Inner(self.0, self.1)
    }
}

struct TupleStruct(TupleStruct2, &'static str);

struct TupleStructInner(pub TupleStruct2Inner, pub &'static str);

impl TupleStruct {
    fn into_inner(self) -> TupleStructInner {
        TupleStructInner(self.0.into_inner(), self.1)
    }
}

#[test]
fn inner_tuple_struct_flatten() {
    assert_eq!(
        expand("struct TupleStruct2(&'static str, &'static str);"),
        normal(
            "struct TupleStruct2Inner(pub &'static str, pub &'static str,);
            impl TupleStruct2 {
                fn into_inner(self) -> TupleStruct2Inner {
                    TupleStruct2Inner(self.0, self.1,)
                }
            }"
        )
    );
    assert_eq!(
        expand("struct TupleStruct(#[Inner(flatten)] TupleStruct2, &'static str);"),
        normal(
            "struct TupleStructInner(pub TupleStruct2Inner, pub &'static str,);
            impl TupleStruct {
                fn into_inner(self) -> TupleStructInner {
                    TupleStructInner(self.0.into_inner(), self.1,)
                }
            }"
        )
    );
    let projected = TupleStruct(TupleStruct2("foo", "bar"), "hello").into_inner();
    assert!(projected.0 .1 == "bar");
    assert!(projected.0 .0 == "foo");
    assert!(projected.1 == "hello");
}

#[test]
fn inner_tuple_struct_skip_first() {
    assert_eq!(
        expand("struct TupleStruct(#[Inner(skip)] &'static str, &'static str);"),
        normal(
            "struct TupleStructInner(pub &'static str,);
            impl TupleStruct {
                fn into_inner(self) -> TupleStructInner {
                    TupleStructInner(self.1,)
                }
            }"
        )
    );
}

#[test]
fn inner_tuple_struct_skip_second() {
    assert_eq!(
        expand("struct TupleStruct(&'static str, #[Inner(skip)] &'static str);"),
        normal(
            "struct TupleStructInner(pub &'static str,);
            impl TupleStruct {
                fn into_inner(self) -> TupleStructInner {
                    TupleStructInner(self.0,)
                }
            }"
        )
    );
}

#[test]
fn inner_unit_struct() {
    assert_eq!(
        expand("struct UnitStruct;"),
        normal(
            "struct UnitStructInner;
            impl UnitStruct {
                fn into_inner(self) -> UnitStructInner {
                    UnitStructInner
                }
            }"
        )
    );
}

#[test]
fn inner_invalid_flatten_on_tuple_type() {
    let error = Macro::handle(&declaration(
        "#[derive(Inner)] struct Struct { #[Inner(flatten)] _first: (), }",
    ))
    .unwrap_err();
    assert!(matches!(
        &error,
        Error::InvalidFlattenTarget(ty) if ty == "Type::Tuple { paren_token: Paren, elems: [] }"
    ));
    assert_eq!(error.message(), "Cannot flatten Type::Tuple { paren_token: Paren, elems: [] }");
    let error = Macro::handle(&declaration(
        "struct Struct(u8, #[Inner(flatten)] &'static str, #[Inner(flatten)] [u8; 2]);",
    ))
    .unwrap_err();
    assert!(error.message().starts_with("Cannot flatten Type::Reference {"));
}

#[test]
fn inner_ui_struct_skip() {
    assert_eq!(
        expand("struct Struct { #[Inner(skip)] field: String, }"),
        normal(
            "struct StructInner { }
            impl Struct {
                fn into_inner(self) -> StructInner {
                    StructInner { }
                }
            }"
        )
    );
}

#[test]
fn inner_set_exclusive() {
    let mut modifier = FieldModifier { exclusive: None };
    modifier.set_exclusive(ExclusiveFieldModifier::Flatten);
    assert_eq!(modifier.exclusive, Some(ExclusiveFieldModifier::Flatten));
    modifier.set_exclusive(ExclusiveFieldModifier::Skip);
    assert_eq!(modifier.exclusive, Some(ExclusiveFieldModifier::Skip));
}

#[test]
fn inner_later_key_wins() {
    assert_eq!(
        expand("struct S { #[Inner(skip, flatten)] a: A, #[Inner(flatten)] #[Inner(skip)] b: B, c: C }"),
        normal(
            "struct SInner { pub a: AInner, pub c: C, }
            impl S { fn into_inner(self) -> SInner { SInner { a: self.a.into_inner(), c: self.c, } } }"
        )
    );
}

#[test]
fn inner_sibling_keeps_everything_else() {
    assert_eq!(
        expand(
            "#[doc = \"A pair.\"] #[repr(C)]
            pub(crate) struct Pair<'a, T: Clone = u8> where T: Default {
                #[allow(dead_code)] #[Inner(flatten)] #[doc(hidden)] first: outer::inner::Other<'a, T>,
                pub second: Vec<T>,
                #[Inner(skip)] third: u8,
            }"
        ),
        normal(
            "#[doc = \"A pair.\"] #[repr(C)]
            pub(crate) struct PairInner<'a, T: Clone = u8> where T: Default {
                #[allow(dead_code)] #[doc(hidden)] pub first: outer::inner::OtherInner<'a, T>,
                pub second: Vec<T>,
            }
            impl<'a, T: Clone> Pair<'a, T> where T: Default {
                pub(crate) fn into_inner(self) -> PairInner<'a, T> {
                    PairInner { first: self.first.into_inner(), second: self.second, }
                }
            }"
        )
    );
}

#[test]
fn inner_positional_where_clause_follows_the_fields() {
    assert_eq!(
        expand("pub struct Wrapper<T>(T, #[Inner(skip)] u8) where T: Clone;"),
        normal(
            "pub struct WrapperInner<T>(pub T,) where T: Clone;
            impl<T> Wrapper<T> where T: Clone {
                pub fn into_inner(self) -> WrapperInner<T> { WrapperInner(self.0,) }
            }"
        )
    );
}

#[test]
fn inner_failures() {
    let failure = |source: &str| Macro::handle(&declaration(source)).unwrap_err();
    assert!(matches!(failure("enum E { A }"), Error::UnsupportedItem));
    assert!(matches!(failure("union U { a: u8 }"), Error::UnsupportedItem));
    assert!(matches!(failure("struct S { #[Inner(flat)] a: u8 }"), Error::UnknownAttributeKey));
    assert!(matches!(
        failure("struct S { #[Inner(flatten)] a: (), #[Inner(flat)] b: u8 }"),
        Error::UnknownAttributeKey
    ));
    assert_eq!(failure("struct S { #[Inner(skip = 1)] a: u8 }").message(), "expected `,`");
}
