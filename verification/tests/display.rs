use proc_macro2::{Spacing, TokenStream, TokenTree};
use quote::ToTokens;
use ztd::declaration::{
    Arguments, Attribute, Declaration, EnumDeclaration, Field, Generics, Shape,
    StructDeclaration, TypeExpr, TypePath, Variant,
};
use ztd::token::{Delimiter, Token};

fn delimiter(delimiter: proc_macro2::Delimiter) -> Delimiter {
    match delimiter {
        proc_macro2::Delimiter::Parenthesis => Delimiter::Parenthesis,
        proc_macro2::Delimiter::Brace => Delimiter::Brace,
        proc_macro2::Delimiter::Bracket => Delimiter::Bracket,
        proc_macro2::Delimiter::None => Delimiter::Invisible,
    }
}

fn tokens(stream: TokenStream) -> Vec<Token> {
    stream
        .into_iter()
        .map(|tree| match tree {
            TokenTree::Ident(ident) => Token::Ident(ident.to_string()),
            TokenTree::Punct(punct) => Token::Punct {
                symbol: punct.as_char(),
                joint: punct.spacing() == Spacing::Joint,
            },
            TokenTree::Literal(literal) => Token::Literal(literal.to_string()),
            TokenTree::Group(group) => Token::Group {
                delimiter: delimiter(group.delimiter()),
                content: group.stream().to_string(),
            },
        })
        .collect()
}

fn attributes(attributes: &[syn::Attribute]) -> Vec<Attribute> {
    attributes
        .iter()
        .map(|attribute| Attribute {
            path: attribute.path().to_token_stream().to_string(),
            arguments: match &attribute.meta {
                syn::Meta::Path(_) => Arguments::Absent,
                syn::Meta::List(list) => Arguments::List {
                    delimiter: match list.delimiter {
                        syn::MacroDelimiter::Paren(_) => Delimiter::Parenthesis,
                        syn::MacroDelimiter::Brace(_) => Delimiter::Brace,
                        syn::MacroDelimiter::Bracket(_) => Delimiter::Bracket,
                    },
                    tokens: tokens(list.tokens.clone()),
                },
                syn::Meta::NameValue(pair) => {
                    Arguments::Value(pair.value.to_token_stream().to_string())
                }
            },
        })
        .collect()
}

fn type_expr(ty: &syn::Type) -> TypeExpr {
    let text = ty.to_token_stream().to_string();
    match ty {
        syn::Type::Tuple(tuple) => TypeExpr::Tuple(tuple.elems.iter().map(type_expr).collect()),
        syn::Type::Path(path) => match path.path.segments.last() {
            Some(last) => {
                let name = last.ident.to_string();
                let arguments = last.arguments.to_token_stream().to_string();
                let tail = last.to_token_stream().to_string();
                match text.strip_suffix(&tail) {
                    Some(qualifier) => TypeExpr::Path(TypePath {
                        qualifier: String::from(qualifier),
                        name,
                        arguments,
                    }),
                    None => TypeExpr::Other(text),
                }
            }
            None => TypeExpr::Other(text),
        },
        _ => TypeExpr::Other(text),
    }
}

fn fields(fields: &syn::Fields) -> Vec<Field> {
    fields
        .iter()
        .map(|field| Field {
            attributes: attributes(&field.attrs),
            name: field.ident.as_ref().map(|ident| ident.to_string()).unwrap_or_default(),
            ty: type_expr(&field.ty),
            type_debug: format!("{:?}", field.ty),
        })
        .collect()
}

fn shape(syntax: &syn::Fields) -> Shape {
    match syntax {
        syn::Fields::Named(_) => Shape::Named(fields(syntax)),
        syn::Fields::Unnamed(_) => Shape::Positional(fields(syntax)),
        syn::Fields::Unit => Shape::Unit,
    }
}

fn generics(generics: &syn::Generics) -> Generics {
    Generics::parse(
        &generics.to_token_stream().to_string(),
        &generics.where_clause.to_token_stream().to_string(),
    )
    .unwrap()
}

fn declaration(source: &str) -> Declaration {
    match syn::parse_str::<syn::Item>(source).unwrap() {
        syn::Item::Struct(item) => Declaration::Struct(StructDeclaration {
            attributes: attributes(&item.attrs),
            visibility: item.vis.to_token_stream().to_string(),
            name: item.ident.to_string(),
            generics: generics(&item.generics),
            shape: shape(&item.fields),
        }),
        syn::Item::Enum(item) => Declaration::Enum(EnumDeclaration {
            attributes: attributes(&item.attrs),
            visibility: item.vis.to_token_stream().to_string(),
            name: item.ident.to_string(),
            generics: generics(&item.generics),
            variants: item
                .variants
                .iter()
                .map(|variant| Variant {
                    attributes: attributes(&variant.attrs),
                    name: variant.ident.to_string(),
                    shape: shape(&variant.fields),
                })
                .collect(),
        }),
        _ => Declaration::Other,
    }
}

fn spell(stream: TokenStream, words: &mut Vec<String>) {
    for tree in stream {
        match tree {
            TokenTree::Group(group) => {
                words.push(format!("{:?}", group.delimiter()));
                spell(group.stream(), words);
                words.push(String::from("end"));
            }
            other => words.push(other.to_string()),
        }
    }
}

fn normal(source: &str) -> String {
    let mut words = Vec::new();
    spell(source.parse::<TokenStream>().unwrap(), &mut words);
    words.join(" ")
}

use ztd::diagnostic::Error;
use ztd::display::{classify, strategy_for, Macro, Strategy};

fn expand(source: &str) -> String {
    normal(&Macro::handle(&declaration(source)).unwrap())
}

fn display(name: &str, body: &str) -> String {
    normal(&format!(
        "impl ::core::fmt::Display for {name} {{
            fn fmt(&self, formatter: &mut ::core::fmt::Formatter) -> ::core::fmt::Result {{
                {body}
            }}
        }}"
    ))
}

#[test]
fn display_enum_unit_variant() {
    assert_eq!(
        expand("enum Enum { Variant, }"),
        display(
            "Enum",
            "match self { Self::Variant => formatter.debug_struct(stringify!(Variant)).finish(), }"
        )
    );
}

#[test]
fn enum_unit_variant_with_message() {
    assert_eq!(
        expand("enum Enum { #[Display(\"foobar\")] Variant, }"),
        display("Enum", "match self { Self::Variant => write!(formatter, \"foobar\"), }")
    );
}

#[test]
fn display_enum_unnamed_variant_with_one_field() {
    assert_eq!(
        expand("enum DisplayEnum { Variant(String), }"),
        display(
            "DisplayEnum",
            "match self {
                Self::Variant(value,) =>
                    formatter.debug_tuple(stringify!(Variant)).field(value).finish(),
            }"
        )
    );
}

#[test]
fn display_enum_unnamed_variant_with_two_fields() {
    assert_eq!(
        expand("enum DisplayEnum { Variant(String, String), }"),
        display(
            "DisplayEnum",
            "match self {
                Self::Variant(value0, value1,) =>
                    formatter.debug_tuple(stringify!(Variant)).field(value0).field(value1).finish(),
            }"
        )
    );
}

#[test]
fn enum_unnamed_variant_with_one_field_and_message() {
    assert_eq!(
        expand("enum Enum { #[Display(\"foo{value}\")] Variant(String), }"),
        display(
            "Enum",
            "match self { Self::Variant(value,) => write!(formatter, \"foo{value}\"), }"
        )
    );
    let value = String::from("bar");
    assert!(format!("foo{value}") == "foobar");
}

#[test]
fn enum_unnamed_variant_with_two_fields_and_message() {
    assert_eq!(
        expand("enum Enum { #[Display(\"{value1}foo{value0}\")] Variant(String, String), }"),
        display(
            "Enum",
            "match self {
                Self::Variant(value0, value1,) => write!(formatter, \"{value1}foo{value0}\"),
            }"
        )
    );
    let (value0, value1) = (String::from("bar"), String::from("hello"));
    assert!(format!("{value1}foo{value0}") == "hellofoobar");
}

#[test]
fn enum_named_variant() {
    assert_eq!(
        expand("enum DisplayEnum { Variant { _first: String, _second: String }, }"),
        display(
            "DisplayEnum",
            "match self {
                Self::Variant { _first, _second, } =>
                    formatter.debug_struct(stringify!(Variant))
                        .field(stringify!(_first), &_first)
                        .field(stringify!(_second), &_second)
                        .finish(),
            }"
        )
    );
}

#[test]
fn enum_named_variant_with_message() {
    assert_eq!(
        expand("enum Enum { #[Display(\"{first} and {second}\")] Variant { first: String, second: String }, }"),
        display(
            "Enum",
            "match self {
                Self::Variant { first, second, } => write!(formatter, \"{first} and {second}\"),
            }"
        )
    );
    let (first, second) = (String::from("foo"), String::from("bar"));
    assert!(format!("{first} and {second}") == "foo and bar");
}

#[derive(Debug)]
struct Point {
    x: i32,
    y: i32,
}

#[test]
fn display_struct() {
    assert_eq!(
        expand("struct Struct { first: String, second: String, }"),
        display(
            "Struct",
            "match self {
                Self { first, second, } =>
                    formatter.debug_struct(stringify!(Struct))
                        .field(stringify!(first), &first)
                        .field(stringify!(second), &second)
                        .finish()
            }"
        )
    );
    assert_eq!(
        expand("struct Point { x: i32, y: i32 }"),
        display(
            "Point",
            "match self {
                Self { x, y, } =>
                    formatter.debug_struct(stringify!(Point))
                        .field(stringify!(x), &x)
                        .field(stringify!(y), &y)
                        .finish()
            }"
        )
    );
    assert_eq!(format!("{:?}", Point { x: 1, y: -2 }), "Point { x: 1, y: -2 }");
}

#[test]
fn struct_with_zero_fields() {
    assert_eq!(
        expand("struct Struct {}"),
        display(
            "Struct",
            "match self { Self { } => formatter.debug_struct(stringify!(Struct)).finish() }"
        )
    );
}

#[test]
fn struct_with_message() {
    assert_eq!(
        expand("#[Display(\"{first} and then {second}\")] struct Struct { first: String, second: String, }"),
        display(
            "Struct",
            "match self {
                Self { first, second, } => write!(formatter, \"{first} and then {second}\")
            }"
        )
    );
}

#[test]
fn display_tuple_struct() {
    assert_eq!(
        expand("struct TupleStruct(String, String);"),
        display(
            "TupleStruct",
            "match self {
                Self(value0, value1,) =>
                    formatter.debug_tuple(stringify!(TupleStruct))
                        .field(value0)
                        .field(value1)
                        .finish()
            }"
        )
    );
}

#[test]
fn display_tuple_struct_with_zero_fields() {
    assert_eq!(
        expand("struct TupleStruct(());"),
        display(
            "TupleStruct",
            "match self {
                Self(value,) => formatter.debug_tuple(stringify!(TupleStruct)).field(value).finish()
            }"
        )
    );
    assert_eq!(
        expand("struct TupleStruct();"),
        display(
            "TupleStruct",
            "match self { Self() => formatter.debug_tuple(stringify!(TupleStruct)).finish() }"
        )
    );
}

#[test]
fn tuple_struct_with_message() {
    assert_eq!(
        expand("#[Display(\"{value0} and then {value1}\")] struct TupleStruct(String, String);"),
        display(
            "TupleStruct",
            "match self {
                Self(value0, value1,) => write!(formatter, \"{value0} and then {value1}\")
            }"
        )
    );
    let TupleStructValue(value0, value1) = TupleStructValue("foo", "bar");
    assert!(format!("{value0} and then {value1}") == "foo and then bar");
}

struct TupleStructValue(&'static str, &'static str);

#[test]
fn newtype_struct() {
    assert_eq!(
        expand("struct TupleStruct(String);"),
        display(
            "TupleStruct",
            "match self {
                Self(value,) => formatter.debug_tuple(stringify!(TupleStruct)).field(value).finish()
            }"
        )
    );
}

#[test]
fn newtype_struct_with_message() {
    assert_eq!(
        expand("#[Display(\"{value}bar\")] struct TupleStruct(String);"),
        display("TupleStruct", "match self { Self(value,) => write!(formatter, \"{value}bar\") }")
    );
}

#[test]
fn display_unit_struct() {
    assert_eq!(
        expand("struct Struct;"),
        display("Struct", "formatter.debug_struct(stringify!(Struct)).finish()")
    );
}

#[test]
fn unit_struct_with_message() {
    assert_eq!(
        expand("#[Display(\"foobar\")] struct Struct;"),
        display("Struct", "write!(formatter, \"foobar\")")
    );
}

#[test]
fn enum_named_with_closure() {
    assert_eq!(
        expand("enum Enum { #[Display(|| format!(\"Hello {}\", first))] Case { first: String }, }"),
        display(
            "Enum",
            "match self {
                Self::Case { first, } =>
                    write!(formatter, \"{}\", (|| format!(\"Hello {}\", first))()),
            }"
        )
    );
}

#[test]
fn enum_named_with_block() {
    assert_eq!(
        expand("enum Enum { #[Display({ format!(\"Hello {}\", first) })] Case { first: String }, }"),
        display(
            "Enum",
            "match self {
                Self::Case { first, } => write!(formatter, \"{}\", { format!(\"Hello {}\", first) }),
            }"
        )
    );
}

#[test]
fn enum_named_with_function_call() {
    assert_eq!(
        expand("enum Enum { #[Display(foobar(first))] Case { first: String }, }"),
        display(
            "Enum",
            "match self { Self::Case { first, } => write!(formatter, \"{}\", foobar(first)), }"
        )
    );
}

#[test]
fn enum_named_with_function() {
    assert_eq!(
        expand("enum Enum { #[Display(foobar)] Case { first: String }, }"),
        display(
            "Enum",
            "match self { Self::Case { first, } => write!(formatter, \"{}\", foobar(first,)), }"
        )
    );
}

#[test]
fn enum_unnamed_with_closure() {
    assert_eq!(
        expand("enum Enum { #[Display(|| format!(\"Hello {}\", value))] Case(String), }"),
        display(
            "Enum",
            "match self {
                Self::Case(value,) => write!(formatter, \"{}\", (|| format!(\"Hello {}\", value))()),
            }"
        )
    );
}

#[test]
fn enum_unnamed_with_block() {
    assert_eq!(
        expand("enum Enum { #[Display({ format!(\"Hello {}\", value) })] Case(String), }"),
        display(
            "Enum",
            "match self {
                Self::Case(value,) => write!(formatter, \"{}\", { format!(\"Hello {}\", value) }),
            }"
        )
    );
}

#[test]
fn enum_unnamed_with_call() {
    assert_eq!(
        expand("enum Enum { #[Display(foobar(value))] Case(String), }"),
        display(
            "Enum",
            "match self { Self::Case(value,) => write!(formatter, \"{}\", foobar(value)), }"
        )
    );
}

#[test]
fn enum_unnamed_with_path() {
    assert_eq!(
        expand("enum Enum { #[Display(foobar)] Case(String), }"),
        display(
            "Enum",
            "match self { Self::Case(value,) => write!(formatter, \"{}\", foobar(value,)), }"
        )
    );
    assert_eq!(
        expand("enum Enum { #[Display(module::foobar)] Case(String, u8), }"),
        display(
            "Enum",
            "match self {
                Self::Case(value0, value1,) =>
                    write!(formatter, \"{}\", module::foobar(value0, value1,)),
            }"
        )
    );
}

#[test]
fn enum_unit_with_closure() {
    assert_eq!(
        expand("enum Enum { #[Display(|| format!(\"Hello foo\"))] Case, }"),
        display(
            "Enum",
            "match self { Self::Case => write!(formatter, \"{}\", (|| format!(\"Hello foo\"))()), }"
        )
    );
}

#[test]
fn enum_unit_with_block() {
    assert_eq!(
        expand("enum Enum { #[Display({ format!(\"Hello foo\") })] Case, }"),
        display(
            "Enum",
            "match self { Self::Case => write!(formatter, \"{}\", { format!(\"Hello foo\") }), }"
        )
    );
}

#[test]
fn enum_unit_with_call() {
    assert_eq!(
        expand("enum Enum { #[Display(foobar(\"foo\"))] Case, }"),
        display(
            "Enum",
            "match self { Self::Case => write!(formatter, \"{}\", foobar(\"foo\")), }"
        )
    );
}

#[test]
fn enum_unit_with_path() {
    assert_eq!(
        expand("enum Enum { #[Display(foobar)] Case, }"),
        display("Enum", "match self { Self::Case => write!(formatter, \"{}\", foobar()), }")
    );
}

#[test]
fn enum_unit_with_invalid_token() {
    let error =
        Macro::handle(&declaration("#[derive(Display)] enum Enum { #[Display(return)] Case, }"))
            .unwrap_err();
    assert!(matches!(error, Error::UnsupportedStrategy));
    assert_eq!(error.message(), "Unsupported strategy");
}

#[test]
fn display_union() {
    let error = Macro::handle(&declaration("#[derive(Displya)] union Union { }")).unwrap_err();
    assert!(matches!(error, Error::UnsupportedItem));
    assert_eq!(error.message(), "Unsupported item");
}

#[test]
fn strategies_are_tried_in_order() {
    assert!(matches!(classify(String::from("\"text\"")), Some(Strategy::Message(_))));
    assert!(matches!(classify(String::from("r#\"text\"#")), Some(Strategy::Message(_))));
    assert!(matches!(classify(String::from("|| 1")), Some(Strategy::Closure(_))));
    assert!(matches!(classify(String::from("move |x| x")), Some(Strategy::Closure(_))));
    assert!(matches!(classify(String::from("{ 1 }")), Some(Strategy::Block(_))));
    assert!(matches!(classify(String::from("f(1)")), Some(Strategy::Call(_))));
    assert!(matches!(classify(String::from("a::b(1)(2)")), Some(Strategy::Call(_))));
    assert!(matches!(classify(String::from("f")), Some(Strategy::Path(_))));
    assert!(matches!(classify(String::from("a::b::<u8>")), Some(Strategy::Path(_))));
    assert!(classify(String::from("return")).is_none());
    assert!(classify(String::from("1 + 1")).is_none());
    assert!(classify(String::from("\"a\" \"b\"")).is_none());
    assert!(classify(String::from("")).is_none());
    assert!(classify(String::from("a.b()")).is_none());
    assert!(classify(String::from("1")).is_none());
    match classify(String::from("\"kept\"")) {
        Some(Strategy::Message(text)) => assert_eq!(text, "\"kept\""),
        _ => panic!("no message"),
    }
}

#[test]
fn strategy_failures() {
    let failure = |source: &str| Macro::handle(&declaration(source)).unwrap_err();
    assert!(matches!(failure("#[Display] struct S;"), Error::UnsupportedStrategy));
    assert!(matches!(failure("#[Display = \"x\"] struct S;"), Error::UnsupportedStrategy));
    assert!(matches!(failure("#[Display()] struct S;"), Error::UnsupportedStrategy));
    assert!(matches!(failure("#[Display(1)] enum E { A }"), Error::UnsupportedStrategy));
    assert!(matches!(
        failure("enum E { A, #[Display(\"a\", \"b\")] B, #[Display(return)] C }"),
        Error::UnsupportedStrategy
    ));
    assert!(matches!(failure("fn f() {}"), Error::UnsupportedItem));
}

#[test]
fn the_first_display_attribute_is_read() {
    assert_eq!(
        expand("#[doc = \"x\"] #[Display(\"first\")] #[Display(return)] struct S;"),
        display("S", "write!(formatter, \"first\")")
    );
}

#[test]
fn strategy_of_the_enum_stands_for_its_variants() {
    assert_eq!(
        expand("#[Display(\"any\")] enum E { A, #[Display(\"own\")] B(u8), C { c: u8 } }"),
        display(
            "E",
            "match self {
                Self::A => write!(formatter, \"any\"),
                Self::B(value,) => write!(formatter, \"own\"),
                Self::C { c, } => write!(formatter, \"any\"),
            }"
        )
    );
}

#[test]
fn display_carries_generics() {
    assert_eq!(
        expand("struct Wrapper<'a, T: ?Sized = str>(&'a T) where T: std::fmt::Debug;"),
        normal(
            "impl<'a, T: ?Sized> ::core::fmt::Display for Wrapper<'a, T> where T: std::fmt::Debug {
                fn fmt(&self, formatter: &mut ::core::fmt::Formatter) -> ::core::fmt::Result {
                    match self {
                        Self(value,) =>
                            formatter.debug_tuple(stringify!(Wrapper)).field(value).finish()
                    }
                }
            }"
        )
    );
}

#[test]
fn every_variant_has_its_arm() {
    assert_eq!(
        expand("enum E { A, B(u8, u8, u8), C {} }"),
        display(
            "E",
            "match self {
                Self::A => formatter.debug_struct(stringify!(A)).finish(),
                Self::B(value0, value1, value2,) => formatter.debug_tuple(stringify!(B))
                    .field(value0).field(value1).field(value2).finish(),
                Self::C { } => formatter.debug_struct(stringify!(C)).finish(),
            }"
        )
    );
    assert_eq!(expand("enum E {}"), display("E", "match self { }"));
}

#[test]
fn the_first_accepted_form_decides() {
    let choose = |literal: bool, closure: bool, block: bool, call: bool, path: bool| {
        strategy_for(String::from("text"), literal, closure, block, call, path)
    };
    assert!(choose(false, false, false, false, false).is_none());
    assert!(matches!(choose(true, false, false, false, false), Some(Strategy::Message(_))));
    assert!(matches!(choose(true, true, true, true, true), Some(Strategy::Message(_))));
    assert!(matches!(choose(false, true, false, false, false), Some(Strategy::Closure(_))));
    assert!(matches!(choose(false, true, true, true, true), Some(Strategy::Closure(_))));
    assert!(matches!(choose(false, false, true, false, false), Some(Strategy::Block(_))));
    assert!(matches!(choose(false, false, true, true, true), Some(Strategy::Block(_))));
    assert!(matches!(choose(false, false, false, true, false), Some(Strategy::Call(_))));
    assert!(matches!(choose(false, false, false, true, true), Some(Strategy::Call(_))));
    assert!(matches!(choose(false, false, false, false, true), Some(Strategy::Path(_))));
    match choose(false, false, false, false, true) {
        Some(Strategy::Path(text)) => assert_eq!(text, "text"),
        _ => panic!("no path"),
    }
}
