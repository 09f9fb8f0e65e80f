//! The declaration that a generator reads: a struct or an enum with its
//! attributes, generics, fields and variants, held as plain values.

use crate::syntax::{spell_out, split_generics};
use crate::text::{decimal, decimal_text};
use crate::token::{bracketed, render, tokens_text, Delimiter, Token, TokenView};
use vstd::prelude::*;
use vstd::string::*;

verus! {

/// A type written as a path: `qualifier`, then the last segment's `name`,
/// then that segment's generic `arguments`. Qualifier and arguments are
/// source text and may be empty.
#[derive(Debug)]
pub struct TypePath {
    pub qualifier: String,
    pub name: String,
    pub arguments: String,
}

/// A type, with as much of its structure as the generators look at.
#[derive(Debug)]
pub enum TypeExpr {
    Path(TypePath),
    /// A tuple type, the unit type included.
    Tuple(Vec<TypeExpr>),
    /// Any other type, as source text.
    Other(String),
}

/// The mathematical content of a [`TypePath`].
pub ghost struct TypePathView {
    pub qualifier: Seq<char>,
    pub name: Seq<char>,
    pub arguments: Seq<char>,
}

/// The mathematical content of a [`TypeExpr`].
pub ghost enum TypeExprView {
    Path(TypePathView),
    Tuple(Seq<TypeExprView>),
    Other(Seq<char>),
}

impl View for TypePath {
    type V = TypePathView;

    open spec fn view(&self) -> TypePathView {
        TypePathView { qualifier: self.qualifier@, name: self.name@, arguments: self.arguments@ }
    }
}

impl View for TypeExpr {
    type V = TypeExprView;

    open spec fn view(&self) -> TypeExprView
        decreases self,
    {
        match self {
            TypeExpr::Path(path) => TypeExprView::Path(path@),
            TypeExpr::Tuple(elements) => TypeExprView::Tuple(
                Seq::new(
                    elements@.len(),
                    |i: int|
                        if 0 <= i < elements@.len() {
                            elements@[i].view()
                        } else {
                            TypeExprView::Other(Seq::empty())
                        },
                ),
            ),
            TypeExpr::Other(text) => TypeExprView::Other(text@),
        }
    }
}

impl DeepView for TypeExpr {
    type V = TypeExprView;

    open spec fn deep_view(&self) -> TypeExprView {
        self@
    }
}

/// The source text of a path type.
pub open spec fn path_text(path: TypePathView) -> Seq<char> {
    path.qualifier + path.name + path.arguments
}

/// The source text of a type. A tuple is written with a comma after every
/// element.
pub open spec fn type_text(ty: TypeExprView) -> Seq<char>
    decreases ty, 0int,
{
    match ty {
        TypeExprView::Path(path) => path_text(path),
        TypeExprView::Tuple(elements) => "("@ + elements_text(elements, elements.len() as int)
            + ")"@,
        TypeExprView::Other(text) => text,
    }
}

/// The source text of the first `n` elements of a tuple type.
pub open spec fn elements_text(elements: Seq<TypeExprView>, n: int) -> Seq<char>
    decreases elements, n,
{
    if n <= 0 || n > elements.len() {
        Seq::empty()
    } else {
        elements_text(elements, n - 1) + type_text(elements[n - 1]) + ", "@
    }
}

impl TypePath {
    /// Appends the path's source text to `out`.
    pub fn write(&self, out: &mut String)
        ensures
            final(out)@ == old(out)@ + path_text(self@),
    {
        out.append(self.qualifier.as_str());
        out.append(self.name.as_str());
        out.append(self.arguments.as_str());
        assert(out@ =~= old(out)@ + path_text(self@));
    }
}

impl TypeExpr {
    /// Appends the type's source text to `out`.
    pub fn write(&self, out: &mut String)
        ensures
            final(out)@ == old(out)@ + type_text(self@),
        decreases self,
    {
        match self {
            TypeExpr::Path(path) => path.write(out),
            TypeExpr::Tuple(elements) => {
                out.append("(");
                let ghost views = self@->Tuple_0;
                let mut i: usize = 0;
                while i < elements.len()
                    invariant
                        i <= elements.len(),
                        self == TypeExpr::Tuple(*elements),
                        views == self@->Tuple_0,
                        views.len() == elements.len(),
                        out@ == old(out)@ + "("@ + elements_text(views, i as int),
                    decreases elements.len() - i,
                {
                    elements[i].write(out);
                    out.append(", ");
                    i += 1;
                    assert(out@ =~= old(out)@ + "("@ + elements_text(views, i as int)) by {
                        assert(views[i - 1] == elements@[i - 1]@);
                    }
                }
                out.append(")");
                assert(out@ =~= old(out)@ + type_text(self@));
            },
            TypeExpr::Other(text) => out.append(text.as_str()),
        }
    }

    /// The type's source text.
    pub fn text(&self) -> (s: String)
        ensures
            s@ == type_text(self@),
    {
        let mut s = String::new();
        self.write(&mut s);
        assert(s@ =~= type_text(self@));
        s
    }
}

/// What follows an attribute's name.
#[derive(Debug)]
pub enum Arguments {
    /// Nothing: `#[name]`.
    Absent,
    /// A bracketed list of tokens: `#[name(...)]`.
    List { delimiter: Delimiter, tokens: Vec<Token> },
    /// A value: `#[name = value]`, the value as source text.
    Value(String),
}

/// An attribute on a declaration, a field or a variant.
#[derive(Debug)]
pub struct Attribute {
    /// The attribute's path as written, such as `Method`.
    pub path: String,
    pub arguments: Arguments,
}

/// The mathematical content of an [`Arguments`].
pub ghost enum ArgumentsView {
    Absent,
    List { delimiter: Delimiter, tokens: Seq<TokenView> },
    Value(Seq<char>),
}

/// The mathematical content of an [`Attribute`].
pub ghost struct AttributeView {
    pub path: Seq<char>,
    pub arguments: ArgumentsView,
}

impl View for Arguments {
    type V = ArgumentsView;

    open spec fn view(&self) -> ArgumentsView {
        match self {
            Arguments::Absent => ArgumentsView::Absent,
            Arguments::List { delimiter, tokens } => ArgumentsView::List {
                delimiter: *delimiter,
                tokens: tokens.deep_view(),
            },
            Arguments::Value(value) => ArgumentsView::Value(value@),
        }
    }
}

impl View for Attribute {
    type V = AttributeView;

    open spec fn view(&self) -> AttributeView {
        AttributeView { path: self.path@, arguments: self.arguments@ }
    }
}

impl DeepView for Attribute {
    type V = AttributeView;

    open spec fn deep_view(&self) -> AttributeView {
        self@
    }
}

/// The source text of what follows an attribute's name.
pub open spec fn arguments_text(arguments: ArgumentsView) -> Seq<char> {
    match arguments {
        ArgumentsView::Absent => Seq::empty(),
        ArgumentsView::List { delimiter, tokens } => bracketed(
            delimiter,
            tokens_text(tokens, 0, tokens.len() as int),
        ),
        ArgumentsView::Value(value) => " = "@ + value,
    }
}

/// The source text of an attribute, followed by a space.
pub open spec fn attribute_text(attribute: AttributeView) -> Seq<char> {
    "#["@ + attribute.path + arguments_text(attribute.arguments) + "] "@
}

impl Attribute {
    /// Appends the attribute's source text and a space to `out`.
    pub fn write(&self, out: &mut String)
        ensures
            final(out)@ == old(out)@ + attribute_text(self@),
    {
        out.append("#[");
        out.append(self.path.as_str());
        match &self.arguments {
            Arguments::Absent => {},
            Arguments::List { delimiter, tokens } => {
                out.append(delimiter.opening());
                let inner = render(tokens, 0, tokens.len());
                out.append(inner.as_str());
                out.append(delimiter.closing());
            },
            Arguments::Value(value) => {
                out.append(" = ");
                out.append(value.as_str());
            },
        }
        out.append("] ");
        assert(out@ =~= old(out)@ + attribute_text(self@));
    }
}

/// A field of a struct or of a variant. In a positional shape the name is
/// not read.
#[derive(Debug)]
pub struct Field {
    pub attributes: Vec<Attribute>,
    pub name: String,
    pub ty: TypeExpr,
    /// The type in the debug form of the parser's syntax tree, as a
    /// diagnostic names it.
    pub type_debug: String,
}

/// The mathematical content of a [`Field`].
pub ghost struct FieldView {
    pub attributes: Seq<AttributeView>,
    pub name: Seq<char>,
    pub ty: TypeExprView,
    pub type_debug: Seq<char>,
}

impl View for Field {
    type V = FieldView;

    open spec fn view(&self) -> FieldView {
        FieldView {
            attributes: self.attributes.deep_view(),
            name: self.name@,
            ty: self.ty@,
            type_debug: self.type_debug@,
        }
    }
}

impl DeepView for Field {
    type V = FieldView;

    open spec fn deep_view(&self) -> FieldView {
        self@
    }
}

/// The fields of a struct or of a variant.
#[derive(Debug)]
pub enum Shape {
    /// `{ name: Type, ... }`
    Named(Vec<Field>),
    /// `(Type, ...)`
    Positional(Vec<Field>),
    /// No field list.
    Unit,
}

/// The mathematical content of a [`Shape`].
pub ghost enum ShapeView {
    Named(Seq<FieldView>),
    Positional(Seq<FieldView>),
    Unit,
}

impl ShapeView {
    /// The fields in declaration order; none for a unit shape.
    pub open spec fn fields(self) -> Seq<FieldView> {
        match self {
            ShapeView::Named(fields) => fields,
            ShapeView::Positional(fields) => fields,
            ShapeView::Unit => Seq::empty(),
        }
    }

    /// The name under which field `i` is bound in generated code: its own
    /// name, or `value` and its position for a positional field.
    pub open spec fn binding(self, i: int) -> Seq<char> {
        match self {
            ShapeView::Named(fields) => fields[i].name,
            _ => "value"@ + decimal(i as nat),
        }
    }

    /// The label before the type or the value of field `i`: its name and a
    /// colon, or nothing for a positional field.
    pub open spec fn label(self, i: int) -> Seq<char> {
        match self {
            ShapeView::Named(fields) => fields[i].name + ": "@,
            _ => Seq::empty(),
        }
    }

    /// How field `i` is written after `self.`: its name, or its position.
    pub open spec fn member(self, i: int) -> Seq<char> {
        match self {
            ShapeView::Named(fields) => fields[i].name,
            _ => decimal(i as nat),
        }
    }
}

impl View for Shape {
    type V = ShapeView;

    open spec fn view(&self) -> ShapeView {
        match self {
            Shape::Named(fields) => ShapeView::Named(fields.deep_view()),
            Shape::Positional(fields) => ShapeView::Positional(fields.deep_view()),
            Shape::Unit => ShapeView::Unit,
        }
    }
}

impl Shape {
    /// The number of fields.
    pub fn len(&self) -> (n: usize)
        ensures
            n == self@.fields().len(),
    {
        match self {
            Shape::Named(fields) => fields.len(),
            Shape::Positional(fields) => fields.len(),
            Shape::Unit => 0,
        }
    }

    /// Field `i`.
    pub fn field(&self, i: usize) -> (field: &Field)
        requires
            i < self@.fields().len(),
        ensures
            field@ == self@.fields()[i as int],
    {
        match self {
            Shape::Named(fields) => &fields[i],
            Shape::Positional(fields) => &fields[i],
            Shape::Unit => vstd::pervasive::unreached(),
        }
    }

    /// The name under which field `i` is bound in generated code.
    pub fn binding(&self, i: usize) -> (s: String)
        requires
            i < self@.fields().len(),
        ensures
            s@ == self@.binding(i as int),
    {
        match self {
            Shape::Named(fields) => String::from_str(fields[i].name.as_str()),
            _ => {
                let mut s = String::from_str("value");
                s.append(decimal_text(i).as_str());
                s
            },
        }
    }

    /// Appends the label of field `i` to `out`.
    pub fn write_label(&self, i: usize, out: &mut String)
        requires
            i < self@.fields().len(),
        ensures
            final(out)@ == old(out)@ + self@.label(i as int),
    {
        match self {
            Shape::Named(fields) => {
                out.append(fields[i].name.as_str());
                out.append(": ");
                assert(out@ =~= old(out)@ + self@.label(i as int));
            },
            _ => {
                assert(out@ =~= old(out)@ + self@.label(i as int));
            },
        }
    }

    /// How field `i` is written after `self.`.
    pub fn member(&self, i: usize) -> (s: String)
        requires
            i < self@.fields().len(),
        ensures
            s@ == self@.member(i as int),
    {
        match self {
            Shape::Named(fields) => String::from_str(fields[i].name.as_str()),
            _ => decimal_text(i),
        }
    }
}

/// The generic parameters of a declaration: the list as declared, as
/// written after `impl` and as written after the type's name, and the
/// `where` clause. Made by [`Generics::parse`], which has the parser derive
/// the second and third from the first; what the parser gives is kept as
/// it comes.
#[derive(Debug)]
pub struct Generics {
    declared: String,
    for_impl: String,
    for_type: String,
    where_clause: String,
}

/// The mathematical content of a [`Generics`].
pub ghost struct GenericsView {
    pub declared: Seq<char>,
    pub for_impl: Seq<char>,
    pub for_type: Seq<char>,
    pub where_clause: Seq<char>,
}

impl View for Generics {
    type V = GenericsView;

    closed spec fn view(&self) -> GenericsView {
        GenericsView {
            declared: self.declared@,
            for_impl: self.for_impl@,
            for_type: self.for_type@,
            where_clause: self.where_clause@,
        }
    }
}

impl Generics {
    /// Reads a generic parameter list (`<` to `>`, or empty text) and keeps
    /// the `where` clause beside it; `None` where the parser refuses the
    /// text. The declared list and the clause are kept as given; the two
    /// derived forms are the parser's.
    pub fn parse(declared: &str, where_clause: &str) -> (r: Option<Generics>)
        ensures
            r matches Some(g) ==> g@.declared == declared@ && g@.where_clause == where_clause@,
    {
        match split_generics(declared) {
            Some((for_impl, for_type)) => Some(
                Generics {
                    declared: String::from_str(declared),
                    for_impl: spell_out(&for_impl),
                    for_type: spell_out(&for_type),
                    where_clause: String::from_str(where_clause),
                },
            ),
            None => None,
        }
    }

    /// The list as declared.
    pub fn declared(&self) -> (s: &str)
        ensures
            s@ == self@.declared,
    {
        self.declared.as_str()
    }

    /// The list as written after `impl`.
    pub fn for_impl(&self) -> (s: &str)
        ensures
            s@ == self@.for_impl,
    {
        self.for_impl.as_str()
    }

    /// The list as written after the type's name.
    pub fn for_type(&self) -> (s: &str)
        ensures
            s@ == self@.for_type,
    {
        self.for_type.as_str()
    }

    /// The `where` clause.
    pub fn where_clause(&self) -> (s: &str)
        ensures
            s@ == self@.where_clause,
    {
        self.where_clause.as_str()
    }
}

/// A struct declaration.
#[derive(Debug)]
pub struct StructDeclaration {
    pub attributes: Vec<Attribute>,
    /// The visibility as source text, empty when none is written.
    pub visibility: String,
    pub name: String,
    pub generics: Generics,
    pub shape: Shape,
}

/// A variant of an enum.
#[derive(Debug)]
pub struct Variant {
    pub attributes: Vec<Attribute>,
    pub name: String,
    pub shape: Shape,
}

/// An enum declaration.
#[derive(Debug)]
pub struct EnumDeclaration {
    pub attributes: Vec<Attribute>,
    pub visibility: String,
    pub name: String,
    pub generics: Generics,
    pub variants: Vec<Variant>,
}

/// The item that a generator is applied to.
#[derive(Debug)]
pub enum Declaration {
    Struct(StructDeclaration),
    Enum(EnumDeclaration),
    /// Any other kind of item, a union for one.
    Other,
}

/// The mathematical content of a [`StructDeclaration`].
pub ghost struct StructView {
    pub attributes: Seq<AttributeView>,
    pub visibility: Seq<char>,
    pub name: Seq<char>,
    pub generics: GenericsView,
    pub shape: ShapeView,
}

/// The mathematical content of a [`Variant`].
pub ghost struct VariantView {
    pub attributes: Seq<AttributeView>,
    pub name: Seq<char>,
    pub shape: ShapeView,
}

/// The mathematical content of an [`EnumDeclaration`].
pub ghost struct EnumView {
    pub attributes: Seq<AttributeView>,
    pub visibility: Seq<char>,
    pub name: Seq<char>,
    pub generics: GenericsView,
    pub variants: Seq<VariantView>,
}

/// The mathematical content of a [`Declaration`].
pub ghost enum DeclarationView {
    Struct(StructView),
    Enum(EnumView),
    Other,
}

impl View for StructDeclaration {
    type V = StructView;

    open spec fn view(&self) -> StructView {
        StructView {
            attributes: self.attributes.deep_view(),
            visibility: self.visibility@,
            name: self.name@,
            generics: self.generics@,
            shape: self.shape@,
        }
    }
}

impl View for Variant {
    type V = VariantView;

    open spec fn view(&self) -> VariantView {
        VariantView {
            attributes: self.attributes.deep_view(),
            name: self.name@,
            shape: self.shape@,
        }
    }
}

impl DeepView for Variant {
    type V = VariantView;

    open spec fn deep_view(&self) -> VariantView {
        self@
    }
}

impl View for EnumDeclaration {
    type V = EnumView;

    open spec fn view(&self) -> EnumView {
        EnumView {
            attributes: self.attributes.deep_view(),
            visibility: self.visibility@,
            name: self.name@,
            generics: self.generics@,
            variants: self.variants.deep_view(),
        }
    }
}

impl View for Declaration {
    type V = DeclarationView;

    open spec fn view(&self) -> DeclarationView {
        match self {
            Declaration::Struct(item) => DeclarationView::Struct(item@),
            Declaration::Enum(item) => DeclarationView::Enum(item@),
            Declaration::Other => DeclarationView::Other,
        }
    }
}

/// The opening of an implementation block for a type: `impl`, the generics,
/// `subject` (a trait and `for`, or nothing), the type with its generic
/// arguments, the `where` clause and the opening brace.
pub open spec fn impl_header(generics: GenericsView, subject: Seq<char>, name: Seq<char>) -> Seq<
    char,
> {
    "impl "@ + generics.for_impl + " "@ + subject + name + " "@ + generics.for_type + " "@
        + generics.where_clause + " { "@
}

/// Appends the opening of an implementation block to `out`.
pub fn write_impl_header(out: &mut String, generics: &Generics, subject: &str, name: &str)
    ensures
        final(out)@ == old(out)@ + impl_header(generics@, subject@, name@),
{
    out.append("impl ");
    out.append(generics.for_impl());
    out.append(" ");
    out.append(subject);
    out.append(name);
    out.append(" ");
    out.append(generics.for_type());
    out.append(" ");
    out.append(generics.where_clause());
    out.append(" { ");
    assert(out@ =~= old(out)@ + impl_header(generics@, subject@, name@));
}

} // verus!
