//! The two projection generators. Each declares a sibling of a struct,
//! named after it with a suffix, whose fields are all public, and gives the
//! struct a method that turns it into its sibling. A field marked `skip`
//! is left out; one marked `flatten` is projected through its own type's
//! projection.

use crate::attribute::{keys_of, read_keys, Key, KeyUse, KeyUseView, Position};
use crate::declaration::{
    attribute_text, impl_header, type_text, write_impl_header, Attribute, AttributeView,
    Declaration, DeclarationView, FieldView, Shape, ShapeView, StructDeclaration, StructView,
    TypeExpr, TypeExprView,
};
use crate::diagnostic::{Error, ErrorView};
use crate::policy::{collected, lemma_collected, lemma_collected_prefix_failure, Setting};
use crate::token::same;
use vstd::prelude::*;
use vstd::string::*;

verus! {

/// Which of the two projections is generated.
#[derive(Clone, Copy, Debug, PartialEq, Eq, Structural)]
pub enum Projection {
    Inner,
    Record,
}

/// What a field's attribute asks for; the two exclude each other.
#[derive(Clone, Copy, Debug, PartialEq, Eq, Structural)]
pub enum ExclusiveFieldModifier {
    Skip,
    Flatten,
}

/// The policy of one field.
#[derive(Clone, Copy, Debug, PartialEq, Eq, Structural)]
pub struct FieldModifier {
    pub exclusive: Option<ExclusiveFieldModifier>,
}

impl FieldModifier {
    /// Sets the field's modifier; a later call replaces an earlier one.
    pub fn set_exclusive(&mut self, exclusive: ExclusiveFieldModifier)
        ensures
            final(self).exclusive == Some(exclusive),
    {
        self.exclusive = Some(exclusive)
    }
}

/// The policy of every field of a struct, in declaration order.
#[derive(Debug)]
pub struct Data {
    pub fields: Vec<FieldModifier>,
}

impl View for Data {
    type V = Seq<FieldModifier>;

    open spec fn view(&self) -> Seq<FieldModifier> {
        self.fields@
    }
}

/// The position at which a projection reads its attribute.
pub open spec fn position(projection: Projection) -> Position {
    match projection {
        Projection::Inner => Position::InnerField,
        Projection::Record => Position::RecordField,
    }
}

/// The suffix of the sibling's name, which is also the attribute's name.
pub open spec fn suffix(projection: Projection) -> Seq<char> {
    match projection {
        Projection::Inner => "Inner"@,
        Projection::Record => "Record"@,
    }
}

/// The name of the projecting method.
pub open spec fn method_name(projection: Projection) -> Seq<char> {
    match projection {
        Projection::Inner => "into_inner"@,
        Projection::Record => "into_record"@,
    }
}

/// The modifier that the first `n` keys leave: that of the last `flatten`
/// or `skip` among them.
pub open spec fn modifier_after(keys: Seq<KeyUseView>, n: int) -> FieldModifier
    decreases n,
{
    if n <= 0 || n > keys.len() {
        FieldModifier { exclusive: None }
    } else {
        match keys[n - 1].key {
            Key::Flatten => FieldModifier { exclusive: Some(ExclusiveFieldModifier::Flatten) },
            Key::Item(Setting::Skipped) => FieldModifier {
                exclusive: Some(ExclusiveFieldModifier::Skip),
            },
            _ => modifier_after(keys, n - 1),
        }
    }
}

/// The policy of one field.
pub open spec fn field_modifier(projection: Projection, field: FieldView) -> Result<
    FieldModifier,
    ErrorView,
> {
    match keys_of(position(projection), field.attributes) {
        Ok(keys) => Ok(modifier_after(keys, keys.len() as int)),
        Err(e) => Err(e),
    }
}

/// The policy of each field of `item`.
pub open spec fn field_modifiers(projection: Projection, item: StructView) -> spec_fn(int) -> Result<
    FieldModifier,
    ErrorView,
> {
    |i: int| field_modifier(projection, item.shape.fields()[i])
}

/// What the attributes of the fields of `item` ask for; the failure of
/// the first field that has one.
pub open spec fn read(projection: Projection, item: StructView) -> Result<
    Seq<FieldModifier>,
    ErrorView,
> {
    collected(item.shape.fields().len() as int, field_modifiers(projection, item))
}

/// Whether a field is left out of the sibling.
pub open spec fn skipped(modifier: FieldModifier) -> bool {
    modifier.exclusive == Some(ExclusiveFieldModifier::Skip)
}

/// Whether a field is projected through its own projection.
pub open spec fn flattened(modifier: FieldModifier) -> bool {
    modifier.exclusive == Some(ExclusiveFieldModifier::Flatten)
}

/// The type, in its debug form, of the first field among the first `n`
/// that is marked `flatten` though its type is no path.
pub open spec fn invalid_flatten(shape: ShapeView, modifiers: Seq<FieldModifier>, n: int)
    -> Option<Seq<char>>
    decreases n,
{
    if n <= 0 || n > modifiers.len() {
        None
    } else {
        match invalid_flatten(shape, modifiers, n - 1) {
            Some(ty) => Some(ty),
            None => if flattened(modifiers[n - 1]) && !(shape.fields()[n - 1].ty is Path) {
                Some(shape.fields()[n - 1].type_debug)
            } else {
                None
            },
        }
    }
}

/// The first `n` attributes of an item, as they are written on the
/// sibling: all but the projection's own.
pub open spec fn carried_attributes(
    projection: Projection,
    attributes: Seq<AttributeView>,
    n: int,
) -> Seq<char>
    decreases n,
{
    if n <= 0 || n > attributes.len() {
        Seq::empty()
    } else if attributes[n - 1].path == suffix(projection) {
        carried_attributes(projection, attributes, n - 1)
    } else {
        carried_attributes(projection, attributes, n - 1) + attribute_text(attributes[n - 1])
    }
}

/// The type of a field in the sibling: for a flattened field the sibling
/// of its type, named by the same path with the suffix after its last
/// name; otherwise the field's own type.
pub open spec fn sibling_type(projection: Projection, ty: TypeExprView, modifier: FieldModifier)
    -> Seq<char> {
    match ty {
        TypeExprView::Path(path) => if flattened(modifier) {
            path.qualifier + path.name + suffix(projection) + path.arguments
        } else {
            type_text(ty)
        },
        _ => type_text(ty),
    }
}

/// Field `i` as declared in the sibling, with the comma after it; nothing
/// for a skipped field.
pub open spec fn sibling_field(
    projection: Projection,
    shape: ShapeView,
    modifier: FieldModifier,
    i: int,
) -> Seq<char> {
    if skipped(modifier) {
        Seq::empty()
    } else {
        carried_attributes(
            projection,
            shape.fields()[i].attributes,
            shape.fields()[i].attributes.len() as int,
        ) + "pub "@ + shape.label(i) + sibling_type(projection, shape.fields()[i].ty, modifier)
            + ", "@
    }
}

/// The value of field `i` in the projecting method, with the comma after
/// it; nothing for a skipped field.
pub open spec fn projected_field(
    projection: Projection,
    shape: ShapeView,
    modifier: FieldModifier,
    i: int,
) -> Seq<char> {
    if skipped(modifier) {
        Seq::empty()
    } else {
        shape.label(i) + "self."@ + shape.member(i) + (if flattened(modifier) {
            "."@ + method_name(projection) + "()"@
        } else {
            Seq::empty()
        }) + ", "@
    }
}

/// The first `n` fields as declared in the sibling.
pub open spec fn sibling_fields(
    projection: Projection,
    shape: ShapeView,
    modifiers: Seq<FieldModifier>,
    n: int,
) -> Seq<char>
    decreases n,
{
    if n <= 0 || n > modifiers.len() {
        Seq::empty()
    } else {
        sibling_fields(projection, shape, modifiers, n - 1) + sibling_field(
            projection,
            shape,
            modifiers[n - 1],
            n - 1,
        )
    }
}

/// The values of the first `n` fields in the projecting method.
pub open spec fn projected_fields(
    projection: Projection,
    shape: ShapeView,
    modifiers: Seq<FieldModifier>,
    n: int,
) -> Seq<char>
    decreases n,
{
    if n <= 0 || n > modifiers.len() {
        Seq::empty()
    } else {
        projected_fields(projection, shape, modifiers, n - 1) + projected_field(
            projection,
            shape,
            modifiers[n - 1],
            n - 1,
        )
    }
}

/// `fields` in the brackets of the shape: braces with the `where` clause
/// before them, parentheses with the clause and a semicolon after them, or
/// clause and semicolon alone for a unit struct.
pub open spec fn sibling_body(shape: ShapeView, where_clause: Seq<char>, fields: Seq<char>)
    -> Seq<char> {
    match shape {
        ShapeView::Named(_) => where_clause + " { "@ + fields + "}"@,
        ShapeView::Positional(_) => "("@ + fields + ") "@ + where_clause + ";"@,
        ShapeView::Unit => where_clause + ";"@,
    }
}

/// The declaration of the sibling.
pub open spec fn sibling_text(
    projection: Projection,
    item: StructView,
    modifiers: Seq<FieldModifier>,
) -> Seq<char> {
    carried_attributes(projection, item.attributes, item.attributes.len() as int)
        + item.visibility + " struct "@ + item.name + suffix(projection) + " "@
        + item.generics.declared + " "@ + sibling_body(
        item.shape,
        item.generics.where_clause,
        sibling_fields(projection, item.shape, modifiers, modifiers.len() as int),
    )
}

/// The expression that builds the sibling: its name and the projected
/// fields in the brackets of the shape.
pub open spec fn projection_body(
    projection: Projection,
    item: StructView,
    modifiers: Seq<FieldModifier>,
) -> Seq<char> {
    let fields = projected_fields(projection, item.shape, modifiers, modifiers.len() as int);
    item.name + suffix(projection) + (match item.shape {
        ShapeView::Named(_) => " { "@ + fields + "}"@,
        ShapeView::Positional(_) => "("@ + fields + ")"@,
        ShapeView::Unit => Seq::empty(),
    })
}

/// The signature of the projecting method.
pub open spec fn signature_text(projection: Projection, item: StructView) -> Seq<char> {
    item.visibility + " fn "@ + method_name(projection) + "(self) -> "@ + sibling_type_name(
        projection,
        item,
    )
}

/// The sibling as a type: its name and the generic arguments.
pub open spec fn sibling_type_name(projection: Projection, item: StructView) -> Seq<char> {
    item.name + suffix(projection) + " "@ + item.generics.for_type
}

/// The implementation block with the projecting method.
pub open spec fn method_text(
    projection: Projection,
    item: StructView,
    modifiers: Seq<FieldModifier>,
) -> Seq<char> {
    impl_header(item.generics, ""@, item.name) + signature_text(projection, item) + " { "@
        + projection_body(projection, item, modifiers) + " } }"@
}

/// What the generator gives for a struct with the policy `modifiers`: the
/// sibling's declaration and the implementation block, unless a field is
/// marked `flatten` whose type is no path; the failure then names that
/// type in its debug form.
pub open spec fn written(projection: Projection, item: StructView, modifiers: Seq<FieldModifier>)
    -> Result<Seq<char>, ErrorView> {
    match invalid_flatten(item.shape, modifiers, modifiers.len() as int) {
        Some(ty) => Err(ErrorView::InvalidFlattenTarget(ty)),
        None => Ok(
            sibling_text(projection, item, modifiers) + " "@ + method_text(
                projection,
                item,
                modifiers,
            ),
        ),
    }
}

/// What the generator gives for `declaration`.
pub open spec fn expansion(projection: Projection, declaration: DeclarationView) -> Result<
    Seq<char>,
    ErrorView,
> {
    match declaration {
        DeclarationView::Struct(item) => match read(projection, item) {
            Ok(modifiers) => written(projection, item, modifiers),
            Err(e) => Err(e),
        },
        _ => Err(ErrorView::UnsupportedItem),
    }
}

impl Projection {
    /// The position at which the projection reads its attribute.
    pub fn position(&self) -> (p: Position)
        ensures
            p == position(*self),
    {
        match self {
            Projection::Inner => Position::InnerField,
            Projection::Record => Position::RecordField,
        }
    }

    /// The suffix of the sibling's name.
    pub fn suffix(&self) -> (s: &'static str)
        ensures
            s@ == suffix(*self),
    {
        match self {
            Projection::Inner => "Inner",
            Projection::Record => "Record",
        }
    }

    /// The name of the projecting method.
    pub fn method_name(&self) -> (s: &'static str)
        ensures
            s@ == method_name(*self),
    {
        match self {
            Projection::Inner => "into_inner",
            Projection::Record => "into_record",
        }
    }
}

/// The modifier that `keys` leave.
fn fold_modifier(keys: &Vec<KeyUse>) -> (modifier: FieldModifier)
    ensures
        modifier == modifier_after(keys.deep_view(), keys.len() as int),
{
    let mut modifier = FieldModifier { exclusive: None };
    let mut i: usize = 0;
    while i < keys.len()
        invariant
            i <= keys.len(),
            modifier == modifier_after(keys.deep_view(), i as int),
        decreases keys.len() - i,
    {
        assert(keys.deep_view()[i as int] == keys[i as int]@);
        match keys[i].key {
            Key::Flatten => modifier.set_exclusive(ExclusiveFieldModifier::Flatten),
            Key::Item(Setting::Skipped) => modifier.set_exclusive(ExclusiveFieldModifier::Skip),
            _ => {},
        }
        i += 1;
    }
    modifier
}

/// Appends to `out` those of `attributes` that the sibling carries.
fn write_carried_attributes(
    projection: Projection,
    attributes: &Vec<Attribute>,
    out: &mut String,
)
    ensures
        final(out)@ == old(out)@ + carried_attributes(
            projection,
            attributes.deep_view(),
            attributes.len() as int,
        ),
{
    let mut i: usize = 0;
    assert(out@ =~= old(out)@ + carried_attributes(projection, attributes.deep_view(), 0));
    while i < attributes.len()
        invariant
            i <= attributes.len(),
            out@ == old(out)@ + carried_attributes(projection, attributes.deep_view(), i as int),
        decreases attributes.len() - i,
    {
        assert(attributes.deep_view()[i as int] == attributes[i as int]@);
        if !same(attributes[i].path.as_str(), projection.suffix()) {
            attributes[i].write(out);
        }
        i += 1;
        assert(out@ =~= old(out)@ + carried_attributes(
            projection,
            attributes.deep_view(),
            i as int,
        ));
    }
}

fn write_sibling_type(
    projection: Projection,
    ty: &TypeExpr,
    modifier: FieldModifier,
    out: &mut String,
)
    ensures
        final(out)@ == old(out)@ + sibling_type(projection, ty@, modifier),
{
    match ty {
        TypeExpr::Path(path) => {
            match modifier.exclusive {
                Some(ExclusiveFieldModifier::Flatten) => {
                    out.append(path.qualifier.as_str());
                    out.append(path.name.as_str());
                    out.append(projection.suffix());
                    out.append(path.arguments.as_str());
                    assert(out@ =~= old(out)@ + sibling_type(projection, ty@, modifier));
                },
                _ => ty.write(out),
            }
        },
        _ => ty.write(out),
    }
}

impl Data {
    /// Reads the attributes of the fields of `item`.
    pub fn read(projection: Projection, item: &StructDeclaration) -> (r: Result<Data, Error>)
        ensures
            match r {
                Ok(data) => read(projection, item@) == Ok::<Seq<FieldModifier>, ErrorView>(data@),
                Err(e) => read(projection, item@) == Err::<Seq<FieldModifier>, ErrorView>(e@),
            },
    {
        let ghost each = field_modifiers(projection, item@);
        let ghost n = item@.shape.fields().len();
        let mut fields: Vec<FieldModifier> = Vec::new();
        let mut i: usize = 0;
        while i < item.shape.len()
            invariant
                each == field_modifiers(projection, item@),
                n == item@.shape.fields().len(),
                i <= n,
                collected(i as int, each) == Ok::<Seq<FieldModifier>, ErrorView>(fields@),
            decreases n - i,
        {
            match read_keys(projection.position(), &item.shape.field(i).attributes) {
                Ok(keys) => {
                    fields.push(fold_modifier(&keys));
                },
                Err(e) => {
                    proof {
                        lemma_collected_prefix_failure(n as int, i as int, each);
                    }
                    return Err(e);
                },
            }
            i += 1;
        }
        Ok(Data { fields })
    }

    /// Writes the sibling's declaration and the implementation block.
    pub fn write(&self, projection: Projection, item: &StructDeclaration) -> (r: Result<
        String,
        Error,
    >)
        requires
            self@.len() == item@.shape.fields().len(),
        ensures
            match r {
                Ok(s) => written(projection, item@, self@) == Ok::<Seq<char>, ErrorView>(s@),
                Err(e) => written(projection, item@, self@) == Err::<Seq<char>, ErrorView>(e@),
            },
    {
        let (declared, projected) = match self.write_fields(projection, item) {
            Ok(pair) => pair,
            Err(e) => {
                return Err(e);
            },
        };
        let mut s = String::new();
        self.write_sibling(projection, item, declared.as_str(), &mut s);
        s.append(" ");
        self.write_method(projection, item, projected.as_str(), &mut s);
        assert(s@ =~= sibling_text(projection, item@, self@) + " "@ + method_text(
            projection,
            item@,
            self@,
        ));
        Ok(s)
    }

    /// Writes the fields as the sibling declares them and as the method
    /// projects them.
    fn write_fields(&self, projection: Projection, item: &StructDeclaration) -> (r: Result<
        (String, String),
        Error,
    >)
        requires
            self@.len() == item@.shape.fields().len(),
        ensures
            match r {
                Ok(pair) => {
                    &&& invalid_flatten(item@.shape, self@, self@.len() as int) is None
                    &&& pair.0@ == sibling_fields(projection, item@.shape, self@, self@.len() as int)
                    &&& pair.1@ == projected_fields(
                        projection,
                        item@.shape,
                        self@,
                        self@.len() as int,
                    )
                },
                Err(e) => {
                    &&& invalid_flatten(item@.shape, self@, self@.len() as int) matches Some(ty)
                    &&& e@ == ErrorView::InvalidFlattenTarget(ty)
                },
            },
    {
        let ghost shape = item@.shape;
        let ghost modifiers = self@;
        let n = item.shape.len();
        let mut declared = String::new();
        let mut projected = String::new();
        let mut i: usize = 0;
        while i < n
            invariant
                shape == item@.shape,
                modifiers == self@,
                modifiers.len() == n == shape.fields().len(),
                i <= n,
                invalid_flatten(shape, modifiers, i as int) is None,
                declared@ == sibling_fields(projection, shape, modifiers, i as int),
                projected@ == projected_fields(projection, shape, modifiers, i as int),
            decreases n - i,
        {
            let field = item.shape.field(i);
            let modifier = self.fields[i];
            match (modifier.exclusive, &field.ty) {
                (Some(ExclusiveFieldModifier::Flatten), TypeExpr::Path(_)) => {},
                (Some(ExclusiveFieldModifier::Flatten), _) => {
                    proof {
                        lemma_invalid_flatten_stays(shape, modifiers, i as int + 1, n as int);
                    }
                    return Err(
                        Error::InvalidFlattenTarget(String::from_str(field.type_debug.as_str())),
                    );
                },
                _ => {},
            }
            write_sibling_field(projection, &item.shape, modifier, i, &mut declared);
            write_projected_field(projection, &item.shape, modifier, i, &mut projected);
            i += 1;
        }
        Ok((declared, projected))
    }

    /// Appends the sibling's declaration around its `fields`.
    fn write_sibling(
        &self,
        projection: Projection,
        item: &StructDeclaration,
        fields: &str,
        out: &mut String,
    )
        requires
            fields@ == sibling_fields(projection, item@.shape, self@, self@.len() as int),
        ensures
            final(out)@ == old(out)@ + sibling_text(projection, item@, self@),
    {
        let ghost start = out@;
        write_carried_attributes(projection, &item.attributes, out);
        out.append(item.visibility.as_str());
        out.append(" struct ");
        out.append(item.name.as_str());
        out.append(projection.suffix());
        out.append(" ");
        out.append(item.generics.declared());
        out.append(" ");
        let ghost before_body = out@;
        write_sibling_body(&item.shape, item.generics.where_clause(), fields, out);
        assert(out@ =~= start + sibling_text(projection, item@, self@));
    }

    /// Appends the implementation block around the `fields` of the
    /// projecting expression.
    fn write_method(
        &self,
        projection: Projection,
        item: &StructDeclaration,
        fields: &str,
        out: &mut String,
    )
        requires
            fields@ == projected_fields(projection, item@.shape, self@, self@.len() as int),
        ensures
            final(out)@ == old(out)@ + method_text(projection, item@, self@),
    {
        write_impl_header(out, &item.generics, "", item.name.as_str());
        write_signature(projection, item, out);
        out.append(" { ");
        self.write_projection_body(projection, item, fields, out);
        out.append(" } }");
        assert(out@ =~= old(out)@ + method_text(projection, item@, self@));
    }

    /// Appends the expression that builds the sibling.
    fn write_projection_body(
        &self,
        projection: Projection,
        item: &StructDeclaration,
        fields: &str,
        out: &mut String,
    )
        requires
            fields@ == projected_fields(projection, item@.shape, self@, self@.len() as int),
        ensures
            final(out)@ == old(out)@ + projection_body(projection, item@, self@),
    {
        out.append(item.name.as_str());
        out.append(projection.suffix());
        match &item.shape {
            Shape::Named(_) => {
                out.append(" { ");
                out.append(fields);
                out.append("}");
            },
            Shape::Positional(_) => {
                out.append("(");
                out.append(fields);
                out.append(")");
            },
            Shape::Unit => {},
        }
        assert(out@ =~= old(out)@ + projection_body(projection, item@, self@));
    }
}

fn write_signature(projection: Projection, item: &StructDeclaration, out: &mut String)
    ensures
        final(out)@ == old(out)@ + signature_text(projection, item@),
{
    out.append(item.visibility.as_str());
    out.append(" fn ");
    out.append(projection.method_name());
    out.append("(self) -> ");
    let ghost before = out@;
    out.append(item.name.as_str());
    out.append(projection.suffix());
    out.append(" ");
    out.append(item.generics.for_type());
    assert(out@ =~= before + sibling_type_name(projection, item@));
    assert(out@ =~= old(out)@ + signature_text(projection, item@));
}

fn write_sibling_body(shape: &Shape, where_clause: &str, fields: &str, out: &mut String)
    ensures
        final(out)@ == old(out)@ + sibling_body(shape@, where_clause@, fields@),
{
    match shape {
        Shape::Named(_) => {
            out.append(where_clause);
            out.append(" { ");
            out.append(fields);
            out.append("}");
        },
        Shape::Positional(_) => {
            out.append("(");
            out.append(fields);
            out.append(") ");
            out.append(where_clause);
            out.append(";");
        },
        Shape::Unit => {
            out.append(where_clause);
            out.append(";");
        },
    }
    assert(out@ =~= old(out)@ + sibling_body(shape@, where_clause@, fields@));
}

fn write_sibling_field(
    projection: Projection,
    shape: &Shape,
    modifier: FieldModifier,
    i: usize,
    out: &mut String,
)
    requires
        i < shape@.fields().len(),
    ensures
        final(out)@ == old(out)@ + sibling_field(projection, shape@, modifier, i as int),
{
    match modifier.exclusive {
        Some(ExclusiveFieldModifier::Skip) => {
            assert(out@ =~= old(out)@ + sibling_field(projection, shape@, modifier, i as int));
        },
        _ => {
            let field = shape.field(i);
            write_carried_attributes(projection, &field.attributes, out);
            out.append("pub ");
            shape.write_label(i, out);
            write_sibling_type(projection, &field.ty, modifier, out);
            out.append(", ");
            assert(out@ =~= old(out)@ + sibling_field(projection, shape@, modifier, i as int));
        },
    }
}

fn write_projected_field(
    projection: Projection,
    shape: &Shape,
    modifier: FieldModifier,
    i: usize,
    out: &mut String,
)
    requires
        i < shape@.fields().len(),
    ensures
        final(out)@ == old(out)@ + projected_field(projection, shape@, modifier, i as int),
{
    match modifier.exclusive {
        Some(ExclusiveFieldModifier::Skip) => {
            assert(out@ =~= old(out)@ + projected_field(projection, shape@, modifier, i as int));
        },
        _ => {
            shape.write_label(i, out);
            out.append("self.");
            out.append(shape.member(i).as_str());
            let ghost before = out@;
            match modifier.exclusive {
                Some(ExclusiveFieldModifier::Flatten) => {
                    out.append(".");
                    out.append(projection.method_name());
                    out.append("()");
                    assert(out@ =~= before + ("."@ + method_name(projection) + "()"@));
                },
                _ => {
                    assert(out@ =~= before + Seq::<char>::empty());
                },
            }
            out.append(", ");
            assert(out@ =~= old(out)@ + projected_field(projection, shape@, modifier, i as int));
        },
    }
}

/// An offending field among the first `n` is still the first offending one
/// among more.
proof fn lemma_invalid_flatten_stays(
    shape: ShapeView,
    modifiers: Seq<FieldModifier>,
    n: int,
    m: int,
)
    requires
        0 <= n <= m <= modifiers.len(),
        invalid_flatten(shape, modifiers, n) is Some,
    ensures
        invalid_flatten(shape, modifiers, m) == invalid_flatten(shape, modifiers, n),
    decreases m - n,
{
    if n < m {
        lemma_invalid_flatten_stays(shape, modifiers, n, m - 1);
    }
}

/// A field marked `skip` is left out of the sibling and of the
/// projecting method alike.
pub proof fn lemma_skipped_field_is_left_out(
    projection: Projection,
    shape: ShapeView,
    modifiers: Seq<FieldModifier>,
    i: int,
)
    requires
        0 <= i < modifiers.len(),
        skipped(modifiers[i]),
    ensures
        sibling_field(projection, shape, modifiers[i], i) == Seq::<char>::empty(),
        projected_field(projection, shape, modifiers[i], i) == Seq::<char>::empty(),
        sibling_fields(projection, shape, modifiers, i + 1) == sibling_fields(
            projection,
            shape,
            modifiers,
            i,
        ),
        projected_fields(projection, shape, modifiers, i + 1) == projected_fields(
            projection,
            shape,
            modifiers,
            i,
        ),
{
    assert(sibling_fields(projection, shape, modifiers, i) + Seq::<char>::empty()
        =~= sibling_fields(projection, shape, modifiers, i));
    assert(projected_fields(projection, shape, modifiers, i) + Seq::<char>::empty()
        =~= projected_fields(projection, shape, modifiers, i));
}

/// The generator fails on a flattened field exactly when some field
/// marked `flatten` has a type that is no path.
pub proof fn lemma_flatten_needs_path(shape: ShapeView, modifiers: Seq<FieldModifier>, n: int)
    requires
        0 <= n <= modifiers.len(),
    ensures
        invalid_flatten(shape, modifiers, n) is Some <==> exists|i: int|
            0 <= i < n && flattened(#[trigger] modifiers[i]) && !(shape.fields()[i].ty is Path),
    decreases n,
{
    if n > 0 {
        lemma_flatten_needs_path(shape, modifiers, n - 1);
        if invalid_flatten(shape, modifiers, n) is Some {
            if invalid_flatten(shape, modifiers, n - 1) is None {
                assert(flattened(modifiers[n - 1]) && !(shape.fields()[n - 1].ty is Path));
            }
        }
    }
}

/// Reading the attributes of the fields fails only with an unknown key or
/// a malformed value; writing fails only on a flattened field.
pub proof fn lemma_failures(projection: Projection, item: StructView)
    ensures
        read(projection, item) is Err ==> crate::attribute::attribute_failure(
            read(projection, item)->Err_0,
        ),
        forall|modifiers: Seq<FieldModifier>| #[trigger]
            written(projection, item, modifiers) is Err ==> written(
                projection,
                item,
                modifiers,
            )->Err_0 is InvalidFlattenTarget,
{
    let n = item.shape.fields().len() as int;
    let each = field_modifiers(projection, item);
    if collected(n, each) is Err {
        crate::policy::lemma_collected_failure(n, each);
        let i = choose|i: int|
            0 <= i < n && (#[trigger] each(i)) == Err::<FieldModifier, ErrorView>(
                collected(n, each)->Err_0,
            ) && collected(i, each) is Ok;
        crate::attribute::lemma_key_failures(
            position(projection),
            item.shape.fields()[i].attributes,
            0,
        );
    }
}

/// A struct on which the projection's attribute stands nowhere is
/// projected whole: no field is skipped or flattened, and the generator
/// cannot fail on it.
pub proof fn lemma_struct_without_attribute(projection: Projection, item: StructView)
    requires
        forall|i: int, k: int|
            0 <= i < item.shape.fields().len() && 0 <= k < item.shape.fields()[i].attributes.len()
                ==> (#[trigger] item.shape.fields()[i].attributes[k]).path != suffix(projection),
    ensures
        read(projection, item) is Ok,
        forall|i: int|
            0 <= i < item.shape.fields().len() ==> (#[trigger] read(projection, item)->Ok_0[i])
                == (FieldModifier { exclusive: None }),
        expansion(projection, DeclarationView::Struct(item)) is Ok,
{
    let n = item.shape.fields().len() as int;
    let each = field_modifiers(projection, item);
    assert forall|i: int| 0 <= i < n implies (#[trigger] each(i)) == Ok::<
        FieldModifier,
        ErrorView,
    >(FieldModifier { exclusive: None }) by {
        crate::attribute::lemma_no_attribute_no_key(
            position(projection),
            item.shape.fields()[i].attributes,
            0,
        );
    }
    crate::policy::lemma_collected_succeeds(n, each);
    lemma_collected(n, each);
    let modifiers = read(projection, item)->Ok_0;
    assert forall|i: int| 0 <= i < n implies (#[trigger] modifiers[i]) == (FieldModifier {
        exclusive: None,
    }) by {
        assert(each(i) == Ok::<FieldModifier, ErrorView>(FieldModifier { exclusive: None }));
    }
    lemma_flatten_needs_path(item.shape, modifiers, modifiers.len() as int);
}

/// Generates the projection of `declaration`.
pub fn generate(projection: Projection, declaration: &Declaration) -> (r: Result<String, Error>)
    ensures
        match r {
            Ok(s) => expansion(projection, declaration@) == Ok::<Seq<char>, ErrorView>(s@),
            Err(e) => expansion(projection, declaration@) == Err::<Seq<char>, ErrorView>(e@),
        },
{
    match declaration {
        Declaration::Struct(item) => match Data::read(projection, item) {
            Ok(data) => {
                proof {
                    lemma_collected(
                        item@.shape.fields().len() as int,
                        field_modifiers(projection, item@),
                    );
                }
                data.write(projection, item)
            },
            Err(e) => Err(e),
        },
        _ => Err(Error::UnsupportedItem),
    }
}

} // verus!
