//! The constructor generator: an associated function `new` that takes one
//! argument for each field not marked `default` and builds the struct.

use crate::attribute::{keys_of, read_keys, KeyUseView, Position};
use crate::declaration::{
    impl_header, type_text, write_impl_header, Declaration, DeclarationView, FieldView, Shape,
    ShapeView, StructDeclaration, StructView, TypeExprView,
};
use crate::diagnostic::{Error, ErrorView, Malformation};
use crate::policy::{collected, lemma_collected, lemma_collected_prefix_failure};
use crate::syntax::{visibility_syntax, VisibilitySyntax};
use crate::text::{decimal, decimal_text, join, joined};
use vstd::prelude::*;
use vstd::string::*;

verus! {

/// What the attributes of a struct ask of its constructor.
#[derive(Debug)]
pub struct Data {
    /// The visibility given on the declaration, if any.
    pub visibility: Option<String>,
    /// For each field, whether it is marked `default`.
    pub defaults: Vec<bool>,
}

/// The mathematical content of a [`Data`].
pub ghost struct DataView {
    pub visibility: Option<Seq<char>>,
    pub defaults: Seq<bool>,
}

impl View for Data {
    type V = DataView;

    open spec fn view(&self) -> DataView {
        DataView {
            visibility: match self.visibility {
                Some(v) => Some(v@),
                None => None,
            },
            defaults: self.defaults@,
        }
    }
}

/// The visibility that the keys of the declaration's attribute give: that
/// of the last one.
pub open spec fn chosen_visibility(keys: Seq<KeyUseView>) -> Option<Seq<char>> {
    if keys.len() == 0 {
        None
    } else {
        Some(keys.last().value)
    }
}

/// Whether a field is marked `default`.
pub open spec fn field_default(field: FieldView) -> Result<bool, ErrorView> {
    match keys_of(Position::ConstructorField, field.attributes) {
        Ok(keys) => Ok(keys.len() > 0),
        Err(e) => Err(e),
    }
}

/// For each field of `item`, whether it is marked `default`.
pub open spec fn field_defaults(item: StructView) -> spec_fn(int) -> Result<bool, ErrorView> {
    |i: int| field_default(item.shape.fields()[i])
}

/// Whether a visibility of this syntax is taken: one that is written out,
/// `pub` or restricted. The empty visibility is refused like text that is
/// no visibility at all.
pub open spec fn accepted(syntax: VisibilitySyntax) -> bool {
    syntax == VisibilitySyntax::Public || syntax == VisibilitySyntax::Restricted
}

/// The failure on a value that is no visibility.
pub open spec fn unknown_visibility() -> ErrorView {
    ErrorView::MalformedAttributeValue(Malformation::UnknownVisibility)
}

/// What becomes of the value of a visibility key, given what the parser
/// found it to be.
pub open spec fn visibility_outcome(value: Seq<char>, syntax: VisibilitySyntax) -> Result<
    Seq<char>,
    ErrorView,
> {
    if accepted(syntax) {
        Ok(value)
    } else {
        Err(unknown_visibility())
    }
}

/// What the attributes of `item` ask for where the parser takes every
/// visibility value: the declaration's own attribute is read first, then
/// those of the fields in order; the first failure stands.
pub open spec fn read(item: StructView) -> Result<DataView, ErrorView> {
    match keys_of(Position::ConstructorItem, item.attributes) {
        Err(e) => Err(e),
        Ok(keys) => match collected(item.shape.fields().len() as int, field_defaults(item)) {
            Err(e) => Err(e),
            Ok(defaults) => Ok(DataView { visibility: chosen_visibility(keys), defaults }),
        },
    }
}

/// The number of fields among the first `n` that are arguments of the
/// constructor.
pub open spec fn rank(defaults: Seq<bool>, n: int) -> nat
    decreases n,
{
    if n <= 0 || n > defaults.len() {
        0
    } else if defaults[n - 1] {
        rank(defaults, n - 1)
    } else {
        rank(defaults, n - 1) + 1
    }
}

/// The name of the argument for field `i`: the field's name, or `value`
/// and the argument's position among the arguments.
pub open spec fn argument_name(shape: ShapeView, defaults: Seq<bool>, i: int) -> Seq<char> {
    match shape {
        ShapeView::Named(fields) => fields[i].name,
        _ => "value"@ + decimal(rank(defaults, i)),
    }
}

/// The argument for field `i` as it stands in the signature.
pub open spec fn argument_text(shape: ShapeView, defaults: Seq<bool>, i: int) -> Seq<char> {
    argument_name(shape, defaults, i) + ": "@ + type_text(shape.fields()[i].ty)
}

/// The arguments for the first `n` fields, in declaration order: one for
/// each field that is not marked `default`.
pub open spec fn argument_texts(shape: ShapeView, defaults: Seq<bool>, n: int) -> Seq<Seq<char>>
    decreases n,
{
    if n <= 0 || n > defaults.len() {
        Seq::empty()
    } else if defaults[n - 1] {
        argument_texts(shape, defaults, n - 1)
    } else {
        argument_texts(shape, defaults, n - 1).push(argument_text(shape, defaults, n - 1))
    }
}

/// The default value of a type.
pub open spec fn default_value(ty: TypeExprView) -> Seq<char> {
    "<"@ + type_text(ty) + " as ::core::default::Default>::default()"@
}

/// How field `i` is initialised: from its argument, or with its type's
/// default where it is marked `default`.
pub open spec fn initializer_text(shape: ShapeView, defaults: Seq<bool>, i: int) -> Seq<char> {
    if defaults[i] {
        match shape {
            ShapeView::Named(fields) => fields[i].name + ": "@ + default_value(fields[i].ty),
            _ => default_value(shape.fields()[i].ty),
        }
    } else {
        argument_name(shape, defaults, i)
    }
}

/// The initialisers of all fields, in declaration order.
pub open spec fn initializer_texts(shape: ShapeView, defaults: Seq<bool>) -> Seq<Seq<char>> {
    Seq::new(shape.fields().len(), |i: int| initializer_text(shape, defaults, i))
}

/// The expression that builds the value.
pub open spec fn body_text(shape: ShapeView, defaults: Seq<bool>) -> Seq<char> {
    match shape {
        ShapeView::Named(_) => "Self { "@ + joined(initializer_texts(shape, defaults), ", "@)
            + " }"@,
        ShapeView::Positional(_) => "Self("@ + joined(initializer_texts(shape, defaults), ", "@)
            + ")"@,
        ShapeView::Unit => "Self"@,
    }
}

/// The visibility of `new`: the one given on the declaration's attribute,
/// else the declaration's own.
pub open spec fn visibility_text(item: StructView, data: DataView) -> Seq<char> {
    match data.visibility {
        Some(v) => v,
        None => item.visibility,
    }
}

/// The generated implementation block.
pub open spec fn constructor_text(item: StructView, data: DataView) -> Seq<char> {
    impl_header(item.generics, ""@, item.name) + visibility_text(item, data) + " fn new("@
        + joined(
        argument_texts(item.shape, data.defaults, item.shape.fields().len() as int),
        ", "@,
    ) + ") -> Self { "@ + body_text(item.shape, data.defaults) + " } }"@
}

/// Whether the declaration's own attribute gives visibility values, of
/// which the parser may refuse one. Its entries are read to the end before
/// the parser is asked, so a failure among them comes first.
pub open spec fn refusable(item: StructView) -> bool {
    keys_of(Position::ConstructorItem, item.attributes) matches Ok(keys) && keys.len() > 0
}

/// Whether reading the attributes of `item` can end in `outcome`: in what
/// they ask for where the parser takes every visibility value, or, where
/// there is such a value, in its refusal. The values are put to the
/// parser before the fields are read.
pub open spec fn may_read(item: StructView, outcome: Result<DataView, ErrorView>) -> bool {
    outcome == read(item) || (refusable(item) && outcome == Err::<DataView, ErrorView>(
        unknown_visibility(),
    ))
}

/// What the generator gives for `declaration` where the parser takes
/// every visibility value: the implementation block for a struct whose
/// attributes are in order, the failure otherwise.
pub open spec fn expansion(declaration: DeclarationView) -> Result<Seq<char>, ErrorView> {
    match declaration {
        DeclarationView::Struct(item) => match read(item) {
            Ok(data) => Ok(constructor_text(item, data)),
            Err(e) => Err(e),
        },
        _ => Err(ErrorView::UnsupportedItem),
    }
}

/// Whether the generator can give `outcome` for `declaration`: what it
/// gives where the parser takes every visibility value, or, for a struct
/// whose attribute gives such a value, the refusal of one.
pub open spec fn may_expand(declaration: DeclarationView, outcome: Result<Seq<char>, ErrorView>)
    -> bool {
    outcome == expansion(declaration) || (declaration matches DeclarationView::Struct(item)
        && refusable(item) && outcome == Err::<Seq<char>, ErrorView>(unknown_visibility()))
}

fn append_default_value(out: &mut String, ty: &crate::declaration::TypeExpr)
    ensures
        final(out)@ == old(out)@ + default_value(ty@),
{
    out.append("<");
    ty.write(out);
    out.append(" as ::core::default::Default>::default()");
    assert(out@ =~= old(out)@ + default_value(ty@));
}

/// Takes the value of a visibility key, or refuses it, by what the parser
/// found it to be.
pub fn visibility_entry(value: String, syntax: VisibilitySyntax) -> (r: Result<String, Error>)
    ensures
        match r {
            Ok(taken) => visibility_outcome(value@, syntax) == Ok::<Seq<char>, ErrorView>(
                taken@,
            ),
            Err(e) => visibility_outcome(value@, syntax) == Err::<Seq<char>, ErrorView>(e@),
        },
{
    match syntax {
        VisibilitySyntax::Public => Ok(value),
        VisibilitySyntax::Restricted => Ok(value),
        VisibilitySyntax::Inherited => Err(
            Error::MalformedAttributeValue(Malformation::UnknownVisibility),
        ),
        VisibilitySyntax::Invalid => Err(
            Error::MalformedAttributeValue(Malformation::UnknownVisibility),
        ),
    }
}

impl Data {
    /// Reads the attributes of `item`, and has the parser look at every
    /// visibility value that the declaration's own attribute gives.
    pub fn read(item: &StructDeclaration) -> (r: Result<Data, Error>)
        ensures
            match r {
                Ok(data) => may_read(item@, Ok(data@)),
                Err(e) => may_read(item@, Err(e@)),
            },
    {
        let keys = match read_keys(Position::ConstructorItem, &item.attributes) {
            Ok(keys) => keys,
            Err(e) => {
                return Err(e);
            },
        };
        let mut visibility: Option<String> = None;
        let mut k: usize = 0;
        while k < keys.len()
            invariant
                k <= keys.len(),
                keys_of(Position::ConstructorItem, item@.attributes) == Ok::<
                    Seq<KeyUseView>,
                    ErrorView,
                >(keys.deep_view()),
                k == 0 ==> visibility is None,
                k > 0 ==> visibility.deep_view() == Some(keys.deep_view()[k - 1].value),
            decreases keys.len() - k,
        {
            assert(keys.deep_view()[k as int] == keys[k as int]@);
            let value = String::from_str(keys[k].value.as_str());
            let syntax = visibility_syntax(value.as_str());
            match visibility_entry(value, syntax) {
                Ok(taken) => {
                    visibility = Some(taken);
                },
                Err(e) => {
                    return Err(e);
                },
            }
            k += 1;
        }
        assert(keys.len() > 0 ==> keys.deep_view().last() == keys.deep_view()[keys.len() - 1]);
        assert(visibility.deep_view() == chosen_visibility(keys.deep_view()));
        let ghost fields = item@.shape.fields();
        let ghost each = field_defaults(item@);
        let mut defaults: Vec<bool> = Vec::new();
        let mut i: usize = 0;
        while i < item.shape.len()
            invariant
                fields == item@.shape.fields(),
                each == field_defaults(item@),
                keys_of(Position::ConstructorItem, item@.attributes) is Ok,
                i <= fields.len(),
                collected(i as int, each) == Ok::<Seq<bool>, ErrorView>(defaults@),
            decreases fields.len() - i,
        {
            match read_keys(Position::ConstructorField, &item.shape.field(i).attributes) {
                Ok(keys) => {
                    defaults.push(keys.len() > 0);
                },
                Err(e) => {
                    proof {
                        lemma_collected_prefix_failure(fields.len() as int, i as int, each);
                    }
                    return Err(e);
                },
            }
            i += 1;
        }
        Ok(Data { visibility, defaults })
    }

    /// Writes the implementation block for `item`.
    pub fn write(&self, item: &StructDeclaration) -> (s: String)
        requires
            self@.defaults.len() == item@.shape.fields().len(),
        ensures
            s@ == constructor_text(item@, self@),
    {
        let ghost shape = item@.shape;
        let ghost defaults = self@.defaults;
        let n = item.shape.len();
        let mut arguments: Vec<String> = Vec::new();
        let mut initializers: Vec<String> = Vec::new();
        let mut taken: usize = 0;
        let mut i: usize = 0;
        while i < n
            invariant
                shape == item@.shape,
                defaults == self@.defaults,
                defaults.len() == n == shape.fields().len(),
                i <= n,
                taken == rank(defaults, i as int) <= i,
                arguments.deep_view() == argument_texts(shape, defaults, i as int),
                initializers.deep_view() == Seq::new(
                    i as nat,
                    |j: int| initializer_text(shape, defaults, j),
                ),
            decreases n - i,
        {
            let field = item.shape.field(i);
            let ghost arguments_before = arguments.deep_view();
            let ghost initializers_before = initializers.deep_view();
            let mut initializer = String::new();
            if self.defaults[i] {
                match &item.shape {
                    Shape::Named(_) => {
                        initializer.append(field.name.as_str());
                        initializer.append(": ");
                    },
                    _ => {},
                }
                append_default_value(&mut initializer, &field.ty);
                assert(initializer@ =~= initializer_text(shape, defaults, i as int));
            } else {
                let mut name = String::new();
                match &item.shape {
                    Shape::Named(_) => {
                        name.append(field.name.as_str());
                    },
                    _ => {
                        name.append("value");
                        name.append(decimal_text(taken).as_str());
                    },
                }
                assert(name@ =~= argument_name(shape, defaults, i as int));
                initializer.append(name.as_str());
                assert(initializer@ =~= initializer_text(shape, defaults, i as int));
                name.append(": ");
                field.ty.write(&mut name);
                assert(name@ =~= argument_text(shape, defaults, i as int));
                arguments.push(name);
                assert(arguments.deep_view() =~= arguments_before.push(
                    argument_text(shape, defaults, i as int),
                ));
                taken += 1;
            }
            initializers.push(initializer);
            assert(initializers.deep_view() =~= initializers_before.push(
                initializer_text(shape, defaults, i as int),
            ));
            i += 1;
            assert(initializers.deep_view() =~= Seq::new(
                i as nat,
                |j: int| initializer_text(shape, defaults, j),
            ));
        }
        assert(initializers.deep_view() =~= initializer_texts(shape, defaults));
        let mut s = String::new();
        write_impl_header(&mut s, &item.generics, "", item.name.as_str());
        match &self.visibility {
            Some(v) => s.append(v.as_str()),
            None => s.append(item.visibility.as_str()),
        }
        s.append(" fn new(");
        s.append(join(&arguments, ", ").as_str());
        s.append(") -> Self { ");
        let ghost before_body = s@;
        match &item.shape {
            Shape::Named(_) => {
                s.append("Self { ");
                s.append(join(&initializers, ", ").as_str());
                s.append(" }");
            },
            Shape::Positional(_) => {
                s.append("Self(");
                s.append(join(&initializers, ", ").as_str());
                s.append(")");
            },
            Shape::Unit => {
                s.append("Self");
            },
        }
        assert(s@ =~= before_body + body_text(shape, defaults));
        s.append(" } }");
        assert(s@ =~= constructor_text(item@, self@));
        s
    }
}

/// Where no field among the first `n` is marked `default`, each of them
/// is an argument.
proof fn lemma_rank_without_defaults(defaults: Seq<bool>, n: int)
    requires
        0 <= n <= defaults.len(),
        forall|i: int| 0 <= i < n ==> !defaults[i],
    ensures
        rank(defaults, n) == n,
    decreases n,
{
    if n > 0 {
        lemma_rank_without_defaults(defaults, n - 1);
    }
}

/// There are as many arguments as fields that are not marked `default`,
/// and never more than fields.
pub proof fn lemma_argument_count(shape: ShapeView, defaults: Seq<bool>, n: int)
    requires
        0 <= n <= defaults.len(),
    ensures
        argument_texts(shape, defaults, n).len() == rank(defaults, n) <= n,
    decreases n,
{
    if n > 0 {
        lemma_argument_count(shape, defaults, n - 1);
    }
}

/// A field marked `default` among the first `n` makes the arguments fewer
/// than the fields.
proof fn lemma_rank_with_default(defaults: Seq<bool>, n: int, d: int)
    requires
        0 <= d < n <= defaults.len(),
        defaults[d],
    ensures
        rank(defaults, n) < n,
    decreases n,
{
    if d < n - 1 {
        lemma_rank_with_default(defaults, n - 1, d);
    } else {
        lemma_argument_count(ShapeView::Unit, defaults, n - 1);
    }
}

/// Where field `d` alone is marked `default`, the other fields among the
/// first `n` are all arguments.
proof fn lemma_rank_with_one_default(defaults: Seq<bool>, n: int, d: int)
    requires
        0 <= n <= defaults.len(),
        0 <= d < defaults.len(),
        forall|i: int| 0 <= i < defaults.len() ==> (defaults[i] <==> i == d),
    ensures
        rank(defaults, n) == if d < n {
            n - 1
        } else {
            n
        },
    decreases n,
{
    if n > 0 {
        lemma_rank_with_one_default(defaults, n - 1, d);
    }
}

/// For a struct none of whose fields is marked `default`, the constructor
/// takes one argument for every field, in declaration order, under the
/// field's binding name and with the field's type, and initialises every
/// field from the argument of that name.
pub proof fn lemma_constructor_takes_every_field(shape: ShapeView, defaults: Seq<bool>)
    requires
        defaults.len() == shape.fields().len(),
        forall|i: int| 0 <= i < defaults.len() ==> !defaults[i],
    ensures
        argument_texts(shape, defaults, defaults.len() as int) == Seq::new(
            defaults.len(),
            |i: int| shape.binding(i) + ": "@ + type_text(shape.fields()[i].ty),
        ),
        forall|i: int|
            0 <= i < defaults.len() ==> #[trigger] initializer_text(shape, defaults, i)
                == shape.binding(i),
{
    let n = defaults.len() as int;
    assert forall|i: int| 0 <= i < n implies #[trigger] argument_name(shape, defaults, i)
        == shape.binding(i) by {
        lemma_rank_without_defaults(defaults, i);
    }
    lemma_arguments_without_defaults(shape, defaults, n);
}

proof fn lemma_arguments_without_defaults(shape: ShapeView, defaults: Seq<bool>, n: int)
    requires
        0 <= n <= defaults.len(),
        forall|i: int| 0 <= i < n ==> !defaults[i],
        forall|i: int| 0 <= i < n ==> #[trigger] argument_name(shape, defaults, i) == shape.binding(i),
    ensures
        argument_texts(shape, defaults, n) == Seq::new(
            n as nat,
            |i: int| shape.binding(i) + ": "@ + type_text(shape.fields()[i].ty),
        ),
    decreases n,
{
    if n > 0 {
        lemma_arguments_without_defaults(shape, defaults, n - 1);
        assert(argument_name(shape, defaults, n - 1) == shape.binding(n - 1));
    }
    assert(argument_texts(shape, defaults, n) =~= Seq::new(
        n as nat,
        |i: int| shape.binding(i) + ": "@ + type_text(shape.fields()[i].ty),
    ));
}

/// For a struct with a field marked `default`, the constructor takes
/// fewer arguments than the struct has fields, one fewer where no other
/// field is so marked, and the marked field is initialised with its
/// type's default value.
pub proof fn lemma_default_field_is_no_argument(shape: ShapeView, defaults: Seq<bool>, d: int)
    requires
        defaults.len() == shape.fields().len(),
        0 <= d < defaults.len(),
        defaults[d],
    ensures
        argument_texts(shape, defaults, defaults.len() as int).len() < defaults.len(),
        (forall|i: int| 0 <= i < defaults.len() && i != d ==> !defaults[i]) ==> argument_texts(
            shape,
            defaults,
            defaults.len() as int,
        ).len() == defaults.len() - 1,
        initializer_text(shape, defaults, d) == shape.label(d) + default_value(
            shape.fields()[d].ty,
        ),
{
    let n = defaults.len() as int;
    lemma_argument_count(shape, defaults, n);
    lemma_rank_with_default(defaults, n, d);
    if forall|i: int| 0 <= i < defaults.len() && i != d ==> !defaults[i] {
        lemma_rank_with_one_default(defaults, n, d);
    }
    assert(initializer_text(shape, defaults, d) =~= shape.label(d) + default_value(
        shape.fields()[d].ty,
    ));
}

/// Reading the attributes of a struct fails only with an unknown key or a
/// malformed value.
pub proof fn lemma_read_failures(item: StructView)
    ensures
        read(item) is Err ==> crate::attribute::attribute_failure(read(item)->Err_0),
        forall|e: ErrorView| #[trigger]
            may_read(item, Err(e)) ==> crate::attribute::attribute_failure(e),
{
    let n = item.shape.fields().len() as int;
    let each = field_defaults(item);
    crate::attribute::lemma_key_failures(Position::ConstructorItem, item.attributes, 0);
    if collected(n, each) is Err {
        crate::policy::lemma_collected_failure(n, each);
        let i = choose|i: int|
            0 <= i < n && (#[trigger] each(i)) == Err::<bool, ErrorView>(
                collected(n, each)->Err_0,
            ) && collected(i, each) is Ok;
        crate::attribute::lemma_key_failures(
            Position::ConstructorField,
            item.shape.fields()[i].attributes,
            0,
        );
    }
}

/// A struct on which the generator's attribute stands nowhere gets the
/// constructor with the struct's own visibility and with every field as
/// an argument: the generator cannot fail on it.
pub proof fn lemma_struct_without_attribute(item: StructView)
    requires
        forall|k: int| 0 <= k < item.attributes.len() ==> (#[trigger] item.attributes[k]).path != "Constructor"@,
        forall|i: int, k: int|
            0 <= i < item.shape.fields().len() && 0 <= k < item.shape.fields()[i].attributes.len()
                ==> (#[trigger] item.shape.fields()[i].attributes[k]).path != "Constructor"@,
    ensures
        read(item) is Ok,
        read(item)->Ok_0.visibility is None,
        read(item)->Ok_0.defaults.len() == item.shape.fields().len(),
        forall|i: int| 0 <= i < item.shape.fields().len() ==> !(#[trigger] read(item)->Ok_0.defaults[i]),
        expansion(DeclarationView::Struct(item)) is Ok,
        !refusable(item),
        forall|outcome: Result<Seq<char>, ErrorView>| #[trigger]
            may_expand(DeclarationView::Struct(item), outcome) ==> outcome == expansion(
                DeclarationView::Struct(item),
            ),
{
    let n = item.shape.fields().len() as int;
    let each = field_defaults(item);
    crate::attribute::lemma_no_attribute_no_key(Position::ConstructorItem, item.attributes, 0);
    assert forall|i: int| 0 <= i < n implies (#[trigger] each(i)) == Ok::<bool, ErrorView>(
        false,
    ) by {
        crate::attribute::lemma_no_attribute_no_key(
            Position::ConstructorField,
            item.shape.fields()[i].attributes,
            0,
        );
    }
    crate::policy::lemma_collected_succeeds(n, each);
    lemma_collected(n, each);
    assert forall|i: int| 0 <= i < n implies !(#[trigger] read(item)->Ok_0.defaults[i]) by {
        assert(each(i) == Ok::<bool, ErrorView>(false));
    }
}

/// The constructor generator.
pub struct Macro;

impl Macro {
    /// Generates the constructor of `declaration`.
    pub fn handle(declaration: &Declaration) -> (r: Result<String, Error>)
        ensures
            match r {
                Ok(s) => may_expand(declaration@, Ok(s@)),
                Err(e) => may_expand(declaration@, Err(e@)),
            },
    {
        match declaration {
            Declaration::Struct(item) => match Data::read(item) {
                Ok(data) => {
                    proof {
                        lemma_collected(item@.shape.fields().len() as int, field_defaults(item@));
                    }
                    Ok(data.write(item))
                },
                Err(e) => Err(e),
            },
            _ => Err(Error::UnsupportedItem),
        }
    }
}

} // verus!
