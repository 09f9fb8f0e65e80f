//! The conversion generator: for a struct, and for each enabled variant of
//! an enum, an implementation of `From` whose source is the tuple of the
//! field types.

use crate::attribute::{keys_of, read_keys, Category, Key, KeyUse, KeyUseView, Position};
use crate::declaration::{
    impl_header, type_text, write_impl_header, Declaration, DeclarationView, EnumDeclaration,
    EnumView, Generics, GenericsView, Shape, ShapeView, VariantView,
};
use crate::diagnostic::{Error, ErrorView};
use crate::policy::{
    collected, generated, lemma_collected, lemma_collected_prefix_failure, Setting,
};
use crate::text::{decimal, decimal_text};
use vstd::prelude::*;
use vstd::string::*;

verus! {

/// What the attributes of an enum ask of its conversions.
#[derive(Debug)]
pub struct EnumData {
    /// Whether variants with named fields are converted by default.
    pub named: bool,
    /// Whether variants with positional fields are converted by default.
    pub unnamed: bool,
    /// Whether unit variants are converted by default.
    pub unit: bool,
    /// The own setting of each variant, in declaration order.
    pub variants: Vec<Setting>,
}

/// The mathematical content of an [`EnumData`].
pub ghost struct EnumDataView {
    pub named: bool,
    pub unnamed: bool,
    pub unit: bool,
    pub variants: Seq<Setting>,
}

impl View for EnumData {
    type V = EnumDataView;

    open spec fn view(&self) -> EnumDataView {
        EnumDataView {
            named: self.named,
            unnamed: self.unnamed,
            unit: self.unit,
            variants: self.variants@,
        }
    }
}

/// Whether one of the first `n` keys switches conversions on for
/// `category`: the key of the category itself, or `all`.
pub open spec fn covers(keys: Seq<KeyUseView>, category: Category, n: int) -> bool
    decreases n,
{
    if n <= 0 || n > keys.len() {
        false
    } else {
        covers(keys, category, n - 1) || keys[n - 1].key == Key::Convert(Category::All)
            || keys[n - 1].key == Key::Convert(category)
    }
}

/// The setting that the first `n` keys of a variant leave: that of the
/// last among them.
pub open spec fn setting_after(keys: Seq<KeyUseView>, n: int) -> Setting
    decreases n,
{
    if n <= 0 || n > keys.len() {
        Setting::Inherited
    } else {
        match keys[n - 1].key {
            Key::Item(setting) => setting,
            _ => setting_after(keys, n - 1),
        }
    }
}

/// The own setting of a variant.
pub open spec fn variant_setting(variant: VariantView) -> Result<Setting, ErrorView> {
    match keys_of(Position::FromVariant, variant.attributes) {
        Ok(keys) => Ok(setting_after(keys, keys.len() as int)),
        Err(e) => Err(e),
    }
}

/// The own setting of each variant of `item`.
pub open spec fn variant_settings(item: EnumView) -> spec_fn(int) -> Result<Setting, ErrorView> {
    |i: int| variant_setting(item.variants[i])
}

/// What the attributes of `item` ask for: the enum's own attribute is read
/// first, then those of the variants in order; the first failure stands.
pub open spec fn read(item: EnumView) -> Result<EnumDataView, ErrorView> {
    match keys_of(Position::FromItem, item.attributes) {
        Err(e) => Err(e),
        Ok(keys) => match collected(item.variants.len() as int, variant_settings(item)) {
            Err(e) => Err(e),
            Ok(variants) => Ok(
                EnumDataView {
                    named: covers(keys, Category::Named, keys.len() as int),
                    unnamed: covers(keys, Category::Positional, keys.len() as int),
                    unit: covers(keys, Category::Unit, keys.len() as int),
                    variants,
                },
            ),
        },
    }
}

/// The container-wide switch that applies to a variant of `shape`.
pub open spec fn category_switch(data: EnumDataView, shape: ShapeView) -> bool {
    match shape {
        ShapeView::Named(_) => data.named,
        ShapeView::Positional(_) => data.unnamed,
        ShapeView::Unit => data.unit,
    }
}

/// Whether a conversion is generated for variant `i`.
pub open spec fn converted(item: EnumView, data: EnumDataView, i: int) -> bool {
    generated(category_switch(data, item.variants[i].shape), data.variants[i])
}

/// The types of the first `n` fields, each with a comma after it.
pub open spec fn source_types(shape: ShapeView, n: int) -> Seq<char>
    decreases n,
{
    if n <= 0 || n > shape.fields().len() {
        Seq::empty()
    } else {
        source_types(shape, n - 1) + type_text(shape.fields()[n - 1].ty) + ", "@
    }
}

/// The type that is converted from: the unit type where there is no
/// field, the bare type of a single field, the tuple of the field types
/// in declaration order otherwise.
pub open spec fn source_type(shape: ShapeView) -> Seq<char> {
    if shape.fields().len() == 0 {
        "()"@
    } else if shape.fields().len() == 1 {
        type_text(shape.fields()[0].ty)
    } else {
        "("@ + source_types(shape, shape.fields().len() as int) + ")"@
    }
}

/// The part of the source value that field `i` takes: the value itself
/// for a single field, its `i`-th component otherwise.
pub open spec fn source_value(shape: ShapeView, i: int) -> Seq<char> {
    if shape.fields().len() == 1 {
        "value"@
    } else {
        "value."@ + decimal(i as nat)
    }
}

/// The first `n` fields, each given its part of the source value.
pub open spec fn assignments(shape: ShapeView, n: int) -> Seq<char>
    decreases n,
{
    if n <= 0 || n > shape.fields().len() {
        Seq::empty()
    } else {
        assignments(shape, n - 1) + shape.label(n - 1) + source_value(shape, n - 1) + ", "@
    }
}

/// The expression that builds `target` from the source value.
pub open spec fn construction(target: Seq<char>, shape: ShapeView) -> Seq<char> {
    target + (match shape {
        ShapeView::Named(_) => " { "@ + assignments(shape, shape.fields().len() as int) + "}"@,
        ShapeView::Positional(_) => "("@ + assignments(shape, shape.fields().len() as int)
            + ")"@,
        ShapeView::Unit => Seq::empty(),
    })
}

/// The trait that a conversion implements, with `for` after it.
pub open spec fn subject(shape: ShapeView) -> Seq<char> {
    "::std::convert::From<"@ + source_type(shape) + "> for "@
}

/// The converting function.
pub open spec fn function_text(target: Seq<char>, shape: ShapeView) -> Seq<char> {
    "fn from(value: "@ + source_type(shape) + ") -> Self { "@ + construction(target, shape)
        + " } "@
}

/// One implementation of `From`, for the type `name` built as `target`
/// from fields of `shape`.
pub open spec fn conversion_text(
    generics: GenericsView,
    name: Seq<char>,
    target: Seq<char>,
    shape: ShapeView,
) -> Seq<char> {
    impl_header(generics, subject(shape), name) + function_text(target, shape) + "} "@
}

/// The conversion for variant `i`, or nothing where none is generated.
pub open spec fn variant_conversion(item: EnumView, data: EnumDataView, i: int) -> Seq<char> {
    if converted(item, data, i) {
        conversion_text(
            item.generics,
            item.name,
            "Self::"@ + item.variants[i].name,
            item.variants[i].shape,
        )
    } else {
        Seq::empty()
    }
}

/// The conversions for the first `n` variants.
pub open spec fn variant_conversions(item: EnumView, data: EnumDataView, n: int) -> Seq<char>
    decreases n,
{
    if n <= 0 || n > item.variants.len() {
        Seq::empty()
    } else {
        variant_conversions(item, data, n - 1) + variant_conversion(item, data, n - 1)
    }
}

/// What the generator gives for `declaration`: one conversion for a
/// struct, one for each converted variant of an enum.
pub open spec fn expansion(declaration: DeclarationView) -> Result<Seq<char>, ErrorView> {
    match declaration {
        DeclarationView::Struct(item) => Ok(
            conversion_text(item.generics, item.name, "Self"@, item.shape),
        ),
        DeclarationView::Enum(item) => match read(item) {
            Ok(data) => Ok(variant_conversions(item, data, item.variants.len() as int)),
            Err(e) => Err(e),
        },
        DeclarationView::Other => Err(ErrorView::UnsupportedItem),
    }
}

fn key_covers(keys: &Vec<KeyUse>, category: Category) -> (b: bool)
    ensures
        b == covers(keys.deep_view(), category, keys.len() as int),
{
    let mut b = false;
    let mut i: usize = 0;
    while i < keys.len()
        invariant
            i <= keys.len(),
            b == covers(keys.deep_view(), category, i as int),
        decreases keys.len() - i,
    {
        assert(keys.deep_view()[i as int] == keys[i as int]@);
        match keys[i].key {
            Key::Convert(c) => {
                if c == Category::All || c == category {
                    b = true;
                }
            },
            _ => {},
        }
        i += 1;
    }
    b
}

fn fold_setting(keys: &Vec<KeyUse>) -> (setting: Setting)
    ensures
        setting == setting_after(keys.deep_view(), keys.len() as int),
{
    let mut setting = Setting::Inherited;
    let mut i: usize = 0;
    while i < keys.len()
        invariant
            i <= keys.len(),
            setting == setting_after(keys.deep_view(), i as int),
        decreases keys.len() - i,
    {
        assert(keys.deep_view()[i as int] == keys[i as int]@);
        match keys[i].key {
            Key::Item(s) => {
                setting = s;
            },
            _ => {},
        }
        i += 1;
    }
    setting
}

fn write_source_type(shape: &Shape, out: &mut String)
    ensures
        final(out)@ == old(out)@ + source_type(shape@),
{
    let n = shape.len();
    if n == 0 {
        out.append("()");
    } else if n == 1 {
        shape.field(0).ty.write(out);
    } else {
        out.append("(");
        let mut i: usize = 0;
        assert(out@ =~= old(out)@ + "("@ + source_types(shape@, 0));
        while i < n
            invariant
                n == shape@.fields().len(),
                i <= n,
                out@ == old(out)@ + "("@ + source_types(shape@, i as int),
            decreases n - i,
        {
            shape.field(i).ty.write(out);
            out.append(", ");
            i += 1;
            assert(out@ =~= old(out)@ + "("@ + source_types(shape@, i as int));
        }
        out.append(")");
        assert(out@ =~= old(out)@ + source_type(shape@));
    }
}

fn write_assignments(shape: &Shape, out: &mut String)
    ensures
        final(out)@ == old(out)@ + assignments(shape@, shape@.fields().len() as int),
{
    let n = shape.len();
    let mut i: usize = 0;
    assert(out@ =~= old(out)@ + assignments(shape@, 0));
    while i < n
        invariant
            n == shape@.fields().len(),
            i <= n,
            out@ == old(out)@ + assignments(shape@, i as int),
        decreases n - i,
    {
        let ghost before = out@;
        shape.write_label(i, out);
        if n == 1 {
            out.append("value");
        } else {
            out.append("value.");
            out.append(decimal_text(i).as_str());
        }
        assert(out@ =~= before + shape@.label(i as int) + source_value(shape@, i as int));
        out.append(", ");
        i += 1;
        assert(out@ =~= old(out)@ + assignments(shape@, i as int));
    }
}

fn write_construction(target: &str, shape: &Shape, out: &mut String)
    ensures
        final(out)@ == old(out)@ + construction(target@, shape@),
{
    out.append(target);
    let ghost before = out@;
    match shape {
        Shape::Named(_) => {
            out.append(" { ");
            write_assignments(shape, out);
            out.append("}");
            assert(out@ =~= before + (" { "@ + assignments(shape@, shape@.fields().len() as int)
                + "}"@));
        },
        Shape::Positional(_) => {
            out.append("(");
            write_assignments(shape, out);
            out.append(")");
            assert(out@ =~= before + ("("@ + assignments(shape@, shape@.fields().len() as int)
                + ")"@));
        },
        Shape::Unit => {
            assert(out@ =~= before + Seq::<char>::empty());
        },
    }
    assert(out@ =~= old(out)@ + construction(target@, shape@));
}

fn write_function(target: &str, shape: &Shape, out: &mut String)
    ensures
        final(out)@ == old(out)@ + function_text(target@, shape@),
{
    out.append("fn from(value: ");
    write_source_type(shape, out);
    out.append(") -> Self { ");
    write_construction(target, shape, out);
    out.append(" } ");
    assert(out@ =~= old(out)@ + function_text(target@, shape@));
}

/// Appends one implementation of `From` to `out`.
pub fn write_conversion(
    generics: &Generics,
    name: &str,
    target: &str,
    shape: &Shape,
    out: &mut String,
)
    ensures
        final(out)@ == old(out)@ + conversion_text(generics@, name@, target@, shape@),
{
    let mut implemented = String::from_str("::std::convert::From<");
    write_source_type(shape, &mut implemented);
    implemented.append("> for ");
    assert(implemented@ =~= subject(shape@));
    write_impl_header(out, generics, implemented.as_str(), name);
    write_function(target, shape, out);
    out.append("} ");
    assert(out@ =~= old(out)@ + conversion_text(generics@, name@, target@, shape@));
}

impl EnumData {
    /// Reads the attributes of `item`.
    pub fn read(item: &EnumDeclaration) -> (r: Result<EnumData, Error>)
        ensures
            match r {
                Ok(data) => read(item@) == Ok::<EnumDataView, ErrorView>(data@),
                Err(e) => read(item@) == Err::<EnumDataView, ErrorView>(e@),
            },
    {
        let keys = match read_keys(Position::FromItem, &item.attributes) {
            Ok(keys) => keys,
            Err(e) => {
                return Err(e);
            },
        };
        let named = key_covers(&keys, Category::Named);
        let unnamed = key_covers(&keys, Category::Positional);
        let unit = key_covers(&keys, Category::Unit);
        let ghost each = variant_settings(item@);
        let ghost n = item@.variants.len();
        let mut variants: Vec<Setting> = Vec::new();
        let mut i: usize = 0;
        while i < item.variants.len()
            invariant
                each == variant_settings(item@),
                n == item@.variants.len() == item.variants.len(),
                keys_of(Position::FromItem, item@.attributes) is Ok,
                i <= n,
                collected(i as int, each) == Ok::<Seq<Setting>, ErrorView>(variants@),
            decreases n - i,
        {
            assert(item@.variants[i as int] == item.variants[i as int]@);
            match read_keys(Position::FromVariant, &item.variants[i].attributes) {
                Ok(keys) => {
                    variants.push(fold_setting(&keys));
                },
                Err(e) => {
                    proof {
                        lemma_collected_prefix_failure(n as int, i as int, each);
                    }
                    return Err(e);
                },
            }
            i += 1;
        }
        Ok(EnumData { named, unnamed, unit, variants })
    }

    /// Whether a conversion is generated for variant `i`.
    pub fn converts(&self, item: &EnumDeclaration, i: usize) -> (b: bool)
        requires
            i < item@.variants.len(),
            self@.variants.len() == item@.variants.len(),
        ensures
            b == converted(item@, self@, i as int),
    {
        assert(item@.variants[i as int] == item.variants[i as int]@);
        let switch = match &item.variants[i].shape {
            Shape::Named(_) => self.named,
            Shape::Positional(_) => self.unnamed,
            Shape::Unit => self.unit,
        };
        self.variants[i].generated_under(switch)
    }

    /// Writes the conversions of the variants of `item`.
    pub fn write(&self, item: &EnumDeclaration) -> (s: String)
        requires
            self@.variants.len() == item@.variants.len(),
        ensures
            s@ == variant_conversions(item@, self@, item@.variants.len() as int),
    {
        let mut s = String::new();
        let n = item.variants.len();
        let mut i: usize = 0;
        while i < n
            invariant
                n == item@.variants.len() == self@.variants.len(),
                i <= n,
                s@ == variant_conversions(item@, self@, i as int),
            decreases n - i,
        {
            let ghost before = s@;
            assert(item@.variants[i as int] == item.variants[i as int]@);
            if self.converts(item, i) {
                let mut target = String::from_str("Self::");
                target.append(item.variants[i].name.as_str());
                write_conversion(
                    &item.generics,
                    item.name.as_str(),
                    target.as_str(),
                    &item.variants[i].shape,
                    &mut s,
                );
            }
            assert(s@ =~= before + variant_conversion(item@, self@, i as int));
            i += 1;
        }
        s
    }
}

/// A variant that its own attribute skips gets no conversion, whatever
/// the enum's attribute enables.
pub proof fn lemma_skipped_variant_is_left_out(item: EnumView, data: EnumDataView, i: int)
    requires
        0 <= i < item.variants.len(),
        data.variants[i] == Setting::Skipped,
    ensures
        !converted(item, data, i),
        variant_conversion(item, data, i) == Seq::<char>::empty(),
        variant_conversions(item, data, i + 1) == variant_conversions(item, data, i),
{
    assert(variant_conversions(item, data, i) + Seq::<char>::empty() =~= variant_conversions(
        item,
        data,
        i,
    ));
}

/// A variant gets a conversion exactly when its own attribute enables it,
/// or says nothing while the enum's attribute covers its category.
pub proof fn lemma_conversion_policy(item: EnumView, data: EnumDataView, i: int)
    ensures
        converted(item, data, i) <==> (data.variants[i] == Setting::Enabled || (data.variants[i]
            == Setting::Inherited && category_switch(data, item.variants[i].shape))),
{
}

/// The key `all` covers every category; the key of a category covers that
/// category.
pub proof fn lemma_covering_keys(keys: Seq<KeyUseView>, category: Category, n: int, k: int)
    requires
        0 <= k < n <= keys.len(),
        keys[k].key == Key::Convert(Category::All) || keys[k].key == Key::Convert(category),
    ensures
        covers(keys, category, n),
    decreases n,
{
    if k < n - 1 {
        lemma_covering_keys(keys, category, n - 1, k);
    }
}

/// Reading the attributes of an enum fails only with an unknown key or a
/// malformed value.
pub proof fn lemma_read_failures(item: EnumView)
    ensures
        read(item) is Err ==> crate::attribute::attribute_failure(read(item)->Err_0),
{
    let n = item.variants.len() as int;
    let each = variant_settings(item);
    crate::attribute::lemma_key_failures(Position::FromItem, item.attributes, 0);
    if collected(n, each) is Err {
        crate::policy::lemma_collected_failure(n, each);
        let i = choose|i: int|
            0 <= i < n && (#[trigger] each(i)) == Err::<Setting, ErrorView>(
                collected(n, each)->Err_0,
            ) && collected(i, each) is Ok;
        crate::attribute::lemma_key_failures(
            Position::FromVariant,
            item.variants[i].attributes,
            0,
        );
    }
}

/// In an enum on which the generator's attribute stands nowhere no
/// variant is converted, and the generator cannot fail on it.
pub proof fn lemma_enum_without_attribute(item: EnumView)
    requires
        forall|k: int| 0 <= k < item.attributes.len() ==> (#[trigger] item.attributes[k]).path != "From"@,
        forall|i: int, k: int|
            0 <= i < item.variants.len() && 0 <= k < item.variants[i].attributes.len() ==> (
            #[trigger] item.variants[i].attributes[k]).path != "From"@,
    ensures
        read(item) is Ok,
        forall|i: int| 0 <= i < item.variants.len() ==> !(#[trigger] converted(item, read(item)->Ok_0, i)),
{
    let n = item.variants.len() as int;
    let each = variant_settings(item);
    crate::attribute::lemma_no_attribute_no_key(Position::FromItem, item.attributes, 0);
    assert forall|i: int| 0 <= i < n implies (#[trigger] each(i)) == Ok::<Setting, ErrorView>(
        Setting::Inherited,
    ) by {
        crate::attribute::lemma_no_attribute_no_key(
            Position::FromVariant,
            item.variants[i].attributes,
            0,
        );
    }
    crate::policy::lemma_collected_succeeds(n, each);
    lemma_collected(n, each);
    assert forall|i: int| 0 <= i < n implies !(#[trigger] converted(item, read(item)->Ok_0, i)) by {
        assert(each(i) == Ok::<Setting, ErrorView>(Setting::Inherited));
    }
}

/// The conversion generator.
pub struct Macro;

impl Macro {
    /// Generates the conversions of `declaration`.
    pub fn handle(declaration: &Declaration) -> (r: Result<String, Error>)
        ensures
            match r {
                Ok(s) => expansion(declaration@) == Ok::<Seq<char>, ErrorView>(s@),
                Err(e) => expansion(declaration@) == Err::<Seq<char>, ErrorView>(e@),
            },
    {
        match declaration {
            Declaration::Struct(item) => {
                let mut s = String::new();
                write_conversion(&item.generics, item.name.as_str(), "Self", &item.shape, &mut s);
                assert(s@ =~= conversion_text(item@.generics, item@.name, "Self"@, item@.shape));
                Ok(s)
            },
            Declaration::Enum(item) => match EnumData::read(item) {
                Ok(data) => {
                    proof {
                        lemma_collected(item@.variants.len() as int, variant_settings(item@));
                    }
                    Ok(data.write(item))
                },
                Err(e) => Err(e),
            },
            Declaration::Other => Err(Error::UnsupportedItem),
        }
    }
}

} // verus!
