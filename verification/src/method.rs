//! The method generator: for each field of a struct an accessor, a
//! mutator and a setter, each generated where the policy enables it.

use crate::attribute::{keys_of, read_keys, Key, KeyUse, KeyUseView, Position};
use crate::declaration::{
    impl_header, type_text, write_impl_header, Declaration, DeclarationView, FieldView,
    StructDeclaration, StructView, TypeExpr, TypeExprView,
};
use crate::diagnostic::{Error, ErrorView};
use crate::policy::{
    by_reference, collected, enabled, lemma_collected, lemma_collected_prefix_failure,
    return_shape, ReturnShape, Setting,
};
use crate::token::same;
use vstd::prelude::*;
use vstd::string::*;

verus! {

/// The three methods that a field can get.
#[derive(Clone, Copy, Debug, PartialEq, Eq, Structural)]
pub enum Method {
    Accessor,
    Mutator,
    Setter,
}

/// What is said about the methods at one level of the policy: on the
/// struct, or on one field.
#[derive(Clone, Copy, Debug, PartialEq, Eq, Structural)]
pub struct FieldData {
    pub accessor: Setting,
    pub accessor_return: Option<ReturnShape>,
    pub mutator: Setting,
    pub setter: Setting,
}

/// The policy of a struct: what its own attribute says, and what the
/// attributes of each field say.
#[derive(Debug)]
pub struct Data {
    pub container: FieldData,
    pub fields: Vec<FieldData>,
}

/// The mathematical content of a [`Data`].
pub ghost struct DataView {
    pub container: FieldData,
    pub fields: Seq<FieldData>,
}

impl View for Data {
    type V = DataView;

    open spec fn view(&self) -> DataView {
        DataView { container: self.container, fields: self.fields@ }
    }
}

/// A level of the policy at which nothing is said.
pub open spec fn silent() -> FieldData {
    FieldData {
        accessor: Setting::Inherited,
        accessor_return: None,
        mutator: Setting::Inherited,
        setter: Setting::Inherited,
    }
}

/// `data` after one more key: the key sets what it names and leaves the
/// rest.
pub open spec fn with_key(data: FieldData, key: Key) -> FieldData {
    match key {
        Key::Every(setting) => FieldData {
            accessor: setting,
            mutator: setting,
            setter: setting,
            ..data
        },
        Key::Accessor(setting) => FieldData { accessor: setting, ..data },
        Key::Mutator(setting) => FieldData { mutator: setting, ..data },
        Key::Setter(setting) => FieldData { setter: setting, ..data },
        Key::Returns(shape) => FieldData { accessor_return: Some(shape), ..data },
        _ => data,
    }
}

/// What the first `n` keys say, each laid over the ones before it.
pub open spec fn data_after(keys: Seq<KeyUseView>, n: int) -> FieldData
    decreases n,
{
    if n <= 0 || n > keys.len() {
        silent()
    } else {
        with_key(data_after(keys, n - 1), keys[n - 1].key)
    }
}

/// What the attributes of one field say.
pub open spec fn field_data(field: FieldView) -> Result<FieldData, ErrorView> {
    match keys_of(Position::MethodField, field.attributes) {
        Ok(keys) => Ok(data_after(keys, keys.len() as int)),
        Err(e) => Err(e),
    }
}

/// What the attributes of each field of `item` say.
pub open spec fn fields_data(item: StructView) -> spec_fn(int) -> Result<FieldData, ErrorView> {
    |i: int| field_data(item.shape.fields()[i])
}

/// What the attributes of `item` ask for: the struct's own attribute is
/// read first, then those of the fields in order; the first failure
/// stands.
pub open spec fn read(item: StructView) -> Result<DataView, ErrorView> {
    match keys_of(Position::MethodItem, item.attributes) {
        Err(e) => Err(e),
        Ok(keys) => match collected(item.shape.fields().len() as int, fields_data(item)) {
            Err(e) => Err(e),
            Ok(fields) => Ok(DataView { container: data_after(keys, keys.len() as int), fields }),
        },
    }
}

/// The setting of `method` at one level.
pub open spec fn setting_of(data: FieldData, method: Method) -> Setting {
    match method {
        Method::Accessor => data.accessor,
        Method::Mutator => data.mutator,
        Method::Setter => data.setter,
    }
}

/// Whether `method` is generated for field `i`.
pub open spec fn wanted(data: DataView, method: Method, i: int) -> bool {
    enabled(setting_of(data.container, method), setting_of(data.fields[i], method))
}

/// Whether `name` is one of the primitive types that are copied: the
/// integers of every width, the two floating-point types, `char` and
/// `bool`.
pub open spec fn primitive(name: Seq<char>) -> bool {
    ||| name == "i8"@
    ||| name == "i16"@
    ||| name == "i32"@
    ||| name == "i64"@
    ||| name == "i128"@
    ||| name == "isize"@
    ||| name == "u8"@
    ||| name == "u16"@
    ||| name == "u32"@
    ||| name == "u64"@
    ||| name == "u128"@
    ||| name == "usize"@
    ||| name == "f32"@
    ||| name == "f64"@
    ||| name == "char"@
    ||| name == "bool"@
}

/// Whether a type is recognised as copyable by its syntax: a primitive
/// named without qualifier or arguments, the unit type, or a tuple of one
/// such type.
pub open spec fn copyable(ty: TypeExprView) -> bool
    decreases ty,
{
    match ty {
        TypeExprView::Path(path) => path.qualifier.len() == 0 && path.arguments.len() == 0
            && primitive(path.name),
        TypeExprView::Tuple(elements) => elements.len() == 0 || (elements.len() == 1 && copyable(
            elements[0],
        )),
        TypeExprView::Other(_) => false,
    }
}

/// Whether the accessor of field `i` returns a reference.
pub open spec fn returns_reference(item: StructView, data: DataView, i: int) -> bool {
    by_reference(
        return_shape(data.container.accessor_return, data.fields[i].accessor_return),
        copyable(item.shape.fields()[i].ty),
    )
}

/// The `&` of a reference, or nothing.
pub open spec fn reference(on: bool) -> Seq<char> {
    if on {
        "&"@
    } else {
        Seq::empty()
    }
}

/// The name of `method` for a field bound as `binding`.
pub open spec fn method_name(method: Method, binding: Seq<char>) -> Seq<char> {
    match method {
        Method::Accessor => binding,
        Method::Mutator => binding + "_mut"@,
        Method::Setter => "set_"@ + binding,
    }
}

/// The parameters of `method` and what it returns.
pub open spec fn method_signature(
    method: Method,
    binding: Seq<char>,
    ty: Seq<char>,
    by_reference: bool,
) -> Seq<char> {
    match method {
        Method::Accessor => "(&self) -> "@ + reference(by_reference) + ty,
        Method::Mutator => "(&mut self) -> &mut "@ + ty,
        Method::Setter => "(&mut self, "@ + binding + ": "@ + ty + ")"@,
    }
}

/// The body of `method` for the field written `member` after `self.`.
pub open spec fn method_body(
    method: Method,
    binding: Seq<char>,
    member: Seq<char>,
    by_reference: bool,
) -> Seq<char> {
    match method {
        Method::Accessor => reference(by_reference) + "self."@ + member,
        Method::Mutator => "&mut self."@ + member,
        Method::Setter => "self."@ + member + " = "@ + binding + ";"@,
    }
}

/// `method` for field `i`, whether or not it is wanted.
pub open spec fn method_text(item: StructView, data: DataView, method: Method, i: int) -> Seq<
    char,
> {
    item.visibility + " fn "@ + method_name(method, item.shape.binding(i)) + method_signature(
        method,
        item.shape.binding(i),
        type_text(item.shape.fields()[i].ty),
        returns_reference(item, data, i),
    ) + " { "@ + method_body(
        method,
        item.shape.binding(i),
        item.shape.member(i),
        returns_reference(item, data, i),
    ) + " } "@
}

/// `method` for each of the first `n` fields for which it is wanted, in
/// declaration order.
pub open spec fn methods_text(item: StructView, data: DataView, method: Method, n: int) -> Seq<
    char,
>
    decreases n,
{
    if n <= 0 || n > data.fields.len() {
        Seq::empty()
    } else if wanted(data, method, n - 1) {
        methods_text(item, data, method, n - 1) + method_text(item, data, method, n - 1)
    } else {
        methods_text(item, data, method, n - 1)
    }
}

/// The generated implementation block: the accessors, then the mutators,
/// then the setters.
pub open spec fn written(item: StructView, data: DataView) -> Seq<char> {
    impl_header(item.generics, ""@, item.name) + methods_text(
        item,
        data,
        Method::Accessor,
        data.fields.len() as int,
    ) + methods_text(item, data, Method::Mutator, data.fields.len() as int) + methods_text(
        item,
        data,
        Method::Setter,
        data.fields.len() as int,
    ) + "}"@
}

/// What the generator gives for `declaration`.
pub open spec fn expansion(declaration: DeclarationView) -> Result<Seq<char>, ErrorView> {
    match declaration {
        DeclarationView::Struct(item) => match read(item) {
            Ok(data) => Ok(written(item, data)),
            Err(e) => Err(e),
        },
        _ => Err(ErrorView::UnsupportedItem),
    }
}

fn is_primitive(name: &str) -> (b: bool)
    ensures
        b == primitive(name@),
{
    same(name, "i8") || same(name, "i16") || same(name, "i32") || same(name, "i64") || same(
        name,
        "i128",
    ) || same(name, "isize") || same(name, "u8") || same(name, "u16") || same(name, "u32")
        || same(name, "u64") || same(name, "u128") || same(name, "usize") || same(name, "f32")
        || same(name, "f64") || same(name, "char") || same(name, "bool")
}

/// Whether a type is recognised as copyable by its syntax.
pub fn is_copy(ty: &TypeExpr) -> (b: bool)
    ensures
        b == copyable(ty@),
    decreases ty,
{
    match ty {
        TypeExpr::Path(path) => path.qualifier.as_str().unicode_len() == 0
            && path.arguments.as_str().unicode_len() == 0 && is_primitive(path.name.as_str()),
        TypeExpr::Tuple(elements) => {
            if elements.len() == 0 {
                true
            } else if elements.len() == 1 {
                assert(ty@->Tuple_0[0] == elements@[0]@);
                is_copy(&elements[0])
            } else {
                false
            }
        },
        TypeExpr::Other(_) => false,
    }
}

impl FieldData {
    /// A level at which nothing is said.
    pub fn silent() -> (data: FieldData)
        ensures
            data == silent(),
    {
        FieldData {
            accessor: Setting::Inherited,
            accessor_return: None,
            mutator: Setting::Inherited,
            setter: Setting::Inherited,
        }
    }

    /// Lays one more key over what is said.
    pub fn set(&mut self, key: Key)
        ensures
            *final(self) == with_key(*old(self), key),
    {
        match key {
            Key::Every(setting) => {
                self.accessor = setting;
                self.mutator = setting;
                self.setter = setting;
            },
            Key::Accessor(setting) => {
                self.accessor = setting;
            },
            Key::Mutator(setting) => {
                self.mutator = setting;
            },
            Key::Setter(setting) => {
                self.setter = setting;
            },
            Key::Returns(shape) => {
                self.accessor_return = Some(shape);
            },
            _ => {},
        }
    }

    /// What `keys` say.
    pub fn fold(keys: &Vec<KeyUse>) -> (data: FieldData)
        ensures
            data == data_after(keys.deep_view(), keys.len() as int),
    {
        let mut data = FieldData::silent();
        let mut i: usize = 0;
        while i < keys.len()
            invariant
                i <= keys.len(),
                data == data_after(keys.deep_view(), i as int),
            decreases keys.len() - i,
        {
            assert(keys.deep_view()[i as int] == keys[i as int]@);
            data.set(keys[i].key);
            i += 1;
        }
        data
    }

    /// The setting of `method`.
    pub fn setting_of(&self, method: Method) -> (setting: Setting)
        ensures
            setting == setting_of(*self, method),
    {
        match method {
            Method::Accessor => self.accessor,
            Method::Mutator => self.mutator,
            Method::Setter => self.setter,
        }
    }
}

fn write_reference(on: bool, out: &mut String)
    ensures
        final(out)@ == old(out)@ + reference(on),
{
    if on {
        out.append("&");
    }
    assert(out@ =~= old(out)@ + reference(on));
}

fn write_method_name(method: Method, binding: &str, out: &mut String)
    ensures
        final(out)@ == old(out)@ + method_name(method, binding@),
{
    match method {
        Method::Accessor => {
            out.append(binding);
        },
        Method::Mutator => {
            out.append(binding);
            out.append("_mut");
        },
        Method::Setter => {
            out.append("set_");
            out.append(binding);
        },
    }
    assert(out@ =~= old(out)@ + method_name(method, binding@));
}

fn write_method_signature(
    method: Method,
    binding: &str,
    ty: &str,
    by_reference: bool,
    out: &mut String,
)
    ensures
        final(out)@ == old(out)@ + method_signature(method, binding@, ty@, by_reference),
{
    match method {
        Method::Accessor => {
            out.append("(&self) -> ");
            write_reference(by_reference, out);
            out.append(ty);
        },
        Method::Mutator => {
            out.append("(&mut self) -> &mut ");
            out.append(ty);
        },
        Method::Setter => {
            out.append("(&mut self, ");
            out.append(binding);
            out.append(": ");
            out.append(ty);
            out.append(")");
        },
    }
    assert(out@ =~= old(out)@ + method_signature(method, binding@, ty@, by_reference));
}

fn write_method_body(
    method: Method,
    binding: &str,
    member: &str,
    by_reference: bool,
    out: &mut String,
)
    ensures
        final(out)@ == old(out)@ + method_body(method, binding@, member@, by_reference),
{
    match method {
        Method::Accessor => {
            write_reference(by_reference, out);
            out.append("self.");
            out.append(member);
        },
        Method::Mutator => {
            out.append("&mut self.");
            out.append(member);
        },
        Method::Setter => {
            out.append("self.");
            out.append(member);
            out.append(" = ");
            out.append(binding);
            out.append(";");
        },
    }
    assert(out@ =~= old(out)@ + method_body(method, binding@, member@, by_reference));
}

impl Data {
    /// Reads the attributes of `item`.
    pub fn read(item: &StructDeclaration) -> (r: Result<Data, Error>)
        ensures
            match r {
                Ok(data) => read(item@) == Ok::<DataView, ErrorView>(data@),
                Err(e) => read(item@) == Err::<DataView, ErrorView>(e@),
            },
    {
        let keys = match read_keys(Position::MethodItem, &item.attributes) {
            Ok(keys) => keys,
            Err(e) => {
                return Err(e);
            },
        };
        let container = FieldData::fold(&keys);
        let ghost each = fields_data(item@);
        let ghost n = item@.shape.fields().len();
        let mut fields: Vec<FieldData> = Vec::new();
        let mut i: usize = 0;
        while i < item.shape.len()
            invariant
                each == fields_data(item@),
                n == item@.shape.fields().len(),
                keys_of(Position::MethodItem, item@.attributes) is Ok,
                i <= n,
                collected(i as int, each) == Ok::<Seq<FieldData>, ErrorView>(fields@),
            decreases n - i,
        {
            match read_keys(Position::MethodField, &item.shape.field(i).attributes) {
                Ok(keys) => {
                    fields.push(FieldData::fold(&keys));
                },
                Err(e) => {
                    proof {
                        lemma_collected_prefix_failure(n as int, i as int, each);
                    }
                    return Err(e);
                },
            }
            i += 1;
        }
        Ok(Data { container, fields })
    }

    /// Whether `method` is generated for field `i`.
    pub fn wants(&self, method: Method, i: usize) -> (b: bool)
        requires
            i < self@.fields.len(),
        ensures
            b == wanted(self@, method, i as int),
    {
        self.fields[i].setting_of(method).enabled_under(self.container.setting_of(method))
    }

    /// Whether the accessor of field `i` returns a reference.
    pub fn returns_reference(&self, item: &StructDeclaration, i: usize) -> (b: bool)
        requires
            i < self@.fields.len(),
            self@.fields.len() == item@.shape.fields().len(),
        ensures
            b == returns_reference(item@, self@, i as int),
    {
        let shape = match self.fields[i].accessor_return {
            Some(shape) => shape,
            None => match self.container.accessor_return {
                Some(shape) => shape,
                None => ReturnShape::Automatic,
            },
        };
        shape.by_reference(is_copy(&item.shape.field(i).ty))
    }

    /// Appends `method` for field `i` to `out`.
    pub fn write_method(&self, item: &StructDeclaration, method: Method, i: usize, out: &mut String)
        requires
            i < self@.fields.len(),
            self@.fields.len() == item@.shape.fields().len(),
        ensures
            final(out)@ == old(out)@ + method_text(item@, self@, method, i as int),
    {
        let binding = item.shape.binding(i);
        let member = item.shape.member(i);
        let ty = item.shape.field(i).ty.text();
        let by_reference = self.returns_reference(item, i);
        out.append(item.visibility.as_str());
        out.append(" fn ");
        write_method_name(method, binding.as_str(), out);
        write_method_signature(method, binding.as_str(), ty.as_str(), by_reference, out);
        out.append(" { ");
        write_method_body(method, binding.as_str(), member.as_str(), by_reference, out);
        out.append(" } ");
        assert(out@ =~= old(out)@ + method_text(item@, self@, method, i as int));
    }

    /// Appends `method` for each field for which it is wanted.
    pub fn write_methods(&self, item: &StructDeclaration, method: Method, out: &mut String)
        requires
            self@.fields.len() == item@.shape.fields().len(),
        ensures
            final(out)@ == old(out)@ + methods_text(
                item@,
                self@,
                method,
                self@.fields.len() as int,
            ),
    {
        let n = self.fields.len();
        let mut i: usize = 0;
        assert(out@ =~= old(out)@ + methods_text(item@, self@, method, 0));
        while i < n
            invariant
                n == self@.fields.len() == item@.shape.fields().len(),
                i <= n,
                out@ == old(out)@ + methods_text(item@, self@, method, i as int),
            decreases n - i,
        {
            if self.wants(method, i) {
                self.write_method(item, method, i, out);
            }
            i += 1;
            assert(out@ =~= old(out)@ + methods_text(item@, self@, method, i as int));
        }
    }

    /// Writes the implementation block for `item`.
    pub fn write(&self, item: &StructDeclaration) -> (s: String)
        requires
            self@.fields.len() == item@.shape.fields().len(),
        ensures
            s@ == written(item@, self@),
    {
        let mut s = String::new();
        write_impl_header(&mut s, &item.generics, "", item.name.as_str());
        self.write_methods(item, Method::Accessor, &mut s);
        self.write_methods(item, Method::Mutator, &mut s);
        self.write_methods(item, Method::Setter, &mut s);
        s.append("}");
        assert(s@ =~= written(item@, self@));
        s
    }
}

/// A method that a field's own attribute skips is not generated for the
/// field, whatever the struct's attribute says: the methods of that kind
/// are those of the fields before it.
pub proof fn lemma_skipped_method_is_left_out(
    item: StructView,
    data: DataView,
    method: Method,
    i: int,
)
    requires
        0 <= i < data.fields.len(),
        setting_of(data.fields[i], method) == Setting::Skipped,
    ensures
        !wanted(data, method, i),
        methods_text(item, data, method, i + 1) == methods_text(item, data, method, i),
{
}

/// A method is generated for a field exactly when the field's own
/// attribute enables it, or says nothing of it while the struct's
/// attribute enables it.
pub proof fn lemma_method_policy(data: DataView, method: Method, i: int)
    ensures
        wanted(data, method, i) <==> (setting_of(data.fields[i], method) == Setting::Enabled || (
            setting_of(data.fields[i], method) == Setting::Inherited && setting_of(
                data.container,
                method,
            ) == Setting::Enabled)),
{
}

/// Under the automatic return shape an accessor returns by value exactly
/// when the field's type is recognised as copyable, and by reference
/// otherwise; a field's own choice of shape stands over the struct's.
pub proof fn lemma_accessor_return(item: StructView, data: DataView, i: int)
    ensures
        return_shape(data.container.accessor_return, data.fields[i].accessor_return)
            == ReturnShape::Automatic ==> (returns_reference(item, data, i) <==> !copyable(
            item.shape.fields()[i].ty,
        )),
        data.fields[i].accessor_return == Some(ReturnShape::Reference) ==> returns_reference(
            item,
            data,
            i,
        ),
        data.fields[i].accessor_return == Some(ReturnShape::Copy) ==> !returns_reference(
            item,
            data,
            i,
        ),
        data.fields[i].accessor_return is None && data.container.accessor_return is None
            ==> (returns_reference(item, data, i) <==> !copyable(item.shape.fields()[i].ty)),
{
}

/// The type named `name`, without qualifier or arguments.
pub open spec fn plain_type(name: Seq<char>) -> TypeExprView {
    TypeExprView::Path(
        crate::declaration::TypePathView {
            qualifier: Seq::empty(),
            name,
            arguments: Seq::empty(),
        },
    )
}

/// Every primitive is copyable, and so are the unit type and the tuple of
/// one copyable type; a tuple of two or more types never is.
pub proof fn lemma_copyable_types(name: Seq<char>, ty: TypeExprView, other: TypeExprView)
    ensures
        primitive(name) ==> copyable(plain_type(name)),
        copyable(TypeExprView::Tuple(Seq::empty())),
        copyable(ty) <==> copyable(TypeExprView::Tuple(seq![ty])),
        !copyable(TypeExprView::Tuple(seq![ty, other])),
{
    assert(seq![ty][0] == ty);
    assert(seq![ty, other].len() == 2);
}

/// The growable string type is not copyable.
pub proof fn lemma_string_is_not_copyable()
    ensures
        !copyable(plain_type("String"@)),
{
    reveal_strlit("String");
    reveal_strlit("i8");
    reveal_strlit("i16");
    reveal_strlit("i32");
    reveal_strlit("i64");
    reveal_strlit("i128");
    reveal_strlit("isize");
    reveal_strlit("u8");
    reveal_strlit("u16");
    reveal_strlit("u32");
    reveal_strlit("u64");
    reveal_strlit("u128");
    reveal_strlit("usize");
    reveal_strlit("f32");
    reveal_strlit("f64");
    reveal_strlit("char");
    reveal_strlit("bool");
    assert("String"@[0] == 'S');
    assert("isize"@[0] == 'i');
    assert("usize"@[0] == 'u');
}

/// Reading the attributes of a struct fails only with an unknown key or a
/// malformed value.
pub proof fn lemma_read_failures(item: StructView)
    ensures
        read(item) is Err ==> crate::attribute::attribute_failure(read(item)->Err_0),
{
    let n = item.shape.fields().len() as int;
    let each = fields_data(item);
    crate::attribute::lemma_key_failures(Position::MethodItem, item.attributes, 0);
    if collected(n, each) is Err {
        crate::policy::lemma_collected_failure(n, each);
        let i = choose|i: int|
            0 <= i < n && (#[trigger] each(i)) == Err::<FieldData, ErrorView>(
                collected(n, each)->Err_0,
            ) && collected(i, each) is Ok;
        crate::attribute::lemma_key_failures(
            Position::MethodField,
            item.shape.fields()[i].attributes,
            0,
        );
    }
}

/// A struct on which the generator's attribute stands nowhere gets an
/// implementation block without methods: nothing is generated unless it
/// is asked for, and the generator cannot fail on such a struct.
pub proof fn lemma_struct_without_attribute(item: StructView)
    requires
        forall|k: int| 0 <= k < item.attributes.len() ==> (#[trigger] item.attributes[k]).path != "Method"@,
        forall|i: int, k: int|
            0 <= i < item.shape.fields().len() && 0 <= k < item.shape.fields()[i].attributes.len()
                ==> (#[trigger] item.shape.fields()[i].attributes[k]).path != "Method"@,
    ensures
        read(item) is Ok,
        forall|method: Method, i: int|
            0 <= i < item.shape.fields().len() ==> !(#[trigger] wanted(
                read(item)->Ok_0,
                method,
                i,
            )),
{
    let n = item.shape.fields().len() as int;
    let each = fields_data(item);
    crate::attribute::lemma_no_attribute_no_key(Position::MethodItem, item.attributes, 0);
    assert forall|i: int| 0 <= i < n implies (#[trigger] each(i)) == Ok::<FieldData, ErrorView>(
        silent(),
    ) by {
        crate::attribute::lemma_no_attribute_no_key(
            Position::MethodField,
            item.shape.fields()[i].attributes,
            0,
        );
    }
    crate::policy::lemma_collected_succeeds(n, each);
    lemma_collected(n, each);
    assert forall|method: Method, i: int| 0 <= i < n implies !(#[trigger] wanted(
        read(item)->Ok_0,
        method,
        i,
    )) by {
        assert(each(i) == Ok::<FieldData, ErrorView>(silent()));
        assert(data_after(Seq::<KeyUseView>::empty(), 0) == silent());
    }
}

/// The method generator.
pub struct Macro;

impl Macro {
    /// Generates the methods of `declaration`.
    pub fn handle(declaration: &Declaration) -> (r: Result<String, Error>)
        ensures
            match r {
                Ok(s) => expansion(declaration@) == Ok::<Seq<char>, ErrorView>(s@),
                Err(e) => expansion(declaration@) == Err::<Seq<char>, ErrorView>(e@),
            },
    {
        match declaration {
            Declaration::Struct(item) => match Data::read(item) {
                Ok(data) => {
                    proof {
                        lemma_collected(item@.shape.fields().len() as int, fields_data(item@));
                    }
                    Ok(data.write(item))
                },
                Err(e) => Err(e),
            },
            _ => Err(Error::UnsupportedItem),
        }
    }
}

} // verus!
