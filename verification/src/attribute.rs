//! The attribute mini-language: a comma-separated list of keys, one of
//! which takes a value after `=`. Each position at which a generator looks
//! for attributes knows its own keys.

use crate::declaration::{Arguments, ArgumentsView, Attribute, AttributeView};
use crate::diagnostic::{Error, ErrorView, Malformation};
use crate::policy::{ReturnShape, Setting};
use crate::token::{render, same, tokens_text, Token, TokenView};
use vstd::prelude::*;
use vstd::string::*;

verus! {

/// A place where a generator looks for its attribute.
#[derive(Clone, Copy, Debug, PartialEq, Eq, Structural)]
pub enum Position {
    ConstructorItem,
    ConstructorField,
    FromItem,
    FromVariant,
    MethodItem,
    MethodField,
    InnerField,
    RecordField,
}

/// The shapes that a container-wide conversion switch covers.
#[derive(Clone, Copy, Debug, PartialEq, Eq, Structural)]
pub enum Category {
    All,
    Named,
    Positional,
    Unit,
}

/// What a recognised key asks for.
#[derive(Clone, Copy, Debug, PartialEq, Eq, Structural)]
pub enum Key {
    /// The visibility of the generated constructor; the one key with a
    /// value.
    Visibility,
    /// The field is initialised with its type's default.
    Default,
    /// Conversions for every variant of the category.
    Convert(Category),
    /// The item itself is enabled or skipped.
    Item(Setting),
    /// Accessor, mutator and setter together.
    Every(Setting),
    Accessor(Setting),
    Mutator(Setting),
    Setter(Setting),
    Returns(ReturnShape),
    /// The field is projected through its own projection.
    Flatten,
}

/// A recognised key as it occurs in an attribute, with the source text of
/// its value (empty for a key without one).
#[derive(Debug)]
pub struct KeyUse {
    pub key: Key,
    pub value: String,
}

/// The mathematical content of a [`KeyUse`].
pub ghost struct KeyUseView {
    pub key: Key,
    pub value: Seq<char>,
}

impl View for KeyUse {
    type V = KeyUseView;

    open spec fn view(&self) -> KeyUseView {
        KeyUseView { key: self.key, value: self.value@ }
    }
}

impl DeepView for KeyUse {
    type V = KeyUseView;

    open spec fn deep_view(&self) -> KeyUseView {
        self@
    }
}

/// The name of the attribute that is read at `position`.
pub open spec fn attribute_name(position: Position) -> Seq<char> {
    match position {
        Position::ConstructorItem | Position::ConstructorField => "Constructor"@,
        Position::FromItem | Position::FromVariant => "From"@,
        Position::MethodItem | Position::MethodField => "Method"@,
        Position::InnerField => "Inner"@,
        Position::RecordField => "Record"@,
    }
}

/// Whether every attribute of that name is read at `position`, each laid
/// over the ones before it. On a declaration itself only the first is
/// read.
pub open spec fn reads_all(position: Position) -> bool {
    match position {
        Position::ConstructorItem | Position::FromItem | Position::MethodItem => false,
        _ => true,
    }
}

/// The keys of a declaration that generates methods.
pub open spec fn method_item_key(key: Seq<char>) -> Option<Key> {
    if key == "all"@ {
        Some(Key::Every(Setting::Enabled))
    } else if key == "accessors"@ {
        Some(Key::Accessor(Setting::Enabled))
    } else if key == "mutators"@ {
        Some(Key::Mutator(Setting::Enabled))
    } else if key == "setters"@ {
        Some(Key::Setter(Setting::Enabled))
    } else if key == "accessors_return_automatic"@ {
        Some(Key::Returns(ReturnShape::Automatic))
    } else if key == "accessors_return_reference"@ {
        Some(Key::Returns(ReturnShape::Reference))
    } else if key == "accessors_return_copy"@ {
        Some(Key::Returns(ReturnShape::Copy))
    } else {
        None
    }
}

/// The keys of a field for which methods are generated. The return shape
/// is accepted under both spellings, `accessor_return_` and
/// `accessor_returns_`.
pub open spec fn method_field_key(key: Seq<char>) -> Option<Key> {
    if key == "all"@ {
        Some(Key::Every(Setting::Enabled))
    } else if key == "skip_all"@ {
        Some(Key::Every(Setting::Skipped))
    } else if key == "accessor"@ {
        Some(Key::Accessor(Setting::Enabled))
    } else if key == "skip_accessor"@ {
        Some(Key::Accessor(Setting::Skipped))
    } else if key == "mutator"@ {
        Some(Key::Mutator(Setting::Enabled))
    } else if key == "skip_mutator"@ {
        Some(Key::Mutator(Setting::Skipped))
    } else if key == "setter"@ {
        Some(Key::Setter(Setting::Enabled))
    } else if key == "skip_setter"@ {
        Some(Key::Setter(Setting::Skipped))
    } else if key == "accessor_return_automatic"@ || key == "accessor_returns_automatic"@ {
        Some(Key::Returns(ReturnShape::Automatic))
    } else if key == "accessor_return_reference"@ || key == "accessor_returns_reference"@ {
        Some(Key::Returns(ReturnShape::Reference))
    } else if key == "accessor_return_copy"@ || key == "accessor_returns_copy"@ {
        Some(Key::Returns(ReturnShape::Copy))
    } else {
        None
    }
}

/// What the key written as `key` asks for at `position`; `None` for a key
/// that the position does not know.
pub open spec fn recognized(position: Position, key: Seq<char>) -> Option<Key> {
    match position {
        Position::ConstructorItem => if key == "visibility"@ {
            Some(Key::Visibility)
        } else {
            None
        },
        Position::ConstructorField => if key == "default"@ {
            Some(Key::Default)
        } else {
            None
        },
        Position::FromItem => if key == "all"@ {
            Some(Key::Convert(Category::All))
        } else if key == "named"@ {
            Some(Key::Convert(Category::Named))
        } else if key == "unnamed"@ {
            Some(Key::Convert(Category::Positional))
        } else if key == "unit"@ {
            Some(Key::Convert(Category::Unit))
        } else {
            None
        },
        Position::FromVariant => if key == "enable"@ {
            Some(Key::Item(Setting::Enabled))
        } else if key == "skip"@ {
            Some(Key::Item(Setting::Skipped))
        } else {
            None
        },
        Position::MethodItem => method_item_key(key),
        Position::MethodField => method_field_key(key),
        Position::InnerField | Position::RecordField => if key == "flatten"@ {
            Some(Key::Flatten)
        } else if key == "skip"@ {
            Some(Key::Item(Setting::Skipped))
        } else {
            None
        },
    }
}

/// Whether `t` is the comma that separates two entries.
pub open spec fn is_comma(t: TokenView) -> bool {
    t matches TokenView::Punct { symbol, .. } && symbol == ','
}

/// Whether `t` is the `=` between a key and its value.
pub open spec fn is_equals(t: TokenView) -> bool {
    t matches TokenView::Punct { symbol, .. } && symbol == '='
}

/// The position of the first comma at or after `from`, or the length of
/// `tokens` where there is none.
pub open spec fn entry_end(tokens: Seq<TokenView>, from: int) -> int
    decreases tokens.len() - from,
{
    if from >= tokens.len() {
        tokens.len() as int
    } else if from >= 0 && is_comma(tokens[from]) {
        from
    } else {
        entry_end(tokens, from + 1)
    }
}

/// What the entry `tokens[from..to]` asks for at `position`.
///
/// An entry begins with an identifier, its key. A key that the position
/// does not know is refused before anything else about the entry is
/// looked at. The visibility key must be followed by `=`, and what stands
/// after it is the key's value, whatever it is; every other key must stand
/// alone.
pub open spec fn entry_key(position: Position, tokens: Seq<TokenView>, from: int, to: int)
    -> Result<KeyUseView, ErrorView> {
    if to <= from || !(tokens[from] is Ident) {
        Err(ErrorView::MalformedAttributeValue(Malformation::ExpectedIdentifier))
    } else {
        match recognized(position, tokens[from]->Ident_0) {
            None => Err(ErrorView::UnknownAttributeKey),
            Some(Key::Visibility) => {
                if to <= from + 1 || !is_equals(tokens[from + 1]) {
                    Err(ErrorView::MalformedAttributeValue(Malformation::ExpectedEquals))
                } else {
                    Ok(
                        KeyUseView {
                            key: Key::Visibility,
                            value: tokens_text(tokens, from + 2, to),
                        },
                    )
                }
            },
            Some(key) => {
                if to > from + 1 {
                    Err(ErrorView::MalformedAttributeValue(Malformation::ExpectedComma))
                } else {
                    Ok(KeyUseView { key, value: Seq::empty() })
                }
            },
        }
    }
}

/// `more` after `first`, unless either is a failure; the earlier failure
/// stands.
pub open spec fn followed_by(
    first: Result<Seq<KeyUseView>, ErrorView>,
    more: Result<Seq<KeyUseView>, ErrorView>,
) -> Result<Seq<KeyUseView>, ErrorView> {
    match first {
        Err(e) => Err(e),
        Ok(keys) => match more {
            Err(e) => Err(e),
            Ok(rest) => Ok(keys + rest),
        },
    }
}

/// One key as a list of keys.
pub open spec fn single(key: Result<KeyUseView, ErrorView>) -> Result<Seq<KeyUseView>, ErrorView> {
    match key {
        Err(e) => Err(e),
        Ok(k) => Ok(seq![k]),
    }
}

/// The keys of the entries of `tokens` from `from` on, in order; the
/// failure of the first entry that has one. Entries are separated by
/// commas and the last may be followed by one.
pub open spec fn list_keys(position: Position, tokens: Seq<TokenView>, from: int) -> Result<
    Seq<KeyUseView>,
    ErrorView,
>
    decreases tokens.len() - from,
{
    if from < 0 || from >= tokens.len() {
        Ok(Seq::empty())
    } else {
        let to = entry_end(tokens, from);
        if from <= to < tokens.len() {
            followed_by(
                single(entry_key(position, tokens, from, to)),
                list_keys(position, tokens, to + 1),
            )
        } else {
            single(entry_key(position, tokens, from, tokens.len() as int))
        }
    }
}

/// The keys of one attribute that has the position's name. An attribute
/// without arguments enables a variant for conversion and is malformed
/// everywhere else.
pub open spec fn attribute_keys(position: Position, arguments: ArgumentsView) -> Result<
    Seq<KeyUseView>,
    ErrorView,
> {
    match arguments {
        ArgumentsView::Absent => if position == Position::FromVariant {
            Ok(seq![KeyUseView { key: Key::Item(Setting::Enabled), value: Seq::empty() }])
        } else {
            Err(ErrorView::MalformedAttributeValue(Malformation::ExpectedArguments))
        },
        ArgumentsView::Value(_) => Err(
            ErrorView::MalformedAttributeValue(Malformation::ExpectedParentheses),
        ),
        ArgumentsView::List { delimiter, tokens } => list_keys(position, tokens, 0),
    }
}

/// The keys that `attributes[from..]` give at `position`, in order:
/// those of the first attribute with the position's name, followed where
/// the position reads all by those of the later ones.
pub open spec fn keys_from(position: Position, attributes: Seq<AttributeView>, from: int)
    -> Result<Seq<KeyUseView>, ErrorView>
    decreases attributes.len() - from,
{
    if from < 0 || from >= attributes.len() {
        Ok(Seq::empty())
    } else if attributes[from].path != attribute_name(position) {
        keys_from(position, attributes, from + 1)
    } else if reads_all(position) {
        followed_by(
            attribute_keys(position, attributes[from].arguments),
            keys_from(position, attributes, from + 1),
        )
    } else {
        attribute_keys(position, attributes[from].arguments)
    }
}

/// The keys that `attributes` give at `position`.
pub open spec fn keys_of(position: Position, attributes: Seq<AttributeView>) -> Result<
    Seq<KeyUseView>,
    ErrorView,
> {
    keys_from(position, attributes, 0)
}

impl Position {
    /// The name of the attribute that is read at this position.
    pub fn attribute_name(&self) -> (name: &'static str)
        ensures
            name@ == attribute_name(*self),
    {
        match self {
            Position::ConstructorItem | Position::ConstructorField => "Constructor",
            Position::FromItem | Position::FromVariant => "From",
            Position::MethodItem | Position::MethodField => "Method",
            Position::InnerField => "Inner",
            Position::RecordField => "Record",
        }
    }

    /// Whether every attribute of that name is read at this position.
    pub fn reads_all(&self) -> (b: bool)
        ensures
            b == reads_all(*self),
    {
        match self {
            Position::ConstructorItem | Position::FromItem | Position::MethodItem => false,
            _ => true,
        }
    }
}

fn recognize_on_method_item(key: &str) -> (r: Option<Key>)
    ensures
        r == method_item_key(key@),
{
    if same(key, "all") {
        Some(Key::Every(Setting::Enabled))
    } else if same(key, "accessors") {
        Some(Key::Accessor(Setting::Enabled))
    } else if same(key, "mutators") {
        Some(Key::Mutator(Setting::Enabled))
    } else if same(key, "setters") {
        Some(Key::Setter(Setting::Enabled))
    } else if same(key, "accessors_return_automatic") {
        Some(Key::Returns(ReturnShape::Automatic))
    } else if same(key, "accessors_return_reference") {
        Some(Key::Returns(ReturnShape::Reference))
    } else if same(key, "accessors_return_copy") {
        Some(Key::Returns(ReturnShape::Copy))
    } else {
        None
    }
}

fn recognize_on_method_field(key: &str) -> (r: Option<Key>)
    ensures
        r == method_field_key(key@),
{
    if same(key, "all") {
        Some(Key::Every(Setting::Enabled))
    } else if same(key, "skip_all") {
        Some(Key::Every(Setting::Skipped))
    } else if same(key, "accessor") {
        Some(Key::Accessor(Setting::Enabled))
    } else if same(key, "skip_accessor") {
        Some(Key::Accessor(Setting::Skipped))
    } else if same(key, "mutator") {
        Some(Key::Mutator(Setting::Enabled))
    } else if same(key, "skip_mutator") {
        Some(Key::Mutator(Setting::Skipped))
    } else if same(key, "setter") {
        Some(Key::Setter(Setting::Enabled))
    } else if same(key, "skip_setter") {
        Some(Key::Setter(Setting::Skipped))
    } else if same(key, "accessor_return_automatic") || same(key, "accessor_returns_automatic") {
        Some(Key::Returns(ReturnShape::Automatic))
    } else if same(key, "accessor_return_reference") || same(key, "accessor_returns_reference") {
        Some(Key::Returns(ReturnShape::Reference))
    } else if same(key, "accessor_return_copy") || same(key, "accessor_returns_copy") {
        Some(Key::Returns(ReturnShape::Copy))
    } else {
        None
    }
}

/// What the key written as `key` asks for at `position`.
pub fn recognize(position: Position, key: &str) -> (r: Option<Key>)
    ensures
        r == recognized(position, key@),
{
    match position {
        Position::ConstructorItem => if same(key, "visibility") {
            Some(Key::Visibility)
        } else {
            None
        },
        Position::ConstructorField => if same(key, "default") {
            Some(Key::Default)
        } else {
            None
        },
        Position::FromItem => if same(key, "all") {
            Some(Key::Convert(Category::All))
        } else if same(key, "named") {
            Some(Key::Convert(Category::Named))
        } else if same(key, "unnamed") {
            Some(Key::Convert(Category::Positional))
        } else if same(key, "unit") {
            Some(Key::Convert(Category::Unit))
        } else {
            None
        },
        Position::FromVariant => if same(key, "enable") {
            Some(Key::Item(Setting::Enabled))
        } else if same(key, "skip") {
            Some(Key::Item(Setting::Skipped))
        } else {
            None
        },
        Position::MethodItem => recognize_on_method_item(key),
        Position::MethodField => recognize_on_method_field(key),
        Position::InnerField | Position::RecordField => if same(key, "flatten") {
            Some(Key::Flatten)
        } else if same(key, "skip") {
            Some(Key::Item(Setting::Skipped))
        } else {
            None
        },
    }
}

fn is_punct(token: &Token, c: char) -> (b: bool)
    ensures
        b == (token@ matches TokenView::Punct { symbol, .. } && symbol == c),
{
    match token {
        Token::Punct { symbol, joint } => *symbol == c,
        _ => false,
    }
}

/// Reads the entry `tokens[from..to]`.
fn read_entry(position: Position, tokens: &Vec<Token>, from: usize, to: usize) -> (r: Result<
    KeyUse,
    Error,
>)
    requires
        from <= to <= tokens.len(),
    ensures
        match r {
            Ok(key) => entry_key(position, tokens.deep_view(), from as int, to as int) == Ok::<
                KeyUseView,
                ErrorView,
            >(key@),
            Err(e) => entry_key(position, tokens.deep_view(), from as int, to as int) == Err::<
                KeyUseView,
                ErrorView,
            >(e@),
        },
{
    if to <= from {
        return Err(Error::MalformedAttributeValue(Malformation::ExpectedIdentifier));
    }
    assert(tokens.deep_view()[from as int] == tokens[from as int]@);
    let name = match &tokens[from] {
        Token::Ident(name) => name,
        _ => {
            return Err(Error::MalformedAttributeValue(Malformation::ExpectedIdentifier));
        },
    };
    match recognize(position, name.as_str()) {
        None => Err(Error::UnknownAttributeKey),
        Some(Key::Visibility) => {
            if to <= from + 1 {
                return Err(Error::MalformedAttributeValue(Malformation::ExpectedEquals));
            }
            assert(tokens.deep_view()[from + 1] == tokens[from + 1]@);
            if !is_punct(&tokens[from + 1], '=') {
                return Err(Error::MalformedAttributeValue(Malformation::ExpectedEquals));
            }
            Ok(KeyUse { key: Key::Visibility, value: render(tokens, from + 2, to) })
        },
        Some(key) => {
            if to > from + 1 {
                Err(Error::MalformedAttributeValue(Malformation::ExpectedComma))
            } else {
                Ok(KeyUse { key, value: String::new() })
            }
        },
    }
}

/// Reads the entries of `tokens` and puts their keys at the end of `keys`.
fn read_list(position: Position, tokens: &Vec<Token>, keys: &mut Vec<KeyUse>) -> (r: Result<
    (),
    Error,
>)
    ensures
        match r {
            Ok(_) => list_keys(position, tokens.deep_view(), 0) == Ok::<
                Seq<KeyUseView>,
                ErrorView,
            >(final(keys).deep_view().skip(old(keys)@.len() as int))
                && final(keys).deep_view().take(old(keys)@.len() as int) == old(keys).deep_view()
                && old(keys)@.len() <= final(keys)@.len(),
            Err(e) => list_keys(position, tokens.deep_view(), 0) == Err::<
                Seq<KeyUseView>,
                ErrorView,
            >(e@),
        },
{
    let ghost views = tokens.deep_view();
    let ghost base = keys@.len() as int;
    let mut from: usize = 0;
    while from < tokens.len()
        invariant
            views == tokens.deep_view(),
            base == old(keys)@.len(),
            base <= keys@.len(),
            keys.deep_view().take(base) == old(keys).deep_view(),
            list_keys(position, views, 0) == followed_by(
                Ok(keys.deep_view().skip(base)),
                list_keys(position, views, from as int),
            ),
        decreases tokens.len() - from,
    {
        let mut to: usize = from;
        while to < tokens.len() && !is_punct(&tokens[to], ',')
            invariant
                views == tokens.deep_view(),
                from <= to <= tokens.len(),
                entry_end(views, from as int) == entry_end(views, to as int),
            decreases tokens.len() - to,
        {
            assert(views[to as int] == tokens[to as int]@);
            to += 1;
        }
        assert(entry_end(views, from as int) == to) by {
            if to < tokens.len() {
                assert(views[to as int] == tokens[to as int]@);
            }
        }
        let ghost before = keys.deep_view();
        match read_entry(position, tokens, from, to) {
            Err(e) => {
                return Err(e);
            },
            Ok(key) => {
                keys.push(key);
                proof {
                    let now = keys.deep_view();
                    assert(now =~= before.push(key@));
                    assert(now.take(base) =~= before.take(base));
                    assert(now.skip(base) =~= before.skip(base) + seq![key@]);
                    if to >= tokens.len() {
                        assert(from <= to);
                        assert(list_keys(position, views, to + 1) == Ok::<
                            Seq<KeyUseView>,
                            ErrorView,
                        >(Seq::empty()));
                        assert(before.skip(base) + seq![key@] + Seq::<KeyUseView>::empty()
                            =~= before.skip(base) + seq![key@]);
                    } else {
                        match list_keys(position, views, to + 1) {
                            Ok(rest) => {
                                assert(before.skip(base) + (seq![key@] + rest) =~= (before.skip(
                                    base,
                                ) + seq![key@]) + rest);
                            },
                            Err(_) => {},
                        }
                    }
                }
            },
        }
        if to >= tokens.len() {
            from = tokens.len();
        } else {
            from = to + 1;
        }
    }
    proof {
        assert(keys.deep_view().skip(base) + Seq::<KeyUseView>::empty() =~= keys.deep_view().skip(
            base,
        ));
    }
    Ok(())
}

/// Whether `e` is a failure of reading attributes: an unknown key or a
/// malformed value.
pub open spec fn attribute_failure(e: ErrorView) -> bool {
    e is UnknownAttributeKey || e is MalformedAttributeValue
}

/// Reading a list of entries fails only with an unknown key or a
/// malformed value.
pub proof fn lemma_list_failures(position: Position, tokens: Seq<TokenView>, from: int)
    ensures
        list_keys(position, tokens, from) is Err ==> attribute_failure(
            list_keys(position, tokens, from)->Err_0,
        ),
    decreases tokens.len() - from,
{
    if 0 <= from < tokens.len() {
        let to = entry_end(tokens, from);
        if from <= to < tokens.len() {
            lemma_list_failures(position, tokens, to + 1);
        }
    }
}

/// Reading attributes fails only with an unknown key or a malformed
/// value.
pub proof fn lemma_key_failures(position: Position, attributes: Seq<AttributeView>, from: int)
    ensures
        keys_from(position, attributes, from) is Err ==> attribute_failure(
            keys_from(position, attributes, from)->Err_0,
        ),
    decreases attributes.len() - from,
{
    if 0 <= from < attributes.len() {
        lemma_key_failures(position, attributes, from + 1);
        match attributes[from].arguments {
            ArgumentsView::List { delimiter, tokens } => {
                lemma_list_failures(position, tokens, 0);
            },
            _ => {},
        }
    }
}

/// Attributes none of which has the position's name give no key and no
/// failure.
pub proof fn lemma_no_attribute_no_key(
    position: Position,
    attributes: Seq<AttributeView>,
    from: int,
)
    requires
        0 <= from,
        forall|i: int|
            from <= i < attributes.len() ==> (#[trigger] attributes[i]).path != attribute_name(
                position,
            ),
    ensures
        keys_from(position, attributes, from) == Ok::<Seq<KeyUseView>, ErrorView>(Seq::empty()),
    decreases attributes.len() - from,
{
    if from < attributes.len() {
        lemma_no_attribute_no_key(position, attributes, from + 1);
    }
}

/// Reads the keys that `attributes` give at `position`.
pub fn read_keys(position: Position, attributes: &Vec<Attribute>) -> (r: Result<
    Vec<KeyUse>,
    Error,
>)
    ensures
        match r {
            Ok(keys) => keys_of(position, attributes.deep_view()) == Ok::<
                Seq<KeyUseView>,
                ErrorView,
            >(keys.deep_view()),
            Err(e) => keys_of(position, attributes.deep_view()) == Err::<
                Seq<KeyUseView>,
                ErrorView,
            >(e@),
        },
{
    let ghost views = attributes.deep_view();
    let mut keys: Vec<KeyUse> = Vec::new();
    let mut i: usize = 0;
    assert(Seq::<KeyUseView>::empty() + Seq::<KeyUseView>::empty() =~= Seq::<KeyUseView>::empty());
    assert(keys.deep_view() =~= Seq::<KeyUseView>::empty());
    assert(keys_of(position, views) == followed_by(
        Ok(keys.deep_view()),
        keys_from(position, views, 0),
    )) by {
        match keys_from(position, views, 0) {
            Ok(rest) => {
                assert(Seq::<KeyUseView>::empty() + rest =~= rest);
            },
            Err(_) => {},
        }
    }
    while i < attributes.len()
        invariant
            views == attributes.deep_view(),
            i <= attributes.len(),
            keys_of(position, views) == followed_by(
                Ok(keys.deep_view()),
                keys_from(position, views, i as int),
            ),
        decreases attributes.len() - i,
    {
        assert(views[i as int] == attributes[i as int]@);
        let attribute = &attributes[i];
        if same(attribute.path.as_str(), position.attribute_name()) {
            let ghost before = keys.deep_view();
            match &attribute.arguments {
                Arguments::Absent => {
                    match position {
                        Position::FromVariant => {
                            keys.push(KeyUse { key: Key::Item(Setting::Enabled), value: String::new() });
                            proof {
                                assert(keys.deep_view() =~= before + seq![
                                    KeyUseView {
                                        key: Key::Item(Setting::Enabled),
                                        value: Seq::empty(),
                                    },
                                ]);
                            }
                        },
                        _ => {
                            return Err(
                                Error::MalformedAttributeValue(Malformation::ExpectedArguments),
                            );
                        },
                    }
                },
                Arguments::Value(_) => {
                    return Err(Error::MalformedAttributeValue(Malformation::ExpectedParentheses));
                },
                Arguments::List { delimiter, tokens } => {
                    match read_list(position, tokens, &mut keys) {
                        Err(e) => {
                            return Err(e);
                        },
                        Ok(_) => {
                            proof {
                                let now = keys.deep_view();
                                let n = before.len() as int;
                                assert(now =~= now.take(n) + now.skip(n));
                            }
                        },
                    }
                },
            }
            proof {
                let own = attribute_keys(position, views[i as int].arguments)->Ok_0;
                assert(keys.deep_view() == before + own);
                match keys_from(position, views, i + 1) {
                    Ok(rest) => {
                        assert(before + (own + rest) =~= (before + own) + rest);
                    },
                    Err(_) => {},
                }
            }
            if !position.reads_all() {
                proof {
                    assert(keys.deep_view() + Seq::<KeyUseView>::empty() =~= keys.deep_view());
                }
                return Ok(keys);
            }
        }
        i += 1;
    }
    proof {
        assert(keys.deep_view() + Seq::<KeyUseView>::empty() =~= keys.deep_view());
    }
    Ok(keys)
}

} // verus!
