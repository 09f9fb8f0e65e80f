//! The display generator: an implementation of `Display` that renders a
//! struct, or each variant of an enum, by the strategy attached to it, or
//! as a field-by-field dump where none is attached.

use crate::declaration::{
    impl_header, write_impl_header, Arguments, ArgumentsView, Attribute, AttributeView,
    Declaration, DeclarationView, EnumDeclaration, EnumView, Generics, GenericsView, Shape,
    ShapeView, StructDeclaration, StructView,
};
use crate::diagnostic::{Error, ErrorView};
use crate::syntax::{
    parses_as_block, parses_as_call, parses_as_closure, parses_as_path, parses_as_string_literal,
};
use crate::text::{decimal, decimal_text};
use crate::token::{render, same, tokens_text};
use vstd::prelude::*;
use vstd::string::*;

verus! {

/// How an item is rendered; each holds the source text of the attribute's
/// argument.
#[derive(Debug)]
pub enum Strategy {
    /// A format string, in which the fields can be named.
    Message(String),
    /// A closure without arguments, whose result is rendered.
    Closure(String),
    /// A block, whose value is rendered.
    Block(String),
    /// A function call, whose result is rendered.
    Call(String),
    /// A function, which is called with the fields.
    Path(String),
}

/// The mathematical content of a [`Strategy`].
pub ghost enum StrategyView {
    Message(Seq<char>),
    Closure(Seq<char>),
    Block(Seq<char>),
    Call(Seq<char>),
    Path(Seq<char>),
}

impl View for Strategy {
    type V = StrategyView;

    open spec fn view(&self) -> StrategyView {
        match self {
            Strategy::Message(text) => StrategyView::Message(text@),
            Strategy::Closure(text) => StrategyView::Closure(text@),
            Strategy::Block(text) => StrategyView::Block(text@),
            Strategy::Call(text) => StrategyView::Call(text@),
            Strategy::Path(text) => StrategyView::Path(text@),
        }
    }
}

impl DeepView for Strategy {
    type V = StrategyView;

    open spec fn deep_view(&self) -> StrategyView {
        self@
    }
}

/// The strategies of an enum: the one on the enum itself, which stands
/// for every variant without its own, and those of the variants.
#[derive(Debug)]
pub struct EnumData {
    pub strategy: Option<Strategy>,
    pub variants: Vec<Option<Strategy>>,
}

/// The mathematical content of an [`EnumData`].
pub ghost struct EnumDataView {
    pub strategy: Option<StrategyView>,
    pub variants: Seq<Option<StrategyView>>,
}

impl View for EnumData {
    type V = EnumDataView;

    open spec fn view(&self) -> EnumDataView {
        EnumDataView { strategy: self.strategy.deep_view(), variants: self.variants.deep_view() }
    }
}

impl StrategyView {
    /// The source text of the attribute's argument.
    pub open spec fn text(self) -> Seq<char> {
        match self {
            StrategyView::Message(text) => text,
            StrategyView::Closure(text) => text,
            StrategyView::Block(text) => text,
            StrategyView::Call(text) => text,
            StrategyView::Path(text) => text,
        }
    }
}

/// The strategy that `text` is an argument of, given what the parser
/// answers when asked whether `text` is a string literal, a closure, a
/// block, a call, a path. The first form in this order that the parser
/// accepts decides; where it accepts none, there is no strategy.
pub open spec fn chosen(
    text: Seq<char>,
    literal: bool,
    closure: bool,
    block: bool,
    call: bool,
    path: bool,
) -> Option<StrategyView> {
    if literal {
        Some(StrategyView::Message(text))
    } else if closure {
        Some(StrategyView::Closure(text))
    } else if block {
        Some(StrategyView::Block(text))
    } else if call {
        Some(StrategyView::Call(text))
    } else if path {
        Some(StrategyView::Path(text))
    } else {
        None
    }
}

/// Whether reading the display attribute with `arguments` can end in
/// `outcome`. A strategy holds the source text of the argument list, so
/// an attribute without such a list attaches none; which of the five
/// forms it is, or that it is none, the parser decides.
pub open spec fn may_attach(arguments: ArgumentsView, outcome: Result<StrategyView, ErrorView>)
    -> bool {
    match outcome {
        Ok(strategy) => arguments matches ArgumentsView::List { tokens, .. } && strategy.text()
            == tokens_text(tokens, 0, tokens.len() as int),
        Err(e) => e == ErrorView::UnsupportedStrategy,
    }
}

/// Whether reading the strategy of an item with `attributes[from..]` can
/// end in `outcome`. The first display attribute decides; where there is
/// none, no strategy is attached and reading cannot fail.
pub open spec fn may_read_from(
    attributes: Seq<AttributeView>,
    from: int,
    outcome: Result<Option<StrategyView>, ErrorView>,
) -> bool
    decreases attributes.len() - from,
{
    if from < 0 || from >= attributes.len() {
        outcome == Ok::<Option<StrategyView>, ErrorView>(None)
    } else if attributes[from].path == "Display"@ {
        match outcome {
            Ok(Some(strategy)) => may_attach(attributes[from].arguments, Ok(strategy)),
            Ok(None) => false,
            Err(e) => may_attach(attributes[from].arguments, Err(e)),
        }
    } else {
        may_read_from(attributes, from + 1, outcome)
    }
}

/// Whether reading the strategy of an item with `attributes` can end in
/// `outcome`.
pub open spec fn may_read_strategy(
    attributes: Seq<AttributeView>,
    outcome: Result<Option<StrategyView>, ErrorView>,
) -> bool {
    may_read_from(attributes, 0, outcome)
}

/// Whether reading the strategies of `item` can end in `outcome`: with
/// a strategy for the enum and one for every variant, each as its
/// attributes allow, or with the failure of one of them.
pub open spec fn may_read(item: EnumView, outcome: Result<EnumDataView, ErrorView>) -> bool {
    match outcome {
        Ok(data) => {
            &&& may_read_strategy(item.attributes, Ok(data.strategy))
            &&& data.variants.len() == item.variants.len()
            &&& forall|i: int|
                0 <= i < item.variants.len() ==> may_read_strategy(
                    item.variants[i].attributes,
                    Ok(#[trigger] data.variants[i]),
                )
        },
        Err(e) => may_read_strategy(item.attributes, Err(e)) || exists|i: int|
            0 <= i < item.variants.len() && may_read_strategy(
                (#[trigger] item.variants[i]).attributes,
                Err(e),
            ),
    }
}

/// The strategy by which an item is rendered: its own, else the
/// container's.
pub open spec fn effective(container: Option<StrategyView>, item: Option<StrategyView>) -> Option<
    StrategyView,
> {
    match item {
        Some(_) => item,
        None => container,
    }
}

/// The name to which field `i` is bound in the pattern: its own name; for
/// positional fields `value` where there is one field, `value` and the
/// position where there are more.
pub open spec fn binding(shape: ShapeView, i: int) -> Seq<char> {
    match shape {
        ShapeView::Named(fields) => fields[i].name,
        _ => if shape.fields().len() == 1 {
            "value"@
        } else {
            "value"@ + decimal(i as nat)
        },
    }
}

/// The bindings of the first `n` fields, each with a comma after it.
pub open spec fn bindings(shape: ShapeView, n: int) -> Seq<char>
    decreases n,
{
    if n <= 0 || n > shape.fields().len() {
        Seq::empty()
    } else {
        bindings(shape, n - 1) + binding(shape, n - 1) + ", "@
    }
}

/// The pattern that matches `target` and binds its fields.
pub open spec fn pattern(target: Seq<char>, shape: ShapeView) -> Seq<char> {
    target + (match shape {
        ShapeView::Named(_) => " { "@ + bindings(shape, shape.fields().len() as int) + "}"@,
        ShapeView::Positional(_) => "("@ + bindings(shape, shape.fields().len() as int) + ")"@,
        ShapeView::Unit => Seq::empty(),
    })
}

/// The expression that writes the value of `expression`.
pub open spec fn formatted(expression: Seq<char>) -> Seq<char> {
    "write!(formatter, \"{}\", "@ + expression + ")"@
}

/// The expression that renders an item by `strategy`. A message is the
/// format string itself; a closure is called; a block or a call is taken
/// as it is; a path is called with the bound fields in declaration order.
pub open spec fn strategy_expression(strategy: StrategyView, shape: ShapeView) -> Seq<char> {
    match strategy {
        StrategyView::Message(text) => "write!(formatter, "@ + text + ")"@,
        StrategyView::Closure(text) => formatted("("@ + text + ")()"@),
        StrategyView::Block(text) => formatted(text),
        StrategyView::Call(text) => formatted(text),
        StrategyView::Path(text) => formatted(
            text + "("@ + bindings(shape, shape.fields().len() as int) + ")"@,
        ),
    }
}

/// The call that adds field `i` to the dump: with its name as label for a
/// named field, without label for a positional one.
pub open spec fn dump_field(shape: ShapeView, i: int) -> Seq<char> {
    match shape {
        ShapeView::Named(fields) => ".field(stringify!("@ + fields[i].name + "), &"@
            + fields[i].name + ")"@,
        _ => ".field("@ + binding(shape, i) + ")"@,
    }
}

/// The calls that add the first `n` fields to the dump, in declaration
/// order.
pub open spec fn dump_fields(shape: ShapeView, n: int) -> Seq<char>
    decreases n,
{
    if n <= 0 || n > shape.fields().len() {
        Seq::empty()
    } else {
        dump_fields(shape, n - 1) + dump_field(shape, n - 1)
    }
}

/// The formatter's builder for a dump of `shape`.
pub open spec fn dump_builder(shape: ShapeView) -> Seq<char> {
    match shape {
        ShapeView::Positional(_) => "formatter.debug_tuple(stringify!("@,
        _ => "formatter.debug_struct(stringify!("@,
    }
}

/// The expression that renders an item without strategy: the dump that
/// the structural debug rendering gives, labelled `name`, every field in
/// declaration order.
pub open spec fn dump_expression(name: Seq<char>, shape: ShapeView) -> Seq<char> {
    dump_builder(shape) + name + "))"@ + dump_fields(shape, shape.fields().len() as int)
        + ".finish()"@
}

/// The expression that renders an item.
pub open spec fn expression(name: Seq<char>, shape: ShapeView, strategy: Option<StrategyView>)
    -> Seq<char> {
    match strategy {
        Some(strategy) => strategy_expression(strategy, shape),
        None => dump_expression(name, shape),
    }
}

/// One arm of the match: the pattern for `target` and the rendering.
pub open spec fn arm(
    target: Seq<char>,
    name: Seq<char>,
    shape: ShapeView,
    strategy: Option<StrategyView>,
) -> Seq<char> {
    pattern(target, shape) + " => "@ + expression(name, shape, strategy)
}

/// The body of `fmt` for a struct: the rendering itself for a unit struct,
/// a match that binds the fields otherwise.
pub open spec fn struct_body(item: StructView, strategy: Option<StrategyView>) -> Seq<char> {
    match item.shape {
        ShapeView::Unit => expression(item.name, item.shape, strategy),
        _ => "match self { "@ + arm("Self"@, item.name, item.shape, strategy) + " }"@,
    }
}

/// The arm for variant `i`, with the comma after it.
pub open spec fn variant_arm(item: EnumView, data: EnumDataView, i: int) -> Seq<char> {
    arm(
        "Self::"@ + item.variants[i].name,
        item.variants[i].name,
        item.variants[i].shape,
        effective(data.strategy, data.variants[i]),
    ) + ", "@
}

/// The arms for the first `n` variants, in declaration order.
pub open spec fn variant_arms(item: EnumView, data: EnumDataView, n: int) -> Seq<char>
    decreases n,
{
    if n <= 0 || n > item.variants.len() {
        Seq::empty()
    } else {
        variant_arms(item, data, n - 1) + variant_arm(item, data, n - 1)
    }
}

/// The body of `fmt` for an enum: a match with one arm for every variant.
pub open spec fn enum_body(item: EnumView, data: EnumDataView) -> Seq<char> {
    "match self { "@ + variant_arms(item, data, item.variants.len() as int) + "}"@
}

/// The trait that the generated block implements, with `for` after it.
pub open spec fn subject() -> Seq<char> {
    "::core::fmt::Display for "@
}

/// The signature of `fmt`, up to the opening brace.
pub open spec fn signature() -> Seq<char> {
    "fn fmt(&self, formatter: &mut ::core::fmt::Formatter) -> ::core::fmt::Result { "@
}

/// The implementation block around `body`.
pub open spec fn display_text(generics: GenericsView, name: Seq<char>, body: Seq<char>) -> Seq<
    char,
> {
    impl_header(generics, subject(), name) + signature() + body + " } }"@
}

/// Whether `text` is the implementation block for a struct that is
/// rendered by `strategy`, and the attributes allow that strategy.
pub open spec fn struct_text(item: StructView, strategy: Option<StrategyView>, text: Seq<char>)
    -> bool {
    may_read_strategy(item.attributes, Ok(strategy)) && text == display_text(
        item.generics,
        item.name,
        struct_body(item, strategy),
    )
}

/// Whether `text` is the implementation block for an enum that is
/// rendered by the strategies `data`, and the attributes allow them.
pub open spec fn enum_text(item: EnumView, data: EnumDataView, text: Seq<char>) -> bool {
    may_read(item, Ok(data)) && text == display_text(
        item.generics,
        item.name,
        enum_body(item, data),
    )
}

/// Whether the generator can give `outcome` for `declaration`: the
/// implementation block for some strategies that the attributes allow, or
/// the failure of reading them; for an item that is neither struct nor
/// enum, nothing but its refusal.
pub open spec fn may_expand(declaration: DeclarationView, outcome: Result<Seq<char>, ErrorView>)
    -> bool {
    match declaration {
        DeclarationView::Struct(item) => match outcome {
            Ok(text) => exists|strategy: Option<StrategyView>| #[trigger]
                struct_text(item, strategy, text),
            Err(e) => may_read_strategy(item.attributes, Err(e)),
        },
        DeclarationView::Enum(item) => match outcome {
            Ok(text) => exists|data: EnumDataView| #[trigger] enum_text(item, data, text),
            Err(e) => may_read(item, Err(e)),
        },
        DeclarationView::Other => outcome == Err::<Seq<char>, ErrorView>(
            ErrorView::UnsupportedItem,
        ),
    }
}

/// The strategy that `text` is an argument of, given the parser's five
/// answers.
pub fn strategy_for(
    text: String,
    literal: bool,
    closure: bool,
    block: bool,
    call: bool,
    path: bool,
) -> (r: Option<Strategy>)
    ensures
        r.deep_view() == chosen(text@, literal, closure, block, call, path),
{
    if literal {
        Some(Strategy::Message(text))
    } else if closure {
        Some(Strategy::Closure(text))
    } else if block {
        Some(Strategy::Block(text))
    } else if call {
        Some(Strategy::Call(text))
    } else if path {
        Some(Strategy::Path(text))
    } else {
        None
    }
}

/// Asks the parser which strategy `text` is an argument of. The forms are
/// asked for in their order, and none after the first that the parser
/// accepts.
pub fn classify(text: String) -> (r: Option<Strategy>)
    ensures
        r.deep_view() matches Some(strategy) ==> strategy.text() == text@,
{
    let literal = parses_as_string_literal(text.as_str());
    let closure = !literal && parses_as_closure(text.as_str());
    let block = !literal && !closure && parses_as_block(text.as_str());
    let call = !literal && !closure && !block && parses_as_call(text.as_str());
    let path = !literal && !closure && !block && !call && parses_as_path(text.as_str());
    strategy_for(text, literal, closure, block, call, path)
}

/// Reads the strategy that a display attribute attaches.
pub fn read_strategy_from_attribute(attribute: &Attribute) -> (r: Result<Strategy, Error>)
    ensures
        match r {
            Ok(strategy) => may_attach(attribute@.arguments, Ok(strategy@)),
            Err(e) => may_attach(attribute@.arguments, Err(e@)),
        },
{
    match &attribute.arguments {
        Arguments::List { delimiter, tokens } => {
            match classify(render(tokens, 0, tokens.len())) {
                Some(strategy) => Ok(strategy),
                None => Err(Error::UnsupportedStrategy),
            }
        },
        _ => Err(Error::UnsupportedStrategy),
    }
}

/// Reading from the start is reading from the first attribute that is a
/// display attribute.
pub proof fn lemma_read_skips(
    attributes: Seq<AttributeView>,
    from: int,
    outcome: Result<Option<StrategyView>, ErrorView>,
)
    requires
        0 <= from <= attributes.len(),
        forall|k: int| 0 <= k < from ==> (#[trigger] attributes[k]).path != "Display"@,
    ensures
        may_read_strategy(attributes, outcome) == may_read_from(attributes, from, outcome),
    decreases from,
{
    if from > 0 {
        lemma_read_skips(attributes, from - 1, outcome);
    }
}

/// Reads the strategy attached to an item with `attributes`.
pub fn read_strategy_from_attributes(attributes: &Vec<Attribute>) -> (r: Result<
    Option<Strategy>,
    Error,
>)
    ensures
        match r {
            Ok(strategy) => may_read_strategy(attributes.deep_view(), Ok(strategy.deep_view())),
            Err(e) => may_read_strategy(attributes.deep_view(), Err(e@)),
        },
{
    let ghost views = attributes.deep_view();
    let mut i: usize = 0;
    while i < attributes.len()
        invariant
            views == attributes.deep_view(),
            i <= attributes.len(),
            forall|k: int| 0 <= k < i ==> (#[trigger] views[k]).path != "Display"@,
        decreases attributes.len() - i,
    {
        assert(views[i as int] == attributes[i as int]@);
        if same(attributes[i].path.as_str(), "Display") {
            return match read_strategy_from_attribute(&attributes[i]) {
                Ok(strategy) => {
                    proof {
                        lemma_read_skips(
                            views,
                            i as int,
                            Ok::<Option<StrategyView>, ErrorView>(Some(strategy@)),
                        );
                    }
                    Ok(Some(strategy))
                },
                Err(e) => {
                    proof {
                        lemma_read_skips(
                            views,
                            i as int,
                            Err::<Option<StrategyView>, ErrorView>(e@),
                        );
                    }
                    Err(e)
                },
            };
        }
        i += 1;
    }
    proof {
        lemma_read_skips(views, i as int, Ok::<Option<StrategyView>, ErrorView>(None));
    }
    Ok(None)
}

fn write_binding(shape: &Shape, i: usize, out: &mut String)
    requires
        i < shape@.fields().len(),
    ensures
        final(out)@ == old(out)@ + binding(shape@, i as int),
{
    match shape {
        Shape::Named(fields) => {
            out.append(fields[i].name.as_str());
        },
        _ => {
            if shape.len() == 1 {
                out.append("value");
            } else {
                out.append("value");
                out.append(decimal_text(i).as_str());
                assert(out@ =~= old(out)@ + binding(shape@, i as int));
            }
        },
    }
}

fn write_bindings(shape: &Shape, out: &mut String)
    ensures
        final(out)@ == old(out)@ + bindings(shape@, shape@.fields().len() as int),
{
    let n = shape.len();
    let mut i: usize = 0;
    assert(out@ =~= old(out)@ + bindings(shape@, 0));
    while i < n
        invariant
            n == shape@.fields().len(),
            i <= n,
            out@ == old(out)@ + bindings(shape@, i as int),
        decreases n - i,
    {
        write_binding(shape, i, out);
        out.append(", ");
        i += 1;
        assert(out@ =~= old(out)@ + bindings(shape@, i as int));
    }
}

fn write_pattern(target: &str, shape: &Shape, out: &mut String)
    ensures
        final(out)@ == old(out)@ + pattern(target@, shape@),
{
    out.append(target);
    let ghost before = out@;
    match shape {
        Shape::Named(_) => {
            out.append(" { ");
            write_bindings(shape, out);
            out.append("}");
            assert(out@ =~= before + (" { "@ + bindings(shape@, shape@.fields().len() as int)
                + "}"@));
        },
        Shape::Positional(_) => {
            out.append("(");
            write_bindings(shape, out);
            out.append(")");
            assert(out@ =~= before + ("("@ + bindings(shape@, shape@.fields().len() as int)
                + ")"@));
        },
        Shape::Unit => {
            assert(out@ =~= before + Seq::<char>::empty());
        },
    }
    assert(out@ =~= old(out)@ + pattern(target@, shape@));
}

fn write_formatted(expression: &str, out: &mut String)
    ensures
        final(out)@ == old(out)@ + formatted(expression@),
{
    out.append("write!(formatter, \"{}\", ");
    out.append(expression);
    out.append(")");
    assert(out@ =~= old(out)@ + formatted(expression@));
}

fn write_strategy_expression(strategy: &Strategy, shape: &Shape, out: &mut String)
    ensures
        final(out)@ == old(out)@ + strategy_expression(strategy@, shape@),
{
    match strategy {
        Strategy::Message(text) => {
            out.append("write!(formatter, ");
            out.append(text.as_str());
            out.append(")");
            assert(out@ =~= old(out)@ + strategy_expression(strategy@, shape@));
        },
        Strategy::Closure(text) => {
            let mut called = String::from_str("(");
            called.append(text.as_str());
            called.append(")()");
            write_formatted(called.as_str(), out);
        },
        Strategy::Block(text) => write_formatted(text.as_str(), out),
        Strategy::Call(text) => write_formatted(text.as_str(), out),
        Strategy::Path(text) => {
            let mut called = String::from_str(text.as_str());
            called.append("(");
            write_bindings(shape, &mut called);
            called.append(")");
            write_formatted(called.as_str(), out);
        },
    }
}

fn write_dump_field(shape: &Shape, i: usize, out: &mut String)
    requires
        i < shape@.fields().len(),
    ensures
        final(out)@ == old(out)@ + dump_field(shape@, i as int),
{
    match shape {
        Shape::Named(fields) => {
            out.append(".field(stringify!(");
            out.append(fields[i].name.as_str());
            out.append("), &");
            out.append(fields[i].name.as_str());
            out.append(")");
        },
        _ => {
            out.append(".field(");
            write_binding(shape, i, out);
            out.append(")");
        },
    }
    assert(out@ =~= old(out)@ + dump_field(shape@, i as int));
}

fn write_dump_fields(shape: &Shape, out: &mut String)
    ensures
        final(out)@ == old(out)@ + dump_fields(shape@, shape@.fields().len() as int),
{
    let n = shape.len();
    let mut i: usize = 0;
    assert(out@ =~= old(out)@ + dump_fields(shape@, 0));
    while i < n
        invariant
            n == shape@.fields().len(),
            i <= n,
            out@ == old(out)@ + dump_fields(shape@, i as int),
        decreases n - i,
    {
        write_dump_field(shape, i, out);
        i += 1;
        assert(out@ =~= old(out)@ + dump_fields(shape@, i as int));
    }
}

fn write_dump_expression(name: &str, shape: &Shape, out: &mut String)
    ensures
        final(out)@ == old(out)@ + dump_expression(name@, shape@),
{
    match shape {
        Shape::Positional(_) => out.append("formatter.debug_tuple(stringify!("),
        _ => out.append("formatter.debug_struct(stringify!("),
    }
    out.append(name);
    out.append("))");
    write_dump_fields(shape, out);
    out.append(".finish()");
    assert(out@ =~= old(out)@ + dump_expression(name@, shape@));
}

fn write_expression(name: &str, shape: &Shape, strategy: &Option<Strategy>, out: &mut String)
    ensures
        final(out)@ == old(out)@ + expression(name@, shape@, strategy.deep_view()),
{
    match strategy {
        Some(strategy) => write_strategy_expression(strategy, shape, out),
        None => write_dump_expression(name, shape, out),
    }
}

fn write_arm(
    target: &str,
    name: &str,
    shape: &Shape,
    strategy: &Option<Strategy>,
    out: &mut String,
)
    ensures
        final(out)@ == old(out)@ + arm(target@, name@, shape@, strategy.deep_view()),
{
    write_pattern(target, shape, out);
    out.append(" => ");
    write_expression(name, shape, strategy, out);
    assert(out@ =~= old(out)@ + arm(target@, name@, shape@, strategy.deep_view()));
}

fn write_struct_body(item: &StructDeclaration, strategy: &Option<Strategy>, out: &mut String)
    ensures
        final(out)@ == old(out)@ + struct_body(item@, strategy.deep_view()),
{
    match &item.shape {
        Shape::Unit => write_expression(item.name.as_str(), &item.shape, strategy, out),
        _ => {
            out.append("match self { ");
            write_arm("Self", item.name.as_str(), &item.shape, strategy, out);
            out.append(" }");
            assert(out@ =~= old(out)@ + struct_body(item@, strategy.deep_view()));
        },
    }
}

/// Appends the implementation block around `body` to `out`.
pub fn write_display_impl(generics: &Generics, name: &str, body: &str, out: &mut String)
    ensures
        final(out)@ == old(out)@ + display_text(generics@, name@, body@),
{
    write_impl_header(out, generics, "::core::fmt::Display for ", name);
    out.append("fn fmt(&self, formatter: &mut ::core::fmt::Formatter) -> ::core::fmt::Result { ");
    out.append(body);
    out.append(" } }");
    assert(out@ =~= old(out)@ + display_text(generics@, name@, body@));
}

impl EnumData {
    /// Reads the strategies of `item`: that of the enum first, then those
    /// of the variants in order.
    pub fn read(item: &EnumDeclaration) -> (r: Result<EnumData, Error>)
        ensures
            match r {
                Ok(data) => may_read(item@, Ok(data@)),
                Err(e) => may_read(item@, Err(e@)),
            },
    {
        let strategy = match read_strategy_from_attributes(&item.attributes) {
            Ok(strategy) => strategy,
            Err(e) => {
                return Err(e);
            },
        };
        let ghost n = item@.variants.len();
        let mut variants: Vec<Option<Strategy>> = Vec::new();
        let mut i: usize = 0;
        while i < item.variants.len()
            invariant
                n == item@.variants.len() == item.variants.len(),
                i <= n,
                variants.len() == i,
                forall|j: int|
                    0 <= j < i ==> may_read_strategy(
                        item@.variants[j].attributes,
                        Ok(#[trigger] variants.deep_view()[j]),
                    ),
            decreases n - i,
        {
            assert(item@.variants[i as int] == item.variants[i as int]@);
            let ghost before = variants.deep_view();
            match read_strategy_from_attributes(&item.variants[i].attributes) {
                Ok(own) => {
                    variants.push(own);
                    assert(variants.deep_view() =~= before.push(own.deep_view()));
                },
                Err(e) => {
                    assert(may_read_strategy(item@.variants[i as int].attributes, Err(e@)));
                    return Err(e);
                },
            }
            i += 1;
        }
        Ok(EnumData { strategy, variants })
    }

    /// Appends the arm for variant `i`, with the comma after it.
    pub fn write_variant(&self, item: &EnumDeclaration, i: usize, out: &mut String)
        requires
            i < item@.variants.len(),
            self@.variants.len() == item@.variants.len(),
        ensures
            final(out)@ == old(out)@ + variant_arm(item@, self@, i as int),
    {
        assert(item@.variants[i as int] == item.variants[i as int]@);
        assert(self@.variants[i as int] == self.variants[i as int].deep_view());
        let variant = &item.variants[i];
        let mut target = String::from_str("Self::");
        target.append(variant.name.as_str());
        let strategy = match &self.variants[i] {
            Some(_) => &self.variants[i],
            None => &self.strategy,
        };
        write_arm(target.as_str(), variant.name.as_str(), &variant.shape, strategy, out);
        out.append(", ");
        assert(out@ =~= old(out)@ + variant_arm(item@, self@, i as int));
    }

    /// Writes the implementation block for `item`.
    pub fn write(&self, item: &EnumDeclaration) -> (s: String)
        requires
            self@.variants.len() == item@.variants.len(),
        ensures
            s@ == display_text(item@.generics, item@.name, enum_body(item@, self@)),
    {
        let mut body = String::from_str("match self { ");
        let n = item.variants.len();
        let mut i: usize = 0;
        assert(body@ =~= "match self { "@ + variant_arms(item@, self@, 0));
        while i < n
            invariant
                n == item@.variants.len() == self@.variants.len(),
                i <= n,
                body@ == "match self { "@ + variant_arms(item@, self@, i as int),
            decreases n - i,
        {
            self.write_variant(item, i, &mut body);
            i += 1;
            assert(body@ =~= "match self { "@ + variant_arms(item@, self@, i as int));
        }
        body.append("}");
        let mut s = String::new();
        write_display_impl(&item.generics, item.name.as_str(), body.as_str(), &mut s);
        assert(s@ =~= display_text(item@.generics, item@.name, enum_body(item@, self@)));
        s
    }
}

/// The strategy of a struct.
#[derive(Debug)]
pub struct StructData {
    pub strategy: Option<Strategy>,
}

impl StructData {
    /// Reads the strategy of `item`.
    pub fn read(item: &StructDeclaration) -> (r: Result<StructData, Error>)
        ensures
            match r {
                Ok(data) => may_read_strategy(item@.attributes, Ok(data.strategy.deep_view())),
                Err(e) => may_read_strategy(item@.attributes, Err(e@)),
            },
    {
        match read_strategy_from_attributes(&item.attributes) {
            Ok(strategy) => Ok(StructData { strategy }),
            Err(e) => Err(e),
        }
    }

    /// Writes the implementation block for `item`.
    pub fn write(&self, item: &StructDeclaration) -> (s: String)
        ensures
            s@ == display_text(
                item@.generics,
                item@.name,
                struct_body(item@, self.strategy.deep_view()),
            ),
    {
        let mut body = String::new();
        write_struct_body(item, &self.strategy, &mut body);
        assert(body@ =~= struct_body(item@, self.strategy.deep_view()));
        let mut s = String::new();
        write_display_impl(&item.generics, item.name.as_str(), body.as_str(), &mut s);
        assert(s@ =~= display_text(
            item@.generics,
            item@.name,
            struct_body(item@, self.strategy.deep_view()),
        ));
        s
    }
}

/// Reading a strategy fails only with an unsupported strategy, and only
/// where a display attribute stands.
pub proof fn lemma_strategy_failures(attributes: Seq<AttributeView>, from: int, e: ErrorView)
    requires
        0 <= from,
        may_read_from(attributes, from, Err(e)),
    ensures
        e == ErrorView::UnsupportedStrategy,
        exists|k: int| from <= k < attributes.len() && (#[trigger] attributes[k]).path == "Display"@,
    decreases attributes.len() - from,
{
    if attributes[from].path != "Display"@ {
        lemma_strategy_failures(attributes, from + 1, e);
    }
}

/// Reading the strategies of an enum fails only with an unsupported
/// strategy.
pub proof fn lemma_read_failures(item: EnumView, e: ErrorView)
    requires
        may_read(item, Err(e)),
    ensures
        e == ErrorView::UnsupportedStrategy,
{
    if may_read_strategy(item.attributes, Err(e)) {
        lemma_strategy_failures(item.attributes, 0, e);
    } else {
        let i = choose|i: int|
            0 <= i < item.variants.len() && may_read_strategy(
                (#[trigger] item.variants[i]).attributes,
                Err(e),
            );
        lemma_strategy_failures(item.variants[i].attributes, 0, e);
    }
}

/// Attributes among which none is a display attribute attach no
/// strategy, whatever the parser would answer: reading them cannot fail.
pub proof fn lemma_no_attribute_no_strategy(
    attributes: Seq<AttributeView>,
    from: int,
    outcome: Result<Option<StrategyView>, ErrorView>,
)
    requires
        0 <= from,
        forall|i: int| from <= i < attributes.len() ==> (#[trigger] attributes[i]).path != "Display"@,
    ensures
        may_read_from(attributes, from, outcome) <==> outcome == Ok::<
            Option<StrategyView>,
            ErrorView,
        >(None),
    decreases attributes.len() - from,
{
    if from < attributes.len() {
        lemma_no_attribute_no_strategy(attributes, from + 1, outcome);
    }
}

/// A struct without display attribute is rendered as the dump labelled
/// with its name: the generator can give nothing but the block whose body
/// is the one for no strategy, and its expression is the dump of every
/// field in declaration order.
pub proof fn lemma_struct_without_strategy_is_dumped(
    item: StructView,
    outcome: Result<Seq<char>, ErrorView>,
)
    requires
        forall|i: int| 0 <= i < item.attributes.len() ==> (#[trigger] item.attributes[i]).path != "Display"@,
    ensures
        may_expand(DeclarationView::Struct(item), outcome) <==> outcome == Ok::<
            Seq<char>,
            ErrorView,
        >(display_text(item.generics, item.name, struct_body(item, None))),
        expression(item.name, item.shape, None) == dump_expression(item.name, item.shape),
{
    let dumped = display_text(item.generics, item.name, struct_body(item, None));
    lemma_no_attribute_no_strategy(
        item.attributes,
        0,
        Ok::<Option<StrategyView>, ErrorView>(None),
    );
    match outcome {
        Ok(text) => {
            if may_expand(DeclarationView::Struct(item), outcome) {
                let strategy = choose|strategy: Option<StrategyView>| #[trigger]
                    struct_text(item, strategy, text);
                lemma_no_attribute_no_strategy(item.attributes, 0, Ok(strategy));
            }
            if text == dumped {
                assert(struct_text(item, None, text));
            }
        },
        Err(e) => {
            lemma_no_attribute_no_strategy(
                item.attributes,
                0,
                Err::<Option<StrategyView>, ErrorView>(e),
            );
        },
    }
}

/// In an enum without display attribute, a variant without display
/// attribute is rendered as the dump labelled with the variant's name,
/// whatever is read for the other variants.
pub proof fn lemma_variant_without_strategy_is_dumped(item: EnumView, data: EnumDataView, i: int)
    requires
        may_read(item, Ok(data)),
        0 <= i < item.variants.len(),
        forall|k: int| 0 <= k < item.attributes.len() ==> (#[trigger] item.attributes[k]).path != "Display"@,
        forall|k: int|
            0 <= k < item.variants[i].attributes.len() ==> (
            #[trigger] item.variants[i].attributes[k]).path != "Display"@,
    ensures
        variant_arm(item, data, i) == pattern(
            "Self::"@ + item.variants[i].name,
            item.variants[i].shape,
        ) + " => "@ + dump_expression(item.variants[i].name, item.variants[i].shape) + ", "@,
{
    lemma_no_attribute_no_strategy(item.attributes, 0, Ok(data.strategy));
    assert(may_read_strategy(item.variants[i].attributes, Ok(data.variants[i])));
    lemma_no_attribute_no_strategy(item.variants[i].attributes, 0, Ok(data.variants[i]));
}

/// The five forms exclude each other in the strategy that is chosen: one
/// strategy at most, that of the first form the parser accepts, and none
/// exactly where it accepts no form.
pub proof fn lemma_one_strategy(
    text: Seq<char>,
    literal: bool,
    closure: bool,
    block: bool,
    call: bool,
    path: bool,
)
    ensures
        chosen(text, literal, closure, block, call, path) is None <==> !(literal || closure
            || block || call || path),
        chosen(text, literal, closure, block, call, path) matches Some(strategy)
            ==> strategy.text() == text,
        literal ==> chosen(text, literal, closure, block, call, path) == Some(
            StrategyView::Message(text),
        ),
        !literal && closure ==> chosen(text, literal, closure, block, call, path) == Some(
            StrategyView::Closure(text),
        ),
{
}

/// The calls of a dump stand in declaration order: the call for field `i`
/// follows those for the fields before it.
pub proof fn lemma_dump_keeps_order(shape: ShapeView, i: int)
    requires
        0 <= i < shape.fields().len(),
    ensures
        dump_fields(shape, i + 1) == dump_fields(shape, i) + dump_field(shape, i),
{
}

/// The generator's text is fixed by the declaration and the strategies
/// read: two runs in which the parser finds the same forms give the same
/// text.
pub proof fn lemma_same_strategies_same_text(
    item: StructView,
    strategy: Option<StrategyView>,
    variants: EnumView,
    data: EnumDataView,
    first: Seq<char>,
    second: Seq<char>,
)
    ensures
        struct_text(item, strategy, first) && struct_text(item, strategy, second) ==> first
            == second,
        enum_text(variants, data, first) && enum_text(variants, data, second) ==> first
            == second,
{
}

/// The block written for strategies that the attributes allow is one that
/// the generator can give.
pub proof fn lemma_struct_outcome(
    item: StructView,
    strategy: Option<StrategyView>,
    text: Seq<char>,
)
    requires
        struct_text(item, strategy, text),
    ensures
        may_expand(DeclarationView::Struct(item), Ok(text)),
{
    let outcome = Ok::<Seq<char>, ErrorView>(text);
    assert(struct_text(item, strategy, outcome->Ok_0));
}

/// The block written for strategies that the attributes allow is one that
/// the generator can give.
pub proof fn lemma_enum_outcome(item: EnumView, data: EnumDataView, text: Seq<char>)
    requires
        enum_text(item, data, text),
    ensures
        may_expand(DeclarationView::Enum(item), Ok(text)),
{
    let declaration = DeclarationView::Enum(item);
    let outcome = Ok::<Seq<char>, ErrorView>(text);
    assert(enum_text(declaration->Enum_0, data, outcome->Ok_0));
}

/// The display generator.
pub struct Macro;

impl Macro {
    /// Generates the display implementation of `declaration`.
    pub fn handle(declaration: &Declaration) -> (r: Result<String, Error>)
        ensures
            match r {
                Ok(s) => may_expand(declaration@, Ok(s@)),
                Err(e) => may_expand(declaration@, Err(e@)),
            },
    {
        match declaration {
            Declaration::Struct(item) => match StructData::read(item) {
                Ok(data) => {
                    let s = data.write(item);
                    proof {
                        lemma_struct_outcome(item@, data.strategy.deep_view(), s@);
                    }
                    Ok(s)
                },
                Err(e) => Err(e),
            },
            Declaration::Enum(item) => match EnumData::read(item) {
                Ok(data) => {
                    let s = data.write(item);
                    proof {
                        lemma_enum_outcome(item@, data@, s@);
                    }
                    Ok(s)
                },
                Err(e) => Err(e),
            },
            Declaration::Other => Err(Error::UnsupportedItem),
        }
    }
}

} // verus!
