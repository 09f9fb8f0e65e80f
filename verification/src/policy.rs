//! Policy resolution: how a container-wide default and an item's own
//! override decide whether a feature is generated, and which items are
//! left after the decision.

use crate::diagnostic::ErrorView;
use vstd::prelude::*;

verus! {

/// The state of one feature at one level of the policy.
#[derive(Clone, Copy, Debug, PartialEq, Eq, Structural)]
pub enum Setting {
    /// Nothing said at this level: the level below decides.
    Inherited,
    Enabled,
    Skipped,
}

/// The setting that results when `upper` is laid over `lower`: what `upper`
/// says, or, where it says nothing, what `lower` says.
pub open spec fn resolve(lower: Setting, upper: Setting) -> Setting {
    match upper {
        Setting::Inherited => lower,
        _ => upper,
    }
}

/// The setting of a container-wide switch.
pub open spec fn switch(on: bool) -> Setting {
    if on {
        Setting::Enabled
    } else {
        Setting::Inherited
    }
}

/// Whether a feature is generated for an item: the built-in default is off,
/// the container's setting lies over it and the item's own setting over
/// both.
pub open spec fn enabled(container: Setting, item: Setting) -> bool {
    resolve(resolve(Setting::Inherited, container), item) == Setting::Enabled
}

/// Whether a feature is generated for an item under a container-wide
/// switch.
pub open spec fn generated(container: bool, item: Setting) -> bool {
    enabled(switch(container), item)
}

impl Setting {
    /// Lays `self` over `lower`.
    pub fn over(self, lower: Setting) -> (r: Setting)
        ensures
            r == resolve(lower, self),
    {
        match self {
            Setting::Inherited => lower,
            _ => self,
        }
    }

    /// Whether the feature is generated for an item with this setting under
    /// a container with the setting `container`.
    pub fn enabled_under(self, container: Setting) -> (b: bool)
        ensures
            b == enabled(container, self),
    {
        match self.over(container.over(Setting::Inherited)) {
            Setting::Enabled => true,
            _ => false,
        }
    }

    /// Whether the feature is generated for an item with this setting under
    /// a container whose switch is `container`.
    pub fn generated_under(self, container: bool) -> (b: bool)
        ensures
            b == generated(container, self),
    {
        let base = if container {
            Setting::Enabled
        } else {
            Setting::Inherited
        };
        self.enabled_under(base)
    }
}

/// How an accessor hands out its field.
#[derive(Clone, Copy, Debug, PartialEq, Eq, Structural)]
pub enum ReturnShape {
    /// By value where the type is a recognised copyable primitive, by
    /// reference otherwise.
    Automatic,
    Reference,
    Copy,
}

/// The return shape of an accessor: the field's own choice, else the
/// container's, else automatic.
pub open spec fn return_shape(container: Option<ReturnShape>, item: Option<ReturnShape>)
    -> ReturnShape {
    match item {
        Some(shape) => shape,
        None => match container {
            Some(shape) => shape,
            None => ReturnShape::Automatic,
        },
    }
}

impl ReturnShape {
    /// Whether an accessor of this shape returns a reference.
    pub fn by_reference(self, copyable: bool) -> (b: bool)
        ensures
            b == by_reference(self, copyable),
    {
        match self {
            ReturnShape::Automatic => !copyable,
            ReturnShape::Reference => true,
            ReturnShape::Copy => false,
        }
    }
}

/// Whether an accessor of the given shape returns a reference, for a field
/// whose type is or is not a recognised copyable primitive.
pub open spec fn by_reference(shape: ReturnShape, copyable: bool) -> bool {
    match shape {
        ReturnShape::Automatic => !copyable,
        ReturnShape::Reference => true,
        ReturnShape::Copy => false,
    }
}

/// What the first `n` items give, in order, where `item(i)` is what item
/// `i` gives; the failure of the first item that has one.
pub open spec fn collected<T>(n: int, item: spec_fn(int) -> Result<T, ErrorView>) -> Result<
    Seq<T>,
    ErrorView,
>
    decreases n,
{
    if n <= 0 {
        Ok(Seq::empty())
    } else {
        match collected(n - 1, item) {
            Err(e) => Err(e),
            Ok(before) => match item(n - 1) {
                Err(e) => Err(e),
                Ok(value) => Ok(before.push(value)),
            },
        }
    }
}

/// Where collecting succeeds, every item has succeeded and the result holds
/// what each gave.
pub proof fn lemma_collected<T>(n: int, item: spec_fn(int) -> Result<T, ErrorView>)
    requires
        0 <= n,
        collected(n, item) is Ok,
    ensures
        collected(n, item)->Ok_0.len() == n,
        forall|i: int|
            0 <= i < n ==> (#[trigger] item(i)) is Ok && collected(n, item)->Ok_0[i] == item(
                i,
            )->Ok_0,
    decreases n,
{
    if n > 0 {
        lemma_collected(n - 1, item);
    }
}

/// Where every item succeeds, collecting succeeds.
pub proof fn lemma_collected_succeeds<T>(n: int, item: spec_fn(int) -> Result<T, ErrorView>)
    requires
        0 <= n,
        forall|i: int| 0 <= i < n ==> (#[trigger] item(i)) is Ok,
    ensures
        collected(n, item) is Ok,
    decreases n,
{
    if n > 0 {
        lemma_collected_succeeds(n - 1, item);
    }
}

/// Where collecting fails, some item failed and every item before it
/// succeeded: the failure is that of the first such item.
pub proof fn lemma_collected_failure<T>(n: int, item: spec_fn(int) -> Result<T, ErrorView>)
    requires
        0 <= n,
        collected(n, item) is Err,
    ensures
        exists|i: int|
            0 <= i < n && (#[trigger] item(i)) == Err::<T, ErrorView>(collected(n, item)->Err_0)
                && collected(i, item) is Ok,
    decreases n,
{
    if n > 0 {
        if collected(n - 1, item) is Err {
            lemma_collected_failure(n - 1, item);
        } else {
            assert(item(n - 1) == Err::<T, ErrorView>(collected(n, item)->Err_0));
        }
    }
}

/// A failure among the first items is the failure of the whole.
pub proof fn lemma_collected_prefix_failure<T>(
    n: int,
    i: int,
    item: spec_fn(int) -> Result<T, ErrorView>,
)
    requires
        0 <= i < n,
        collected(i, item) is Ok,
        item(i) is Err,
    ensures
        collected(n, item) == Err::<Seq<T>, ErrorView>(item(i)->Err_0),
    decreases n,
{
    if n > i + 1 {
        lemma_collected_prefix_failure(n - 1, i, item);
    }
}

/// An item's own `skip` wins over whatever the container says.
pub proof fn lemma_skip_wins(container: Setting)
    ensures
        resolve(container, Setting::Skipped) == Setting::Skipped,
        !enabled(container, Setting::Skipped),
{
}

/// An item's own `enable` wins over whatever the container says.
pub proof fn lemma_enable_wins(container: Setting)
    ensures
        resolve(container, Setting::Enabled) == Setting::Enabled,
        enabled(container, Setting::Enabled),
{
}

/// An item that says nothing gets what the container says, and nothing
/// where the container says nothing either.
pub proof fn lemma_silent_item_inherits(container: Setting)
    ensures
        resolve(container, Setting::Inherited) == container,
        enabled(container, Setting::Inherited) == (container == Setting::Enabled),
{
}

/// Laying settings over each other is associative: only the order of the
/// levels counts, not how they are grouped.
pub proof fn lemma_resolve_is_associative(low: Setting, middle: Setting, high: Setting)
    ensures
        resolve(resolve(low, middle), high) == resolve(low, resolve(middle, high)),
{
}

} // verus!
