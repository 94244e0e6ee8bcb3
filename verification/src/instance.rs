//! Which instance of a batch a draw call asks for, and what that selects.

use crate::raw_value::RawValue;
use vstd::prelude::*;

verus! {

/// The index of one instance of a batch, or the request for all of them.
#[derive(Clone, Copy, Debug, PartialEq, Eq, Structural)]
pub struct Instance {
    index: u64,
}

/// The index that stands for "all instances".
pub const ALL_INSTANCES: u64 = 0xffff_ffff_ffff_ffff;

impl Instance {
    /// The number that the instance holds: an index, or [`ALL_INSTANCES`].
    pub closed spec fn spec_get(&self) -> u64 {
        self.index
    }

    /// Whether the instance asks for all instances of a batch.
    pub open spec fn spec_is_all(&self) -> bool {
        self.spec_get() == ALL_INSTANCES
    }

    /// The request for all instances.
    pub fn all() -> (r: Self)
        ensures
            r.spec_is_all(),
            r.spec_get() == ALL_INSTANCES,
    {
        Instance { index: ALL_INSTANCES }
    }

    /// The instance that holds `index`. The largest `u64` is the request for all.
    pub fn new(index: u64) -> (r: Self)
        ensures
            r.spec_get() == index,
    {
        Instance { index }
    }

    /// The number that the instance holds.
    #[verifier::when_used_as_spec(spec_get)]
    pub fn get(&self) -> (i: u64)
        ensures
            i == self.spec_get(),
    {
        self.index
    }

    /// Whether the instance asks for all instances of a batch.
    #[verifier::when_used_as_spec(spec_is_all)]
    pub fn is_all(&self) -> (b: bool)
        ensures
            b == self.spec_is_all(),
    {
        self.index == ALL_INSTANCES
    }

    /// Whether the instance names one instance.
    pub fn is_specific(&self) -> (b: bool)
        ensures
            b == !self.spec_is_all(),
    {
        self.index != ALL_INSTANCES
    }
}

/// What a batch and an instance request come to.
#[derive(Clone, Copy, Debug, PartialEq, Eq, Structural)]
pub enum Selection {
    /// No single instance: the whole batch goes to the summary.
    Summary,
    /// The instance at this index is shown or edited.
    Element(usize),
}

/// The selection rule.
///
/// An empty batch has nothing to select. All instances of a batch of one is
/// that one; of a larger batch it is the summary. An index beyond the batch is
/// clamped to the last instance.
pub open spec fn select(len: nat, instance: Instance) -> Selection {
    if len == 0 {
        Selection::Summary
    } else if instance.spec_is_all() {
        if len == 1 {
            Selection::Element(0)
        } else {
            Selection::Summary
        }
    } else if instance.spec_get() >= len {
        Selection::Element((len - 1) as usize)
    } else {
        Selection::Element(instance.spec_get() as usize)
    }
}

/// The instances that are handed on when `instance` is asked of `items`: the
/// selected one alone, or the whole batch where none is selected.
pub open spec fn shown_items(items: Seq<int>, instance: Instance) -> Seq<int> {
    match select(items.len(), instance) {
        Selection::Summary => items,
        Selection::Element(index) => seq![items[index as int]],
    }
}

/// The cache key that is handed on with them: that of the row where one
/// instance is selected, none with the whole batch.
pub open spec fn shown_cache_key(len: nat, instance: Instance, cache_key: Option<u64>) -> Option<
    u64,
> {
    match select(len, instance) {
        Selection::Summary => None,
        Selection::Element(_) => cache_key,
    }
}

/// Applies the selection rule to a batch of `len` instances.
pub fn select_instance(len: usize, instance: Instance) -> (s: Selection)
    ensures
        s == select(len as nat, instance),
{
    if len == 0 {
        Selection::Summary
    } else if instance.is_all() {
        if len == 1 {
            Selection::Element(0)
        } else {
            Selection::Summary
        }
    } else {
        let wanted: u64 = instance.get();
        if wanted >= len as u64 {
            Selection::Element(len - 1)
        } else {
            Selection::Element(wanted as usize)
        }
    }
}

/// The one instance that `instance` selects from `value`, as a batch of one,
/// or `None` where the whole batch goes to the summary.
pub fn select_element(value: &RawValue, instance: Instance) -> (r: Option<RawValue>)
    ensures
        (match select(value@.len(), instance) {
            Selection::Summary => r.is_none(),
            Selection::Element(index) => r matches Some(e) && e@ == seq![value@[index as int]],
        }),
{
    match select_instance(value.len(), instance) {
        Selection::Summary => None,
        Selection::Element(index) => {
            proof {
                lemma_selected_in_range(value@.len(), instance);
            }
            value.element(index)
        },
    }
}

/// A selected index lies in the batch.
pub proof fn lemma_selected_in_range(len: nat, instance: Instance)
    requires
        len <= usize::MAX,
    ensures
        select(len, instance) matches Selection::Element(index) ==> index < len,
{
}

/// No instance is selected from an empty batch.
pub proof fn lemma_empty_selects_summary(instance: Instance)
    ensures
        select(0, instance) == Selection::Summary,
{
}

/// All instances of a batch of more than one come to the summary.
pub proof fn lemma_all_of_many_selects_summary(len: nat)
    requires
        len > 1,
    ensures
        forall|instance: Instance| instance.spec_is_all() ==> select(len, instance) == Selection::Summary,
{
}

/// From a batch of one, every request selects the one instance.
pub proof fn lemma_single_selects_first(instance: Instance)
    ensures
        select(1, instance) == Selection::Element(0),
{
}

/// An index at or beyond the end of a batch selects the last instance.
pub proof fn lemma_clamp_to_border(len: nat, instance: Instance)
    requires
        0 < len <= usize::MAX,
        !instance.spec_is_all(),
        instance.spec_get() >= len,
    ensures
        select(len, instance) == Selection::Element((len - 1) as usize),
{
}

/// An index within the batch selects the instance at that index.
pub proof fn lemma_index_in_range_selects_itself(len: nat, instance: Instance)
    requires
        len <= usize::MAX,
        !instance.spec_is_all(),
        instance.spec_get() < len,
    ensures
        select(len, instance) == Selection::Element(instance.spec_get() as usize),
{
}

} // verus!
