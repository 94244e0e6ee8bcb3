//! Which kinds of user interface are registered for a component.

use vstd::prelude::*;

verus! {

/// One kind of user interface that a component can have.
#[derive(Clone, Copy, Debug, PartialEq, Eq, Structural)]
pub enum UiCapability {
    /// The component can be shown read-only.
    Display,
    /// The component can be edited within a single list item line.
    SingleLineEditor,
    /// The component can be edited over several list items.
    MultiLineEditor,
}

/// The bit that stands for `capability` in a [`ComponentUiTypes`].
pub open spec fn capability_bit(capability: UiCapability) -> u8 {
    match capability {
        UiCapability::Display => 0b001u8,
        UiCapability::SingleLineEditor => 0b010u8,
        UiCapability::MultiLineEditor => 0b100u8,
    }
}

/// The bit of `capability` where `capabilities` holds it, else nothing.
pub open spec fn bit_if_in(capabilities: Set<UiCapability>, capability: UiCapability) -> int {
    if capabilities.contains(capability) {
        capability_bit(capability) as int
    } else {
        0
    }
}

/// The bits of a set of capabilities: the sum of the bits of its members.
pub open spec fn bits_of(capabilities: Set<UiCapability>) -> int {
    bit_if_in(capabilities, UiCapability::Display) + bit_if_in(
        capabilities,
        UiCapability::SingleLineEditor,
    ) + bit_if_in(capabilities, UiCapability::MultiLineEditor)
}

/// The set of capabilities whose bits are `display`, `singleline`, `multiline`.
pub open spec fn capability_set(display: bool, singleline: bool, multiline: bool) -> Set<
    UiCapability,
> {
    Set::new(
        |c: UiCapability|
            match c {
                UiCapability::Display => display,
                UiCapability::SingleLineEditor => singleline,
                UiCapability::MultiLineEditor => multiline,
            },
    )
}

/// A set of [`UiCapability`], held as three flags.
///
/// The view is the set itself.
#[derive(Clone, Copy, Debug, PartialEq, Eq, Structural)]
pub struct ComponentUiTypes {
    display: bool,
    singleline: bool,
    multiline: bool,
}

impl View for ComponentUiTypes {
    type V = Set<UiCapability>;

    closed spec fn view(&self) -> Set<UiCapability> {
        capability_set(self.display, self.singleline, self.multiline)
    }
}

impl ComponentUiTypes {
    /// The set that holds no capability.
    pub fn empty() -> (r: Self)
        ensures
            r@ == Set::<UiCapability>::empty(),
    {
        let r = ComponentUiTypes { display: false, singleline: false, multiline: false };
        assert(r@ =~= Set::<UiCapability>::empty());
        r
    }

    /// The set that holds `capability` alone.
    pub fn only(capability: UiCapability) -> (r: Self)
        ensures
            r@ == set![capability],
    {
        let r = match capability {
            UiCapability::Display => ComponentUiTypes {
                display: true,
                singleline: false,
                multiline: false,
            },
            UiCapability::SingleLineEditor => ComponentUiTypes {
                display: false,
                singleline: true,
                multiline: false,
            },
            UiCapability::MultiLineEditor => ComponentUiTypes {
                display: false,
                singleline: false,
                multiline: true,
            },
        };
        assert(r@ =~= set![capability]);
        r
    }

    /// Whether `capability` is in the set.
    pub fn contains(&self, capability: UiCapability) -> (b: bool)
        ensures
            b == self@.contains(capability),
    {
        match capability {
            UiCapability::Display => self.display,
            UiCapability::SingleLineEditor => self.singleline,
            UiCapability::MultiLineEditor => self.multiline,
        }
    }

    /// Whether the set holds nothing.
    pub fn is_empty(&self) -> (b: bool)
        ensures
            b == (self@ == Set::<UiCapability>::empty()),
    {
        let b = !self.display && !self.singleline && !self.multiline;
        proof {
            if b {
                assert(self@ =~= Set::<UiCapability>::empty());
            } else {
                assert(self@.contains(UiCapability::Display) || self@.contains(
                    UiCapability::SingleLineEditor,
                ) || self@.contains(UiCapability::MultiLineEditor));
            }
        }
        b
    }

    /// The set of what is in `self` or in `other`.
    pub fn union(self, other: Self) -> (r: Self)
        ensures
            r@ == self@.union(other@),
    {
        let r = ComponentUiTypes {
            display: self.display || other.display,
            singleline: self.singleline || other.singleline,
            multiline: self.multiline || other.multiline,
        };
        assert(r@ =~= self@.union(other@));
        r
    }

    /// Adds to `self` what is in `other`.
    pub fn insert(&mut self, other: Self)
        ensures
            final(self)@ == old(self)@.union(other@),
    {
        *self = self.union(other);
    }

    /// The set as bits: the sum of the bits of the capabilities in it, one for
    /// display, two for the single-line editor, four for the multi-line
    /// editor.
    pub fn bits(&self) -> (b: u8)
        ensures
            b == bits_of(self@),
    {
        let mut b: u8 = 0;
        if self.display {
            b = b + 1;
        }
        if self.singleline {
            b = b + 2;
        }
        if self.multiline {
            b = b + 4;
        }
        b
    }
}

/// Two sets with the same capabilities are the same value.
pub proof fn lemma_ui_types_view_injective(a: ComponentUiTypes, b: ComponentUiTypes)
    requires
        a@ == b@,
    ensures
        a == b,
{
    assert(a@.contains(UiCapability::Display) == a.display);
    assert(b@.contains(UiCapability::Display) == b.display);
    assert(a@.contains(UiCapability::SingleLineEditor) == a.singleline);
    assert(b@.contains(UiCapability::SingleLineEditor) == b.singleline);
    assert(a@.contains(UiCapability::MultiLineEditor) == a.multiline);
    assert(b@.contains(UiCapability::MultiLineEditor) == b.multiline);
}

} // verus!
