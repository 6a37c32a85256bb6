//! A minimal fixed-arity container abstraction: values with exactly three
//! independently addressable slots, selected by the closed `Item` enumeration.
//!
//! The verified core is the slot selector and the generic three-slot store
//! `Slots<T>`: construction, per-slot reads and writes, and the laws that
//! a write to one slot is read back exactly and leaves the other slots
//! unchanged. Floating-point arithmetic over the slots (sums, lossy
//! narrowing) lives outside the verified library.

use vstd::prelude::*;

verus! {

/// Selector for one of the three addressable slots of a container.
///
/// The enumeration is closed: exactly three slot identifiers exist, so no
/// out-of-range slot is expressible.
#[derive(Clone, Copy, Debug)]
pub enum Item {
    First,
    Second,
    Third,
}

impl Item {
    /// The fixed ordinal of this slot: `First` is 0, `Second` is 1,
    /// `Third` is 2.
    pub open spec fn ordinal(self) -> int {
        match self {
            Item::First => 0,
            Item::Second => 1,
            Item::Third => 2,
        }
    }

    /// Returns the ordinal index of this slot.
    pub fn index(&self) -> (r: usize)
        ensures
            r == self.ordinal(),
            r < 3,
    {
        match self {
            Item::First => 0,
            Item::Second => 1,
            Item::Third => 2,
        }
    }
}

/// A container with exactly three independently addressable slots, each
/// holding a value of type `T`.
///
/// Its view is the sequence of the three slot values in ordinal order, so
/// every instance has exactly three addressable slots and every `Item`
/// selects a valid position.
#[derive(PartialEq, Debug)]
pub struct Slots<T> {
    first: T,
    second: T,
    third: T,
}

impl<T> View for Slots<T> {
    type V = Seq<T>;

    closed spec fn view(&self) -> Seq<T> {
        seq![self.first, self.second, self.third]
    }
}

impl<T: Copy> Slots<T> {
    /// Builds a container from the three slot values, in ordinal order.
    pub fn new(first: T, second: T, third: T) -> (r: Self)
        ensures
            r@ == seq![first, second, third],
    {
        Slots { first, second, third }
    }

    /// Builds a container with every slot holding the same value; with the
    /// numeric zero this is the all-default instance.
    pub fn filled(value: T) -> (r: Self)
        ensures
            r@ == seq![value, value, value],
    {
        Slots { first: value, second: value, third: value }
    }

    /// Reads the current value of the given slot. Total over the three
    /// defined slot identifiers: no failure mode.
    pub fn get_item(&self, item: Item) -> (r: T)
        ensures
            r == self@[item.ordinal()],
    {
        match item {
            Item::First => self.first,
            Item::Second => self.second,
            Item::Third => self.third,
        }
    }

    /// Overwrites the given slot with `value`, leaving the other two slots
    /// unchanged. Total over the three defined slot identifiers.
    pub fn set_item(&mut self, item: Item, value: T)
        ensures
            final(self)@ == old(self)@.update(item.ordinal(), value),
    {
        match item {
            Item::First => self.first = value,
            Item::Second => self.second = value,
            Item::Third => self.third = value,
        }
    }
}

/// Law: writing a value to a slot and then reading the same slot yields
/// exactly the written value, for every slot and every value. Stated over
/// the view that `set_item` and `get_item` speak of.
pub proof fn lemma_set_then_get<T>(s: Seq<T>, item: Item, value: T)
    requires
        s.len() == 3,
    ensures
        s.update(item.ordinal(), value)[item.ordinal()] == value,
{
}

/// Law: writing a value to one slot leaves every other slot unchanged.
pub proof fn lemma_set_preserves_others<T>(s: Seq<T>, item: Item, other: Item, value: T)
    requires
        s.len() == 3,
        other.ordinal() != item.ordinal(),
    ensures
        s.update(item.ordinal(), value)[other.ordinal()] == s[other.ordinal()],
{
}

/// Law: in a container filled with one value, every slot reads back that
/// value; with the numeric zero, every slot of the default instance is zero.
pub proof fn lemma_filled_all_slots<T>(value: T, item: Item)
    ensures
        seq![value, value, value][item.ordinal()] == value,
{
}

} // verus!
