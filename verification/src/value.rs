//! A value paired with a flag that records whether it changed since the flag
//! was last read.

use vstd::prelude::*;
use vstd::std_specs::cmp::PartialEqSpec;

verus! {

/// Mathematical model of a [`Value`]: the value held and the dirty flag.
pub struct ValueView<T> {
    pub value: T,
    pub modified: bool,
}

/// A value with a dirty flag. Every mutating operation raises the flag when it
/// changes the value; [`Value::changed`] reads the flag and lowers it.
pub struct Value<T> {
    value: T,
    modified: bool,
}

impl<T> View for Value<T> {
    type V = ValueView<T>;

    closed spec fn view(&self) -> ValueView<T> {
        ValueView { value: self.value, modified: self.modified }
    }
}

/// The model after the flag has been read: same value, flag lowered.
pub open spec fn observed<T>(v: ValueView<T>) -> ValueView<T> {
    ValueView { value: v.value, modified: false }
}

/// The model after assigning `value`, where `same` tells whether `value`
/// compares equal to the value held.
pub open spec fn assigned<T>(v: ValueView<T>, value: T, same: bool) -> ValueView<T> {
    if same {
        v
    } else {
        ValueView { value, modified: true }
    }
}

/// The model after flipping a boolean: the flag is raised in any case.
pub open spec fn toggled(v: ValueView<bool>) -> ValueView<bool> {
    ValueView { value: !v.value, modified: true }
}

/// The model after setting the bits of `mask`: the flag is raised when at
/// least one of them was clear.
pub open spec fn with_bits_set(v: ValueView<u8>, mask: u8) -> ValueView<u8> {
    ValueView { value: v.value | mask, modified: v.modified || (v.value | mask) != v.value }
}

/// The model after clearing the bits of `mask`: the flag is raised when at
/// least one of them was set.
pub open spec fn with_bits_cleared(v: ValueView<u8>, mask: u8) -> ValueView<u8> {
    ValueView { value: v.value & !mask, modified: v.modified || (v.value & !mask) != v.value }
}

/// The model after a bounded increment: nothing happens at or above `max`;
/// below it the flag is raised and the sum is clamped to `max`.
pub open spec fn raised(v: ValueView<u8>, amount: u8, max: u8) -> ValueView<u8> {
    if v.value < max {
        ValueView {
            value: if v.value + amount > max { max } else { (v.value + amount) as u8 },
            modified: true,
        }
    } else {
        v
    }
}

/// The model after a bounded decrement: nothing happens at or below `min`;
/// above it the flag is raised and the difference is clamped to `min`.
pub open spec fn lowered(v: ValueView<u8>, amount: u8, min: u8) -> ValueView<u8> {
    if v.value > min {
        ValueView {
            value: if v.value - amount < min { min } else { (v.value - amount) as u8 },
            modified: true,
        }
    } else {
        v
    }
}

impl<T: Eq + Copy> Value<T> {
    /// A tracker holding `value`, with the flag clear.
    pub fn new(value: T) -> (r: Self)
        ensures
            r@ == (ValueView { value, modified: false }),
    {
        Self { value, modified: false }
    }

    /// The value held. Reading it leaves the flag alone.
    pub fn get(&self) -> (r: T)
        ensures
            r == self@.value,
    {
        self.value
    }

    /// Stores `value` and raises the flag, unless `value` equals the value
    /// already held.
    pub fn set(&mut self, value: T)
        ensures
            T::obeys_eq_spec() ==> final(self)@ == assigned(
                old(self)@,
                value,
                old(self)@.value.eq_spec(&value),
            ),
            final(self)@ == old(self)@ || final(self)@ == assigned(old(self)@, value, false),
    {
        if self.value != value {
            self.value = value;
            self.modified = true;
        }
    }

    /// Reads the flag and lowers it: after a change this returns `true` once.
    pub fn changed(&mut self) -> (r: bool)
        ensures
            r == old(self)@.modified,
            final(self)@ == observed(old(self)@),
    {
        if self.modified {
            self.modified = false;
            return true;
        }
        false
    }
}

impl Value<bool> {
    /// Flips the value and raises the flag.
    pub fn toggle(&mut self)
        ensures
            final(self)@ == toggled(old(self)@),
    {
        self.value = !self.value;
        self.modified = true;
    }
}

impl Value<u8> {
    /// Sets every bit of `mask`; the flag is raised when one of them was clear.
    pub fn set_bit(&mut self, mask: u8)
        ensures
            final(self)@ == with_bits_set(old(self)@, mask),
    {
        let value: u8 = self.value;
        if value & mask != mask {
            assert((value | mask) != value) by (bit_vector)
                requires
                    value & mask != mask,
            ;
            self.value = value | mask;
            self.modified = true;
        } else {
            assert((value | mask) == value) by (bit_vector)
                requires
                    value & mask == mask,
            ;
        }
    }

    /// Clears every bit of `mask`; the flag is raised when one of them was set.
    pub fn clr_bit(&mut self, mask: u8)
        ensures
            final(self)@ == with_bits_cleared(old(self)@, mask),
    {
        let value: u8 = self.value;
        if value & mask != 0 {
            assert((value & !mask) != value) by (bit_vector)
                requires
                    value & mask != 0,
            ;
            self.value = value & !mask;
            self.modified = true;
        } else {
            assert((value & !mask) == value) by (bit_vector)
                requires
                    value & mask == 0,
            ;
        }
    }

    /// Adds `add`, stopping at `max`. A value at or above `max` is left alone.
    pub fn add(&mut self, add: u8, max: u8)
        ensures
            final(self)@ == raised(old(self)@, add, max),
    {
        if self.value < max {
            self.modified = true;
            if self.value as usize + add as usize > max as usize {
                self.value = max;
            } else {
                self.value += add;
            }
        }
    }

    /// Subtracts `sub`, stopping at `min`. A value at or below `min` is left
    /// alone.
    pub fn sub(&mut self, sub: u8, min: u8)
        ensures
            final(self)@ == lowered(old(self)@, sub, min),
    {
        if self.value > min {
            self.modified = true;
            if self.value as usize > min as usize + sub as usize {
                self.value -= sub;
            } else {
                self.value = min;
            }
        }
    }
}

/// Reading the flag consumes it: once it has been read, reading it again
/// without a mutation in between finds it clear and changes nothing.
pub proof fn lemma_changed_reads_once<T>(v: ValueView<T>)
    ensures
        !observed(v).modified,
        observed(v).value == v.value,
        observed(observed(v)) == observed(v),
{
}

} // verus!
