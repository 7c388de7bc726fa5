//! Filters over the sample, view and instance state of what a reader holds.

use vstd::prelude::*;
use vstd::std_specs::convert::FromSpecImpl;
use vstd::std_specs::ops::BitAndSpecImpl;
use vstd::std_specs::ops::BitOrSpecImpl;
use vstd::std_specs::ops::BitXorSpecImpl;
use vstd::std_specs::ops::NotSpecImpl;

verus! {

/// Every bit that a flag can set.
pub const ALL_STATE_BITS: u32 = 0x7f;

/// One named filter. Seven of them are single bits; the four whose names
/// hold `Any` are the unions of a category or of all.
#[derive(Copy, Clone, Eq, PartialEq, Ord, PartialOrd, Debug, Hash, Structural)]
pub enum State {
    DdsReadSampleState,
    DdsNotReadSampleState,
    DdsAnySampleState,
    DdsNewViewState,
    DdsNotNewViewState,
    DdsAnyViewState,
    DdsAliveInstanceState,
    DdsNotAliveDisposedInstanceState,
    DdsNotAliveNoWritersInstanceState,
    DdsAnyInstanceState,
    DdsAnyState,
}

impl View for State {
    type V = u32;

    /// The bits that the flag sets in a mask.
    open spec fn view(&self) -> u32 {
        match self {
            State::DdsReadSampleState => 0x01,
            State::DdsNotReadSampleState => 0x02,
            State::DdsAnySampleState => 0x03,
            State::DdsNewViewState => 0x04,
            State::DdsNotNewViewState => 0x08,
            State::DdsAnyViewState => 0x0c,
            State::DdsAliveInstanceState => 0x10,
            State::DdsNotAliveDisposedInstanceState => 0x20,
            State::DdsNotAliveNoWritersInstanceState => 0x40,
            State::DdsAnyInstanceState => 0x70,
            State::DdsAnyState => 0x7f,
        }
    }
}

impl State {
    /// The flag as the integer that native calls take.
    pub fn bits(self) -> (bits: u32)
        ensures
            bits == self@,
    {
        match self {
            State::DdsReadSampleState => 0x01,
            State::DdsNotReadSampleState => 0x02,
            State::DdsAnySampleState => 0x03,
            State::DdsNewViewState => 0x04,
            State::DdsNotNewViewState => 0x08,
            State::DdsAnyViewState => 0x0c,
            State::DdsAliveInstanceState => 0x10,
            State::DdsNotAliveDisposedInstanceState => 0x20,
            State::DdsNotAliveNoWritersInstanceState => 0x40,
            State::DdsAnyInstanceState => 0x70,
            State::DdsAnyState => 0x7f,
        }
    }

    /// No flag sets a bit outside [`ALL_STATE_BITS`], and none is empty.
    pub proof fn lemma_bits_in_range(self)
        ensures
            self@ & ALL_STATE_BITS == self@,
            self@ != 0,
    {
        assert(0x01u32 & 0x7f == 0x01 && 0x02u32 & 0x7f == 0x02 && 0x03u32 & 0x7f == 0x03
            && 0x04u32 & 0x7f == 0x04 && 0x08u32 & 0x7f == 0x08 && 0x0cu32 & 0x7f == 0x0c
            && 0x10u32 & 0x7f == 0x10 && 0x20u32 & 0x7f == 0x20 && 0x40u32 & 0x7f == 0x40
            && 0x70u32 & 0x7f == 0x70 && 0x7fu32 & 0x7f == 0x7f) by (bit_vector);
    }
}

/// A set of flags, kept as the union of their bits.
#[derive(Copy, Clone, Eq, PartialEq, Ord, PartialOrd, Debug, Hash, Structural)]
pub struct StateMask {
    mask: u32,
}

impl View for StateMask {
    type V = u32;

    /// The bits that are set.
    closed spec fn view(&self) -> u32 {
        self.mask
    }
}

impl StateMask {
    /// Whether the mask holds no bit that no flag sets. Every mask that
    /// the functions of this type make or change is valid.
    pub open spec fn is_valid(self) -> bool {
        self@ & ALL_STATE_BITS == self@
    }

    #[verifier::type_invariant]
    spec fn always_valid(self) -> bool {
        self.is_valid()
    }

    /// Whether every bit of `other` is set in `self`.
    pub open spec fn spec_contains(self, other: StateMask) -> bool {
        self@ & other@ == other@
    }

    /// Whether some bit of `other` is set in `self`.
    pub open spec fn spec_intersects(self, other: StateMask) -> bool {
        self@ & other@ != 0
    }

    /// The mask with no flag set.
    pub fn none() -> (mask: Self)
        ensures
            mask@ == 0,
            mask.is_valid(),
    {
        assert(0u32 & 0x7f == 0) by (bit_vector);
        StateMask { mask: 0 }
    }

    /// The mask with every flag set.
    pub fn all() -> (mask: Self)
        ensures
            mask@ == ALL_STATE_BITS,
            mask.is_valid(),
    {
        assert(0x7fu32 & 0x7f == 0x7f) by (bit_vector);
        StateMask { mask: ALL_STATE_BITS }
    }

    /// The bits of the mask, as native calls take them.
    pub fn bits(&self) -> (bits: u32)
        ensures
            bits == self@,
            self.is_valid(),
    {
        proof {
            use_type_invariant(self);
        }
        self.mask
    }

    /// Sets every flag of `other`.
    pub fn set(&mut self, other: StateMask)
        ensures
            final(self)@ == old(self)@ | other@,
            final(self).is_valid(),
    {
        proof {
            use_type_invariant(&*self);
            use_type_invariant(other);
        }
        let a: u32 = self.mask;
        let b: u32 = other.mask;
        assert(a & 0x7f == a && b & 0x7f == b ==> (a | b) & 0x7f == (a | b)) by (bit_vector);
        self.mask = a | b;
    }

    /// Unsets every flag of `other`.
    pub fn unset(&mut self, other: StateMask)
        ensures
            final(self)@ == old(self)@ & (ALL_STATE_BITS ^ other@),
            final(self).is_valid(),
    {
        proof {
            use_type_invariant(&*self);
        }
        let a: u32 = self.mask;
        let b: u32 = other.mask;
        assert(a & 0x7f == a ==> (a & (0x7f ^ b)) & 0x7f == (a & (0x7f ^ b))) by (bit_vector);
        self.mask = a & (ALL_STATE_BITS ^ b);
    }

    /// Flips every flag of `other`.
    pub fn toggle(&mut self, other: StateMask)
        ensures
            final(self)@ == old(self)@ ^ other@,
            final(self).is_valid(),
    {
        proof {
            use_type_invariant(&*self);
            use_type_invariant(other);
        }
        let a: u32 = self.mask;
        let b: u32 = other.mask;
        assert(a & 0x7f == a && b & 0x7f == b ==> (a ^ b) & 0x7f == (a ^ b)) by (bit_vector);
        self.mask = a ^ b;
    }

    /// Whether the mask holds all of `other`'s flags.
    pub fn contains(&self, other: StateMask) -> (held: bool)
        ensures
            held == self.spec_contains(other),
    {
        self.mask & other.mask == other.mask
    }

    /// Whether the mask and `other` have a flag in common.
    pub fn intersects(&self, other: StateMask) -> (met: bool)
        ensures
            met == self.spec_intersects(other),
    {
        self.mask & other.mask != 0
    }

    /// Whether every flag is set.
    pub fn is_all(&self) -> (full: bool)
        ensures
            full == (self@ == ALL_STATE_BITS),
    {
        self.mask == ALL_STATE_BITS
    }

    /// Whether no flag is set.
    pub fn is_none(&self) -> (empty: bool)
        ensures
            empty == (self@ == 0),
    {
        self.mask == 0
    }
}

impl FromSpecImpl<State> for StateMask {
    open spec fn obeys_from_spec() -> bool {
        true
    }

    open spec fn from_spec(flag: State) -> StateMask {
        StateMask::of_flag(flag)
    }
}

impl StateMask {
    /// The mask that holds the bits of one flag and no others.
    pub closed spec fn of_flag(flag: State) -> StateMask {
        StateMask { mask: flag@ }
    }

    /// What [`StateMask::of_flag`] holds.
    pub proof fn lemma_of_flag(flag: State)
        ensures
            StateMask::of_flag(flag)@ == flag@,
    {
    }

    /// The mask that holds exactly the bits `bits`, where no bit of them
    /// lies outside [`ALL_STATE_BITS`].
    pub closed spec fn of_bits(bits: u32) -> StateMask
        recommends
            bits & ALL_STATE_BITS == bits,
    {
        StateMask { mask: bits }
    }

    /// What [`StateMask::of_bits`] holds, and that a mask is known by its
    /// bits.
    pub proof fn lemma_of_bits(bits: u32)
        ensures
            StateMask::of_bits(bits)@ == bits,
            forall|m: StateMask| m@ == bits ==> m == StateMask::of_bits(bits),
    {
    }
}

impl From<State> for StateMask {
    /// The mask of a single flag.
    fn from(flag: State) -> (mask: StateMask)
        ensures
            mask@ == flag@,
            mask.is_valid(),
    {
        proof {
            flag.lemma_bits_in_range();
        }
        StateMask { mask: flag.bits() }
    }
}

impl StateMask {
    /// The mask of all flags contains every mask of flags.
    pub proof fn lemma_within_all(self)
        requires
            self.is_valid(),
        ensures
            StateMask::of_bits(ALL_STATE_BITS).spec_contains(self),
    {
        let a = self@;
        assert(a & 0x7f == a ==> 0x7fu32 & a == a) by (bit_vector);
    }

    /// What was set is contained, and what was there before stays.
    pub proof fn lemma_set_contains(self, other: StateMask)
        ensures
            StateMask::of_bits(self@ | other@).spec_contains(other),
            StateMask::of_bits(self@ | other@).spec_contains(self),
    {
        let a = self@;
        let b = other@;
        assert((a | b) & b == b && (a | b) & a == a) by (bit_vector);
    }

    /// What was unset shares no flag with what is left.
    pub proof fn lemma_unset_removes(self, other: StateMask)
        requires
            self.is_valid(),
        ensures
            !StateMask::of_bits(self@ & (ALL_STATE_BITS ^ other@)).spec_intersects(other),
    {
        let a = self@;
        let b = other@;
        assert(a & 0x7f == a ==> (a & (0x7f ^ b)) & b == 0) by (bit_vector);
    }

    /// Toggling the same flags twice, or taking the complement twice, gives
    /// the mask back.
    pub proof fn lemma_toggle_twice(self, other: StateMask)
        ensures
            (self@ ^ other@) ^ other@ == self@,
            ALL_STATE_BITS ^ (ALL_STATE_BITS ^ self@) == self@,
    {
        let a = self@;
        let b = other@;
        assert((a ^ b) ^ b == a && 0x7fu32 ^ (0x7fu32 ^ a) == a) by (bit_vector);
    }
}

impl StateMask {
    fn joined(a: u32, b: u32) -> (mask: StateMask)
        requires
            a & ALL_STATE_BITS == a,
            b & ALL_STATE_BITS == b,
        ensures
            mask == StateMask::of_bits(a | b),
            mask.is_valid(),
    {
        assert(a & 0x7f == a && b & 0x7f == b ==> (a | b) & 0x7f == (a | b)) by (bit_vector);
        StateMask { mask: a | b }
    }

    fn common(a: u32, b: u32) -> (mask: StateMask)
        requires
            a & ALL_STATE_BITS == a,
        ensures
            mask == StateMask::of_bits(a & b),
            mask.is_valid(),
    {
        assert(a & 0x7f == a ==> (a & b) & 0x7f == (a & b)) by (bit_vector);
        StateMask { mask: a & b }
    }

    fn differing(a: u32, b: u32) -> (mask: StateMask)
        requires
            a & ALL_STATE_BITS == a,
            b & ALL_STATE_BITS == b,
        ensures
            mask == StateMask::of_bits(a ^ b),
            mask.is_valid(),
    {
        assert(a & 0x7f == a && b & 0x7f == b ==> (a ^ b) & 0x7f == (a ^ b)) by (bit_vector);
        StateMask { mask: a ^ b }
    }

    fn inverted(a: u32) -> (mask: StateMask)
        requires
            a & ALL_STATE_BITS == a,
        ensures
            mask == StateMask::of_bits(ALL_STATE_BITS ^ a),
            mask.is_valid(),
    {
        assert(a & 0x7f == a ==> (0x7f ^ a) & 0x7f == (0x7f ^ a)) by (bit_vector);
        StateMask { mask: ALL_STATE_BITS ^ a }
    }
}

impl BitOrSpecImpl for StateMask {
    open spec fn obeys_bitor_spec() -> bool {
        true
    }

    open spec fn bitor_req(self, other: StateMask) -> bool {
        true
    }

    open spec fn bitor_spec(self, other: StateMask) -> StateMask {
        StateMask::of_bits(self@ | other@)
    }
}

impl core::ops::BitOr for StateMask {
    type Output = StateMask;

    /// The flags of either side.
    fn bitor(self, other: StateMask) -> (mask: StateMask)
        ensures
            mask@ == self@ | other@,
            mask.is_valid(),
    {
        proof {
            use_type_invariant(self);
            use_type_invariant(other);
        }
        StateMask::joined(self.mask, other.mask)
    }
}

impl BitOrSpecImpl<State> for StateMask {
    open spec fn obeys_bitor_spec() -> bool {
        true
    }

    open spec fn bitor_req(self, other: State) -> bool {
        true
    }

    open spec fn bitor_spec(self, other: State) -> StateMask {
        StateMask::of_bits(self@ | other@)
    }
}

impl core::ops::BitOr<State> for StateMask {
    type Output = StateMask;

    /// The flags of either side.
    fn bitor(self, other: State) -> (mask: StateMask)
        ensures
            mask@ == self@ | other@,
            mask.is_valid(),
    {
        proof {
            use_type_invariant(self);
            other.lemma_bits_in_range();
        }
        StateMask::joined(self.mask, other.bits())
    }
}

impl BitOrSpecImpl<StateMask> for State {
    open spec fn obeys_bitor_spec() -> bool {
        true
    }

    open spec fn bitor_req(self, other: StateMask) -> bool {
        true
    }

    open spec fn bitor_spec(self, other: StateMask) -> StateMask {
        StateMask::of_bits(self@ | other@)
    }
}

impl core::ops::BitOr<StateMask> for State {
    type Output = StateMask;

    /// The flags of either side.
    fn bitor(self, other: StateMask) -> (mask: StateMask)
        ensures
            mask@ == self@ | other@,
            mask.is_valid(),
    {
        proof {
            self.lemma_bits_in_range();
            use_type_invariant(other);
        }
        StateMask::joined(self.bits(), other.mask)
    }
}

impl BitOrSpecImpl for State {
    open spec fn obeys_bitor_spec() -> bool {
        true
    }

    open spec fn bitor_req(self, other: State) -> bool {
        true
    }

    open spec fn bitor_spec(self, other: State) -> StateMask {
        StateMask::of_bits(self@ | other@)
    }
}

impl core::ops::BitOr for State {
    type Output = StateMask;

    /// The flags of either side.
    fn bitor(self, other: State) -> (mask: StateMask)
        ensures
            mask@ == self@ | other@,
            mask.is_valid(),
    {
        proof {
            self.lemma_bits_in_range();
            other.lemma_bits_in_range();
        }
        StateMask::joined(self.bits(), other.bits())
    }
}

impl BitAndSpecImpl for StateMask {
    open spec fn obeys_bitand_spec() -> bool {
        true
    }

    open spec fn bitand_req(self, other: StateMask) -> bool {
        true
    }

    open spec fn bitand_spec(self, other: StateMask) -> StateMask {
        StateMask::of_bits(self@ & other@)
    }
}

impl core::ops::BitAnd for StateMask {
    type Output = StateMask;

    /// The flags that both sides hold.
    fn bitand(self, other: StateMask) -> (mask: StateMask)
        ensures
            mask@ == self@ & other@,
            mask.is_valid(),
    {
        proof {
            use_type_invariant(self);
            use_type_invariant(other);
        }
        StateMask::common(self.mask, other.mask)
    }
}

impl BitAndSpecImpl<State> for StateMask {
    open spec fn obeys_bitand_spec() -> bool {
        true
    }

    open spec fn bitand_req(self, other: State) -> bool {
        true
    }

    open spec fn bitand_spec(self, other: State) -> StateMask {
        StateMask::of_bits(self@ & other@)
    }
}

impl core::ops::BitAnd<State> for StateMask {
    type Output = StateMask;

    /// The flags that both sides hold.
    fn bitand(self, other: State) -> (mask: StateMask)
        ensures
            mask@ == self@ & other@,
            mask.is_valid(),
    {
        proof {
            use_type_invariant(self);
            other.lemma_bits_in_range();
        }
        StateMask::common(self.mask, other.bits())
    }
}

impl BitAndSpecImpl<StateMask> for State {
    open spec fn obeys_bitand_spec() -> bool {
        true
    }

    open spec fn bitand_req(self, other: StateMask) -> bool {
        true
    }

    open spec fn bitand_spec(self, other: StateMask) -> StateMask {
        StateMask::of_bits(self@ & other@)
    }
}

impl core::ops::BitAnd<StateMask> for State {
    type Output = StateMask;

    /// The flags that both sides hold.
    fn bitand(self, other: StateMask) -> (mask: StateMask)
        ensures
            mask@ == self@ & other@,
            mask.is_valid(),
    {
        proof {
            self.lemma_bits_in_range();
            use_type_invariant(other);
        }
        StateMask::common(self.bits(), other.mask)
    }
}

impl BitAndSpecImpl for State {
    open spec fn obeys_bitand_spec() -> bool {
        true
    }

    open spec fn bitand_req(self, other: State) -> bool {
        true
    }

    open spec fn bitand_spec(self, other: State) -> StateMask {
        StateMask::of_bits(self@ & other@)
    }
}

impl core::ops::BitAnd for State {
    type Output = StateMask;

    /// The flags that both sides hold.
    fn bitand(self, other: State) -> (mask: StateMask)
        ensures
            mask@ == self@ & other@,
            mask.is_valid(),
    {
        proof {
            self.lemma_bits_in_range();
            other.lemma_bits_in_range();
        }
        StateMask::common(self.bits(), other.bits())
    }
}

impl BitXorSpecImpl for StateMask {
    open spec fn obeys_bitxor_spec() -> bool {
        true
    }

    open spec fn bitxor_req(self, other: StateMask) -> bool {
        true
    }

    open spec fn bitxor_spec(self, other: StateMask) -> StateMask {
        StateMask::of_bits(self@ ^ other@)
    }
}

impl core::ops::BitXor for StateMask {
    type Output = StateMask;

    /// The flags that exactly one side holds.
    fn bitxor(self, other: StateMask) -> (mask: StateMask)
        ensures
            mask@ == self@ ^ other@,
            mask.is_valid(),
    {
        proof {
            use_type_invariant(self);
            use_type_invariant(other);
        }
        StateMask::differing(self.mask, other.mask)
    }
}

impl BitXorSpecImpl<State> for StateMask {
    open spec fn obeys_bitxor_spec() -> bool {
        true
    }

    open spec fn bitxor_req(self, other: State) -> bool {
        true
    }

    open spec fn bitxor_spec(self, other: State) -> StateMask {
        StateMask::of_bits(self@ ^ other@)
    }
}

impl core::ops::BitXor<State> for StateMask {
    type Output = StateMask;

    /// The flags that exactly one side holds.
    fn bitxor(self, other: State) -> (mask: StateMask)
        ensures
            mask@ == self@ ^ other@,
            mask.is_valid(),
    {
        proof {
            use_type_invariant(self);
            other.lemma_bits_in_range();
        }
        StateMask::differing(self.mask, other.bits())
    }
}

impl BitXorSpecImpl<StateMask> for State {
    open spec fn obeys_bitxor_spec() -> bool {
        true
    }

    open spec fn bitxor_req(self, other: StateMask) -> bool {
        true
    }

    open spec fn bitxor_spec(self, other: StateMask) -> StateMask {
        StateMask::of_bits(self@ ^ other@)
    }
}

impl core::ops::BitXor<StateMask> for State {
    type Output = StateMask;

    /// The flags that exactly one side holds.
    fn bitxor(self, other: StateMask) -> (mask: StateMask)
        ensures
            mask@ == self@ ^ other@,
            mask.is_valid(),
    {
        proof {
            self.lemma_bits_in_range();
            use_type_invariant(other);
        }
        StateMask::differing(self.bits(), other.mask)
    }
}

impl BitXorSpecImpl for State {
    open spec fn obeys_bitxor_spec() -> bool {
        true
    }

    open spec fn bitxor_req(self, other: State) -> bool {
        true
    }

    open spec fn bitxor_spec(self, other: State) -> StateMask {
        StateMask::of_bits(self@ ^ other@)
    }
}

impl core::ops::BitXor for State {
    type Output = StateMask;

    /// The flags that exactly one side holds.
    fn bitxor(self, other: State) -> (mask: StateMask)
        ensures
            mask@ == self@ ^ other@,
            mask.is_valid(),
    {
        proof {
            self.lemma_bits_in_range();
            other.lemma_bits_in_range();
        }
        StateMask::differing(self.bits(), other.bits())
    }
}

impl NotSpecImpl for StateMask {
    open spec fn obeys_not_spec() -> bool {
        true
    }

    open spec fn not_req(self) -> bool {
        true
    }

    open spec fn not_spec(self) -> StateMask {
        StateMask::of_bits(ALL_STATE_BITS ^ self@)
    }
}

impl core::ops::Not for StateMask {
    type Output = StateMask;

    /// Every flag that `self` does not hold.
    fn not(self) -> (mask: StateMask)
        ensures
            mask@ == ALL_STATE_BITS ^ self@,
            mask.is_valid(),
    {
        proof {
            use_type_invariant(self);
        }
        StateMask::inverted(self.mask)
    }
}

impl NotSpecImpl for State {
    open spec fn obeys_not_spec() -> bool {
        true
    }

    open spec fn not_req(self) -> bool {
        true
    }

    open spec fn not_spec(self) -> StateMask {
        StateMask::of_bits(ALL_STATE_BITS ^ self@)
    }
}

impl core::ops::Not for State {
    type Output = StateMask;

    /// Every flag that `self` does not hold.
    fn not(self) -> (mask: StateMask)
        ensures
            mask@ == ALL_STATE_BITS ^ self@,
            mask.is_valid(),
    {
        proof {
            self.lemma_bits_in_range();
        }
        StateMask::inverted(self.bits())
    }
}

} // verus!
