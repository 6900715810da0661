use vstd::prelude::*;

verus! {

/// The bits of every named modifier together.
pub const ALL_BITS: i32 = 0x3f;

/// A named modifier and its bit in the native mask.
#[derive(Debug, Copy, Clone, PartialEq, Eq, Structural)]
pub enum Modifier {
    Shift,
    Control,
    Alt,
    Super,
    CapsLock,
    NumLock,
}

pub open spec fn modifier_bit(f: Modifier) -> i32 {
    match f {
        Modifier::Shift => 0x01,
        Modifier::Control => 0x02,
        Modifier::Alt => 0x04,
        Modifier::Super => 0x08,
        Modifier::CapsLock => 0x10,
        Modifier::NumLock => 0x20,
    }
}

impl Modifier {
    pub fn bit(self) -> (r: i32)
        ensures
            r == modifier_bit(self),
    {
        match self {
            Modifier::Shift => 0x01,
            Modifier::Control => 0x02,
            Modifier::Alt => 0x04,
            Modifier::Super => 0x08,
            Modifier::CapsLock => 0x10,
            Modifier::NumLock => 0x20,
        }
    }
}

/// A set of modifiers held as a native bit mask. Every constructor but a
/// literal keeps to the bits of `ALL_BITS`.
#[derive(Debug, Copy, Clone, PartialEq, Eq, Structural)]
pub struct Modifiers {
    pub bits: i32,
}

impl View for Modifiers {
    type V = i32;

    open spec fn view(&self) -> i32 {
        self.bits
    }
}

/// The set that a native modifier mask gives.
pub open spec fn mods_of(mask: i32) -> Modifiers {
    Modifiers { bits: mask & ALL_BITS }
}

/// Whether `bits` holds no bit outside the named modifiers.
pub open spec fn known_bits(bits: i32) -> bool {
    bits & !ALL_BITS == 0
}

/// Whether the mask `bits` holds the bit of `f`.
pub open spec fn has_flag(bits: i32, f: Modifier) -> bool {
    bits & modifier_bit(f) != 0
}

impl Modifiers {
    pub fn empty() -> (r: Modifiers)
        ensures
            r@ == 0,
    {
        Modifiers { bits: 0 }
    }

    pub fn all() -> (r: Modifiers)
        ensures
            r@ == ALL_BITS,
    {
        Modifiers { bits: ALL_BITS }
    }

    /// The set holding `f` alone.
    pub fn only(f: Modifier) -> (r: Modifiers)
        ensures
            r@ == modifier_bit(f),
    {
        Modifiers { bits: f.bit() }
    }

    pub fn bits(&self) -> (r: i32)
        ensures
            r == self@,
    {
        self.bits
    }

    /// The set whose mask is `bits`, or `None` where `bits` holds a bit that
    /// names no modifier.
    pub fn from_bits(bits: i32) -> (r: Option<Modifiers>)
        ensures
            r is Some <==> known_bits(bits),
            r matches Some(m) ==> m@ == bits,
    {
        if bits & !ALL_BITS == 0 {
            Some(Modifiers { bits })
        } else {
            None
        }
    }

    /// The set of the named modifiers whose bits are in `bits`; other bits
    /// are dropped.
    pub fn from_bits_truncate(bits: i32) -> (r: Modifiers)
        ensures
            r@ == bits & ALL_BITS,
    {
        Modifiers { bits: bits & ALL_BITS }
    }

    /// The set built from a native modifier mask by copying its bits. A
    /// window system reports only named modifiers; any other bit is dropped.
    pub fn from_native(mask: i32) -> (r: Modifiers)
        ensures
            r == mods_of(mask),
            known_bits(mask) ==> r@ == mask,
    {
        proof {
            assert(mask & !0x3fi32 == 0 ==> mask & 0x3fi32 == mask) by (bit_vector);
        }
        Self::from_bits_truncate(mask)
    }

    pub fn is_empty(&self) -> (r: bool)
        ensures
            r == (self@ == 0),
    {
        self.bits == 0
    }

    pub fn is_all(&self) -> (r: bool)
        ensures
            r == (self@ == ALL_BITS),
    {
        self.bits == ALL_BITS
    }

    /// Whether every modifier of `other` is in `self`.
    pub fn contains(&self, other: Modifiers) -> (r: bool)
        ensures
            r == (self@ & other@ == other@),
    {
        self.bits & other.bits == other.bits
    }

    /// Whether the modifier `f` is in `self`.
    pub fn has(&self, f: Modifier) -> (r: bool)
        ensures
            r == has_flag(self@, f),
    {
        self.bits & f.bit() != 0
    }

    pub fn intersects(&self, other: Modifiers) -> (r: bool)
        ensures
            r == (self@ & other@ != 0),
    {
        self.bits & other.bits != 0
    }

    pub fn union(self, other: Modifiers) -> (r: Modifiers)
        ensures
            r@ == self@ | other@,
    {
        Modifiers { bits: self.bits | other.bits }
    }

    pub fn intersection(self, other: Modifiers) -> (r: Modifiers)
        ensures
            r@ == self@ & other@,
    {
        Modifiers { bits: self.bits & other.bits }
    }

    pub fn difference(self, other: Modifiers) -> (r: Modifiers)
        ensures
            r@ == self@ & !other@,
    {
        Modifiers { bits: self.bits & !other.bits }
    }

    /// Reads the set back as the list of its named modifiers, in declaration
    /// order.
    pub fn flags(&self) -> (r: Vec<Modifier>)
        ensures
            forall|f: Modifier| r@.contains(f) <==> has_flag(self@, f),
            r@.no_duplicates(),
    {
        let mut r: Vec<Modifier> = Vec::new();
        let all = [
            Modifier::Shift,
            Modifier::Control,
            Modifier::Alt,
            Modifier::Super,
            Modifier::CapsLock,
            Modifier::NumLock,
        ];
        let mut i: usize = 0;
        while i < 6
            invariant
                0 <= i <= 6,
                all@ == seq![
                    Modifier::Shift,
                    Modifier::Control,
                    Modifier::Alt,
                    Modifier::Super,
                    Modifier::CapsLock,
                    Modifier::NumLock,
                ],
                forall|f: Modifier|
                    r@.contains(f) <==> (has_flag(self@, f) && exists|j: int|
                        0 <= j < i && all@[j] == f),
                r@.no_duplicates(),
            decreases 6 - i,
        {
            let f = all[i];
            let ghost before = r@;
            if self.has(f) {
                proof {
                    assert(!r@.contains(f));
                }
                r.push(f);
            }
            proof {
                assert forall|g: Modifier|
                    r@.contains(g) <==> (has_flag(self@, g) && exists|j: int|
                        0 <= j < i + 1 && all@[j] == g) by {
                    if r@.contains(g) && g != f {
                        let k = choose|k: int| 0 <= k < r@.len() && r@[k] == g;
                        if k < before.len() {
                            assert(before[k] == g);
                        }
                        assert(before.contains(g));
                    }
                    if has_flag(self@, g) && g == f {
                        assert(r@[r@.len() - 1] == g);
                    }
                    if before.contains(g) {
                        let k = choose|k: int| 0 <= k < before.len() && before[k] == g;
                        assert(r@[k] == g);
                    }
                }
            }
            i = i + 1;
        }
        proof {
            assert forall|f: Modifier| has_flag(self@, f) implies r@.contains(f) by {
                let j: int = match f {
                    Modifier::Shift => 0,
                    Modifier::Control => 1,
                    Modifier::Alt => 2,
                    Modifier::Super => 3,
                    Modifier::CapsLock => 4,
                    Modifier::NumLock => 5,
                };
                assert(all@[j] == f);
            }
        }
        r
    }

    pub fn insert(&mut self, other: Modifiers)
        ensures
            final(self)@ == old(self)@ | other@,
    {
        self.bits = self.bits | other.bits;
    }

    pub fn remove(&mut self, other: Modifiers)
        ensures
            final(self)@ == old(self)@ & !other@,
    {
        self.bits = self.bits & !other.bits;
    }
}

/// Round trip of a native mask: the set built from a mask that names only
/// modifiers has exactly that mask, and holds exactly the modifiers whose bits
/// the mask sets.
pub proof fn lemma_native_mask_round_trip(mask: i32)
    requires
        known_bits(mask),
    ensures
        mods_of(mask)@ == mask,
        forall|f: Modifier| has_flag(mods_of(mask)@, f) == has_flag(mask, f),
{
    assert(mask & !0x3fi32 == 0 ==> mask & 0x3fi32 == mask) by (bit_vector);
}

} // verus!
