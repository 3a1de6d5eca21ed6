use vstd::prelude::*;

verus! {

/// The named flags of the status register.
#[derive(Clone, Copy, Debug, PartialEq, Eq, Structural)]
pub enum FlagPosition {
    Negative,
    Overflow,
    DecimalMode,
    IrqDisable,
    Zero,
    Carry,
}

impl FlagPosition {
    pub open spec fn spec_index(self) -> u8 {
        match self {
            FlagPosition::Negative => 7,
            FlagPosition::Overflow => 6,
            FlagPosition::DecimalMode => 3,
            FlagPosition::IrqDisable => 2,
            FlagPosition::Zero => 1,
            FlagPosition::Carry => 0,
        }
    }

    /// The bit that holds this flag in the status byte.
    #[verifier::when_used_as_spec(spec_index)]
    pub fn index(self) -> (r: u8)
        ensures
            r == self.spec_index(),
            r < 8,
    {
        match self {
            FlagPosition::Negative => 7,
            FlagPosition::Overflow => 6,
            FlagPosition::DecimalMode => 3,
            FlagPosition::IrqDisable => 2,
            FlagPosition::Zero => 1,
            FlagPosition::Carry => 0,
        }
    }
}

/// Whether bit `i` of `bits` is set.
pub open spec fn bit_of(bits: u8, i: u8) -> bool {
    bits & (1u8 << i) != 0
}

/// Whether `flag` is set in the status byte `bits`.
pub open spec fn flag_set(bits: u8, flag: FlagPosition) -> bool {
    bit_of(bits, flag.index())
}

/// The status byte `bits` with `flag` set or cleared.
pub open spec fn with_flag(bits: u8, flag: FlagPosition, set: bool) -> u8 {
    if set {
        bits | (1u8 << flag.index())
    } else {
        bits & !(1u8 << flag.index())
    }
}

/// The processor status register: one byte, one bit per flag.
pub struct FlagsRegister(pub u8);

impl FlagsRegister {
    pub fn new(bits: u8) -> (r: FlagsRegister)
        ensures
            r.0 == bits,
    {
        FlagsRegister(bits)
    }

    pub open spec fn spec_from_byte(bits: u8) -> FlagsRegister {
        FlagsRegister(bits)
    }

    /// The register holding exactly the byte `bits`.
    #[verifier::when_used_as_spec(spec_from_byte)]
    pub fn from_byte(bits: u8) -> (r: FlagsRegister)
        ensures
            r == Self::spec_from_byte(bits),
    {
        FlagsRegister(bits)
    }

    pub open spec fn spec_to_byte(&self) -> u8 {
        self.0
    }

    /// The whole status byte.
    #[verifier::when_used_as_spec(spec_to_byte)]
    pub fn to_byte(&self) -> (r: u8)
        ensures
            r == self.spec_to_byte(),
    {
        self.0
    }

    pub fn write_flag(&mut self, flag: FlagPosition, set: bool)
        ensures
            final(self).0 == with_flag(old(self).0, flag, set),
    {
        let shift = flag.index();
        if set {
            self.0 = self.0 | (1u8 << shift);
        } else {
            self.0 = self.0 & !(1u8 << shift);
        }
    }

    pub fn read_flag(&self, flag: FlagPosition) -> (r: bool)
        ensures
            r == flag_set(self.0, flag),
    {
        let shift = flag.index();
        self.0 & (1u8 << shift) != 0
    }
}

impl Default for FlagsRegister {
    fn default() -> (r: Self)
        ensures
            r.0 == 0,
    {
        FlagsRegister(0)
    }
}

impl From<&FlagsRegister> for u8 {
    fn from(flags: &FlagsRegister) -> (r: u8) {
        flags.0
    }
}

impl vstd::std_specs::convert::FromSpecImpl<&FlagsRegister> for u8 {
    open spec fn obeys_from_spec() -> bool {
        true
    }

    open spec fn from_spec(flags: &FlagsRegister) -> u8 {
        flags.0
    }
}

/// Writing a bit changes that bit to the value written and leaves every other bit as it was.
pub broadcast proof fn lemma_bit_after_write(bits: u8, flag: FlagPosition, set: bool, i: u8)
    requires
        i < 8,
    ensures
        #[trigger] bit_of(with_flag(bits, flag, set), i) == if i == flag.index() {
            set
        } else {
            bit_of(bits, i)
        },
{
    let j = flag.index();
    assert(bit_of(if set { bits | (1u8 << j) } else { bits & !(1u8 << j) }, i) == if i == j {
        set
    } else {
        bit_of(bits, i)
    }) by (bit_vector)
        requires
            i < 8,
            j < 8,
    ;
}

/// A flag reads back as written; the other flags read as before.
pub proof fn lemma_read_after_write(bits: u8, flag: FlagPosition, set: bool, other: FlagPosition)
    ensures
        flag_set(with_flag(bits, flag, set), other) == if other == flag {
            set
        } else {
            flag_set(bits, other)
        },
{
    lemma_bit_after_write(bits, flag, set, other.index());
}

/// A status byte taken into the register and read out again is the same byte.
pub proof fn lemma_byte_round_trip(bits: u8)
    ensures
        FlagsRegister::from_byte(bits).to_byte() == bits,
{
}

} // verus!
