//! Capabilities: the exclusive handles that the bring-up passes from step to
//! step, and sets of them.
//!
//! A capability stands for the right to touch one piece of hardware, or for
//! one value derived from it. At any moment it has at most one owner. The
//! bring-up sequence keeps a ledger of those it holds itself; a step may read
//! a capability, use it up, or add one that did not exist before.

use vstd::prelude::*;

verus! {

/// One exclusive handle.
#[derive(Clone, Copy, Debug, PartialEq, Eq, Structural)]
pub enum Capability {
    /// The host debug-output channel, once opened.
    Console,
    /// The core's own register blocks, but for the one split off below.
    CorePeripherals,
    /// The system-tick register of the core.
    SystemTick,
    /// The chip's memory-mapped register blocks, but for those split off
    /// below.
    ChipPeripherals,
    /// The raw reset-and-clock-control block.
    ClockRegisters,
    /// The raw alternate-function block.
    AlternateFunctionRegisters,
    /// The raw flash block.
    FlashRegisters,
    /// The raw block of the port that carries the bus pins.
    PortRegisters,
    /// The raw block of the two-wire bus.
    BusRegisters,
    /// The clock configuration while it can still be changed.
    ClockSetup,
    /// The registers that switch the clock of each bus peripheral on.
    BusClockGate,
    /// The register that maps alternate functions onto pins.
    AlternateFunctionMap,
    /// The flash access-control register, which sets the wait states.
    FlashControl,
    /// The configuration register of the port that carries the bus pins.
    PortConfig,
    /// The bus-clock pin in its reset role, a plain input.
    SclInput,
    /// The bus-data pin in its reset role, a plain input.
    SdaInput,
    /// The bus-clock pin as alternate-function open-drain.
    SclOpenDrain,
    /// The bus-data pin as alternate-function open-drain.
    SdaOpenDrain,
    /// The frozen clock configuration.
    Clocks,
    /// The two-wire bus peripheral with its two pins.
    Bus,
    /// The blocking delay provider built on the system tick.
    TimingSource,
    /// The sensor device: the terminal artifact of the bring-up.
    Sensor,
}

impl Capability {
    /// Position of the capability's bit in a [`CapabilitySet`].
    pub open spec fn ordinal(self) -> u32 {
        match self {
            Capability::Console => 0,
            Capability::CorePeripherals => 1,
            Capability::SystemTick => 2,
            Capability::ChipPeripherals => 3,
            Capability::ClockRegisters => 4,
            Capability::AlternateFunctionRegisters => 5,
            Capability::FlashRegisters => 6,
            Capability::PortRegisters => 7,
            Capability::BusRegisters => 8,
            Capability::ClockSetup => 9,
            Capability::BusClockGate => 10,
            Capability::AlternateFunctionMap => 11,
            Capability::FlashControl => 12,
            Capability::PortConfig => 13,
            Capability::SclInput => 14,
            Capability::SdaInput => 15,
            Capability::SclOpenDrain => 16,
            Capability::SdaOpenDrain => 17,
            Capability::Clocks => 18,
            Capability::Bus => 19,
            Capability::TimingSource => 20,
            Capability::Sensor => 21,
        }
    }

    /// The word with only this capability's bit set.
    pub open spec fn mask(self) -> u32 {
        1u32 << self.ordinal()
    }

    fn bit(self) -> (word: u32)
        ensures
            word == self.mask(),
            word & !0x003f_ffffu32 == 0,
    {
        let position: u32 = match self {
            Capability::Console => 0,
            Capability::CorePeripherals => 1,
            Capability::SystemTick => 2,
            Capability::ChipPeripherals => 3,
            Capability::ClockRegisters => 4,
            Capability::AlternateFunctionRegisters => 5,
            Capability::FlashRegisters => 6,
            Capability::PortRegisters => 7,
            Capability::BusRegisters => 8,
            Capability::ClockSetup => 9,
            Capability::BusClockGate => 10,
            Capability::AlternateFunctionMap => 11,
            Capability::FlashControl => 12,
            Capability::PortConfig => 13,
            Capability::SclInput => 14,
            Capability::SdaInput => 15,
            Capability::SclOpenDrain => 16,
            Capability::SdaOpenDrain => 17,
            Capability::Clocks => 18,
            Capability::Bus => 19,
            Capability::TimingSource => 20,
            Capability::Sensor => 21,
        };
        assert(position < 22 ==> (1u32 << position) & !0x003f_ffffu32 == 0) by (bit_vector);
        1u32 << position
    }
}

/// A set of capabilities, one bit each.
#[derive(Clone, Copy, Debug, PartialEq, Eq, Structural)]
pub struct CapabilitySet {
    bits: u32,
}

impl View for CapabilitySet {
    type V = Set<Capability>;

    closed spec fn view(&self) -> Set<Capability> {
        Set::new(|c: Capability| self.bits & c.mask() != 0)
    }
}

/// The bits of two capabilities overlap only where the two are the same.
proof fn lemma_masks(c: Capability, d: Capability)
    ensures
        (c.mask() & d.mask() != 0) == (c == d),
{
    let i = c.ordinal();
    let j = d.ordinal();
    assert(i < 32 && j < 32 ==> (((1u32 << i) & (1u32 << j) != 0) == (i == j))) by (bit_vector);
}

/// A word that is not zero, and has no bit set but those of capabilities,
/// has the bit of some capability set.
proof fn lemma_some_capability(word: u32) -> (found: Capability)
    requires
        word != 0,
        word & !0x003f_ffffu32 == 0,
    ensures
        word & found.mask() != 0,
{
    assert(word != 0 && word & !0x003f_ffffu32 == 0 ==> (word & (1u32 << 0u32) != 0 || word & (1u32
        << 1u32) != 0 || word & (1u32 << 2u32) != 0 || word & (1u32 << 3u32) != 0 || word & (1u32
        << 4u32) != 0 || word & (1u32 << 5u32) != 0 || word & (1u32 << 6u32) != 0 || word & (1u32
        << 7u32) != 0 || word & (1u32 << 8u32) != 0 || word & (1u32 << 9u32) != 0 || word & (1u32
        << 10u32) != 0 || word & (1u32 << 11u32) != 0 || word & (1u32 << 12u32) != 0 || word & (1u32
        << 13u32) != 0 || word & (1u32 << 14u32) != 0 || word & (1u32 << 15u32) != 0 || word & (1u32
        << 16u32) != 0 || word & (1u32 << 17u32) != 0 || word & (1u32 << 18u32) != 0 || word & (1u32
        << 19u32) != 0 || word & (1u32 << 20u32) != 0 || word & (1u32 << 21u32) != 0))
        by (bit_vector);
    if word & Capability::Console.mask() != 0 {
        Capability::Console
    } else if word & Capability::CorePeripherals.mask() != 0 {
        Capability::CorePeripherals
    } else if word & Capability::SystemTick.mask() != 0 {
        Capability::SystemTick
    } else if word & Capability::ChipPeripherals.mask() != 0 {
        Capability::ChipPeripherals
    } else if word & Capability::ClockRegisters.mask() != 0 {
        Capability::ClockRegisters
    } else if word & Capability::AlternateFunctionRegisters.mask() != 0 {
        Capability::AlternateFunctionRegisters
    } else if word & Capability::FlashRegisters.mask() != 0 {
        Capability::FlashRegisters
    } else if word & Capability::PortRegisters.mask() != 0 {
        Capability::PortRegisters
    } else if word & Capability::BusRegisters.mask() != 0 {
        Capability::BusRegisters
    } else if word & Capability::ClockSetup.mask() != 0 {
        Capability::ClockSetup
    } else if word & Capability::BusClockGate.mask() != 0 {
        Capability::BusClockGate
    } else if word & Capability::AlternateFunctionMap.mask() != 0 {
        Capability::AlternateFunctionMap
    } else if word & Capability::FlashControl.mask() != 0 {
        Capability::FlashControl
    } else if word & Capability::PortConfig.mask() != 0 {
        Capability::PortConfig
    } else if word & Capability::SclInput.mask() != 0 {
        Capability::SclInput
    } else if word & Capability::SdaInput.mask() != 0 {
        Capability::SdaInput
    } else if word & Capability::SclOpenDrain.mask() != 0 {
        Capability::SclOpenDrain
    } else if word & Capability::SdaOpenDrain.mask() != 0 {
        Capability::SdaOpenDrain
    } else if word & Capability::Clocks.mask() != 0 {
        Capability::Clocks
    } else if word & Capability::Bus.mask() != 0 {
        Capability::Bus
    } else if word & Capability::TimingSource.mask() != 0 {
        Capability::TimingSource
    } else {
        Capability::Sensor
    }
}

impl CapabilitySet {
    /// No bit is set but those of capabilities, so that two sets with the
    /// same members are the same word.
    #[verifier::type_invariant]
    spec fn well_formed(self) -> bool {
        self.bits & !0x003f_ffffu32 == 0
    }

    /// The set that holds nothing.
    pub fn empty() -> (set: CapabilitySet)
        ensures
            set@ == Set::<Capability>::empty(),
    {
        assert(0u32 & !0x003f_ffffu32 == 0) by (bit_vector);
        let set = CapabilitySet { bits: 0 };
        proof {
            assert forall|c: Capability| !set@.contains(c) by {
                let m = c.mask();
                assert(0u32 & m == 0) by (bit_vector);
            }
            assert(set@ =~= Set::<Capability>::empty());
        }
        set
    }

    /// This set and `capability`.
    pub fn with(self, capability: Capability) -> (set: CapabilitySet)
        ensures
            set@ == self@.insert(capability),
    {
        let added = capability.bit();
        let ghost had = self.bits;
        proof {
            use_type_invariant(self);
            assert(had & !0x003f_ffffu32 == 0 && added & !0x003f_ffffu32 == 0 ==> (had | added)
                & !0x003f_ffffu32 == 0) by (bit_vector);
        }
        let set = CapabilitySet { bits: self.bits | added };
        proof {
            assert forall|c: Capability| set@.contains(c) == self@.insert(capability).contains(
                c,
            ) by {
                let m = c.mask();
                assert(((had | added) & m != 0) == ((had & m != 0) || (added & m != 0)))
                    by (bit_vector);
                lemma_masks(capability, c);
            }
            assert(set@ =~= self@.insert(capability));
        }
        set
    }

    /// Whether `capability` is in the set.
    pub fn contains(&self, capability: Capability) -> (found: bool)
        ensures
            found == self@.contains(capability),
    {
        self.bits & capability.bit() != 0
    }

    /// Whether all of `other` is in this set.
    pub fn contains_all(&self, other: CapabilitySet) -> (all: bool)
        ensures
            all == other@.subset_of(self@),
    {
        let missing = other.bits & !self.bits;
        proof {
            use_type_invariant(other);
            let a = self.bits;
            let b = other.bits;
            if missing == 0 {
                assert forall|c: Capability| other@.contains(c) implies self@.contains(c) by {
                    let m = c.mask();
                    assert(b & !a == 0 && b & m != 0 ==> a & m != 0) by (bit_vector);
                }
            } else {
                assert(b & !0x003f_ffffu32 == 0 ==> (b & !a) & !0x003f_ffffu32 == 0)
                    by (bit_vector);
                let c = lemma_some_capability(missing);
                let i = c.ordinal();
                assert(i < 32 && (b & !a) & (1u32 << i) != 0 ==> b & (1u32 << i) != 0 && a & (1u32
                    << i) == 0) by (bit_vector);
                assert(other@.contains(c) && !self@.contains(c));
            }
        }
        missing == 0
    }

    /// Whether this set and `other` have nothing in common.
    pub fn is_disjoint(&self, other: CapabilitySet) -> (apart: bool)
        ensures
            apart == self@.disjoint(other@),
    {
        let common = self.bits & other.bits;
        proof {
            use_type_invariant(other);
            let a = self.bits;
            let b = other.bits;
            if common == 0 {
                assert forall|c: Capability| !(self@.contains(c) && other@.contains(c)) by {
                    let i = c.ordinal();
                    assert(i < 32 && a & b == 0 ==> !(a & (1u32 << i) != 0 && b & (1u32 << i)
                        != 0)) by (bit_vector);
                }
            } else {
                assert(b & !0x003f_ffffu32 == 0 ==> (a & b) & !0x003f_ffffu32 == 0)
                    by (bit_vector);
                let c = lemma_some_capability(common);
                let m = c.mask();
                assert((a & b) & m != 0 ==> a & m != 0 && b & m != 0) by (bit_vector);
                assert(self@.contains(c) && other@.contains(c));
            }
        }
        common == 0
    }

    /// What is in this set or in `other`.
    pub fn union(self, other: CapabilitySet) -> (set: CapabilitySet)
        ensures
            set@ == self@.union(other@),
    {
        let ghost a = self.bits;
        let ghost b = other.bits;
        proof {
            use_type_invariant(self);
            use_type_invariant(other);
            assert(a & !0x003f_ffffu32 == 0 && b & !0x003f_ffffu32 == 0 ==> (a | b)
                & !0x003f_ffffu32 == 0) by (bit_vector);
        }
        let set = CapabilitySet { bits: self.bits | other.bits };
        proof {
            assert forall|c: Capability| set@.contains(c) == self@.union(other@).contains(c) by {
                let m = c.mask();
                assert(((a | b) & m != 0) == ((a & m != 0) || (b & m != 0))) by (bit_vector);
            }
            assert(set@ =~= self@.union(other@));
        }
        set
    }

    /// What is in this set and not in `other`.
    pub fn difference(self, other: CapabilitySet) -> (set: CapabilitySet)
        ensures
            set@ == self@.difference(other@),
    {
        let ghost a = self.bits;
        let ghost b = other.bits;
        proof {
            use_type_invariant(self);
            assert(a & !0x003f_ffffu32 == 0 ==> (a & !b) & !0x003f_ffffu32 == 0) by (bit_vector);
        }
        let set = CapabilitySet { bits: self.bits & !other.bits };
        proof {
            assert forall|c: Capability| set@.contains(c) == self@.difference(other@).contains(
                c,
            ) by {
                let i = c.ordinal();
                assert(i < 32 ==> ((((a & !b) & (1u32 << i)) != 0) == ((a & (1u32 << i) != 0) && !(b
                    & (1u32 << i) != 0)))) by (bit_vector);
            }
            assert(set@ =~= self@.difference(other@));
        }
        set
    }
}

} // verus!
