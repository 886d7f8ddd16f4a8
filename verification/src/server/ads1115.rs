//! Probes read through an ADS1115 converter.
use vstd::prelude::*;
use vstd::arithmetic::power2::pow2;
use crate::server::expr::ParseableExpr;

verus! {

/// Gain of the converter, by its full-scale range.
#[derive(Debug, Clone, Copy, PartialEq, Eq, Structural)]
pub enum ADS1115Gain {
    /// The measurable range is ±6.144V.
    TwoThirds,
    /// The measurable range is ±4.096V.
    One,
    /// The measurable range is ±2.048V (the default).
    Two,
    /// The measurable range is ±1.024V.
    Four,
    /// The measurable range is ±0.512V.
    Eight,
    /// The measurable range is ±0.256V.
    Sixteen,
}

/// What the converter measures.
#[derive(Debug, Clone, Copy, PartialEq, Eq, Structural)]
pub enum Channel {
    /// Single-ended signal on input 0.
    SingleA0,
    /// Single-ended signal on input 1.
    SingleA1,
    /// Single-ended signal on input 2.
    SingleA2,
    /// Single-ended signal on input 3.
    SingleA3,
    /// Input 0 against input 1.
    DifferentialA0A1,
    /// Input 0 against input 3.
    DifferentialA0A3,
    /// Input 1 against input 3.
    DifferentialA1A3,
    /// Input 2 against input 3.
    DifferentialA2A3,
}

impl Default for ADS1115Gain {
    fn default() -> (g: ADS1115Gain)
        ensures
            g == ADS1115Gain::Two,
    {
        ADS1115Gain::Two
    }
}

impl Default for Channel {
    fn default() -> (c: Channel)
        ensures
            c == Channel::SingleA0,
    {
        Channel::SingleA0
    }
}

impl Channel {
    /// Whether the channel measures a difference of two inputs.
    pub open spec fn is_differential(&self) -> bool {
        match self {
            Channel::SingleA0 | Channel::SingleA1 | Channel::SingleA2 | Channel::SingleA3 => false,
            _ => true,
        }
    }

    /// Bits of the reading: 15 for a single-ended signal, 16 for a
    /// difference.
    pub fn to_bits(&self) -> (b: u8)
        ensures
            b == (if self.is_differential() {
                16u8
            } else {
                15u8
            }),
    {
        match self {
            Channel::SingleA0 => 15,
            Channel::SingleA1 => 15,
            Channel::SingleA2 => 15,
            Channel::SingleA3 => 15,
            Channel::DifferentialA0A1 => 16,
            Channel::DifferentialA0A3 => 16,
            Channel::DifferentialA1A3 => 16,
            Channel::DifferentialA2A3 => 16,
        }
    }

    /// Steps of the reading: 2 to the power of its bits.
    pub fn to_resolution(&self) -> (r: u32)
        ensures
            r == pow2(self.to_bits_spec() as nat),
            r == (if self.is_differential() {
                65536u32
            } else {
                32768u32
            }),
    {
        let shift: u32 = (self.to_bits() - 1) as u32;
        proof {
            vstd::arithmetic::power2::lemma2_to64();
            assert((2u32 << 14u32) == 32768u32) by (bit_vector);
            assert((2u32 << 15u32) == 65536u32) by (bit_vector);
        }
        (2 as u32) << shift
    }

    /// Bits of the reading.
    pub open spec fn to_bits_spec(&self) -> u8 {
        if self.is_differential() {
            16u8
        } else {
            15u8
        }
    }
}

/// A probe read through the converter.
#[derive(Debug, Clone)]
pub struct SensorDef {
    /// The gain; the default, 2, gives a range of ±2.048V.
    pub gain: ADS1115Gain,
    /// The channel read.
    pub channel: Channel,
    pub bus: Option<u8>,
    pub address: Option<u16>,
    /// Conversion of the voltage to a temperature.
    pub v2temp: Option<ParseableExpr>,
}

} // verus!
