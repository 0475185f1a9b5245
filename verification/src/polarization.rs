//! Polarization-format bitmask of a spectrometer frame.
//!
//! The header stores one byte describing which polarization products
//! the payload carries.  Only the 14 values below are defined; the
//! number of set bits equals the number of products and therefore
//! fixes the payload size.

use vstd::prelude::*;

verus! {

/// The defined values of the polarization-format byte.
///
/// The low nibble carries the linear products, the high nibble the
/// Stokes products; the composite variants combine adjacent bits.
#[derive(Debug, Clone, Copy, PartialEq, Eq, Structural)]
pub enum PolarizationType {
    LinearXX,
    LinearXYReRe,
    LinearXYIm,
    LinearYY,
    LinearRealHalf,
    LinearOtherHalf,
    LinearFull,
    StokesI,
    StokesQ,
    StokesU,
    StokesV,
    StokesRealHalf,
    StokesOtherHalf,
    StokesFull,
}

/// Number of set bits of a byte.
pub open spec fn popcount(v: u8) -> int {
    (v & 1) + ((v >> 1) & 1) + ((v >> 2) & 1) + ((v >> 3) & 1) + ((v >> 4) & 1) + ((v >> 5) & 1) + (
    (v >> 6) & 1) + ((v >> 7) & 1)
}

impl PolarizationType {
    /// The bitmask value this variant stands for.
    pub open spec fn spec_as_u8(self) -> u8 {
        match self {
            Self::LinearXX => 0x01,
            Self::LinearXYReRe => 0x02,
            Self::LinearXYIm => 0x04,
            Self::LinearYY => 0x08,
            Self::LinearRealHalf => 0x09,
            Self::LinearOtherHalf => 0x0a,
            Self::LinearFull => 0x0f,
            Self::StokesI => 0x10,
            Self::StokesQ => 0x20,
            Self::StokesU => 0x40,
            Self::StokesV => 0x80,
            Self::StokesRealHalf => 0x90,
            Self::StokesOtherHalf => 0xa0,
            Self::StokesFull => 0xf0,
        }
    }

    /// True of the bytes that decode to a defined format.
    pub open spec fn defined(val: u8) -> bool {
        exists|p: PolarizationType| p.spec_as_u8() == val
    }

    pub fn as_u8(self) -> (r: u8)
        ensures
            r == self.spec_as_u8(),
    {
        match self {
            Self::LinearXX => 0x01,
            Self::LinearXYReRe => 0x02,
            Self::LinearXYIm => 0x04,
            Self::LinearYY => 0x08,
            Self::LinearRealHalf => 0x09,
            Self::LinearOtherHalf => 0x0a,
            Self::LinearFull => 0x0f,
            Self::StokesI => 0x10,
            Self::StokesQ => 0x20,
            Self::StokesU => 0x40,
            Self::StokesV => 0x80,
            Self::StokesRealHalf => 0x90,
            Self::StokesOtherHalf => 0xa0,
            Self::StokesFull => 0xf0,
        }
    }

    /// Decode the format byte; every byte outside the defined set is
    /// rejected with `None`.
    pub fn from_u8(val: u8) -> (r: Option<Self>)
        ensures
            match r {
                Some(p) => p.spec_as_u8() == val,
                None => !Self::defined(val),
            },
    {
        match val {
            0x01 => Some(Self::LinearXX),
            0x02 => Some(Self::LinearXYReRe),
            0x04 => Some(Self::LinearXYIm),
            0x08 => Some(Self::LinearYY),
            0x09 => Some(Self::LinearRealHalf),
            0x0a => Some(Self::LinearOtherHalf),
            0x0f => Some(Self::LinearFull),
            0x10 => Some(Self::StokesI),
            0x20 => Some(Self::StokesQ),
            0x40 => Some(Self::StokesU),
            0x80 => Some(Self::StokesV),
            0x90 => Some(Self::StokesRealHalf),
            0xa0 => Some(Self::StokesOtherHalf),
            0xf0 => Some(Self::StokesFull),
            _ => {
                proof {
                    assert forall|p: PolarizationType| p.spec_as_u8() != val by {}
                }
                None
            },
        }
    }

    /// Number of polarization products in the payload: the population
    /// count of the format byte.
    pub fn pol_count(self) -> (c: u8)
        ensures
            c == popcount(self.spec_as_u8()),
            1 <= c <= 4,
    {
        let mut v = self.as_u8();
        let mut c: u8 = 0;
        proof {
            let x = v;
            assert(x == 0x01 || x == 0x02 || x == 0x04 || x == 0x08 || x == 0x09 || x == 0x0a || x
                == 0x0f || x == 0x10 || x == 0x20 || x == 0x40 || x == 0x80 || x == 0x90 || x
                == 0xa0 || x == 0xf0 ==> 1 <= popcount(x) <= 4) by (bit_vector);
        }
        while v != 0
            invariant
                c + popcount(v) == popcount(self.spec_as_u8()),
                popcount(v) >= 0,
                1 <= popcount(self.spec_as_u8()) <= 4,
            decreases v,
        {
            proof {
                let x = v;
                assert(x != 0 ==> (x & (x - 1) as u8) < x && popcount((x & (x - 1) as u8)) == popcount(
                    x) - 1 && popcount((x & (x - 1) as u8)) >= 0) by (bit_vector);
            }
            v = v & (v - 1);
            c = c + 1;
        }
        proof {
            assert(popcount(0u8) == 0) by (bit_vector);
        }
        c
    }

    /// Ordered display labels of the products this format carries, one
    /// per payload product.
    pub fn desription(&self) -> (r: Vec<String>)
        ensures
            r@.len() == popcount(self.spec_as_u8()),
            r.deep_view() == self.spec_labels(),
    {
        proof {
            let x = self.spec_as_u8();
            assert(x == 0x01 || x == 0x02 || x == 0x04 || x == 0x08 || x == 0x09 || x == 0x0a || x
                == 0x0f || x == 0x10 || x == 0x20 || x == 0x40 || x == 0x80 || x == 0x90 || x
                == 0xa0 || x == 0xf0 ==> (popcount(x) == 1 || popcount(x) == 2 || popcount(x) == 4))
                by (bit_vector);
            assert((popcount(0x01u8) == 1 && popcount(0x02u8) == 1 && popcount(0x04u8) == 1
                && popcount(0x08u8) == 1 && popcount(0x09u8) == 2 && popcount(0x0au8) == 2
                && popcount(0x0fu8) == 4 && popcount(0x10u8) == 1 && popcount(0x20u8) == 1
                && popcount(0x40u8) == 1 && popcount(0x80u8) == 1 && popcount(0x90u8) == 2
                && popcount(0xa0u8) == 2 && popcount(0xf0u8) == 4)) by (bit_vector);
        }
        let r: Vec<String> = match self {
            Self::LinearXX => vec![String::from_str("XX")],
            Self::LinearXYReRe => vec![String::from_str("Re(XY)")],
            Self::LinearXYIm => vec![String::from_str("Im(XY)")],
            Self::LinearYY => vec![String::from_str("YY")],
            Self::LinearRealHalf => vec![String::from_str("XX"), String::from_str("YY")],
            Self::LinearOtherHalf => vec![
                String::from_str("Re(XY)"),
                String::from_str("Im(XY)"),
            ],
            Self::LinearFull => vec![
                String::from_str("XX"),
                String::from_str("Re(XY)"),
                String::from_str("Im(XY)"),
                String::from_str("YY"),
            ],
            Self::StokesI => vec![String::from_str("I")],
            Self::StokesQ => vec![String::from_str("Q")],
            Self::StokesU => vec![String::from_str("U")],
            Self::StokesV => vec![String::from_str("V")],
            Self::StokesRealHalf => vec![String::from_str("I"), String::from_str("V")],
            Self::StokesOtherHalf => vec![String::from_str("Q"), String::from_str("U")],
            Self::StokesFull => vec![
                String::from_str("I"),
                String::from_str("Q"),
                String::from_str("U"),
                String::from_str("V"),
            ],
        };
        r
    }

    /// The label sequence of `desription`, as mathematical values.
    pub open spec fn spec_labels(self) -> Seq<Seq<char>> {
        match self {
            Self::LinearXX => seq!["XX"@],
            Self::LinearXYReRe => seq!["Re(XY)"@],
            Self::LinearXYIm => seq!["Im(XY)"@],
            Self::LinearYY => seq!["YY"@],
            Self::LinearRealHalf => seq!["XX"@, "YY"@],
            Self::LinearOtherHalf => seq!["Re(XY)"@, "Im(XY)"@],
            Self::LinearFull => seq!["XX"@, "Re(XY)"@, "Im(XY)"@, "YY"@],
            Self::StokesI => seq!["I"@],
            Self::StokesQ => seq!["Q"@],
            Self::StokesU => seq!["U"@],
            Self::StokesV => seq!["V"@],
            Self::StokesRealHalf => seq!["I"@, "V"@],
            Self::StokesOtherHalf => seq!["Q"@, "U"@],
            Self::StokesFull => seq!["I"@, "Q"@, "U"@, "V"@],
        }
    }
}

} // verus!
