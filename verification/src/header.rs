//! The fixed 76-byte spectrometer frame header.
//!
//! Every multi-byte field is little-endian.  A header is bracketed by
//! two fixed sync markers; decoding fails if either is wrong.  The raw
//! time tag counts instrument clock ticks; callers derive the monotonic
//! timestamp from `time_tag - time_offset` without ever leaving
//! integers.

use vstd::prelude::*;

use crate::bytes::{
    le16, le32, le64, lemma_le16_at, lemma_le16_bytes_unique, lemma_le32_at,
    lemma_le32_bytes_unique, lemma_le64_at, lemma_le64_halves_unique, push_le16, push_le32,
    push_le64, read_le16, read_le32, read_le64,
};
use crate::error::{DecodeError, MarkerPosition};
use crate::polarization::{popcount, PolarizationType};

verus! {

/// Fixed constant opening every frame header.
pub const SYNC_HEADER: u32 = 0xC0DE_C0DE;

/// Fixed constant closing every frame header.
pub const SYNC_FOOTER: u32 = 0xED0C_ED0C;

/// Byte length of the fixed header record.
pub const HEADER_LEN: usize = 76;

/// Decoded header of one spectrometer frame.
///
/// Fields hold the raw integer words of the record; unit conversions
/// (tuning word to Hz, tick count to seconds) are left to the caller so
/// that the decoded record stays byte-exact.
#[derive(Debug, Clone, PartialEq)]
pub struct DRHeader {
    /// Raw time tag of the first frame of the block, in clock ticks.
    pub time_tag: u64,
    /// Time offset reported by the data path, in clock ticks.
    pub time_offset: u16,
    /// Decimation factor; the sample rate is the clock speed divided by it.
    pub decimation_factor: u16,
    /// Raw tuning words; frequency is `word * clock_speed / 2^32` Hz.
    pub tuning_words: [u32; 2],
    /// Fill count for each pol/tuning combination (X0, Y0, X1, Y1).
    pub fills: [u32; 4],
    /// Error flag for each pol/tuning combination.
    pub errors: [u8; 4],
    /// Beam number.
    pub beam: u8,
    /// Output polarization format of the payload.
    pub stokes_format: PolarizationType,
    /// Version of the spectrometer data file.
    pub specrometer_version: u8,
    /// Flag bit-field.
    pub flags: u8,
    /// Transform length: number of frequency bins per tuning.
    pub n_freqs: u32,
    /// Integration count.
    pub n_ints: u32,
    /// Saturation count for each pol/tuning combination.
    pub saturation_count: [u32; 4],
}

/// One per-product saturation fraction `num / den`.
#[derive(Debug, Clone, Copy, PartialEq, Eq, Structural)]
pub struct SatFraction {
    pub num: u64,
    pub den: u64,
}

/// The larger of two counts, as a mathematical integer.
pub open spec fn spec_max_u32(a: u32, b: u32) -> int {
    if a >= b {
        a as int
    } else {
        b as int
    }
}

/// True when `h` holds exactly the fields encoded in `s` at `off`.
pub open spec fn header_matches(h: DRHeader, s: Seq<u8>, off: int) -> bool {
    &&& h.time_tag == le64(s, off + 4)
    &&& h.time_offset == le16(s, off + 12)
    &&& h.decimation_factor == le16(s, off + 14)
    &&& h.tuning_words@.len() == 2
    &&& h.tuning_words@[0] == le32(s, off + 16)
    &&& h.tuning_words@[1] == le32(s, off + 20)
    &&& h.fills@.len() == 4
    &&& forall|i: int| 0 <= i < 4 ==> h.fills@[i] == le32(s, off + 24 + 4 * i)
    &&& h.errors@.len() == 4
    &&& forall|i: int| 0 <= i < 4 ==> h.errors@[i] == s[off + 40 + i]
    &&& h.beam == s[off + 44]
    &&& h.stokes_format.spec_as_u8() == s[off + 45]
    &&& h.specrometer_version == s[off + 46]
    &&& h.flags == s[off + 47]
    &&& h.n_freqs == le32(s, off + 48)
    &&& h.n_ints == le32(s, off + 52)
    &&& h.saturation_count@.len() == 4
    &&& forall|i: int| 0 <= i < 4 ==> h.saturation_count@[i] == le32(s, off + 56 + 4 * i)
}

/// Outcome of decoding a header at `off`, without the field values:
/// which error is returned, or that decoding succeeds.  The order of
/// the checks follows the order the fields sit in the record.
pub open spec fn spec_header_check(s: Seq<u8>, off: int) -> Result<(), DecodeError> {
    if s.len() < off + 4 {
        Err(DecodeError::TruncatedInput)
    } else if le32(s, off) != SYNC_HEADER {
        Err(
            DecodeError::BadSyncMarker {
                expected: SYNC_HEADER,
                actual: le32(s, off) as u32,
                position: MarkerPosition::Leading,
            },
        )
    } else if s.len() < off + 76 {
        Err(DecodeError::TruncatedInput)
    } else if !PolarizationType::defined(s[off + 45]) {
        Err(DecodeError::UnknownPolarization(s[off + 45]))
    } else if le32(s, off + 72) != SYNC_FOOTER {
        Err(
            DecodeError::BadSyncMarker {
                expected: SYNC_FOOTER,
                actual: le32(s, off + 72) as u32,
                position: MarkerPosition::Trailing,
            },
        )
    } else {
        Ok(())
    }
}

impl DRHeader {
    /// Decode the 76-byte header at byte offset `off` of `buf`.
    ///
    /// Succeeds exactly on the inputs `spec_header_check` accepts, and
    /// then returns the record whose fields `header_matches` pins.
    pub fn from_bytes_at(buf: &[u8], off: usize) -> (r: Result<DRHeader, DecodeError>)
        ensures
            match r {
                Ok(h) => spec_header_check(buf@, off as int) == Ok::<(), DecodeError>(())
                    && header_matches(h, buf@, off as int),
                Err(e) => spec_header_check(buf@, off as int) == Err::<(), DecodeError>(e),
            },
    {
        let n = buf.len();
        if n < 4 || off > n - 4 {
            return Err(DecodeError::TruncatedInput);
        }
        let leading = read_le32(buf, off);
        if leading != SYNC_HEADER {
            return Err(
                DecodeError::BadSyncMarker {
                    expected: SYNC_HEADER,
                    actual: leading,
                    position: MarkerPosition::Leading,
                },
            );
        }
        if n < 76 || off > n - 76 {
            return Err(DecodeError::TruncatedInput);
        }
        let pol_byte = buf[off + 45];
        let stokes_format = match PolarizationType::from_u8(pol_byte) {
            Some(p) => p,
            None => {
                return Err(DecodeError::UnknownPolarization(pol_byte));
            },
        };
        let trailing = read_le32(buf, off + 72);
        if trailing != SYNC_FOOTER {
            return Err(
                DecodeError::BadSyncMarker {
                    expected: SYNC_FOOTER,
                    actual: trailing,
                    position: MarkerPosition::Trailing,
                },
            );
        }
        let h = DRHeader {
            time_tag: read_le64(buf, off + 4),
            time_offset: read_le16(buf, off + 12),
            decimation_factor: read_le16(buf, off + 14),
            tuning_words: [read_le32(buf, off + 16), read_le32(buf, off + 20)],
            fills: [
                read_le32(buf, off + 24),
                read_le32(buf, off + 28),
                read_le32(buf, off + 32),
                read_le32(buf, off + 36),
            ],
            errors: [buf[off + 40], buf[off + 41], buf[off + 42], buf[off + 43]],
            beam: buf[off + 44],
            stokes_format,
            specrometer_version: buf[off + 46],
            flags: buf[off + 47],
            n_freqs: read_le32(buf, off + 48),
            n_ints: read_le32(buf, off + 52),
            saturation_count: [
                read_le32(buf, off + 56),
                read_le32(buf, off + 60),
                read_le32(buf, off + 64),
                read_le32(buf, off + 68),
            ],
        };
        Ok(h)
    }

    /// Decode the header at the start of `buf`.
    pub fn from_bytes(buf: &[u8]) -> (r: Result<DRHeader, DecodeError>)
        ensures
            match r {
                Ok(h) => spec_header_check(buf@, 0) == Ok::<(), DecodeError>(()) && header_matches(
                    h,
                    buf@,
                    0,
                ),
                Err(e) => spec_header_check(buf@, 0) == Err::<(), DecodeError>(e),
            },
    {
        Self::from_bytes_at(buf, 0)
    }

    /// Encode the header as its exact 76-byte record.
    ///
    /// The result decodes back to `self`: together with the ensures of
    /// `from_bytes`, every field round-trips exactly.
    pub fn to_bytes(&self) -> (r: Vec<u8>)
        ensures
            r@.len() == 76,
            spec_header_check(r@, 0) == Ok::<(), DecodeError>(()),
            header_matches(*self, r@, 0),
    {
        let mut v: Vec<u8> = Vec::with_capacity(76);
        push_le32(&mut v, SYNC_HEADER);
        push_le64(&mut v, self.time_tag);
        push_le16(&mut v, self.time_offset);
        push_le16(&mut v, self.decimation_factor);
        push_le32(&mut v, self.tuning_words[0]);
        push_le32(&mut v, self.tuning_words[1]);
        push_le32(&mut v, self.fills[0]);
        push_le32(&mut v, self.fills[1]);
        push_le32(&mut v, self.fills[2]);
        push_le32(&mut v, self.fills[3]);
        v.push(self.errors[0]);
        v.push(self.errors[1]);
        v.push(self.errors[2]);
        v.push(self.errors[3]);
        v.push(self.beam);
        v.push(self.stokes_format.as_u8());
        v.push(self.specrometer_version);
        v.push(self.flags);
        push_le32(&mut v, self.n_freqs);
        push_le32(&mut v, self.n_ints);
        push_le32(&mut v, self.saturation_count[0]);
        push_le32(&mut v, self.saturation_count[1]);
        push_le32(&mut v, self.saturation_count[2]);
        push_le32(&mut v, self.saturation_count[3]);
        push_le32(&mut v, SYNC_FOOTER);
        proof {
            let s = v@;
            assert(s.len() == 76);
            lemma_le32_at(s, 0, SYNC_HEADER);
            lemma_le64_at(s, 4, self.time_tag);
            lemma_le16_at(s, 12, self.time_offset);
            lemma_le16_at(s, 14, self.decimation_factor);
            lemma_le32_at(s, 16, self.tuning_words@[0]);
            lemma_le32_at(s, 20, self.tuning_words@[1]);
            lemma_le32_at(s, 24, self.fills@[0]);
            lemma_le32_at(s, 28, self.fills@[1]);
            lemma_le32_at(s, 32, self.fills@[2]);
            lemma_le32_at(s, 36, self.fills@[3]);
            lemma_le32_at(s, 48, self.n_freqs);
            lemma_le32_at(s, 52, self.n_ints);
            lemma_le32_at(s, 56, self.saturation_count@[0]);
            lemma_le32_at(s, 60, self.saturation_count@[1]);
            lemma_le32_at(s, 64, self.saturation_count@[2]);
            lemma_le32_at(s, 68, self.saturation_count@[3]);
            lemma_le32_at(s, 72, SYNC_FOOTER);
            assert forall|i: int| 0 <= i < 4 implies self.fills@[i] == le32(s, 24 + 4 * i) by {
                if i == 0 {
                } else if i == 1 {
                } else if i == 2 {
                } else {
                }
            }
            assert forall|i: int| 0 <= i < 4 implies self.saturation_count@[i] == le32(
                s,
                56 + 4 * i,
            ) by {
                if i == 0 {
                } else if i == 1 {
                } else if i == 2 {
                } else {
                }
            }
        }
        v
    }

    /// Clock ticks of the derived monotonic timestamp:
    /// `time_tag - time_offset`, or `None` where the offset exceeds the
    /// tag and the difference is not defined.
    pub fn timestamp_ticks(&self) -> (r: Option<u64>)
        ensures
            match r {
                Some(t) => self.time_tag >= self.time_offset && t == self.time_tag
                    - self.time_offset,
                None => self.time_tag < self.time_offset,
            },
    {
        if self.time_tag >= self.time_offset as u64 {
            Some(self.time_tag - self.time_offset as u64)
        } else {
            None
        }
    }

    /// Denominator of every saturation fraction: the number of samples
    /// `n_ints * n_freqs` that each saturation count is measured against.
    pub open spec fn spec_sat_den(self) -> int {
        self.n_ints * self.n_freqs
    }

    /// Numerators of the per-product saturation fractions, one entry per
    /// (tuning, product) pair in payload order.  Formats whose products
    /// mix two channels take the worse (larger) of the two counts.
    pub open spec fn spec_sat_nums(self) -> Seq<int> {
        let sc = self.saturation_count@;
        let m0 = spec_max_u32(sc[0], sc[1]);
        let m1 = spec_max_u32(sc[2], sc[3]);
        match self.stokes_format {
            PolarizationType::LinearXX => seq![sc[0] as int, sc[2] as int],
            PolarizationType::LinearXYReRe => seq![m0, m1],
            PolarizationType::LinearXYIm => seq![m0, m1],
            PolarizationType::LinearYY => seq![sc[1] as int, sc[3] as int],
            PolarizationType::LinearRealHalf => seq![
                sc[0] as int,
                sc[1] as int,
                sc[2] as int,
                sc[3] as int,
            ],
            PolarizationType::LinearOtherHalf => seq![m0, m0, m1, m1],
            PolarizationType::LinearFull => seq![
                sc[0] as int,
                m0,
                m0,
                sc[1] as int,
                sc[2] as int,
                m1,
                m1,
                sc[3] as int,
            ],
            PolarizationType::StokesI => seq![m0, m1],
            PolarizationType::StokesQ => seq![m0, m1],
            PolarizationType::StokesU => seq![m0, m1],
            PolarizationType::StokesV => seq![m0, m1],
            PolarizationType::StokesRealHalf => seq![m0, m0, m1, m1],
            PolarizationType::StokesOtherHalf => seq![m0, m0, m1, m1],
            PolarizationType::StokesFull => seq![m0, m0, m0, m0, m1, m1, m1, m1],
        }
    }

    /// Fraction of integrations that saturated, per tuning and
    /// polarization product, as exact fractions `num / den` with
    /// `den == n_ints * n_freqs`.
    pub fn calc_saturation(&self) -> (r: Vec<SatFraction>)
        ensures
            r@.len() == self.spec_sat_nums().len(),
            forall|i: int|
                0 <= i < r@.len() ==> r@[i].num == self.spec_sat_nums()[i] && r@[i].den
                    == self.spec_sat_den(),
    {
        let den = {
            let a = self.n_ints as u64;
            let b = self.n_freqs as u64;
            proof {
                assert(a * b < 0x1_0000_0000_0000_0000) by (nonlinear_arith)
                    requires
                        a < 0x1_0000_0000 && b < 0x1_0000_0000,
                ;
            }
            a * b
        };
        let s0 = self.saturation_count[0] as u64;
        let s1 = self.saturation_count[1] as u64;
        let s2 = self.saturation_count[2] as u64;
        let s3 = self.saturation_count[3] as u64;
        let m0 = if s0 >= s1 {
            s0
        } else {
            s1
        };
        let m1 = if s2 >= s3 {
            s2
        } else {
            s3
        };
        match self.stokes_format {
            PolarizationType::LinearXX => vec![
                SatFraction { num: s0, den },
                SatFraction { num: s2, den },
            ],
            PolarizationType::LinearXYReRe | PolarizationType::LinearXYIm => vec![
                SatFraction { num: m0, den },
                SatFraction { num: m1, den },
            ],
            PolarizationType::LinearYY => vec![
                SatFraction { num: s1, den },
                SatFraction { num: s3, den },
            ],
            PolarizationType::LinearRealHalf => vec![
                SatFraction { num: s0, den },
                SatFraction { num: s1, den },
                SatFraction { num: s2, den },
                SatFraction { num: s3, den },
            ],
            PolarizationType::LinearOtherHalf => vec![
                SatFraction { num: m0, den },
                SatFraction { num: m0, den },
                SatFraction { num: m1, den },
                SatFraction { num: m1, den },
            ],
            PolarizationType::LinearFull => vec![
                SatFraction { num: s0, den },
                SatFraction { num: m0, den },
                SatFraction { num: m0, den },
                SatFraction { num: s1, den },
                SatFraction { num: s2, den },
                SatFraction { num: m1, den },
                SatFraction { num: m1, den },
                SatFraction { num: s3, den },
            ],
            PolarizationType::StokesI
            | PolarizationType::StokesQ
            | PolarizationType::StokesU
            | PolarizationType::StokesV => vec![
                SatFraction { num: m0, den },
                SatFraction { num: m1, den },
            ],
            PolarizationType::StokesRealHalf | PolarizationType::StokesOtherHalf => vec![
                SatFraction { num: m0, den },
                SatFraction { num: m0, den },
                SatFraction { num: m1, den },
                SatFraction { num: m1, den },
            ],
            PolarizationType::StokesFull => vec![
                SatFraction { num: m0, den },
                SatFraction { num: m0, den },
                SatFraction { num: m0, den },
                SatFraction { num: m0, den },
                SatFraction { num: m1, den },
                SatFraction { num: m1, den },
                SatFraction { num: m1, den },
                SatFraction { num: m1, den },
            ],
        }
    }

    /// Payload length in bytes:
    /// `2 tunings * n_freqs * pol_count * 4-byte samples`.
    pub open spec fn spec_payload_bytes(self) -> int {
        8 * self.n_freqs * popcount(self.stokes_format.spec_as_u8())
    }

    /// Payload length in bytes of the frame this header opens.
    pub fn len_bytes(&self) -> (r: u64)
        ensures
            r == self.spec_payload_bytes(),
            r < 0x40_0000_0000,
    {
        let pols = self.stokes_format.pol_count();
        let nf = self.n_freqs as u64;
        let p = pols as u64;
        proof {
            assert(8 * nf * p < 0x40_0000_0000) by (nonlinear_arith)
                requires
                    nf < 0x1_0000_0000 && p <= 4,
            ;
        }
        2 * 4 * nf * p
    }
}

/// Every saturation fraction lies in the unit interval: with positive
/// `n_ints` and `n_freqs`, and no saturation count above the sample
/// count `n_ints * n_freqs`, each fraction `num / den` of
/// `calc_saturation` has `0 <= num <= den` and `den > 0`.
pub proof fn lemma_saturation_in_unit_range(h: DRHeader, i: int)
    requires
        0 < h.n_ints,
        0 < h.n_freqs,
        forall|j: int| 0 <= j < 4 ==> h.saturation_count@[j] <= h.spec_sat_den(),
        0 <= i < h.spec_sat_nums().len(),
    ensures
        0 < h.spec_sat_den(),
        0 <= h.spec_sat_nums()[i] <= h.spec_sat_den(),
{
    assert(h.n_ints * h.n_freqs >= 1) by (nonlinear_arith)
        requires
            h.n_ints >= 1 && h.n_freqs >= 1,
    ;
    assert(h.saturation_count@[0] <= h.spec_sat_den());
    assert(h.saturation_count@[1] <= h.spec_sat_den());
    assert(h.saturation_count@[2] <= h.spec_sat_den());
    assert(h.saturation_count@[3] <= h.spec_sat_den());
}

/// A decoded header pins its 76 record bytes exactly: two well-formed
/// records that decode to the same header are identical.  With the
/// ensures of `to_bytes` this is the byte-level round trip — encoding
/// a decoded header gives back the original record.
pub proof fn lemma_header_bytes_round_trip(s1: Seq<u8>, s2: Seq<u8>, h: DRHeader)
    requires
        s1.len() == 76,
        s2.len() == 76,
        spec_header_check(s1, 0) == Ok::<(), DecodeError>(()),
        spec_header_check(s2, 0) == Ok::<(), DecodeError>(()),
        header_matches(h, s1, 0),
        header_matches(h, s2, 0),
    ensures
        s1 == s2,
{
    lemma_le32_bytes_unique(s1[0], s1[1], s1[2], s1[3], s2[0], s2[1], s2[2], s2[3]);
    lemma_le64_halves_unique(le32(s1, 4), le32(s1, 8), le32(s2, 4), le32(s2, 8));
    lemma_le32_bytes_unique(s1[4], s1[5], s1[6], s1[7], s2[4], s2[5], s2[6], s2[7]);
    lemma_le32_bytes_unique(s1[8], s1[9], s1[10], s1[11], s2[8], s2[9], s2[10], s2[11]);
    lemma_le16_bytes_unique(s1[12], s1[13], s2[12], s2[13]);
    lemma_le16_bytes_unique(s1[14], s1[15], s2[14], s2[15]);
    lemma_le32_bytes_unique(s1[16], s1[17], s1[18], s1[19], s2[16], s2[17], s2[18], s2[19]);
    lemma_le32_bytes_unique(s1[20], s1[21], s1[22], s1[23], s2[20], s2[21], s2[22], s2[23]);
    assert(le32(s1, 24) == le32(s2, 24) && le32(s1, 28) == le32(s2, 28) && le32(s1, 32) == le32(
        s2,
        32,
    ) && le32(s1, 36) == le32(s2, 36)) by {
        assert(h.fills@[0] == le32(s1, 24 + 4 * 0int) && h.fills@[0] == le32(s2, 24 + 4 * 0int));
        assert(h.fills@[1] == le32(s1, 24 + 4 * 1int) && h.fills@[1] == le32(s2, 24 + 4 * 1int));
        assert(h.fills@[2] == le32(s1, 24 + 4 * 2int) && h.fills@[2] == le32(s2, 24 + 4 * 2int));
        assert(h.fills@[3] == le32(s1, 24 + 4 * 3int) && h.fills@[3] == le32(s2, 24 + 4 * 3int));
    }
    lemma_le32_bytes_unique(s1[24], s1[25], s1[26], s1[27], s2[24], s2[25], s2[26], s2[27]);
    lemma_le32_bytes_unique(s1[28], s1[29], s1[30], s1[31], s2[28], s2[29], s2[30], s2[31]);
    lemma_le32_bytes_unique(s1[32], s1[33], s1[34], s1[35], s2[32], s2[33], s2[34], s2[35]);
    lemma_le32_bytes_unique(s1[36], s1[37], s1[38], s1[39], s2[36], s2[37], s2[38], s2[39]);
    assert forall|i: int| 40 <= i < 44 implies s1[i] == s2[i] by {
        assert(h.errors@[i - 40] == s1[40 + (i - 40int)] && h.errors@[i - 40] == s2[40 + (i - 40int)]);
    }
    lemma_le32_bytes_unique(s1[48], s1[49], s1[50], s1[51], s2[48], s2[49], s2[50], s2[51]);
    lemma_le32_bytes_unique(s1[52], s1[53], s1[54], s1[55], s2[52], s2[53], s2[54], s2[55]);
    assert(le32(s1, 56) == le32(s2, 56) && le32(s1, 60) == le32(s2, 60) && le32(s1, 64) == le32(
        s2,
        64,
    ) && le32(s1, 68) == le32(s2, 68)) by {
        assert(h.saturation_count@[0] == le32(s1, 56 + 4 * 0int) && h.saturation_count@[0] == le32(
            s2,
            56 + 4 * 0int,
        ));
        assert(h.saturation_count@[1] == le32(s1, 56 + 4 * 1int) && h.saturation_count@[1] == le32(
            s2,
            56 + 4 * 1int,
        ));
        assert(h.saturation_count@[2] == le32(s1, 56 + 4 * 2int) && h.saturation_count@[2] == le32(
            s2,
            56 + 4 * 2int,
        ));
        assert(h.saturation_count@[3] == le32(s1, 56 + 4 * 3int) && h.saturation_count@[3] == le32(
            s2,
            56 + 4 * 3int,
        ));
    }
    lemma_le32_bytes_unique(s1[56], s1[57], s1[58], s1[59], s2[56], s2[57], s2[58], s2[59]);
    lemma_le32_bytes_unique(s1[60], s1[61], s1[62], s1[63], s2[60], s2[61], s2[62], s2[63]);
    lemma_le32_bytes_unique(s1[64], s1[65], s1[66], s1[67], s2[64], s2[65], s2[66], s2[67]);
    lemma_le32_bytes_unique(s1[68], s1[69], s1[70], s1[71], s2[68], s2[69], s2[70], s2[71]);
    lemma_le32_bytes_unique(s1[72], s1[73], s1[74], s1[75], s2[72], s2[73], s2[74], s2[75]);
    assert(s1 =~= s2);
}

} // verus!
