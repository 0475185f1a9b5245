//! One spectrometer frame: header plus sample payload.
//!
//! The payload holds `2 tunings * n_freqs * pol_count` 32-bit
//! little-endian sample words.  The decoder keeps the raw words and
//! computes the per-(tuning, product) normalization divisors from the
//! header's fill counts; dividing the samples is presentation work and
//! is left to the caller, so the decoded frame stays exact.

use vstd::prelude::*;

use crate::bytes::{le32, read_le32};
use crate::error::DecodeError;
use crate::header::{header_matches, spec_header_check, DRHeader, SYNC_HEADER};
use crate::polarization::{popcount, PolarizationType};

verus! {

/// The smaller of two divisors.
pub open spec fn spec_min2(a: int, b: int) -> int {
    if a <= b {
        a
    } else {
        b
    }
}

impl DRHeader {
    /// Base normalization term of channel `i`: `fills[i] * n_freqs`.
    pub open spec fn spec_norm_base(self, i: int) -> int {
        self.fills@[i] * self.n_freqs
    }

    /// Normalization divisors, one per (tuning, product) pair in payload
    /// order.  Products that mix two channels are divided by the smaller
    /// (more conservative) of the two contributing fills.
    pub open spec fn spec_norms(self) -> Seq<int> {
        let b0 = self.spec_norm_base(0);
        let b1 = self.spec_norm_base(1);
        let b2 = self.spec_norm_base(2);
        let b3 = self.spec_norm_base(3);
        let n0 = spec_min2(b0, b1);
        let n1 = spec_min2(b2, b3);
        match self.stokes_format {
            PolarizationType::LinearXX => seq![b0, b2],
            PolarizationType::LinearXYReRe => seq![n0, n1],
            PolarizationType::LinearXYIm => seq![n0, n1],
            PolarizationType::LinearYY => seq![b1, b3],
            PolarizationType::LinearRealHalf => seq![b0, b1, b2, b3],
            PolarizationType::LinearOtherHalf => seq![n0, n0, n1, n1],
            PolarizationType::LinearFull => seq![b0, n0, n0, b1, b2, n1, n1, b3],
            PolarizationType::StokesI => seq![n0, n1],
            PolarizationType::StokesQ => seq![n0, n1],
            PolarizationType::StokesU => seq![n0, n1],
            PolarizationType::StokesV => seq![n0, n1],
            PolarizationType::StokesRealHalf => seq![n0, n0, n1, n1],
            PolarizationType::StokesOtherHalf => seq![n0, n0, n1, n1],
            PolarizationType::StokesFull => seq![n0, n0, n0, n0, n1, n1, n1, n1],
        }
    }

    /// The normalization divisors as runtime values.
    pub fn norms(&self) -> (r: Vec<u64>)
        ensures
            r@.len() == self.spec_norms().len(),
            forall|i: int| 0 <= i < r@.len() ==> r@[i] == self.spec_norms()[i],
    {
        let nf = self.n_freqs as u64;
        proof {
            assert forall|a: u64, b: u64|
                a < 0x1_0000_0000 && b < 0x1_0000_0000 implies #[trigger] (a * b)
                < 0x1_0000_0000_0000_0000 by {
                assert(a * b < 0x1_0000_0000_0000_0000) by (nonlinear_arith)
                    requires
                        a < 0x1_0000_0000 && b < 0x1_0000_0000,
                ;
            }
        }
        let b0 = (self.fills[0] as u64) * nf;
        let b1 = (self.fills[1] as u64) * nf;
        let b2 = (self.fills[2] as u64) * nf;
        let b3 = (self.fills[3] as u64) * nf;
        let n0 = if b0 <= b1 {
            b0
        } else {
            b1
        };
        let n1 = if b2 <= b3 {
            b2
        } else {
            b3
        };
        match self.stokes_format {
            PolarizationType::LinearXX => vec![b0, b2],
            PolarizationType::LinearXYReRe | PolarizationType::LinearXYIm => vec![n0, n1],
            PolarizationType::LinearYY => vec![b1, b3],
            PolarizationType::LinearRealHalf => vec![b0, b1, b2, b3],
            PolarizationType::LinearOtherHalf => vec![n0, n0, n1, n1],
            PolarizationType::LinearFull => vec![b0, n0, n0, b1, b2, n1, n1, b3],
            PolarizationType::StokesI
            | PolarizationType::StokesQ
            | PolarizationType::StokesU
            | PolarizationType::StokesV => vec![n0, n1],
            PolarizationType::StokesRealHalf | PolarizationType::StokesOtherHalf => vec![
                n0,
                n0,
                n1,
                n1,
            ],
            PolarizationType::StokesFull => vec![n0, n0, n0, n0, n1, n1, n1, n1],
        }
    }
}

/// There is one normalization divisor per (tuning, product) pair.
pub proof fn lemma_norms_len(h: DRHeader)
    ensures
        h.spec_norms().len() == 2 * popcount(h.stokes_format.spec_as_u8()),
{
    assert(popcount(0x01u8) == 1 && popcount(0x02u8) == 1 && popcount(0x04u8) == 1 && popcount(
        0x08u8,
    ) == 1 && popcount(0x09u8) == 2 && popcount(0x0au8) == 2 && popcount(0x0fu8) == 4 && popcount(
        0x10u8,
    ) == 1 && popcount(0x20u8) == 1 && popcount(0x40u8) == 1 && popcount(0x80u8) == 1 && popcount(
        0x90u8,
    ) == 2 && popcount(0xa0u8) == 2 && popcount(0xf0u8) == 4) by (bit_vector);
}

/// A frame's sample payload indexed (tuning, frequency bin, product),
/// row-major, with the divisors its samples are to be normalized by.
#[derive(Debug, Clone, PartialEq)]
pub struct DRSpectrum {
    /// Metadata of this spectrum.
    pub header: DRHeader,
    /// Raw little-endian sample words, `2 * n_freqs * pol_count` of
    /// them; word `(t, f, p)` sits at index `t * n_freqs * pols + f *
    /// pols + p` and carries the bits of one 32-bit float sample.
    pub data: Vec<u32>,
    /// Normalization divisors indexed `(tuning, product)`, flattened as
    /// `t * pols + p`; the sample at `(t, f, p)` is to be divided by
    /// `norms[t * pols + p]`.
    pub norms: Vec<u64>,
}

/// Whole length of the frame starting at `off`: the fixed header plus
/// the payload its fields declare.
pub open spec fn spec_frame_len(s: Seq<u8>, off: int) -> int {
    76 + 8 * le32(s, off + 48) * popcount(s[off + 45])
}

/// True when `f` holds exactly the frame encoded at `off` of `s`.
pub open spec fn frame_matches(f: DRSpectrum, s: Seq<u8>, off: int) -> bool {
    &&& header_matches(f.header, s, off)
    &&& f.data@.len() == 2 * f.header.n_freqs * popcount(f.header.stokes_format.spec_as_u8())
    &&& forall|j: int| 0 <= j < f.data@.len() ==> f.data@[j] == le32(s, off + 76 + 4 * j)
    &&& f.norms@.len() == f.header.spec_norms().len()
    &&& forall|i: int| 0 <= i < f.norms@.len() ==> f.norms@[i] == f.header.spec_norms()[i]
}

/// A leading sync marker sits at byte offset `q`.
pub open spec fn marker_at(s: Seq<u8>, q: int) -> bool {
    le32(s, q) == SYNC_HEADER
}

/// `p` is the first offset at or after `start` holding a sync marker.
pub open spec fn first_marker(s: Seq<u8>, start: int, p: int) -> bool {
    &&& start <= p
    &&& p + 4 <= s.len()
    &&& marker_at(s, p)
    &&& forall|q: int| start <= q < p ==> !marker_at(s, q)
}

impl DRSpectrum {
    /// Decode the frame at byte offset `off` of `buf`: the header, then
    /// exactly the payload it declares.
    pub fn from_bytes_at(buf: &[u8], off: usize) -> (r: Result<DRSpectrum, DecodeError>)
        ensures
            match r {
                Ok(f) => spec_header_check(buf@, off as int) == Ok::<(), DecodeError>(()) && buf@.len()
                    >= off + spec_frame_len(buf@, off as int) && frame_matches(f, buf@, off as int)
                    && f.wf(),
                Err(e) => if spec_header_check(buf@, off as int) is Err {
                    spec_header_check(buf@, off as int) == Err::<(), DecodeError>(e)
                } else {
                    buf@.len() < off + spec_frame_len(buf@, off as int) && e
                        == DecodeError::TruncatedInput
                },
            },
    {
        let header = match DRHeader::from_bytes_at(buf, off) {
            Ok(h) => h,
            Err(e) => {
                return Err(e);
            },
        };
        let n = buf.len();
        let payload = header.len_bytes();
        proof {
            assert(header.spec_payload_bytes() == 8 * le32(buf@, off + 48) * popcount(
                buf@[off + 45],
            ));
        }
        if payload > (n as u64) - ((off as u64) + 76) {
            return Err(DecodeError::TruncatedInput);
        }
        let n_words = (payload / 4) as usize;
        proof {
            let nf = header.n_freqs as int;
            let pc = popcount(header.stokes_format.spec_as_u8());
            assert(8 * nf * pc == 4 * (2 * nf * pc)) by (nonlinear_arith);
            assert(4 * n_words == header.spec_payload_bytes());
        }
        let base = off + 76;
        let mut data: Vec<u32> = Vec::with_capacity(n_words);
        let mut k: usize = 0;
        while k < n_words
            invariant
                k <= n_words,
                data@.len() == k,
                base == off + 76,
                base + 4 * n_words <= buf@.len(),
                buf@.len() <= usize::MAX,
                forall|j: int| 0 <= j < k ==> data@[j] == le32(buf@, base + 4 * j),
            decreases n_words - k,
        {
            data.push(read_le32(buf, base + 4 * k));
            k = k + 1;
        }
        let norms = header.norms();
        proof {
            lemma_norms_len(header);
            assert(data@.len() == 2 * header.n_freqs * popcount(header.stokes_format.spec_as_u8()))
                by {
                let nf = header.n_freqs as int;
                let pc = popcount(header.stokes_format.spec_as_u8());
                assert(8 * nf * pc == 4 * (2 * nf * pc)) by (nonlinear_arith);
            }
        }
        Ok(DRSpectrum { header, data, norms })
    }

    /// Decode the frame at the start of `buf`.
    pub fn from_bytes(buf: &[u8]) -> (r: Result<DRSpectrum, DecodeError>)
        ensures
            match r {
                Ok(f) => spec_header_check(buf@, 0) == Ok::<(), DecodeError>(()) && buf@.len()
                    >= spec_frame_len(buf@, 0) && frame_matches(f, buf@, 0) && f.wf(),
                Err(e) => if spec_header_check(buf@, 0) is Err {
                    spec_header_check(buf@, 0) == Err::<(), DecodeError>(e)
                } else {
                    buf@.len() < spec_frame_len(buf@, 0) && e == DecodeError::TruncatedInput
                },
            },
    {
        Self::from_bytes_at(buf, 0)
    }

    /// Number of polarization products of the payload.
    pub open spec fn spec_pols(self) -> int {
        popcount(self.header.stokes_format.spec_as_u8())
    }

    /// The payload holds its declared number of sample words and one
    /// divisor per (tuning, product) pair.
    pub open spec fn wf(self) -> bool {
        &&& self.data@.len() == 2 * self.header.n_freqs * self.spec_pols()
        &&& self.norms@.len() == self.header.spec_norms().len()
        &&& self.norms@.len() == 2 * self.spec_pols()
    }

    /// The raw sample word of tuning `t`, frequency bin `f`, product `p`.
    pub open spec fn spec_sample(self, t: int, f: int, p: int) -> u32 {
        self.data@[t * (self.header.n_freqs * self.spec_pols()) + f * self.spec_pols() + p]
    }

    /// Flatten the payload into one row per polarization product, the
    /// two tunings side by side: row `p` holds the `2 * n_freqs` words
    /// `(t, f, p)` at position `t * n_freqs + f`.  This is the row
    /// layout of the displayed spectra; dividing each word's float
    /// value by `norms[t * pols + p]` is left to the caller.
    pub fn product_rows(&self) -> (r: Vec<Vec<u32>>)
        requires
            self.wf(),
        ensures
            r@.len() == self.spec_pols(),
            forall|p: int|
                0 <= p < r@.len() ==> #[trigger] r@[p]@.len() == 2 * self.header.n_freqs,
            forall|p: int, t: int, f: int|
                0 <= p < r@.len() && 0 <= t < 2 && 0 <= f < self.header.n_freqs
                    ==> #[trigger] r@[p]@[t * self.header.n_freqs + f] == self.spec_sample(t, f, p),
    {
        let pc = self.header.stokes_format.pol_count() as usize;
        let nf = self.header.n_freqs as usize;
        let dlen = self.data.len();
        proof {
            assert(2 * ((nf as int) * (pc as int)) == 2 * (nf as int) * (pc as int))
                by (nonlinear_arith);
        }
        let mut r: Vec<Vec<u32>> = Vec::with_capacity(pc);
        let mut p: usize = 0;
        while p < pc
            invariant
                self.wf(),
                p <= pc,
                pc == self.spec_pols(),
                nf == self.header.n_freqs,
                dlen == self.data@.len(),
                dlen == 2 * ((nf as int) * (pc as int)),
                r@.len() == p,
                forall|p0: int| 0 <= p0 < p ==> #[trigger] r@[p0]@.len() == 2 * nf,
                forall|p0: int, t0: int, f0: int|
                    0 <= p0 < p && 0 <= t0 < 2 && 0 <= f0 < nf ==> #[trigger] r@[p0]@[t0 * nf + f0]
                        == self.spec_sample(t0, f0, p0),
            decreases pc - p,
        {
            let mut row: Vec<u32> = Vec::new();
            let mut t: usize = 0;
            while t < 2
                invariant
                    self.wf(),
                    p < pc,
                    pc == self.spec_pols(),
                    nf == self.header.n_freqs,
                    dlen == self.data@.len(),
                    dlen == 2 * ((nf as int) * (pc as int)),
                    t <= 2,
                    row@.len() == t * nf,
                    forall|t0: int, f0: int|
                        0 <= t0 < t && 0 <= f0 < nf ==> #[trigger] row@[t0 * nf + f0]
                            == self.spec_sample(t0, f0, p as int),
                decreases 2 - t,
            {
                let mut f: usize = 0;
                while f < nf
                    invariant
                        self.wf(),
                        p < pc,
                        t < 2,
                        pc == self.spec_pols(),
                        nf == self.header.n_freqs,
                        dlen == self.data@.len(),
                        dlen == 2 * ((nf as int) * (pc as int)),
                        row@.len() == t * nf + f,
                        f <= nf,
                        forall|t0: int, f0: int|
                            0 <= t0 < t && 0 <= f0 < nf ==> #[trigger] row@[t0 * nf + f0]
                                == self.spec_sample(t0, f0, p as int),
                        forall|f0: int|
                            0 <= f0 < f ==> #[trigger] row@[t * nf + f0] == self.spec_sample(
                                t as int,
                                f0,
                                p as int,
                            ),
                    decreases nf - f,
                {
                    proof {
                        let ti = t as int;
                        let fi = f as int;
                        let pi = p as int;
                        let nfi = nf as int;
                        let pci = pc as int;
                        assert(0 <= ti * (nfi * pci) <= nfi * pci) by (nonlinear_arith)
                            requires
                                0 <= ti <= 1 && 0 <= nfi && 0 <= pci,
                        ;
                        assert(0 <= fi * pci <= nfi * pci - pci) by (nonlinear_arith)
                            requires
                                0 <= fi <= nfi - 1 && 0 < pci && 0 <= nfi,
                        ;
                    }
                    let idx = t * (nf * pc) + f * pc + p;
                    row.push(self.data[idx]);
                    proof {
                        assert forall|t0: int, f0: int|
                            0 <= t0 < t && 0 <= f0 < nf implies #[trigger] row@[t0 * nf + f0]
                            == self.spec_sample(t0, f0, p as int) by {
                            assert(t0 * (nf as int) <= (t as int - 1) * (nf as int))
                                by (nonlinear_arith)
                                requires
                                    t0 <= t as int - 1 && 0 <= (nf as int),
                            ;
                            assert((t as int - 1) * (nf as int) == t as int * (nf as int) - (
                            nf as int)) by (nonlinear_arith);
                        }
                    }
                    f = f + 1;
                }
                proof {
                    assert((t as int + 1) * (nf as int) == t as int * (nf as int) + nf as int)
                        by (nonlinear_arith);
                }
                t = t + 1;
            }
            r.push(row);
            p = p + 1;
        }
        r
    }

    /// Scan forward from `start` for the next leading sync marker and
    /// return its byte offset; `NoMoreFrames` when none occurs before
    /// the end of the buffer.
    pub fn find_next_spectra(buf: &[u8], start: usize) -> (r: Result<usize, DecodeError>)
        ensures
            match r {
                Ok(p) => first_marker(buf@, start as int, p as int),
                Err(e) => e == DecodeError::NoMoreFrames && forall|q: int|
                    start <= q && q + 4 <= buf@.len() ==> !marker_at(buf@, q),
            },
    {
        let n = buf.len();
        if n < 4 {
            return Err(DecodeError::NoMoreFrames);
        }
        let mut p = start;
        while p <= n - 4
            invariant
                4 <= n == buf@.len(),
                start <= p,
                forall|q: int| start <= q < p ==> !marker_at(buf@, q),
            decreases n - p,
        {
            if read_le32(buf, p) == SYNC_HEADER {
                return Ok(p);
            }
            p = p + 1;
        }
        Err(DecodeError::NoMoreFrames)
    }

    /// Decode only the newest frame of an append-only record: locate
    /// the first frame to learn the frame length, then decode at
    /// `len - frame_len`, reading nothing in between.
    pub fn read_last_spectrum(buf: &[u8]) -> (r: Result<DRSpectrum, DecodeError>)
        ensures
            match r {
                Ok(f) => exists|p: int|
                    first_marker(buf@, 0, p) && (#[trigger] spec_header_check(buf@, p))
                        == Ok::<(), DecodeError>(()) && spec_frame_len(buf@, p) <= buf@.len()
                        && frame_matches(f, buf@, buf@.len() - spec_frame_len(buf@, p)),
                Err(e) => (e == DecodeError::NoMoreFrames && forall|q: int|
                    0 <= q && q + 4 <= buf@.len() ==> !marker_at(buf@, q)) || (exists|p: int|
                    first_marker(buf@, 0, p) && (#[trigger] spec_header_check(buf@, p))
                        == Err::<(), DecodeError>(e)) || (exists|p: int|
                    first_marker(buf@, 0, p) && (#[trigger] spec_header_check(buf@, p))
                        == Ok::<(), DecodeError>(()) && spec_frame_len(buf@, p) > buf@.len() && e
                        == DecodeError::TruncatedInput) || (exists|p: int|
                    first_marker(buf@, 0, p) && (#[trigger] spec_header_check(buf@, p))
                        == Ok::<(), DecodeError>(()) && spec_frame_len(buf@, p) <= buf@.len() && {
                        let tail = buf@.len() - spec_frame_len(buf@, p);
                        if spec_header_check(buf@, tail) is Err {
                            spec_header_check(buf@, tail) == Err::<(), DecodeError>(e)
                        } else {
                            buf@.len() < tail + spec_frame_len(buf@, tail) && e
                                == DecodeError::TruncatedInput
                        }
                    }),
            },
    {
        let p = match Self::find_next_spectra(buf, 0) {
            Ok(p) => p,
            Err(e) => {
                return Err(e);
            },
        };
        let header = match DRHeader::from_bytes_at(buf, p) {
            Ok(h) => h,
            Err(e) => {
                return Err(e);
            },
        };
        let n = buf.len();
        let frame_len = 76 + header.len_bytes();
        proof {
            assert(header.spec_payload_bytes() == 8 * le32(buf@, p + 48) * popcount(buf@[p + 45]));
        }
        if frame_len > n as u64 {
            return Err(DecodeError::TruncatedInput);
        }
        let tail = n - (frame_len as usize);
        Self::from_bytes_at(buf, tail)
    }
}

/// Where the sync-marker pattern occurs exactly at multiples of the
/// frame length, the scan lands exactly on frame boundaries: searching
/// from any offset finds the next multiple of `frame_len`, so repeated
/// scans over concatenated frames return `0, frame_len, 2*frame_len, …`.
pub proof fn lemma_find_next_on_concatenated_frames(s: Seq<u8>, frame_len: int, start: int, p: int)
    requires
        frame_len > 0,
        forall|q: int| 0 <= q && q + 4 <= s.len() ==> (marker_at(s, q) <==> q % frame_len == 0),
        0 <= start,
        first_marker(s, start, p),
    ensures
        p % frame_len == 0,
        forall|m: int| start <= m < p ==> #[trigger] (m % frame_len) != 0,
{
    assert forall|m: int| start <= m < p implies #[trigger] (m % frame_len) != 0 by {
        assert(!marker_at(s, m));
        assert(m + 4 <= s.len());
    }
}

} // verus!
