//! Per-antenna saturation statistics sampled over time.
//!
//! Each new frame yields one saturation fraction per displayed
//! product; the running statistic smooths them over successive polls.
//! The blending policy, chosen here and fixed: a first-order filter
//! whose memory grows with the polling interval — with interval `k`
//! seconds, the running value moves to `(old * k + new) / (k + 1)`,
//! so slow polls trust their history more.  Values are held in parts
//! per million of the unit interval, clamped into it.

use vstd::prelude::*;

use crate::header::SatFraction;

verus! {

/// One part per million; the fixed scale of the stored values.
pub const PPM_SCALE: u64 = 1_000_000;

/// Running per-product saturation values, in parts per million.
pub struct SaturationStats {
    /// One value per displayed product, each at most `PPM_SCALE`.
    pub ppm: Vec<u64>,
}

/// The stored value of one exact fraction: `num / den` in parts per
/// million, rounded down and clamped to the unit interval; zero where
/// the denominator is zero and the fraction is undefined.
pub open spec fn spec_ppm_of(f: SatFraction) -> int {
    if f.den == 0 {
        0
    } else if f.num * 1_000_000 / (f.den as int) > 1_000_000 {
        1_000_000
    } else {
        f.num * 1_000_000 / (f.den as int)
    }
}

/// One blending step: with interval `k`, the running value moves to
/// `(old * k + new) / (k + 1)`.
pub open spec fn spec_blend(old_v: int, new_v: int, k: int) -> int {
    (old_v * k + new_v) / (k + 1)
}

impl SaturationStats {
    /// All stored values lie in the unit interval.
    pub open spec fn wf(self) -> bool {
        forall|i: int| 0 <= i < self.ppm@.len() ==> #[trigger] self.ppm@[i] <= 1_000_000
    }

    /// Statistics of one frame's exact saturation fractions.  The
    /// numerators are saturation counts out of 32-bit header words.
    pub fn from_fractions(fracs: &Vec<SatFraction>) -> (r: SaturationStats)
        requires
            forall|i: int| 0 <= i < fracs@.len() ==> (#[trigger] fracs@[i]).num < 0x1_0000_0000,
        ensures
            r.wf(),
            r.ppm@.len() == fracs@.len(),
            forall|i: int| 0 <= i < fracs@.len() ==> #[trigger] r.ppm@[i] == spec_ppm_of(fracs@[i]),
    {
        let n = fracs.len();
        let mut ppm: Vec<u64> = Vec::with_capacity(n);
        let mut i: usize = 0;
        while i < n
            invariant
                n == fracs@.len(),
                i <= n,
                ppm@.len() == i,
                forall|j: int| 0 <= j < n ==> (#[trigger] fracs@[j]).num < 0x1_0000_0000,
                forall|j: int| 0 <= j < i ==> #[trigger] ppm@[j] == spec_ppm_of(fracs@[j]),
                forall|j: int| 0 <= j < i ==> #[trigger] ppm@[j] <= 1_000_000,
            decreases n - i,
        {
            let f = &fracs[i];
            let v: u64 = if f.den == 0 {
                0
            } else {
                proof {
                    assert(f.num * 1_000_000 < 0x1_0000_0000u64 * 1_000_000) by (nonlinear_arith)
                        requires
                            f.num < 0x1_0000_0000u64,
                    ;
                }
                let scaled = f.num * 1_000_000;
                let q = scaled / f.den;
                if q > 1_000_000 {
                    1_000_000
                } else {
                    q
                }
            };
            ppm.push(v);
            i = i + 1;
        }
        SaturationStats { ppm }
    }

    /// Fold one new sample in, smoothing over the polling interval of
    /// `interval_s` seconds: every value moves to
    /// `(old * k + new) / (k + 1)`.  A sample of a different width
    /// replaces the history outright.
    pub fn update(&mut self, new_stats: &SaturationStats, interval_s: u32)
        requires
            old(self).wf(),
            new_stats.wf(),
        ensures
            final(self).wf(),
            new_stats.ppm@.len() == old(self).ppm@.len() ==> {
                &&& final(self).ppm@.len() == old(self).ppm@.len()
                &&& forall|i: int|
                    0 <= i < final(self).ppm@.len() ==> #[trigger] final(self).ppm@[i]
                        == spec_blend(
                        old(self).ppm@[i] as int,
                        new_stats.ppm@[i] as int,
                        interval_s as int,
                    )
            },
            new_stats.ppm@.len() != old(self).ppm@.len() ==> final(self).ppm@
                == new_stats.ppm@,
    {
        let n = self.ppm.len();
        if new_stats.ppm.len() != n {
            let mut copy: Vec<u64> = Vec::with_capacity(new_stats.ppm.len());
            let m = new_stats.ppm.len();
            let mut i: usize = 0;
            while i < m
                invariant
                    m == new_stats.ppm@.len(),
                    i <= m,
                    copy@ == new_stats.ppm@.subrange(0, i as int),
                decreases m - i,
            {
                copy.push(new_stats.ppm[i]);
                proof {
                    assert(copy@ =~= new_stats.ppm@.subrange(0, i + 1));
                }
                i = i + 1;
            }
            proof {
                assert(copy@ =~= new_stats.ppm@);
            }
            self.ppm = copy;
            return ;
        }
        let k = interval_s as u64;
        let mut i: usize = 0;
        while i < n
            invariant
                n == self.ppm@.len(),
                n == new_stats.ppm@.len(),
                n == old(self).ppm@.len(),
                i <= n,
                new_stats.wf(),
                k == interval_s,
                k <= 0xffff_ffffu64,
                forall|j: int| i <= j < n ==> #[trigger] self.ppm@[j] == old(self).ppm@[j],
                forall|j: int|
                    0 <= j < i ==> #[trigger] self.ppm@[j] == spec_blend(
                        old(self).ppm@[j] as int,
                        new_stats.ppm@[j] as int,
                        k as int,
                    ),
                forall|j: int| 0 <= j < i ==> #[trigger] self.ppm@[j] <= 1_000_000,
                old(self).wf(),
        decreases n - i,
        {
            let old_v = self.ppm[i];
            let new_v = new_stats.ppm[i];
            proof {
                assert(old(self).ppm@[i as int] <= 1_000_000);
                assert(old_v * k <= 1_000_000 * k) by (nonlinear_arith)
                    requires
                        old_v <= 1_000_000 && 0 <= k,
                ;
                assert(1_000_000 * k <= 1_000_000 * 0xffff_ffffu64) by (nonlinear_arith)
                    requires
                        k <= 0xffff_ffffu64,
                ;
            }
            let blended = (old_v * k + new_v) / (k + 1);
            proof {
                assert(blended <= 1_000_000) by (nonlinear_arith)
                    requires
                        blended == (old_v * k + new_v) / (k + 1) && old_v <= 1_000_000 && new_v
                            <= 1_000_000 && 0 <= k && old_v * k + new_v <= 1_000_000 * k
                            + 1_000_000,
                ;
            }
            self.ppm.set(i, blended);
            i = i + 1;
        }
    }
}

} // verus!
