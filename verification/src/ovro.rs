//! The OVRO local-file backend: archived spectra read from one saved
//! array file, filtered only by how many antennas the caller asked
//! for.

use vstd::prelude::*;

use crate::text::dec_str;
use crate::text::u64_to_dec;

verus! {

/// Reads archived antenna spectra from one local array file.
pub struct DiskLoader {
    /// How many antennas' spectra to hand out, two rows each.
    pub n_spectra: usize,
    /// File the spectra are read from.
    pub file: String,
}

impl DiskLoader {
    /// A loader over the given file, with no antennas selected yet.
    pub fn new(file: String) -> (r: DiskLoader)
        ensures
            r.file == file,
            r.n_spectra == 0,
    {
        DiskLoader { n_spectra: 0, file }
    }

    /// This source has no names to resolve: the filter's length alone
    /// chooses how many antennas are shown.
    pub fn filter_antenna(&mut self, antenna_number: &Vec<String>)
        ensures
            final(self).file == old(self).file,
            final(self).n_spectra == antenna_number@.len(),
    {
        self.n_spectra = antenna_number.len();
    }

    /// Display labels of the selected spectra: two rows per antenna,
    /// the antenna index suffixed `A` then `B`.
    pub fn labels(&self) -> (r: Vec<String>)
        ensures
            r@.len() == 2 * self.n_spectra,
            forall|i: int|
                0 <= i < self.n_spectra ==> #[trigger] r@[2 * i]@ == dec_str(i as nat) + "A"@,
            forall|i: int|
                0 <= i < self.n_spectra ==> #[trigger] r@[2 * i + 1]@ == dec_str(i as nat) + "B"@,
    {
        let n = self.n_spectra;
        let mut r: Vec<String> = Vec::new();
        let mut i: usize = 0;
        while i < n
            invariant
                i <= n,
                r@.len() == 2 * i,
                forall|j: int| 0 <= j < i ==> #[trigger] r@[2 * j]@ == dec_str(j as nat) + "A"@,
                forall|j: int|
                    0 <= j < i ==> #[trigger] r@[2 * j + 1]@ == dec_str(j as nat) + "B"@,
            decreases n - i,
        {
            let label_a = u64_to_dec(i as u64).concat("A");
            let label_b = u64_to_dec(i as u64).concat("B");
            let ghost va = label_a@;
            let ghost vb = label_b@;
            r.push(label_a);
            r.push(label_b);
            proof {
                assert(r@[2 * (i as int)]@ == va);
                assert(r@[2 * (i as int) + 1]@ == vb);
                assert forall|j: int|
                    0 <= j < i + 1 implies #[trigger] r@[2 * j]@ == dec_str(j as nat) + "A"@ by {
                    if j == i {
                        assert(r@[2 * j]@ == va);
                    }
                }
                assert forall|j: int|
                    0 <= j < i + 1 implies #[trigger] r@[2 * j + 1]@ == dec_str(j as nat)
                    + "B"@ by {
                    if j == i {
                        assert(r@[2 * j + 1]@ == vb);
                    }
                }
            }
            i = i + 1;
        }
        r
    }
}

} // verus!
