//! The correlation-based distributed spectrum query.
//!
//! Spectra are requested per processing node through a watch/put
//! key-value namespace: a command naming a node and one of four
//! 16-channel sub-blocks is published under the node's command key,
//! and the matching response is recognized among all events on the
//! response prefix by its embedded request id.  The module builds the
//! command documents, correlates responses, and assembles the
//! per-node channel rows into the final per-antenna rows.

use vstd::prelude::*;

use crate::json::{json_as_array, json_as_f64_bits, json_as_str, json_from_slice, json_get};
use crate::text::{dec_str, digit_char, pad2_i64, push_i64_pad2, push_u64_dec, u64_to_dec};
use crate::topology::AntInfo;

verus! {

/// Key prefix the responses are watched under.
pub const ETCD_RESP_KEY: &'static str = "/resp/snap/";

/// Root of the per-node command keys.
pub const ETCD_CMD_ROOT: &'static str = "/cmd/snap/";

/// Channel rows per node.
pub const NODE_CHANNELS: usize = 64;

/// Channel rows per requested sub-block.
pub const BLOCK_CHANNELS: usize = 16;

/// Sub-blocks per node: the 64 channels are requested 16 at a time.
pub const NODE_BLOCKS: usize = 4;

/// The lowest `width` decimal digits of `n`, zero-padded to exactly
/// `width` characters.
pub open spec fn dec_pad(n: nat, width: nat) -> Seq<char>
    decreases width,
{
    if width == 0 {
        Seq::empty()
    } else {
        dec_pad(n / 10, (width - 1) as nat).push(digit_char((n % 10) as int))
    }
}

/// Append the lowest `width` digits of `n`, zero-padded.
pub fn push_dec_pad(s: &mut String, n: u64, width: u8)
    ensures
        final(s)@ == old(s)@ + dec_pad(n as nat, width as nat),
    decreases width,
{
    if width == 0 {
        proof {
            assert(s@ =~= old(s)@ + dec_pad(n as nat, 0));
        }
    } else {
        push_dec_pad(s, n / 10, width - 1);
        push_u64_dec(s, n % 10);
        proof {
            assert(s@ =~= old(s)@ + dec_pad(n as nat, width as nat));
        }
    }
}

/// The command key of a node: the command root followed by the node
/// index zero-padded to width two; the shared default key `0` where no
/// node is named.
pub open spec fn spec_command_key(node: Option<i64>) -> Seq<char> {
    match node {
        Some(n) => "/cmd/snap/"@ + pad2_i64(n as int),
        None => "/cmd/snap/0"@,
    }
}

/// Build the command key for `node`.
pub fn command_key(node: Option<i64>) -> (r: String)
    ensures
        r@ == spec_command_key(node),
{
    match node {
        Some(n) => {
            let mut s = String::from_str(ETCD_CMD_ROOT);
            push_i64_pad2(&mut s, n);
            proof {
                assert(s@ =~= spec_command_key(Some(n)));
            }
            s
        },
        None => {
            let s = String::from_str("/cmd/snap/0");
            s
        },
    }
}

/// The request id of a command stamped at `micros` microseconds: the
/// microsecond count in decimal.
pub open spec fn spec_request_id(micros: nat) -> Seq<char> {
    dec_str(micros)
}

/// The JSON command document requesting sub-block `sb` of a node's
/// spectra, stamped at `micros` microseconds since the epoch.  The
/// timestamp is written in seconds with exactly six fractional digits,
/// and the id is the microsecond count itself.
pub open spec fn spec_command_json(sb: nat, micros: nat) -> Seq<char> {
    "{\"cmd\": \"get_new_spectra\", \"val\": {\"block\": \"autocorr\", \"timestamp\": "@ + dec_str(
        micros / 1000000,
    ) + seq!['.'] + dec_pad(micros % 1000000, 6) + ", \"kwargs\": {\"signal_block\": "@ + dec_str(
        sb,
    ) + "}}, \"id\": \""@ + dec_str(micros) + "\"}"@
}

/// Build the JSON command for sub-block `sb` stamped at `micros`.
pub fn command_json(sb: u8, micros: u64) -> (r: String)
    ensures
        r@ == spec_command_json(sb as nat, micros as nat),
{
    let mut s = String::from_str(
        "{\"cmd\": \"get_new_spectra\", \"val\": {\"block\": \"autocorr\", \"timestamp\": ",
    );
    push_u64_dec(&mut s, micros / 1000000);
    proof {
        reveal_strlit(".");
    }
    s.append(".");
    push_dec_pad(&mut s, micros % 1000000, 6);
    s.append(", \"kwargs\": {\"signal_block\": ");
    push_u64_dec(&mut s, sb as u64);
    s.append("}}, \"id\": \"");
    push_u64_dec(&mut s, micros);
    s.append("\"}");
    proof {
        assert(s@ =~= spec_command_json(sb as nat, micros as nat));
    }
    s
}

/// The request id for a command stamped at `micros`.
pub fn request_id(micros: u64) -> (r: String)
    ensures
        r@ == spec_request_id(micros as nat),
{
    u64_to_dec(micros)
}

/// An element-for-element copy of a row of sample bit patterns.
fn copy_row(src: &Vec<u64>) -> (r: Vec<u64>)
    ensures
        r@ == src@,
{
    let n = src.len();
    let mut r: Vec<u64> = Vec::with_capacity(n);
    let mut i: usize = 0;
    while i < n
        invariant
            n == src@.len(),
            i <= n,
            r@ == src@.subrange(0, i as int),
        decreases n - i,
    {
        r.push(src[i]);
        proof {
            assert(r@ =~= src@.subrange(0, i + 1));
        }
        i = i + 1;
    }
    proof {
        assert(r@ =~= src@);
    }
    r
}

/// Per-node accumulator of one in-flight spectra query.
///
/// The node's 64 channel rows are requested as four 16-channel
/// sub-blocks; each sub-block gets its own request id, and only the
/// watch event whose embedded id matches that outstanding id is taken
/// — every other event on the response prefix is ignored.
pub struct SnapAccumulator {
    /// Frequency bins per channel row.
    pub n_freq: usize,
    /// The 64 channel rows, each holding `n_freq` 64-bit float bit
    /// patterns; rows of sub-blocks not yet answered hold zeros.
    pub rows: Vec<Vec<u64>>,
    /// The next sub-block to request, `0..=4`; `4` means complete.
    pub next_block: usize,
    /// Request id of the sub-block currently awaiting its response.
    pub pending_id: Option<String>,
}

impl SnapAccumulator {
    /// Shape invariant: 64 rows of `n_freq` samples, at most 4 blocks.
    pub open spec fn wf(self) -> bool {
        &&& self.rows@.len() == 64
        &&& forall|c: int| 0 <= c < 64 ==> #[trigger] self.rows@[c]@.len() == self.n_freq
        &&& self.next_block <= 4
    }

    /// A fresh accumulator: all rows zero, nothing requested yet.
    pub fn new(n_freq: usize) -> (r: SnapAccumulator)
        ensures
            r.wf(),
            r.n_freq == n_freq,
            r.next_block == 0,
            r.pending_id is None,
            forall|c: int, j: int| 0 <= c < 64 && 0 <= j < n_freq ==> #[trigger] r.rows@[c]@[j] == 0,
    {
        let mut rows: Vec<Vec<u64>> = Vec::with_capacity(NODE_CHANNELS);
        let mut c: usize = 0;
        while c < NODE_CHANNELS
            invariant
                c <= 64,
                rows@.len() == c,
                forall|c0: int| 0 <= c0 < c ==> #[trigger] rows@[c0]@.len() == n_freq,
                forall|c0: int, j: int|
                    0 <= c0 < c && 0 <= j < n_freq ==> #[trigger] rows@[c0]@[j] == 0,
            decreases 64 - c,
        {
            let mut row: Vec<u64> = Vec::with_capacity(n_freq);
            let mut j: usize = 0;
            while j < n_freq
                invariant
                    j <= n_freq,
                    row@.len() == j,
                    forall|j0: int| 0 <= j0 < j ==> #[trigger] row@[j0] == 0,
                decreases n_freq - j,
            {
                row.push(0);
                j = j + 1;
            }
            rows.push(row);
            c = c + 1;
        }
        SnapAccumulator { n_freq, rows, next_block: 0, pending_id: None }
    }

    /// Open the request for the next sub-block, stamped at `micros`:
    /// records the id whose response alone will be accepted, and
    /// returns the JSON command to publish.
    pub fn begin_block(&mut self, micros: u64) -> (cmd: String)
        requires
            old(self).wf(),
            old(self).next_block < 4,
            old(self).pending_id is None,
        ensures
            final(self).wf(),
            final(self).n_freq == old(self).n_freq,
            final(self).rows == old(self).rows,
            final(self).next_block == old(self).next_block,
            final(self).pending_id matches Some(id) && id@ == spec_request_id(micros as nat),
            cmd@ == spec_command_json(old(self).next_block as nat, micros as nat),
    {
        let cmd = command_json(self.next_block as u8, micros);
        self.pending_id = Some(request_id(micros));
        cmd
    }

    /// Offer one watched response event to the accumulator.
    ///
    /// It is taken exactly when its id equals the outstanding request
    /// id and its 16 rows each hold `n_freq` samples; the rows of the
    /// current sub-block are then overwritten with it and the next
    /// sub-block becomes current.  Any other event leaves the
    /// accumulator unchanged.
    pub fn offer_response(&mut self, id: &String, chunk: &Vec<Vec<u64>>) -> (accepted: bool)
        requires
            old(self).wf(),
            old(self).next_block < 4,
            old(self).pending_id is Some,
        ensures
            final(self).wf(),
            accepted <==> (id@ == old(self).pending_id->Some_0@ && chunk@.len() == 16 && (forall|
                r: int,
            |
                0 <= r < 16 ==> #[trigger] chunk@[r]@.len() == old(self).n_freq)),
            !accepted ==> *final(self) == *old(self),
            accepted ==> {
                &&& final(self).n_freq == old(self).n_freq
                &&& final(self).next_block == old(self).next_block + 1
                &&& final(self).pending_id is None
                &&& forall|c: int|
                    0 <= c < 64 && !(16 * old(self).next_block <= c < 16 * old(self).next_block
                        + 16) ==> #[trigger] final(self).rows@[c] == old(self).rows@[c]
                &&& forall|r: int|
                    0 <= r < 16 ==> #[trigger] final(self).rows@[16 * old(self).next_block + r]@
                        == chunk@[r]@
            },
    {
        let matches_id = match &self.pending_id {
            Some(pending) => *pending == *id,
            None => false,
        };
        if !matches_id {
            return false;
        }
        if chunk.len() != 16 {
            return false;
        }
        let mut r: usize = 0;
        while r < 16
            invariant
                r <= 16,
                chunk@.len() == 16,
                self == old(self),
                forall|r0: int| 0 <= r0 < r ==> #[trigger] chunk@[r0]@.len() == self.n_freq,
            ensures
                r <= 16,
                self == old(self),
                forall|r0: int| 0 <= r0 < r ==> #[trigger] chunk@[r0]@.len() == self.n_freq,
                r < 16 ==> chunk@[r as int]@.len() != self.n_freq,
            decreases 16 - r,
        {
            if chunk[r].len() != self.n_freq {
                break ;
            }
            r = r + 1;
        }
        if r < 16 {
            return false;
        }
        let base = 16 * self.next_block;
        let mut i: usize = 0;
        while i < 16
            invariant
                i <= 16,
                base == 16 * old(self).next_block,
                base + 16 <= 64,
                chunk@.len() == 16,
                forall|r0: int| 0 <= r0 < 16 ==> #[trigger] chunk@[r0]@.len() == old(self).n_freq,
                self.n_freq == old(self).n_freq,
                self.next_block == old(self).next_block,
                self.pending_id == old(self).pending_id,
                self.rows@.len() == 64,
                forall|c: int|
                    0 <= c < 64 && !(base <= c < base + i) ==> #[trigger] self.rows@[c]
                        == old(self).rows@[c],
                forall|r0: int|
                    0 <= r0 < i ==> #[trigger] self.rows@[base + r0]@ == chunk@[r0]@,
            decreases 16 - i,
        {
            let row = copy_row(&chunk[i]);
            self.rows.set(base + i, row);
            i = i + 1;
        }
        self.next_block = self.next_block + 1;
        self.pending_id = None;
        proof {
            assert forall|c: int| 0 <= c < 64 implies #[trigger] self.rows@[c]@.len()
                == self.n_freq by {
                if base <= c < base + 16 {
                    assert(self.rows@[base + (c - base)]@ == chunk@[c - base]@);
                } else {
                    assert(self.rows@[c] == old(self).rows@[c]);
                }
            }
            assert forall|r0: int|
                0 <= r0 < 16 implies #[trigger] self.rows@[16 * old(self).next_block + r0]@
                == chunk@[r0]@ by {
                assert(self.rows@[base + r0]@ == chunk@[r0]@);
            }
        }
        true
    }

    /// All four sub-blocks have been answered.
    pub fn complete(&self) -> (r: bool)
        ensures
            r <==> self.next_block == 4,
    {
        self.next_block == 4
    }
}

/// Pull the request id and the nested response array out of one
/// watched event's value bytes: `id` at the top level, the rows under
/// `val.response`, each sample read as a 64-bit float's bit pattern.
/// Events that do not have this shape give `None`.  Whether the rows
/// answer the outstanding request is decided by `offer_response`,
/// which is verified for every value handed out here.
pub fn parse_response(bytes: &[u8]) -> (r: Option<(String, Vec<Vec<u64>>)>) {
    let doc = match json_from_slice(bytes) {
        Some(d) => d,
        None => {
            return None;
        },
    };
    let id = match json_get(&doc, "id") {
        Some(v) => match json_as_str(v) {
            Some(s) => String::from_str(s),
            None => {
                return None;
            },
        },
        None => {
            return None;
        },
    };
    let arr = match json_get(&doc, "val") {
        Some(val) => match json_get(val, "response") {
            Some(resp) => match json_as_array(resp) {
                Some(a) => a,
                None => {
                    return None;
                },
            },
            None => {
                return None;
            },
        },
        None => {
            return None;
        },
    };
    let n_rows = arr.len();
    let mut rows: Vec<Vec<u64>> = Vec::with_capacity(n_rows);
    let mut i: usize = 0;
    while i < n_rows
        invariant
            i <= n_rows,
            n_rows == arr@.len(),
        decreases n_rows - i,
    {
        let inner = match json_as_array(&arr[i]) {
            Some(a) => a,
            None => {
                return None;
            },
        };
        let n_vals = inner.len();
        let mut row: Vec<u64> = Vec::with_capacity(n_vals);
        let mut j: usize = 0;
        while j < n_vals
            invariant
                j <= n_vals,
                n_vals == inner@.len(),
            decreases n_vals - j,
        {
            match json_as_f64_bits(&inner[j]) {
                Some(b) => row.push(b),
                None => {
                    return None;
                },
            }
            j = j + 1;
        }
        rows.push(row);
        i = i + 1;
    }
    Some((id, rows))
}

/// Append the channel-row pair of the one antenna of `filter` sitting
/// on `node`: its polarization-A row, then its polarization-B row.  A
/// node no filter entry names leaves `out` unchanged; a matching entry
/// whose channel index lies outside the node's 64 rows is refused and
/// also leaves `out` unchanged.
pub fn append_node_rows(
    out: &mut Vec<Vec<u64>>,
    rows: &Vec<Vec<u64>>,
    filter: &Vec<AntInfo>,
    node: i64,
) -> (ok: bool)
    requires
        crate::topology::strictly_sorted_by_node(filter@),
        rows@.len() == 64,
    ensures
        !crate::topology::has_node(filter@, node) ==> ok && final(out)@ == old(out)@,
        forall|i: int|
            0 <= i < filter@.len() && (#[trigger] filter@[i]).snap2_location == node ==> {
                let e = filter@[i];
                if 0 <= e.pola_fpga_num < 64 && 0 <= e.polb_fpga_num < 64 {
                    &&& ok
                    &&& final(out)@.len() == old(out)@.len() + 2
                    &&& forall|k: int|
                        0 <= k < old(out)@.len() ==> #[trigger] final(out)@[k] == old(out)@[k]
                    &&& final(out)@[old(out)@.len() as int]@ == rows@[e.pola_fpga_num as int]@
                    &&& final(out)@[old(out)@.len() as int + 1]@ == rows@[e.polb_fpga_num as int]@
                } else {
                    !ok && final(out)@ == old(out)@
                }
            },
{
    let n = filter.len();
    let mut i: usize = 0;
    while i < n
        invariant
            n == filter@.len(),
            i <= n,
            forall|j: int| 0 <= j < i ==> (#[trigger] filter@[j]).snap2_location != node,
        ensures
            i <= n,
            forall|j: int| 0 <= j < i ==> (#[trigger] filter@[j]).snap2_location != node,
            i < n ==> filter@[i as int].snap2_location == node,
        decreases n - i,
    {
        if filter[i].snap2_location == node {
            break ;
        }
        i = i + 1;
    }
    if i == n {
        return true;
    }
    let pola = filter[i].pola_fpga_num;
    let polb = filter[i].polb_fpga_num;
    if !(0 <= pola && pola < 64 && 0 <= polb && polb < 64) {
        proof {
            assert forall|k: int|
                0 <= k < filter@.len() && (#[trigger] filter@[k]).snap2_location
                    == node implies k == i by {
                if k < i {
                } else if k > i {
                    assert(filter@[i as int].snap2_location < filter@[k].snap2_location);
                }
            }
        }
        return false;
    }
    let row_a = copy_row(&rows[pola as usize]);
    let row_b = copy_row(&rows[polb as usize]);
    out.push(row_a);
    out.push(row_b);
    proof {
        assert forall|k: int|
            0 <= k < filter@.len() && (#[trigger] filter@[k]).snap2_location == node implies k
            == i by {
            if k < i {
            } else if k > i {
                assert(filter@[i as int].snap2_location < filter@[k].snap2_location);
            }
        }
    }
    true
}

/// The display labels of a resolved filter: each antenna's configured
/// name suffixed `a` then `b`, in filter order.
pub fn antenna_labels(filter: &Vec<AntInfo>) -> (r: Vec<String>)
    ensures
        r@.len() == 2 * filter@.len(),
        forall|i: int|
            0 <= i < filter@.len() ==> #[trigger] r@[2 * i]@ == filter@[i].antname@ + "a"@,
        forall|i: int|
            0 <= i < filter@.len() ==> #[trigger] r@[2 * i + 1]@ == filter@[i].antname@ + "b"@,
{
    let n = filter.len();
    let mut r: Vec<String> = Vec::new();
    let mut i: usize = 0;
    while i < n
        invariant
            n == filter@.len(),
            i <= n,
            r@.len() == 2 * i,
            forall|j: int| 0 <= j < i ==> #[trigger] r@[2 * j]@ == filter@[j].antname@ + "a"@,
            forall|j: int| 0 <= j < i ==> #[trigger] r@[2 * j + 1]@ == filter@[j].antname@ + "b"@,
        decreases n - i,
    {
        let name_a = filter[i].antname.clone().concat("a");
        let name_b = filter[i].antname.clone().concat("b");
        let ghost va = name_a@;
        let ghost vb = name_b@;
        r.push(name_a);
        r.push(name_b);
        proof {
            assert(r@[2 * (i as int)]@ == va);
            assert(r@[2 * (i as int) + 1]@ == vb);
            assert forall|j: int|
                0 <= j < i + 1 implies #[trigger] r@[2 * j]@ == filter@[j].antname@ + "a"@ by {
                if j == i {
                    assert(r@[2 * j]@ == va);
                }
            }
            assert forall|j: int|
                0 <= j < i + 1 implies #[trigger] r@[2 * j + 1]@ == filter@[j].antname@
                + "b"@ by {
                if j == i {
                    assert(r@[2 * j + 1]@ == vb);
                }
            }
        }
        i = i + 1;
    }
    r
}

/// The decision state of the distributed query backend: the full
/// antenna configuration and the currently resolved filter.
///
/// The watch/put transport around it is driven outside the library;
/// everything the backend decides — which nodes to ask in which
/// order, which response events to take, which channel rows to keep —
/// is decided here and in `SnapAccumulator`.
pub struct DistributedQuery {
    /// Full antenna configuration.
    pub ant_info: Vec<AntInfo>,
    /// Resolved antenna filter, node-sorted; `None` until a filter is
    /// pushed.
    pub filter: Option<Vec<AntInfo>>,
}

impl DistributedQuery {
    /// A resolved filter is always node-sorted with duplicates
    /// collapsed.
    pub open spec fn wf(self) -> bool {
        self.filter matches Some(f) ==> crate::topology::strictly_sorted_by_node(f@)
    }

    /// A query over the given configuration, with no filter active.
    pub fn new(ant_info: Vec<AntInfo>) -> (r: DistributedQuery)
        ensures
            r.wf(),
            r.ant_info == ant_info,
            r.filter is None,
    {
        DistributedQuery { ant_info, filter: None }
    }

    /// Resolve the pushed antenna names against the configuration and
    /// make them the active filter.  Names that resolve to nothing are
    /// dropped; the filter is node-sorted with duplicates collapsed.
    pub fn filter_antenna(&mut self, names: &Vec<String>)
        ensures
            final(self).wf(),
            final(self).ant_info == old(self).ant_info,
            final(self).filter matches Some(f) && {
                &&& crate::topology::strictly_sorted_by_node(f@)
                &&& forall|i: int|
                    0 <= i < f@.len() ==> crate::topology::resolved_from(
                        old(self).ant_info@,
                        names.deep_view(),
                        #[trigger] f@[i],
                    )
                &&& forall|ni: int, k: int|
                    0 <= ni < names@.len() && #[trigger] crate::topology::first_match(
                        old(self).ant_info@,
                        names.deep_view()[ni],
                        k,
                    ) ==> crate::topology::has_node(f@, old(self).ant_info@[k].snap2_location)
            },
    {
        let resolved = crate::topology::resolve(&self.ant_info, names);
        self.filter = Some(resolved);
    }

    /// The distinct node indices the next poll will ask, in ascending
    /// order; `None` while no filter is active, when a single default
    /// node is asked instead.
    pub fn get_snaps(&self) -> (r: Option<Vec<i64>>)
        requires
            self.wf(),
        ensures
            match r {
                Some(nodes) => self.filter matches Some(f) && nodes@.len() == f@.len() && (forall|
                    i: int,
                |
                    0 <= i < nodes@.len() ==> nodes@[i] == f@[i].snap2_location) && (forall|
                    i: int,
                    j: int,
                |
                    0 <= i < j < nodes@.len() ==> nodes@[i] < nodes@[j]),
                None => self.filter is None,
            },
    {
        match &self.filter {
            Some(f) => Some(crate::topology::node_indices(f)),
            None => None,
        }
    }
}

/// The synthesized labels used when no filter is active: the channel
/// indices themselves, in decimal.
pub fn index_labels(n: usize) -> (r: Vec<String>)
    ensures
        r@.len() == n,
        forall|i: int| 0 <= i < n ==> #[trigger] r@[i]@ == dec_str(i as nat),
{
    let mut r: Vec<String> = Vec::with_capacity(n);
    let mut i: usize = 0;
    while i < n
        invariant
            i <= n,
            r@.len() == i,
            forall|j: int| 0 <= j < i ==> #[trigger] r@[j]@ == dec_str(j as nat),
        decreases n - i,
    {
        r.push(u64_to_dec(i as u64));
        i = i + 1;
    }
    r
}

} // verus!
