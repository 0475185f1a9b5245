//! Antenna topology: where each antenna's signal enters the hardware.
//!
//! An entry maps an antenna name to its processing-node index and its
//! two per-polarization channel indices.  Entries compare equal by
//! node index alone, whatever their names — that is how the source
//! format defines equivalence for grouping, and it is kept as defined
//! even though it looks surprising.  Resolution orders entries by node
//! index, which fixes both the order per-node requests are issued in
//! and the order of antennas in the final result.

use vstd::prelude::*;

use crate::text::{lower_of, to_lower};

verus! {

/// One antenna's hardware location.
#[derive(Debug, Clone)]
pub struct AntInfo {
    /// Antenna name as the configuration spells it.
    pub antname: String,
    /// Index of the processing node the signal runs through.
    pub snap2_location: i64,
    /// Channel index of polarization A on that node.
    pub pola_fpga_num: i64,
    /// Channel index of polarization B on that node.
    pub polb_fpga_num: i64,
}

impl PartialEq for AntInfo {
    /// Entries are equal exactly when they share a node index.
    fn eq(&self, other: &Self) -> (r: bool) {
        self.snap2_location == other.snap2_location
    }
}

impl vstd::std_specs::cmp::PartialEqSpecImpl for AntInfo {
    open spec fn obeys_eq_spec() -> bool {
        true
    }

    open spec fn eq_spec(&self, other: &Self) -> bool {
        self.snap2_location == other.snap2_location
    }
}

/// Entry `t` answers to the requested name: case-normalized exact match.
pub open spec fn name_matches(t: AntInfo, name: Seq<char>) -> bool {
    lower_of(t.antname@) == lower_of(name)
}

/// `k` is the first entry of `topology` answering to `name`.
pub open spec fn first_match(topology: Seq<AntInfo>, name: Seq<char>, k: int) -> bool {
    &&& 0 <= k < topology.len()
    &&& name_matches(topology[k], name)
    &&& forall|j: int| 0 <= j < k ==> !name_matches(topology[j], name)
}

/// Node indices strictly increase through the sequence: sorted with
/// no two entries sharing a node.
pub open spec fn strictly_sorted_by_node(s: Seq<AntInfo>) -> bool {
    forall|i: int, j: int|
        0 <= i < j < s.len() ==> s[i].snap2_location < s[j].snap2_location
}

/// Some entry of `s` sits on node `n`.
pub open spec fn has_node(s: Seq<AntInfo>, n: i64) -> bool {
    exists|i: int| 0 <= i < s.len() && s[i].snap2_location == n
}

/// Entry `t` resolves from the request list: some requested name has
/// `t` as its first match in the topology.
pub open spec fn resolved_from(topology: Seq<AntInfo>, names: Seq<Seq<char>>, t: AntInfo) -> bool {
    exists|ni: int, k: int|
        0 <= ni < names.len() && #[trigger] first_match(topology, names[ni], k) && t == topology[k]
}

/// Insert `cand` into a strictly node-sorted list, keeping it sorted;
/// a list already holding `cand`'s node is left unchanged.
fn insert_by_node(picked: &mut Vec<AntInfo>, cand: AntInfo)
    requires
        strictly_sorted_by_node(old(picked)@),
    ensures
        strictly_sorted_by_node(final(picked)@),
        has_node(final(picked)@, cand.snap2_location),
        forall|n: i64| has_node(old(picked)@, n) ==> has_node(final(picked)@, n),
        forall|i: int|
            0 <= i < final(picked)@.len() ==> old(picked)@.contains(#[trigger] final(picked)@[i])
                || final(picked)@[i] == cand,
        forall|n: i64|
            #[trigger] has_node(final(picked)@, n) ==> has_node(old(picked)@, n) || n
                == cand.snap2_location,
        has_node(old(picked)@, cand.snap2_location) ==> final(picked)@ == old(picked)@,
{
    let n = picked.len();
    let mut pos: usize = 0;
    while pos < n
        invariant
            n == picked@.len(),
            pos <= n,
            strictly_sorted_by_node(picked@),
            picked@ == old(picked)@,
            forall|j: int| 0 <= j < pos ==> picked@[j].snap2_location < cand.snap2_location,
        ensures
            pos <= n,
            picked@ == old(picked)@,
            forall|j: int| 0 <= j < pos ==> picked@[j].snap2_location < cand.snap2_location,
            pos < n ==> picked@[pos as int].snap2_location >= cand.snap2_location,
        decreases n - pos,
    {
        if picked[pos].snap2_location >= cand.snap2_location {
            break ;
        }
        pos = pos + 1;
    }
    if pos < n && picked[pos].snap2_location == cand.snap2_location {
        return ;
    }
    proof {
        if has_node(picked@, cand.snap2_location) {
            let i = choose|i: int|
                0 <= i < picked@.len() && picked@[i].snap2_location == cand.snap2_location;
            if i < pos {
            } else if i == pos {
            } else {
                assert(picked@[pos as int].snap2_location < picked@[i].snap2_location);
            }
            assert(false);
        }
        picked@.insert_ensures(pos as int, cand);
    }
    picked.insert(pos, cand);
    proof {
        let s = picked@;
        let olds = old(picked)@;
        assert forall|i: int, j: int|
            0 <= i < j < s.len() implies s[i].snap2_location < s[j].snap2_location by {
            if j < pos {
            } else if i < pos && j == pos {
            } else if i == pos {
                assert(s[j] == olds[j - 1]);
                if j - 1 > pos {
                    assert(olds[j - 1].snap2_location > olds[pos as int].snap2_location);
                }
            } else if i > pos {
                assert(s[i] == olds[i - 1] && s[j] == olds[j - 1]);
            } else {
                assert(s[i] == olds[i] && s[j] == olds[j - 1]);
                if pos as int <= j - 1 < olds.len() {
                    assert(olds[j - 1].snap2_location > olds[i].snap2_location);
                }
            }
        }
        assert(s[pos as int] == cand);
        assert forall|m: i64| has_node(olds, m) implies has_node(s, m) by {
            let i = choose|i: int| 0 <= i < olds.len() && olds[i].snap2_location == m;
            if i < pos {
                assert(s[i].snap2_location == m);
            } else {
                assert(s[i + 1].snap2_location == m);
            }
        }
        assert forall|i: int| 0 <= i < s.len() implies olds.contains(s[i]) || s[i] == cand by {
            if i < pos {
                assert(s[i] == olds[i]);
            } else if i > pos {
                assert(s[i] == olds[i - 1]);
            }
        }
        assert forall|m: i64| has_node(s, m) implies has_node(olds, m) || m
            == cand.snap2_location by {
            let i = choose|i: int| 0 <= i < s.len() && s[i].snap2_location == m;
            if i < pos {
                assert(olds[i].snap2_location == m);
            } else if i > pos {
                assert(olds[i - 1].snap2_location == m);
            }
        }
    }
}

/// Look up each requested name (case-normalized exact match), drop the
/// names that resolve to nothing, and return the found entries sorted
/// by node index with node duplicates collapsed.
pub fn resolve(topology: &Vec<AntInfo>, names: &Vec<String>) -> (r: Vec<AntInfo>)
    ensures
        strictly_sorted_by_node(r@),
        forall|i: int| 0 <= i < r@.len() ==> resolved_from(topology@, names.deep_view(), #[trigger] r@[i]),
        forall|ni: int, k: int|
            0 <= ni < names@.len() && #[trigger] first_match(topology@, names.deep_view()[ni], k)
                ==> has_node(r@, topology@[k].snap2_location),
{
    let mut picked: Vec<AntInfo> = Vec::new();
    let n_names = names.len();
    let n_topo = topology.len();
    let mut ni: usize = 0;
    while ni < n_names
        invariant
            n_names == names@.len(),
            n_topo == topology@.len(),
            strictly_sorted_by_node(picked@),
            forall|i: int|
                0 <= i < picked@.len() ==> resolved_from(
                    topology@,
                    names.deep_view(),
                    #[trigger] picked@[i],
                ),
            forall|ni0: int, k: int|
                0 <= ni0 < ni && #[trigger] first_match(topology@, names.deep_view()[ni0], k)
                    ==> has_node(picked@, topology@[k].snap2_location),
        decreases n_names - ni,
    {
        let wanted = to_lower(names[ni].as_str());
        let mut k: usize = 0;
        let ghost name_view = names.deep_view()[ni as int];
        proof {
            assert(name_view == names@[ni as int]@);
        }
        while k < n_topo
            invariant
                n_topo == topology@.len(),
                k <= n_topo,
                wanted@ == lower_of(name_view),
                forall|j: int| 0 <= j < k ==> !name_matches(topology@[j], name_view),
            ensures
                k <= n_topo,
                forall|j: int| 0 <= j < k ==> !name_matches(topology@[j], name_view),
                k < n_topo ==> name_matches(topology@[k as int], name_view),
            decreases n_topo - k,
        {
            let entry_lower = to_lower(topology[k].antname.as_str());
            if entry_lower == wanted {
                break ;
            }
            k = k + 1;
        }
        if k < n_topo {
            proof {
                assert(first_match(topology@, name_view, k as int));
            }
            let cand = AntInfo {
                antname: topology[k].antname.clone(),
                snap2_location: topology[k].snap2_location,
                pola_fpga_num: topology[k].pola_fpga_num,
                polb_fpga_num: topology[k].polb_fpga_num,
            };
            proof {
                assert(cand == topology@[k as int]);
            }
            insert_by_node(&mut picked, cand);
        }
        ni = ni + 1;
    }
    picked
}

/// The distinct node indices of a resolved, node-sorted filter, in
/// ascending order: the nodes the distributed query will ask, one by
/// one.
pub fn node_indices(filter: &Vec<AntInfo>) -> (r: Vec<i64>)
    requires
        strictly_sorted_by_node(filter@),
    ensures
        r@.len() == filter@.len(),
        forall|i: int| 0 <= i < r@.len() ==> r@[i] == filter@[i].snap2_location,
        forall|i: int, j: int| 0 <= i < j < r@.len() ==> r@[i] < r@[j],
{
    let mut r: Vec<i64> = Vec::new();
    let n = filter.len();
    let mut i: usize = 0;
    while i < n
        invariant
            n == filter@.len(),
            i <= n,
            strictly_sorted_by_node(filter@),
            r@.len() == i,
            forall|j: int| 0 <= j < i ==> r@[j] == filter@[j].snap2_location,
        decreases n - i,
    {
        r.push(filter[i].snap2_location);
        i = i + 1;
    }
    r
}

} // verus!
