//! The system configuration document: the full antenna topology.
//!
//! The configuration arrives as one JSON document whose `lwacfg`
//! member describes every antenna.  Two shapes of that member exist:
//! column-oriented, one object per column keyed by antenna id, and
//! row-oriented, one object per antenna.  Both are read into the same
//! `AntInfo` entries; a missing name reads as `"null"` and a missing
//! index as `-1`, so a sparse document is not fatal.  A document
//! without the expected structure gives `None`, which construction
//! treats as fatal.

use vstd::prelude::*;

use crate::json::{json_as_i64, json_as_object, json_as_str, json_from_slice, json_get, json_map_get,
    json_map_keys};
use crate::topology::AntInfo;

verus! {

/// True when some element of `v` holds exactly the text of `s`.
pub fn contains_str(v: &Vec<String>, s: &String) -> (r: bool)
    ensures
        r <==> exists|i: int| 0 <= i < v@.len() && (#[trigger] v@[i])@ == s@,
{
    let n = v.len();
    let mut i: usize = 0;
    while i < n
        invariant
            n == v@.len(),
            i <= n,
            forall|j: int| 0 <= j < i ==> (#[trigger] v@[j])@ != s@,
        decreases n - i,
    {
        if v[i] == *s {
            return true;
        }
        i = i + 1;
    }
    false
}

/// One antenna's fields out of the column-oriented shape: each column
/// object is indexed by the antenna id.
fn column_entry(
    dict: &serde_json::Map<String, serde_json::Value>,
    ant: &String,
) -> (r: AntInfo) {
    let antname = match json_map_get(dict, "antname") {
        Some(col) => match json_get(col, ant.as_str()) {
            Some(v) => match json_as_str(v) {
                Some(s) => String::from_str(s),
                None => String::from_str("null"),
            },
            None => String::from_str("null"),
        },
        None => String::from_str("null"),
    };
    let snap2_location = column_index(dict, "snap2_location", ant);
    let pola_fpga_num = column_index(dict, "pola_fpga_num", ant);
    let polb_fpga_num = column_index(dict, "polb_fpga_num", ant);
    AntInfo { antname, snap2_location, pola_fpga_num, polb_fpga_num }
}

/// One integer field of the column-oriented shape, `-1` where absent.
fn column_index(
    dict: &serde_json::Map<String, serde_json::Value>,
    column: &str,
    ant: &String,
) -> (r: i64) {
    match json_map_get(dict, column) {
        Some(col) => match json_get(col, ant.as_str()) {
            Some(v) => match json_as_i64(v) {
                Some(x) => x,
                None => -1,
            },
            None => -1,
        },
        None => -1,
    }
}

/// One integer field of a row-oriented antenna object, `-1` where
/// absent.
fn row_index(obj: &serde_json::Value, field: &str) -> (r: i64) {
    match json_get(obj, field) {
        Some(v) => match json_as_i64(v) {
            Some(x) => x,
            None => -1,
        },
        None => -1,
    }
}

/// Read the full topology out of the configuration document bytes.
///
/// `None` where the bytes are not JSON or hold no `lwacfg` object:
/// that is a malformed topology document, fatal at construction.  The
/// entries come back in the document's key order; resolution sorts
/// them by node index later, so their order here carries no meaning.
pub fn parse_topology(bytes: &[u8]) -> (r: Option<Vec<AntInfo>>) {
    let doc = match json_from_slice(bytes) {
        Some(d) => d,
        None => {
            return None;
        },
    };
    let cfg = match json_get(&doc, "lwacfg") {
        Some(c) => c,
        None => {
            return None;
        },
    };
    let dict = match json_as_object(cfg) {
        Some(m) => m,
        None => {
            return None;
        },
    };
    let keys = json_map_keys(dict);
    let marker = String::from_str("snap2_location");
    let column_oriented = contains_str(&keys, &marker);
    let mut all: Vec<AntInfo> = Vec::new();
    if column_oriented {
        let mut ants: Vec<String> = Vec::new();
        let n_cols = keys.len();
        let mut c: usize = 0;
        while c < n_cols
            invariant
                n_cols == keys@.len(),
                c <= n_cols,
            decreases n_cols - c,
        {
            if let Some(col) = json_map_get(dict, keys[c].as_str()) {
                if let Some(col_obj) = json_as_object(col) {
                    let col_keys = json_map_keys(col_obj);
                    let n_keys = col_keys.len();
                    let mut k: usize = 0;
                    while k < n_keys
                        invariant
                            n_keys == col_keys@.len(),
                            k <= n_keys,
                        decreases n_keys - k,
                    {
                        if !contains_str(&ants, &col_keys[k]) {
                            ants.push(col_keys[k].clone());
                        }
                        k = k + 1;
                    }
                }
            }
            c = c + 1;
        }
        let n_ants = ants.len();
        let mut a: usize = 0;
        while a < n_ants
            invariant
                n_ants == ants@.len(),
                a <= n_ants,
            decreases n_ants - a,
        {
            all.push(column_entry(dict, &ants[a]));
            a = a + 1;
        }
    } else {
        let n_keys = keys.len();
        let mut k: usize = 0;
        while k < n_keys
            invariant
                n_keys == keys@.len(),
                k <= n_keys,
            decreases n_keys - k,
        {
            if let Some(obj) = json_map_get(dict, keys[k].as_str()) {
                let antname = match json_get(obj, "antname") {
                    Some(v) => match json_as_str(v) {
                        Some(s) => String::from_str(s),
                        None => String::from_str("null"),
                    },
                    None => String::from_str("null"),
                };
                all.push(
                    AntInfo {
                        antname,
                        snap2_location: row_index(obj, "snap2_location"),
                        pola_fpga_num: row_index(obj, "pola_fpga_num"),
                        polb_fpga_num: row_index(obj, "polb_fpga_num"),
                    },
                );
            }
            k = k + 1;
        }
    }
    Some(all)
}

} // verus!
