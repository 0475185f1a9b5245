use spectrum_tui::query::{
    antenna_labels, append_node_rows, command_json, command_key, index_labels, parse_response,
    request_id, DistributedQuery, SnapAccumulator,
};
use spectrum_tui::topology::AntInfo;

fn ant(name: &str, node: i64, pola: i64, polb: i64) -> AntInfo {
    AntInfo {
        antname: name.to_string(),
        snap2_location: node,
        pola_fpga_num: pola,
        polb_fpga_num: polb,
    }
}

#[test]
fn command_keys_are_zero_padded_node_keys() {
    assert_eq!(command_key(Some(3)), "/cmd/snap/03");
    assert_eq!(command_key(Some(12)), "/cmd/snap/12");
    assert_eq!(command_key(Some(0)), "/cmd/snap/00");
    assert_eq!(command_key(Some(-1)), "/cmd/snap/-1");
    assert_eq!(command_key(None), "/cmd/snap/0");
}

#[test]
fn command_documents_carry_block_timestamp_and_id() {
    let cmd = command_json(2, 1_700_000_000_123_456);
    assert_eq!(
        cmd,
        "{\"cmd\": \"get_new_spectra\", \"val\": {\"block\": \"autocorr\", \
         \"timestamp\": 1700000000.123456, \"kwargs\": {\"signal_block\": 2}}, \
         \"id\": \"1700000000123456\"}"
    );
    // the document is valid JSON and reads back field by field
    let doc: serde_json::Value = serde_json::from_str(&cmd).expect("command must be JSON");
    assert_eq!(doc["cmd"], "get_new_spectra");
    assert_eq!(doc["val"]["block"], "autocorr");
    assert_eq!(doc["val"]["kwargs"]["signal_block"], 2);
    assert_eq!(doc["id"], "1700000000123456");
    assert!((doc["val"]["timestamp"].as_f64().unwrap() - 1_700_000_000.123456).abs() < 1e-6);
}

#[test]
fn request_ids_are_the_microsecond_count() {
    assert_eq!(request_id(12345), "12345");
    assert_eq!(request_id(0), "0");
}

fn response_json(id: &str, n_rows: usize, n_freq: usize, value_of: impl Fn(usize, usize) -> f64) -> Vec<u8> {
    let mut s = String::new();
    s.push_str("{\"id\": \"");
    s.push_str(id);
    s.push_str("\", \"val\": {\"response\": [");
    for r in 0..n_rows {
        if r > 0 {
            s.push(',');
        }
        s.push('[');
        for c in 0..n_freq {
            if c > 0 {
                s.push(',');
            }
            s.push_str(&format!("{}", value_of(r, c)));
        }
        s.push(']');
    }
    s.push_str("]}}");
    s.into_bytes()
}

#[test]
fn simulated_distributed_query_fills_the_block() {
    let n_freq = 4096usize;
    let mut acc = SnapAccumulator::new(n_freq);
    let cmd = acc.begin_block(12345);
    assert!(cmd.contains("\"id\": \"12345\""));

    let bytes = response_json("12345", 16, n_freq, |r, c| (r * n_freq + c) as f64);
    let (id, rows) = parse_response(&bytes).expect("response must parse");
    assert_eq!(id, "12345");
    assert!(acc.offer_response(&id, &rows));

    for r in 0..16 {
        for c in 0..n_freq {
            let expected = ((r * n_freq + c) as f64).to_bits();
            assert_eq!(acc.rows[r][c], expected);
        }
    }
    // rows of later sub-blocks are untouched
    assert!(acc.rows[16].iter().all(|&w| w == 0));
    assert!(!acc.complete());
}

#[test]
fn mismatched_response_ids_are_ignored() {
    let n_freq = 16usize;
    let mut acc = SnapAccumulator::new(n_freq);
    let _cmd = acc.begin_block(777);

    let bytes = response_json("778", 16, n_freq, |_, _| 3.5);
    let (id, rows) = parse_response(&bytes).expect("response must parse");
    assert!(!acc.offer_response(&id, &rows));
    assert!(acc.rows.iter().all(|row| row.iter().all(|&w| w == 0)));

    // the matching id is still accepted afterwards
    let bytes = response_json("777", 16, n_freq, |_, _| 3.5);
    let (id, rows) = parse_response(&bytes).expect("response must parse");
    assert!(acc.offer_response(&id, &rows));
    assert_eq!(acc.rows[0][0], 3.5f64.to_bits());
}

#[test]
fn responses_of_the_wrong_shape_are_ignored() {
    let n_freq = 8usize;
    let mut acc = SnapAccumulator::new(n_freq);
    let _cmd = acc.begin_block(1);

    // 15 rows instead of 16
    let bytes = response_json("1", 15, n_freq, |_, _| 1.0);
    let (id, rows) = parse_response(&bytes).expect("response must parse");
    assert!(!acc.offer_response(&id, &rows));

    // right row count, wrong row width
    let bytes = response_json("1", 16, n_freq - 1, |_, _| 1.0);
    let (id, rows) = parse_response(&bytes).expect("response must parse");
    assert!(!acc.offer_response(&id, &rows));
}

#[test]
fn four_blocks_complete_the_node() {
    let n_freq = 4usize;
    let mut acc = SnapAccumulator::new(n_freq);
    for b in 0..4u64 {
        let _cmd = acc.begin_block(1000 + b);
        let bytes = response_json(&format!("{}", 1000 + b), 16, n_freq, |r, c| {
            (b as usize * 1000 + r * 10 + c) as f64
        });
        let (id, rows) = parse_response(&bytes).expect("response must parse");
        assert!(acc.offer_response(&id, &rows));
    }
    assert!(acc.complete());
    // row 63 is row 15 of sub-block 3: 3*1000 + 15*10 + 3
    assert_eq!(acc.rows[63][3], 3153f64.to_bits());
}

#[test]
fn malformed_response_events_do_not_parse() {
    assert!(parse_response(b"garbage").is_none());
    assert!(parse_response(br#"{"id": 7}"#).is_none());
    assert!(parse_response(br#"{"id": "1"}"#).is_none());
    assert!(parse_response(br#"{"id": "1", "val": {"response": "x"}}"#).is_none());
}

#[test]
fn append_node_rows_selects_the_antenna_channels() {
    let rows: Vec<Vec<u64>> = (0..64).map(|r| vec![r as u64; 4]).collect();
    let filter = vec![ant("LWA-1", 2, 7, 9), ant("LWA-2", 5, 1, 3)];
    let mut out: Vec<Vec<u64>> = Vec::new();

    assert!(append_node_rows(&mut out, &rows, &filter, 2));
    assert!(append_node_rows(&mut out, &rows, &filter, 5));
    assert_eq!(out.len(), 4);
    assert_eq!(out[0], vec![7; 4]);
    assert_eq!(out[1], vec![9; 4]);
    assert_eq!(out[2], vec![1; 4]);
    assert_eq!(out[3], vec![3; 4]);

    // a node nobody sits on appends nothing
    assert!(append_node_rows(&mut out, &rows, &filter, 9));
    assert_eq!(out.len(), 4);
}

#[test]
fn append_node_rows_refuses_channels_out_of_range() {
    let rows: Vec<Vec<u64>> = (0..64).map(|r| vec![r as u64; 4]).collect();
    let filter = vec![ant("LWA-1", 2, 64, 0)];
    let mut out: Vec<Vec<u64>> = Vec::new();
    assert!(!append_node_rows(&mut out, &rows, &filter, 2));
    assert!(out.is_empty());
}

#[test]
fn labels_follow_resolution_order() {
    let filter = vec![ant("LWA-1", 1, 0, 1), ant("LWA-2", 2, 2, 3)];
    let labels = antenna_labels(&filter);
    assert_eq!(labels, vec!["LWA-1a", "LWA-1b", "LWA-2a", "LWA-2b"]);

    let labels = index_labels(3);
    assert_eq!(labels, vec!["0", "1", "2"]);
}

#[test]
fn filter_updates_resolve_against_the_configuration() {
    let q_info = vec![ant("LWA-300", 3, 4, 5), ant("LWA-100", 1, 0, 1)];
    let mut q = DistributedQuery::new(q_info);
    assert!(q.get_snaps().is_none());

    q.filter_antenna(&vec!["lwa-300".to_string(), "lwa-100".to_string()]);
    assert_eq!(q.get_snaps(), Some(vec![1, 3]));

    // unresolved names fall out; the next poll sees the new filter
    q.filter_antenna(&vec!["lwa-300".to_string(), "nope".to_string()]);
    assert_eq!(q.get_snaps(), Some(vec![3]));
}
