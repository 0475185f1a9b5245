use spectrum_tui::config::parse_topology;
use spectrum_tui::topology::{node_indices, resolve, AntInfo};

fn ant(name: &str, node: i64, pola: i64, polb: i64) -> AntInfo {
    AntInfo {
        antname: name.to_string(),
        snap2_location: node,
        pola_fpga_num: pola,
        polb_fpga_num: polb,
    }
}

fn names(list: &[&str]) -> Vec<String> {
    list.iter().map(|s| s.to_string()).collect()
}

#[test]
fn entries_compare_equal_by_node_index_alone() {
    // equality is by node index only, whatever the names say
    assert_eq!(ant("LWA-005", 2, 0, 1), ant("LWA-250", 2, 8, 9));
    assert_ne!(ant("LWA-005", 2, 0, 1), ant("LWA-005", 3, 0, 1));
}

#[test]
fn resolve_orders_by_node_index() {
    let topology = vec![
        ant("LWA-300", 3, 4, 5),
        ant("LWA-100", 1, 0, 1),
        ant("LWA-200", 2, 2, 3),
    ];
    let filter = resolve(&topology, &names(&["LWA-300", "LWA-100", "LWA-200"]));
    let nodes: Vec<i64> = filter.iter().map(|a| a.snap2_location).collect();
    assert_eq!(nodes, vec![1, 2, 3]);

    // input order does not matter
    let filter = resolve(&topology, &names(&["lwa-200", "lwa-300", "lwa-100"]));
    let nodes: Vec<i64> = filter.iter().map(|a| a.snap2_location).collect();
    assert_eq!(nodes, vec![1, 2, 3]);

    // duplicate names do not matter either
    let filter = resolve(
        &topology,
        &names(&["LWA-100", "LWA-100", "LWA-300", "LWA-200", "LWA-300"]),
    );
    let nodes: Vec<i64> = filter.iter().map(|a| a.snap2_location).collect();
    assert_eq!(nodes, vec![1, 2, 3]);
}

#[test]
fn resolve_matches_names_case_insensitively() {
    let topology = vec![ant("LWA-250", 7, 0, 1)];
    let filter = resolve(&topology, &names(&["lwa-250"]));
    assert_eq!(filter.len(), 1);
    assert_eq!(filter[0].antname, "LWA-250");
}

#[test]
fn resolve_drops_unresolved_names() {
    let topology = vec![ant("LWA-100", 1, 0, 1), ant("LWA-200", 2, 2, 3)];
    let filter = resolve(&topology, &names(&["LWA-100", "LWA-999"]));
    let nodes: Vec<i64> = filter.iter().map(|a| a.snap2_location).collect();
    assert_eq!(nodes, vec![1]);
}

#[test]
fn resolve_collapses_duplicate_nodes() {
    let topology = vec![ant("LWA-A", 4, 0, 1), ant("LWA-B", 4, 2, 3), ant("LWA-C", 1, 4, 5)];
    let filter = resolve(&topology, &names(&["LWA-A", "LWA-B", "LWA-C"]));
    let nodes: Vec<i64> = filter.iter().map(|a| a.snap2_location).collect();
    assert_eq!(nodes, vec![1, 4]);
}

#[test]
fn node_indices_lists_the_sorted_nodes() {
    let topology = vec![ant("LWA-300", 3, 4, 5), ant("LWA-100", 1, 0, 1)];
    let filter = resolve(&topology, &names(&["LWA-300", "LWA-100"]));
    assert_eq!(node_indices(&filter), vec![1, 3]);
}

#[test]
fn topology_parses_the_row_oriented_shape() {
    let doc = br#"{"lwacfg": {
        "ant0": {"antname": "LWA-100", "snap2_location": 1, "pola_fpga_num": 0, "polb_fpga_num": 1},
        "ant1": {"antname": "LWA-200", "snap2_location": 2, "pola_fpga_num": 2, "polb_fpga_num": 3}
    }}"#;
    let topo = parse_topology(doc).expect("document is well formed");
    assert_eq!(topo.len(), 2);
    let filter = resolve(&topo, &names(&["LWA-200", "LWA-100"]));
    let nodes: Vec<i64> = filter.iter().map(|a| a.snap2_location).collect();
    assert_eq!(nodes, vec![1, 2]);
    assert_eq!(filter[0].pola_fpga_num, 0);
    assert_eq!(filter[1].polb_fpga_num, 3);
}

#[test]
fn topology_parses_the_column_oriented_shape() {
    let doc = br#"{"lwacfg": {
        "antname": {"a": "LWA-100", "b": "LWA-200"},
        "snap2_location": {"a": 5, "b": 3},
        "pola_fpga_num": {"a": 10, "b": 12},
        "polb_fpga_num": {"a": 11, "b": 13}
    }}"#;
    let topo = parse_topology(doc).expect("document is well formed");
    assert_eq!(topo.len(), 2);
    let filter = resolve(&topo, &names(&["LWA-100", "LWA-200"]));
    let nodes: Vec<i64> = filter.iter().map(|a| a.snap2_location).collect();
    assert_eq!(nodes, vec![3, 5]);
    let by_node_3 = &filter[0];
    assert_eq!(by_node_3.antname, "LWA-200");
    assert_eq!(by_node_3.pola_fpga_num, 12);
}

#[test]
fn missing_fields_read_as_defaults() {
    let doc = br#"{"lwacfg": {
        "ant0": {"snap2_location": 1}
    }}"#;
    let topo = parse_topology(doc).expect("document is well formed");
    assert_eq!(topo.len(), 1);
    assert_eq!(topo[0].antname, "null");
    assert_eq!(topo[0].pola_fpga_num, -1);
    assert_eq!(topo[0].polb_fpga_num, -1);
}

#[test]
fn malformed_topology_documents_are_refused() {
    assert!(parse_topology(b"not json at all").is_none());
    assert!(parse_topology(br#"{"other": {}}"#).is_none());
    assert!(parse_topology(br#"{"lwacfg": 17}"#).is_none());
}
