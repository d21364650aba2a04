use hypermon::domain_state::State;
use hypermon::numfmt::{i128_dec, i64_dec, u64_dec};
use hypermon::present_json::render_json;
use hypermon::present_table::{record_cells, render_table};
use hypermon::records::{DomainOutput, IfaceStats};

fn record(name: &str, state: State, ifaces: Option<Vec<IfaceStats>>) -> DomainOutput {
    DomainOutput {
        name: name.to_string(),
        state,
        max_mem: 1024,
        memory: 512,
        num_virt_cpus: 2,
        cpu_time: 5,
        ifaces,
    }
}

fn iface(rx: i64, tx: i64) -> IfaceStats {
    IfaceStats {
        name: "vnet0".to_string(),
        mac: "52:54:00:00:00:01".to_string(),
        addresses: vec!["10.0.0.1/8".to_string()],
        rx_bytes: rx,
        tx_bytes: tx,
    }
}

#[test]
fn decimal_rendering_matches_expected_text() {
    assert_eq!(u64_dec(0), "0");
    assert_eq!(u64_dec(7), "7");
    assert_eq!(u64_dec(12345), "12345");
    assert_eq!(u64_dec(u64::MAX), "18446744073709551615");
    assert_eq!(i64_dec(0), "0");
    assert_eq!(i64_dec(-1), "-1");
    assert_eq!(i64_dec(i64::MIN), "-9223372036854775808");
    assert_eq!(i64_dec(i64::MAX), "9223372036854775807");
    assert_eq!(i128_dec(i128::MIN), "-170141183460469231731687303715884105728");
    assert_eq!(i128_dec(i128::MAX), "170141183460469231731687303715884105727");
}

#[test]
fn json_exact_text_for_a_plain_record() {
    let out = render_json(&vec![record("vm1", State::Running, None)]);
    assert_eq!(
        out,
        "[{\"name\":\"vm1\",\"state\":\"running\",\"max_mem\":1024,\"memory\":512,\"nr_virt_cpu\":2,\"cpu_time\":5}]"
    );
}

#[test]
fn json_none_interfaces_omits_the_ifaces_key() {
    let out = render_json(&vec![record("vm1", State::Running, None)]);
    let v: serde_json::Value = serde_json::from_str(&out).expect("valid JSON");
    let obj = v.as_array().unwrap()[0].as_object().unwrap();
    assert!(!obj.contains_key("ifaces"));
    assert_eq!(obj.get("name").unwrap(), "vm1");
    assert_eq!(obj.get("state").unwrap(), "running");
    assert_eq!(obj.get("max_mem").unwrap().as_u64(), Some(1024));
    assert_eq!(obj.get("memory").unwrap().as_u64(), Some(512));
    assert_eq!(obj.get("nr_virt_cpu").unwrap().as_u64(), Some(2));
    assert_eq!(obj.get("cpu_time").unwrap().as_u64(), Some(5));
}

#[test]
fn json_empty_interfaces_renders_empty_array() {
    let out = render_json(&vec![record("vm1", State::Shutoff, Some(vec![]))]);
    let v: serde_json::Value = serde_json::from_str(&out).expect("valid JSON");
    let obj = v.as_array().unwrap()[0].as_object().unwrap();
    assert_eq!(obj.get("ifaces").unwrap().as_array().unwrap().len(), 0);
}

#[test]
fn json_interfaces_carry_addresses_and_counters() {
    let out = render_json(&vec![record("vm1", State::Running, Some(vec![iface(100, 50)]))]);
    let v: serde_json::Value = serde_json::from_str(&out).expect("valid JSON");
    let ifaces = v.as_array().unwrap()[0]["ifaces"].as_array().unwrap();
    assert_eq!(ifaces.len(), 1);
    assert_eq!(ifaces[0]["name"], "vnet0");
    assert_eq!(ifaces[0]["addresses"].as_array().unwrap()[0], "10.0.0.1/8");
    assert_eq!(ifaces[0]["rx_bytes"].as_i64(), Some(100));
    assert_eq!(ifaces[0]["tx_bytes"].as_i64(), Some(50));
}

#[test]
fn json_escapes_quotes_and_backslashes_in_names() {
    let out = render_json(&vec![record("v\"m\\1", State::Running, None)]);
    let v: serde_json::Value = serde_json::from_str(&out).expect("valid JSON");
    assert_eq!(v.as_array().unwrap()[0]["name"], "v\"m\\1");
}

#[test]
fn json_escapes_control_characters() {
    let out = render_json(&vec![record("a\nb", State::Running, None)]);
    assert!(out.contains("\\u000a"));
    let v: serde_json::Value = serde_json::from_str(&out).expect("valid JSON");
    assert_eq!(v.as_array().unwrap()[0]["name"], "a\nb");
}

#[test]
fn json_empty_record_set_is_an_empty_array() {
    assert_eq!(render_json(&vec![]), "[]");
}

#[test]
fn cells_for_uncollected_interfaces_are_empty_strings() {
    let cells = record_cells(&record("vm1", State::Running, None), true);
    assert_eq!(cells.len(), 9);
    assert_eq!(cells[6], "");
    assert_eq!(cells[7], "");
    assert_eq!(cells[8], "");
}

#[test]
fn cells_for_collected_zero_interfaces_show_zeros() {
    let cells = record_cells(&record("vm1", State::Running, Some(vec![])), true);
    assert_eq!(cells[6], "0");
    assert_eq!(cells[7], "0");
    assert_eq!(cells[8], "0");
}

#[test]
fn cells_sum_byte_counters_over_interfaces() {
    let cells = record_cells(
        &record("vm1", State::Running, Some(vec![iface(100, 7), iface(50, 3)])),
        true,
    );
    assert_eq!(cells[6], "2");
    assert_eq!(cells[7], "150");
    assert_eq!(cells[8], "10");
}

#[test]
fn cells_sum_negative_unsupported_markers_through() {
    let cells = record_cells(
        &record("vm1", State::Running, Some(vec![iface(-1, -1), iface(100, 3)])),
        true,
    );
    assert_eq!(cells[7], "99");
    assert_eq!(cells[8], "2");
}

#[test]
fn cells_core_columns_render_the_attributes() {
    let cells = record_cells(&record("vm1", State::Paused, None), false);
    assert_eq!(cells.len(), 6);
    assert_eq!(cells[0], "vm1");
    assert_eq!(cells[1], "paused");
    assert_eq!(cells[2], "512");
    assert_eq!(cells[3], "1024");
    assert_eq!(cells[4], "2");
    assert_eq!(cells[5], "5");
}

#[test]
fn drawn_table_contains_headers_and_summed_totals() {
    let out = render_table(
        &vec![record("vm1", State::Running, Some(vec![iface(100, 7), iface(50, 3)]))],
        true,
    );
    assert!(out.contains("Name"));
    assert!(out.contains("Bytes Rx"));
    assert!(out.contains("vm1"));
    assert!(out.contains("running"));
    assert!(out.contains("150"));
    assert!(out.contains("10"));
}

#[test]
fn drawn_table_stores_names_line_split() {
    // The table stores each cell's text as its lines: a trailing line
    // break in a name is dropped and an embedded one starts a second
    // line within the same cell.
    let out = render_table(&vec![record("vm\n", State::Running, None)], false);
    assert!(out.contains("vm"));
    let two_line = render_table(&vec![record("a\r\nb", State::Running, None)], false);
    let a_rows: Vec<&str> = two_line.lines().filter(|l| l.contains(" a ")).collect();
    let b_rows: Vec<&str> = two_line.lines().filter(|l| l.contains(" b ")).collect();
    assert_eq!(a_rows.len(), 1);
    assert_eq!(b_rows.len(), 1);
}

#[test]
fn drawn_table_for_uncollected_interfaces_has_no_zero_totals() {
    let out = render_table(&vec![record("vm1", State::Running, None)], true);
    // The interface columns are empty strings, not zeros.
    let data_line = out.lines().find(|l| l.contains("vm1")).expect("row present");
    assert!(!data_line.contains(" 0 "));
}
