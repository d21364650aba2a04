use hypermon::builder::{BuildAction, Builder, InventoryError};
use hypermon::domain_state::State;
use hypermon::records::DomainInfoDef;

fn info(state: u32, max_mem: u64, memory: u64, vcpus: u32, cpu_time: u64) -> DomainInfoDef {
    DomainInfoDef { state, max_mem, memory, nr_virt_cpu: vcpus, cpu_time }
}

#[test]
fn one_record_per_enumerated_handle() {
    let mut b = Builder::new(2, true);
    assert_eq!(b.next_action(), BuildAction::FetchName { index: 0 });
    b.on_name_ok("vm0".to_string());
    assert_eq!(b.next_action(), BuildAction::FetchInfo { index: 0 });
    b.on_info_ok(info(1, 2048, 1024, 2, 99));
    assert_eq!(b.next_action(), BuildAction::CollectIfaces { index: 0 });
    b.on_ifaces(None);
    assert_eq!(b.next_action(), BuildAction::FetchName { index: 1 });
    b.on_name_ok("vm1".to_string());
    b.on_info_ok(info(5, 4096, 0, 1, 0));
    b.on_ifaces(Some(vec![]));
    assert_eq!(b.next_action(), BuildAction::Finished);
    let records = b.into_records();
    assert_eq!(records.len(), 2);
    assert_eq!(records[0].name, "vm0");
    assert_eq!(records[0].state, State::Running);
    assert_eq!(records[0].max_mem, 2048);
    assert_eq!(records[0].memory, 1024);
    assert_eq!(records[0].num_virt_cpus, 2);
    assert_eq!(records[0].cpu_time, 99);
    assert_eq!(records[0].ifaces, None);
    assert_eq!(records[1].name, "vm1");
    assert_eq!(records[1].state, State::Shutoff);
    assert_eq!(records[1].ifaces, Some(vec![]));
}

#[test]
fn no_handles_finishes_with_empty_inventory() {
    let b = Builder::new(0, true);
    assert_eq!(b.next_action(), BuildAction::Finished);
    assert_eq!(b.into_records().len(), 0);
}

#[test]
fn without_interfaces_wanted_records_have_none() {
    let mut b = Builder::new(1, false);
    b.on_name_ok("vm".to_string());
    b.on_info_ok(info(3, 1, 1, 1, 1));
    assert_eq!(b.next_action(), BuildAction::Finished);
    let records = b.into_records();
    assert_eq!(records.len(), 1);
    assert_eq!(records[0].state, State::Paused);
    assert_eq!(records[0].ifaces, None);
}

#[test]
fn failing_name_fetch_is_fatal() {
    let mut b = Builder::new(2, false);
    b.on_name_err();
    assert_eq!(b.next_action(), BuildAction::Failed);
    assert_eq!(b.error(), InventoryError::NameFailed { index: 0 });
}

#[test]
fn failing_info_fetch_is_fatal() {
    let mut b = Builder::new(2, false);
    b.on_name_ok("vm0".to_string());
    b.on_info_ok(info(1, 1, 1, 1, 1));
    b.on_name_ok("vm1".to_string());
    b.on_info_err();
    assert_eq!(b.next_action(), BuildAction::Failed);
    assert_eq!(b.error(), InventoryError::InfoFailed { index: 1 });
}
