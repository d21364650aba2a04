//! End-to-end scenarios: a scripted fake client drives the enumerator,
//! the builder and the collector exactly as an embedding program would,
//! and the presenters render the assembled records.

use hypermon::builder::{BuildAction, Builder};
use hypermon::collect::{CollectAction, IfaceCollector};
use hypermon::enumerate::{EnumAction, Enumerator};
use hypermon::present_json::render_json;
use hypermon::present_table::record_cells;
use hypermon::records::{DomainInfoDef, Interface, InterfaceCounters};

/// One scripted domain of the fake client.
#[derive(Clone)]
struct FakeDomain {
    id: u32,
    name: String,
    info: DomainInfoDef,
    /// `None` scripts a failing address lookup.
    ifaces: Option<Vec<(Interface, InterfaceCounters)>>,
}

/// A scripted hypervisor client that counts every call made to it.
struct FakeClient {
    domains: Vec<FakeDomain>,
    bulk_fails: bool,
    bulk_calls: usize,
    active_list_calls: usize,
    defined_list_calls: usize,
    id_lookups: usize,
    name_lookups: usize,
}

impl FakeClient {
    fn new(domains: Vec<FakeDomain>, bulk_fails: bool) -> Self {
        FakeClient {
            domains,
            bulk_fails,
            bulk_calls: 0,
            active_list_calls: 0,
            defined_list_calls: 0,
            id_lookups: 0,
            name_lookups: 0,
        }
    }

    /// Runs the enumeration loop; handles are positions into `domains`.
    fn enumerate(&mut self, include_inactive: bool) -> Vec<usize> {
        let mut e: Enumerator<usize> = Enumerator::new(include_inactive);
        loop {
            match e.next_action() {
                EnumAction::CallBulk { include_inactive: _ } => {
                    self.bulk_calls += 1;
                    if self.bulk_fails {
                        e.on_bulk_err();
                    } else {
                        e.on_bulk_ok((0..self.domains.len()).collect());
                    }
                }
                EnumAction::CallListActive => {
                    self.active_list_calls += 1;
                    e.on_active_ids_ok(self.domains.iter().map(|d| d.id).collect());
                }
                EnumAction::CallLookupById { id } => {
                    self.id_lookups += 1;
                    let pos = self.domains.iter().position(|d| d.id == id).unwrap();
                    e.on_id_handle_ok(pos);
                }
                EnumAction::CallListDefined => {
                    self.defined_list_calls += 1;
                    e.on_defined_names_ok(vec![]);
                }
                EnumAction::CallLookupByName => {
                    self.name_lookups += 1;
                    let name = e.current_name().clone();
                    let pos = self.domains.iter().position(|d| d.name == name).unwrap();
                    e.on_name_handle_ok(pos);
                }
                EnumAction::Finished => return e.into_handles(),
                EnumAction::Failed => panic!("enumeration failed: {:?}", e.error()),
            }
        }
    }

    /// Runs the collector loop for one domain.
    fn collect(&self, handle: usize) -> Option<Vec<hypermon::records::IfaceStats>> {
        let mut c = IfaceCollector::new();
        loop {
            match c.next_action() {
                CollectAction::CallAddresses => match &self.domains[handle].ifaces {
                    None => c.on_addrs_err(),
                    Some(pairs) => {
                        c.on_addrs_ok(pairs.iter().map(|(i, _)| i.clone()).collect())
                    }
                },
                CollectAction::CallStats => {
                    let hw = c.current_hwaddr().clone();
                    let pairs = self.domains[handle].ifaces.as_ref().unwrap();
                    let (_, counters) =
                        pairs.iter().find(|(i, _)| i.hwaddr == hw).unwrap();
                    c.on_stats_ok(*counters);
                }
                CollectAction::Finished => return c.into_result(),
            }
        }
    }

    /// Runs the whole inventory build.
    fn build(&mut self, include_inactive: bool) -> Vec<hypermon::records::DomainOutput> {
        let handles = self.enumerate(include_inactive);
        let mut b = Builder::new(handles.len(), true);
        loop {
            match b.next_action() {
                BuildAction::FetchName { index } => {
                    let h = handles[index];
                    b.on_name_ok(self.domains[h].name.clone());
                }
                BuildAction::FetchInfo { index } => {
                    let h = handles[index];
                    b.on_info_ok(self.domains[h].info);
                }
                BuildAction::CollectIfaces { index } => {
                    let h = handles[index];
                    let outcome = self.collect(h);
                    b.on_ifaces(outcome);
                }
                BuildAction::Finished => return b.into_records(),
                BuildAction::Failed => panic!("inventory failed: {:?}", b.error()),
            }
        }
    }
}

fn plain_domain(id: u32, name: &str, state: u32) -> FakeDomain {
    FakeDomain {
        id,
        name: name.to_string(),
        info: DomainInfoDef { state, max_mem: 2048, memory: 1024, nr_virt_cpu: 2, cpu_time: 77 },
        ifaces: Some(vec![]),
    }
}

#[test]
fn scenario_bulk_api_reports_two_active_domains() {
    // Two active domains via the bulk API, state codes 1 and 5.
    let mut client = FakeClient::new(
        vec![plain_domain(1, "one", 1), plain_domain(2, "two", 5)],
        false,
    );
    let records = client.build(false);
    assert_eq!(records.len(), 2);
    assert_eq!(records[0].state.label(), "running");
    assert_eq!(records[1].state.label(), "shutoff");
    // The legacy calls were never invoked.
    assert_eq!(client.bulk_calls, 1);
    assert_eq!(client.active_list_calls, 0);
    assert_eq!(client.defined_list_calls, 0);
    assert_eq!(client.id_lookups, 0);
    assert_eq!(client.name_lookups, 0);
    let out = render_json(&records);
    let v: serde_json::Value = serde_json::from_str(&out).unwrap();
    assert_eq!(v.as_array().unwrap().len(), 2);
    assert_eq!(v[0]["state"], "running");
    assert_eq!(v[1]["state"], "shutoff");
}

#[test]
fn scenario_bulk_fails_legacy_resolves_one_id() {
    // The bulk API fails; the legacy active list returns IDs [3] and
    // inactive domains are not wanted: exactly one domain is resolved
    // by ID and zero by name.
    let mut client = FakeClient::new(vec![plain_domain(3, "three", 1)], true);
    let records = client.build(false);
    assert_eq!(records.len(), 1);
    assert_eq!(records[0].name, "three");
    assert_eq!(client.bulk_calls, 1);
    assert_eq!(client.active_list_calls, 1);
    assert_eq!(client.id_lookups, 1);
    assert_eq!(client.name_lookups, 0);
    assert_eq!(client.defined_list_calls, 0);
}

#[test]
fn scenario_interface_lookup_failure_degrades_gracefully() {
    // The domain's info fetch succeeds but its interface address lookup
    // throws: the record has no `ifaces` field and the tabular Rx
    // column is an empty string.
    let mut domain = plain_domain(1, "one", 1);
    domain.ifaces = None;
    let mut client = FakeClient::new(vec![domain], false);
    let records = client.build(false);
    assert_eq!(records.len(), 1);
    assert_eq!(records[0].ifaces, None);
    let out = render_json(&records);
    let v: serde_json::Value = serde_json::from_str(&out).unwrap();
    assert!(!v[0].as_object().unwrap().contains_key("ifaces"));
    let cells = record_cells(&records[0], true);
    assert_eq!(cells[7], "");
}
