//! Aggregation of the managed computers into summaries: the whole inventory
//! first, page by page, then the catalog of available updates. Any failure
//! aborts the aggregation and no summary is returned.
use vstd::prelude::*;

use crate::inventory::{pages_for, InventoryFetch, InventoryFetchView};
use crate::models::{
    convert_jamf_computer_details, summary_of, Computer, DevicesOutput, JamfAvailableUpdates,
    JamfComputer, JamfComputerInventoryResponse,
};
use crate::sections::{inventory_query, pairs_view, ComputerInventorySection};
use crate::session::{JamfClientError, JamfClientImpl};
use crate::version::strings_view;

verus! {

/// The summaries of `records`, in order, against the update versions `updates`.
pub open spec fn summaries_of(records: Seq<JamfComputer>, updates: Seq<Seq<char>>) -> Seq<Computer> {
    records.map_values(|d: JamfComputer| summary_of(d, updates))
}

/// Maps every record to its summary, keeping the order of the records.
pub fn summarize(records: Vec<JamfComputer>, mac_os_versions: &Vec<String>) -> (r: DevicesOutput)
    ensures
        r.computers@ == summaries_of(records@, strings_view(mac_os_versions@)),
{
    let ghost orig = records@;
    let ghost n = records@.len();
    let mut rest = records;
    let mut reversed: Vec<JamfComputer> = Vec::new();
    while rest.len() > 0
        invariant
            orig.len() == n,
            rest@.len() + reversed@.len() == n,
            rest@ == orig.take(rest@.len() as int),
            forall|j: int| 0 <= j < reversed@.len() ==> #[trigger] reversed@[j] == orig[n - 1 - j],
        decreases rest@.len(),
    {
        let ghost before = rest@;
        let d = rest.pop().unwrap();
        assert(d == orig[rest@.len() as int]);
        assert(rest@ =~= orig.take(rest@.len() as int)) by {
            assert(rest@ =~= before.drop_last());
        }
        reversed.push(d);
    }
    let mut computers: Vec<Computer> = Vec::new();
    while reversed.len() > 0
        invariant
            orig.len() == n,
            computers@.len() + reversed@.len() == n,
            forall|j: int| 0 <= j < reversed@.len() ==> #[trigger] reversed@[j] == orig[n - 1 - j],
            forall|j: int| 0 <= j < computers@.len() ==> #[trigger] computers@[j] == summary_of(
                orig[j],
                strings_view(mac_os_versions@),
            ),
        decreases reversed@.len(),
    {
        let d = reversed.pop().unwrap();
        computers.push(convert_jamf_computer_details(d, mac_os_versions));
    }
    assert(computers@ =~= summaries_of(orig, strings_view(mac_os_versions@)));
    DevicesOutput { computers }
}

/// Lists the managed computers of one authenticated session.
pub struct ComputerProvider {
    pub jamf_client: JamfClientImpl,
}

/// The sections that the aggregation requests, in the order in which the
/// request names them.
pub open spec fn provider_sections() -> Seq<ComputerInventorySection> {
    seq![
        ComputerInventorySection::OperatingSystem,
        ComputerInventorySection::General,
        ComputerInventorySection::Hardware,
    ]
}

/// What the driver of an aggregation reports back.
pub enum ProviderEvent {
    /// The inventory page that was requested.
    InventoryPage(JamfComputerInventoryResponse),
    /// The catalog of available updates that was requested.
    Updates(JamfAvailableUpdates),
    /// The last request failed, for the given cause.
    RequestFailed(String),
}

/// What the driver of an aggregation is to do next.
pub enum ProviderAction {
    /// Request an inventory page with these query parameters.
    FetchInventoryPage(Vec<(String, String)>),
    /// Request the catalog of available updates.
    FetchUpdates,
    /// The aggregation succeeded with these summaries.
    Finished(DevicesOutput),
    /// The aggregation failed.
    Failed(JamfClientError),
}

/// Where an aggregation stands.
pub ghost enum Phase {
    /// Inventory pages are being requested.
    Inventory,
    /// The inventory is complete with these records; the update catalog is
    /// being requested.
    Updates(Seq<JamfComputer>),
    /// The aggregation has ended, by success or failure.
    Closed,
}

/// One aggregation in progress.
pub struct DevicesFetch {
    inventory: Option<InventoryFetch>,
    inventory_complete: bool,
    closed: bool,
}

impl DevicesFetch {
    /// Where the aggregation stands.
    pub closed spec fn phase(&self) -> Phase {
        if self.closed {
            Phase::Closed
        } else if self.inventory_complete {
            Phase::Updates(self.inventory().records)
        } else {
            Phase::Inventory
        }
    }

    /// The state of the inventory fetch.
    pub closed spec fn inventory(&self) -> InventoryFetchView {
        self.inventory->Some_0@
    }

    /// Until the aggregation ends it holds a well-formed inventory fetch of
    /// the provider's sections, and has requested the catalog exactly when
    /// no inventory page is left to request.
    pub closed spec fn wf(&self) -> bool {
        !self.closed ==> {
            &&& self.inventory is Some
            &&& self.inventory().wf()
            &&& self.inventory().sections == provider_sections()
            &&& self.inventory_complete != self.inventory().pending()
        }
    }
}

impl ComputerProvider {
    pub fn new(jamf_client: JamfClientImpl) -> (r: Self)
        ensures
            r.jamf_client == jamf_client,
    {
        ComputerProvider { jamf_client }
    }

    /// The sections that the aggregation requests: operating system, general
    /// and hardware, in that order.
    pub fn sections(&self) -> (r: Vec<ComputerInventorySection>)
        ensures
            r@ == provider_sections(),
    {
        let r = vec![
            ComputerInventorySection::OperatingSystem,
            ComputerInventorySection::General,
            ComputerInventorySection::Hardware,
        ];
        assert(r@ =~= provider_sections());
        r
    }

    /// Starts an aggregation: its first action requests inventory page 0.
    pub fn start_fetch(&self) -> (r: (DevicesFetch, ProviderAction))
        ensures
            r.0.wf(),
            r.0.phase() == Phase::Inventory,
            r.0.inventory().wf(),
            !r.0.inventory().started,
            match r.1 {
                ProviderAction::FetchInventoryPage(q) => pairs_view(q@) == inventory_query(
                    provider_sections(),
                    0,
                ),
                _ => false,
            },
    {
        let inventory = InventoryFetch::new(self.sections());
        let query = inventory.next_request().unwrap();
        let fetch = DevicesFetch { inventory: Some(inventory), inventory_complete: false, closed: false };
        (fetch, ProviderAction::FetchInventoryPage(query))
    }
}

impl DevicesFetch {
    /// Whether `event` answers the request that the last action made.
    pub open spec fn expects(&self, event: ProviderEvent) -> bool {
        match self.phase() {
            Phase::Inventory => !(event is Updates),
            Phase::Updates(_) => !(event is InventoryPage),
            Phase::Closed => false,
        }
    }

    /// Takes in the answer to the last request and decides what comes next.
    /// While the inventory is incomplete, each page is merged and the next
    /// page requested; once it is complete the update catalog is requested;
    /// with the catalog every record is summarised against its macOS list.
    /// A failed request, at any point, ends the aggregation with `FetchError`
    /// and no summaries.
    pub fn step(&mut self, event: ProviderEvent) -> (r: ProviderAction)
        requires
            old(self).wf(),
            old(self).expects(event),
        ensures
            final(self).wf(),
            match (old(self).phase(), event) {
                (_, ProviderEvent::RequestFailed(cause)) => {
                    &&& final(self).phase() == Phase::Closed
                    &&& r == ProviderAction::Failed(
                        JamfClientError::FetchError(cause),
                    )
                },
                (Phase::Inventory, ProviderEvent::InventoryPage(page)) => {
                    let before = old(self).inventory();
                    let after = final(self).inventory();
                    &&& after.wf()
                    &&& after.next_page == before.next_page + 1
                    &&& after.records == before.records + page.results@
                    &&& !before.started ==> after.total_count == page.total_count as nat
                    &&& before.started ==> after.total_count == before.total_count
                    &&& if after.pending() {
                        &&& final(self).phase() == Phase::Inventory
                        &&& r matches ProviderAction::FetchInventoryPage(q)
                        &&& pairs_view(q@) == inventory_query(provider_sections(), after.next_page)
                    } else {
                        &&& after.next_page == pages_for(after.total_count)
                        &&& final(self).phase() == Phase::Updates(after.records)
                        &&& r is FetchUpdates
                    }
                },
                (Phase::Updates(records), ProviderEvent::Updates(updates)) => {
                    &&& final(self).phase() == Phase::Closed
                    &&& r matches ProviderAction::Finished(out)
                    &&& out.computers@ == summaries_of(
                        records,
                        strings_view(updates.available_updates.mac_os@),
                    )
                },
                _ => false,
            },
    {
        match event {
            ProviderEvent::RequestFailed(cause) => {
                self.closed = true;
                ProviderAction::Failed(JamfClientError::FetchError(cause))
            },
            ProviderEvent::InventoryPage(page) => {
                let mut inventory = self.inventory.take().unwrap();
                inventory.receive(page);
                let next = inventory.next_request();
                self.inventory = Some(inventory);
                match next {
                    Some(query) => ProviderAction::FetchInventoryPage(query),
                    None => {
                        self.inventory_complete = true;
                        ProviderAction::FetchUpdates
                    },
                }
            },
            ProviderEvent::Updates(updates) => {
                let merged = self.inventory.take().unwrap().finish();
                self.closed = true;
                ProviderAction::Finished(summarize(merged.results, &updates.available_updates.mac_os))
            },
        }
    }
}

} // verus!
