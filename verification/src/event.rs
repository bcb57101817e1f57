//! The events of a closed ledger, as the metadata of its transactions
//! records them, and the extractor that reads them out in order.

use crate::value::{views, ContractId, Val};
use vstd::prelude::*;

verus! {

/// The body of a contract event: its topics in order, of which the first
/// names the kind of event, and its data.
#[derive(Clone, Debug, PartialEq, Eq)]
pub struct ContractEventV0 {
    pub topics: Vec<Val>,
    pub data: Val,
}

/// The body of a contract event, by the version of its layout.
#[derive(Clone, Debug, PartialEq, Eq)]
pub enum ContractEventBody {
    V0(ContractEventV0),
}

/// An event as a transaction's metadata records it.
#[derive(Clone, Debug, PartialEq, Eq)]
pub struct ContractEvent {
    /// The contract that emitted the event, where one did.
    pub contract_id: Option<ContractId>,
    pub body: ContractEventBody,
}

/// What the execution of contract code left in a transaction's metadata.
#[derive(Clone, Debug, PartialEq, Eq)]
pub struct SorobanTransactionMeta {
    /// The events that the contracts emitted, in the order of emission.
    pub events: Vec<ContractEvent>,
}

/// The metadata of one transaction of a closed ledger.
#[derive(Clone, Debug, PartialEq, Eq)]
pub enum TransactionMeta {
    /// The layout that can hold contract events; it holds them where the
    /// transaction ran contract code.
    V3 { soroban_meta: Option<SorobanTransactionMeta> },
    /// Any other layout: it holds no contract events.
    Other,
}

/// An event ready for the pipeline: the contract that emitted it, and its
/// body.
#[derive(Clone, Debug, PartialEq, Eq)]
pub struct RawEvent {
    pub contract_id: ContractId,
    pub event: ContractEventV0,
}

/// The body of an event: its topics and its data, each by its bytes.
pub struct EventView {
    pub topics: Seq<Seq<u8>>,
    pub data: Seq<u8>,
}

/// An emitted event: the contract's identifier and the event's body.
pub struct Emitted {
    pub contract: Seq<u8>,
    pub event: EventView,
}

impl View for ContractEventV0 {
    type V = EventView;

    open spec fn view(&self) -> EventView {
        EventView { topics: views(self.topics@), data: self.data@ }
    }
}

impl View for RawEvent {
    type V = Emitted;

    open spec fn view(&self) -> Emitted {
        Emitted { contract: self.contract_id@, event: self.event@ }
    }
}

/// The events of a list, each as the pipeline sees it.
pub open spec fn raw_views(events: Seq<RawEvent>) -> Seq<Emitted> {
    events.map_values(|e: RawEvent| e@)
}

/// What one recorded event hands to the pipeline: itself, if a contract
/// emitted it, and nothing otherwise.
pub open spec fn emitted_by(event: ContractEvent) -> Seq<Emitted> {
    match event.contract_id {
        Some(id) => seq![Emitted { contract: id@, event: event.body->V0_0@ }],
        None => Seq::empty(),
    }
}

/// What a list of recorded events hands to the pipeline, in their order.
pub open spec fn emitted_among(events: Seq<ContractEvent>) -> Seq<Emitted>
    decreases events.len(),
{
    if events.len() == 0 {
        Seq::empty()
    } else {
        emitted_among(events.drop_last()) + emitted_by(events.last())
    }
}

/// What one transaction hands to the pipeline: the events of its contract
/// section, if its metadata has the layout that holds one and holds one.
pub open spec fn emitted_in(tx: TransactionMeta) -> Seq<Emitted> {
    match tx {
        TransactionMeta::V3 { soroban_meta: Some(soroban) } => emitted_among(soroban.events@),
        _ => Seq::empty(),
    }
}

/// What a ledger hands to the pipeline: the events of its transactions, in
/// the order of the transactions and, within each, in the order of emission.
pub open spec fn ledger_events(processing: Seq<TransactionMeta>) -> Seq<Emitted>
    decreases processing.len(),
{
    if processing.len() == 0 {
        Seq::empty()
    } else {
        ledger_events(processing.drop_last()) + emitted_in(processing.last())
    }
}

/// A copy of a list of values.
pub fn copy_vals(vals: &Vec<Val>) -> (r: Vec<Val>)
    ensures
        views(r@) == views(vals@),
{
    let mut out: Vec<Val> = Vec::new();
    let mut i: usize = 0;
    while i < vals.len()
        invariant
            i <= vals.len(),
            out@.len() == i,
            forall|j: int| 0 <= j < i ==> (#[trigger] out@[j])@ == vals@[j]@,
        decreases vals.len() - i,
    {
        out.push(vals[i].copy());
        i += 1;
    }
    assert(views(out@) =~= views(vals@));
    out
}

impl ContractEventV0 {
    /// A copy of this event body.
    pub fn copy(&self) -> (r: ContractEventV0)
        ensures
            r@ == self@,
    {
        ContractEventV0 { topics: copy_vals(&self.topics), data: self.data.copy() }
    }
}

/// Appends to `out` what the recorded events hand to the pipeline.
fn collect_events(events: &Vec<ContractEvent>, out: &mut Vec<RawEvent>)
    ensures
        raw_views(final(out)@) == raw_views(old(out)@) + emitted_among(events@),
{
    let ghost before = raw_views(out@);
    let mut i: usize = 0;
    assert(events@.take(0) =~= Seq::<ContractEvent>::empty());
    assert(raw_views(out@) =~= before + emitted_among(events@.take(0)));
    while i < events.len()
        invariant
            i <= events.len(),
            raw_views(out@) == before + emitted_among(events@.take(i as int)),
        decreases events.len() - i,
    {
        let ghost so_far = raw_views(out@);
        assert(events@.take(i + 1).drop_last() =~= events@.take(i as int));
        assert(events@.take(i + 1).last() == events@[i as int]);
        match events[i].contract_id {
            Some(contract_id) => {
                match &events[i].body {
                    ContractEventBody::V0(v0) => {
                        let raw = RawEvent { contract_id, event: v0.copy() };
                        out.push(raw);
                        assert(raw_views(out@) =~= so_far + emitted_by(events@[i as int]));
                    },
                }
            },
            None => {
                assert(raw_views(out@) =~= so_far + emitted_by(events@[i as int]));
            },
        }
        assert(raw_views(out@) =~= before + emitted_among(events@.take(i + 1)));
        i += 1;
    }
    assert(events@.take(i as int) =~= events@);
}

/// Reads the events of a closed ledger out of the metadata of its
/// transactions: every event of a contract, in the order of the transactions
/// and then of emission. A transaction without a contract section, or with
/// metadata in another layout, gives none.
pub fn extract_events(processing: &Vec<TransactionMeta>) -> (r: Vec<RawEvent>)
    ensures
        raw_views(r@) == ledger_events(processing@),
{
    let mut out: Vec<RawEvent> = Vec::new();
    let mut i: usize = 0;
    assert(processing@.take(0) =~= Seq::<TransactionMeta>::empty());
    assert(raw_views(out@) =~= ledger_events(processing@.take(0)));
    while i < processing.len()
        invariant
            i <= processing.len(),
            raw_views(out@) == ledger_events(processing@.take(i as int)),
        decreases processing.len() - i,
    {
        assert(processing@.take(i + 1).drop_last() =~= processing@.take(i as int));
        assert(processing@.take(i + 1).last() == processing@[i as int]);
        let ghost so_far = raw_views(out@);
        match &processing[i] {
            TransactionMeta::V3 { soroban_meta: Some(soroban) } => {
                collect_events(&soroban.events, &mut out);
            },
            _ => {
                assert(raw_views(out@) =~= so_far + emitted_in(processing@[i as int]));
            },
        }
        i += 1;
    }
    assert(processing@.take(i as int) =~= processing@);
    out
}

} // verus!
