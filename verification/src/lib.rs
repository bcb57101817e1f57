//! Follows the events of governor contracts through the closing of a ledger
//! and keeps two tables of what they say: the proposals, one row for each,
//! and the votes, one row for each vote cast.
//!
//! An event goes through four hands. The extractor reads it out of the
//! metadata of its transaction. The classifier tells its kind from its first
//! topic. The decoder of that kind reads its fields out of the topics and the
//! data, and drops the event if one is missing. The last hand makes the
//! write: a vote is appended, a new proposal is brought in, a change of
//! status is written over the row of its proposal or fails where there is no
//! such row. Nothing that an event holds stops the events after it, and
//! what became of each event is reported, so that a dropped event can be
//! counted.
//!
//! The events followed are those of one generation of the contract:
//! `vote_cast`, `proposal_created` with the voting window in its data,
//! `proposal_canceled`, `proposal_executed` and `proposal_expired`, which
//! carry their status in their kind, and `proposal_voting_closed`, which
//! carries it in a topic.
//!
//! The contract values that events carry are held by their bytes, as the
//! store holds them; the value library of the ledger is called to spell the
//! few values that the pipeline makes itself and to take the data of an
//! event apart, and is believed in what it returns.

use crate::db::{InsertPolicy, Store, Tables};
use crate::event::{extract_events, ledger_events, raw_views, Emitted, RawEvent, TransactionMeta};
use crate::event_handler::{event_handled, process_event, standard_names, EventNames, EventTypes, Outcome};
use crate::value::{encode_u32, u32_xdr, vec_items_of, Val, DECODE_DEPTH};
use vstd::prelude::*;

pub mod db;
pub mod event;
pub mod event_handler;
pub mod laws;
pub mod proposal;
pub mod value;

verus! {

/// Why a conditional update of a proposal row was refused.
#[derive(Clone, Copy, Debug, PartialEq, Eq, Structural)]
pub enum GovernorError {
    /// No row of the proposal table carries the key of the event.
    ProposalNotFound,
}

/// What a run of events does to the tables, and what becomes of each event:
/// each event is handled in its turn, on the tables as the events before it
/// left them.
pub open spec fn events_handled(
    tables: Tables,
    policy: InsertPolicy,
    names: EventNames,
    events: Seq<Emitted>,
    ledger: Seq<u8>,
) -> (Tables, Seq<Outcome>)
    decreases events.len(),
{
    if events.len() == 0 {
        (tables, Seq::empty())
    } else {
        let before = events_handled(tables, policy, names, events.drop_last(), ledger);
        let last = events.last();
        let step = event_handled(
            before.0,
            policy,
            names,
            last.contract,
            last.event,
            vec_items_of(last.event.data, DECODE_DEPTH),
            ledger,
        );
        (step.0, before.1.push(step.1))
    }
}

/// The elements of the data of each event of a run, where the data is a
/// vector, as the reader of wire forms finds them.
pub open spec fn data_items(events: Seq<Emitted>) -> Seq<Option<Seq<Seq<u8>>>> {
    events.map_values(|e: Emitted| vec_items_of(e.event.data, DECODE_DEPTH))
}

/// What a run of events does to the tables, and what becomes of each event,
/// given for each event the elements of its data: `items` holds them in the
/// order of the events.
pub open spec fn events_handled_given(
    tables: Tables,
    policy: InsertPolicy,
    names: EventNames,
    events: Seq<Emitted>,
    items: Seq<Option<Seq<Seq<u8>>>>,
    ledger: Seq<u8>,
) -> (Tables, Seq<Outcome>)
    decreases events.len(),
{
    if events.len() == 0 {
        (tables, Seq::empty())
    } else {
        let before = events_handled_given(
            tables,
            policy,
            names,
            events.drop_last(),
            items.take(events.len() - 1),
            ledger,
        );
        let last = events.last();
        let step = event_handled(
            before.0,
            policy,
            names,
            last.contract,
            last.event,
            items[events.len() - 1],
            ledger,
        );
        (step.0, before.1.push(step.1))
    }
}

/// How many events of a run came to an outcome.
pub open spec fn count_of(outcomes: Seq<Outcome>, outcome: Outcome) -> nat
    decreases outcomes.len(),
{
    if outcomes.len() == 0 {
        0
    } else {
        count_of(outcomes.drop_last(), outcome) + if outcomes.last() == outcome {
            1nat
        } else {
            0nat
        }
    }
}

/// How many events of a run came to each outcome.
#[derive(Clone, Copy, Debug, PartialEq, Eq)]
pub struct Tally {
    /// The events whose write was made.
    pub written: usize,
    /// The events of no kind that is followed.
    pub unknown: usize,
    /// The events dropped for what they lack.
    pub malformed: usize,
    /// The events that changed a proposal the table has no row of.
    pub not_found: usize,
}

impl Tally {
    /// Whether an event of a kind that is followed left no trace in the
    /// tables: one was malformed, or changed a proposal that is not there.
    pub fn has_losses(&self) -> (r: bool)
        ensures
            r == (self.malformed > 0 || self.not_found > 0),
    {
        self.malformed > 0 || self.not_found > 0
    }
}

/// No outcome is counted more often than there are events.
pub proof fn lemma_count_of_bound(outcomes: Seq<Outcome>, outcome: Outcome)
    ensures
        count_of(outcomes, outcome) <= outcomes.len(),
    decreases outcomes.len(),
{
    if outcomes.len() > 0 {
        lemma_count_of_bound(outcomes.drop_last(), outcome);
    }
}

/// Counts the outcomes of a run, so that what was dropped or not found does
/// not pass unseen.
pub fn tally(outcomes: &Vec<Outcome>) -> (r: Tally)
    ensures
        r.written == count_of(outcomes@, Outcome::Written),
        r.unknown == count_of(outcomes@, Outcome::Unknown),
        r.malformed == count_of(outcomes@, Outcome::Malformed),
        r.not_found == count_of(outcomes@, Outcome::NotFound),
{
    let mut r = Tally { written: 0, unknown: 0, malformed: 0, not_found: 0 };
    let mut i: usize = 0;
    assert(outcomes@.take(0) =~= Seq::<Outcome>::empty());
    while i < outcomes.len()
        invariant
            i <= outcomes.len(),
            r.written == count_of(outcomes@.take(i as int), Outcome::Written),
            r.unknown == count_of(outcomes@.take(i as int), Outcome::Unknown),
            r.malformed == count_of(outcomes@.take(i as int), Outcome::Malformed),
            r.not_found == count_of(outcomes@.take(i as int), Outcome::NotFound),
        decreases outcomes.len() - i,
    {
        proof {
            assert(outcomes@.take(i + 1).drop_last() =~= outcomes@.take(i as int));
            assert(outcomes@.take(i + 1).last() == outcomes@[i as int]);
            lemma_count_of_bound(outcomes@.take(i as int), Outcome::Written);
            lemma_count_of_bound(outcomes@.take(i as int), Outcome::Unknown);
            lemma_count_of_bound(outcomes@.take(i as int), Outcome::Malformed);
            lemma_count_of_bound(outcomes@.take(i as int), Outcome::NotFound);
        }
        match outcomes[i] {
            Outcome::Written => {
                r.written = r.written + 1;
            },
            Outcome::Unknown => {
                r.unknown = r.unknown + 1;
            },
            Outcome::Malformed => {
                r.malformed = r.malformed + 1;
            },
            Outcome::NotFound => {
                r.not_found = r.not_found + 1;
            },
        }
        i += 1;
    }
    assert(outcomes@.take(i as int) =~= outcomes@);
    r
}

/// Handles a run of events seen in ledger `ledger_sequence`, one after the
/// other and in their order, and reports what became of each. No event stops
/// the run: one that is unknown or malformed, or that changes a proposal
/// that is not there, writes nothing and the next is taken up.
pub fn process_events(
    store: &mut Store,
    types: &EventTypes,
    events: &Vec<RawEvent>,
    ledger_sequence: &Val,
) -> (outcomes: Vec<Outcome>)
    ensures
        final(store)@ == events_handled(
            old(store)@,
            old(store).policy,
            types@,
            raw_views(events@),
            ledger_sequence@,
        ).0,
        outcomes@ == events_handled(
            old(store)@,
            old(store).policy,
            types@,
            raw_views(events@),
            ledger_sequence@,
        ).1,
        final(store).policy == old(store).policy,
{
    let ghost start = store@;
    let ghost policy = store.policy;
    let ghost all = raw_views(events@);
    let mut outcomes: Vec<Outcome> = Vec::new();
    let mut i: usize = 0;
    assert(all.take(0) =~= Seq::<Emitted>::empty());
    while i < events.len()
        invariant
            i <= events.len(),
            all == raw_views(events@),
            store.policy == policy,
            store@ == events_handled(start, policy, types@, all.take(i as int), ledger_sequence@).0,
            outcomes@ == events_handled(
                start,
                policy,
                types@,
                all.take(i as int),
                ledger_sequence@,
            ).1,
        decreases events.len() - i,
    {
        proof {
            assert(all.take(i + 1).drop_last() =~= all.take(i as int));
            assert(all.take(i + 1).last() == events@[i as int]@);
        }
        let raw = &events[i];
        let outcome = process_event(
            store,
            types,
            raw.contract_id,
            &raw.event,
            ledger_sequence.copy(),
        );
        outcomes.push(outcome);
        i += 1;
    }
    proof {
        assert(all.take(i as int) =~= all);
    }
    outcomes
}

/// Takes in one closed ledger: reads the contract events out of the metadata
/// of its transactions, in the order of the transactions and of emission,
/// and handles each against the tables, with `ledger_sequence` as the ledger
/// of the votes cast. Reports what became of each event.
pub fn on_close(store: &mut Store, ledger_sequence: u32, processing: &Vec<TransactionMeta>) -> (outcomes:
    Vec<Outcome>)
    ensures
        final(store)@ == events_handled(
            old(store)@,
            old(store).policy,
            standard_names(),
            ledger_events(processing@),
            u32_xdr(ledger_sequence),
        ).0,
        outcomes@ == events_handled(
            old(store)@,
            old(store).policy,
            standard_names(),
            ledger_events(processing@),
            u32_xdr(ledger_sequence),
        ).1,
        final(store).policy == old(store).policy,
{
    let ledger = encode_u32(ledger_sequence);
    let types = EventTypes::new();
    let events = extract_events(processing);
    process_events(store, &types, &events, &ledger)
}

} // verus!
