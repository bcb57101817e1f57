//! The classifier, the decoders of the kinds of event, and the handlers
//! that make the write of each kind.

use crate::db::{
    proposal_written, status_updated, update_proposal_status, update_proposal_voting_closed,
    vote_written, voting_closed, write_proposal, write_votes, InsertPolicy, Proposal,
    ProposalRow, Store, Tables, VoteRow, Votes,
};
use crate::event::{ContractEventV0, EventView};
use crate::value::{
    decode_vec_items, encode_symbol, encode_u32, encode_void, items_view, symbol_xdr, u32_xdr,
    vec_items_of, views, void_xdr, ContractId, Val, DECODE_DEPTH,
};
use vstd::prelude::*;
use vstd::string::StringSliceAdditionalSpecFns;

verus! {

/// The status of a proposal that was just created.
pub const STATUS_CREATED: u32 = 0;

/// The status of a proposal that ran out of time.
pub const STATUS_EXPIRED: u32 = 3;

/// The status of a proposal that was executed.
pub const STATUS_EXECUTED: u32 = 4;

/// The status of a proposal that was canceled.
pub const STATUS_CANCELED: u32 = 5;

/// The ledger of execution that a proposal has while none is scheduled.
pub const ETA_NONE: u32 = 0;

/// The first topics by which the events of a governor contract are known.
///
/// Built once per invocation and read for every event.
#[derive(Clone, Debug, PartialEq, Eq)]
pub struct EventTypes {
    pub vote_cast: Val,
    pub proposal_created: Val,
    pub proposal_canceled: Val,
    pub proposal_voting_closed: Val,
    pub proposal_executed: Val,
    pub proposal_expired: Val,
}

/// The first topics by which the kinds of event are known, each by its bytes.
pub struct EventNames {
    pub vote_cast: Seq<u8>,
    pub proposal_created: Seq<u8>,
    pub proposal_canceled: Seq<u8>,
    pub proposal_voting_closed: Seq<u8>,
    pub proposal_executed: Seq<u8>,
    pub proposal_expired: Seq<u8>,
}

impl View for EventTypes {
    type V = EventNames;

    open spec fn view(&self) -> EventNames {
        EventNames {
            vote_cast: self.vote_cast@,
            proposal_created: self.proposal_created@,
            proposal_canceled: self.proposal_canceled@,
            proposal_voting_closed: self.proposal_voting_closed@,
            proposal_executed: self.proposal_executed@,
            proposal_expired: self.proposal_expired@,
        }
    }
}

/// The kinds of event that the pipeline follows.
#[derive(Clone, Copy, Debug, PartialEq, Eq, Structural)]
pub enum EventKind {
    VoteCast,
    ProposalCreated,
    ProposalCanceled,
    ProposalExecuted,
    ProposalExpired,
    ProposalVotingClosed,
}

/// What became of an event.
#[derive(Clone, Copy, Debug, PartialEq, Eq, Structural)]
pub enum Outcome {
    /// The event was well formed and its write was made.
    Written,
    /// The event has no first topic, or one of no kind that is followed:
    /// nothing was written.
    Unknown,
    /// The event is of a kind that is followed but lacks a topic or an
    /// element of data, or its data has not the shape of its kind: nothing
    /// was written.
    Malformed,
    /// The event changes a proposal of which the table has no row: nothing
    /// was written.
    NotFound,
}

/// An event of a kind that is followed, with the fields of its kind.
#[derive(Clone, Debug, PartialEq, Eq)]
pub enum DomainEvent {
    /// A vote was cast: the row to append to the vote table.
    VoteCast(Votes),
    /// A proposal was created: the row to bring into the proposal table.
    ProposalCreated(Proposal),
    /// A proposal was canceled or executed, or it expired.
    StatusChanged { contract: ContractId, prop_num: Val, status: Val },
    /// Voting on a proposal was closed.
    VotingClosed { contract: ContractId, prop_num: Val, status: Val, eta: Val, votes: Val },
}

/// An event of a kind that is followed, each field by its bytes.
pub enum DomainEventView {
    VoteCast(VoteRow),
    ProposalCreated(ProposalRow),
    StatusChanged { contract: Seq<u8>, prop_num: Seq<u8>, status: Seq<u8> },
    VotingClosed {
        contract: Seq<u8>,
        prop_num: Seq<u8>,
        status: Seq<u8>,
        eta: Seq<u8>,
        votes: Seq<u8>,
    },
}

impl View for DomainEvent {
    type V = DomainEventView;

    open spec fn view(&self) -> DomainEventView {
        match *self {
            DomainEvent::VoteCast(row) => DomainEventView::VoteCast(row@),
            DomainEvent::ProposalCreated(row) => DomainEventView::ProposalCreated(row@),
            DomainEvent::StatusChanged { contract, prop_num, status } => {
                DomainEventView::StatusChanged {
                    contract: contract@,
                    prop_num: prop_num@,
                    status: status@,
                }
            },
            DomainEvent::VotingClosed { contract, prop_num, status, eta, votes } => {
                DomainEventView::VotingClosed {
                    contract: contract@,
                    prop_num: prop_num@,
                    status: status@,
                    eta: eta@,
                    votes: votes@,
                }
            },
        }
    }
}

/// The first topics of the governor contract's events: the symbols
/// `vote_cast`, `proposal_created`, `proposal_canceled`,
/// `proposal_voting_closed`, `proposal_executed` and `proposal_expired`.
pub open spec fn standard_names() -> EventNames {
    EventNames {
        vote_cast: symbol_xdr("vote_cast".spec_bytes()),
        proposal_created: symbol_xdr("proposal_created".spec_bytes()),
        proposal_canceled: symbol_xdr("proposal_canceled".spec_bytes()),
        proposal_voting_closed: symbol_xdr("proposal_voting_closed".spec_bytes()),
        proposal_executed: symbol_xdr("proposal_executed".spec_bytes()),
        proposal_expired: symbol_xdr("proposal_expired".spec_bytes()),
    }
}

/// The kind of an event with these topics: that of the first name that its
/// first topic equals as a whole value, if it has a first topic and that
/// equals one.
pub open spec fn kind_of(names: EventNames, topics: Seq<Seq<u8>>) -> Option<EventKind> {
    if topics.len() == 0 {
        None
    } else if topics[0] == names.vote_cast {
        Some(EventKind::VoteCast)
    } else if topics[0] == names.proposal_created {
        Some(EventKind::ProposalCreated)
    } else if topics[0] == names.proposal_canceled {
        Some(EventKind::ProposalCanceled)
    } else if topics[0] == names.proposal_executed {
        Some(EventKind::ProposalExecuted)
    } else if topics[0] == names.proposal_expired {
        Some(EventKind::ProposalExpired)
    } else if topics[0] == names.proposal_voting_closed {
        Some(EventKind::ProposalVotingClosed)
    } else {
        None
    }
}

/// The status that an event of a kind gives a proposal by its kind alone.
pub open spec fn status_of(kind: EventKind) -> Option<u32> {
    match kind {
        EventKind::ProposalCanceled => Some(STATUS_CANCELED),
        EventKind::ProposalExecuted => Some(STATUS_EXECUTED),
        EventKind::ProposalExpired => Some(STATUS_EXPIRED),
        _ => None,
    }
}

/// The vote row of a `vote_cast` event of `contract`, seen in `ledger`:
/// topics `[kind, prop_num, voter]`, data `[support, amount]`. `items` holds
/// the elements of the data where the data is a vector.
pub open spec fn vote_cast_row(
    contract: Seq<u8>,
    topics: Seq<Seq<u8>>,
    items: Option<Seq<Seq<u8>>>,
    ledger: Seq<u8>,
) -> Option<VoteRow> {
    if topics.len() >= 3 && items is Some && items->0.len() >= 2 {
        Some(
            VoteRow {
                contract,
                prop_num: topics[1],
                voter: topics[2],
                support: items->0[0],
                amount: items->0[1],
                ledger,
            },
        )
    } else {
        None
    }
}

/// The proposal row of a `proposal_created` event of `contract`: topics
/// `[kind, prop_num, creator]`, data `[title, description, action,
/// vote_start, vote_end]`. `items` holds the elements of the data where the
/// data is a vector. The row starts with the status of a created proposal,
/// no execution scheduled and a void tally.
pub open spec fn proposal_created_row(
    contract: Seq<u8>,
    topics: Seq<Seq<u8>>,
    items: Option<Seq<Seq<u8>>>,
) -> Option<ProposalRow> {
    if topics.len() >= 3 && items is Some && items->0.len() >= 5 {
        Some(
            ProposalRow {
                contract,
                prop_num: topics[1],
                title: items->0[0],
                descr: items->0[1],
                action: items->0[2],
                creator: topics[2],
                status: u32_xdr(STATUS_CREATED),
                start: items->0[3],
                end: items->0[4],
                eta: u32_xdr(ETA_NONE),
                votes: void_xdr(),
            },
        )
    } else {
        None
    }
}

/// The proposal number of an event that changes a status by its kind:
/// topics `[kind, prop_num]`.
pub open spec fn status_change_key(topics: Seq<Seq<u8>>) -> Option<Seq<u8>> {
    if topics.len() >= 2 {
        Some(topics[1])
    } else {
        None
    }
}

/// The fields of a `proposal_voting_closed` event of `contract`: topics
/// `[kind, prop_num, status, eta]`, and the data as the final tally.
pub open spec fn voting_closed_fields(contract: Seq<u8>, event: EventView) -> Option<
    DomainEventView,
> {
    if event.topics.len() >= 4 {
        Some(
            DomainEventView::VotingClosed {
                contract,
                prop_num: event.topics[1],
                status: event.topics[2],
                eta: event.topics[3],
                votes: event.data,
            },
        )
    } else {
        None
    }
}

/// What a `vote_cast` event does to the tables, and what becomes of it.
pub open spec fn vote_cast_handled(
    tables: Tables,
    contract: Seq<u8>,
    topics: Seq<Seq<u8>>,
    items: Option<Seq<Seq<u8>>>,
    ledger: Seq<u8>,
) -> (Tables, Outcome) {
    match vote_cast_row(contract, topics, items, ledger) {
        Some(row) => (vote_written(tables, row), Outcome::Written),
        None => (tables, Outcome::Malformed),
    }
}

/// What a `proposal_created` event does to the tables, and what becomes of
/// it.
pub open spec fn proposal_created_handled(
    tables: Tables,
    policy: InsertPolicy,
    contract: Seq<u8>,
    topics: Seq<Seq<u8>>,
    items: Option<Seq<Seq<u8>>>,
) -> (Tables, Outcome) {
    match proposal_created_row(contract, topics, items) {
        Some(row) => (proposal_written(tables, policy, row), Outcome::Written),
        None => (tables, Outcome::Malformed),
    }
}

/// What an event that sets a proposal's status to `status` does to the
/// tables, and what becomes of it.
pub open spec fn proposal_updated_handled(
    tables: Tables,
    contract: Seq<u8>,
    topics: Seq<Seq<u8>>,
    status: Seq<u8>,
) -> (Tables, Outcome) {
    match status_change_key(topics) {
        Some(prop_num) => match status_updated(tables, status, contract, prop_num) {
            Ok(after) => (after, Outcome::Written),
            Err(_) => (tables, Outcome::NotFound),
        },
        None => (tables, Outcome::Malformed),
    }
}

/// What a `proposal_voting_closed` event does to the tables, and what
/// becomes of it.
pub open spec fn proposal_voting_closed_handled(
    tables: Tables,
    contract: Seq<u8>,
    event: EventView,
) -> (Tables, Outcome) {
    match voting_closed_fields(contract, event) {
        Some(DomainEventView::VotingClosed { contract, prop_num, status, eta, votes }) => {
            match voting_closed(tables, status, eta, votes, contract, prop_num) {
                Ok(after) => (after, Outcome::Written),
                Err(_) => (tables, Outcome::NotFound),
            }
        },
        _ => (tables, Outcome::Malformed),
    }
}

/// What an event does to the tables, and what becomes of it: what the
/// handler of its kind makes of it, and nothing if it is of no kind that is
/// followed. `items` holds the elements of the event's data where the data
/// is a vector.
pub open spec fn event_handled(
    tables: Tables,
    policy: InsertPolicy,
    names: EventNames,
    contract: Seq<u8>,
    event: EventView,
    items: Option<Seq<Seq<u8>>>,
    ledger: Seq<u8>,
) -> (Tables, Outcome) {
    match kind_of(names, event.topics) {
        None => (tables, Outcome::Unknown),
        Some(EventKind::VoteCast) => vote_cast_handled(
            tables,
            contract,
            event.topics,
            items,
            ledger,
        ),
        Some(EventKind::ProposalCreated) => proposal_created_handled(
            tables,
            policy,
            contract,
            event.topics,
            items,
        ),
        Some(EventKind::ProposalVotingClosed) => proposal_voting_closed_handled(
            tables,
            contract,
            event,
        ),
        Some(kind) => proposal_updated_handled(
            tables,
            contract,
            event.topics,
            u32_xdr(status_of(kind)->0),
        ),
    }
}

/// The domain event that an event decodes to, or what becomes of the event
/// where it decodes to none. `items` holds the elements of the event's data
/// where the data is a vector.
pub open spec fn event_decoded(
    names: EventNames,
    contract: Seq<u8>,
    event: EventView,
    items: Option<Seq<Seq<u8>>>,
    ledger: Seq<u8>,
) -> Result<DomainEventView, Outcome> {
    match kind_of(names, event.topics) {
        None => Err(Outcome::Unknown),
        Some(EventKind::VoteCast) => match vote_cast_row(contract, event.topics, items, ledger) {
            Some(row) => Ok(DomainEventView::VoteCast(row)),
            None => Err(Outcome::Malformed),
        },
        Some(EventKind::ProposalCreated) => match proposal_created_row(
            contract,
            event.topics,
            items,
        ) {
            Some(row) => Ok(DomainEventView::ProposalCreated(row)),
            None => Err(Outcome::Malformed),
        },
        Some(EventKind::ProposalVotingClosed) => match voting_closed_fields(contract, event) {
            Some(fields) => Ok(fields),
            None => Err(Outcome::Malformed),
        },
        Some(kind) => match status_change_key(event.topics) {
            Some(prop_num) => Ok(
                DomainEventView::StatusChanged {
                    contract,
                    prop_num,
                    status: u32_xdr(status_of(kind)->0),
                },
            ),
            None => Err(Outcome::Malformed),
        },
    }
}

/// What a domain event does to the tables, and what becomes of it.
pub open spec fn event_applied(tables: Tables, policy: InsertPolicy, event: DomainEventView) -> (
    Tables,
    Outcome,
) {
    match event {
        DomainEventView::VoteCast(row) => (vote_written(tables, row), Outcome::Written),
        DomainEventView::ProposalCreated(row) => (
            proposal_written(tables, policy, row),
            Outcome::Written,
        ),
        DomainEventView::StatusChanged { contract, prop_num, status } => match status_updated(
            tables,
            status,
            contract,
            prop_num,
        ) {
            Ok(after) => (after, Outcome::Written),
            Err(_) => (tables, Outcome::NotFound),
        },
        DomainEventView::VotingClosed {
            contract,
            prop_num,
            status,
            eta,
            votes,
        } => match voting_closed(tables, status, eta, votes, contract, prop_num) {
            Ok(after) => (after, Outcome::Written),
            Err(_) => (tables, Outcome::NotFound),
        },
    }
}

/// The symbol spelled by a short name in plain letters.
fn symbol(name: &str) -> (r: Val)
    requires
        name.is_ascii(),
        name@.len() <= 32,
    ensures
        r@ == symbol_xdr(name.spec_bytes()),
{
    broadcast use vstd::string::is_ascii_spec_bytes;

    encode_symbol(name).unwrap()
}

impl EventTypes {
    /// The first topics of the governor contract's events.
    pub fn new() -> (r: Self)
        ensures
            r@ == standard_names(),
    {
        proof {
            reveal_strlit("vote_cast");
            reveal_strlit("proposal_created");
            reveal_strlit("proposal_canceled");
            reveal_strlit("proposal_voting_closed");
            reveal_strlit("proposal_executed");
            reveal_strlit("proposal_expired");
        }
        Self {
            vote_cast: symbol("vote_cast"),
            proposal_created: symbol("proposal_created"),
            proposal_canceled: symbol("proposal_canceled"),
            proposal_voting_closed: symbol("proposal_voting_closed"),
            proposal_executed: symbol("proposal_executed"),
            proposal_expired: symbol("proposal_expired"),
        }
    }

    /// Tells the kind of an event from its first topic, which names the kind
    /// if it equals one of the known first topics as a whole value.
    pub fn classify(&self, topics: &Vec<Val>) -> (r: Option<EventKind>)
        ensures
            r == kind_of(self@, views(topics@)),
    {
        if topics.len() == 0 {
            return None;
        }
        let topic0 = &topics[0];
        assert(views(topics@)[0] == topic0@);
        if topic0.same(&self.vote_cast) {
            Some(EventKind::VoteCast)
        } else if topic0.same(&self.proposal_created) {
            Some(EventKind::ProposalCreated)
        } else if topic0.same(&self.proposal_canceled) {
            Some(EventKind::ProposalCanceled)
        } else if topic0.same(&self.proposal_executed) {
            Some(EventKind::ProposalExecuted)
        } else if topic0.same(&self.proposal_expired) {
            Some(EventKind::ProposalExpired)
        } else if topic0.same(&self.proposal_voting_closed) {
            Some(EventKind::ProposalVotingClosed)
        } else {
            None
        }
    }
}

/// Decodes a `vote_cast` event of `contract_id` seen in ledger
/// `ledger_sequence`, given the elements of its data where the data is a
/// vector. `None` where a topic or an element is missing or the data is no
/// vector.
pub fn decode_vote_cast(
    contract_id: ContractId,
    topics: &Vec<Val>,
    items: &Option<Vec<Val>>,
    ledger_sequence: Val,
) -> (r: Option<Votes>)
    ensures
        match vote_cast_row(contract_id@, views(topics@), items_view(*items), ledger_sequence@) {
            Some(row) => r matches Some(votes) && votes@ == row,
            None => r is None,
        },
{
    if topics.len() < 3 {
        return None;
    }
    match items {
        Some(data) => {
            if data.len() < 2 {
                return None;
            }
            assert(views(topics@)[1] == topics@[1]@ && views(topics@)[2] == topics@[2]@);
            assert(views(data@)[0] == data@[0]@ && views(data@)[1] == data@[1]@);
            Some(
                Votes {
                    contract: contract_id,
                    prop_num: topics[1].copy(),
                    voter: topics[2].copy(),
                    support: data[0].copy(),
                    amount: data[1].copy(),
                    ledger: ledger_sequence,
                },
            )
        },
        None => None,
    }
}

/// Decodes a `proposal_created` event of `contract_id`, given the elements
/// of its data where the data is a vector. `None` where a topic or an
/// element is missing or the data is no vector.
pub fn decode_proposal_created(
    contract_id: ContractId,
    topics: &Vec<Val>,
    items: &Option<Vec<Val>>,
) -> (r: Option<Proposal>)
    ensures
        match proposal_created_row(contract_id@, views(topics@), items_view(*items)) {
            Some(row) => r matches Some(proposal) && proposal@ == row,
            None => r is None,
        },
{
    if topics.len() < 3 {
        return None;
    }
    match items {
        Some(data) => {
            if data.len() < 5 {
                return None;
            }
            assert(views(topics@)[1] == topics@[1]@ && views(topics@)[2] == topics@[2]@);
            assert(views(data@)[0] == data@[0]@ && views(data@)[1] == data@[1]@);
            assert(views(data@)[2] == data@[2]@ && views(data@)[3] == data@[3]@);
            assert(views(data@)[4] == data@[4]@);
            Some(
                Proposal {
                    contract: contract_id,
                    prop_num: topics[1].copy(),
                    title: data[0].copy(),
                    descr: data[1].copy(),
                    action: data[2].copy(),
                    creator: topics[2].copy(),
                    status: encode_u32(STATUS_CREATED),
                    start: data[3].copy(),
                    end: data[4].copy(),
                    eta: encode_u32(ETA_NONE),
                    votes: encode_void(),
                },
            )
        },
        None => None,
    }
}

/// Decodes the proposal number of an event that changes a status by its
/// kind. `None` where the topic is missing.
pub fn decode_proposal_updated(topics: &Vec<Val>) -> (r: Option<Val>)
    ensures
        match status_change_key(views(topics@)) {
            Some(prop_num) => r matches Some(v) && v@ == prop_num,
            None => r is None,
        },
{
    if topics.len() < 2 {
        return None;
    }
    assert(views(topics@)[1] == topics@[1]@);
    Some(topics[1].copy())
}

/// Decodes a `proposal_voting_closed` event of `contract_id`. `None` where a
/// topic is missing.
pub fn decode_proposal_voting_closed(contract_id: ContractId, event: &ContractEventV0) -> (r:
    Option<DomainEvent>)
    ensures
        match voting_closed_fields(contract_id@, event@) {
            Some(fields) => r matches Some(decoded) && decoded@ == fields,
            None => r is None,
        },
{
    if event.topics.len() < 4 {
        return None;
    }
    assert(views(event.topics@)[1] == event.topics@[1]@);
    assert(views(event.topics@)[2] == event.topics@[2]@);
    assert(views(event.topics@)[3] == event.topics@[3]@);
    Some(
        DomainEvent::VotingClosed {
            contract: contract_id,
            prop_num: event.topics[1].copy(),
            status: event.topics[2].copy(),
            eta: event.topics[3].copy(),
            votes: event.data.copy(),
        },
    )
}

/// Decodes an event of `contract_id` seen in ledger `ledger_sequence` into
/// the domain event of its kind, given its kind and the elements of its data
/// where the data is a vector.
pub fn decode_with_items(
    kind: EventKind,
    contract_id: ContractId,
    event: &ContractEventV0,
    items: &Option<Vec<Val>>,
    ledger_sequence: Val,
) -> (r: Result<DomainEvent, Outcome>)
    ensures
        match kind {
            EventKind::VoteCast => match vote_cast_row(
                contract_id@,
                event@.topics,
                items_view(*items),
                ledger_sequence@,
            ) {
                Some(row) => r matches Ok(decoded) && decoded@ == DomainEventView::VoteCast(row),
                None => r == Err::<DomainEvent, Outcome>(Outcome::Malformed),
            },
            EventKind::ProposalCreated => match proposal_created_row(
                contract_id@,
                event@.topics,
                items_view(*items),
            ) {
                Some(row) => r matches Ok(decoded) && decoded@
                    == DomainEventView::ProposalCreated(row),
                None => r == Err::<DomainEvent, Outcome>(Outcome::Malformed),
            },
            EventKind::ProposalVotingClosed => match voting_closed_fields(contract_id@, event@) {
                Some(fields) => r matches Ok(decoded) && decoded@ == fields,
                None => r == Err::<DomainEvent, Outcome>(Outcome::Malformed),
            },
            _ => match status_change_key(event@.topics) {
                Some(prop_num) => r matches Ok(decoded) && decoded@
                    == (DomainEventView::StatusChanged {
                    contract: contract_id@,
                    prop_num,
                    status: u32_xdr(status_of(kind)->0),
                }),
                None => r == Err::<DomainEvent, Outcome>(Outcome::Malformed),
            },
        },
{
    match kind {
        EventKind::VoteCast => {
            match decode_vote_cast(contract_id, &event.topics, items, ledger_sequence) {
                Some(votes) => Ok(DomainEvent::VoteCast(votes)),
                None => Err(Outcome::Malformed),
            }
        },
        EventKind::ProposalCreated => {
            match decode_proposal_created(contract_id, &event.topics, items) {
                Some(proposal) => Ok(DomainEvent::ProposalCreated(proposal)),
                None => Err(Outcome::Malformed),
            }
        },
        EventKind::ProposalVotingClosed => {
            match decode_proposal_voting_closed(contract_id, event) {
                Some(decoded) => Ok(decoded),
                None => Err(Outcome::Malformed),
            }
        },
        EventKind::ProposalCanceled | EventKind::ProposalExecuted | EventKind::ProposalExpired => {
            match decode_proposal_updated(&event.topics) {
                Some(prop_num) => {
                    let status = match kind {
                        EventKind::ProposalCanceled => encode_u32(STATUS_CANCELED),
                        EventKind::ProposalExecuted => encode_u32(STATUS_EXECUTED),
                        _ => encode_u32(STATUS_EXPIRED),
                    };
                    Ok(DomainEvent::StatusChanged { contract: contract_id, prop_num, status })
                },
                None => Err(Outcome::Malformed),
            }
        },
    }
}

/// Classifies an event of `contract_id` seen in ledger `ledger_sequence` and
/// decodes it into the domain event of its kind. Fails with what becomes of
/// the event where it is of no kind that is followed, or lacks what its kind
/// needs.
pub fn decode_event(
    types: &EventTypes,
    contract_id: ContractId,
    event: &ContractEventV0,
    ledger_sequence: Val,
) -> (r: Result<DomainEvent, Outcome>)
    ensures
        match event_decoded(
            types@,
            contract_id@,
            event@,
            vec_items_of(event@.data, DECODE_DEPTH),
            ledger_sequence@,
        ) {
            Ok(decoded) => r matches Ok(found) && found@ == decoded,
            Err(outcome) => r == Err::<DomainEvent, Outcome>(outcome),
        },
{
    match types.classify(&event.topics) {
        None => Err(Outcome::Unknown),
        Some(kind) => {
            let items = match kind {
                EventKind::VoteCast | EventKind::ProposalCreated => decode_vec_items(
                    &event.data,
                    DECODE_DEPTH,
                ),
                _ => None,
            };
            decode_with_items(kind, contract_id, event, &items, ledger_sequence)
        },
    }
}

/// Makes the write that a domain event asks for.
pub fn apply_event(store: &mut Store, event: DomainEvent) -> (out: Outcome)
    ensures
        final(store)@ == event_applied(old(store)@, old(store).policy, event@).0,
        out == event_applied(old(store)@, old(store).policy, event@).1,
        final(store).policy == old(store).policy,
{
    match event {
        DomainEvent::VoteCast(votes) => {
            write_votes(store, votes);
            Outcome::Written
        },
        DomainEvent::ProposalCreated(proposal) => {
            write_proposal(store, proposal);
            Outcome::Written
        },
        DomainEvent::StatusChanged { contract, prop_num, status } => {
            match update_proposal_status(store, status, contract, prop_num) {
                Ok(()) => Outcome::Written,
                Err(_) => Outcome::NotFound,
            }
        },
        DomainEvent::VotingClosed { contract, prop_num, status, eta, votes } => {
            match update_proposal_voting_closed(store, status, eta, votes, contract, prop_num) {
                Ok(()) => Outcome::Written,
                Err(_) => Outcome::NotFound,
            }
        },
    }
}

/// Handles a `vote_cast` event: appends one row to the vote table, made of
/// the event's fields and the ledger it was seen in, and touches no
/// proposal. Writes nothing where the event is malformed.
///
/// - topics: `[kind, prop_num, voter]`
/// - data: `[support, amount]`
pub fn handle_vote_cast(
    store: &mut Store,
    contract_id: ContractId,
    event: &ContractEventV0,
    ledger_sequence: Val,
) -> (out: Outcome)
    ensures
        final(store)@ == vote_cast_handled(
            old(store)@,
            contract_id@,
            event@.topics,
            vec_items_of(event@.data, DECODE_DEPTH),
            ledger_sequence@,
        ).0,
        out == vote_cast_handled(
            old(store)@,
            contract_id@,
            event@.topics,
            vec_items_of(event@.data, DECODE_DEPTH),
            ledger_sequence@,
        ).1,
        final(store).policy == old(store).policy,
{
    let items = decode_vec_items(&event.data, DECODE_DEPTH);
    match decode_vote_cast(contract_id, &event.topics, &items, ledger_sequence) {
        Some(votes) => {
            write_votes(store, votes);
            Outcome::Written
        },
        None => Outcome::Malformed,
    }
}

/// Handles a `proposal_created` event: brings one row into the proposal
/// table, with the status of a created proposal, no execution scheduled and
/// a void tally. Writes nothing where the event is malformed.
///
/// - topics: `[kind, prop_num, creator]`
/// - data: `[title, description, action, vote_start, vote_end]`
pub fn handle_proposal_created(
    store: &mut Store,
    contract_id: ContractId,
    event: &ContractEventV0,
) -> (out: Outcome)
    ensures
        final(store)@ == proposal_created_handled(
            old(store)@,
            old(store).policy,
            contract_id@,
            event@.topics,
            vec_items_of(event@.data, DECODE_DEPTH),
        ).0,
        out == proposal_created_handled(
            old(store)@,
            old(store).policy,
            contract_id@,
            event@.topics,
            vec_items_of(event@.data, DECODE_DEPTH),
        ).1,
        final(store).policy == old(store).policy,
{
    let items = decode_vec_items(&event.data, DECODE_DEPTH);
    match decode_proposal_created(contract_id, &event.topics, &items) {
        Some(proposal) => {
            write_proposal(store, proposal);
            Outcome::Written
        },
        None => Outcome::Malformed,
    }
}

/// Handles an event that gives a proposal the status `status`: sets the
/// status in the proposal's row. Writes nothing where the event is
/// malformed or the table has no row for the proposal.
///
/// - topics: `[kind, prop_num]`
pub fn handle_proposal_updated(
    store: &mut Store,
    contract_id: ContractId,
    event: &ContractEventV0,
    status: Val,
) -> (out: Outcome)
    ensures
        final(store)@ == proposal_updated_handled(
            old(store)@,
            contract_id@,
            event@.topics,
            status@,
        ).0,
        out == proposal_updated_handled(old(store)@, contract_id@, event@.topics, status@).1,
        final(store).policy == old(store).policy,
{
    match decode_proposal_updated(&event.topics) {
        Some(prop_num) => {
            match update_proposal_status(store, status, contract_id, prop_num) {
                Ok(()) => Outcome::Written,
                Err(_) => Outcome::NotFound,
            }
        },
        None => Outcome::Malformed,
    }
}

/// Handles a `proposal_voting_closed` event: sets the status, the ledger of
/// execution and the final tally in the proposal's row. Writes nothing where
/// the event is malformed or the table has no row for the proposal.
///
/// - topics: `[kind, prop_num, status, eta]`
/// - data: the final tally
pub fn handle_proposal_voting_closed(
    store: &mut Store,
    contract_id: ContractId,
    event: &ContractEventV0,
) -> (out: Outcome)
    ensures
        final(store)@ == proposal_voting_closed_handled(old(store)@, contract_id@, event@).0,
        out == proposal_voting_closed_handled(old(store)@, contract_id@, event@).1,
        final(store).policy == old(store).policy,
{
    match decode_proposal_voting_closed(contract_id, event) {
        Some(DomainEvent::VotingClosed { contract, prop_num, status, eta, votes }) => {
            match update_proposal_voting_closed(store, status, eta, votes, contract, prop_num) {
                Ok(()) => Outcome::Written,
                Err(_) => Outcome::NotFound,
            }
        },
        _ => Outcome::Malformed,
    }
}

/// Handles one event of `contract_id` seen in ledger `ledger_sequence`:
/// tells its kind from its first topic and hands it to the handler of that
/// kind. An event of no kind that is followed is passed over.
pub fn process_event(
    store: &mut Store,
    types: &EventTypes,
    contract_id: ContractId,
    event: &ContractEventV0,
    ledger_sequence: Val,
) -> (out: Outcome)
    ensures
        final(store)@ == event_handled(
            old(store)@,
            old(store).policy,
            types@,
            contract_id@,
            event@,
            vec_items_of(event@.data, DECODE_DEPTH),
            ledger_sequence@,
        ).0,
        out == event_handled(
            old(store)@,
            old(store).policy,
            types@,
            contract_id@,
            event@,
            vec_items_of(event@.data, DECODE_DEPTH),
            ledger_sequence@,
        ).1,
        final(store).policy == old(store).policy,
{
    match types.classify(&event.topics) {
        None => Outcome::Unknown,
        Some(EventKind::VoteCast) => handle_vote_cast(store, contract_id, event, ledger_sequence),
        Some(EventKind::ProposalCreated) => handle_proposal_created(store, contract_id, event),
        Some(EventKind::ProposalCanceled) => handle_proposal_updated(
            store,
            contract_id,
            event,
            encode_u32(STATUS_CANCELED),
        ),
        Some(EventKind::ProposalExecuted) => handle_proposal_updated(
            store,
            contract_id,
            event,
            encode_u32(STATUS_EXECUTED),
        ),
        Some(EventKind::ProposalExpired) => handle_proposal_updated(
            store,
            contract_id,
            event,
            encode_u32(STATUS_EXPIRED),
        ),
        Some(EventKind::ProposalVotingClosed) => handle_proposal_voting_closed(
            store,
            contract_id,
            event,
        ),
    }
}

} // verus!
