//! What holds of the pipeline whatever the events and the tables are.
//!
//! Where a law speaks of `items`, it speaks of the elements of an event's
//! data: it holds of every value of them, and so of the one that the reader
//! of wire forms finds in the data.

use crate::db::{
    column_of, first_with_key, has_key, lemma_first_with_key, proposal_columns,
    proposal_of_segments, proposal_segments, proposal_written, replace_key, status_updated,
    voting_closed, with_status, with_voting_closed, InsertPolicy, ProposalRow, Tables, VoteRow,
};
use crate::event::{Emitted, EventView};
use crate::event_handler::{
    event_applied, event_decoded, event_handled, kind_of, proposal_created_row, standard_names,
    status_of, EventKind, EventNames, Outcome, ETA_NONE, STATUS_CREATED,
};
use crate::{count_of, data_items, events_handled, events_handled_given};
use crate::value::{u32_xdr, vec_items_of, void_xdr, DECODE_DEPTH};
use crate::GovernorError;
use vstd::prelude::*;
use vstd::string::StringSliceAdditionalSpecFns;

verus! {

/// Whether no two rows of a proposal table have the same key.
pub open spec fn unique_keys(rows: Seq<ProposalRow>) -> bool {
    forall|i: int, j: int|
        0 <= i < rows.len() && 0 <= j < rows.len() && i != j ==> !has_key(
            #[trigger] rows[i],
            (#[trigger] rows[j]).contract,
            rows[j].prop_num,
        )
}

/// Whether the row at place `i` is the only row of proposal `prop_num` of
/// `contract`.
pub open spec fn only_row_with_key(
    rows: Seq<ProposalRow>,
    i: int,
    contract: Seq<u8>,
    prop_num: Seq<u8>,
) -> bool {
    &&& 0 <= i < rows.len()
    &&& has_key(rows[i], contract, prop_num)
    &&& forall|j: int| 0 <= j < rows.len() && j != i ==> !has_key(
        #[trigger] rows[j],
        contract,
        prop_num,
    )
}

/// Whether an event lacks a topic or an element of data that its kind needs,
/// or has data that is no vector where its kind needs one. `items` holds the
/// elements of the data where the data is a vector.
pub open spec fn lacks_fields(kind: EventKind, event: EventView, items: Option<Seq<Seq<u8>>>) -> bool {
    match kind {
        EventKind::VoteCast => event.topics.len() < 3 || items is None || items->0.len() < 2,
        EventKind::ProposalCreated => event.topics.len() < 3 || items is None || items->0.len()
            < 5,
        EventKind::ProposalVotingClosed => event.topics.len() < 4,
        _ => event.topics.len() < 2,
    }
}

/// Whether the six first topics are six different values.
pub open spec fn names_differ(names: EventNames) -> bool {
    &&& names.vote_cast != names.proposal_created
    &&& names.vote_cast != names.proposal_canceled
    &&& names.vote_cast != names.proposal_executed
    &&& names.vote_cast != names.proposal_expired
    &&& names.vote_cast != names.proposal_voting_closed
    &&& names.proposal_created != names.proposal_canceled
    &&& names.proposal_created != names.proposal_executed
    &&& names.proposal_created != names.proposal_expired
    &&& names.proposal_created != names.proposal_voting_closed
    &&& names.proposal_canceled != names.proposal_executed
    &&& names.proposal_canceled != names.proposal_expired
    &&& names.proposal_canceled != names.proposal_voting_closed
    &&& names.proposal_executed != names.proposal_expired
    &&& names.proposal_executed != names.proposal_voting_closed
    &&& names.proposal_expired != names.proposal_voting_closed
}

/// The bytes of a name in plain letters are its letters, one byte each.
proof fn lemma_plain_name(name: &str)
    requires
        name.is_ascii(),
    ensures
        name.spec_bytes().len() == name@.len(),
        forall|i: int| 0 <= i < name@.len() ==> name.spec_bytes()[i] == name@[i] as u8,
{
    broadcast use vstd::string::is_ascii_spec_bytes;

}

/// The first topics of the governor contract's events are six different
/// values.
pub proof fn law_standard_names_differ()
    ensures
        names_differ(standard_names()),
{
    reveal_strlit("vote_cast");
    reveal_strlit("proposal_created");
    reveal_strlit("proposal_canceled");
    reveal_strlit("proposal_voting_closed");
    reveal_strlit("proposal_executed");
    reveal_strlit("proposal_expired");
    lemma_plain_name("vote_cast");
    lemma_plain_name("proposal_created");
    lemma_plain_name("proposal_canceled");
    lemma_plain_name("proposal_voting_closed");
    lemma_plain_name("proposal_executed");
    lemma_plain_name("proposal_expired");
    let names = standard_names();
    assert(names.vote_cast[7] == 9u8);
    assert(names.proposal_created[7] == 16u8);
    assert(names.proposal_canceled[7] == 17u8);
    assert(names.proposal_voting_closed[7] == 22u8);
    assert(names.proposal_executed[7] == 17u8);
    assert(names.proposal_expired[7] == 16u8);
    assert(names.proposal_created[17] == 99u8);
    assert(names.proposal_expired[17] == 101u8);
    assert(names.proposal_canceled[17] == 99u8);
    assert(names.proposal_executed[17] == 101u8);
}

/// Where the six first topics are six different values, an event is of a
/// kind exactly when its first topic is the first topic of that kind.
pub proof fn law_kind_is_told_by_first_topic(names: EventNames, topics: Seq<Seq<u8>>)
    requires
        names_differ(names),
        topics.len() > 0,
    ensures
        kind_of(names, topics) == Some(EventKind::VoteCast) <==> topics[0] == names.vote_cast,
        kind_of(names, topics) == Some(EventKind::ProposalCreated) <==> topics[0]
            == names.proposal_created,
        kind_of(names, topics) == Some(EventKind::ProposalCanceled) <==> topics[0]
            == names.proposal_canceled,
        kind_of(names, topics) == Some(EventKind::ProposalExecuted) <==> topics[0]
            == names.proposal_executed,
        kind_of(names, topics) == Some(EventKind::ProposalExpired) <==> topics[0]
            == names.proposal_expired,
        kind_of(names, topics) == Some(EventKind::ProposalVotingClosed) <==> topics[0]
            == names.proposal_voting_closed,
{
}

/// To handle a run of events and then another is to handle the two as one
/// run: the tables come out the same and the outcomes follow one another.
pub proof fn law_runs_compose(
    tables: Tables,
    policy: InsertPolicy,
    names: EventNames,
    first: Seq<Emitted>,
    second: Seq<Emitted>,
    ledger: Seq<u8>,
)
    ensures
        ({
            let middle = events_handled(tables, policy, names, first, ledger);
            let end = events_handled(middle.0, policy, names, second, ledger);
            events_handled(tables, policy, names, first + second, ledger) == (
                end.0,
                middle.1 + end.1,
            )
        }),
    decreases second.len(),
{
    let middle = events_handled(tables, policy, names, first, ledger);
    let end = events_handled(middle.0, policy, names, second, ledger);
    if second.len() == 0 {
        assert(first + second =~= first);
        assert(middle.1 + end.1 =~= middle.1);
    } else {
        law_runs_compose(tables, policy, names, first, second.drop_last(), ledger);
        assert((first + second).drop_last() =~= first + second.drop_last());
        assert((first + second).last() == second.last());
        let before = events_handled(middle.0, policy, names, second.drop_last(), ledger);
        assert(middle.1 + end.1 =~= (middle.1 + before.1).push(end.1.last()));
    }
}

/// A well-formed `vote_cast` event appends exactly one row to the vote
/// table, made of the contract, the event's proposal number, voter, support
/// and amount and the ledger it was seen in, and leaves the proposal table
/// as it was.
pub proof fn law_vote_cast_appends_one_vote(
    tables: Tables,
    policy: InsertPolicy,
    names: EventNames,
    contract: Seq<u8>,
    event: EventView,
    items: Seq<Seq<u8>>,
    ledger: Seq<u8>,
)
    requires
        kind_of(names, event.topics) == Some(EventKind::VoteCast),
        event.topics.len() >= 3,
        items.len() >= 2,
    ensures
        event_handled(tables, policy, names, contract, event, Some(items), ledger).1
            == Outcome::Written,
        event_handled(tables, policy, names, contract, event, Some(items), ledger).0.votes
            == tables.votes.push(
            VoteRow {
                contract,
                prop_num: event.topics[1],
                voter: event.topics[2],
                support: items[0],
                amount: items[1],
                ledger,
            },
        ),
        event_handled(tables, policy, names, contract, event, Some(items), ledger).0.proposals
            == tables.proposals,
{
}

/// A well-formed `proposal_created` event brings exactly one row into the
/// proposal table, with the status of a created proposal, no execution
/// scheduled and a void tally, and leaves the vote table as it was. Where
/// rows are appended whatever the table holds, or the table has no row with
/// the key, the row is appended and every row stays; where rows are kept one
/// to a key and the table has rows with the key, the row takes the place of
/// each of them and every other row stays.
pub proof fn law_proposal_created_writes_one_row(
    tables: Tables,
    policy: InsertPolicy,
    names: EventNames,
    contract: Seq<u8>,
    event: EventView,
    items: Seq<Seq<u8>>,
    ledger: Seq<u8>,
)
    requires
        kind_of(names, event.topics) == Some(EventKind::ProposalCreated),
        event.topics.len() >= 3,
        items.len() >= 5,
    ensures
        ({
            let after = event_handled(tables, policy, names, contract, event, Some(items), ledger);
            let row = ProposalRow {
                contract,
                prop_num: event.topics[1],
                title: items[0],
                descr: items[1],
                action: items[2],
                creator: event.topics[2],
                status: u32_xdr(STATUS_CREATED),
                start: items[3],
                end: items[4],
                eta: u32_xdr(ETA_NONE),
                votes: void_xdr(),
            };
            let present = exists|i: int|
                0 <= i < tables.proposals.len() && has_key(
                    #[trigger] tables.proposals[i],
                    contract,
                    event.topics[1],
                );
            &&& after.1 == Outcome::Written
            &&& after.0.votes == tables.votes
            &&& policy == InsertPolicy::Append || !present ==> after.0.proposals
                == tables.proposals.push(row)
            &&& policy == InsertPolicy::Upsert && present ==> after.0.proposals == replace_key(
                tables.proposals,
                contract,
                event.topics[1],
                row,
            )
        }),
{
    lemma_first_with_key(tables.proposals, contract, event.topics[1]);
}

/// Where rows are appended whatever the table holds, a well-formed
/// `proposal_created` event appends its row behind the rows that are there,
/// whether or not one of them has its key: no row is read for it, none is
/// changed, and the event is not refused. The vote table stays as it was.
pub proof fn law_proposal_created_appends_blindly(
    tables: Tables,
    names: EventNames,
    contract: Seq<u8>,
    event: EventView,
    items: Seq<Seq<u8>>,
    ledger: Seq<u8>,
)
    requires
        kind_of(names, event.topics) == Some(EventKind::ProposalCreated),
        event.topics.len() >= 3,
        items.len() >= 5,
    ensures
        event_handled(
            tables,
            InsertPolicy::Append,
            names,
            contract,
            event,
            Some(items),
            ledger,
        ) == (
            Tables {
                proposals: tables.proposals.push(
                    ProposalRow {
                        contract,
                        prop_num: event.topics[1],
                        title: items[0],
                        descr: items[1],
                        action: items[2],
                        creator: event.topics[2],
                        status: u32_xdr(STATUS_CREATED),
                        start: items[3],
                        end: items[4],
                        eta: u32_xdr(ETA_NONE),
                        votes: void_xdr(),
                    },
                ),
                votes: tables.votes,
            },
            Outcome::Written,
        ),
{
}

/// A run of events is handled as it is handled given, for each event, the
/// elements that the reader of wire forms finds in its data.
pub proof fn law_run_is_run_given_the_data_items(
    tables: Tables,
    policy: InsertPolicy,
    names: EventNames,
    events: Seq<Emitted>,
    ledger: Seq<u8>,
)
    ensures
        events_handled(tables, policy, names, events, ledger) == events_handled_given(
            tables,
            policy,
            names,
            events,
            data_items(events),
            ledger,
        ),
    decreases events.len(),
{
    if events.len() > 0 {
        law_run_is_run_given_the_data_items(tables, policy, names, events.drop_last(), ledger);
        assert(data_items(events).take(events.len() - 1) =~= data_items(events.drop_last()));
    }
}

/// Every event of a run comes to exactly one of the four outcomes: the four
/// counts of a run add up to the number of its events.
pub proof fn law_outcomes_add_up(outcomes: Seq<Outcome>)
    ensures
        count_of(outcomes, Outcome::Written) + count_of(outcomes, Outcome::Unknown) + count_of(
            outcomes,
            Outcome::Malformed,
        ) + count_of(outcomes, Outcome::NotFound) == outcomes.len(),
    decreases outcomes.len(),
{
    if outcomes.len() > 0 {
        law_outcomes_add_up(outcomes.drop_last());
    }
}

/// Setting the status of a proposal whose key exactly one row has changes
/// the status column of that row and nothing else: every other column of the
/// row, every other row and the vote table stay as they were.
pub proof fn law_status_update_touches_one_column(
    tables: Tables,
    i: int,
    status: Seq<u8>,
    contract: Seq<u8>,
    prop_num: Seq<u8>,
)
    requires
        only_row_with_key(tables.proposals, i, contract, prop_num),
    ensures
        status_updated(tables, status, contract, prop_num) == Ok::<Tables, GovernorError>(
            Tables {
                proposals: tables.proposals.update(i, with_status(tables.proposals[i], status)),
                votes: tables.votes,
            },
        ),
{
    lemma_first_with_key(tables.proposals, contract, prop_num);
    let found = first_with_key(tables.proposals, contract, prop_num)->0;
    assert(found == i);
    let row = with_status(tables.proposals[i], status);
    assert(replace_key(tables.proposals, contract, prop_num, row) =~= tables.proposals.update(
        i,
        row,
    ));
}

/// Closing the voting on a proposal whose key exactly one row has changes
/// the status, the ledger of execution and the final tally of that row
/// together, and nothing else: every other column of the row, every other
/// row and the vote table stay as they were.
pub proof fn law_voting_closed_touches_three_columns(
    tables: Tables,
    i: int,
    status: Seq<u8>,
    eta: Seq<u8>,
    votes: Seq<u8>,
    contract: Seq<u8>,
    prop_num: Seq<u8>,
)
    requires
        only_row_with_key(tables.proposals, i, contract, prop_num),
    ensures
        voting_closed(tables, status, eta, votes, contract, prop_num) == Ok::<
            Tables,
            GovernorError,
        >(
            Tables {
                proposals: tables.proposals.update(
                    i,
                    with_voting_closed(tables.proposals[i], status, eta, votes),
                ),
                votes: tables.votes,
            },
        ),
{
    lemma_first_with_key(tables.proposals, contract, prop_num);
    let found = first_with_key(tables.proposals, contract, prop_num)->0;
    assert(found == i);
    let row = with_voting_closed(tables.proposals[i], status, eta, votes);
    assert(replace_key(tables.proposals, contract, prop_num, row) =~= tables.proposals.update(
        i,
        row,
    ));
}

/// An event that changes the status of a proposal whose key exactly one row
/// has, by its kind or at the close of voting, is written, changes in that
/// row the columns of its kind and leaves every other column, every other
/// row and the vote table as they were.
pub proof fn law_status_event_touches_one_row(
    tables: Tables,
    policy: InsertPolicy,
    names: EventNames,
    contract: Seq<u8>,
    event: EventView,
    items: Option<Seq<Seq<u8>>>,
    ledger: Seq<u8>,
    i: int,
)
    requires
        kind_of(names, event.topics) matches Some(kind) && kind != EventKind::VoteCast && kind
            != EventKind::ProposalCreated && !lacks_fields(kind, event, items),
        only_row_with_key(tables.proposals, i, contract, event.topics[1]),
    ensures
        ({
            let after = event_handled(tables, policy, names, contract, event, items, ledger);
            let kind = kind_of(names, event.topics)->0;
            let row = tables.proposals[i];
            &&& after.1 == Outcome::Written
            &&& after.0.votes == tables.votes
            &&& kind != EventKind::ProposalVotingClosed ==> after.0.proposals
                == tables.proposals.update(i, with_status(row, u32_xdr(status_of(kind)->0)))
            &&& kind == EventKind::ProposalVotingClosed ==> after.0.proposals
                == tables.proposals.update(
                i,
                with_voting_closed(row, event.topics[2], event.topics[3], event.data),
            )
        }),
{
    let kind = kind_of(names, event.topics)->0;
    if kind == EventKind::ProposalVotingClosed {
        law_voting_closed_touches_three_columns(
            tables,
            i,
            event.topics[2],
            event.topics[3],
            event.data,
            contract,
            event.topics[1],
        );
    } else {
        law_status_update_touches_one_column(
            tables,
            i,
            u32_xdr(status_of(kind)->0),
            contract,
            event.topics[1],
        );
    }
}

/// A change to a proposal of which the table has no row fails as not found,
/// whether it sets the status or closes the voting.
pub proof fn law_update_without_row_fails(
    tables: Tables,
    status: Seq<u8>,
    eta: Seq<u8>,
    votes: Seq<u8>,
    contract: Seq<u8>,
    prop_num: Seq<u8>,
)
    requires
        forall|j: int|
            0 <= j < tables.proposals.len() ==> !has_key(
                #[trigger] tables.proposals[j],
                contract,
                prop_num,
            ),
    ensures
        status_updated(tables, status, contract, prop_num) == Err::<Tables, GovernorError>(
            GovernorError::ProposalNotFound,
        ),
        voting_closed(tables, status, eta, votes, contract, prop_num) == Err::<
            Tables,
            GovernorError,
        >(GovernorError::ProposalNotFound),
{
    lemma_first_with_key(tables.proposals, contract, prop_num);
}

/// An event that changes the status of a proposal of which the table has no
/// row comes out as not found and leaves both tables as they were.
pub proof fn law_status_event_without_row_writes_nothing(
    tables: Tables,
    policy: InsertPolicy,
    names: EventNames,
    contract: Seq<u8>,
    event: EventView,
    items: Option<Seq<Seq<u8>>>,
    ledger: Seq<u8>,
)
    requires
        kind_of(names, event.topics) matches Some(kind) && kind != EventKind::VoteCast && kind
            != EventKind::ProposalCreated && !lacks_fields(kind, event, items),
        forall|j: int|
            0 <= j < tables.proposals.len() ==> !has_key(
                #[trigger] tables.proposals[j],
                contract,
                event.topics[1],
            ),
    ensures
        event_handled(tables, policy, names, contract, event, items, ledger) == (
            tables,
            Outcome::NotFound,
        ),
{
    lemma_first_with_key(tables.proposals, contract, event.topics[1]);
}

/// An event of a kind that is followed, with fewer topics or elements of
/// data than its kind needs or with data of another shape, comes out as
/// malformed and leaves both tables as they were.
pub proof fn law_malformed_event_writes_nothing(
    tables: Tables,
    policy: InsertPolicy,
    names: EventNames,
    contract: Seq<u8>,
    event: EventView,
    items: Option<Seq<Seq<u8>>>,
    ledger: Seq<u8>,
)
    requires
        kind_of(names, event.topics) matches Some(kind) && lacks_fields(kind, event, items),
    ensures
        event_handled(tables, policy, names, contract, event, items, ledger) == (
            tables,
            Outcome::Malformed,
        ),
{
}

/// An event without a first topic, or with one that equals none of the
/// known first topics, comes out as unknown and leaves both tables as they
/// were.
pub proof fn law_unknown_event_writes_nothing(
    tables: Tables,
    policy: InsertPolicy,
    names: EventNames,
    contract: Seq<u8>,
    event: EventView,
    items: Option<Seq<Seq<u8>>>,
    ledger: Seq<u8>,
)
    requires
        event.topics.len() == 0 || (event.topics[0] != names.vote_cast && event.topics[0]
            != names.proposal_created && event.topics[0] != names.proposal_canceled
            && event.topics[0] != names.proposal_executed && event.topics[0]
            != names.proposal_expired && event.topics[0] != names.proposal_voting_closed),
    ensures
        event_handled(tables, policy, names, contract, event, items, ledger) == (
            tables,
            Outcome::Unknown,
        ),
{
}

/// To decode an event and then make the write of the decoded event is to
/// handle the event: where it decodes, the two leave the same tables and the
/// same outcome, and where it does not, handling it writes nothing and
/// reports what the decoding reports.
pub proof fn law_decode_then_apply_is_handle(
    tables: Tables,
    policy: InsertPolicy,
    names: EventNames,
    contract: Seq<u8>,
    event: EventView,
    items: Option<Seq<Seq<u8>>>,
    ledger: Seq<u8>,
)
    ensures
        event_handled(tables, policy, names, contract, event, items, ledger) == (match event_decoded(
            names,
            contract,
            event,
            items,
            ledger,
        ) {
            Ok(decoded) => event_applied(tables, policy, decoded),
            Err(outcome) => (tables, outcome),
        }),
{
}

/// No event takes a row out of either table or changes a vote: after any
/// event the vote table is the one before, with at most one row appended,
/// and the proposal table has at least the rows it had.
pub proof fn law_event_keeps_rows(
    tables: Tables,
    policy: InsertPolicy,
    names: EventNames,
    contract: Seq<u8>,
    event: EventView,
    items: Option<Seq<Seq<u8>>>,
    ledger: Seq<u8>,
)
    ensures
        ({
            let after = event_handled(tables, policy, names, contract, event, items, ledger).0;
            &&& after.votes == tables.votes || (after.votes.len() == tables.votes.len() + 1
                && after.votes.drop_last() == tables.votes)
            &&& after.proposals.len() >= tables.proposals.len()
        }),
{
    let after = event_handled(tables, policy, names, contract, event, items, ledger).0;
    if after.votes != tables.votes {
        assert(after.votes.drop_last() =~= tables.votes);
    }
}

/// The vote table is append-only over a whole run: after any run of events
/// the votes that were there come first, unchanged, and one outcome is
/// reported for each event.
pub proof fn law_run_appends_votes(
    tables: Tables,
    policy: InsertPolicy,
    names: EventNames,
    events: Seq<Emitted>,
    ledger: Seq<u8>,
)
    ensures
        ({
            let after = events_handled(tables, policy, names, events, ledger);
            &&& after.1.len() == events.len()
            &&& after.0.votes.len() >= tables.votes.len()
            &&& after.0.votes.take(tables.votes.len() as int) == tables.votes
            &&& after.0.proposals.len() >= tables.proposals.len()
        }),
    decreases events.len(),
{
    let after = events_handled(tables, policy, names, events, ledger);
    if events.len() == 0 {
        assert(after.0.votes.take(tables.votes.len() as int) =~= tables.votes);
    } else {
        law_run_appends_votes(tables, policy, names, events.drop_last(), ledger);
        let before = events_handled(tables, policy, names, events.drop_last(), ledger);
        let last = events.last();
        law_event_keeps_rows(
            before.0,
            policy,
            names,
            last.contract,
            last.event,
            vec_items_of(last.event.data, DECODE_DEPTH),
            ledger,
        );
        assert(after.0.votes.take(tables.votes.len() as int) =~= before.0.votes.take(
            tables.votes.len() as int,
        ));
    }
}

/// Where rows are kept one to a key, a table in which no two rows share a
/// key stays so under every event.
pub proof fn law_upsert_keeps_keys_unique(
    tables: Tables,
    names: EventNames,
    contract: Seq<u8>,
    event: EventView,
    items: Option<Seq<Seq<u8>>>,
    ledger: Seq<u8>,
)
    requires
        unique_keys(tables.proposals),
    ensures
        unique_keys(
            event_handled(
                tables,
                InsertPolicy::Upsert,
                names,
                contract,
                event,
                items,
                ledger,
            ).0.proposals,
        ),
{
    let after = event_handled(tables, InsertPolicy::Upsert, names, contract, event, items, ledger).0;
    let rows = tables.proposals;
    match kind_of(names, event.topics) {
        Some(EventKind::ProposalCreated) => {
            match proposal_created_row(contract, event.topics, items) {
                Some(row) => {
                    lemma_first_with_key(rows, row.contract, row.prop_num);
                    assert(after == proposal_written(tables, InsertPolicy::Upsert, row));
                    if first_with_key(rows, row.contract, row.prop_num) is Some {
                        let k = first_with_key(rows, row.contract, row.prop_num)->0;
                        assert forall|j: int| 0 <= j < rows.len() && j != k implies !has_key(
                            #[trigger] rows[j],
                            row.contract,
                            row.prop_num,
                        ) by {
                            assert(!has_key(rows[j], rows[k].contract, rows[k].prop_num));
                        }
                        assert(after.proposals =~= rows.update(k, row));
                    } else {
                        assert(after.proposals =~= rows.push(row));
                    }
                },
                None => {},
            }
        },
        Some(EventKind::VoteCast) => {},
        None => {},
        Some(EventKind::ProposalVotingClosed) => {
            if event.topics.len() >= 4 {
                lemma_replace_keeps_keys_unique(
                    rows,
                    contract,
                    event.topics[1],
                    event.topics[2],
                    event.topics[3],
                    event.data,
                );
            }
        },
        Some(kind) => {
            if event.topics.len() >= 2 {
                lemma_first_with_key(rows, contract, event.topics[1]);
                if first_with_key(rows, contract, event.topics[1]) is Some {
                    let k = first_with_key(rows, contract, event.topics[1])->0;
                    let row = with_status(rows[k], u32_xdr(status_of(kind)->0));
                    assert forall|j: int| 0 <= j < rows.len() && j != k implies !has_key(
                        #[trigger] rows[j],
                        contract,
                        event.topics[1],
                    ) by {
                        assert(!has_key(rows[j], rows[k].contract, rows[k].prop_num));
                    }
                    assert(after.proposals =~= rows.update(k, row));
                }
            }
        },
    }
}

/// A proposal row that was laid out for the store is read back as it was.
pub proof fn law_proposal_segments_read_back(row: ProposalRow)
    requires
        row.contract.len() == 32,
    ensures
        proposal_of_segments(proposal_segments(row)) == Some(row),
        forall|i: int|
            0 <= i < 11 ==> #[trigger] proposal_segments(row)[i] == column_of(
                row,
                proposal_columns()[i],
            ),
{
}

/// Closing the voting on a proposal keeps the keys of a table unique.
proof fn lemma_replace_keeps_keys_unique(
    rows: Seq<ProposalRow>,
    contract: Seq<u8>,
    prop_num: Seq<u8>,
    status: Seq<u8>,
    eta: Seq<u8>,
    votes: Seq<u8>,
)
    requires
        unique_keys(rows),
    ensures
        match voting_closed(
            Tables { proposals: rows, votes: Seq::empty() },
            status,
            eta,
            votes,
            contract,
            prop_num,
        ) {
            Ok(after) => unique_keys(after.proposals),
            Err(_) => true,
        },
{
    lemma_first_with_key(rows, contract, prop_num);
    if first_with_key(rows, contract, prop_num) is Some {
        let k = first_with_key(rows, contract, prop_num)->0;
        let row = with_voting_closed(rows[k], status, eta, votes);
        assert forall|j: int| 0 <= j < rows.len() && j != k implies !has_key(
            #[trigger] rows[j],
            contract,
            prop_num,
        ) by {
            assert(!has_key(rows[j], rows[k].contract, rows[k].prop_num));
        }
        assert(replace_key(rows, contract, prop_num, row) =~= rows.update(k, row));
    }
}

} // verus!
