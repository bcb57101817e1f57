//! The two tables, the writes that the persistence engine offers on them,
//! and the decisions that turn a decoded event into such a write.

use crate::value::{byte_strings, bytes_copy, bytes_eq, ContractId, Val};
use crate::GovernorError;
use vstd::prelude::*;

verus! {

/// A row of the proposal table: one proposal of one governor contract.
#[derive(Clone, Debug, PartialEq, Eq)]
pub struct Proposal {
    /// The governor contract.
    pub contract: ContractId,
    /// The number that the contract gave the proposal.
    pub prop_num: Val,
    pub title: Val,
    pub descr: Val,
    /// What is executed if the proposal passes.
    pub action: Val,
    pub creator: Val,
    /// Where the proposal stands in its life, as the contract numbers it.
    pub status: Val,
    /// The ledger at which voting starts.
    pub start: Val,
    /// The ledger at which voting ends.
    pub end: Val,
    /// The ledger at which execution is due, or zero if none is scheduled.
    pub eta: Val,
    /// The tally at the close of voting; void until then.
    pub votes: Val,
}

/// A row of the vote table: one vote as it was cast.
#[derive(Clone, Debug, PartialEq, Eq)]
pub struct Votes {
    /// The governor contract.
    pub contract: ContractId,
    /// The number of the proposal voted on.
    pub prop_num: Val,
    pub voter: Val,
    /// The choice made.
    pub support: Val,
    /// The voting power applied.
    pub amount: Val,
    /// The ledger in which the vote was cast.
    pub ledger: Val,
}

/// A proposal row as the store holds it: each column by its bytes.
pub struct ProposalRow {
    pub contract: Seq<u8>,
    pub prop_num: Seq<u8>,
    pub title: Seq<u8>,
    pub descr: Seq<u8>,
    pub action: Seq<u8>,
    pub creator: Seq<u8>,
    pub status: Seq<u8>,
    pub start: Seq<u8>,
    pub end: Seq<u8>,
    pub eta: Seq<u8>,
    pub votes: Seq<u8>,
}

/// A vote row as the store holds it: each column by its bytes.
pub struct VoteRow {
    pub contract: Seq<u8>,
    pub prop_num: Seq<u8>,
    pub voter: Seq<u8>,
    pub support: Seq<u8>,
    pub amount: Seq<u8>,
    pub ledger: Seq<u8>,
}

impl View for Proposal {
    type V = ProposalRow;

    open spec fn view(&self) -> ProposalRow {
        ProposalRow {
            contract: self.contract@,
            prop_num: self.prop_num@,
            title: self.title@,
            descr: self.descr@,
            action: self.action@,
            creator: self.creator@,
            status: self.status@,
            start: self.start@,
            end: self.end@,
            eta: self.eta@,
            votes: self.votes@,
        }
    }
}

impl View for Votes {
    type V = VoteRow;

    open spec fn view(&self) -> VoteRow {
        VoteRow {
            contract: self.contract@,
            prop_num: self.prop_num@,
            voter: self.voter@,
            support: self.support@,
            amount: self.amount@,
            ledger: self.ledger@,
        }
    }
}

/// A column of the proposal table.
#[derive(Clone, Copy, Debug, PartialEq, Eq, Structural)]
pub enum Column {
    Contract,
    PropNum,
    Title,
    Descr,
    Action,
    Creator,
    Status,
    Start,
    End,
    Eta,
    Votes,
}

/// A condition on a proposal row: that a column holds exactly these bytes.
#[derive(Clone, Debug, PartialEq, Eq)]
pub struct Condition {
    pub column: Column,
    pub value: Vec<u8>,
}

/// A condition by its column and the bytes it asks for.
pub struct Match {
    pub column: Column,
    pub value: Seq<u8>,
}

impl View for Condition {
    type V = Match;

    open spec fn view(&self) -> Match {
        Match { column: self.column, value: self.value@ }
    }
}

/// What is done with a `proposal_created` event whose key a row already has.
#[derive(Clone, Copy, Debug, PartialEq, Eq, Structural)]
pub enum InsertPolicy {
    /// The new row is appended whatever the table holds: a second event for
    /// the same key leaves two rows with that key.
    Append,
    /// The new row takes the place of every row with its key, and is appended
    /// only if there is none.
    Upsert,
}

/// The two tables, as the persistence engine holds them.
pub struct Tables {
    pub proposals: Seq<ProposalRow>,
    pub votes: Seq<VoteRow>,
}

/// The two tables in memory, with the operations that the persistence engine
/// offers: append a row, read a whole table, write a row over the rows that
/// meet a list of conditions.
#[derive(Clone, Debug, PartialEq, Eq)]
pub struct Store {
    pub proposals: Vec<Proposal>,
    pub votes: Vec<Votes>,
    pub policy: InsertPolicy,
}

/// A write of one row over the rows of the proposal table that meet the
/// conditions.
#[derive(Clone, Debug, PartialEq, Eq)]
pub struct ProposalUpdate {
    pub row: Proposal,
    pub conditions: Vec<Condition>,
}

/// A write to the proposal table that a `proposal_created` event asks for.
#[derive(Clone, Debug, PartialEq, Eq)]
pub enum ProposalWrite {
    /// Append the row.
    Insert(Proposal),
    /// Write the row over the rows that meet the conditions.
    Replace(ProposalUpdate),
}

/// The rows of a table of proposals, each as the store holds it.
pub open spec fn proposal_rows(rows: Seq<Proposal>) -> Seq<ProposalRow> {
    rows.map_values(|p: Proposal| p@)
}

/// The rows of a table of votes, each as the store holds it.
pub open spec fn vote_rows(rows: Seq<Votes>) -> Seq<VoteRow> {
    rows.map_values(|v: Votes| v@)
}

/// The conditions of a list, each by its column and bytes.
pub open spec fn matches_of(conditions: Seq<Condition>) -> Seq<Match> {
    conditions.map_values(|c: Condition| c@)
}

/// A store is seen as its two tables. Its policy is no part of what it
/// holds: what a write leaves of the policy is said apart, wherever a store
/// is changed.
impl View for Store {
    type V = Tables;

    open spec fn view(&self) -> Tables {
        Tables { proposals: proposal_rows(self.proposals@), votes: vote_rows(self.votes@) }
    }
}

/// The name of the proposal table.
pub const PROPOSALS_TABLE: &'static str = "proposals";

/// The name of the vote table.
pub const VOTES_TABLE: &'static str = "votes";

/// The columns of the proposal table, in the order in which a row is laid
/// out.
pub open spec fn proposal_columns() -> Seq<Column> {
    seq![
        Column::Contract,
        Column::PropNum,
        Column::Title,
        Column::Descr,
        Column::Action,
        Column::Creator,
        Column::Status,
        Column::Start,
        Column::End,
        Column::Eta,
        Column::Votes,
    ]
}

/// The names of the columns of the vote table, in the order in which a row
/// is laid out.
pub open spec fn vote_column_names() -> Seq<Seq<char>> {
    seq!["contract"@, "prop_num"@, "voter"@, "support"@, "amount"@, "ledger"@]
}

/// A proposal row laid out for the store: the bytes of each column, in the
/// order of the columns.
pub open spec fn proposal_segments(row: ProposalRow) -> Seq<Seq<u8>> {
    seq![
        row.contract,
        row.prop_num,
        row.title,
        row.descr,
        row.action,
        row.creator,
        row.status,
        row.start,
        row.end,
        row.eta,
        row.votes,
    ]
}

/// The proposal row that the store hands out as a list of segments, where
/// the list is a row: one segment for each column, the first of 32 bytes.
pub open spec fn proposal_of_segments(segments: Seq<Seq<u8>>) -> Option<ProposalRow> {
    if segments.len() == 11 && segments[0].len() == 32 {
        Some(
            ProposalRow {
                contract: segments[0],
                prop_num: segments[1],
                title: segments[2],
                descr: segments[3],
                action: segments[4],
                creator: segments[5],
                status: segments[6],
                start: segments[7],
                end: segments[8],
                eta: segments[9],
                votes: segments[10],
            },
        )
    } else {
        None
    }
}

/// A vote row laid out for the store: the bytes of each column, in the order
/// of the columns.
pub open spec fn vote_segments(row: VoteRow) -> Seq<Seq<u8>> {
    seq![row.contract, row.prop_num, row.voter, row.support, row.amount, row.ledger]
}

/// The bytes that a proposal row holds in a column.
pub open spec fn column_of(row: ProposalRow, column: Column) -> Seq<u8> {
    match column {
        Column::Contract => row.contract,
        Column::PropNum => row.prop_num,
        Column::Title => row.title,
        Column::Descr => row.descr,
        Column::Action => row.action,
        Column::Creator => row.creator,
        Column::Status => row.status,
        Column::Start => row.start,
        Column::End => row.end,
        Column::Eta => row.eta,
        Column::Votes => row.votes,
    }
}

/// Whether a row meets every condition of a list.
pub open spec fn satisfies(row: ProposalRow, conditions: Seq<Match>) -> bool {
    forall|k: int|
        0 <= k < conditions.len() ==> column_of(row, (#[trigger] conditions[k]).column)
            == conditions[k].value
}

/// The table after `row` was written over each row that meets `conditions`.
pub open spec fn written_over(rows: Seq<ProposalRow>, row: ProposalRow, conditions: Seq<Match>) -> Seq<
    ProposalRow,
> {
    Seq::new(
        rows.len(),
        |i: int|
            if satisfies(rows[i], conditions) {
                row
            } else {
                rows[i]
            },
    )
}

/// Whether a row is the row of proposal `prop_num` of `contract`.
pub open spec fn has_key(row: ProposalRow, contract: Seq<u8>, prop_num: Seq<u8>) -> bool {
    row.contract == contract && row.prop_num == prop_num
}

/// The conditions that single out the rows of proposal `prop_num` of
/// `contract`.
pub open spec fn key_matches(contract: Seq<u8>, prop_num: Seq<u8>) -> Seq<Match> {
    seq![
        Match { column: Column::Contract, value: contract },
        Match { column: Column::PropNum, value: prop_num },
    ]
}

/// The place of the first row of proposal `prop_num` of `contract`, if the
/// table has such a row.
pub open spec fn first_with_key(rows: Seq<ProposalRow>, contract: Seq<u8>, prop_num: Seq<u8>) -> Option<
    int,
>
    decreases rows.len(),
{
    if rows.len() == 0 {
        None
    } else {
        match first_with_key(rows.drop_last(), contract, prop_num) {
            Some(i) => Some(i),
            None => if has_key(rows.last(), contract, prop_num) {
                Some(rows.len() - 1)
            } else {
                None
            },
        }
    }
}

/// The table after `row` took the place of each row of proposal `prop_num`
/// of `contract`.
pub open spec fn replace_key(
    rows: Seq<ProposalRow>,
    contract: Seq<u8>,
    prop_num: Seq<u8>,
    row: ProposalRow,
) -> Seq<ProposalRow> {
    Seq::new(
        rows.len(),
        |i: int|
            if has_key(rows[i], contract, prop_num) {
                row
            } else {
                rows[i]
            },
    )
}

/// The row that a status change leaves where it found `row`.
pub open spec fn with_status(row: ProposalRow, status: Seq<u8>) -> ProposalRow {
    ProposalRow { status, ..row }
}

/// The row that the close of voting leaves where it found `row`.
pub open spec fn with_voting_closed(
    row: ProposalRow,
    status: Seq<u8>,
    eta: Seq<u8>,
    votes: Seq<u8>,
) -> ProposalRow {
    ProposalRow { status, eta, votes, ..row }
}

/// The tables after a vote row was appended.
pub open spec fn vote_written(tables: Tables, row: VoteRow) -> Tables {
    Tables { votes: tables.votes.push(row), ..tables }
}

/// The tables after a new proposal row was written under a policy.
pub open spec fn proposal_written(tables: Tables, policy: InsertPolicy, row: ProposalRow) -> Tables {
    if policy == InsertPolicy::Upsert && first_with_key(
        tables.proposals,
        row.contract,
        row.prop_num,
    ) is Some {
        Tables {
            proposals: replace_key(tables.proposals, row.contract, row.prop_num, row),
            ..tables
        }
    } else {
        Tables { proposals: tables.proposals.push(row), ..tables }
    }
}

/// The tables after the status of proposal `prop_num` of `contract` was set,
/// or the failure if the table has no row for it.
pub open spec fn status_updated(
    tables: Tables,
    status: Seq<u8>,
    contract: Seq<u8>,
    prop_num: Seq<u8>,
) -> Result<Tables, GovernorError> {
    match first_with_key(tables.proposals, contract, prop_num) {
        Some(i) => Ok(
            Tables {
                proposals: replace_key(
                    tables.proposals,
                    contract,
                    prop_num,
                    with_status(tables.proposals[i], status),
                ),
                ..tables
            },
        ),
        None => Err(GovernorError::ProposalNotFound),
    }
}

/// The tables after voting on proposal `prop_num` of `contract` was closed,
/// or the failure if the table has no row for it.
pub open spec fn voting_closed(
    tables: Tables,
    status: Seq<u8>,
    eta: Seq<u8>,
    votes: Seq<u8>,
    contract: Seq<u8>,
    prop_num: Seq<u8>,
) -> Result<Tables, GovernorError> {
    match first_with_key(tables.proposals, contract, prop_num) {
        Some(i) => Ok(
            Tables {
                proposals: replace_key(
                    tables.proposals,
                    contract,
                    prop_num,
                    with_voting_closed(tables.proposals[i], status, eta, votes),
                ),
                ..tables
            },
        ),
        None => Err(GovernorError::ProposalNotFound),
    }
}

/// `first_with_key` finds a row with the key before which no row has it, and
/// finds none only where no row has it.
pub proof fn lemma_first_with_key(rows: Seq<ProposalRow>, contract: Seq<u8>, prop_num: Seq<u8>)
    ensures
        match first_with_key(rows, contract, prop_num) {
            Some(i) => 0 <= i < rows.len() && has_key(rows[i], contract, prop_num) && forall|j: int|
                0 <= j < i ==> !has_key(#[trigger] rows[j], contract, prop_num),
            None => forall|j: int|
                0 <= j < rows.len() ==> !has_key(#[trigger] rows[j], contract, prop_num),
        },
    decreases rows.len(),
{
    if rows.len() > 0 {
        lemma_first_with_key(rows.drop_last(), contract, prop_num);
        assert(forall|j: int| 0 <= j < rows.len() - 1 ==> rows.drop_last()[j] == rows[j]);
    }
}

/// A row meets the conditions of a key exactly when it has the key.
pub proof fn lemma_key_matches(row: ProposalRow, contract: Seq<u8>, prop_num: Seq<u8>)
    ensures
        satisfies(row, key_matches(contract, prop_num)) <==> has_key(row, contract, prop_num),
{
    let conditions = key_matches(contract, prop_num);
    assert(conditions[0].column == Column::Contract && conditions[0].value == contract);
    assert(conditions[1].column == Column::PropNum && conditions[1].value == prop_num);
}

/// Writing a row over the rows that meet the conditions of a key puts it in
/// the place of each row with the key.
pub proof fn lemma_written_over_key(
    rows: Seq<ProposalRow>,
    row: ProposalRow,
    contract: Seq<u8>,
    prop_num: Seq<u8>,
)
    ensures
        written_over(rows, row, key_matches(contract, prop_num)) == replace_key(
            rows,
            contract,
            prop_num,
            row,
        ),
{
    assert forall|i: int| 0 <= i < rows.len() implies written_over(
        rows,
        row,
        key_matches(contract, prop_num),
    )[i] == replace_key(rows, contract, prop_num, row)[i] by {
        lemma_key_matches(rows[i], contract, prop_num);
    }
    assert(written_over(rows, row, key_matches(contract, prop_num)) =~= replace_key(
        rows,
        contract,
        prop_num,
        row,
    ));
}

impl Column {
    /// The name of the column in the table.
    pub fn name(&self) -> (r: &'static str)
        ensures
            r@ == column_name(*self),
    {
        match self {
            Column::Contract => "contract",
            Column::PropNum => "prop_num",
            Column::Title => "title",
            Column::Descr => "descr",
            Column::Action => "action",
            Column::Creator => "creator",
            Column::Status => "status",
            Column::Start => "start",
            Column::End => "end",
            Column::Eta => "eta",
            Column::Votes => "votes",
        }
    }
}

/// The name of a column in the table.
pub open spec fn column_name(column: Column) -> Seq<char> {
    match column {
        Column::Contract => "contract"@,
        Column::PropNum => "prop_num"@,
        Column::Title => "title"@,
        Column::Descr => "descr"@,
        Column::Action => "action"@,
        Column::Creator => "creator"@,
        Column::Status => "status"@,
        Column::Start => "start"@,
        Column::End => "end"@,
        Column::Eta => "eta"@,
        Column::Votes => "votes"@,
    }
}

impl Proposal {
    /// The columns of the proposal table, in the order in which a row is
    /// laid out.
    pub fn columns() -> (r: Vec<Column>)
        ensures
            r@ == proposal_columns(),
    {
        let mut columns: Vec<Column> = Vec::new();
        columns.push(Column::Contract);
        columns.push(Column::PropNum);
        columns.push(Column::Title);
        columns.push(Column::Descr);
        columns.push(Column::Action);
        columns.push(Column::Creator);
        columns.push(Column::Status);
        columns.push(Column::Start);
        columns.push(Column::End);
        columns.push(Column::Eta);
        columns.push(Column::Votes);
        assert(columns@ =~= proposal_columns());
        columns
    }

    /// This row laid out for the store.
    pub fn segments(&self) -> (r: Vec<Vec<u8>>)
        ensures
            byte_strings(r@) == proposal_segments(self@),
    {
        let mut segments: Vec<Vec<u8>> = Vec::new();
        segments.push(self.contract.to_bytes());
        segments.push(bytes_copy(&self.prop_num.xdr));
        segments.push(bytes_copy(&self.title.xdr));
        segments.push(bytes_copy(&self.descr.xdr));
        segments.push(bytes_copy(&self.action.xdr));
        segments.push(bytes_copy(&self.creator.xdr));
        segments.push(bytes_copy(&self.status.xdr));
        segments.push(bytes_copy(&self.start.xdr));
        segments.push(bytes_copy(&self.end.xdr));
        segments.push(bytes_copy(&self.eta.xdr));
        segments.push(bytes_copy(&self.votes.xdr));
        assert(byte_strings(segments@) =~= proposal_segments(self@));
        segments
    }

    /// The row that the store hands out as a list of segments, where the
    /// list is a row: one segment for each column, the first of 32 bytes.
    pub fn from_segments(segments: &Vec<Vec<u8>>) -> (r: Option<Proposal>)
        ensures
            match proposal_of_segments(byte_strings(segments@)) {
                Some(row) => r matches Some(proposal) && proposal@ == row,
                None => r is None,
            },
    {
        if segments.len() != 11 {
            return None;
        }
        assert(forall|i: int| 0 <= i < 11 ==> byte_strings(segments@)[i] == segments@[i]@);
        match ContractId::from_bytes(&segments[0]) {
            Some(contract) => Some(
                Proposal {
                    contract,
                    prop_num: Val::new(bytes_copy(&segments[1])),
                    title: Val::new(bytes_copy(&segments[2])),
                    descr: Val::new(bytes_copy(&segments[3])),
                    action: Val::new(bytes_copy(&segments[4])),
                    creator: Val::new(bytes_copy(&segments[5])),
                    status: Val::new(bytes_copy(&segments[6])),
                    start: Val::new(bytes_copy(&segments[7])),
                    end: Val::new(bytes_copy(&segments[8])),
                    eta: Val::new(bytes_copy(&segments[9])),
                    votes: Val::new(bytes_copy(&segments[10])),
                },
            ),
            None => None,
        }
    }

    /// A copy of this row.
    pub fn copy(&self) -> (r: Proposal)
        ensures
            r@ == self@,
    {
        Proposal {
            contract: self.contract,
            prop_num: self.prop_num.copy(),
            title: self.title.copy(),
            descr: self.descr.copy(),
            action: self.action.copy(),
            creator: self.creator.copy(),
            status: self.status.copy(),
            start: self.start.copy(),
            end: self.end.copy(),
            eta: self.eta.copy(),
            votes: self.votes.copy(),
        }
    }

    /// Whether this is the row of proposal `prop_num` of `contract`.
    pub fn has_key(&self, contract: &ContractId, prop_num: &Val) -> (r: bool)
        ensures
            r == has_key(self@, contract@, prop_num@),
    {
        self.prop_num.same(prop_num) && self.contract.same(contract)
    }

    /// Whether this row holds the bytes of `condition` in its column.
    pub fn meets(&self, condition: &Condition) -> (r: bool)
        ensures
            r == (column_of(self@, condition.column) == condition.value@),
    {
        match condition.column {
            Column::Contract => {
                let held = self.contract.to_bytes();
                bytes_eq(&held, &condition.value)
            },
            Column::PropNum => bytes_eq(&self.prop_num.xdr, &condition.value),
            Column::Title => bytes_eq(&self.title.xdr, &condition.value),
            Column::Descr => bytes_eq(&self.descr.xdr, &condition.value),
            Column::Action => bytes_eq(&self.action.xdr, &condition.value),
            Column::Creator => bytes_eq(&self.creator.xdr, &condition.value),
            Column::Status => bytes_eq(&self.status.xdr, &condition.value),
            Column::Start => bytes_eq(&self.start.xdr, &condition.value),
            Column::End => bytes_eq(&self.end.xdr, &condition.value),
            Column::Eta => bytes_eq(&self.eta.xdr, &condition.value),
            Column::Votes => bytes_eq(&self.votes.xdr, &condition.value),
        }
    }

    /// Whether this row meets every condition of the list.
    pub fn meets_all(&self, conditions: &Vec<Condition>) -> (r: bool)
        ensures
            r == satisfies(self@, matches_of(conditions@)),
    {
        let mut k: usize = 0;
        while k < conditions.len()
            invariant
                k <= conditions.len(),
                forall|j: int|
                    0 <= j < k ==> column_of(self@, (#[trigger] matches_of(conditions@)[j]).column)
                        == matches_of(conditions@)[j].value,
            decreases conditions.len() - k,
        {
            if !self.meets(&conditions[k]) {
                assert(matches_of(conditions@)[k as int] == conditions@[k as int]@);
                return false;
            }
            assert(matches_of(conditions@)[k as int] == conditions@[k as int]@);
            k += 1;
        }
        true
    }
}


impl Votes {
    /// The names of the columns of the vote table, in the order in which a
    /// row is laid out.
    pub fn column_names() -> (r: Vec<&'static str>)
        ensures
            r@.map_values(|s: &'static str| s@) == vote_column_names(),
    {
        let mut columns: Vec<&'static str> = Vec::new();
        columns.push("contract");
        columns.push("prop_num");
        columns.push("voter");
        columns.push("support");
        columns.push("amount");
        columns.push("ledger");
        assert(columns@.map_values(|s: &'static str| s@) =~= vote_column_names());
        columns
    }

    /// This row laid out for the store.
    pub fn segments(&self) -> (r: Vec<Vec<u8>>)
        ensures
            byte_strings(r@) == vote_segments(self@),
    {
        let mut segments: Vec<Vec<u8>> = Vec::new();
        segments.push(self.contract.to_bytes());
        segments.push(bytes_copy(&self.prop_num.xdr));
        segments.push(bytes_copy(&self.voter.xdr));
        segments.push(bytes_copy(&self.support.xdr));
        segments.push(bytes_copy(&self.amount.xdr));
        segments.push(bytes_copy(&self.ledger.xdr));
        assert(byte_strings(segments@) =~= vote_segments(self@));
        segments
    }
}

/// The conditions that single out the rows of proposal `prop_num` of
/// `contract`: that the two key columns hold the bytes of the two.
pub fn key_conditions(contract: &ContractId, prop_num: &Val) -> (r: Vec<Condition>)
    ensures
        matches_of(r@) == key_matches(contract@, prop_num@),
{
    let mut conditions: Vec<Condition> = Vec::new();
    conditions.push(Condition { column: Column::Contract, value: contract.to_bytes() });
    conditions.push(Condition { column: Column::PropNum, value: bytes_copy(&prop_num.xdr) });
    assert(matches_of(conditions@) =~= key_matches(contract@, prop_num@));
    conditions
}

/// Scans the rows for the first one of proposal `prop_num` of `contract`.
pub fn find_proposal(rows: &Vec<Proposal>, contract: &ContractId, prop_num: &Val) -> (r: Option<
    usize,
>)
    ensures
        match r {
            Some(i) => first_with_key(proposal_rows(rows@), contract@, prop_num@) == Some(
                i as int,
            ),
            None => first_with_key(proposal_rows(rows@), contract@, prop_num@) is None,
        },
{
    let ghost all = proposal_rows(rows@);
    let mut i: usize = 0;
    while i < rows.len()
        invariant
            i <= rows.len(),
            all == proposal_rows(rows@),
            first_with_key(all.take(i as int), contract@, prop_num@) is None,
        decreases rows.len() - i,
    {
        proof {
            assert(all.take(i + 1).drop_last() =~= all.take(i as int));
            assert(all.take(i + 1).last() == rows@[i as int]@);
        }
        if rows[i].has_key(contract, prop_num) {
            proof {
                lemma_first_with_key_prefix(all, i + 1, contract@, prop_num@);
            }
            return Some(i);
        }
        i += 1;
    }
    proof {
        assert(all.take(i as int) =~= all);
    }
    None
}

/// What `first_with_key` finds in the first `n` rows, it finds in all of
/// them.
pub proof fn lemma_first_with_key_prefix(
    rows: Seq<ProposalRow>,
    n: int,
    contract: Seq<u8>,
    prop_num: Seq<u8>,
)
    requires
        0 <= n <= rows.len(),
        first_with_key(rows.take(n), contract, prop_num) is Some,
    ensures
        first_with_key(rows, contract, prop_num) == first_with_key(
            rows.take(n),
            contract,
            prop_num,
        ),
    decreases rows.len(),
{
    if n < rows.len() {
        assert(rows.drop_last().take(n) =~= rows.take(n));
        lemma_first_with_key_prefix(rows.drop_last(), n, contract, prop_num);
    } else {
        assert(rows.take(n) =~= rows);
    }
}

/// Decides the write that sets the status of proposal `prop_num` of
/// `contract`, given the rows that the table holds: the first row with the
/// key, with the new status and nothing else changed, to be written over the
/// rows with the key. Fails where the table has no row with the key.
pub fn plan_status_update(
    rows: &Vec<Proposal>,
    new_status: Val,
    contract: &ContractId,
    prop_num: &Val,
) -> (r: Result<ProposalUpdate, GovernorError>)
    ensures
        match first_with_key(proposal_rows(rows@), contract@, prop_num@) {
            Some(i) => r matches Ok(update) && update.row@ == with_status(
                rows@[i]@,
                new_status@,
            ) && matches_of(update.conditions@) == key_matches(contract@, prop_num@),
            None => r == Err::<ProposalUpdate, GovernorError>(GovernorError::ProposalNotFound),
        },
{
    proof {
        lemma_first_with_key(proposal_rows(rows@), contract@, prop_num@);
    }
    match find_proposal(rows, contract, prop_num) {
        Some(i) => {
            let mut row = rows[i].copy();
            row.status = new_status;
            Ok(ProposalUpdate { row, conditions: key_conditions(contract, prop_num) })
        },
        None => Err(GovernorError::ProposalNotFound),
    }
}

/// Decides the write that closes voting on proposal `prop_num` of
/// `contract`, given the rows that the table holds: the first row with the
/// key, with the new status, the execution ledger and the final tally and
/// nothing else changed, to be written over the rows with the key. Fails
/// where the table has no row with the key.
pub fn plan_voting_closed(
    rows: &Vec<Proposal>,
    new_status: Val,
    eta: Val,
    votes: Val,
    contract: &ContractId,
    prop_num: &Val,
) -> (r: Result<ProposalUpdate, GovernorError>)
    ensures
        match first_with_key(proposal_rows(rows@), contract@, prop_num@) {
            Some(i) => r matches Ok(update) && update.row@ == with_voting_closed(
                rows@[i]@,
                new_status@,
                eta@,
                votes@,
            ) && matches_of(update.conditions@) == key_matches(contract@, prop_num@),
            None => r == Err::<ProposalUpdate, GovernorError>(GovernorError::ProposalNotFound),
        },
{
    proof {
        lemma_first_with_key(proposal_rows(rows@), contract@, prop_num@);
    }
    match find_proposal(rows, contract, prop_num) {
        Some(i) => {
            let mut row = rows[i].copy();
            row.status = new_status;
            row.eta = eta;
            row.votes = votes;
            Ok(ProposalUpdate { row, conditions: key_conditions(contract, prop_num) })
        },
        None => Err(GovernorError::ProposalNotFound),
    }
}

/// Decides the write that brings a new proposal row into the table under a
/// policy, given the rows that the table holds.
pub fn plan_write_proposal(rows: &Vec<Proposal>, policy: InsertPolicy, proposal: Proposal) -> (r:
    ProposalWrite)
    ensures
        match r {
            ProposalWrite::Insert(row) => row@ == proposal@ && !(policy == InsertPolicy::Upsert
                && first_with_key(proposal_rows(rows@), proposal@.contract, proposal@.prop_num)
                is Some),
            ProposalWrite::Replace(update) => update.row@ == proposal@ && matches_of(
                update.conditions@,
            ) == key_matches(proposal@.contract, proposal@.prop_num) && policy
                == InsertPolicy::Upsert && first_with_key(
                proposal_rows(rows@),
                proposal@.contract,
                proposal@.prop_num,
            ) is Some,
        },
{
    match policy {
        InsertPolicy::Append => ProposalWrite::Insert(proposal),
        InsertPolicy::Upsert => {
            match find_proposal(rows, &proposal.contract, &proposal.prop_num) {
                Some(_) => {
                    let conditions = key_conditions(&proposal.contract, &proposal.prop_num);
                    ProposalWrite::Replace(ProposalUpdate { row: proposal, conditions })
                },
                None => ProposalWrite::Insert(proposal),
            }
        },
    }
}

impl Store {
    /// A store with two empty tables.
    pub fn new(policy: InsertPolicy) -> (r: Store)
        ensures
            r@.proposals == Seq::<ProposalRow>::empty(),
            r@.votes == Seq::<VoteRow>::empty(),
            r.policy == policy,
    {
        let r = Store { proposals: Vec::new(), votes: Vec::new(), policy };
        assert(r@.proposals =~= Seq::<ProposalRow>::empty());
        assert(r@.votes =~= Seq::<VoteRow>::empty());
        r
    }

    /// Appends a row to the proposal table.
    pub fn put_proposal(&mut self, row: Proposal)
        ensures
            final(self)@.proposals == old(self)@.proposals.push(row@),
            final(self)@.votes == old(self)@.votes,
            final(self).policy == old(self).policy,
    {
        self.proposals.push(row);
        assert(proposal_rows(self.proposals@) =~= proposal_rows(old(self).proposals@).push(row@));
    }

    /// Appends a row to the vote table.
    pub fn put_vote(&mut self, row: Votes)
        ensures
            final(self)@.votes == old(self)@.votes.push(row@),
            final(self)@.proposals == old(self)@.proposals,
            final(self).policy == old(self).policy,
    {
        self.votes.push(row);
        assert(vote_rows(self.votes@) =~= vote_rows(old(self).votes@).push(row@));
    }

    /// Writes `row` over each row of the proposal table that meets every one
    /// of `conditions`, and touches no other row.
    pub fn update_proposals(&mut self, row: &Proposal, conditions: &Vec<Condition>)
        ensures
            final(self)@.proposals == written_over(
                old(self)@.proposals,
                row@,
                matches_of(conditions@),
            ),
            final(self)@.votes == old(self)@.votes,
            final(self).policy == old(self).policy,
    {
        let ghost before = proposal_rows(self.proposals@);
        let ghost wanted = written_over(before, row@, matches_of(conditions@));
        let mut i: usize = 0;
        while i < self.proposals.len()
            invariant
                i <= self.proposals@.len(),
                self.proposals@.len() == before.len(),
                self.votes == old(self).votes,
                self.policy == old(self).policy,
                wanted == written_over(before, row@, matches_of(conditions@)),
                forall|j: int| 0 <= j < i ==> (#[trigger] self.proposals@[j])@ == wanted[j],
                forall|j: int|
                    i <= j < before.len() ==> (#[trigger] self.proposals@[j])@ == before[j],
            decreases self.proposals@.len() - i,
        {
            if self.proposals[i].meets_all(conditions) {
                self.proposals.set(i, row.copy());
            }
            i += 1;
        }
        assert(proposal_rows(self.proposals@) =~= wanted);
    }
}

/// Brings a new proposal row into the table, as the policy of the store has
/// it: appended in any case, or put in the place of the rows with its key
/// where there are such rows.
pub fn write_proposal(store: &mut Store, proposal: Proposal)
    ensures
        final(store)@ == proposal_written(old(store)@, old(store).policy, proposal@),
        final(store).policy == old(store).policy,
{
    let ghost before = store@;
    match plan_write_proposal(&store.proposals, store.policy, proposal) {
        ProposalWrite::Insert(row) => {
            store.put_proposal(row);
        },
        ProposalWrite::Replace(update) => {
            proof {
                lemma_written_over_key(
                    before.proposals,
                    update.row@,
                    update.row@.contract,
                    update.row@.prop_num,
                );
            }
            store.update_proposals(&update.row, &update.conditions);
        },
    }
}

/// Sets the status of proposal `prop_num` of `contract` and leaves every
/// other column and every other row as it was.
///
/// Fails, and writes nothing, where the table has no row for the proposal.
pub fn update_proposal_status(
    store: &mut Store,
    new_status: Val,
    contract: ContractId,
    prop_num: Val,
) -> (r: Result<(), GovernorError>)
    ensures
        match status_updated(old(store)@, new_status@, contract@, prop_num@) {
            Ok(tables) => r is Ok && final(store)@ == tables,
            Err(e) => r == Err::<(), GovernorError>(e) && final(store)@ == old(store)@,
        },
        final(store).policy == old(store).policy,
{
    let ghost before = store@;
    match plan_status_update(&store.proposals, new_status, &contract, &prop_num) {
        Ok(update) => {
            proof {
                lemma_written_over_key(before.proposals, update.row@, contract@, prop_num@);
                lemma_first_with_key(before.proposals, contract@, prop_num@);
                let i = first_with_key(before.proposals, contract@, prop_num@)->0;
                assert(before.proposals[i] == store.proposals@[i]@);
            }
            store.update_proposals(&update.row, &update.conditions);
            Ok(())
        },
        Err(e) => Err(e),
    }
}

/// Closes voting on proposal `prop_num` of `contract`: sets its status, the
/// ledger at which execution is due and the final tally together, and leaves
/// every other column and every other row as it was.
///
/// Fails, and writes nothing, where the table has no row for the proposal.
pub fn update_proposal_voting_closed(
    store: &mut Store,
    new_status: Val,
    eta: Val,
    votes: Val,
    contract: ContractId,
    prop_num: Val,
) -> (r: Result<(), GovernorError>)
    ensures
        match voting_closed(old(store)@, new_status@, eta@, votes@, contract@, prop_num@) {
            Ok(tables) => r is Ok && final(store)@ == tables,
            Err(e) => r == Err::<(), GovernorError>(e) && final(store)@ == old(store)@,
        },
        final(store).policy == old(store).policy,
{
    let ghost before = store@;
    match plan_voting_closed(&store.proposals, new_status, eta, votes, &contract, &prop_num) {
        Ok(update) => {
            proof {
                lemma_written_over_key(before.proposals, update.row@, contract@, prop_num@);
                lemma_first_with_key(before.proposals, contract@, prop_num@);
                let i = first_with_key(before.proposals, contract@, prop_num@)->0;
                assert(before.proposals[i] == store.proposals@[i]@);
            }
            store.update_proposals(&update.row, &update.conditions);
            Ok(())
        },
        Err(e) => Err(e),
    }
}

/// Appends a vote row to the vote table.
pub fn write_votes(store: &mut Store, votes: Votes)
    ensures
        final(store)@ == vote_written(old(store)@, votes@),
        final(store).policy == old(store).policy,
{
    store.put_vote(votes);
}

} // verus!
