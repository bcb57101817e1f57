use governor_indexer::db::{
    update_proposal_status, update_proposal_voting_closed, write_proposal, write_votes,
    InsertPolicy, Proposal, Store, Votes,
};
use governor_indexer::event::{
    extract_events, ContractEvent, ContractEventBody, ContractEventV0, SorobanTransactionMeta,
    TransactionMeta,
};
use governor_indexer::event_handler::{
    apply_event, decode_event, handle_proposal_created, handle_proposal_updated,
    handle_proposal_voting_closed, handle_vote_cast, process_event, DomainEvent, EventKind,
    EventTypes, Outcome,
};
use governor_indexer::value::{ContractId, Val};
use governor_indexer::{on_close, process_events, tally, GovernorError, Tally};
use rs_zephyr_sdk::stellar_xdr::next::{
    Int128Parts, Limits, ScAddress, ScString, ScSymbol, ScVal, ScVec, WriteXdr,
};

const QUEUED: u32 = 2;

fn val(v: &ScVal) -> Val {
    Val::new(v.to_xdr(Limits::none()).unwrap())
}

fn sym(name: &str) -> ScVal {
    ScVal::Symbol(ScSymbol(name.try_into().unwrap()))
}

fn text(s: &str) -> ScVal {
    ScVal::String(ScString(s.try_into().unwrap()))
}

fn list(items: Vec<ScVal>) -> ScVal {
    ScVal::Vec(Some(ScVec(items.try_into().unwrap())))
}

fn address(byte: u8) -> ScVal {
    ScVal::Address(ScAddress::Contract(rs_zephyr_sdk::stellar_xdr::next::Hash([byte; 32])))
}

fn amount(n: i128) -> ScVal {
    ScVal::I128(Int128Parts { hi: (n >> 64) as i64, lo: n as u64 })
}

fn contract(byte: u8) -> ContractId {
    ContractId { bytes: [byte; 32] }
}

fn event(topics: Vec<ScVal>, data: ScVal) -> ContractEventV0 {
    ContractEventV0 { topics: topics.iter().map(val).collect(), data: val(&data) }
}

fn created(prop_num: u32, creator: u8, title: &str) -> ContractEventV0 {
    event(
        vec![sym("proposal_created"), ScVal::U32(prop_num), address(creator)],
        list(vec![
            text(title),
            text("what it is about"),
            list(vec![sym("upgrade")]),
            ScVal::U32(100),
            ScVal::U32(200),
        ]),
    )
}

fn vote(prop_num: u32, voter: u8, support: u32, weight: i128) -> ContractEventV0 {
    event(
        vec![sym("vote_cast"), ScVal::U32(prop_num), address(voter)],
        list(vec![ScVal::U32(support), amount(weight)]),
    )
}

fn closed(prop_num: u32, status: u32, eta: u32, tally: ScVal) -> ContractEventV0 {
    event(
        vec![
            sym("proposal_voting_closed"),
            ScVal::U32(prop_num),
            ScVal::U32(status),
            ScVal::U32(eta),
        ],
        tally,
    )
}

fn status_event(name: &str, prop_num: u32) -> ContractEventV0 {
    event(vec![sym(name), ScVal::U32(prop_num)], ScVal::Void)
}

fn recorded(id: Option<ContractId>, body: ContractEventV0) -> ContractEvent {
    ContractEvent { contract_id: id, body: ContractEventBody::V0(body) }
}

fn transaction(events: Vec<ContractEvent>) -> TransactionMeta {
    TransactionMeta::V3 { soroban_meta: Some(SorobanTransactionMeta { events }) }
}

fn created_row(id: ContractId, prop_num: u32, creator: u8, title: &str) -> Proposal {
    Proposal {
        contract: id,
        prop_num: val(&ScVal::U32(prop_num)),
        title: val(&text(title)),
        descr: val(&text("what it is about")),
        action: val(&list(vec![sym("upgrade")])),
        creator: val(&address(creator)),
        status: val(&ScVal::U32(0)),
        start: val(&ScVal::U32(100)),
        end: val(&ScVal::U32(200)),
        eta: val(&ScVal::U32(0)),
        votes: val(&ScVal::Void),
    }
}

#[test]
fn ledger_with_creation_vote_and_close() {
    let id = contract(9);
    let ledger: u32 = 4242;
    let tally = list(vec![amount(100), amount(0), amount(0)]);
    let processing = vec![
        transaction(vec![recorded(Some(id), created(7, 0xA, "T"))]),
        transaction(vec![
            recorded(Some(id), vote(7, 0xB, 1, 100)),
            recorded(Some(id), closed(7, QUEUED, 1000, tally.clone())),
        ]),
    ];
    let mut store = Store::new(InsertPolicy::Append);
    let outcomes = on_close(&mut store, ledger, &processing);

    assert_eq!(outcomes, vec![Outcome::Written, Outcome::Written, Outcome::Written]);
    let mut expected = created_row(id, 7, 0xA, "T");
    expected.status = val(&ScVal::U32(QUEUED));
    expected.eta = val(&ScVal::U32(1000));
    expected.votes = val(&tally);
    assert_eq!(store.proposals, vec![expected]);
    assert_eq!(
        store.votes,
        vec![Votes {
            contract: id,
            prop_num: val(&ScVal::U32(7)),
            voter: val(&address(0xB)),
            support: val(&ScVal::U32(1)),
            amount: val(&amount(100)),
            ledger: val(&ScVal::U32(ledger)),
        }]
    );
}

#[test]
fn cancel_of_a_proposal_never_created() {
    let id = contract(1);
    let processing =
        vec![transaction(vec![recorded(Some(id), status_event("proposal_canceled", 3))])];
    let mut store = Store::new(InsertPolicy::Append);
    let outcomes = on_close(&mut store, 10, &processing);
    assert_eq!(outcomes, vec![Outcome::NotFound]);
    assert!(store.proposals.is_empty());
    assert!(store.votes.is_empty());
}

#[test]
fn vote_cast_appends_one_vote_and_touches_no_proposal() {
    let id = contract(2);
    let mut store = Store::new(InsertPolicy::Append);
    store.put_proposal(created_row(id, 1, 3, "first"));
    let proposals = store.proposals.clone();
    let ledger = val(&ScVal::U32(77));
    let out = handle_vote_cast(&mut store, id, &vote(1, 5, 2, -9), ledger.clone());
    assert_eq!(out, Outcome::Written);
    assert_eq!(store.proposals, proposals);
    assert_eq!(store.votes.len(), 1);
    let row = &store.votes[0];
    assert_eq!(row.contract, id);
    assert_eq!(row.prop_num, val(&ScVal::U32(1)));
    assert_eq!(row.voter, val(&address(5)));
    assert_eq!(row.support, val(&ScVal::U32(2)));
    assert_eq!(row.amount, val(&amount(-9)));
    assert_eq!(row.ledger, ledger);
}

#[test]
fn votes_are_not_deduplicated() {
    let id = contract(2);
    let mut store = Store::new(InsertPolicy::Upsert);
    let ledger = val(&ScVal::U32(1));
    handle_vote_cast(&mut store, id, &vote(1, 5, 1, 10), ledger.clone());
    handle_vote_cast(&mut store, id, &vote(1, 5, 1, 10), ledger);
    assert_eq!(store.votes.len(), 2);
    assert_eq!(store.votes[0], store.votes[1]);
}

#[test]
fn vote_for_a_proposal_without_a_row_is_written() {
    let mut store = Store::new(InsertPolicy::Append);
    let out = handle_vote_cast(&mut store, contract(4), &vote(99, 1, 0, 1), val(&ScVal::U32(5)));
    assert_eq!(out, Outcome::Written);
    assert_eq!(store.votes.len(), 1);
    assert!(store.proposals.is_empty());
}

#[test]
fn proposal_created_inserts_one_row_in_created_state() {
    let id = contract(3);
    let mut store = Store::new(InsertPolicy::Append);
    let out = handle_proposal_created(&mut store, id, &created(12, 8, "raise the cap"));
    assert_eq!(out, Outcome::Written);
    assert_eq!(store.proposals, vec![created_row(id, 12, 8, "raise the cap")]);
    assert!(store.votes.is_empty());
    let row = &store.proposals[0];
    assert_eq!(row.status.xdr, vec![0, 0, 0, 3, 0, 0, 0, 0]);
    assert_eq!(row.eta.xdr, vec![0, 0, 0, 3, 0, 0, 0, 0]);
    assert_eq!(row.votes.xdr, vec![0, 0, 0, 1]);
}

#[test]
fn second_creation_duplicates_under_append() {
    let id = contract(3);
    let mut store = Store::new(InsertPolicy::Append);
    handle_proposal_created(&mut store, id, &created(12, 8, "one"));
    handle_proposal_created(&mut store, id, &created(12, 8, "two"));
    assert_eq!(
        store.proposals,
        vec![created_row(id, 12, 8, "one"), created_row(id, 12, 8, "two")]
    );
}

#[test]
fn second_creation_overwrites_under_upsert() {
    let id = contract(3);
    let mut store = Store::new(InsertPolicy::Upsert);
    handle_proposal_created(&mut store, id, &created(11, 8, "other"));
    handle_proposal_created(&mut store, id, &created(12, 8, "one"));
    handle_proposal_updated(
        &mut store,
        id,
        &status_event("proposal_executed", 12),
        val(&ScVal::U32(4)),
    );
    handle_proposal_created(&mut store, id, &created(12, 9, "two"));
    assert_eq!(
        store.proposals,
        vec![created_row(id, 11, 8, "other"), created_row(id, 12, 9, "two")]
    );
}

#[test]
fn upsert_appends_where_the_key_is_new() {
    let mut store = Store::new(InsertPolicy::Upsert);
    handle_proposal_created(&mut store, contract(1), &created(12, 8, "one"));
    handle_proposal_created(&mut store, contract(2), &created(12, 8, "one"));
    handle_proposal_created(&mut store, contract(1), &created(13, 8, "one"));
    assert_eq!(store.proposals.len(), 3);
}

#[test]
fn status_change_updates_only_the_status_of_its_row() {
    let id = contract(6);
    let mut store = Store::new(InsertPolicy::Append);
    handle_proposal_created(&mut store, id, &created(1, 8, "one"));
    handle_proposal_created(&mut store, id, &created(2, 8, "two"));
    handle_proposal_created(&mut store, contract(7), &created(2, 8, "elsewhere"));
    handle_vote_cast(&mut store, id, &vote(2, 5, 1, 10), val(&ScVal::U32(1)));
    let votes = store.votes.clone();

    let out = process_event(
        &mut store,
        &EventTypes::new(),
        id,
        &status_event("proposal_canceled", 2),
        val(&ScVal::U32(1)),
    );
    assert_eq!(out, Outcome::Written);
    let mut changed = created_row(id, 2, 8, "two");
    changed.status = val(&ScVal::U32(5));
    assert_eq!(
        store.proposals,
        vec![created_row(id, 1, 8, "one"), changed, created_row(contract(7), 2, 8, "elsewhere")]
    );
    assert_eq!(store.votes, votes);
}

#[test]
fn each_status_kind_carries_its_own_status() {
    let id = contract(6);
    let types = EventTypes::new();
    for (name, status) in
        [("proposal_canceled", 5u32), ("proposal_executed", 4u32), ("proposal_expired", 3u32)]
    {
        let mut store = Store::new(InsertPolicy::Append);
        handle_proposal_created(&mut store, id, &created(1, 8, "one"));
        let out =
            process_event(&mut store, &types, id, &status_event(name, 1), val(&ScVal::U32(1)));
        assert_eq!(out, Outcome::Written);
        assert_eq!(store.proposals[0].status, val(&ScVal::U32(status)));
        assert_eq!(store.proposals[0].status.xdr, vec![0, 0, 0, 3, 0, 0, 0, status as u8]);
    }
}

#[test]
fn voting_closed_sets_status_eta_and_tally_together() {
    let id = contract(6);
    let mut store = Store::new(InsertPolicy::Append);
    handle_proposal_created(&mut store, id, &created(1, 8, "one"));
    handle_proposal_created(&mut store, id, &created(2, 8, "two"));
    let tally = list(vec![amount(5), amount(6)]);
    let out = handle_proposal_voting_closed(&mut store, id, &closed(1, 1, 0, tally.clone()));
    assert_eq!(out, Outcome::Written);
    let mut changed = created_row(id, 1, 8, "one");
    changed.status = val(&ScVal::U32(1));
    changed.eta = val(&ScVal::U32(0));
    changed.votes = val(&tally);
    assert_eq!(store.proposals, vec![changed, created_row(id, 2, 8, "two")]);
}

#[test]
fn voting_closed_takes_a_tally_of_any_shape() {
    let id = contract(6);
    let mut store = Store::new(InsertPolicy::Append);
    handle_proposal_created(&mut store, id, &created(1, 8, "one"));
    let out = handle_proposal_voting_closed(&mut store, id, &closed(1, 2, 9, ScVal::U64(3)));
    assert_eq!(out, Outcome::Written);
    assert_eq!(store.proposals[0].votes, val(&ScVal::U64(3)));
}

#[test]
fn update_of_a_missing_key_is_not_found_and_writes_nothing() {
    let id = contract(6);
    let mut store = Store::new(InsertPolicy::Append);
    handle_proposal_created(&mut store, id, &created(1, 8, "one"));
    let before = store.clone();

    let r = update_proposal_status(&mut store, val(&ScVal::U32(5)), id, val(&ScVal::U32(2)));
    assert_eq!(r, Err(GovernorError::ProposalNotFound));
    assert_eq!(store, before);

    let r = update_proposal_status(
        &mut store,
        val(&ScVal::U32(5)),
        contract(7),
        val(&ScVal::U32(1)),
    );
    assert_eq!(r, Err(GovernorError::ProposalNotFound));
    assert_eq!(store, before);

    let r = update_proposal_voting_closed(
        &mut store,
        val(&ScVal::U32(5)),
        val(&ScVal::U32(1)),
        val(&ScVal::Void),
        id,
        val(&ScVal::U64(1)),
    );
    assert_eq!(r, Err(GovernorError::ProposalNotFound));
    assert_eq!(store, before);

    let out = handle_proposal_voting_closed(&mut store, id, &closed(3, 2, 9, ScVal::Void));
    assert_eq!(out, Outcome::NotFound);
    assert_eq!(store, before);
}

#[test]
fn key_is_compared_as_a_whole_value() {
    let id = contract(6);
    let mut store = Store::new(InsertPolicy::Append);
    handle_proposal_created(&mut store, id, &created(1, 8, "one"));
    let r = update_proposal_status(&mut store, val(&ScVal::U32(5)), id, val(&ScVal::I32(1)));
    assert_eq!(r, Err(GovernorError::ProposalNotFound));
    let r = update_proposal_status(&mut store, val(&ScVal::U32(5)), id, val(&ScVal::U32(1)));
    assert_eq!(r, Ok(()));
}

#[test]
fn update_writes_over_every_row_with_the_key() {
    let id = contract(6);
    let mut store = Store::new(InsertPolicy::Append);
    handle_proposal_created(&mut store, id, &created(1, 8, "one"));
    handle_proposal_created(&mut store, id, &created(1, 9, "again"));
    let r = update_proposal_status(&mut store, val(&ScVal::U32(4)), id, val(&ScVal::U32(1)));
    assert_eq!(r, Ok(()));
    let mut changed = created_row(id, 1, 8, "one");
    changed.status = val(&ScVal::U32(4));
    assert_eq!(store.proposals, vec![changed.clone(), changed]);
}

#[test]
fn events_with_too_few_topics_are_dropped() {
    let id = contract(6);
    let types = EventTypes::new();
    let data = list(vec![
        text("t"),
        text("d"),
        ScVal::Void,
        ScVal::U32(1),
        ScVal::U32(2),
    ]);
    let short = vec![
        event(vec![sym("vote_cast")], data.clone()),
        event(vec![sym("vote_cast"), ScVal::U32(1)], data.clone()),
        event(vec![sym("proposal_created")], data.clone()),
        event(vec![sym("proposal_created"), ScVal::U32(1)], data.clone()),
        event(vec![sym("proposal_canceled")], data.clone()),
        event(vec![sym("proposal_executed")], data.clone()),
        event(vec![sym("proposal_expired")], data.clone()),
        event(vec![sym("proposal_voting_closed")], data.clone()),
        event(vec![sym("proposal_voting_closed"), ScVal::U32(1)], data.clone()),
        event(vec![sym("proposal_voting_closed"), ScVal::U32(1), ScVal::U32(2)], data),
    ];
    let mut store = Store::new(InsertPolicy::Append);
    handle_proposal_created(&mut store, id, &created(1, 8, "one"));
    let before = store.clone();
    for e in &short {
        let out = process_event(&mut store, &types, id, e, val(&ScVal::U32(1)));
        assert_eq!(out, Outcome::Malformed);
        assert_eq!(store, before);
    }
}

#[test]
fn events_with_too_little_data_are_dropped() {
    let id = contract(6);
    let mut store = Store::new(InsertPolicy::Append);
    let ledger = val(&ScVal::U32(1));

    let one = event(
        vec![sym("vote_cast"), ScVal::U32(1), address(1)],
        list(vec![ScVal::U32(1)]),
    );
    assert_eq!(handle_vote_cast(&mut store, id, &one, ledger.clone()), Outcome::Malformed);
    let none = event(vec![sym("vote_cast"), ScVal::U32(1), address(1)], list(vec![]));
    assert_eq!(handle_vote_cast(&mut store, id, &none, ledger.clone()), Outcome::Malformed);

    let four = event(
        vec![sym("proposal_created"), ScVal::U32(1), address(1)],
        list(vec![text("t"), text("d"), ScVal::Void, ScVal::U32(1)]),
    );
    assert_eq!(handle_proposal_created(&mut store, id, &four), Outcome::Malformed);
    assert!(store.proposals.is_empty());
    assert!(store.votes.is_empty());
}

#[test]
fn events_with_data_of_another_shape_are_dropped() {
    let id = contract(6);
    let mut store = Store::new(InsertPolicy::Append);
    let ledger = val(&ScVal::U32(1));
    let topics = vec![sym("vote_cast"), ScVal::U32(1), address(1)];
    for data in [ScVal::Void, ScVal::U32(1), ScVal::Vec(None), text("support"), amount(3)] {
        let e = event(topics.clone(), data);
        assert_eq!(handle_vote_cast(&mut store, id, &e, ledger.clone()), Outcome::Malformed);
        assert_eq!(handle_proposal_created(&mut store, id, &e), Outcome::Malformed);
    }
    let not_a_value =
        ContractEventV0 { topics: topics.iter().map(val).collect(), data: Val::new(vec![1, 2, 3]) };
    assert_eq!(handle_vote_cast(&mut store, id, &not_a_value, ledger.clone()), Outcome::Malformed);
    let with_a_tail = {
        let mut bytes = val(&list(vec![ScVal::U32(1), amount(3)])).xdr;
        bytes.push(0);
        ContractEventV0 { topics: topics.iter().map(val).collect(), data: Val::new(bytes) }
    };
    assert_eq!(handle_vote_cast(&mut store, id, &with_a_tail, ledger), Outcome::Malformed);
    assert!(store.proposals.is_empty());
    assert!(store.votes.is_empty());
}

#[test]
fn data_nested_beyond_the_depth_is_dropped() {
    let id = contract(6);
    let mut deep = ScVal::U32(1);
    for _ in 0..400 {
        deep = list(vec![deep]);
    }
    let e = event(
        vec![sym("vote_cast"), ScVal::U32(1), address(1)],
        list(vec![ScVal::U32(1), deep]),
    );
    let mut store = Store::new(InsertPolicy::Append);
    assert_eq!(handle_vote_cast(&mut store, id, &e, val(&ScVal::U32(1))), Outcome::Malformed);
    assert!(store.votes.is_empty());

    let mut shallow = ScVal::U32(1);
    for _ in 0..50 {
        shallow = list(vec![shallow]);
    }
    let e = event(
        vec![sym("vote_cast"), ScVal::U32(1), address(1)],
        list(vec![ScVal::U32(1), shallow.clone()]),
    );
    assert_eq!(handle_vote_cast(&mut store, id, &e, val(&ScVal::U32(1))), Outcome::Written);
    assert_eq!(store.votes[0].amount, val(&shallow));
}

#[test]
fn data_nested_without_end_is_dropped() {
    let id = contract(6);
    let mut bytes: Vec<u8> = Vec::new();
    for _ in 0..200_000 {
        bytes.extend_from_slice(&[0, 0, 0, 16, 0, 0, 0, 1, 0, 0, 0, 1]);
    }
    bytes.extend_from_slice(&[0, 0, 0, 1]);
    let topics = vec![sym("vote_cast"), ScVal::U32(1), address(1)];
    let e = ContractEventV0 { topics: topics.iter().map(val).collect(), data: Val::new(bytes) };
    let mut store = Store::new(InsertPolicy::Append);
    assert_eq!(handle_vote_cast(&mut store, id, &e, val(&ScVal::U32(1))), Outcome::Malformed);
    assert_eq!(handle_proposal_created(&mut store, id, &e), Outcome::Malformed);
    assert!(store.votes.is_empty());
    assert!(store.proposals.is_empty());
}

#[test]
fn data_that_claims_more_than_it_holds_is_dropped() {
    let id = contract(6);
    let topics = vec![sym("vote_cast"), ScVal::U32(1), address(1)];
    let claims = vec![
        vec![0, 0, 0, 16, 0, 0, 0, 1, 0xff, 0xff, 0xff, 0xff],
        vec![0, 0, 0, 16, 0, 0, 0, 1, 0, 0, 0, 2, 0, 0, 0, 13, 0xff, 0xff, 0xff, 0xf0],
        vec![0, 0, 0, 16, 0, 0, 0, 1, 0, 0, 0, 2, 0, 0, 0, 3, 0, 0, 0, 1],
        vec![0, 0, 0, 16],
        vec![],
    ];
    let mut store = Store::new(InsertPolicy::Append);
    for bytes in claims {
        let e = ContractEventV0 { topics: topics.iter().map(val).collect(), data: Val::new(bytes) };
        assert_eq!(handle_vote_cast(&mut store, id, &e, val(&ScVal::U32(1))), Outcome::Malformed);
    }
    assert!(store.votes.is_empty());
}

#[test]
fn extra_topics_and_data_are_ignored() {
    let id = contract(6);
    let mut store = Store::new(InsertPolicy::Append);
    let e = event(
        vec![sym("vote_cast"), ScVal::U32(1), address(1), ScVal::U32(9)],
        list(vec![ScVal::U32(1), amount(2), ScVal::Void]),
    );
    assert_eq!(handle_vote_cast(&mut store, id, &e, val(&ScVal::U32(1))), Outcome::Written);
    assert_eq!(store.votes[0].support, val(&ScVal::U32(1)));
    assert_eq!(store.votes[0].amount, val(&amount(2)));
}

#[test]
fn unknown_events_are_passed_over() {
    let id = contract(6);
    let types = EventTypes::new();
    let mut store = Store::new(InsertPolicy::Append);
    let data = list(vec![ScVal::U32(1), amount(2)]);
    let unknown = vec![
        event(vec![], data.clone()),
        event(vec![sym("votes_changed"), ScVal::U32(1), address(1)], data.clone()),
        event(vec![sym("vote_cast_"), ScVal::U32(1), address(1)], data.clone()),
        event(vec![sym("vote_cas"), ScVal::U32(1), address(1)], data.clone()),
        event(vec![sym("proposal_updated"), ScVal::U32(1), address(1)], data.clone()),
        event(vec![text("vote_cast"), ScVal::U32(1), address(1)], data.clone()),
        event(vec![ScVal::U32(1), ScVal::U32(1), address(1)], data),
    ];
    for e in &unknown {
        let out = process_event(&mut store, &types, id, e, val(&ScVal::U32(1)));
        assert_eq!(out, Outcome::Unknown);
        assert_eq!(types.classify(&e.topics), None);
    }
    assert!(store.proposals.is_empty());
    assert!(store.votes.is_empty());
}

#[test]
fn event_types_are_the_six_symbols() {
    let types = EventTypes::new();
    assert_eq!(types.vote_cast, val(&sym("vote_cast")));
    assert_eq!(types.proposal_created, val(&sym("proposal_created")));
    assert_eq!(types.proposal_canceled, val(&sym("proposal_canceled")));
    assert_eq!(types.proposal_voting_closed, val(&sym("proposal_voting_closed")));
    assert_eq!(types.proposal_executed, val(&sym("proposal_executed")));
    assert_eq!(types.proposal_expired, val(&sym("proposal_expired")));
    assert_eq!(
        types.vote_cast.xdr,
        vec![0, 0, 0, 15, 0, 0, 0, 9, b'v', b'o', b't', b'e', b'_', b'c', b'a', b's', b't', 0, 0, 0]
    );
    assert_eq!(
        types.proposal_created.xdr,
        [&[0u8, 0, 0, 15, 0, 0, 0, 16][..], &b"proposal_created"[..]].concat()
    );
    assert_eq!(
        types.proposal_voting_closed.xdr,
        [&[0u8, 0, 0, 15, 0, 0, 0, 22][..], &b"proposal_voting_closed"[..], &[0u8, 0][..]].concat()
    );
}

#[test]
fn classify_tells_the_six_kinds() {
    let types = EventTypes::new();
    let kinds = [
        ("vote_cast", EventKind::VoteCast),
        ("proposal_created", EventKind::ProposalCreated),
        ("proposal_canceled", EventKind::ProposalCanceled),
        ("proposal_executed", EventKind::ProposalExecuted),
        ("proposal_expired", EventKind::ProposalExpired),
        ("proposal_voting_closed", EventKind::ProposalVotingClosed),
    ];
    for (name, kind) in kinds {
        assert_eq!(types.classify(&vec![val(&sym(name))]), Some(kind));
    }
}

#[test]
fn ledger_sequence_is_stored_as_an_unsigned_value() {
    let id = contract(6);
    let processing = vec![transaction(vec![recorded(Some(id), vote(1, 2, 1, 5))])];
    for ledger in [0u32, 1, 255, 256, 0x0102_0304, u32::MAX] {
        let mut store = Store::new(InsertPolicy::Append);
        on_close(&mut store, ledger, &processing);
        assert_eq!(store.votes[0].ledger, val(&ScVal::U32(ledger)));
        let b = ledger.to_be_bytes();
        assert_eq!(store.votes[0].ledger.xdr, vec![0, 0, 0, 3, b[0], b[1], b[2], b[3]]);
    }
}

#[test]
fn extraction_keeps_order_and_skips_what_holds_no_event() {
    let a = contract(1);
    let b = contract(2);
    let processing = vec![
        TransactionMeta::Other,
        transaction(vec![recorded(Some(a), vote(1, 1, 1, 1)), recorded(None, vote(2, 2, 2, 2))]),
        TransactionMeta::V3 { soroban_meta: None },
        transaction(vec![]),
        transaction(vec![recorded(Some(b), vote(3, 3, 3, 3)), recorded(Some(a), vote(4, 4, 4, 4))]),
    ];
    let events = extract_events(&processing);
    assert_eq!(events.len(), 3);
    assert_eq!(events[0].contract_id, a);
    assert_eq!(events[0].event, vote(1, 1, 1, 1));
    assert_eq!(events[1].contract_id, b);
    assert_eq!(events[1].event, vote(3, 3, 3, 3));
    assert_eq!(events[2].contract_id, a);
    assert_eq!(events[2].event, vote(4, 4, 4, 4));
    assert!(extract_events(&vec![]).is_empty());
}

#[test]
fn a_bad_event_does_not_stop_the_run() {
    let id = contract(6);
    let processing = vec![transaction(vec![
        recorded(Some(id), status_event("proposal_expired", 1)),
        recorded(Some(id), event(vec![sym("vote_cast")], ScVal::Void)),
        recorded(Some(id), event(vec![sym("deposit")], ScVal::Void)),
        recorded(Some(id), created(1, 2, "late")),
        recorded(Some(id), status_event("proposal_expired", 1)),
    ])];
    let mut store = Store::new(InsertPolicy::Append);
    let outcomes = on_close(&mut store, 3, &processing);
    assert_eq!(
        outcomes,
        vec![
            Outcome::NotFound,
            Outcome::Malformed,
            Outcome::Unknown,
            Outcome::Written,
            Outcome::Written
        ]
    );
    assert_eq!(store.proposals.len(), 1);
    assert_eq!(store.proposals[0].status, val(&ScVal::U32(3)));
}

#[test]
fn an_empty_ledger_changes_nothing() {
    let mut store = Store::new(InsertPolicy::Append);
    store.put_proposal(created_row(contract(1), 1, 1, "one"));
    let before = store.clone();
    assert!(on_close(&mut store, 3, &vec![]).is_empty());
    assert_eq!(store, before);
    let none = process_events(&mut store, &EventTypes::new(), &vec![], &val(&ScVal::U32(1)));
    assert!(none.is_empty());
    assert_eq!(store, before);
}

#[test]
fn decode_then_apply_is_process() {
    let id = contract(6);
    let types = EventTypes::new();
    let ledger = val(&ScVal::U32(8));
    let events = vec![
        created(1, 2, "one"),
        vote(1, 3, 1, 10),
        status_event("proposal_executed", 1),
        closed(1, 2, 30, ScVal::Void),
        status_event("proposal_canceled", 2),
        event(vec![sym("vote_cast")], ScVal::Void),
        event(vec![sym("withdraw")], ScVal::Void),
    ];
    let mut direct = Store::new(InsertPolicy::Upsert);
    let mut staged = Store::new(InsertPolicy::Upsert);
    for e in &events {
        let out = process_event(&mut direct, &types, id, e, ledger.clone());
        let staged_out = match decode_event(&types, id, e, ledger.clone()) {
            Ok(decoded) => apply_event(&mut staged, decoded),
            Err(outcome) => outcome,
        };
        assert_eq!(out, staged_out);
        assert_eq!(direct, staged);
    }
}

#[test]
fn decode_event_names_the_fields_of_each_kind() {
    let id = contract(6);
    let types = EventTypes::new();
    let ledger = val(&ScVal::U32(8));
    assert_eq!(
        decode_event(&types, id, &status_event("proposal_canceled", 4), ledger.clone()),
        Ok(DomainEvent::StatusChanged {
            contract: id,
            prop_num: val(&ScVal::U32(4)),
            status: val(&ScVal::U32(5)),
        })
    );
    assert_eq!(
        decode_event(&types, id, &closed(4, 2, 30, text("tally")), ledger.clone()),
        Ok(DomainEvent::VotingClosed {
            contract: id,
            prop_num: val(&ScVal::U32(4)),
            status: val(&ScVal::U32(2)),
            eta: val(&ScVal::U32(30)),
            votes: val(&text("tally")),
        })
    );
    assert_eq!(
        decode_event(&types, id, &created(4, 1, "t"), ledger.clone()),
        Ok(DomainEvent::ProposalCreated(created_row(id, 4, 1, "t")))
    );
    assert_eq!(
        decode_event(&types, id, &event(vec![], ScVal::Void), ledger.clone()),
        Err(Outcome::Unknown)
    );
    assert_eq!(
        decode_event(&types, id, &event(vec![sym("vote_cast")], ScVal::Void), ledger),
        Err(Outcome::Malformed)
    );
}

#[test]
fn write_functions_append() {
    let id = contract(1);
    let mut store = Store::new(InsertPolicy::Append);
    write_proposal(&mut store, created_row(id, 1, 1, "one"));
    write_proposal(&mut store, created_row(id, 1, 1, "one"));
    assert_eq!(store.proposals.len(), 2);
    let v = Votes {
        contract: id,
        prop_num: val(&ScVal::U32(1)),
        voter: val(&address(1)),
        support: val(&ScVal::U32(1)),
        amount: val(&amount(1)),
        ledger: val(&ScVal::U32(1)),
    };
    write_votes(&mut store, v.clone());
    write_votes(&mut store, v.clone());
    assert_eq!(store.votes, vec![v.clone(), v]);
}

#[test]
fn creation_for_a_key_that_has_a_row_is_appended_blindly() {
    let id = contract(3);
    let mut store = Store::new(InsertPolicy::Append);
    handle_proposal_created(&mut store, id, &created(12, 8, "one"));
    handle_proposal_updated(
        &mut store,
        id,
        &status_event("proposal_executed", 12),
        val(&ScVal::U32(4)),
    );
    let mut executed = created_row(id, 12, 8, "one");
    executed.status = val(&ScVal::U32(4));
    assert_eq!(store.proposals, vec![executed.clone()]);

    let out = handle_proposal_created(&mut store, id, &created(12, 9, "two"));
    assert_eq!(out, Outcome::Written);
    assert_eq!(store.proposals, vec![executed, created_row(id, 12, 9, "two")]);
    assert_eq!(store.proposals[1].status, val(&ScVal::U32(0)));
    assert!(store.votes.is_empty());
}

#[test]
fn tally_counts_each_outcome() {
    let id = contract(6);
    let processing = vec![transaction(vec![
        recorded(Some(id), status_event("proposal_expired", 1)),
        recorded(Some(id), event(vec![sym("vote_cast")], ScVal::Void)),
        recorded(Some(id), event(vec![sym("deposit")], ScVal::Void)),
        recorded(Some(id), created(1, 2, "late")),
        recorded(Some(id), status_event("proposal_expired", 1)),
        recorded(Some(id), event(vec![], ScVal::Void)),
        recorded(Some(id), vote(1, 2, 1, 5)),
    ])];
    let mut store = Store::new(InsertPolicy::Append);
    let counts = tally(&on_close(&mut store, 3, &processing));
    assert_eq!(counts, Tally { written: 3, unknown: 2, malformed: 1, not_found: 1 });
    assert!(counts.has_losses());

    let none = tally(&vec![]);
    assert_eq!(none, Tally { written: 0, unknown: 0, malformed: 0, not_found: 0 });
    assert!(!none.has_losses());
    let quiet = tally(&vec![Outcome::Written, Outcome::Unknown, Outcome::Written]);
    assert_eq!(quiet, Tally { written: 2, unknown: 1, malformed: 0, not_found: 0 });
    assert!(!quiet.has_losses());
    assert!(tally(&vec![Outcome::Malformed]).has_losses());
    assert!(tally(&vec![Outcome::NotFound]).has_losses());
}
