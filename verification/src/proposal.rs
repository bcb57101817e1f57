//! The flat layout of an event as a row of named byte segments.

use crate::value::{byte_strings, bytes_copy};
use vstd::prelude::*;
use vstd::string::StringSliceAdditionalSpecFns;

verus! {

/// The names of a list, one for one.
pub open spec fn names(list: Seq<&'static str>) -> Seq<Seq<char>> {
    list.map_values(|s: &'static str| s@)
}

/// The topic at a place, or the empty byte string where there is none.
pub open spec fn topic_or_empty(topics: Seq<Seq<u8>>, i: int) -> Seq<u8> {
    if 0 <= i < topics.len() {
        topics[i]
    } else {
        Seq::empty()
    }
}

/// The byte of the data at a place, or zero where there is none, as a byte
/// string of its own.
pub open spec fn byte_or_zero(data: Seq<u8>, i: int) -> Seq<u8> {
    if 0 <= i < data.len() {
        seq![data[i]]
    } else {
        seq![0u8]
    }
}

/// The columns of the flat row of a vote.
pub open spec fn vote_cast_columns() -> Seq<Seq<char>> {
    seq!["contract_id"@, "type"@, "proposal_id"@, "voter"@, "support"@, "amount"@]
}

/// The segments of the flat row of a vote, one for each column.
pub open spec fn vote_cast_segments(contract: Seq<u8>, topics: Seq<Seq<u8>>, data: Seq<u8>) -> Seq<
    Seq<u8>,
> {
    seq![
        contract,
        topic_or_empty(topics, 0),
        topic_or_empty(topics, 1),
        topic_or_empty(topics, 2),
        byte_or_zero(data, 0),
        byte_or_zero(data, 1),
    ]
}

/// Whether a byte string spells a name.
fn spells(bytes: &Vec<u8>, name: &str) -> (r: bool)
    ensures
        r == (bytes@ == name.spec_bytes()),
{
    let wanted = name.as_bytes();
    if bytes.len() != wanted.len() {
        return false;
    }
    let mut i: usize = 0;
    while i < bytes.len()
        invariant
            bytes.len() == wanted.len(),
            wanted@ == name.spec_bytes(),
            i <= bytes.len(),
            forall|j: int| 0 <= j < i ==> bytes@[j] == wanted@[j],
        decreases bytes.len() - i,
    {
        if bytes[i] != wanted[i] {
            return false;
        }
        i += 1;
    }
    assert(bytes@ =~= wanted@);
    true
}

/// A copy of the topic at a place, or the empty byte string.
fn topic_at(topics: &Vec<Vec<u8>>, i: usize) -> (r: Vec<u8>)
    ensures
        r@ == topic_or_empty(byte_strings(topics@), i as int),
{
    if i < topics.len() {
        bytes_copy(&topics[i])
    } else {
        Vec::new()
    }
}

/// The byte of the data at a place, or zero, as a byte string of its own.
fn byte_at(data: &Vec<u8>, i: usize) -> (r: Vec<u8>)
    ensures
        r@ == byte_or_zero(data@, i as int),
{
    let mut out: Vec<u8> = Vec::new();
    if i < data.len() {
        out.push(data[i]);
    } else {
        out.push(0);
    }
    assert(out@ =~= byte_or_zero(data@, i as int));
    out
}

/// Lays an event out as a flat row: the names of the columns and, for each,
/// its segment of bytes.
///
/// Only a `vote_cast` event has a row: the contract, the first three topics
/// (an empty segment for one that is missing) and the first two bytes of
/// the data (zero for one that is missing). Every other event has none.
pub fn handle_proposal_event(
    event_name: &Vec<u8>,
    contract_id: [u8; 32],
    topics: &Vec<Vec<u8>>,
    data: &Vec<u8>,
) -> (r: (Vec<&'static str>, Vec<Vec<u8>>))
    ensures
        event_name@ == "vote_cast".spec_bytes() ==> names(r.0@) == vote_cast_columns()
            && byte_strings(r.1@) == vote_cast_segments(
            contract_id@,
            byte_strings(topics@),
            data@,
        ),
        event_name@ != "vote_cast".spec_bytes() ==> r.0@.len() == 0 && r.1@.len() == 0,
{
    let mut columns: Vec<&'static str> = Vec::new();
    let mut segments: Vec<Vec<u8>> = Vec::new();
    if spells(event_name, "vote_cast") {
        columns.push("contract_id");
        columns.push("type");
        columns.push("proposal_id");
        columns.push("voter");
        columns.push("support");
        columns.push("amount");
        assert(names(columns@) =~= vote_cast_columns());
        let mut contract: Vec<u8> = Vec::new();
        let mut i: usize = 0;
        while i < 32
            invariant
                i <= 32,
                contract@.len() == i,
                forall|j: int| 0 <= j < i ==> contract@[j] == contract_id@[j],
            decreases 32 - i,
        {
            contract.push(contract_id[i]);
            i += 1;
        }
        assert(contract@ =~= contract_id@);
        segments.push(contract);
        segments.push(topic_at(topics, 0));
        segments.push(topic_at(topics, 1));
        segments.push(topic_at(topics, 2));
        segments.push(byte_at(data, 0));
        segments.push(byte_at(data, 1));
        assert(byte_strings(segments@) =~= vote_cast_segments(
            contract_id@,
            byte_strings(topics@),
            data@,
        ));
    }
    (columns, segments)
}

} // verus!
