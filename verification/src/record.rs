//! The format of the configuration record: a JSON object with the one field
//! `owner`, written without spaces.

use vstd::prelude::*;
use vstd::slice::slice_subrange;

verus! {

/// What stands before the value of the field: the bytes of `{"owner":`.
pub const OPENING: [u8; 9] = [0x7b, 0x22, 0x6f, 0x77, 0x6e, 0x65, 0x72, 0x22, 0x3a];

/// What stands after it: the byte of `}`.
pub const CLOSING: u8 = 0x7d;

/// The record with `value` as the encoded value of its field.
pub open spec fn owner_record(value: Seq<u8>) -> Seq<u8> {
    OPENING@ + value + seq![CLOSING]
}

/// The encoded value of the field in `record`, if `record` is in the format.
pub open spec fn record_value(record: Seq<u8>) -> Option<Seq<u8>> {
    if record.len() >= OPENING@.len() + 1 && record.subrange(0, OPENING@.len() as int) == OPENING@
        && record.last() == CLOSING {
        Some(record.subrange(OPENING@.len() as int, record.len() - 1))
    } else {
        None
    }
}

/// What is written is read again.
pub proof fn lemma_record_round_trip(value: Seq<u8>)
    ensures
        record_value(owner_record(value)) == Some(value),
{
    let record = owner_record(value);
    assert(record.subrange(0, OPENING@.len() as int) =~= OPENING@);
    assert(record.subrange(OPENING@.len() as int, record.len() - 1) =~= value);
}

/// Writes the record around the encoded value of its field.
pub fn frame_owner(value: &[u8]) -> (record: Vec<u8>)
    ensures
        record@ == owner_record(value@),
{
    let mut record: Vec<u8> = Vec::new();
    let mut i: usize = 0;
    while i < OPENING.len()
        invariant
            i <= OPENING@.len(),
            record@ == OPENING@.subrange(0, i as int),
        decreases OPENING@.len() - i,
    {
        record.push(OPENING[i]);
        i += 1;
        assert(record@ =~= OPENING@.subrange(0, i as int));
    }
    assert(record@ =~= OPENING@);
    let mut j: usize = 0;
    while j < value.len()
        invariant
            j <= value@.len(),
            record@ == OPENING@ + value@.subrange(0, j as int),
        decreases value@.len() - j,
    {
        record.push(value[j]);
        j += 1;
        assert(record@ =~= OPENING@ + value@.subrange(0, j as int));
    }
    record.push(CLOSING);
    assert(record@ =~= owner_record(value@));
    record
}

/// Takes the encoded value of the field out of a record, where the record is
/// in the format.
pub fn unframe_owner(record: &[u8]) -> (value: Option<&[u8]>)
    ensures
        value is Some <==> record_value(record@) is Some,
        value is Some ==> record_value(record@) == Some(value->0@),
{
    if record.len() < OPENING.len() + 1 {
        return None;
    }
    let mut i: usize = 0;
    while i < OPENING.len()
        invariant
            i <= OPENING@.len(),
            record@.len() >= OPENING@.len() + 1,
            forall|k: int| 0 <= k < i ==> record@[k] == OPENING@[k],
        decreases OPENING@.len() - i,
    {
        if record[i] != OPENING[i] {
            assert(record@.subrange(0, OPENING@.len() as int)[i as int] != OPENING@[i as int]);
            return None;
        }
        i += 1;
    }
    assert(record@.subrange(0, OPENING@.len() as int) =~= OPENING@);
    if record[record.len() - 1] != CLOSING {
        return None;
    }
    Some(slice_subrange(record, OPENING.len(), record.len() - 1))
}

} // verus!
