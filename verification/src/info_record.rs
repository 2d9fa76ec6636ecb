//! The record in which the information on a service travels.

use bytes::Bytes;
use vstd::prelude::*;
use crate::formats::IntoFormat;
use crate::payload;
use crate::value::{
    mismatch, mismatched, Expected, FromValue, FromValueError, IntoValue, Kind, Value,
};
use crate::wire::{
    fits, list_fits, number_at, number_bytes, number_read_back, raw_strings, read_number,
    read_string, read_string_list, string_at, string_bytes, string_list_at, string_list_bytes,
    string_list_read_back, string_read_back, write_number, write_string, write_string_list, Error,
};

verus! {

/// The fields of the record, strings being raw bytes.
#[derive(PartialEq, Eq, Debug)]
pub struct InfoRecord {
    pub name: Vec<u8>,
    pub service_id: u32,
    pub machine_id: Vec<u8>,
    pub process_id: u32,
    pub endpoints: Vec<Vec<u8>>,
    pub session_id: Vec<u8>,
    pub object_uid: Vec<u8>,
}

/// The fields of the record, in contracts.
#[verifier::ext_equal]
pub struct InfoRecordView {
    pub name: Seq<u8>,
    pub service_id: u32,
    pub machine_id: Seq<u8>,
    pub process_id: u32,
    pub endpoints: Seq<Seq<u8>>,
    pub session_id: Seq<u8>,
    pub object_uid: Seq<u8>,
}

impl View for InfoRecord {
    type V = InfoRecordView;

    open spec fn view(&self) -> InfoRecordView {
        InfoRecordView {
            name: self.name@,
            service_id: self.service_id,
            machine_id: self.machine_id@,
            process_id: self.process_id,
            endpoints: raw_strings(self.endpoints@),
            session_id: self.session_id@,
            object_uid: self.object_uid@,
        }
    }
}

impl InfoRecordView {
    /// Whether all lengths of the record can be written.
    pub open spec fn fits(self) -> bool {
        &&& fits(self.name)
        &&& fits(self.machine_id)
        &&& list_fits(self.endpoints)
        &&& fits(self.session_id)
        &&& fits(self.object_uid)
    }

    /// The bytes of the record: its fields, one after the other.
    pub open spec fn bytes(self) -> Seq<u8> {
        string_bytes(self.name) + number_bytes(self.service_id) + string_bytes(self.machine_id)
            + number_bytes(self.process_id) + string_list_bytes(self.endpoints) + string_bytes(
            self.session_id,
        ) + string_bytes(self.object_uid)
    }

    /// The record at a position, and the position behind it.
    pub open spec fn at(bytes: Seq<u8>, start: int) -> Result<(InfoRecordView, int), Error> {
        match string_at(bytes, start) {
            Err(err) => Err(err),
            Ok((name, at)) => match number_at(bytes, at) {
                Err(err) => Err(err),
                Ok((service_id, at)) => match string_at(bytes, at) {
                    Err(err) => Err(err),
                    Ok((machine_id, at)) => match number_at(bytes, at) {
                        Err(err) => Err(err),
                        Ok((process_id, at)) => match string_list_at(bytes, at) {
                            Err(err) => Err(err),
                            Ok((endpoints, at)) => match string_at(bytes, at) {
                                Err(err) => Err(err),
                                Ok((session_id, at)) => match string_at(bytes, at) {
                                    Err(err) => Err(err),
                                    Ok((object_uid, end)) => Ok(
                                        (
                                            InfoRecordView {
                                                name,
                                                service_id,
                                                machine_id,
                                                process_id,
                                                endpoints,
                                                session_id,
                                                object_uid,
                                            },
                                            end,
                                        ),
                                    ),
                                },
                            },
                        },
                    },
                },
            },
        }
    }

    /// The record at the start of bytes. What follows it is not looked at.
    pub open spec fn read(bytes: Seq<u8>) -> Result<InfoRecordView, Error> {
        match InfoRecordView::at(bytes, 0) {
            Err(err) => Err(err),
            Ok((record, _)) => Ok(record),
        }
    }
}

/// A concatenation of seven parts between others, split around each part.
proof fn split_around_parts(
    before: Seq<u8>,
    f1: Seq<u8>,
    f2: Seq<u8>,
    f3: Seq<u8>,
    f4: Seq<u8>,
    f5: Seq<u8>,
    f6: Seq<u8>,
    f7: Seq<u8>,
    rest: Seq<u8>,
)
    ensures
        ({
            let bytes = before + (f1 + f2 + f3 + f4 + f5 + f6 + f7) + rest;
            &&& bytes == before + f1 + (f2 + (f3 + (f4 + (f5 + (f6 + (f7 + rest))))))
            &&& bytes == before + f1 + f2 + (f3 + (f4 + (f5 + (f6 + (f7 + rest)))))
            &&& bytes == before + f1 + f2 + f3 + (f4 + (f5 + (f6 + (f7 + rest))))
            &&& bytes == before + f1 + f2 + f3 + f4 + (f5 + (f6 + (f7 + rest)))
            &&& bytes == before + f1 + f2 + f3 + f4 + f5 + (f6 + (f7 + rest))
            &&& bytes == before + f1 + f2 + f3 + f4 + f5 + f6 + (f7 + rest)
            &&& bytes == before + f1 + f2 + f3 + f4 + f5 + f6 + f7 + rest
            &&& before + (f1 + f2 + f3 + f4 + f5 + f6 + f7) == before + f1 + f2 + f3 + f4 + f5 + f6
                + f7
        }),
{
    assert(before + (f1 + f2) =~= before + f1 + f2);
    assert(before + (f1 + f2 + f3) =~= before + (f1 + f2) + f3);
    assert(before + (f1 + f2 + f3 + f4) =~= before + (f1 + f2 + f3) + f4);
    assert(before + (f1 + f2 + f3 + f4 + f5) =~= before + (f1 + f2 + f3 + f4) + f5);
    assert(before + (f1 + f2 + f3 + f4 + f5 + f6) =~= before + (f1 + f2 + f3 + f4 + f5) + f6);
    assert(before + (f1 + f2 + f3 + f4 + f5 + f6 + f7) =~= before + (f1 + f2 + f3 + f4 + f5 + f6)
        + f7);
    let b1 = before + f1;
    let b2 = b1 + f2;
    let b3 = b2 + f3;
    let b4 = b3 + f4;
    let b5 = b4 + f5;
    let b6 = b5 + f6;
    let r6 = f7 + rest;
    assert(b6 + f7 + rest =~= b6 + r6);
    let r5 = f6 + r6;
    assert(b5 + f6 + r6 =~= b5 + r5);
    let r4 = f5 + r5;
    assert(b4 + f5 + r5 =~= b4 + r4);
    let r3 = f4 + r4;
    assert(b3 + f4 + r4 =~= b3 + r3);
    let r2 = f3 + r3;
    assert(b2 + f3 + r3 =~= b2 + r2);
    assert(b1 + f2 + r2 =~= b1 + (f2 + r2));
}

/// A record that is read is the record that was written, wherever it stands and whatever follows
/// it.
pub proof fn record_read_back(record: InfoRecordView, before: Seq<u8>, after: Seq<u8>)
    requires
        record.fits(),
    ensures
        InfoRecordView::at(before + record.bytes() + after, before.len() as int) == Ok::<
            (InfoRecordView, int),
            Error,
        >((record, (before + record.bytes()).len() as int)),
{
    let f1 = string_bytes(record.name);
    let f2 = number_bytes(record.service_id);
    let f3 = string_bytes(record.machine_id);
    let f4 = number_bytes(record.process_id);
    let f5 = string_list_bytes(record.endpoints);
    let f6 = string_bytes(record.session_id);
    let f7 = string_bytes(record.object_uid);
    let b1 = before + f1;
    let b2 = b1 + f2;
    let b3 = b2 + f3;
    let b4 = b3 + f4;
    let b5 = b4 + f5;
    let b6 = b5 + f6;
    split_around_parts(before, f1, f2, f3, f4, f5, f6, f7, after);
    string_read_back(record.name, before, f2 + (f3 + (f4 + (f5 + (f6 + (f7 + after))))));
    number_read_back(record.service_id, b1, f3 + (f4 + (f5 + (f6 + (f7 + after)))));
    string_read_back(record.machine_id, b2, f4 + (f5 + (f6 + (f7 + after))));
    number_read_back(record.process_id, b3, f5 + (f6 + (f7 + after)));
    string_list_read_back(record.endpoints, b4, f6 + (f7 + after));
    string_read_back(record.session_id, b5, f7 + after);
    string_read_back(record.object_uid, b6, after);
}

/// The bytes of several records, one after the other.
pub open spec fn records_bytes(records: Seq<InfoRecordView>) -> Seq<u8>
    decreases records.len(),
{
    if records.len() == 0 {
        Seq::empty()
    } else {
        records.first().bytes() + records_bytes(records.drop_first())
    }
}

/// The bytes of a list of records: the number of records, then the records.
pub open spec fn record_list_bytes(records: Seq<InfoRecordView>) -> Seq<u8> {
    number_bytes(records.len() as u32) + records_bytes(records)
}

/// A number of records from a position on, and the position behind them.
pub open spec fn records_at(bytes: Seq<u8>, start: int, count: nat) -> Result<
    (Seq<InfoRecordView>, int),
    Error,
>
    decreases count,
{
    if count == 0 {
        Ok((Seq::empty(), start))
    } else {
        match InfoRecordView::at(bytes, start) {
            Err(err) => Err(err),
            Ok((first, next)) => match records_at(bytes, next, (count - 1) as nat) {
                Err(err) => Err(err),
                Ok((others, end)) => Ok((seq![first] + others, end)),
            },
        }
    }
}

/// The list of records at the start of bytes. What follows it is not looked at.
pub open spec fn read_records(bytes: Seq<u8>) -> Result<Seq<InfoRecordView>, Error> {
    match number_at(bytes, 0) {
        Err(err) => Err(err),
        Ok((count, content)) => match records_at(bytes, content, count as nat) {
            Err(err) => Err(err),
            Ok((records, _)) => Ok(records),
        },
    }
}

/// Records that are read are the records that were written.
proof fn records_read_back(records: Seq<InfoRecordView>, before: Seq<u8>, after: Seq<u8>)
    requires
        forall|i: int| 0 <= i < records.len() ==> (#[trigger] records[i]).fits(),
    ensures
        records_at(before + records_bytes(records) + after, before.len() as int, records.len())
            == Ok::<(Seq<InfoRecordView>, int), Error>(
            (records, (before + records_bytes(records)).len() as int),
        ),
    decreases records.len(),
{
    let bytes = before + records_bytes(records) + after;
    if records.len() > 0 {
        let first = records.first();
        let others = records.drop_first();
        let head = first.bytes();
        let tail = records_bytes(others);
        let next = before + head;
        assert(records[0].fits());
        assert(records_bytes(records) == head + tail);
        assert(bytes == before + head + (tail + after)) by {
            assert(before + (head + tail) + after =~= before + head + (tail + after));
        }
        assert(bytes == next + tail + after) by {
            assert(before + (head + tail) + after =~= before + head + tail + after);
        }
        assert(InfoRecordView::at(bytes, before.len() as int) == Ok::<
            (InfoRecordView, int),
            Error,
        >((first, next.len() as int))) by {
            record_read_back(first, before, tail + after);
        }
        assert forall|i: int| 0 <= i < others.len() implies (#[trigger] others[i]).fits() by {
            assert(others[i] == records[i + 1]);
        }
        records_read_back(others, next, after);
        assert(seq![first] + others =~= records);
        assert((next + tail).len() == (before + records_bytes(records)).len());
    } else {
        assert(records =~= Seq::empty());
    }
}

/// A list of records that is read is the list that was written, whatever follows it.
pub proof fn record_list_read_back(records: Seq<InfoRecordView>, after: Seq<u8>)
    requires
        records.len() <= u32::MAX,
        forall|i: int| 0 <= i < records.len() ==> (#[trigger] records[i]).fits(),
    ensures
        read_records(record_list_bytes(records) + after) == Ok::<Seq<InfoRecordView>, Error>(
            records,
        ),
{
    let none = Seq::<u8>::empty();
    let head = number_bytes(records.len() as u32);
    let tail = records_bytes(records);
    let bytes = record_list_bytes(records) + after;
    assert(none + head =~= head);
    assert(bytes == none + head + (tail + after)) by {
        assert(head + tail + after =~= none + head + (tail + after));
    }
    number_read_back(records.len() as u32, none, tail + after);
    records_read_back(records, head, after);
}

/// The records of a list, in contracts.
pub open spec fn record_views(records: Seq<InfoRecord>) -> Seq<InfoRecordView> {
    records.map_values(|record: InfoRecord| record@)
}

impl InfoRecord {
    /// Reads the record at a position.
    pub fn read_at(bytes: &[u8], start: usize) -> (result: Result<(InfoRecord, usize), Error>)
        requires
            start <= bytes@.len(),
        ensures
            match InfoRecordView::at(bytes@, start as int) {
                Ok((record, end)) => result is Ok && result->Ok_0.0@ == record && result->Ok_0.1
                    == end && end <= bytes@.len(),
                Err(err) => result == Err::<(InfoRecord, usize), Error>(err),
            },
    {
        let (name, at): (Vec<u8>, usize) = match read_string(bytes, start) {
            Err(err) => return Err(err),
            Ok(read) => read,
        };
        let (service_id, at): (u32, usize) = match read_number(bytes, at) {
            Err(err) => return Err(err),
            Ok(read) => read,
        };
        let (machine_id, at): (Vec<u8>, usize) = match read_string(bytes, at) {
            Err(err) => return Err(err),
            Ok(read) => read,
        };
        let (process_id, at): (u32, usize) = match read_number(bytes, at) {
            Err(err) => return Err(err),
            Ok(read) => read,
        };
        let (endpoints, at): (Vec<Vec<u8>>, usize) = match read_string_list(bytes, at) {
            Err(err) => return Err(err),
            Ok(read) => read,
        };
        let (session_id, at): (Vec<u8>, usize) = match read_string(bytes, at) {
            Err(err) => return Err(err),
            Ok(read) => read,
        };
        let (object_uid, end): (Vec<u8>, usize) = match read_string(bytes, at) {
            Err(err) => return Err(err),
            Ok(read) => read,
        };
        Ok(
            (
                InfoRecord {
                    name,
                    service_id,
                    machine_id,
                    process_id,
                    endpoints,
                    session_id,
                    object_uid,
                },
                end,
            ),
        )
    }

    /// Reads the record at the start of bytes. What follows it is not looked at.
    pub fn read(bytes: &[u8]) -> (result: Result<InfoRecord, Error>)
        ensures
            match InfoRecordView::read(bytes@) {
                Ok(record) => result is Ok && result->Ok_0@ == record,
                Err(err) => result == Err::<InfoRecord, Error>(err),
            },
    {
        match InfoRecord::read_at(bytes, 0) {
            Ok((record, _)) => Ok(record),
            Err(err) => Err(err),
        }
    }

    /// Reads the list of records at the start of bytes. What follows it is not looked at.
    pub fn read_list(bytes: &[u8]) -> (result: Result<Vec<InfoRecord>, Error>)
        ensures
            match read_records(bytes@) {
                Ok(records) => result is Ok && record_views(result->Ok_0@) == records,
                Err(err) => result == Err::<Vec<InfoRecord>, Error>(err),
            },
    {
        let (count, content): (u32, usize) = match read_number(bytes, 0) {
            Err(err) => return Err(err),
            Ok(read) => read,
        };
        let mut list: Vec<InfoRecord> = Vec::new();
        let mut position: usize = content;
        let mut remaining: u32 = count;
        assert(record_views(list@) =~= Seq::<InfoRecordView>::empty());
        while remaining > 0
            invariant
                position <= bytes@.len(),
                number_at(bytes@, 0) == Ok::<(u32, int), Error>((count, content as int)),
                match records_at(bytes@, position as int, remaining as nat) {
                    Ok((others, end)) => records_at(bytes@, content as int, count as nat) == Ok::<
                        (Seq<InfoRecordView>, int),
                        Error,
                    >((record_views(list@) + others, end)),
                    Err(err) => records_at(bytes@, content as int, count as nat) == Err::<
                        (Seq<InfoRecordView>, int),
                        Error,
                    >(err),
                },
            decreases remaining,
        {
            match InfoRecord::read_at(bytes, position) {
                Err(err) => {
                    return Err(err);
                },
                Ok((record, next)) => {
                    let ghost before = record_views(list@);
                    let ghost first = record@;
                    list.push(record);
                    position = next;
                    remaining = remaining - 1;
                    proof {
                        assert(record_views(list@) =~= before.push(first));
                        match records_at(bytes@, position as int, remaining as nat) {
                            Ok((others, end)) => {
                                assert(before + (seq![first] + others) =~= record_views(list@)
                                    + others);
                            },
                            Err(_) => {},
                        }
                    }
                },
            }
        }
        assert(record_views(list@) + Seq::<InfoRecordView>::empty() =~= record_views(list@));
        Ok(list)
    }

    /// Writes the record. A record with a length that does not fit is refused.
    pub fn write(&self) -> (result: Result<Vec<u8>, Error>)
        ensures
            self@.fits() ==> result is Ok && result->Ok_0@ == self@.bytes(),
            !self@.fits() ==> result == Err::<Vec<u8>, Error>(Error::TooLong),
    {
        let mut bytes: Vec<u8> = Vec::new();
        if let Err(err) = write_string(&mut bytes, self.name.as_slice()) {
            return Err(err);
        }
        assert(bytes@ =~= string_bytes(self.name@));
        write_number(&mut bytes, self.service_id);
        if let Err(err) = write_string(&mut bytes, self.machine_id.as_slice()) {
            return Err(err);
        }
        write_number(&mut bytes, self.process_id);
        if let Err(err) = write_string_list(&mut bytes, &self.endpoints) {
            return Err(err);
        }
        if let Err(err) = write_string(&mut bytes, self.session_id.as_slice()) {
            return Err(err);
        }
        if let Err(err) = write_string(&mut bytes, self.object_uid.as_slice()) {
            return Err(err);
        }
        Ok(bytes)
    }
}

impl IntoFormat for InfoRecord {
    /// Writes the record into a payload. A record with a length that does not fit is refused.
    fn into_format(self) -> (result: Result<Bytes, Error>)
        ensures
            self@.fits() ==> result is Ok && payload::contents(result->Ok_0) == self@.bytes(),
            !self@.fits() ==> result == Err::<Bytes, Error>(Error::TooLong),
    {
        match self.write() {
            Ok(bytes) => Ok(payload::from_vec(bytes)),
            Err(err) => Err(err),
        }
    }
}

/// Whether a value is a list of the given strings.
pub open spec fn is_string_list(value: Value, list: Seq<Seq<u8>>) -> bool {
    &&& value matches Value::List(elements)
    &&& elements@.len() == list.len()
    &&& forall|i: int|
        0 <= i < list.len() ==> (#[trigger] elements@[i] matches Value::String(raw) && raw@ == list[i])
}

impl IntoValue for InfoRecord {
    open spec fn valued(self, value: Value) -> bool {
        &&& value matches Value::Tuple(fields)
        &&& fields@.len() == 7
        &&& fields@[0] == Value::String(self.name)
        &&& fields@[1] == Value::UInt32(self.service_id)
        &&& fields@[2] == Value::String(self.machine_id)
        &&& fields@[3] == Value::UInt32(self.process_id)
        &&& is_string_list(fields@[4], raw_strings(self.endpoints@))
        &&& fields@[5] == Value::String(self.session_id)
        &&& fields@[6] == Value::String(self.object_uid)
    }

    fn into_value(self) -> (value: Value) {
        let mut strings: Vec<Value> = Vec::new();
        let mut i: usize = 0;
        while i < self.endpoints.len()
            invariant
                i <= self.endpoints@.len(),
                strings@.len() == i,
                forall|j: int|
                    0 <= j < i ==> (#[trigger] strings@[j] matches Value::String(raw) && raw@
                        == self.endpoints@[j]@),
            decreases self.endpoints@.len() - i,
        {
            let raw = self.endpoints[i].clone();
            assert(raw@ =~= self.endpoints@[i as int]@);
            strings.push(Value::String(raw));
            i += 1;
        }
        let mut fields: Vec<Value> = Vec::new();
        fields.push(Value::String(self.name));
        fields.push(Value::UInt32(self.service_id));
        fields.push(Value::String(self.machine_id));
        fields.push(Value::UInt32(self.process_id));
        fields.push(Value::List(strings));
        fields.push(Value::String(self.session_id));
        fields.push(Value::String(self.object_uid));
        Value::Tuple(fields)
    }
}

/// Whether a conversion fails since a value is no list of strings: at the first element that is
/// no string, if it is a list at all.
pub open spec fn no_string_list<T>(value: Value, result: Result<T, FromValueError>) -> bool {
    match value {
        Value::List(elements) => exists|i: int| #[trigger] first_no_string(elements@, i) && mismatched(
            result,
            Expected::Kind(Kind::String),
            elements@[i],
        ),
        _ => mismatched(result, Expected::Kind(Kind::List), value),
    }
}

/// Whether a position is that of the first value of a list that is no string.
pub open spec fn first_no_string(elements: Seq<Value>, i: int) -> bool {
    &&& 0 <= i < elements.len()
    &&& !(elements[i] is String)
    &&& forall|j: int| 0 <= j < i ==> (#[trigger] elements[j]) is String
}

/// Whether a value is a list of strings.
pub open spec fn strings_only(value: Value) -> bool {
    value matches Value::List(elements) && forall|i: int|
        0 <= i < elements@.len() ==> (#[trigger] elements@[i]) is String
}

/// The raw bytes of a string.
fn raw_string(value: Value) -> (result: Result<Vec<u8>, FromValueError>)
    ensures
        match value {
            Value::String(raw) => result == Ok::<Vec<u8>, FromValueError>(raw),
            _ => mismatched(result, Expected::Kind(Kind::String), value),
        },
{
    match value {
        Value::String(raw) => Ok(raw),
        other => Err(mismatch(Expected::Kind(Kind::String), &other)),
    }
}

/// The raw bytes of the strings of a list.
fn raw_string_list(value: Value) -> (result: Result<Vec<Vec<u8>>, FromValueError>)
    ensures
        match result {
            Ok(list) => strings_only(value) && is_string_list(value, raw_strings(list@)),
            Err(_) => !strings_only(value) && no_string_list(value, result),
        },
{
    match value {
        Value::List(elements) => {
            let ghost all = elements@;
            let mut rest: Vec<Value> = elements;
            let mut list: Vec<Vec<u8>> = Vec::new();
            assert(all.skip(0) =~= all);
            while rest.len() > 0
                invariant
                    list@.len() + rest@.len() == all.len(),
                    rest@ == all.skip(list@.len() as int),
                    forall|j: int|
                        0 <= j < list@.len() ==> (#[trigger] all[j] matches Value::String(raw) && raw@
                            == list@[j]@),
                    value == Value::List(elements),
                    all == elements@,
                decreases rest@.len(),
            {
                let ghost at = list@.len() as int;
                let next = rest.remove(0);
                assert(next == all[at]);
                assert(rest@ =~= all.skip(at + 1));
                match raw_string(next) {
                    Ok(raw) => {
                        list.push(raw);
                    },
                    Err(err) => {
                        assert(first_no_string(all, at));
                        assert(!strings_only(value)) by {
                            assert(!(all[at] is String));
                        }
                        return Err(err);
                    },
                }
            }
            Ok(list)
        },
        other => Err(mismatch(Expected::Kind(Kind::List), &other)),
    }
}

impl FromValue for InfoRecord {
    /// The fields of the record are converted in order: the first that cannot be says why.
    open spec fn converts(value: Value, result: Result<InfoRecord, FromValueError>) -> bool {
        match value {
            Value::Tuple(fields) => if fields@.len() != 7 {
                result == Err::<InfoRecord, FromValueError>(
                    FromValueError::Length { wanted: 7, found: fields@.len() as usize },
                )
            } else if !(fields@[0] is String) {
                mismatched(result, Expected::Kind(Kind::String), fields@[0])
            } else if !(fields@[1] is UInt32) {
                mismatched(result, Expected::Kind(Kind::UInt32), fields@[1])
            } else if !(fields@[2] is String) {
                mismatched(result, Expected::Kind(Kind::String), fields@[2])
            } else if !(fields@[3] is UInt32) {
                mismatched(result, Expected::Kind(Kind::UInt32), fields@[3])
            } else if !strings_only(fields@[4]) {
                no_string_list(fields@[4], result)
            } else if !(fields@[5] is String) {
                mismatched(result, Expected::Kind(Kind::String), fields@[5])
            } else if !(fields@[6] is String) {
                mismatched(result, Expected::Kind(Kind::String), fields@[6])
            } else {
                result is Ok && result->Ok_0.valued(value)
            },
            _ => mismatched(result, Expected::Kind(Kind::Tuple), value),
        }
    }

    fn from_value(value: Value) -> (result: Result<InfoRecord, FromValueError>) {
        let mut fields = match value {
            Value::Tuple(fields) => fields,
            other => return Err(mismatch(Expected::Kind(Kind::Tuple), &other)),
        };
        let length: usize = fields.len();
        if length != 7 {
            return Err(FromValueError::Length { wanted: 7, found: length });
        }
        let name = match raw_string(fields.remove(0)) {
            Ok(name) => name,
            Err(err) => return Err(err),
        };
        let service_id: u32 = match u32::from_value(fields.remove(0)) {
            Ok(service_id) => service_id,
            Err(err) => return Err(err),
        };
        let machine_id = match raw_string(fields.remove(0)) {
            Ok(machine_id) => machine_id,
            Err(err) => return Err(err),
        };
        let process_id: u32 = match u32::from_value(fields.remove(0)) {
            Ok(process_id) => process_id,
            Err(err) => return Err(err),
        };
        let endpoints = match raw_string_list(fields.remove(0)) {
            Ok(endpoints) => endpoints,
            Err(err) => return Err(err),
        };
        let session_id = match raw_string(fields.remove(0)) {
            Ok(session_id) => session_id,
            Err(err) => return Err(err),
        };
        let object_uid = match raw_string(fields.remove(0)) {
            Ok(object_uid) => object_uid,
            Err(err) => return Err(err),
        };
        Ok(
            InfoRecord {
                name,
                service_id,
                machine_id,
                process_id,
                endpoints,
                session_id,
                object_uid,
            },
        )
    }
}

/// A record that is converted to a value and back is the same record.
pub proof fn record_converted_back(
    record: InfoRecord,
    value: Value,
    result: Result<InfoRecord, FromValueError>,
)
    requires
        record.valued(value),
        InfoRecord::converts(value, result),
    ensures
        result is Ok,
        result->Ok_0@ == record@,
{
    let fields = value->Tuple_0@;
    let elements = fields[4]->List_0@;
    let back = result->Ok_0;
    assert(strings_only(fields[4]));
    assert(raw_strings(back.endpoints@) =~= raw_strings(record.endpoints@)) by {
        assert forall|i: int| 0 <= i < elements.len() implies raw_strings(back.endpoints@)[i]
            == raw_strings(record.endpoints@)[i] by {
            assert(elements[i] is String);
        }
    }
}

} // verus!
