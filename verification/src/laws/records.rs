//! How numbers, strings and what is told of services stand in bytes.

use bytes::Bytes;
use vstd::prelude::*;
use vstd::utf8::{decode_utf8, decode_utf8_encode_utf8, encode_utf8, valid_utf8};
use crate::address::{Address, SocketAddr};
use crate::formats::{IntoFormat, ReflectError};
use crate::info_record::{records_at, InfoRecord, InfoRecordView};
use crate::laws::texts::{given_at, is_text_of, raw_standing, raw_stands_for};
use crate::laws::values::{mismatch_is_refused, refused};
use crate::node;
use crate::object;
use crate::os::MachineId;
use crate::payload::contents;
use crate::service::{self, info_type, Info, ObjectUidAsStr};
use crate::target::{Kind, Target};
use crate::text::decimal;
use crate::value::{
    self, field_views, Expected, Field, FromValue, FromValueError, IntoValue, Type, Value,
};
use crate::wire::{
    self, read_number, read_string, read_string_list, string_list_at, strings_at,
    write_number, write_string, write_string_list, Error,
};

verus! {

/// The number that four bytes from a place on stand for, the least significant one first.
pub open spec fn number_from(bytes: Seq<u8>, at: int) -> int {
    bytes[at] + bytes[at + 1] * 0x100 + bytes[at + 2] * 0x1_0000 + bytes[at + 3] * 0x100_0000
}

/// Whether bytes are others with more behind them.
pub open spec fn extends(longer: Seq<u8>, shorter: Seq<u8>) -> bool {
    shorter.len() <= longer.len() && longer.take(shorter.len() as int) == shorter
}

/// A number is written as four bytes behind what there was, the least significant one first.
pub proof fn numbers_are_written_little_end_first(buffer: &mut Vec<u8>, n: u32)
    requires
        call_ensures(write_number, (buffer, n), ()),
    ensures
        final(buffer)@.len() == old(buffer)@.len() + 4,
        extends(final(buffer)@, old(buffer)@),
        number_from(final(buffer)@, old(buffer)@.len() as int) == n,
{
    bytes_of_a_number(n);
    let before = old(buffer)@;
    let after = final(buffer)@;
    assert(after.take(before.len() as int) =~= before);
    let at = before.len() as int;
    assert(after[at] == wire::number_bytes(n)[0]);
    assert(after[at + 1] == wire::number_bytes(n)[1]);
    assert(after[at + 2] == wire::number_bytes(n)[2]);
    assert(after[at + 3] == wire::number_bytes(n)[3]);
}

/// The bytes of a number stand for it.
proof fn bytes_of_a_number(n: u32)
    ensures
        wire::number_bytes(n).len() == 4,
        number_from(wire::number_bytes(n), 0) == n,
{
    reveal(wire::number_bytes);
    let a = n % 0x100;
    let b = n / 0x100 % 0x100;
    let c = n / 0x1_0000 % 0x100;
    let d = n / 0x100_0000;
    assert(n == a + b * 0x100 + c * 0x1_0000 + d * 0x100_0000);
    assert(d < 0x100);
}

/// A string is written as its length and its bytes, behind what there was; one that is too long for
/// that is refused, and nothing is written.
pub proof fn strings_are_written_behind_their_length(
    buffer: &mut Vec<u8>,
    raw: &[u8],
    result: Result<(), Error>,
)
    requires
        call_ensures(write_string, (buffer, raw), result),
    ensures
        result is Ok <==> raw@.len() <= 0xffff_ffff,
        result is Ok ==> {
            let at = old(buffer)@.len() as int;
            &&& final(buffer)@.len() == at + 4 + raw@.len()
            &&& extends(final(buffer)@, old(buffer)@)
            &&& number_from(final(buffer)@, at) == raw@.len()
            &&& final(buffer)@.skip(at + 4) == raw@
        },
        result matches Err(err) ==> err is TooLong && final(buffer)@ == old(buffer)@,
{
    reveal(wire::string_bytes);
    if raw@.len() <= 0xffff_ffff {
        let n = raw@.len() as u32;
        bytes_of_a_number(n);
        let before = old(buffer)@;
        let after = final(buffer)@;
        let at = before.len() as int;
        let head = wire::number_bytes(n);
        assert(after == before + (head + raw@));
        assert(after.take(at) =~= before);
        assert(after[at] == head[0]);
        assert(after[at + 1] == head[1]);
        assert(after[at + 2] == head[2]);
        assert(after[at + 3] == head[3]);
        assert(after.skip(at + 4) =~= raw@);
    }
}

/// A number is read where four bytes are left, as what they stand for.
pub proof fn numbers_are_read_little_end_first(
    bytes: &[u8],
    start: usize,
    result: Result<(u32, usize), Error>,
)
    requires
        start <= bytes@.len(),
        call_ensures(read_number, (bytes, start), result),
    ensures
        result is Ok <==> start + 4 <= bytes@.len(),
        result matches Ok((n, end)) ==> end == start + 4 && n == number_from(bytes@, start as int),
        result matches Err(err) ==> err is UnexpectedEnd,
{
    reveal(wire::number_at);
    if start + 4 <= bytes@.len() {
        let four = bytes@.subrange(start as int, start + 4);
        assert(four[0] == bytes@[start as int] && four[1] == bytes@[start + 1] && four[2]
            == bytes@[start + 2] && four[3] == bytes@[start + 3]);
    }
}

/// Whether a string stands in bytes from a place to another one: its length and its bytes.
pub open spec fn string_stands(bytes: Seq<u8>, start: int, raw: Seq<u8>, end: int) -> bool {
    &&& 0 <= start
    &&& start + 4 <= end <= bytes.len()
    &&& number_from(bytes, start) == raw.len()
    &&& end == start + 4 + raw.len()
    &&& bytes.subrange(start + 4, end) == raw
}

/// What is found at a place is what stands there.
proof fn string_found(bytes: Seq<u8>, start: int)
    requires
        0 <= start <= bytes.len(),
    ensures
        match wire::string_at(bytes, start) {
            Ok((raw, end)) => string_stands(bytes, start, raw, end),
            Err(err) => err is UnexpectedEnd && forall|raw: Seq<u8>, end: int|
                !(#[trigger] string_stands(bytes, start, raw, end)),
        },
{
    reveal(wire::number_at);
    reveal(wire::string_at);
    if start + 4 <= bytes.len() {
        let four = bytes.subrange(start, start + 4);
        assert(four[0] == bytes[start] && four[1] == bytes[start + 1] && four[2] == bytes[start + 2]
            && four[3] == bytes[start + 3]);
    }
}

/// A string is read where one stands, and only there.
pub proof fn strings_are_read_where_they_stand(
    bytes: &[u8],
    start: usize,
    result: Result<(Vec<u8>, usize), Error>,
)
    requires
        start <= bytes@.len(),
        call_ensures(read_string, (bytes, start), result),
    ensures
        result matches Ok((raw, end)) ==> string_stands(bytes@, start as int, raw@, end as int),
        result matches Err(err) ==> err is UnexpectedEnd && forall|raw: Seq<u8>, end: int|
            !(#[trigger] string_stands(bytes@, start as int, raw, end)),
{
    string_found(bytes@, start as int);
}

/// A string that was written is read back, wherever it stands and whatever follows it.
pub proof fn written_string_is_read(
    buffer: &mut Vec<u8>,
    raw: &[u8],
    written: Result<(), Error>,
    more: Seq<u8>,
    bytes: &[u8],
    start: usize,
    read: Result<(Vec<u8>, usize), Error>,
)
    requires
        call_ensures(write_string, (buffer, raw), written),
        written is Ok,
        bytes@ == final(buffer)@ + more,
        start == old(buffer)@.len(),
        call_ensures(read_string, (bytes, start), read),
    ensures
        read is Ok,
        read->Ok_0.0@ == raw@,
        read->Ok_0.1 == final(buffer)@.len(),
{
    let before = old(buffer)@;
    wire::string_read_back(raw@, before, more);
}

/// Whether strings stand in bytes one after the other, from a place to another one.
pub open spec fn strings_stand(bytes: Seq<u8>, start: int, list: Seq<Seq<u8>>, end: int) -> bool
    decreases list.len(),
{
    if list.len() == 0 {
        end == start
    } else {
        let next = start + 4 + list[0].len();
        string_stands(bytes, start, list[0], next) && strings_stand(
            bytes,
            next,
            list.drop_first(),
            end,
        )
    }
}

/// Whether a list of strings stands in bytes: their number and the strings.
pub open spec fn list_stands(bytes: Seq<u8>, start: int, list: Seq<Seq<u8>>, end: int) -> bool {
    &&& 0 <= start
    &&& start + 4 <= bytes.len()
    &&& number_from(bytes, start) == list.len()
    &&& strings_stand(bytes, start + 4, list, end)
}

/// Strings that are found are those that stand there.
proof fn strings_found(bytes: Seq<u8>, start: int, count: nat)
    requires
        0 <= start <= bytes.len(),
    ensures
        match strings_at(bytes, start, count) {
            Ok((list, end)) => list.len() == count && strings_stand(bytes, start, list, end),
            Err(err) => err is UnexpectedEnd && forall|list: Seq<Seq<u8>>, end: int|
                list.len() == count ==> !(#[trigger] strings_stand(bytes, start, list, end)),
        },
    decreases count,
{
    if count > 0 {
        string_found(bytes, start);
        match wire::string_at(bytes, start) {
            Err(_) => {
                assert forall|list: Seq<Seq<u8>>, end: int| list.len() == count implies !(
                #[trigger] strings_stand(bytes, start, list, end)) by {
                    let next = start + 4 + list[0].len();
                    assert(!string_stands(bytes, start, list[0], next));
                }
            },
            Ok((first, next)) => {
                strings_found(bytes, next, (count - 1) as nat);
                match strings_at(bytes, next, (count - 1) as nat) {
                    Ok((others, end)) => {
                        let list = seq![first] + others;
                        assert(list.drop_first() =~= others);
                        assert(list[0] == first);
                    },
                    Err(_) => {
                        assert forall|list: Seq<Seq<u8>>, end: int| list.len() == count implies !(
                        #[trigger] strings_stand(bytes, start, list, end)) by {
                            let own = start + 4 + list[0].len();
                            if string_stands(bytes, start, list[0], own) {
                                assert(own == next);
                                assert(list.drop_first().len() == count - 1);
                                assert(!strings_stand(bytes, next, list.drop_first(), end));
                            }
                        }
                    },
                }
            },
        }
    }
}

/// A list of strings is read where one stands, and only there.
pub proof fn lists_are_read_where_they_stand(
    bytes: &[u8],
    start: usize,
    result: Result<(Vec<Vec<u8>>, usize), Error>,
)
    requires
        start <= bytes@.len(),
        call_ensures(read_string_list, (bytes, start), result),
    ensures
        result matches Ok((list, end)) ==> list_stands(
            bytes@,
            start as int,
            raws(list@),
            end as int,
        ),
        result matches Err(err) ==> err is UnexpectedEnd && forall|list: Seq<Seq<u8>>, end: int|
            !(#[trigger] list_stands(bytes@, start as int, list, end)),
{
    list_found(bytes@, start as int);
    if let Ok((list, end)) = result {
        assert(raws(list@) =~= wire::raw_strings(list@));
    }
}

/// A list that is found is the one that stands there.
proof fn list_found(bytes: Seq<u8>, start: int)
    requires
        0 <= start <= bytes.len(),
    ensures
        match string_list_at(bytes, start) {
            Ok((list, end)) => list_stands(bytes, start, list, end),
            Err(err) => err is UnexpectedEnd && forall|list: Seq<Seq<u8>>, end: int|
                !(#[trigger] list_stands(bytes, start, list, end)),
        },
{
    reveal(string_list_at);
    reveal(wire::number_at);
    if start + 4 <= bytes.len() {
        let four = bytes.subrange(start, start + 4);
        assert(four[0] == bytes[start] && four[1] == bytes[start + 1] && four[2] == bytes[start + 2]
            && four[3] == bytes[start + 3]);
        let count = number_from(bytes, start);
        strings_found(bytes, start + 4, count as nat);
    }
}

/// The contents of each string of a list.
pub open spec fn raws(list: Seq<Vec<u8>>) -> Seq<Seq<u8>> {
    Seq::new(list.len(), |i: int| list[i]@)
}

/// A list of strings is written as their number and the strings, behind what there was, exactly
/// where all lengths can be written.
pub proof fn lists_are_written_behind_their_length(
    buffer: &mut Vec<u8>,
    list: &Vec<Vec<u8>>,
    result: Result<(), Error>,
)
    requires
        call_ensures(write_string_list, (buffer, list), result),
    ensures
        result is Ok <==> list@.len() <= 0xffff_ffff && forall|i: int|
            0 <= i < list@.len() ==> (#[trigger] list@[i])@.len() <= 0xffff_ffff,
        result is Ok ==> extends(final(buffer)@, old(buffer)@) && list_stands(
            final(buffer)@,
            old(buffer)@.len() as int,
            raws(list@),
            final(buffer)@.len() as int,
        ),
        result matches Err(err) ==> err is TooLong,
{
    let texts = wire::raw_strings(list@);
    assert(texts =~= raws(list@));
    let short = list@.len() <= 0xffff_ffff && forall|i: int|
        0 <= i < list@.len() ==> (#[trigger] list@[i])@.len() <= 0xffff_ffff;
    if short {
        assert forall|i: int| 0 <= i < texts.len() implies wire::fits(#[trigger] texts[i]) by {
            assert(texts[i] == list@[i]@);
        }
    }
    if wire::list_fits(texts) {
        assert forall|i: int| 0 <= i < list@.len() implies (#[trigger] list@[i])@.len()
            <= 0xffff_ffff by {
            assert(wire::fits(texts[i]));
        }
    }
    if result is Ok {
        let before = old(buffer)@;
        let after = final(buffer)@;
        let none = Seq::<u8>::empty();
        assert(after.take(before.len() as int) =~= before);
        wire::string_list_read_back(texts, before, none);
        assert(before + wire::string_list_bytes(texts) + none =~= after);
        list_found(after, before.len() as int);
    }
}

/// A record is written as its fields, in their order: the name, the number of the service, the
/// machine, the number of the process, the endpoints, the session and the object, each in its own
/// way. It is refused where one of them is.
pub proof fn records_are_written_field_by_field(
    record: &InfoRecord,
    result: Result<Vec<u8>, Error>,
    name: &mut Vec<u8>,
    name_written: Result<(), Error>,
    service: &mut Vec<u8>,
    machine: &mut Vec<u8>,
    machine_written: Result<(), Error>,
    process: &mut Vec<u8>,
    endpoints: &mut Vec<u8>,
    endpoints_written: Result<(), Error>,
    session: &mut Vec<u8>,
    session_written: Result<(), Error>,
    uid: &mut Vec<u8>,
    uid_written: Result<(), Error>,
    name_raw: &[u8],
    machine_raw: &[u8],
    session_raw: &[u8],
    uid_raw: &[u8],
)
    requires
        call_ensures(InfoRecord::write, (record,), result),
        name_raw@ == record.name@,
        machine_raw@ == record.machine_id@,
        session_raw@ == record.session_id@,
        uid_raw@ == record.object_uid@,
        old(name)@.len() == 0,
        call_ensures(write_string, (name, name_raw), name_written),
        old(service)@ == final(name)@,
        call_ensures(write_number, (service, record.service_id), ()),
        old(machine)@ == final(service)@,
        call_ensures(write_string, (machine, machine_raw), machine_written),
        old(process)@ == final(machine)@,
        call_ensures(write_number, (process, record.process_id), ()),
        old(endpoints)@ == final(process)@,
        call_ensures(write_string_list, (endpoints, &record.endpoints), endpoints_written),
        old(session)@ == final(endpoints)@,
        call_ensures(write_string, (session, session_raw), session_written),
        old(uid)@ == final(session)@,
        call_ensures(write_string, (uid, uid_raw), uid_written),
    ensures
        result is Ok <==> name_written is Ok && machine_written is Ok && endpoints_written is Ok
            && session_written is Ok && uid_written is Ok,
        result is Ok ==> result->Ok_0@ == final(uid)@,
        result matches Err(err) ==> err is TooLong,
{
    if result is Ok {
        assert(old(name)@ =~= Seq::<u8>::empty());
        assert(final(name)@ =~= wire::string_bytes(record.name@));
        assert(final(uid)@ =~= result->Ok_0@);
    }
}

/// A record is read as its fields, in the order in which they are written, and ends where the last
/// of them does. The first of them that cannot be read says why.
pub proof fn records_are_read_field_by_field(
    bytes: &[u8],
    start: usize,
    result: Result<(InfoRecord, usize), Error>,
    name: Result<(Vec<u8>, usize), Error>,
    service: Result<(u32, usize), Error>,
    machine: Result<(Vec<u8>, usize), Error>,
    process: Result<(u32, usize), Error>,
    endpoints: Result<(Vec<Vec<u8>>, usize), Error>,
    session: Result<(Vec<u8>, usize), Error>,
    uid: Result<(Vec<u8>, usize), Error>,
)
    requires
        start <= bytes@.len(),
        call_ensures(InfoRecord::read_at, (bytes, start), result),
        call_ensures(read_string, (bytes, start), name),
        name is Ok ==> call_ensures(read_number, (bytes, name->Ok_0.1), service),
        service is Ok ==> call_ensures(read_string, (bytes, service->Ok_0.1), machine),
        machine is Ok ==> call_ensures(read_number, (bytes, machine->Ok_0.1), process),
        process is Ok ==> call_ensures(read_string_list, (bytes, process->Ok_0.1), endpoints),
        endpoints is Ok ==> call_ensures(read_string, (bytes, endpoints->Ok_0.1), session),
        session is Ok ==> call_ensures(read_string, (bytes, session->Ok_0.1), uid),
    ensures
        name is Ok && service is Ok && machine is Ok && process is Ok && endpoints is Ok && session
            is Ok && uid is Ok ==> {
            &&& result is Ok
            &&& result->Ok_0.0.name@ == name->Ok_0.0@
            &&& result->Ok_0.0.service_id == service->Ok_0.0
            &&& result->Ok_0.0.machine_id@ == machine->Ok_0.0@
            &&& result->Ok_0.0.process_id == process->Ok_0.0
            &&& raws(result->Ok_0.0.endpoints@) == raws(endpoints->Ok_0.0@)
            &&& result->Ok_0.0.session_id@ == session->Ok_0.0@
            &&& result->Ok_0.0.object_uid@ == uid->Ok_0.0@
            &&& result->Ok_0.1 == uid->Ok_0.1
        },
        name matches Err(err) ==> result == Err::<(InfoRecord, usize), Error>(err),
        name is Ok && service is Err ==> result is Err && result->Err_0 == service->Err_0,
        name is Ok && service is Ok && machine is Err ==> result is Err && result->Err_0
            == machine->Err_0,
        name is Ok && service is Ok && machine is Ok && process is Err ==> result is Err
            && result->Err_0 == process->Err_0,
        name is Ok && service is Ok && machine is Ok && process is Ok && endpoints is Err
            ==> result is Err && result->Err_0 == endpoints->Err_0,
        name is Ok && service is Ok && machine is Ok && process is Ok && endpoints is Ok && session
            is Err ==> result is Err && result->Err_0 == session->Err_0,
        name is Ok && service is Ok && machine is Ok && process is Ok && endpoints is Ok && session
            is Ok && uid is Err ==> result is Err && result->Err_0 == uid->Err_0,
{
    if let Ok((record, _)) = result {
        assert(raws(record.endpoints@) =~= record@.endpoints);
        assert(record@.name == record.name@);
        assert(record@.service_id == record.service_id);
        assert(record@.process_id == record.process_id);
        if let Ok((list, _)) = endpoints {
            assert(raws(list@) =~= wire::raw_strings(list@));
        }
    }
}

/// The record at the start of bytes is the one that is read there, whatever follows.
pub proof fn record_at_the_start(
    bytes: &[u8],
    result: Result<InfoRecord, Error>,
    at_start: Result<(InfoRecord, usize), Error>,
)
    requires
        call_ensures(InfoRecord::read, (bytes,), result),
        call_ensures(InfoRecord::read_at, (bytes, 0), at_start),
    ensures
        result is Ok <==> at_start is Ok,
        result matches Ok(record) ==> same_record(record, at_start->Ok_0.0),
        result is Err ==> result->Err_0 == at_start->Err_0,
{
    if let Ok(record) = result {
        views_of_records(record, at_start->Ok_0.0);
    }
}

/// Whether two records hold the same in every field.
pub open spec fn same_record(a: InfoRecord, b: InfoRecord) -> bool {
    &&& a.name@ == b.name@
    &&& a.service_id == b.service_id
    &&& a.machine_id@ == b.machine_id@
    &&& a.process_id == b.process_id
    &&& raws(a.endpoints@) == raws(b.endpoints@)
    &&& a.session_id@ == b.session_id@
    &&& a.object_uid@ == b.object_uid@
}

/// Records that are the same in contracts hold the same in every field.
proof fn views_of_records(a: InfoRecord, b: InfoRecord)
    requires
        a@ == b@,
    ensures
        same_record(a, b),
{
    assert(a@.name == a.name@ && b@.name == b.name@);
    assert(a@.service_id == a.service_id && b@.service_id == b.service_id);
    assert(a@.process_id == a.process_id && b@.process_id == b.process_id);
    assert(raws(a.endpoints@) =~= a@.endpoints);
    assert(raws(b.endpoints@) =~= b@.endpoints);
}

/// A record that was written is read back, whatever follows it.
pub proof fn written_record_is_read(
    record: &InfoRecord,
    written: Result<Vec<u8>, Error>,
    more: Seq<u8>,
    bytes: &[u8],
    read: Result<InfoRecord, Error>,
)
    requires
        call_ensures(InfoRecord::write, (record,), written),
        written is Ok,
        bytes@ == written->Ok_0@ + more,
        call_ensures(InfoRecord::read, (bytes,), read),
    ensures
        read is Ok,
        same_record(read->Ok_0, *record),
{
    let none = Seq::<u8>::empty();
    crate::info_record::record_read_back(record@, none, more);
    assert(none + record@.bytes() + more =~= bytes@);
    views_of_records(read->Ok_0, *record);
}

/// Whether records are read one after the other, each at the place where the one before it ended.
pub open spec fn read_in_turn(
    bytes: Seq<u8>,
    places: Seq<int>,
    records: Seq<InfoRecordView>,
) -> bool {
    &&& places.len() == records.len() + 1
    &&& forall|i: int|
        0 <= i < records.len() ==> InfoRecordView::at(bytes, places[i]) == Ok::<
            (InfoRecordView, int),
            Error,
        >((#[trigger] records[i], places[i + 1]))
}

/// Whether a record can be read at a place of a list of places, and ends at the next one.
pub open spec fn record_ends(bytes: Seq<u8>, places: Seq<int>, i: int) -> bool {
    match InfoRecordView::at(bytes, places[i]) {
        Ok((_, end)) => end == places[i + 1],
        Err(_) => false,
    }
}

/// Records that are found are found one after the other.
proof fn records_found(bytes: Seq<u8>, start: int, count: nat) -> (places: Seq<int>)
    ensures
        match records_at(bytes, start, count) {
            Ok((records, end)) => {
                &&& records.len() == count
                &&& read_in_turn(bytes, places, records)
                &&& places[0] == start
            },
            Err(err) => {
                &&& 0 < places.len() <= count
                &&& places[0] == start
                &&& InfoRecordView::at(bytes, places.last()) == Err::<(InfoRecordView, int), Error>(err)
                &&& forall|i: int|
                    0 <= i < places.len() - 1 ==> #[trigger] record_ends(bytes, places, i)
            },
        },
    decreases count,
{
    if count == 0 {
        seq![start]
    } else {
        match InfoRecordView::at(bytes, start) {
            Err(_) => seq![start],
            Ok((first, next)) => {
                let others = records_found(bytes, next, (count - 1) as nat);
                let places = seq![start] + others;
                assert(others[0] == next);
                assert forall|i: int| 1 <= i < places.len() implies places[i] == others[i - 1] by {}
                match records_at(bytes, next, (count - 1) as nat) {
                    Ok((rest, _)) => {
                        let records = seq![first] + rest;
                        assert forall|i: int| 0 <= i < records.len() implies InfoRecordView::at(
                            bytes,
                            places[i],
                        ) == Ok::<(InfoRecordView, int), Error>(
                            (#[trigger] records[i], places[i + 1]),
                        ) by {
                            if i > 0 {
                                assert(records[i] == rest[i - 1]);
                            }
                        }
                    },
                    Err(_) => {
                        assert forall|i: int| 0 <= i < places.len() - 1 implies #[trigger] record_ends(
                            bytes,
                            places,
                            i,
                        ) by {
                            if i > 0 {
                                assert(record_ends(bytes, others, i - 1));
                            }
                        }
                        assert(places.last() == others.last());
                    },
                }
                places
            },
        }
    }
}

/// As many records are read as the first four bytes say, one after the other behind them. Where one
/// of them cannot be read, the list cannot, for the same reason.
pub proof fn record_lists_are_read_one_by_one(
    bytes: &[u8],
    result: Result<Vec<InfoRecord>, Error>,
) -> (places: Seq<int>)
    requires
        call_ensures(InfoRecord::read_list, (bytes,), result),
    ensures
        bytes@.len() < 4 ==> (result matches Err(err) && err is UnexpectedEnd),
        bytes@.len() >= 4 && result is Ok ==> {
            &&& result->Ok_0@.len() == number_from(bytes@, 0)
            &&& places.len() == result->Ok_0@.len() + 1
            &&& places[0] == 4
            &&& forall|i: int|
                0 <= i < result->Ok_0@.len() ==> InfoRecordView::at(bytes@, places[i]) == Ok::<
                    (InfoRecordView, int),
                    Error,
                >(((#[trigger] result->Ok_0@[i])@, places[i + 1]))
        },
        bytes@.len() >= 4 && result is Err ==> {
            &&& 0 < places.len() <= number_from(bytes@, 0)
            &&& places[0] == 4
            &&& InfoRecordView::at(bytes@, places.last()) == Err::<(InfoRecordView, int), Error>(
                result->Err_0,
            )
            &&& forall|i: int|
                0 <= i < places.len() - 1 ==> #[trigger] record_ends(bytes@, places, i)
        },
{
    reveal(wire::number_at);
    if bytes@.len() >= 4 {
        let four = bytes@.subrange(0, 4);
        assert(four[0] == bytes@[0] && four[1] == bytes@[1] && four[2] == bytes@[2] && four[3]
            == bytes@[3]);
        let count = number_from(bytes@, 0) as nat;
        let places = records_found(bytes@, 4, count);
        if let Ok(list) = result {
            let views = crate::info_record::record_views(list@);
            assert(views.len() == list@.len());
            assert forall|i: int| 0 <= i < list@.len() implies InfoRecordView::at(bytes@, places[i])
                == Ok::<(InfoRecordView, int), Error>(((#[trigger] list@[i])@, places[i + 1])) by {
                assert(views[i] == list@[i]@);
            }
        }
        places
    } else {
        seq![]
    }
}

/// The payload of a record is what it is written as.
pub proof fn payload_of_a_record(
    record: InfoRecord,
    written: Result<Vec<u8>, Error>,
    payload: Result<Bytes, Error>,
)
    requires
        call_ensures(InfoRecord::write, (&record,), written),
        call_ensures(<InfoRecord as IntoFormat>::into_format, (record,), payload),
    ensures
        payload is Ok <==> written is Ok,
        payload is Ok ==> contents(payload->Ok_0) == written->Ok_0@,
        payload is Err ==> payload->Err_0 is TooLong,
{
}

/// A record is the tuple of its seven fields, in their order, and comes back from it.
pub proof fn record_comes_back(
    record: InfoRecord,
    converted: Value,
    back: Result<InfoRecord, FromValueError>,
)
    requires
        call_ensures(<InfoRecord as IntoValue>::into_value, (record,), converted),
        call_ensures(<InfoRecord as FromValue>::from_value, (converted,), back),
    ensures
        converted matches Value::Tuple(fields) && {
            &&& fields@.len() == 7
            &&& fields@[0] matches Value::String(raw) && raw@ == record.name@
            &&& fields@[1] == Value::UInt32(record.service_id)
            &&& fields@[2] matches Value::String(raw) && raw@ == record.machine_id@
            &&& fields@[3] == Value::UInt32(record.process_id)
            &&& fields@[4] matches Value::List(texts) && texts@.len() == record.endpoints@.len()
                && forall|i: int|
                0 <= i < texts@.len() ==> (#[trigger] texts@[i] matches Value::String(raw) && raw@
                    == record.endpoints@[i]@)
            &&& fields@[5] matches Value::String(raw) && raw@ == record.session_id@
            &&& fields@[6] matches Value::String(raw) && raw@ == record.object_uid@
        },
        back is Ok,
        same_record(back->Ok_0, record),
{
    crate::info_record::record_converted_back(record, converted, back);
    views_of_records(back->Ok_0, record);
    let texts = converted->Tuple_0@[4]->List_0@;
    let own = wire::raw_strings(record.endpoints@);
    assert(own.len() == record.endpoints@.len());
    assert forall|i: int| 0 <= i < texts.len() implies (#[trigger] texts[i] matches Value::String(raw)
        && raw@ == record.endpoints@[i]@) by {
        assert(own[i] == record.endpoints@[i]@);
    }
}

/// A value that is no tuple of seven such fields is no record.
pub proof fn other_values_are_no_records(value: Value, result: Result<InfoRecord, FromValueError>)
    requires
        call_ensures(<InfoRecord as FromValue>::from_value, (value,), result),
    ensures
        result is Ok <==> (value matches Value::Tuple(fields) && {
            &&& fields@.len() == 7
            &&& fields@[0] is String
            &&& fields@[1] is UInt32
            &&& fields@[2] is String
            &&& fields@[3] is UInt32
            &&& fields@[4] matches Value::List(texts) && forall|i: int|
                0 <= i < texts@.len() ==> (#[trigger] texts@[i]) is String
            &&& fields@[5] is String
            &&& fields@[6] is String
        }),
        !(value is Tuple) ==> refused(result, Expected::Kind(value::Kind::Tuple), value),
        value matches Value::Tuple(fields) ==> (fields@.len() != 7 ==> result == Err::<
            InfoRecord,
            FromValueError,
        >(FromValueError::Length { wanted: 7, found: fields@.len() as usize })),
        value matches Value::Tuple(fields) ==> (fields@.len() == 7 ==> fields_refused(
            fields@,
            result,
        )),
{
    mismatch_is_refused(result, Expected::Kind(value::Kind::Tuple), value);
    if let Value::Tuple(fields) = value {
        if fields@.len() == 7 {
            mismatch_is_refused(result, Expected::Kind(value::Kind::String), fields@[0]);
            mismatch_is_refused(result, Expected::Kind(value::Kind::UInt32), fields@[1]);
            mismatch_is_refused(result, Expected::Kind(value::Kind::String), fields@[2]);
            mismatch_is_refused(result, Expected::Kind(value::Kind::UInt32), fields@[3]);
            mismatch_is_refused(result, Expected::Kind(value::Kind::List), fields@[4]);
            mismatch_is_refused(result, Expected::Kind(value::Kind::String), fields@[5]);
            mismatch_is_refused(result, Expected::Kind(value::Kind::String), fields@[6]);
            if let Value::List(texts) = fields@[4] {
                if crate::info_record::no_string_list(fields@[4], result) {
                    let i = choose|i: int| #[trigger]
                        crate::info_record::first_no_string(texts@, i)
                            && crate::value::mismatched(
                            result,
                            Expected::Kind(value::Kind::String),
                            texts@[i],
                        );
                    mismatch_is_refused(result, Expected::Kind(value::Kind::String), texts@[i]);
                    assert(element_refused(texts@, i, result));
                }
            }
        }
    }
}

/// Whether a conversion fails at an element of a list that is the first that is no string.
pub open spec fn element_refused<T>(
    texts: Seq<Value>,
    i: int,
    result: Result<T, FromValueError>,
) -> bool {
    &&& 0 <= i < texts.len()
    &&& !(texts[i] is String)
    &&& forall|j: int| 0 <= j < i ==> (#[trigger] texts[j]) is String
    &&& refused(result, Expected::Kind(value::Kind::String), texts[i])
}

/// Whether a conversion of seven fields fails, where it does, at the first of them that is not what
/// it has to be.
pub open spec fn fields_refused<T>(fields: Seq<Value>, result: Result<T, FromValueError>) -> bool {
    if !(fields[0] is String) {
        refused(result, Expected::Kind(value::Kind::String), fields[0])
    } else if !(fields[1] is UInt32) {
        refused(result, Expected::Kind(value::Kind::UInt32), fields[1])
    } else if !(fields[2] is String) {
        refused(result, Expected::Kind(value::Kind::String), fields[2])
    } else if !(fields[3] is UInt32) {
        refused(result, Expected::Kind(value::Kind::UInt32), fields[3])
    } else if !(fields[4] is List) {
        refused(result, Expected::Kind(value::Kind::List), fields[4])
    } else if exists|i: int|
        0 <= i < fields[4]->List_0@.len() && !((#[trigger] fields[4]->List_0@[i]) is String) {
        exists|i: int| #[trigger] element_refused(fields[4]->List_0@, i, result)
    } else if !(fields[5] is String) {
        refused(result, Expected::Kind(value::Kind::String), fields[5])
    } else if !(fields[6] is String) {
        refused(result, Expected::Kind(value::Kind::String), fields[6])
    } else {
        result is Ok
    }
}

/// The record of what is told of a service holds it field by field: texts as their bytes, the
/// endpoints as the bytes of their texts, and the identifier of the object as it is.
pub proof fn record_of_an_info(
    info: &Info,
    networks: &Vec<String>,
    record: InfoRecord,
    machine: String,
)
    requires
        call_ensures(Info::to_record, (info, networks), record),
        call_ensures(MachineId::to_text, (&info.machine_id,), machine),
    ensures
        record.name@ == encode_utf8(info.name@),
        record.service_id == info.id.0,
        record.machine_id@ == encode_utf8(machine@),
        record.process_id == info.process_id,
        record.endpoints@.len() == info.endpoints@.len(),
        forall|i: int|
            0 <= i < info.endpoints@.len() ==> exists|text: Seq<char>|
                (#[trigger] record.endpoints@[i])@ == #[trigger] encode_utf8(text) && is_text_of(
                    text,
                    info.endpoints@[i],
                    if i < networks@.len() {
                        networks@[i]@
                    } else {
                        Seq::empty()
                    },
                ),
        record.session_id@ == encode_utf8(info.node_uid.0@),
        record.object_uid@ == info.object_uid.0@,
{
    let told = info@.record(networks@);
    assert(record@ == told);
    assert(record@.name == record.name@);
    assert(record@.service_id == record.service_id);
    assert(record@.process_id == record.process_id);
    let texts = crate::target_text::texts_of(info@.endpoints, networks@);
    assert(record@.endpoints.len() == record.endpoints@.len());
    assert(told.endpoints.len() == texts.len());
    assert forall|i: int| 0 <= i < info.endpoints@.len() implies exists|text: Seq<char>|
        (#[trigger] record.endpoints@[i])@ == #[trigger] encode_utf8(text) && is_text_of(
            text,
            info.endpoints@[i],
            if i < networks@.len() {
                networks@[i]@
            } else {
                Seq::empty()
            },
        ) by {
        assert(record@.endpoints[i] == record.endpoints@[i]@);
        assert(told.endpoints[i] == encode_utf8(texts[i]));
    }
}

/// What a record says is read field by field: texts out of their bytes, the machine and the
/// endpoints out of their texts. A field that is no such thing makes it an error.
pub proof fn info_of_a_record(
    record: InfoRecord,
    networks: &Vec<Option<SocketAddr>>,
    result: Result<Info, FromValueError>,
)
    requires
        call_ensures(Info::from_record, (record, networks), result),
    ensures
        result matches Ok(info) ==> {
            &&& record.name@ == encode_utf8(info.name@)
            &&& record.service_id == info.id.0
            &&& valid_utf8(record.machine_id@)
            &&& MachineId::read(decode_utf8(record.machine_id@)) == Some(info.machine_id)
            &&& record.process_id == info.process_id
            &&& record.endpoints@.len() == info.endpoints@.len()
            &&& forall|i: int|
                0 <= i < record.endpoints@.len() ==> raw_stands_for(
                    record.endpoints@[i]@,
                    given_at(networks@, i),
                    Some(#[trigger] info.endpoints@[i]),
                )
            &&& record.session_id@ == encode_utf8(info.node_uid.0@)
            &&& record.object_uid@ == info.object_uid.0@
            &&& record.object_uid@.len() == 20
        },
        !valid_utf8(record.name@) || !valid_utf8(record.machine_id@) ==> result == Err::<
            Info,
            FromValueError,
        >(FromValueError::NotText),
        result matches Err(err) ==> match err {
            FromValueError::NotText => !valid_utf8(record.name@) || !valid_utf8(record.machine_id@)
                || !valid_utf8(record.session_id@),
            FromValueError::NotAMachineId => MachineId::read(decode_utf8(record.machine_id@)) is None,
            FromValueError::NotATarget => exists|i: int|
                0 <= i < record.endpoints@.len() && raw_stands_for(
                    (#[trigger] record.endpoints@[i])@,
                    given_at(networks@, i),
                    None,
                ),
            FromValueError::Length { wanted, found } => wanted == 20 && found
                == record.object_uid@.len() as usize && record.object_uid@.len() != 20,
            FromValueError::TypeMismatch { .. } => false,
        },
{
    broadcast use decode_utf8_encode_utf8;

    assert(record@.name == record.name@);
    assert(record@.endpoints.len() == record.endpoints@.len());
    let raw = record@.endpoints;
    match result {
        Ok(info) => {
            assert(info@.name == info.name@);
            assert(info@.endpoints == info.endpoints@);
            assert(info@.id == info.id && info@.machine_id == info.machine_id && info@.process_id
                == info.process_id);
            assert forall|i: int| 0 <= i < record.endpoints@.len() implies raw_stands_for(
                record.endpoints@[i]@,
                given_at(networks@, i),
                Some(#[trigger] info.endpoints@[i]),
            ) by {
                assert(raw[i] == record.endpoints@[i]@);
                crate::laws::texts::raw_reading(
                    raw[i],
                    given_at(networks@, i),
                    Some(info.endpoints@[i]),
                );
            }
        },
        Err(err) => {
            if crate::target_text::targets_read(raw, networks@, None) {
                let i = choose|i: int|
                    0 <= i < raw.len() && crate::target_text::raw_reads(
                        #[trigger] raw[i],
                        crate::target_text::network_at(networks@, i),
                        None,
                    );
                assert(raw[i] == record.endpoints@[i]@);
                crate::laws::texts::raw_reading(raw[i], given_at(networks@, i), None);
            }
        },
    }
}

/// What a record says is told exactly where all of its fields are what they have to be, and the
/// first of them that is not says why: its name, the text of its machine, its machine, its
/// endpoints, its session and its object, in this order.
pub proof fn fields_of_records_are_read_in_order(
    record: InfoRecord,
    networks: &Vec<Option<SocketAddr>>,
    result: Result<Info, FromValueError>,
)
    requires
        call_ensures(Info::from_record, (record, networks), result),
    ensures
        if !valid_utf8(record.name@) || !valid_utf8(record.machine_id@) {
            result matches Err(FromValueError::NotText)
        } else if MachineId::read(decode_utf8(record.machine_id@)) is None {
            result matches Err(FromValueError::NotAMachineId)
        } else if exists|i: int|
            0 <= i < record.endpoints@.len() && raw_stands_for(
                (#[trigger] record.endpoints@[i])@,
                given_at(networks@, i),
                None,
            ) {
            result matches Err(FromValueError::NotATarget)
        } else if !valid_utf8(record.session_id@) {
            result matches Err(FromValueError::NotText)
        } else if record.object_uid@.len() != 20 {
            result matches Err(FromValueError::Length { .. })
        } else {
            result is Ok
        },
{
    assert(record@.name == record.name@);
    assert(record@.endpoints.len() == record.endpoints@.len());
    let raw = record@.endpoints;
    if exists|i: int|
        0 <= i < record.endpoints@.len() && raw_stands_for(
            (#[trigger] record.endpoints@[i])@,
            given_at(networks@, i),
            None,
        ) {
        let i = choose|i: int|
            0 <= i < record.endpoints@.len() && raw_stands_for(
                (#[trigger] record.endpoints@[i])@,
                given_at(networks@, i),
                None,
            );
        assert(raw[i] == record.endpoints@[i]@);
        raw_standing(raw[i], given_at(networks@, i));
        assert(crate::target_text::targets_read(raw, networks@, None));
    } else if crate::target_text::targets_read(raw, networks@, None) {
        let i = choose|i: int|
            0 <= i < raw.len() && crate::target_text::raw_reads(
                #[trigger] raw[i],
                crate::target_text::network_at(networks@, i),
                None,
            );
        assert(raw[i] == record.endpoints@[i]@);
        crate::laws::texts::raw_reading(raw[i], given_at(networks@, i), None);
    }
}

/// Whether two tell the same of a service.
pub open spec fn tell_the_same(a: Info, b: Info) -> bool {
    &&& a.name@ == b.name@
    &&& a.id == b.id
    &&& a.machine_id == b.machine_id
    &&& a.process_id == b.process_id
    &&& a.endpoints@.len() == b.endpoints@.len()
    &&& forall|i: int|
        0 <= i < a.endpoints@.len() ==> match ((#[trigger] a.endpoints@[i]).0, b.endpoints@[i].0) {
            (Kind::Service(x), Kind::Service(y)) => x@ == y@,
            (Kind::Endpoint(x), Kind::Endpoint(y)) => x == y,
            _ => false,
        }
    &&& a.node_uid.0@ == b.node_uid.0@
    &&& a.object_uid.0@ == b.object_uid.0@
}

/// Whether the network addresses of endpoints are given at their places.
pub open spec fn addresses_given(
    endpoints: Seq<Target>,
    networks: Seq<Option<SocketAddr>>,
) -> bool {
    forall|i: int|
        0 <= i < endpoints.len() ==> ((#[trigger] endpoints[i]).0 matches Kind::Endpoint(
            Address::Tcp { address, .. },
        ) ==> i < networks.len() && networks[i] == Some(address))
}

/// What the record of what is told of a service says is the same again, where the network addresses
/// of its endpoints are given.
pub proof fn info_is_read_out_of_its_record(
    info: &Info,
    texts: &Vec<String>,
    record: InfoRecord,
    networks: &Vec<Option<SocketAddr>>,
    result: Result<Info, FromValueError>,
)
    requires
        call_ensures(Info::to_record, (info, texts), record),
        addresses_given(info.endpoints@, networks@),
        call_ensures(Info::from_record, (record, networks), result),
    ensures
        result is Ok,
        tell_the_same(result->Ok_0, *info),
{
    info.object_uid.0.length();
    assert(record@ == info@.record(texts@));
    assert(crate::target_text::networks_of(info@.endpoints, networks@));
    same_in_contracts(result->Ok_0, *info);
}

/// Infos that tell the same in contracts tell the same.
proof fn same_in_contracts(a: Info, b: Info)
    requires
        a@.same(b@),
    ensures
        tell_the_same(a, b),
{
    assert(a@.name == a.name@ && b@.name == b.name@);
    assert(a@.id == a.id && b@.id == b.id);
    assert(a@.machine_id == a.machine_id && b@.machine_id == b.machine_id);
    assert(a@.process_id == a.process_id && b@.process_id == b.process_id);
    assert(a@.endpoints == a.endpoints@ && b@.endpoints == b.endpoints@);
    assert(a@.node_uid == a.node_uid.0@ && b@.node_uid == b.node_uid.0@);
    assert(a@.object_uid == a.object_uid.0@ && b@.object_uid == b.object_uid.0@);
    assert forall|i: int| 0 <= i < a.endpoints@.len() implies match (
        (#[trigger] a.endpoints@[i]).0,
        b.endpoints@[i].0,
    ) {
        (Kind::Service(x), Kind::Service(y)) => x@ == y@,
        (Kind::Endpoint(x), Kind::Endpoint(y)) => x == y,
        _ => false,
    } by {
        assert(crate::target_text::same_target(a@.endpoints[i], b@.endpoints[i]));
    }
}

/// The payload of what is told of a service is its record, as it is written, and is read as the
/// same again.
pub proof fn info_is_read_out_of_its_payload(
    info: &Info,
    texts: &Vec<String>,
    record: InfoRecord,
    written: Result<Vec<u8>, Error>,
    payload: Result<Bytes, Error>,
    networks: &Vec<Option<SocketAddr>>,
    read: Result<Info, ReflectError>,
)
    requires
        call_ensures(Info::to_record, (info, texts), record),
        call_ensures(InfoRecord::write, (&record,), written),
        call_ensures(Info::into_format, (info, texts), payload),
        addresses_given(info.endpoints@, networks@),
        payload is Ok ==> call_ensures(
            Info::to_reflect_value,
            (&payload->Ok_0, networks),
            read,
        ),
    ensures
        payload is Ok <==> written is Ok,
        payload is Ok ==> contents(payload->Ok_0) == written->Ok_0@,
        payload is Err ==> payload->Err_0 is TooLong,
        payload is Ok ==> read is Ok && tell_the_same(read->Ok_0, *info),
{
    info.object_uid.0.length();
    assert(record@ == info@.record(texts@));
    if payload is Ok {
        assert(crate::target_text::networks_of(info@.endpoints, networks@));
        assert(contents(payload->Ok_0) == info@.record(texts@).bytes());
        same_in_contracts(read->Ok_0, *info);
    }
}

/// What is told of a service is read out of a payload as its record says, and cannot be where the
/// record cannot, or says no such thing.
pub proof fn info_of_a_payload(
    payload: &Bytes,
    bytes: &[u8],
    record: Result<InfoRecord, Error>,
    networks: &Vec<Option<SocketAddr>>,
    said: Result<Info, FromValueError>,
    result: Result<Info, ReflectError>,
)
    requires
        call_ensures(Info::to_reflect_value, (payload, networks), result),
        bytes@ == contents(*payload),
        call_ensures(InfoRecord::read, (bytes,), record),
        record is Ok ==> call_ensures(Info::from_record, (record->Ok_0, networks), said),
    ensures
        record matches Err(err) ==> result == Err::<Info, ReflectError>(ReflectError::Format(err)),
        record is Ok && said is Err ==> result == Err::<Info, ReflectError>(
            ReflectError::Conversion(said->Err_0),
        ),
        record is Ok && said is Ok ==> result is Ok && result->Ok_0.machine_id
            == said->Ok_0.machine_id,
        record is Ok && result is Ok ==> {
            &&& record->Ok_0.name@ == encode_utf8(result->Ok_0.name@)
            &&& record->Ok_0.service_id == result->Ok_0.id.0
            &&& record->Ok_0.process_id == result->Ok_0.process_id
            &&& record->Ok_0.session_id@ == encode_utf8(result->Ok_0.node_uid.0@)
            &&& record->Ok_0.object_uid@ == result->Ok_0.object_uid.0@
            &&& record->Ok_0.endpoints@.len() == result->Ok_0.endpoints@.len()
        },
{
    broadcast use decode_utf8_encode_utf8;

    if let Ok(read) = record {
        assert(read@.name == read.name@);
        assert(read@.endpoints.len() == read.endpoints@.len());
        if let Ok(info) = result {
            assert(info@.name == info.name@);
            assert(info@.endpoints == info.endpoints@);
            assert(info@.id == info.id && info@.machine_id == info.machine_id && info@.process_id
                == info.process_id);
            crate::target_text::targets_read_once(read@.endpoints, networks@, info@.endpoints);
        }
        if let Ok(info) = said {
            assert(info@.machine_id == info.machine_id);
            crate::target_text::targets_read_once(read@.endpoints, networks@, info@.endpoints);
        }
    }
}

/// Texts, one right behind the other.
pub open spec fn run_together(texts: Seq<Seq<char>>) -> Seq<char>
    decreases texts.len(),
{
    if texts.len() == 0 {
        Seq::empty()
    } else {
        texts[0] + run_together(texts.drop_first())
    }
}

/// Texts that get one more run on with it.
proof fn run_on(texts: Seq<Seq<char>>, last: Seq<char>)
    ensures
        run_together(texts.push(last)) == run_together(texts) + last,
    decreases texts.len(),
{
    let longer = texts.push(last);
    if texts.len() == 0 {
        assert(longer.drop_first() =~= Seq::<Seq<char>>::empty());
        assert(run_together(longer.drop_first()) =~= Seq::<char>::empty());
        assert(run_together(longer) =~= run_together(texts) + last);
    } else {
        run_on(texts.drop_first(), last);
        assert(longer.drop_first() =~= texts.drop_first().push(last));
        assert(longer[0] == texts[0]);
        assert(run_together(longer) =~= run_together(texts) + last);
    }
}

/// Joined texts run together.
proof fn joined_texts_run_together(texts: Seq<Seq<char>>)
    ensures
        service::joined(texts) == run_together(texts),
    decreases texts.len(),
{
    if texts.len() > 0 {
        joined_texts_run_together(texts.drop_last());
        run_on(texts.drop_last(), texts.last());
        assert(texts.drop_last().push(texts.last()) =~= texts);
    }
}

/// The text of what is told of a service holds all of it, in order: its name, its identifier, its
/// machine, its process, the texts of its endpoints, its node and its object.
pub proof fn text_of_an_info(
    info: &Info,
    networks: &Vec<String>,
    object: &String,
    text: String,
    machine: String,
    endpoints: Vec<String>,
)
    requires
        call_ensures(Info::to_text, (info, networks, object), text),
        call_ensures(MachineId::to_text, (&info.machine_id,), machine),
        call_ensures(crate::target_text::target_texts, (&info.endpoints, networks), endpoints),
    ensures
        text@ == info.name@ + "("@ + decimal(info.id.0 as nat) + ", machine="@ + machine@
            + ", process="@ + decimal(info.process_id as nat) + ", endpoints=["@ + run_together(
            Seq::new(endpoints@.len(), |i: int| endpoints@[i]@),
        ) + "], node="@ + info.node_uid.0@ + ", object="@ + object@ + ")"@,
{
    let texts = crate::target_text::texts_of(info@.endpoints, networks@);
    joined_texts_run_together(texts);
    assert(Seq::new(endpoints@.len(), |i: int| endpoints@[i]@) =~= endpoints@.map_values(
        |text: String| text@,
    ));
}

/// What a node tells of a service of its own is what it is made of, under the identifier zero where
/// it is not registered yet.
pub proof fn infos_hold_what_they_are_made_of(
    name: String,
    id: service::Id,
    endpoints: Vec<Target>,
    node_uid: node::Uid,
    object_uid: object::Uid,
    machine_id: MachineId,
    process_id: u32,
    fresh: Info,
    known: Info,
)
    requires
        call_ensures(
            Info::unregistered,
            (name, endpoints, node_uid, object_uid, machine_id, process_id),
            fresh,
        ),
        call_ensures(
            Info::process_local,
            (name, id, endpoints, node_uid, object_uid, machine_id, process_id),
            known,
        ),
    ensures
        fresh.id.0 == 0 && known.id == id,
        fresh.name@ == name@ && known.name@ == name@,
        fresh.machine_id == machine_id && known.machine_id == machine_id,
        fresh.process_id == process_id && known.process_id == process_id,
        fresh.endpoints@ == endpoints@ && known.endpoints@ == endpoints@,
        fresh.node_uid.0@ == node_uid.0@ && known.node_uid.0@ == node_uid.0@,
        fresh.object_uid.0@ == object_uid@ && known.object_uid.0@ == object_uid@,
{
    assert(fresh@.id == fresh.id && known@.id == known.id);
    assert(fresh@.machine_id == fresh.machine_id && known@.machine_id == known.machine_id);
    assert(fresh@.process_id == fresh.process_id && known@.process_id == known.process_id);
}

/// The parts of an info are those that it holds, and a copy holds the same.
pub proof fn infos_give_what_they_hold(
    info: &Info,
    id: service::Id,
    machine_id: MachineId,
    process_id: u32,
    endpoints: &[Target],
    node_uid: node::Uid,
    object_uid: object::Uid,
    copy: Info,
)
    requires
        call_ensures(Info::id, (info,), id),
        call_ensures(Info::machine_id, (info,), machine_id),
        call_ensures(Info::process_id, (info,), process_id),
        call_ensures(Info::endpoints, (info,), endpoints),
        call_ensures(Info::node_uid, (info,), node_uid),
        call_ensures(Info::object_uid, (info,), object_uid),
        call_ensures(<Info as Clone>::clone, (info,), copy),
    ensures
        id == info.id && copy.id == info.id,
        machine_id == info.machine_id && copy.machine_id == info.machine_id,
        process_id == info.process_id && copy.process_id == info.process_id,
        endpoints@ == info.endpoints@ && copy.endpoints@ == info.endpoints@,
        node_uid.0@ == info.node_uid.0@ && copy.node_uid.0@ == info.node_uid.0@,
        object_uid@ == info.object_uid.0@ && copy.object_uid.0@ == info.object_uid.0@,
        copy.name@ == info.name@,
{
    assert(copy@.id == copy.id && info@.id == info.id);
    assert(copy@.machine_id == copy.machine_id && info@.machine_id == info.machine_id);
    assert(copy@.process_id == copy.process_id && info@.process_id == info.process_id);
}

/// An info that nothing is told of is empty, and its object has the identifier of zeros.
pub proof fn empty_info(info: Info)
    requires
        call_ensures(<Info as Default>::default, (), info),
    ensures
        info.name@.len() == 0,
        info.id.0 == 0,
        info.machine_id.0 == 0,
        info.process_id == 0,
        info.endpoints@.len() == 0,
        info.node_uid.0@.len() == 0,
        info.object_uid.0@.len() == 20,
        forall|i: int| 0 <= i < 20 ==> #[trigger] info.object_uid.0@[i] == 0,
{
    assert(info@.id == info.id && info@.machine_id == info.machine_id && info@.process_id
        == info.process_id);
    assert(info@.object_uid == info.object_uid.0@);
}

/// The fields of a list, in contracts, are what each of them is.
proof fn views_of_fields(list: Seq<Field>)
    ensures
        field_views(list).len() == list.len(),
        forall|i: int|
            0 <= i < list.len() ==> field_views(list)[i] == (
                (#[trigger] list[i]).name@,
                list[i].ty.view(),
            ),
    decreases list.len(),
{
    if list.len() > 0 {
        let front = list.subrange(0, list.len() - 1);
        views_of_fields(front);
        assert forall|i: int| 0 <= i < list.len() implies field_views(list)[i] == (
            (#[trigger] list[i]).name@,
            list[i].ty.view(),
        ) by {
            if i < front.len() {
                assert(front[i] == list[i]);
            }
        }
    }
}

/// Whether a type is that of what is told of a service: a structure of seven fields, each with its
/// name and its type.
pub open spec fn is_info_type(ty: Type) -> bool {
    ty matches Type::Struct { name, fields } && {
        &&& name@ == "Info"@
        &&& fields@.len() == 7
        &&& fields@[0].name@ == "name"@ && fields@[0].ty is String
        &&& fields@[1].name@ == "serviceId"@ && fields@[1].ty is UInt32
        &&& fields@[2].name@ == "machineId"@ && fields@[2].ty is String
        &&& fields@[3].name@ == "processId"@ && fields@[3].ty is UInt32
        &&& fields@[4].name@ == "endpoints"@ && (fields@[4].ty matches Type::List(element)
            && *element is String)
        &&& fields@[5].name@ == "sessionId"@ && fields@[5].ty is String
        &&& fields@[6].name@ == "objectUid"@ && fields@[6].ty is String
    }
}

/// A type that is that of an info in contracts is so.
pub(crate) proof fn info_type_in_contracts(ty: Type)
    requires
        ty.view() == service::info_type_view(),
    ensures
        is_info_type(ty),
{
    if let Type::Struct { name, fields } = ty {
        views_of_fields(fields@);
        let f = fields@;
        assert(field_views(f)[0] == (f[0].name@, f[0].ty.view()));
        assert(field_views(f)[1] == (f[1].name@, f[1].ty.view()));
        assert(field_views(f)[2] == (f[2].name@, f[2].ty.view()));
        assert(field_views(f)[3] == (f[3].name@, f[3].ty.view()));
        assert(field_views(f)[4] == (f[4].name@, f[4].ty.view()));
        assert(field_views(f)[5] == (f[5].name@, f[5].ty.view()));
        assert(field_views(f)[6] == (f[6].name@, f[6].ty.view()));
        if let Type::List(element) = f[4].ty {
            assert(f[4].ty.view() == value::TypeView::List(Box::new(element.view())));
        }
    }
}

/// The type of what is told of a service names its seven fields.
pub proof fn type_of_an_info(ty: Type)
    requires
        call_ensures(info_type, (), ty),
    ensures
        is_info_type(ty),
{
    info_type_in_contracts(ty);
}

/// The identifier of an object is written into a payload as the string of its bytes, and read back
/// as the same.
pub proof fn object_uid_is_read_out_of_its_payload(
    uid: ObjectUidAsStr,
    payload: Result<Bytes, Error>,
    read: Result<ObjectUidAsStr, ReflectError>,
)
    requires
        call_ensures(<ObjectUidAsStr as IntoFormat>::into_format, (uid,), payload),
        payload is Ok ==> call_ensures(ObjectUidAsStr::to_reflect_value, (&payload->Ok_0,), read),
    ensures
        payload is Ok,
        string_stands(contents(payload->Ok_0), 0, uid.0@, contents(payload->Ok_0).len() as int),
        read is Ok,
        read->Ok_0.0@ == uid.0@,
{
    service::object_uid_read_back(uid.0);
    string_found(contents(payload->Ok_0), 0);
}

/// The identifier of an object is read where a string of twenty bytes stands at the start of a
/// payload.
pub proof fn object_uid_of_a_payload(
    payload: &Bytes,
    result: Result<ObjectUidAsStr, ReflectError>,
    raw: Seq<u8>,
    end: int,
)
    requires
        call_ensures(ObjectUidAsStr::to_reflect_value, (payload,), result),
    ensures
        string_stands(contents(*payload), 0, raw, end) && raw.len() == 20 ==> result is Ok
            && result->Ok_0.0@ == raw,
        string_stands(contents(*payload), 0, raw, end) && raw.len() != 20 ==> (result matches Err(
            ReflectError::Conversion(FromValueError::Length { wanted, found }),
        ) && wanted == 20 && found == raw.len() as usize),
        result matches Err(ReflectError::Format(err)) ==> err is UnexpectedEnd && !string_stands(
            contents(*payload),
            0,
            raw,
            end,
        ),
{
    string_found(contents(*payload), 0);
}

} // verus!
