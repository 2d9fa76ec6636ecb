//! The binary format of messages: little-endian integers, strings of raw bytes behind their
//! length, and lists behind the number of their elements.

use vstd::prelude::*;

verus! {

/// Why bytes could not be read or written.
#[derive(PartialEq, Eq, Debug)]
pub enum Error {
    /// The bytes end before the value does.
    UnexpectedEnd,
    /// A string or a list is too long for its length to be written.
    TooLong,
    /// Another fault, in words.
    Other(String),
}

/// The bytes of a number, the least significant one first.
#[verifier::opaque]
pub open spec fn number_bytes(n: u32) -> Seq<u8> {
    seq![
        (n % 0x100) as u8,
        (n / 0x100 % 0x100) as u8,
        (n / 0x1_0000 % 0x100) as u8,
        (n / 0x100_0000) as u8,
    ]
}

/// The bytes of a string: its length, then the string.
#[verifier::opaque]
pub open spec fn string_bytes(raw: Seq<u8>) -> Seq<u8> {
    number_bytes(raw.len() as u32) + raw
}

/// The bytes of several strings, one after the other.
pub open spec fn strings_bytes(list: Seq<Seq<u8>>) -> Seq<u8>
    decreases list.len(),
{
    if list.len() == 0 {
        Seq::empty()
    } else {
        string_bytes(list.first()) + strings_bytes(list.drop_first())
    }
}

/// The bytes of a list of strings: the number of strings, then the strings.
#[verifier::opaque]
pub open spec fn string_list_bytes(list: Seq<Seq<u8>>) -> Seq<u8> {
    number_bytes(list.len() as u32) + strings_bytes(list)
}

/// Whether the length of a string can be written.
pub open spec fn fits(raw: Seq<u8>) -> bool {
    raw.len() <= u32::MAX
}

/// The number that four bytes stand for.
pub open spec fn number_of(bytes: Seq<u8>) -> u32 {
    (bytes[0] + bytes[1] * 0x100 + bytes[2] * 0x1_0000 + bytes[3] * 0x100_0000) as u32
}

/// The number at a position, and the position behind it.
#[verifier::opaque]
pub open spec fn number_at(bytes: Seq<u8>, start: int) -> Result<(u32, int), Error> {
    if start + 4 <= bytes.len() {
        Ok((number_of(bytes.subrange(start, start + 4)), start + 4))
    } else {
        Err(Error::UnexpectedEnd)
    }
}

/// The string at a position, and the position behind it.
#[verifier::opaque]
pub open spec fn string_at(bytes: Seq<u8>, start: int) -> Result<(Seq<u8>, int), Error> {
    match number_at(bytes, start) {
        Err(err) => Err(err),
        Ok((length, content)) => if content + length <= bytes.len() {
            Ok((bytes.subrange(content, content + length), content + length))
        } else {
            Err(Error::UnexpectedEnd)
        },
    }
}

/// A number of strings from a position on, and the position behind them.
pub open spec fn strings_at(bytes: Seq<u8>, start: int, count: nat) -> Result<(Seq<Seq<u8>>, int), Error>
    decreases count,
{
    if count == 0 {
        Ok((Seq::empty(), start))
    } else {
        match string_at(bytes, start) {
            Err(err) => Err(err),
            Ok((first, next)) => match strings_at(bytes, next, (count - 1) as nat) {
                Err(err) => Err(err),
                Ok((others, end)) => Ok((seq![first] + others, end)),
            },
        }
    }
}

/// The list of strings at a position, and the position behind it.
#[verifier::opaque]
pub open spec fn string_list_at(bytes: Seq<u8>, start: int) -> Result<(Seq<Seq<u8>>, int), Error> {
    match number_at(bytes, start) {
        Err(err) => Err(err),
        Ok((count, content)) => strings_at(bytes, content, count as nat),
    }
}

/// The contents of each string of a list.
pub open spec fn raw_strings(list: Seq<Vec<u8>>) -> Seq<Seq<u8>> {
    list.map_values(|raw: Vec<u8>| raw@)
}

/// A number that is read is the number that was written.
pub proof fn number_read_back(n: u32, before: Seq<u8>, after: Seq<u8>)
    ensures
        number_at(before + number_bytes(n) + after, before.len() as int) == Ok::<(u32, int), Error>(
            (n, (before + number_bytes(n)).len() as int),
        ),
{
    reveal(number_bytes);
    reveal(number_at);
    let bytes = before + number_bytes(n) + after;
    assert(bytes.subrange(before.len() as int, (before.len() + 4) as int) =~= number_bytes(n));
    assert(number_of(number_bytes(n)) == n) by {
        let a = n % 0x100;
        let b = n / 0x100 % 0x100;
        let c = n / 0x1_0000 % 0x100;
        let d = n / 0x100_0000;
        assert(n == a + b * 0x100 + c * 0x1_0000 + d * 0x100_0000);
        assert(d < 0x100);
    }
}

/// A string that is read is the string that was written.
pub proof fn string_read_back(raw: Seq<u8>, before: Seq<u8>, after: Seq<u8>)
    requires
        fits(raw),
    ensures
        string_at(before + string_bytes(raw) + after, before.len() as int) == Ok::<
            (Seq<u8>, int),
            Error,
        >((raw, (before + string_bytes(raw)).len() as int)),
{
    reveal(string_bytes);
    reveal(string_at);
    reveal(number_bytes);
    let bytes = before + string_bytes(raw) + after;
    assert(bytes =~= before + number_bytes(raw.len() as u32) + (raw + after));
    number_read_back(raw.len() as u32, before, raw + after);
    assert(bytes.subrange((before.len() + 4) as int, (before.len() + 4 + raw.len()) as int) =~= raw);
}

/// Strings that are read are the strings that were written.
pub proof fn strings_read_back(list: Seq<Seq<u8>>, before: Seq<u8>, after: Seq<u8>)
    requires
        forall|i: int| 0 <= i < list.len() ==> fits(#[trigger] list[i]),
    ensures
        strings_at(before + strings_bytes(list) + after, before.len() as int, list.len()) == Ok::<
            (Seq<Seq<u8>>, int),
            Error,
        >((list, (before + strings_bytes(list)).len() as int)),
    decreases list.len(),
{
    let bytes = before + strings_bytes(list) + after;
    if list.len() > 0 {
        let first = list.first();
        let others = list.drop_first();
        let head = string_bytes(first);
        let tail = strings_bytes(others);
        let next = before + head;
        assert(fits(list[0]));
        assert(strings_bytes(list) == head + tail);
        assert(bytes == before + head + (tail + after)) by {
            assert(before + (head + tail) + after =~= before + head + (tail + after));
        }
        assert(bytes == next + tail + after) by {
            assert(before + (head + tail) + after =~= before + head + tail + after);
        }
        assert(string_at(bytes, before.len() as int) == Ok::<(Seq<u8>, int), Error>(
            (first, next.len() as int),
        )) by {
            string_read_back(first, before, tail + after);
        }
        assert forall|i: int| 0 <= i < others.len() implies fits(#[trigger] others[i]) by {
            assert(others[i] == list[i + 1]);
        }
        strings_read_back(others, next, after);
        assert(seq![first] + others =~= list);
        assert((next + tail).len() == (before + strings_bytes(list)).len());
    } else {
        assert(list =~= Seq::empty());
    }
}

/// A list of strings that is read is the list that was written.
pub proof fn string_list_read_back(list: Seq<Seq<u8>>, before: Seq<u8>, after: Seq<u8>)
    requires
        list_fits(list),
    ensures
        string_list_at(before + string_list_bytes(list) + after, before.len() as int) == Ok::<
            (Seq<Seq<u8>>, int),
            Error,
        >((list, (before + string_list_bytes(list)).len() as int)),
{
    reveal(string_list_bytes);
    reveal(string_list_at);
    let bytes = before + string_list_bytes(list) + after;
    let head = number_bytes(list.len() as u32);
    let tail = strings_bytes(list);
    let next = before + head;
    assert(bytes == before + head + (tail + after)) by {
        assert(before + (head + tail) + after =~= before + head + (tail + after));
    }
    assert(bytes == next + tail + after) by {
        assert(before + (head + tail) + after =~= before + head + tail + after);
    }
    assert(number_at(bytes, before.len() as int) == Ok::<(u32, int), Error>(
        (list.len() as u32, next.len() as int),
    )) by {
        number_read_back(list.len() as u32, before, tail + after);
    }
    strings_read_back(list, next, after);
    assert((next + tail).len() == (before + (head + tail)).len());
}

/// Reads the number at a position.
pub fn read_number(bytes: &[u8], start: usize) -> (result: Result<(u32, usize), Error>)
    requires
        start <= bytes@.len(),
    ensures
        match number_at(bytes@, start as int) {
            Ok((n, end)) => result is Ok && result->Ok_0.0 == n && result->Ok_0.1 == end && end
                <= bytes@.len(),
            Err(err) => result == Err::<(u32, usize), Error>(err),
        },
{
    proof {
        reveal(number_at);
    }
    if bytes.len() - start < 4 {
        return Err(Error::UnexpectedEnd);
    }
    let a: u32 = bytes[start] as u32;
    let b: u32 = bytes[start + 1] as u32;
    let c: u32 = bytes[start + 2] as u32;
    let d: u32 = bytes[start + 3] as u32;
    let ghost four = bytes@.subrange(start as int, start + 4);
    assert(four[0] == a && four[1] == b && four[2] == c && four[3] == d);
    Ok((a + b * 0x100 + c * 0x1_0000 + d * 0x100_0000, start + 4))
}

/// Reads the string at a position.
pub fn read_string(bytes: &[u8], start: usize) -> (result: Result<(Vec<u8>, usize), Error>)
    requires
        start <= bytes@.len(),
    ensures
        match string_at(bytes@, start as int) {
            Ok((raw, end)) => result is Ok && result->Ok_0.0@ == raw && result->Ok_0.1 == end && end
                <= bytes@.len(),
            Err(err) => result == Err::<(Vec<u8>, usize), Error>(err),
        },
{
    proof {
        reveal(string_at);
    }
    match read_number(bytes, start) {
        Err(err) => Err(err),
        Ok((length, content)) => {
            if length as u64 > (bytes.len() - content) as u64 {
                return Err(Error::UnexpectedEnd);
            }
            let end: usize = content + length as usize;
            let mut raw: Vec<u8> = Vec::new();
            let mut i: usize = content;
            while i < end
                invariant
                    content <= i <= end <= bytes@.len(),
                    raw@ == bytes@.subrange(content as int, i as int),
                decreases end - i,
            {
                raw.push(bytes[i]);
                i += 1;
                assert(raw@ =~= bytes@.subrange(content as int, i as int));
            }
            Ok((raw, end))
        },
    }
}

/// Reads the list of strings at a position.
pub fn read_string_list(bytes: &[u8], start: usize) -> (result: Result<(Vec<Vec<u8>>, usize), Error>)
    requires
        start <= bytes@.len(),
    ensures
        match string_list_at(bytes@, start as int) {
            Ok((list, end)) => result is Ok && raw_strings(result->Ok_0.0@) == list
                && result->Ok_0.1 == end && end <= bytes@.len(),
            Err(err) => result == Err::<(Vec<Vec<u8>>, usize), Error>(err),
        },
{
    proof {
        reveal(string_list_at);
    }
    let (count, content): (u32, usize) = match read_number(bytes, start) {
        Err(err) => return Err(err),
        Ok(read) => read,
    };
    let mut list: Vec<Vec<u8>> = Vec::new();
    let mut position: usize = content;
    let mut remaining: u32 = count;
    assert(raw_strings(list@) =~= Seq::<Seq<u8>>::empty());
    while remaining > 0
        invariant
            position <= bytes@.len(),
            number_at(bytes@, start as int) == Ok::<(u32, int), Error>((count, content as int)),
            match strings_at(bytes@, position as int, remaining as nat) {
                Ok((others, end)) => strings_at(bytes@, content as int, count as nat) == Ok::<
                    (Seq<Seq<u8>>, int),
                    Error,
                >((raw_strings(list@) + others, end)),
                Err(err) => strings_at(bytes@, content as int, count as nat) == Err::<
                    (Seq<Seq<u8>>, int),
                    Error,
                >(err),
            },
        decreases remaining,
    {
        match read_string(bytes, position) {
            Err(err) => {
                proof {
                    reveal(string_list_at);
                }
                return Err(err);
            },
            Ok((raw, next)) => {
                let ghost before = raw_strings(list@);
                let ghost first = raw@;
                list.push(raw);
                position = next;
                remaining = remaining - 1;
                proof {
                    assert(raw_strings(list@) =~= before.push(first));
                    match strings_at(bytes@, position as int, remaining as nat) {
                        Ok((others, end)) => {
                            assert(before + (seq![first] + others) =~= raw_strings(list@) + others);
                        },
                        Err(_) => {},
                    }
                }
            },
        }
    }
    assert(raw_strings(list@) + Seq::<Seq<u8>>::empty() =~= raw_strings(list@));
    Ok((list, position))
}

/// Appends bytes to a buffer.
fn append_bytes(buffer: &mut Vec<u8>, bytes: &[u8])
    ensures
        final(buffer)@ == old(buffer)@ + bytes@,
{
    let mut i: usize = 0;
    while i < bytes.len()
        invariant
            i <= bytes@.len(),
            buffer@ == old(buffer)@ + bytes@.take(i as int),
        decreases bytes@.len() - i,
    {
        buffer.push(bytes[i]);
        i += 1;
        assert(buffer@ =~= old(buffer)@ + bytes@.take(i as int));
    }
    assert(bytes@.take(bytes@.len() as int) =~= bytes@);
}

/// Writes a number at the end of a buffer.
pub fn write_number(buffer: &mut Vec<u8>, n: u32)
    ensures
        final(buffer)@ == old(buffer)@ + number_bytes(n),
{
    proof {
        reveal(number_bytes);
    }
    buffer.push((n % 0x100) as u8);
    buffer.push((n / 0x100 % 0x100) as u8);
    buffer.push((n / 0x1_0000 % 0x100) as u8);
    buffer.push((n / 0x100_0000) as u8);
    assert(buffer@ =~= old(buffer)@ + number_bytes(n));
}

/// Writes a string at the end of a buffer. A string whose length does not fit is refused, and
/// nothing is written.
pub fn write_string(buffer: &mut Vec<u8>, raw: &[u8]) -> (result: Result<(), Error>)
    ensures
        fits(raw@) ==> result is Ok && final(buffer)@ == old(buffer)@ + string_bytes(raw@),
        !fits(raw@) ==> result == Err::<(), Error>(Error::TooLong) && final(buffer)@ == old(buffer)@,
{
    proof {
        reveal(string_bytes);
    }
    if raw.len() as u64 > u32::MAX as u64 {
        return Err(Error::TooLong);
    }
    write_number(buffer, raw.len() as u32);
    append_bytes(buffer, raw);
    assert(buffer@ =~= old(buffer)@ + string_bytes(raw@));
    Ok(())
}

/// Whether the lengths of all strings of a list, and their number, can be written.
pub open spec fn list_fits(list: Seq<Seq<u8>>) -> bool {
    list.len() <= u32::MAX && forall|i: int| 0 <= i < list.len() ==> fits(#[trigger] list[i])
}

/// The bytes of several strings of which one more comes last.
proof fn strings_bytes_push(list: Seq<Seq<u8>>, raw: Seq<u8>)
    ensures
        strings_bytes(list.push(raw)) == strings_bytes(list) + string_bytes(raw),
    decreases list.len(),
{
    let longer = list.push(raw);
    if list.len() == 0 {
        assert(longer.drop_first() =~= list);
        assert(strings_bytes(longer) =~= strings_bytes(list) + string_bytes(raw));
    } else {
        let head = string_bytes(list.first());
        let others = list.drop_first();
        strings_bytes_push(others, raw);
        assert(longer.drop_first() =~= others.push(raw));
        assert(strings_bytes(longer) == head + (strings_bytes(others) + string_bytes(raw)));
        assert(head + (strings_bytes(others) + string_bytes(raw)) =~= head + strings_bytes(others)
            + string_bytes(raw));
    }
}

/// Writes a list of strings at the end of a buffer. A list with a length that does not fit is
/// refused.
pub fn write_string_list(buffer: &mut Vec<u8>, list: &Vec<Vec<u8>>) -> (result: Result<(), Error>)
    ensures
        list_fits(raw_strings(list@)) ==> result is Ok && final(buffer)@ == old(buffer)@
            + string_list_bytes(raw_strings(list@)),
        !list_fits(raw_strings(list@)) ==> result == Err::<(), Error>(Error::TooLong),
{
    proof {
        reveal(string_list_bytes);
    }
    let ghost raws = raw_strings(list@);
    if list.len() as u64 > u32::MAX as u64 {
        return Err(Error::TooLong);
    }
    write_number(buffer, list.len() as u32);
    let ghost start = buffer@;
    let mut i: usize = 0;
    assert(strings_bytes(raws.take(0)) =~= Seq::empty());
    assert(start =~= start + strings_bytes(raws.take(0)));
    while i < list.len()
        invariant
            i <= list@.len(),
            raws == raw_strings(list@),
            buffer@ == start + strings_bytes(raws.take(i as int)),
            forall|j: int| 0 <= j < i ==> fits(#[trigger] raws[j]),
        decreases list@.len() - i,
    {
        assert(raws[i as int] == list@[i as int]@);
        match write_string(buffer, list[i].as_slice()) {
            Err(err) => {
                return Err(err);
            },
            Ok(()) => {},
        }
        proof {
            let done = raws.take(i as int);
            let raw = raws[i as int];
            strings_bytes_push(done, raw);
            assert(raws.take(i + 1) =~= done.push(raw));
            assert(start + strings_bytes(done) + string_bytes(raw) =~= start + (strings_bytes(done)
                + string_bytes(raw)));
        }
        i += 1;
    }
    assert(raws.take(raws.len() as int) =~= raws);
    assert(buffer@ =~= old(buffer)@ + string_list_bytes(raws));
    Ok(())
}

} // verus!
