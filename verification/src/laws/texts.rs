//! What numbers and targets are as texts, and how targets are read out of them.

use vstd::prelude::*;
use vstd::utf8::{
    decode_utf8, decode_utf8_encode_utf8, encode_utf8, encode_utf8_decode_utf8,
    encode_utf8_valid_utf8, valid_utf8,
};
use crate::address::{Address, SocketAddr, Ssl};
use crate::target::{Kind, Target};
use crate::target_text::{
    network_texts, read_targets, split_target, target_texts, Prefix,
};
use crate::text::{decimal, decimal_text};

verus! {

/// The number that decimal digits stand for.
pub open spec fn number_of_digits(digits: Seq<char>) -> int
    decreases digits.len(),
{
    if digits.len() == 0 {
        0
    } else {
        10 * number_of_digits(digits.drop_last()) + (digits.last() as int - '0' as int)
    }
}

/// The text of a number is made of decimal digits, without a leading zero, and the digits stand for
/// the number.
pub proof fn digits_stand_for_the_number(n: u32, text: String)
    requires
        call_ensures(decimal_text, (n,), text),
    ensures
        text@.len() > 0,
        forall|i: int| 0 <= i < text@.len() ==> '0' <= #[trigger] text@[i] && text@[i] <= '9',
        text@.len() > 1 ==> text@[0] != '0',
        number_of_digits(text@) == n,
{
    digits_of(n as nat);
}

/// The digits of a number are decimal, without a leading zero, and stand for it.
proof fn digits_of(n: nat)
    ensures
        decimal(n).len() > 0,
        forall|i: int| 0 <= i < decimal(n).len() ==> '0' <= #[trigger] decimal(n)[i] && decimal(n)[i]
            <= '9',
        n > 0 ==> decimal(n)[0] != '0',
        decimal(n).len() > 1 ==> decimal(n)[0] != '0',
        number_of_digits(decimal(n)) == n,
    decreases n,
{
    reveal_with_fuel(number_of_digits, 2);
    if n >= 10 {
        digits_of(n / 10);
        assert(decimal(n).drop_last() =~= decimal(n / 10));
    } else {
        assert(decimal(n).drop_last() =~= Seq::<char>::empty());
    }
}

/// Whether a text is that of a target, where the text of the network address of an endpoint is
/// given: a service is told by its name behind `qi:`, an endpoint by its address behind the scheme
/// of its security.
pub open spec fn is_text_of(text: Seq<char>, target: Target, network: Seq<char>) -> bool {
    match target.0 {
        Kind::Service(name) => text == "qi:"@ + name@,
        Kind::Endpoint(Address::Tcp { ssl: None, .. }) => text == "tcp://"@ + network,
        Kind::Endpoint(Address::Tcp { ssl: Some(Ssl::Simple), .. }) => text == "tcps://"@ + network,
        Kind::Endpoint(Address::Tcp { ssl: Some(Ssl::Mutual), .. }) => text == "tcpsm://"@ + network,
    }
}

/// The text of a target tells what it stands for.
pub proof fn text_of_a_target(target: &Target, network: &str, text: String)
    requires
        call_ensures(Target::to_text, (target, network), text),
    ensures
        is_text_of(text@, *target, network@),
{
}

/// The prefixes of targets are `qi:`, `tcp://`, `tcps://` and `tcpsm://`.
pub proof fn texts_of_prefixes(prefix: &Prefix, text: &'static str)
    requires
        call_ensures(Prefix::text, (prefix,), text),
    ensures
        match *prefix {
            Prefix::Service => text@ == "qi:"@,
            Prefix::Endpoint(None) => text@ == "tcp://"@,
            Prefix::Endpoint(Some(Ssl::Simple)) => text@ == "tcps://"@,
            Prefix::Endpoint(Some(Ssl::Mutual)) => text@ == "tcpsm://"@,
        },
{
}

/// Whether a text starts with another one.
pub open spec fn starts_with(text: Seq<char>, start: Seq<char>) -> bool {
    start.len() <= text.len() && forall|i: int| 0 <= i < start.len() ==> #[trigger] text[i] == start[i]
}

/// Whether a text starts with none of the prefixes of targets.
pub open spec fn starts_with_no_prefix(text: Seq<char>) -> bool {
    &&& !starts_with(text, "qi:"@)
    &&& !starts_with(text, "tcp://"@)
    &&& !starts_with(text, "tcps://"@)
    &&& !starts_with(text, "tcpsm://"@)
}

/// A text that starts so has that start.
proof fn start_of(text: Seq<char>, start: Seq<char>)
    ensures
        starts_with(text, start) <==> start.is_prefix_of(text),
{
    if starts_with(text, start) {
        assert(text.subrange(0, start.len() as int) =~= start);
    }
    if start.is_prefix_of(text) {
        assert forall|i: int| 0 <= i < start.len() implies #[trigger] text[i] == start[i] by {
            assert(text.subrange(0, start.len() as int)[i] == text[i]);
        }
    }
}

/// What a text without a prefix does not start with.
proof fn no_prefix(text: Seq<char>)
    ensures
        starts_with_no_prefix(text) <==> crate::target_text::has_no_prefix(text),
{
    start_of(text, "qi:"@);
    start_of(text, "tcp://"@);
    start_of(text, "tcps://"@);
    start_of(text, "tcpsm://"@);
    if crate::target_text::has_no_prefix(text) {
        assert(!Prefix::Service.spec_text().is_prefix_of(text));
        assert(!Prefix::Endpoint(None).spec_text().is_prefix_of(text));
        assert(!Prefix::Endpoint(Some(Ssl::Simple)).spec_text().is_prefix_of(text));
        assert(!Prefix::Endpoint(Some(Ssl::Mutual)).spec_text().is_prefix_of(text));
    }
}

/// The text of a target is parted into its prefix and what follows; a text is not parted only where
/// it starts with none of the prefixes.
pub proof fn texts_are_parted(text: &str, parts: Option<(Prefix, String)>)
    requires
        call_ensures(split_target, (text,), parts),
    ensures
        match parts {
            Some((Prefix::Service, rest)) => text@ == "qi:"@ + rest@,
            Some((Prefix::Endpoint(None), rest)) => text@ == "tcp://"@ + rest@,
            Some((Prefix::Endpoint(Some(Ssl::Simple)), rest)) => text@ == "tcps://"@ + rest@,
            Some((Prefix::Endpoint(Some(Ssl::Mutual)), rest)) => text@ == "tcpsm://"@ + rest@,
            None => starts_with_no_prefix(text@),
        },
{
    no_prefix(text@);
}

/// Whether a target, if there is one, is what a text stands for: a text behind `qi:` for the
/// service of that name, one behind another prefix for the endpoint at the given address with that
/// security. No other text stands for a target, nor one without an address to follow its prefix.
pub open spec fn stands_for(
    text: Seq<char>,
    network: Option<SocketAddr>,
    target: Option<Target>,
) -> bool {
    if starts_with(text, "qi:"@) {
        target matches Some(Target(Kind::Service(name))) && text == "qi:"@ + name@
    } else if starts_with_no_prefix(text) || network is None {
        target is None
    } else {
        target == Some(
            Target(
                Kind::Endpoint(
                    Address::Tcp {
                        address: network->Some_0,
                        ssl: if starts_with(text, "tcp://"@) {
                            None
                        } else if starts_with(text, "tcps://"@) {
                            Some(Ssl::Simple)
                        } else {
                            Some(Ssl::Mutual)
                        },
                    },
                ),
            ),
        )
    }
}

/// No text starts with two prefixes.
proof fn prefixes_differ(text: Seq<char>)
    ensures
        !(starts_with(text, "qi:"@) && starts_with(text, "tcp://"@)),
        !(starts_with(text, "qi:"@) && starts_with(text, "tcps://"@)),
        !(starts_with(text, "qi:"@) && starts_with(text, "tcpsm://"@)),
        !(starts_with(text, "tcp://"@) && starts_with(text, "tcps://"@)),
        !(starts_with(text, "tcp://"@) && starts_with(text, "tcpsm://"@)),
        !(starts_with(text, "tcps://"@) && starts_with(text, "tcpsm://"@)),
{
    reveal_strlit("qi:");
    reveal_strlit("tcp://");
    reveal_strlit("tcps://");
    reveal_strlit("tcpsm://");
    if starts_with(text, "qi:"@) {
        assert(text[0] == 'q');
    }
    if starts_with(text, "tcp://"@) {
        assert(text[0] == 't' && text[3] == ':');
    }
    if starts_with(text, "tcps://"@) {
        assert(text[0] == 't' && text[3] == 's' && text[4] == ':');
    }
    if starts_with(text, "tcpsm://"@) {
        assert(text[0] == 't' && text[3] == 's' && text[4] == 'm');
    }
}

/// What a text is read as is what it stands for.
proof fn reading_is_standing_for(
    text: Seq<char>,
    network: Option<SocketAddr>,
    target: Option<Target>,
)
    requires
        Target::reads(text, network, target),
    ensures
        stands_for(text, network, target),
{
    no_prefix(text);
    prefixes_differ(text);
    start_of(text, "qi:"@);
    start_of(text, "tcp://"@);
    start_of(text, "tcps://"@);
    start_of(text, "tcpsm://"@);
    match target {
        Some(Target(Kind::Service(name))) => {
            assert(starts_with(text, "qi:"@));
        },
        Some(Target(Kind::Endpoint(Address::Tcp { ssl, .. }))) => {
            match ssl {
                None => assert(starts_with(text, "tcp://"@)),
                Some(Ssl::Simple) => assert(starts_with(text, "tcps://"@)),
                Some(Ssl::Mutual) => assert(starts_with(text, "tcpsm://"@)),
            }
        },
        None => {},
    }
}

/// What raw bytes are read as is what they stand for.
pub(crate) proof fn raw_reading(raw: Seq<u8>, network: Option<SocketAddr>, target: Option<Target>)
    requires
        crate::target_text::raw_reads(raw, network, target),
    ensures
        raw_stands_for(raw, network, target),
{
    if valid_utf8(raw) {
        reading_is_standing_for(decode_utf8(raw), network, target);
    }
}

/// Raw bytes that stand for no target are read as none.
pub(crate) proof fn raw_standing(raw: Seq<u8>, network: Option<SocketAddr>)
    requires
        raw_stands_for(raw, network, None),
    ensures
        crate::target_text::raw_reads(raw, network, None),
{
    if valid_utf8(raw) {
        let text = decode_utf8(raw);
        no_prefix(text);
        start_of(text, "qi:"@);
    }
}

/// A target is read out of the text that stands for it.
pub proof fn target_is_read_out_of_its_text(
    text: &str,
    network: Option<SocketAddr>,
    target: Option<Target>,
)
    requires
        call_ensures(Target::from_text, (text, network), target),
    ensures
        stands_for(text@, network, target),
{
    reading_is_standing_for(text@, network, target);
}

/// A target that is rendered and read is the same target, where its network address is given.
pub proof fn rendered_target_is_read_back(
    target: &Target,
    network: &str,
    text: String,
    words: &str,
    address: Option<SocketAddr>,
    read: Option<Target>,
)
    requires
        call_ensures(Target::to_text, (target, network), text),
        words@ == text@,
        target.0 matches Kind::Endpoint(Address::Tcp { address: own, .. }) ==> address == Some(own),
        call_ensures(Target::from_text, (words, address), read),
    ensures
        read is Some,
        match (target.0, read->Some_0.0) {
            (Kind::Service(name), Kind::Service(same)) => same@ == name@,
            (Kind::Endpoint(own), Kind::Endpoint(same)) => same == own,
            _ => false,
        },
{
    crate::target_text::target_read_back(*target, network@, address, read);
}

/// Targets are rendered one by one, with the texts of the network addresses at their places.
pub proof fn texts_of_targets(targets: &Vec<Target>, networks: &Vec<String>, texts: Vec<String>)
    requires
        call_ensures(target_texts, (targets, networks), texts),
    ensures
        texts@.len() == targets@.len(),
        forall|i: int|
            0 <= i < targets@.len() ==> is_text_of(
                (#[trigger] texts@[i])@,
                targets@[i],
                if i < networks@.len() {
                    networks@[i]@
                } else {
                    Seq::empty()
                },
            ),
{
    let told = crate::target_text::texts_of(targets@, networks@);
    assert(texts@.map_values(|text: String| text@).len() == told.len());
    assert forall|i: int| 0 <= i < targets@.len() implies is_text_of(
        (#[trigger] texts@[i])@,
        targets@[i],
        if i < networks@.len() {
            networks@[i]@
        } else {
            Seq::empty()
        },
    ) by {
        assert(texts@.map_values(|text: String| text@)[i] == told[i]);
    }
}

/// The text of the network address in the raw text of a target is what follows the scheme of an
/// endpoint; there is none in the text of a service, in other texts, nor in bytes that are no text.
pub proof fn network_addresses_follow_the_scheme(
    texts: &Vec<Vec<u8>>,
    networks: Vec<Option<String>>,
    i: int,
)
    requires
        call_ensures(network_texts, (texts,), networks),
        0 <= i < texts@.len(),
    ensures
        networks@.len() == texts@.len(),
        networks@[i] matches Some(network) ==> {
            ||| texts@[i]@ == encode_utf8("tcp://"@ + network@)
            ||| texts@[i]@ == encode_utf8("tcps://"@ + network@)
            ||| texts@[i]@ == encode_utf8("tcpsm://"@ + network@)
        },
        networks@[i] is None ==> forall|text: Seq<char>|
            texts@[i]@ == #[trigger] encode_utf8(text) ==> starts_with(text, "qi:"@)
                || starts_with_no_prefix(text),
{
    broadcast use {encode_utf8_valid_utf8, encode_utf8_decode_utf8, decode_utf8_encode_utf8};

    let raw = texts@[i]@;
    assert(crate::target_text::holds_network(
        raw,
        match networks@[i] {
            Some(network) => Some(network@),
            None => None,
        },
    ));
    match networks@[i] {
        Some(network) => {
            let ssl = choose|ssl: Option<Ssl>|
                decode_utf8(raw) == #[trigger] Prefix::Endpoint(ssl).spec_text() + network@;
            assert(encode_utf8(decode_utf8(raw)) == raw);
            match ssl {
                None => {},
                Some(Ssl::Simple) => {},
                Some(Ssl::Mutual) => {},
            }
        },
        None => {
            assert forall|text: Seq<char>| raw == #[trigger] encode_utf8(text) implies starts_with(
                text,
                "qi:"@,
            ) || starts_with_no_prefix(text) by {
                assert(decode_utf8(raw) == text);
                start_of(text, "qi:"@);
                no_prefix(text);
            }
        },
    }
}

/// Targets are read out of raw texts exactly where each of them is a text that stands for a target,
/// each at its place.
pub proof fn targets_are_read_one_by_one(
    texts: &Vec<Vec<u8>>,
    networks: &Vec<Option<SocketAddr>>,
    targets: Option<Vec<Target>>,
)
    requires
        call_ensures(read_targets, (texts, networks), targets),
    ensures
        targets matches Some(list) ==> {
            &&& list@.len() == texts@.len()
            &&& forall|i: int|
                0 <= i < texts@.len() ==> raw_stands_for(
                    texts@[i]@,
                    given_at(networks@, i),
                    Some(#[trigger] list@[i]),
                )
        },
        targets is None ==> exists|i: int|
            0 <= i < texts@.len() && raw_stands_for(
                (#[trigger] texts@[i])@,
                given_at(networks@, i),
                None,
            ),
{
    let raws = crate::wire::raw_strings(texts@);
    assert(raws.len() == texts@.len());
    match targets {
        Some(list) => {
            assert(list@.len() == raws.len());
            assert forall|i: int| 0 <= i < texts@.len() implies raw_stands_for(
                texts@[i]@,
                given_at(networks@, i),
                Some(#[trigger] list@[i]),
            ) by {
                assert(raws[i] == texts@[i]@);
                reading_is_standing_for(
                    decode_utf8(texts@[i]@),
                    given_at(networks@, i),
                    Some(list@[i]),
                );
            }
        },
        None => {
            let i = choose|i: int|
                0 <= i < raws.len() && crate::target_text::raw_reads(
                    #[trigger] raws[i],
                    crate::target_text::network_at(networks@, i),
                    None,
                );
            assert(raws[i] == texts@[i]@);
            if valid_utf8(texts@[i]@) {
                reading_is_standing_for(decode_utf8(texts@[i]@), given_at(networks@, i), None);
            }
        },
    }
}

/// Whether a target, if there is one, is what raw bytes stand for. Bytes that are no text stand for
/// none.
pub open spec fn raw_stands_for(
    raw: Seq<u8>,
    network: Option<SocketAddr>,
    target: Option<Target>,
) -> bool {
    if valid_utf8(raw) {
        stands_for(decode_utf8(raw), network, target)
    } else {
        target is None
    }
}

/// What is given at a place of a list, if anything is.
pub open spec fn given_at(networks: Seq<Option<SocketAddr>>, i: int) -> Option<SocketAddr> {
    if 0 <= i < networks.len() {
        networks[i]
    } else {
        None
    }
}

} // verus!
