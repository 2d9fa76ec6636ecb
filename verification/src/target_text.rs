//! The texts of targets. An endpoint is told by a scheme and the text of a network address, which
//! is not looked into.

use vstd::prelude::*;
use vstd::utf8::{
    decode_utf8, encode_utf8, encode_utf8_decode_utf8, encode_utf8_valid_utf8, valid_utf8,
};
use crate::address::{Address, SocketAddr, Ssl};
use crate::target::{Kind, Target};
use crate::text::from_utf8;
use crate::wire::raw_strings;

verus! {

/// How the text of a target starts.
#[derive(Clone, Copy, PartialEq, Eq, Structural, Debug)]
pub enum Prefix {
    /// The name of a service follows.
    Service,
    /// The text of a network address follows. The connection is secured or not.
    Endpoint(Option<Ssl>),
}

impl Prefix {
    /// The text of the prefix, in contracts.
    pub open spec fn spec_text(self) -> Seq<char> {
        match self {
            Prefix::Service => "qi:"@,
            Prefix::Endpoint(None) => "tcp://"@,
            Prefix::Endpoint(Some(Ssl::Simple)) => "tcps://"@,
            Prefix::Endpoint(Some(Ssl::Mutual)) => "tcpsm://"@,
        }
    }

    /// The text of the prefix.
    pub fn text(&self) -> (text: &'static str)
        ensures
            text@ == self.spec_text(),
    {
        match *self {
            Prefix::Service => "qi:",
            Prefix::Endpoint(None) => "tcp://",
            Prefix::Endpoint(Some(Ssl::Simple)) => "tcps://",
            Prefix::Endpoint(Some(Ssl::Mutual)) => "tcpsm://",
        }
    }

    /// What follows the prefix in a text, if the text starts with it.
    fn strip(&self, text: &str) -> (rest: Option<String>)
        ensures
            match rest {
                Some(rest) => text@ == self.spec_text() + rest@,
                None => !self.spec_text().is_prefix_of(text@),
            },
    {
        let prefix = self.text();
        let length: usize = prefix.unicode_len();
        let all: usize = text.unicode_len();
        if all < length {
            return None;
        }
        let mut i: usize = 0;
        while i < length
            invariant
                i <= length <= all,
                length == prefix@.len(),
                all == text@.len(),
                prefix@ == self.spec_text(),
                forall|j: int| 0 <= j < i ==> prefix@[j] == text@[j],
            decreases length - i,
        {
            if prefix.get_char(i) != text.get_char(i) {
                assert(prefix@[i as int] != text@.subrange(0, length as int)[i as int]);
                return None;
            }
            i += 1;
        }
        let rest = text.substring_char(length, all);
        assert(text@ =~= prefix@ + rest@);
        Some(rest.to_owned())
    }
}

/// No two prefixes start the same text.
proof fn one_prefix(a: Prefix, b: Prefix, text: Seq<char>)
    requires
        a.spec_text().is_prefix_of(text),
        b.spec_text().is_prefix_of(text),
    ensures
        a == b,
{
    reveal_strlit("qi:");
    reveal_strlit("tcp://");
    reveal_strlit("tcps://");
    reveal_strlit("tcpsm://");
    let x = a.spec_text();
    let y = b.spec_text();
    assert(forall|i: int| 0 <= i < x.len() ==> x[i] == text.subrange(0, x.len() as int)[i]);
    assert(forall|i: int| 0 <= i < y.len() ==> y[i] == text.subrange(0, y.len() as int)[i]);
    assert(x[0] == y[0]);
    if x.len() > 4 && y.len() > 4 {
        assert(x[3] == y[3] && x[4] == y[4]);
    }
}

/// A text that starts with a prefix.
proof fn starts_with(prefix: Seq<char>, rest: Seq<char>)
    ensures
        prefix.is_prefix_of(prefix + rest),
{
    assert((prefix + rest).subrange(0, prefix.len() as int) =~= prefix);
}

/// Whether a text is no text of a target.
pub open spec fn has_no_prefix(text: Seq<char>) -> bool {
    forall|prefix: Prefix| !(#[trigger] prefix.spec_text()).is_prefix_of(text)
}

/// Parts the text of a target into its prefix and what follows it.
pub fn split_target(text: &str) -> (parts: Option<(Prefix, String)>)
    ensures
        match parts {
            Some((prefix, rest)) => text@ == prefix.spec_text() + rest@,
            None => has_no_prefix(text@),
        },
{
    if let Some(rest) = Prefix::Service.strip(text) {
        return Some((Prefix::Service, rest));
    }
    if let Some(rest) = Prefix::Endpoint(None).strip(text) {
        return Some((Prefix::Endpoint(None), rest));
    }
    if let Some(rest) = Prefix::Endpoint(Some(Ssl::Simple)).strip(text) {
        return Some((Prefix::Endpoint(Some(Ssl::Simple)), rest));
    }
    if let Some(rest) = Prefix::Endpoint(Some(Ssl::Mutual)).strip(text) {
        return Some((Prefix::Endpoint(Some(Ssl::Mutual)), rest));
    }
    None
}

impl Target {
    /// How the text of the target starts, in contracts.
    pub open spec fn spec_prefix(self) -> Prefix {
        match self.0 {
            Kind::Service(_) => Prefix::Service,
            Kind::Endpoint(Address::Tcp { ssl, .. }) => Prefix::Endpoint(ssl),
        }
    }

    /// The text of the target, in contracts. `network` is the text of the network address of an
    /// endpoint.
    pub open spec fn text(self, network: Seq<char>) -> Seq<char> {
        self.spec_prefix().spec_text() + match self.0 {
            Kind::Service(name) => name@,
            Kind::Endpoint(_) => network,
        }
    }

    /// Renders the target. `network` is the text of the network address of an endpoint.
    pub fn to_text(&self, network: &str) -> (text: String)
        ensures
            text@ == self.text(network@),
    {
        let (prefix, rest): (Prefix, &str) = match &self.0 {
            Kind::Service(name) => (Prefix::Service, name.as_str()),
            Kind::Endpoint(Address::Tcp { ssl, .. }) => (Prefix::Endpoint(*ssl), network),
        };
        let mut text = prefix.text().to_owned();
        text.append(rest);
        text
    }

    /// Whether a target is what a text stands for, in contracts. `network` is what the text stands
    /// for that follows the prefix of an endpoint, if it is the text of a network address.
    pub open spec fn reads(text: Seq<char>, network: Option<SocketAddr>, target: Option<Target>) -> bool {
        match target {
            Some(Target(Kind::Service(name))) => text == Prefix::Service.spec_text() + name@,
            Some(Target(Kind::Endpoint(Address::Tcp { address, ssl }))) => network == Some(address)
                && Prefix::Endpoint(ssl).spec_text().is_prefix_of(text),
            None => !Prefix::Service.spec_text().is_prefix_of(text) && (network is None
                || has_no_prefix(text)),
        }
    }

    /// Reads a target out of its text. `network` is what the text stands for that follows the
    /// prefix of an endpoint, if it is the text of a network address.
    pub fn from_text(text: &str, network: Option<SocketAddr>) -> (target: Option<Target>)
        ensures
            Target::reads(text@, network, target),
    {
        match split_target(text) {
            None => None,
            Some((prefix, rest)) => {
                proof {
                    starts_with(prefix.spec_text(), rest@);
                    if Prefix::Service.spec_text().is_prefix_of(text@) {
                        one_prefix(prefix, Prefix::Service, text@);
                    }
                }
                match prefix {
                    Prefix::Service => Some(Target(Kind::Service(rest))),
                    Prefix::Endpoint(ssl) => match network {
                        Some(address) => Some(Target(Kind::Endpoint(Address::Tcp { address, ssl }))),
                        None => None,
                    },
                }
            },
        }
    }
}

/// A target that is rendered and read back is the same target, where the text of its network
/// address stands for that address.
pub proof fn target_read_back(
    target: Target,
    network: Seq<char>,
    address: Option<SocketAddr>,
    read: Option<Target>,
)
    requires
        match target.0 {
            Kind::Service(_) => true,
            Kind::Endpoint(Address::Tcp { address: a, .. }) => address == Some(a),
        },
        Target::reads(target.text(network), address, read),
    ensures
        match target.0 {
            Kind::Service(name) => read matches Some(Target(Kind::Service(n))) && n@ == name@,
            Kind::Endpoint(_) => read == Some(target),
        },
{
    let text = target.text(network);
    let prefix = target.spec_prefix();
    let rest = match target.0 {
        Kind::Service(name) => name@,
        Kind::Endpoint(_) => network,
    };
    starts_with(prefix.spec_text(), rest);
    assert(prefix.spec_text().is_prefix_of(text));
    match read {
        Some(Target(Kind::Service(n))) => {
            starts_with(Prefix::Service.spec_text(), n@);
            one_prefix(prefix, Prefix::Service, text);
            let length = prefix.spec_text().len() as int;
            assert(text.skip(length) =~= rest);
            assert(text.skip(length) =~= n@);
        },
        Some(Target(Kind::Endpoint(Address::Tcp { ssl, .. }))) => {
            one_prefix(prefix, Prefix::Endpoint(ssl), text);
        },
        None => {},
    }
}

/// The text of the network address of an endpoint of a list, or nothing where none is given.
pub open spec fn text_at(networks: Seq<String>, i: int) -> Seq<char> {
    if 0 <= i < networks.len() {
        networks[i]@
    } else {
        Seq::empty()
    }
}

/// The texts of targets. `networks` are the texts of the network addresses of those that are
/// endpoints, at the same positions.
pub open spec fn texts_of(targets: Seq<Target>, networks: Seq<String>) -> Seq<Seq<char>> {
    Seq::new(targets.len(), |i: int| targets[i].text(text_at(networks, i)))
}

/// Renders targets. `networks` are the texts of the network addresses of those that are endpoints,
/// at the same positions.
pub fn target_texts(targets: &Vec<Target>, networks: &Vec<String>) -> (texts: Vec<String>)
    ensures
        texts@.map_values(|text: String| text@) == texts_of(targets@, networks@),
{
    let mut texts: Vec<String> = Vec::new();
    let mut i: usize = 0;
    while i < targets.len()
        invariant
            i <= targets@.len(),
            texts@.len() == i,
            forall|j: int| 0 <= j < i ==> (#[trigger] texts@[j])@ == targets@[j].text(text_at(networks@, j)),
        decreases targets@.len() - i,
    {
        let text = if i < networks.len() {
            targets[i].to_text(networks[i].as_str())
        } else {
            proof {
                reveal_strlit("");
                assert(""@ =~= Seq::<char>::empty());
            }
            targets[i].to_text("")
        };
        texts.push(text);
        i += 1;
    }
    assert(texts@.map_values(|text: String| text@) =~= texts_of(targets@, networks@));
    texts
}

/// Whether something is the text of the network address in the raw text of a target, which only the
/// text of an endpoint holds.
pub open spec fn holds_network(raw: Seq<u8>, network: Option<Seq<char>>) -> bool {
    match network {
        Some(network) => valid_utf8(raw) && exists|ssl: Option<Ssl>|
            decode_utf8(raw) == #[trigger] Prefix::Endpoint(ssl).spec_text() + network,
        None => valid_utf8(raw) ==> Prefix::Service.spec_text().is_prefix_of(decode_utf8(raw))
            || has_no_prefix(decode_utf8(raw)),
    }
}

/// A copy of raw bytes as text, if they are text.
fn text_of(raw: &Vec<u8>) -> (text: Option<String>)
    ensures
        match text {
            Some(text) => valid_utf8(raw@) && text@ == decode_utf8(raw@),
            None => !valid_utf8(raw@),
        },
{
    let copy = raw.clone();
    assert(copy@ =~= raw@);
    from_utf8(copy)
}

/// The texts of the network addresses that the raw texts of targets hold.
pub fn network_texts(texts: &Vec<Vec<u8>>) -> (networks: Vec<Option<String>>)
    ensures
        networks@.len() == texts@.len(),
        forall|i: int|
            0 <= i < texts@.len() ==> holds_network(
                texts@[i]@,
                match #[trigger] networks@[i] {
                    Some(network) => Some(network@),
                    None => None,
                },
            ),
{
    let mut networks: Vec<Option<String>> = Vec::new();
    let mut i: usize = 0;
    while i < texts.len()
        invariant
            i <= texts@.len(),
            networks@.len() == i,
            forall|j: int|
                0 <= j < i ==> holds_network(
                    texts@[j]@,
                    match #[trigger] networks@[j] {
                        Some(network) => Some(network@),
                        None => None,
                    },
                ),
        decreases texts@.len() - i,
    {
        let network = match text_of(&texts[i]) {
            None => None,
            Some(text) => match split_target(text.as_str()) {
                Some((prefix, rest)) => {
                    proof {
                        starts_with(prefix.spec_text(), rest@);
                    }
                    match prefix {
                        Prefix::Service => None,
                        Prefix::Endpoint(ssl) => {
                            assert(text@ == Prefix::Endpoint(ssl).spec_text() + rest@);
                            Some(rest)
                        },
                    }
                },
                None => None,
            },
        };
        networks.push(network);
        i += 1;
    }
    networks
}

/// The network address of an endpoint of a list, or nothing where none is given.
pub open spec fn network_at(networks: Seq<Option<SocketAddr>>, i: int) -> Option<SocketAddr> {
    if 0 <= i < networks.len() {
        networks[i]
    } else {
        None
    }
}

/// Whether a target is what a raw text stands for, if it stands for any.
pub open spec fn raw_reads(raw: Seq<u8>, network: Option<SocketAddr>, target: Option<Target>) -> bool {
    if valid_utf8(raw) {
        Target::reads(decode_utf8(raw), network, target)
    } else {
        target is None
    }
}

/// Whether targets are what raw texts stand for, if each stands for one. `networks` are what the
/// texts of the network addresses stand for that the texts hold, at the same positions.
pub open spec fn targets_read(
    texts: Seq<Seq<u8>>,
    networks: Seq<Option<SocketAddr>>,
    targets: Option<Seq<Target>>,
) -> bool {
    match targets {
        Some(targets) => targets.len() == texts.len() && forall|i: int|
            0 <= i < texts.len() ==> raw_reads(
                texts[i],
                network_at(networks, i),
                Some(#[trigger] targets[i]),
            ),
        None => exists|i: int|
            0 <= i < texts.len() && raw_reads(#[trigger] texts[i], network_at(networks, i), None),
    }
}

/// Reads targets out of their raw texts, if each stands for one. `networks` are what the texts of
/// the network addresses stand for that the texts hold, at the same positions.
pub fn read_targets(texts: &Vec<Vec<u8>>, networks: &Vec<Option<SocketAddr>>) -> (targets: Option<
    Vec<Target>,
>)
    ensures
        targets_read(
            raw_strings(texts@),
            networks@,
            match targets {
                Some(targets) => Some(targets@),
                None => None,
            },
        ),
{
    let mut targets: Vec<Target> = Vec::new();
    let mut i: usize = 0;
    while i < texts.len()
        invariant
            i <= texts@.len(),
            targets@.len() == i,
            forall|j: int|
                0 <= j < i ==> raw_reads(
                    texts@[j]@,
                    network_at(networks@, j),
                    Some(#[trigger] targets@[j]),
                ),
        decreases texts@.len() - i,
    {
        let network: Option<SocketAddr> = if i < networks.len() {
            networks[i]
        } else {
            None
        };
        let target = match text_of(&texts[i]) {
            Some(text) => Target::from_text(text.as_str(), network),
            None => None,
        };
        match target {
            Some(target) => {
                targets.push(target);
            },
            None => {
                assert(raw_reads(
                    raw_strings(texts@)[i as int],
                    network_at(networks@, i as int),
                    None,
                ));
                return None;
            },
        }
        i += 1;
    }
    Some(targets)
}

/// Texts that stand for targets each do not stand for none.
pub proof fn targets_read_once(
    texts: Seq<Seq<u8>>,
    networks: Seq<Option<SocketAddr>>,
    targets: Seq<Target>,
)
    requires
        targets_read(texts, networks, Some(targets)),
    ensures
        !targets_read(texts, networks, None),
{
    assert forall|i: int| 0 <= i < texts.len() implies !raw_reads(
        #[trigger] texts[i],
        network_at(networks, i),
        None,
    ) by {
        assert(raw_reads(texts[i], network_at(networks, i), Some(targets[i])));
        let text = decode_utf8(texts[i]);
        match targets[i].0 {
            Kind::Service(name) => {
                starts_with(Prefix::Service.spec_text(), name@);
            },
            Kind::Endpoint(_) => {},
        }
    }
}

/// Whether two targets are the same: the same endpoint, or services of the same name.
pub open spec fn same_target(a: Target, b: Target) -> bool {
    match (a.0, b.0) {
        (Kind::Service(a), Kind::Service(b)) => a@ == b@,
        (Kind::Endpoint(a), Kind::Endpoint(b)) => a == b,
        _ => false,
    }
}

/// Whether two lists hold the same targets in the same order.
pub open spec fn same_targets(a: Seq<Target>, b: Seq<Target>) -> bool {
    a.len() == b.len() && forall|i: int| 0 <= i < a.len() ==> same_target(#[trigger] a[i], b[i])
}

/// Whether network addresses are those of the endpoints among targets, at the same positions.
pub open spec fn networks_of(targets: Seq<Target>, networks: Seq<Option<SocketAddr>>) -> bool {
    forall|i: int|
        0 <= i < targets.len() ==> match (#[trigger] targets[i]).0 {
            Kind::Service(_) => true,
            Kind::Endpoint(Address::Tcp { address, .. }) => network_at(networks, i) == Some(address),
        }
}

/// The raw bytes of each text of a list.
pub open spec fn encoded(texts: Seq<Seq<char>>) -> Seq<Seq<u8>> {
    texts.map_values(|text: Seq<char>| encode_utf8(text))
}

/// Targets that are rendered and read back are the same targets, where the texts of their network
/// addresses stand for those addresses.
pub proof fn targets_read_back(
    targets: Seq<Target>,
    networks: Seq<String>,
    addresses: Seq<Option<SocketAddr>>,
    read: Option<Seq<Target>>,
)
    requires
        networks_of(targets, addresses),
        targets_read(encoded(texts_of(targets, networks)), addresses, read),
    ensures
        read is Some,
        same_targets(read->Some_0, targets),
{
    broadcast use {encode_utf8_valid_utf8, encode_utf8_decode_utf8};

    let texts = encoded(texts_of(targets, networks));
    assert forall|i: int, target: Option<Target>|
        0 <= i < targets.len() && raw_reads(texts[i], network_at(addresses, i), target) implies target
        is Some && same_target(target->Some_0, targets[i]) by {
        let network = text_at(networks, i);
        assert(texts[i] == encode_utf8(targets[i].text(network)));
        target_read_back(targets[i], network, network_at(addresses, i), target);
    }
    match read {
        Some(list) => {
            assert forall|i: int| 0 <= i < list.len() implies same_target(#[trigger] list[i], targets[i]) by {
                assert(raw_reads(texts[i], network_at(addresses, i), Some(list[i])));
            }
        },
        None => {},
    }
}

} // verus!
