//! Peer discovery over multicast name-service TEXT queries and answers.
//!
//! The decisions live here: the rendezvous name, the TEXT fields, what an
//! inbound message asks for. Sockets and timers stay with the caller.

use vstd::prelude::*;

use crate::bytes::{be16, copy_bytes, push_be16, read_be16, u16_from_be};
use crate::crypto::{base64_decode, base64_decoded, base64_encode, base64_of};
use crate::dns::{
    decode_message, dns_answer_of, dns_parts_of, dns_query_bytes, encode_answer, encode_query,
    name_encodable, name_wire,
};

verus! {

/// Milliseconds between two announcing queries.
pub const ANNOUNCE_FREQUENCY: u64 = 1000;

/// Port of the multicast name-service group.
pub const MDNS_PORT: u16 = 5353;

/// The record type of TEXT records.
pub const TXT_RECORD_TYPE: u16 = 16;

/// Time to live of the TEXT record in an answer.
pub const ANSWER_TTL: u32 = 0;

/// The lower-case hexadecimal digit for `v` (below 16).
pub open spec fn hex_digit(v: u8) -> u8 {
    if v < 10 {
        (48 + v) as u8
    } else {
        (87 + v) as u8
    }
}

/// Lower-case hexadecimal text of `b`, two digits per byte, high digit first.
pub open spec fn hex_of(b: Seq<u8>) -> Seq<u8> {
    Seq::new(
        2 * b.len(),
        |i: int|
            if i % 2 == 0 {
                hex_digit(b[i / 2] >> 4u8)
            } else {
                hex_digit(b[i / 2] & 15u8)
            },
    )
}

/// The labels of the rendezvous name for `discovery_key`: the first 40
/// hexadecimal digits of the key, then `chat` and `local`.
pub open spec fn rendezvous_labels(discovery_key: Seq<u8>) -> Seq<Seq<u8>> {
    seq![hex_of(discovery_key.subrange(0, 20)), seq![99u8, 104u8, 97u8, 116u8], seq![108u8, 111u8, 99u8, 97u8, 108u8]]
}

/// The six bytes the `peers` field encodes: four address octets, then the
/// port as two big-endian bytes.
pub open spec fn peers_bytes(addr: Seq<u8>, port: u16) -> Seq<u8> {
    addr + be16(port)
}

/// The address and port that six or more bytes carry.
pub open spec fn peer_of_bytes(b: Seq<u8>) -> (Seq<u8>, u16) {
    (b.subrange(0, 4), u16_from_be(b.subrange(4, 6)))
}

/// What a `peers` field text holds: `None` where it is not base64 of at least six bytes.
pub open spec fn peers_field_value(text: Seq<u8>) -> Option<(Seq<u8>, u16)> {
    match base64_decoded(text) {
        Some(b) => if b.len() >= 6 {
            Some(peer_of_bytes(b))
        } else {
            None
        },
        None => None,
    }
}

/// Lower-case hexadecimal digits of `b`.
pub fn hex_encode(b: &[u8]) -> (r: Vec<u8>)
    requires
        b@.len() <= usize::MAX / 2,
    ensures
        r@ == hex_of(b@),
{
    let mut r: Vec<u8> = Vec::new();
    let mut i: usize = 0;
    while i < b.len()
        invariant
            i <= b@.len() <= usize::MAX / 2,
            r@ =~= hex_of(b@.subrange(0, i as int)),
        decreases b@.len() - i,
    {
        let x: u8 = b[i];
        let hi: u8 = x >> 4u8;
        let lo: u8 = x & 15u8;
        assert(hi < 16 && lo < 16) by (bit_vector)
            requires
                hi == x >> 4u8,
                lo == x & 15u8,
        ;
        r.push(if hi < 10 { 48 + hi } else { 87 + hi });
        r.push(if lo < 10 { 48 + lo } else { 87 + lo });
        i = i + 1;
        assert(r@ =~= hex_of(b@.subrange(0, i as int)));
    }
    assert(b@.subrange(0, i as int) =~= b@);
    r
}

/// A peer found on the network: its address octets, its port and its session token.
pub struct DiscoveryPeer {
    pub addr: [u8; 4],
    pub port: u16,
    pub token: Vec<u8>,
}

impl DiscoveryPeer {
    /// The address octets.
    pub fn addr(&self) -> (r: [u8; 4])
        ensures
            r@ == self.addr@,
    {
        self.addr
    }

    /// The port.
    pub fn port(&self) -> (r: u16)
        ensures
            r == self.port,
    {
        self.port
    }

    /// The session token.
    pub fn token(&self) -> (r: Vec<u8>)
        ensures
            r@ == self.token@,
    {
        self.token.clone()
    }

    /// The `peers` field text for this peer's address and port.
    pub fn encode_peers_field(&self) -> (r: Vec<u8>)
        ensures
            r@ == base64_of(peers_bytes(self.addr@, self.port)),
            r@.len() == 8,
    {
        let mut bytes: Vec<u8> = Vec::new();
        bytes.push(self.addr[0]);
        bytes.push(self.addr[1]);
        bytes.push(self.addr[2]);
        bytes.push(self.addr[3]);
        push_be16(&mut bytes, self.port);
        assert(bytes@ =~= peers_bytes(self.addr@, self.port));
        base64_encode(bytes.as_slice())
    }

    /// The address and port in a `peers` field text; `None` where it is not
    /// base64 of at least six bytes.
    pub fn decode_peers_field(data: &[u8]) -> (r: Option<([u8; 4], u16)>)
        ensures
            r is Some == peers_field_value(data@) is Some,
            r matches Some(v) ==> (v.0@, v.1) == peers_field_value(data@)->0,
            forall|addr: Seq<u8>, port: u16|
                addr.len() == 4 && data@ == #[trigger] base64_of(peers_bytes(addr, port))
                    ==> (r matches Some(v) && v.0@ == addr && v.1 == port),
    {
        match base64_decode(data) {
            Some(b) => {
                if b.len() >= 6 {
                    let addr: [u8; 4] = [b[0], b[1], b[2], b[3]];
                    let port = read_be16(b.as_slice().split_at(4).1);
                    assert(addr@ =~= b@.subrange(0, 4));
                    assert(b@.subrange(4, b@.len() as int).subrange(0, 2) =~= b@.subrange(4, 6));
                    assert forall|a: Seq<u8>, p: u16|
                        a.len() == 4 && data@ == #[trigger] base64_of(peers_bytes(a, p))
                            implies addr@ == a && port == p by {
                        lemma_peers_field_round_trip(a, p);
                    }
                    Some((addr, port))
                } else {
                    None
                }
            },
            None => {
                assert forall|a: Seq<u8>, p: u16|
                    a.len() == 4 && data@ == #[trigger] base64_of(peers_bytes(a, p)) implies false by {
                }
                None
            },
        }
    }
}

/// Reading the bytes of the `peers` field of an address and a port gives them back.
pub proof fn lemma_peers_field_round_trip(addr: Seq<u8>, port: u16)
    requires
        addr.len() == 4,
    ensures
        peers_bytes(addr, port).len() == 6,
        peer_of_bytes(peers_bytes(addr, port)) == (addr, port),
{
    crate::bytes::lemma_be16_round_trip(port);
    let b = peers_bytes(addr, port);
    assert(b.subrange(0, 4) =~= addr);
    assert(b.subrange(4, 6) =~= be16(port));
}

/// `c` with ASCII upper-case letters made lower case.
pub open spec fn ascii_lower(c: u8) -> u8 {
    if 65 <= c <= 90 {
        (c + 32) as u8
    } else {
        c
    }
}

/// Two labels are equal up to ASCII case.
pub open spec fn label_matches(a: Seq<u8>, b: Seq<u8>) -> bool {
    &&& a.len() == b.len()
    &&& forall|j: int| 0 <= j < a.len() ==> #[trigger] ascii_lower(a[j]) == ascii_lower(b[j])
}

/// Two names have the same labels up to ASCII case.
pub open spec fn name_matches(a: Seq<Seq<u8>>, b: Seq<Seq<u8>>) -> bool {
    &&& a.len() == b.len()
    &&& forall|i: int| 0 <= i < a.len() ==> #[trigger] label_matches(a[i], b[i])
}

/// Some queried name matches `name`.
pub open spec fn asks_for(queries: Seq<Seq<Seq<u8>>>, name: Seq<Seq<u8>>) -> bool {
    exists|i: int| 0 <= i < queries.len() && #[trigger] name_matches(queries[i], name)
}

/// The position of the first `=` in `s` at or after `i`, or -1.
pub open spec fn separator_from(s: Seq<u8>, i: int) -> int
    decreases s.len() - i,
{
    if i < 0 || i >= s.len() {
        -1
    } else if s[i] == 61u8 {
        i
    } else {
        separator_from(s, i + 1)
    }
}

/// A TEXT string `key=value` split at its first `=`; `None` without one.
pub open spec fn field_of(s: Seq<u8>) -> Option<(Seq<u8>, Seq<u8>)> {
    let k = separator_from(s, 0);
    if k < 0 {
        None
    } else {
        Some((s.subrange(0, k), s.subrange(k + 1, s.len() as int)))
    }
}

/// The key `token`.
pub open spec fn token_key() -> Seq<u8> {
    seq![116u8, 111u8, 107u8, 101u8, 110u8]
}

/// The key `peers`.
pub open spec fn peers_key() -> Seq<u8> {
    seq![112u8, 101u8, 101u8, 114u8, 115u8]
}

/// The `token` and `peers` fields among `strings`, in order.
pub open spec fn wanted_fields(strings: Seq<Seq<u8>>) -> Seq<(Seq<u8>, Seq<u8>)>
    decreases strings.len(),
{
    if strings.len() == 0 {
        seq![]
    } else {
        let rest = wanted_fields(strings.drop_last());
        match field_of(strings.last()) {
            Some(f) => if f.0 == token_key() || f.0 == peers_key() {
                rest.push(f)
            } else {
                rest
            },
            None => rest,
        }
    }
}

/// The token, address and port that a TEXT record announces: exactly one
/// `token` and one `peers` field, the latter holding an address and a port.
pub open spec fn record_peer(strings: Seq<Seq<u8>>) -> Option<(Seq<u8>, Seq<u8>, u16)> {
    let f = wanted_fields(strings);
    if f.len() == 2 && f[0].0 != f[1].0 {
        let (token, peers) = if f[0].0 == token_key() {
            (f[0].1, f[1].1)
        } else {
            (f[1].1, f[0].1)
        };
        match peers_field_value(peers) {
            Some(v) => Some((token, v.0, v.1)),
            None => None,
        }
    } else {
        None
    }
}

/// The peer of the first record, from position `i` on, that announces one.
pub open spec fn first_peer_from(records: Seq<Seq<Seq<u8>>>, i: int) -> Option<(Seq<u8>, Seq<u8>, u16)>
    decreases records.len() - i,
{
    if i < 0 || i >= records.len() {
        None
    } else {
        match record_peer(records[i]) {
            Some(p) => Some(p),
            None => first_peer_from(records, i + 1),
        }
    }
}

/// Whether `a` and `b` are equal up to ASCII case.
pub fn label_eq_ignore_case(a: &Vec<u8>, b: &Vec<u8>) -> (r: bool)
    ensures
        r == label_matches(a@, b@),
{
    if a.len() != b.len() {
        return false;
    }
    let mut j: usize = 0;
    while j < a.len()
        invariant
            a@.len() == b@.len(),
            j <= a@.len(),
            forall|k: int| 0 <= k < j ==> #[trigger] ascii_lower(a@[k]) == ascii_lower(b@[k]),
        decreases a@.len() - j,
    {
        let x = a[j];
        let y = b[j];
        let lx: u8 = if 65 <= x && x <= 90 { x + 32 } else { x };
        let ly: u8 = if 65 <= y && y <= 90 { y + 32 } else { y };
        if lx != ly {
            assert(ascii_lower(a@[j as int]) != ascii_lower(b@[j as int]));
            return false;
        }
        j = j + 1;
    }
    true
}

/// Whether the names `a` and `b` have the same labels up to ASCII case.
pub fn name_eq_ignore_case(a: &Vec<Vec<u8>>, b: &Vec<Vec<u8>>) -> (r: bool)
    ensures
        r == name_matches(a.deep_view(), b.deep_view()),
{
    if a.len() != b.len() {
        return false;
    }
    let mut i: usize = 0;
    while i < a.len()
        invariant
            a@.len() == b@.len(),
            i <= a@.len(),
            forall|k: int| 0 <= k < i ==> #[trigger] label_matches(a.deep_view()[k], b.deep_view()[k]),
        decreases a@.len() - i,
    {
        assert(a.deep_view()[i as int] =~= a@[i as int]@);
        assert(b.deep_view()[i as int] =~= b@[i as int]@);
        if !label_eq_ignore_case(&a[i], &b[i]) {
            assert(!label_matches(a.deep_view()[i as int], b.deep_view()[i as int]));
            return false;
        }
        i = i + 1;
    }
    true
}

/// Whether some name of `queries` matches `name` up to ASCII case.
pub fn asks_for_name(queries: &Vec<Vec<Vec<u8>>>, name: &Vec<Vec<u8>>) -> (r: bool)
    ensures
        r == asks_for(queries.deep_view(), name.deep_view()),
{
    let mut i: usize = 0;
    while i < queries.len()
        invariant
            i <= queries@.len(),
            forall|k: int| 0 <= k < i ==> !#[trigger] name_matches(queries.deep_view()[k], name.deep_view()),
        decreases queries@.len() - i,
    {
        if name_eq_ignore_case(&queries[i], name) {
            assert(name_matches(queries.deep_view()[i as int], name.deep_view()));
            return true;
        }
        i = i + 1;
    }
    false
}

/// The `key=value` split of `s` at its first `=`.
pub fn split_field(s: &Vec<u8>) -> (r: Option<(Vec<u8>, Vec<u8>)>)
    ensures
        r is Some == field_of(s@) is Some,
        r matches Some(f) ==> (f.0@, f.1@) == field_of(s@)->0,
{
    let mut i: usize = 0;
    while i < s.len()
        invariant
            i <= s@.len(),
            separator_from(s@, 0) == separator_from(s@, i as int),
        decreases s@.len() - i,
    {
        if s[i] == 61u8 {
            let (key, rest) = s.as_slice().split_at(i);
            let (_, value) = rest.split_at(1);
            return Some((copy_bytes(key), copy_bytes(value)));
        }
        i = i + 1;
    }
    None
}

/// Whether `a` and `b` hold the same bytes.
pub fn bytes_equal(a: &[u8], b: &[u8]) -> (r: bool)
    ensures
        r == (a@ == b@),
{
    if a.len() != b.len() {
        return false;
    }
    let mut i: usize = 0;
    while i < a.len()
        invariant
            a@.len() == b@.len(),
            i <= a@.len(),
            forall|k: int| 0 <= k < i ==> a@[k] == b@[k],
        decreases a@.len() - i,
    {
        if a[i] != b[i] {
            return false;
        }
        i = i + 1;
    }
    assert(a@ =~= b@);
    true
}

/// The `token` and `peers` fields of a TEXT record, in order.
fn wanted_fields_of(strings: &Vec<Vec<u8>>) -> (r: Vec<(Vec<u8>, Vec<u8>)>)
    ensures
        r@.len() == wanted_fields(strings.deep_view()).len(),
        forall|k: int|
            0 <= k < r@.len() ==> (#[trigger] r@[k].0@, r@[k].1@) == wanted_fields(
                strings.deep_view(),
            )[k],
{
    let token_name: Vec<u8> = vec![116u8, 111u8, 107u8, 101u8, 110u8];
    let peers_name: Vec<u8> = vec![112u8, 101u8, 101u8, 114u8, 115u8];
    assert(token_name@ =~= token_key());
    assert(peers_name@ =~= peers_key());
    let ghost sv = strings.deep_view();
    let mut fields: Vec<(Vec<u8>, Vec<u8>)> = Vec::new();
    let mut i: usize = 0;
    while i < strings.len()
        invariant
            i <= strings@.len(),
            sv == strings.deep_view(),
            token_name@ == token_key(),
            peers_name@ == peers_key(),
            fields@.len() == wanted_fields(sv.subrange(0, i as int)).len(),
            forall|k: int|
                0 <= k < fields@.len() ==> (#[trigger] fields@[k].0@, fields@[k].1@)
                    == wanted_fields(sv.subrange(0, i as int))[k],
        decreases strings@.len() - i,
    {
        let ghost prefix = sv.subrange(0, i as int + 1);
        assert(prefix.drop_last() =~= sv.subrange(0, i as int));
        assert(prefix.last() =~= strings@[i as int]@);
        match split_field(&strings[i]) {
            Some(f) => {
                if bytes_equal(f.0.as_slice(), token_name.as_slice()) || bytes_equal(
                    f.0.as_slice(),
                    peers_name.as_slice(),
                ) {
                    fields.push(f);
                }
            },
            None => {},
        }
        i = i + 1;
    }
    assert(sv.subrange(0, i as int) =~= sv);
    fields
}

impl DiscoveryPeer {
    /// The peer that a TEXT record announces, if it holds exactly one `token`
    /// and one `peers` field and the latter holds an address and a port.
    pub fn from_record(strings: &Vec<Vec<u8>>) -> (r: Option<DiscoveryPeer>)
        ensures
            r is Some == record_peer(strings.deep_view()) is Some,
            r matches Some(p) ==> (p.token@, p.addr@, p.port) == record_peer(
                strings.deep_view(),
            )->0,
    {
        let fields = wanted_fields_of(strings);
        if fields.len() != 2 || bytes_equal(fields[0].0.as_slice(), fields[1].0.as_slice()) {
            return None;
        }
        let token_name: Vec<u8> = vec![116u8, 111u8, 107u8, 101u8, 110u8];
        assert(token_name@ =~= token_key());
        let (token, peers) = if bytes_equal(fields[0].0.as_slice(), token_name.as_slice()) {
            (&fields[0].1, &fields[1].1)
        } else {
            (&fields[1].1, &fields[0].1)
        };
        match DiscoveryPeer::decode_peers_field(peers.as_slice()) {
            Some((addr, port)) => Some(DiscoveryPeer { addr, port, token: token.clone() }),
            None => None,
        }
    }

    /// The peer of the first TEXT record among `records` that announces one.
    pub fn from_message(records: &Vec<Vec<Vec<u8>>>) -> (r: Option<DiscoveryPeer>)
        ensures
            r is Some == first_peer_from(records.deep_view(), 0) is Some,
            r matches Some(p) ==> (p.token@, p.addr@, p.port) == first_peer_from(
                records.deep_view(),
                0,
            )->0,
    {
        let ghost rv = records.deep_view();
        let mut i: usize = 0;
        while i < records.len()
            invariant
                i <= records@.len(),
                rv == records.deep_view(),
                first_peer_from(rv, 0) == first_peer_from(rv, i as int),
            decreases records@.len() - i,
        {
            assert(rv[i as int] =~= records@[i as int].deep_view());
            match DiscoveryPeer::from_record(&records[i]) {
                Some(p) => {
                    return Some(p);
                },
                None => {},
            }
            i = i + 1;
        }
        None
    }
}

/// What the logic reads of a name-service message: whether it is a response,
/// the labels of each queried name, and the strings of each answer's TEXT
/// data (none for an answer of another type).
pub struct DnsMessage {
    pub is_response: bool,
    pub query_names: Vec<Vec<Vec<u8>>>,
    pub txt_answers: Vec<Vec<Vec<u8>>>,
}

/// What to do with an inbound message.
pub enum Incoming {
    /// Nothing: it is not for this channel, or announces no other peer.
    Ignore,
    /// Multicast this session's TEXT answer.
    Answer,
    /// Report this peer.
    Discovered(DiscoveryPeer),
}

/// The TEXT strings this session answers with: `token=<token>` and
/// `peers=<base64 of address and port>`.
pub open spec fn answer_strings(token: Seq<u8>, addr: Seq<u8>, port: u16) -> Seq<Seq<u8>> {
    seq![token_key() + seq![61u8] + token, peers_key() + seq![61u8] + base64_of(peers_bytes(addr, port))]
}

/// `r` is what a message asks of the session with rendezvous labels `name`
/// and token `token`: the message is a response where `is_response`, queries
/// the names `queries` and answers with the TEXT records `answers`.
pub open spec fn decides(
    r: Incoming,
    name: Seq<Seq<u8>>,
    token: Seq<u8>,
    is_response: bool,
    queries: Seq<Seq<Seq<u8>>>,
    answers: Seq<Seq<Seq<u8>>>,
) -> bool {
    &&& !asks_for(queries, name) ==> r is Ignore
    &&& asks_for(queries, name) && !is_response ==> r is Answer
    &&& asks_for(queries, name) && is_response ==> match first_peer_from(answers, 0) {
        None => r is Ignore,
        Some(p) => if p.0 == token {
            r is Ignore
        } else {
            r matches Incoming::Discovered(q) && (q.token@, q.addr@, q.port) == p
        },
    }
}

/// The discovery state of one session: the rendezvous name's labels and the
/// record this session announces (unspecified address, listening port, token).
pub struct DiscoveryStream {
    pub name: Vec<Vec<u8>>,
    pub peer: DiscoveryPeer,
}

impl DiscoveryStream {
    /// The session for `discovery_key` (at least 20 bytes), announcing `port`
    /// under the session token `token`.
    pub fn new(discovery_key: &[u8], port: u16, token: Vec<u8>) -> (r: Self)
        requires
            discovery_key@.len() >= 20,
        ensures
            r.name.deep_view() == rendezvous_labels(discovery_key@),
            name_encodable(r.name.deep_view()),
            r.peer.addr@ == seq![0u8, 0u8, 0u8, 0u8],
            r.peer.port == port,
            r.peer.token@ == token@,
    {
        let (head, _) = discovery_key.split_at(20);
        assert(head@ =~= discovery_key@.subrange(0, 20));
        let hex = hex_encode(head);
        let chat: Vec<u8> = vec![99u8, 104u8, 97u8, 116u8];
        let local: Vec<u8> = vec![108u8, 111u8, 99u8, 97u8, 108u8];
        let mut name: Vec<Vec<u8>> = Vec::new();
        name.push(hex);
        name.push(chat);
        name.push(local);
        let ghost labels = rendezvous_labels(discovery_key@);
        assert(name.deep_view()[0] =~= labels[0]);
        assert(name.deep_view()[1] =~= labels[1]);
        assert(name.deep_view()[2] =~= labels[2]);
        assert(name.deep_view() =~= labels);
        proof {
            reveal_with_fuel(name_wire, 4);
            assert(labels.drop_first().drop_first().drop_first() =~= Seq::<Seq<u8>>::empty());
            assert(name_wire(labels).len() == 53);
        }
        let r = DiscoveryStream { name, peer: DiscoveryPeer { addr: [0u8, 0u8, 0u8, 0u8], port, token } };
        assert(r.peer.addr@ =~= seq![0u8, 0u8, 0u8, 0u8]);
        r
    }

    /// What an inbound message asks for: nothing unless it queries the
    /// rendezvous name; an answer to a query; to a response, the peer of its
    /// first announcing record, unless that record carries this session's token.
    pub fn handle_message(&self, message: &DnsMessage) -> (r: Incoming)
        ensures
            decides(
                r,
                self.name.deep_view(),
                self.peer.token@,
                message.is_response,
                message.query_names.deep_view(),
                message.txt_answers.deep_view(),
            ),
            r matches Incoming::Discovered(q) ==> q.token@ != self.peer.token@,
    {
        if !asks_for_name(&message.query_names, &self.name) {
            return Incoming::Ignore;
        }
        if !message.is_response {
            return Incoming::Answer;
        }
        match DiscoveryPeer::from_message(&message.txt_answers) {
            Some(p) => {
                if bytes_equal(p.token.as_slice(), self.peer.token.as_slice()) {
                    Incoming::Ignore
                } else {
                    Incoming::Discovered(p)
                }
            },
            None => Incoming::Ignore,
        }
    }
}

/// The parts of the name-service message in `bytes` that the logic reads;
/// `None` where the bytes are not such a message.
pub fn read_message(bytes: &[u8]) -> (r: Option<DnsMessage>)
    ensures
        r is Some == dns_parts_of(bytes@) is Some,
        r matches Some(m) ==> (m.is_response, m.query_names.deep_view(), m.txt_answers.deep_view())
            == dns_parts_of(bytes@)->0,
{
    decode_message(bytes)
}

impl DiscoveryStream {
    /// The query for the TEXT records of the rendezvous name, as wire bytes;
    /// `None` only where the name cannot be encoded.
    pub fn create_mdns_question(&self) -> (r: Option<Vec<u8>>)
        ensures
            r matches Some(b) ==> b@ == dns_query_bytes(self.name.deep_view(), TXT_RECORD_TYPE),
            name_encodable(self.name.deep_view()) ==> r is Some,
    {
        encode_query(&self.name, TXT_RECORD_TYPE)
    }

    /// The response announcing this session, as wire bytes: the rendezvous
    /// question, answered by a TEXT record with `token=<token>` and
    /// `peers=<base64 of address and port>`; `None` only where the name cannot
    /// be encoded or the token is over 249 bytes.
    pub fn create_mdns_answer(&self) -> (r: Option<Vec<u8>>)
        ensures
            r matches Some(b) ==> b@ == dns_answer_of(
                self.name.deep_view(),
                TXT_RECORD_TYPE,
                true,
                ANSWER_TTL,
                answer_strings(self.peer.token@, self.peer.addr@, self.peer.port),
            ),
            name_encodable(self.name.deep_view()) && self.peer.token@.len() <= 249 ==> r is Some,
    {
        let mut token_field: Vec<u8> = vec![116u8, 111u8, 107u8, 101u8, 110u8, 61u8];
        let mut token = self.peer.token.clone();
        token_field.append(&mut token);
        let mut peers_field: Vec<u8> = vec![112u8, 101u8, 101u8, 114u8, 115u8, 61u8];
        let mut peers = self.peer.encode_peers_field();
        peers_field.append(&mut peers);
        let mut strings: Vec<Vec<u8>> = Vec::new();
        strings.push(token_field);
        strings.push(peers_field);
        let ghost expected = answer_strings(self.peer.token@, self.peer.addr@, self.peer.port);
        assert(strings.deep_view()[0] =~= expected[0]);
        assert(strings.deep_view()[1] =~= expected[1]);
        assert(strings.deep_view() =~= expected);
        encode_answer(&self.name, TXT_RECORD_TYPE, true, ANSWER_TTL, &strings)
    }

    /// What the datagram `bytes` asks for: nothing where they are no
    /// name-service message, else what `handle_message` decides on its parts.
    /// A peer carrying this session's token is never reported.
    pub fn handle_incoming_message(&self, bytes: &[u8]) -> (r: Incoming)
        ensures
            dns_parts_of(bytes@) is None ==> r is Ignore,
            dns_parts_of(bytes@) matches Some(p) ==> decides(
                r,
                self.name.deep_view(),
                self.peer.token@,
                p.0,
                p.1,
                p.2,
            ),
            r matches Incoming::Discovered(q) ==> q.token@ != self.peer.token@,
    {
        match read_message(bytes) {
            Some(message) => self.handle_message(&message),
            None => Incoming::Ignore,
        }
    }
}

} // verus!
