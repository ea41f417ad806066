//! The name-service wire format, through trust-dns-proto.

use vstd::prelude::*;

use crate::bytes::be16;
use crate::discovery::DnsMessage;

use trust_dns_proto::op::{Message, MessageType, Query};
use trust_dns_proto::rr::rdata::TXT;
use trust_dns_proto::rr::{Name, RData, Record, RecordType};

verus! {

/// The wire form of a name: each label after its length byte, then a zero byte.
pub open spec fn name_wire(labels: Seq<Seq<u8>>) -> Seq<u8>
    decreases labels.len(),
{
    if labels.len() == 0 {
        seq![0u8]
    } else {
        seq![labels[0].len() as u8] + labels[0] + name_wire(labels.drop_first())
    }
}

/// A name the wire format takes: labels of 1 to 63 bytes, at most 255 bytes in all.
pub open spec fn name_encodable(labels: Seq<Seq<u8>>) -> bool {
    &&& forall|i: int| 0 <= i < labels.len() ==> 1 <= #[trigger] labels[i].len() <= 63
    &&& name_wire(labels).len() <= 255
}

/// A query message with id 0, no flags set and one question: the name with
/// labels `name`, of type `record_type`, class IN (1).
pub open spec fn dns_query_bytes(name: Seq<Seq<u8>>, record_type: u16) -> Seq<u8> {
    seq![0u8, 0u8, 0u8, 0u8, 0u8, 1u8, 0u8, 0u8, 0u8, 0u8, 0u8, 0u8] + name_wire(name) + be16(
        record_type,
    ) + seq![0u8, 1u8]
}

/// The wire bytes of a message (a response where `is_response`) with id 0 and
/// one question, the name with labels `name` of type `record_type`, answered
/// by one TEXT record of that name with time to live `ttl` holding `strings`.
pub uninterp spec fn dns_answer_of(
    name: Seq<Seq<u8>>,
    record_type: u16,
    is_response: bool,
    ttl: u32,
    strings: Seq<Seq<u8>>,
) -> Seq<u8>;

/// The parts of the name-service message that `bytes` hold: whether it is a
/// response, the labels of each queried name, and the strings of each
/// answer's TEXT data (none for another answer); `None` where the bytes are
/// not such a message.
pub uninterp spec fn dns_parts_of(bytes: Seq<u8>) -> Option<(bool, Seq<Seq<Seq<u8>>>, Seq<Seq<Seq<u8>>>)>;

/// Relies on trust_dns_proto's `Name::from_labels` (labels of 1 to 63 bytes),
/// `Query::query` (class IN), `Message::new` (id 0, no flags),
/// `Message::add_query` and `Message::to_vec` (a name of at most 255 bytes).
#[verifier::external_body]
pub(crate) fn encode_query(name: &Vec<Vec<u8>>, record_type: u16) -> (r: Option<Vec<u8>>)
    ensures
        r matches Some(b) ==> b@ == dns_query_bytes(name.deep_view(), record_type),
        name_encodable(name.deep_view()) ==> r is Some,
{
    let name = Name::from_labels(name.iter().map(|l| l.as_slice())).ok()?;
    let mut message = Message::new();
    message.add_query(Query::query(name, RecordType::from(record_type)));
    message.to_vec().ok()
}

/// Relies on trust_dns_proto's `Name::from_labels`, `TXT::from_bytes`,
/// `Record::from_rdata`, `Message::set_message_type`, `Message::add_answer`
/// and `Message::to_vec`, which refuses a name over 255 bytes, a string over
/// 255 bytes, or a message over 65535 bytes.
#[verifier::external_body]
pub(crate) fn encode_answer(
    name: &Vec<Vec<u8>>,
    record_type: u16,
    is_response: bool,
    ttl: u32,
    strings: &Vec<Vec<u8>>,
) -> (r: Option<Vec<u8>>)
    ensures
        r matches Some(b) ==> b@ == dns_answer_of(name.deep_view(), record_type, is_response, ttl, strings.deep_view()),
        name_encodable(name.deep_view()) && strings@.len() <= 128 && (forall|i: int|
            0 <= i < strings@.len() ==> #[trigger] strings@[i]@.len() <= 255) ==> r is Some,
{
    let name = Name::from_labels(name.iter().map(|l| l.as_slice())).ok()?;
    let txt = TXT::from_bytes(strings.iter().map(|s| s.as_slice()).collect());
    let mut message = Message::new();
    message.add_query(Query::query(name.clone(), RecordType::from(record_type)));
    message.set_message_type(if is_response { MessageType::Response } else { MessageType::Query });
    message.add_answer(Record::from_rdata(name, ttl, RData::TXT(txt)));
    message.to_vec().ok()
}

/// Relies on trust_dns_proto's `Message::from_vec`, `message_type`, `queries`
/// with `Name::iter`, and `answers` with `Record::data` and `TXT::iter`.
#[verifier::external_body]
pub(crate) fn decode_message(bytes: &[u8]) -> (r: Option<DnsMessage>)
    ensures
        r is Some == dns_parts_of(bytes@) is Some,
        r matches Some(m) ==> (m.is_response, m.query_names.deep_view(), m.txt_answers.deep_view())
            == dns_parts_of(bytes@)->0,
{
    let m = Message::from_vec(bytes).ok()?;
    let is_response = matches!(m.message_type(), MessageType::Response);
    let query_names = m.queries().iter().map(|q| q.name().iter().map(|l| l.to_vec()).collect());
    let txt_answers = m.answers().iter().map(|a| match a.data() {
        Some(RData::TXT(txt)) => txt.iter().map(|d| d.to_vec()).collect(),
        _ => Vec::new(),
    });
    Some(DnsMessage { is_response, query_names: query_names.collect(), txt_answers: txt_answers.collect() })
}

} // verus!
