//! The sample protocol message that the worker builds natively and hands across
//! the boundary as bytes.
use vstd::prelude::*;
use crate::failure::Failure;
use bytes::Bytes;
use protobuf::EnumOrUnknown;
use up_rust::{UAttributes, UMessage, UMessageType, UUri, UUID};

verus! {

/// The identifier that the sample listener proxy is constructed with.
pub const SAMPLE_LISTENER_ID: u64 = 123;

/// A topic address: the entity that publishes and the resource it publishes on.
/// The names are for people; the protocol's address carries the ids and the version.
#[derive(Clone, Debug, PartialEq, Eq)]
pub struct TopicAddress {
    pub entity_name: String,
    pub entity_id: u32,
    pub entity_version: u32,
    pub resource_name: String,
    pub resource_id: u32,
}

/// A message identifier as its two halves.
#[derive(Clone, Copy, Debug, PartialEq, Eq, Structural)]
pub struct MessageId {
    pub msb: u64,
    pub lsb: u64,
}

/// How a payload is to be read.
#[derive(Clone, Copy, Debug, PartialEq, Eq, Structural)]
pub enum PayloadFormat {
    Unspecified,
    ProtobufWrappedInAny,
    Protobuf,
    Json,
    SomeIp,
    SomeIpTlv,
    Raw,
    Text,
    SharedMemory,
}

/// A publish message before it is built: where it goes, its id and its payload.
#[derive(Clone, Debug, PartialEq, Eq)]
pub struct OutboundMessage {
    pub topic: TopicAddress,
    pub id: MessageId,
    pub payload: Vec<u8>,
    pub format: PayloadFormat,
}

/// Whether a topic is the sample one: entity `client.rust`, id 1, version 1,
/// resource `VeryCoolResource`, id 1.
pub open spec fn is_sample_topic(t: TopicAddress) -> bool {
    &&& t.entity_name@ == "client.rust"@
    &&& t.entity_id == 1
    &&& t.entity_version == 1
    &&& t.resource_name@ == "VeryCoolResource"@
    &&& t.resource_id == 1
}

/// The topic of the sample message.
pub fn sample_topic() -> (r: TopicAddress)
    ensures
        is_sample_topic(r),
{
    TopicAddress {
        entity_name: String::from_str("client.rust"),
        entity_id: 1,
        entity_version: 1,
        resource_name: String::from_str("VeryCoolResource"),
        resource_id: 1,
    }
}

/// The sample message: the sample topic, the given id, the payload 1, 2, 3, 4 as raw bytes.
pub fn sample_message(id: MessageId) -> (r: OutboundMessage)
    ensures
        is_sample_topic(r.topic),
        r.id == id,
        r.payload@ == seq![1u8, 2, 3, 4],
        r.format == PayloadFormat::Raw,
{
    let payload: Vec<u8> = vec![1, 2, 3, 4];
    assert(payload@ =~= seq![1u8, 2, 3, 4]);
    OutboundMessage { topic: sample_topic(), id, payload, format: PayloadFormat::Raw }
}

/// The number that the protocol gives each payload format.
pub open spec fn format_number(f: PayloadFormat) -> u32 {
    match f {
        PayloadFormat::Unspecified => 0,
        PayloadFormat::ProtobufWrappedInAny => 1,
        PayloadFormat::Protobuf => 2,
        PayloadFormat::Json => 3,
        PayloadFormat::SomeIp => 4,
        PayloadFormat::SomeIpTlv => 5,
        PayloadFormat::Raw => 6,
        PayloadFormat::Text => 7,
        PayloadFormat::SharedMemory => 8,
    }
}

/// The protobuf encoding of the publish message whose source has these ids
/// and version, whose id has these halves, and which carries this payload in
/// the format of this number.
pub uninterp spec fn publish_bytes_of(
    entity_id: u32,
    entity_version: u32,
    resource_id: u32,
    msb: u64,
    lsb: u64,
    payload: Seq<u8>,
    format: u32,
) -> Seq<u8>;

/// The encoding of a message.
pub open spec fn encoding_of(m: OutboundMessage) -> Seq<u8> {
    publish_bytes_of(
        m.topic.entity_id,
        m.topic.entity_version,
        m.topic.resource_id,
        m.id.msb,
        m.id.lsb,
        m.payload@,
        format_number(m.format),
    )
}

#[verifier::external_type_specification]
#[verifier::external_body]
pub struct ExProtobufError(protobuf::Error);

/// Relies on protobuf's `Message::write_to_bytes` on a `UMessage` whose
/// attributes are filled as up_rust's publish builder fills them (type publish,
/// id, source, payload format), without the builder's demand that the source
/// be an event resource (id 0x8000 or more). Writing fails only on a message
/// that is not initialized, and a proto3 message always is (it has no required
/// fields); writing into a `Vec` never fails.
#[verifier::external_body]
fn publish_bytes(
    entity_id: u32,
    entity_version: u32,
    resource_id: u32,
    msb: u64,
    lsb: u64,
    payload: &Vec<u8>,
    format: u32,
) -> (r: Result<Vec<u8>, protobuf::Error>)
    ensures
        r is Ok,
        r is Ok ==> r->Ok_0@ == publish_bytes_of(
            entity_id, entity_version, resource_id, msb, lsb, payload@, format,
        ),
{
    let source = UUri { ue_id: entity_id, ue_version_major: entity_version, resource_id, ..Default::default() };
    let attributes = UAttributes {
        type_: UMessageType::UMESSAGE_TYPE_PUBLISH.into(),
        id: Some(UUID { msb, lsb, ..Default::default() }).into(),
        source: Some(source).into(),
        payload_format: EnumOrUnknown::from_i32(format as i32),
        ..Default::default()
    };
    let payload = Some(Bytes::from(payload.clone()));
    let message = UMessage { attributes: Some(attributes).into(), payload, ..Default::default() };
    protobuf::Message::write_to_bytes(&message)
}

/// The number of a payload format.
pub fn format_code(f: PayloadFormat) -> (r: u32)
    ensures
        r == format_number(f),
{
    match f {
        PayloadFormat::Unspecified => 0,
        PayloadFormat::ProtobufWrappedInAny => 1,
        PayloadFormat::Protobuf => 2,
        PayloadFormat::Json => 3,
        PayloadFormat::SomeIp => 4,
        PayloadFormat::SomeIpTlv => 5,
        PayloadFormat::Raw => 6,
        PayloadFormat::Text => 7,
        PayloadFormat::SharedMemory => 8,
    }
}

/// Builds the publish message and writes it to bytes: its source is the
/// topic's ids and version, and it carries the id, the payload and its format.
pub fn encode_message(m: &OutboundMessage) -> (r: Result<Vec<u8>, Failure>)
    ensures
        r is Ok,
        r is Ok ==> r->Ok_0@ == encoding_of(*m),
{
    let t = &m.topic;
    let format = format_code(m.format);
    match publish_bytes(t.entity_id, t.entity_version, t.resource_id, m.id.msb, m.id.lsb, &m.payload, format) {
        Ok(bytes) => Ok(bytes),
        Err(_) => Err(Failure::Serialization),
    }
}

/// Builds the sample message under the given id and writes it to bytes.
pub fn encode_sample(id: MessageId) -> (r: Result<Vec<u8>, Failure>)
    ensures
        r is Ok,
        r is Ok ==> r->Ok_0@ == sample_encoding(id),
{
    let m = sample_message(id);
    let r = encode_message(&m);
    proof {
        assert(m.payload@ =~= seq![1u8, 2, 3, 4]);
        assert(encoding_of(m) == sample_encoding(id));
    }
    r
}

/// The encoding of the sample message under an id: source entity 1, version 1,
/// resource 1, payload 1, 2, 3, 4 in the raw format.
pub open spec fn sample_encoding(id: MessageId) -> Seq<u8> {
    publish_bytes_of(1, 1, 1, id.msb, id.lsb, seq![1u8, 2, 3, 4], 6)
}

} // verus!
