//! The attributes of a uProtocol message as plain values, the checks that a message goes
//! through before it is sent, and the parts of it that the conversion to SOME/IP reads.

use crate::determinations::RegistrationType;
use crate::message_conversions::{UMessageParts, UMessageType};
use crate::rpc_correlation::UProtocolReqId;
use crate::status::StatusCode;
use crate::transport::{check_send, spec_check_send};
use crate::uri::{opt_uri_view, Uri, UriView};
use protobuf::EnumOrUnknown;
use up_rust::{UAttributes, UAttributesValidators, UUri, UUID};
use vstd::prelude::*;

verus! {

/// The attributes of a uProtocol message that the transport and the attribute validator
/// read, field by field. Enumerations are held by their protobuf numbers, so that a number
/// that no variant stands for is kept; a UUID is held as its most and least significant
/// halves.
pub struct UAttributesValues {
    pub id: Option<(u64, u64)>,
    pub type_code: i32,
    pub source: Option<Uri>,
    pub sink: Option<Uri>,
    pub priority: i32,
    pub ttl: Option<u32>,
    pub commstatus: Option<i32>,
    pub reqid: Option<(u64, u64)>,
}

/// The value of `UAttributesValues`, with URIs by their views.
pub struct UAttributesValuesView {
    pub id: Option<(u64, u64)>,
    pub type_code: i32,
    pub source: Option<UriView>,
    pub sink: Option<UriView>,
    pub priority: i32,
    pub ttl: Option<u32>,
    pub commstatus: Option<i32>,
    pub reqid: Option<(u64, u64)>,
}

impl View for UAttributesValues {
    type V = UAttributesValuesView;

    open spec fn view(&self) -> UAttributesValuesView {
        UAttributesValuesView {
            id: self.id,
            type_code: self.type_code,
            source: opt_uri_view(self.source),
            sink: opt_uri_view(self.sink),
            priority: self.priority,
            ttl: self.ttl,
            commstatus: self.commstatus,
            reqid: self.reqid,
        }
    }
}

/// up_rust's `UUID::is_uprotocol_uuid` of a UUID given by its most and least significant
/// halves: version 7 in the high half, the RFC 4122 variant in the low half.
pub open spec fn is_uprotocol_uuid(id: (u64, u64)) -> bool {
    &&& id.0 & 0xF000 == 0x7000
    &&& id.1 & 0xC000_0000_0000_0000 == 0x8000_0000_0000_0000
}

/// Whether up_rust's attribute validator for the attributes' message type accepts them.
pub uninterp spec fn validator_accepts(attributes: UAttributesValuesView) -> bool;

/// Runs up_rust's `UAttributesValidators::get_validator_for_attributes(..).validate(..)` on
/// `UAttributes` built from the values (the fields that the values leave out at their
/// defaults). The validators read only the fields that the values hold, so the verdict is a
/// function of the values, named `validator_accepts`; which values it accepts is not stated.
#[verifier::external_body]
fn validate_attributes(v: &UAttributesValues) -> (valid: bool)
    ensures
        valid == validator_accepts(v@),
{
    let uuri = |Uri { authority_name, ue_id, ue_version_major, resource_id }| UUri {
        authority_name, ue_id, ue_version_major, resource_id, ..Default::default() };
    let uuid = |(msb, lsb)| UUID { msb, lsb, ..Default::default() };
    let a = UAttributes {
        id: v.id.map(uuid).into(),
        type_: EnumOrUnknown::from_i32(v.type_code),
        source: v.source.clone().map(uuri).into(),
        sink: v.sink.clone().map(uuri).into(),
        priority: EnumOrUnknown::from_i32(v.priority),
        ttl: v.ttl,
        commstatus: v.commstatus.map(EnumOrUnknown::from_i32),
        reqid: v.reqid.map(uuid).into(),
        ..Default::default()
    };
    UAttributesValidators::get_validator_for_attributes(&a).validate(&a).is_ok()
}

/// The message type that a protobuf number stands for; `None` for a number that no variant
/// stands for.
pub open spec fn message_type_of(code: i32) -> Option<UMessageType> {
    if code == 0 {
        Some(UMessageType::Unspecified)
    } else if code == 1 {
        Some(UMessageType::Publish)
    } else if code == 2 {
        Some(UMessageType::Request)
    } else if code == 3 {
        Some(UMessageType::Response)
    } else if code == 4 {
        Some(UMessageType::Notification)
    } else {
        None
    }
}

/// The message type that a protobuf number stands for.
pub fn message_type(code: i32) -> (t: Option<UMessageType>)
    ensures
        t == message_type_of(code),
{
    if code == 0 {
        Some(UMessageType::Unspecified)
    } else if code == 1 {
        Some(UMessageType::Publish)
    } else if code == 2 {
        Some(UMessageType::Request)
    } else if code == 3 {
        Some(UMessageType::Response)
    } else if code == 4 {
        Some(UMessageType::Notification)
    } else {
        None
    }
}

/// A UUID's two halves as one 128-bit number, the most significant half high.
pub open spec fn uuid_number(halves: (u64, u64)) -> UProtocolReqId {
    (halves.0 as nat * 0x1_0000_0000_0000_0000 + halves.1 as nat) as UProtocolReqId
}

/// A UUID's two halves as one 128-bit number.
pub fn uuid_to_number(halves: (u64, u64)) -> (n: UProtocolReqId)
    ensures
        n == uuid_number(halves),
        n as nat == halves.0 as nat * 0x1_0000_0000_0000_0000 + halves.1 as nat,
{
    let (msb, lsb) = halves;
    assert(msb as u128 * 0x1_0000_0000_0000_0000 + lsb as u128 <= u128::MAX) by (nonlinear_arith)
        requires
            msb <= u64::MAX,
            lsb <= u64::MAX,
    ;
    msb as u128 * 0x1_0000_0000_0000_0000 + lsb as u128
}

/// The optional UUID of a field as a number.
pub open spec fn opt_uuid_number(id: Option<(u64, u64)>) -> Option<UProtocolReqId> {
    match id {
        Some(halves) => Some(uuid_number(halves)),
        None => None,
    }
}

fn opt_uuid_to_number(id: Option<(u64, u64)>) -> (n: Option<UProtocolReqId>)
    ensures
        n == opt_uuid_number(id),
{
    match id {
        Some(halves) => Some(uuid_to_number(halves)),
        None => None,
    }
}

fn clone_opt_uri(u: &Option<Uri>) -> (c: Option<Uri>)
    ensures
        opt_uri_view(c) == opt_uri_view(*u),
{
    match u {
        Some(x) => Some(x.clone_uri()),
        None => None,
    }
}

/// Whether `parts` are the parts of a message with these attributes that the conversion to
/// SOME/IP reads: a type number that no variant stands for reads as `Unspecified`.
pub open spec fn parts_of_attributes(parts: UMessageParts, attributes: UAttributesValuesView) -> bool {
    &&& parts.message_type == (match message_type_of(attributes.type_code) {
        Some(t) => t,
        None => UMessageType::Unspecified,
    })
    &&& opt_uri_view(parts.source) == attributes.source
    &&& opt_uri_view(parts.sink) == attributes.sink
    &&& parts.id == opt_uuid_number(attributes.id)
    &&& parts.reqid == opt_uuid_number(attributes.reqid)
    &&& parts.commstatus == attributes.commstatus
}

/// The parts of a message that the conversion to SOME/IP reads: a type number that no
/// variant stands for reads as `Unspecified`.
pub fn umessage_parts(attributes: &UAttributesValues) -> (parts: UMessageParts)
    ensures
        parts_of_attributes(parts, attributes@),
        parts.message_type == (match message_type_of(attributes.type_code) {
            Some(t) => t,
            None => UMessageType::Unspecified,
        }),
        opt_uri_view(parts.source) == attributes@.source,
        opt_uri_view(parts.sink) == attributes@.sink,
        parts.id == opt_uuid_number(attributes.id),
        parts.reqid == opt_uuid_number(attributes.reqid),
        parts.commstatus == attributes.commstatus,
{
    let message_type = match message_type(attributes.type_code) {
        Some(t) => t,
        None => UMessageType::Unspecified,
    };
    UMessageParts {
        message_type,
        source: clone_opt_uri(&attributes.source),
        sink: clone_opt_uri(&attributes.sink),
        id: opt_uuid_to_number(attributes.id),
        reqid: opt_uuid_to_number(attributes.reqid),
        commstatus: attributes.commstatus,
    }
}

/// What the checks before sending give for a message with these attributes, or without any.
pub open spec fn spec_send_checks(attributes: Option<UAttributesValuesView>) -> Result<RegistrationType, StatusCode> {
    match attributes {
        None => Err(StatusCode::INVALID_ARGUMENT),
        Some(a) => spec_check_send(true, message_type_of(a.type_code), validator_accepts(a), a.source, a.sink),
    }
}

/// Checks a message's attributes before it is sent, the attribute validator among the
/// checks, and tells which kind of message it is: see `spec_check_send`.
pub fn send_checks(attributes: &Option<UAttributesValues>) -> (r: Result<RegistrationType, StatusCode>)
    ensures
        r == spec_send_checks(match attributes {
            Some(a) => Some(a@),
            None => None,
        }),
{
    match attributes {
        None => check_send(false, None, false, &None, &None),
        Some(a) => {
            let t = message_type(a.type_code);
            let valid = match t {
                Some(UMessageType::Publish) | Some(UMessageType::Request) | Some(UMessageType::Response) => {
                    validate_attributes(a)
                },
                _ => false,
            };
            check_send(true, t, valid, &a.source, &a.sink)
        },
    }
}

} // verus!
