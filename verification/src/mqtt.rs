//! The MQTT log parser, for version 3.1.1 of the protocol.
//!
//! A packet begins with a fixed header: one byte with the type of the packet
//! in its high half and flags in its low half, then the remaining length in
//! one to four bytes of seven bits each, least significant first, where the
//! high bit of a byte says that another byte follows.

use vstd::prelude::*;
use vstd::utf8::{decode_utf8, valid_utf8};
use crate::bytes::{be16, read_u16_be};
use crate::enums::{IpProtocol, PacketDirection};
use crate::error::Error;
use crate::flow::L7Protocol;
use crate::meta_packet::{slice_subrange, MetaPacket};
use crate::outside::string_from_utf8;
use crate::protocol_logs::{
    AppProtoHead, AppProtoHeadEnum, AppProtoLogsBaseInfo, AppProtoLogsData, AppProtoLogsInfo,
    AppProtoLogsInfoEnum, L7LogParse, L7ResponseStatus, LogMessageType,
};

verus! {

/// How surely a message is delivered.
#[derive(Clone, Copy, Debug, PartialEq, Eq, Structural)]
pub enum QualityOfService {
    AtMostOnce,
    AtLeastOnce,
    ExactlyOnce,
}

impl QualityOfService {
    pub open spec fn spec_code(self) -> i32 {
        match self {
            QualityOfService::AtMostOnce => 0,
            QualityOfService::AtLeastOnce => 1,
            QualityOfService::ExactlyOnce => 2,
        }
    }

    pub fn code(self) -> (r: i32)
        ensures
            r == self.spec_code(),
    {
        match self {
            QualityOfService::AtMostOnce => 0,
            QualityOfService::AtLeastOnce => 1,
            QualityOfService::ExactlyOnce => 2,
        }
    }
}

impl Default for QualityOfService {
    fn default() -> (r: Self)
        ensures
            r == QualityOfService::AtMostOnce,
    {
        QualityOfService::AtMostOnce
    }
}

/// The quality of service with code `lower`, if it is one.
pub open spec fn quality_of(lower: u8) -> Option<QualityOfService> {
    if lower == 0 {
        Some(QualityOfService::AtMostOnce)
    } else if lower == 1 {
        Some(QualityOfService::AtLeastOnce)
    } else if lower == 2 {
        Some(QualityOfService::ExactlyOnce)
    } else {
        None
    }
}

/// The quality of service with code `lower`, or the code back where it is none.
pub fn mqtt_quality_of_service(lower: u8) -> (r: Result<QualityOfService, u8>)
    ensures
        match r {
            Ok(q) => quality_of(lower) == Some(q),
            Err(v) => quality_of(lower) is None && v == lower,
        },
{
    if lower == 0 {
        Ok(QualityOfService::AtMostOnce)
    } else if lower == 1 {
        Ok(QualityOfService::AtLeastOnce)
    } else if lower == 2 {
        Ok(QualityOfService::ExactlyOnce)
    } else {
        Err(lower)
    }
}

/// The kinds of MQTT packets.
#[derive(Clone, Copy, Debug, PartialEq, Eq, Structural)]
pub enum PacketKind {
    Connect,
    Connack,
    Publish { dup: bool, qos: QualityOfService, retain: bool },
    Puback,
    Pubrec,
    Pubrel,
    Pubcomp,
    Subscribe,
    Suback,
    Unsubscribe,
    Unsuback,
    Pingreq,
    Pingresp,
    Disconnect,
}

impl Default for PacketKind {
    fn default() -> (r: Self)
        ensures
            r == PacketKind::Disconnect,
    {
        PacketKind::Disconnect
    }
}

/// The fixed header of a packet.
#[derive(Clone, Copy, Debug, PartialEq, Eq, Structural)]
pub struct PacketHeader {
    pub kind: PacketKind,
    pub remaining_length: i32,
}

/// The kind of the packet whose first byte has the type `upper` in its high
/// half and the flags `lower` in its low half. All kinds but one fix their
/// flags: `0010` for a release, a subscription and an unsubscription, `0000`
/// for the others. The flags of a publication are its duplicate flag, its
/// quality of service, which is not 3, and its retain flag.
pub open spec fn packet_kind_of(upper: u8, lower: u8) -> Option<PacketKind> {
    if upper == 3 {
        match quality_of(lower / 2 % 4) {
            None => None,
            Some(qos) => Some(
                PacketKind::Publish { dup: lower / 8 % 2 == 1, qos: qos, retain: lower % 2 == 1 },
            ),
        }
    } else if upper == 1 && lower == 0 {
        Some(PacketKind::Connect)
    } else if upper == 2 && lower == 0 {
        Some(PacketKind::Connack)
    } else if upper == 4 && lower == 0 {
        Some(PacketKind::Puback)
    } else if upper == 5 && lower == 0 {
        Some(PacketKind::Pubrec)
    } else if upper == 6 && lower == 2 {
        Some(PacketKind::Pubrel)
    } else if upper == 7 && lower == 0 {
        Some(PacketKind::Pubcomp)
    } else if upper == 8 && lower == 2 {
        Some(PacketKind::Subscribe)
    } else if upper == 9 && lower == 0 {
        Some(PacketKind::Suback)
    } else if upper == 10 && lower == 2 {
        Some(PacketKind::Unsubscribe)
    } else if upper == 11 && lower == 0 {
        Some(PacketKind::Unsuback)
    } else if upper == 12 && lower == 0 {
        Some(PacketKind::Pingreq)
    } else if upper == 13 && lower == 0 {
        Some(PacketKind::Pingresp)
    } else if upper == 14 && lower == 0 {
        Some(PacketKind::Disconnect)
    } else {
        None
    }
}

/// The kind of the packet at the head of `input`.
pub fn mqtt_packet_kind(input: &[u8]) -> (r: Option<PacketKind>)
    ensures
        r == if input@.len() == 0 {
            None
        } else {
            packet_kind_of(input@[0] / 16, input@[0] % 16)
        },
{
    if input.len() == 0 {
        return None;
    }
    let upper = input[0] / 16;
    let lower = input[0] % 16;
    if upper == 3 {
        match mqtt_quality_of_service(lower / 2 % 4) {
            Err(_) => None,
            Ok(qos) => Some(
                PacketKind::Publish { dup: lower / 8 % 2 == 1, qos, retain: lower % 2 == 1 },
            ),
        }
    } else if upper == 1 && lower == 0 {
        Some(PacketKind::Connect)
    } else if upper == 2 && lower == 0 {
        Some(PacketKind::Connack)
    } else if upper == 4 && lower == 0 {
        Some(PacketKind::Puback)
    } else if upper == 5 && lower == 0 {
        Some(PacketKind::Pubrec)
    } else if upper == 6 && lower == 2 {
        Some(PacketKind::Pubrel)
    } else if upper == 7 && lower == 0 {
        Some(PacketKind::Pubcomp)
    } else if upper == 8 && lower == 2 {
        Some(PacketKind::Subscribe)
    } else if upper == 9 && lower == 0 {
        Some(PacketKind::Suback)
    } else if upper == 10 && lower == 2 {
        Some(PacketKind::Unsubscribe)
    } else if upper == 11 && lower == 0 {
        Some(PacketKind::Unsuback)
    } else if upper == 12 && lower == 0 {
        Some(PacketKind::Pingreq)
    } else if upper == 13 && lower == 0 {
        Some(PacketKind::Pingresp)
    } else if upper == 14 && lower == 0 {
        Some(PacketKind::Disconnect)
    } else {
        None
    }
}

/// The number that the bytes `s` stand for, seven bits each, least
/// significant first.
pub open spec fn variable_length(s: Seq<u8>) -> int
    decreases s.len(),
{
    if s.len() == 0 {
        0
    } else {
        s[0] % 128 + 128 * variable_length(s.subrange(1, s.len() as int))
    }
}

/// Decodes a number of seven bits to the byte, least significant first.
pub fn decode_variable_length(bytes: &[u8]) -> (r: u32)
    requires
        bytes@.len() <= 4,
    ensures
        r == variable_length(bytes@),
        r < 0x1000_0000,
{
    let n = bytes.len();
    let b0: u32 = if n > 0 {
        (bytes[0] % 128) as u32
    } else {
        0
    };
    let b1: u32 = if n > 1 {
        (bytes[1] % 128) as u32
    } else {
        0
    };
    let b2: u32 = if n > 2 {
        (bytes[2] % 128) as u32
    } else {
        0
    };
    let b3: u32 = if n > 3 {
        (bytes[3] % 128) as u32
    } else {
        0
    };
    proof {
        let s = bytes@;
        reveal_with_fuel(variable_length, 5);
        if n > 0 {
            let s1 = s.subrange(1, s.len() as int);
            if n > 1 {
                let s2 = s1.subrange(1, s1.len() as int);
                assert(s2 =~= s.subrange(2, s.len() as int));
                if n > 2 {
                    let s3 = s2.subrange(1, s2.len() as int);
                    assert(s3 =~= s.subrange(3, s.len() as int));
                    if n > 3 {
                        let s4 = s3.subrange(1, s3.len() as int);
                        assert(s4.len() == 0);
                    }
                }
            }
        }
    }
    b0 + 128 * (b1 + 128 * (b2 + 128 * b3))
}

/// How many bytes the remaining length at the head of `s` takes: up to the
/// first byte without the high bit, among the first four.
pub open spec fn length_bytes(s: Seq<u8>) -> Option<int> {
    if s.len() >= 1 && s[0] < 128 {
        Some(1)
    } else if s.len() >= 2 && s[1] < 128 {
        Some(2)
    } else if s.len() >= 3 && s[2] < 128 {
        Some(3)
    } else if s.len() >= 4 && s[3] < 128 {
        Some(4)
    } else {
        None
    }
}

/// The fixed header at the head of `s` and the bytes that it takes.
#[verifier::opaque]
pub open spec fn fixed_header(s: Seq<u8>) -> Option<(PacketHeader, int)> {
    if s.len() == 0 {
        None
    } else {
        match packet_kind_of(s[0] / 16, s[0] % 16) {
            None => None,
            Some(kind) => match length_bytes(s.subrange(1, s.len() as int)) {
                None => None,
                Some(n) => Some(
                    (
                        PacketHeader {
                            kind: kind,
                            remaining_length: variable_length(s.subrange(1, 1 + n)) as i32,
                        },
                        1 + n,
                    ),
                ),
            },
        }
    }
}

/// Decodes the fixed header at the head of `input`, and tells how many bytes
/// it takes.
pub fn mqtt_fixed_header(input: &[u8]) -> (r: Option<(PacketHeader, usize)>)
    ensures
        match r {
            Some((header, used)) => fixed_header(input@) == Some((header, used as int)) && 2
                <= used <= 5 && used <= input@.len() && 0 <= header.remaining_length
                < 0x1000_0000,
            None => fixed_header(input@) is None,
        },
{
    reveal(fixed_header);
    let kind = match mqtt_packet_kind(input) {
        None => {
            return None;
        },
        Some(k) => k,
    };
    let len = input.len();
    let mut n: usize = 1;
    while n <= 4 && n < len && input[n] >= 128
        invariant
            1 <= n <= 5,
            len == input@.len(),
            len >= 1,
            forall|j: int| 1 <= j < n && j < len ==> input@[j] >= 128,
        decreases 5 - n,
    {
        n += 1;
    }
    let ghost rest = input@.subrange(1, len as int);
    if n > 4 || n >= len {
        assert(length_bytes(rest) is None) by {
            assert(forall|j: int| 0 <= j < rest.len() ==> rest[j] == input@[j + 1]);
        }
        return None;
    }
    assert(length_bytes(rest) == Some(n as int)) by {
        assert(forall|j: int| 0 <= j < rest.len() ==> rest[j] == input@[j + 1]);
    }
    let remaining_length = decode_variable_length(slice_subrange(input, 1, 1 + n));
    Some((PacketHeader { kind, remaining_length: remaining_length as i32 }, 1 + n))
}

/// Whether a control character begins at `i` of the UTF-8 text `s`: one of
/// U+0001 to U+001F, which are one byte each, U+007F, or one of U+0080 to
/// U+009F, which are the byte `0xc2` and a byte from `0x80` to `0x9f`.
pub open spec fn is_control_at(s: Seq<u8>, i: int) -> bool {
    0 <= i < s.len() && ((1 <= s[i] <= 0x1f) || s[i] == 0x7f || (s[i] == 0xc2 && i + 1 < s.len()
        && 0x80 <= s[i + 1] <= 0x9f))
}

/// Whether the UTF-8 text `s` holds a control character.
pub open spec fn has_control(s: Seq<u8>) -> bool {
    exists|i: int| is_control_at(s, i)
}

fn contains_control(s: &[u8]) -> (r: bool)
    ensures
        r == has_control(s@),
{
    let mut i: usize = 0;
    while i < s.len()
        invariant
            i <= s@.len(),
            forall|j: int| 0 <= j < i ==> !is_control_at(s@, j),
        decreases s@.len() - i,
    {
        let b = s[i];
        if (1 <= b && b <= 0x1f) || b == 0x7f || (b == 0xc2 && i + 1 < s.len() && 0x80 <= s[i + 1]
            && s[i + 1] <= 0x9f) {
            assert(is_control_at(s@, i as int));
            return true;
        }
        i += 1;
    }
    false
}

/// The string at the head of `s`: a length in two bytes, then as many bytes
/// of UTF-8 without control characters. Its bytes, and the bytes that it
/// takes in `s`.
pub open spec fn string_at(s: Seq<u8>) -> Option<(Seq<u8>, int)> {
    if s.len() < 2 || s.len() < 2 + be16(s, 0) {
        None
    } else {
        let text = s.subrange(2, 2 + be16(s, 0));
        if !valid_utf8(text) || has_control(text) {
            None
        } else {
            Some((text, 2 + be16(s, 0)))
        }
    }
}

/// Decodes the string at the head of `input`, and tells how many bytes it takes.
pub fn mqtt_string(input: &[u8]) -> (r: Option<(String, usize)>)
    ensures
        match r {
            Some((text, used)) => string_at(input@) matches Some((bytes, n)) && text@
                == decode_utf8(bytes) && used == n && 2 <= used <= input@.len(),
            None => string_at(input@) is None,
        },
{
    if input.len() < 2 {
        return None;
    }
    let n = read_u16_be(input, 0) as usize;
    if input.len() - 2 < n {
        return None;
    }
    let bytes = slice_subrange(input, 2, 2 + n);
    match string_from_utf8(bytes) {
        None => None,
        Some(text) => {
            if contains_control(bytes) {
                None
            } else {
                Some((text, 2 + n))
            }
        },
    }
}

/// The bytes of the name of the protocol.
pub open spec fn protocol_name() -> Seq<u8> {
    seq![0x4du8, 0x51u8, 0x54u8, 0x54u8]
}

/// What a connection request says: the name of the protocol, which must be
/// `MQTT`, the level of the protocol, a byte of flags and two of keep-alive
/// time, and the identifier of the client. The level and the bytes of the
/// identifier.
pub open spec fn connect_of(s: Seq<u8>) -> Option<(u8, Seq<u8>)> {
    match string_at(s) {
        None => None,
        Some((name, used)) => if name != protocol_name() || s.len() < used + 4 {
            None
        } else {
            match string_at(s.subrange(used + 4, s.len() as int)) {
                None => None,
                Some((client_id, _)) => Some((s[used], client_id)),
            }
        },
    }
}

/// Decodes a connection request.
pub fn parse_connect_packet(input: &[u8]) -> (r: Option<(u8, String)>)
    ensures
        match r {
            Some((level, client_id)) => connect_of(input@) matches Some((v, bytes)) && v == level
                && client_id@ == decode_utf8(bytes),
            None => connect_of(input@) is None,
        },
{
    let used = match mqtt_string(input) {
        None => {
            return None;
        },
        Some((_, used)) => used,
    };
    let name = slice_subrange(input, 2, used);
    let is_mqtt = name.len() == 4 && name[0] == 0x4d && name[1] == 0x51 && name[2] == 0x54
        && name[3] == 0x54;
    assert(is_mqtt == (name@ == protocol_name())) by {
        if is_mqtt {
            assert(name@ =~= protocol_name());
        }
    }
    if !is_mqtt {
        return None;
    }
    if input.len() - used < 4 {
        return None;
    }
    let protocol_level = input[used];
    match mqtt_string(slice_subrange(input, used + 4, input.len())) {
        None => None,
        Some((client_id, _)) => Some((protocol_level, client_id)),
    }
}

/// What a connection acknowledgement says: a byte whose seven high bits are
/// zero, then the return code.
pub open spec fn connack_of(s: Seq<u8>) -> Option<u8> {
    if s.len() < 2 || s[0] >= 2 {
        None
    } else {
        Some(s[1])
    }
}

/// Decodes a connection acknowledgement.
pub fn parse_connack_packet(input: &[u8]) -> (r: Option<u8>)
    ensures
        r == connack_of(input@),
{
    if input.len() < 2 || input[0] >= 2 {
        return None;
    }
    Some(input[1])
}

/// The status that the return code of a connection acknowledgement stands
/// for: 0 is accepted; 1, 2, 4 and 5 say that the request was wrong or not
/// allowed; 3 says that the server is not at hand.
pub open spec fn status_of(code: u8) -> L7ResponseStatus {
    if code == 0 {
        L7ResponseStatus::Normal
    } else if code == 1 || code == 2 || code == 4 || code == 5 {
        L7ResponseStatus::ClientError
    } else if code == 3 {
        L7ResponseStatus::ServerError
    } else {
        L7ResponseStatus::NotExist
    }
}

pub fn parse_status_code(code: u8) -> (r: L7ResponseStatus)
    ensures
        r == status_of(code),
{
    if code == 0 {
        L7ResponseStatus::Normal
    } else if code == 1 || code == 2 || code == 4 || code == 5 {
        L7ResponseStatus::ClientError
    } else if code == 3 {
        L7ResponseStatus::ServerError
    } else {
        L7ResponseStatus::NotExist
    }
}

/// A topic of a subscription with the quality of service asked for, or of a
/// publication or an unsubscription with -1 in its place.
#[derive(Clone, Debug, PartialEq, Eq)]
pub struct MqttTopic {
    pub name: String,
    pub qos: i32,
}

/// A topic as plain values.
pub struct TopicModel {
    pub name: Seq<char>,
    pub qos: i32,
}

impl View for MqttTopic {
    type V = TopicModel;

    open spec fn view(&self) -> TopicModel {
        TopicModel { name: self.name@, qos: self.qos }
    }
}

/// The topics of `v` as plain values.
pub open spec fn topics_view(v: Seq<MqttTopic>) -> Seq<TopicModel> {
    Seq::new(v.len(), |i: int| v[i]@)
}

/// The topics at the head of `s`, as many as can be read: each a string and,
/// where `with_qos`, a byte with a quality of service.
pub open spec fn topics_at(s: Seq<u8>, with_qos: bool) -> Seq<TopicModel>
    decreases s.len(),
{
    match string_at(s) {
        None => seq![],
        Some((name, used)) => if !with_qos {
            seq![TopicModel { name: decode_utf8(name), qos: -1i32 }] + topics_at(
                s.subrange(used, s.len() as int),
                with_qos,
            )
        } else if s.len() < used + 1 {
            seq![]
        } else {
            match quality_of(s[used]) {
                None => seq![],
                Some(q) => seq![TopicModel { name: decode_utf8(name), qos: q.spec_code() }]
                    + topics_at(s.subrange(used + 1, s.len() as int), with_qos),
            }
        },
    }
}

/// How many bytes the topics at the head of `s` take, as many as can be
/// read.
pub open spec fn topics_used(s: Seq<u8>, with_qos: bool) -> int
    decreases s.len(),
{
    match string_at(s) {
        None => 0,
        Some((name, used)) => if !with_qos {
            used + topics_used(s.subrange(used, s.len() as int), with_qos)
        } else if s.len() < used + 1 {
            0
        } else {
            match quality_of(s[used]) {
                None => 0,
                Some(q) => used + 1 + topics_used(s.subrange(used + 1, s.len() as int), with_qos),
            }
        },
    }
}

/// Decodes the topics at the head of `input`, as many as can be read, and
/// tells how many bytes they take.
pub fn mqtt_topics(input: &[u8], with_qos: bool) -> (r: (Vec<MqttTopic>, usize))
    ensures
        topics_view(r.0@) == topics_at(input@, with_qos),
        r.1 == topics_used(input@, with_qos),
        r.1 <= input@.len(),
{
    let mut out: Vec<MqttTopic> = Vec::new();
    let mut offset: usize = 0;
    let len = input.len();
    assert(input@.subrange(0, len as int) =~= input@);
    assert(topics_view(out@) + topics_at(input@, with_qos) =~= topics_at(input@, with_qos));
    loop
        invariant
            offset <= len,
            len == input@.len(),
            topics_at(input@, with_qos) == topics_view(out@) + topics_at(
                input@.subrange(offset as int, len as int),
                with_qos,
            ),
            topics_used(input@, with_qos) == offset + topics_used(
                input@.subrange(offset as int, len as int),
                with_qos,
            ),
        decreases len - offset,
    {
        let rest = slice_subrange(input, offset, len);
        let ghost before = topics_view(out@);
        match mqtt_string(rest) {
            None => {
                assert(topics_view(out@) + Seq::<TopicModel>::empty() =~= topics_view(out@));
                return (out, offset);
            },
            Some((name, used)) => {
                if !with_qos {
                    assert(rest@.subrange(used as int, rest@.len() as int) =~= input@.subrange(
                        offset + used,
                        len as int,
                    ));
                    let topic = MqttTopic { name, qos: -1 };
                    out.push(topic);
                    assert(topics_view(out@) =~= before + seq![topic@]);
                    assert(before + (seq![topic@] + topics_at(
                        input@.subrange(offset + used, len as int),
                        with_qos,
                    )) =~= topics_view(out@) + topics_at(
                        input@.subrange(offset + used, len as int),
                        with_qos,
                    ));
                    offset += used;
                } else {
                    if rest.len() < used + 1 {
                        assert(topics_view(out@) + Seq::<TopicModel>::empty() =~= topics_view(out@));
                        return (out, offset);
                    }
                    match mqtt_quality_of_service(rest[used]) {
                        Err(_) => {
                            assert(topics_view(out@) + Seq::<TopicModel>::empty() =~= topics_view(
                                out@,
                            ));
                            return (out, offset);
                        },
                        Ok(q) => {
                            assert(rest@.subrange(used + 1, rest@.len() as int)
                                =~= input@.subrange(offset + used + 1, len as int));
                            let topic = MqttTopic { name, qos: q.code() };
                            out.push(topic);
                            assert(topics_view(out@) =~= before + seq![topic@]);
                            assert(before + (seq![topic@] + topics_at(
                                input@.subrange(offset + used + 1, len as int),
                                with_qos,
                            )) =~= topics_view(out@) + topics_at(
                                input@.subrange(offset + used + 1, len as int),
                                with_qos,
                            ));
                            offset += used + 1;
                        },
                    }
                }
            },
        }
    }
}

/// Decodes the topics of a subscription: one or more, as many as can be read.
/// The result holds them with the number of bytes that they take.
pub fn mqtt_subscription_requests(input: &[u8]) -> (r: Option<(Vec<MqttTopic>, usize)>)
    ensures
        match r {
            Some((v, used)) => topics_view(v@) == topics_at(input@, true) && v@.len() > 0
                && used == topics_used(input@, true) && used <= input@.len(),
            None => topics_at(input@, true).len() == 0,
        },
{
    let (v, used) = mqtt_topics(input, true);
    assert(topics_view(v@).len() == v@.len());
    if v.len() == 0 {
        None
    } else {
        Some((v, used))
    }
}

/// What a server grants a subscription.
#[derive(Clone, Copy, Debug, PartialEq, Eq, Structural)]
pub enum SubscriptionAck {
    MaximumQualityAtMostOnce,
    MaximumQualityAtLeastOnce,
    MaximumQualityExactlyOnce,
    Failure,
}

/// The grant with code `code`, if it is one.
pub open spec fn subscription_ack_of(code: u8) -> Option<SubscriptionAck> {
    if code == 0x00 {
        Some(SubscriptionAck::MaximumQualityAtMostOnce)
    } else if code == 0x01 {
        Some(SubscriptionAck::MaximumQualityAtLeastOnce)
    } else if code == 0x02 {
        Some(SubscriptionAck::MaximumQualityExactlyOnce)
    } else if code == 0x80 {
        Some(SubscriptionAck::Failure)
    } else {
        None
    }
}

/// Reads the grant at the head of `input`.
pub fn mqtt_subscription_ack(input: &[u8]) -> (r: Option<SubscriptionAck>)
    ensures
        r == if input@.len() == 0 {
            None
        } else {
            subscription_ack_of(input@[0])
        },
{
    if input.len() == 0 {
        return None;
    }
    let code = input[0];
    if code == 0x00 {
        Some(SubscriptionAck::MaximumQualityAtMostOnce)
    } else if code == 0x01 {
        Some(SubscriptionAck::MaximumQualityAtLeastOnce)
    } else if code == 0x02 {
        Some(SubscriptionAck::MaximumQualityExactlyOnce)
    } else if code == 0x80 {
        Some(SubscriptionAck::Failure)
    } else {
        None
    }
}

/// Reads the grants at the head of `input`, as many as there are in a row;
/// there must be one at least. The result holds one grant for each byte read.
pub fn mqtt_subscription_acks(input: &[u8]) -> (r: Option<Vec<SubscriptionAck>>)
    ensures
        match r {
            Some(acks) => {
                &&& 0 < acks@.len() <= input@.len()
                &&& forall|i: int|
                    0 <= i < acks@.len() ==> subscription_ack_of(#[trigger] input@[i]) == Some(
                        acks@[i],
                    )
                &&& acks@.len() < input@.len() ==> subscription_ack_of(
                    input@[acks@.len() as int],
                ) is None
            },
            None => input@.len() == 0 || subscription_ack_of(input@[0]) is None,
        },
{
    let mut acks: Vec<SubscriptionAck> = Vec::new();
    let mut i: usize = 0;
    while i < input.len()
        invariant
            i == acks@.len(),
            i <= input@.len(),
            forall|k: int|
                0 <= k < i ==> subscription_ack_of(#[trigger] input@[k]) == Some(acks@[k]),
        decreases input@.len() - i,
    {
        match mqtt_subscription_ack(slice_subrange(input, i, input.len())) {
            Some(ack) => {
                acks.push(ack);
            },
            None => {
                return if i == 0 {
                    None
                } else {
                    Some(acks)
                };
            },
        }
        i += 1;
    }
    if i == 0 {
        None
    } else {
        Some(acks)
    }
}

/// Decodes the topics of an unsubscription: one or more, as many as can be read.
/// The result holds them with the number of bytes that they take.
pub fn mqtt_unsubscription_requests(input: &[u8]) -> (r: Option<(Vec<MqttTopic>, usize)>)
    ensures
        match r {
            Some((v, used)) => topics_view(v@) == topics_at(input@, false) && v@.len() > 0
                && used == topics_used(input@, false) && used <= input@.len(),
            None => topics_at(input@, false).len() == 0,
        },
{
    let (v, used) = mqtt_topics(input, false);
    assert(topics_view(v@).len() == v@.len());
    if v.len() == 0 {
        None
    } else {
        Some((v, used))
    }
}


/// What an MQTT packet says. A size is -1 where the packet is not of that
/// direction.
#[derive(Clone, Debug)]
pub struct MqttInfo {
    pub client_id: Option<String>,
    pub version: u8,
    pub pkt_type: PacketKind,
    pub req_msg_size: i32,
    pub res_msg_size: i32,
    pub subscribe_topics: Option<Vec<MqttTopic>>,
    pub publish_topic: Option<String>,
    /// The return code of a connection acknowledgement.
    pub code: u8,
}

/// What an MQTT packet says, as plain values.
pub struct MqttRecord {
    pub client_id: Option<Seq<char>>,
    pub version: u8,
    pub pkt_type: PacketKind,
    pub req_msg_size: i32,
    pub res_msg_size: i32,
    pub subscribe_topics: Option<Seq<TopicModel>>,
    pub publish_topic: Option<Seq<char>>,
    pub code: u8,
}

impl View for MqttInfo {
    type V = MqttRecord;

    open spec fn view(&self) -> MqttRecord {
        MqttRecord {
            client_id: match self.client_id {
                Some(s) => Some(s@),
                None => None,
            },
            version: self.version,
            pkt_type: self.pkt_type,
            req_msg_size: self.req_msg_size,
            res_msg_size: self.res_msg_size,
            subscribe_topics: match self.subscribe_topics {
                Some(v) => Some(topics_view(v@)),
                None => None,
            },
            publish_topic: match self.publish_topic {
                Some(s) => Some(s@),
                None => None,
            },
            code: self.code,
        }
    }
}

/// A packet of kind `kind` of which nothing else is known.
pub open spec fn blank_record(kind: PacketKind) -> MqttRecord {
    MqttRecord {
        client_id: None,
        version: 0,
        pkt_type: kind,
        req_msg_size: -1i32,
        res_msg_size: -1i32,
        subscribe_topics: None,
        publish_topic: None,
        code: 0,
    }
}

impl MqttInfo {
    pub fn new() -> (r: MqttInfo)
        ensures
            r@ == blank_record(PacketKind::Disconnect),
    {
        MqttInfo {
            client_id: None,
            version: 0,
            pkt_type: PacketKind::Disconnect,
            req_msg_size: -1,
            res_msg_size: -1,
            subscribe_topics: None,
            publish_topic: None,
            code: 0,
        }
    }

    /// A response gives its size to the request that it is paired with, and
    /// its topics, if it is of a kind that has any.
    pub fn merge(&mut self, other: MqttInfo)
        ensures
            final(self)@ == (MqttRecord {
                res_msg_size: other.res_msg_size,
                publish_topic: if other.pkt_type is Publish {
                    other@.publish_topic
                } else {
                    old(self)@.publish_topic
                },
                subscribe_topics: if other.pkt_type is Subscribe || other.pkt_type is Unsubscribe {
                    other@.subscribe_topics
                } else {
                    old(self)@.subscribe_topics
                },
                ..old(self)@
            }),
    {
        self.res_msg_size = other.res_msg_size;
        match other.pkt_type {
            PacketKind::Publish { .. } => {
                self.publish_topic = other.publish_topic;
            },
            PacketKind::Unsubscribe | PacketKind::Subscribe => {
                self.subscribe_topics = other.subscribe_topics;
            },
            _ => {},
        }
    }
}

impl Default for MqttInfo {
    fn default() -> (r: Self)
        ensures
            r@ == blank_record(PacketKind::Disconnect),
    {
        MqttInfo::new()
    }
}

/// What the parser carries from one packet to the next.
pub struct ParserState {
    pub msg_type: LogMessageType,
    pub status: L7ResponseStatus,
    pub version: u8,
}

/// What the packet with header `header` and the bytes `input` behind the
/// header says, and what the parser carries on, if the packet is well formed.
///
/// A connection request is read from exactly the bytes that its header
/// announces, and sets the version. A publication that is marked as a
/// duplicate but asks for delivery at most once is malformed; one that asks
/// for more is a request, else it is a response. A subscription and an
/// unsubscription have one topic or more behind the identifier of the packet.
#[verifier::opaque]
pub open spec fn message_of(st: ParserState, header: PacketHeader, input: Seq<u8>) -> Option<
    (MqttRecord, ParserState),
> {
    let n = header.remaining_length;
    let blank = MqttRecord { version: st.version, ..blank_record(header.kind) };
    let request = Some(
        (
            MqttRecord { req_msg_size: n, ..blank },
            ParserState { msg_type: LogMessageType::Request, ..st },
        ),
    );
    let response = Some(
        (
            MqttRecord { res_msg_size: n, ..blank },
            ParserState { msg_type: LogMessageType::Response, ..st },
        ),
    );
    match header.kind {
        PacketKind::Connect => if input.len() < n {
            None
        } else {
            match connect_of(input.subrange(0, n as int)) {
                None => None,
                Some((version, id)) => Some(
                    (
                        MqttRecord {
                            version: version,
                            client_id: Some(decode_utf8(id)),
                            req_msg_size: n,
                            ..blank
                        },
                        ParserState { msg_type: LogMessageType::Request, version: version, ..st },
                    ),
                ),
            }
        },
        PacketKind::Connack => match connack_of(input) {
            None => None,
            Some(code) => Some(
                (
                    MqttRecord { code: code, res_msg_size: n, ..blank },
                    ParserState {
                        msg_type: LogMessageType::Response,
                        status: status_of(code),
                        ..st
                    },
                ),
            ),
        },
        PacketKind::Publish { dup, qos, retain } => match string_at(input) {
            None => None,
            Some((topic, _)) => if dup && qos == QualityOfService::AtMostOnce {
                None
            } else if qos != QualityOfService::AtMostOnce {
                Some(
                    (
                        MqttRecord {
                            req_msg_size: n,
                            publish_topic: Some(decode_utf8(topic)),
                            ..blank
                        },
                        ParserState { msg_type: LogMessageType::Request, ..st },
                    ),
                )
            } else {
                Some(
                    (
                        MqttRecord {
                            res_msg_size: n,
                            publish_topic: Some(decode_utf8(topic)),
                            ..blank
                        },
                        ParserState { msg_type: LogMessageType::Response, ..st },
                    ),
                )
            },
        },
        PacketKind::Subscribe => if input.len() < 2 || topics_at(
            input.subrange(2, input.len() as int),
            true,
        ).len() == 0 {
            None
        } else {
            Some(
                (
                    MqttRecord {
                        req_msg_size: n,
                        subscribe_topics: Some(
                            topics_at(input.subrange(2, input.len() as int), true),
                        ),
                        ..blank
                    },
                    ParserState { msg_type: LogMessageType::Request, ..st },
                ),
            )
        },
        PacketKind::Unsubscribe => if input.len() < 2 || topics_at(
            input.subrange(2, input.len() as int),
            false,
        ).len() == 0 {
            None
        } else {
            Some(
                (
                    MqttRecord {
                        req_msg_size: n,
                        subscribe_topics: Some(
                            topics_at(input.subrange(2, input.len() as int), false),
                        ),
                        ..blank
                    },
                    ParserState { msg_type: LogMessageType::Request, ..st },
                ),
            )
        },
        PacketKind::Pingreq | PacketKind::Pubrel => request,
        PacketKind::Disconnect => Some(
            (
                MqttRecord { res_msg_size: n, ..blank },
                ParserState { msg_type: LogMessageType::Session, ..st },
            ),
        ),
        _ => response,
    }
}

/// Decodes the packet with header `header` and the bytes `input` behind it.
pub fn decode_message(
    msg_type: LogMessageType,
    status: L7ResponseStatus,
    version: u8,
    header: PacketHeader,
    input: &[u8],
) -> (r: Option<(MqttInfo, LogMessageType, L7ResponseStatus, u8)>)
    requires
        0 <= header.remaining_length,
    ensures
        ({
            let st = ParserState { msg_type: msg_type, status: status, version: version };
            match r {
                Some((info, m, s, v)) => message_of(st, header, input@) == Some(
                    (info@, ParserState { msg_type: m, status: s, version: v }),
                ),
                None => message_of(st, header, input@) is None,
            }
        }),
{
    reveal(message_of);
    let n = header.remaining_length;
    let mut info = MqttInfo::new();
    info.pkt_type = header.kind;
    info.version = version;
    match header.kind {
        PacketKind::Connect => {
            if input.len() < n as usize {
                return None;
            }
            match parse_connect_packet(slice_subrange(input, 0, n as usize)) {
                None => None,
                Some((level, client_id)) => {
                    info.version = level;
                    info.client_id = Some(client_id);
                    info.req_msg_size = n;
                    Some((info, LogMessageType::Request, status, level))
                },
            }
        },
        PacketKind::Connack => {
            match parse_connack_packet(input) {
                None => None,
                Some(code) => {
                    info.code = code;
                    info.res_msg_size = n;
                    Some((info, LogMessageType::Response, parse_status_code(code), version))
                },
            }
        },
        PacketKind::Publish { dup, qos, retain } => {
            match mqtt_string(input) {
                None => None,
                Some((topic, _)) => {
                    if dup && qos == QualityOfService::AtMostOnce {
                        return None;
                    }
                    info.publish_topic = Some(topic);
                    if qos != QualityOfService::AtMostOnce {
                        info.req_msg_size = n;
                        Some((info, LogMessageType::Request, status, version))
                    } else {
                        info.res_msg_size = n;
                        Some((info, LogMessageType::Response, status, version))
                    }
                },
            }
        },
        PacketKind::Subscribe => {
            if input.len() < 2 {
                return None;
            }
            match mqtt_subscription_requests(slice_subrange(input, 2, input.len())) {
                None => None,
                Some((topics, _)) => {
                    info.req_msg_size = n;
                    info.subscribe_topics = Some(topics);
                    Some((info, LogMessageType::Request, status, version))
                },
            }
        },
        PacketKind::Unsubscribe => {
            if input.len() < 2 {
                return None;
            }
            match mqtt_unsubscription_requests(slice_subrange(input, 2, input.len())) {
                None => None,
                Some((topics, _)) => {
                    info.req_msg_size = n;
                    info.subscribe_topics = Some(topics);
                    Some((info, LogMessageType::Request, status, version))
                },
            }
        },
        PacketKind::Pingreq | PacketKind::Pubrel => {
            info.req_msg_size = n;
            Some((info, LogMessageType::Request, status, version))
        },
        PacketKind::Disconnect => {
            info.res_msg_size = n;
            Some((info, LogMessageType::Session, status, version))
        },
        _ => {
            info.res_msg_size = n;
            Some((info, LogMessageType::Response, status, version))
        },
    }
}

/// What the packets of one payload say.
pub struct Parsed {
    /// What each packet says, up to the first that is malformed.
    pub records: Seq<MqttRecord>,
    /// The head of the log record of each of these packets.
    pub heads: Seq<AppProtoHead>,
    /// What the parser carries on.
    pub state: ParserState,
    /// Whether every packet is well formed.
    pub complete: bool,
}

/// The head of the log record of a packet, as the parser is after it.
pub open spec fn head_of(rec: MqttRecord, st: ParserState) -> AppProtoHead {
    AppProtoHead {
        proto: L7Protocol::Mqtt,
        msg_type: st.msg_type,
        status: st.status,
        code: rec.code as u16,
        rrt: 0,
        version: rec.version,
    }
}

/// What the packets of `payload` say, one behind the other: each takes its
/// fixed header and the bytes that the header announces.
pub open spec fn messages_of(st: ParserState, payload: Seq<u8>) -> Parsed
    decreases payload.len(),
{
    let failed = Parsed { records: seq![], heads: seq![], state: st, complete: false };
    match fixed_header(payload) {
        None => failed,
        Some((header, used)) => if used < 1 || used > payload.len() || header.remaining_length < 0 {
            failed
        } else {
            let input = payload.subrange(used, payload.len() as int);
            match message_of(st, header, input) {
                None => failed,
                Some((rec, st1)) => if input.len() <= header.remaining_length {
                    Parsed {
                        records: seq![rec],
                        heads: seq![head_of(rec, st1)],
                        state: st1,
                        complete: true,
                    }
                } else {
                    let rest = messages_of(
                        st1,
                        input.subrange(header.remaining_length as int, input.len() as int),
                    );
                    Parsed {
                        records: seq![rec] + rest.records,
                        heads: seq![head_of(rec, st1)] + rest.heads,
                        state: rest.state,
                        complete: rest.complete,
                    }
                },
            }
        },
    }
}

/// What the packets in `v` say, as plain values.
pub open spec fn records_view(v: Seq<MqttInfo>) -> Seq<MqttRecord> {
    Seq::new(v.len(), |i: int| v[i]@)
}

/// The state of the MQTT parser.
pub struct MqttLog {
    /// What the packets of the last payload say.
    pub info: Vec<MqttInfo>,
    pub msg_type: LogMessageType,
    pub status: L7ResponseStatus,
    /// The version that the connection request of the flow asked for, or 0.
    pub version: u8,
    /// The identifier of the client of each flow that has connected.
    pub client_map: std::collections::HashMap<u64, String>,
}

impl MqttLog {
    pub fn new() -> (r: MqttLog)
        ensures
            r.info@.len() == 0,
            r.msg_type == LogMessageType::Other,
            r.status == L7ResponseStatus::Normal,
            r.version == 0,
            r.client_map@.len() == 0,
    {
        MqttLog {
            info: Vec::new(),
            msg_type: LogMessageType::Other,
            status: L7ResponseStatus::Normal,
            version: 0,
            client_map: std::collections::HashMap::new(),
        }
    }

    /// What the parser carries from one packet to the next.
    pub open spec fn state(self) -> ParserState {
        ParserState { msg_type: self.msg_type, status: self.status, version: self.version }
    }

    /// Parses the packets of one payload, and adds what they say to `info`.
    /// Only version 3.1.1, which has the level 4, is parsed: once a connection
    /// request has asked for another level, nothing is.
    pub fn parse_mqtt_info(&mut self, payload: &[u8]) -> (r: Result<Vec<AppProtoHead>, Error>)
        ensures
            old(self).version != 0 && old(self).version != 4 ==> r is Err && *final(self) == *old(
                self,
            ),
            old(self).version == 0 || old(self).version == 4 ==> {
                let parsed = messages_of(old(self).state(), payload@);
                &&& records_view(final(self).info@) == records_view(old(self).info@)
                    + parsed.records
                &&& final(self).state() == parsed.state
                &&& r is Ok <==> parsed.complete
                &&& r matches Ok(heads) ==> heads@ == parsed.heads && heads@.len() > 0
            },
            r matches Err(e) ==> e == Error::MqttLogParseFailed,
            final(self).client_map == old(self).client_map,
    {
        if self.version != 0 && self.version != 4 {
            return Err(Error::MqttLogParseFailed);
        }
        let mut heads: Vec<AppProtoHead> = Vec::new();
        let len = payload.len();
        let mut offset: usize = 0;
        let ghost total = messages_of(self.state(), payload@);
        let ghost held = records_view(self.info@);
        assert(payload@.subrange(0, len as int) =~= payload@);
        assert(held + total.records =~= records_view(self.info@) + total.records);
        assert(heads@ + total.heads =~= total.heads);
        loop
            invariant
                old(self).version == 0 || old(self).version == 4,
                offset <= len,
                len == payload@.len(),
                total == messages_of(old(self).state(), payload@),
                held == records_view(old(self).info@),
                self.client_map == old(self).client_map,
                ({
                    let rest = messages_of(self.state(), payload@.subrange(offset as int, len as int));
                    &&& held + total.records == records_view(self.info@) + rest.records
                    &&& total.heads == heads@ + rest.heads
                    &&& total.state == rest.state
                    &&& total.complete == rest.complete
                }),
            decreases len - offset,
        {
            let current = slice_subrange(payload, offset, len);
            let ghost rest = messages_of(self.state(), current@);
            let (header, used) = match mqtt_fixed_header(current) {
                None => {
                    assert(records_view(self.info@) + rest.records =~= records_view(self.info@));
                    return Err(Error::MqttLogParseFailed);
                },
                Some(x) => x,
            };
            let input = slice_subrange(current, used, current.len());
            let (info, msg_type, status, version) = match decode_message(
                self.msg_type,
                self.status,
                self.version,
                header,
                input,
            ) {
                None => {
                    assert(records_view(self.info@) + rest.records =~= records_view(self.info@));
                    return Err(Error::MqttLogParseFailed);
                },
                Some(x) => x,
            };
            self.msg_type = msg_type;
            self.status = status;
            self.version = version;
            let head = AppProtoHead {
                proto: L7Protocol::Mqtt,
                msg_type,
                status,
                code: info.code as u16,
                rrt: 0,
                version: info.version,
            };
            let ghost before_info = records_view(self.info@);
            let ghost before_heads = heads@;
            let ghost rec = info@;
            heads.push(head);
            self.info.push(info);
            assert(records_view(self.info@) =~= before_info + seq![rec]);
            assert(heads@ =~= before_heads + seq![head]);
            if input.len() <= header.remaining_length as usize {
                assert(before_info + seq![rec] =~= before_info + rest.records);
                return Ok(heads);
            }
            let ghost next = messages_of(
                self.state(),
                input@.subrange(header.remaining_length as int, input@.len() as int),
            );
            assert(input@.subrange(header.remaining_length as int, input@.len() as int)
                =~= payload@.subrange(offset + used + header.remaining_length, len as int));
            assert(before_info + (seq![rec] + next.records) =~= (before_info + seq![rec])
                + next.records);
            assert(before_heads + (seq![head] + next.heads) =~= (before_heads + seq![head])
                + next.heads);
            offset = offset + used + header.remaining_length as usize;
        }
    }

    /// Whether the parser `after` and the result `r` are what parsing `payload`
    /// leaves of the parser and returns, for a packet over `proto`.
    pub open spec fn parse_outcome(
        self,
        payload: Seq<u8>,
        proto: IpProtocol,
        after: MqttLog,
        r: Result<AppProtoHeadEnum, Error>,
    ) -> bool {
        &&& (proto != IpProtocol::Tcp ==> r == Err::<AppProtoHeadEnum, Error>(
            Error::InvalidIpProtocol,
        ) && after == self)
        &&& (proto == IpProtocol::Tcp && self.version != 0 && self.version != 4 ==> r
                == Err::<AppProtoHeadEnum, Error>(Error::MqttLogParseFailed)
                && after.info@.len() == 0 && after.status == L7ResponseStatus::Error)
        &&& (proto == IpProtocol::Tcp && (self.version == 0 || self.version == 4) ==> {
                let parsed = messages_of(
                    ParserState { status: L7ResponseStatus::Normal, ..self.state() },
                    payload,
                );
                &&& records_view(after.info@) == parsed.records
                &&& after.msg_type == parsed.state.msg_type
                &&& after.version == parsed.state.version
                &&& after.status == if parsed.complete {
                    parsed.state.status
                } else {
                    L7ResponseStatus::Error
                }
                &&& r is Ok <==> parsed.complete
                &&& r matches Ok(heads) ==> heads.heads() == parsed.heads && (heads is Single
                    <==> parsed.heads.len() == 1)
                &&& r matches Err(e) ==> e == Error::MqttLogParseFailed
            })
        &&& (after.client_map == self.client_map)
    }

    /// Parses the payload of a packet over `proto` and keeps what its packets
    /// say in `info`. A payload over another transport than TCP is rejected
    /// untouched; a malformed one leaves the status `Error`.
    pub fn parse_payload(&mut self, payload: &[u8], proto: IpProtocol) -> (r: Result<
        AppProtoHeadEnum,
        Error,
    >)
        ensures
            old(self).parse_outcome(payload@, proto, *final(self), r),
    {
        if proto != IpProtocol::Tcp {
            return Err(Error::InvalidIpProtocol);
        }
        self.status = L7ResponseStatus::Normal;
        self.info.clear();
        assert(records_view(self.info@) =~= seq![]);
        let ghost cleared = records_view(self.info@);
        match self.parse_mqtt_info(payload) {
            Err(e) => {
                self.status = L7ResponseStatus::Error;
                proof {
                    if old(self).version == 0 || old(self).version == 4 {
                        assert(cleared + messages_of(
                            ParserState { status: L7ResponseStatus::Normal, ..old(self).state() },
                            payload@,
                        ).records =~= messages_of(
                            ParserState { status: L7ResponseStatus::Normal, ..old(self).state() },
                            payload@,
                        ).records);
                    }
                }
                Err(e)
            },
            Ok(mut proto_head) => {
                assert(cleared + messages_of(
                    ParserState { status: L7ResponseStatus::Normal, ..old(self).state() },
                    payload@,
                ).records =~= messages_of(
                    ParserState { status: L7ResponseStatus::Normal, ..old(self).state() },
                    payload@,
                ).records);
                if proto_head.len() == 1 {
                    let head = proto_head[0];
                    assert(seq![head] =~= proto_head@);
                    Ok(AppProtoHeadEnum::Single(head))
                } else {
                    Ok(AppProtoHeadEnum::Multi(proto_head))
                }
            },
        }
    }
}


fn copy_topics(v: &Vec<MqttTopic>) -> (r: Vec<MqttTopic>)
    ensures
        topics_view(r@) == topics_view(v@),
{
    let mut out: Vec<MqttTopic> = Vec::new();
    let mut i: usize = 0;
    while i < v.len()
        invariant
            i <= v@.len(),
            out@.len() == i,
            forall|j: int| 0 <= j < i ==> out@[j]@ == v@[j]@,
        decreases v@.len() - i,
    {
        out.push(MqttTopic { name: v[i].name.clone(), qos: v[i].qos });
        i += 1;
    }
    assert(topics_view(out@) =~= topics_view(v@));
    out
}

/// The names of the topics `v` in a row, with a comma between one and the
/// next.
pub open spec fn names_joined(v: Seq<TopicModel>) -> Seq<char>
    decreases v.len(),
{
    if v.len() == 0 {
        seq![]
    } else if v.len() == 1 {
        v[0].name
    } else {
        names_joined(v.drop_last()) + seq![','] + v.last().name
    }
}

/// The names of the topics of a subscription as one text, as they are
/// written into a record.
pub fn topic_names(topics: &Vec<MqttTopic>) -> (r: String)
    ensures
        r@ == names_joined(topics_view(topics@)),
{
    let mut out = String::new();
    let ghost all = topics_view(topics@);
    let mut i: usize = 0;
    assert(all.subrange(0, 0) =~= seq![]);
    while i < topics.len()
        invariant
            i <= topics@.len(),
            all == topics_view(topics@),
            out@ == names_joined(all.subrange(0, i as int)),
        decreases topics@.len() - i,
    {
        let ghost upto = all.subrange(0, i + 1);
        let ghost before = out@;
        assert(upto.drop_last() =~= all.subrange(0, i as int));
        assert(upto.last().name == topics@[i as int].name@);
        if i > 0 {
            crate::outside::push_char(&mut out, ',');
        }
        out.append(topics[i].name.as_str());
        assert(out@ =~= names_joined(upto)) by {
            if i == 0 {
                assert(upto[0] == upto.last());
                assert(before + upto.last().name =~= upto.last().name);
            }
        }
        i += 1;
    }
    assert(all.subrange(0, topics@.len() as int) =~= all);
    out
}

impl MqttInfo {
    /// A copy of the record.
    pub fn duplicate(&self) -> (r: MqttInfo)
        ensures
            r@ == self@,
    {
        MqttInfo {
            client_id: match &self.client_id {
                Some(s) => Some(s.clone()),
                None => None,
            },
            version: self.version,
            pkt_type: self.pkt_type,
            req_msg_size: self.req_msg_size,
            res_msg_size: self.res_msg_size,
            subscribe_topics: match &self.subscribe_topics {
                Some(v) => Some(copy_topics(v)),
                None => None,
            },
            publish_topic: match &self.publish_topic {
                Some(s) => Some(s.clone()),
                None => None,
            },
            code: self.code,
        }
    }
}

/// What the record of an MQTT packet says, where it is one.
pub open spec fn mqtt_record(info: AppProtoLogsInfo) -> Option<MqttRecord> {
    match info {
        AppProtoLogsInfo::Mqtt(i) => Some(i@),
        _ => None,
    }
}

impl MqttLog {
    /// What the packets of the last payload say: one record where the payload
    /// held one packet or none, else one for each packet.
    pub fn log_info(&self) -> (r: AppProtoLogsInfoEnum)
        ensures
            self.info@.len() == 0 ==> (r matches AppProtoLogsInfoEnum::Single(i) && mqtt_record(i)
                == Some(blank_record(PacketKind::Disconnect))),
            self.info@.len() == 1 ==> (r matches AppProtoLogsInfoEnum::Single(i) && mqtt_record(i)
                == Some(self.info@[0]@)),
            self.info@.len() > 1 ==> (r matches AppProtoLogsInfoEnum::Multi(v) && v@.len()
                == self.info@.len() && forall|j: int|
                0 <= j < v@.len() ==> mqtt_record(#[trigger] v@[j]) == Some(self.info@[j]@)),
    {
        if self.info.len() == 0 {
            AppProtoLogsInfoEnum::Single(AppProtoLogsInfo::Mqtt(MqttInfo::new()))
        } else if self.info.len() == 1 {
            AppProtoLogsInfoEnum::Single(AppProtoLogsInfo::Mqtt(self.info[0].duplicate()))
        } else {
            let mut out: Vec<AppProtoLogsInfo> = Vec::new();
            let mut i: usize = 0;
            while i < self.info.len()
                invariant
                    i <= self.info@.len(),
                    out@.len() == i,
                    forall|j: int| 0 <= j < i ==> mqtt_record(#[trigger] out@[j]) == Some(
                        self.info@[j]@,
                    ),
                decreases self.info@.len() - i,
            {
                out.push(AppProtoLogsInfo::Mqtt(self.info[i].duplicate()));
                i += 1;
            }
            AppProtoLogsInfoEnum::Multi(out)
        }
    }

    /// Makes the log record of a packet of the flow `base_info.flow_id`, and
    /// keeps the table of client identifiers: a connection request enters its
    /// identifier for the flow; a disconnection takes the identifier of the
    /// flow out of the table and into its record; every other packet gets the
    /// identifier of its flow, and is rejected where the table has none. A
    /// record of another protocol is passed through.
    ///
    /// The record of a connection request must hold a client identifier.
    pub fn amend_mqtt_proto_log_and_generate_log_data(
        &mut self,
        special_info: AppProtoLogsInfo,
        base_info: AppProtoLogsBaseInfo,
    ) -> (r: Result<AppProtoLogsData, Error>)
        requires
            special_info matches AppProtoLogsInfo::Mqtt(i) ==> (i.pkt_type is Connect
                ==> i.client_id is Some),
        ensures
            final(self).info == old(self).info,
            final(self).msg_type == old(self).msg_type,
            final(self).status == old(self).status,
            final(self).version == old(self).version,
            !(special_info is Mqtt) ==> final(self).client_map@ == old(self).client_map@ && (r
                matches Ok(data) && data.base_info == base_info && data.special_info
                == special_info),
            special_info matches AppProtoLogsInfo::Mqtt(i) ==> {
                let key = base_info.flow_id;
                let table = old(self).client_map@;
                match i.pkt_type {
                    PacketKind::Connect => {
                        &&& final(self).client_map@ == table.insert(key, i.client_id.unwrap())
                        &&& (r matches Ok(data) && data.base_info == base_info
                            && data.special_info == special_info)
                    },
                    PacketKind::Disconnect => {
                        &&& final(self).client_map@ == table.remove(key)
                        &&& (r matches Ok(data) && data.base_info == base_info && mqtt_record(
                            data.special_info,
                        ) == Some(
                            MqttRecord {
                                client_id: if table.contains_key(key) {
                                    Some(table[key]@)
                                } else {
                                    None
                                },
                                ..i@
                            },
                        ))
                    },
                    _ => {
                        &&& final(self).client_map@ == table
                        &&& r is Ok <==> table.contains_key(key)
                        &&& r matches Err(e) ==> e == Error::MqttLogParseFailed
                        &&& r matches Ok(data) ==> data.base_info == base_info && mqtt_record(
                            data.special_info,
                        ) == Some(MqttRecord { client_id: Some(table[key]@), ..i@ })
                    },
                }
            },
    {
        broadcast use vstd::std_specs::hash::group_hash_axioms;

        let key = base_info.flow_id;
        match special_info {
            AppProtoLogsInfo::Mqtt(info) => {
                match info.pkt_type {
                    PacketKind::Connect => {
                        let client_id = match &info.client_id {
                            Some(s) => s.clone(),
                            None => String::new(),
                        };
                        self.client_map.insert(key, client_id);
                        Ok(AppProtoLogsData::new(base_info, AppProtoLogsInfo::Mqtt(info)))
                    },
                    PacketKind::Disconnect => {
                        let mut info = info;
                        info.client_id = self.client_map.remove(&key);
                        Ok(AppProtoLogsData::new(base_info, AppProtoLogsInfo::Mqtt(info)))
                    },
                    _ => {
                        let mut info = info;
                        match self.client_map.get(&key) {
                            Some(v) => {
                                info.client_id = Some(v.clone());
                            },
                            None => {
                                return Err(Error::MqttLogParseFailed);
                            },
                        }
                        Ok(AppProtoLogsData::new(base_info, AppProtoLogsInfo::Mqtt(info)))
                    },
                }
            },
            other => Ok(AppProtoLogsData::new(base_info, other)),
        }
    }
}

impl Default for MqttLog {
    fn default() -> (r: Self)
        ensures
            r.info@.len() == 0,
            r.version == 0,
            r.client_map@.len() == 0,
    {
        MqttLog::new()
    }
}

impl L7LogParse for MqttLog {
    /// Parses the payload of a packet over `proto`, whatever its direction:
    /// the parser afterwards and the heads are those of `parse_payload`.
    fn parse(&mut self, payload: &[u8], proto: IpProtocol, direction: PacketDirection) -> (r:
        Result<AppProtoHeadEnum, Error>)
        ensures
            old(self).parse_outcome(payload@, proto, *final(self), r),
    {
        self.parse_payload(payload, proto)
    }

    /// What the packets of the last payload say: one record where the payload
    /// held one packet or none, else one for each packet.
    fn info(&self) -> (r: AppProtoLogsInfoEnum)
        ensures
            self.info@.len() == 0 ==> (r matches AppProtoLogsInfoEnum::Single(i) && mqtt_record(i)
                == Some(blank_record(PacketKind::Disconnect))),
            self.info@.len() == 1 ==> (r matches AppProtoLogsInfoEnum::Single(i) && mqtt_record(i)
                == Some(self.info@[0]@)),
            self.info@.len() > 1 ==> (r matches AppProtoLogsInfoEnum::Multi(v) && v@.len()
                == self.info@.len() && forall|j: int|
                0 <= j < v@.len() ==> mqtt_record(#[trigger] v@[j]) == Some(self.info@[j]@)),
    {
        self.log_info()
    }
}

/// The candidates without MQTT: bit 101 of the bitmap cleared.
pub open spec fn without_mqtt(bitmap: u128) -> u128 {
    bitmap & !(1u128 << 101)
}

/// Whether a payload is taken for a first MQTT packet: a well-formed
/// connection request that asks for a level from 3 to 5.
pub open spec fn is_connect(payload: Seq<u8>) -> bool {
    match fixed_header(payload) {
        None => false,
        Some((header, used)) => header.kind is Connect && 0 <= header.remaining_length
            && payload.len() - used >= header.remaining_length && (connect_of(
            payload.subrange(used, used + header.remaining_length),
        ) matches Some((level, _)) && 3 <= level <= 5),
    }
}

/// Tells whether `packet` is a first MQTT packet. A packet over another
/// transport than TCP rules MQTT out for its flow.
pub fn mqtt_check_protocol(bitmap: &mut u128, packet: &MetaPacket) -> (r: bool)
    ensures
        *final(bitmap) == if packet.lookup_key.proto != IpProtocol::Tcp {
            without_mqtt(*old(bitmap))
        } else {
            *old(bitmap)
        },
        r == (packet.lookup_key.proto == IpProtocol::Tcp && (packet.spec_l4_payload() matches Some(
            p,
        ) && is_connect(p))),
{
    if packet.lookup_key.proto != IpProtocol::Tcp {
        *bitmap = *bitmap & !(1u128 << 101);
        return false;
    }
    let payload = match packet.get_l4_payload() {
        None => {
            return false;
        },
        Some(p) => p,
    };
    let (header, used) = match mqtt_fixed_header(payload) {
        None => {
            return false;
        },
        Some(x) => x,
    };
    match header.kind {
        PacketKind::Connect => {
            let n = header.remaining_length as usize;
            if payload.len() - used < n {
                return false;
            }
            match parse_connect_packet(slice_subrange(payload, used, used + n)) {
                None => false,
                Some((version, _)) => 3 <= version && version <= 5,
            }
        },
        _ => false,
    }
}

/// A publication that is marked as a duplicate and asks for delivery at most
/// once is malformed, whatever else it holds.
pub proof fn lemma_duplicate_at_most_once_rejected(
    st: ParserState,
    retain: bool,
    remaining_length: i32,
    input: Seq<u8>,
)
    ensures
        message_of(
            st,
            PacketHeader {
                kind: PacketKind::Publish {
                    dup: true,
                    qos: QualityOfService::AtMostOnce,
                    retain: retain,
                },
                remaining_length: remaining_length,
            },
            input,
        ) is None,
{
    reveal(message_of);
}

} // verus!
