//! The DNS log parser.
//!
//! A message over UDP is bare; over TCP it has a two-byte length before it. A
//! name is a chain of labels that ends in a zero byte and may end in a
//! compression pointer, which must point backwards.

use vstd::prelude::*;
use vstd::string::StringExecFns;
use vstd::utf8::{decode_utf8, encode_utf8, valid_utf8};
use crate::bytes::{be16, be32, read_u16_be, read_u32_be};
use crate::enums::{IpProtocol, PacketDirection};
use crate::error::{DnsFault, Error};
use crate::flow::L7Protocol;
use crate::meta_packet::{slice_subrange, MetaPacket};
use crate::net::{be128, IpAddr};
use crate::outside::{push_char, string_from_utf8};
use crate::protocol_logs::{
    AppProtoHead, AppProtoHeadEnum, AppProtoLogsInfo, AppProtoLogsInfoEnum, L7LogParse,
    L7ResponseStatus, LogMessageType,
};
use crate::text::{append_ip, ip_text};

verus! {

pub const DNS_PORT: u16 = 53;
pub const DNS_HEADER_SIZE: usize = 12;
pub const DNS_HEADER_FLAGS_OFFSET: usize = 2;
pub const DNS_HEADER_QDCOUNT_OFFSET: usize = 4;
pub const DNS_HEADER_ANCOUNT_OFFSET: usize = 6;
pub const DNS_HEADER_NSCOUNT_OFFSET: usize = 8;
pub const DNS_TCP_PAYLOAD_OFFSET: usize = 2;
pub const DNS_NAME_TAIL: u8 = 0x00;
pub const DNS_NAME_RESERVED_40: u8 = 0x40;
pub const DNS_NAME_RESERVED_80: u8 = 0x80;
pub const DNS_NAME_COMPRESS_POINTER: u8 = 0xc0;
/// The greatest length of a name.
pub const DNS_NAME_MAX_SIZE: usize = 255;
pub const QUESTION_CLASS_TYPE_SIZE: usize = 4;
pub const RR_DATALENGTH_OFFSET: usize = 8;
pub const RR_RDATA_OFFSET: usize = 10;
pub const DNS_REQUEST: u8 = 0x00;
pub const DNS_RESPONSE: u8 = 0x80;
pub const DNS_TYPE_A: u16 = 1;
pub const DNS_TYPE_NS: u16 = 2;
pub const DNS_TYPE_SOA: u16 = 6;
pub const DNS_TYPE_WKS: u16 = 11;
pub const DNS_TYPE_PTR: u16 = 12;
pub const DNS_TYPE_AAAA: u16 = 28;
pub const DNS_TYPE_DNAME: u16 = 39;
pub const DNS_TYPE_WKS_LENGTH: usize = 5;
pub const DNS_TYPE_PTR_LENGTH: usize = 2;
/// What stands between two names and between two answers.
pub const DOMAIN_NAME_SPLIT: u8 = 0x3b;

/// What a DNS message says. `query_type` is 0 for a query and 1 for a
/// response; `domain_type` is the type of the question or of the last record.
#[derive(Clone, Debug, PartialEq, Eq)]
pub struct DnsInfo {
    pub trans_id: u16,
    pub query_type: u8,
    pub domain_type: u16,
    /// The names asked for, with `;` between them.
    pub query_name: String,
    /// The answers as text, with `;` between them.
    pub answers: String,
}

impl DnsInfo {
    /// A response gives its answers to the request that it is paired with.
    pub fn merge(&mut self, other: DnsInfo)
        ensures
            final(self).answers == other.answers,
            final(self).trans_id == old(self).trans_id,
            final(self).query_type == old(self).query_type,
            final(self).domain_type == old(self).domain_type,
            final(self).query_name == old(self).query_name,
    {
        self.answers = other.answers;
    }
}

impl Default for DnsInfo {
    fn default() -> (r: Self)
        ensures
            r.trans_id == 0 && r.query_type == 0 && r.domain_type == 0,
            r.query_name@.len() == 0 && r.answers@.len() == 0,
    {
        DnsInfo {
            trans_id: 0,
            query_type: 0,
            domain_type: 0,
            query_name: String::new(),
            answers: String::new(),
        }
    }
}

/// The state of the DNS parser.
#[derive(Clone, Debug)]
pub struct DnsLog {
    pub info: DnsInfo,
    pub msg_type: LogMessageType,
    pub status: L7ResponseStatus,
    pub status_code: u8,
}

/// What the DNS parser holds, as plain values.
pub struct DnsModel {
    pub trans_id: u16,
    pub query_type: u8,
    pub domain_type: u16,
    pub query_name: Seq<char>,
    pub answers: Seq<char>,
    pub msg_type: LogMessageType,
    pub status: L7ResponseStatus,
    pub status_code: u8,
}

impl View for DnsLog {
    type V = DnsModel;

    open spec fn view(&self) -> DnsModel {
        DnsModel {
            trans_id: self.info.trans_id,
            query_type: self.info.query_type,
            domain_type: self.info.domain_type,
            query_name: self.info.query_name@,
            answers: self.info.answers@,
            msg_type: self.msg_type,
            status: self.status,
            status_code: self.status_code,
        }
    }
}

/// The name that begins at `g_offset`, read on from `index` with `buffer` read
/// so far and `l_offset` the end of what the name takes in the message: the
/// bytes of the name, with dots between the labels, and the offset behind it.
///
/// A label with one of the two reserved types is an error; so is a pointer
/// that is cut off or that does not point before itself, a label that runs out
/// of the payload or more than 255 bytes past `g_offset`, a label that is not
/// UTF-8, a name of more than 255 bytes, and a payload that ends with a label.
pub open spec fn name_from(payload: Seq<u8>, g_offset: int, index: int, l_offset: int, buffer: Seq<
    u8,
>) -> Result<(Seq<u8>, int), DnsFault>
    decreases 256 - buffer.len(), index,
{
    if index < 0 || index >= payload.len() || buffer.len() > 255 {
        Err(DnsFault::NameIndex)
    } else if payload[index] == DNS_NAME_TAIL {
        Ok((buffer, l_offset + 1))
    } else if payload[index] & 0xc0 == DNS_NAME_RESERVED_40 || payload[index] & 0xc0
        == DNS_NAME_RESERVED_80 {
        Err(DnsFault::LabelType)
    } else if payload[index] & 0xc0 == DNS_NAME_COMPRESS_POINTER {
        if index + 2 > payload.len() {
            Err(DnsFault::NameIndex)
        } else if (be16(payload, index) & 0x3fff) >= index {
            Err(DnsFault::CompressPointer)
        } else {
            name_from(payload, g_offset, (be16(payload, index) & 0x3fff) as int, l_offset, buffer)
        }
    } else {
        let size = index + 1 + payload[index];
        let label = payload.subrange(index + 1, size);
        let joined = if buffer.len() > 0 {
            buffer.push(0x2e) + label
        } else {
            label
        };
        if size > payload.len() || (size > g_offset && size - g_offset > DNS_NAME_MAX_SIZE) {
            Err(DnsFault::NameIndex)
        } else if !valid_utf8(label) {
            Err(DnsFault::NameEncoding)
        } else if joined.len() > DNS_NAME_MAX_SIZE {
            Err(DnsFault::NameLength)
        } else if size >= payload.len() {
            Err(DnsFault::NameIndex)
        } else {
            name_from(
                payload,
                g_offset,
                size,
                if size > l_offset {
                    size
                } else if payload[size] == DNS_NAME_TAIL {
                    l_offset + 1
                } else {
                    l_offset
                },
                joined,
            )
        }
    }
}

/// The name at `g_offset` of `payload`: its characters and the offset behind it.
pub open spec fn name_at(payload: Seq<u8>, g_offset: int) -> Result<(Seq<char>, int), DnsFault> {
    if payload.len() <= g_offset {
        Err(DnsFault::PayloadTooShort)
    } else {
        match name_from(payload, g_offset, g_offset, g_offset, seq![]) {
            Err(e) => Err(e),
            Ok((bytes, next)) => if valid_utf8(bytes) {
                Ok((decode_utf8(bytes), next))
            } else {
                Err(DnsFault::NameEncoding)
            },
        }
    }
}

/// Decodes the name at `g_offset` of `payload`.
pub fn decode_name(payload: &[u8], g_offset: usize) -> (r: Result<(String, usize), Error>)
    requires
        payload@.len() <= isize::MAX,
    ensures
        match r {
            Ok((name, next)) => name_at(payload@, g_offset as int) == Ok::<
                (Seq<char>, int),
                DnsFault,
            >((name@, next as int)) && next <= payload@.len(),
            Err(e) => name_at(payload@, g_offset as int) matches Err(f) && e
                == Error::DnsLogParseFailed(f),
        },
{
    let n = payload.len();
    if n <= g_offset {
        return Err(Error::DnsLogParseFailed(DnsFault::PayloadTooShort));
    }
    let mut l_offset: usize = g_offset;
    let mut index: usize = g_offset;
    let mut buffer: Vec<u8> = Vec::new();
    while payload[index] != DNS_NAME_TAIL
        invariant
            n == payload@.len(),
            n <= isize::MAX,
            g_offset < n,
            index < n,
            l_offset < n,
            payload@[index as int] == DNS_NAME_TAIL || l_offset + 1 < n || index >= l_offset,
            buffer@.len() <= 255,
            name_from(payload@, g_offset as int, g_offset as int, g_offset as int, seq![])
                == name_from(payload@, g_offset as int, index as int, l_offset as int, buffer@),
        decreases 256 - buffer@.len(), index,
    {
        let head = payload[index];
        let name_type = head & 0xc0;
        if name_type == DNS_NAME_RESERVED_40 || name_type == DNS_NAME_RESERVED_80 {
            return Err(Error::DnsLogParseFailed(DnsFault::LabelType));
        } else if name_type == DNS_NAME_COMPRESS_POINTER {
            if index + 2 > n {
                return Err(Error::DnsLogParseFailed(DnsFault::NameIndex));
            }
            let index_ptr = (read_u16_be(payload, index) & 0x3fff) as usize;
            if index_ptr >= index {
                return Err(Error::DnsLogParseFailed(DnsFault::CompressPointer));
            }
            index = index_ptr;
        } else {
            let size: usize = index + 1 + head as usize;
            if size > n || (size > g_offset && size - g_offset > DNS_NAME_MAX_SIZE) {
                return Err(Error::DnsLogParseFailed(DnsFault::NameIndex));
            }
            let label = slice_subrange(payload, index + 1, size);
            if string_from_utf8(label).is_none() {
                return Err(Error::DnsLogParseFailed(DnsFault::NameEncoding));
            }
            let ghost before = buffer@;
            if label.len() > DNS_NAME_MAX_SIZE {
                assert(before.push(0x2eu8).len() == before.len() + 1);
                return Err(Error::DnsLogParseFailed(DnsFault::NameLength));
            }
            if buffer.len() > 0 {
                buffer.push(0x2e);
            }
            buffer.extend_from_slice(label);
            assert(buffer@ =~= if before.len() > 0 {
                before.push(0x2eu8) + label@
            } else {
                label@
            });
            if buffer.len() > DNS_NAME_MAX_SIZE {
                return Err(Error::DnsLogParseFailed(DnsFault::NameLength));
            }
            index = size;
            if index >= n {
                return Err(Error::DnsLogParseFailed(DnsFault::NameIndex));
            }
            if index > l_offset {
                l_offset = size;
            } else if payload[index] == DNS_NAME_TAIL {
                l_offset += 1;
            }
        }
    }
    match string_from_utf8(buffer.as_slice()) {
        Some(name) => Ok((name, l_offset + 1)),
        None => Err(Error::DnsLogParseFailed(DnsFault::NameEncoding)),
    }
}


/// Whether a separator goes before the next answer: some answer is there and
/// no separator stands at the end yet.
pub open spec fn needs_split(answers: Seq<char>) -> bool {
    let b = encode_utf8(answers);
    b.len() > 0 && b.last() != DOMAIN_NAME_SPLIT
}

/// The status that a response code stands for: 0 is no error, 1 (format
/// error) and 3 (no such name) are the client's, the others the server's.
pub open spec fn status_of(code: u8) -> L7ResponseStatus {
    if code == 0 {
        L7ResponseStatus::Normal
    } else if code == 1 || code == 3 {
        L7ResponseStatus::ClientError
    } else {
        L7ResponseStatus::ServerError
    }
}

/// The address in the `n` bytes at `g` of `payload`, where `n` is 4 or 16.
pub open spec fn address_at(payload: Seq<u8>, g: int, n: int) -> IpAddr {
    if n == 4 {
        IpAddr::spec_v4_from_slice(payload, g)
    } else {
        IpAddr::spec_v6_from_slice(payload, g)
    }
}

/// The parser after the question at `g`, and the offset behind the question.
pub open spec fn question_decoded(m: DnsModel, payload: Seq<u8>, g: int) -> (
    DnsModel,
    Result<int, DnsFault>,
) {
    match name_at(payload, g) {
        Err(e) => (m, Err(e)),
        Ok((name, off)) => if payload.len() - off < QUESTION_CLASS_TYPE_SIZE {
            (m, Err(DnsFault::QuestionLength))
        } else {
            let named = DnsModel {
                query_name: (if m.query_name.len() > 0 {
                    m.query_name.push(';')
                } else {
                    m.query_name
                }) + name,
                ..m
            };
            (
                if m.query_type == DNS_REQUEST {
                    DnsModel {
                        domain_type: be16(payload, off),
                        msg_type: LogMessageType::Request,
                        ..named
                    }
                } else {
                    named
                },
                Ok(off + QUESTION_CLASS_TYPE_SIZE),
            )
        },
    }
}

/// The parser after the data of a resource record of the type that the parser
/// holds: `data_length` bytes at `g`. An address record gives an address as
/// text, a name-server, delegation or authority record a name; the data of a
/// well-known-services record is looked at only where it is as long as an IPv6
/// address, the data of a pointer record never.
pub open spec fn rdata_decoded(m: DnsModel, payload: Seq<u8>, g: int, data_length: int) -> (
    DnsModel,
    Result<(), DnsFault>,
) {
    let split = DnsModel {
        answers: if needs_split(m.answers) {
            m.answers.push(';')
        } else {
            m.answers
        },
        ..m
    };
    let t = m.domain_type;
    if t == DNS_TYPE_A || t == DNS_TYPE_AAAA {
        if data_length != 4 && data_length != 16 {
            (split, Err(DnsFault::DataLength))
        } else if g + data_length > payload.len() {
            (split, Err(DnsFault::ResourceLength))
        } else {
            (
                DnsModel {
                    answers: split.answers + ip_text(address_at(payload, g, data_length)),
                    ..split
                },
                Ok(()),
            )
        }
    } else if t == DNS_TYPE_NS || t == DNS_TYPE_DNAME || t == DNS_TYPE_SOA {
        if data_length > DNS_NAME_MAX_SIZE {
            (split, Err(DnsFault::DataLength))
        } else {
            match name_at(payload, g) {
                Err(e) => (split, Err(e)),
                Ok((name, _)) => (DnsModel { answers: split.answers + name, ..split }, Ok(())),
            }
        }
    } else if t == DNS_TYPE_WKS {
        if data_length < DNS_TYPE_WKS_LENGTH {
            (split, Err(DnsFault::DataLength))
        } else if g + data_length > payload.len() {
            (split, Err(DnsFault::ResourceLength))
        } else if data_length == 16 {
            (
                DnsModel {
                    answers: split.answers + ip_text(address_at(payload, g, data_length)),
                    ..split
                },
                Ok(()),
            )
        } else {
            (split, Ok(()))
        }
    } else if t == DNS_TYPE_PTR {
        if data_length != DNS_TYPE_PTR_LENGTH {
            (split, Err(DnsFault::DataLength))
        } else {
            (split, Ok(()))
        }
    } else {
        (split, Err(DnsFault::DataLength))
    }
}

/// The parser after the resource record at `g`, and the offset behind the record.
pub open spec fn record_decoded(m: DnsModel, payload: Seq<u8>, g: int) -> (
    DnsModel,
    Result<int, DnsFault>,
) {
    match name_at(payload, g) {
        Err(e) => (m, Err(e)),
        Ok((_, off)) => if payload.len() <= off {
            (m, Err(DnsFault::PayloadTooShort))
        } else if payload.len() - off < RR_RDATA_OFFSET {
            (m, Err(DnsFault::ResourceLength))
        } else {
            let typed = DnsModel { domain_type: be16(payload, off), ..m };
            let data_length = be16(payload, off + RR_DATALENGTH_OFFSET);
            if data_length == 0 {
                (typed, Ok(off + RR_RDATA_OFFSET))
            } else {
                let (d, r) = rdata_decoded(typed, payload, off + RR_RDATA_OFFSET, data_length as int);
                match r {
                    Err(e) => (d, Err(e)),
                    Ok(_) => (d, Ok(off + RR_RDATA_OFFSET + data_length)),
                }
            }
        },
    }
}

/// The parser after `n` questions from `g` on.
pub open spec fn questions_decoded(m: DnsModel, payload: Seq<u8>, g: int, n: nat) -> (
    DnsModel,
    Result<int, DnsFault>,
)
    decreases n,
{
    if n == 0 {
        (m, Ok(g))
    } else {
        let (m1, r) = question_decoded(m, payload, g);
        match r {
            Err(e) => (m1, Err(e)),
            Ok(g1) => questions_decoded(m1, payload, g1, (n - 1) as nat),
        }
    }
}

/// The parser after `n` resource records from `g` on.
pub open spec fn records_decoded(m: DnsModel, payload: Seq<u8>, g: int, n: nat) -> (
    DnsModel,
    Result<int, DnsFault>,
)
    decreases n,
{
    if n == 0 {
        (m, Ok(g))
    } else {
        let (m1, r) = record_decoded(m, payload, g);
        match r {
            Err(e) => (m1, Err(e)),
            Ok(g1) => records_decoded(m1, payload, g1, (n - 1) as nat),
        }
    }
}

/// The head of the log record of what the parser holds.
pub open spec fn head_of(m: DnsModel) -> AppProtoHead {
    AppProtoHead {
        proto: L7Protocol::Dns,
        msg_type: m.msg_type,
        status: m.status,
        code: m.status_code as u16,
        rrt: 0,
        version: 0,
    }
}

/// The parser after the message `payload`: the header, the questions, and for
/// a response the answer and the authority records.
pub open spec fn payload_decoded(m: DnsModel, payload: Seq<u8>) -> (
    DnsModel,
    Result<AppProtoHead, DnsFault>,
) {
    if payload.len() <= DNS_HEADER_SIZE {
        (m, Err(DnsFault::PayloadTooShort))
    } else {
        let code = payload[DNS_HEADER_FLAGS_OFFSET + 1] & 0xf;
        let head = DnsModel {
            trans_id: be16(payload, 0),
            query_type: payload[DNS_HEADER_FLAGS_OFFSET as int] & 0x80,
            status_code: code,
            status: status_of(code),
            ..m
        };
        let (q, rq) = questions_decoded(
            head,
            payload,
            DNS_HEADER_SIZE as int,
            be16(payload, DNS_HEADER_QDCOUNT_OFFSET as int) as nat,
        );
        match rq {
            Err(e) => (q, Err(e)),
            Ok(g) => if q.query_type == DNS_RESPONSE {
                let (a, ra) = records_decoded(
                    DnsModel { query_type: 1, ..q },
                    payload,
                    g,
                    be16(payload, DNS_HEADER_ANCOUNT_OFFSET as int) as nat,
                );
                match ra {
                    Err(e) => (a, Err(e)),
                    Ok(g2) => {
                        let (s, rs) = records_decoded(
                            a,
                            payload,
                            g2,
                            be16(payload, DNS_HEADER_NSCOUNT_OFFSET as int) as nat,
                        );
                        match rs {
                            Err(e) => (s, Err(e)),
                            Ok(_) => (
                                DnsModel { msg_type: LogMessageType::Response, ..s },
                                Ok(head_of(DnsModel { msg_type: LogMessageType::Response, ..s })),
                            ),
                        }
                    },
                }
            } else {
                (q, Ok(head_of(q)))
            },
        }
    }
}

/// The parser after the payload of a packet over transport `proto`. What the
/// parser held of an earlier message is forgotten first. Over TCP the length
/// before the message must cover what follows it.
pub open spec fn parsed(m: DnsModel, payload: Seq<u8>, proto: IpProtocol) -> (
    DnsModel,
    Result<AppProtoHead, DnsFault>,
) {
    let fresh = DnsModel { trans_id: 0, query_type: 0, query_name: seq![], answers: seq![], ..m };
    match proto {
        IpProtocol::Udp => payload_decoded(fresh, payload),
        IpProtocol::Tcp => if payload.len() <= DNS_TCP_PAYLOAD_OFFSET || be16(payload, 0)
            < payload.len() - DNS_TCP_PAYLOAD_OFFSET {
            (fresh, Err(DnsFault::Framing))
        } else {
            payload_decoded(
                fresh,
                payload.subrange(DNS_TCP_PAYLOAD_OFFSET as int, payload.len() as int),
            )
        },
        _ => (fresh, Err(DnsFault::Framing)),
    }
}

/// Lifts a result of a step of the parser to a result of the library.
pub open spec fn lifted<T>(r: Result<T, DnsFault>) -> Result<T, Error> {
    match r {
        Ok(v) => Ok(v),
        Err(f) => Err(Error::DnsLogParseFailed(f)),
    }
}

impl DnsLog {
    pub fn new() -> (r: DnsLog)
        ensures
            r@ == (DnsModel {
                trans_id: 0,
                query_type: 0,
                domain_type: 0,
                query_name: seq![],
                answers: seq![],
                msg_type: LogMessageType::Other,
                status: L7ResponseStatus::Normal,
                status_code: 0,
            }),
    {
        let r = DnsLog {
            info: DnsInfo::default(),
            msg_type: LogMessageType::Other,
            status: L7ResponseStatus::Normal,
            status_code: 0,
        };
        assert(r@.query_name =~= seq![] && r@.answers =~= seq![]);
        r
    }

    /// Forgets the last message.
    pub fn reset_logs(&mut self)
        ensures
            final(self)@ == (DnsModel {
                trans_id: 0,
                query_type: 0,
                query_name: seq![],
                answers: seq![],
                ..old(self)@
            }),
    {
        self.info.trans_id = 0;
        self.info.query_type = 0;
        self.info.query_name = String::new();
        self.info.answers = String::new();
        assert(self@.query_name =~= seq![] && self@.answers =~= seq![]);
    }

    /// Decodes the name at `g_offset` of `payload`.
    pub fn decode_name(&self, payload: &[u8], g_offset: usize) -> (r: Result<(String, usize), Error>)
        requires
            payload@.len() <= isize::MAX,
        ensures
            match r {
                Ok((name, next)) => name_at(payload@, g_offset as int) == Ok::<
                    (Seq<char>, int),
                    DnsFault,
                >((name@, next as int)) && next <= payload@.len(),
                Err(e) => name_at(payload@, g_offset as int) matches Err(f) && e
                    == Error::DnsLogParseFailed(f),
            },
    {
        decode_name(payload, g_offset)
    }

    /// Decodes the question at `g_offset` and returns the offset behind it.
    pub fn decode_question(&mut self, payload: &[u8], g_offset: usize) -> (r: Result<usize, Error>)
        requires
            payload@.len() <= isize::MAX,
        ensures
            final(self)@ == question_decoded(old(self)@, payload@, g_offset as int).0,
            match r {
                Ok(next) => question_decoded(old(self)@, payload@, g_offset as int).1 == Ok::<
                    int,
                    DnsFault,
                >(next as int),
                Err(e) => question_decoded(old(self)@, payload@, g_offset as int).1 matches Err(f)
                    && e == Error::DnsLogParseFailed(f),
            },
    {
        let (name, offset) = match decode_name(payload, g_offset) {
            Err(e) => {
                return Err(e);
            },
            Ok(x) => x,
        };
        if payload.len() - offset < QUESTION_CLASS_TYPE_SIZE {
            return Err(Error::DnsLogParseFailed(DnsFault::QuestionLength));
        }
        if !self.info.query_name.as_str().is_empty() {
            push_char(&mut self.info.query_name, ';');
        }
        self.info.query_name.append(name.as_str());
        if self.info.query_type == DNS_REQUEST {
            self.info.domain_type = read_u16_be(payload, offset);
            self.msg_type = LogMessageType::Request;
        }
        Ok(offset + QUESTION_CLASS_TYPE_SIZE)
    }

    /// Renders the data of a resource record of the type that the parser holds.
    pub fn decode_rdata(&mut self, payload: &[u8], g_offset: usize, data_length: usize) -> (r:
        Result<(), Error>)
        requires
            payload@.len() <= isize::MAX,
            data_length <= u16::MAX,
        ensures
            final(self)@ == rdata_decoded(
                old(self)@,
                payload@,
                g_offset as int,
                data_length as int,
            ).0,
            lifted(rdata_decoded(old(self)@, payload@, g_offset as int, data_length as int).1) == r,
    {
        let held = self.info.answers.as_str().as_bytes();
        if held.len() > 0 && held[held.len() - 1] != DOMAIN_NAME_SPLIT {
            push_char(&mut self.info.answers, ';');
        }
        let t = self.info.domain_type;
        if t == DNS_TYPE_A || t == DNS_TYPE_AAAA {
            if data_length != 4 && data_length != 16 {
                return Err(Error::DnsLogParseFailed(DnsFault::DataLength));
            }
            if g_offset > payload.len() || data_length > payload.len() - g_offset {
                return Err(Error::DnsLogParseFailed(DnsFault::ResourceLength));
            }
            let ip = if data_length == 4 {
                IpAddr::v4_from_slice(payload, g_offset)
            } else {
                IpAddr::v6_from_slice(payload, g_offset)
            };
            append_ip(&mut self.info.answers, ip);
            Ok(())
        } else if t == DNS_TYPE_NS || t == DNS_TYPE_DNAME || t == DNS_TYPE_SOA {
            if data_length > DNS_NAME_MAX_SIZE {
                return Err(Error::DnsLogParseFailed(DnsFault::DataLength));
            }
            match decode_name(payload, g_offset) {
                Err(e) => Err(e),
                Ok((name, _)) => {
                    self.info.answers.append(name.as_str());
                    Ok(())
                },
            }
        } else if t == DNS_TYPE_WKS {
            if data_length < DNS_TYPE_WKS_LENGTH {
                return Err(Error::DnsLogParseFailed(DnsFault::DataLength));
            }
            if g_offset > payload.len() || data_length > payload.len() - g_offset {
                return Err(Error::DnsLogParseFailed(DnsFault::ResourceLength));
            }
            if data_length == 16 {
                append_ip(&mut self.info.answers, IpAddr::v6_from_slice(payload, g_offset));
            }
            Ok(())
        } else if t == DNS_TYPE_PTR {
            if data_length != DNS_TYPE_PTR_LENGTH {
                return Err(Error::DnsLogParseFailed(DnsFault::DataLength));
            }
            Ok(())
        } else {
            Err(Error::DnsLogParseFailed(DnsFault::DataLength))
        }
    }

    /// Decodes the resource record at `g_offset` and returns the offset behind it.
    pub fn decode_resource_record(&mut self, payload: &[u8], g_offset: usize) -> (r: Result<
        usize,
        Error,
    >)
        requires
            payload@.len() <= isize::MAX,
        ensures
            final(self)@ == record_decoded(old(self)@, payload@, g_offset as int).0,
            match r {
                Ok(next) => record_decoded(old(self)@, payload@, g_offset as int).1 == Ok::<
                    int,
                    DnsFault,
                >(next as int),
                Err(e) => record_decoded(old(self)@, payload@, g_offset as int).1 matches Err(f)
                    && e == Error::DnsLogParseFailed(f),
            },
    {
        let (_, offset) = match decode_name(payload, g_offset) {
            Err(e) => {
                return Err(e);
            },
            Ok(x) => x,
        };
        if payload.len() <= offset {
            return Err(Error::DnsLogParseFailed(DnsFault::PayloadTooShort));
        }
        if payload.len() - offset < RR_RDATA_OFFSET {
            return Err(Error::DnsLogParseFailed(DnsFault::ResourceLength));
        }
        self.info.domain_type = read_u16_be(payload, offset);
        let data_length = read_u16_be(payload, offset + RR_DATALENGTH_OFFSET) as usize;
        if data_length != 0 {
            match self.decode_rdata(payload, offset + RR_RDATA_OFFSET, data_length) {
                Err(e) => {
                    return Err(e);
                },
                Ok(_) => {},
            }
        }
        Ok(offset + RR_RDATA_OFFSET + data_length)
    }

    /// Sets the status by the response code.
    pub fn set_status(&mut self, status_code: u8)
        ensures
            final(self)@ == (DnsModel { status: status_of(status_code), ..old(self)@ }),
    {
        if status_code == 0 {
            self.status = L7ResponseStatus::Normal;
        } else if status_code == 1 || status_code == 3 {
            self.status = L7ResponseStatus::ClientError;
        } else {
            self.status = L7ResponseStatus::ServerError;
        }
    }

    /// Decodes `n` questions from `g_offset` on.
    fn decode_questions(&mut self, payload: &[u8], g_offset: usize, n: u16) -> (r: Result<
        usize,
        Error,
    >)
        requires
            payload@.len() <= isize::MAX,
        ensures
            final(self)@ == questions_decoded(old(self)@, payload@, g_offset as int, n as nat).0,
            match r {
                Ok(next) => questions_decoded(old(self)@, payload@, g_offset as int, n as nat).1
                    == Ok::<int, DnsFault>(next as int),
                Err(e) => questions_decoded(
                    old(self)@,
                    payload@,
                    g_offset as int,
                    n as nat,
                ).1 matches Err(f) && e == Error::DnsLogParseFailed(f),
            },
        decreases n,
    {
        if n == 0 {
            return Ok(g_offset);
        }
        match self.decode_question(payload, g_offset) {
            Err(e) => Err(e),
            Ok(next) => self.decode_questions(payload, next, n - 1),
        }
    }

    /// Decodes `n` resource records from `g_offset` on.
    fn decode_records(&mut self, payload: &[u8], g_offset: usize, n: u16) -> (r: Result<
        usize,
        Error,
    >)
        requires
            payload@.len() <= isize::MAX,
        ensures
            final(self)@ == records_decoded(old(self)@, payload@, g_offset as int, n as nat).0,
            match r {
                Ok(next) => records_decoded(old(self)@, payload@, g_offset as int, n as nat).1
                    == Ok::<int, DnsFault>(next as int),
                Err(e) => records_decoded(
                    old(self)@,
                    payload@,
                    g_offset as int,
                    n as nat,
                ).1 matches Err(f) && e == Error::DnsLogParseFailed(f),
            },
        decreases n,
    {
        if n == 0 {
            return Ok(g_offset);
        }
        match self.decode_resource_record(payload, g_offset) {
            Err(e) => Err(e),
            Ok(next) => self.decode_records(payload, next, n - 1),
        }
    }

    /// Decodes one message.
    pub fn decode_payload(&mut self, payload: &[u8]) -> (r: Result<AppProtoHead, Error>)
        requires
            payload@.len() <= isize::MAX,
        ensures
            final(self)@ == payload_decoded(old(self)@, payload@).0,
            r == lifted(payload_decoded(old(self)@, payload@).1),
    {
        if payload.len() <= DNS_HEADER_SIZE {
            return Err(Error::DnsLogParseFailed(DnsFault::PayloadTooShort));
        }
        self.info.trans_id = read_u16_be(payload, 0);
        self.info.query_type = payload[DNS_HEADER_FLAGS_OFFSET] & 0x80;
        self.status_code = payload[DNS_HEADER_FLAGS_OFFSET + 1] & 0xf;
        self.set_status(self.status_code);
        let qd_count = read_u16_be(payload, DNS_HEADER_QDCOUNT_OFFSET);
        let an_count = read_u16_be(payload, DNS_HEADER_ANCOUNT_OFFSET);
        let ns_count = read_u16_be(payload, DNS_HEADER_NSCOUNT_OFFSET);
        let mut g_offset = match self.decode_questions(payload, DNS_HEADER_SIZE, qd_count) {
            Err(e) => {
                return Err(e);
            },
            Ok(g) => g,
        };
        if self.info.query_type == DNS_RESPONSE {
            self.info.query_type = 1;
            g_offset = match self.decode_records(payload, g_offset, an_count) {
                Err(e) => {
                    return Err(e);
                },
                Ok(g) => g,
            };
            match self.decode_records(payload, g_offset, ns_count) {
                Err(e) => {
                    return Err(e);
                },
                Ok(_) => {},
            }
            self.msg_type = LogMessageType::Response;
        }
        Ok(
            AppProtoHead {
                proto: L7Protocol::Dns,
                msg_type: self.msg_type,
                status: self.status,
                code: self.status_code as u16,
                rrt: 0,
                version: 0,
            },
        )
    }

    /// Parses the payload of a packet over transport `proto`.
    pub fn parse_payload(&mut self, payload: &[u8], proto: IpProtocol) -> (r: Result<
        AppProtoHead,
        Error,
    >)
        requires
            payload@.len() <= isize::MAX,
        ensures
            final(self)@ == parsed(old(self)@, payload@, proto).0,
            r == lifted(parsed(old(self)@, payload@, proto).1),
    {
        self.reset_logs();
        match proto {
            IpProtocol::Udp => self.decode_payload(payload),
            IpProtocol::Tcp => {
                if payload.len() <= DNS_TCP_PAYLOAD_OFFSET {
                    return Err(Error::DnsLogParseFailed(DnsFault::Framing));
                }
                let size = read_u16_be(payload, 0);
                if (size as usize) < payload.len() - DNS_TCP_PAYLOAD_OFFSET {
                    return Err(Error::DnsLogParseFailed(DnsFault::Framing));
                }
                self.decode_payload(slice_subrange(payload, DNS_TCP_PAYLOAD_OFFSET, payload.len()))
            },
            _ => Err(Error::DnsLogParseFailed(DnsFault::Framing)),
        }
    }
}

impl Default for DnsLog {
    fn default() -> (r: Self)
        ensures
            r@ == (DnsModel {
                trans_id: 0,
                query_type: 0,
                domain_type: 0,
                query_name: seq![],
                answers: seq![],
                msg_type: LogMessageType::Other,
                status: L7ResponseStatus::Normal,
                status_code: 0,
            }),
    {
        DnsLog::new()
    }
}

/// The candidates without DNS: bit 120 of the bitmap cleared.
pub open spec fn without_dns(bitmap: u128) -> u128 {
    bitmap & !(1u128 << 120)
}

/// Whether `packet` is taken for a DNS query, and what is left of the
/// candidates `bitmap` of its flow.
///
/// Only a packet to port 53 can be a query; a packet that neither goes to nor
/// comes from port 53 rules DNS out for the flow. A payload over UDP that is
/// no DNS message rules DNS out too.
pub open spec fn dns_checked(bitmap: u128, packet: MetaPacket) -> (bool, u128) {
    if packet.lookup_key.dst_port != DNS_PORT {
        (
            false,
            if packet.lookup_key.src_port != DNS_PORT {
                without_dns(bitmap)
            } else {
                bitmap
            },
        )
    } else {
        match packet.spec_l4_payload() {
            None => (false, bitmap),
            Some(payload) => {
                let (m, r) = parsed(DnsLog::new_model(), payload, packet.lookup_key.proto);
                if r is Err && packet.lookup_key.proto == IpProtocol::Udp {
                    (false, without_dns(bitmap))
                } else {
                    (r is Ok && m.msg_type == LogMessageType::Request, bitmap)
                }
            },
        }
    }
}

impl DnsLog {
    /// What a new parser holds.
    pub open spec fn new_model() -> DnsModel {
        DnsModel {
            trans_id: 0,
            query_type: 0,
            domain_type: 0,
            query_name: seq![],
            answers: seq![],
            msg_type: LogMessageType::Other,
            status: L7ResponseStatus::Normal,
            status_code: 0,
        }
    }
}

/// Tells whether `packet` is a DNS query, and clears the bit of DNS in
/// `bitmap` where the packet rules DNS out for its flow.
pub fn dns_check_protocol(bitmap: &mut u128, packet: &MetaPacket) -> (r: bool)
    requires
        packet.spec_l4_payload() matches Some(p) ==> p.len() <= isize::MAX,
    ensures
        (r, *final(bitmap)) == dns_checked(*old(bitmap), *packet),
{
    if packet.lookup_key.dst_port != DNS_PORT {
        if packet.lookup_key.src_port != DNS_PORT {
            *bitmap = *bitmap & !(1u128 << 120);
        }
        return false;
    }
    let payload = match packet.get_l4_payload() {
        None => {
            return false;
        },
        Some(p) => p,
    };
    let mut dns = DnsLog::new();
    let ret = dns.parse_payload(payload, packet.lookup_key.proto);
    if ret.is_err() && packet.lookup_key.proto == IpProtocol::Udp {
        *bitmap = *bitmap & !(1u128 << 120);
        return false;
    }
    ret.is_ok() && dns.msg_type == LogMessageType::Request
}

impl DnsLog {
    /// What the last message says.
    pub fn log_info(&self) -> (r: AppProtoLogsInfoEnum)
        ensures
            r == AppProtoLogsInfoEnum::Single(AppProtoLogsInfo::Dns(self.info)),
    {
        AppProtoLogsInfoEnum::Single(
            AppProtoLogsInfo::Dns(
                DnsInfo {
                    trans_id: self.info.trans_id,
                    query_type: self.info.query_type,
                    domain_type: self.info.domain_type,
                    query_name: self.info.query_name.clone(),
                    answers: self.info.answers.clone(),
                },
            ),
        )
    }
}

impl L7LogParse for DnsLog {
    /// What the last message says: one record, with what the parser holds.
    fn info(&self) -> (r: AppProtoLogsInfoEnum)
        ensures
            r == AppProtoLogsInfoEnum::Single(AppProtoLogsInfo::Dns(self.info)),
    {
        self.log_info()
    }

    /// Parses the payload of a packet over transport `proto`, whatever its
    /// direction: the parser afterwards and the head are those of
    /// `parse_payload`, the head as the one head of the payload. A payload
    /// longer than any slice of memory is rejected untouched.
    fn parse(&mut self, payload: &[u8], proto: IpProtocol, direction: PacketDirection) -> (r:
        Result<AppProtoHeadEnum, Error>)
        ensures
            payload@.len() <= isize::MAX ==> final(self)@ == parsed(old(self)@, payload@, proto).0
                && r == match lifted(parsed(old(self)@, payload@, proto).1) {
                Ok(head) => Ok::<AppProtoHeadEnum, Error>(AppProtoHeadEnum::Single(head)),
                Err(e) => Err(e),
            },
            payload@.len() > isize::MAX ==> *final(self) == *old(self) && r == Err::<
                AppProtoHeadEnum,
                Error,
            >(Error::DnsLogParseFailed(DnsFault::Framing)),
    {
        if payload.len() > isize::MAX as usize {
            return Err(Error::DnsLogParseFailed(DnsFault::Framing));
        }
        match self.parse_payload(payload, proto) {
            Ok(head) => Ok(AppProtoHeadEnum::Single(head)),
            Err(e) => Err(e),
        }
    }
}

/// A compression pointer that does not point before itself is rejected, at
/// the very first byte of a name as anywhere.
pub proof fn lemma_forward_pointer_rejected(payload: Seq<u8>, g: int)
    requires
        0 <= g,
        g + 2 <= payload.len(),
        payload[g] & 0xc0 == DNS_NAME_COMPRESS_POINTER,
        (be16(payload, g) & 0x3fff) >= g,
    ensures
        name_at(payload, g) == Err::<(Seq<char>, int), DnsFault>(DnsFault::CompressPointer),
{
    let b = payload[g];
    assert(b & 0xc0 == 0xc0 ==> b != 0 && b & 0xc0 != 0x40 && b & 0xc0 != 0x80) by (bit_vector);
}

} // verus!
