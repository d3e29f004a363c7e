//! The MySQL log parser.
//!
//! Each message has a header of four bytes before it: its length in three
//! bytes, least significant first, and a sequence number.

use vstd::prelude::*;
use vstd::string::{string_is_ascii, StringExecFnsIsAscii};
use vstd::utf8::is_ascii_chars;
use crate::bytes::{le16, le24, le32, le64, read_u16_le, read_u32_le, read_u64_le};
use crate::enums::{IpProtocol, PacketDirection};
use crate::error::Error;
use crate::flow::L7Protocol;
use crate::meta_packet::{slice_subrange, MetaPacket};
use crate::outside::{string_from_utf8_lossy, utf8_lossy};
use crate::protocol_logs::{
    AppProtoHead, AppProtoHeadEnum, AppProtoLogsData, AppProtoLogsInfo, AppProtoLogsInfoEnum,
    L7LogParse, L7ResponseStatus, LogMessageType,
};

verus! {

pub const PROTOCOL_VERSION: u8 = 10;
pub const HEADER_LEN: usize = 4;
pub const NUMBER_OFFSET: usize = 3;
pub const RESPONSE_CODE_LEN: usize = 1;
pub const RESPONSE_CODE_OFFSET: usize = 0;
pub const ERROR_CODE_LEN: usize = 2;
pub const ERROR_CODE_OFFSET: usize = 1;
pub const AFFECTED_ROWS_OFFSET: usize = 1;
/// The marker `#` and the five characters of the SQL state behind it.
pub const SQL_STATE_LEN: usize = 6;
pub const SQL_STATE_OFFSET: usize = 3;
pub const SQL_STATE_MARKER: u8 = 0x23;
pub const MYSQL_RESPONSE_CODE_OK: u8 = 0x00;
pub const MYSQL_RESPONSE_CODE_ERR: u8 = 0xff;
pub const MYSQL_RESPONSE_CODE_EOF: u8 = 0xfe;
pub const INT_FLAGS_2: u8 = 0xfc;
pub const INT_FLAGS_3: u8 = 0xfd;
pub const INT_FLAGS_8: u8 = 0xfe;
pub const INT_BASE_LEN: usize = 1;
pub const PROTOCOL_VERSION_LEN: usize = 1;
pub const PROTOCOL_VERSION_OFFSET: usize = 0;
pub const SERVER_VERSION_OFFSET: usize = 1;
pub const SERVER_VERSION_EOF: u8 = 0;
pub const THREAD_ID_LEN: usize = 4;
pub const COMMAND_OFFSET: usize = 0;
pub const COMMAND_LEN: usize = 1;
pub const COM_QUIT: u8 = 1;
pub const COM_INIT_DB: u8 = 2;
pub const COM_QUERY: u8 = 3;
pub const COM_FIELD_LIST: u8 = 4;
pub const COM_STMT_PREPARE: u8 = 22;
pub const COM_STMT_EXECUTE: u8 = 23;
pub const COM_STMT_CLOSE: u8 = 25;
pub const COM_STMT_FETCH: u8 = 28;

/// What a MySQL message says.
#[derive(Clone, Debug)]
pub struct MysqlInfo {
    pub protocol_version: u8,
    pub server_version: String,
    pub server_thread_id: u32,
    pub command: u8,
    pub context: String,
    pub response_code: u8,
    pub error_code: u16,
    pub affected_rows: u64,
    pub error_message: String,
}

impl MysqlInfo {
    pub fn new() -> (r: MysqlInfo)
        ensures
            r.protocol_version == 0 && r.server_thread_id == 0 && r.command == 0,
            r.response_code == 0 && r.error_code == 0 && r.affected_rows == 0,
            r.server_version@.len() == 0 && r.context@.len() == 0 && r.error_message@.len() == 0,
    {
        MysqlInfo {
            protocol_version: 0,
            server_version: String::new(),
            server_thread_id: 0,
            command: 0,
            context: String::new(),
            response_code: 0,
            error_code: 0,
            affected_rows: 0,
            error_message: String::new(),
        }
    }

    /// A response gives its outcome to the request that it is paired with.
    pub fn merge(&mut self, other: MysqlInfo)
        ensures
            final(self).response_code == other.response_code,
            final(self).affected_rows == other.affected_rows,
            final(self).error_code == other.error_code,
            final(self).error_message == other.error_message,
            final(self).protocol_version == old(self).protocol_version,
            final(self).server_version == old(self).server_version,
            final(self).server_thread_id == old(self).server_thread_id,
            final(self).command == old(self).command,
            final(self).context == old(self).context,
    {
        self.response_code = other.response_code;
        self.affected_rows = other.affected_rows;
        self.error_code = other.error_code;
        self.error_message = other.error_message;
    }
}

impl Default for MysqlInfo {
    fn default() -> (r: Self)
        ensures
            r.protocol_version == 0 && r.server_thread_id == 0 && r.command == 0,
            r.response_code == 0 && r.error_code == 0 && r.affected_rows == 0,
            r.server_version@.len() == 0 && r.context@.len() == 0 && r.error_message@.len() == 0,
    {
        MysqlInfo::new()
    }
}

/// The bytes of a statement without the two bytes, zero and one, that some
/// servers put before it.
pub open spec fn statement_bytes(payload: Seq<u8>) -> Seq<u8> {
    if payload.len() > 2 && payload[0] == 0 && payload[1] == 1 {
        payload.subrange(2, payload.len() as int)
    } else {
        payload
    }
}

/// The text of a statement.
pub fn mysql_string(payload: &[u8]) -> (r: String)
    ensures
        r@ == utf8_lossy(statement_bytes(payload@)),
{
    if payload.len() > 2 && payload[0] == 0 && payload[1] == 1 {
        string_from_utf8_lossy(slice_subrange(payload, 2, payload.len()))
    } else {
        assert(payload@ =~= statement_bytes(payload@));
        string_from_utf8_lossy(payload)
    }
}

/// The length-encoded integer at the head of `payload`: a first byte of
/// `0xfc`, `0xfd` or `0xfe` announces two, three or eight bytes, least
/// significant first, where they are all there; any other first byte, and one
/// of these without its bytes, is the number itself. Nothing is zero.
pub open spec fn compress_int(payload: Seq<u8>) -> u64 {
    if payload.len() == 0 {
        0
    } else if payload[0] == INT_FLAGS_2 && payload.len() >= INT_BASE_LEN + 2 {
        le16(payload, 1) as u64
    } else if payload[0] == INT_FLAGS_3 && payload.len() >= INT_BASE_LEN + 3 {
        le24(payload, 1) as u64
    } else if payload[0] == INT_FLAGS_8 && payload.len() >= INT_BASE_LEN + 8 {
        le64(payload, 1)
    } else {
        payload[0] as u64
    }
}

/// The status that an error code stands for: none is no error, the codes 2000
/// to 2999 are the client's, the others the server's.
pub open spec fn status_of(code: u16) -> L7ResponseStatus {
    if code == 0 {
        L7ResponseStatus::Normal
    } else if 2000 <= code <= 2999 {
        L7ResponseStatus::ClientError
    } else {
        L7ResponseStatus::ServerError
    }
}

/// Where the first zero byte stands in `s` from `from` on, if one does.
pub open spec fn first_zero(s: Seq<u8>, from: int) -> Option<int>
    decreases s.len() - from,
{
    if from < 0 || from >= s.len() {
        None
    } else if s[from] == 0 {
        Some(from)
    } else {
        first_zero(s, from + 1)
    }
}

fn find_zero(s: &[u8], from: usize) -> (r: Option<usize>)
    requires
        from <= s@.len(),
    ensures
        match r {
            Some(i) => first_zero(s@, from as int) == Some(i as int) && from <= i < s@.len(),
            None => first_zero(s@, from as int) is None,
        },
{
    let mut i: usize = from;
    while i < s.len()
        invariant
            from <= i <= s@.len(),
            first_zero(s@, from as int) == first_zero(s@, i as int),
        decreases s@.len() - i,
    {
        if s[i] == 0 {
            return Some(i);
        }
        i += 1;
    }
    None
}

/// The header of a MySQL message.
#[derive(Clone, Copy, Debug, PartialEq, Eq, Structural)]
pub struct MysqlHeader {
    pub length: u32,
    pub number: u8,
}

/// What a header at the head of `payload` says and where the message behind
/// it begins, with `held` the header known before.
///
/// A header is taken as it stands where its sequence number is zero or where
/// the message behind it begins like a response. Else the message is skipped
/// and the next header is looked at; where the payload ends before it, the
/// offset is zero. A payload too short for a header gives -1.
pub open spec fn header_decoded(held: MysqlHeader, payload: Seq<u8>) -> (MysqlHeader, int)
    decreases payload.len(),
{
    if payload.len() < 5 {
        (held, -1)
    } else if payload[4] == MYSQL_RESPONSE_CODE_OK || payload[4] == MYSQL_RESPONSE_CODE_ERR
        || payload[4] == MYSQL_RESPONSE_CODE_EOF || payload[3] == 0 {
        (MysqlHeader { length: le24(payload, 0), number: payload[3] }, HEADER_LEN as int)
    } else {
        let offset = le24(payload, 0) + HEADER_LEN;
        if offset >= payload.len() {
            (held, 0)
        } else {
            let (h, inner) = header_decoded(held, payload.subrange(offset, payload.len() as int));
            (h, offset + inner)
        }
    }
}

/// What kind of message stands at `offset` of `payload`, by its header and the
/// direction of the packet, if the parser takes it at all. `l7_proto` says
/// whether the flow is known to be MySQL.
///
/// A first message from the server is a greeting, and must have the protocol
/// version 10 and a server version that is not empty; a later one is a
/// response. A first message from the client is a request.
pub open spec fn checked(
    header: MysqlHeader,
    direction: PacketDirection,
    offset: int,
    payload: Seq<u8>,
    l7_proto: L7Protocol,
) -> Option<LogMessageType> {
    if offset < 0 || offset >= payload.len() || header.length == 0 {
        None
    } else if header.number != 0 && l7_proto == L7Protocol::Unknown {
        None
    } else {
        match direction {
            PacketDirection::ServerToClient => if header.number == 0 {
                match first_zero(payload, offset + SERVER_VERSION_OFFSET) {
                    None => None,
                    Some(z) => if z != offset + SERVER_VERSION_OFFSET && payload[offset]
                        == PROTOCOL_VERSION {
                        Some(LogMessageType::Other)
                    } else {
                        None
                    },
                }
            } else {
                Some(LogMessageType::Response)
            },
            PacketDirection::ClientToServer => if header.number == 0 {
                Some(LogMessageType::Request)
            } else {
                None
            },
        }
    }
}

impl MysqlHeader {
    /// Decodes the header at the head of `payload` and returns the offset of
    /// the message behind it, or a number below zero.
    pub fn decode(&mut self, payload: &[u8]) -> (r: isize)
        requires
            payload@.len() <= isize::MAX,
        ensures
            (*final(self), r as int) == header_decoded(*old(self), payload@),
            -1 <= r < payload@.len() || r == -1,
        decreases payload@.len(),
    {
        if payload.len() < 5 {
            return -1;
        }
        reveal(le24);
        reveal(le32);
        let len = read_u32_le(payload, 0) % 0x100_0000;
        if payload[HEADER_LEN + RESPONSE_CODE_OFFSET] == MYSQL_RESPONSE_CODE_OK || payload[HEADER_LEN
            + RESPONSE_CODE_OFFSET] == MYSQL_RESPONSE_CODE_ERR || payload[HEADER_LEN
            + RESPONSE_CODE_OFFSET] == MYSQL_RESPONSE_CODE_EOF || payload[NUMBER_OFFSET] == 0 {
            self.length = len;
            self.number = payload[NUMBER_OFFSET];
            return HEADER_LEN as isize;
        }
        let offset = len as usize + HEADER_LEN;
        if offset >= payload.len() {
            return 0;
        }
        let inner = self.decode(slice_subrange(payload, offset, payload.len()));
        offset as isize + inner
    }

    /// Tells what kind of message stands at `offset` of `payload`.
    pub fn check(&self, direction: PacketDirection, offset: usize, payload: &[u8], l7_proto: L7Protocol) -> (r:
        Option<LogMessageType>)
        ensures
            r == checked(*self, direction, offset as int, payload@, l7_proto),
            r is Some ==> offset < payload@.len(),
    {
        if offset >= payload.len() || self.length == 0 {
            return None;
        }
        if self.number != 0 && l7_proto == L7Protocol::Unknown {
            return None;
        }
        match direction {
            PacketDirection::ServerToClient => {
                if self.number == 0 {
                    let protocol_version = payload[offset + PROTOCOL_VERSION_OFFSET];
                    match find_zero(payload, offset + SERVER_VERSION_OFFSET) {
                        None => None,
                        Some(z) => {
                            if z != offset + SERVER_VERSION_OFFSET && protocol_version
                                == PROTOCOL_VERSION {
                                Some(LogMessageType::Other)
                            } else {
                                None
                            }
                        },
                    }
                } else {
                    Some(LogMessageType::Response)
                }
            },
            PacketDirection::ClientToServer => {
                if self.number == 0 {
                    Some(LogMessageType::Request)
                } else {
                    None
                }
            },
        }
    }
}

impl Default for MysqlHeader {
    fn default() -> (r: Self)
        ensures
            r == (MysqlHeader { length: 0, number: 0 }),
    {
        MysqlHeader { length: 0, number: 0 }
    }
}

/// The state of the MySQL parser.
#[derive(Clone, Debug)]
pub struct MysqlLog {
    pub info: MysqlInfo,
    /// `Mysql` once a greeting or a request was seen on the flow.
    pub l7_proto: L7Protocol,
    pub msg_type: LogMessageType,
    pub status: L7ResponseStatus,
}

/// Whether a command carries no text: quit, field list, and the execution,
/// the closing and the fetching of a prepared statement.
pub open spec fn command_is_bare(c: u8) -> bool {
    c == COM_QUIT || c == COM_FIELD_LIST || c == COM_STMT_EXECUTE || c == COM_STMT_CLOSE || c
        == COM_STMT_FETCH
}

/// Whether a command carries a statement as text: the choice of a database,
/// a query, and the preparing of a statement.
pub open spec fn command_has_text(c: u8) -> bool {
    c == COM_INIT_DB || c == COM_QUERY || c == COM_STMT_PREPARE
}

/// Where the message of an error response begins: behind the SQL state where
/// a marker announces one, else behind the error code; nowhere past the end.
pub open spec fn error_message_offset(payload: Seq<u8>) -> int {
    let remain: int = if payload.len() - 1 > ERROR_CODE_LEN {
        payload.len() - 3
    } else {
        payload.len() - 1
    };
    let offset: int = if remain > SQL_STATE_LEN && payload[SQL_STATE_OFFSET as int]
        == SQL_STATE_MARKER {
        (SQL_STATE_OFFSET + SQL_STATE_LEN) as int
    } else {
        SQL_STATE_OFFSET as int
    };
    if offset > payload.len() {
        payload.len() as int
    } else {
        offset
    }
}

impl MysqlLog {
    pub fn new() -> (r: MysqlLog)
        ensures
            r.l7_proto == L7Protocol::Unknown,
            r.msg_type == LogMessageType::Other,
            r.status == L7ResponseStatus::Normal,
            r.info.protocol_version == 0 && r.info.command == 0 && r.info.error_code == 0,
            r.info.response_code == 0 && r.info.affected_rows == 0,
            r.info.context@.len() == 0 && r.info.error_message@.len() == 0,
    {
        MysqlLog {
            info: MysqlInfo::new(),
            l7_proto: L7Protocol::Unknown,
            msg_type: LogMessageType::Other,
            status: L7ResponseStatus::Normal,
        }
    }

    /// Takes the text of a statement from `payload`.
    pub fn request_string(&mut self, payload: &[u8])
        ensures
            final(self).info.context@ == utf8_lossy(statement_bytes(payload@)),
            final(self).info.command == old(self).info.command,
            final(self).l7_proto == old(self).l7_proto,
            final(self).msg_type == old(self).msg_type,
            final(self).status == old(self).status,
            final(self).info.error_code == old(self).info.error_code,
            final(self).info.response_code == old(self).info.response_code,
            final(self).info.affected_rows == old(self).info.affected_rows,
    {
        self.info.context = mysql_string(payload);
    }

    /// Forgets the last message. Whether the flow is MySQL is remembered.
    pub fn reset_logs(&mut self)
        ensures
            final(self).l7_proto == old(self).l7_proto,
            final(self).msg_type == old(self).msg_type,
            final(self).status == L7ResponseStatus::Normal,
            final(self).info.protocol_version == 0 && final(self).info.command == 0,
            final(self).info.error_code == 0 && final(self).info.response_code == 0,
            final(self).info.affected_rows == 0 && final(self).info.server_thread_id == 0,
            final(self).info.context@.len() == 0 && final(self).info.error_message@.len() == 0,
            final(self).info.server_version@.len() == 0,
    {
        self.info = MysqlInfo::new();
        self.status = L7ResponseStatus::Normal;
    }

    /// Decodes a greeting of the server: the protocol version, the server
    /// version up to its zero byte, and the four bytes of the thread id.
    pub fn greeting(&mut self, payload: &[u8]) -> (r: Result<(), Error>)
        ensures
            r is Ok <==> (first_zero(payload@, SERVER_VERSION_OFFSET as int) matches Some(z) && z
                > SERVER_VERSION_OFFSET && z + 1 + THREAD_ID_LEN <= payload@.len()),
            r matches Err(e) ==> e == Error::MysqlLogParseFailed,
            r is Ok ==> {
                let z = first_zero(payload@, SERVER_VERSION_OFFSET as int).unwrap();
                &&& final(self).info.protocol_version == payload@[0]
                &&& final(self).info.server_version@ == utf8_lossy(
                    payload@.subrange(SERVER_VERSION_OFFSET as int, z),
                )
                &&& final(self).info.server_thread_id == le32(payload@, z + 1)
                &&& final(self).l7_proto == L7Protocol::Mysql
            },
            r is Err ==> final(self).l7_proto == old(self).l7_proto,
            final(self).msg_type == old(self).msg_type,
            final(self).status == old(self).status,
            final(self).info.error_code == old(self).info.error_code,
    {
        if payload.len() < PROTOCOL_VERSION_LEN {
            return Err(Error::MysqlLogParseFailed);
        }
        self.info.protocol_version = payload[PROTOCOL_VERSION_OFFSET];
        let z = match find_zero(payload, SERVER_VERSION_OFFSET) {
            None => {
                return Err(Error::MysqlLogParseFailed);
            },
            Some(z) => z,
        };
        if z <= SERVER_VERSION_OFFSET {
            return Err(Error::MysqlLogParseFailed);
        }
        self.info.server_version = string_from_utf8_lossy(
            slice_subrange(payload, SERVER_VERSION_OFFSET, z),
        );
        if payload.len() - (z + 1) < THREAD_ID_LEN {
            return Err(Error::MysqlLogParseFailed);
        }
        self.info.server_thread_id = read_u32_le(payload, z + 1);
        self.l7_proto = L7Protocol::Mysql;
        Ok(())
    }

    /// Decodes a request: the command and, where it carries one, its statement.
    pub fn request(&mut self, payload: &[u8]) -> (r: Result<(), Error>)
        ensures
            r is Ok <==> payload@.len() >= COMMAND_LEN && (command_is_bare(payload@[0])
                || command_has_text(payload@[0])),
            r matches Err(e) ==> e == Error::MysqlLogParseFailed,
            payload@.len() >= COMMAND_LEN ==> final(self).info.command == payload@[0],
            r is Ok ==> final(self).l7_proto == L7Protocol::Mysql,
            r is Ok && command_has_text(payload@[0]) ==> final(self).info.context@ == utf8_lossy(
                statement_bytes(payload@.subrange(1, payload@.len() as int)),
            ),
            r is Ok && command_is_bare(payload@[0]) ==> final(self).info.context == old(
                self,
            ).info.context,
            r is Err ==> final(self).l7_proto == old(self).l7_proto,
            final(self).msg_type == old(self).msg_type,
            final(self).status == old(self).status,
            final(self).info.error_code == old(self).info.error_code,
    {
        if payload.len() < COMMAND_LEN {
            return Err(Error::MysqlLogParseFailed);
        }
        let command = payload[COMMAND_OFFSET];
        self.info.command = command;
        if command == COM_QUIT || command == COM_FIELD_LIST || command == COM_STMT_EXECUTE
            || command == COM_STMT_CLOSE || command == COM_STMT_FETCH {
        } else if command == COM_INIT_DB || command == COM_QUERY || command == COM_STMT_PREPARE {
            self.request_string(slice_subrange(payload, COMMAND_OFFSET + COMMAND_LEN, payload.len()));
        } else {
            return Err(Error::MysqlLogParseFailed);
        }
        self.l7_proto = L7Protocol::Mysql;
        Ok(())
    }

    /// Decodes a length-encoded integer.
    pub fn decode_compress_int(payload: &[u8]) -> (r: u64)
        ensures
            r == compress_int(payload@),
    {
        let remain = payload.len();
        if remain == 0 {
            return 0;
        }
        let value = payload[0];
        if value == INT_FLAGS_2 && remain >= INT_BASE_LEN + 2 {
            read_u16_le(payload, INT_BASE_LEN) as u64
        } else if value == INT_FLAGS_3 && remain >= INT_BASE_LEN + 3 {
            reveal(le16);
            reveal(le24);
            read_u16_le(payload, INT_BASE_LEN) as u64 + (payload[INT_BASE_LEN + 2] as u64) * 0x1_0000
        } else if value == INT_FLAGS_8 && remain >= INT_BASE_LEN + 8 {
            read_u64_le(payload, INT_BASE_LEN)
        } else {
            value as u64
        }
    }

    /// Sets the status by an error code.
    pub fn set_status(&mut self, status_code: u16)
        ensures
            final(self).status == status_of(status_code),
            final(self).info == old(self).info,
            final(self).l7_proto == old(self).l7_proto,
            final(self).msg_type == old(self).msg_type,
    {
        if status_code != 0 {
            if status_code >= 2000 && status_code <= 2999 {
                self.status = L7ResponseStatus::ClientError;
            } else {
                self.status = L7ResponseStatus::ServerError;
            }
        } else {
            self.status = L7ResponseStatus::Normal;
        }
    }

    /// Decodes a response: an error with its code and its message, or a
    /// success with the number of rows that it affected.
    pub fn response(&mut self, payload: &[u8]) -> (r: Result<(), Error>)
        ensures
            r is Ok <==> payload@.len() >= RESPONSE_CODE_LEN,
            r matches Err(e) ==> e == Error::MysqlLogParseFailed,
            r is Ok ==> final(self).info.response_code == payload@[0],
            r is Ok && payload@[0] == MYSQL_RESPONSE_CODE_ERR ==> {
                &&& final(self).info.error_code == if payload@.len() - 1 > ERROR_CODE_LEN {
                    le16(payload@, ERROR_CODE_OFFSET as int)
                } else {
                    old(self).info.error_code
                }
                &&& final(self).status == status_of(final(self).info.error_code)
                &&& final(self).info.error_message@ == utf8_lossy(
                    payload@.subrange(error_message_offset(payload@), payload@.len() as int),
                )
                &&& final(self).info.affected_rows == old(self).info.affected_rows
            },
            r is Ok && payload@[0] == MYSQL_RESPONSE_CODE_OK ==> {
                &&& final(self).status == L7ResponseStatus::Normal
                &&& final(self).info.affected_rows == compress_int(
                    payload@.subrange(AFFECTED_ROWS_OFFSET as int, payload@.len() as int),
                )
                &&& final(self).info.error_code == old(self).info.error_code
            },
            r is Ok && payload@[0] != MYSQL_RESPONSE_CODE_OK && payload@[0]
                != MYSQL_RESPONSE_CODE_ERR ==> final(self).status == old(self).status
                && final(self).info.error_code == old(self).info.error_code,
            r is Err ==> *final(self) == *old(self),
            final(self).l7_proto == old(self).l7_proto,
            final(self).msg_type == old(self).msg_type,
    {
        let len = payload.len();
        if len < RESPONSE_CODE_LEN {
            return Err(Error::MysqlLogParseFailed);
        }
        let mut remain = len;
        let response_code = payload[RESPONSE_CODE_OFFSET];
        self.info.response_code = response_code;
        remain -= RESPONSE_CODE_LEN;
        if response_code == MYSQL_RESPONSE_CODE_ERR {
            if remain > ERROR_CODE_LEN {
                self.info.error_code = read_u16_le(payload, ERROR_CODE_OFFSET);
                remain -= ERROR_CODE_LEN;
            }
            self.set_status(self.info.error_code);
            let mut offset = if remain > SQL_STATE_LEN && payload[SQL_STATE_OFFSET]
                == SQL_STATE_MARKER {
                SQL_STATE_OFFSET + SQL_STATE_LEN
            } else {
                SQL_STATE_OFFSET
            };
            if offset > len {
                offset = len;
            }
            self.info.error_message = string_from_utf8_lossy(slice_subrange(payload, offset, len));
        } else if response_code == MYSQL_RESPONSE_CODE_OK {
            self.status = L7ResponseStatus::Normal;
            self.info.affected_rows = MysqlLog::decode_compress_int(
                slice_subrange(payload, AFFECTED_ROWS_OFFSET, len),
            );
        }
        Ok(())
    }

    /// Whether the parser `after` and the result `r` are what parsing `payload`
    /// leaves of the parser and returns, for a packet over `proto` that runs in
    /// `direction`.
    pub open spec fn parse_outcome(
        self,
        payload: Seq<u8>,
        proto: IpProtocol, direction: PacketDirection,
        after: MysqlLog,
        r: Result<AppProtoHead, Error>,
    ) -> bool {
        &&& (proto != IpProtocol::Tcp ==> r == Err::<AppProtoHead, Error>(Error::InvalidIpProtocol)
                && after == self)
        &&& (proto == IpProtocol::Tcp ==> {
                let (header, offset) = header_decoded(
                    MysqlHeader { length: 0, number: 0 },
                    payload,
                );
                let kind = checked(header, direction, offset, payload, self.l7_proto);
                let message = payload.subrange(offset, payload.len() as int);
                &&& kind is None ==> r == Err::<AppProtoHead, Error>(Error::MysqlLogParseFailed)
                &&& r matches Err(e) ==> e == Error::MysqlLogParseFailed
                &&& r matches Ok(head) ==> {
                    &&& kind == Some(head.msg_type)
                    &&& head == (AppProtoHead {
                        proto: L7Protocol::Mysql,
                        msg_type: after.msg_type,
                        status: after.status,
                        code: after.info.error_code,
                        rrt: 0,
                        version: 0,
                    })
                }
                &&& kind == Some(LogMessageType::Request) ==> (r is Ok <==> command_is_bare(
                    message[0],
                ) || command_has_text(message[0]))
                &&& kind == Some(LogMessageType::Response) ==> r is Ok
                    && after.info.response_code == message[0]
                &&& kind == Some(LogMessageType::Other) ==> (r is Ok <==> (first_zero(
                    message,
                    SERVER_VERSION_OFFSET as int,
                ) matches Some(z) && z > SERVER_VERSION_OFFSET && z + 1 + THREAD_ID_LEN
                    <= message.len()))
            })
    }

    /// Parses the payload of a packet over `proto` that runs in `direction`.
    ///
    /// The result is an error for a transport other than TCP, for a payload
    /// with no header that the parser takes, and for a message that its own
    /// decoder rejects. On success the head carries the kind of the message,
    /// the status and the error code.
    pub fn parse_payload(&mut self, payload: &[u8], proto: IpProtocol, direction: PacketDirection) -> (r:
        Result<AppProtoHead, Error>)
        requires
            payload@.len() <= isize::MAX,
        ensures
            old(self).parse_outcome(payload@, proto, direction, *final(self), r),
    {
        if proto != IpProtocol::Tcp {
            return Err(Error::InvalidIpProtocol);
        }
        self.reset_logs();
        let mut header = MysqlHeader::default();
        let offset = header.decode(payload);
        if offset < 0 {
            return Err(Error::MysqlLogParseFailed);
        }
        let offset = offset as usize;
        let msg_type = match header.check(direction, offset, payload, self.l7_proto) {
            None => {
                return Err(Error::MysqlLogParseFailed);
            },
            Some(t) => t,
        };
        let message = slice_subrange(payload, offset, payload.len());
        let decoded = match msg_type {
            LogMessageType::Request => self.request(message),
            LogMessageType::Response => self.response(message),
            LogMessageType::Other => self.greeting(message),
            _ => Err(Error::MysqlLogParseFailed),
        };
        match decoded {
            Err(e) => {
                return Err(e);
            },
            Ok(_) => {},
        }
        self.msg_type = msg_type;
        Ok(
            AppProtoHead {
                proto: L7Protocol::Mysql,
                msg_type,
                status: self.status,
                code: self.info.error_code,
                rrt: 0,
                version: 0,
            },
        )
    }
}

impl Default for MysqlLog {
    fn default() -> (r: Self)
        ensures
            r.l7_proto == L7Protocol::Unknown,
            r.msg_type == LogMessageType::Other,
            r.status == L7ResponseStatus::Normal,
    {
        MysqlLog::new()
    }
}

impl MysqlLog {
    /// What the last message says.
    pub fn log_info(&self) -> (r: AppProtoLogsInfoEnum)
        ensures
            r == AppProtoLogsInfoEnum::Single(AppProtoLogsInfo::Mysql(self.info)),
    {
        AppProtoLogsInfoEnum::Single(
            AppProtoLogsInfo::Mysql(
                MysqlInfo {
                    protocol_version: self.info.protocol_version,
                    server_version: self.info.server_version.clone(),
                    server_thread_id: self.info.server_thread_id,
                    command: self.info.command,
                    context: self.info.context.clone(),
                    response_code: self.info.response_code,
                    error_code: self.info.error_code,
                    affected_rows: self.info.affected_rows,
                    error_message: self.info.error_message.clone(),
                },
            ),
        )
    }

    /// Puts what the parser holds into the log record `log_data`. The record
    /// of an error response gets the error code as the code of its head.
    pub fn get_log_data_special_info(self, log_data: &mut AppProtoLogsData)
        ensures
            final(log_data).special_info == AppProtoLogsInfo::Mysql(self.info),
            final(log_data).base_info.head.code == if self.msg_type == LogMessageType::Response
                && self.info.response_code == MYSQL_RESPONSE_CODE_ERR {
                self.info.error_code
            } else {
                old(log_data).base_info.head.code
            },
            final(log_data).base_info.start_time == old(log_data).base_info.start_time,
            final(log_data).base_info.end_time == old(log_data).base_info.end_time,
            final(log_data).base_info.flow_id == old(log_data).base_info.flow_id,
            final(log_data).base_info.head.msg_type == old(log_data).base_info.head.msg_type,
            final(log_data).base_info.head.status == old(log_data).base_info.head.status,
    {
        if self.msg_type == LogMessageType::Response && self.info.response_code
            == MYSQL_RESPONSE_CODE_ERR {
            log_data.base_info.head.code = self.info.error_code;
        }
        log_data.special_info = AppProtoLogsInfo::Mysql(self.info);
    }
}

impl L7LogParse for MysqlLog {
    /// What the last message says: one record, with what the parser holds.
    fn info(&self) -> (r: AppProtoLogsInfoEnum)
        ensures
            r == AppProtoLogsInfoEnum::Single(AppProtoLogsInfo::Mysql(self.info)),
    {
        self.log_info()
    }

    /// Parses the payload of a packet over `proto` that runs in `direction`:
    /// the parser afterwards and the head are those of `parse_payload`, the
    /// head as the one head of the payload. A payload longer than any slice
    /// of memory is rejected untouched.
    fn parse(&mut self, payload: &[u8], proto: IpProtocol, direction: PacketDirection) -> (r:
        Result<AppProtoHeadEnum, Error>)
        ensures
            payload@.len() <= isize::MAX ==> match r {
                Ok(AppProtoHeadEnum::Single(head)) => old(self).parse_outcome(
                    payload@,
                    proto,
                    direction,
                    *final(self),
                    Ok(head),
                ),
                Ok(AppProtoHeadEnum::Multi(_)) => false,
                Err(e) => old(self).parse_outcome(payload@, proto, direction, *final(self), Err(e)),
            },
            payload@.len() > isize::MAX ==> *final(self) == *old(self) && r == Err::<
                AppProtoHeadEnum,
                Error,
            >(Error::MysqlLogParseFailed),
    {
        if payload.len() > isize::MAX as usize {
            return Err(Error::MysqlLogParseFailed);
        }
        match self.parse_payload(payload, proto, direction) {
            Ok(head) => Ok(AppProtoHeadEnum::Single(head)),
            Err(e) => Err(e),
        }
    }
}

/// The candidates without MySQL: bit 60 of the bitmap cleared.
pub open spec fn without_mysql(bitmap: u128) -> u128 {
    bitmap & !(1u128 << 60)
}

/// Whether a payload is taken for a first MySQL request: its header has the
/// sequence number zero and a length that the payload covers, its command is
/// a query or the preparing of a statement, and its statement is ASCII.
pub open spec fn is_first_request(payload: Seq<u8>) -> bool {
    let (header, offset) = header_decoded(MysqlHeader { length: 0, number: 0 }, payload);
    &&& offset >= 0
    &&& header.number == 0
    &&& offset + header.length <= payload.len()
    &&& offset < payload.len()
    &&& (payload[offset] == COM_QUERY || payload[offset] == COM_STMT_PREPARE)
    &&& is_ascii_chars(
        utf8_lossy(statement_bytes(payload.subrange(offset + 1, payload.len() as int))),
    )
}

/// Tells whether `packet` is a first MySQL request. A packet over another
/// transport than TCP, and a payload too short for a header, rule MySQL out
/// for the flow.
pub fn mysql_check_protocol(bitmap: &mut u128, packet: &MetaPacket) -> (r: bool)
    requires
        packet.spec_l4_payload() matches Some(p) ==> p.len() <= isize::MAX,
    ensures
        r == (packet.lookup_key.proto == IpProtocol::Tcp && (packet.spec_l4_payload() matches Some(
            p,
        ) && is_first_request(p))),
        *final(bitmap) == if packet.lookup_key.proto != IpProtocol::Tcp || (
        packet.spec_l4_payload() matches Some(p) && header_decoded(
            MysqlHeader { length: 0, number: 0 },
            p,
        ).1 < 0) {
            without_mysql(*old(bitmap))
        } else {
            *old(bitmap)
        },
{
    if packet.lookup_key.proto != IpProtocol::Tcp {
        *bitmap = *bitmap & !(1u128 << 60);
        return false;
    }
    let payload = match packet.get_l4_payload() {
        None => {
            return false;
        },
        Some(p) => p,
    };
    let mut header = MysqlHeader::default();
    let offset = header.decode(payload);
    if offset < 0 {
        *bitmap = *bitmap & !(1u128 << 60);
        return false;
    }
    let offset = offset as usize;
    if header.number != 0 || header.length as usize > payload.len() - offset || offset
        >= payload.len() {
        return false;
    }
    let kind = payload[offset];
    if kind == COM_QUERY || kind == COM_STMT_PREPARE {
        let context = mysql_string(slice_subrange(payload, offset + 1, payload.len()));
        return context.is_ascii();
    }
    false
}

} // verus!
