//! The Redis log parser, for the RESP wire format.
//!
//! A message begins with a type byte: `+` a status, `-` an error, `:` an
//! integer, `$` a bulk string, `*` an array. The items of an array are joined
//! with spaces into one line; a request is an array of bulk strings.

use vstd::prelude::*;
use crate::bytes::copy_range;
use crate::enums::{IpProtocol, PacketDirection};
use crate::error::Error;
use crate::flow::L7Protocol;
use crate::meta_packet::{slice_subrange, MetaPacket};
use crate::protocol_logs::{
    AppProtoHead, AppProtoHeadEnum, AppProtoLogsInfo, AppProtoLogsInfoEnum, L7LogParse,
    L7ResponseStatus, LogMessageType,
};

verus! {

pub const SEPARATOR_SIZE: usize = 2;
/// The most bytes that are kept of a status or an integer reply.
pub const STATUS_LIMIT: usize = 32;
/// The most bytes that are kept of an error reply.
pub const ERROR_LIMIT: usize = 256;

/// What a Redis message says.
#[derive(Clone, Debug, PartialEq, Eq)]
pub struct RedisInfo {
    /// The command with its arguments, as in `SET key value`.
    pub request: Vec<u8>,
    /// The command without its arguments.
    pub request_type: Vec<u8>,
    /// An integer reply, a bulk reply or an array reply.
    pub response: Vec<u8>,
    /// A status reply.
    pub status: Vec<u8>,
    /// An error reply.
    pub error: Vec<u8>,
}

impl RedisInfo {
    pub fn new() -> (r: RedisInfo)
        ensures
            r.request@.len() == 0 && r.request_type@.len() == 0 && r.response@.len() == 0,
            r.status@.len() == 0 && r.error@.len() == 0,
    {
        RedisInfo {
            request: Vec::new(),
            request_type: Vec::new(),
            response: Vec::new(),
            status: Vec::new(),
            error: Vec::new(),
        }
    }

    /// A response gives what it says to the request that it is paired with.
    pub fn merge(&mut self, other: RedisInfo)
        ensures
            final(self).response == other.response,
            final(self).status == other.status,
            final(self).error == other.error,
            final(self).request == old(self).request,
            final(self).request_type == old(self).request_type,
    {
        self.response = other.response;
        self.status = other.status;
        self.error = other.error;
    }
}

impl Default for RedisInfo {
    fn default() -> (r: Self)
        ensures
            r.request@.len() == 0 && r.request_type@.len() == 0 && r.response@.len() == 0,
            r.status@.len() == 0 && r.error@.len() == 0,
    {
        RedisInfo::new()
    }
}

/// Whether a line ends at `i`: a carriage return and a line feed.
pub open spec fn is_separator_at(s: Seq<u8>, i: int) -> bool {
    0 <= i && i + 1 < s.len() && s[i] == 0x0d && s[i + 1] == 0x0a
}

/// Where the first line of `payload` ends.
pub fn find_separator(payload: &[u8]) -> (r: Option<usize>)
    ensures
        match r {
            Some(i) => is_separator_at(payload@, i as int) && forall|j: int|
                0 <= j < i ==> !is_separator_at(payload@, j),
            None => forall|j: int| !is_separator_at(payload@, j),
        },
{
    let len = payload.len();
    if len < 2 {
        return None;
    }
    let mut i: usize = 0;
    while i < len - 1
        invariant
            len == payload@.len(),
            len >= 2,
            i <= len - 1,
            forall|j: int| 0 <= j < i ==> !is_separator_at(payload@, j),
        decreases len - i,
    {
        if payload[i] == 0x0d && payload[i + 1] == 0x0a {
            return Some(i);
        }
        i += 1;
    }
    None
}

/// Where the first line of `s` ends, if it does.
pub open spec fn separator(s: Seq<u8>) -> Option<int> {
    if exists|i: int| is_separator_at(s, i) {
        Some(choose|i: int| is_separator_at(s, i) && forall|j: int| 0 <= j < i ==> !is_separator_at(s, j))
    } else {
        None
    }
}

/// `find_separator` finds the place that `separator` names.
pub proof fn lemma_separator_is_first(s: Seq<u8>, found: Option<int>)
    requires
        match found {
            Some(i) => is_separator_at(s, i) && forall|j: int| 0 <= j < i ==> !is_separator_at(s, j),
            None => forall|j: int| !is_separator_at(s, j),
        },
    ensures
        separator(s) == found,
{
    match found {
        Some(i) => {
            assert(is_separator_at(s, i));
            let c = choose|i: int| is_separator_at(s, i) && forall|j: int| 0 <= j < i ==> !is_separator_at(s, j);
            assert(is_separator_at(s, c) && forall|j: int| 0 <= j < c ==> !is_separator_at(s, j));
            if c < i {
                assert(!is_separator_at(s, c));
            }
            if i < c {
                assert(!is_separator_at(s, i));
            }
        },
        None => {},
    }
}

fn first_separator(payload: &[u8]) -> (r: Option<usize>)
    ensures
        match r {
            Some(i) => separator(payload@) == Some(i as int) && i + 2 <= payload@.len(),
            None => separator(payload@) is None,
        },
{
    let r = find_separator(payload);
    proof {
        lemma_separator_is_first(
            payload@,
            match r {
                Some(i) => Some(i as int),
                None => None,
            },
        );
    }
    r
}

/// Whether a byte is a decimal digit.
pub open spec fn is_digit(b: u8) -> bool {
    0x30 <= b <= 0x39
}

/// The number that the decimal digits `s` stand for, if `s` is digits and
/// nothing else.
pub open spec fn digits_value(s: Seq<u8>) -> Option<int>
    decreases s.len(),
{
    if s.len() == 0 || !is_digit(s.last()) {
        None
    } else if s.len() == 1 {
        Some(s.last() - 0x30)
    } else {
        match digits_value(s.drop_last()) {
            None => None,
            Some(v) => Some(v * 10 + (s.last() - 0x30)),
        }
    }
}

/// The number `v` with its sign, if 64 bits hold it.
pub open spec fn signed_value(v: Option<int>, negative: bool) -> Option<i64> {
    match v {
        None => None,
        Some(v) => {
            let n = if negative {
                -v
            } else {
                v
            };
            if i64::MIN <= n <= i64::MAX {
                Some(n as i64)
            } else {
                None
            }
        },
    }
}

/// The integer that `s` is the text of: a sign or none, then digits and
/// nothing else, for a number that 64 bits hold.
pub open spec fn integer_of(s: Seq<u8>) -> Option<i64> {
    let negative = s.len() > 0 && s[0] == 0x2d;
    let signed = s.len() > 0 && (s[0] == 0x2d || s[0] == 0x2b);
    signed_value(
        digits_value(
            if signed {
                s.subrange(1, s.len() as int)
            } else {
                s
            },
        ),
        negative,
    )
}

/// Parses the text of an integer.
pub fn parse_integer(text: &[u8]) -> (r: Option<i64>)
    requires
        text@.len() <= isize::MAX,
    ensures
        r == integer_of(text@),
{
    let n = text.len();
    let negative = n > 0 && text[0] == 0x2d;
    let start: usize = if n > 0 && (text[0] == 0x2d || text[0] == 0x2b) {
        1
    } else {
        0
    };
    let ghost body = text@.subrange(start as int, n as int);
    assert(start == 0 ==> body =~= text@);
    assert(integer_of(text@) == signed_value(digits_value(body), negative));
    if start >= n {
        assert(body.len() == 0);
        return None;
    }
    let mut acc: i128 = 0;
    let mut overflow = false;
    let mut i: usize = start;
    while i < n
        invariant
            start <= i <= n,
            start < n,
            n == text@.len(),
            body == text@.subrange(start as int, n as int),
            integer_of(text@) == signed_value(digits_value(body), negative),
            i > start ==> (digits_value(body.subrange(0, i - start)) matches Some(v) && (if overflow {
                v > 0x8000_0000_0000_0000
            } else {
                v == acc
            })),
            !overflow ==> 0 <= acc <= 0x8000_0000_0000_0000,
            i == start ==> acc == 0 && !overflow,
        decreases n - i,
    {
        let b = text[i];
        let ghost upto = body.subrange(0, i + 1 - start);
        assert(upto.last() == b);
        assert(upto.drop_last() =~= body.subrange(0, i - start));
        if b < 0x30 || b > 0x39 {
            proof {
                lemma_digits_need_digits(body, i - start);
            }
            return None;
        }
        if !overflow {
            acc = acc * 10 + (b - 0x30) as i128;
            if acc > 0x8000_0000_0000_0000 {
                overflow = true;
            }
        } else {
            assert(digits_value(upto) matches Some(v) && v > 0x8000_0000_0000_0000);
        }
        i += 1;
    }
    assert(body.subrange(0, n - start) =~= body);
    if overflow {
        return None;
    }
    if negative {
        Some((-acc) as i64)
    } else if acc > 0x7fff_ffff_ffff_ffff {
        None
    } else {
        Some(acc as i64)
    }
}

/// Digits with a byte among them that is no digit stand for no number.
pub proof fn lemma_digits_need_digits(s: Seq<u8>, k: int)
    requires
        0 <= k < s.len(),
        !is_digit(s[k]),
    ensures
        digits_value(s) is None,
    decreases s.len(),
{
    if k == s.len() - 1 {
    } else {
        lemma_digits_need_digits(s.drop_last(), k);
    }
}

/// The integer at the head of `s` with the length of its line.
pub open spec fn integer_line(s: Seq<u8>) -> Option<(i64, int)> {
    match separator(s) {
        None => None,
        Some(pos) => if pos < 1 {
            None
        } else {
            match integer_of(s.subrange(0, pos)) {
                None => None,
                Some(n) => Some((n, pos + SEPARATOR_SIZE)),
            }
        },
    }
}

/// Decodes the integer at the head of `payload` and the length of its line.
pub fn decode_integer(payload: &[u8]) -> (r: Option<(i64, usize)>)
    requires
        payload@.len() <= isize::MAX,
    ensures
        match r {
            Some((n, used)) => integer_line(payload@) == Some((n, used as int)) && 3 <= used
                <= payload@.len(),
            None => integer_line(payload@) is None,
        },
{
    let separator_pos = match first_separator(payload) {
        None => {
            return None;
        },
        Some(p) => p,
    };
    if separator_pos < 1 {
        return None;
    }
    match parse_integer(slice_subrange(payload, 0, separator_pos)) {
        None => None,
        Some(n) => Some((n, separator_pos + SEPARATOR_SIZE)),
    }
}

/// What a bulk string at the head of `s` holds, and how much of `s` it takes.
/// A length of zero or less gives the text of the length itself. Where the
/// bytes that the length announces are not all there or no line end follows
/// them, a strict reader gives up and a lenient one takes what is there.
pub open spec fn bulk_decoded(s: Seq<u8>, strict: bool) -> Option<(Seq<u8>, int)> {
    if s.len() < 1 {
        None
    } else {
        match integer_line(s.subrange(1, s.len() as int)) {
            None => None,
            Some((n, sub)) => if n <= 0 {
                Some((s.subrange(1, 1 + sub - SEPARATOR_SIZE), 1 + sub))
            } else {
                let offset = 1 + sub;
                if offset + n + SEPARATOR_SIZE > s.len() || s[offset + n] != 0x0d || s[offset + n
                    + 1] != 0x0a {
                    if strict {
                        None
                    } else {
                        Some((s.subrange(offset, s.len() as int), s.len() as int))
                    }
                } else {
                    Some((s.subrange(offset, offset + n), offset + n + 2))
                }
            },
        }
    }
}

/// Decodes the bulk string at the head of `payload`.
pub fn decode_dollor(payload: &[u8], strict: bool) -> (r: Option<(Vec<u8>, usize)>)
    requires
        payload@.len() <= isize::MAX,
    ensures
        match r {
            Some((v, used)) => bulk_decoded(payload@, strict) == Some((v@, used as int)) && 1
                <= used <= payload@.len(),
            None => bulk_decoded(payload@, strict) is None,
        },
{
    let len = payload.len();
    if len < 1 {
        return None;
    }
    let (next_data_len, sub_offset) = match decode_integer(slice_subrange(payload, 1, len)) {
        None => {
            return None;
        },
        Some(x) => x,
    };
    if next_data_len <= 0 {
        return Some((copy_range(payload, 1, 1 + sub_offset - SEPARATOR_SIZE), 1 + sub_offset));
    }
    let offset = 1 + sub_offset;
    if next_data_len as u64 > (len - offset) as u64 || (next_data_len as usize) + SEPARATOR_SIZE
        > len - offset || payload[offset + next_data_len as usize] != 0x0d || payload[offset
        + next_data_len as usize + 1] != 0x0a {
        if strict {
            return None;
        }
        return Some((copy_range(payload, offset, len), len));
    }
    let n = next_data_len as usize;
    Some((copy_range(payload, offset, offset + n), offset + n + 2))
}

/// The first line of `s` without its end, cut at `limit` bytes, and how much
/// of `s` was taken.
pub open spec fn line_decoded(s: Seq<u8>, limit: int) -> (Seq<u8>, int) {
    let pos = match separator(s) {
        Some(p) => p,
        None => s.len() as int,
    };
    if pos > limit {
        (s.subrange(0, limit), limit)
    } else {
        (s.subrange(0, pos), pos)
    }
}

/// Decodes the first line of `payload`, of which at most `limit` bytes are kept.
pub fn decode_str(payload: &[u8], limit: usize) -> (r: (Vec<u8>, usize))
    ensures
        (r.0@, r.1 as int) == line_decoded(payload@, limit as int),
        r.1 <= payload@.len(),
{
    let len = payload.len();
    let separator_pos = match first_separator(payload) {
        Some(p) => p,
        None => len,
    };
    if separator_pos > limit {
        return (copy_range(payload, 0, limit), limit);
    }
    (copy_range(payload, 0, separator_pos), separator_pos)
}

/// `ret` with `item` behind it, and a space between them where `ret` holds
/// anything.
pub open spec fn joined(ret: Seq<u8>, item: Seq<u8>) -> Seq<u8> {
    if ret.len() > 0 {
        ret.push(0x20) + item
    } else {
        item
    }
}

/// What the message at the head of `s` holds: its text, how much of `s` it
/// takes, and whether it is an error reply.
pub open spec fn decoded(s: Seq<u8>, strict: bool) -> Option<(Seq<u8>, int, bool)>
    decreases s.len(), 2int, 0nat,
{
    if s.len() < SEPARATOR_SIZE {
        None
    } else if s[0] == 0x2a {
        match array_decoded(s, strict) {
            None => None,
            Some((v, used)) => Some((v, used, false)),
        }
    } else if s[0] == 0x2b || s[0] == 0x3a {
        Some((line_decoded(s, STATUS_LIMIT as int).0, line_decoded(s, STATUS_LIMIT as int).1, false))
    } else if s[0] == 0x2d {
        Some((line_decoded(s, ERROR_LIMIT as int).0, line_decoded(s, ERROR_LIMIT as int).1, true))
    } else if s[0] == 0x24 {
        match bulk_decoded(s, strict) {
            None => None,
            Some((v, used)) => Some((v, used, false)),
        }
    } else {
        None
    }
}

/// What the array at the head of `s` holds: its items joined with spaces, and
/// how much of `s` it takes. A count of zero or less gives the text of the
/// count itself.
pub open spec fn array_decoded(s: Seq<u8>, strict: bool) -> Option<(Seq<u8>, int)>
    decreases s.len(), 1int, 0nat,
{
    if s.len() < 1 {
        None
    } else {
        match integer_line(s.subrange(1, s.len() as int)) {
            None => None,
            Some((n, sub)) => if n <= 0 {
                Some((s.subrange(1, 1 + sub - SEPARATOR_SIZE), 1 + sub))
            } else if sub < 1 {
                None
            } else {
                items_decoded(s, strict, 1 + sub, n as nat, seq![])
            },
        }
    }
}

/// What `remaining` more items of the array `s` from `offset` on hold, added
/// to `ret`. An item that cannot be decoded ends the array where it stands; an
/// item that takes nothing ends it too, and makes a strict reader give up.
pub open spec fn items_decoded(s: Seq<u8>, strict: bool, offset: int, remaining: nat, ret: Seq<u8>) -> Option<
    (Seq<u8>, int),
>
    decreases s.len(), 0int, remaining,
{
    if remaining == 0 || offset < 1 || offset > s.len() {
        Some((ret, offset))
    } else {
        match decoded(s.subrange(offset, s.len() as int), strict) {
            None => Some((ret, offset)),
            Some((item, used, _)) => if used <= 0 {
                if strict {
                    None
                } else {
                    Some((ret, offset))
                }
            } else if offset + used >= s.len() {
                Some((joined(ret, item), s.len() as int))
            } else {
                items_decoded(s, strict, offset + used, (remaining - 1) as nat, joined(ret, item))
            },
        }
    }
}

/// Decodes the array at the head of `payload`.
pub fn decode_asterisk(payload: &[u8], strict: bool) -> (r: Option<(Vec<u8>, usize)>)
    requires
        payload@.len() <= isize::MAX,
    ensures
        match r {
            Some((v, used)) => array_decoded(payload@, strict) == Some((v@, used as int)) && used
                <= payload@.len(),
            None => array_decoded(payload@, strict) is None,
        },
    decreases payload@.len(), 1int,
{
    let len = payload.len();
    if len < 1 {
        return None;
    }
    let (next_data_num, sub_offset) = match decode_integer(slice_subrange(payload, 1, len)) {
        None => {
            return None;
        },
        Some(x) => x,
    };
    if next_data_num <= 0 {
        return Some((copy_range(payload, 1, 1 + sub_offset - SEPARATOR_SIZE), 1 + sub_offset));
    }
    let mut offset: usize = 1 + sub_offset;
    let mut ret_vec: Vec<u8> = Vec::new();
    let mut remaining: u64 = next_data_num as u64;
    while remaining > 0
        invariant
            len == payload@.len(),
            len <= isize::MAX,
            1 <= offset <= len,
            array_decoded(payload@, strict) == items_decoded(
                payload@,
                strict,
                offset as int,
                remaining as nat,
                ret_vec@,
            ),
        decreases remaining,
    {
        let rest = slice_subrange(payload, offset, len);
        match decode(rest, strict) {
            None => {
                return Some((ret_vec, offset));
            },
            Some((sub_vec, sub_offset, _)) => {
                if sub_offset == 0 {
                    if strict {
                        return None;
                    }
                    return Some((ret_vec, offset));
                }
                let ghost before = ret_vec@;
                if !ret_vec.is_empty() {
                    ret_vec.push(0x20);
                }
                ret_vec.extend_from_slice(sub_vec.as_slice());
                assert(ret_vec@ =~= joined(before, sub_vec@));
                offset += sub_offset;
                if offset >= len {
                    return Some((ret_vec, len));
                }
            },
        }
        remaining -= 1;
    }
    Some((ret_vec, offset))
}

/// Decodes the message at the head of `payload`: its text, how much of the
/// payload it takes, and whether it is an error reply. A strict reader gives
/// up on a bulk string that is not all there; a lenient one takes what is there.
pub fn decode(payload: &[u8], strict: bool) -> (r: Option<(Vec<u8>, usize, bool)>)
    requires
        payload@.len() <= isize::MAX,
    ensures
        match r {
            Some((v, used, e)) => decoded(payload@, strict) == Some((v@, used as int, e)) && used
                <= payload@.len(),
            None => decoded(payload@, strict) is None,
        },
    decreases payload@.len(), 2int,
{
    if payload.len() < SEPARATOR_SIZE {
        return None;
    }
    let kind = payload[0];
    if kind == 0x2a {
        match decode_asterisk(payload, strict) {
            None => None,
            Some((v, s)) => Some((v, s, false)),
        }
    } else if kind == 0x2b || kind == 0x3a {
        let (v, s) = decode_str(payload, STATUS_LIMIT);
        Some((v, s, false))
    } else if kind == 0x2d {
        let (v, s) = decode_str(payload, ERROR_LIMIT);
        Some((v, s, true))
    } else if kind == 0x24 {
        match decode_dollor(payload, strict) {
            None => None,
            Some((v, s)) => Some((v, s, false)),
        }
    } else {
        None
    }
}

/// The code of an error reply: what stands before the first space or line
/// feed, if there is one.
pub fn decode_error_code(context: &[u8]) -> (r: Option<Vec<u8>>)
    ensures
        match r {
            Some(code) => exists|i: int|
                0 <= i < context@.len() && (context@[i] == 0x20 || context@[i] == 0x0a) && code@
                    == context@.subrange(0, i) && forall|j: int|
                    0 <= j < i ==> context@[j] != 0x20 && context@[j] != 0x0a,
            None => forall|j: int|
                0 <= j < context@.len() ==> context@[j] != 0x20 && context@[j] != 0x0a,
        },
{
    let mut i: usize = 0;
    while i < context.len()
        invariant
            i <= context@.len(),
            forall|j: int| 0 <= j < i ==> context@[j] != 0x20 && context@[j] != 0x0a,
        decreases context@.len() - i,
    {
        if context[i] == 0x20 || context[i] == 0x0a {
            return Some(copy_range(context, 0, i));
        }
        i += 1;
    }
    None
}

/// The state of the Redis parser.
#[derive(Clone, Debug)]
pub struct RedisLog {
    pub info: RedisInfo,
    pub l7_proto: L7Protocol,
    pub msg_type: LogMessageType,
    pub status: L7ResponseStatus,
}

/// What stands before the first space of `context`; all of it where no space
/// is there or where it begins with one.
pub open spec fn request_type_of(context: Seq<u8>) -> Seq<u8> {
    if exists|i: int| 0 < i < context.len() && context[i] == 0x20 && forall|j: int|
        0 <= j < i ==> context[j] != 0x20 {
        context.subrange(
            0,
            choose|i: int|
                0 < i < context.len() && context[i] == 0x20 && forall|j: int|
                    0 <= j < i ==> context[j] != 0x20,
        )
    } else {
        context
    }
}

impl RedisLog {
    pub fn new() -> (r: RedisLog)
        ensures
            r.info.request@.len() == 0 && r.info.request_type@.len() == 0,
            r.info.response@.len() == 0 && r.info.status@.len() == 0 && r.info.error@.len() == 0,
            r.l7_proto == L7Protocol::Unknown,
            r.msg_type == LogMessageType::Other,
            r.status == L7ResponseStatus::Normal,
    {
        RedisLog {
            info: RedisInfo::new(),
            l7_proto: L7Protocol::Unknown,
            msg_type: LogMessageType::Other,
            status: L7ResponseStatus::Normal,
        }
    }

    /// Forgets everything.
    pub fn reset(&mut self)
        ensures
            final(self).info.request@.len() == 0 && final(self).info.request_type@.len() == 0,
            final(self).info.response@.len() == 0 && final(self).info.status@.len() == 0,
            final(self).info.error@.len() == 0,
            final(self).l7_proto == L7Protocol::Unknown,
            final(self).msg_type == LogMessageType::Other,
            final(self).status == L7ResponseStatus::Normal,
    {
        *self = RedisLog::new();
    }

    /// Takes `context` for a request: its first word is the type of the request.
    pub fn fill_request(&mut self, context: Vec<u8>)
        ensures
            final(self).info.request@ == context@,
            final(self).info.request_type@ == request_type_of(context@),
            final(self).msg_type == LogMessageType::Request,
            final(self).info.response == old(self).info.response,
            final(self).info.status == old(self).info.status,
            final(self).info.error == old(self).info.error,
            final(self).status == old(self).status,
            final(self).l7_proto == old(self).l7_proto,
    {
        let mut i: usize = 0;
        while i < context.len() && context[i] != 0x20
            invariant
                i <= context@.len(),
                forall|j: int| 0 <= j < i ==> context@[j] != 0x20,
            decreases context@.len() - i,
        {
            i += 1;
        }
        let found: Option<usize> = if i < context.len() {
            Some(i)
        } else {
            None
        };
        let request_type = match found {
            Some(k) => {
                if k > 0 {
                    proof {
                        let c = choose|i: int|
                            0 < i < context@.len() && context@[i] == 0x20 && forall|j: int|
                                0 <= j < i ==> context@[j] != 0x20;
                        assert(0 < k < context@.len() && context@[k as int] == 0x20);
                        if c < k {
                            assert(context@[c] != 0x20);
                        }
                        if k < c {
                            assert(context@[k as int] != 0x20);
                        }
                    }
                    copy_range(context.as_slice(), 0, k)
                } else {
                    proof {
                        assert(forall|i: int|
                            0 < i < context@.len() && context@[i] == 0x20 ==> !(forall|j: int|
                                0 <= j < i ==> context@[j] != 0x20)) by {
                            assert(context@[0] == 0x20);
                        }
                    }
                    context.clone()
                }
            },
            None => context.clone(),
        };
        assert(request_type@ =~= request_type_of(context@));
        self.info.request_type = request_type;
        self.msg_type = LogMessageType::Request;
        self.info.request = context;
    }

    /// Takes `context` for a response: a status where it begins with `+`, an
    /// error where it is an error reply, else a result. An empty response says
    /// nothing.
    pub fn fill_response(&mut self, context: Vec<u8>, error_response: bool)
        ensures
            final(self).msg_type == LogMessageType::Response,
            final(self).info.request == old(self).info.request,
            final(self).info.request_type == old(self).info.request_type,
            final(self).l7_proto == old(self).l7_proto,
            context@.len() == 0 ==> final(self).info == old(self).info && final(self).status
                == old(self).status,
            context@.len() > 0 ==> {
                let status_reply = context@[0] == 0x2b;
                let error_reply = context@[0] == 0x2d && error_response;
                &&& final(self).status == if error_reply {
                    L7ResponseStatus::ServerError
                } else {
                    L7ResponseStatus::Normal
                }
                &&& final(self).info.status@ == if status_reply {
                    context@
                } else {
                    old(self).info.status@
                }
                &&& final(self).info.error@ == if error_reply {
                    context@
                } else {
                    old(self).info.error@
                }
                &&& final(self).info.response@ == if !status_reply && !error_reply {
                    context@
                } else {
                    old(self).info.response@
                }
            },
    {
        self.msg_type = LogMessageType::Response;
        if context.is_empty() {
            return ;
        }
        self.status = L7ResponseStatus::Normal;
        let kind = context[0];
        if kind == 0x2b {
            self.info.status = context;
        } else if kind == 0x2d && error_response {
            self.info.error = context;
            self.status = L7ResponseStatus::ServerError;
        } else {
            self.info.response = context;
        }
    }

    /// Whether the parser `after` and the result `r` are what parsing `payload`
    /// leaves of the parser and returns, for a packet over `proto` that runs in
    /// `direction`.
    pub open spec fn parse_outcome(
        self,
        payload: Seq<u8>,
        proto: IpProtocol, direction: PacketDirection,
        after: RedisLog,
        r: Result<AppProtoHead, Error>,
    ) -> bool {
        &&& (proto != IpProtocol::Tcp ==> r == Err::<AppProtoHead, Error>(Error::InvalidIpProtocol)
                && after == self)
        &&& (proto == IpProtocol::Tcp ==> {
                let strict = direction == PacketDirection::ClientToServer;
                match decoded(payload, strict) {
                    None => r == Err::<AppProtoHead, Error>(Error::RedisLogParseFailed),
                    Some((context, _, error_response)) => {
                        &&& r == Ok::<AppProtoHead, Error>(
                            AppProtoHead {
                                proto: L7Protocol::Redis,
                                msg_type: LogMessageType::of_direction(direction),
                                status: after.status,
                                code: 0,
                                rrt: 0,
                                version: 0,
                            },
                        )
                        &&& after.msg_type == LogMessageType::of_direction(direction)
                        &&& strict ==> after.info.request@ == context
                            && after.info.request_type@ == request_type_of(context)
                            && after.status == L7ResponseStatus::Normal
                        &&& !strict && context.len() > 0 ==> after.status == (if context[0]
                            == 0x2d && error_response {
                            L7ResponseStatus::ServerError
                        } else {
                            L7ResponseStatus::Normal
                        })
                    },
                }
            })
    }

    /// Parses the payload of a packet over `proto` that runs in `direction`.
    /// Requests are read strictly, responses leniently.
    pub fn parse_payload(&mut self, payload: &[u8], proto: IpProtocol, direction: PacketDirection) -> (r:
        Result<AppProtoHead, Error>)
        requires
            payload@.len() <= isize::MAX,
        ensures
            old(self).parse_outcome(payload@, proto, direction, *final(self), r),
    {
        if proto != IpProtocol::Tcp {
            return Err(Error::InvalidIpProtocol);
        }
        self.reset();
        let strict = direction == PacketDirection::ClientToServer;
        let (context, _, error_response) = match decode(payload, strict) {
            None => {
                return Err(Error::RedisLogParseFailed);
            },
            Some(x) => x,
        };
        match direction {
            PacketDirection::ClientToServer => self.fill_request(context),
            PacketDirection::ServerToClient => self.fill_response(context, error_response),
        }
        Ok(
            AppProtoHead {
                proto: L7Protocol::Redis,
                msg_type: self.msg_type,
                status: self.status,
                code: 0,
                rrt: 0,
                version: 0,
            },
        )
    }
}

impl Default for RedisLog {
    fn default() -> (r: Self)
        ensures
            r.info.request@.len() == 0 && r.info.request_type@.len() == 0,
            r.l7_proto == L7Protocol::Unknown,
            r.msg_type == LogMessageType::Other,
            r.status == L7ResponseStatus::Normal,
    {
        RedisLog::new()
    }
}

impl RedisLog {
    /// What the last message says.
    pub fn log_info(&self) -> (r: AppProtoLogsInfoEnum)
        ensures
            r matches AppProtoLogsInfoEnum::Single(AppProtoLogsInfo::Redis(i)) && i.request@
                == self.info.request@ && i.request_type@ == self.info.request_type@ && i.response@
                == self.info.response@ && i.status@ == self.info.status@ && i.error@
                == self.info.error@,
    {
        AppProtoLogsInfoEnum::Single(
            AppProtoLogsInfo::Redis(
                RedisInfo {
                    request: copy_range(self.info.request.as_slice(), 0, self.info.request.len()),
                    request_type: copy_range(
                        self.info.request_type.as_slice(),
                        0,
                        self.info.request_type.len(),
                    ),
                    response: copy_range(
                        self.info.response.as_slice(),
                        0,
                        self.info.response.len(),
                    ),
                    status: copy_range(self.info.status.as_slice(), 0, self.info.status.len()),
                    error: copy_range(self.info.error.as_slice(), 0, self.info.error.len()),
                },
            ),
        )
    }
}

impl L7LogParse for RedisLog {
    /// What the last message says: one record, with what the parser holds.
    fn info(&self) -> (r: AppProtoLogsInfoEnum)
        ensures
            r matches AppProtoLogsInfoEnum::Single(AppProtoLogsInfo::Redis(i)) && i.request@
                == self.info.request@ && i.request_type@ == self.info.request_type@ && i.response@
                == self.info.response@ && i.status@ == self.info.status@ && i.error@
                == self.info.error@,
    {
        self.log_info()
    }

    /// Parses the payload of a packet over `proto` that runs in `direction`:
    /// the parser afterwards and the head are those of `parse_payload`, the
    /// head as the one head of the payload. A payload longer than any slice
    /// of memory is rejected untouched.
    fn parse(&mut self, payload: &[u8], proto: IpProtocol, direction: PacketDirection) -> (r:
        Result<AppProtoHeadEnum, Error>)
        ensures
            payload@.len() <= isize::MAX ==> match r {
                Ok(AppProtoHeadEnum::Single(head)) => old(self).parse_outcome(
                    payload@,
                    proto,
                    direction,
                    *final(self),
                    Ok(head),
                ),
                Ok(AppProtoHeadEnum::Multi(_)) => false,
                Err(e) => old(self).parse_outcome(payload@, proto, direction, *final(self), Err(e)),
            },
            payload@.len() > isize::MAX ==> *final(self) == *old(self) && r == Err::<
                AppProtoHeadEnum,
                Error,
            >(Error::RedisLogParseFailed),
    {
        if payload.len() > isize::MAX as usize {
            return Err(Error::RedisLogParseFailed);
        }
        match self.parse_payload(payload, proto, direction) {
            Ok(head) => Ok(AppProtoHeadEnum::Single(head)),
            Err(e) => Err(e),
        }
    }
}

/// The candidates without Redis: bit 80 of the bitmap cleared.
pub open spec fn without_redis(bitmap: u128) -> u128 {
    bitmap & !(1u128 << 80)
}

/// Tells whether `packet` is a Redis request: a payload over TCP that is an
/// array which a strict reader decodes. A packet over another transport rules
/// Redis out for its flow.
pub fn redis_check_protocol(bitmap: &mut u128, packet: &MetaPacket) -> (r: bool)
    requires
        packet.spec_l4_payload() matches Some(p) ==> p.len() <= isize::MAX,
    ensures
        *final(bitmap) == if packet.lookup_key.proto != IpProtocol::Tcp {
            without_redis(*old(bitmap))
        } else {
            *old(bitmap)
        },
        r == (packet.lookup_key.proto == IpProtocol::Tcp && (packet.spec_l4_payload() matches Some(
            p,
        ) && p.len() > 0 && p[0] == 0x2a && array_decoded(p, true) is Some)),
{
    if packet.lookup_key.proto != IpProtocol::Tcp {
        *bitmap = *bitmap & !(1u128 << 80);
        return false;
    }
    let payload = match packet.get_l4_payload() {
        None => {
            return false;
        },
        Some(p) => p,
    };
    if payload.len() == 0 || payload[0] != 0x2a {
        return false;
    }
    decode_asterisk(payload, true).is_some()
}

} // verus!
