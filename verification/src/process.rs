//! What the agent learns of itself and of its host from the texts that the
//! kernel gives out: the memory and the threads in the status of a process,
//! the processes with a given entry in their status, the children of a
//! process, the release of the kernel, the share of the memory that is free,
//! and the name under which a new binary is tried.
//!
//! The texts are bytes. White space is one of the six characters of ASCII that
//! are white space: tab, line feed, vertical tab, form feed, carriage return
//! and space. A line ends with a line feed or with the text.

use vstd::prelude::*;
use vstd::utf8::valid_utf8;
use crate::outside::string_from_utf8;
use crate::redis::{digits_value, lemma_digits_need_digits};

verus! {

/// The oldest kernel that the agent runs on is 2.6: what a release that
/// cannot be read is taken for.
pub const MIN_MAJOR_RELEASE: u8 = 2;

pub const MIN_MINOR_RELEASE: u8 = 6;

pub open spec fn is_space(b: u8) -> bool {
    b == 0x09 || b == 0x0a || b == 0x0b || b == 0x0c || b == 0x0d || b == 0x20
}

fn space(b: u8) -> (r: bool)
    ensures
        r == is_space(b),
{
    b == 0x09 || b == 0x0a || b == 0x0b || b == 0x0c || b == 0x0d || b == 0x20
}

/// How many bytes of `s` from `a` on, and before `b`, come before the first
/// that is `byte`.
pub open spec fn run_len(s: Seq<u8>, a: int, b: int, byte: u8) -> nat
    decreases b - a,
{
    if a >= b || s[a] == byte {
        0
    } else {
        1 + run_len(s, a + 1, b, byte)
    }
}

/// How many bytes of `s` before `b`, and from `a` on, come behind the last
/// that is `byte`.
pub open spec fn tail_len(s: Seq<u8>, a: int, b: int, byte: u8) -> nat
    decreases b - a,
{
    if a >= b || s[b - 1] == byte {
        0
    } else {
        1 + tail_len(s, a, b - 1, byte)
    }
}

/// How many bytes of white space `s` has from `a` on, and before `b`.
pub open spec fn space_len(s: Seq<u8>, a: int, b: int) -> nat
    decreases b - a,
{
    if a >= b || !is_space(s[a]) {
        0
    } else {
        1 + space_len(s, a + 1, b)
    }
}

/// How many bytes that are no white space `s` has from `a` on, and before `b`.
pub open spec fn word_len(s: Seq<u8>, a: int, b: int) -> nat
    decreases b - a,
{
    if a >= b || is_space(s[a]) {
        0
    } else {
        1 + word_len(s, a + 1, b)
    }
}

/// How many bytes of white space `s` ends with before `b`, from `a` on.
pub open spec fn trailing_spaces(s: Seq<u8>, a: int, b: int) -> nat
    decreases b - a,
{
    if a >= b || !is_space(s[b - 1]) {
        0
    } else {
        1 + trailing_spaces(s, a, b - 1)
    }
}

/// The part of `s` from `a` up to `b` without the white space at its two
/// ends: where it begins and where it ends.
pub open spec fn trim_range(s: Seq<u8>, a: int, b: int) -> (int, int) {
    let begin = a + space_len(s, a, b);
    (begin, b - trailing_spaces(s, begin, b))
}

/// Whether the part of `s` from `a` up to `b` begins with `prefix`.
pub open spec fn has_prefix(s: Seq<u8>, a: int, b: int, prefix: Seq<u8>) -> bool {
    b - a >= prefix.len() && s.subrange(a, a + prefix.len()) == prefix
}

fn skip_to(s: &[u8], a: usize, b: usize, byte: u8) -> (r: usize)
    requires
        a <= b <= s@.len(),
    ensures
        r == a + run_len(s@, a as int, b as int, byte),
        a <= r <= b,
{
    let mut i = a;
    while i < b && s[i] != byte
        invariant
            a <= i <= b <= s@.len(),
            a + run_len(s@, a as int, b as int, byte) == i + run_len(s@, i as int, b as int, byte),
        decreases b - i,
    {
        i += 1;
    }
    i
}

fn skip_back_to(s: &[u8], a: usize, b: usize, byte: u8) -> (r: usize)
    requires
        a <= b <= s@.len(),
    ensures
        r == b - tail_len(s@, a as int, b as int, byte),
        a <= r <= b,
{
    let mut i = b;
    while i > a && s[i - 1] != byte
        invariant
            a <= i <= b <= s@.len(),
            b - tail_len(s@, a as int, b as int, byte) == i - tail_len(s@, a as int, i as int, byte),
        decreases i - a,
    {
        i -= 1;
    }
    i
}

fn skip_spaces(s: &[u8], a: usize, b: usize) -> (r: usize)
    requires
        a <= b <= s@.len(),
    ensures
        r == a + space_len(s@, a as int, b as int),
        a <= r <= b,
{
    let mut i = a;
    while i < b && space(s[i])
        invariant
            a <= i <= b <= s@.len(),
            a + space_len(s@, a as int, b as int) == i + space_len(s@, i as int, b as int),
        decreases b - i,
    {
        i += 1;
    }
    i
}

fn skip_word(s: &[u8], a: usize, b: usize) -> (r: usize)
    requires
        a <= b <= s@.len(),
    ensures
        r == a + word_len(s@, a as int, b as int),
        a <= r <= b,
{
    let mut i = a;
    while i < b && !space(s[i])
        invariant
            a <= i <= b <= s@.len(),
            a + word_len(s@, a as int, b as int) == i + word_len(s@, i as int, b as int),
        decreases b - i,
    {
        i += 1;
    }
    i
}

fn trim(s: &[u8], a: usize, b: usize) -> (r: (usize, usize))
    requires
        a <= b <= s@.len(),
    ensures
        (r.0 as int, r.1 as int) == trim_range(s@, a as int, b as int),
        a <= r.0 <= r.1 <= b,
{
    let begin = skip_spaces(s, a, b);
    let mut i = b;
    while i > begin && space(s[i - 1])
        invariant
            begin <= i <= b <= s@.len(),
            b - trailing_spaces(s@, begin as int, b as int) == i - trailing_spaces(
                s@,
                begin as int,
                i as int,
            ),
        decreases i - begin,
    {
        i -= 1;
    }
    (begin, i)
}

fn starts_with(s: &[u8], a: usize, b: usize, prefix: &[u8]) -> (r: bool)
    requires
        a <= b <= s@.len(),
    ensures
        r == has_prefix(s@, a as int, b as int, prefix@),
{
    if b - a < prefix.len() {
        return false;
    }
    let mut i: usize = 0;
    while i < prefix.len()
        invariant
            i <= prefix@.len() <= b - a,
            b <= s@.len(),
            forall|k: int| 0 <= k < i ==> s@[a + k] == prefix@[k],
        decreases prefix@.len() - i,
    {
        if s[a + i] != prefix[i] {
            assert(s@.subrange(a as int, a + prefix@.len())[i as int] != prefix@[i as int]);
            return false;
        }
        i += 1;
    }
    assert(s@.subrange(a as int, a + prefix@.len()) =~= prefix@);
    true
}

fn equals(s: &[u8], a: usize, b: usize, value: &[u8]) -> (r: bool)
    requires
        a <= b <= s@.len(),
    ensures
        r == (s@.subrange(a as int, b as int) == value@),
{
    if b - a != value.len() {
        return false;
    }
    let r = starts_with(s, a, b, value);
    assert(a + value@.len() == b);
    r
}

/// The number that `s` is the text of: a plus sign or none, then decimal
/// digits and nothing else, for a number up to `max`.
pub open spec fn unsigned_of(s: Seq<u8>, max: u64) -> Option<u64> {
    let body = if s.len() > 0 && s[0] == 0x2b {
        s.subrange(1, s.len() as int)
    } else {
        s
    };
    match digits_value(body) {
        Some(v) => if v <= max {
            Some(v as u64)
        } else {
            None
        },
        None => None,
    }
}

/// Parses the text of a number up to `max` in `s` from `a` up to `b`.
pub fn parse_unsigned(s: &[u8], a: usize, b: usize, max: u64) -> (r: Option<u64>)
    requires
        a <= b <= s@.len(),
    ensures
        r == unsigned_of(s@.subrange(a as int, b as int), max),
{
    let ghost text = s@.subrange(a as int, b as int);
    let start: usize = if a < b && s[a] == 0x2b {
        a + 1
    } else {
        a
    };
    let ghost body = s@.subrange(start as int, b as int);
    assert(body =~= if text.len() > 0 && text[0] == 0x2b {
        text.subrange(1, text.len() as int)
    } else {
        text
    });
    let ghost want = unsigned_of(text, max);
    assert(want == match digits_value(body) {
        Some(v) => if v <= max {
            Some(v as u64)
        } else {
            None
        },
        None => None,
    });
    if start >= b {
        return None;
    }
    let mut acc: u128 = 0;
    let mut over = false;
    let mut i: usize = start;
    while i < b
        invariant
            start <= i <= b <= s@.len(),
            start < b,
            body == s@.subrange(start as int, b as int),
            want == match digits_value(body) {
                Some(v) => if v <= max {
                    Some(v as u64)
                } else {
                    None
                },
                None => None,
            },
            want == unsigned_of(s@.subrange(a as int, b as int), max),
            i > start ==> (digits_value(body.subrange(0, i - start)) matches Some(v) && (if over {
                v > max
            } else {
                v == acc
            })),
            !over ==> acc <= max,
            i == start ==> acc == 0 && !over,
        decreases b - i,
    {
        let d = s[i];
        let ghost upto = body.subrange(0, i + 1 - start);
        assert(upto.last() == d);
        assert(upto.drop_last() =~= body.subrange(0, i - start));
        if d < 0x30 || d > 0x39 {
            proof {
                lemma_digits_need_digits(body, i - start);
            }
            return None;
        }
        if !over {
            acc = acc * 10 + (d - 0x30) as u128;
            if acc > max as u128 {
                over = true;
            }
        } else {
            assert(digits_value(upto) matches Some(v) && v > max);
        }
        i += 1;
    }
    assert(body.subrange(0, b - start) =~= body);
    if over {
        None
    } else {
        Some(acc as u64)
    }
}

/// Where the first line of `s` from `start` on begins that begins with
/// `prefix`.
pub open spec fn line_with(s: Seq<u8>, start: int, prefix: Seq<u8>) -> Option<int>
    decreases s.len() - start,
{
    if start < 0 || start >= s.len() {
        None
    } else {
        let end = start + run_len(s, start, s.len() as int, 0x0a);
        if has_prefix(s, start, end, prefix) {
            Some(start)
        } else if end >= s.len() {
            None
        } else {
            line_with(s, end + 1, prefix)
        }
    }
}

fn find_line(s: &[u8], prefix: &[u8]) -> (r: Option<(usize, usize)>)
    ensures
        match r {
            Some((start, end)) => line_with(s@, 0, prefix@) == Some(start as int) && end == start
                + run_len(s@, start as int, s@.len() as int, 0x0a) && start <= end <= s@.len(),
            None => line_with(s@, 0, prefix@) is None,
        },
{
    let n = s.len();
    let mut start: usize = 0;
    while start < n
        invariant
            n == s@.len(),
            line_with(s@, 0, prefix@) == line_with(s@, start as int, prefix@),
        decreases n - start,
    {
        let end = skip_to(s, start, n, 0x0a);
        if starts_with(s, start, end, prefix) {
            return Some((start, end));
        }
        if end >= n {
            return None;
        }
        start = end + 1;
    }
    None
}

/// The first of the words of `s` from `a` up to `b` that is the text of a
/// 64-bit number. Words are parted by white space.
pub open spec fn first_number(s: Seq<u8>, a: int, b: int) -> Option<u64>
    decreases b - a,
{
    let begin = a + space_len(s, a, b);
    if a >= b || begin >= b {
        None
    } else {
        let end = begin + word_len(s, begin, b);
        match unsigned_of(s.subrange(begin, end), u64::MAX) {
            Some(n) => Some(n),
            None => if end >= b {
                None
            } else {
                first_number(s, end + 1, b)
            },
        }
    }
}

pub open spec fn vm_rss() -> Seq<u8> {
    seq![0x56u8, 0x6d, 0x52, 0x53, 0x53]
}

/// The resident memory in bytes that the status `s` of a process tells: the
/// first number on its first line that begins with `VmRSS`, which is in
/// units of 1024 bytes.
pub open spec fn memory_rss_of(s: Seq<u8>) -> Option<u64> {
    match line_with(s, 0, vm_rss()) {
        None => None,
        Some(start) => match first_number(
            s,
            start,
            start + run_len(s, start, s.len() as int, 0x0a),
        ) {
            None => None,
            Some(n) => Some(((n * 1024) % 0x1_0000_0000_0000_0000) as u64),
        },
    }
}

/// Reads the resident memory in bytes from the status of a process.
pub fn memory_rss(status: &[u8]) -> (r: Option<u64>)
    ensures
        r == memory_rss_of(status@),
{
    let prefix: [u8; 5] = [0x56, 0x6d, 0x52, 0x53, 0x53];
    assert(prefix@ =~= vm_rss());
    let (start, end) = match find_line(status, prefix.as_slice()) {
        None => {
            return None;
        },
        Some(found) => found,
    };
    let mut a: usize = start;
    while a < end
        invariant
            start <= a <= end <= status@.len(),
            line_with(status@, 0, vm_rss()) == Some(start as int),
            end == start + run_len(status@, start as int, status@.len() as int, 0x0a),
            first_number(status@, start as int, end as int) == first_number(
                status@,
                a as int,
                end as int,
            ),
        decreases end - a,
    {
        let begin = skip_spaces(status, a, end);
        if begin >= end {
            return None;
        }
        let stop = skip_word(status, begin, end);
        match parse_unsigned(status, begin, stop, u64::MAX) {
            Some(n) => {
                return Some(((n as u128 * 1024) % 0x1_0000_0000_0000_0000) as u64);
            },
            None => {},
        }
        if stop >= end {
            return None;
        }
        a = stop + 1;
    }
    None
}

/// Why the status of a process does not tell a number.
#[derive(Clone, Copy, Debug, PartialEq, Eq, Structural)]
pub enum StatusFault {
    /// No line begins with the name of the entry.
    NotFound,
    /// The entry holds no number.
    InvalidData,
}

/// What stands behind the last tab of the line of `s` from `a` up to `b`,
/// taken without the white space at its two ends: where it begins and where
/// it ends. A line without a tab has no such part.
pub open spec fn value_range(s: Seq<u8>, a: int, b: int) -> Option<(int, int)> {
    let (begin, end) = trim_range(s, a, b);
    let tail = tail_len(s, begin, end, 0x09);
    if tail == end - begin {
        None
    } else {
        Some((end - tail, end))
    }
}

fn value_of(s: &[u8], a: usize, b: usize) -> (r: Option<(usize, usize)>)
    requires
        a <= b <= s@.len(),
    ensures
        match r {
            Some((x, y)) => value_range(s@, a as int, b as int) == Some((x as int, y as int)) && a
                <= x <= y <= b,
            None => value_range(s@, a as int, b as int) is None,
        },
{
    let (begin, end) = trim(s, a, b);
    let from = skip_back_to(s, begin, end, 0x09);
    if from == begin {
        None
    } else {
        Some((from, end))
    }
}

pub open spec fn threads() -> Seq<u8> {
    seq![0x54u8, 0x68, 0x72, 0x65, 0x61, 0x64, 0x73, 0x3a]
}

/// The number of threads that the status `s` of a process tells: the number
/// behind the last tab of its first line that begins with `Threads:`.
pub open spec fn thread_num_of(s: Seq<u8>) -> Result<u32, StatusFault> {
    match line_with(s, 0, threads()) {
        None => Err(StatusFault::NotFound),
        Some(start) => match value_range(
            s,
            start,
            start + run_len(s, start, s.len() as int, 0x0a),
        ) {
            None => Err(StatusFault::InvalidData),
            Some((x, y)) => match unsigned_of(s.subrange(x, y), 0xffff_ffff) {
                None => Err(StatusFault::InvalidData),
                Some(n) => Ok(n as u32),
            },
        },
    }
}

/// Reads the number of threads from the status of a process.
pub fn thread_num(status: &[u8]) -> (r: Result<u32, StatusFault>)
    ensures
        r == thread_num_of(status@),
{
    let prefix: [u8; 8] = [0x54, 0x68, 0x72, 0x65, 0x61, 0x64, 0x73, 0x3a];
    assert(prefix@ =~= threads());
    let (start, end) = match find_line(status, prefix.as_slice()) {
        None => {
            return Err(StatusFault::NotFound);
        },
        Some(found) => found,
    };
    match value_of(status, start, end) {
        None => Err(StatusFault::InvalidData),
        Some((x, y)) => match parse_unsigned(status, x, y, 0xffff_ffff) {
            None => Err(StatusFault::InvalidData),
            Some(n) => Ok(n as u32),
        },
    }
}

/// How many lines of the status `s` of a process, from `start` on, begin with
/// `pattern` and hold `value` behind their last tab, up to the first line that
/// begins with `pattern` and holds something else.
pub open spec fn matching_lines(s: Seq<u8>, start: int, pattern: Seq<u8>, value: Seq<u8>) -> nat
    decreases s.len() - start,
{
    if start < 0 || start >= s.len() {
        0
    } else {
        let end = start + run_len(s, start, s.len() as int, 0x0a);
        let rest = if end >= s.len() {
            0
        } else {
            matching_lines(s, end + 1, pattern, value)
        };
        if !has_prefix(s, start, end, pattern) {
            rest
        } else {
            match value_range(s, start, end) {
                Some((x, y)) => if s.subrange(x, y) == value {
                    1 + rest
                } else {
                    0
                },
                None => 0,
            }
        }
    }
}

/// Counts the lines of the status of a process that begin with `pattern`
/// and hold `value`.
pub fn status_matches(status: &[u8], pattern: &[u8], value: &[u8]) -> (r: usize)
    ensures
        r == matching_lines(status@, 0, pattern@, value@),
{
    let n = status.len();
    let mut count: usize = 0;
    let mut start: usize = 0;
    while start < n
        invariant
            n == status@.len(),
            count <= start,
            matching_lines(status@, 0, pattern@, value@) == count + matching_lines(
                status@,
                start as int,
                pattern@,
                value@,
            ),
        decreases n - start,
    {
        let end = skip_to(status, start, n, 0x0a);
        if starts_with(status, start, end, pattern) {
            let same = match value_of(status, start, end) {
                Some((x, y)) => equals(status, x, y, value),
                None => false,
            };
            if !same {
                return count;
            }
            count += 1;
        }
        if end >= n {
            return count;
        }
        start = end + 1;
    }
    count
}

/// How many of the parts of `s` from `a` up to `b` are the text of a 32-bit
/// number. The parts are parted by single spaces.
pub open spec fn numbers_in(s: Seq<u8>, a: int, b: int) -> nat
    decreases b - a,
{
    let end = a + run_len(s, a, b, 0x20);
    let one: nat = if unsigned_of(s.subrange(a, end), 0xffff_ffff) is Some {
        1
    } else {
        0
    };
    if a >= b || end >= b {
        one
    } else {
        one + numbers_in(s, end + 1, b)
    }
}

/// The number of processes that the list `s` of the children of a process
/// tells, the process itself counted in: one more than the list, taken
/// without the white space at its ends, holds of numbers.
pub open spec fn process_num_of(s: Seq<u8>) -> nat {
    let (begin, end) = trim_range(s, 0, s.len() as int);
    numbers_in(s, begin, end) + 1
}

/// Counts a process and its children by the list of its children. The list
/// must be short enough for the count to be a 32-bit number.
pub fn process_num(children: &[u8]) -> (r: u32)
    requires
        children@.len() < 0xffff_ffff,
    ensures
        r == process_num_of(children@),
{
    let (begin, end) = trim(children, 0, children.len());
    let mut count: u32 = 0;
    let mut a: usize = begin;
    loop
        invariant
            begin <= a <= end <= children@.len(),
            children@.len() < 0xffff_ffff,
            (begin as int, end as int) == trim_range(children@, 0, children@.len() as int),
            count <= a - begin,
            numbers_in(children@, begin as int, end as int) == count + numbers_in(
                children@,
                a as int,
                end as int,
            ),
        decreases end - a,
    {
        let stop = skip_to(children, a, end, 0x20);
        let ghost before = count;
        let ghost one: nat = if unsigned_of(children@.subrange(a as int, stop as int), 0xffff_ffff)
            is Some {
            1
        } else {
            0
        };
        if parse_unsigned(children, a, stop, 0xffff_ffff).is_some() {
            count += 1;
        }
        assert(count == before + one);
        if stop >= end {
            assert(numbers_in(children@, a as int, end as int) == one);
            return count + 1;
        }
        assert(numbers_in(children@, a as int, end as int) == one + numbers_in(
            children@,
            stop + 1,
            end as int,
        ));
        a = stop + 1;
    }
}

/// The major and the minor number of the kernel release `s`: the first two
/// parts of the release, taken without the white space at its ends and
/// parted by dots. A part that is missing or no number up to 255 is taken
/// from the oldest kernel that the agent runs on.
pub open spec fn kernel_release_of(s: Seq<u8>) -> (u8, u8) {
    let (begin, end) = trim_range(s, 0, s.len() as int);
    let first = begin + run_len(s, begin, end, 0x2e);
    let major = match unsigned_of(s.subrange(begin, first), 0xff) {
        Some(n) => n as u8,
        None => MIN_MAJOR_RELEASE,
    };
    if first >= end {
        (major, MIN_MINOR_RELEASE)
    } else {
        let second = first + 1 + run_len(s, first + 1, end, 0x2e);
        (
            major,
            match unsigned_of(s.subrange(first + 1, second), 0xff) {
                Some(n) => n as u8,
                None => MIN_MINOR_RELEASE,
            },
        )
    }
}

/// Reads the major and the minor number of a kernel release.
pub fn kernel_release(release: &[u8]) -> (r: (u8, u8))
    ensures
        r == kernel_release_of(release@),
{
    let (begin, end) = trim(release, 0, release.len());
    let first = skip_to(release, begin, end, 0x2e);
    let major = match parse_unsigned(release, begin, first, 0xff) {
        Some(n) => n as u8,
        None => MIN_MAJOR_RELEASE,
    };
    if first >= end {
        return (major, MIN_MINOR_RELEASE);
    }
    let second = skip_to(release, first + 1, end, 0x2e);
    let minor = match parse_unsigned(release, first + 1, second, 0xff) {
        Some(n) => n as u8,
        None => MIN_MINOR_RELEASE,
    };
    (major, minor)
}

/// Whether a kernel of release `major`.`minor` lists the children of a
/// process in a file of their own: it does from 3.5 on.
pub fn lists_children(major: u8, minor: u8) -> (r: bool)
    ensures
        r == (major > 3 || (major == 3 && minor >= 5)),
{
    major > 3 || (major == 3 && minor >= 5)
}

/// The share of the memory that is free, in per cent, of a host with
/// `total_memory` in all and `free_memory` free; 0 where the host has no more
/// than 100 units of memory.
pub fn free_memory_percentage(total_memory: u64, free_memory: u64) -> (r: u32)
    ensures
        r == if total_memory > 100 {
            ((free_memory / (total_memory / 100)) % 0x1_0000_0000) as u32
        } else {
            0
        },
{
    if total_memory > 100 {
        ((free_memory / (total_memory / 100)) % 0x1_0000_0000) as u32
    } else {
        0
    }
}

/// ` (deleted)`: what the kernel writes behind the name of a binary whose
/// file is gone.
pub open spec fn deleted() -> Seq<u8> {
    seq![0x20u8, 0x28, 0x64, 0x65, 0x6c, 0x65, 0x74, 0x65, 0x64, 0x29]
}

/// How much of `s` up to `b` is left when every ` (deleted)` at its end is
/// taken away.
pub open spec fn without_deleted(s: Seq<u8>, b: int) -> int
    decreases b,
{
    if b >= 10 && b <= s.len() && s.subrange(b - 10, b) == deleted() {
        without_deleted(s, b - 10)
    } else {
        b
    }
}

/// `.test`: what is written behind the name of a binary that is tried.
pub open spec fn test_suffix() -> Seq<u8> {
    seq![0x2eu8, 0x74, 0x65, 0x73, 0x74]
}

/// The name of the file under which a new binary of the program `name` is
/// tried: the name without any ` (deleted)` at its end, and `.test` behind it.
pub fn test_file_name(name: &[u8]) -> (r: Vec<u8>)
    ensures
        r@ == name@.subrange(0, without_deleted(name@, name@.len() as int)) + test_suffix(),
{
    let marker: [u8; 10] = [0x20, 0x28, 0x64, 0x65, 0x6c, 0x65, 0x74, 0x65, 0x64, 0x29];
    assert(marker@ =~= deleted());
    let mut end: usize = name.len();
    while end >= 10 && equals(name, end - 10, end, marker.as_slice())
        invariant
            end <= name@.len(),
            marker@ == deleted(),
            without_deleted(name@, name@.len() as int) == without_deleted(name@, end as int),
        decreases end,
    {
        end -= 10;
    }
    let mut out: Vec<u8> = Vec::new();
    let mut i: usize = 0;
    while i < end
        invariant
            i <= end <= name@.len(),
            out@ == name@.subrange(0, i as int),
        decreases end - i,
    {
        out.push(name[i]);
        assert(out@ =~= name@.subrange(0, i + 1));
        i += 1;
    }
    out.push(0x2e);
    out.push(0x74);
    out.push(0x65);
    out.push(0x73);
    out.push(0x74);
    assert(out@ =~= name@.subrange(0, end as int) + test_suffix());
    out
}

/// Where a system keeps the link to the binary of a process.
#[derive(Clone, Copy, Debug, PartialEq, Eq, Structural)]
pub enum ExecLink {
    /// `/proc/self/exe`; the new binary is tried beside it.
    Linux,
    /// `/proc/curproc/exe`.
    NetBsd,
    /// `/proc/curproc/file`.
    FreeBsd,
    /// `/proc/<pid>/path/a.out`.
    Solaris,
}

/// Where the system named `sysname` keeps the link to the binary of a
/// process, if the system is one that is known.
pub fn exec_link(sysname: &str) -> (r: Option<ExecLink>)
    ensures
        r == if sysname@ == "Linux"@ {
            Some(ExecLink::Linux)
        } else if sysname@ == "NetBSD"@ {
            Some(ExecLink::NetBsd)
        } else if sysname@ == "FreeBSD"@ || sysname@ == "OpenBSD"@ || sysname@ == "DragonFly"@ {
            Some(ExecLink::FreeBsd)
        } else if sysname@ == "Solaris"@ {
            Some(ExecLink::Solaris)
        } else {
            None
        },
{
    let name = String::from_str(sysname);
    if name == String::from_str("Linux") {
        Some(ExecLink::Linux)
    } else if name == String::from_str("NetBSD") {
        Some(ExecLink::NetBsd)
    } else if name == String::from_str("FreeBSD") || name == String::from_str("OpenBSD") || name
        == String::from_str("DragonFly") {
        Some(ExecLink::FreeBsd)
    } else if name == String::from_str("Solaris") {
        Some(ExecLink::Solaris)
    } else {
        None
    }
}

/// The text `s` with its first space, if it has one, made a hyphen.
pub open spec fn hyphenated(s: Seq<u8>) -> Seq<u8> {
    let at = run_len(s, 0, s.len() as int, 0x20) as int;
    if at < s.len() {
        s.update(at, 0x2d)
    } else {
        s
    }
}

/// Whether a new binary that tells `output` of its version is of the revision
/// `revision`: the output with its first space made a hyphen begins with the
/// revision. An output that is no UTF-8 is not held against the binary.
pub open spec fn version_accepted(output: Seq<u8>, revision: Seq<u8>) -> bool {
    !valid_utf8(output) || has_prefix(
        hyphenated(output),
        0,
        output.len() as int,
        revision,
    )
}

/// Checks what a new binary tells of its version against the revision that
/// was asked for.
pub fn check_version(output: &[u8], revision: &[u8]) -> (r: bool)
    ensures
        r == version_accepted(output@, revision@),
{
    if string_from_utf8(output).is_none() {
        return true;
    }
    let n = output.len();
    if n < revision.len() {
        return false;
    }
    let at = skip_to(output, 0, n, 0x20);
    let ghost text = hyphenated(output@);
    let mut i: usize = 0;
    while i < revision.len()
        invariant
            i <= revision@.len() <= n,
            n == output@.len(),
            valid_utf8(output@),
            text == hyphenated(output@),
            at == run_len(output@, 0, n as int, 0x20),
            forall|k: int| 0 <= k < i ==> text[k] == revision@[k],
        decreases revision@.len() - i,
    {
        let b = if i == at {
            0x2d
        } else {
            output[i]
        };
        assert(text[i as int] == b);
        if b != revision[i] {
            assert(text.subrange(0, revision@.len() as int)[i as int] != revision@[i as int]);
            return false;
        }
        i += 1;
    }
    assert(text.subrange(0, revision@.len() as int) =~= revision@);
    true
}

} // verus!
