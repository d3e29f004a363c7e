//! Rendering numbers and addresses as text.

use vstd::prelude::*;
use vstd::string::StringExecFns;
use crate::net::{IpAddr, MacAddr};
use crate::outside::push_char;

verus! {

/// The character of a digit below sixteen, lower case.
pub open spec fn digit_char(d: int) -> char {
    if d < 10 {
        (d + 0x30) as char
    } else {
        (d - 10 + 0x61) as char
    }
}

/// The decimal digits of `n`, most significant first, without leading zeros;
/// zero is one digit.
pub open spec fn decimal(n: nat) -> Seq<char>
    decreases n,
{
    if n < 10 {
        seq![digit_char(n as int)]
    } else {
        decimal(n / 10).push(digit_char((n % 10) as int))
    }
}

/// The hexadecimal digits of `n`, lower case, most significant first, without
/// leading zeros; zero is one digit.
pub open spec fn hex(n: nat) -> Seq<char>
    decreases n,
{
    if n < 16 {
        seq![digit_char(n as int)]
    } else {
        hex(n / 16).push(digit_char((n % 16) as int))
    }
}

fn digit_of(d: u8) -> (c: char)
    requires
        d < 16,
    ensures
        c == digit_char(d as int),
{
    if d < 10 {
        (d + 0x30) as char
    } else {
        (d - 10 + 0x61) as char
    }
}

/// Appends the decimal digits of `n` to `dst`.
pub fn append_decimal(dst: &mut String, n: u64)
    ensures
        final(dst)@ == old(dst)@ + decimal(n as nat),
    decreases n,
{
    if n >= 10 {
        append_decimal(dst, n / 10);
    }
    push_char(dst, digit_of((n % 10) as u8));
    assert(dst@ =~= old(dst)@ + decimal(n as nat));
}

/// Appends the hexadecimal digits of `n` to `dst`.
pub fn append_hex(dst: &mut String, n: u64)
    ensures
        final(dst)@ == old(dst)@ + hex(n as nat),
    decreases n,
{
    if n >= 16 {
        append_hex(dst, n / 16);
    }
    push_char(dst, digit_of((n % 16) as u8));
    assert(dst@ =~= old(dst)@ + hex(n as nat));
}

/// The decimal digits of a signed number, with a minus sign where it is
/// negative.
pub open spec fn signed_decimal(n: int) -> Seq<char> {
    if n < 0 {
        seq!['-'] + decimal((-n) as nat)
    } else {
        decimal(n as nat)
    }
}

/// Appends the decimal digits of `n`, with its sign where it is negative.
pub fn append_signed_decimal(dst: &mut String, n: i64)
    ensures
        final(dst)@ == old(dst)@ + signed_decimal(n as int),
{
    if n < 0 {
        push_char(dst, '-');
        let magnitude: u64 = (-(n as i128)) as u64;
        append_decimal(dst, magnitude);
        assert(dst@ =~= old(dst)@ + signed_decimal(n as int));
    } else {
        append_decimal(dst, n as u64);
    }
}

/// An IPv4 address in dotted decimal.
pub open spec fn ipv4_text(v: u32) -> Seq<char> {
    decimal((v / 0x100_0000) as nat) + seq!['.'] + decimal((v / 0x1_0000 % 0x100) as nat)
        + seq!['.'] + decimal((v / 0x100 % 0x100) as nat) + seq!['.'] + decimal(
        (v % 0x100) as nat,
    )
}

/// Appends an IPv4 address in dotted decimal.
pub fn append_ipv4(dst: &mut String, v: u32)
    ensures
        final(dst)@ == old(dst)@ + ipv4_text(v),
{
    append_decimal(dst, (v / 0x100_0000) as u64);
    push_char(dst, '.');
    append_decimal(dst, (v / 0x1_0000 % 0x100) as u64);
    push_char(dst, '.');
    append_decimal(dst, (v / 0x100 % 0x100) as u64);
    push_char(dst, '.');
    append_decimal(dst, (v % 0x100) as u64);
    assert(dst@ =~= old(dst)@ + ipv4_text(v));
}

/// The 16-bit group of an IPv6 address that is `i` groups from the first.
pub open spec fn group(v: u128, i: int) -> u16 {
    if i == 0 {
        (v / 0x1_0000_0000_0000_0000_0000_0000_0000) as u16
    } else if i == 1 {
        (v / 0x1_0000_0000_0000_0000_0000_0000 % 0x1_0000) as u16
    } else if i == 2 {
        (v / 0x1_0000_0000_0000_0000_0000 % 0x1_0000) as u16
    } else if i == 3 {
        (v / 0x1_0000_0000_0000_0000 % 0x1_0000) as u16
    } else if i == 4 {
        (v / 0x1_0000_0000_0000 % 0x1_0000) as u16
    } else if i == 5 {
        (v / 0x1_0000_0000 % 0x1_0000) as u16
    } else if i == 6 {
        (v / 0x1_0000 % 0x1_0000) as u16
    } else {
        (v % 0x1_0000) as u16
    }
}

/// The eight groups of an IPv6 address, first group first.
pub fn groups_of(v: u128) -> (r: [u16; 8])
    ensures
        forall|i: int| 0 <= i < 8 ==> r[i] == group(v, i),
{
    [
        (v / 0x1_0000_0000_0000_0000_0000_0000_0000) as u16,
        (v / 0x1_0000_0000_0000_0000_0000_0000 % 0x1_0000) as u16,
        (v / 0x1_0000_0000_0000_0000_0000 % 0x1_0000) as u16,
        (v / 0x1_0000_0000_0000_0000 % 0x1_0000) as u16,
        (v / 0x1_0000_0000_0000 % 0x1_0000) as u16,
        (v / 0x1_0000_0000 % 0x1_0000) as u16,
        (v / 0x1_0000 % 0x1_0000) as u16,
        (v % 0x1_0000) as u16,
    ]
}

/// The number of zero groups in a row from group `i` on.
pub open spec fn zero_run(g: Seq<u16>, i: int) -> int
    decreases g.len() - i,
{
    if i < 0 || i >= g.len() || g[i] != 0 {
        0
    } else {
        1 + zero_run(g, i + 1)
    }
}

/// The longest run of zero groups among those that begin at group `i` or
/// later, as where it begins and how long it is; of runs of one length the first.
/// `best` is the longest run that begins before `i`.
pub open spec fn longest_zero_run(g: Seq<u16>, i: int, best: (int, int)) -> (int, int)
    decreases g.len() - i,
{
    if i < 0 || i >= g.len() {
        best
    } else if zero_run(g, i) > best.1 {
        longest_zero_run(g, i + 1, (i, zero_run(g, i)))
    } else {
        longest_zero_run(g, i + 1, best)
    }
}

/// The groups from `from` up to `to` in hexadecimal, with colons between them.
pub open spec fn groups_text(g: Seq<u16>, from: int, to: int) -> Seq<char>
    decreases to - from,
{
    if from >= to {
        seq![]
    } else if from + 1 == to {
        hex(g[from] as nat)
    } else {
        hex(g[from] as nat) + seq![':'] + groups_text(g, from + 1, to)
    }
}

/// An IPv6 address as text: an address that maps an IPv4 address as `::ffff:`
/// and dotted decimal; else the groups in hexadecimal with colons between, with
/// `::` in place of the longest run of two or more zero groups.
pub open spec fn ipv6_text(v: u128) -> Seq<char> {
    let g = Seq::new(8, |i: int| group(v, i));
    let run = longest_zero_run(g, 0, (0, 0));
    if v / 0x1_0000_0000 == 0xffff {
        seq![':', ':', 'f', 'f', 'f', 'f', ':'] + ipv4_text((v % 0x1_0000_0000) as u32)
    } else if run.1 >= 2 {
        groups_text(g, 0, run.0) + seq![':', ':'] + groups_text(g, run.0 + run.1, 8)
    } else {
        groups_text(g, 0, 8)
    }
}

/// An IP address as text.
pub open spec fn ip_text(ip: IpAddr) -> Seq<char> {
    match ip {
        IpAddr::V4(v) => ipv4_text(v),
        IpAddr::V6(v) => ipv6_text(v),
    }
}

fn zero_run_of(g: &[u16; 8], i: usize) -> (n: usize)
    requires
        i <= 8,
    ensures
        n == zero_run(g@, i as int),
        i + n <= 8,
    decreases 8 - i,
{
    if i >= 8 || g[i] != 0 {
        0
    } else {
        1 + zero_run_of(g, i + 1)
    }
}

fn append_groups(dst: &mut String, g: &[u16; 8], from: usize, to: usize)
    requires
        from <= to <= 8,
    ensures
        final(dst)@ == old(dst)@ + groups_text(g@, from as int, to as int),
    decreases to - from,
{
    if from >= to {
        assert(dst@ =~= old(dst)@ + groups_text(g@, from as int, to as int));
        return ;
    }
    append_hex(dst, g[from] as u64);
    if from + 1 < to {
        push_char(dst, ':');
        append_groups(dst, g, from + 1, to);
    }
    assert(dst@ =~= old(dst)@ + groups_text(g@, from as int, to as int));
}

/// Appends an IPv6 address as text.
pub fn append_ipv6(dst: &mut String, v: u128)
    ensures
        final(dst)@ == old(dst)@ + ipv6_text(v),
{
    if v / 0x1_0000_0000 == 0xffff {
        dst.append("::ffff:");
        proof {
            reveal_strlit("::ffff:");
            assert("::ffff:"@ =~= seq![':', ':', 'f', 'f', 'f', 'f', ':']);
        }
        append_ipv4(dst, (v % 0x1_0000_0000) as u32);
        assert(dst@ =~= old(dst)@ + ipv6_text(v));
        return ;
    }
    let g = groups_of(v);
    assert(g@ =~= Seq::new(8, |i: int| group(v, i)));
    let mut best_start: usize = 0;
    let mut best_len: usize = 0;
    let mut i: usize = 0;
    while i < 8
        invariant
            i <= 8,
            best_start + best_len <= 8,
            longest_zero_run(g@, 0, (0, 0)) == longest_zero_run(
                g@,
                i as int,
                (best_start as int, best_len as int),
            ),
        decreases 8 - i,
    {
        let n = zero_run_of(&g, i);
        if n > best_len {
            best_start = i;
            best_len = n;
        }
        i += 1;
    }
    if best_len >= 2 {
        append_groups(dst, &g, 0, best_start);
        push_char(dst, ':');
        push_char(dst, ':');
        append_groups(dst, &g, best_start + best_len, 8);
    } else {
        append_groups(dst, &g, 0, 8);
    }
    assert(dst@ =~= old(dst)@ + ipv6_text(v));
}

/// Appends an IP address as text.
pub fn append_ip(dst: &mut String, ip: IpAddr)
    ensures
        final(dst)@ == old(dst)@ + ip_text(ip),
{
    match ip {
        IpAddr::V4(v) => append_ipv4(dst, v),
        IpAddr::V6(v) => append_ipv6(dst, v),
    }
}

/// Two hexadecimal digits for one octet.
pub open spec fn octet_hex(b: int) -> Seq<char> {
    seq![digit_char(b / 16), digit_char(b % 16)]
}

/// A link-layer address as text: six octets in hexadecimal with colons between.
pub open spec fn mac_text(m: MacAddr) -> Seq<char> {
    let v = m.value as int;
    octet_hex(v / 0x100_0000_0000 % 0x100) + seq![':'] + octet_hex(v / 0x1_0000_0000 % 0x100)
        + seq![':'] + octet_hex(v / 0x100_0000 % 0x100) + seq![':'] + octet_hex(
        v / 0x1_0000 % 0x100,
    ) + seq![':'] + octet_hex(v / 0x100 % 0x100) + seq![':'] + octet_hex(v % 0x100)
}

/// Appends two hexadecimal digits for one octet.
pub fn append_octet_hex(dst: &mut String, b: u8)
    ensures
        final(dst)@ == old(dst)@ + octet_hex(b as int),
{
    push_char(dst, digit_of(b / 16));
    push_char(dst, digit_of(b % 16));
    assert(dst@ =~= old(dst)@ + octet_hex(b as int));
}

/// Appends a link-layer address as text.
pub fn append_mac(dst: &mut String, m: MacAddr)
    ensures
        final(dst)@ == old(dst)@ + mac_text(m),
{
    let v = m.value;
    append_octet_hex(dst, (v / 0x100_0000_0000 % 0x100) as u8);
    push_char(dst, ':');
    append_octet_hex(dst, (v / 0x1_0000_0000 % 0x100) as u8);
    push_char(dst, ':');
    append_octet_hex(dst, (v / 0x100_0000 % 0x100) as u8);
    push_char(dst, ':');
    append_octet_hex(dst, (v / 0x1_0000 % 0x100) as u8);
    push_char(dst, ':');
    append_octet_hex(dst, (v / 0x100 % 0x100) as u8);
    push_char(dst, ':');
    append_octet_hex(dst, (v % 0x100) as u8);
    assert(dst@ =~= old(dst)@ + mac_text(m));
}

} // verus!
