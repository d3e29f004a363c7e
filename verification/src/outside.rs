//! What the library takes from other crates and from parts of the standard
//! library that have no verified contract. Every contract in this file is
//! believed, not proved.

use vstd::prelude::*;
use vstd::utf8::{decode_utf8, valid_utf8};
use md5::{Digest, Md5};
use pnet::packet::icmp::{IcmpType, IcmpTypes};
use pnet::packet::icmpv6::{Icmpv6Type, Icmpv6Types};
use pnet::packet::tcp::{TcpOptionNumber, TcpOptionNumbers};
use rand::Rng;

verus! {

/// `pnet::packet::icmp::IcmpType::new`: the type of an ICMP message that has
/// `v` in its type byte. Claims that the type holds `v` itself.
#[verifier::external_body]
pub(crate) fn control_type(v: u8) -> (r: u8)
    ensures
        r == v,
{
    IcmpType::new(v).0
}

/// `pnet::packet::icmp::IcmpTypes::DestinationUnreachable`. Claims that it is type 3.
#[verifier::external_body]
pub(crate) fn control_type_destination_unreachable() -> (r: u8)
    ensures
        r == 3,
{
    IcmpTypes::DestinationUnreachable.0
}

/// `pnet::packet::icmp::IcmpTypes::SourceQuench`. Claims that it is type 4.
#[verifier::external_body]
pub(crate) fn control_type_source_quench() -> (r: u8)
    ensures
        r == 4,
{
    IcmpTypes::SourceQuench.0
}

/// `pnet::packet::icmp::IcmpTypes::RedirectMessage`. Claims that it is type 5.
#[verifier::external_body]
pub(crate) fn control_type_redirect() -> (r: u8)
    ensures
        r == 5,
{
    IcmpTypes::RedirectMessage.0
}

/// `pnet::packet::icmp::IcmpTypes::ParameterProblem`. Claims that it is type 12.
#[verifier::external_body]
pub(crate) fn control_type_parameter_problem() -> (r: u8)
    ensures
        r == 12,
{
    IcmpTypes::ParameterProblem.0
}

/// `pnet::packet::icmpv6::Icmpv6Type::new`: the type of an ICMPv6 message that
/// has `v` in its type byte. Claims that the type holds `v` itself.
#[verifier::external_body]
pub(crate) fn control_v6_type(v: u8) -> (r: u8)
    ensures
        r == v,
{
    Icmpv6Type::new(v).0
}

/// `pnet::packet::icmpv6::Icmpv6Types::NeighborAdvert`. Claims that it is type 136.
#[verifier::external_body]
pub(crate) fn control_v6_type_neighbor_advert() -> (r: u8)
    ensures
        r == 136,
{
    Icmpv6Types::NeighborAdvert.0
}

/// `pnet::packet::tcp::TcpOptionNumber::new`: the kind of a TCP option that has
/// `v` in its kind byte. Claims that the kind holds `v` itself.
#[verifier::external_body]
pub(crate) fn tcp_option_kind(v: u8) -> (r: u8)
    ensures
        r == v,
{
    TcpOptionNumber::new(v).0
}

/// `pnet::packet::tcp::TcpOptionNumbers::EOL`. Claims that its number is 0.
#[verifier::external_body]
pub(crate) fn tcp_option_eol() -> (r: u8)
    ensures
        r == 0,
{
    TcpOptionNumbers::EOL.0
}

/// `pnet::packet::tcp::TcpOptionNumbers::NOP`. Claims that its number is 1.
#[verifier::external_body]
pub(crate) fn tcp_option_nop() -> (r: u8)
    ensures
        r == 1,
{
    TcpOptionNumbers::NOP.0
}

/// `pnet::packet::tcp::TcpOptionNumbers::MSS`. Claims that its number is 2.
#[verifier::external_body]
pub(crate) fn tcp_option_mss() -> (r: u8)
    ensures
        r == 2,
{
    TcpOptionNumbers::MSS.0
}

/// `pnet::packet::tcp::TcpOptionNumbers::WSCALE`. Claims that its number is 3.
#[verifier::external_body]
pub(crate) fn tcp_option_wscale() -> (r: u8)
    ensures
        r == 3,
{
    TcpOptionNumbers::WSCALE.0
}

/// `pnet::packet::tcp::TcpOptionNumbers::SACK_PERMITTED`. Claims that its number is 4.
#[verifier::external_body]
pub(crate) fn tcp_option_sack_permitted() -> (r: u8)
    ensures
        r == 4,
{
    TcpOptionNumbers::SACK_PERMITTED.0
}

/// `pnet::packet::tcp::TcpOptionNumbers::SACK`. Claims that its number is 5.
#[verifier::external_body]
pub(crate) fn tcp_option_sack() -> (r: u8)
    ensures
        r == 5,
{
    TcpOptionNumbers::SACK.0
}


/// `String::push`: appends one character. Claims that the string afterwards is
/// the string before with `c` at its end.
#[verifier::external_body]
pub(crate) fn push_char(s: &mut String, c: char)
    ensures
        final(s)@ == old(s)@.push(c),
{
    s.push(c);
}

/// `std::str::from_utf8`, with the result copied into a `String`. Claims that
/// the result is there exactly where `bytes` is well-formed UTF-8, and that it
/// then holds the characters that `bytes` encodes.
#[verifier::external_body]
pub(crate) fn string_from_utf8(bytes: &[u8]) -> (r: Option<String>)
    ensures
        r is Some <==> valid_utf8(bytes@),
        r matches Some(s) ==> s@ == decode_utf8(bytes@),
{
    match std::str::from_utf8(bytes) {
        Ok(s) => Some(s.to_owned()),
        Err(_) => None,
    }
}

/// The characters that `String::from_utf8_lossy` gives for `bytes`: those that
/// `bytes` encodes, with U+FFFD in place of each ill-formed sequence.
pub uninterp spec fn utf8_lossy(bytes: Seq<u8>) -> Seq<char>;

/// `String::from_utf8_lossy`, with the result as an owned `String`. Claims that
/// the result is a function of the bytes, and that for well-formed UTF-8 it
/// holds the characters that the bytes encode.
#[verifier::external_body]
pub(crate) fn string_from_utf8_lossy(bytes: &[u8]) -> (r: String)
    ensures
        r@ == utf8_lossy(bytes@),
        valid_utf8(bytes@) ==> r@ == decode_utf8(bytes@),
{
    String::from_utf8_lossy(bytes).into_owned()
}


/// `rand::rngs::SmallRng`: a small, fast random number generator. Nothing is
/// known of what it holds.
#[verifier::external_type_specification]
#[verifier::external_body]
pub struct ExSmallRng(rand::rngs::SmallRng);

/// `rand::Rng::gen_range` on the range from zero up to `n`, which must not be
/// empty. Claims that the number is below `n`, and nothing else: it is drawn
/// at random.
#[verifier::external_body]
pub(crate) fn random_below(rng: &mut rand::rngs::SmallRng, n: usize) -> (r: usize)
    requires
        n > 0,
    ensures
        r < n,
{
    rng.gen_range(0..n)
}


/// The MD5 digest of a sequence of bytes, as RFC 1321 defines it.
pub uninterp spec fn md5_of(data: Seq<u8>) -> Seq<u8>;

/// `md5::Md5::digest`, with the result copied into a vector. Claims that the
/// result is a function of the bytes, and that it is 16 bytes long.
#[verifier::external_body]
pub(crate) fn md5_digest(data: &[u8]) -> (r: Vec<u8>)
    ensures
        r@ == md5_of(data@),
        r@.len() == 16,
{
    Md5::digest(data).to_vec()
}

/// The characters that `str::trim` leaves of a string: the string without
/// the white space, as Unicode defines it, at its two ends.
pub uninterp spec fn trimmed(s: Seq<char>) -> Seq<char>;

/// `str::trim`, with the result as an owned `String`. Claims that the result
/// is a function of the string.
#[verifier::external_body]
pub(crate) fn trim(s: &str) -> (r: String)
    ensures
        r@ == trimmed(s@),
{
    s.trim().to_owned()
}

/// The characters that `str::to_lowercase` gives for a string: each character
/// in lower case, as Unicode defines it.
pub uninterp spec fn lowercased(s: Seq<char>) -> Seq<char>;

/// `str::to_lowercase`. Claims that the result is a function of the string.
#[verifier::external_body]
pub(crate) fn to_lowercase(s: &str) -> (r: String)
    ensures
        r@ == lowercased(s@),
{
    s.to_lowercase()
}

} // verus!
