//! The errors of the decoder and of the protocol log parsers.

use vstd::prelude::*;

verus! {

/// Why a DNS message was rejected.
#[derive(Clone, Copy, Debug, PartialEq, Eq, Structural)]
pub enum DnsFault {
    /// The payload ends before the item that is read.
    PayloadTooShort,
    /// A label has one of the two reserved label types.
    LabelType,
    /// A compression pointer is cut off, or a label or a name runs past the
    /// payload or past the greatest length of a name.
    NameIndex,
    /// A compression pointer does not point backwards.
    CompressPointer,
    /// A label is not UTF-8.
    NameEncoding,
    /// The decoded name is longer than a name may be.
    NameLength,
    /// A question has no room for its type and class.
    QuestionLength,
    /// A resource record has no room for its fixed fields or its data.
    ResourceLength,
    /// The data of a resource record has a length that its type excludes, or
    /// the type is not one that the parser renders.
    DataLength,
    /// The length prefix of a message over TCP is less than what follows it, or
    /// the transport is neither UDP nor TCP.
    Framing,
}

/// An error of the library.
#[derive(Clone, Copy, Debug, PartialEq, Eq, Structural)]
pub enum Error {
    /// A frame has an EtherType that the decoder does not recognise.
    ParsePacketFailed,
    DnsLogParseFailed(DnsFault),
    MqttLogParseFailed,
    MysqlLogParseFailed,
    RedisLogParseFailed,
    /// A parser was handed a payload of a transport that its protocol never uses.
    InvalidIpProtocol,
}

} // verus!
