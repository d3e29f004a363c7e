//! Flows as lines of keys and values, for the debug output.
//!
//! Some values of a flow have a text form that is not the library's to give:
//! the capture type, the capture port, the protocol, the Ethernet type, the
//! tunnel type, the TCP flags and the observation point. Whoever asks for a
//! line hands these texts in.

use vstd::prelude::*;
use vstd::string::StringExecFns;
use crate::enums::TunnelType;
use crate::flow::{
    append_key_string, append_keys, bool_text, key_text, number_entry, string_entry,
    append_key_number, append_key, CloseType, Flow, FlowKey, FlowMetricsPeer, FlowSource,
    TunnelField,
};
use crate::consts::NANOS_PER_MICRO;
use crate::net::{IpAddr, MacAddr};
use crate::text::{
    append_decimal, append_ip, append_ipv4, append_mac, append_octet_hex,
    append_signed_decimal, ip_text, ipv4_text, mac_text, octet_hex, signed_decimal,
};

verus! {

/// A key with a truth value as its value.
pub open spec fn bool_entry(key: Seq<char>, value: bool) -> Seq<char> {
    key_text(key) + bool_text(value)
}

/// A key with a number with its sign as its value.
pub open spec fn signed_entry(key: Seq<char>, value: int) -> Seq<char> {
    key_text(key) + signed_decimal(value)
}

/// A 32-bit number as eight hexadecimal digits.
pub open spec fn hex8(v: u32) -> Seq<char> {
    octet_hex(v as int / 0x100_0000) + octet_hex(v as int / 0x1_0000 % 0x100) + octet_hex(
        v as int / 0x100 % 0x100,
    ) + octet_hex(v as int % 0x100)
}

fn put_string(dst: &mut String, key: &str, value: &str)
    ensures
        final(dst)@ == old(dst)@ + string_entry(key@, value@),
{
    append_key_string(dst, key, value);
    assert(dst@ =~= old(dst)@ + string_entry(key@, value@));
}

fn put_keys_number(dst: &mut String, key1: &str, key2: &str, value: u64)
    ensures
        final(dst)@ == old(dst)@ + number_entry(key1@ + key2@, value as int),
{
    append_keys(dst, key1, key2);
    append_decimal(dst, value);
    assert(dst@ =~= old(dst)@ + number_entry(key1@ + key2@, value as int));
}

fn put_keys_signed(dst: &mut String, key1: &str, key2: &str, value: i64)
    ensures
        final(dst)@ == old(dst)@ + signed_entry(key1@ + key2@, value as int),
{
    append_keys(dst, key1, key2);
    append_signed_decimal(dst, value);
    assert(dst@ =~= old(dst)@ + signed_entry(key1@ + key2@, value as int));
}

fn put_keys_bool(dst: &mut String, key1: &str, key2: &str, value: bool)
    ensures
        final(dst)@ == old(dst)@ + bool_entry(key1@ + key2@, value),
{
    append_keys(dst, key1, key2);
    if value {
        dst.append("true");
    } else {
        dst.append("false");
    }
    assert(dst@ =~= old(dst)@ + bool_entry(key1@ + key2@, value));
}

fn put_bool(dst: &mut String, key: &str, value: bool)
    ensures
        final(dst)@ == old(dst)@ + bool_entry(key@, value),
{
    append_key(dst, key);
    if value {
        dst.append("true");
    } else {
        dst.append("false");
    }
    assert(dst@ =~= old(dst)@ + bool_entry(key@, value));
}

fn put_mac(dst: &mut String, key: &str, m: MacAddr)
    ensures
        final(dst)@ == old(dst)@ + string_entry(key@, mac_text(m)),
{
    let mut text = String::new();
    append_mac(&mut text, m);
    assert(text@ =~= mac_text(m));
    put_string(dst, key, text.as_str());
}

fn put_ip(dst: &mut String, key: &str, ip: IpAddr)
    ensures
        final(dst)@ == old(dst)@ + string_entry(key@, ip_text(ip)),
{
    let mut text = String::new();
    append_ip(&mut text, ip);
    assert(text@ =~= ip_text(ip));
    put_string(dst, key, text.as_str());
}

fn put_ipv4(dst: &mut String, key: &str, v: u32)
    ensures
        final(dst)@ == old(dst)@ + string_entry(key@, ipv4_text(v)),
{
    let mut text = String::new();
    append_ipv4(&mut text, v);
    assert(text@ =~= ipv4_text(v));
    put_string(dst, key, text.as_str());
}

fn put_hex8(dst: &mut String, key: &str, v: u32)
    ensures
        final(dst)@ == old(dst)@ + string_entry(key@, hex8(v)),
{
    let mut text = String::new();
    append_octet_hex(&mut text, (v / 0x100_0000) as u8);
    append_octet_hex(&mut text, (v / 0x1_0000 % 0x100) as u8);
    append_octet_hex(&mut text, (v / 0x100 % 0x100) as u8);
    append_octet_hex(&mut text, (v % 0x100) as u8);
    assert(text@ =~= hex8(v));
    put_string(dst, key, text.as_str());
}

impl CloseType {
    pub open spec fn name_text(self) -> Seq<char> {
        match self {
            CloseType::Unknown => "Unknown"@,
            CloseType::TcpFin => "TcpFin"@,
            CloseType::TcpServerRst => "TcpServerRst"@,
            CloseType::Timeout => "Timeout"@,
            CloseType::ForcedReport => "ForcedReport"@,
            CloseType::ClientSynRepeat => "ClientSynRepeat"@,
            CloseType::ServerHalfClose => "ServerHalfClose"@,
            CloseType::TcpClientRst => "TcpClientRst"@,
            CloseType::ServerSynAckRepeat => "ServerSynAckRepeat"@,
            CloseType::ClientHalfClose => "ClientHalfClose"@,
            CloseType::ClientSourcePortReuse => "ClientSourcePortReuse"@,
            CloseType::ServerReset => "ServerReset"@,
            CloseType::ServerQueueLack => "ServerQueueLack"@,
            CloseType::ClientEstablishReset => "ClientEstablishReset"@,
            CloseType::ServerEstablishReset => "ServerEstablishReset"@,
            CloseType::Max => "Max"@,
        }
    }

    /// The name of the close type.
    pub fn name(self) -> (r: &'static str)
        ensures
            r@ == self.name_text(),
    {
        match self {
            CloseType::Unknown => "Unknown",
            CloseType::TcpFin => "TcpFin",
            CloseType::TcpServerRst => "TcpServerRst",
            CloseType::Timeout => "Timeout",
            CloseType::ForcedReport => "ForcedReport",
            CloseType::ClientSynRepeat => "ClientSynRepeat",
            CloseType::ServerHalfClose => "ServerHalfClose",
            CloseType::TcpClientRst => "TcpClientRst",
            CloseType::ServerSynAckRepeat => "ServerSynAckRepeat",
            CloseType::ClientHalfClose => "ClientHalfClose",
            CloseType::ClientSourcePortReuse => "ClientSourcePortReuse",
            CloseType::ServerReset => "ServerReset",
            CloseType::ServerQueueLack => "ServerQueueLack",
            CloseType::ClientEstablishReset => "ClientEstablishReset",
            CloseType::ServerEstablishReset => "ServerEstablishReset",
            CloseType::Max => "Max",
        }
    }
}

impl FlowSource {
    pub open spec fn name_text(self) -> Seq<char> {
        match self {
            FlowSource::Normal => "Normal"@,
            FlowSource::Sflow => "Sflow"@,
            FlowSource::NetFlow => "NetFlow"@,
        }
    }

    /// The name of the source.
    pub fn name(self) -> (r: &'static str)
        ensures
            r@ == self.name_text(),
    {
        match self {
            FlowSource::Normal => "Normal",
            FlowSource::Sflow => "Sflow",
            FlowSource::NetFlow => "NetFlow",
        }
    }
}

impl FlowKey {
    /// The text `d` with the key behind it, as keys and values. `tap_type`,
    /// `tap_port` and `protocol` are the texts of the capture type, of the
    /// capture port and of the protocol.
    #[verifier::opaque]
    pub open spec fn kv_appended(
        self,
        d: Seq<char>,
        tap_type: Seq<char>,
        tap_port: Seq<char>,
        protocol: Seq<char>,
    ) -> Seq<char> {
        let d = d + number_entry("vtap_id"@, self.vtap_id as int);
        let d = d + string_entry("tap_type"@, tap_type);
        let d = d + string_entry("tap_port"@, tap_port);
        let d = d + string_entry("mac_src"@, mac_text(self.mac_src));
        let d = d + string_entry("mac_dst"@, mac_text(self.mac_dst));
        let d = d + string_entry("ip_src"@, ip_text(self.ip_src));
        let d = d + string_entry("ip_dst"@, ip_text(self.ip_dst));
        let d = d + number_entry("port_src"@, self.port_src as int);
        let d = d + number_entry("port_dst"@, self.port_dst as int);
        let d = d + string_entry("protocol"@, protocol);
        d
    }

    /// Appends the key as keys and values.
    pub fn to_kv_string(&self, dst: &mut String, tap_type: &str, tap_port: &str, protocol: &str)
        ensures
            final(dst)@ == self.kv_appended(old(dst)@, tap_type@, tap_port@, protocol@),
    {
        reveal(FlowKey::kv_appended);
        append_key_number(dst, "vtap_id", self.vtap_id as u64);
        put_string(dst, "tap_type", tap_type);
        put_string(dst, "tap_port", tap_port);
        put_mac(dst, "mac_src", self.mac_src);
        put_mac(dst, "mac_dst", self.mac_dst);
        put_ip(dst, "ip_src", self.ip_src);
        put_ip(dst, "ip_dst", self.ip_dst);
        append_key_number(dst, "port_src", self.port_src as u64);
        append_key_number(dst, "port_dst", self.port_dst as u64);
        put_string(dst, "protocol", protocol);
    }
}

impl TunnelField {
    /// The text `d` with the tunnel behind it, as keys and values.
    /// `tunnel_type` is the text of the tunnel type. The link addresses of the
    /// transmit direction stand under the keys of the receive direction too.
    #[verifier::opaque]
    pub open spec fn kv_appended(self, d: Seq<char>, tunnel_type: Seq<char>) -> Seq<char> {
        let d = d + string_entry("tunnel_type"@, tunnel_type);
        let d = d + string_entry("tunnel_tx_ip_0"@, ipv4_text(self.tx_ip0));
        let d = d + string_entry("tunnel_tx_ip_1"@, ipv4_text(self.tx_ip1));
        let d = d + string_entry("tunnel_rx_ip_0"@, ipv4_text(self.rx_ip0));
        let d = d + string_entry("tunnel_rx_ip_1"@, ipv4_text(self.rx_ip1));
        let d = d + string_entry("tunnel_tx_mac_0"@, hex8(self.tx_mac0));
        let d = d + string_entry("tunnel_tx_mac_1"@, hex8(self.tx_mac1));
        let d = d + string_entry("tunnel_rx_mac_0"@, hex8(self.tx_mac0));
        let d = d + string_entry("tunnel_rx_mac_1"@, hex8(self.tx_mac1));
        let d = d + number_entry("tunnel_tx_id"@, self.tx_id as int);
        let d = d + number_entry("tunnel_rx_id"@, self.rx_id as int);
        let d = d + number_entry("tunnel_tier"@, self.tier as int);
        d
    }

    /// Appends the tunnel as keys and values.
    pub fn to_kv_string(&self, dst: &mut String, tunnel_type: &str)
        ensures
            final(dst)@ == self.kv_appended(old(dst)@, tunnel_type@),
    {
        reveal(TunnelField::kv_appended);
        put_string(dst, "tunnel_type", tunnel_type);
        put_ipv4(dst, "tunnel_tx_ip_0", self.tx_ip0);
        put_ipv4(dst, "tunnel_tx_ip_1", self.tx_ip1);
        put_ipv4(dst, "tunnel_rx_ip_0", self.rx_ip0);
        put_ipv4(dst, "tunnel_rx_ip_1", self.rx_ip1);
        put_hex8(dst, "tunnel_tx_mac_0", self.tx_mac0);
        put_hex8(dst, "tunnel_tx_mac_1", self.tx_mac1);
        put_hex8(dst, "tunnel_rx_mac_0", self.tx_mac0);
        put_hex8(dst, "tunnel_rx_mac_1", self.tx_mac1);
        append_key_number(dst, "tunnel_tx_id", self.tx_id as u64);
        append_key_number(dst, "tunnel_rx_id", self.rx_id as u64);
        append_key_number(dst, "tunnel_tier", self.tier as u64);
    }
}

/// The side that sends.
pub const SRC: u8 = 0;

/// The side that receives.
pub const DST: u8 = 1;

impl FlowMetricsPeer {
    /// The text `d` with one side of a flow behind it, as keys and values.
    /// The keys of the counters of a period end in `_tx` for the source side
    /// and in `_rx` for the destination side, the other keys in `_0` and in
    /// `_1`. `tcp_flags` is the text of the TCP flags.
    #[verifier::opaque]
    pub open spec fn kv_appended(self, d: Seq<char>, direction: u8, tcp_flags: Seq<char>) -> Seq<
        char,
    > {
        let period = if direction == DST {
            "_rx"@
        } else {
            "_tx"@
        };
        let whole = if direction == DST {
            "_1"@
        } else {
            "_0"@
        };
        let d = d + number_entry("byte"@ + period, self.byte_count as int);
        let d = d + number_entry("l3_byte"@ + period, self.l3_byte_count as int);
        let d = d + number_entry("l4_byte"@ + period, self.l4_byte_count as int);
        let d = d + number_entry("packet"@ + period, self.packet_count as int);
        let d = d + number_entry("total_byte"@ + period, self.total_byte_count as int);
        let d = d + number_entry("total_packet"@ + whole, self.total_packet_count as int);
        let d = d + signed_entry("l3_epc_id"@ + whole, self.l3_epc_id as int);
        let d = d + bool_entry("l2_end"@ + whole, self.is_l2_end);
        let d = d + bool_entry("l3_end"@ + whole, self.is_l3_end);
        let d = d + string_entry("tcp_flags"@, tcp_flags);
        d
    }

    /// Appends one side of a flow as keys and values.
    pub fn to_kv_string(&self, dst: &mut String, direction: u8, tcp_flags: &str)
        ensures
            final(dst)@ == self.kv_appended(old(dst)@, direction, tcp_flags@),
    {
        reveal(FlowMetricsPeer::kv_appended);
        let period = if direction == DST {
            "_rx"
        } else {
            "_tx"
        };
        let whole = if direction == DST {
            "_1"
        } else {
            "_0"
        };
        put_keys_number(dst, "byte", period, self.byte_count);
        put_keys_number(dst, "l3_byte", period, self.l3_byte_count);
        put_keys_number(dst, "l4_byte", period, self.l4_byte_count);
        put_keys_number(dst, "packet", period, self.packet_count);
        put_keys_number(dst, "total_byte", period, self.total_byte_count);
        put_keys_number(dst, "total_packet", whole, self.total_packet_count);
        put_keys_signed(dst, "l3_epc_id", whole, self.l3_epc_id as i64);
        put_keys_bool(dst, "l2_end", whole, self.is_l2_end);
        put_keys_bool(dst, "l3_end", whole, self.is_l3_end);
        put_string(dst, "tcp_flags", tcp_flags);
    }
}

/// The texts of the values of a flow that the library has no text for.
#[derive(Clone, Debug)]
pub struct FlowTexts {
    pub tap_type: String,
    pub tap_port: String,
    pub protocol: String,
    pub tunnel_type: String,
    /// The TCP flags of the source side.
    pub tcp_flags_src: String,
    /// The TCP flags of the destination side.
    pub tcp_flags_dst: String,
    pub eth_type: String,
    pub tap_side: String,
}

impl Flow {
    /// The text `d` with what stands before the performance data of the
    /// flow behind it: the key, the two sides, the tunnel if there is one,
    /// and the numbers and times of the flow, the times in microseconds.
    #[verifier::opaque]
    pub open spec fn kv_head_appended(self, d: Seq<char>, texts: FlowTexts) -> Seq<char> {
        let d = self.flow_key.kv_appended(d, texts.tap_type@, texts.tap_port@, texts.protocol@);
        let d = self.flow_metrics_peers[0].kv_appended(d, SRC, texts.tcp_flags_src@);
        let d = self.flow_metrics_peers[1].kv_appended(d, DST, texts.tcp_flags_dst@);
        let d = if self.tunnel.tunnel_type != TunnelType::NoTunnel {
            self.tunnel.kv_appended(d, texts.tunnel_type@)
        } else {
            d
        };
        let d = d + number_entry("flow_id"@, self.flow_id as int);
        let d = d + number_entry("syn_seq"@, self.syn_seq as int);
        let d = d + number_entry("syn_ack_seq"@, self.synack_seq as int);
        let d = d + number_entry("last_keepalive_seq"@, self.last_keepalive_seq as int);
        let d = d + number_entry("last_keepalive_ack"@, self.last_keepalive_ack as int);
        let d = d + number_entry("start_time"@, self.start_time as int / NANOS_PER_MICRO as int);
        let d = d + number_entry("end_time"@, self.end_time as int / NANOS_PER_MICRO as int);
        let d = d + number_entry("duration"@, self.duration as int / NANOS_PER_MICRO as int);
        let d = d + number_entry("vlan"@, self.vlan as int);
        let d = d + string_entry("eth_type"@, texts.eth_type@);
        d
    }

    /// The text `d` with the flow behind it, as keys and values.
    pub open spec fn kv_appended(self, d: Seq<char>, texts: FlowTexts) -> Seq<char> {
        let d = self.kv_head_appended(d, texts);
        let d = match self.flow_perf_stats {
            Some(stats) => stats.kv_appended(d),
            None => d,
        };
        let d = d + string_entry("close_type"@, self.close_type.name_text());
        let d = d + string_entry("flow_source"@, self.flow_source.name_text());
        let d = d + bool_entry("is_new_flow"@, self.is_new_flow);
        let d = d + string_entry("tap_side"@, texts.tap_side@);
        d
    }

    /// Appends the flow as keys and values.
    pub fn to_kv_string(&self, dst: &mut String, texts: &FlowTexts)
        ensures
            final(dst)@ == self.kv_appended(old(dst)@, *texts),
    {
        reveal(Flow::kv_head_appended);
        self.flow_key.to_kv_string(
            dst,
            texts.tap_type.as_str(),
            texts.tap_port.as_str(),
            texts.protocol.as_str(),
        );
        self.flow_metrics_peers[0].to_kv_string(dst, SRC, texts.tcp_flags_src.as_str());
        self.flow_metrics_peers[1].to_kv_string(dst, DST, texts.tcp_flags_dst.as_str());
        match self.tunnel.tunnel_type {
            TunnelType::NoTunnel => {},
            _ => {
                self.tunnel.to_kv_string(dst, texts.tunnel_type.as_str());
            },
        }
        append_key_number(dst, "flow_id", self.flow_id);
        append_key_number(dst, "syn_seq", self.syn_seq as u64);
        append_key_number(dst, "syn_ack_seq", self.synack_seq as u64);
        append_key_number(dst, "last_keepalive_seq", self.last_keepalive_seq as u64);
        append_key_number(dst, "last_keepalive_ack", self.last_keepalive_ack as u64);
        append_key_number(dst, "start_time", self.start_time / NANOS_PER_MICRO);
        append_key_number(dst, "end_time", self.end_time / NANOS_PER_MICRO);
        append_key_number(dst, "duration", self.duration / NANOS_PER_MICRO);
        append_key_number(dst, "vlan", self.vlan as u64);
        put_string(dst, "eth_type", texts.eth_type.as_str());
        assert(dst@ == self.kv_head_appended(old(dst)@, *texts));
        match &self.flow_perf_stats {
            Some(stats) => {
                stats.to_kv_string(dst);
            },
            None => {},
        }
        put_string(dst, "close_type", self.close_type.name());
        put_string(dst, "flow_source", self.flow_source.name());
        put_bool(dst, "is_new_flow", self.is_new_flow);
        put_string(dst, "tap_side", texts.tap_side.as_str());
    }
}

} // verus!
