//! Wake-on-LAN: reading a hardware address and framing the magic packet.

use vstd::prelude::*;
use vstd::string::*;
use crate::text::{
    char_hex_value, char_is_hex_digit, hex_digits, hex_value, is_mac, lemma_hex_digits_step,
    prefixed,
};

verus! {

/// UDP port that the magic packet is addressed to.
pub const WOL_PORT_SUFFIX: &'static str = ":9";

/// Local address that the magic packet is sent from: any interface, any port.
pub const WOL_BIND_ADDR: &'static str = "0.0.0.0:0";

/// Why no magic packet went out.
#[derive(Debug)]
pub enum WolError {
    /// The text does not hold a hardware address; the text is given.
    InvalidMac(String),
    /// The packet could not be sent; the text says why.
    SendFailed(String),
}

/// Mathematical value of a [`WolError`].
pub ghost enum WolErrorView {
    InvalidMac(Seq<char>),
    SendFailed(Seq<char>),
}

impl View for WolError {
    type V = WolErrorView;

    open spec fn view(&self) -> WolErrorView {
        match self {
            WolError::InvalidMac(m) => WolErrorView::InvalidMac(m@),
            WolError::SendFailed(m) => WolErrorView::SendFailed(m@),
        }
    }
}

/// Text shown for an error.
pub open spec fn wol_error_text(e: WolErrorView) -> Seq<char> {
    match e {
        WolErrorView::InvalidMac(m) => "Invalid MAC address: "@ + m,
        WolErrorView::SendFailed(m) => "Failed to send magic packet: "@ + m,
    }
}

impl WolError {
    /// Human-readable description of the error.
    pub fn message(&self) -> (text: String)
        ensures
            text@ == wol_error_text(self@),
    {
        match self {
            WolError::InvalidMac(m) => prefixed("Invalid MAC address: ", m.as_str()),
            WolError::SendFailed(m) => prefixed("Failed to send magic packet: ", m.as_str()),
        }
    }
}

/// The octet that the digits at `2 * i` and `2 * i + 1` spell.
pub open spec fn octet_at(digits: Seq<char>, i: int) -> u8 {
    (16 * hex_value(digits[2 * i]) + hex_value(digits[2 * i + 1])) as u8
}

/// The six octets of the hardware address that `s` names.
pub open spec fn mac_octets(s: Seq<char>) -> Seq<u8> {
    Seq::new(6, |i: int| octet_at(hex_digits(s), i))
}

/// What [`parse_mac`] returns for `s`.
pub open spec fn parse_mac_spec(s: Seq<char>) -> Result<Seq<u8>, WolErrorView> {
    if is_mac(s) {
        Ok(mac_octets(s))
    } else {
        Err(WolErrorView::InvalidMac(s))
    }
}

/// Mathematical value of what [`parse_mac`] returns.
pub open spec fn parsed_mac_view(r: Result<[u8; 6], WolError>) -> Result<Seq<u8>, WolErrorView> {
    match r {
        Ok(mac) => Ok(mac@),
        Err(e) => Err(e@),
    }
}

/// Reads a hardware address, with or without separators, in either case.
pub fn parse_mac(mac_str: &str) -> (r: Result<[u8; 6], WolError>)
    ensures
        parsed_mac_view(r) == parse_mac_spec(mac_str@),
{
    let mut mac: [u8; 6] = [0u8; 6];
    let mut count: usize = 0;
    let mut high: u8 = 0;
    for c in it: mac_str.chars()
        invariant
            it.seq() == mac_str@,
            count <= 13,
            count == if hex_digits(mac_str@.take(it.index())).len() <= 13 {
                hex_digits(mac_str@.take(it.index())).len()
            } else {
                13
            },
            high < 16,
            count < 12 && count % 2 == 1 ==> high == hex_value(
                hex_digits(mac_str@.take(it.index()))[count - 1],
            ),
            forall|j: int|
                0 <= j < 6 && 2 * j + 1 < count ==> mac@[j] == octet_at(
                    hex_digits(mac_str@.take(it.index())),
                    j,
                ),
    {
        proof {
            lemma_hex_digits_step(mac_str@, it.index());
        }
        if char_is_hex_digit(c) {
            if count < 12 {
                let v = char_hex_value(c);
                if count % 2 == 0 {
                    high = v;
                } else {
                    mac[count / 2] = high * 16 + v;
                }
            }
            if count < 13 {
                count = count + 1;
            }
        }
    }
    proof {
        assert(mac_str@.take(mac_str@.len() as int) =~= mac_str@);
    }
    if count == 12 {
        assert(mac@ =~= mac_octets(mac_str@));
        Ok(mac)
    } else {
        Err(WolError::InvalidMac(mac_str.to_owned()))
    }
}

/// The payload of the magic packet for `mac`: six bytes `0xFF`, then the
/// six octets of the address sixteen times over.
pub open spec fn magic_bytes(mac: Seq<u8>) -> Seq<u8> {
    Seq::new(
        102,
        |i: int|
            if i < 6 {
                0xffu8
            } else {
                mac[(i - 6) % 6]
            },
    )
}

/// Frames the magic packet for `mac` with `wake_on_lan::MagicPacket::new`
/// and copies out what `MagicPacket::magic_bytes` hands back.
///
/// Taken on trust: the packet holds six bytes `0xFF` followed by sixteen
/// copies of the address, 102 bytes in all, as the crate documents.
#[verifier::external_body]
fn magic_packet(mac: &[u8; 6]) -> (bytes: Vec<u8>)
    ensures
        bytes@ == magic_bytes(mac@),
{
    wake_on_lan::MagicPacket::new(mac).magic_bytes().to_vec()
}

/// One UDP datagram, ready to be sent as a broadcast.
#[derive(Debug)]
pub struct WolDatagram {
    /// The bytes to send.
    pub payload: Vec<u8>,
    /// Where to send them: the broadcast address and the port.
    pub destination: String,
    /// The local address to send them from.
    pub source: String,
}

/// Mathematical value of a [`WolDatagram`].
pub ghost struct WolDatagramView {
    pub payload: Seq<u8>,
    pub destination: Seq<char>,
    pub source: Seq<char>,
}

impl View for WolDatagram {
    type V = WolDatagramView;

    open spec fn view(&self) -> WolDatagramView {
        WolDatagramView {
            payload: self.payload@,
            destination: self.destination@,
            source: self.source@,
        }
    }
}

/// The datagram that wakes the host named by `mac_str` when it is sent to
/// the broadcast address `broadcast`, or the reason why there is none.
pub open spec fn send_magic_packet_spec(mac_str: Seq<char>, broadcast: Seq<char>) -> Result<
    WolDatagramView,
    WolErrorView,
> {
    match parse_mac_spec(mac_str) {
        Ok(mac) => Ok(
            WolDatagramView {
                payload: magic_bytes(mac),
                destination: broadcast + WOL_PORT_SUFFIX@,
                source: WOL_BIND_ADDR@,
            },
        ),
        Err(e) => Err(e),
    }
}

/// Mathematical value of what [`send_magic_packet`] returns.
pub open spec fn datagram_result_view(r: Result<WolDatagram, WolError>) -> Result<
    WolDatagramView,
    WolErrorView,
> {
    match r {
        Ok(d) => Ok(d@),
        Err(e) => Err(e@),
    }
}

/// Prepares the magic packet for the host whose hardware address
/// `mac_str` names, addressed to port 9 at `broadcast`. The caller puts it
/// on the wire, from a socket that allows broadcasts.
pub fn send_magic_packet(mac_str: &str, broadcast: &str) -> (r: Result<WolDatagram, WolError>)
    ensures
        datagram_result_view(r) == send_magic_packet_spec(mac_str@, broadcast@),
{
    match parse_mac(mac_str) {
        Ok(mac) => Ok(
            WolDatagram {
                payload: magic_packet(&mac),
                destination: prefixed(broadcast, WOL_PORT_SUFFIX),
                source: WOL_BIND_ADDR.to_owned(),
            },
        ),
        Err(e) => Err(e),
    }
}

} // verus!
