//! Decoding and re-encoding of OSC datagrams through `rosc`.

use vstd::prelude::*;

verus! {

#[verifier::external_type_specification]
#[verifier::external_body]
pub struct ExOscPacket(rosc::OscPacket);

#[verifier::external_type_specification]
#[verifier::external_body]
pub struct ExOscError(rosc::OscError);

/// What `rosc::decoder::decode_udp` makes of a byte buffer, in the two
/// respects this library reads: `None` when the buffer does not decode,
/// `Some(Some(a))` when it decodes to a message with address `a`, and
/// `Some(None)` when it decodes to a bundle.
pub uninterp spec fn osc_decode(bytes: Seq<u8>) -> Option<Option<Seq<char>>>;

/// The bytes that `rosc::encoder::encode` writes for the packet that
/// `rosc::decoder::decode_udp` decodes from `bytes`.
pub uninterp spec fn osc_encode(bytes: Seq<u8>) -> Seq<u8>;

/// The longest buffer this library decodes: the receive buffer of the
/// router, one Ethernet MTU. Decoding nests once per nested bundle, so the
/// bound also bounds the decoder's depth.
pub const MAX_DATAGRAM_LEN: usize = 1536;

/// The characters of an optional string.
pub open spec fn opt_chars(s: Option<String>) -> Option<Seq<char>> {
    match s {
        Some(s) => Some(s@),
        None => None,
    }
}

/// The shape that a decoded packet and its message address have.
pub open spec fn decoded_shape(
    r: Option<(rosc::OscPacket, Option<String>, Result<Vec<u8>, rosc::OscError>)>,
) -> Option<Option<Seq<char>>> {
    match r {
        Some((_, address, _)) => Some(opt_chars(address)),
        None => None,
    }
}

/// Calls `rosc::decoder::decode_udp` on `buf` and, when it succeeds,
/// `rosc::encoder::encode` on the packet it decoded. The contract claims
/// that both are functions of the bytes alone: decoding succeeds exactly
/// when `osc_decode(buf@)` is `Some`, the address reported is the one of
/// the decoded message (`None` for a bundle), and the encoding is
/// `osc_encode(buf@)`. The source of `encode` writes into a `Vec`, which
/// cannot fail, and always returns `Ok`; the contract claims that too. The
/// remainder slice that decoding also returns is dropped; nothing is
/// claimed of the packet's arguments or of the contents of a bundle, and
/// the packet handed back is not tied to `buf` by any clause. The decoder
/// calls itself once per nested bundle without a depth limit, so the buffer
/// is held to `MAX_DATAGRAM_LEN` bytes, which keeps that depth small.
#[verifier::external_body]
fn decode_udp(buf: &[u8]) -> (res: Option<(rosc::OscPacket, Option<String>, Result<Vec<u8>, rosc::OscError>)>)
    requires
        buf@.len() <= MAX_DATAGRAM_LEN,
    ensures
        decoded_shape(res) == osc_decode(buf@),
        res matches Some((_, _, encoded)) ==> encoded is Ok,
        res matches Some((_, _, Ok(bytes))) ==> bytes@ == osc_encode(buf@),
{
    match rosc::decoder::decode_udp(buf) {
        Ok((_, packet)) => {
            let address = match &packet {
                rosc::OscPacket::Message(message) => Some(message.addr.clone()),
                rosc::OscPacket::Bundle(_) => None,
            };
            let encoded = rosc::encoder::encode(&packet);
            Some((packet, address, encoded))
        },
        Err(_) => None,
    }
}

/// A datagram that decoded to an OSC packet, with the address of the packet
/// when it is a message and the packet's encoding. Its view is the buffer
/// it was decoded from.
pub struct OscDatagram {
    packet: rosc::OscPacket,
    address: Option<String>,
    encoded: Vec<u8>,
    source: Ghost<Seq<u8>>,
}

impl View for OscDatagram {
    type V = Seq<u8>;

    closed spec fn view(&self) -> Seq<u8> {
        self.source@
    }
}

impl OscDatagram {
    #[verifier::type_invariant]
    closed spec fn decoded_from_source(self) -> bool {
        &&& osc_decode(self.source@) == Some(opt_chars(self.address))
        &&& self.encoded@ == osc_encode(self.source@)
    }

    /// The message address of the datagram, `None` for a bundle.
    pub closed spec fn spec_address(self) -> Option<Seq<char>> {
        opt_chars(self.address)
    }

    /// Decodes `buf`, of at most `MAX_DATAGRAM_LEN` bytes; `None` when it is
    /// no OSC packet.
    pub fn decode(buf: &[u8]) -> (res: Option<OscDatagram>)
        requires
            buf@.len() <= MAX_DATAGRAM_LEN,
        ensures
            res is Some <==> osc_decode(buf@) is Some,
            res matches Some(d) ==> d@ == buf@ && osc_decode(buf@) == Some(d.spec_address()),
    {
        match decode_udp(buf) {
            Some((packet, address, Ok(encoded))) => Some(OscDatagram { packet, address, encoded, source: Ghost(buf@) }),
            Some((_, _, Err(_))) => None,
            None => None,
        }
    }

    /// The address of the message, `None` when the packet is a bundle.
    pub fn address(&self) -> (res: Option<&String>)
        ensures
            match res {
                Some(a) => self.spec_address() == Some(a@),
                None => self.spec_address() is None,
            },
            osc_decode(self@) == Some(self.spec_address()),
    {
        proof {
            use_type_invariant(self);
        }
        match &self.address {
            Some(a) => Some(a),
            None => None,
        }
    }

    /// The encoding of the decoded packet, without the bytes that followed
    /// it in the buffer.
    pub fn reencode(&self) -> (res: Vec<u8>)
        ensures
            res@ == osc_encode(self@),
    {
        proof {
            use_type_invariant(self);
        }
        vstd::slice::slice_to_vec(self.encoded.as_slice())
    }

    /// The packet that decoding handed back, kept with the datagram.
    pub closed spec fn spec_packet(self) -> rosc::OscPacket {
        self.packet
    }

    /// The decoded packet.
    pub fn packet(&self) -> (res: &rosc::OscPacket)
        ensures
            *res == self.spec_packet(),
    {
        &self.packet
    }

    /// Gives up the datagram for its decoded packet.
    pub fn into_packet(self) -> (res: rosc::OscPacket)
        ensures
            res == self.spec_packet(),
    {
        self.packet
    }
}

} // verus!
