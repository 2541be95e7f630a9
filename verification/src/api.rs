//! Framing of the TCP traffic: every message travels as a LEB128 length
//! followed by that many bytes of body.

use crate::response::Response;
use crate::varint::{
    lemma_encoding_len, lemma_len_bound, lemma_varint_round_trip, read_varint, varint_decode,
    varint_encoding, varint_len, write_varint, ReadVarintError, VarintReader, VarintStep,
};
use crate::wifi_config::{MAX_PASS_LEN, MAX_SSID_LEN};
use vstd::prelude::*;

verus! {

/// Largest body of an SSID: its bytes behind a length of one byte.
pub const SSID_MAX_SIZE: usize = MAX_SSID_LEN + 1;

/// Largest body of a password: its bytes behind a length of one byte.
pub const PASSWORD_MAX_SIZE: usize = MAX_PASS_LEN + 1;

/// Largest body of a position: four scalars of four bytes.
pub const POSITION_MAX_SIZE: usize = 16;

/// Largest body of a station configuration: SSID, optional address of six
/// bytes, authentication, password, optional channel and protocols.
pub const CLIENT_CONFIG_MAX_SIZE: usize = SSID_MAX_SIZE + 7 + 1 + PASSWORD_MAX_SIZE + 2 + 1;

/// Largest body of an access point configuration: SSID, hidden flag,
/// channel, protocols, authentication and password.
pub const ACCESS_POINT_CONFIG_MAX_SIZE: usize = SSID_MAX_SIZE + 1 + 1 + 1 + 1 + PASSWORD_MAX_SIZE;

/// Largest body of a Wi-Fi configuration: both parts, each behind the byte
/// that says whether it is there.
pub const WIFI_CONFIG_MAX_SIZE: usize = 1 + CLIENT_CONFIG_MAX_SIZE + 1
    + ACCESS_POINT_CONFIG_MAX_SIZE;

/// Largest body of a command: the Wi-Fi configuration behind the byte that
/// names the command.
pub const COMMAND_MAX_SIZE: usize = 1 + WIFI_CONFIG_MAX_SIZE;

/// Largest body of a request: the command behind the byte that names the
/// kind of request.
pub const REQUEST_MAX_SIZE: usize = 1 + COMMAND_MAX_SIZE;

/// Largest body of a response: the byte that names it.
pub const RESPONSE_MAX_SIZE: usize = 1;

/// Largest packet that is read: the largest request behind its header.
pub const MAX_READ_PACKET_SIZE: usize = 2 + REQUEST_MAX_SIZE;

/// Largest packet that is written: the largest response behind its header.
pub const MAX_WRITE_PACKET_SIZE: usize = 1 + RESPONSE_MAX_SIZE;

/// The packet sizes are the largest bodies behind headers of their size.
pub proof fn lemma_packet_sizes()
    ensures
        REQUEST_MAX_SIZE == 215,
        MAX_READ_PACKET_SIZE == varint_len(REQUEST_MAX_SIZE as nat) + REQUEST_MAX_SIZE == 217,
        MAX_WRITE_PACKET_SIZE == varint_len(RESPONSE_MAX_SIZE as nat) + RESPONSE_MAX_SIZE == 2,
        SSID_MAX_SIZE == MAX_SSID_LEN + varint_len(MAX_SSID_LEN as nat),
        PASSWORD_MAX_SIZE == MAX_PASS_LEN + varint_len(MAX_PASS_LEN as nat),
{
    reveal_with_fuel(varint_len, 3);
}

/// A body behind the header that announces its length.
pub open spec fn packet(body: Seq<u8>) -> Seq<u8> {
    varint_encoding(body.len()) + body
}

/// Appends `data` as one packet to `out`.
pub fn write_packet(out: &mut Vec<u8>, data: &[u8])
    ensures
        final(out)@ == old(out)@ + packet(data@),
{
    write_varint(out, data.len());
    let ghost headed = out@;
    let mut i: usize = 0;
    while i < data.len()
        invariant
            i <= data.len(),
            out@ == headed + data@.take(i as int),
        decreases data.len() - i,
    {
        out.push(data[i]);
        proof {
            assert(out@ =~= headed + data@.take(i + 1));
        }
        i = i + 1;
    }
    proof {
        assert(data@.take(i as int) =~= data@);
        assert(out@ =~= old(out)@ + packet(data@));
    }
}

/// The source of an acknowledgement.
#[derive(Copy, Clone, Debug, PartialEq, Eq, Structural)]
pub enum AckSource {
    /// The configurator processed a command.
    Command,
    /// The motion core reached a target position.
    Position,
}

impl Response {
    /// The response that reports an acknowledgement from `source`.
    pub open spec fn of(source: AckSource) -> Response {
        match source {
            AckSource::Command => Response::CommandAck,
            AckSource::Position => Response::PositionAck,
        }
    }
}

/// What the send handler does with an acknowledgement.
#[derive(Debug, PartialEq, Eq)]
pub enum SendStep {
    /// Write these bytes, then flush.
    Write(Vec<u8>),
    /// The body is larger than a written packet may be: end the session.
    Stop,
}

/// The response that the send handler owes for an acknowledgement from
/// `source`.
pub fn response_for(source: AckSource) -> (response: Response)
    ensures
        response == Response::of(source),
{
    match source {
        AckSource::Command => Response::CommandAck,
        AckSource::Position => Response::PositionAck,
    }
}

/// One turn of the send handler, once the acknowledgement is serialised to
/// `body`: the packet to write, or the end of the session where the body is
/// too large.
pub fn send_handle(body: &[u8]) -> (step: SendStep)
    ensures
        match step {
            SendStep::Write(bytes) => body@.len() <= MAX_WRITE_PACKET_SIZE && bytes@ == packet(
                body@,
            ),
            SendStep::Stop => body@.len() > MAX_WRITE_PACKET_SIZE,
        },
{
    if body.len() > MAX_WRITE_PACKET_SIZE {
        return SendStep::Stop;
    }
    let mut bytes: Vec<u8> = Vec::new();
    write_packet(&mut bytes, body);
    proof {
        assert(bytes@ =~= packet(body@));
    }
    SendStep::Write(bytes)
}

/// Why the receive handler ends a session on a length prefix.
#[derive(Copy, Clone, Debug, PartialEq, Eq, Structural)]
pub enum PacketError {
    /// The length does not fit the platform word.
    LengthOverflow,
    /// The length is above what is accepted.
    TooLarge(usize),
}

/// What the receive handler does next.
#[derive(Copy, Clone, Debug, PartialEq, Eq, Structural)]
pub enum ReceiveStep {
    /// The length prefix goes on: read one more byte.
    ReadLength,
    /// The length is known: read a body of that many bytes.
    ReadBody(usize),
    /// End the session.
    Stop(PacketError),
}

impl ReceiveStep {
    /// The step that follows once the bytes of the length prefix taken so
    /// far decode to `decoded`.
    pub open spec fn of(decoded: Result<(usize, usize), ReadVarintError<crate::varint::EndOfInput>>) -> ReceiveStep {
        match decoded {
            Ok((len, _)) => if len > MAX_READ_PACKET_SIZE {
                ReceiveStep::Stop(PacketError::TooLarge(len))
            } else {
                ReceiveStep::ReadBody(len)
            },
            Err(ReadVarintError::Overflow) => ReceiveStep::Stop(PacketError::LengthOverflow),
            Err(ReadVarintError::Other(_)) => ReceiveStep::ReadLength,
        }
    }
}

/// One turn of the receive handler on the length prefix: takes the byte
/// that arrived and says what to read next. `reader` holds the bytes of the
/// prefix taken before; once the step is not `ReadLength` it stands at the
/// start of the next prefix.
pub fn receive_handle(reader: &mut VarintReader, byte: u8) -> (step: ReceiveStep)
    ensures
        step == ReceiveStep::of(varint_decode(old(reader).pending().push(byte))),
        final(reader).pending() == if step == ReceiveStep::ReadLength {
            old(reader).pending().push(byte)
        } else {
            Seq::<u8>::empty()
        },
{
    match reader.push(byte) {
        VarintStep::More => ReceiveStep::ReadLength,
        VarintStep::Done(len) => {
            if len > MAX_READ_PACKET_SIZE {
                ReceiveStep::Stop(PacketError::TooLarge(len))
            } else {
                ReceiveStep::ReadBody(len)
            }
        },
        VarintStep::Overflow => ReceiveStep::Stop(PacketError::LengthOverflow),
    }
}

/// Where the body of the packet at the front of `input` lies, bodies of up
/// to `limit` bytes being accepted: from the first index to the second,
/// which is left out. `None` where the packet is not whole yet.
pub open spec fn packet_decode(input: Seq<u8>, limit: usize) -> Result<
    Option<(usize, usize)>,
    PacketError,
> {
    match varint_decode(input) {
        Ok((len, used)) => if len > limit {
            Err(PacketError::TooLarge(len))
        } else if input.len() < used + len {
            Ok(None)
        } else {
            Ok(Some((used, (used + len) as usize)))
        },
        Err(ReadVarintError::Overflow) => Err(PacketError::LengthOverflow),
        Err(ReadVarintError::Other(_)) => Ok(None),
    }
}

/// Finds the body of the packet at the front of `input`, refusing a length
/// above `limit`.
pub fn read_packet(input: &[u8], limit: usize) -> (found: Result<Option<(usize, usize)>, PacketError>)
    ensures
        found == packet_decode(input@, limit),
        found matches Ok(Some((start, end))) ==> start <= end <= input@.len(),
{
    match read_varint(input) {
        Ok((len, used)) => {
            proof {
                lemma_len_bound(usize::MAX as nat);
                crate::varint::lemma_terminator(input@);
            }
            if len > limit {
                Err(PacketError::TooLarge(len))
            } else if input.len() - used < len {
                Ok(None)
            } else {
                Ok(Some((used, used + len)))
            }
        },
        Err(ReadVarintError::Overflow) => Err(PacketError::LengthOverflow),
        Err(ReadVarintError::Other(_)) => Ok(None),
    }
}

/// A body within the limit is found again behind its header, whatever
/// follows the packet, provided the packet fits the address space.
pub proof fn lemma_packet_round_trip(body: Seq<u8>, rest: Seq<u8>, limit: usize)
    requires
        body.len() <= limit,
        varint_len(body.len()) + body.len() <= usize::MAX,
    ensures
        packet_decode(packet(body) + rest, limit) matches Ok(Some((start, end))) && start
            == varint_len(body.len()) && end == start + body.len() && (packet(body) + rest).subrange(
            start as int,
            end as int,
        ) == body,
{
    let header = varint_encoding(body.len());
    let input = packet(body) + rest;
    lemma_encoding_len(body.len());
    lemma_varint_round_trip(body.len() as usize, body + rest);
    assert(input =~= header + (body + rest));
    assert(input.subrange(header.len() as int, (header.len() + body.len()) as int) =~= body);
}

} // verus!
