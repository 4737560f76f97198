//! Peer-to-peer requests and the packets, queue figures and settings the SDK hands back.
use vstd::prelude::*;
use vstd::string::*;

use crate::cstr::is_nul_error_of;
use crate::cstr::has_nul;
use crate::error::{result_with, result_with_spec, Error};
use crate::ids::ProductUserId;
use crate::kinds::{
    eos_bool, eos_bool_spec, nat_type_spec, packet_reliability_raw_spec, NatType, PacketReliability,
};
use crate::socket::{
    fits_socket_field, make_socket_id, socket_field, socket_name_from_raw, SocketId, SOCKET_ID_API_LATEST,
    SOCKET_NAME_SIZE,
};
use crate::text::c_text_lossy;

verus! {

/// Sizes and counts of the local packet queues.
#[derive(Clone, Debug)]
pub struct PacketQueueInfo {
    pub incoming_max_size_bytes: u64,
    pub incoming_current_size_bytes: u64,
    pub incoming_current_packet_count: u64,
    pub outgoing_max_size_bytes: u64,
    pub outgoing_current_size_bytes: u64,
    pub outgoing_current_packet_count: u64,
}

/// A packet taken from the incoming queue.
#[derive(Clone, Debug)]
pub struct ReceivedPacket {
    pub peer_id: ProductUserId,
    pub socket_name: String,
    pub channel: u8,
    pub data: Vec<u8>,
}

/// Everything a send call hands to the SDK besides the payload itself.
pub struct SendPacketRequest {
    pub local_user_id: usize,
    pub remote_user_id: usize,
    pub socket: SocketId,
    pub channel: u8,
    pub data_length: u32,
    pub reliability: i32,
    pub allow_delayed_delivery: i32,
    pub disable_auto_accept_connection: i32,
}

/// The NAT type a NAT query reports: its error, or the type its raw code stands for.
pub fn nat_type_from_call(res: i32, raw: i32) -> (r: Result<NatType, Error>)
    ensures
        r == result_with_spec(res, nat_type_spec(raw)),
{
    result_with(res, NatType::from_raw(raw))
}

/// The channel filter of a receive call: the channel and whether a filter is
/// set at all (the SDK takes a null pointer for "any channel").
pub fn requested_channel_arg(requested: Option<u8>) -> (r: (u8, bool))
    ensures
        requested is None ==> r == (0u8, false),
        requested matches Some(c) ==> r == (c, true),
{
    match requested {
        Some(c) => (c, true),
        None => (0u8, false),
    }
}

/// A zeroed buffer of `max_data_size_bytes` bytes for the SDK to write a packet into.
pub fn receive_buffer(max_data_size_bytes: u32) -> (b: Vec<u8>)
    ensures
        b@ == Seq::new(max_data_size_bytes as nat, |i: int| 0u8),
{
    let n = max_data_size_bytes as usize;
    let mut b: Vec<u8> = Vec::new();
    let mut i: usize = 0;
    while i < n
        invariant
            n == max_data_size_bytes,
            0 <= i <= n,
            b@ == Seq::new(i as nat, |k: int| 0u8),
        decreases n - i,
    {
        b.push(0u8);
        i = i + 1;
        proof {
            assert(b@ =~= Seq::new(i as nat, |k: int| 0u8));
        }
    }
    b
}

/// The packet bytes the SDK wrote: the first `bytes_written` bytes of
/// `data`, or all of `data` when it is shorter.
pub open spec fn written_prefix(data: Seq<u8>, bytes_written: u32) -> Seq<u8> {
    if bytes_written < data.len() {
        data.take(bytes_written as int)
    } else {
        data
    }
}

impl ReceivedPacket {
    /// The packet a receive call produced: its error when `res` reports one;
    /// else the sender, the socket name read from `socket`, the channel, and
    /// the bytes of `data` that the SDK wrote.
    pub fn from_call(
        res: i32,
        peer: usize,
        socket: &SocketId,
        channel: u8,
        data: Vec<u8>,
        bytes_written: u32,
    ) -> (r: Result<ReceivedPacket, Error>)
        ensures
            r is Ok <==> res == crate::error::EOS_SUCCESS,
            r matches Err(e) ==> e == Error::Eos(res),
            r matches Ok(p) ==> {
                &&& p.peer_id@ == peer
                &&& p.socket_name@ == c_text_lossy(socket.field())
                &&& p.channel == channel
                &&& p.data@ == written_prefix(data@, bytes_written)
            },
    {
        crate::error::ok(res)?;
        let mut data = data;
        let ghost before = data@;
        data.truncate(bytes_written as usize);
        proof {
            if bytes_written < before.len() {
                assert(data@ =~= before.take(bytes_written as int));
            }
        }
        Ok(ReceivedPacket {
            peer_id: ProductUserId::from_raw(peer),
            socket_name: socket_name_from_raw(socket),
            channel,
            data,
        })
    }
}

impl SendPacketRequest {
    /// Builds a send request; fails as `make_socket_id` does for the socket
    /// name. The payload length is passed to the SDK as a 32-bit count.
    pub fn new(
        local_user: ProductUserId,
        remote_user: ProductUserId,
        socket_name: &str,
        channel: u8,
        data: &[u8],
        reliability: PacketReliability,
        allow_delayed_delivery: bool,
        disable_auto_accept_connection: bool,
    ) -> (r: Result<SendPacketRequest, Error>)
        ensures
            r is Ok <==> fits_socket_field(socket_name.spec_bytes()),
            has_nul(socket_name.spec_bytes()) ==> (r matches Err(Error::Nul(n)) && is_nul_error_of(
                n,
                socket_name.spec_bytes(),
            )),
            !has_nul(socket_name.spec_bytes()) && socket_name.spec_bytes().len() + 1 > SOCKET_NAME_SIZE
                ==> r matches Err(Error::Null),
            r matches Ok(q) ==> {
                &&& q.local_user_id == local_user@
                &&& q.remote_user_id == remote_user@
                &&& q.socket.field() == socket_field(socket_name.spec_bytes())
                &&& q.socket.version() == SOCKET_ID_API_LATEST
                &&& q.channel == channel
                &&& q.data_length == data@.len() as u32
                &&& q.reliability == packet_reliability_raw_spec(reliability)
                &&& q.allow_delayed_delivery == eos_bool_spec(allow_delayed_delivery)
                &&& q.disable_auto_accept_connection == eos_bool_spec(disable_auto_accept_connection)
            },
    {
        let socket = make_socket_id(socket_name)?;
        Ok(SendPacketRequest {
            local_user_id: local_user.raw(),
            remote_user_id: remote_user.raw(),
            socket,
            channel,
            data_length: data.len() as u32,
            reliability: reliability.to_raw(),
            allow_delayed_delivery: eos_bool(allow_delayed_delivery),
            disable_auto_accept_connection: eos_bool(disable_auto_accept_connection),
        })
    }
}

/// A received packet holds exactly the bytes the SDK reported writing, as
/// long as it wrote no more than the buffer holds.
pub proof fn law_received_length(data: Seq<u8>, bytes_written: u32)
    requires
        bytes_written <= data.len(),
    ensures
        written_prefix(data, bytes_written).len() == bytes_written,
        written_prefix(data, bytes_written) == data.take(bytes_written as int),
{
}

/// A received packet never holds more than the buffer: when the SDK reports
/// writing at least the whole buffer, the packet is the whole buffer; and it
/// is always a prefix of the buffer.
pub proof fn law_received_within_buffer(data: Seq<u8>, bytes_written: u32)
    ensures
        bytes_written >= data.len() ==> written_prefix(data, bytes_written) == data,
        written_prefix(data, bytes_written).len() <= data.len(),
        written_prefix(data, bytes_written).len() <= bytes_written,
        forall|i: int|
            0 <= i < written_prefix(data, bytes_written).len() ==> #[trigger] written_prefix(data, bytes_written)[i]
                == data[i],
{
}

} // verus!
