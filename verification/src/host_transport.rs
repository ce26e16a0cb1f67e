//! The host's side of a transaction: one request out, the replies back.
//!
//! Two transports share the contract of [`HostTransport`]. The mock
//! transport holds a service in the same process and is complete here. Of
//! the USB transport this module holds what it decides: which interface of
//! a device to claim, whether a transfer was a whole packet, when a
//! transaction is over, and how failures are classed. The USB calls
//! themselves are the caller's part.

use vstd::prelude::*;
use crate::bridge_proto::{
    decode_frame,
    view_option,
    DecodeError,
    MsgType,
    Packet,
    PacketView,
    PACKET_SIZE,
};
use crate::bridge_service::{BridgeService, ServiceState};
use crate::frame_pump::USB_FRAME_SIZE;

verus! {

/// USB vendor id of the bridge.
pub const BRIDGE_VID: u16 = 0x2E8A;

/// USB product id of the bridge.
pub const BRIDGE_PID: u16 = 0x000A;

/// Time limit of one bulk transfer, in milliseconds.
pub const TRANSFER_TIMEOUT_MS: u64 = 250;

/// Time limit of one transaction, in milliseconds.
pub const TRANSACTION_DEADLINE_MS: u64 = 500;

/// How a USB call failed, as far as the host tells failures apart.
#[derive(Clone, Copy, Debug, PartialEq, Eq, Structural)]
pub enum UsbFault {
    /// The transfer ran out of time.
    Timeout,
    /// The device is gone.
    NoDevice,
    /// Any other failure.
    Other,
}

/// Class of a failure, as it is reported to the user.
#[derive(Clone, Copy, Debug, PartialEq, Eq, Structural)]
pub enum HostErrorKind {
    NotFound,
    InvalidData,
    WriteZero,
    TimedOut,
    NotConnected,
    Other,
}

/// Why a transaction with the bridge failed.
#[derive(Clone, Copy, Debug, PartialEq, Eq, Structural)]
pub enum HostError {
    /// No device with the wanted ids offers a bulk pipe in both directions.
    DeviceNotFound,
    /// A transfer came in that is not as long as a packet.
    UnexpectedSize,
    /// A transfer came in that does not decode.
    Decode(DecodeError),
    /// A request went out only in part.
    ShortWrite,
    /// The transaction ran out of time without one reply.
    NoResponse,
    /// A USB call failed.
    Usb(UsbFault),
}

impl HostError {
    /// The class of the failure.
    pub open spec fn kind_of(self) -> HostErrorKind {
        match self {
            HostError::DeviceNotFound => HostErrorKind::NotFound,
            HostError::UnexpectedSize => HostErrorKind::InvalidData,
            HostError::Decode(_) => HostErrorKind::InvalidData,
            HostError::ShortWrite => HostErrorKind::WriteZero,
            HostError::NoResponse => HostErrorKind::TimedOut,
            HostError::Usb(UsbFault::Timeout) => HostErrorKind::TimedOut,
            HostError::Usb(UsbFault::NoDevice) => HostErrorKind::NotConnected,
            HostError::Usb(UsbFault::Other) => HostErrorKind::Other,
        }
    }

    /// Returns the class of the failure.
    pub fn kind(&self) -> (kind: HostErrorKind)
        ensures
            kind == self.kind_of(),
    {
        match self {
            HostError::DeviceNotFound => HostErrorKind::NotFound,
            HostError::UnexpectedSize => HostErrorKind::InvalidData,
            HostError::Decode(_) => HostErrorKind::InvalidData,
            HostError::ShortWrite => HostErrorKind::WriteZero,
            HostError::NoResponse => HostErrorKind::TimedOut,
            HostError::Usb(fault) => match fault {
                UsbFault::Timeout => HostErrorKind::TimedOut,
                UsbFault::NoDevice => HostErrorKind::NotConnected,
                UsbFault::Other => HostErrorKind::Other,
            },
        }
    }
}

/// Wraps the failure of a USB call: a timeout is classed as timed out, a
/// lost device as not connected, anything else as other.
pub fn io_other(fault: UsbFault) -> (e: HostError)
    ensures
        e == HostError::Usb(fault),
        e.kind_of() == match fault {
            UsbFault::Timeout => HostErrorKind::TimedOut,
            UsbFault::NoDevice => HostErrorKind::NotConnected,
            UsbFault::Other => HostErrorKind::Other,
        },
{
    HostError::Usb(fault)
}

/// The models of a sequence of packets.
pub open spec fn packet_views(packets: Seq<Packet>) -> Seq<PacketView> {
    packets.map_values(|p: Packet| p@)
}

/// A way to send one request to a bridge and collect its replies.
pub trait HostTransport {
    /// Sends `req` and returns the replies in the order of their arrival.
    fn transact(&mut self, req: Packet) -> Result<Vec<Packet>, HostError>;
}

/// A transport whose bridge is a service in the same process.
pub struct MockTransport {
    bridge: BridgeService,
}

impl View for MockTransport {
    type V = ServiceState;

    closed spec fn view(&self) -> ServiceState {
        self.bridge@
    }
}

impl MockTransport {
    /// A transport with a service after start-up.
    pub fn new() -> (t: Self)
        ensures
            t@ == ServiceState::initial(),
    {
        MockTransport { bridge: BridgeService::new() }
    }

    /// Polls the service for its next telemetry event.
    pub fn next_packet(&mut self) -> (event: Option<Packet>)
        ensures
            view_option(event) == old(self)@.poll_event(),
            final(self)@ == old(self)@.after_poll(),
    {
        self.bridge.poll_telemetry_event()
    }

}

impl HostTransport for MockTransport {
    /// Hands `req` to the service and returns its replies. Never fails.
    fn transact(&mut self, req: Packet) -> (r: Result<Vec<Packet>, HostError>)
        ensures
            r matches Ok(replies) && packet_views(replies@) == old(self)@.replies(req@),
            final(self)@ == old(self)@.after_request(req@),
    {
        let mut out: [Packet; 2] = [Packet::ping(0), Packet::ping(0)];
        let n: usize = self.bridge.handle_request(req, &mut out);
        let ghost expected: Seq<PacketView> = old(self)@.replies(req@);
        let mut replies: Vec<Packet> = Vec::new();
        let mut i: usize = 0;
        while i < n
            invariant
                i <= n <= 2,
                n == expected.len(),
                replies@.len() == i,
                forall|j: int| 0 <= j < n ==> (#[trigger] out@[j])@ == expected[j],
                forall|j: int| 0 <= j < i ==> (#[trigger] replies@[j])@ == expected[j],
            decreases n - i,
        {
            replies.push(out[i]);
            i += 1;
        }
        assert(packet_views(replies@) =~= expected);
        Ok(replies)
    }
}

/// One endpoint of an interface, as far as the choice of a pipe reads it.
#[derive(Clone, Copy, Debug, PartialEq, Eq, Structural)]
pub struct EndpointInfo {
    pub address: u8,
    /// The endpoint does bulk transfers.
    pub bulk: bool,
    /// The endpoint sends to the host.
    pub dir_in: bool,
}

/// One alternate setting of an interface with its endpoints in the order
/// of the descriptors.
#[derive(Debug)]
pub struct AltSetting {
    pub interface_number: u8,
    pub endpoints: Vec<EndpointInfo>,
}

/// The interface to claim and its two bulk endpoints.
#[derive(Clone, Copy, Debug, PartialEq, Eq, Structural)]
pub struct BulkPair {
    pub interface_number: u8,
    pub in_ep: u8,
    pub out_ep: u8,
}

/// The address of the last bulk endpoint of the direction `dir_in` among
/// `endpoints`, if there is one.
pub open spec fn last_bulk(endpoints: Seq<EndpointInfo>, dir_in: bool) -> Option<u8>
    decreases endpoints.len(),
{
    if endpoints.len() == 0 {
        None
    } else if endpoints.last().bulk && endpoints.last().dir_in == dir_in {
        Some(endpoints.last().address)
    } else {
        last_bulk(endpoints.drop_last(), dir_in)
    }
}

/// The bulk pipe of `setting`, if it has bulk endpoints in both directions.
pub open spec fn bulk_pair_of(setting: AltSetting) -> Option<BulkPair> {
    match (last_bulk(setting.endpoints@, true), last_bulk(setting.endpoints@, false)) {
        (Some(in_ep), Some(out_ep)) => Some(
            BulkPair { interface_number: setting.interface_number, in_ep, out_ep },
        ),
        _ => None,
    }
}

/// The bulk pipe of the first of `settings` that has one.
pub open spec fn first_bulk_pair(settings: Seq<AltSetting>) -> Option<BulkPair>
    decreases settings.len(),
{
    if settings.len() == 0 {
        None
    } else {
        match bulk_pair_of(settings.first()) {
            Some(pair) => Some(pair),
            None => first_bulk_pair(settings.drop_first()),
        }
    }
}

/// Finds the bulk pipe of one alternate setting.
pub fn bulk_pair(setting: &AltSetting) -> (pair: Option<BulkPair>)
    ensures
        pair == bulk_pair_of(*setting),
{
    let mut candidate_in: Option<u8> = None;
    let mut candidate_out: Option<u8> = None;
    let mut i: usize = 0;
    while i < setting.endpoints.len()
        invariant
            i <= setting.endpoints.len(),
            candidate_in == last_bulk(setting.endpoints@.take(i as int), true),
            candidate_out == last_bulk(setting.endpoints@.take(i as int), false),
        decreases setting.endpoints.len() - i,
    {
        let ep: EndpointInfo = setting.endpoints[i];
        proof {
            let upto = setting.endpoints@.take(i + 1);
            assert(upto.drop_last() =~= setting.endpoints@.take(i as int));
            assert(upto.last() == ep);
        }
        if ep.bulk {
            if ep.dir_in {
                candidate_in = Some(ep.address);
            } else {
                candidate_out = Some(ep.address);
            }
        }
        i += 1;
    }
    assert(setting.endpoints@.take(i as int) =~= setting.endpoints@);
    match (candidate_in, candidate_out) {
        (Some(in_ep), Some(out_ep)) => Some(
            BulkPair { interface_number: setting.interface_number, in_ep, out_ep },
        ),
        _ => None,
    }
}

/// Chooses the interface to claim: the first alternate setting, in the
/// order of the descriptors, that has a bulk endpoint in each direction.
/// Where a setting has several of one direction, the last one is taken.
pub fn select_bulk_pair(settings: &Vec<AltSetting>) -> (pair: Option<BulkPair>)
    ensures
        pair == first_bulk_pair(settings@),
{
    let mut i: usize = 0;
    assert(settings@.skip(0) =~= settings@);
    while i < settings.len()
        invariant
            i <= settings.len(),
            first_bulk_pair(settings@) == first_bulk_pair(settings@.skip(i as int)),
        decreases settings.len() - i,
    {
        let found: Option<BulkPair> = bulk_pair(&settings[i]);
        proof {
            let rest = settings@.skip(i as int);
            assert(rest.first() == settings@[i as int]);
            assert(rest.drop_first() =~= settings@.skip(i + 1));
        }
        if found.is_some() {
            return found;
        }
        i += 1;
    }
    assert(settings@.skip(i as int).len() == 0);
    None
}

/// What a bulk transfer of `n` bytes into `buf` holds: a transfer of any
/// length but that of a packet is refused, and so is one that does not
/// decode.
pub open spec fn in_transfer_result(buf: Seq<u8>, n: int) -> Result<PacketView, HostError> {
    if n != PACKET_SIZE {
        Err(HostError::UnexpectedSize)
    } else {
        match decode_frame(buf.take(PACKET_SIZE as int)) {
            Ok(pkt) => Ok(pkt),
            Err(e) => Err(HostError::Decode(e)),
        }
    }
}

/// The model of the result of a read.
pub open spec fn view_read(r: Result<Packet, HostError>) -> Result<PacketView, HostError> {
    match r {
        Ok(p) => Ok(p@),
        Err(e) => Err(e),
    }
}

/// Reads the packet out of a bulk transfer of `n` bytes into `buf`.
pub fn parse_in_transfer(buf: &[u8; USB_FRAME_SIZE], n: usize) -> (r: Result<Packet, HostError>)
    ensures
        view_read(r) == in_transfer_result(buf@, n as int),
{
    if n != PACKET_SIZE {
        return Err(HostError::UnexpectedSize);
    }
    let mut raw: [u8; PACKET_SIZE] = [0u8; PACKET_SIZE];
    let mut i: usize = 0;
    while i < PACKET_SIZE
        invariant
            i <= PACKET_SIZE,
            forall|j: int| 0 <= j < i ==> raw@[j] == buf@[j],
        decreases PACKET_SIZE - i,
    {
        raw[i] = buf[i];
        i += 1;
    }
    assert(raw@ =~= buf@.take(PACKET_SIZE as int));
    match Packet::decode(&raw) {
        Ok(pkt) => Ok(pkt),
        Err(e) => Err(HostError::Decode(e)),
    }
}

/// Checks that a bulk transfer took the whole request: `written` must be
/// the length of a packet.
pub fn check_written(written: usize) -> (r: Result<(), HostError>)
    ensures
        r == if written == PACKET_SIZE {
            Ok::<(), HostError>(())
        } else {
            Err::<(), HostError>(HostError::ShortWrite)
        },
{
    if written != PACKET_SIZE {
        return Err(HostError::ShortWrite);
    }
    Ok(())
}

/// `pkt` closes the transaction of the request with sequence number
/// `want_seq`: it is an ack or a nack with that number.
pub open spec fn closes_transaction(pkt: PacketView, want_seq: u16) -> bool {
    (pkt.msg_type == MsgType::Ack || pkt.msg_type == MsgType::Nack) && pkt.seq == want_seq
}

/// How a transaction goes on after a read.
#[derive(Clone, Copy, Debug, PartialEq, Eq, Structural)]
pub enum TransactStep {
    /// Read again, if there is time left.
    Continue,
    /// The closing reply is in: stop reading.
    Done,
    /// The read failed for good: the transaction fails with this error.
    Fail(HostError),
}

/// Mathematical model of a [`Transaction`].
pub struct TransactionState {
    pub want_seq: u16,
    pub replies: Seq<PacketView>,
}

impl TransactionState {
    /// The transaction of a request with sequence number `want_seq`,
    /// before the first read.
    pub open spec fn start(want_seq: u16) -> TransactionState {
        TransactionState { want_seq, replies: Seq::empty() }
    }

    /// How the transaction goes on after the read `r`: a packet that
    /// closes it ends it, a read that timed out is tried again, any other
    /// failure ends it.
    pub open spec fn step(self, r: Result<PacketView, HostError>) -> TransactStep {
        match r {
            Ok(pkt) => if closes_transaction(pkt, self.want_seq) {
                TransactStep::Done
            } else {
                TransactStep::Continue
            },
            Err(e) => if e.kind_of() == HostErrorKind::TimedOut {
                TransactStep::Continue
            } else {
                TransactStep::Fail(e)
            },
        }
    }

    /// The transaction after the read `r`: every packet read is kept.
    pub open spec fn after(self, r: Result<PacketView, HostError>) -> TransactionState {
        match r {
            Ok(pkt) => TransactionState { replies: self.replies.push(pkt), ..self },
            Err(_) => self,
        }
    }

    /// What the transaction returns when reading has stopped: the replies,
    /// or a timeout where there is none.
    pub open spec fn outcome(self) -> Result<Seq<PacketView>, HostError> {
        if self.replies.len() == 0 {
            Err(HostError::NoResponse)
        } else {
            Ok(self.replies)
        }
    }
}

/// The replies of one transaction as they come in.
pub struct Transaction {
    want_seq: u16,
    replies: Vec<Packet>,
}

impl View for Transaction {
    type V = TransactionState;

    closed spec fn view(&self) -> TransactionState {
        TransactionState { want_seq: self.want_seq, replies: packet_views(self.replies@) }
    }
}

impl Transaction {
    /// Starts the transaction of `req`, which has gone out.
    pub fn new(req: &Packet) -> (t: Self)
        ensures
            t@ == TransactionState::start(req.seq),
    {
        let t = Transaction { want_seq: req.seq, replies: Vec::new() };
        assert(packet_views(t.replies@) =~= Seq::empty());
        t
    }

    /// Takes in the result of one read and says how to go on.
    pub fn on_read(&mut self, r: Result<Packet, HostError>) -> (step: TransactStep)
        ensures
            step == old(self)@.step(view_read(r)),
            final(self)@ == old(self)@.after(view_read(r)),
    {
        match r {
            Ok(pkt) => {
                let done: bool = (pkt.msg_type == MsgType::Ack || pkt.msg_type == MsgType::Nack)
                    && pkt.seq == self.want_seq;
                self.replies.push(pkt);
                assert(packet_views(self.replies@) =~= packet_views(old(self).replies@).push(pkt@));
                if done {
                    TransactStep::Done
                } else {
                    TransactStep::Continue
                }
            },
            Err(e) => {
                if e.kind() == HostErrorKind::TimedOut {
                    TransactStep::Continue
                } else {
                    TransactStep::Fail(e)
                }
            },
        }
    }

    /// Ends the transaction after the closing reply or at the deadline.
    pub fn finish(self) -> (r: Result<Vec<Packet>, HostError>)
        ensures
            match r {
                Ok(replies) => self@.outcome() == Ok::<Seq<PacketView>, HostError>(
                    packet_views(replies@),
                ),
                Err(e) => self@.outcome() == Err::<Seq<PacketView>, HostError>(e),
            },
    {
        if self.replies.len() == 0 {
            return Err(HostError::NoResponse);
        }
        Ok(self.replies)
    }
}

} // verus!
