//! Packets, routing headers, controller events, and their mathematical views.

use vstd::prelude::*;

verus! {

/// Identifier of a node of the network.
pub type NodeId = u8;

/// The kind of a node, as recorded in a flood's path trace.
#[derive(Debug, Clone, Copy, PartialEq, Eq, Hash)]
pub enum NodeType {
    Client,
    Drone,
    Server,
}

/// Source route of a packet: the full path and the position on it of the node
/// that is expected to process the packet.
#[derive(Debug, PartialEq, Eq)]
pub struct SourceRoutingHeader {
    pub hop_index: usize,
    pub hops: Vec<NodeId>,
}

/// Mathematical view of a [`SourceRoutingHeader`].
pub struct RouteView {
    pub hop_index: int,
    pub hops: Seq<NodeId>,
}

impl RouteView {
    /// The position lies on the path.
    pub open spec fn in_bounds(self) -> bool {
        0 <= self.hop_index < self.hops.len()
    }
}

impl View for SourceRoutingHeader {
    type V = RouteView;

    open spec fn view(&self) -> RouteView {
        RouteView { hop_index: self.hop_index as int, hops: self.hops@ }
    }
}

/// One piece of a message. Only fragments are subject to the drop rate.
#[derive(Debug, Clone, Copy, PartialEq, Eq)]
pub struct Fragment {
    pub fragment_index: u64,
    pub total_n_fragments: u64,
    pub length: u8,
    pub data: [u8; 128],
}

/// Positive acknowledgement of a fragment.
#[derive(Debug, Clone, Copy, PartialEq, Eq)]
pub struct Ack {
    pub fragment_index: u64,
}

/// Why a fragment did not travel on.
#[derive(Debug, Clone, Copy, PartialEq, Eq)]
pub enum NackType {
    ErrorInRouting(NodeId),
    DestinationIsDrone,
    Dropped,
    UnexpectedRecipient(NodeId),
}

/// Negative acknowledgement of a fragment.
#[derive(Debug, Clone, Copy, PartialEq, Eq)]
pub struct Nack {
    pub fragment_index: u64,
    pub nack_type: NackType,
}

/// A discovery broadcast. It travels by its path trace, not by a source route.
#[derive(Debug, PartialEq, Eq)]
pub struct FloodRequest {
    pub flood_id: u64,
    pub initiator_id: NodeId,
    pub path_trace: Vec<(NodeId, NodeType)>,
}

/// Mathematical view of a [`FloodRequest`].
pub struct FloodRequestView {
    pub flood_id: u64,
    pub initiator_id: NodeId,
    pub path_trace: Seq<(NodeId, NodeType)>,
}

impl View for FloodRequest {
    type V = FloodRequestView;

    open spec fn view(&self) -> FloodRequestView {
        FloodRequestView {
            flood_id: self.flood_id,
            initiator_id: self.initiator_id,
            path_trace: self.path_trace@,
        }
    }
}

/// The answer to a flood request, routed back to the initiator.
#[derive(Debug, PartialEq, Eq)]
pub struct FloodResponse {
    pub flood_id: u64,
    pub path_trace: Vec<(NodeId, NodeType)>,
}

/// Mathematical view of a [`FloodResponse`].
pub struct FloodResponseView {
    pub flood_id: u64,
    pub path_trace: Seq<(NodeId, NodeType)>,
}

impl View for FloodResponse {
    type V = FloodResponseView;

    open spec fn view(&self) -> FloodResponseView {
        FloodResponseView { flood_id: self.flood_id, path_trace: self.path_trace@ }
    }
}

/// What a packet carries.
#[derive(Debug, PartialEq, Eq)]
pub enum PacketType {
    MsgFragment(Fragment),
    Ack(Ack),
    Nack(Nack),
    FloodRequest(FloodRequest),
    FloodResponse(FloodResponse),
}

/// Mathematical view of a [`PacketType`].
pub enum PacketTypeView {
    MsgFragment(Fragment),
    Ack(Ack),
    Nack(Nack),
    FloodRequest(FloodRequestView),
    FloodResponse(FloodResponseView),
}

impl View for PacketType {
    type V = PacketTypeView;

    open spec fn view(&self) -> PacketTypeView {
        match self {
            PacketType::MsgFragment(f) => PacketTypeView::MsgFragment(*f),
            PacketType::Ack(a) => PacketTypeView::Ack(*a),
            PacketType::Nack(n) => PacketTypeView::Nack(*n),
            PacketType::FloodRequest(r) => PacketTypeView::FloodRequest(r@),
            PacketType::FloodResponse(r) => PacketTypeView::FloodResponse(r@),
        }
    }
}

/// The unit of transport.
#[derive(Debug, PartialEq, Eq)]
pub struct Packet {
    pub pack_type: PacketType,
    pub routing_header: SourceRoutingHeader,
    pub session_id: u64,
}

/// Mathematical view of a [`Packet`].
pub struct PacketView {
    pub pack_type: PacketTypeView,
    pub routing_header: RouteView,
    pub session_id: u64,
}

impl PacketView {
    /// What a drone asks of a packet before it handles it: unless the packet
    /// is a flood request, whose route is not read, the position of its
    /// route lies on the path.
    pub open spec fn routable(self) -> bool {
        self.pack_type is FloodRequest || self.routing_header.in_bounds()
    }
}

impl View for Packet {
    type V = PacketView;

    open spec fn view(&self) -> PacketView {
        PacketView {
            pack_type: self.pack_type@,
            routing_header: self.routing_header@,
            session_id: self.session_id,
        }
    }
}

/// What a drone tells its controller.
#[derive(Debug, PartialEq, Eq)]
pub enum DroneEvent {
    /// A packet was handed to a neighbour.
    PacketSent(Packet),
    /// A fragment fell to the drop rate.
    PacketDropped(Packet),
    /// A packet other than a fragment could not follow its route and is left
    /// to the controller to deliver.
    ControllerShortcut(Packet),
}

/// Mathematical view of a [`DroneEvent`].
pub enum DroneEventView {
    PacketSent(PacketView),
    PacketDropped(PacketView),
    ControllerShortcut(PacketView),
}

impl View for DroneEvent {
    type V = DroneEventView;

    open spec fn view(&self) -> DroneEventView {
        match self {
            DroneEvent::PacketSent(p) => DroneEventView::PacketSent(p@),
            DroneEvent::PacketDropped(p) => DroneEventView::PacketDropped(p@),
            DroneEvent::ControllerShortcut(p) => DroneEventView::ControllerShortcut(p@),
        }
    }
}

/// What the controller asks of a drone. The link that comes with a new
/// neighbour is kept by whoever owns the channels; the drone keeps the id.
#[derive(Debug, Clone, Copy, PartialEq, Eq)]
pub enum DroneCommand {
    AddSender(NodeId),
    RemoveSender(NodeId),
    /// The new drop rate, as a bit pattern (see [`crate::rate`]).
    SetPacketDropRate(u32),
    Crash,
}

/// Copies a path trace.
pub(crate) fn clone_trace(trace: &Vec<(NodeId, NodeType)>) -> (copy: Vec<(NodeId, NodeType)>)
    ensures
        copy@ == trace@,
{
    let mut copy: Vec<(NodeId, NodeType)> = Vec::with_capacity(trace.len());
    let mut i: usize = 0;
    while i < trace.len()
        invariant
            i <= trace.len(),
            copy@ == trace@.take(i as int),
        decreases trace.len() - i,
    {
        copy.push(trace[i]);
        assert(trace@.take(i + 1) == trace@.take(i as int).push(trace@[i as int]));
        i += 1;
    }
    assert(trace@.take(trace.len() as int) == trace@);
    copy
}

impl Clone for SourceRoutingHeader {
    fn clone(&self) -> (copy: Self)
        ensures
            copy@ == self@,
    {
        SourceRoutingHeader { hop_index: self.hop_index, hops: self.hops.clone() }
    }
}

impl Clone for FloodRequest {
    fn clone(&self) -> (copy: Self)
        ensures
            copy@ == self@,
    {
        FloodRequest {
            flood_id: self.flood_id,
            initiator_id: self.initiator_id,
            path_trace: clone_trace(&self.path_trace),
        }
    }
}

impl Clone for FloodResponse {
    fn clone(&self) -> (copy: Self)
        ensures
            copy@ == self@,
    {
        FloodResponse { flood_id: self.flood_id, path_trace: clone_trace(&self.path_trace) }
    }
}

impl Clone for PacketType {
    fn clone(&self) -> (copy: Self)
        ensures
            copy@ == self@,
    {
        match self {
            PacketType::MsgFragment(f) => PacketType::MsgFragment(*f),
            PacketType::Ack(a) => PacketType::Ack(*a),
            PacketType::Nack(n) => PacketType::Nack(*n),
            PacketType::FloodRequest(r) => PacketType::FloodRequest(r.clone()),
            PacketType::FloodResponse(r) => PacketType::FloodResponse(r.clone()),
        }
    }
}

impl Packet {
    /// Tells whether the packet is fit to be handled by a drone.
    pub fn is_routable(&self) -> (ok: bool)
        ensures
            ok == self@.routable(),
    {
        match &self.pack_type {
            PacketType::FloodRequest(_) => true,
            _ => self.routing_header.hop_index < self.routing_header.hops.len(),
        }
    }
}

impl Clone for DroneEvent {
    fn clone(&self) -> (copy: Self)
        ensures
            copy@ == self@,
    {
        match self {
            DroneEvent::PacketSent(p) => DroneEvent::PacketSent(p.clone()),
            DroneEvent::PacketDropped(p) => DroneEvent::PacketDropped(p.clone()),
            DroneEvent::ControllerShortcut(p) => DroneEvent::ControllerShortcut(p.clone()),
        }
    }
}

impl Clone for Packet {
    fn clone(&self) -> (copy: Self)
        ensures
            copy@ == self@,
    {
        Packet {
            pack_type: self.pack_type.clone(),
            routing_header: self.routing_header.clone(),
            session_id: self.session_id,
        }
    }
}

} // verus!
