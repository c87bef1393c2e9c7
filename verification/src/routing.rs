//! Source-routed packets: the validation chain, the step forward, and the
//! way back for what cannot go forward.

use crate::action::{Action, ActionView};
use crate::drone::{DroneView, GameOfDrones};
use crate::packet::{
    DroneEvent, DroneEventView, Nack, NackType, NodeId, Packet, PacketType, PacketTypeView,
    PacketView, RouteView, SourceRoutingHeader,
};
use crate::rate::drops;
use vstd::prelude::*;

verus! {

/// The first check that `route` fails at drone `id`, in the order of the
/// chain: the drone is the node the route points at; it is not the last node
/// of the path; the node after it is a neighbour.
pub open spec fn first_failure(id: NodeId, neighbours: Seq<NodeId>, route: RouteView) -> Option<
    NackType,
>
    recommends
        route.in_bounds(),
{
    if route.hops[route.hop_index] != id {
        Some(NackType::UnexpectedRecipient(id))
    } else if route.hop_index >= route.hops.len() - 1 {
        Some(NackType::DestinationIsDrone)
    } else if !neighbours.contains(route.hops[route.hop_index + 1]) {
        Some(NackType::ErrorInRouting(route.hops[route.hop_index + 1]))
    } else {
        None
    }
}

/// `packet` one hop further: the position moves on by one, nothing else
/// changes.
pub open spec fn advanced(packet: PacketView) -> PacketView {
    PacketView {
        routing_header: RouteView {
            hop_index: packet.routing_header.hop_index + 1,
            hops: packet.routing_header.hops,
        },
        ..packet
    }
}

/// The order to hand `packet`, moved on by one hop, to the node that its
/// route names next.
pub open spec fn forwarded(packet: PacketView) -> Seq<ActionView>
    recommends
        packet.routing_header.hop_index + 1 < packet.routing_header.hops.len(),
{
    seq![
        ActionView::Send {
            to: packet.routing_header.hops[packet.routing_header.hop_index + 1],
            packet: advanced(packet),
        },
    ]
}

/// The path back from the position of `route`: the path up to and with that
/// position, turned round.
pub open spec fn return_hops(route: RouteView) -> Seq<NodeId>
    recommends
        route.in_bounds(),
{
    route.hops.subrange(0, route.hop_index + 1).reverse()
}

/// The negative acknowledgement that answers a packet with route `route`.
pub open spec fn nack_packet(
    route: RouteView,
    nack_type: NackType,
    session_id: u64,
    fragment_index: u64,
) -> PacketView {
    PacketView {
        pack_type: PacketTypeView::Nack(Nack { fragment_index, nack_type }),
        routing_header: RouteView { hop_index: 1, hops: return_hops(route) },
        session_id,
    }
}

/// The order to send `reply`, whose route starts at this drone, to the
/// second node of its path. There is no such order where the path has no
/// second node or that node is no neighbour.
pub open spec fn sent_back(neighbours: Seq<NodeId>, reply: PacketView) -> Seq<ActionView> {
    let hops = reply.routing_header.hops;
    if hops.len() > 1 && neighbours.contains(hops[1]) {
        seq![ActionView::Send { to: hops[1], packet: reply }]
    } else {
        Seq::empty()
    }
}

/// What a drone does with a packet that is subject to the drop rate.
pub open spec fn fragment_actions(
    drone: DroneView,
    packet: PacketView,
    fragment_index: u64,
    draw: u32,
) -> Seq<ActionView>
    recommends
        packet.routing_header.in_bounds(),
{
    let route = packet.routing_header;
    match first_failure(drone.id, drone.neighbours, route) {
        Some(nack_type) => sent_back(
            drone.neighbours,
            nack_packet(route, nack_type, packet.session_id, fragment_index),
        ),
        None => if drops(drone.pdr, draw) {
            seq![ActionView::Notify(DroneEventView::PacketDropped(packet))] + sent_back(
                drone.neighbours,
                nack_packet(route, NackType::Dropped, packet.session_id, fragment_index),
            )
        } else {
            forwarded(packet)
        },
    }
}

/// What a drone does with a packet that is only ever forwarded.
pub open spec fn forward_only_actions(drone: DroneView, packet: PacketView) -> Seq<ActionView>
    recommends
        packet.routing_header.in_bounds(),
{
    match first_failure(drone.id, drone.neighbours, packet.routing_header) {
        Some(_) => seq![ActionView::Notify(DroneEventView::ControllerShortcut(packet))],
        None => forwarded(packet),
    }
}

/// No action.
pub(crate) fn no_action() -> (actions: Vec<Action>)
    ensures
        actions.deep_view() == Seq::<ActionView>::empty(),
{
    let actions: Vec<Action> = Vec::new();
    assert(actions.deep_view() =~= Seq::<ActionView>::empty());
    actions
}

/// Adds one action to a list of them.
pub(crate) fn push_action(actions: &mut Vec<Action>, action: Action)
    ensures
        final(actions).deep_view() == old(actions).deep_view().push(action@),
{
    actions.push(action);
    assert(actions.deep_view() =~= old(actions).deep_view().push(action@));
}

/// The path of `hops` up to and with `hop_index`, turned round.
fn reversed_prefix(hops: &Vec<NodeId>, hop_index: usize) -> (path: Vec<NodeId>)
    requires
        hop_index < hops.len(),
    ensures
        path@ == return_hops(RouteView { hop_index: hop_index as int, hops: hops@ }),
{
    let mut path: Vec<NodeId> = Vec::new();
    let mut left: usize = hop_index + 1;
    while left > 0
        invariant
            left <= hop_index + 1,
            hop_index < hops.len(),
            path@.len() == hop_index + 1 - left,
            forall|j: int| 0 <= j < path@.len() ==> path@[j] == hops@[hop_index - j],
        decreases left,
    {
        left -= 1;
        path.push(hops[left]);
    }
    assert(path@ =~= hops@.subrange(0, hop_index + 1).reverse());
    path
}

impl GameOfDrones {
    /// The first check of the chain: the route points at this drone.
    pub fn check_unexpected_recipient(&self, packet: &Packet) -> (ok: bool)
        requires
            packet@.routing_header.in_bounds(),
        ensures
            ok == (packet@.routing_header.hops[packet@.routing_header.hop_index] == self@.id),
    {
        packet.routing_header.hops[packet.routing_header.hop_index] == self.id
    }

    /// The second check of the chain: the drone is not the last node of the
    /// path.
    pub fn check_destination_is_drone(&self, packet: &Packet) -> (ok: bool)
        requires
            packet@.routing_header.in_bounds(),
        ensures
            ok == (packet@.routing_header.hop_index < packet@.routing_header.hops.len() - 1),
    {
        packet.routing_header.hop_index != packet.routing_header.hops.len() - 1
    }

    /// The third check of the chain: the node after the drone is a neighbour.
    pub fn check_error_in_routing(&self, packet: &Packet) -> (ok: bool)
        requires
            packet@.routing_header.hop_index + 1 < packet@.routing_header.hops.len(),
        ensures
            ok == self@.neighbours.contains(
                packet@.routing_header.hops[packet@.routing_header.hop_index + 1],
            ),
    {
        let hops = &packet.routing_header.hops;
        assert(hops.len() <= usize::MAX);
        self.is_neighbour(hops[packet.routing_header.hop_index + 1])
    }

    /// Runs the chain of checks and names the first that fails.
    pub fn validate(&self, packet: &Packet) -> (failure: Option<NackType>)
        requires
            packet@.routing_header.in_bounds(),
        ensures
            failure == first_failure(self@.id, self@.neighbours, packet@.routing_header),
    {
        if !self.check_unexpected_recipient(packet) {
            Some(NackType::UnexpectedRecipient(self.id))
        } else if !self.check_destination_is_drone(packet) {
            Some(NackType::DestinationIsDrone)
        } else if !self.check_error_in_routing(packet) {
            let hops = &packet.routing_header.hops;
            assert(hops.len() <= usize::MAX);
            Some(NackType::ErrorInRouting(hops[packet.routing_header.hop_index + 1]))
        } else {
            None
        }
    }

    /// Orders `reply` to be sent to the second node of its path, where that
    /// node is a neighbour.
    pub fn send_back(&self, reply: Packet) -> (actions: Vec<Action>)
        ensures
            actions.deep_view() == sent_back(self@.neighbours, reply@),
    {
        let mut actions = no_action();
        if reply.routing_header.hops.len() > 1 {
            let to = reply.routing_header.hops[1];
            if self.is_neighbour(to) {
                push_action(&mut actions, Action::Send { to, packet: reply });
            }
        }
        actions
    }

    /// Orders `packet` to be sent on to the next node of its route.
    pub fn forward(&self, packet: &Packet) -> (actions: Vec<Action>)
        requires
            packet@.routing_header.hop_index + 1 < packet@.routing_header.hops.len(),
        ensures
            actions.deep_view() == forwarded(packet@),
    {
        assert(packet.routing_header.hops.len() <= usize::MAX);
        let next = packet.routing_header.hop_index + 1;
        let to = packet.routing_header.hops[next];
        let moved = Packet {
            pack_type: packet.pack_type.clone(),
            routing_header: SourceRoutingHeader {
                hop_index: next,
                hops: packet.routing_header.hops.clone(),
            },
            session_id: packet.session_id,
        };
        let mut actions = no_action();
        push_action(&mut actions, Action::Send { to, packet: moved });
        actions
    }

    /// Builds the negative acknowledgement for a packet that stood at
    /// `hop_index` of `hops`, and orders it to be sent back.
    pub fn create_nack_n_send(
        &self,
        hops: &Vec<NodeId>,
        hop_index: usize,
        nack_type: NackType,
        session_id: u64,
        fragment_index: u64,
    ) -> (actions: Vec<Action>)
        requires
            hop_index < hops.len(),
        ensures
            actions.deep_view() == sent_back(
                self@.neighbours,
                nack_packet(
                    RouteView { hop_index: hop_index as int, hops: hops@ },
                    nack_type,
                    session_id,
                    fragment_index,
                ),
            ),
    {
        let nack_packet = Packet {
            pack_type: PacketType::Nack(Nack { fragment_index, nack_type }),
            routing_header: SourceRoutingHeader {
                hop_index: 1,
                hops: reversed_prefix(hops, hop_index),
            },
            session_id,
        };
        self.send_back(nack_packet)
    }

    /// Handles a fragment: a failed check is answered with a negative
    /// acknowledgement, a draw below the drop rate drops the fragment, and
    /// otherwise the fragment goes on.
    pub fn fragment_handle(&self, packet: &Packet, fragment_index: u64, draw: u32) -> (actions: Vec<
        Action,
    >)
        requires
            packet@.routing_header.in_bounds(),
        ensures
            actions.deep_view() == fragment_actions(self@, packet@, fragment_index, draw),
    {
        match self.validate(packet) {
            Some(nack_type) => self.create_nack_n_send(
                &packet.routing_header.hops,
                packet.routing_header.hop_index,
                nack_type,
                packet.session_id,
                fragment_index,
            ),
            None => if self.drop_check(draw) {
                let mut actions = no_action();
                push_action(&mut actions, Action::Notify(DroneEvent::PacketDropped(packet.clone())));
                let mut back = self.create_nack_n_send(
                    &packet.routing_header.hops,
                    packet.routing_header.hop_index,
                    NackType::Dropped,
                    packet.session_id,
                    fragment_index,
                );
                let ghost first = actions.deep_view();
                let ghost second = back.deep_view();
                actions.append(&mut back);
                assert(actions.deep_view() =~= first + second);
                actions
            } else {
                self.forward(packet)
            },
        }
    }

    /// Handles an acknowledgement, a negative acknowledgement or a flood
    /// response: it goes on where its route holds, and is left to the
    /// controller where not.
    pub fn nfa_handle(&self, packet: &Packet) -> (actions: Vec<Action>)
        requires
            packet@.routing_header.in_bounds(),
        ensures
            actions.deep_view() == forward_only_actions(self@, packet@),
    {
        match self.validate(packet) {
            Some(_) => {
                let mut actions = no_action();
                push_action(
                    &mut actions,
                    Action::Notify(DroneEvent::ControllerShortcut(packet.clone())),
                );
                actions
            },
            None => self.forward(packet),
        }
    }
}

} // verus!
