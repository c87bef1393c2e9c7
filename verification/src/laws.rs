//! Laws of the protocol, proved of every drone, packet and draw.

use crate::action::ActionView;
use crate::dispatch::{after_packet, packet_actions};
use crate::drone::{after_command, initial_neighbours, with_neighbour, DroneView, Phase};
use crate::flood::{
    extended, flood_actions, flood_response, lemma_targets_are_chosen, previous_hop,
    response_hops, trace_ids,
};
use crate::packet::{
    DroneCommand, DroneEventView, FloodRequestView, NackType, NodeId, NodeType, PacketTypeView,
    PacketView,
};
use crate::rate::{drops, RATE_ONE};
use crate::routing::{advanced, first_failure, nack_packet, return_hops, sent_back};
use vstd::prelude::*;

verus! {

/// A command leaves a well-formed drone well-formed: the drone never
/// becomes its own neighbour, no neighbour is listed twice, and the drop
/// rate stays a probability. A command never touches the floods seen.
pub proof fn law_command_keeps_drone_well_formed(drone: DroneView, command: DroneCommand)
    requires
        drone.wf(),
    ensures
        after_command(drone, command).wf(),
        after_command(drone, command).id == drone.id,
        after_command(drone, command).flood_ids == drone.flood_ids,
{
    if drone.phase == Phase::Running {
        match command {
            DroneCommand::RemoveSender(n) => {
                lemma_remove_value(drone.neighbours, n);
            },
            _ => {},
        }
    }
}

/// What is left of a list without duplicates when one value is taken out:
/// the other values, each once.
pub proof fn lemma_remove_value(list: Seq<NodeId>, n: NodeId)
    requires
        list.no_duplicates(),
    ensures
        list.remove_value(n).no_duplicates(),
        !list.remove_value(n).contains(n),
        forall|m: NodeId| m != n ==> (list.remove_value(n).contains(m) <==> list.contains(m)),
{
    list.index_of_first_ensures(n);
    match list.index_of_first(n) {
        Some(at) => {
            let rest = list.remove(at);
            assert forall|a: int| 0 <= a < rest.len() implies rest[a] == list[if a < at {
                a
            } else {
                a + 1
            }] by {}
            assert forall|a: int, b: int| 0 <= a < rest.len() && 0 <= b < rest.len() && a
                != b implies rest[a] != rest[b] by {
                let a0 = if a < at { a } else { a + 1 };
                let b0 = if b < at { b } else { b + 1 };
                assert(rest[a] == list[a0] && rest[b] == list[b0]);
            }
            assert forall|m: NodeId| m != n && list.contains(m) implies rest.contains(m) by {
                let k = choose|k: int| 0 <= k < list.len() && list[k] == m;
                let k0 = if k < at { k } else { k - 1 };
                assert(rest[k0] == m);
            }
            assert forall|m: NodeId| rest.contains(m) implies list.contains(m) && m != n by {
                let k = choose|k: int| 0 <= k < rest.len() && rest[k] == m;
                let k0 = if k < at { k } else { k + 1 };
                assert(list[k0] == m);
            }
        },
        None => {},
    }
}

/// A new drone has as neighbours the nodes that it was given, but for
/// itself, each once.
pub proof fn law_initial_neighbours_are_the_offered(id: NodeId, offered: Seq<NodeId>)
    ensures
        initial_neighbours(id, offered).no_duplicates(),
        !initial_neighbours(id, offered).contains(id),
        forall|n: NodeId| #[trigger]
            initial_neighbours(id, offered).contains(n) <==> offered.contains(n) && n != id,
    decreases offered.len(),
{
    if offered.len() > 0 {
        let before = offered.drop_last();
        let last = offered.last();
        law_initial_neighbours_are_the_offered(id, before);
        let earlier = initial_neighbours(id, before);
        let all = initial_neighbours(id, offered);
        assert(all == with_neighbour(earlier, id, last));
        assert forall|n: NodeId| #[trigger]
            all.contains(n) <==> offered.contains(n) && n != id by {
            assert(earlier.contains(n) <==> before.contains(n) && n != id);
            if all.contains(n) {
                let k = choose|k: int| 0 <= k < all.len() && all[k] == n;
                if k < earlier.len() {
                    assert(earlier[k] == n);
                    assert(earlier.contains(n));
                    let j = choose|j: int| 0 <= j < before.len() && before[j] == n;
                    assert(offered[j] == n);
                } else {
                    assert(n == last);
                    assert(offered[offered.len() - 1] == n);
                }
            }
            if offered.contains(n) && n != id {
                let j = choose|j: int| 0 <= j < offered.len() && offered[j] == n;
                if j < before.len() {
                    assert(before[j] == n);
                    assert(before.contains(n));
                    let k = choose|k: int| 0 <= k < earlier.len() && earlier[k] == n;
                    assert(all[k] == n);
                } else {
                    assert(n == last);
                    if !earlier.contains(n) {
                        assert(all[all.len() - 1] == n);
                    } else {
                        let k = choose|k: int| 0 <= k < earlier.len() && earlier[k] == n;
                        assert(all[k] == n);
                    }
                }
            }
        }
        assert(!all.contains(id));
        assert(all.no_duplicates()) by {
            if all != earlier {
                assert forall|a: int, b: int|
                    0 <= a < all.len() && 0 <= b < all.len() && a != b implies all[a]
                    != all[b] by {
                    if a < earlier.len() {
                        assert(earlier.contains(earlier[a]));
                    }
                    if b < earlier.len() {
                        assert(earlier.contains(earlier[b]));
                    }
                }
            }
        }
    } else {
        assert(initial_neighbours(id, offered) == Seq::<NodeId>::empty());
    }
}

/// Once a crash has been ordered, no command changes the drone.
pub proof fn law_no_command_after_crash(drone: DroneView, first: DroneCommand, later: DroneCommand)
    requires
        first is Crash,
    ensures
        after_command(after_command(drone, first), later) == after_command(drone, first),
{
}

/// A packet leaves a well-formed drone well-formed and changes nothing but
/// the floods seen, which only grow.
pub proof fn law_packet_keeps_drone_well_formed(drone: DroneView, packet: PacketView)
    requires
        drone.wf(),
    ensures
        after_packet(drone, packet).wf(),
        after_packet(drone, packet) == (DroneView {
            flood_ids: after_packet(drone, packet).flood_ids,
            ..drone
        }),
        drone.flood_ids.subset_of(after_packet(drone, packet).flood_ids),
{
}

/// Whatever a drone orders to be sent goes to one of its neighbours, and is
/// itself fit to be handled by the drone that gets it.
pub proof fn law_sends_reach_neighbours(drone: DroneView, packet: PacketView, draw: u32, i: int)
    requires
        drone.wf(),
        packet.routable(),
        0 <= i < packet_actions(drone, packet, draw).len(),
        packet_actions(drone, packet, draw)[i] is Send,
    ensures
        drone.neighbours.contains(packet_actions(drone, packet, draw)[i]->to),
        packet_actions(drone, packet, draw)[i]->packet.routable(),
{
    let actions = packet_actions(drone, packet, draw);
    match packet.pack_type {
        PacketTypeView::FloodRequest(request) => {
            if !(drone.flood_ids.contains(request.flood_id) || drone.neighbours.len() == 1) {
                lemma_targets_are_chosen(
                    drone.neighbours,
                    previous_hop(request.path_trace),
                    request.initiator_id,
                    i,
                );
            }
        },
        _ => {},
    }
}

/// A packet that is forwarded leaves one hop further along an unchanged
/// path, with its session and what it carries unchanged, for the node that
/// its path names next. Every send that carries what came in is such a
/// forward.
pub proof fn law_forward_moves_one_hop(drone: DroneView, packet: PacketView, draw: u32, i: int)
    requires
        drone.wf(),
        packet.routable(),
        !(packet.pack_type is FloodRequest),
        0 <= i < packet_actions(drone, packet, draw).len(),
        packet_actions(drone, packet, draw)[i] is Send,
        packet_actions(drone, packet, draw)[i]->packet.pack_type == packet.pack_type,
    ensures
        first_failure(drone.id, drone.neighbours, packet.routing_header) is None,
        packet_actions(drone, packet, draw)[i]->packet == advanced(packet),
        packet_actions(drone, packet, draw)[i]->packet.routing_header.hop_index
            == packet.routing_header.hop_index + 1,
        packet_actions(drone, packet, draw)[i]->packet.routing_header.hops
            == packet.routing_header.hops,
        packet_actions(drone, packet, draw)[i]->packet.session_id == packet.session_id,
        packet_actions(drone, packet, draw)[i]->to == packet.routing_header.hops[
            packet.routing_header.hop_index + 1
        ],
{
}

/// A negative acknowledgement that a drone builds for a fragment travels
/// the path of the fragment, up to and with the position at which the
/// fragment stood, in reverse; it stands at position one of that path, goes
/// to the node at that position, and keeps the session and the index of the
/// fragment.
pub proof fn law_nack_returns_along_the_path(
    drone: DroneView,
    packet: PacketView,
    draw: u32,
    i: int,
)
    requires
        drone.wf(),
        packet.routable(),
        packet.pack_type is MsgFragment,
        0 <= i < packet_actions(drone, packet, draw).len(),
        packet_actions(drone, packet, draw)[i] is Send,
        packet_actions(drone, packet, draw)[i]->packet.pack_type is Nack,
    ensures
        ({
            let route = packet.routing_header;
            let prefix = route.hops.subrange(0, route.hop_index + 1);
            let reply = packet_actions(drone, packet, draw)[i]->packet;
            &&& prefix.is_prefix_of(route.hops)
            &&& reply.routing_header.hops == prefix.reverse()
            &&& reply.routing_header.hop_index == 1
            &&& reply.session_id == packet.session_id
            &&& reply.pack_type->Nack_0.fragment_index
                == packet.pack_type->MsgFragment_0.fragment_index
            &&& reply.routing_header.hops.len() > 1
            &&& packet_actions(drone, packet, draw)[i]->to == reply.routing_header.hops[1]
            &&& reply.routing_header.hops[1] == route.hops[route.hop_index - 1]
        }),
{
    let route = packet.routing_header;
    let prefix = route.hops.subrange(0, route.hop_index + 1);
    assert(prefix =~= route.hops.subrange(0, prefix.len() as int));
}

/// The kind of the negative acknowledgement that answers a fragment is the
/// first check that the fragment fails, or `Dropped` where it fails none and
/// the draw lies below the drop rate.
pub proof fn law_nack_names_the_failure(drone: DroneView, packet: PacketView, draw: u32, i: int)
    requires
        drone.wf(),
        packet.routable(),
        packet.pack_type is MsgFragment,
        0 <= i < packet_actions(drone, packet, draw).len(),
        packet_actions(drone, packet, draw)[i] is Send,
        packet_actions(drone, packet, draw)[i]->packet.pack_type is Nack,
    ensures
        ({
            let kind = packet_actions(drone, packet, draw)[i]->packet.pack_type->Nack_0.nack_type;
            match first_failure(drone.id, drone.neighbours, packet.routing_header) {
                Some(failure) => kind == failure,
                None => kind == NackType::Dropped && drops(drone.pdr, draw),
            }
        }),
{
}

/// Only a fragment is ever dropped, and only one that has passed every
/// check and whose draw lies below the drop rate.
pub proof fn law_only_fragments_are_dropped(drone: DroneView, packet: PacketView, draw: u32, i: int)
    requires
        drone.wf(),
        packet.routable(),
        0 <= i < packet_actions(drone, packet, draw).len(),
        packet_actions(drone, packet, draw)[i] matches ActionView::Notify(event)
            && event is PacketDropped,
    ensures
        packet.pack_type is MsgFragment,
        first_failure(drone.id, drone.neighbours, packet.routing_header) is None,
        drops(drone.pdr, draw),
        packet_actions(drone, packet, draw)[i] == ActionView::Notify(
            DroneEventView::PacketDropped(packet),
        ),
{
    match packet.pack_type {
        PacketTypeView::FloodRequest(request) => {
            lemma_flood_actions_are_sends(drone, request, packet.session_id, i);
        },
        _ => {},
    }
}

/// A drop rate of zero drops nothing, a drop rate of one drops every draw
/// below one, and a higher rate drops whatever a lower rate drops.
pub proof fn law_drop_rate_orders_the_drops(lower: u32, higher: u32, draw: u32)
    requires
        lower <= higher,
    ensures
        !drops(0, draw),
        draw < RATE_ONE ==> drops(RATE_ONE, draw),
        drops(lower, draw) ==> drops(higher, draw),
{
}

/// A flood request is met with orders to send and nothing else.
proof fn lemma_flood_actions_are_sends(
    drone: DroneView,
    request: FloodRequestView,
    session_id: u64,
    i: int,
)
    requires
        0 <= i < flood_actions(drone, request, session_id).len(),
    ensures
        flood_actions(drone, request, session_id)[i] is Send,
{
}

/// A request of a flood that the drone has seen is never passed on: at most
/// one packet leaves, and it is the response to the request.
pub proof fn law_seen_flood_is_answered(drone: DroneView, packet: PacketView, draw: u32)
    requires
        drone.wf(),
        drone.phase != Phase::Stopped,
        packet.pack_type matches PacketTypeView::FloodRequest(request)
            && drone.flood_ids.contains(request.flood_id),
    ensures
        ({
            let request = packet.pack_type->FloodRequest_0;
            let response = flood_response(extended(request, drone.id), packet.session_id);
            let actions = packet_actions(drone, packet, draw);
            &&& actions == sent_back(drone.neighbours, response)
            &&& actions.len() <= 1
            &&& forall|i: int|
                0 <= i < actions.len() ==> actions[i] == (ActionView::Send {
                    to: response.routing_header.hops[1],
                    packet: response,
                })
            &&& forall|i: int|
                0 <= i < actions.len() ==> !(actions[i] is Send
                    && actions[i]->packet.pack_type is FloodRequest)
            &&& (previous_hop(request.path_trace) matches Some(previous)
                && drone.neighbours.contains(previous)) ==> actions.len() == 1
        }),
{
    let request = packet.pack_type->FloodRequest_0;
    lemma_response_hops(request.path_trace, drone.id, request.initiator_id);
}

/// Any flood request leaves its flood seen, so that a second request of the
/// same flood, whenever it comes, is answered and not passed on.
pub proof fn law_flood_is_passed_on_once(
    drone: DroneView,
    first: PacketView,
    second: PacketView,
    draw: u32,
    i: int,
)
    requires
        drone.wf(),
        drone.phase != Phase::Stopped,
        first.pack_type is FloodRequest,
        second.pack_type is FloodRequest,
        first.pack_type->FloodRequest_0.flood_id == second.pack_type->FloodRequest_0.flood_id,
        0 <= i < packet_actions(after_packet(drone, first), second, draw).len(),
    ensures
        packet_actions(after_packet(drone, first), second, draw).len() == 1,
        packet_actions(after_packet(drone, first), second, draw)[i] is Send,
        packet_actions(after_packet(drone, first), second, draw)[i]->packet.pack_type
            is FloodResponse,
{
    law_seen_flood_is_answered(after_packet(drone, first), second, draw);
}

/// The path of a flood response, taken from a path trace that ends with the
/// drone that answers: it starts at that drone, and its second node, if the
/// trace had a node before the drone, is that node.
pub proof fn lemma_response_hops(
    trace: Seq<(NodeId, NodeType)>,
    id: NodeId,
    initiator_id: NodeId,
)
    ensures
        ({
            let hops = response_hops(trace.push((id, NodeType::Drone)), initiator_id);
            &&& hops.len() >= 1
            &&& hops[0] == id
            &&& trace.len() > 0 ==> hops.len() > 1 && hops[1] == trace.last().0
            &&& trace.len() == 0 ==> (hops.len() > 1 <==> id != initiator_id)
            &&& trace.len() == 0 && id != initiator_id ==> hops[1] == initiator_id
        }),
{
    let grown = trace.push((id, NodeType::Drone));
    let back = trace_ids(grown).reverse();
    assert(back.len() == trace.len() + 1);
    assert(back[0] == id);
    if trace.len() > 0 {
        assert(back[1] == grown[grown.len() - 2].0);
    }
}

/// The path of a flood response is the node ids of its path trace in
/// reverse, followed by the initiator where the trace does not start with
/// it; the response stands at position one, and where the request came with
/// a trace that was not empty it goes to the node that passed the request
/// on.
pub proof fn law_flood_response_reverses_the_trace(
    drone: DroneView,
    packet: PacketView,
    draw: u32,
    i: int,
)
    requires
        drone.wf(),
        packet.pack_type is FloodRequest,
        0 <= i < packet_actions(drone, packet, draw).len(),
        packet_actions(drone, packet, draw)[i] is Send,
        packet_actions(drone, packet, draw)[i]->packet.pack_type is FloodResponse,
    ensures
        ({
            let request = packet.pack_type->FloodRequest_0;
            let reply = packet_actions(drone, packet, draw)[i]->packet;
            let trace = reply.pack_type->FloodResponse_0.path_trace;
            let back = trace_ids(trace).reverse();
            &&& trace == request.path_trace.push((drone.id, NodeType::Drone))
            &&& reply.pack_type->FloodResponse_0.flood_id == request.flood_id
            &&& reply.session_id == packet.session_id
            &&& reply.routing_header.hop_index == 1
            &&& reply.routing_header.hops == if back.last() != request.initiator_id {
                back.push(request.initiator_id)
            } else {
                back
            }
            &&& reply.routing_header.hops[0] == drone.id
            &&& packet_actions(drone, packet, draw)[i]->to == reply.routing_header.hops[1]
            &&& request.path_trace.len() > 0 ==> packet_actions(drone, packet, draw)[i]->to
                == request.path_trace.last().0
        }),
{
    let request = packet.pack_type->FloodRequest_0;
    lemma_response_hops(request.path_trace, drone.id, request.initiator_id);
    if !(drone.flood_ids.contains(request.flood_id) || drone.neighbours.len() == 1) {
        assert(packet_actions(drone, packet, draw)[i]->packet.pack_type is FloodRequest);
    }
}

/// A flood request that is passed on goes to a neighbour that is neither
/// the node it came from nor the initiator of the flood; it carries the
/// path trace with this drone added, an empty route, and the session of the
/// request.
pub proof fn law_flood_spares_sender_and_initiator(
    drone: DroneView,
    packet: PacketView,
    draw: u32,
    i: int,
)
    requires
        drone.wf(),
        packet.pack_type is FloodRequest,
        0 <= i < packet_actions(drone, packet, draw).len(),
        packet_actions(drone, packet, draw)[i] is Send,
        packet_actions(drone, packet, draw)[i]->packet.pack_type is FloodRequest,
    ensures
        ({
            let request = packet.pack_type->FloodRequest_0;
            let to = packet_actions(drone, packet, draw)[i]->to;
            let copy = packet_actions(drone, packet, draw)[i]->packet;
            &&& to != request.initiator_id
            &&& previous_hop(request.path_trace) != Some(to)
            &&& drone.neighbours.contains(to)
            &&& !drone.flood_ids.contains(request.flood_id)
            &&& copy.pack_type->FloodRequest_0 == extended(request, drone.id)
            &&& copy.routing_header.hop_index == 1
            &&& copy.routing_header.hops == Seq::<NodeId>::empty()
            &&& copy.session_id == packet.session_id
        }),
{
    let request = packet.pack_type->FloodRequest_0;
    if !(drone.flood_ids.contains(request.flood_id) || drone.neighbours.len() == 1) {
        lemma_targets_are_chosen(
            drone.neighbours,
            previous_hop(request.path_trace),
            request.initiator_id,
            i,
        );
    }
}

/// An acknowledgement, a negative acknowledgement or a flood response never
/// makes a drone build a negative acknowledgement: either the packet itself
/// goes on, one hop further, or the controller is told of it, and nothing
/// else happens.
pub proof fn law_forward_only_packets_are_never_answered(
    drone: DroneView,
    packet: PacketView,
    draw: u32,
)
    requires
        drone.wf(),
        drone.phase != Phase::Stopped,
        packet.routable(),
        packet.pack_type is Ack || packet.pack_type is Nack || packet.pack_type is FloodResponse,
    ensures
        ({
            let actions = packet_actions(drone, packet, draw);
            let failure = first_failure(drone.id, drone.neighbours, packet.routing_header);
            &&& actions.len() == 1
            &&& failure is Some ==> actions[0] == ActionView::Notify(
                DroneEventView::ControllerShortcut(packet),
            )
            &&& failure is None ==> actions[0] == (ActionView::Send {
                to: packet.routing_header.hops[packet.routing_header.hop_index + 1],
                packet: advanced(packet),
            })
        }),
{
}

/// After a neighbour has been removed, a packet that names it as the next
/// hop fails the third check: a fragment is answered with
/// `ErrorInRouting` of that neighbour, which leaves for the node before the
/// drone where that node is a neighbour, and any other source-routed packet
/// is left to the controller.
pub proof fn law_removed_neighbour_is_no_route(
    drone: DroneView,
    n: NodeId,
    packet: PacketView,
    draw: u32,
)
    requires
        drone.wf(),
        drone.phase == Phase::Running,
        !(packet.pack_type is FloodRequest),
        packet.routing_header.in_bounds(),
        packet.routing_header.hops[packet.routing_header.hop_index] == drone.id,
        packet.routing_header.hop_index + 1 < packet.routing_header.hops.len(),
        packet.routing_header.hops[packet.routing_header.hop_index + 1] == n,
    ensures
        ({
            let later = after_command(drone, DroneCommand::RemoveSender(n));
            let actions = packet_actions(later, packet, draw);
            let route = packet.routing_header;
            &&& !later.neighbours.contains(n)
            &&& first_failure(later.id, later.neighbours, route) == Some(
                NackType::ErrorInRouting(n),
            )
            &&& packet.pack_type matches PacketTypeView::MsgFragment(fragment) ==> {
                let nack = nack_packet(
                    route,
                    NackType::ErrorInRouting(n),
                    packet.session_id,
                    fragment.fragment_index,
                );
                &&& actions == sent_back(later.neighbours, nack)
                &&& (route.hop_index >= 1 && later.neighbours.contains(
                    route.hops[route.hop_index - 1],
                )) ==> actions == seq![
                    ActionView::Send { to: route.hops[route.hop_index - 1], packet: nack },
                ]
            }
            &&& !(packet.pack_type is MsgFragment) ==> actions == seq![
                ActionView::Notify(DroneEventView::ControllerShortcut(packet)),
            ]
        }),
{
    lemma_remove_value(drone.neighbours, n);
    let route = packet.routing_header;
    if route.hop_index >= 1 {
        assert(return_hops(route)[1] == route.hops[route.hop_index - 1]);
    }
}

} // verus!
