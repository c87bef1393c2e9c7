//! Network discovery: a flood request is passed on to the neighbours it has
//! not come from, or answered along the way it came.

use crate::action::{Action, ActionView};
use crate::drone::{DroneView, GameOfDrones};
use crate::packet::{
    clone_trace, FloodRequest, FloodRequestView, FloodResponse, FloodResponseView, NodeId,
    NodeType, Packet, PacketType, PacketTypeView, PacketView, RouteView, SourceRoutingHeader,
};
use crate::routing::{no_action, push_action, sent_back};
use std::collections::HashSet;
use vstd::prelude::*;

verus! {

/// The node ids of a path trace, in order.
pub open spec fn trace_ids(trace: Seq<(NodeId, NodeType)>) -> Seq<NodeId> {
    trace.map_values(|entry: (NodeId, NodeType)| entry.0)
}

/// `request` with drone `id` added to the end of its path trace.
pub open spec fn extended(request: FloodRequestView, id: NodeId) -> FloodRequestView {
    FloodRequestView { path_trace: request.path_trace.push((id, NodeType::Drone)), ..request }
}

/// The node that a request with path trace `trace` has come from: the last
/// node of the trace, if it has one.
pub open spec fn previous_hop(trace: Seq<(NodeId, NodeType)>) -> Option<NodeId> {
    if trace.len() > 0 {
        Some(trace.last().0)
    } else {
        None
    }
}

/// The path of the response to a flood with path trace `trace`: the nodes of
/// the trace from the last to the first, and then the initiator where the
/// trace did not start with it.
pub open spec fn response_hops(trace: Seq<(NodeId, NodeType)>, initiator_id: NodeId) -> Seq<
    NodeId,
> {
    let back = trace_ids(trace).reverse();
    if back.len() > 0 && back.last() != initiator_id {
        back.push(initiator_id)
    } else {
        back
    }
}

/// The response to `request`, whose path trace already ends with the drone
/// that answers.
pub open spec fn flood_response(request: FloodRequestView, session_id: u64) -> PacketView {
    PacketView {
        pack_type: PacketTypeView::FloodResponse(
            FloodResponseView { flood_id: request.flood_id, path_trace: request.path_trace },
        ),
        routing_header: RouteView {
            hop_index: 1,
            hops: response_hops(request.path_trace, request.initiator_id),
        },
        session_id,
    }
}

/// The packet in which `request` travels on. A flood request carries no
/// route.
pub open spec fn flood_copy(request: FloodRequestView, session_id: u64) -> PacketView {
    PacketView {
        pack_type: PacketTypeView::FloodRequest(request),
        routing_header: RouteView { hop_index: 1, hops: Seq::empty() },
        session_id,
    }
}

/// Whether a request that came from `previous` and was started by
/// `initiator_id` is passed on to neighbour `n`.
pub open spec fn is_flood_target(n: NodeId, previous: Option<NodeId>, initiator_id: NodeId) -> bool {
    previous != Some(n) && n != initiator_id
}

/// The neighbours that a request is passed on to, in the order of
/// `neighbours`.
pub open spec fn flood_targets(
    neighbours: Seq<NodeId>,
    previous: Option<NodeId>,
    initiator_id: NodeId,
) -> Seq<NodeId> {
    neighbours.filter(|n: NodeId| is_flood_target(n, previous, initiator_id))
}

/// The orders to send `packet` to each of `targets`.
pub open spec fn sends_to_each(targets: Seq<NodeId>, packet: PacketView) -> Seq<ActionView> {
    targets.map_values(|n: NodeId| ActionView::Send { to: n, packet })
}

/// What a drone does with a flood request. A request of a flood that was
/// seen before, and any request at a drone with a single neighbour, is
/// answered; any other is passed on.
pub open spec fn flood_actions(drone: DroneView, request: FloodRequestView, session_id: u64) -> Seq<
    ActionView,
> {
    let grown = extended(request, drone.id);
    if drone.flood_ids.contains(request.flood_id) || drone.neighbours.len() == 1 {
        sent_back(drone.neighbours, flood_response(grown, session_id))
    } else {
        sends_to_each(
            flood_targets(
                drone.neighbours,
                previous_hop(request.path_trace),
                request.initiator_id,
            ),
            flood_copy(grown, session_id),
        )
    }
}

/// The drone after a flood request: the flood has been seen.
pub open spec fn after_flood(drone: DroneView, request: FloodRequestView) -> DroneView {
    DroneView { flood_ids: drone.flood_ids.insert(request.flood_id), ..drone }
}

/// Every target is a neighbour that the request has not come from and that
/// has not started the flood.
pub proof fn lemma_targets_are_chosen(
    neighbours: Seq<NodeId>,
    previous: Option<NodeId>,
    initiator_id: NodeId,
    i: int,
)
    requires
        0 <= i < flood_targets(neighbours, previous, initiator_id).len(),
    ensures
        neighbours.contains(flood_targets(neighbours, previous, initiator_id)[i]),
        is_flood_target(
            flood_targets(neighbours, previous, initiator_id)[i],
            previous,
            initiator_id,
        ),
{
    let pred = |n: NodeId| is_flood_target(n, previous, initiator_id);
    let targets = neighbours.filter(pred);
    assert(targets.contains(targets[i]));
    neighbours.lemma_filter_contains_rev(pred, targets[i]);
    neighbours.lemma_filter_pred(pred, i);
}

/// One more neighbour is looked at: it joins the targets or it does not.
proof fn lemma_targets_step(
    neighbours: Seq<NodeId>,
    i: int,
    previous: Option<NodeId>,
    initiator_id: NodeId,
    packet: PacketView,
)
    requires
        0 <= i < neighbours.len(),
    ensures
        sends_to_each(flood_targets(neighbours.take(i + 1), previous, initiator_id), packet) == if
            is_flood_target(neighbours[i], previous, initiator_id) {
            sends_to_each(flood_targets(neighbours.take(i), previous, initiator_id), packet).push(
                ActionView::Send { to: neighbours[i], packet },
            )
        } else {
            sends_to_each(flood_targets(neighbours.take(i), previous, initiator_id), packet)
        },
{
    let pred = |n: NodeId| is_flood_target(n, previous, initiator_id);
    let before = neighbours.take(i);
    assert(neighbours.take(i + 1) == before.push(neighbours[i]));
    Seq::lemma_filter_push(before, neighbours[i], pred);
    if is_flood_target(neighbours[i], previous, initiator_id) {
        assert(sends_to_each(before.filter(pred).push(neighbours[i]), packet) =~= sends_to_each(
            before.filter(pred),
            packet,
        ).push(ActionView::Send { to: neighbours[i], packet }));
    }
}

/// The node ids of `trace` from the last to the first.
fn reversed_ids(trace: &Vec<(NodeId, NodeType)>) -> (ids: Vec<NodeId>)
    ensures
        ids@ == trace_ids(trace@).reverse(),
{
    let mut ids: Vec<NodeId> = Vec::new();
    let mut left: usize = trace.len();
    while left > 0
        invariant
            left <= trace.len(),
            ids@.len() == trace.len() - left,
            forall|j: int| 0 <= j < ids@.len() ==> ids@[j] == trace@[trace.len() - 1 - j].0,
        decreases left,
    {
        left -= 1;
        ids.push(trace[left].0);
    }
    assert(ids@ =~= trace_ids(trace@).reverse());
    ids
}

impl GameOfDrones {
    /// Builds the response to `request`, whose path trace already ends with
    /// this drone, and orders it to be sent back.
    pub fn create_flood_response_n_send(&self, request: FloodRequest, session_id: u64) -> (actions:
        Vec<Action>)
        ensures
            actions.deep_view() == sent_back(self@.neighbours, flood_response(request@, session_id)),
    {
        let mut hops = reversed_ids(&request.path_trace);
        let len = hops.len();
        if len > 0 && hops[len - 1] != request.initiator_id {
            hops.push(request.initiator_id);
        }
        let packet = Packet {
            pack_type: PacketType::FloodResponse(
                FloodResponse { flood_id: request.flood_id, path_trace: request.path_trace },
            ),
            routing_header: SourceRoutingHeader { hop_index: 1, hops },
            session_id,
        };
        self.send_back(packet)
    }

    /// Handles a flood request: the flood is noted as seen, the drone joins
    /// the path trace, and the request is answered or passed on.
    pub fn flood_request_handle(&mut self, request: &FloodRequest, session_id: u64) -> (actions:
        Vec<Action>)
        ensures
            final(self)@ == after_flood(old(self)@, request@),
            final(self)@.wf(),
            actions.deep_view() == flood_actions(old(self)@, request@, session_id),
    {
        proof {
            use_type_invariant(&*self);
        }
        let seen = self.flood_ids.contains(&request.flood_id);
        let mut flood_ids: HashSet<u64> = HashSet::new();
        std::mem::swap(&mut self.flood_ids, &mut flood_ids);
        flood_ids.insert(request.flood_id);
        self.flood_ids = flood_ids;

        let trace_len = request.path_trace.len();
        let previous: Option<NodeId> = if trace_len > 0 {
            Some(request.path_trace[trace_len - 1].0)
        } else {
            None
        };
        let mut path_trace = clone_trace(&request.path_trace);
        path_trace.push((self.id, NodeType::Drone));
        let grown = FloodRequest {
            flood_id: request.flood_id,
            initiator_id: request.initiator_id,
            path_trace,
        };
        assert(grown@ == extended(request@, self.id));

        if seen || self.neighbours.len() == 1 {
            self.create_flood_response_n_send(grown, session_id)
        } else {
            let ghost copy = flood_copy(grown@, session_id);
            let mut actions = no_action();
            let mut i: usize = 0;
            assert(self.neighbours@.take(0).filter(
                |n: NodeId| is_flood_target(n, previous, request.initiator_id),
            ) =~= Seq::<NodeId>::empty());
            while i < self.neighbours.len()
                invariant
                    i <= self.neighbours.len(),
                    copy == flood_copy(grown@, session_id),
                    actions.deep_view() == sends_to_each(
                        flood_targets(
                            self.neighbours@.take(i as int),
                            previous,
                            request.initiator_id,
                        ),
                        copy,
                    ),
                decreases self.neighbours.len() - i,
            {
                let n = self.neighbours[i];
                let from_there = match previous {
                    Some(p) => p == n,
                    None => false,
                };
                proof {
                    lemma_targets_step(
                        self.neighbours@,
                        i as int,
                        previous,
                        request.initiator_id,
                        copy,
                    );
                }
                if !from_there && n != request.initiator_id {
                    let packet = Packet {
                        pack_type: PacketType::FloodRequest(grown.clone()),
                        routing_header: SourceRoutingHeader { hop_index: 1, hops: Vec::new() },
                        session_id,
                    };
                    push_action(&mut actions, Action::Send { to: n, packet });
                }
                i += 1;
            }
            assert(self.neighbours@.take(self.neighbours.len() as int) == self.neighbours@);
            actions
        }
    }
}

} // verus!
