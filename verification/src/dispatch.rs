//! The dispatch of an incoming packet by its kind.

use crate::action::{Action, ActionView};
use crate::drone::{DroneView, GameOfDrones, Phase};
use crate::flood::{after_flood, flood_actions};
use crate::packet::{Packet, PacketType, PacketTypeView, PacketView};
use crate::routing::{forward_only_actions, fragment_actions, no_action};
use vstd::prelude::*;

verus! {

/// What a drone does with a packet, given the draw made for it. A flood
/// request goes the way of floods, a fragment is held against the drop rate,
/// anything else is only forwarded. A drone that has stopped does nothing.
pub open spec fn packet_actions(drone: DroneView, packet: PacketView, draw: u32) -> Seq<
    ActionView,
>
    recommends
        packet.routable(),
{
    if drone.phase == Phase::Stopped {
        Seq::empty()
    } else {
        match packet.pack_type {
            PacketTypeView::FloodRequest(request) => flood_actions(
                drone,
                request,
                packet.session_id,
            ),
            PacketTypeView::MsgFragment(fragment) => fragment_actions(
                drone,
                packet,
                fragment.fragment_index,
                draw,
            ),
            _ => forward_only_actions(drone, packet),
        }
    }
}

/// The drone after a packet. Only a flood request leaves a mark.
pub open spec fn after_packet(drone: DroneView, packet: PacketView) -> DroneView {
    if drone.phase == Phase::Stopped {
        drone
    } else {
        match packet.pack_type {
            PacketTypeView::FloodRequest(request) => after_flood(drone, request),
            _ => drone,
        }
    }
}

impl GameOfDrones {
    /// Handles one incoming packet and says what is to be done for it.
    /// `draw` is the draw for this packet, which decides the drop of a
    /// fragment.
    pub fn forward_packet(&mut self, packet: Packet, draw: u32) -> (actions: Vec<Action>)
        requires
            packet@.routable(),
        ensures
            final(self)@ == after_packet(old(self)@, packet@),
            final(self)@.wf(),
            actions.deep_view() == packet_actions(old(self)@, packet@, draw),
    {
        proof {
            use_type_invariant(&*self);
        }
        match self.phase {
            Phase::Stopped => no_action(),
            _ => match &packet.pack_type {
                PacketType::FloodRequest(request) => self.flood_request_handle(
                    request,
                    packet.session_id,
                ),
                PacketType::MsgFragment(fragment) => self.fragment_handle(
                    &packet,
                    fragment.fragment_index,
                    draw,
                ),
                _ => self.nfa_handle(&packet),
            },
        }
    }
}

} // verus!
