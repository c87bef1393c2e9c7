//! What a drone asks the layer that owns its channels to do.

use crate::packet::{DroneEvent, DroneEventView, NodeId, Packet, PacketView};
use vstd::prelude::*;

verus! {

/// One thing to do for the drone, in the order in which the drone gives them.
#[derive(Debug, PartialEq, Eq)]
pub enum Action {
    /// Hand `packet` to the link of neighbour `to`.
    Send { to: NodeId, packet: Packet },
    /// Pass an event to the controller.
    Notify(DroneEvent),
}

/// Mathematical view of an [`Action`].
pub enum ActionView {
    Send { to: NodeId, packet: PacketView },
    Notify(DroneEventView),
}

impl View for Action {
    type V = ActionView;

    open spec fn view(&self) -> ActionView {
        match self {
            Action::Send { to, packet } => ActionView::Send { to: *to, packet: packet@ },
            Action::Notify(event) => ActionView::Notify(event@),
        }
    }
}

impl DeepView for Action {
    type V = ActionView;

    open spec fn deep_view(&self) -> ActionView {
        self@
    }
}

/// The event that is owed to the controller once an action has been tried:
/// a send that reached its link is mirrored as `PacketSent`, anything else
/// calls for nothing more.
pub open spec fn sent_report(action: ActionView, delivered: bool) -> Option<DroneEventView> {
    match action {
        ActionView::Send { to, packet } => if delivered {
            Some(DroneEventView::PacketSent(packet))
        } else {
            None
        },
        ActionView::Notify(_) => None,
    }
}

impl Clone for Action {
    fn clone(&self) -> (copy: Self)
        ensures
            copy@ == self@,
    {
        match self {
            Action::Send { to, packet } => Action::Send { to: *to, packet: packet.clone() },
            Action::Notify(event) => Action::Notify(event.clone()),
        }
    }
}

impl Action {
    /// Says what to tell the controller after this action was tried;
    /// `delivered` is whether the link took the packet.
    pub fn report(&self, delivered: bool) -> (event: Option<DroneEvent>)
        ensures
            event.is_some() == sent_report(self@, delivered).is_some(),
            event.is_some() ==> event.unwrap()@ == sent_report(self@, delivered).unwrap(),
    {
        match self {
            Action::Send { to, packet } => if delivered {
                Some(DroneEvent::PacketSent(packet.clone()))
            } else {
                None
            },
            Action::Notify(_) => None,
        }
    }
}

} // verus!
