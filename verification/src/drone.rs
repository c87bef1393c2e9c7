//! The state of one drone, and the commands of its controller.

use crate::packet::{DroneCommand, NodeId};
use crate::rate::{check_probability, clamp, clamped, drops, is_probability, RATE_ONE};
use std::collections::HashSet;
use vstd::prelude::*;

verus! {

/// Where a drone stands in its life.
#[derive(Debug, Clone, Copy, PartialEq, Eq)]
pub enum Phase {
    /// Commands and packets are served.
    Running,
    /// A crash was ordered: the packets already queued are still served,
    /// commands are not.
    Draining,
    /// Nothing is served any more.
    Stopped,
}

/// Mathematical view of a drone.
pub struct DroneView {
    pub id: NodeId,
    /// The neighbours, in the order in which they were added.
    pub neighbours: Seq<NodeId>,
    /// The drop rate, as a bit pattern.
    pub pdr: u32,
    /// The floods that have been seen.
    pub flood_ids: Set<u64>,
    pub phase: Phase,
}

impl DroneView {
    /// What holds of every drone: no neighbour is listed twice, the drone is
    /// not its own neighbour, and the drop rate is a probability.
    pub open spec fn wf(self) -> bool {
        &&& self.neighbours.no_duplicates()
        &&& !self.neighbours.contains(self.id)
        &&& self.pdr <= RATE_ONE
    }
}

/// `neighbours` after `n` was offered as a neighbour of drone `id`: the
/// drone itself is turned away, a known neighbour stays where it is, a new
/// one goes to the end.
pub open spec fn with_neighbour(neighbours: Seq<NodeId>, id: NodeId, n: NodeId) -> Seq<NodeId> {
    if n == id || neighbours.contains(n) {
        neighbours
    } else {
        neighbours.push(n)
    }
}

/// The neighbours of a new drone `id` that was given `offered`.
pub open spec fn initial_neighbours(id: NodeId, offered: Seq<NodeId>) -> Seq<NodeId> {
    offered.fold_left(Seq::empty(), |acc: Seq<NodeId>, n: NodeId| with_neighbour(acc, id, n))
}

/// The drone after a command. Only a running drone serves commands.
pub open spec fn after_command(drone: DroneView, command: DroneCommand) -> DroneView {
    if drone.phase != Phase::Running {
        drone
    } else {
        match command {
            DroneCommand::AddSender(n) => DroneView {
                neighbours: with_neighbour(drone.neighbours, drone.id, n),
                ..drone
            },
            DroneCommand::RemoveSender(n) => DroneView {
                neighbours: drone.neighbours.remove_value(n),
                ..drone
            },
            DroneCommand::SetPacketDropRate(bits) => if is_probability(bits) {
                DroneView { pdr: clamped(bits), ..drone }
            } else {
                drone
            },
            DroneCommand::Crash => DroneView { phase: Phase::Draining, ..drone },
        }
    }
}

/// Finds the first place of `n` in `list`.
fn position(list: &Vec<NodeId>, n: NodeId) -> (at: Option<usize>)
    ensures
        at matches Some(i) ==> i < list@.len() && list@[i as int] == n
            && list@.index_of_first(n) == Some(i as int),
        at is None ==> !list@.contains(n) && list@.index_of_first(n) is None,
        at.is_some() == list@.contains(n),
{
    let mut i: usize = 0;
    while i < list.len()
        invariant
            i <= list.len(),
            forall|j: int| 0 <= j < i ==> list@[j] != n,
        decreases list.len() - i,
    {
        if list[i] == n {
            proof {
                list@.index_of_first_ensures(n);
            }
            return Some(i);
        }
        i += 1;
    }
    proof {
        list@.index_of_first_ensures(n);
    }
    None
}

/// The protocol state of one drone.
pub struct GameOfDrones {
    pub(crate) id: NodeId,
    pub(crate) neighbours: Vec<NodeId>,
    pub(crate) pdr: u32,
    pub(crate) flood_ids: HashSet<u64>,
    pub(crate) phase: Phase,
}

impl View for GameOfDrones {
    type V = DroneView;

    open(crate) spec fn view(&self) -> DroneView {
        DroneView {
            id: self.id,
            neighbours: self.neighbours@,
            pdr: self.pdr,
            flood_ids: self.flood_ids@,
            phase: self.phase,
        }
    }
}

impl GameOfDrones {
    #[verifier::type_invariant]
    pub(crate) open(crate) spec fn inv(&self) -> bool {
        self@.wf()
    }

    /// A running drone `id` with the drop rate that `pdr` clamps to, that has
    /// seen no flood, with the nodes of `neighbours` as its neighbours.
    pub fn new(id: NodeId, neighbours: Vec<NodeId>, pdr: u32) -> (drone: Self)
        ensures
            drone@.wf(),
            drone@ == (DroneView {
                id,
                neighbours: initial_neighbours(id, neighbours@),
                pdr: clamped(pdr),
                flood_ids: Set::empty(),
                phase: Phase::Running,
            }),
    {
        let mut drone = GameOfDrones {
            id,
            neighbours: Vec::new(),
            pdr: clamp(pdr),
            flood_ids: HashSet::new(),
            phase: Phase::Running,
        };
        let mut i: usize = 0;
        while i < neighbours.len()
            invariant
                i <= neighbours.len(),
                drone@ == (DroneView {
                    id,
                    neighbours: initial_neighbours(id, neighbours@.take(i as int)),
                    pdr: clamped(pdr),
                    flood_ids: Set::empty(),
                    phase: Phase::Running,
                }),
            decreases neighbours.len() - i,
        {
            drone.add_sender(neighbours[i]);
            proof {
                let step = |acc: Seq<NodeId>, n: NodeId| with_neighbour(acc, id, n);
                let next = neighbours@.take(i + 1);
                assert(next.drop_last() == neighbours@.take(i as int));
                assert(next.last() == neighbours@[i as int]);
            }
            i += 1;
        }
        proof {
            assert(neighbours@.take(neighbours.len() as int) == neighbours@);
            use_type_invariant(&drone);
        }
        drone
    }

    /// Whether `n` is a neighbour.
    pub fn is_neighbour(&self, n: NodeId) -> (found: bool)
        ensures
            found == self@.neighbours.contains(n),
            self@.wf(),
    {
        proof {
            use_type_invariant(self);
        }
        position(&self.neighbours, n).is_some()
    }

    /// Takes `n` as a neighbour, unless it is the drone itself. Says whether
    /// `n` is a neighbour afterwards.
    pub fn add_sender(&mut self, n: NodeId) -> (accepted: bool)
        ensures
            final(self)@ == (DroneView {
                neighbours: with_neighbour(old(self)@.neighbours, old(self)@.id, n),
                ..old(self)@
            }),
            final(self)@.wf(),
            accepted == (n != old(self)@.id),
            accepted == final(self)@.neighbours.contains(n),
    {
        proof {
            use_type_invariant(&*self);
        }
        if n == self.id {
            return false;
        }
        if !self.is_neighbour(n) {
            let mut list: Vec<NodeId> = Vec::new();
            std::mem::swap(&mut self.neighbours, &mut list);
            list.push(n);
            assert(list@.last() == n);
            self.neighbours = list;
        }
        true
    }

    /// Forgets neighbour `n`; nothing changes where `n` is none.
    pub fn remove_sender(&mut self, n: NodeId)
        ensures
            final(self)@ == (DroneView {
                neighbours: old(self)@.neighbours.remove_value(n),
                ..old(self)@
            }),
            final(self)@.wf(),
            !final(self)@.neighbours.contains(n),
    {
        proof {
            use_type_invariant(&*self);
        }
        let ghost before = self.neighbours@;
        match position(&self.neighbours, n) {
            Some(i) => {
                let mut list: Vec<NodeId> = Vec::new();
                std::mem::swap(&mut self.neighbours, &mut list);
                list.remove(i);
                proof {
                    let at = i as int;
                    assert(before.remove_value(n) == before.remove(at));
                    assert forall|a: int, b: int|
                        0 <= a < list@.len() && 0 <= b < list@.len() && a != b implies list@[a]
                        != list@[b] by {
                        let a0 = if a < at { a } else { a + 1 };
                        let b0 = if b < at { b } else { b + 1 };
                        assert(list@[a] == before[a0] && list@[b] == before[b0]);
                    }
                    assert forall|a: int| 0 <= a < list@.len() implies list@[a] != n
                        && list@[a] != self.id by {
                        let a0 = if a < at { a } else { a + 1 };
                        assert(list@[a] == before[a0]);
                        assert(before[at] == n && a0 != at);
                        assert(before.contains(before[a0]));
                    }
                }
                self.neighbours = list;
            },
            None => {},
        }
    }

    /// Sets the drop rate to `bits` where that is a probability, and leaves
    /// it as it is where not. Says whether the rate was taken.
    pub fn set_pdr(&mut self, bits: u32) -> (accepted: bool)
        ensures
            accepted == is_probability(bits),
            final(self)@ == (DroneView {
                pdr: if accepted {
                    clamped(bits)
                } else {
                    old(self)@.pdr
                },
                ..old(self)@
            }),
            final(self)@.wf(),
    {
        proof {
            use_type_invariant(&*self);
        }
        if check_probability(bits) {
            self.pdr = clamp(bits);
            true
        } else {
            false
        }
    }

    /// Begins the crash: from now on only queued packets are served.
    pub fn crash_handle(&mut self)
        ensures
            final(self)@ == (DroneView { phase: Phase::Draining, ..old(self)@ }),
            final(self)@.wf(),
    {
        proof {
            use_type_invariant(&*self);
        }
        self.phase = Phase::Draining;
    }

    /// Ends the crash once the queue of packets has been found empty: a
    /// draining drone stops, any other stays as it is.
    pub fn finish_drain(&mut self)
        ensures
            final(self)@ == (DroneView {
                phase: if old(self)@.phase == Phase::Draining {
                    Phase::Stopped
                } else {
                    old(self)@.phase
                },
                ..old(self)@
            }),
            final(self)@.wf(),
    {
        proof {
            use_type_invariant(&*self);
        }
        match self.phase {
            Phase::Draining => {
                self.phase = Phase::Stopped;
            },
            _ => {},
        }
    }

    /// Serves one command of the controller.
    pub fn handle_command(&mut self, command: DroneCommand)
        ensures
            final(self)@ == after_command(old(self)@, command),
            final(self)@.wf(),
    {
        proof {
            use_type_invariant(&*self);
        }
        match self.phase {
            Phase::Running => match command {
                DroneCommand::AddSender(n) => {
                    self.add_sender(n);
                },
                DroneCommand::RemoveSender(n) => {
                    self.remove_sender(n);
                },
                DroneCommand::SetPacketDropRate(bits) => {
                    self.set_pdr(bits);
                },
                DroneCommand::Crash => {
                    self.crash_handle();
                },
            },
            _ => {},
        }
    }

    /// Decides whether a fragment is dropped, given the draw made for it.
    pub fn drop_check(&self, draw: u32) -> (dropped: bool)
        ensures
            dropped == drops(self@.pdr, draw),
    {
        draw < self.pdr
    }

    /// The id of this drone.
    pub fn id(&self) -> (id: NodeId)
        ensures
            id == self@.id,
            self@.wf(),
    {
        proof {
            use_type_invariant(self);
        }
        self.id
    }

    /// The drop rate, as a bit pattern.
    pub fn pdr(&self) -> (pdr: u32)
        ensures
            pdr == self@.pdr,
            pdr <= RATE_ONE,
            self@.wf(),
    {
        proof {
            use_type_invariant(self);
        }
        self.pdr
    }

    /// Where the drone stands in its life.
    pub fn phase(&self) -> (phase: Phase)
        ensures
            phase == self@.phase,
            self@.wf(),
    {
        proof {
            use_type_invariant(self);
        }
        self.phase
    }

    /// The neighbours, in the order in which they were added.
    pub fn get_neighbours_id(&self) -> (ids: Vec<NodeId>)
        ensures
            ids@ == self@.neighbours,
            self@.wf(),
    {
        proof {
            use_type_invariant(self);
        }
        self.neighbours.clone()
    }

    /// Whether flood `flood_id` has been seen.
    pub fn has_seen(&self, flood_id: u64) -> (seen: bool)
        ensures
            seen == self@.flood_ids.contains(flood_id),
            self@.wf(),
    {
        proof {
            use_type_invariant(self);
        }
        self.flood_ids.contains(&flood_id)
    }
}

} // verus!
