use game_of_drones::action::Action;
use game_of_drones::drone::GameOfDrones;
use game_of_drones::packet::{
    Ack, DroneEvent, Fragment, Nack, NackType, NodeId, Packet, PacketType, SourceRoutingHeader,
};
use game_of_drones::rate::RATE_ONE;

fn fragment(hops: Vec<NodeId>, hop_index: usize) -> Packet {
    Packet {
        pack_type: PacketType::MsgFragment(Fragment {
            fragment_index: 1,
            total_n_fragments: 1,
            length: 128,
            data: [1; 128],
        }),
        routing_header: SourceRoutingHeader { hop_index, hops },
        session_id: 1,
    }
}

fn nack(hops: Vec<NodeId>, hop_index: usize, nack_type: NackType) -> Packet {
    Packet {
        pack_type: PacketType::Nack(Nack { fragment_index: 1, nack_type }),
        routing_header: SourceRoutingHeader { hop_index, hops },
        session_id: 1,
    }
}

fn only_send(actions: &[Action]) -> (NodeId, Packet) {
    assert_eq!(actions.len(), 1);
    match &actions[0] {
        Action::Send { to, packet } => (*to, packet.clone()),
        other => panic!("expected a send, got {:?}", other),
    }
}

/// A draw in the middle of the unit interval.
fn half() -> u32 {
    0.5f32.to_bits()
}

// A fragment for a drone that never drops reaches the next drone one hop
// further.
#[test]
fn test_1() {
    let mut drone = GameOfDrones::new(11, vec![12], 0.0f32.to_bits());
    let mut msg = fragment(vec![1, 11, 12, 21], 1);
    let actions = drone.forward_packet(msg.clone(), half());
    msg.routing_header.hop_index = 2;
    assert_eq!(only_send(&actions), (12, msg));
}

// A fragment for a drone that always drops comes back to the client as a
// negative acknowledgement.
#[test]
fn test_2() {
    let mut drone = GameOfDrones::new(11, vec![12, 1], 1.0f32.to_bits());
    let msg = fragment(vec![1, 11, 12, 21], 1);
    let actions = drone.forward_packet(msg.clone(), half());
    assert_eq!(actions.len(), 2);
    assert_eq!(actions[0], Action::Notify(DroneEvent::PacketDropped(msg)));
    assert_eq!(
        actions[1],
        Action::Send { to: 1, packet: nack(vec![11, 1], 1, NackType::Dropped) }
    );
}

// Two drones in a row, the second of which always drops: the negative
// acknowledgement travels back through the first to the client.
#[test]
fn test_3() {
    let mut first = GameOfDrones::new(11, vec![12, 1], 0.0f32.to_bits());
    let mut second = GameOfDrones::new(12, vec![11, 21], 1.0f32.to_bits());
    let msg = fragment(vec![1, 11, 12, 21], 1);

    let (to, at_second) = only_send(&first.forward_packet(msg, half()));
    assert_eq!(to, 12);
    let actions = second.forward_packet(at_second, half());
    assert_eq!(actions.len(), 2);
    let (to, back) = only_send(&actions[1..]);
    assert_eq!(to, 11);
    assert_eq!(back, nack(vec![12, 11, 1], 1, NackType::Dropped));

    let (to, at_client) = only_send(&first.forward_packet(back, half()));
    assert_eq!(to, 1);
    assert_eq!(at_client, nack(vec![12, 11, 1], 2, NackType::Dropped));
}

// Two drones in a row that never drop: the fragment reaches the server, and
// the acknowledgement of the server reaches the client.
#[test]
fn test_4() {
    let mut first = GameOfDrones::new(11, vec![12, 1], 0.0f32.to_bits());
    let mut second = GameOfDrones::new(12, vec![11, 21], 0.0f32.to_bits());
    let mut msg = fragment(vec![1, 11, 12, 21], 1);

    let (to, at_second) = only_send(&first.forward_packet(msg.clone(), half()));
    assert_eq!(to, 12);
    let (to, at_server) = only_send(&second.forward_packet(at_second, half()));
    assert_eq!(to, 21);
    msg.routing_header.hop_index = 3;
    assert_eq!(at_server, msg);

    let ack = Packet {
        pack_type: PacketType::Ack(Ack { fragment_index: 1 }),
        routing_header: SourceRoutingHeader { hop_index: 1, hops: vec![21, 12, 11, 1] },
        session_id: 1,
    };
    let (to, at_first) = only_send(&second.forward_packet(ack.clone(), half()));
    assert_eq!(to, 11);
    let (to, at_client) = only_send(&first.forward_packet(at_first, half()));
    assert_eq!(to, 1);
    let mut expected = ack;
    expected.routing_header.hop_index = 3;
    assert_eq!(at_client, expected);
}

#[test]
fn simple_forward() {
    let mut drone = GameOfDrones::new(2, vec![1, 3], 0);
    let packet = fragment(vec![1, 2, 3], 1);
    let actions = drone.forward_packet(packet.clone(), half());
    let (to, sent) = only_send(&actions);
    assert_eq!(to, 3);
    assert_eq!(sent, fragment(vec![1, 2, 3], 2));
    assert_eq!(actions[0].report(true), Some(DroneEvent::PacketSent(sent)));
}

#[test]
fn dropped_fragment() {
    let mut drone = GameOfDrones::new(2, vec![1, 3], RATE_ONE);
    let mut packet = fragment(vec![1, 2, 3], 1);
    packet.session_id = 77;
    let actions = drone.forward_packet(packet.clone(), half());
    let mut reply = nack(vec![2, 1], 1, NackType::Dropped);
    reply.session_id = 77;
    assert_eq!(
        actions,
        vec![
            Action::Notify(DroneEvent::PacketDropped(packet)),
            Action::Send { to: 1, packet: reply.clone() },
        ]
    );
    assert_eq!(actions[0].report(true), None);
    assert_eq!(actions[1].report(true), Some(DroneEvent::PacketSent(reply)));
}

#[test]
fn unexpected_recipient() {
    let mut drone = GameOfDrones::new(2, vec![1, 3], 0);
    let actions = drone.forward_packet(fragment(vec![1, 9, 3], 1), half());
    assert_eq!(
        only_send(&actions),
        (1, nack(vec![9, 1], 1, NackType::UnexpectedRecipient(2)))
    );
}

#[test]
fn error_in_routing() {
    let mut drone = GameOfDrones::new(2, vec![1], 0);
    let actions = drone.forward_packet(fragment(vec![1, 2, 3], 1), half());
    assert_eq!(only_send(&actions), (1, nack(vec![2, 1], 1, NackType::ErrorInRouting(3))));
}

#[test]
fn destination_is_drone() {
    let mut drone = GameOfDrones::new(2, vec![1, 3], 0);
    let actions = drone.forward_packet(fragment(vec![1, 3, 2], 2), half());
    assert_eq!(only_send(&actions), (3, nack(vec![2, 3, 1], 1, NackType::DestinationIsDrone)));
}

#[test]
fn the_checks_run_in_order() {
    let drone = GameOfDrones::new(2, vec![1], 0);
    // Wrong recipient and last hop and unknown next hop: the recipient is named.
    assert_eq!(
        drone.validate(&fragment(vec![1, 9], 1)),
        Some(NackType::UnexpectedRecipient(2))
    );
    // Last hop: the drone is no destination.
    assert_eq!(drone.validate(&fragment(vec![1, 2], 1)), Some(NackType::DestinationIsDrone));
    assert_eq!(drone.validate(&fragment(vec![1, 2, 7], 1)), Some(NackType::ErrorInRouting(7)));
    assert_eq!(drone.validate(&fragment(vec![3, 2, 1], 1)), None);

    assert!(drone.check_unexpected_recipient(&fragment(vec![1, 2, 7], 1)));
    assert!(!drone.check_unexpected_recipient(&fragment(vec![1, 9, 7], 1)));
    assert!(drone.check_destination_is_drone(&fragment(vec![1, 2, 7], 1)));
    assert!(!drone.check_destination_is_drone(&fragment(vec![1, 2], 1)));
    assert!(drone.check_error_in_routing(&fragment(vec![3, 2, 1], 1)));
    assert!(!drone.check_error_in_routing(&fragment(vec![1, 2, 7], 1)));
}

#[test]
fn the_draw_is_held_against_the_rate() {
    let rate = 0.25f32.to_bits();
    let mut drone = GameOfDrones::new(2, vec![1, 3], rate);
    assert!(drone.drop_check(0.2f32.to_bits()));
    assert!(!drone.drop_check(0.25f32.to_bits()));
    assert!(!drone.drop_check(0.3f32.to_bits()));

    let below = drone.forward_packet(fragment(vec![1, 2, 3], 1), 0.2f32.to_bits());
    assert_eq!(below.len(), 2);
    let above = drone.forward_packet(fragment(vec![1, 2, 3], 1), 0.3f32.to_bits());
    assert_eq!(only_send(&above).0, 3);
}

#[test]
fn patterns_order_as_their_numbers_do() {
    let samples = [0.0f32, 1.0e-30, 0.01, 0.2, 0.25, 0.5, 0.75, 0.999_999, 1.0];
    for a in samples {
        for b in samples {
            assert_eq!(a < b, a.to_bits() < b.to_bits());
        }
    }
}

#[test]
fn a_failed_check_comes_before_the_drop() {
    let mut drone = GameOfDrones::new(2, vec![1], RATE_ONE);
    let actions = drone.forward_packet(fragment(vec![1, 2, 3], 1), half());
    assert_eq!(only_send(&actions), (1, nack(vec![2, 1], 1, NackType::ErrorInRouting(3))));
}

#[test]
fn a_nack_without_a_way_back_is_not_sent() {
    // The packet stands at the start of its path: the way back has one node.
    let mut drone = GameOfDrones::new(2, vec![1, 3], 0);
    assert_eq!(drone.forward_packet(fragment(vec![9, 3], 0), half()), vec![]);
    // The node before the drone is no neighbour.
    assert_eq!(drone.forward_packet(fragment(vec![7, 2, 8], 1), half()), vec![]);
    // A dropped fragment is still reported to the controller.
    let mut dropper = GameOfDrones::new(2, vec![3], RATE_ONE);
    let packet = fragment(vec![7, 2, 3], 1);
    assert_eq!(
        dropper.forward_packet(packet.clone(), half()),
        vec![Action::Notify(DroneEvent::PacketDropped(packet))]
    );
}

#[test]
fn create_nack_keeps_session_and_fragment_index() {
    let drone = GameOfDrones::new(5, vec![4], 0);
    let actions = drone.create_nack_n_send(&vec![1, 4, 5, 6, 7], 2, NackType::Dropped, 900, 33);
    let expected = Packet {
        pack_type: PacketType::Nack(Nack { fragment_index: 33, nack_type: NackType::Dropped }),
        routing_header: SourceRoutingHeader { hop_index: 1, hops: vec![5, 4, 1] },
        session_id: 900,
    };
    assert_eq!(actions, vec![Action::Send { to: 4, packet: expected }]);
}

#[test]
fn forwarding_changes_the_position_only() {
    let mut drone = GameOfDrones::new(3, vec![2, 4], 0);
    let mut packet = fragment(vec![1, 2, 3, 4, 5], 2);
    packet.session_id = 4242;
    let (to, sent) = only_send(&drone.forward_packet(packet.clone(), half()));
    assert_eq!(to, 4);
    assert_eq!(sent.routing_header.hop_index, 3);
    assert_eq!(sent.routing_header.hops, packet.routing_header.hops);
    assert_eq!(sent.session_id, 4242);
    assert_eq!(sent.pack_type, packet.pack_type);
}

#[test]
fn forward_only_packets_are_left_to_the_controller() {
    let mut drone = GameOfDrones::new(2, vec![1], RATE_ONE);
    let ack = Packet {
        pack_type: PacketType::Ack(Ack { fragment_index: 4 }),
        routing_header: SourceRoutingHeader { hop_index: 1, hops: vec![1, 2, 3] },
        session_id: 6,
    };
    assert_eq!(
        drone.forward_packet(ack.clone(), half()),
        vec![Action::Notify(DroneEvent::ControllerShortcut(ack.clone()))]
    );
    assert_eq!(
        drone.nfa_handle(&ack),
        vec![Action::Notify(DroneEvent::ControllerShortcut(ack))]
    );
    let wrong = nack(vec![1, 9, 3], 1, NackType::Dropped);
    assert_eq!(
        drone.forward_packet(wrong.clone(), half()),
        vec![Action::Notify(DroneEvent::ControllerShortcut(wrong))]
    );
    let last = nack(vec![1, 2], 1, NackType::Dropped);
    assert_eq!(
        drone.forward_packet(last.clone(), half()),
        vec![Action::Notify(DroneEvent::ControllerShortcut(last))]
    );
}

#[test]
fn forward_only_packets_are_never_dropped() {
    let mut drone = GameOfDrones::new(2, vec![1, 3], RATE_ONE);
    let packet = nack(vec![3, 2, 1], 1, NackType::ErrorInRouting(9));
    let (to, sent) = only_send(&drone.forward_packet(packet, 1));
    assert_eq!(to, 1);
    assert_eq!(sent, nack(vec![3, 2, 1], 2, NackType::ErrorInRouting(9)));
}

#[test]
fn a_removed_neighbour_is_no_route() {
    let mut drone = GameOfDrones::new(2, vec![1, 3], 0);
    assert_eq!(only_send(&drone.forward_packet(fragment(vec![1, 2, 3], 1), half())).0, 3);
    drone.remove_sender(3);
    assert_eq!(
        only_send(&drone.forward_packet(fragment(vec![1, 2, 3], 1), half())),
        (1, nack(vec![2, 1], 1, NackType::ErrorInRouting(3)))
    );
    let ack = Packet {
        pack_type: PacketType::Ack(Ack { fragment_index: 1 }),
        routing_header: SourceRoutingHeader { hop_index: 1, hops: vec![1, 2, 3] },
        session_id: 1,
    };
    assert_eq!(
        drone.forward_packet(ack.clone(), half()),
        vec![Action::Notify(DroneEvent::ControllerShortcut(ack))]
    );
}

#[test]
fn a_send_is_mirrored_only_when_delivered() {
    let packet = fragment(vec![1, 2, 3], 2);
    let send = Action::Send { to: 3, packet: packet.clone() };
    assert_eq!(send.report(true), Some(DroneEvent::PacketSent(packet.clone())));
    assert_eq!(send.report(false), None);
    let notify = Action::Notify(DroneEvent::PacketDropped(packet));
    assert_eq!(notify.report(true), None);
    assert_eq!(notify.report(false), None);
}

#[test]
fn routable_packets() {
    assert!(fragment(vec![1, 2, 3], 2).is_routable());
    assert!(!fragment(vec![1, 2, 3], 3).is_routable());
    assert!(!fragment(vec![], 0).is_routable());
}
