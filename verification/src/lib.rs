//! A verified protocol engine for a forwarding drone in a source-routed
//! overlay network.
//!
//! A drone forwards fragments and control packets along the path that each
//! packet carries, takes part in the floods by which the network is
//! discovered, and obeys the commands of a controller. The engine holds the
//! state of one drone and decides; it owns no channel and makes no draw.
//! Whoever runs it hands it each command ([`drone::GameOfDrones::handle_command`])
//! and each packet together with a draw
//! ([`drone::GameOfDrones::forward_packet`]), and carries out the
//! [`action::Action`]s that come back, in their order.
//!
//! Every function states its result over the mathematical views of
//! [`packet`], [`action`] and [`drone`]; [`laws`] holds what follows for
//! every drone, packet and draw.

pub mod action;
pub mod dispatch;
pub mod drone;
pub mod flood;
pub mod laws;
pub mod packet;
pub mod rate;
pub mod routing;
