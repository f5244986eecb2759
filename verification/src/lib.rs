//! Monitoring and remote control of the idle, lock and notification state of
//! a small fleet of machines.
//!
//! A dashboard watches the nodes that its configuration lists: it asks all
//! of them for their status at once and shows one line for each, and it
//! sends single actions to single nodes. Each node runs an agent that hands
//! such requests on to the idle service and to the notification service of
//! its desktop.
//!
//! This library decides; it neither reads files nor talks to the network or
//! to the desktop. A route of the dashboard, or an operation of a node,
//! hands back what is to be done, and then takes what came of it.
//!
//! The dashboard: [`config`] and [`registry`] hold what it is configured
//! with, [`session`] guards its routes, [`status`] and [`action`] say what
//! it asks of the nodes, [`request`] is how it asks, and [`dashboard`] has
//! its routes. The node: [`node`] is its HTTP surface, [`idle`] its idle
//! controller, [`notify`] its notification relay.

pub mod action;
pub mod config;
pub mod dashboard;
pub mod idle;
pub mod node;
pub mod notify;
pub mod registry;
pub mod request;
pub mod session;
pub mod status;
pub mod text;
pub mod wording;
