//! Three-finger drag for Linux touchpads: the gesture translator, the
//! trailing-release controller and the decisions of the event loop, each a
//! verified state machine over plain values.

pub mod config;
pub mod controller;
pub mod device;
pub mod event_loop;
pub mod motion;
pub mod sink;
pub mod text;
pub mod trace;
pub mod translator;
