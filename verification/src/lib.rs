//! Node-side protocol core of a CANopen-like fieldbus stack.
//!
//! The crate turns raw bus frames into typed communication objects, drives the
//! network-management state machine of one node from those frames, and keeps
//! the node's typed object dictionary. Every function is verified against the
//! contract written on it.

pub mod canopen;
pub mod cob;
pub mod controller;
pub mod message;
pub mod od;
pub mod service;
