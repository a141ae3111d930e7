//! Negotiation core for a USB Power Delivery sink.
//!
//! The library interprets the discrete events a PD protocol engine reports
//! (capability advertisements, accept/reject/ready notifications,
//! vendor-defined messages), selects which advertised power profile to
//! request, and maintains the negotiation status record that observers read.
//! The wire protocol itself, the transceiver driver and all I/O stay outside.

pub mod catalog;
pub mod profile;
pub mod selection;
pub mod status;
pub mod vdm;
