//! Decision core of a captive-portal access point.
//!
//! A headless device without connectivity opens a Wi-Fi access point and sends
//! every client that joins it to a setup page. This crate holds the rules of
//! that procedure as functions on plain values, each with a proved contract;
//! talking to the network manager, the firewall and the HTTP stack is left to
//! the program that drives it.

pub mod address;
pub mod ap;
pub mod device;
pub mod error;
pub mod orchestrator;
pub mod portal;
