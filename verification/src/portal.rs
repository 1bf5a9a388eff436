//! Steering the clients of the access point to the portal.

pub mod ip_tables;
pub mod router;
