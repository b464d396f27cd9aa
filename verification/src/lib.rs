//! A user-space host firewall's policy core: rule matching, dynamic blocking
//! of repeat offenders, coarse geo blocking, and the per-packet decision that
//! combines them.

pub mod address;
pub mod address_table;
pub mod blocker;
pub mod blocker_laws;
pub mod clock;
pub mod config;
pub mod error;
pub mod firewall;
pub mod firewall_laws;
pub mod logger;
pub mod packet;
pub mod rules;
pub mod simple_geo;
