//! Probing a router for the port-mapping protocols PCP, PMP and IGDP.

pub mod status;
pub mod probe;
pub mod check;
pub mod removal;
