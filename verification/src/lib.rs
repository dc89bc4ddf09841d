//! Verified logic of the Bramble (SM7250) DWC3 USB device stack.

pub mod bytes;
pub mod debug_transport;
pub mod mmio;
pub mod config;
pub mod usb;
pub mod phy_tables;
pub mod phy;
pub mod control;
pub mod smmu;
pub mod harvest;
pub mod gate;
pub mod readout;
pub mod ep0;
pub mod endpoint;
pub mod gsi;
pub mod events;
pub mod probe;
pub mod signal;
pub mod power;
pub mod handoff;
pub mod ep0_recovery;
pub mod usb2_handoff;
pub mod start_sequence;
pub mod reuse_handoff;
pub mod smmu_configure;
