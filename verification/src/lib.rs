//! Core of a UFS host controller driver.

pub mod block;
pub mod command;
pub mod completion;
pub mod descriptor;
pub mod dev;
pub mod dma;
pub mod endian;
pub mod error;
pub mod gpio;
pub mod hci;
pub mod host;
pub mod interconnect;
pub mod irq;
pub mod lu;
pub mod mcq;
pub mod mcq_setup;
pub mod pci;
pub mod phy;
pub mod prdt;
pub mod qcom;
pub mod query;
pub mod queue;
pub mod recovery;
pub mod reg;
pub mod request;
pub mod reset;
pub mod resource;
pub mod scsi;
pub mod transfer;
pub mod uic;
pub mod upiu;
pub mod variant;
