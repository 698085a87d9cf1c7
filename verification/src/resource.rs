//! Resources that a frontend hands over to the host.

use vstd::prelude::*;

use crate::error::Error;

verus! {

/// Size of the region of the controller's registers.
pub const HCI_MMIO_SIZE: usize = 0x1000;

/// Name under which the region is claimed.
pub const PCI_REGION_NAME: &'static str = "rufs_pci";

/// The region of a platform device's registers, of which the first is used.
pub fn from_platform<R>(region: Option<R>) -> (r: Result<R, Error>)
    ensures
        r == (match region {
            Some(region) => Ok::<R, Error>(region),
            None => Err(Error::ENODEV),
        }),
{
    match region {
        Some(region) => Ok(region),
        None => Err(Error::ENODEV),
    }
}

/// What a host needs of its frontend: the region of the controller's registers,
/// in some platforms a region of its own for the registers of the circular
/// queues, and the operations of the variant.
pub struct HostResources<H, M, V> {
    pub hci: H,
    pub mcq: Option<M>,
    pub variant: V,
}

impl<H, M, V> HostResources<H, M, V> {
    /// The resources of a host.
    pub fn new(hci: H, mcq: Option<M>, variant: V) -> (r: Self)
        ensures
            r == (HostResources { hci, mcq, variant }),
    {
        HostResources { hci, mcq, variant }
    }

    /// The region of the controller's registers.
    pub fn hci_access(&self) -> (r: &H)
        ensures
            *r == self.hci,
    {
        &self.hci
    }

    /// The region of the registers of the circular queues, if it is one of its
    /// own.
    pub fn mcq_access(&self) -> (r: Result<&M, Error>)
        ensures
            match self.mcq {
                Some(mcq) => r is Ok && *r->Ok_0 == mcq,
                None => r is Err && r->Err_0 == Error::ENODEV,
            },
    {
        match &self.mcq {
            Some(mcq) => Ok(mcq),
            None => Err(Error::ENODEV),
        }
    }

    /// The operations of the variant.
    pub fn variant(&self) -> (r: &V)
        ensures
            *r == self.variant,
    {
        &self.variant
    }
}

} // verus!
