//! Host controllers that are PCI devices.

use vstd::prelude::*;

verus! {

/// Vendor of a PCI device.
#[derive(Clone, Copy, Debug, PartialEq, Eq, Structural)]
pub enum PciVendor {
    Redhat,
    Samsung,
    Intel,
}

/// Platform that a controller belongs to.
#[derive(Clone, Copy, Debug, PartialEq, Eq, Structural)]
pub enum UfsPciPlatform {
    Qemu,
    Samsung,
    IntelCnl,
    IntelEhl,
    IntelLkf,
    IntelAdl,
    IntelMtl,
}

impl UfsPciPlatform {
    /// Name of the platform.
    pub open spec fn called(self) -> &'static str {
        match self {
            UfsPciPlatform::Qemu => "qemu",
            UfsPciPlatform::Samsung => "samsung",
            UfsPciPlatform::IntelCnl => "intel-cnl",
            UfsPciPlatform::IntelEhl => "intel-ehl",
            UfsPciPlatform::IntelLkf => "intel-lkf",
            UfsPciPlatform::IntelAdl => "intel-adl",
            UfsPciPlatform::IntelMtl => "intel-mtl",
        }
    }

    /// Name of the platform.
    pub fn name(self) -> (r: &'static str)
        ensures
            r == self.called(),
    {
        match self {
            UfsPciPlatform::Qemu => "qemu",
            UfsPciPlatform::Samsung => "samsung",
            UfsPciPlatform::IntelCnl => "intel-cnl",
            UfsPciPlatform::IntelEhl => "intel-ehl",
            UfsPciPlatform::IntelLkf => "intel-lkf",
            UfsPciPlatform::IntelAdl => "intel-adl",
            UfsPciPlatform::IntelMtl => "intel-mtl",
        }
    }
}

/// A device that the driver handles, and its platform.
#[derive(Clone, Copy, Debug, PartialEq, Eq, Structural)]
pub struct PciEntry {
    pub vendor: PciVendor,
    pub device: u32,
    pub platform: UfsPciPlatform,
}

/// An entry of the table.
pub open spec fn entry(vendor: PciVendor, device: u32, platform: UfsPciPlatform) -> PciEntry {
    PciEntry { vendor, device, platform }
}

/// The devices that the driver handles.
pub open spec fn pci_table() -> Seq<PciEntry> {
    seq![
        entry(PciVendor::Redhat, 0x0013, UfsPciPlatform::Qemu),
        entry(PciVendor::Samsung, 0xc00c, UfsPciPlatform::Samsung),
        entry(PciVendor::Intel, 0x9dfa, UfsPciPlatform::IntelCnl),
        entry(PciVendor::Intel, 0x4b41, UfsPciPlatform::IntelEhl),
        entry(PciVendor::Intel, 0x4b43, UfsPciPlatform::IntelEhl),
        entry(PciVendor::Intel, 0x98fa, UfsPciPlatform::IntelLkf),
        entry(PciVendor::Intel, 0x51ff, UfsPciPlatform::IntelAdl),
        entry(PciVendor::Intel, 0x54ff, UfsPciPlatform::IntelAdl),
        entry(PciVendor::Intel, 0x7e47, UfsPciPlatform::IntelMtl),
        entry(PciVendor::Intel, 0xa847, UfsPciPlatform::IntelMtl),
        entry(PciVendor::Intel, 0x7747, UfsPciPlatform::IntelMtl),
        entry(PciVendor::Intel, 0xe447, UfsPciPlatform::IntelMtl),
        entry(PciVendor::Intel, 0x4d47, UfsPciPlatform::IntelMtl),
        entry(PciVendor::Intel, 0xd335, UfsPciPlatform::IntelMtl),
    ]
}

/// The devices that the driver handles.
pub fn device_table() -> (r: Vec<PciEntry>)
    ensures
        r@ == pci_table(),
{
    let mut table: Vec<PciEntry> = Vec::new();
    table.push(
        PciEntry { vendor: PciVendor::Redhat, device: 0x0013, platform: UfsPciPlatform::Qemu },
    );
    table.push(
        PciEntry { vendor: PciVendor::Samsung, device: 0xc00c, platform: UfsPciPlatform::Samsung },
    );
    table.push(
        PciEntry { vendor: PciVendor::Intel, device: 0x9dfa, platform: UfsPciPlatform::IntelCnl },
    );
    table.push(
        PciEntry { vendor: PciVendor::Intel, device: 0x4b41, platform: UfsPciPlatform::IntelEhl },
    );
    table.push(
        PciEntry { vendor: PciVendor::Intel, device: 0x4b43, platform: UfsPciPlatform::IntelEhl },
    );
    table.push(
        PciEntry { vendor: PciVendor::Intel, device: 0x98fa, platform: UfsPciPlatform::IntelLkf },
    );
    table.push(
        PciEntry { vendor: PciVendor::Intel, device: 0x51ff, platform: UfsPciPlatform::IntelAdl },
    );
    table.push(
        PciEntry { vendor: PciVendor::Intel, device: 0x54ff, platform: UfsPciPlatform::IntelAdl },
    );
    table.push(
        PciEntry { vendor: PciVendor::Intel, device: 0x7e47, platform: UfsPciPlatform::IntelMtl },
    );
    table.push(
        PciEntry { vendor: PciVendor::Intel, device: 0xa847, platform: UfsPciPlatform::IntelMtl },
    );
    table.push(
        PciEntry { vendor: PciVendor::Intel, device: 0x7747, platform: UfsPciPlatform::IntelMtl },
    );
    table.push(
        PciEntry { vendor: PciVendor::Intel, device: 0xe447, platform: UfsPciPlatform::IntelMtl },
    );
    table.push(
        PciEntry { vendor: PciVendor::Intel, device: 0x4d47, platform: UfsPciPlatform::IntelMtl },
    );
    table.push(
        PciEntry { vendor: PciVendor::Intel, device: 0xd335, platform: UfsPciPlatform::IntelMtl },
    );
    assert(table@ =~= pci_table());
    table
}

/// No device stands in the table twice.
pub proof fn law_device_has_one_platform(i: int, j: int)
    requires
        0 <= i < pci_table().len(),
        0 <= j < pci_table().len(),
        pci_table()[i].vendor == pci_table()[j].vendor,
        pci_table()[i].device == pci_table()[j].device,
    ensures
        i == j,
{
}

/// The platform of a device, if the driver handles the device.
pub fn platform_of(vendor: PciVendor, device: u32) -> (r: Option<UfsPciPlatform>)
    ensures
        match r {
            Some(platform) => pci_table().contains(entry(vendor, device, platform)),
            None => forall|i: int|
                0 <= i < pci_table().len() ==> !(#[trigger] pci_table()[i].vendor == vendor
                    && pci_table()[i].device == device),
        },
{
    let table = device_table();
    for i in 0..table.len()
        invariant
            table@ == pci_table(),
            forall|j: int|
                0 <= j < i ==> !(#[trigger] pci_table()[j].vendor == vendor
                    && pci_table()[j].device == device),
    {
        if table[i].vendor == vendor && table[i].device == device {
            assert(pci_table()[i as int] == entry(vendor, device, table@[i as int].platform));
            return Some(table[i].platform);
        }
    }
    None
}

/// Which devices the driver handles: a virtual controller, one of Samsung and
/// twelve of Intel, by their device numbers.
pub proof fn law_handled_devices(vendor: PciVendor, device: u32, platform: UfsPciPlatform)
    ensures
        pci_table().contains(entry(vendor, device, platform)) <==> match platform {
            UfsPciPlatform::Qemu => vendor is Redhat && device == 0x13,
            UfsPciPlatform::Samsung => vendor is Samsung && device == 0xc00c,
            UfsPciPlatform::IntelCnl => vendor is Intel && device == 0x9dfa,
            UfsPciPlatform::IntelEhl => vendor is Intel && (device == 0x4b41 || device == 0x4b43),
            UfsPciPlatform::IntelLkf => vendor is Intel && device == 0x98fa,
            UfsPciPlatform::IntelAdl => vendor is Intel && (device == 0x51ff || device == 0x54ff),
            UfsPciPlatform::IntelMtl => vendor is Intel && (device == 0x7e47 || device == 0xa847
                || device == 0x7747 || device == 0xe447 || device == 0x4d47 || device == 0xd335),
        },
{
    let t = pci_table();
    let e = entry(vendor, device, platform);
    assert(forall|i: int| 0 <= i < 14 && t[i] == e ==> t.contains(e));
    assert(t.len() == 14);
    assert(t[0].device == 0x13 && t[1].device == 0xc00c && t[2].device == 0x9dfa && t[3].device
        == 0x4b41 && t[4].device == 0x4b43 && t[5].device == 0x98fa && t[6].device == 0x51ff
        && t[7].device == 0x54ff && t[8].device == 0x7e47 && t[9].device == 0xa847 && t[10].device
        == 0x7747 && t[11].device == 0xe447 && t[12].device == 0x4d47 && t[13].device == 0xd335);
}

/// The names of the platforms.
pub proof fn law_platform_names()
    ensures
        UfsPciPlatform::Qemu.called() == "qemu",
        UfsPciPlatform::Samsung.called() == "samsung",
        UfsPciPlatform::IntelCnl.called() == "intel-cnl",
        UfsPciPlatform::IntelEhl.called() == "intel-ehl",
        UfsPciPlatform::IntelLkf.called() == "intel-lkf",
        UfsPciPlatform::IntelAdl.called() == "intel-adl",
        UfsPciPlatform::IntelMtl.called() == "intel-mtl",
{
}

} // verus!
