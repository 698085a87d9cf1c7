//! Command descriptors and the list of transfer request descriptors.

use vstd::prelude::*;

use crate::error::Error;
use crate::hci::{
    self, ocs_result, CqEntry, PrdEntry, ReqDescHeader, Ucd, UcdView, UtpOcs, Utrd,
    MAX_PRD_ENTRIES, UCD_SIZE,
};
use crate::host::HostFlow;
use crate::prdt::{UfsPrdt, UfsPrdtMapping};
use crate::query::{UfsCmd, UfsDevCmd};
use crate::reg::{self, RegOp, UfsReg};
use crate::scsi::{UfsSCSICmd, UfsScsiCompletion, UfsScsiResult};
use crate::upiu::{Upiu, UpiuView};

verus! {

/// Interval at which the controller is polled for its request lists.
pub const REQUEST_READY_INTERVAL_US: i64 = 1000;

/// Time that the controller has to get its request lists ready.
pub const REQUEST_READY_TIMEOUT_MS: i64 = 50;

/// Contents of the descriptor memory.
#[verifier::ext_equal]
pub struct DmaView {
    pub ucd_addr: u64,
    pub utrdl_addr: u64,
    pub utmrdl_addr: u64,
    pub ucdl: Seq<UcdView>,
    pub utrdl: Seq<Utrd>,
}

impl DmaView {
    /// Number of slots.
    pub open spec fn slots(self) -> nat {
        self.ucdl.len()
    }

    /// Address of a slot's command descriptor.
    pub open spec fn ucd_address(self, tag: int) -> int {
        self.ucd_addr + tag * UCD_SIZE
    }

    /// Every slot's request descriptor points at the slot's command descriptor.
    pub open spec fn valid(self) -> bool {
        &&& 0 < self.slots()
        &&& self.utrdl.len() == self.slots()
        &&& self.ucd_address(self.slots() as int) <= u64::MAX
        &&& forall|tag: int|
            0 <= tag < self.slots() ==> (#[trigger] self.ucdl[tag]).prdt.len() == MAX_PRD_ENTRIES
        &&& forall|tag: int|
            0 <= tag < self.slots() ==> (#[trigger] self.utrdl[tag]) == (Utrd {
                header: self.utrdl[tag].header,
                prd_table_length: self.utrdl[tag].prd_table_length,
                ..Utrd::blank().at(self.ucd_address(tag) as u64)
            })
    }

    /// With a device management command in a slot.
    pub open spec fn with_devman(self, cmd: UfsDevCmd, tag: int) -> Self {
        DmaView {
            ucdl: self.ucdl.update(
                tag,
                self.ucdl[tag].with_command(UpiuView::device(cmd, tag as usize)),
            ),
            utrdl: self.utrdl.update(
                tag,
                Utrd { header: ReqDescHeader::of(UfsCmd::Device(cmd)), ..self.utrdl[tag] },
            ),
            ..self
        }
    }

    /// With a SCSI command and its table in a slot.
    pub open spec fn with_scsi(self, cmd: UfsSCSICmd, tag: int, entries: Seq<PrdEntry>) -> Self {
        DmaView {
            ucdl: self.ucdl.update(
                tag,
                UcdView {
                    cmd: UpiuView::command(cmd, tag as usize),
                    rsp: UpiuView::blank(),
                    prdt: overlay(self.ucdl[tag].prdt, entries),
                },
            ),
            utrdl: self.utrdl.update(
                tag,
                Utrd {
                    header: ReqDescHeader::of(UfsCmd::SCSI(cmd)),
                    prd_table_length: entries.len() as u16,
                    ..self.utrdl[tag]
                },
            ),
            ..self
        }
    }

    /// The slot that a completion queue entry is about.
    pub open spec fn tag_of(self, cqe: CqEntry) -> Result<usize, Error> {
        let addr = hci::ucd_base(cqe.command_desc_base_addr);
        if addr < self.ucd_addr || (addr - self.ucd_addr) % UCD_SIZE as int != 0 || (addr
            - self.ucd_addr) / UCD_SIZE as int >= self.slots() {
            Err(Error::EINVAL)
        } else {
            Ok(((addr - self.ucd_addr) / UCD_SIZE as int) as usize)
        }
    }
}

/// A table whose first entries are replaced.
pub open spec fn overlay(prdt: Seq<PrdEntry>, entries: Seq<PrdEntry>) -> Seq<PrdEntry> {
    Seq::new(
        prdt.len(),
        |i: int|
            if i < entries.len() {
                entries[i]
            } else {
                prdt[i]
            },
    )
}

/// What a SCSI command came to, given its overall command status and, when that
/// is success, its response unit.
pub open spec fn scsi_outcome(ocs: u8, rsp: UpiuView, r: UfsScsiResult) -> bool {
    match UtpOcs::decode(ocs) {
        UtpOcs::Success => rsp.reports(ocs, r),
        UtpOcs::Aborted | UtpOcs::InvalidCommandStatus => r.bare(UfsScsiCompletion::Requeue, ocs),
        _ => r.bare(UfsScsiCompletion::Error, ocs),
    }
}

/// The memory in which the controller finds commands and leaves responses, as
/// the driver sees it.
pub struct UfsDma {
    transfer_slots: usize,
    ucd_addr: u64,
    utrdl_addr: u64,
    utmrdl_addr: u64,
    ucdl: Vec<Ucd>,
    utrdl: Vec<Utrd>,
}

impl View for UfsDma {
    type V = DmaView;

    closed spec fn view(&self) -> DmaView {
        DmaView {
            ucd_addr: self.ucd_addr,
            utrdl_addr: self.utrdl_addr,
            utmrdl_addr: self.utmrdl_addr,
            ucdl: Seq::new(self.ucdl@.len(), |i: int| self.ucdl@[i]@),
            utrdl: self.utrdl@,
        }
    }
}

impl UfsDma {
    /// Every slot's request descriptor points at the slot's command descriptor.
    pub closed spec fn wf(self) -> bool {
        &&& self@.valid()
        &&& self.transfer_slots == self.ucdl@.len()
    }

    /// Number of slots that a controller needs.
    pub fn transfer_slots_for(reg: &UfsReg) -> (r: usize)
        ensures
            r == (if reg.has_mcq() && reg.slots_mcq() > reg.slots() {
                reg.slots_mcq()
            } else {
                reg.slots()
            }),
    {
        if reg.mcq_supported() {
            let sdb = reg.nutrs();
            let mcq = reg.nutrs_mcq();
            if mcq > sdb {
                mcq
            } else {
                sdb
            }
        } else {
            reg.nutrs()
        }
    }

    /// Descriptors for `transfer_slots` commands. The command descriptors lie at
    /// `ucd_addr`, the transfer request list at `utrdl_addr` and the task request
    /// list at `utmrdl_addr`.
    pub fn new(transfer_slots: usize, ucd_addr: u64, utrdl_addr: u64, utmrdl_addr: u64) -> (r:
        Result<Self, Error>)
        requires
            transfer_slots * UCD_SIZE <= usize::MAX,
            ucd_addr + transfer_slots * UCD_SIZE <= u64::MAX,
        ensures
            match r {
                Ok(dma) => {
                    &&& transfer_slots > 0
                    &&& dma.wf()
                    &&& dma@ == (DmaView {
                        ucd_addr,
                        utrdl_addr,
                        utmrdl_addr,
                        ucdl: Seq::new(transfer_slots as nat, |i: int| UcdView::blank()),
                        utrdl: Seq::new(
                            transfer_slots as nat,
                            |i: int| Utrd::blank().at((ucd_addr + i * UCD_SIZE) as u64),
                        ),
                    })
                },
                Err(e) => transfer_slots == 0 && e == Error::EINVAL,
            },
    {
        if transfer_slots == 0 {
            return Err(Error::EINVAL);
        }
        let mut ucdl: Vec<Ucd> = Vec::new();
        let mut utrdl: Vec<Utrd> = Vec::new();
        for tag in 0..transfer_slots
            invariant
                transfer_slots * UCD_SIZE <= usize::MAX,
                ucd_addr + transfer_slots * UCD_SIZE <= u64::MAX,
                ucdl@.len() == tag,
                utrdl@.len() == tag,
                forall|i: int| 0 <= i < tag ==> (#[trigger] ucdl@[i])@ == UcdView::blank(),
                forall|i: int|
                    0 <= i < tag ==> (#[trigger] utrdl@[i]) == Utrd::blank().at(
                        (ucd_addr + i * UCD_SIZE) as u64,
                    ),
        {
            ucdl.push(Ucd::default());
            let command_desc_base_addr = ucd_addr + (tag * UCD_SIZE) as u64;
            utrdl.push(Utrd::default().set_command_descriptor(command_desc_base_addr));
        }
        let dma = UfsDma { transfer_slots, ucd_addr, utrdl_addr, utmrdl_addr, ucdl, utrdl };
        proof {
            assert(dma@.ucdl =~= Seq::new(transfer_slots as nat, |i: int| UcdView::blank()));
            assert(dma@.utrdl =~= Seq::new(
                transfer_slots as nat,
                |i: int| Utrd::blank().at((ucd_addr + i * UCD_SIZE) as u64),
            ));
        }
        Ok(dma)
    }

    /// Number of slots.
    pub fn transfer_slots(&self) -> (r: usize)
        requires
            self.wf(),
        ensures
            r == self@.slots(),
    {
        self.transfer_slots
    }

    /// What makes the controller operational.
    pub open spec fn operational_ops(self, flow: HostFlow) -> Seq<RegOp> {
        seq![
            RegOp::SetBits {
                offset: reg::INTERRUPT_ENABLE,
                bits: reg::UTP_TRANSFER_REQ_COMPL | reg::ERROR_MASK,
            },
        ] + match flow {
            HostFlow::Pci => Seq::empty(),
            HostFlow::Resources => seq![
                RegOp::Write { offset: reg::UTP_TRANSFER_REQ_INT_AGG_CONTROL, value: 0 },
            ],
        } + reg::addr_pair(
            reg::UTP_TRANSFER_REQ_LIST_BASE_L,
            reg::UTP_TRANSFER_REQ_LIST_BASE_H,
            self@.utrdl_addr,
        ) + reg::addr_pair(
            reg::UTP_TASK_REQ_LIST_BASE_L,
            reg::UTP_TASK_REQ_LIST_BASE_H,
            self@.utmrdl_addr,
        ) + seq![
            RegOp::Poll {
                offset: reg::CONTROLLER_STATUS,
                mask: reg::HCS_READY_MASK,
                value: reg::HCS_READY_MASK,
                interval_us: REQUEST_READY_INTERVAL_US,
                timeout_us: 50_000,
            },
        ] + reg::run_ops()
    }

    /// Makes the controller operational: interrupts, list addresses, and when
    /// the controller is ready, the lists are started. A PCI device's controller
    /// keeps aggregating interrupts as it is set up to.
    pub fn make_hba_operational(&self, flow: HostFlow) -> (r: Vec<RegOp>)
        ensures
            r@ == self.operational_ops(flow),
    {
        let mut ops: Vec<RegOp> = Vec::new();
        ops.push(reg::enable_interrupts());
        match flow {
            HostFlow::Pci => {},
            HostFlow::Resources => ops.push(reg::disable_transfer_req_int_aggr()),
        }
        let mut utrdl = reg::set_utrdl_base(self.utrdl_addr);
        ops.append(&mut utrdl);
        let mut utmrdl = reg::set_utmrdl_base(self.utmrdl_addr);
        ops.append(&mut utmrdl);
        ops.push(reg::wait_for_request_ready(REQUEST_READY_INTERVAL_US, REQUEST_READY_TIMEOUT_MS));
        let mut run = reg::enable_run_stop();
        ops.append(&mut run);
        assert(ops@ =~= self.operational_ops(flow));
        ops
    }

    /// Puts a device management command into a slot.
    pub fn compose_devman_upiu(&mut self, cmd: UfsDevCmd, tag: usize) -> (r: Result<(), Error>)
        requires
            old(self).wf(),
        ensures
            final(self).wf(),
            if tag < old(self)@.slots() {
                r == Ok::<(), Error>(()) && final(self)@ == old(self)@.with_devman(cmd, tag as int)
            } else {
                r == Err::<(), Error>(Error::ERANGE) && final(self)@ == old(self)@
            },
    {
        if tag >= self.transfer_slots {
            return Err(Error::ERANGE);
        }
        let mut ucd = self.ucdl[tag];
        ucd.cmd_upiu = Upiu::device(cmd, tag);
        ucd.rsp_upiu = Upiu::default();
        self.ucdl.set(tag, ucd);
        let utrd = self.utrdl[tag];
        self.utrdl.set(tag, utrd.build(UfsCmd::Device(cmd)));
        assert(self@.ucdl =~= old(self)@.with_devman(cmd, tag as int).ucdl);
        assert(self@.utrdl =~= old(self)@.with_devman(cmd, tag as int).utrdl);
        Ok(())
    }

    /// Puts a SCSI command and its table into a slot. The result is what the
    /// table rests on.
    pub fn compose_scsi_upiu(&mut self, cmd: UfsSCSICmd, tag: usize, prdt: UfsPrdt) -> (r: Result<
        Option<UfsPrdtMapping>,
        Error,
    >)
        requires
            old(self).wf(),
            prdt.wf(),
        ensures
            final(self).wf(),
            if tag < old(self)@.slots() {
                &&& r == Ok::<Option<UfsPrdtMapping>, Error>(prdt.mapping)
                &&& final(self)@ == old(self)@.with_scsi(cmd, tag as int, prdt.entries@)
            } else {
                &&& r == Err::<Option<UfsPrdtMapping>, Error>(Error::ERANGE)
                &&& final(self)@ == old(self)@
            },
    {
        if tag >= self.transfer_slots {
            return Err(Error::ERANGE);
        }
        let mut ucd = self.ucdl[tag];
        let ghost table = ucd.prdt@;
        assert(old(self)@.ucdl[tag as int].prdt == table);
        ucd.cmd_upiu = Upiu::command(cmd, tag);
        ucd.rsp_upiu = Upiu::default();
        let entries = prdt.entries();
        for i in 0..entries.len()
            invariant
                entries@ == prdt.entries@,
                entries@.len() <= MAX_PRD_ENTRIES,
                table.len() == MAX_PRD_ENTRIES,
                ucd.cmd_upiu@ == UpiuView::command(cmd, tag),
                ucd.rsp_upiu@ == UpiuView::blank(),
                ucd.prdt@ == overlay(table, entries@.take(i as int)),
        {
            ucd.prdt[i] = entries[i];
            assert(ucd.prdt@ =~= overlay(table, entries@.take(i + 1)));
        }
        assert(entries@.take(entries@.len() as int) =~= entries@);
        let prd_entries = entries.len();
        self.ucdl.set(tag, ucd);
        let utrd = self.utrdl[tag];
        let utrd = match utrd.build(UfsCmd::SCSI(cmd)).set_prd_table_length(prd_entries) {
            Ok(utrd) => utrd,
            Err(e) => return Err(e),
        };
        self.utrdl.set(tag, utrd);
        assert(self@.ucdl =~= old(self)@.with_scsi(cmd, tag as int, prdt.entries@).ucdl);
        assert(self@.utrdl =~= old(self)@.with_scsi(cmd, tag as int, prdt.entries@).utrdl);
        Ok(prdt.into_mapping())
    }

    /// The request descriptor of a slot.
    pub fn transfer_request_desc(&self, tag: usize) -> (r: Result<Utrd, Error>)
        requires
            self.wf(),
        ensures
            r == (if tag < self@.slots() {
                Ok::<Utrd, Error>(self@.utrdl[tag as int])
            } else {
                Err(Error::ERANGE)
            }),
    {
        if tag >= self.transfer_slots {
            return Err(Error::ERANGE);
        }
        Ok(self.utrdl[tag])
    }

    /// The command descriptor of a slot.
    pub fn command_desc(&self, tag: usize) -> (r: Result<&Ucd, Error>)
        requires
            self.wf(),
        ensures
            match r {
                Ok(ucd) => tag < self@.slots() && ucd@ == self@.ucdl[tag as int],
                Err(e) => tag >= self@.slots() && e == Error::ERANGE,
            },
    {
        if tag >= self.transfer_slots {
            return Err(Error::ERANGE);
        }
        Ok(&self.ucdl[tag])
    }

    /// Takes over the status that the controller left in a slot.
    pub fn load_status(&mut self, tag: usize, ocs: u8) -> (r: Result<(), Error>)
        requires
            old(self).wf(),
        ensures
            final(self).wf(),
            if tag < old(self)@.slots() {
                let utrd = old(self)@.utrdl[tag as int];
                &&& r == Ok::<(), Error>(())
                &&& final(self)@ == (DmaView {
                    utrdl: old(self)@.utrdl.update(
                        tag as int,
                        Utrd { header: ReqDescHeader { ocs, ..utrd.header }, ..utrd },
                    ),
                    ..old(self)@
                })
            } else {
                r == Err::<(), Error>(Error::ERANGE) && final(self)@ == old(self)@
            },
    {
        if tag >= self.transfer_slots {
            return Err(Error::ERANGE);
        }
        let mut utrd = self.utrdl[tag];
        utrd.header.ocs = ocs;
        self.utrdl.set(tag, utrd);
        assert(self@.ucdl =~= old(self)@.ucdl);
        Ok(())
    }

    /// Takes over the response that the controller left in a slot.
    pub fn load_response(&mut self, tag: usize, rsp: Upiu) -> (r: Result<(), Error>)
        requires
            old(self).wf(),
        ensures
            final(self).wf(),
            if tag < old(self)@.slots() {
                &&& r == Ok::<(), Error>(())
                &&& final(self)@ == (DmaView {
                    ucdl: old(self)@.ucdl.update(
                        tag as int,
                        UcdView { rsp: rsp@, ..old(self)@.ucdl[tag as int] },
                    ),
                    ..old(self)@
                })
            } else {
                r == Err::<(), Error>(Error::ERANGE) && final(self)@ == old(self)@
            },
    {
        if tag >= self.transfer_slots {
            return Err(Error::ERANGE);
        }
        let mut ucd = self.ucdl[tag];
        assert(old(self)@.ucdl[tag as int] == ucd@);
        ucd.rsp_upiu = rsp;
        self.ucdl.set(tag, ucd);
        assert(self@.ucdl =~= old(self)@.ucdl.update(
            tag as int,
            UcdView { rsp: rsp@, ..old(self)@.ucdl[tag as int] },
        ));
        Ok(())
    }

    /// The slot that a completion queue entry is about, found by the address of
    /// its command descriptor.
    pub fn tag_from_cq_entry(&self, cqe: &CqEntry) -> (r: Result<usize, Error>)
        requires
            self.wf(),
        ensures
            r == self@.tag_of(*cqe),
    {
        let base = self.ucd_addr;
        let addr = cqe.ucd_base_addr();
        let size: u64 = UCD_SIZE as u64;
        if addr < base {
            return Err(Error::EINVAL);
        }
        let offset = addr - base;
        if offset % size != 0 {
            return Err(Error::EINVAL);
        }
        let tag = offset / size;
        if tag >= self.transfer_slots as u64 {
            return Err(Error::EINVAL);
        }
        Ok(tag as usize)
    }

    /// Whether a completion queue entry is one that queue `queue_id` owes: its
    /// tag is a slot, the submission queue that it names is this one, and it
    /// points at the slot's command descriptor.
    pub fn validate_cq_entry(&self, cqe: &CqEntry, submission_queue_id: u8, queue_id: u32) -> (r:
        Result<(), Error>)
        requires
            self.wf(),
        ensures
            r == (if cqe.task_tag >= self@.slots() || submission_queue_id != queue_id {
                Err::<(), Error>(Error::EINVAL)
            } else if hci::ucd_base(cqe.command_desc_base_addr) != self@.ucd_address(
                cqe.task_tag as int,
            ) {
                Err(Error::EIO)
            } else {
                Ok(())
            }),
    {
        let tag = cqe.task_tag() as usize;
        if tag >= self.transfer_slots {
            return Err(Error::EINVAL);
        }
        if submission_queue_id as u32 != queue_id {
            return Err(Error::EINVAL);
        }
        let expected = self.ucd_addr + (tag * UCD_SIZE) as u64;
        if !cqe.matches_ucd_base_addr(expected) {
            return Err(Error::EIO);
        }
        Ok(())
    }

    /// The answer to a device management command in a slot.
    pub fn fetch_devman_upiu(&self, cmd: UfsDevCmd, tag: usize) -> (r: Result<UfsCmd, Error>)
        requires
            self.wf(),
        ensures
            if tag >= self@.slots() {
                r == Err::<UfsCmd, Error>(Error::ERANGE)
            } else {
                let ocs = UtpOcs::decode(self@.utrdl[tag as int].status());
                devman_outcome(ocs, self@.ucdl[tag as int].rsp, cmd, r)
            },
    {
        let utrd = match self.transfer_request_desc(tag) {
            Ok(utrd) => utrd,
            Err(e) => return Err(e),
        };
        match utrd.check_response() {
            Ok(()) => {},
            Err(e) => return Err(e),
        }
        let rsp_upiu = &self.ucdl[tag].rsp_upiu;
        assert(rsp_upiu@ == self@.ucdl[tag as int].rsp);
        match rsp_upiu.fetch_dev(cmd) {
            Ok(cmd) => Ok(UfsCmd::Device(cmd)),
            Err(e) => Err(e),
        }
    }

    /// The answer to a device management command that a completion queue entry
    /// reports.
    pub fn fetch_mcq_devman_upiu(&self, cmd: UfsDevCmd, tag: usize, cqe: CqEntry) -> (r: Result<
        UfsCmd,
        Error,
    >)
        requires
            self.wf(),
        ensures
            ({
                let ocs = UtpOcs::decode(cqe.overall_status);
                if hci::ocs_outcome(ocs) is Ok && tag >= self@.slots() {
                    r == Err::<UfsCmd, Error>(Error::ERANGE)
                } else {
                    devman_outcome(ocs, self@.ucdl[tag as int].rsp, cmd, r)
                }
            }),
    {
        match ocs_result(UtpOcs::from(cqe.overall_status())) {
            Ok(()) => {},
            Err(e) => return Err(e),
        }
        let rsp_upiu = match self.command_desc(tag) {
            Ok(ucd) => &ucd.rsp_upiu,
            Err(e) => return Err(e),
        };
        match rsp_upiu.fetch_dev(cmd) {
            Ok(cmd) => Ok(UfsCmd::Device(cmd)),
            Err(e) => Err(e),
        }
    }

    /// What the SCSI command in a slot came to.
    pub fn fetch_scsi_completion(&self, tag: usize) -> (r: UfsScsiResult)
        requires
            self.wf(),
        ensures
            if tag >= self@.slots() {
                r.bare(UfsScsiCompletion::Error, UtpOcs::InvalidCommandStatus.number())
            } else {
                scsi_outcome(self@.utrdl[tag as int].status(), self@.ucdl[tag as int].rsp, r)
            },
    {
        let utrd = match self.transfer_request_desc(tag) {
            Ok(utrd) => utrd,
            Err(_) => return UfsScsiResult::error(UtpOcs::InvalidCommandStatus.code()),
        };
        let ocs = utrd.ocs();
        if utrd.check_response().is_err() {
            return match UtpOcs::from(utrd.ocs()) {
                UtpOcs::Aborted | UtpOcs::InvalidCommandStatus => UfsScsiResult::requeue(ocs),
                _ => UfsScsiResult::error(ocs),
            };
        }
        let rsp_upiu = &self.ucdl[tag].rsp_upiu;
        assert(rsp_upiu@ == self@.ucdl[tag as int].rsp);
        rsp_upiu.scsi_result(ocs)
    }

    /// What a SCSI command came to that a completion queue entry reports.
    pub fn fetch_mcq_scsi_completion(&self, tag: usize, cqe: CqEntry) -> (r: UfsScsiResult)
        requires
            self.wf(),
        ensures
            if UtpOcs::decode(cqe.overall_status) == UtpOcs::Success && tag >= self@.slots() {
                r.bare(UfsScsiCompletion::Error, UtpOcs::InvalidCommandStatus.number())
            } else {
                scsi_outcome(cqe.overall_status, self@.ucdl[tag as int].rsp, r)
            },
    {
        let ocs = cqe.overall_status();
        match UtpOcs::from(ocs) {
            UtpOcs::Success => {},
            UtpOcs::Aborted | UtpOcs::InvalidCommandStatus => return UfsScsiResult::requeue(ocs),
            _ => return UfsScsiResult::error(ocs),
        }
        match self.command_desc(tag) {
            Ok(ucd) => ucd.rsp_upiu.scsi_result(ocs),
            Err(_) => UfsScsiResult::error(UtpOcs::InvalidCommandStatus.code()),
        }
    }
}

/// What a device management command came to, given its overall command status
/// and its response unit.
pub open spec fn devman_outcome(
    ocs: UtpOcs,
    rsp: UpiuView,
    cmd: UfsDevCmd,
    r: Result<UfsCmd, Error>,
) -> bool {
    match hci::ocs_outcome(ocs) {
        Err(e) => r == Err::<UfsCmd, Error>(e),
        Ok(()) => if rsp.accepts(cmd) {
            r matches Ok(UfsCmd::Device(answer)) && rsp.answers(cmd, answer)
        } else {
            r == Err::<UfsCmd, Error>(Error::EIO)
        },
    }
}

/// A completion queue entry that carries the address of a slot's command
/// descriptor, whatever its low bits, leads back to the slot.
#[verifier::spinoff_prover]
pub proof fn law_cq_entry_names_its_slot(dma: DmaView, tag: int, cqe: CqEntry, low: int)
    requires
        dma.valid(),
        dma.ucd_addr % 128 == 0,
        0 <= tag < dma.slots(),
        dma.slots() <= usize::MAX,
        0 <= low < 128,
        cqe.command_desc_base_addr == dma.ucd_address(tag) + low,
    ensures
        dma.tag_of(cqe) == Ok::<usize, Error>(tag as usize),
        dma.utrdl[tag].command_desc_base_addr == hci::ucd_base(cqe.command_desc_base_addr),
{
    let base = dma.ucd_address(tag);
    let from = dma.ucd_addr as int;
    let size = UCD_SIZE as int;
    assert(base % 128 == 0);
    assert(hci::ucd_base(cqe.command_desc_base_addr) == base);
    assert(base - from == tag * size);
    assert((tag * size) % size == 0 && (tag * size) / size == tag) by {
        vstd::arithmetic::div_mod::lemma_div_multiples_vanish(tag, size);
        vstd::arithmetic::div_mod::lemma_mod_multiples_basic(tag, size);
        assert(tag * size == size * tag) by (nonlinear_arith);
    }
    assert(dma.utrdl[tag].command_desc_base_addr == base as u64);
}

/// A command that is put into one slot leaves every other slot alone.
pub proof fn law_compose_is_local(
    dma: DmaView,
    tag: int,
    other: int,
    dev: UfsDevCmd,
    cmd: UfsSCSICmd,
    entries: Seq<PrdEntry>,
)
    requires
        dma.valid(),
        0 <= tag < dma.slots(),
        0 <= other < dma.slots(),
        tag != other,
    ensures
        dma.with_devman(dev, tag).ucdl[other] == dma.ucdl[other],
        dma.with_devman(dev, tag).utrdl[other] == dma.utrdl[other],
        dma.with_scsi(cmd, tag, entries).ucdl[other] == dma.ucdl[other],
        dma.with_scsi(cmd, tag, entries).utrdl[other] == dma.utrdl[other],
{
}

/// A SCSI command in a slot: entry `i` of the slot's table is entry `i` of the
/// table that was handed in, the entries behind it are as before, and the request
/// descriptor says how many there are. The response is blank until the device
/// answers.
pub proof fn law_composed_table(
    dma: DmaView,
    cmd: UfsSCSICmd,
    tag: int,
    entries: Seq<PrdEntry>,
    i: int,
)
    requires
        dma.valid(),
        0 <= tag < dma.slots(),
        entries.len() <= 256,
        0 <= i < 256,
    ensures
        ({
            let after = dma.with_scsi(cmd, tag, entries);
            &&& after.valid()
            &&& after.ucdl[tag].prdt.len() == 256
            &&& after.ucdl[tag].prdt[i] == if i < entries.len() {
                entries[i]
            } else {
                dma.ucdl[tag].prdt[i]
            }
            &&& after.utrdl[tag].prd_table_length == entries.len()
            &&& after.utrdl[tag].command_desc_base_addr == dma.utrdl[tag].command_desc_base_addr
            &&& after.ucdl[tag].rsp.bytes() == crate::endian::zeros(512)
        }),
{
    let after = dma.with_scsi(cmd, tag, entries);
    assert forall|t: int| 0 <= t < after.slots() implies (#[trigger] after.ucdl[t]).prdt.len()
        == MAX_PRD_ENTRIES by {
        assert(dma.ucdl[t].prdt.len() == MAX_PRD_ENTRIES);
    }
    assert forall|t: int| 0 <= t < after.slots() implies (#[trigger] after.utrdl[t]) == (Utrd {
        header: after.utrdl[t].header,
        prd_table_length: after.utrdl[t].prd_table_length,
        ..Utrd::blank().at(after.ucd_address(t) as u64)
    }) by {
        assert(dma.utrdl[t] == (Utrd {
            header: dma.utrdl[t].header,
            prd_table_length: dma.utrdl[t].prd_table_length,
            ..Utrd::blank().at(dma.ucd_address(t) as u64)
        }));
    }
    assert(dma.ucdl[tag].prdt.len() == MAX_PRD_ENTRIES);
    reveal_with_fuel(crate::endian::be_bytes, 3);
    crate::endian::lemma_be_bytes_len(0, 2);
    assert(after.ucdl[tag].rsp.bytes() =~= crate::endian::zeros(512));
}

/// The controller moves the data of a composed SCSI command from and to the
/// addresses that the table names which was handed in: the slot's table, as far
/// as its request descriptor says that it reaches, puts every byte at the same
/// address.
pub proof fn law_composed_table_places_bytes(
    dma: DmaView,
    cmd: UfsSCSICmd,
    tag: int,
    entries: Seq<PrdEntry>,
    k: int,
)
    requires
        dma.valid(),
        0 <= tag < dma.slots(),
        entries.len() <= 256,
    ensures
        ({
            let after = dma.with_scsi(cmd, tag, entries);
            let table = after.ucdl[tag].prdt.take(after.utrdl[tag].prd_table_length as int);
            &&& crate::prdt::byte_address(table, k) == crate::prdt::byte_address(entries, k)
            &&& crate::prdt::covered(table) == crate::prdt::covered(entries)
        }),
{
    let after = dma.with_scsi(cmd, tag, entries);
    let table = after.ucdl[tag].prdt.take(after.utrdl[tag].prd_table_length as int);
    assert forall|i: int| 0 <= i < entries.len() implies table[i] == entries[i] by {
        law_composed_table(dma, cmd, tag, entries, i);
    }
    law_composed_table(dma, cmd, tag, entries, 0);
    assert(table =~= entries);
}

/// Byte `k` of the data of a SCSI command whose table was made of one mapped
/// segment is moved at byte `k` of the segment.
pub proof fn law_composed_segment(
    dma: DmaView,
    cmd: UfsSCSICmd,
    tag: int,
    address: u64,
    length: u32,
    k: int,
)
    requires
        dma.valid(),
        0 <= tag < dma.slots(),
        0 < length,
        crate::prdt::chunk_count(length) <= 256,
        !crate::prdt::chunk_overflows(address, crate::prdt::chunk_count(length) - 1),
        0 <= k < length,
    ensures
        ({
            let after = dma.with_scsi(cmd, tag, crate::prdt::chunks(address, length));
            let table = after.ucdl[tag].prdt.take(after.utrdl[tag].prd_table_length as int);
            crate::prdt::byte_address(table, k) == Some(address + k)
        }),
{
    law_composed_table_places_bytes(dma, cmd, tag, crate::prdt::chunks(address, length), k);
    crate::prdt::law_segment_bytes(address, length, k);
}

/// A device management command in a slot: the slot's table and its length stay
/// as they were, and the response is blank until the device answers.
pub proof fn law_composed_device_command(dma: DmaView, cmd: UfsDevCmd, tag: int)
    requires
        dma.valid(),
        0 <= tag < dma.slots(),
        dma.slots() <= usize::MAX,
    ensures
        ({
            let after = dma.with_devman(cmd, tag);
            &&& after.ucdl[tag].cmd.bytes() == UpiuView::device(cmd, tag as usize).bytes()
            &&& after.ucdl[tag].rsp.bytes() == crate::endian::zeros(512)
            &&& after.ucdl[tag].prdt == dma.ucdl[tag].prdt
            &&& after.utrdl[tag].prd_table_length == dma.utrdl[tag].prd_table_length
            &&& after.utrdl[tag].command_desc_base_addr == dma.utrdl[tag].command_desc_base_addr
        }),
{
    reveal_with_fuel(crate::endian::be_bytes, 3);
    crate::endian::lemma_be_bytes_len(0, 2);
    assert(dma.with_devman(cmd, tag).ucdl[tag].rsp.bytes() =~= crate::endian::zeros(512));
}

/// A slot that a completion queue entry is taken to be about is the slot whose
/// command descriptor the entry points at: the descriptors take 5120 bytes each.
pub proof fn law_named_slot_holds_the_address(dma: DmaView, cqe: CqEntry, tag: usize)
    requires
        dma.valid(),
        dma.slots() <= usize::MAX,
        dma.tag_of(cqe) == Ok::<usize, Error>(tag),
    ensures
        tag < dma.slots(),
        dma.ucd_addr + tag * 5120 == cqe.command_desc_base_addr - cqe.command_desc_base_addr % 128,
        dma.utrdl[tag as int].command_desc_base_addr == dma.ucd_addr + tag * 5120,
{
    assert(dma.utrdl[tag as int].command_desc_base_addr == dma.ucd_address(tag as int) as u64);
}

/// What a completed SCSI command came to: the response decides on a command that
/// the controller reports as done (0), a command that it aborted (6) or for which
/// it gives no status that is known (above 10) is issued again, and any other
/// status fails it.
pub proof fn law_status_decides_scsi(ocs: u8, rsp: UpiuView, r: UfsScsiResult)
    requires
        scsi_outcome(ocs, rsp, r),
    ensures
        r.ocs == ocs,
        ocs == 0 ==> rsp.reports(ocs, r),
        ocs == 6 || ocs > 10 ==> r.completion is Requeue,
        0 < ocs <= 10 && ocs != 6 ==> r.completion is Error,
{
}

/// What a completed device management command came to: an answer comes only from
/// a command that the controller reports as done (0) and from a response that
/// fits it.
pub proof fn law_status_decides_device(
    ocs: u8,
    rsp: UpiuView,
    cmd: UfsDevCmd,
    r: Result<UfsCmd, Error>,
)
    requires
        devman_outcome(UtpOcs::decode(ocs), rsp, cmd, r),
    ensures
        r is Ok <==> ocs == 0 && rsp.accepts(cmd),
        r is Ok ==> (r->Ok_0 matches UfsCmd::Device(answer) && rsp.answers(cmd, answer)),
        ocs == 0 && !rsp.accepts(cmd) ==> r == Err::<UfsCmd, Error>(Error::EIO),
        1 <= ocs <= 4 || 9 <= ocs <= 10 ==> r == Err::<UfsCmd, Error>(Error::EINVAL),
        5 <= ocs <= 8 || ocs > 10 ==> r == Err::<UfsCmd, Error>(Error::EIO),
{
}

/// How the controller is made operational: interrupts of completed requests and of
/// errors are enabled, the lists' addresses are set, and when the controller says
/// that it is ready, within 50 milliseconds, the lists are started. Interrupt
/// aggregation is switched off first, except for a PCI device.
pub proof fn law_lists_are_ready_before_they_run(dma: UfsDma)
    ensures
        ({
            let enable = RegOp::SetBits { offset: 0x24, bits: 0x0007_1885 };
            let single = RegOp::Write { offset: 0x4c, value: 0 };
            let rest = seq![
                RegOp::Write {
                    offset: 0x50,
                    value: (dma@.utrdl_addr % 0x1_0000_0000) as u32,
                },
                RegOp::Write {
                    offset: 0x54,
                    value: (dma@.utrdl_addr / 0x1_0000_0000) as u32,
                },
                RegOp::Write {
                    offset: 0x70,
                    value: (dma@.utmrdl_addr % 0x1_0000_0000) as u32,
                },
                RegOp::Write {
                    offset: 0x74,
                    value: (dma@.utmrdl_addr / 0x1_0000_0000) as u32,
                },
                RegOp::Poll {
                    offset: 0x30,
                    mask: 0x0e,
                    value: 0x0e,
                    interval_us: 1000,
                    timeout_us: 50_000,
                },
                RegOp::Write { offset: 0x80, value: 1 },
                RegOp::Write { offset: 0x60, value: 1 },
            ];
            &&& dma.operational_ops(HostFlow::Pci) == seq![enable] + rest
            &&& dma.operational_ops(HostFlow::Resources) == seq![enable, single] + rest
        }),
{
    assert(0x0000_0001u32 | 0x0007_1884 == 0x0007_1885) by (bit_vector);
}

/// Composing a SCSI command: entry `i` of the slot's table is entry `i` of the
/// table that was handed in, the entries behind it and every other slot are as
/// before, the request descriptor says how many entries there are and which way
/// the data goes, and the slot's command unit is the command's. A command without
/// a slot is refused and nothing is changed.
pub proof fn law_composing_keeps_the_table(
    dma: &mut UfsDma,
    cmd: UfsSCSICmd,
    tag: usize,
    prdt: UfsPrdt,
    r: Result<Option<UfsPrdtMapping>, Error>,
    i: int,
    other: int,
)
    requires
        old(dma)@.valid(),
        prdt.wf(),
        call_ensures(UfsDma::compose_scsi_upiu, (dma, cmd, tag, prdt), r),
        0 <= i < 256,
        0 <= other < old(dma)@.slots(),
    ensures
        tag >= old(dma)@.slots() ==> r is Err && final(dma)@ == old(dma)@,
        tag < old(dma)@.slots() ==> {
            let slot = final(dma)@.ucdl[tag as int];
            &&& r == Ok::<Option<UfsPrdtMapping>, Error>(prdt.mapping)
            &&& slot.prdt[i] == if i < prdt.entries@.len() {
                prdt.entries@[i]
            } else {
                old(dma)@.ucdl[tag as int].prdt[i]
            }
            &&& final(dma)@.utrdl[tag as int].prd_table_length == prdt.entries@.len()
            &&& slot.cmd.bytes() == UpiuView::command(cmd, tag).bytes()
            &&& slot.rsp.bytes() == crate::endian::zeros(512)
            &&& cmd.direction is Read ==> final(dma)@.utrdl[tag as int].header.ctrl == 0x15
            &&& cmd.direction is Write ==> final(dma)@.utrdl[tag as int].header.ctrl == 0x13
            &&& cmd.direction is NoData ==> final(dma)@.utrdl[tag as int].header.ctrl == 0x11
            &&& final(dma)@.utrdl[tag as int].header.ocs == 0x0f
            &&& other != tag ==> final(dma)@.ucdl[other] == old(dma)@.ucdl[other]
                && final(dma)@.utrdl[other] == old(dma)@.utrdl[other]
        },
{
    if tag < old(dma)@.slots() {
        law_composed_table(old(dma)@, cmd, tag as int, prdt.entries@, i);
        if other != tag {
            law_compose_is_local(
                old(dma)@,
                tag as int,
                other,
                UfsDevCmd::Nop,
                cmd,
                prdt.entries@,
            );
        }
    }
}

/// A completion queue entry is accepted exactly when its tag has a slot, it came
/// from the queue that it names, and it points at the command descriptor of that
/// slot.
pub proof fn law_valid_entry_points_at_its_slot(
    dma: UfsDma,
    cqe: CqEntry,
    submission_queue_id: u8,
    queue_id: u32,
    r: Result<(), Error>,
)
    requires
        dma.wf(),
        call_ensures(UfsDma::validate_cq_entry, (&dma, &cqe, submission_queue_id, queue_id), r),
    ensures
        ({
            let address = cqe.command_desc_base_addr;
            let there = cqe.task_tag < dma@.slots() && submission_queue_id == queue_id;
            &&& r is Ok <==> there && dma@.ucd_addr + cqe.task_tag * 5120 == address - address % 128
            &&& !there ==> r == Err::<(), Error>(Error::EINVAL)
            &&& there && r is Err ==> r == Err::<(), Error>(Error::EIO)
        }),
{
}

/// A controller needs as many slots as it has, those of multi-circular queues
/// included if it has them and they are more.
pub proof fn law_enough_slots(reg: UfsReg, r: usize)
    requires
        call_ensures(UfsDma::transfer_slots_for, (&reg,), r),
    ensures
        r >= reg.cap % 32 + 1,
        reg.cap as int / 0x4000_0000 % 2 == 1 ==> r >= reg.cap % 256 + 1,
        r == reg.cap % 32 + 1 || (reg.cap as int / 0x4000_0000 % 2 == 1 && r == reg.cap % 256 + 1),
{
}

/// What a command came to is read from its own slot: from the status and the
/// response that were last taken over there, whatever was taken over elsewhere. The
/// status is the low half of its byte.
pub proof fn law_completion_is_read_from_its_slot(
    dma: &mut UfsDma,
    answered: &mut UfsDma,
    tag: usize,
    other: usize,
    ocs: u8,
    rsp: Upiu,
    cmd: UfsDevCmd,
    stored: (Result<(), Error>, Result<(), Error>),
    scsi: (UfsScsiResult, UfsScsiResult, UfsScsiResult),
    device: Result<UfsCmd, Error>,
)
    requires
        old(dma).wf(),
        tag < old(dma)@.slots(),
        other < old(dma)@.slots(),
        other != tag,
        call_ensures(UfsDma::load_status, (dma, tag, ocs), stored.0),
        *old(answered) == *final(dma),
        call_ensures(UfsDma::load_response, (answered, tag, rsp), stored.1),
        call_ensures(UfsDma::fetch_scsi_completion, (&*final(answered), tag), scsi.0),
        call_ensures(UfsDma::fetch_scsi_completion, (&*final(answered), other), scsi.1),
        call_ensures(UfsDma::fetch_scsi_completion, (&*old(dma), other), scsi.2),
        call_ensures(UfsDma::fetch_devman_upiu, (&*final(answered), cmd, tag), device),
    ensures
        stored.0 is Ok,
        stored.1 is Ok,
        scsi_outcome((ocs % 16) as u8, rsp@, scsi.0),
        devman_outcome(UtpOcs::decode((ocs % 16) as u8), rsp@, cmd, device),
        scsi.1.ocs == scsi.2.ocs,
        scsi_outcome(old(dma)@.utrdl[other as int].status(), old(dma)@.ucdl[other as int].rsp, scsi.1),
{
}

/// With circular queues the completion entry has the status, and the command's
/// slot the response.
pub proof fn law_entry_has_the_status(
    dma: &mut UfsDma,
    tag: usize,
    rsp: Upiu,
    cqe: CqEntry,
    cmd: UfsDevCmd,
    stored: Result<(), Error>,
    scsi: UfsScsiResult,
    device: Result<UfsCmd, Error>,
)
    requires
        old(dma).wf(),
        tag < old(dma)@.slots(),
        call_ensures(UfsDma::load_response, (dma, tag, rsp), stored),
        call_ensures(UfsDma::fetch_mcq_scsi_completion, (&*final(dma), tag, cqe), scsi),
        call_ensures(UfsDma::fetch_mcq_devman_upiu, (&*final(dma), cmd, tag, cqe), device),
    ensures
        scsi.ocs == cqe.overall_status,
        scsi_outcome(cqe.overall_status, rsp@, scsi),
        devman_outcome(UtpOcs::decode(cqe.overall_status), rsp@, cmd, device),
{
}

/// Memory that was just set up: as many slots as were asked for, the descriptor of
/// slot `i` points at the command descriptor of slot `i`, and an entry that names
/// that address is about slot `i`.
pub proof fn law_new_memory(
    transfer_slots: usize,
    ucd_addr: u64,
    utrdl_addr: u64,
    utmrdl_addr: u64,
    r: Result<UfsDma, Error>,
    tag: usize,
    utrd: Result<Utrd, Error>,
)
    requires
        transfer_slots * UCD_SIZE <= usize::MAX,
        ucd_addr + transfer_slots * UCD_SIZE <= u64::MAX,
        call_ensures(UfsDma::new, (transfer_slots, ucd_addr, utrdl_addr, utmrdl_addr), r),
        r is Ok ==> call_ensures(UfsDma::transfer_request_desc, (&r->Ok_0, tag), utrd),
    ensures
        r is Ok <==> transfer_slots > 0,
        r matches Ok(dma) ==> {
            &&& utrd is Ok <==> tag < transfer_slots
            &&& utrd matches Ok(u) ==> u.command_desc_base_addr == ucd_addr + tag * UCD_SIZE
        },
{
    if r is Ok && tag < transfer_slots {
        assert(tag * UCD_SIZE <= transfer_slots * UCD_SIZE) by (nonlinear_arith)
            requires
                tag < transfer_slots,
        ;
    }
}

/// Composing a device management command touches its own slot only. A tag without a
/// slot is refused.
pub proof fn law_composed_device_slot(
    dma: &mut UfsDma,
    cmd: UfsDevCmd,
    tag: usize,
    r: Result<(), Error>,
    other: int,
)
    requires
        old(dma).wf(),
        call_ensures(UfsDma::compose_devman_upiu, (dma, cmd, tag), r),
        0 <= other < old(dma)@.slots(),
        other != tag,
    ensures
        r is Ok <==> tag < old(dma)@.slots(),
        r is Ok ==> final(dma)@.ucdl[tag as int].cmd.bytes() == UpiuView::device(cmd, tag).bytes()
            && final(dma)@.ucdl[tag as int].rsp.bytes() == crate::endian::zeros(512),
        final(dma)@.ucdl[other] == old(dma)@.ucdl[other],
        final(dma)@.utrdl[other] == old(dma)@.utrdl[other],
        r is Err ==> final(dma)@ == old(dma)@,
{
    if r is Ok {
        law_composed_device_command(old(dma)@, cmd, tag as int);
    }
}

} // verus!
