//! The UFS device: identification and device management.

use vstd::prelude::*;

use crate::block::request_queue::{BoundRequestQueue, LimitsBuilder, PendingQueue, RequestQueue};
use crate::descriptor::{Desc, DeviceDesc, GeometryDesc, UnitDesc};
use crate::error::Error;
use crate::lu::QueueData;
use crate::query::{UfsCmd, UfsDevCmd, UfsQueryCmd};
use crate::request::{UfsRequestInner, UfsRequestState};

verus! {

/// Time that the device has to initialize itself, in milliseconds.
pub const FDEVICE_COMPL_TIMEOUT_MS: i64 = 1500;

/// Interval at which the device is asked whether it has initialized itself, in
/// microseconds.
pub const FDEVICE_COMPL_TICK_US: i64 = 500;

/// Number of logical units of a device that allows many.
pub const MAX_LU_MANY: usize = 32;

/// Number of logical units of any other device.
pub const MAX_LU_FEW: usize = 8;

/// What the device says about itself.
#[derive(Clone, Copy, Debug, PartialEq, Eq, Structural)]
pub struct UfsDevInfo {
    pub max_lu: usize,
    pub num_lu: usize,
    pub num_wlu: usize,
    pub manufacturer_id: u16,
    pub spec_version: u16,
    pub queue_depth: usize,
    pub rtt_cap: u8,
    pub luns_avail: usize,
}

impl Default for UfsDevInfo {
    fn default() -> (r: Self)
        ensures
            r == UfsDevInfo::unknown(),
    {
        UfsDevInfo {
            max_lu: 0,
            num_lu: 0,
            num_wlu: 0,
            manufacturer_id: 0,
            spec_version: 0,
            queue_depth: 0,
            rtt_cap: 0,
            luns_avail: 0,
        }
    }
}

impl UfsDevInfo {
    /// Nothing is known.
    pub open spec fn unknown() -> Self {
        UfsDevInfo {
            max_lu: 0,
            num_lu: 0,
            num_wlu: 0,
            manufacturer_id: 0,
            spec_version: 0,
            queue_depth: 0,
            rtt_cap: 0,
            luns_avail: 0,
        }
    }

    /// With what a geometry descriptor says.
    pub open spec fn with_geometry(self, desc: GeometryDesc) -> Self {
        UfsDevInfo {
            max_lu: if desc.max_number_lu == 1 {
                MAX_LU_MANY
            } else {
                MAX_LU_FEW
            },
            ..self
        }
    }

    /// With what a device descriptor says.
    pub open spec fn with_device(self, desc: DeviceDesc) -> Self {
        UfsDevInfo {
            manufacturer_id: desc.manufacturer_id,
            spec_version: desc.spec_version,
            queue_depth: desc.queue_depth as usize,
            rtt_cap: desc.device_rtt_cap,
            num_lu: desc.number_lu as usize,
            num_wlu: desc.number_wlu as usize,
            luns_avail: (desc.number_lu + desc.number_wlu) as usize,
            ..self
        }
    }
}

/// Queue for task management, which no command uses yet.
pub struct TmfQueue {
    pub queue: BoundRequestQueue<()>,
}

impl TmfQueue {
    /// The queue has this depth and no particular limits, and is not stopped.
    pub open spec fn is_new(self, depth: usize) -> bool {
        &&& self.queue.0.queue_depth() == depth
        &&& self.queue.0.queue_limits() == LimitsBuilder::initial().limits()
        &&& !self.queue.0.is_stopped()
    }

    /// What keeps the queue from being set up, if anything does.
    pub open spec fn setup_error(
        depth: usize,
        tags_allocated: Result<(), Error>,
        queue_allocated: Result<(), Error>,
    ) -> Option<Error> {
        if depth > u32::MAX {
            Some(Error::EINVAL)
        } else if tags_allocated is Err {
            Some(tags_allocated->Err_0)
        } else if depth == 0 {
            Some(Error::EINVAL)
        } else if queue_allocated is Err {
            Some(queue_allocated->Err_0)
        } else {
            None
        }
    }

    /// Number of tags that the platform has to allocate for a queue of this
    /// depth, if there are not too many.
    pub fn tags(depth: usize) -> (r: Result<u32, Error>)
        ensures
            r == (if depth > u32::MAX {
                Err::<u32, Error>(Error::EINVAL)
            } else {
                Ok(depth as u32)
            }),
    {
        match u32::try_from(depth) {
            Ok(depth) => Ok(depth),
            Err(_) => Err(Error::EINVAL),
        }
    }

    /// The queue that the platform has to allocate once the tags are there, given
    /// whether they could be allocated.
    pub fn prepare(depth: usize, tags_allocated: Result<(), Error>) -> (r: Result<
        PendingQueue<()>,
        Error,
    >)
        ensures
            match Self::setup_error(depth, tags_allocated, Ok(())) {
                Some(e) => r == Err::<PendingQueue<()>, Error>(e),
                None => r matches Ok(pending) && {
                    &&& pending.queue_depth() == depth
                    &&& pending.queue_limits() == LimitsBuilder::initial().limits()
                },
            },
    {
        let depth = match Self::tags(depth) {
            Ok(depth) => depth,
            Err(e) => return Err(e),
        };
        match tags_allocated {
            Ok(()) => {},
            Err(e) => return Err(e),
        }
        match LimitsBuilder::new().build(false) {
            Ok(limits) => RequestQueue::prepare(limits, (), depth),
            Err(e) => Err(e),
        }
    }

    /// A queue of this depth, given whether the platform could allocate its tags
    /// and the queue itself.
    pub fn new(
        depth: usize,
        tags_allocated: Result<(), Error>,
        queue_allocated: Result<(), Error>,
    ) -> (r: Result<Self, Error>)
        ensures
            match Self::setup_error(depth, tags_allocated, queue_allocated) {
                Some(e) => r == Err::<Self, Error>(e),
                None => r matches Ok(tmf) && tmf.is_new(depth),
            },
    {
        let pending = match Self::prepare(depth, tags_allocated) {
            Ok(pending) => pending,
            Err(e) => return Err(e),
        };
        match RequestQueue::new(pending, queue_allocated) {
            Ok(queue) => Ok(TmfQueue { queue }),
            Err(e) => Err(e),
        }
    }
}

/// The device.
pub struct UfsDev {
    pub request_queue: BoundRequestQueue<QueueData>,
    pub info: UfsDevInfo,
    pub tmf_queue: Option<TmfQueue>,
}

/// The request that an answer holds, if it is a query.
fn query_of(answer: &UfsCmd) -> (r: Result<UfsQueryCmd, Error>)
    ensures
        r == answer.query_part(),
{
    match answer.get_device() {
        Ok(cmd) => cmd.get_query(),
        Err(e) => Err(e),
    }
}

/// The descriptor that an answer holds.
pub fn read_desc(answer: &UfsCmd) -> (r: Result<Desc, Error>)
    ensures
        r == (match answer.query_part() {
            Ok(cmd) => match cmd.read_desc_part() {
                Ok(desc) => Ok::<Desc, Error>(desc.desc),
                Err(e) => Err(e),
            },
            Err(e) => Err(e),
        }),
{
    match query_of(answer) {
        Ok(cmd) => {
            match cmd.get_read_desc() {
                Ok(cmd) => Ok(cmd.desc),
                Err(e) => Err(e),
            }
        },
        Err(e) => Err(e),
    }
}

/// The attribute value that an answer holds, if any.
pub open spec fn attr_of(answer: UfsCmd) -> Result<u64, Error> {
    match answer.query_part() {
        Ok(cmd) => cmd.attr_value(),
        Err(e) => Err(e),
    }
}

/// The attribute value that an answer holds.
pub fn read_attr(answer: &UfsCmd) -> (r: Result<u64, Error>)
    ensures
        r == attr_of(*answer),
{
    match query_of(answer) {
        Ok(cmd) => cmd.get_attr_value(),
        Err(e) => Err(e),
    }
}

/// Whether the answer to an attribute write confirms the value.
pub fn write_attr(answer: &UfsCmd, value: u64) -> (r: Result<(), Error>)
    ensures
        r == (match attr_of(*answer) {
            Ok(v) => if v == value {
                Ok::<(), Error>(())
            } else {
                Err(Error::EIO)
            },
            Err(e) => Err(e),
        }),
{
    match read_attr(answer) {
        Ok(v) => {
            if v == value {
                Ok(())
            } else {
                Err(Error::EIO)
            }
        },
        Err(e) => Err(e),
    }
}

/// The flag value that an answer holds.
pub fn read_flag(answer: &UfsCmd) -> (r: Result<u8, Error>)
    ensures
        r == (match answer.query_part() {
            Ok(cmd) => cmd.flag_value(),
            Err(e) => Err(e),
        }),
{
    match query_of(answer) {
        Ok(cmd) => cmd.get_flag_value(),
        Err(e) => Err(e),
    }
}

/// The unit descriptor that an answer holds.
pub fn read_unit_desc(answer: &UfsCmd) -> (r: Result<UnitDesc, Error>)
    ensures
        r == (match answer.query_part() {
            Ok(cmd) => match cmd.read_desc_part() {
                Ok(desc) => match desc.desc {
                    Desc::Unit(unit) => Ok::<UnitDesc, Error>(unit),
                    _ => Err(Error::EINVAL),
                },
                Err(e) => Err(e),
            },
            Err(e) => Err(e),
        }),
{
    match read_desc(answer) {
        Ok(desc) => desc.get_unit(),
        Err(e) => Err(e),
    }
}

/// Whether the device says that it has initialized itself.
pub fn init_done(flag: u8) -> (r: bool)
    ensures
        r == (flag == 0),
{
    flag == 0
}

/// What waiting for the device to initialize itself came to. A device that takes
/// too long is busy.
pub fn complete_dev_init(polled: Result<u8, Error>) -> (r: Result<(), Error>)
    ensures
        r == (match polled {
            Ok(_) => Ok::<(), Error>(()),
            Err(e) => if e.number() == Error::ETIMEDOUT.number() {
                Err(Error::EBUSY)
            } else {
                Err(e)
            },
        }),
{
    match polled {
        Ok(_) => Ok(()),
        Err(e) => {
            if e.same_as(Error::ETIMEDOUT) {
                Err(Error::EBUSY)
            } else {
                Err(e)
            }
        },
    }
}

/// Starts a device management command on an idle request.
pub fn begin_submit(request: &mut UfsRequestInner, cmd: UfsCmd) -> (r: Result<(), Error>)
    ensures
        if cmd is Device && old(request).state is Idle {
            &&& r == Ok::<(), Error>(())
            &&& final(request).state == (UfsRequestState::Prepared { cmd, prdt: None })
        } else {
            &&& r == Err::<(), Error>(Error::EINVAL)
            &&& final(request).state == old(request).state
        },
{
    request.prepare_device(cmd)
}

/// The answer to a device management command, given what the block layer says
/// about the request. A request that failed has no answer.
pub fn finish_submit(request: &mut UfsRequestInner, executed: Result<(), Error>) -> (r: Result<
    UfsCmd,
    Error,
>)
    ensures
        match executed {
            Err(e) => r == Err::<UfsCmd, Error>(e) && final(request).state == old(request).state,
            Ok(()) => match old(request).state {
                UfsRequestState::DeviceComplete(cmd) => r == Ok::<UfsCmd, Error>(
                    UfsCmd::Device(cmd),
                ) && final(request).state is Idle,
                _ => r == Err::<UfsCmd, Error>(Error::EIO) && final(request).state == old(
                    request,
                ).state,
            },
        },
{
    match executed {
        Ok(()) => request.take_device_completion(),
        Err(e) => Err(e),
    }
}

impl UfsDev {
    /// The queue that the platform has to allocate for the device. A depth of 0
    /// is refused before anything is allocated.
    pub fn prepare_queue(queue_depth: u32) -> (r: Result<PendingQueue<QueueData>, Error>)
        ensures
            match r {
                Ok(pending) => {
                    &&& queue_depth > 0
                    &&& pending.queue_depth() == queue_depth
                    &&& pending.driver_data() == QueueData::Dev
                    &&& pending.queue_limits() == LimitsBuilder::initial().limits()
                },
                Err(e) => queue_depth == 0 && e == Error::EINVAL,
            },
    {
        match LimitsBuilder::new().build(false) {
            Ok(limits) => RequestQueue::prepare(limits, QueueData::Dev, queue_depth),
            Err(e) => Err(e),
        }
    }

    /// The device, given whether the platform could allocate its queue.
    pub fn new(queue_depth: u32, queue_allocated: Result<(), Error>) -> (r: Result<Self, Error>)
        ensures
            match r {
                Ok(dev) => {
                    &&& queue_depth > 0
                    &&& queue_allocated is Ok
                    &&& dev.info == UfsDevInfo::unknown()
                    &&& dev.tmf_queue is None
                    &&& dev.request_queue.0.driver_data() == QueueData::Dev
                    &&& dev.request_queue.0.queue_depth() == queue_depth
                    &&& dev.request_queue.0.queue_limits() == LimitsBuilder::initial().limits()
                    &&& !dev.request_queue.0.is_stopped()
                },
                Err(e) => if queue_depth == 0 {
                    e == Error::EINVAL
                } else {
                    queue_allocated == Err::<(), Error>(e)
                },
            },
    {
        let pending = match Self::prepare_queue(queue_depth) {
            Ok(pending) => pending,
            Err(e) => return Err(e),
        };
        match RequestQueue::new(pending, queue_allocated) {
            Ok(request_queue) => Ok(
                UfsDev { request_queue, info: UfsDevInfo::default(), tmf_queue: None },
            ),
            Err(e) => Err(e),
        }
    }

    /// Number of tags that the platform has to allocate for the queue for task
    /// management, if that queue is not there yet.
    pub fn tmf_tags(&self, depth: usize) -> (r: Result<u32, Error>)
        ensures
            r == (if self.tmf_queue is Some {
                Err::<u32, Error>(Error::EBUSY)
            } else if depth > u32::MAX {
                Err(Error::EINVAL)
            } else {
                Ok(depth as u32)
            }),
    {
        if self.tmf_queue.is_some() {
            return Err(Error::EBUSY);
        }
        TmfQueue::tags(depth)
    }

    /// Sets the queue for task management aside, given whether the platform
    /// could allocate its tags and the queue itself.
    pub fn alloc_tmf_queue(
        &mut self,
        depth: usize,
        tags_allocated: Result<(), Error>,
        queue_allocated: Result<(), Error>,
    ) -> (r: Result<(), Error>)
        ensures
            *final(self) == (UfsDev { tmf_queue: final(self).tmf_queue, ..*old(self) }),
            if old(self).tmf_queue is Some {
                r == Err::<(), Error>(Error::EBUSY) && final(self).tmf_queue == old(
                    self,
                ).tmf_queue
            } else {
                match TmfQueue::setup_error(depth, tags_allocated, queue_allocated) {
                    Some(e) => r == Err::<(), Error>(e) && final(self).tmf_queue is None,
                    None => r == Ok::<(), Error>(()) && (final(self).tmf_queue matches Some(tmf)
                        && tmf.is_new(depth)),
                }
            },
    {
        if self.tmf_queue.is_some() {
            return Err(Error::EBUSY);
        }
        match TmfQueue::new(depth, tags_allocated, queue_allocated) {
            Ok(tmf_queue) => {
                self.tmf_queue = Some(tmf_queue);
                Ok(())
            },
            Err(e) => Err(e),
        }
    }

    /// Number of logical units.
    pub fn num_lu(&self) -> (r: usize)
        ensures
            r == self.info.num_lu,
    {
        self.info.num_lu
    }

    /// Takes over what the answer to a geometry descriptor read says.
    pub fn get_geometry_info(&mut self, answer: &UfsCmd) -> (r: Result<(), Error>)
        ensures
            match answer.query_part() {
                Err(e) => r == Err::<(), Error>(e) && *final(self) == *old(self),
                Ok(cmd) => match cmd.read_desc_part() {
                    Err(e) => r == Err::<(), Error>(e) && *final(self) == *old(self),
                    Ok(desc) => match desc.desc {
                        Desc::Geometry(geometry) => r == Ok::<(), Error>(()) && *final(self) == (
                        UfsDev { info: old(self).info.with_geometry(geometry), ..*old(self) }),
                        _ => r == Err::<(), Error>(Error::EINVAL) && *final(self) == *old(self),
                    },
                },
            },
    {
        let desc = match read_desc(answer) {
            Ok(desc) => desc,
            Err(e) => return Err(e),
        };
        let desc = match desc.get_geometry() {
            Ok(desc) => desc,
            Err(e) => return Err(e),
        };
        match desc.max_number_lu {
            1 => {
                self.info.max_lu = MAX_LU_MANY;
            },
            _ => {
                self.info.max_lu = MAX_LU_FEW;
            },
        }
        Ok(())
    }

    /// Takes over what the answer to a device descriptor read says. A device has
    /// no more than 255 logical units, the well-known ones among them.
    pub fn get_device_info(&mut self, answer: &UfsCmd) -> (r: Result<(), Error>)
        requires
            answer.query_part() matches Ok(UfsQueryCmd::ReadDesc(cmd)) && cmd.desc matches
                Desc::Device(desc) ==> desc.number_lu + desc.number_wlu <= u8::MAX,
        ensures
            match answer.query_part() {
                Err(e) => r == Err::<(), Error>(e) && *final(self) == *old(self),
                Ok(cmd) => match cmd.read_desc_part() {
                    Err(e) => r == Err::<(), Error>(e) && *final(self) == *old(self),
                    Ok(desc) => match desc.desc {
                        Desc::Device(device) => r == Ok::<(), Error>(()) && *final(self) == (UfsDev {
                            info: old(self).info.with_device(device),
                            ..*old(self)
                        }),
                        _ => r == Err::<(), Error>(Error::EINVAL) && *final(self) == *old(self),
                    },
                },
            },
    {
        let desc = match read_desc(answer) {
            Ok(desc) => desc,
            Err(e) => return Err(e),
        };
        let desc = match desc.get_device() {
            Ok(desc) => desc,
            Err(e) => return Err(e),
        };
        self.info.manufacturer_id = desc.manufacturer_id;
        self.info.spec_version = desc.spec_version;
        self.info.queue_depth = desc.queue_depth as usize;
        self.info.rtt_cap = desc.device_rtt_cap;
        self.info.num_lu = desc.number_lu as usize;
        self.info.num_wlu = desc.number_wlu as usize;
        self.info.luns_avail = (desc.number_lu + desc.number_wlu) as usize;
        Ok(())
    }
}

/// A NOP OUT, which shows that the device answers.
pub fn verify_cmd() -> (r: UfsCmd)
    ensures
        r == UfsCmd::Device(UfsDevCmd::Nop),
{
    UfsDevCmd::nop()
}

/// What the driver knows of a device once it has read its descriptors, byte by
/// byte: the device descriptor has the number of logical units in byte 6 and of
/// well-known ones in byte 7, the version and the manufacturer in bytes 16 and 24,
/// the number of outstanding transfer requests in byte 28 and the queue depth in
/// byte 33; the geometry descriptor tells in byte 12 whether there may be 32 units
/// or 8.
pub proof fn law_device_is_what_its_descriptors_say(info: UfsDevInfo, data: Seq<u8>)
    requires
        data.len() >= 105,
    ensures
        ({
            let known = info.with_device(DeviceDesc::decode(data));
            &&& known.num_lu == data[6]
            &&& known.num_wlu == data[7]
            &&& known.luns_avail == data[6] + data[7]
            &&& known.spec_version == data[16] * 256 + data[17]
            &&& known.manufacturer_id == data[24] * 256 + data[25]
            &&& known.rtt_cap == data[28]
            &&& known.queue_depth == data[33]
            &&& known.max_lu == info.max_lu
        }),
        ({
            let known = info.with_geometry(GeometryDesc::decode(data));
            &&& known.max_lu == if data[12] == 1 {
                32int
            } else {
                8
            }
            &&& known.num_lu == info.num_lu
            &&& known.num_wlu == info.num_wlu
            &&& known.luns_avail == info.luns_avail
            &&& known.manufacturer_id == info.manufacturer_id
            &&& known.spec_version == info.spec_version
            &&& known.queue_depth == info.queue_depth
            &&& known.rtt_cap == info.rtt_cap
        }),
{
    crate::descriptor::law_device_descriptor_fields(data);
    crate::descriptor::law_geometry_descriptor_fields(data);
}

/// The value that an answer holds is the one that stands in the response that it
/// was taken from.
pub proof fn law_attribute_is_what_the_device_reports(
    u: crate::upiu::UpiuView,
    cmd: UfsQueryCmd,
    answer: UfsDevCmd,
)
    requires
        u.body.len() == crate::upiu::UPIU_BODY_SIZE,
        cmd is ReadAttr || cmd is WriteAttr,
        u.answers(UfsDevCmd::Query(cmd), answer),
    ensures
        attr_of(UfsCmd::Device(answer)) matches Ok(value) && value == crate::endian::be_value(
            u.bytes().subrange(16, 24),
        ),
{
    crate::upiu::law_answer_is_what_the_device_reports(u, cmd, answer);
}

/// What keeps the queue for task management from being set up: a depth that the
/// block layer cannot count or that is 0, or what the platform reports.
pub proof fn law_what_keeps_tmf_queue(
    depth: usize,
    tags_allocated: Result<(), Error>,
    queue_allocated: Result<(), Error>,
)
    ensures
        TmfQueue::setup_error(depth, tags_allocated, queue_allocated) is None <==> 0 < depth
            <= u32::MAX && tags_allocated is Ok && queue_allocated is Ok,
        0 < depth <= u32::MAX && tags_allocated is Err ==> TmfQueue::setup_error(
            depth,
            tags_allocated,
            queue_allocated,
        ) == Some(tags_allocated->Err_0),
        0 < depth <= u32::MAX && tags_allocated is Ok && queue_allocated is Err
            ==> TmfQueue::setup_error(depth, tags_allocated, queue_allocated) == Some(
            queue_allocated->Err_0,
        ),
        depth == 0 && tags_allocated is Ok || depth > u32::MAX ==> TmfQueue::setup_error(
            depth,
            tags_allocated,
            queue_allocated,
        ) == Some(Error::EINVAL),
{
}

/// An attribute write is confirmed exactly when the device answers it with the
/// value that was written.
pub proof fn law_write_is_confirmed_by_value(
    u: crate::upiu::UpiuView,
    cmd: UfsQueryCmd,
    answer: UfsDevCmd,
    value: u64,
    r: Result<(), Error>,
)
    requires
        u.body.len() == crate::upiu::UPIU_BODY_SIZE,
        cmd is WriteAttr,
        u.answers(UfsDevCmd::Query(cmd), answer),
        call_ensures(write_attr, (&UfsCmd::Device(answer), value), r),
    ensures
        r is Ok <==> crate::endian::be_value(u.bytes().subrange(16, 24)) == value,
        r is Err ==> r == Err::<(), Error>(Error::EIO),
{
    law_attribute_is_what_the_device_reports(u, cmd, answer);
}

/// A device that takes too long to initialize itself is busy; any other failure is
/// reported as it is. It is done when its flag is 0.
pub proof fn law_initialization_outcome(
    polled: Result<u8, Error>,
    r: Result<(), Error>,
    flag: u8,
    done: bool,
)
    requires
        call_ensures(complete_dev_init, (polled,), r),
        call_ensures(init_done, (flag,), done),
    ensures
        r is Ok <==> polled is Ok,
        polled matches Err(e) ==> e.number() == -110 ==> r == Err::<(), Error>(Error::EBUSY),
        polled matches Err(e) ==> e.number() != -110 ==> r == Err::<(), Error>(e),
        done <==> flag == 0,
{
}

/// The device is known by the descriptors that it sent. Any other answer is refused
/// and changes nothing.
pub proof fn law_descriptors_are_taken_over(
    dev: &mut UfsDev,
    sized: &mut UfsDev,
    answer: UfsCmd,
    known: Result<(), Error>,
    shaped: Result<(), Error>,
    unit: Result<UnitDesc, Error>,
)
    requires
        call_requires(UfsDev::get_device_info, (dev, &answer)),
        call_ensures(UfsDev::get_device_info, (dev, &answer), known),
        call_ensures(UfsDev::get_geometry_info, (sized, &answer), shaped),
        call_ensures(read_unit_desc, (&answer,), unit),
    ensures
        match answer {
            UfsCmd::Device(
                crate::query::UfsDevCmd::Query(UfsQueryCmd::ReadDesc(cmd)),
            ) => match cmd.desc {
                Desc::Device(desc) => known is Ok && shaped is Err && unit is Err && final(dev).info.num_lu == desc.number_lu && final(dev).info.queue_depth == desc.queue_depth
                    && final(dev).info.num_wlu == desc.number_wlu,
                Desc::Geometry(_) => known is Err && shaped is Ok && unit is Err,
                Desc::Unit(desc) => known is Err && shaped is Err && unit == Ok::<UnitDesc, Error>(
                    desc,
                ),
                _ => known is Err && shaped is Err && unit is Err,
            },
            _ => known is Err && shaped is Err && unit is Err,
        },
        known is Err ==> *final(dev) == *old(dev),
        shaped is Err ==> *final(sized) == *old(sized),
        final(dev).tmf_queue == old(dev).tmf_queue,
        final(sized).tmf_queue == old(sized).tmf_queue,
{
}

/// A command that is submitted is the one that the request holds; what the caller
/// gets is the device's answer to it, once, and only if the request was executed.
pub proof fn law_submission_gives_the_answer(
    request: &mut UfsRequestInner,
    cmd: UfsCmd,
    begun: Result<(), Error>,
    answered: &mut UfsRequestInner,
    executed: Result<(), Error>,
    r: Result<UfsCmd, Error>,
    again: &mut UfsRequestInner,
    second: Result<UfsCmd, Error>,
)
    requires
        call_ensures(begin_submit, (request, cmd), begun),
        call_ensures(finish_submit, (answered, executed), r),
        *old(again) == *final(answered),
        call_ensures(finish_submit, (again, executed), second),
    ensures
        begun is Ok <==> cmd is Device && old(request).state is Idle,
        begun is Ok ==> (final(request).state matches UfsRequestState::Prepared { cmd: c, prdt: p } && c
            == cmd && p is None),
        begun is Err ==> final(request).state == old(request).state,
        r is Ok <==> executed is Ok && old(answered).state is DeviceComplete,
        r matches Ok(UfsCmd::Device(c)) ==> old(answered).state == UfsRequestState::DeviceComplete(c),
        r matches Ok(c) ==> c is Device,
        second is Err,
{
}

/// The queue for task management is set up once.
pub proof fn law_tmf_queue_is_set_up_once(
    dev: &mut UfsDev,
    depth: usize,
    tags_allocated: Result<(), Error>,
    queue_allocated: Result<(), Error>,
    r: Result<(), Error>,
    tags: Result<u32, Error>,
)
    requires
        call_ensures(UfsDev::alloc_tmf_queue, (dev, depth, tags_allocated, queue_allocated), r),
        call_ensures(UfsDev::tmf_tags, (&*final(dev), depth), tags),
    ensures
        old(dev).tmf_queue is Some ==> r == Err::<(), Error>(Error::EBUSY),
        r is Ok ==> tags == Err::<u32, Error>(Error::EBUSY) && (final(dev).tmf_queue matches Some(
            q,
        ) && q.queue.0.queue_depth() == depth),
        r is Err ==> final(dev).tmf_queue == old(dev).tmf_queue,
        final(dev).info == old(dev).info,
{
}

/// Before the device sent a descriptor nothing is known of it: every number is zero,
/// and no unit is looked for.
pub proof fn law_unknown_device()
    ensures
        ({
            let info = UfsDevInfo::unknown();
            info.max_lu + info.num_lu + info.num_wlu + info.manufacturer_id + info.spec_version
                + info.queue_depth + info.rtt_cap + info.luns_avail == 0
        }),
{
}

} // verus!
