//! Block requests and who owns them.
//!
//! A request's reference count tells who owns it. At 0 the block layer or one
//! unique reference owns it, at 1 the driver owns it without any reference, and
//! from 2 on there are shared references.

use vstd::prelude::*;

use crate::block::{BLK_STS_OK, SECTOR_SIZE};

verus! {

/// What the block layer says about a request.
#[derive(Clone, Copy, Debug, PartialEq, Eq, Structural)]
pub struct RequestInner {
    pub cmd_flags: u32,
    pub sector: u64,
    pub data_len: u32,
}

impl RequestInner {
    /// Get the command identifier for the request
    pub fn command(&self) -> (r: u32)
        ensures
            r == self.cmd_flags % 256,
    {
        self.cmd_flags % 256
    }

    /// Get the target sector for the request.
    pub fn sector(&self) -> (r: u64)
        ensures
            r == self.sector,
    {
        self.sector
    }

    /// Get the size of the request in number of sectors.
    pub fn sectors(&self) -> (r: u32)
        ensures
            r == self.data_len / 512,
    {
        self.bytes() / SECTOR_SIZE
    }

    /// Get the size of the request in bytes.
    pub fn bytes(&self) -> (r: u32)
        ensures
            r == self.data_len,
    {
        self.data_len
    }
}

/// Private data that accompanies a request.
pub struct RequestDataWrapper<T> {
    /// Who owns the request.
    pub refcount: u32,
    /// Driver managed request data.
    pub data: T,
}

/// Who owns a request.
pub enum Ownership {
    /// The block layer or one unique reference.
    Unique,
    /// The driver, without a reference.
    Parked,
    /// This many shared references.
    Shared(nat),
}

impl Ownership {
    /// With one more shared reference.
    pub open spec fn referenced(self) -> Self {
        match self {
            Ownership::Shared(n) => Ownership::Shared(n + 1),
            _ => Ownership::Shared(1),
        }
    }

    /// With one shared reference fewer.
    pub open spec fn dereferenced(self) -> Self {
        match self {
            Ownership::Shared(n) => if n == 1 {
                Ownership::Parked
            } else {
                Ownership::Shared((n - 1) as nat)
            },
            other => other,
        }
    }

    /// With a unique reference in place of the only shared one, if there is only
    /// one.
    pub open spec fn reclaimed(self) -> Option<Self> {
        if self == Ownership::Shared(1) {
            Some(Ownership::Unique)
        } else {
            None
        }
    }
}

/// A request can be reclaimed exactly when all references but one were dropped:
/// not while another one is held, and again once it is gone.
pub proof fn law_reclaim_needs_the_last_reference(owners: Ownership)
    requires
        owners matches Ownership::Shared(n) ==> n >= 1,
    ensures
        owners is Shared ==> owners.referenced().reclaimed() is None,
        owners is Shared ==> owners.referenced().dereferenced() == owners,
        owners is Parked ==> owners.referenced().reclaimed() == Some(Ownership::Unique),
        owners is Parked ==> owners.referenced().dereferenced() == owners,
{
}

/// An IO request.
pub struct Request<T> {
    pub inner: RequestInner,
    pub wrapper: RequestDataWrapper<T>,
    /// The block layer was told that the request is being processed.
    pub started: bool,
}

impl<T> Request<T> {
    /// Who owns the request.
    pub open spec fn ownership(self) -> Ownership {
        if self.wrapper.refcount == 0 {
            Ownership::Unique
        } else if self.wrapper.refcount == 1 {
            Ownership::Parked
        } else {
            Ownership::Shared((self.wrapper.refcount - 1) as nat)
        }
    }

    /// Only the ownership differs.
    pub open spec fn same_request(self, other: Self) -> bool {
        &&& self.inner == other.inner
        &&& self.wrapper.data == other.wrapper.data
        &&& self.started == other.started
    }

    /// Get the command identifier for the request
    pub fn command(&self) -> (r: u32)
        ensures
            r == self.inner.cmd_flags % 256,
    {
        self.inner.command()
    }

    /// Whether the completion has to run here, given whether the block layer
    /// has scheduled it elsewhere.
    pub fn complete(scheduled: bool) -> (r: bool)
        ensures
            r == !scheduled,
    {
        !scheduled
    }

    /// Adds a shared reference to a request that the driver owns.
    pub fn inc_ref(&mut self)
        requires
            1 <= old(self).wrapper.refcount < u32::MAX,
        ensures
            final(self).same_request(*old(self)),
            final(self).ownership() == old(self).ownership().referenced(),
    {
        self.wrapper.refcount = self.wrapper.refcount + 1;
    }

    /// Drops a shared reference. The driver still owns the request when it was
    /// the last one.
    pub fn dec_ref(&mut self)
        requires
            old(self).ownership() is Shared,
        ensures
            final(self).same_request(*old(self)),
            final(self).ownership() == old(self).ownership().dereferenced(),
    {
        self.wrapper.refcount = self.wrapper.refcount - 1;
    }

    /// Turns the only shared reference into a unique one. With more references
    /// nothing changes.
    pub fn try_from_shared(&mut self) -> (r: bool)
        ensures
            final(self).same_request(*old(self)),
            match old(self).ownership().reclaimed() {
                Some(owners) => r && final(self).ownership() == owners,
                None => !r && final(self).ownership() == old(self).ownership(),
            },
    {
        if self.wrapper.refcount == 2 {
            self.wrapper.refcount = 0;
            true
        } else {
            false
        }
    }
}

/// A [`Request`] that a driver has not yet begun to process.
pub struct IdleRequest<T>(pub Request<T>);

impl<T> IdleRequest<T> {
    /// The request was not started, and nobody refers to it.
    pub open spec fn wf(self) -> bool {
        !self.0.started && self.0.ownership() == Ownership::Unique
    }

    /// A request that the block layer hands to the driver.
    pub fn from_raw(inner: RequestInner, data: T) -> (r: Owned<Self>)
        ensures
            r.0.wf(),
            r.0.0.inner == inner,
            r.0.0.wrapper.data == data,
    {
        Owned(
            IdleRequest(
                Request {
                    inner,
                    wrapper: RequestDataWrapper { refcount: 0, data },
                    started: false,
                },
            ),
        )
    }

    /// Mark the request as processing.
    ///
    /// This converts the [`IdleRequest`] into a [`Request`].
    pub fn start(this: Owned<Self>) -> (r: Owned<Request<T>>)
        requires
            this.0.wf(),
        ensures
            r.0 == (Request { started: true, ..this.0.0 }),
    {
        let mut request = Owned(this.0.0);
        request.start_unchecked();
        request
    }
}

/// A unique reference.
pub struct Owned<R>(pub R);

/// What the block layer is told about a request that is over.
pub struct EndedRequest<T> {
    pub request: Request<T>,
    pub status: u8,
}

impl<T> Owned<Request<T>> {
    /// Notify the block layer that a request is going to be processed now.
    pub fn start_unchecked(&mut self)
        requires
            old(self).0.ownership() == Ownership::Unique,
            !old(self).0.started,
        ensures
            final(self).0 == (Request { started: true, ..old(self).0 }),
    {
        self.0.started = true;
    }

    /// Notify the block layer that the request has been completed without errors.
    pub fn end_ok(self) -> (r: EndedRequest<T>)
        requires
            self.0.ownership() == Ownership::Unique,
        ensures
            r == (EndedRequest { request: self.0, status: BLK_STS_OK }),
    {
        self.end(BLK_STS_OK)
    }

    /// Notify the block layer that the request has been completed.
    pub fn end(self, status: u8) -> (r: EndedRequest<T>)
        requires
            self.0.ownership() == Ownership::Unique,
        ensures
            r == (EndedRequest { request: self.0, status }),
    {
        EndedRequest { request: self.0, status }
    }

    /// Gives up the unique reference. The driver still owns the request.
    pub fn release(self) -> (r: Request<T>)
        requires
            self.0.ownership() == Ownership::Unique,
        ensures
            r.same_request(self.0),
            r.ownership() == Ownership::Parked,
    {
        let mut request = self.0;
        request.wrapper.refcount = request.wrapper.refcount + 1;
        request
    }

    /// Turns the unique reference into a shared one.
    pub fn into_shared(self) -> (r: Request<T>)
        requires
            self.0.ownership() == Ownership::Unique,
        ensures
            r.same_request(self.0),
            r.ownership() == Ownership::Shared(1),
    {
        let mut request = self.0;
        request.wrapper.refcount = request.wrapper.refcount + 2;
        request
    }
}

/// Who owns a request follows from its reference count: 0 is a unique reference,
/// 1 is the driver without one, and each count above is a shared reference.
pub proof fn law_count_tells_owner<T>(request: Request<T>)
    ensures
        request.ownership() is Unique <==> request.wrapper.refcount == 0,
        request.ownership() is Parked <==> request.wrapper.refcount == 1,
        request.ownership() matches Ownership::Shared(n) ==> request.wrapper.refcount == n + 1 && n
            > 0,
{
}

/// A reference that is taken is one more, one that is given back is one fewer, and
/// only the last one can be made unique.
pub proof fn law_references_count(owners: Ownership, n: nat)
    requires
        n > 0,
    ensures
        Ownership::Parked.referenced() == Ownership::Shared(1),
        Ownership::Shared(n).referenced() == Ownership::Shared(n + 1),
        Ownership::Shared(n + 1).dereferenced() == Ownership::Shared(n),
        Ownership::Shared(1).dereferenced() == Ownership::Parked,
        owners.reclaimed() is Some <==> owners == Ownership::Shared(1),
        owners.reclaimed() is Some ==> owners.reclaimed() == Some(Ownership::Unique),
{
}

/// A request that was shared is taken back as it was handed out: not while another
/// reference is held, and again once that one was dropped.
pub proof fn law_shared_request_is_taken_back<T>(
    owned: Owned<Request<T>>,
    shared: &mut Request<T>,
    early: &mut Request<T>,
    dropped: &mut Request<T>,
    late: &mut Request<T>,
    too_early: bool,
    in_time: bool,
)
    requires
        owned.0.wrapper.refcount == 0,
        call_ensures(Owned::<Request<T>>::into_shared, (owned,), *old(shared)),
        call_ensures(Request::<T>::inc_ref, (shared,), ()),
        *old(early) == *final(shared),
        call_ensures(Request::<T>::try_from_shared, (early,), too_early),
        *old(dropped) == *final(early),
        call_ensures(Request::<T>::dec_ref, (dropped,), ()),
        *old(late) == *final(dropped),
        call_ensures(Request::<T>::try_from_shared, (late,), in_time),
    ensures
        !too_early,
        in_time,
        final(late).wrapper.refcount == 0,
        final(late).inner == owned.0.inner,
        final(late).wrapper.data == owned.0.wrapper.data,
        final(late).started == owned.0.started,
{
}

/// A request that is over is the one that was handed in, with the status that the
/// driver gave; without an error the status is zero.
pub proof fn law_ended_request<T>(
    owned: Owned<Request<T>>,
    status: u8,
    ok: EndedRequest<T>,
    other: EndedRequest<T>,
)
    requires
        call_ensures(Owned::<Request<T>>::end_ok, (owned,), ok),
        call_ensures(Owned::<Request<T>>::end, (owned, status), other),
    ensures
        ok.status == 0,
        ok.request == owned.0,
        other.status == status,
        other.request == owned.0,
{
}

} // verus!
