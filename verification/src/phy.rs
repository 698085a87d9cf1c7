//! Generic PHY consumer handle.

use vstd::prelude::*;

use crate::error::{self, to_result, Error};

verus! {

/// A UFS high-speed PHY mode.
#[derive(Clone, Copy, Debug, PartialEq, Eq, Structural)]
pub enum UfsMode {
    /// High-speed series A.
    HighSpeedA,
    /// High-speed series B.
    HighSpeedB,
}

/// A call that undoes something of a PHY.
#[derive(Clone, Copy, Debug, PartialEq, Eq, Structural)]
pub enum PhyCall {
    /// Power the PHY off.
    PowerOff,
    /// Leave the PHY.
    Exit,
}

/// What was done through a PHY handle, with what the platform returned.
#[derive(Clone, Copy, Debug, PartialEq, Eq, Structural)]
pub enum PhyEvent {
    /// An attempt to initialize the PHY.
    Init(i32),
    /// An attempt to power the PHY on.
    PowerOn(i32),
    /// The PHY was shut down.
    Shutdown,
}

/// A generic PHY consumer handle: what of the PHY was brought up through it.
#[derive(Clone, Copy, Debug, PartialEq, Eq, Structural)]
pub struct Phy {
    pub initialized: bool,
    pub powered: bool,
}

impl Phy {
    /// The calls that undo all that was brought up, in their order: power is
    /// switched off before the PHY is left.
    pub open spec fn undoing(self) -> Seq<PhyCall> {
        (if self.powered {
            seq![PhyCall::PowerOff]
        } else {
            Seq::empty()
        }) + (if self.initialized {
            seq![PhyCall::Exit]
        } else {
            Seq::empty()
        })
    }

    /// The handle after an event.
    pub open spec fn after(self, event: PhyEvent) -> Self {
        match event {
            PhyEvent::Init(ret) => Phy { initialized: self.initialized || ret >= 0, ..self },
            PhyEvent::PowerOn(ret) => Phy { powered: self.powered || ret >= 0, ..self },
            PhyEvent::Shutdown => Self::down(),
        }
    }

    /// A new handle after these events, one after the other.
    pub open spec fn after_all(events: Seq<PhyEvent>) -> Self
        decreases events.len(),
    {
        if events.len() == 0 {
            Self::down()
        } else {
            Self::after_all(events.drop_last()).after(events.last())
        }
    }

    /// Nothing is brought up.
    pub open spec fn down() -> Self {
        Phy { initialized: false, powered: false }
    }

    /// A handle through which nothing was brought up yet, given whether the
    /// platform found the PHY.
    pub fn get(found: Result<(), Error>) -> (r: Result<Self, Error>)
        ensures
            r == (match found {
                Ok(()) => Ok::<Self, Error>(Phy::down()),
                Err(e) => Err(e),
            }),
    {
        match found {
            Ok(()) => Ok(Phy { initialized: false, powered: false }),
            Err(e) => Err(e),
        }
    }

    /// Takes note of an attempt to initialize the PHY, given what the platform
    /// returned.
    pub fn init(&mut self, ret: i32) -> (r: Result<(), Error>)
        ensures
            r == error::outcome(ret),
            *final(self) == old(self).after(PhyEvent::Init(ret)),
    {
        match to_result(ret) {
            Ok(()) => {
                self.initialized = true;
                Ok(())
            },
            Err(e) => Err(e),
        }
    }

    /// What selecting a mode hands to the platform: whether the rate is series B.
    pub fn rate_b(mode: UfsMode) -> (r: bool)
        ensures
            r == (mode == UfsMode::HighSpeedB),
    {
        matches!(mode, UfsMode::HighSpeedB)
    }

    /// What selecting a mode and gear came to, given what the platform returned.
    pub fn set_ufs_mode(&self, ret: i32) -> (r: Result<(), Error>)
        ensures
            r == error::outcome(ret),
    {
        to_result(ret)
    }

    /// Takes note of an attempt to power the PHY on, given what the platform
    /// returned.
    pub fn power_on(&mut self, ret: i32) -> (r: Result<(), Error>)
        ensures
            r == error::outcome(ret),
            *final(self) == old(self).after(PhyEvent::PowerOn(ret)),
    {
        match to_result(ret) {
            Ok(()) => {
                self.powered = true;
                Ok(())
            },
            Err(e) => Err(e),
        }
    }

    /// What an attempt to calibrate the PHY came to, given what the platform
    /// returned.
    pub fn calibrate(&self, ret: i32) -> (r: Result<(), Error>)
        ensures
            r == error::outcome(ret),
    {
        to_result(ret)
    }

    /// Shuts the PHY down: undoes what was brought up through this handle. The
    /// result are the calls that do so, in their order.
    pub fn shutdown(&mut self) -> (r: Vec<PhyCall>)
        ensures
            r@ == old(self).undoing(),
            *final(self) == old(self).after(PhyEvent::Shutdown),
    {
        let mut calls: Vec<PhyCall> = Vec::new();
        if self.powered {
            calls.push(PhyCall::PowerOff);
        }
        if self.initialized {
            calls.push(PhyCall::Exit);
        }
        self.powered = false;
        self.initialized = false;
        assert(calls@ =~= old(self).undoing());
        calls
    }
}

/// The event brings the PHY's power up.
pub open spec fn powers(event: PhyEvent) -> bool {
    event matches PhyEvent::PowerOn(ret) && ret >= 0
}

/// The event initializes the PHY.
pub open spec fn initializes(event: PhyEvent) -> bool {
    event matches PhyEvent::Init(ret) && ret >= 0
}

/// The PHY was not shut down after event `i`.
pub open spec fn not_undone(events: Seq<PhyEvent>, i: int) -> bool {
    forall|j: int| i < j < events.len() ==> #[trigger] events[j] != PhyEvent::Shutdown
}

/// Whatever was done through a handle, shutting the PHY down powers it off if and
/// only if it was powered on since it was last shut down, and leaves it if and
/// only if it was initialized since. Each is done once, and power is switched off
/// before the PHY is left. Shut down again right after, nothing is done.
pub proof fn law_shutdown_undoes_what_was_done(events: Seq<PhyEvent>)
    ensures
        ({
            let calls = Phy::after_all(events).undoing();
            &&& calls.contains(PhyCall::PowerOff) <==> exists|i: int|
                0 <= i < events.len() && powers(#[trigger] events[i]) && not_undone(events, i)
            &&& calls.contains(PhyCall::Exit) <==> exists|i: int|
                0 <= i < events.len() && initializes(#[trigger] events[i]) && not_undone(events, i)
            &&& calls.len() <= 2
            &&& calls.len() == 2 ==> calls == seq![PhyCall::PowerOff, PhyCall::Exit]
        }),
        Phy::after_all(events.push(PhyEvent::Shutdown)).undoing() == Seq::<PhyCall>::empty(),
{
    lemma_brought_up(events);
    let phy = Phy::after_all(events);
    let calls = phy.undoing();
    if phy.powered {
        assert(calls[0] == PhyCall::PowerOff);
    }
    if phy.initialized {
        assert(calls.last() == PhyCall::Exit);
    }
    assert(calls.len() == 2 ==> calls =~= seq![PhyCall::PowerOff, PhyCall::Exit]);
    assert(events.push(PhyEvent::Shutdown).drop_last() =~= events);
}

proof fn lemma_brought_up(events: Seq<PhyEvent>)
    ensures
        Phy::after_all(events).powered <==> exists|i: int|
            0 <= i < events.len() && powers(#[trigger] events[i]) && not_undone(events, i),
        Phy::after_all(events).initialized <==> exists|i: int|
            0 <= i < events.len() && initializes(#[trigger] events[i]) && not_undone(events, i),
    decreases events.len(),
{
    if events.len() > 0 {
        let before = events.drop_last();
        let last = events.len() - 1;
        lemma_brought_up(before);
        assert(not_undone(events, last));
        assert forall|i: int| 0 <= i < last implies not_undone(events, i) == (not_undone(before, i)
            && events[last] != PhyEvent::Shutdown) by {
            if not_undone(before, i) && events[last] != PhyEvent::Shutdown {
                assert forall|j: int| i < j < events.len() implies #[trigger] events[j]
                    != PhyEvent::Shutdown by {
                    if j < last {
                        assert(before[j] == events[j]);
                    }
                }
            }
            if not_undone(events, i) {
                assert forall|j: int| i < j < before.len() implies #[trigger] before[j]
                    != PhyEvent::Shutdown by {
                    assert(before[j] == events[j]);
                }
            }
        }
        if Phy::after_all(before).powered {
            let i = choose|i: int|
                0 <= i < before.len() && powers(#[trigger] before[i]) && not_undone(before, i);
            assert(events[i] == before[i]);
        }
        if Phy::after_all(before).initialized {
            let i = choose|i: int|
                0 <= i < before.len() && initializes(#[trigger] before[i]) && not_undone(before, i);
            assert(events[i] == before[i]);
        }
        if exists|i: int|
            0 <= i < events.len() && powers(#[trigger] events[i]) && not_undone(events, i) {
            let i = choose|i: int|
                0 <= i < events.len() && powers(#[trigger] events[i]) && not_undone(events, i);
            if i < last {
                assert(before[i] == events[i]);
            }
        }
        if exists|i: int|
            0 <= i < events.len() && initializes(#[trigger] events[i]) && not_undone(events, i) {
            let i = choose|i: int|
                0 <= i < events.len() && initializes(#[trigger] events[i]) && not_undone(events, i);
            if i < last {
                assert(before[i] == events[i]);
            }
        }
    }
}

} // verus!
