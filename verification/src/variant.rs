//! Operations in which host controllers vary.

use vstd::prelude::*;

use crate::error::Error;
use crate::reg::UfsReg;

verus! {

/// When a variant is told of a change.
#[derive(Clone, Copy, Debug, PartialEq, Eq, Structural)]
pub enum NotifyPhase {
    /// Before the change.
    Pre,
    /// After the change.
    Post,
}

/// Operations of one variant of host controllers, whose power modes are given
/// by values of type `Mode`. Nothing is assumed of what a variant does; an
/// operation that it leaves out does nothing and succeeds.
pub trait UfsVariantOps<Mode> {
    /// Prepares what the variant needs before the host is brought up.
    fn initialize(&self, _reg: &UfsReg) -> (r: Result<(), Error>)
        default_ensures
            r == Ok::<(), Error>(()),
    {
        Ok(())
    }

    /// Releases what the variant holds after the host was stopped.
    fn shutdown(&self, _reg: &UfsReg) {
    }

    /// The controller is enabled.
    fn hce_enable_notify(&self, _reg: &UfsReg, _phase: NotifyPhase) -> (r: Result<(), Error>)
        default_ensures
            r == Ok::<(), Error>(()),
    {
        Ok(())
    }

    /// The link is started.
    fn link_startup_notify(&self, _reg: &UfsReg, _phase: NotifyPhase) -> (r: Result<(), Error>)
        default_ensures
            r == Ok::<(), Error>(()),
    {
        Ok(())
    }

    /// The mode to change to, where `desired` is the best one.
    fn constrain_power_mode(&self, desired: Mode) -> (r: Result<Mode, Error>)
        default_ensures
            r == Ok::<Mode, Error>(desired),
    {
        Ok(desired)
    }

    /// The power mode is changed.
    fn power_mode_notify(&self, _reg: &UfsReg, _mode: &Mode, _phase: NotifyPhase) -> (r: Result<
        (),
        Error,
    >)
        default_ensures
            r == Ok::<(), Error>(()),
    {
        Ok(())
    }
}

/// The variant that follows the standard in everything.
#[derive(Clone, Copy, Debug, PartialEq, Eq, Structural)]
pub struct StandardVariant;

impl<Mode> UfsVariantOps<Mode> for StandardVariant {

}

/// The mode to change to for a variant: the one that the variant makes of the
/// best one, or the first error.
pub fn select_power_mode<Mode, V: UfsVariantOps<Mode>>(
    variant: &V,
    max_power_mode: Result<Mode, Error>,
) -> (r: Result<Mode, Error>)
    ensures
        match max_power_mode {
            Ok(mode) => call_ensures(V::constrain_power_mode, (variant, mode), r),
            Err(e) => r == Err::<Mode, Error>(e),
        },
{
    match max_power_mode {
        Ok(mode) => variant.constrain_power_mode(mode),
        Err(e) => Err(e),
    }
}

} // verus!
