//! Startup: take-once peripheral ownership and the start-mode decision.
//!
//! The platform hands out exclusive ownership of the hardware peripheral
//! set at most once per process. A second acquisition attempt yields
//! nothing, and a process that fails to obtain both its handles never
//! runs the animation: it settles into a permanent idle loop instead.

use vstd::prelude::*;

verus! {

/// Exclusive ownership of a hardware peripheral set. There is no way to
/// duplicate a token, and the platform never hands out a second one.
pub struct PeripheralToken {}

/// The platform's take-once handout of one peripheral set.
pub struct Platform {
    pub taken: bool,
}

impl Platform {
    /// At process start, no acquisition has happened yet.
    pub fn new() -> (p: Platform)
        ensures
            !p.taken,
    {
        Platform { taken: false }
    }

    /// Acquire the peripheral set. The first call yields the token; every
    /// later call yields nothing, and the handout stays spent forever.
    pub fn take(&mut self) -> (t: Option<PeripheralToken>)
        ensures
            final(self).taken,
            t is Some <==> !old(self).taken,
    {
        if self.taken {
            None
        } else {
            self.taken = true;
            Some(PeripheralToken {  })
        }
    }
}

/// How the process spends the rest of its life: running the animation, or
/// idling because startup could not obtain its hardware.
#[derive(Clone, Copy, PartialEq, Eq, Structural, Debug)]
pub enum StartMode {
    Run,
    Idle,
}

/// The sole startup decision: the animation runs exactly when both the
/// device peripherals and the core peripherals were obtained; otherwise
/// the process idles forever, with no retry and no diagnostic.
pub fn startup_mode(device_obtained: bool, core_obtained: bool) -> (m: StartMode)
    ensures
        m == StartMode::Run <==> (device_obtained && core_obtained),
{
    if device_obtained && core_obtained {
        StartMode::Run
    } else {
        StartMode::Idle
    }
}
} // verus!
