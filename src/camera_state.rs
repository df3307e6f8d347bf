use vstd::prelude::*;

use crate::commands::{Autofocus, Power};
use crate::error::ViscaError;

verus! {

/// What is known of a VISCA camera: its focus mode, its power and a status
/// line. The serial device belongs to the caller, which performs each
/// exchange and reports its outcome here.
#[derive(Debug)]
pub struct CameraState {
    autofocus: Autofocus,
    power: Power,
    status: String,
}

impl CameraState {
    pub closed spec fn spec_autofocus(&self) -> Autofocus {
        self.autofocus
    }

    pub closed spec fn spec_power(&self) -> Power {
        self.power
    }

    pub closed spec fn spec_status(&self) -> Seq<char> {
        self.status@
    }

    /// Manual focus, power off, "Disconnected".
    pub fn new() -> (r: Self)
        ensures
            r.spec_autofocus() == Autofocus::Manual,
            r.spec_power() == Power::Off,
            r.spec_status() == "Disconnected"@,
    {
        CameraState {
            autofocus: Autofocus::Manual,
            power: Power::Off,
            status: String::from_str("Disconnected"),
        }
    }

    /// The device was dropped: "Disconnected".
    pub fn disconnected(&mut self)
        ensures
            final(self).spec_status() == "Disconnected"@,
            final(self).spec_power() == old(self).spec_power(),
            final(self).spec_autofocus() == old(self).spec_autofocus(),
    {
        self.status = String::from_str("Disconnected");
    }

    /// A device was opened and its power is being asked: "Connecting".
    pub fn connecting(&mut self)
        ensures
            final(self).spec_status() == "Connecting"@,
            final(self).spec_power() == old(self).spec_power(),
            final(self).spec_autofocus() == old(self).spec_autofocus(),
    {
        self.status = String::from_str("Connecting");
    }

    /// The camera reported its power: the camera is "Connected". Returns
    /// whether its focus mode is to be asked next, which is when it is on.
    pub fn power_reported(&mut self, power: Power) -> (ask_autofocus: bool)
        ensures
            ask_autofocus == (power == Power::On),
            final(self).spec_power() == power,
            final(self).spec_status() == "Connected"@,
            final(self).spec_autofocus() == old(self).spec_autofocus(),
    {
        self.power = power;
        self.status = String::from_str("Connected");
        matches!(power, Power::On)
    }

    /// The camera reported its focus mode.
    pub fn autofocus_reported(&mut self, autofocus: Autofocus)
        ensures
            final(self).spec_autofocus() == autofocus,
            final(self).spec_power() == old(self).spec_power(),
            final(self).spec_status() == old(self).spec_status(),
    {
        self.autofocus = autofocus;
    }

    /// Records a power command's outcome: the new power only when it
    /// succeeded. The outcome is handed back.
    pub fn set_power(&mut self, power: Power, outcome: Result<(), ViscaError>) -> (r: Result<
        (),
        ViscaError,
    >)
        ensures
            r == outcome,
            outcome is Ok ==> final(self).spec_power() == power,
            outcome is Err ==> final(self).spec_power() == old(self).spec_power(),
            final(self).spec_autofocus() == old(self).spec_autofocus(),
            final(self).spec_status() == old(self).spec_status(),
    {
        if outcome.is_ok() {
            self.power = power;
        }
        outcome
    }

    /// Records a focus-mode command's outcome: the new mode only when it
    /// succeeded. The outcome is handed back.
    pub fn set_autofocus(&mut self, autofocus: Autofocus, outcome: Result<(), ViscaError>) -> (r:
        Result<(), ViscaError>)
        ensures
            r == outcome,
            outcome is Ok ==> final(self).spec_autofocus() == autofocus,
            outcome is Err ==> final(self).spec_autofocus() == old(self).spec_autofocus(),
            final(self).spec_power() == old(self).spec_power(),
            final(self).spec_status() == old(self).spec_status(),
    {
        if outcome.is_ok() {
            self.autofocus = autofocus;
        }
        outcome
    }

    /// Replaces the status line.
    pub fn set_status(&mut self, status: String)
        ensures
            final(self).spec_status() == status@,
            final(self).spec_power() == old(self).spec_power(),
            final(self).spec_autofocus() == old(self).spec_autofocus(),
    {
        self.status = status;
    }

    pub fn power(&self) -> (r: Power)
        ensures
            r == self.spec_power(),
    {
        self.power
    }

    pub fn autofocus(&self) -> (r: Autofocus)
        ensures
            r == self.spec_autofocus(),
    {
        self.autofocus
    }

    pub fn status(&self) -> (r: String)
        ensures
            r@ == self.spec_status(),
    {
        self.status.clone()
    }
}

} // verus!
