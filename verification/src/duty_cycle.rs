//! The duty-cycle orchestration state machine.
//!
//! One cycle brings up the bus (and, in the networked variant, the
//! radio), performs one measurement, reports a successful reading,
//! tears the radio down, and rests: either a fixed in-process delay
//! before the next cycle, or a hardware power-down whose wake acts as
//! the next cycle's start. The hardware steps run outside the library;
//! the controller here decides each phase transition, and in
//! particular that a failed measurement skips reporting but never
//! aborts the cycle.

use vstd::prelude::*;
use crate::sensor::{MeasurementError, SensorReading};

verus! {

/// Where in one measure-report-rest pass the controller stands. The
/// radio phases occur only in the networked variant.
#[derive(Copy, Clone, PartialEq, Eq, Structural, Debug)]
pub enum DutyCyclePhase {
    /// Acquiring exclusive ownership of the peripherals.
    Init,
    /// Bringing the radio up and waiting for association.
    RadioUp,
    /// Running one measurement over the bus.
    Measuring,
    /// Handing one validated reading to the reporting collaborator.
    Reporting,
    /// Tearing the radio down before resting.
    RadioDown,
    /// Delaying or powering down until the next cycle.
    Resting,
}

/// How the controller rests between cycles: a bounded in-process delay
/// that loops back to measuring, or a hardware power-down for a fixed
/// number of seconds that ends the process and restarts it on wake.
#[derive(Copy, Clone, PartialEq, Eq, Structural, Debug)]
pub enum RestPolicy {
    DelayAndContinue(u32),
    PowerDown(u64),
}

/// What the surrounding loop must do after a measurement outcome is
/// classified.
#[derive(Copy, Clone, PartialEq, Eq, Structural, Debug)]
pub enum ReportAction {
    /// Hand the validated reading to the reporting collaborator.
    Report(SensorReading),
    /// Log the expected absence of a sensor at warning level and skip
    /// reporting this cycle.
    SkipWarnNoDevice,
    /// Log the bus fault as an error and skip reporting this cycle.
    SkipLogBusError,
}

/// The duty-cycle controller: the current phase, whether this node
/// runs the networked variant, and its rest policy, both fixed at
/// construction.
pub struct DutyCycleController {
    pub phase: DutyCyclePhase,
    pub networked: bool,
    pub rest: RestPolicy,
}

impl DutyCycleController {
    /// A controller at the start of its first cycle.
    pub fn new(networked: bool, rest: RestPolicy) -> (c: DutyCycleController)
        ensures
            c.phase == DutyCyclePhase::Init,
            c.networked == networked,
            c.rest == rest,
    {
        DutyCycleController { phase: DutyCyclePhase::Init, networked, rest }
    }

    /// Records that peripheral acquisition succeeded. The networked
    /// variant brings the radio up next; the local variant measures at
    /// once. A failed acquisition is fatal and never reaches this
    /// step.
    pub fn peripherals_ready(&mut self)
        requires
            old(self).phase == DutyCyclePhase::Init,
        ensures
            old(self).networked ==> final(self).phase == DutyCyclePhase::RadioUp,
            !old(self).networked ==> final(self).phase == DutyCyclePhase::Measuring,
            final(self).networked == old(self).networked,
            final(self).rest == old(self).rest,
    {
        if self.networked {
            self.phase = DutyCyclePhase::RadioUp;
        } else {
            self.phase = DutyCyclePhase::Measuring;
        }
    }

    /// Records that the radio reported association and the settle
    /// delay for address assignment has passed.
    pub fn radio_ready(&mut self)
        requires
            old(self).phase == DutyCyclePhase::RadioUp,
            old(self).networked,
        ensures
            final(self).phase == DutyCyclePhase::Measuring,
            final(self).networked == old(self).networked,
            final(self).rest == old(self).rest,
    {
        self.phase = DutyCyclePhase::Measuring;
    }

    /// Classifies one measurement outcome. A validated reading moves
    /// to `Reporting`; a missing sensor or a bus fault skips reporting
    /// and moves straight on toward rest. No outcome aborts the cycle.
    pub fn measurement_done(&mut self, outcome: Result<SensorReading, MeasurementError>) -> (action:
        ReportAction)
        requires
            old(self).phase == DutyCyclePhase::Measuring,
        ensures
            final(self).networked == old(self).networked,
            final(self).rest == old(self).rest,
            outcome matches Ok(reading) ==> final(self).phase == DutyCyclePhase::Reporting
                && action == ReportAction::Report(reading),
            outcome == Err::<SensorReading, MeasurementError>(MeasurementError::NoDeviceFound)
                ==> action == ReportAction::SkipWarnNoDevice,
            (outcome matches Err(e) && e is Bus) ==> action == ReportAction::SkipLogBusError,
            outcome is Err ==> final(self).phase == (if old(self).networked {
                DutyCyclePhase::RadioDown
            } else {
                DutyCyclePhase::Resting
            }),
    {
        match outcome {
            Result::Ok(reading) => {
                self.phase = DutyCyclePhase::Reporting;
                ReportAction::Report(reading)
            },
            Result::Err(MeasurementError::NoDeviceFound) => {
                self.skip_to_rest();
                ReportAction::SkipWarnNoDevice
            },
            Result::Err(MeasurementError::Bus(_)) => {
                self.skip_to_rest();
                ReportAction::SkipLogBusError
            },
        }
    }

    /// Moves past reporting toward rest without a report.
    fn skip_to_rest(&mut self)
        ensures
            final(self).networked == old(self).networked,
            final(self).rest == old(self).rest,
            final(self).phase == (if old(self).networked {
                DutyCyclePhase::RadioDown
            } else {
                DutyCyclePhase::Resting
            }),
    {
        if self.networked {
            self.phase = DutyCyclePhase::RadioDown;
        } else {
            self.phase = DutyCyclePhase::Resting;
        }
    }

    /// Records that the reading was handed to the reporting
    /// collaborator. A reporting failure is fatal for the process and
    /// never reaches this step.
    pub fn report_done(&mut self)
        requires
            old(self).phase == DutyCyclePhase::Reporting,
        ensures
            final(self).networked == old(self).networked,
            final(self).rest == old(self).rest,
            final(self).phase == (if old(self).networked {
                DutyCyclePhase::RadioDown
            } else {
                DutyCyclePhase::Resting
            }),
    {
        self.skip_to_rest();
    }

    /// Records that the radio was torn down; the node rests next.
    pub fn radio_down(&mut self)
        requires
            old(self).phase == DutyCyclePhase::RadioDown,
            old(self).networked,
        ensures
            final(self).networked == old(self).networked,
            final(self).rest == old(self).rest,
            final(self).phase == DutyCyclePhase::Resting,
    {
        self.phase = DutyCyclePhase::Resting;
    }

    /// Records that an in-process rest delay elapsed: the next cycle
    /// measures again within the same process. Only the
    /// delay-and-continue policy rests this way; a power-down ends the
    /// process instead and the next cycle begins at `Init` on a fresh
    /// boot.
    pub fn rest_done(&mut self)
        requires
            old(self).phase == DutyCyclePhase::Resting,
            old(self).rest is DelayAndContinue,
        ensures
            final(self).networked == old(self).networked,
            final(self).rest == old(self).rest,
            final(self).phase == DutyCyclePhase::Measuring,
    {
        self.phase = DutyCyclePhase::Measuring;
    }
}

/// The argument handed to the hardware power-down call: the rest
/// duration in microseconds.
pub fn deep_sleep_micros(seconds: u64) -> (r: u64)
    requires
        seconds <= 0xffff_ffff_ffff_ffffu64 / 1_000_000,
    ensures
        r == seconds * 1_000_000,
{
    seconds * 1_000_000
}

} // verus!
