//! The shutdown report: the composite outcome of closing the providers.

use vstd::prelude::*;
use crate::settings::override_view;

verus! {

/// The steps of the shutdown sequence, in the order they run: the
/// global tracer teardown first, then the meter close, then the log
/// close.
#[derive(Clone, Copy, PartialEq, Eq, Structural, Debug)]
pub enum ShutdownStep {
    TracerTeardown,
    MeterClose,
    LogClose,
}

/// The error side of one close outcome.
pub open spec fn err_of(r: Result<(), String>) -> Option<Seq<char>> {
    match r {
        Ok(_) => None,
        Err(e) => Some(e@),
    }
}

/// What failed during shutdown: the captured cause of every close that
/// went wrong. Well-formed only when at least one did.
#[derive(Debug)]
pub struct ShutdownFailure {
    pub meter_error: Option<String>,
    pub log_error: Option<String>,
}

impl ShutdownFailure {
    /// A failure report exists only when something failed.
    pub open spec fn wf(self) -> bool {
        self.meter_error is Some || self.log_error is Some
    }

    /// The first failing step in step order: the meter close runs
    /// before the log close.
    pub open spec fn first_failed_step_spec(self) -> ShutdownStep {
        if self.meter_error is Some {
            ShutdownStep::MeterClose
        } else {
            ShutdownStep::LogClose
        }
    }

    /// The step the composite error identifies as the first failure.
    pub fn first_failed_step(&self) -> (r: ShutdownStep)
        ensures
            r == self.first_failed_step_spec(),
    {
        match &self.meter_error {
            Some(_) => ShutdownStep::MeterClose,
            None => ShutdownStep::LogClose,
        }
    }
}

/// The message returned when every step succeeded.
pub open spec fn success_message() -> Seq<char> {
    "OpenTelemetry shutdown successful"@
}

/// Combine the outcomes of the meter close and the log close into the
/// shutdown report. Success exactly when both closed; otherwise one
/// composite error that captures each step's cause, so a meter failure
/// never hides the log close's outcome, and whose first failing step is
/// the meter close whenever the meter close failed.
pub fn compose_shutdown_report(meter: Result<(), String>, log: Result<(), String>) -> (r: Result<
    String,
    ShutdownFailure,
>)
    ensures
        r is Ok <==> (meter is Ok && log is Ok),
        r is Ok ==> r->Ok_0@ == success_message(),
        r is Err ==> r->Err_0.wf(),
        r is Err ==> override_view(r->Err_0.meter_error) == err_of(meter),
        r is Err ==> override_view(r->Err_0.log_error) == err_of(log),
        r is Err ==> (r->Err_0.first_failed_step_spec() == if meter is Err {
            ShutdownStep::MeterClose
        } else {
            ShutdownStep::LogClose
        }),
{
    let meter_error: Option<String> = match meter {
        Ok(_) => None,
        Err(e) => Some(e),
    };
    let log_error: Option<String> = match log {
        Ok(_) => None,
        Err(e) => Some(e),
    };
    if meter_error.is_none() && log_error.is_none() {
        Ok("OpenTelemetry shutdown successful".to_owned())
    } else {
        Err(ShutdownFailure { meter_error, log_error })
    }
}

} // verus!
