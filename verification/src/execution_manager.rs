//! The execution manager: which signal freezes or unfreezes a process. It
//! issues intents only; delivering the signal is the caller's part.

use crate::config::FreezeMode;
use crate::effects::{ProcessCommand, Signal};
use vstd::prelude::*;

verus! {

/// The signal that freezes a process in the given mode: termination for
/// `ModeKill`, suspension for every other mode. Hibernation falls back to
/// suspension, and so does an unspecified mode.
pub open spec fn spec_freeze_signal(mode: FreezeMode) -> Signal {
    match mode {
        FreezeMode::ModeSigstop => Signal::Stop,
        FreezeMode::ModeKill => Signal::Kill,
        FreezeMode::ModeHibernate => Signal::Stop,
        FreezeMode::ModeUnspecified => Signal::Stop,
    }
}

/// The command that freezes `pid`, or none where `pid` is not positive.
pub open spec fn spec_freeze_app(pid: i32, mode: FreezeMode) -> Option<ProcessCommand> {
    if pid <= 0 {
        None
    } else {
        Some(ProcessCommand { pid, signal: spec_freeze_signal(mode) })
    }
}

/// The command that resumes `pid`, or none where `pid` is not positive.
pub open spec fn spec_unfreeze_app(pid: i32) -> Option<ProcessCommand> {
    if pid <= 0 {
        None
    } else {
        Some(ProcessCommand { pid, signal: Signal::Continue })
    }
}

/// The signal that freezes a process in the given mode.
#[verifier::when_used_as_spec(spec_freeze_signal)]
pub fn freeze_signal(mode: FreezeMode) -> (signal: Signal)
    ensures
        signal == spec_freeze_signal(mode),
{
    match mode {
        FreezeMode::ModeSigstop => Signal::Stop,
        FreezeMode::ModeKill => Signal::Kill,
        FreezeMode::ModeHibernate => Signal::Stop,
        FreezeMode::ModeUnspecified => Signal::Stop,
    }
}

/// Freezes the process `pid` in the given mode. A pid that is not positive
/// names no process: nothing is to be done for it.
#[verifier::when_used_as_spec(spec_freeze_app)]
pub fn freeze_app(pid: i32, mode: FreezeMode) -> (command: Option<ProcessCommand>)
    ensures
        command == spec_freeze_app(pid, mode),
{
    if pid <= 0 {
        return None;
    }
    Some(ProcessCommand { pid, signal: freeze_signal(mode) })
}

/// Resumes the process `pid`. A pid that is not positive names no process:
/// nothing is to be done for it.
#[verifier::when_used_as_spec(spec_unfreeze_app)]
pub fn unfreeze_app(pid: i32) -> (command: Option<ProcessCommand>)
    ensures
        command == spec_unfreeze_app(pid),
{
    if pid <= 0 {
        return None;
    }
    Some(ProcessCommand { pid, signal: Signal::Continue })
}

} // verus!
