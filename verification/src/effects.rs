//! What the governor asks of the outside world. A handler never signals a
//! process, arms a timer or writes a log itself: it returns the effects, in
//! the order in which they are to be carried out.

use vstd::prelude::*;

verus! {

/// A signal that process control delivers.
#[derive(Clone, Copy, Debug, PartialEq, Eq, Structural)]
pub enum Signal {
    /// Suspend the process; it can be resumed.
    Stop,
    /// Resume a suspended process.
    Continue,
    /// Terminate the process.
    Kill,
}

/// One signal for one process.
#[derive(Clone, Copy, Debug, PartialEq, Eq, Structural)]
pub struct ProcessCommand {
    pub pid: i32,
    pub signal: Signal,
}

/// One request to a collaborator.
#[derive(Clone, Debug, PartialEq, Eq)]
pub enum Effect {
    /// Append an entry to the audit log, about `package` where there is one.
    Audit { package: Option<String>, message: String },
    /// Append a labelled event to the training data.
    Training { context: Option<String>, target: String, event_type: String, label: i32 },
    /// Deliver a signal to a process.
    Process(ProcessCommand),
    /// Tell the kernel the reclaim score of a process.
    SetReclaimScore { pid: i32, score: i32 },
    /// Arm the device-wide standby timer; its id is reported back with
    /// `standby_timer_scheduled`.
    ScheduleStandby { delay_ms: i32 },
    /// Arm the re-freeze timer of a package; its id is reported back with
    /// `refreeze_timer_scheduled`.
    ScheduleRefreeze { package_name: String, duration_ms: i32 },
    /// Cancel a timer that has not fired.
    CancelTimer { timer_id: i64 },
}

/// An effect with its strings taken as character sequences.
pub enum EffectView {
    Audit { package: Option<Seq<char>>, message: Seq<char> },
    Training { context: Option<Seq<char>>, target: Seq<char>, event_type: Seq<char>, label: i32 },
    Process(ProcessCommand),
    SetReclaimScore { pid: i32, score: i32 },
    ScheduleStandby { delay_ms: i32 },
    ScheduleRefreeze { package_name: Seq<char>, duration_ms: i32 },
    CancelTimer { timer_id: i64 },
}

/// The character sequence of an optional name.
pub open spec fn name_view(name: Option<String>) -> Option<Seq<char>> {
    match name {
        Some(text) => Some(text@),
        None => None,
    }
}

impl View for Effect {
    type V = EffectView;

    open spec fn view(&self) -> EffectView {
        match *self {
            Effect::Audit { package, message } => EffectView::Audit {
                package: name_view(package),
                message: message@,
            },
            Effect::Training { context, target, event_type, label } => EffectView::Training {
                context: name_view(context),
                target: target@,
                event_type: event_type@,
                label,
            },
            Effect::Process(command) => EffectView::Process(command),
            Effect::SetReclaimScore { pid, score } => EffectView::SetReclaimScore { pid, score },
            Effect::ScheduleStandby { delay_ms } => EffectView::ScheduleStandby { delay_ms },
            Effect::ScheduleRefreeze { package_name, duration_ms } => EffectView::ScheduleRefreeze {
                package_name: package_name@,
                duration_ms,
            },
            Effect::CancelTimer { timer_id } => EffectView::CancelTimer { timer_id },
        }
    }
}

/// The views of a list of effects, in order.
pub open spec fn effect_views(effects: Seq<Effect>) -> Seq<EffectView> {
    effects.map_values(|effect: Effect| effect@)
}

/// The audit entry with the given package and message.
pub open spec fn audit_view(package: Option<Seq<char>>, message: Seq<char>) -> EffectView {
    EffectView::Audit { package, message }
}

/// The delivery of `signal` to `pid`.
pub open spec fn signal_view(pid: i32, signal: Signal) -> EffectView {
    EffectView::Process(ProcessCommand { pid, signal })
}

/// Builds an audit entry about `package`.
pub fn audit_for(package: &str, message: &str) -> (effect: Effect)
    ensures
        effect@ == audit_view(Some(package@), message@),
{
    Effect::Audit { package: Some(package.to_owned()), message: message.to_owned() }
}

/// Builds an audit entry about no package.
pub fn audit_global(message: &str) -> (effect: Effect)
    ensures
        effect@ == audit_view(None, message@),
{
    Effect::Audit { package: None, message: message.to_owned() }
}

} // verus!
