//! The governor as a state machine over plain mathematical values: its
//! state, its invariant, and for each event the state that follows and the
//! effects that are asked for. The contracts of the governor's handlers are
//! stated over these.

use crate::config::{spec_configured_priority, ConfigLookup, FreezeMode, RuleLookup};
use crate::effects::{audit_view, signal_view, EffectView, Signal};
use crate::events::{spec_pid_of, EventType};
use crate::execution_manager::spec_freeze_signal;
use crate::policy::{spec_decide_background_freeze, spec_decide_launch};
use crate::priority::spec_priority_score;
use crate::recency::{least_recent_of, touched, DEFAULT_CAPACITY};
use crate::state_store::{all_storable, background_names, entry_names, state_in, AppState};
use vstd::prelude::*;

verus! {

/// The audit entry of a foreground event.
pub const MSG_FOREGROUND: &'static str = "App became foreground";

/// The audit entry of a background event.
pub const MSG_BACKGROUND: &'static str = "App became background";

/// The audit entry of a freeze by policy.
pub const MSG_POLICY_FREEZE: &'static str = "Frozen by STRICT_BACKGROUND policy";

/// The event type of the training record for a launch out of the frozen
/// state.
pub const EVENT_LAUNCH_AFTER_FREEZE: &'static str = "USER_LAUNCH_AFTER_FREEZE";

/// The audit entry of a screen-on event.
pub const MSG_SCREEN_ON: &'static str = "Screen ON";

/// The audit entry of a screen-off event.
pub const MSG_SCREEN_OFF: &'static str = "Screen OFF";

/// The audit entry of a cancelled standby.
pub const MSG_STANDBY_CANCELLED: &'static str = "Smart Standby cancelled";

/// The audit entry of a scheduled standby.
pub const MSG_STANDBY_SCHEDULED: &'static str = "Smart Standby scheduled in 300s";

/// The audit entry of a standby that takes effect.
pub const MSG_STANDBY_TRIGGERED: &'static str = "Smart Standby triggered, freezing background apps";

/// The audit entry of a re-freeze.
pub const MSG_REFREEZE: &'static str = "Re-freezing after temporary exemption";

/// What the audit entry of a temporary unfreeze begins with; the reason
/// follows.
pub const MSG_TEMPORARY_UNFREEZE: &'static str = "Temporarily unfrozen for ";

/// What the audit entry of a blocked launch begins with; the target follows.
pub const MSG_BLOCKED_LAUNCH: &'static str = "Blocked launch towards ";

/// The audit entry of a stored configuration.
pub const MSG_CONFIG_UPDATED: &'static str = "Configuration updated";

/// What the audit entry of a configuration that could not be stored begins
/// with; the store's message follows.
pub const MSG_CONFIG_ERROR: &'static str = "Error setting config: ";

/// The audit entry that opens a memory cleanup.
pub const MSG_LOW_MEMORY: &'static str = "Low memory detected, starting cleanup.";

/// The audit entry of a package killed by a memory cleanup.
pub const MSG_KILLED: &'static str = "Killed due to low memory";

/// How long after screen-off the standby takes effect, in milliseconds.
pub const STANDBY_DELAY_MS: i32 = 300 * 1000;

/// Below this much available memory, in KB, a cleanup reclaims.
pub const LOW_MEMORY_THRESHOLD_KB: i64 = 500 * 1024;

/// How many of the least recent packages one cleanup looks at.
pub const CLEANUP_CANDIDATES: usize = 3;

/// The governor's state as plain mathematical values.
pub struct ControllerView {
    /// The state of each tracked package, by name.
    pub runtime_states: Map<Seq<char>, AppState>,
    /// The pending standby timer, if one is outstanding.
    pub standby_timer: Option<i64>,
    /// The backgrounded packages, most recent first.
    pub background_lru: Seq<Seq<char>>,
    /// The package that came to the foreground last, if any has.
    pub foreground_package: Option<Seq<char>>,
}

/// What holds of the governor's state at all times: finitely many packages
/// are tracked, each in one state with a positive pid and under a name that
/// is not empty; the recency order names tracked packages only, none twice,
/// and no more than its capacity; the foreground slot holds no empty name.
pub open spec fn well_formed(state: ControllerView) -> bool {
    &&& state.runtime_states.dom().finite()
    &&& all_storable(state.runtime_states)
    &&& state.background_lru.no_duplicates()
    &&& state.background_lru.len() <= DEFAULT_CAPACITY
    &&& forall|i: int|
        0 <= i < state.background_lru.len() ==> state.runtime_states.contains_key(
            #[trigger] state.background_lru[i],
        )
    &&& (state.foreground_package matches Some(name) ==> name.len() > 0)
}

/// The recency order names tracked packages only as long as it is kept as
/// it is and no package is dropped.
pub proof fn lemma_order_stays_tracked(before: ControllerView, after: ControllerView)
    requires
        well_formed(before),
        after.background_lru == before.background_lru,
        forall|name: Seq<char>| #[trigger]
            before.runtime_states.contains_key(name) ==> after.runtime_states.contains_key(name),
    ensures
        forall|i: int|
            0 <= i < after.background_lru.len() ==> after.runtime_states.contains_key(
                #[trigger] after.background_lru[i],
            ),
{
    assert forall|i: int| 0 <= i < after.background_lru.len() implies after.runtime_states.contains_key(
        #[trigger] after.background_lru[i],
    ) by {
        assert(before.runtime_states.contains_key(before.background_lru[i]));
    }
}

/// Whether an application event names a package and a process.
pub open spec fn names_process(name: Seq<char>, pid: i32) -> bool {
    name.len() > 0 && pid > 0
}

/// The state after `name`, running as `pid`, came to the foreground.
pub open spec fn foreground_step(state: ControllerView, name: Seq<char>, pid: i32) -> ControllerView {
    ControllerView {
        runtime_states: state.runtime_states.insert(name, AppState::Foreground(pid)),
        foreground_package: Some(name),
        ..state
    }
}

/// What a foreground event asks for: the audit entry; the cancelling of the
/// package's re-freeze timer, where it was temporarily unfrozen; the resuming
/// of the process; and, where the package was frozen, a training record with
/// the package that was in the foreground before as its context.
pub open spec fn foreground_effects(state: ControllerView, name: Seq<char>, pid: i32) -> Seq<
    EffectView,
> {
    let prior = state_in(state.runtime_states, name);
    let cancel = match prior {
        Some(AppState::TemporarilyUnfrozen { refreeze_timer_id, .. }) => seq![
            EffectView::CancelTimer { timer_id: refreeze_timer_id },
        ],
        _ => Seq::empty(),
    };
    let record = match prior {
        Some(AppState::Frozen(_)) => seq![
            EffectView::Training {
                context: state.foreground_package,
                target: name,
                event_type: EVENT_LAUNCH_AFTER_FREEZE@,
                label: 1,
            },
        ],
        _ => Seq::empty(),
    };
    seq![audit_view(Some(name), MSG_FOREGROUND@)] + cancel + seq![
        signal_view(pid, Signal::Continue),
    ] + record
}

/// The reclaim score that a package gets as it goes to the background. It
/// has just become the most recent, so the score is that of position 0 with
/// the priority class that the lookup of its configuration yields.
pub open spec fn background_score(lookup: ConfigLookup) -> int {
    spec_priority_score(0, spec_configured_priority(lookup))
}

/// The state after `name`, running as `pid`, went to the background: it is
/// the most recent in the recency order, and `Frozen` where policy freezes
/// it at once, `Background` otherwise.
pub open spec fn background_step(
    state: ControllerView,
    name: Seq<char>,
    pid: i32,
    lookup: ConfigLookup,
) -> ControllerView {
    let next = if spec_decide_background_freeze(lookup) {
        AppState::Frozen(pid)
    } else {
        AppState::Background(pid)
    };
    ControllerView {
        runtime_states: state.runtime_states.insert(name, next),
        background_lru: touched(state.background_lru, name, DEFAULT_CAPACITY as nat),
        ..state
    }
}

/// The freeze mode that a lookup yields.
pub open spec fn configured_freeze_mode(lookup: ConfigLookup) -> FreezeMode {
    match lookup {
        Ok(Some(config)) => config.freeze_mode,
        _ => FreezeMode::ModeUnspecified,
    }
}

/// What a background event asks for: the audit entry and the reclaim score;
/// and, where policy freezes the package, the audit entry of that and the
/// freeze signal of the configured mode.
pub open spec fn background_effects(name: Seq<char>, pid: i32, lookup: ConfigLookup) -> Seq<
    EffectView,
> {
    let freeze = if spec_decide_background_freeze(lookup) {
        seq![
            audit_view(Some(name), MSG_POLICY_FREEZE@),
            signal_view(pid, spec_freeze_signal(configured_freeze_mode(lookup))),
        ]
    } else {
        Seq::empty()
    };
    seq![
        audit_view(Some(name), MSG_BACKGROUND@),
        EffectView::SetReclaimScore { pid, score: background_score(lookup) as i32 },
    ] + freeze
}

/// The state after an application event. An event with an empty name or a
/// pid that is not positive changes nothing.
pub open spec fn state_change_step(
    state: ControllerView,
    name: Seq<char>,
    pid: i32,
    is_foreground: bool,
    lookup: ConfigLookup,
) -> ControllerView {
    if !names_process(name, pid) {
        state
    } else if is_foreground {
        foreground_step(state, name, pid)
    } else {
        background_step(state, name, pid, lookup)
    }
}

/// What an application event asks for. An event with an empty name or a pid
/// that is not positive asks for nothing.
pub open spec fn state_change_effects(
    state: ControllerView,
    name: Seq<char>,
    pid: i32,
    is_foreground: bool,
    lookup: ConfigLookup,
) -> Seq<EffectView> {
    if !names_process(name, pid) {
        Seq::empty()
    } else if is_foreground {
        foreground_effects(state, name, pid)
    } else {
        background_effects(name, pid, lookup)
    }
}

/// The cancelling of the standby timer, where one is outstanding.
pub open spec fn cancel_standby(state: ControllerView) -> Seq<EffectView> {
    match state.standby_timer {
        Some(timer_id) => seq![EffectView::CancelTimer { timer_id }],
        None => Seq::empty(),
    }
}

/// The state after the screen went on: no standby timer is outstanding.
pub open spec fn screen_on_step(state: ControllerView) -> ControllerView {
    ControllerView { standby_timer: None, ..state }
}

/// What a screen-on event asks for: its audit entry and, where a standby
/// timer is outstanding, the cancelling of it with an audit entry.
pub open spec fn screen_on_effects(state: ControllerView) -> Seq<EffectView> {
    seq![audit_view(None, MSG_SCREEN_ON@)] + (match state.standby_timer {
        Some(timer_id) => seq![
            EffectView::CancelTimer { timer_id },
            audit_view(None, MSG_STANDBY_CANCELLED@),
        ],
        None => Seq::empty(),
    })
}

/// The state after the screen went off: a standby timer that was
/// outstanding is cancelled, and the new one is not known yet.
pub open spec fn screen_off_step(state: ControllerView) -> ControllerView {
    ControllerView { standby_timer: None, ..state }
}

/// What a screen-off event asks for: its audit entry, the cancelling of a
/// standby timer that is outstanding, and a new standby timer.
pub open spec fn screen_off_effects(state: ControllerView) -> Seq<EffectView> {
    seq![audit_view(None, MSG_SCREEN_OFF@)] + cancel_standby(state) + seq![
        EffectView::ScheduleStandby { delay_ms: STANDBY_DELAY_MS },
    ]
}

/// The state after the standby timer `timer_id` was armed: it is the one
/// outstanding standby timer.
pub open spec fn standby_scheduled_step(state: ControllerView, timer_id: i64) -> ControllerView {
    ControllerView { standby_timer: Some(timer_id), ..state }
}

/// What the arming of the standby timer `timer_id` asks for: the cancelling
/// of another standby timer that is still outstanding, and the audit entry.
pub open spec fn standby_scheduled_effects(state: ControllerView, timer_id: i64) -> Seq<EffectView> {
    (if state.standby_timer != Some(timer_id) {
        cancel_standby(state)
    } else {
        Seq::empty()
    }) + seq![audit_view(None, MSG_STANDBY_SCHEDULED@)]
}

/// The state after a framework event.
pub open spec fn event_step(
    state: ControllerView,
    event_type: EventType,
    source: Seq<char>,
    target: Seq<char>,
    lookup: ConfigLookup,
) -> ControllerView {
    match event_type {
        EventType::AppForeground => state_change_step(state, target, spec_pid_of(source), true, lookup),
        EventType::AppBackground => state_change_step(
            state,
            target,
            spec_pid_of(source),
            false,
            lookup,
        ),
        EventType::ScreenOn => screen_on_step(state),
        EventType::ScreenOff => screen_off_step(state),
        EventType::Other => state,
    }
}

/// What a framework event asks for.
pub open spec fn event_effects(
    state: ControllerView,
    event_type: EventType,
    source: Seq<char>,
    target: Seq<char>,
    lookup: ConfigLookup,
) -> Seq<EffectView> {
    match event_type {
        EventType::AppForeground => state_change_effects(
            state,
            target,
            spec_pid_of(source),
            true,
            lookup,
        ),
        EventType::AppBackground => state_change_effects(
            state,
            target,
            spec_pid_of(source),
            false,
            lookup,
        ),
        EventType::ScreenOn => screen_on_effects(state),
        EventType::ScreenOff => screen_off_effects(state),
        EventType::Other => Seq::empty(),
    }
}

/// What a request for a temporary unfreeze asks for. For a frozen package:
/// the resuming of its process, the audit entry with the reason, and a
/// re-freeze timer of the given duration. For any other package, and for
/// one that is not tracked: nothing.
pub open spec fn unfreeze_request_effects(
    state: ControllerView,
    name: Seq<char>,
    reason: Seq<char>,
    duration_ms: i32,
) -> Seq<EffectView> {
    match state_in(state.runtime_states, name) {
        Some(AppState::Frozen(pid)) => seq![
            signal_view(pid, Signal::Continue),
            audit_view(Some(name), MSG_TEMPORARY_UNFREEZE@ + reason),
            EffectView::ScheduleRefreeze { package_name: name, duration_ms },
        ],
        _ => Seq::empty(),
    }
}

/// The state after the re-freeze timer `timer_id` was armed for `name`: a
/// frozen package is temporarily unfrozen under that timer; anything else is
/// as before.
pub open spec fn refreeze_scheduled_step(
    state: ControllerView,
    name: Seq<char>,
    timer_id: i64,
) -> ControllerView {
    match state_in(state.runtime_states, name) {
        Some(AppState::Frozen(pid)) => ControllerView {
            runtime_states: state.runtime_states.insert(
                name,
                AppState::TemporarilyUnfrozen { pid, refreeze_timer_id: timer_id },
            ),
            ..state
        },
        _ => state,
    }
}

/// What the arming of a re-freeze timer asks for: nothing where the package
/// is frozen; the cancelling of the timer where it is not, since the timer
/// then guards nothing.
pub open spec fn refreeze_scheduled_effects(
    state: ControllerView,
    name: Seq<char>,
    timer_id: i64,
) -> Seq<EffectView> {
    match state_in(state.runtime_states, name) {
        Some(AppState::Frozen(_)) => Seq::empty(),
        _ => seq![EffectView::CancelTimer { timer_id }],
    }
}

/// What a launch query asks for: an audit entry where the launch is
/// blocked.
pub open spec fn launch_effects(source: Seq<char>, target: Seq<char>, lookup: RuleLookup) -> Seq<
    EffectView,
> {
    if spec_decide_launch(lookup) {
        Seq::empty()
    } else {
        seq![audit_view(Some(source), MSG_BLOCKED_LAUNCH@ + target)]
    }
}

/// A `Background` state as `Frozen`; any other state as it is.
pub open spec fn frozen_form(state: AppState) -> AppState {
    match state {
        AppState::Background(pid) => AppState::Frozen(pid),
        other => other,
    }
}

/// The states with every `Background` package `Frozen`.
pub open spec fn frozen_background(states: Map<Seq<char>, AppState>) -> Map<Seq<char>, AppState> {
    Map::new(|name: Seq<char>| states.contains_key(name), |name: Seq<char>| frozen_form(states[name]))
}

/// The states with those `Background` packages `Frozen` that `done` names;
/// every other package is as it was.
pub open spec fn partly_frozen(states: Map<Seq<char>, AppState>, done: Seq<Seq<char>>) -> Map<
    Seq<char>,
    AppState,
> {
    Map::new(
        |name: Seq<char>| states.contains_key(name),
        |name: Seq<char>|
            if done.contains(name) {
                frozen_form(states[name])
            } else {
                states[name]
            },
    )
}

/// `listed` names the `Background` packages of `states`, each once and with
/// its state, in whatever order.
pub open spec fn lists_background(
    listed: Seq<(Seq<char>, AppState)>,
    states: Map<Seq<char>, AppState>,
) -> bool {
    &&& entry_names(listed).no_duplicates()
    &&& entry_names(listed).to_set() == background_names(states)
    &&& forall|i: int|
        0 <= i < listed.len() ==> states.contains_key((#[trigger] listed[i]).0) && states[listed[i].0]
            == listed[i].1
}

/// One suspension for each listed entry, in order.
pub open spec fn suspensions(listed: Seq<(Seq<char>, AppState)>) -> Seq<EffectView> {
    listed.map_values(|entry: (Seq<char>, AppState)| signal_view(entry.1.pid(), Signal::Stop))
}

/// The state after the standby took effect: no standby timer is
/// outstanding, and every `Background` package is `Frozen`.
pub open spec fn standby_step(state: ControllerView) -> ControllerView {
    ControllerView {
        runtime_states: frozen_background(state.runtime_states),
        standby_timer: None,
        ..state
    }
}

/// What a standby that takes effect asks for: its audit entry, then one
/// suspension for each `Background` package. The order of the suspensions
/// is not determined.
pub open spec fn is_standby_freeze(states: Map<Seq<char>, AppState>, effects: Seq<EffectView>) -> bool {
    exists|listed: Seq<(Seq<char>, AppState)>| #[trigger]
        lists_background(listed, states) && effects == seq![
            audit_view(None, MSG_STANDBY_TRIGGERED@),
        ] + suspensions(listed)
}

/// Whether the timer `timer_id` guards the temporary exemption of some
/// package.
pub open spec fn guards_some(states: Map<Seq<char>, AppState>, timer_id: i64) -> bool {
    exists|name: Seq<char>| #[trigger] states.contains_key(name) && states[name].guarded_by(timer_id)
}

/// Whether `timer_id` is stale: it is not the outstanding standby timer and
/// guards no package.
pub open spec fn is_stale_timer(state: ControllerView, timer_id: i64) -> bool {
    state.standby_timer != Some(timer_id) && !guards_some(state.runtime_states, timer_id)
}

/// The re-freeze of `name` is what the timer `timer_id` did: `name` was
/// temporarily unfrozen under that timer and is `Frozen` now, and the
/// effects are the audit entry and the suspension of its process.
pub open spec fn is_refreeze_of(
    before: ControllerView,
    timer_id: i64,
    name: Seq<char>,
    after: ControllerView,
    effects: Seq<EffectView>,
) -> bool {
    &&& before.runtime_states.contains_key(name)
    &&& before.runtime_states[name].guarded_by(timer_id)
    &&& after == ControllerView {
        runtime_states: before.runtime_states.insert(
            name,
            AppState::Frozen(before.runtime_states[name].pid()),
        ),
        ..before
    }
    &&& effects == seq![
        audit_view(Some(name), MSG_REFREEZE@),
        signal_view(before.runtime_states[name].pid(), Signal::Stop),
    ]
}

/// What a timer that is not the standby timer does when it fires: it
/// re-freezes a package that it guards, and nothing where it guards none.
pub open spec fn is_refreeze_outcome(
    before: ControllerView,
    timer_id: i64,
    after: ControllerView,
    effects: Seq<EffectView>,
) -> bool {
    if guards_some(before.runtime_states, timer_id) {
        exists|name: Seq<char>| #[trigger] is_refreeze_of(before, timer_id, name, after, effects)
    } else {
        after == before && effects == Seq::<EffectView>::empty()
    }
}

/// What a fired timer does: the standby, where it is the outstanding
/// standby timer; else the re-freeze of a package that it guards; else
/// nothing.
pub open spec fn is_timer_outcome(
    before: ControllerView,
    timer_id: i64,
    after: ControllerView,
    effects: Seq<EffectView>,
) -> bool {
    if before.standby_timer == Some(timer_id) {
        after == standby_step(before) && is_standby_freeze(before.runtime_states, effects)
    } else {
        is_refreeze_outcome(before, timer_id, after, effects)
    }
}

/// The pid of a process that a cleanup may reclaim: that of a `Background`
/// or `Frozen` package.
pub open spec fn reclaimable_pid(state: Option<AppState>) -> Option<i32> {
    match state {
        Some(AppState::Background(pid)) => Some(pid),
        Some(AppState::Frozen(pid)) => Some(pid),
        _ => None,
    }
}

/// What a cleanup asks for as it looks at `name`: for a reclaimable package
/// the audit entry and the kill, and nothing for any other.
pub open spec fn kill_effects(states: Map<Seq<char>, AppState>, name: Seq<char>) -> Seq<EffectView> {
    match reclaimable_pid(state_in(states, name)) {
        Some(pid) => seq![audit_view(Some(name), MSG_KILLED@), signal_view(pid, Signal::Kill)],
        None => Seq::empty(),
    }
}

/// What a cleanup asks for as it looks at each of `names` in turn.
pub open spec fn reclaim_effects(states: Map<Seq<char>, AppState>, names: Seq<Seq<char>>) -> Seq<
    EffectView,
>
    decreases names.len(),
{
    if names.len() == 0 {
        Seq::empty()
    } else {
        reclaim_effects(states, names.drop_last()) + kill_effects(states, names.last())
    }
}

/// The packages that a cleanup looks at: the least recent ones of the
/// recency order, the least recent first.
pub open spec fn cleanup_candidates(state: ControllerView) -> Seq<Seq<char>> {
    least_recent_of(state.background_lru, CLEANUP_CANDIDATES as nat)
}

/// The state after a memory cleanup with `avail_mem_kb` KB available. Where
/// memory is low, those of the candidates that were `Background` are
/// `Frozen`, which here stands for no longer runnable; those that were
/// `Frozen` stay so.
pub open spec fn cleanup_step(state: ControllerView, avail_mem_kb: i64) -> ControllerView {
    if avail_mem_kb < LOW_MEMORY_THRESHOLD_KB {
        ControllerView {
            runtime_states: partly_frozen(state.runtime_states, cleanup_candidates(state)),
            ..state
        }
    } else {
        state
    }
}

/// What a memory cleanup asks for: nothing while enough memory is
/// available; else its audit entry and, for each candidate that is
/// `Background` or `Frozen`, the audit entry and the kill.
pub open spec fn cleanup_effects(state: ControllerView, avail_mem_kb: i64) -> Seq<EffectView> {
    if avail_mem_kb < LOW_MEMORY_THRESHOLD_KB {
        seq![audit_view(None, MSG_LOW_MEMORY@)] + reclaim_effects(
            state.runtime_states,
            cleanup_candidates(state),
        )
    } else {
        Seq::empty()
    }
}

/// The names of a list of packages.
pub open spec fn name_views(names: Seq<String>) -> Seq<Seq<char>> {
    names.map_values(|name: String| name@)
}

} // verus!
