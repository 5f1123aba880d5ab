//! What holds of the governor whatever the events are, stated over the
//! governor's state and effects as plain mathematical values.

use crate::config::{ConfigLookup, ManagementPolicy};
use crate::effects::{audit_view, signal_view, EffectView, Signal};
use crate::execution_manager::spec_freeze_signal;
use crate::model::{
    background_effects, background_step, cleanup_candidates, cleanup_effects, cleanup_step,
    configured_freeze_mode, foreground_effects, foreground_step, frozen_background, frozen_form,
    guards_some, is_refreeze_of, is_refreeze_outcome, is_stale_timer, is_timer_outcome,
    lemma_order_stays_tracked, names_process,
    reclaim_effects, reclaimable_pid, refreeze_scheduled_step,
    screen_off_effects, screen_off_step, screen_on_effects, screen_on_step,
    standby_scheduled_effects, standby_scheduled_step, standby_step, state_change_step,
    well_formed, ControllerView, LOW_MEMORY_THRESHOLD_KB, MSG_SCREEN_OFF, MSG_SCREEN_ON,
    MSG_STANDBY_CANCELLED, MSG_STANDBY_SCHEDULED, STANDBY_DELAY_MS,
};
use crate::policy::spec_decide_background_freeze;
use crate::recency::{lemma_touched_well_formed, DEFAULT_CAPACITY};
use crate::state_store::{state_in, AppState};
use vstd::prelude::*;

verus! {

/// A tracked package is in exactly one state, under a name that is not
/// empty, and the pid of that state is positive.
pub proof fn lemma_tracked_state_is_valid(state: ControllerView, name: Seq<char>)
    requires
        well_formed(state),
        state.runtime_states.contains_key(name),
    ensures
        state_in(state.runtime_states, name) == Some(state.runtime_states[name]),
        state.runtime_states[name].pid() > 0,
        name.len() > 0,
{
}

/// An application event keeps the governor's invariant.
pub proof fn lemma_state_change_keeps_invariant(
    state: ControllerView,
    name: Seq<char>,
    pid: i32,
    is_foreground: bool,
    lookup: ConfigLookup,
)
    requires
        well_formed(state),
    ensures
        well_formed(state_change_step(state, name, pid, is_foreground, lookup)),
{
    let after = state_change_step(state, name, pid, is_foreground, lookup);
    if names_process(name, pid) {
        if is_foreground {
            lemma_order_stays_tracked(state, after);
        } else {
            lemma_touched_well_formed(state.background_lru, name, DEFAULT_CAPACITY as nat);
            assert forall|i: int| 0 <= i < after.background_lru.len() implies after.runtime_states.contains_key(
                #[trigger] after.background_lru[i],
            ) by {
                let other = after.background_lru[i];
                assert(after.background_lru.contains(other));
                if other != name {
                    let at = choose|at: int|
                        0 <= at < state.background_lru.len() && state.background_lru[at] == other;
                    assert(state.runtime_states.contains_key(state.background_lru[at]));
                }
            }
        }
    }
}

/// The screen events, the arming of a timer and a standby that takes effect
/// keep the governor's invariant.
pub proof fn lemma_timer_steps_keep_invariant(state: ControllerView, name: Seq<char>, timer_id: i64)
    requires
        well_formed(state),
    ensures
        well_formed(screen_on_step(state)),
        well_formed(screen_off_step(state)),
        well_formed(standby_scheduled_step(state, timer_id)),
        well_formed(refreeze_scheduled_step(state, name, timer_id)),
        well_formed(standby_step(state)),
{
    lemma_order_stays_tracked(state, refreeze_scheduled_step(state, name, timer_id));
    lemma_order_stays_tracked(state, standby_step(state));
    assert(standby_step(state).runtime_states.dom() =~= state.runtime_states.dom());
}

/// A fired timer keeps the governor's invariant, whatever it does.
pub proof fn lemma_timer_outcome_keeps_invariant(
    state: ControllerView,
    timer_id: i64,
    after: ControllerView,
    effects: Seq<EffectView>,
)
    requires
        well_formed(state),
        is_timer_outcome(state, timer_id, after, effects),
    ensures
        well_formed(after),
{
    if state.standby_timer == Some(timer_id) {
        lemma_timer_steps_keep_invariant(state, Seq::empty(), timer_id);
    } else if guards_some(state.runtime_states, timer_id) {
        let name = choose|name: Seq<char>| #[trigger]
            is_refreeze_of(state, timer_id, name, after, effects);
        lemma_order_stays_tracked(state, after);
    }
}

/// A memory cleanup keeps the governor's invariant.
pub proof fn lemma_cleanup_keeps_invariant(state: ControllerView, avail_mem_kb: i64)
    requires
        well_formed(state),
    ensures
        well_formed(cleanup_step(state, avail_mem_kb)),
{
    let after = cleanup_step(state, avail_mem_kb);
    lemma_order_stays_tracked(state, after);
    assert(after.runtime_states.dom() =~= state.runtime_states.dom());
}

/// A memory cleanup kills a package exactly if memory is low, the package is
/// among the candidates, and it is `Background` or `Frozen`; it is `Frozen`
/// afterwards. No other package changes.
pub proof fn lemma_cleanup_reclaims_candidates_only(
    state: ControllerView,
    avail_mem_kb: i64,
    name: Seq<char>,
)
    requires
        state.runtime_states.contains_key(name),
    ensures
        cleanup_step(state, avail_mem_kb).runtime_states.contains_key(name),
        cleanup_step(state, avail_mem_kb).runtime_states[name] == (if avail_mem_kb
            < LOW_MEMORY_THRESHOLD_KB && cleanup_candidates(state).contains(name) {
            frozen_form(state.runtime_states[name])
        } else {
            state.runtime_states[name]
        }),
        avail_mem_kb < LOW_MEMORY_THRESHOLD_KB && cleanup_candidates(state).contains(name)
            && reclaimable_pid(Some(state.runtime_states[name])) is Some ==> cleanup_effects(
            state,
            avail_mem_kb,
        ).contains(signal_view(state.runtime_states[name].pid(), Signal::Kill)),
{
    if avail_mem_kb < LOW_MEMORY_THRESHOLD_KB && cleanup_candidates(state).contains(name)
        && reclaimable_pid(Some(state.runtime_states[name])) is Some {
        lemma_reclaim_effects_hold_kill(state.runtime_states, cleanup_candidates(state), name);
        let kills = reclaim_effects(state.runtime_states, cleanup_candidates(state));
        let kill = signal_view(state.runtime_states[name].pid(), Signal::Kill);
        let at = choose|at: int| 0 <= at < kills.len() && kills[at] == kill;
        assert(cleanup_effects(state, avail_mem_kb)[at + 1] == kill);
    }
}

/// The effects of a cleanup hold the kill of every candidate that is
/// `Background` or `Frozen`.
pub proof fn lemma_reclaim_effects_hold_kill(
    states: Map<Seq<char>, AppState>,
    names: Seq<Seq<char>>,
    name: Seq<char>,
)
    requires
        names.contains(name),
        states.contains_key(name),
        reclaimable_pid(Some(states[name])) is Some,
    ensures
        reclaim_effects(states, names).contains(signal_view(states[name].pid(), Signal::Kill)),
    decreases names.len(),
{
    let kill = signal_view(states[name].pid(), Signal::Kill);
    let all = reclaim_effects(states, names);
    let front = reclaim_effects(states, names.drop_last());
    if names.last() == name {
        assert(all[front.len() as int + 1] == kill);
    } else {
        let at = choose|at: int| 0 <= at < names.len() && names[at] == name;
        assert(names.drop_last()[at] == name);
        lemma_reclaim_effects_hold_kill(states, names.drop_last(), name);
        let found = choose|found: int| 0 <= found < front.len() && front[found] == kill;
        assert(all[found] == kill);
    }
}

/// A foreground event for a package always resumes its process and records
/// the package as the foreground package and as `Foreground`, whatever its
/// state was and also where it was not tracked. It asks for no suspension
/// and no kill.
pub proof fn lemma_foreground_always_resumes(state: ControllerView, name: Seq<char>, pid: i32)
    requires
        names_process(name, pid),
    ensures
        foreground_effects(state, name, pid).contains(signal_view(pid, Signal::Continue)),
        forall|i: int|
            0 <= i < foreground_effects(state, name, pid).len() ==> (#[trigger] foreground_effects(
                state,
                name,
                pid,
            )[i] matches EffectView::Process(command) ==> command.signal == Signal::Continue),
        state_change_step(state, name, pid, true, Ok(None)).foreground_package == Some(name),
        state_in(foreground_step(state, name, pid).runtime_states, name) == Some(
            AppState::Foreground(pid),
        ),
        forall|lookup: ConfigLookup| #[trigger]
            state_change_step(state, name, pid, true, lookup) == foreground_step(state, name, pid),
{
    let effects = foreground_effects(state, name, pid);
    let prior = state_in(state.runtime_states, name);
    let at: int = match prior {
        Some(AppState::TemporarilyUnfrozen { .. }) => 2,
        _ => 1,
    };
    assert(effects[at] == signal_view(pid, Signal::Continue));
}

/// A background event freezes the package at once exactly where its
/// configuration was read and names the strict-background policy: it is
/// then `Frozen`, and the signal of its configured freeze mode is asked
/// for. In every other case it is `Background`, and no signal is asked for.
pub proof fn lemma_background_freezes_only_by_policy(
    state: ControllerView,
    name: Seq<char>,
    pid: i32,
    lookup: ConfigLookup,
)
    requires
        names_process(name, pid),
    ensures
        spec_decide_background_freeze(lookup) <==> (lookup matches Ok(Some(config))
            && config.policy == ManagementPolicy::StrictBackground),
        spec_decide_background_freeze(lookup) ==> state_in(
            background_step(state, name, pid, lookup).runtime_states,
            name,
        ) == Some(AppState::Frozen(pid)) && background_effects(name, pid, lookup).last()
            == signal_view(pid, spec_freeze_signal(configured_freeze_mode(lookup))),
        !spec_decide_background_freeze(lookup) ==> state_in(
            background_step(state, name, pid, lookup).runtime_states,
            name,
        ) == Some(AppState::Background(pid)) && forall|i: int|
            0 <= i < background_effects(name, pid, lookup).len() ==> !(
            #[trigger] background_effects(name, pid, lookup)[i] is Process),
{
}

/// Scheduling a standby timer while another is outstanding cancels exactly
/// that one, and the new one is then the only outstanding standby timer.
/// This holds for the screen-off event followed by the report of the new
/// timer, and for the report alone.
pub proof fn lemma_second_standby_cancels_first(state: ControllerView, first: i64, second: i64)
    requires
        state.standby_timer == Some(first),
    ensures
        screen_off_effects(state) == seq![
            audit_view(None, MSG_SCREEN_OFF@),
            EffectView::CancelTimer { timer_id: first },
            EffectView::ScheduleStandby { delay_ms: STANDBY_DELAY_MS },
        ],
        screen_off_step(state).standby_timer is None,
        standby_scheduled_effects(screen_off_step(state), second) == seq![
            audit_view(None, MSG_STANDBY_SCHEDULED@),
        ],
        standby_scheduled_step(screen_off_step(state), second).standby_timer == Some(second),
        first != second ==> standby_scheduled_effects(state, second) == seq![
            EffectView::CancelTimer { timer_id: first },
            audit_view(None, MSG_STANDBY_SCHEDULED@),
        ],
        standby_scheduled_step(state, second).standby_timer == Some(second),
{
}

/// A screen-on event cancels the outstanding standby timer, and the timer
/// is stale from then on as far as the standby goes: should it fire all the
/// same, no package is frozen on its account.
pub proof fn lemma_screen_on_cancels_standby(state: ControllerView, timer_id: i64)
    requires
        state.standby_timer == Some(timer_id),
    ensures
        screen_on_effects(state) == seq![
            audit_view(None, MSG_SCREEN_ON@),
            EffectView::CancelTimer { timer_id },
            audit_view(None, MSG_STANDBY_CANCELLED@),
        ],
        screen_on_step(state).standby_timer is None,
        screen_on_step(state).runtime_states == state.runtime_states,
        forall|after: ControllerView, effects: Seq<EffectView>| #[trigger]
            is_timer_outcome(screen_on_step(state), timer_id, after, effects) ==> is_refreeze_outcome(
                screen_on_step(state),
                timer_id,
                after,
                effects,
            ),
{
}

/// A stale timer does nothing when it fires.
pub proof fn lemma_stale_timer_changes_nothing(
    state: ControllerView,
    timer_id: i64,
    after: ControllerView,
    effects: Seq<EffectView>,
)
    requires
        is_stale_timer(state, timer_id),
        is_timer_outcome(state, timer_id, after, effects),
    ensures
        after == state,
        effects == Seq::<EffectView>::empty(),
{
}

/// A re-freeze timer that fires after its package has come to the
/// foreground is stale: the foreground event asked for its cancelling, and
/// its firing changes no state and asks for nothing. The timer service must
/// have given the id to no other pending timer.
pub proof fn lemma_refreeze_after_foreground_is_stale(
    state: ControllerView,
    name: Seq<char>,
    pid: i32,
    timer_id: i64,
    after: ControllerView,
    effects: Seq<EffectView>,
)
    requires
        names_process(name, pid),
        state.runtime_states.contains_key(name),
        state.runtime_states[name].guarded_by(timer_id),
        state.standby_timer != Some(timer_id),
        forall|other: Seq<char>|
            other != name && #[trigger] state.runtime_states.contains_key(other)
                ==> !state.runtime_states[other].guarded_by(timer_id),
        is_timer_outcome(foreground_step(state, name, pid), timer_id, after, effects),
    ensures
        foreground_effects(state, name, pid).contains(EffectView::CancelTimer { timer_id }),
        is_stale_timer(foreground_step(state, name, pid), timer_id),
        after == foreground_step(state, name, pid),
        effects == Seq::<EffectView>::empty(),
{
    let now = foreground_step(state, name, pid);
    assert(foreground_effects(state, name, pid)[1] == EffectView::CancelTimer { timer_id });
    assert forall|other: Seq<char>| #[trigger] now.runtime_states.contains_key(other) implies !now.runtime_states[other].guarded_by(
        timer_id,
    ) by {
        if other != name {
            assert(state.runtime_states.contains_key(other));
        }
    }
}

/// A standby that takes effect leaves no package in the background, and
/// changes no package that was not.
pub proof fn lemma_standby_freezes_all_background(states: Map<Seq<char>, AppState>, name: Seq<char>)
    requires
        states.contains_key(name),
    ensures
        frozen_background(states).contains_key(name),
        !(frozen_background(states)[name] is Background),
        states[name] is Background ==> frozen_background(states)[name] == AppState::Frozen(
            states[name].pid(),
        ),
        !(states[name] is Background) ==> frozen_background(states)[name] == states[name],
{
}

} // verus!
