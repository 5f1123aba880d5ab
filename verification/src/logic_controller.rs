//! The lifecycle governor: it owns the runtime state of every tracked
//! package, the background recency order, the foreground slot and the
//! standby timer slot, and decides what each event does to them.
//!
//! A handler changes the governor's own state and returns the effects that
//! the caller has to carry out, in order. What a handler needs from a
//! collaborator it takes as an argument; a timer that it asks for is
//! reported back with the handler that its effect names. One call is one
//! step: a caller that serves several threads keeps the governor behind a
//! lock, and each package then sees its events one after the other.
//!
//! Timer ids come from one timer service, which must never hand out the id
//! of a timer that is still pending: the governor takes a fired id for the
//! standby timer first, and for a package's re-freeze timer only after that.

use crate::config::{
    configured_priority, spec_configured_priority, AppConfig, ConfigLookup, FreezeMode, LaunchRule,
    RuleLookup, StoreError,
};
use crate::effects::{
    audit_for, audit_global, audit_view, effect_views, name_view, signal_view, Effect, EffectView,
    Signal,
};
use crate::events::{pid_of, EventType, FrameworkEvent, UnfreezeReason};
use crate::execution_manager::{freeze_app, unfreeze_app};
use crate::model::{
    background_step, cleanup_effects, cleanup_step, event_effects, event_step, frozen_background,
    guards_some, is_refreeze_of, is_refreeze_outcome, is_stale_timer, is_standby_freeze,
    is_timer_outcome, launch_effects, lemma_order_stays_tracked, lists_background, name_views,
    partly_frozen, reclaim_effects, refreeze_scheduled_effects, refreeze_scheduled_step,
    screen_off_effects, screen_off_step, screen_on_effects, screen_on_step,
    standby_scheduled_effects, standby_scheduled_step, standby_step, state_change_effects,
    state_change_step, suspensions, unfreeze_request_effects, well_formed, ControllerView,
    CLEANUP_CANDIDATES, EVENT_LAUNCH_AFTER_FREEZE, LOW_MEMORY_THRESHOLD_KB, MSG_BACKGROUND,
    MSG_BLOCKED_LAUNCH, MSG_CONFIG_ERROR, MSG_CONFIG_UPDATED, MSG_FOREGROUND, MSG_KILLED,
    MSG_LOW_MEMORY, MSG_POLICY_FREEZE, MSG_REFREEZE, MSG_SCREEN_OFF, MSG_SCREEN_ON,
    MSG_STANDBY_CANCELLED, MSG_STANDBY_SCHEDULED, MSG_STANDBY_TRIGGERED, MSG_TEMPORARY_UNFREEZE,
    STANDBY_DELAY_MS,
};
use crate::policy::{decide_background_freeze, decide_launch, spec_decide_launch};
use crate::priority::{priority_score, spec_priority_score};
use crate::recency::{
    lemma_least_recent_distinct, lemma_touched_head, lemma_touched_well_formed, scoring_position,
    BackgroundRecency, DEFAULT_CAPACITY,
};
pub use crate::state_store::AppState;
use crate::state_store::{
    all_storable, background_entries_of, entry_names, entry_views, first_guarded_entry,
    frozen_names, lemma_snapshot_selection, state_in, RuntimeStateStore,
};
use vstd::prelude::*;

verus! {

/// The first `count + 1` of `names` are the first `count` and the one after
/// them; where no name occurs twice, that one is not among the first
/// `count`.
proof fn lemma_take_one_more(names: Seq<Seq<char>>, count: int)
    requires
        0 <= count < names.len(),
    ensures
        forall|name: Seq<char>| #[trigger]
            names.take(count + 1).contains(name) <==> names.take(count).contains(name) || name
                == names[count],
        names.no_duplicates() ==> !names.take(count).contains(names[count]),
{
    let done = names.take(count);
    let next = names.take(count + 1);
    assert(next[count] == names[count]);
    assert forall|name: Seq<char>| done.contains(name) implies #[trigger] next.contains(name) by {
        let at = choose|at: int| 0 <= at < done.len() && done[at] == name;
        assert(next[at] == name);
    }
    assert forall|name: Seq<char>| #[trigger] next.contains(name) implies done.contains(name)
        || name == names[count] by {
        let at = choose|at: int| 0 <= at < next.len() && next[at] == name;
        if at < count {
            assert(done[at] == name);
        }
    }
    if names.no_duplicates() && done.contains(names[count]) {
        let at = choose|at: int| 0 <= at < done.len() && done[at] == names[count];
        assert(names[at] == names[count]);
    }
}

/// Moves every `Background` package of `store` to `Frozen` and returns the
/// moved packages, each with the state that it had.
fn freeze_background_packages(store: &mut RuntimeStateStore) -> (moved: Vec<(String, AppState)>)
    requires
        old(store).wf(),
    ensures
        final(store).wf(),
        final(store)@ == frozen_background(old(store)@),
        lists_background(entry_views(moved@), old(store)@),
{
    let entries = store.snapshot();
    let targets = background_entries_of(&entries);
    let ghost before = store@;
    let ghost listed = entry_views(targets@);
    let ghost names = entry_names(listed);
    proof {
        lemma_snapshot_selection(entry_views(entries@), before, |state: AppState| state is Background);
    }
    let mut index: usize = 0;
    while index < targets.len()
        invariant
            index <= targets@.len(),
            listed == entry_views(targets@),
            names == entry_names(listed),
            store.wf(),
            all_storable(before),
            lists_background(listed, before),
            forall|i: int| 0 <= i < listed.len() ==> (#[trigger] listed[i]).1 is Background,
            store@ == partly_frozen(before, names.take(index as int)),
        decreases targets@.len() - index,
    {
        proof {
            lemma_take_one_more(names, index as int);
            assert(names[index as int] == listed[index as int].0);
        }
        let current = targets[index].1;
        store.update_if(targets[index].0.as_str(), current, AppState::Frozen(current.pid()));
        index += 1;
    }
    proof {
        assert(names.take(index as int) =~= names);
        assert forall|name: Seq<char>| before.contains_key(name) && !names.contains(name) implies !(
        #[trigger] before[name] is Background) by {
            assert(!names.to_set().contains(name));
        }
    }
    targets
}

/// Some package whose temporary exemption the timer `timer_id` guards, with
/// its pid, or `None` where there is none.
fn find_guarded_package(store: &RuntimeStateStore, timer_id: i64) -> (found: Option<(String, i32)>)
    ensures
        (match found {
            Some((name, pid)) => state_in(store@, name@) == Some(
                AppState::TemporarilyUnfrozen { pid, refreeze_timer_id: timer_id },
            ),
            None => !guards_some(store@, timer_id),
        }),
{
    let entries = store.snapshot();
    let ghost names = entry_names(entry_views(entries@));
    match first_guarded_entry(&entries, timer_id) {
        Some(index) => {
            assert(names[index as int] == entries@[index as int].0@);
            Some((entries[index].0.clone(), entries[index].1.pid()))
        },
        None => {
            assert forall|name: Seq<char>| #[trigger]
                store@.contains_key(name) implies !store@[name].guarded_by(timer_id) by {
                let at = choose|at: int| 0 <= at < names.len() && names[at] == name;
                assert(entry_views(entries@)[at].0 == name);
            }
            None
        },
    }
}

/// Looks at each of `candidates` in turn and reclaims those that are
/// `Background` or `Frozen`: each is `Frozen` afterwards, and the effects
/// ask for its audit entry and its kill.
fn reclaim_packages(store: &mut RuntimeStateStore, candidates: &Vec<String>) -> (effects: Vec<Effect>)
    requires
        old(store).wf(),
        name_views(candidates@).no_duplicates(),
    ensures
        final(store).wf(),
        final(store)@ == partly_frozen(old(store)@, name_views(candidates@)),
        effect_views(effects@) == reclaim_effects(old(store)@, name_views(candidates@)),
{
    let ghost before = store@;
    let ghost names = name_views(candidates@);
    let mut effects: Vec<Effect> = Vec::new();
    let mut index: usize = 0;
    while index < candidates.len()
        invariant
            index <= candidates@.len(),
            names == name_views(candidates@),
            names.no_duplicates(),
            store.wf(),
            store@ == partly_frozen(before, names.take(index as int)),
            effect_views(effects@) == reclaim_effects(before, names.take(index as int)),
        decreases candidates@.len() - index,
    {
        proof {
            lemma_take_one_more(names, index as int);
            assert(names.take(index + 1).drop_last() =~= names.take(index as int));
        }
        let name = candidates[index].as_str();
        match store.get(name) {
            Some(AppState::Background(pid)) => {
                effects.push(audit_for(name, MSG_KILLED));
                if let Some(command) = freeze_app(pid, FreezeMode::ModeKill) {
                    effects.push(Effect::Process(command));
                }
                store.update_if(name, AppState::Background(pid), AppState::Frozen(pid));
            },
            Some(AppState::Frozen(pid)) => {
                effects.push(audit_for(name, MSG_KILLED));
                if let Some(command) = freeze_app(pid, FreezeMode::ModeKill) {
                    effects.push(Effect::Process(command));
                }
            },
            _ => {},
        }
        index += 1;
    }
    assert(names.take(index as int) =~= names);
    effects
}

/// The aggregate that a dashboard shows. What the metrics provider
/// measures is handed in; the governor adds what it knows itself.
#[derive(Clone, Copy, Debug, PartialEq, Eq, Structural)]
pub struct RuntimeStats {
    pub total_mem_kb: i64,
    pub avail_mem_kb: i64,
    /// How many tracked packages are `Frozen`.
    pub frozen_app_count: usize,
    /// Reserved; always 0.
    pub network_speed_bps: i64,
}

/// One entry of the audit log.
#[derive(Clone, Debug, PartialEq, Eq)]
pub struct EventLog {
    pub timestamp: i64,
    pub package_name: String,
    pub event_description: String,
}

/// The lifecycle governor.
pub struct LogicController {
    runtime_states: RuntimeStateStore,
    smart_standby_timer_id: Option<i64>,
    background_lru: BackgroundRecency,
    foreground_package: Option<String>,
}

impl View for LogicController {
    type V = ControllerView;

    closed spec fn view(&self) -> ControllerView {
        ControllerView {
            runtime_states: self.runtime_states@,
            standby_timer: self.smart_standby_timer_id,
            background_lru: self.background_lru@,
            foreground_package: name_view(self.foreground_package),
        }
    }
}

impl LogicController {
    /// The recency tracker has the default capacity.
    pub closed spec fn sized(&self) -> bool {
        self.background_lru.spec_capacity() == DEFAULT_CAPACITY
    }

    /// The governor's invariant. `new` establishes it and every handler
    /// keeps it.
    pub open spec fn wf(&self) -> bool {
        &&& self.sized()
        &&& well_formed(self@)
    }

    /// A governor that tracks nothing: no package, no standby timer, an
    /// empty recency order and an empty foreground slot.
    pub fn new() -> (controller: LogicController)
        ensures
            controller.wf(),
            (controller@.runtime_states == Map::<Seq<char>, AppState>::empty()),
            controller@.standby_timer is None,
            controller@.background_lru == Seq::<Seq<char>>::empty(),
            controller@.foreground_package is None,
    {
        LogicController {
            runtime_states: RuntimeStateStore::new(),
            smart_standby_timer_id: None,
            background_lru: BackgroundRecency::new(),
            foreground_package: None,
        }
    }

    /// The state of `name`, or `None` where it is not tracked.
    pub fn state_of(&self, name: &str) -> (found: Option<AppState>)
        ensures
            found == state_in(self@.runtime_states, name@),
    {
        self.runtime_states.get(name)
    }

    /// The pending standby timer, if one is outstanding.
    pub fn standby_timer(&self) -> (timer: Option<i64>)
        ensures
            timer == self@.standby_timer,
    {
        self.smart_standby_timer_id
    }

    /// The package that came to the foreground last, if any has.
    pub fn foreground_package(&self) -> (name: Option<String>)
        ensures
            name_view(name) == self@.foreground_package,
    {
        match &self.foreground_package {
            Some(name) => Some(name.clone()),
            None => None,
        }
    }

    /// The backgrounded packages, most recent first.
    pub fn background_order(&self) -> (names: Vec<String>)
        ensures
            names@.map_values(|name: String| name@) == self@.background_lru,
    {
        self.background_lru.names()
    }

    /// Computes the reclaim score of `pkg_name` from its place in the
    /// recency order and the priority class that `config` yields, for the
    /// process `pid`. A pid that is not positive gets no score.
    pub fn adjust_oom_score(&self, pkg_name: &str, pid: i32, config: &ConfigLookup) -> (effect: Option<
        Effect,
    >)
        ensures
            pid <= 0 ==> effect is None,
            pid > 0 ==> effect is Some && effect->0@ == (EffectView::SetReclaimScore {
                pid,
                score: spec_priority_score(
                    scoring_position(self@.background_lru, pkg_name@),
                    spec_configured_priority(*config),
                ) as i32,
            }),
    {
        if pid <= 0 {
            return None;
        }
        let position = self.background_lru.position_or_last(pkg_name);
        let score = priority_score(position, configured_priority(config));
        Some(Effect::SetReclaimScore { pid, score })
    }

    /// Handles a foreground or background event for the package `pkg_name`
    /// running as `pid`. `config` is what the configuration store returned
    /// for the package; only a background event reads it.
    pub fn handle_app_state_change(
        &mut self,
        pkg_name: &str,
        pid: i32,
        is_foreground: bool,
        config: &ConfigLookup,
    ) -> (effects: Vec<Effect>)
        requires
            old(self).wf(),
        ensures
            final(self).wf(),
            final(self)@ == state_change_step(old(self)@, pkg_name@, pid, is_foreground, *config),
            effect_views(effects@) == state_change_effects(
                old(self)@,
                pkg_name@,
                pid,
                is_foreground,
                *config,
            ),
    {
        let mut effects: Vec<Effect> = Vec::new();
        if pkg_name.is_empty() || pid <= 0 {
            return effects;
        }
        let ghost before = self@;
        let old_state = self.runtime_states.get(pkg_name);
        if is_foreground {
            let context = self.foreground_package();
            self.foreground_package = Some(pkg_name.to_owned());
            effects.push(audit_for(pkg_name, MSG_FOREGROUND));
            if let Some(AppState::TemporarilyUnfrozen { refreeze_timer_id, .. }) = old_state {
                effects.push(Effect::CancelTimer { timer_id: refreeze_timer_id });
            }
            if let Some(command) = unfreeze_app(pid) {
                effects.push(Effect::Process(command));
            }
            self.runtime_states.upsert(pkg_name, AppState::Foreground(pid));
            if let Some(AppState::Frozen(_)) = old_state {
                effects.push(
                    Effect::Training {
                        context,
                        target: pkg_name.to_owned(),
                        event_type: EVENT_LAUNCH_AFTER_FREEZE.to_owned(),
                        label: 1,
                    },
                );
            }
        } else {
            effects.push(audit_for(pkg_name, MSG_BACKGROUND));
            self.runtime_states.upsert(pkg_name, AppState::Background(pid));
            proof {
                lemma_touched_well_formed(before.background_lru, pkg_name@, DEFAULT_CAPACITY as nat);
            }
            self.background_lru.touch(pkg_name);
            proof {
                lemma_touched_head(before.background_lru, pkg_name@, DEFAULT_CAPACITY as nat);
            }
            if let Some(score) = self.adjust_oom_score(pkg_name, pid, config) {
                effects.push(score);
            }
            if decide_background_freeze(config) {
                if let Ok(Some(found)) = config {
                    effects.push(audit_for(pkg_name, MSG_POLICY_FREEZE));
                    if let Some(command) = freeze_app(pid, found.freeze_mode) {
                        effects.push(Effect::Process(command));
                    }
                    self.runtime_states.upsert(pkg_name, AppState::Frozen(pid));
                }
            }
            assert(self@.runtime_states =~= background_step(
                before,
                pkg_name@,
                pid,
                *config,
            ).runtime_states);
            assert forall|i: int| 0 <= i < self@.background_lru.len() implies self@.runtime_states.contains_key(
                #[trigger] self@.background_lru[i],
            ) by {
                assert(self@.background_lru.contains(self@.background_lru[i]));
            }
        }
        effects
    }

    /// Handles the screen going on: a standby that is pending is called
    /// off.
    pub fn handle_screen_on(&mut self) -> (effects: Vec<Effect>)
        requires
            old(self).wf(),
        ensures
            final(self).wf(),
            final(self)@ == screen_on_step(old(self)@),
            effect_views(effects@) == screen_on_effects(old(self)@),
    {
        let mut effects: Vec<Effect> = Vec::new();
        effects.push(audit_global(MSG_SCREEN_ON));
        let pending = self.smart_standby_timer_id;
        self.smart_standby_timer_id = None;
        if let Some(timer_id) = pending {
            effects.push(Effect::CancelTimer { timer_id });
            effects.push(audit_global(MSG_STANDBY_CANCELLED));
        }
        effects
    }

    /// Handles the screen going off: a standby timer is asked for, after a
    /// standby timer that is still pending has been cancelled. The id of
    /// the new timer comes back with `standby_timer_scheduled`.
    pub fn handle_screen_off(&mut self) -> (effects: Vec<Effect>)
        requires
            old(self).wf(),
        ensures
            final(self).wf(),
            final(self)@ == screen_off_step(old(self)@),
            effect_views(effects@) == screen_off_effects(old(self)@),
    {
        let mut effects: Vec<Effect> = Vec::new();
        effects.push(audit_global(MSG_SCREEN_OFF));
        let pending = self.smart_standby_timer_id;
        self.smart_standby_timer_id = None;
        if let Some(timer_id) = pending {
            effects.push(Effect::CancelTimer { timer_id });
        }
        effects.push(Effect::ScheduleStandby { delay_ms: STANDBY_DELAY_MS });
        effects
    }

    /// Records the standby timer that was armed on the governor's request.
    /// Another standby timer that is still pending is cancelled, so that
    /// at most one is ever outstanding.
    pub fn standby_timer_scheduled(&mut self, timer_id: i64) -> (effects: Vec<Effect>)
        requires
            old(self).wf(),
        ensures
            final(self).wf(),
            final(self)@ == standby_scheduled_step(old(self)@, timer_id),
            effect_views(effects@) == standby_scheduled_effects(old(self)@, timer_id),
    {
        let mut effects: Vec<Effect> = Vec::new();
        if let Some(pending) = self.smart_standby_timer_id {
            if pending != timer_id {
                effects.push(Effect::CancelTimer { timer_id: pending });
            }
        }
        self.smart_standby_timer_id = Some(timer_id);
        effects.push(audit_global(MSG_STANDBY_SCHEDULED));
        effects
    }

    /// Handles a framework event. `config` is what the configuration store
    /// returned for the event's target package; only a background event
    /// reads it.
    pub fn handle_framework_event(&mut self, event: &FrameworkEvent, config: &ConfigLookup) -> (effects:
        Vec<Effect>)
        requires
            old(self).wf(),
        ensures
            final(self).wf(),
            final(self)@ == event_step(
                old(self)@,
                event.event_type,
                event.source_package@,
                event.target_package@,
                *config,
            ),
            effect_views(effects@) == event_effects(
                old(self)@,
                event.event_type,
                event.source_package@,
                event.target_package@,
                *config,
            ),
    {
        match event.event_type {
            EventType::AppForeground => {
                let pid = pid_of(event.source_package.as_str());
                self.handle_app_state_change(event.target_package.as_str(), pid, true, config)
            },
            EventType::AppBackground => {
                let pid = pid_of(event.source_package.as_str());
                self.handle_app_state_change(event.target_package.as_str(), pid, false, config)
            },
            EventType::ScreenOn => self.handle_screen_on(),
            EventType::ScreenOff => self.handle_screen_off(),
            EventType::Other => Vec::new(),
        }
    }

    /// Handles a request to let a frozen package run for `duration_ms`
    /// milliseconds. The id of the re-freeze timer that the effects ask for
    /// comes back with `refreeze_timer_scheduled`.
    pub fn request_temporary_unfreeze(
        &self,
        package_name: &str,
        reason: &UnfreezeReason,
        duration_ms: i32,
    ) -> (effects: Vec<Effect>)
        requires
            self.wf(),
        ensures
            effect_views(effects@) == unfreeze_request_effects(
                self@,
                package_name@,
                reason.label@,
                duration_ms,
            ),
    {
        let mut effects: Vec<Effect> = Vec::new();
        if let Some(AppState::Frozen(pid)) = self.runtime_states.get(package_name) {
            if let Some(command) = unfreeze_app(pid) {
                effects.push(Effect::Process(command));
            }
            let message = MSG_TEMPORARY_UNFREEZE.to_owned().concat(reason.label.as_str());
            effects.push(Effect::Audit { package: Some(package_name.to_owned()), message });
            effects.push(
                Effect::ScheduleRefreeze { package_name: package_name.to_owned(), duration_ms },
            );
        }
        effects
    }

    /// Records the re-freeze timer that was armed for `package_name` on the
    /// governor's request. Where the package is no longer frozen the timer
    /// guards nothing and is cancelled.
    pub fn refreeze_timer_scheduled(&mut self, package_name: &str, timer_id: i64) -> (effects: Vec<
        Effect,
    >)
        requires
            old(self).wf(),
        ensures
            final(self).wf(),
            final(self)@ == refreeze_scheduled_step(old(self)@, package_name@, timer_id),
            effect_views(effects@) == refreeze_scheduled_effects(old(self)@, package_name@, timer_id),
    {
        let mut effects: Vec<Effect> = Vec::new();
        if let Some(AppState::Frozen(pid)) = self.runtime_states.get(package_name) {
            self.runtime_states.update_if(
                package_name,
                AppState::Frozen(pid),
                AppState::TemporarilyUnfrozen { pid, refreeze_timer_id: timer_id },
            );
        } else {
            effects.push(Effect::CancelTimer { timer_id });
        }
        effects
    }

    /// Answers whether `rule.source_package` may launch
    /// `rule.target_package`, from what the rule store returned for the
    /// pair. The answer is the rule with `allowed` set.
    pub fn should_allow_launch(&self, rule: &LaunchRule, lookup: &RuleLookup) -> (decision: (
        LaunchRule,
        Vec<Effect>,
    ))
        ensures
            decision.0.source_package@ == rule.source_package@,
            decision.0.target_package@ == rule.target_package@,
            decision.0.allowed == spec_decide_launch(*lookup),
            effect_views(decision.1@) == launch_effects(
                rule.source_package@,
                rule.target_package@,
                *lookup,
            ),
    {
        let allowed = decide_launch(lookup);
        let mut effects: Vec<Effect> = Vec::new();
        if !allowed {
            let message = MSG_BLOCKED_LAUNCH.to_owned().concat(rule.target_package.as_str());
            effects.push(Effect::Audit { package: Some(rule.source_package.clone()), message });
        }
        let answer = LaunchRule {
            source_package: rule.source_package.clone(),
            target_package: rule.target_package.clone(),
            allowed,
        };
        (answer, effects)
    }

    /// Lets the standby take effect if `timer_id` is the outstanding
    /// standby timer, and says whether it was.
    fn handle_standby_timer(&mut self, timer_id: i64) -> (outcome: (bool, Vec<Effect>))
        requires
            old(self).wf(),
        ensures
            final(self).wf(),
            outcome.0 == (old(self)@.standby_timer == Some(timer_id)),
            outcome.0 ==> final(self)@ == standby_step(old(self)@) && is_standby_freeze(
                old(self)@.runtime_states,
                effect_views(outcome.1@),
            ),
            !outcome.0 ==> final(self)@ == old(self)@ && outcome.1@.len() == 0,
    {
        let mut effects: Vec<Effect> = Vec::new();
        if self.smart_standby_timer_id != Some(timer_id) {
            return (false, effects);
        }
        let ghost before = self@;
        self.smart_standby_timer_id = None;
        effects.push(audit_global(MSG_STANDBY_TRIGGERED));
        let moved = freeze_background_packages(&mut self.runtime_states);
        let ghost listed = entry_views(moved@);
        let mut index: usize = 0;
        while index < moved.len()
            invariant
                index <= moved@.len(),
                listed == entry_views(moved@),
                lists_background(listed, before.runtime_states),
                all_storable(before.runtime_states),
                effect_views(effects@) == seq![audit_view(None, MSG_STANDBY_TRIGGERED@)] + suspensions(
                    listed.take(index as int),
                ),
            decreases moved@.len() - index,
        {
            let ghost so_far = effect_views(effects@);
            assert(listed[index as int].1 == moved@[index as int].1);
            let pid = moved[index].1.pid();
            if let Some(command) = freeze_app(pid, FreezeMode::ModeSigstop) {
                effects.push(Effect::Process(command));
            }
            assert(effect_views(effects@) =~= so_far.push(signal_view(pid, Signal::Stop)));
            index += 1;
        }
        proof {
            assert(listed.take(index as int) =~= listed);
            lemma_order_stays_tracked(before, self@);
        }
        (true, effects)
    }

    /// Re-freezes a package whose temporary exemption `timer_id` guards.
    /// A timer that guards no package is stale and does nothing.
    fn handle_refreeze_timer(&mut self, timer_id: i64) -> (effects: Vec<Effect>)
        requires
            old(self).wf(),
        ensures
            final(self).wf(),
            is_refreeze_outcome(old(self)@, timer_id, final(self)@, effect_views(effects@)),
    {
        let mut effects: Vec<Effect> = Vec::new();
        let ghost before = self@;
        match find_guarded_package(&self.runtime_states, timer_id) {
            Some((name, pid)) => {
                effects.push(audit_for(name.as_str(), MSG_REFREEZE));
                if let Some(command) = freeze_app(pid, FreezeMode::ModeSigstop) {
                    effects.push(Effect::Process(command));
                }
                self.runtime_states.update_if(
                    name.as_str(),
                    AppState::TemporarilyUnfrozen { pid, refreeze_timer_id: timer_id },
                    AppState::Frozen(pid),
                );
                proof {
                    assert(effect_views(effects@) =~= seq![
                        audit_view(Some(name@), MSG_REFREEZE@),
                        signal_view(pid, Signal::Stop),
                    ]);
                    assert(is_refreeze_of(before, timer_id, name@, self@, effect_views(effects@)));
                    lemma_order_stays_tracked(before, self@);
                }
            },
            None => {
                assert(effect_views(effects@) =~= Seq::<EffectView>::empty());
            },
        }
        effects
    }

    /// Handles a fired timer. The id is taken for the outstanding standby
    /// timer first, then for the re-freeze timer of a package; an id that
    /// is neither is stale and is ignored.
    pub fn on_timer_fired(&mut self, timer_id: i64) -> (effects: Vec<Effect>)
        requires
            old(self).wf(),
        ensures
            final(self).wf(),
            is_timer_outcome(old(self)@, timer_id, final(self)@, effect_views(effects@)),
            is_stale_timer(old(self)@, timer_id) ==> final(self)@ == old(self)@ && effects@.len() == 0,
    {
        let (was_standby, effects) = self.handle_standby_timer(timer_id);
        if was_standby {
            return effects;
        }
        let effects = self.handle_refreeze_timer(timer_id);
        assert(effect_views(effects@).len() == effects@.len());
        effects
    }

    /// Reclaims memory if less than the threshold is available: the least
    /// recently backgrounded packages are looked at, and those that are
    /// `Background` or `Frozen` are killed.
    pub fn perform_memory_cleanup(&mut self, avail_mem_kb: i64) -> (effects: Vec<Effect>)
        requires
            old(self).wf(),
        ensures
            final(self).wf(),
            final(self)@ == cleanup_step(old(self)@, avail_mem_kb),
            effect_views(effects@) == cleanup_effects(old(self)@, avail_mem_kb),
    {
        let mut effects: Vec<Effect> = Vec::new();
        if avail_mem_kb < LOW_MEMORY_THRESHOLD_KB {
            let ghost before = self@;
            effects.push(audit_global(MSG_LOW_MEMORY));
            let candidates = self.background_lru.least_recent(CLEANUP_CANDIDATES);
            proof {
                lemma_least_recent_distinct(before.background_lru, CLEANUP_CANDIDATES as nat);
            }
            let mut kills = reclaim_packages(&mut self.runtime_states, &candidates);
            effects.append(&mut kills);
            proof {
                lemma_order_stays_tracked(before, self@);
            }
        }
        effects
    }

    /// The runtime statistics: the two memory figures as they were
    /// measured, and the number of frozen packages.
    pub fn get_runtime_stats(&self, total_mem_kb: i64, avail_mem_kb: i64) -> (stats: RuntimeStats)
        ensures
            stats.total_mem_kb == total_mem_kb,
            stats.avail_mem_kb == avail_mem_kb,
            stats.frozen_app_count == frozen_names(self@.runtime_states).len(),
            stats.network_speed_bps == 0,
    {
        RuntimeStats {
            total_mem_kb,
            avail_mem_kb,
            frozen_app_count: self.runtime_states.frozen_count(),
            network_speed_bps: 0,
        }
    }

    /// Says what is to be logged after the configuration store was asked to
    /// keep `config`: that it was updated, or why it was not.
    pub fn set_app_config(&self, config: &AppConfig, outcome: &Result<(), StoreError>) -> (effects: Vec<
        Effect,
    >)
        ensures
            effect_views(effects@) == seq![
                audit_view(
                    Some(config.package_name@),
                    match *outcome {
                        Ok(_) => MSG_CONFIG_UPDATED@,
                        Err(error) => MSG_CONFIG_ERROR@ + error.message@,
                    },
                ),
            ],
    {
        let message = match outcome {
            Ok(_) => MSG_CONFIG_UPDATED.to_owned(),
            Err(error) => MSG_CONFIG_ERROR.to_owned().concat(error.message.as_str()),
        };
        let mut effects: Vec<Effect> = Vec::new();
        effects.push(Effect::Audit { package: Some(config.package_name.clone()), message });
        effects
    }

    /// The recent audit entries, newest first, from what the audit log
    /// returned: at most `limit` of them, and none where the read failed.
    pub fn get_recent_events(&self, limit: u32, stored: Result<Vec<EventLog>, StoreError>) -> (events: Vec<
        EventLog,
    >)
        ensures
            events@ == (match stored {
                Ok(entries) => if entries@.len() <= limit {
                    entries@
                } else {
                    entries@.take(limit as int)
                },
                Err(_) => Seq::empty(),
            }),
    {
        match stored {
            Ok(entries) => {
                let mut events = entries;
                if events.len() > limit as usize {
                    events.truncate(limit as usize);
                }
                events
            },
            Err(_) => Vec::new(),
        }
    }
}

} // verus!
