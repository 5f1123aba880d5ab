//! The runtime state store: at most one lifecycle state per package, kept
//! in a `DashMap` from package name to state.
//!
//! Every change goes through `&mut self`, so a caller that shares the store
//! between threads has to put it behind a lock; one call is then one atomic
//! step, and no reader sees a half-written state.

use dashmap::DashMap;
use vstd::prelude::*;

verus! {

/// Lifecycle state of one tracked package. Every variant carries the pid of
/// the package's process.
#[derive(Clone, Copy, Debug, PartialEq, Eq, Structural)]
pub enum AppState {
    Foreground(i32),
    Background(i32),
    Frozen(i32),
    TemporarilyUnfrozen { pid: i32, refreeze_timer_id: i64 },
}

impl AppState {
    /// The pid that the state carries.
    pub open spec fn spec_pid(self) -> i32 {
        match self {
            AppState::Foreground(pid) => pid,
            AppState::Background(pid) => pid,
            AppState::Frozen(pid) => pid,
            AppState::TemporarilyUnfrozen { pid, .. } => pid,
        }
    }

    /// The pid that the state carries.
    #[verifier::when_used_as_spec(spec_pid)]
    pub fn pid(self) -> (pid: i32)
        ensures
            pid == self.spec_pid(),
    {
        match self {
            AppState::Foreground(pid) => pid,
            AppState::Background(pid) => pid,
            AppState::Frozen(pid) => pid,
            AppState::TemporarilyUnfrozen { pid, .. } => pid,
        }
    }

    /// Whether the state is a temporary exemption guarded by `timer_id`.
    pub open spec fn spec_guarded_by(self, timer_id: i64) -> bool {
        match self {
            AppState::TemporarilyUnfrozen { refreeze_timer_id, .. } => refreeze_timer_id == timer_id,
            _ => false,
        }
    }

    /// Whether the state is a temporary exemption guarded by `timer_id`.
    #[verifier::when_used_as_spec(spec_guarded_by)]
    pub fn guarded_by(self, timer_id: i64) -> (guarded: bool)
        ensures
            guarded == self.spec_guarded_by(timer_id),
    {
        match self {
            AppState::TemporarilyUnfrozen { refreeze_timer_id, .. } => refreeze_timer_id == timer_id,
            _ => false,
        }
    }
}

/// `dashmap::DashMap`, taken as it is: of a value nothing is known but what
/// `store_contents` names.
#[verifier::external_type_specification]
#[verifier::external_body]
#[verifier::reject_recursive_types(K)]
#[verifier::reject_recursive_types(V)]
#[verifier::reject_recursive_types(S)]
pub struct ExDashMap<K, V, S>(DashMap<K, V, S>);

/// What a `DashMap` from package name to state holds: the state stored
/// under each name, the names taken as character sequences.
pub uninterp spec fn store_contents(table: DashMap<String, AppState>) -> Map<Seq<char>, AppState>;

/// A list of entries with the names taken as character sequences.
pub open spec fn entry_views(entries: Seq<(String, AppState)>) -> Seq<(Seq<char>, AppState)> {
    entries.map_values(|entry: (String, AppState)| (entry.0@, entry.1))
}

/// The names of a list of entries, in order.
pub open spec fn entry_names(entries: Seq<(Seq<char>, AppState)>) -> Seq<Seq<char>> {
    entries.map_values(|entry: (Seq<char>, AppState)| entry.0)
}

/// `entries` lists `contents`: every key once, each with its state, in
/// whatever order.
pub open spec fn is_snapshot_of(
    entries: Seq<(Seq<char>, AppState)>,
    contents: Map<Seq<char>, AppState>,
) -> bool {
    &&& entry_names(entries).no_duplicates()
    &&& entry_names(entries).to_set() == contents.dom()
    &&& forall|i: int| 0 <= i < entries.len() ==> contents[(#[trigger] entries[i]).0] == entries[i].1
}

/// `DashMap::new`: the new map holds nothing.
#[verifier::external_body]
fn dashmap_new() -> (table: DashMap<String, AppState>)
    ensures
        (store_contents(table) == Map::<Seq<char>, AppState>::empty()),
{
    DashMap::new()
}

/// `DashMap::get`: a copy of the value stored under `key`, or `None` where
/// the map has no such key.
#[verifier::external_body]
fn dashmap_get(table: &DashMap<String, AppState>, key: &str) -> (found: Option<AppState>)
    ensures
        found == state_in(store_contents(*table), key@),
{
    table.get(key).map(|entry| *entry.value())
}

/// `DashMap::insert`: afterwards `key` maps to `value`, and every other key
/// is as before.
#[verifier::external_body]
fn dashmap_insert(table: &mut DashMap<String, AppState>, key: String, value: AppState)
    ensures
        store_contents(*final(table)) == store_contents(*old(table)).insert(key@, value),
{
    table.insert(key, value);
}

/// `DashMap::iter`, each entry copied out: every key of the map comes once,
/// with its value. The order is that of the map's hash tables and is left
/// open.
#[verifier::external_body]
fn dashmap_entries(table: &DashMap<String, AppState>) -> (entries: Vec<(String, AppState)>)
    ensures
        is_snapshot_of(entry_views(entries@), store_contents(*table)),
{
    table.iter().map(|entry| (entry.key().clone(), *entry.value())).collect()
}

/// The state stored under `name`, if any.
pub open spec fn state_in(contents: Map<Seq<char>, AppState>, name: Seq<char>) -> Option<AppState> {
    if contents.contains_key(name) {
        Some(contents[name])
    } else {
        None
    }
}

/// What the store accepts: a name that is not empty and a positive pid.
pub open spec fn storable(name: Seq<char>, state: AppState) -> bool {
    name.len() > 0 && state.pid() > 0
}

/// Every name is non-empty and every pid positive.
pub open spec fn all_storable(contents: Map<Seq<char>, AppState>) -> bool {
    forall|name: Seq<char>| #[trigger]
        contents.contains_key(name) ==> storable(name, contents[name])
}

/// The names in `contents` whose state meets `wanted`.
pub open spec fn names_where(
    contents: Map<Seq<char>, AppState>,
    wanted: spec_fn(AppState) -> bool,
) -> Set<Seq<char>> {
    contents.dom().filter(|name: Seq<char>| wanted(contents[name]))
}

/// The names in `contents` whose state is `Frozen`.
pub open spec fn frozen_names(contents: Map<Seq<char>, AppState>) -> Set<Seq<char>> {
    names_where(contents, |state: AppState| state is Frozen)
}

/// The names in `contents` whose state is `Background`.
pub open spec fn background_names(contents: Map<Seq<char>, AppState>) -> Set<Seq<char>> {
    names_where(contents, |state: AppState| state is Background)
}

/// Those of `entries` whose state meets `wanted`, in order.
pub open spec fn entries_where(
    entries: Seq<(Seq<char>, AppState)>,
    wanted: spec_fn(AppState) -> bool,
) -> Seq<(Seq<char>, AppState)>
    decreases entries.len(),
{
    if entries.len() == 0 {
        Seq::empty()
    } else if wanted(entries.last().1) {
        entries_where(entries.drop_last(), wanted).push(entries.last())
    } else {
        entries_where(entries.drop_last(), wanted)
    }
}

/// The `Frozen` ones of `entries`, in order.
pub open spec fn frozen_entries(entries: Seq<(Seq<char>, AppState)>) -> Seq<(Seq<char>, AppState)> {
    entries_where(entries, |state: AppState| state is Frozen)
}

/// The `Background` ones of `entries`, in order.
pub open spec fn background_entries(entries: Seq<(Seq<char>, AppState)>) -> Seq<
    (Seq<char>, AppState),
> {
    entries_where(entries, |state: AppState| state is Background)
}

/// Whether `found` is the first of `entries` that the timer `timer_id`
/// guards, or `None` where it guards none of them.
pub open spec fn is_first_guarded(
    entries: Seq<(Seq<char>, AppState)>,
    timer_id: i64,
    found: Option<int>,
) -> bool {
    match found {
        Some(index) => {
            &&& 0 <= index < entries.len()
            &&& entries[index].1.guarded_by(timer_id)
            &&& forall|earlier: int|
                0 <= earlier < index ==> !(#[trigger] entries[earlier]).1.guarded_by(timer_id)
        },
        None => forall|i: int| 0 <= i < entries.len() ==> !(#[trigger] entries[i]).1.guarded_by(timer_id),
    }
}

/// `entry` is an entry of `contents` whose state meets `wanted`.
pub open spec fn selected_from(
    contents: Map<Seq<char>, AppState>,
    wanted: spec_fn(AppState) -> bool,
    entry: (Seq<char>, AppState),
) -> bool {
    contents.contains_key(entry.0) && contents[entry.0] == entry.1 && wanted(entry.1)
}

/// A selection keeps the order of the entries it selects from: it has no
/// name twice where they have none, and holds exactly those of them that
/// meet the condition.
pub proof fn lemma_entries_where(entries: Seq<(Seq<char>, AppState)>, wanted: spec_fn(AppState) -> bool)
    requires
        entry_names(entries).no_duplicates(),
    ensures
        entries_where(entries, wanted).len() <= entries.len(),
        entry_names(entries_where(entries, wanted)).no_duplicates(),
        forall|entry: (Seq<char>, AppState)| #[trigger]
            entries_where(entries, wanted).contains(entry) <==> entries.contains(entry) && wanted(
                entry.1,
            ),
    decreases entries.len(),
{
    let chosen = entries_where(entries, wanted);
    if entries.len() > 0 {
        let front = entries.drop_last();
        let last = entries.last();
        let front_chosen = entries_where(front, wanted);
        assert forall|i: int, j: int| 0 <= i < front.len() && 0 <= j < front.len() && i != j implies entry_names(
            front,
        )[i] != entry_names(front)[j] by {
            assert(entry_names(front)[i] == entry_names(entries)[i]);
            assert(entry_names(front)[j] == entry_names(entries)[j]);
        }
        lemma_entries_where(front, wanted);
        assert forall|entry: (Seq<char>, AppState)| #[trigger] chosen.contains(entry) implies entries.contains(
            entry,
        ) && wanted(entry.1) by {
            let at = choose|at: int| 0 <= at < chosen.len() && chosen[at] == entry;
            if at < front_chosen.len() {
                assert(front_chosen.contains(entry));
            }
        }
        assert forall|entry: (Seq<char>, AppState)| entries.contains(entry) && wanted(entry.1) implies #[trigger] chosen.contains(
            entry,
        ) by {
            let i = choose|i: int| 0 <= i < entries.len() && entries[i] == entry;
            if i < front.len() {
                assert(front[i] == entry);
                assert(front_chosen.contains(entry));
                let at = choose|at: int| 0 <= at < front_chosen.len() && front_chosen[at] == entry;
                assert(chosen[at] == entry);
            } else {
                assert(chosen[chosen.len() - 1] == entry);
            }
        }
        if wanted(last.1) {
            let names = entry_names(chosen);
            assert forall|i: int, j: int| 0 <= i < names.len() && 0 <= j < names.len() && i != j implies names[i]
                != names[j] by {
                if i == names.len() - 1 || j == names.len() - 1 {
                    let other = if i == names.len() - 1 {
                        j
                    } else {
                        i
                    };
                    assert(front_chosen.contains(chosen[other]));
                    let k = choose|k: int| 0 <= k < front.len() && front[k] == chosen[other];
                    assert(entry_names(entries)[k] == front[k].0);
                    assert(entry_names(entries)[entries.len() - 1] == last.0);
                } else {
                    assert(entry_names(front_chosen)[i] == names[i]);
                    assert(entry_names(front_chosen)[j] == names[j]);
                }
            }
        }
    }
}

/// A selection from a snapshot names exactly the keys of the map whose
/// state meets the condition, each once and with its state.
pub proof fn lemma_snapshot_selection(
    entries: Seq<(Seq<char>, AppState)>,
    contents: Map<Seq<char>, AppState>,
    wanted: spec_fn(AppState) -> bool,
)
    requires
        is_snapshot_of(entries, contents),
    ensures
        contents.dom().finite(),
        entries.len() == contents.dom().len(),
        entry_names(entries_where(entries, wanted)).no_duplicates(),
        entry_names(entries_where(entries, wanted)).to_set() == names_where(contents, wanted),
        entries_where(entries, wanted).len() == names_where(contents, wanted).len(),
        forall|i: int|
            0 <= i < entries_where(entries, wanted).len() ==> selected_from(
                contents,
                wanted,
                #[trigger] entries_where(entries, wanted)[i],
            ),
{
    let names = entry_names(entries);
    vstd::seq_lib::seq_to_set_is_finite(names);
    names.unique_seq_to_set();
    lemma_entries_where(entries, wanted);
    let chosen = entries_where(entries, wanted);
    let chosen_names = entry_names(chosen);
    chosen_names.unique_seq_to_set();
    assert forall|i: int| 0 <= i < chosen.len() implies selected_from(
        contents,
        wanted,
        #[trigger] chosen[i],
    ) by {
        assert(chosen.contains(chosen[i]));
        let k = choose|k: int| 0 <= k < entries.len() && entries[k] == chosen[i];
        assert(names[k] == chosen[i].0);
    }
    assert(chosen_names.to_set() =~= names_where(contents, wanted)) by {
        assert forall|name: Seq<char>| chosen_names.to_set().contains(name) implies names_where(
            contents,
            wanted,
        ).contains(name) by {
            let i = choose|i: int| 0 <= i < chosen_names.len() && chosen_names[i] == name;
            assert(selected_from(contents, wanted, chosen[i]));
        }
        assert forall|name: Seq<char>| names_where(contents, wanted).contains(name) implies chosen_names.to_set().contains(
            name,
        ) by {
            let k = choose|k: int| 0 <= k < names.len() && names[k] == name;
            assert(chosen.contains(entries[k]));
            let at = choose|at: int| 0 <= at < chosen.len() && chosen[at] == entries[k];
            assert(chosen_names[at] == name);
        }
    }
}

/// The number of `Frozen` entries in a list of entries.
pub fn count_frozen_entries(entries: &Vec<(String, AppState)>) -> (count: usize)
    ensures
        count == frozen_entries(entry_views(entries@)).len(),
{
    let ghost views = entry_views(entries@);
    let mut count: usize = 0;
    let mut index: usize = 0;
    while index < entries.len()
        invariant
            index <= entries@.len(),
            views == entry_views(entries@),
            count <= index,
            count == frozen_entries(views.take(index as int)).len(),
        decreases entries@.len() - index,
    {
        assert(views.take(index + 1).drop_last() =~= views.take(index as int));
        if let AppState::Frozen(_) = entries[index].1 {
            count += 1;
        }
        index += 1;
    }
    assert(views.take(index as int) =~= views);
    count
}

/// The `Background` entries of a list of entries, in order.
pub fn background_entries_of(entries: &Vec<(String, AppState)>) -> (chosen: Vec<(String, AppState)>)
    ensures
        entry_views(chosen@) == background_entries(entry_views(entries@)),
{
    let ghost views = entry_views(entries@);
    let mut chosen: Vec<(String, AppState)> = Vec::new();
    let mut index: usize = 0;
    while index < entries.len()
        invariant
            index <= entries@.len(),
            views == entry_views(entries@),
            entry_views(chosen@) == background_entries(views.take(index as int)),
        decreases entries@.len() - index,
    {
        assert(views.take(index + 1).drop_last() =~= views.take(index as int));
        if let AppState::Background(_) = entries[index].1 {
            chosen.push((entries[index].0.clone(), entries[index].1));
        }
        index += 1;
    }
    assert(views.take(index as int) =~= views);
    chosen
}

/// The index of the first of `entries` that the timer `timer_id` guards.
pub fn first_guarded_entry(entries: &Vec<(String, AppState)>, timer_id: i64) -> (found: Option<usize>)
    ensures
        is_first_guarded(
            entry_views(entries@),
            timer_id,
            match found {
                Some(index) => Some(index as int),
                None => None,
            },
        ),
{
    let mut index: usize = 0;
    while index < entries.len()
        invariant
            index <= entries@.len(),
            forall|earlier: int|
                0 <= earlier < index ==> !(#[trigger] entry_views(entries@)[earlier]).1.guarded_by(
                    timer_id,
                ),
        decreases entries@.len() - index,
    {
        if entries[index].1.guarded_by(timer_id) {
            return Some(index);
        }
        index += 1;
    }
    None
}

/// The runtime state store.
pub struct RuntimeStateStore {
    table: DashMap<String, AppState>,
}

impl View for RuntimeStateStore {
    type V = Map<Seq<char>, AppState>;

    /// The state of each tracked package, by name.
    closed spec fn view(&self) -> Map<Seq<char>, AppState> {
        store_contents(self.table)
    }
}

impl RuntimeStateStore {
    /// Finitely many packages are tracked, none under the empty name, and
    /// every pid is positive.
    pub open spec fn wf(&self) -> bool {
        &&& self@.dom().finite()
        &&& all_storable(self@)
    }

    /// A store that tracks nothing.
    pub fn new() -> (store: RuntimeStateStore)
        ensures
            store.wf(),
            (store@ == Map::<Seq<char>, AppState>::empty()),
    {
        RuntimeStateStore { table: dashmap_new() }
    }

    /// The state of `name`, or `None` where it is not tracked.
    pub fn get(&self, name: &str) -> (found: Option<AppState>)
        ensures
            found == state_in(self@, name@),
    {
        dashmap_get(&self.table, name)
    }

    /// Stores `state` for `name`, over whatever was there. An empty name or
    /// a pid that is not positive is ignored.
    pub fn upsert(&mut self, name: &str, state: AppState) -> (stored: bool)
        requires
            old(self).wf(),
        ensures
            final(self).wf(),
            stored == storable(name@, state),
            final(self)@ == (if stored {
                old(self)@.insert(name@, state)
            } else {
                old(self)@
            }),
    {
        if name.is_empty() || state.pid() <= 0 {
            return false;
        }
        dashmap_insert(&mut self.table, name.to_owned(), state);
        true
    }

    /// Replaces the state of `name` by `next` if it is `expected` now, in
    /// one step. Returns whether it did; if not, nothing changes.
    pub fn update_if(&mut self, name: &str, expected: AppState, next: AppState) -> (updated: bool)
        requires
            old(self).wf(),
        ensures
            final(self).wf(),
            updated == (state_in(old(self)@, name@) == Some(expected) && next.pid() > 0),
            final(self)@ == (if updated {
                old(self)@.insert(name@, next)
            } else {
                old(self)@
            }),
    {
        match dashmap_get(&self.table, name) {
            Some(current) => {
                if current == expected && next.pid() > 0 {
                    dashmap_insert(&mut self.table, name.to_owned(), next);
                    true
                } else {
                    false
                }
            },
            None => false,
        }
    }

    /// Every tracked package with its state, each once. The order is not
    /// determined.
    pub fn snapshot(&self) -> (entries: Vec<(String, AppState)>)
        ensures
            is_snapshot_of(entry_views(entries@), self@),
    {
        dashmap_entries(&self.table)
    }

    /// How many packages are tracked.
    pub fn len(&self) -> (count: usize)
        ensures
            count == self@.dom().len(),
    {
        let entries = dashmap_entries(&self.table);
        proof {
            lemma_snapshot_selection(entry_views(entries@), self@, |state: AppState| true);
        }
        entries.len()
    }

    /// How many tracked packages are `Frozen`.
    pub fn frozen_count(&self) -> (count: usize)
        ensures
            count == frozen_names(self@).len(),
    {
        let entries = dashmap_entries(&self.table);
        proof {
            lemma_snapshot_selection(entry_views(entries@), self@, |state: AppState| state is Frozen);
        }
        count_frozen_entries(&entries)
    }
}

} // verus!
