//! The background recency tracker: the packages that went to the background,
//! most recent first, each at most once, and never more than the capacity.

use std::collections::VecDeque;
use vstd::prelude::*;

verus! {

/// How many packages a tracker made with `new` keeps.
pub const DEFAULT_CAPACITY: usize = 100;

/// The order after `name` has gone to the background: `name` at the head,
/// its earlier occurrence taken out, and the tail cut off at `capacity`.
pub open spec fn touched(order: Seq<Seq<char>>, name: Seq<char>, capacity: nat) -> Seq<Seq<char>> {
    let moved = seq![name] + order.remove_value(name);
    if moved.len() > capacity {
        moved.take(capacity as int)
    } else {
        moved
    }
}

/// The `count` least recent names of `order`, the least recent first; all of
/// them, in that order, where `order` has fewer.
pub open spec fn least_recent_of(order: Seq<Seq<char>>, count: nat) -> Seq<Seq<char>> {
    let taken = if count < order.len() {
        count
    } else {
        order.len()
    };
    Seq::new(taken, |i: int| order[order.len() - 1 - i])
}

/// The place that scoring gives `name` in `order`: its index, or the length
/// of `order` where it does not occur, as if it came last.
pub open spec fn scoring_position(order: Seq<Seq<char>>, name: Seq<char>) -> nat {
    match order.index_of_first(name) {
        Some(index) => index as nat,
        None => order.len(),
    }
}

/// Where `name` is first found in `order`, if anywhere.
pub open spec fn is_first_position(order: Seq<Seq<char>>, name: Seq<char>, found: Option<int>) -> bool {
    match found {
        Some(index) => {
            &&& 0 <= index < order.len()
            &&& order[index] == name
            &&& forall|earlier: int| 0 <= earlier < index ==> order[earlier] != name
        },
        None => !order.contains(name),
    }
}

/// `index_of_first` is the one answer that `is_first_position` accepts.
pub proof fn lemma_first_position_unique(order: Seq<Seq<char>>, name: Seq<char>, found: Option<int>)
    requires
        is_first_position(order, name, found),
    ensures
        order.index_of_first(name) == found,
{
    order.index_of_first_ensures(name);
}

/// After a touch the name stands at the head, unless nothing is kept at all.
pub proof fn lemma_touched_head(order: Seq<Seq<char>>, name: Seq<char>, capacity: nat)
    ensures
        scoring_position(touched(order, name, capacity), name) == 0,
{
    let after = touched(order, name, capacity);
    if capacity == 0 {
        lemma_first_position_unique(after, name, None);
    } else {
        lemma_first_position_unique(after, name, Some(0int));
    }
}

/// A touch keeps a duplicate-free order duplicate-free and within capacity,
/// and adds no name but the touched one.
pub proof fn lemma_touched_well_formed(order: Seq<Seq<char>>, name: Seq<char>, capacity: nat)
    requires
        order.no_duplicates(),
        order.len() <= capacity,
    ensures
        touched(order, name, capacity).no_duplicates(),
        touched(order, name, capacity).len() <= capacity,
        forall|other: Seq<char>| #[trigger]
            touched(order, name, capacity).contains(other) ==> other == name || order.contains(
                other,
            ),
{
    order.index_of_first_ensures(name);
    let rest = order.remove_value(name);
    assert(rest.no_duplicates() && !rest.contains(name));
    assert((seq![name] + rest).no_duplicates());
}

/// The least recent names of a duplicate-free order are distinct, and each
/// is a name of the order.
pub proof fn lemma_least_recent_distinct(order: Seq<Seq<char>>, count: nat)
    requires
        order.no_duplicates(),
    ensures
        least_recent_of(order, count).no_duplicates(),
        forall|i: int|
            0 <= i < least_recent_of(order, count).len() ==> order.contains(
                #[trigger] least_recent_of(order, count)[i],
            ),
{
}

/// The packages that went to the background, most recent first.
pub struct BackgroundRecency {
    names: VecDeque<String>,
    capacity: usize,
}

impl View for BackgroundRecency {
    type V = Seq<Seq<char>>;

    /// The tracked names, most recent first.
    closed spec fn view(&self) -> Seq<Seq<char>> {
        self.names@.map_values(|name: String| name@)
    }
}

impl BackgroundRecency {
    /// The most names that the tracker keeps.
    pub closed spec fn spec_capacity(&self) -> nat {
        self.capacity as nat
    }

    /// No name occurs twice, and there are no more names than the capacity.
    pub open spec fn wf(&self) -> bool {
        &&& self@.no_duplicates()
        &&& self@.len() <= self.spec_capacity()
    }

    /// An empty tracker of the default capacity.
    pub fn new() -> (tracker: BackgroundRecency)
        ensures
            tracker.wf(),
            tracker@.len() == 0,
            tracker.spec_capacity() == DEFAULT_CAPACITY,
    {
        BackgroundRecency::with_capacity(DEFAULT_CAPACITY)
    }

    /// An empty tracker that keeps at most `capacity` names.
    pub fn with_capacity(capacity: usize) -> (tracker: BackgroundRecency)
        ensures
            tracker.wf(),
            tracker@.len() == 0,
            tracker.spec_capacity() == capacity,
    {
        BackgroundRecency { names: VecDeque::new(), capacity }
    }

    /// The most names that the tracker keeps.
    pub fn capacity(&self) -> (capacity: usize)
        ensures
            capacity == self.spec_capacity(),
    {
        self.capacity
    }

    /// How many names are tracked.
    pub fn len(&self) -> (count: usize)
        ensures
            count == self@.len(),
    {
        self.names.len()
    }

    /// The index of `name`, counted from the most recent, or `None` where it
    /// is not tracked.
    pub fn position_of(&self, name: &str) -> (found: Option<usize>)
        ensures
            is_first_position(
                self@,
                name@,
                match found {
                    Some(index) => Some(index as int),
                    None => None,
                },
            ),
    {
        let wanted = name.to_owned();
        let mut index: usize = 0;
        while index < self.names.len()
            invariant
                index <= self.names@.len(),
                wanted@ == name@,
                forall|earlier: int| 0 <= earlier < index ==> self@[earlier] != name@,
            decreases self.names@.len() - index,
        {
            if self.names[index] == wanted {
                return Some(index);
            }
            index += 1;
        }
        None
    }

    /// The place that scoring gives `name`: its index, or the number of
    /// tracked names where it is not tracked.
    pub fn position_or_last(&self, name: &str) -> (position: usize)
        ensures
            position == scoring_position(self@, name@),
    {
        let found = self.position_of(name);
        proof {
            lemma_first_position_unique(
                self@,
                name@,
                match found {
                    Some(index) => Some(index as int),
                    None => None,
                },
            );
        }
        match found {
            Some(index) => index,
            None => self.names.len(),
        }
    }

    /// Records that `name` went to the background: it moves, or comes, to
    /// the head, and the least recent name leaves where the capacity is
    /// exceeded.
    pub fn touch(&mut self, name: &str)
        requires
            old(self).wf(),
        ensures
            final(self).wf(),
            final(self).spec_capacity() == old(self).spec_capacity(),
            final(self)@ == touched(old(self)@, name@, old(self).spec_capacity()),
    {
        let found = self.position_of(name);
        proof {
            lemma_first_position_unique(
                self@,
                name@,
                match found {
                    Some(index) => Some(index as int),
                    None => None,
                },
            );
            lemma_touched_well_formed(self@, name@, self.spec_capacity());
        }
        let ghost before = self@;
        if let Some(index) = found {
            self.names.remove(index);
            assert(self@ =~= before.remove(index as int));
        }
        let ghost rest = self@;
        self.names.push_front(name.to_owned());
        assert(self@ =~= seq![name@] + rest);
        if self.names.len() > self.capacity {
            self.names.pop_back();
            assert(self@ =~= (seq![name@] + rest).take(self.capacity as int));
        }
    }

    /// The `count` least recent names, the least recent first.
    pub fn least_recent(&self, count: usize) -> (names: Vec<String>)
        ensures
            names@.map_values(|name: String| name@) == least_recent_of(self@, count as nat),
    {
        let total = self.names.len();
        let taken: usize = if count < total {
            count
        } else {
            total
        };
        let mut names: Vec<String> = Vec::new();
        let mut index: usize = 0;
        while index < taken
            invariant
                index <= taken <= total,
                total == self.names@.len(),
                names@.len() == index,
                forall|i: int| 0 <= i < index ==> names@[i]@ == self@[total - 1 - i],
            decreases taken - index,
        {
            names.push(self.names[total - 1 - index].clone());
            index += 1;
        }
        names
    }

    /// All tracked names, most recent first.
    pub fn names(&self) -> (names: Vec<String>)
        ensures
            names@.map_values(|name: String| name@) == self@,
    {
        let mut names: Vec<String> = Vec::new();
        let mut index: usize = 0;
        while index < self.names.len()
            invariant
                index <= self.names@.len(),
                names@.len() == index,
                forall|i: int| 0 <= i < index ==> names@[i]@ == self@[i],
            decreases self.names@.len() - index,
        {
            names.push(self.names[index].clone());
            index += 1;
        }
        names
    }
}

} // verus!
