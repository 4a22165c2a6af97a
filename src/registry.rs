//! Many calendars, each under a name of its own.
use crate::the_calendar::{replaced, TheCalendar};
use vstd::prelude::*;

verus! {

/// No two entries carry the same name.
pub open spec fn names_unique<C>(entries: Seq<(String, C)>) -> bool {
    forall|i: int, j: int|
        0 <= i < entries.len() && 0 <= j < entries.len() && i != j ==> #[trigger] entries[i].0@
            != #[trigger] entries[j].0@
}

/// Some entry carries the name `name`.
pub open spec fn has_name<C>(entries: Seq<(String, C)>, name: Seq<char>) -> bool {
    exists|i: int| 0 <= i < entries.len() && #[trigger] entries[i].0@ == name
}

/// The calendars of `entries`, by name.
pub open spec fn by_name<C>(entries: Seq<(String, C)>) -> Map<Seq<char>, C> {
    Map::new(
        |name: Seq<char>| has_name(entries, name),
        |name: Seq<char>|
            entries[choose|i: int| 0 <= i < entries.len() && #[trigger] entries[i].0@ == name].1,
    )
}

/// With unique names, the entry at `i` is what its name maps to.
proof fn lemma_by_name_at<C>(entries: Seq<(String, C)>, i: int)
    requires
        names_unique(entries),
        0 <= i < entries.len(),
    ensures
        by_name(entries).contains_key(entries[i].0@),
        by_name(entries)[entries[i].0@] == entries[i].1,
{
    let name = entries[i].0@;
    assert(has_name(entries, name));
    let j = choose|j: int| 0 <= j < entries.len() && #[trigger] entries[j].0@ == name;
    assert(j == i);
}

/// Registering one name twice into an empty registry: the first registration
/// replaces nothing and makes the name known, the second hands back the first
/// calendar.
pub proof fn lemma_register_same_name_twice<K: Eq + std::hash::Hash, V>(
    registry: CalendarRegistry<K, V>,
    name: Seq<char>,
    first: TheCalendar<K, V>,
    second: TheCalendar<K, V>,
)
    requires
        registry@ == Map::<Seq<char>, TheCalendar<K, V>>::empty(),
    ensures
        replaced(registry@, name) is None,
        registry@.insert(name, first).contains_key(name),
        replaced(registry@.insert(name, first), name) == Some(first),
        registry@.insert(name, first).insert(name, second)[name] == second,
{
}

/// The calendars of the shop, one for each unique name.
#[derive(Debug, PartialEq)]
pub struct CalendarRegistry<K: Eq + std::hash::Hash, V> {
    entries: Vec<(String, TheCalendar<K, V>)>,
}

impl<K: Eq + std::hash::Hash, V> View for CalendarRegistry<K, V> {
    type V = Map<Seq<char>, TheCalendar<K, V>>;

    /// The calendars, by name.
    closed spec fn view(&self) -> Map<Seq<char>, TheCalendar<K, V>> {
        by_name(self.entries@)
    }
}

impl<K: Eq + std::hash::Hash, V> Default for CalendarRegistry<K, V> {
    /// A registry with no calendars.
    fn default() -> (r: Self)
        ensures
            r@ == Map::<Seq<char>, TheCalendar<K, V>>::empty(),
    {
        let r = CalendarRegistry { entries: Vec::new() };
        proof {
            assert(r@ =~= Map::<Seq<char>, TheCalendar<K, V>>::empty());
        }
        r
    }
}

impl<K: Eq + std::hash::Hash, V> CalendarRegistry<K, V> {
    #[verifier::type_invariant]
    spec fn inv(&self) -> bool {
        names_unique(self.entries@)
    }

    /// The position of the entry named `name`, if there is one.
    fn position(&self, name: &String) -> (r: Option<usize>)
        ensures
            match r {
                Some(i) => i < self.entries@.len() && self.entries@[i as int].0@ == name@,
                None => !has_name(self.entries@, name@),
            },
    {
        let mut i: usize = 0;
        while i < self.entries.len()
            invariant
                i <= self.entries@.len(),
                forall|j: int| 0 <= j < i ==> self.entries@[j].0@ != name@,
            decreases self.entries@.len() - i,
        {
            if self.entries[i].0 == *name {
                return Some(i);
            }
            i = i + 1;
        }
        None
    }

    /// Registers `calendar` under `name`, and hands back the calendar that
    /// was registered under that name before, if any.
    pub fn register(&mut self, name: String, calendar: TheCalendar<K, V>) -> (r: Option<
        TheCalendar<K, V>,
    >)
        ensures
            final(self)@ == old(self)@.insert(name@, calendar),
            r == replaced(old(self)@, name@),
    {
        proof {
            use_type_invariant(&*self);
        }
        let ghost before = self.entries@;
        let ghost key = name@;
        let found = self.position(&name);
        let mut entries = Vec::new();
        std::mem::swap(&mut entries, &mut self.entries);
        let r = match found {
            Some(i) => {
                entries.push((name, calendar));
                let (_, previous) = entries.swap_remove(i);
                proof {
                    lemma_by_name_at(before, i as int);
                    assert(entries@ == before.update(i as int, entries@[i as int]));
                    assert(names_unique(entries@));
                    lemma_by_name_at(entries@, i as int);
                    assert forall|n: Seq<char>|
                        has_name(entries@, n) == has_name(before, n) || n == key by {
                        if has_name(before, n) {
                            let j = choose|j: int| 0 <= j < before.len() && #[trigger] before[j].0@ == n;
                            assert(entries@[j].0@ == n);
                        }
                        if has_name(entries@, n) {
                            let j = choose|j: int| 0 <= j < entries@.len() && #[trigger] entries@[j].0@ == n;
                            if j != i {
                                assert(before[j].0@ == n);
                            }
                        }
                    }
                    assert forall|n: Seq<char>| #[trigger]
                        has_name(before, n) && n != key implies by_name(entries@)[n]
                        == by_name(before)[n] by {
                        let j = choose|j: int| 0 <= j < before.len() && #[trigger] before[j].0@ == n;
                        lemma_by_name_at(before, j);
                        lemma_by_name_at(entries@, j);
                    }
                    assert(by_name(entries@) =~= by_name(before).insert(key, calendar));
                }
                Some(previous)
            },
            None => {
                entries.push((name, calendar));
                proof {
                    let last = before.len() as int;
                    assert(names_unique(entries@));
                    lemma_by_name_at(entries@, last);
                    assert forall|n: Seq<char>|
                        has_name(entries@, n) == (has_name(before, n) || n == key) by {
                        if has_name(before, n) {
                            let j = choose|j: int| 0 <= j < before.len() && #[trigger] before[j].0@ == n;
                            assert(entries@[j].0@ == n);
                        }
                        if has_name(entries@, n) {
                            let j = choose|j: int| 0 <= j < entries@.len() && #[trigger] entries@[j].0@ == n;
                            if j != last {
                                assert(before[j].0@ == n);
                            }
                        }
                    }
                    assert forall|n: Seq<char>| #[trigger]
                        has_name(before, n) implies by_name(entries@)[n] == by_name(before)[n] by {
                        let j = choose|j: int| 0 <= j < before.len() && #[trigger] before[j].0@ == n;
                        lemma_by_name_at(before, j);
                        lemma_by_name_at(entries@, j);
                    }
                    assert(by_name(entries@) =~= by_name(before).insert(key, calendar));
                }
                None
            },
        };
        std::mem::swap(&mut entries, &mut self.entries);
        r
    }

    /// Whether a calendar is registered under `name`.
    pub fn contains(&self, name: &String) -> (r: bool)
        ensures
            r == self@.contains_key(name@),
    {
        self.position(name).is_some()
    }

    /// The calendar registered under `name`, if any.
    pub fn get(&self, name: &String) -> (r: Option<&TheCalendar<K, V>>)
        ensures
            match r {
                Some(c) => self@.contains_key(name@) && *c == self@[name@],
                None => !self@.contains_key(name@),
            },
    {
        proof {
            use_type_invariant(self);
        }
        match self.position(name) {
            Some(i) => {
                proof {
                    lemma_by_name_at(self.entries@, i as int);
                }
                Some(&self.entries[i].1)
            },
            None => None,
        }
    }
}

} // verus!
