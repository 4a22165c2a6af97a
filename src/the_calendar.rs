//! Calendars are witnesses to the passage of time: little notes written on
//! certain dates, things that we don't wish to forget.
//!
//! A calendar is a keyed collection of things; a `CalendarPost` is one dated
//! note that can go into it.
use crate::date::{date_text, Date, InvalidDate, Month};
use crate::registry::CalendarRegistry;
use std::collections::HashMap;
use vstd::prelude::*;
use vstd::std_specs::hash::obeys_key_model;

verus! {

/// What inserting `key` into a calendar with contents `m` hands back: the
/// thing it replaces, if there was one.
pub open spec fn replaced<K, V>(m: Map<K, V>, key: K) -> Option<V> {
    if m.contains_key(key) {
        Some(m[key])
    } else {
        None
    }
}

/// The Calendar: things, each under a key of its own.
#[derive(Clone, Debug, PartialEq)]
pub struct TheCalendar<K: Eq + std::hash::Hash, V> {
    pub things: HashMap<K, V>,
}

impl<K: Eq + std::hash::Hash, V> View for TheCalendar<K, V> {
    type V = Map<K, V>;

    /// What the calendar holds, by key.
    open spec fn view(&self) -> Map<K, V> {
        self.things@
    }
}

impl<K: Eq + std::hash::Hash, V> Default for TheCalendar<K, V> {
    /// An empty calendar.
    fn default() -> (r: Self)
        ensures
            r@ == Map::<K, V>::empty(),
    {
        TheCalendar { things: HashMap::new() }
    }
}

impl<K: Eq + std::hash::Hash, V> TheCalendar<K, V> {
    /// Tell how many calendar things this calendar has.
    pub fn total_things(&self) -> (r: usize)
        requires
            obeys_key_model::<K>(),
        ensures
            r == self@.len(),
    {
        self.things.len()
    }

    /// Puts `thing` under `key`, and hands back the thing it replaces, if any.
    pub fn insert(&mut self, key: K, thing: V) -> (r: Option<V>)
        requires
            obeys_key_model::<K>(),
        ensures
            final(self)@ == old(self)@.insert(key, thing),
            r == replaced(old(self)@, key),
    {
        self.things.insert(key, thing)
    }

    /// Whether some thing is kept under `key`.
    pub fn contains(&self, key: &K) -> (r: bool)
        requires
            obeys_key_model::<K>(),
        ensures
            r == self@.contains_key(*key),
    {
        self.things.contains_key(key)
    }

    /// The thing kept under `key`, if any.
    pub fn get(&self, key: &K) -> (r: Option<&V>)
        requires
            obeys_key_model::<K>(),
        ensures
            match r {
                Some(v) => replaced(self@, *key) == Some(*v),
                None => replaced(self@, *key) is None,
            },
    {
        self.things.get(key)
    }
}

/// A new calendar holds nothing: its size is 0 and it contains no key.
pub proof fn lemma_new_calendar_is_empty<K: Eq + std::hash::Hash, V>(
    calendar: TheCalendar<K, V>,
    key: K,
)
    requires
        calendar@ == Map::<K, V>::empty(),
    ensures
        calendar@.len() == 0,
        !calendar@.contains_key(key),
{
}

/// Inserting one key twice into an empty calendar: the first insertion
/// replaces nothing, the second hands back what the first put there, and the
/// calendar then holds one thing, the second.
pub proof fn lemma_insert_same_key_twice<K: Eq + std::hash::Hash, V>(
    calendar: TheCalendar<K, V>,
    key: K,
    first: V,
    second: V,
)
    requires
        calendar@ == Map::<K, V>::empty(),
    ensures
        replaced(calendar@, key) is None,
        replaced(calendar@.insert(key, first), key) == Some(first),
        calendar@.insert(key, first).insert(key, second).len() == 1,
        calendar@.insert(key, first).insert(key, second)[key] == second,
{
    assert(calendar@.insert(key, first).insert(key, second) =~= map![key => second]);
}

/// A calendar of the shop: the posts of each date, in the order they were made.
pub type ShopCalendar = TheCalendar<Date, Vec<CalendarPost>>;

/// The calendars of the shop, by name.
pub type ShopCalendars = CalendarRegistry<Date, Vec<CalendarPost>>;

/// The text of a post: its date as `YYYY-MM-DD`, a colon, a space, its text.
pub open spec fn post_text(date: (int, int, int), text: Seq<char>) -> Seq<char> {
    date_text(date) + seq![':', ' '] + text
}

/// A Calendar Post can be used as a thing that goes into a Calendar.
#[derive(Clone, Debug, PartialEq)]
pub struct CalendarPost {
    /// The date this is posted on.
    pub date: Date,
    /// The text that is posted.
    pub text: String,
}

impl CalendarPost {
    /// Create a new calendar post with today's date (in UTC).
    pub fn new(text: &str) -> (r: Self)
        ensures
            r.text@ == text@,
    {
        CalendarPost::new_with_date(text, Date::today())
    }

    /// Create a new calendar post with some date.
    pub fn new_with_date(text: &str, date: Date) -> (r: Self)
        ensures
            r.date == date,
            r.text@ == text@,
    {
        CalendarPost { date, text: String::from_str(text) }
    }

    /// Create a new calendar post with some `year`, `month`, and `day`, or
    /// `InvalidDate` where these name no real day.
    pub fn new_with_ymd(text: &str, year: i32, month: Month, day: u8) -> (r: Result<
        Self,
        InvalidDate,
    >)
        ensures
            r is Ok <==> crate::date::is_valid_ymd(year as int, month.spec_number(), day as int),
            r matches Ok(p) ==> p.date@ == (year as int, month.spec_number(), day as int)
                && p.text@ == text@,
    {
        match Date::from_calendar_date(year, month, day) {
            Ok(date) => Ok(CalendarPost::new_with_date(text, date)),
            Err(e) => Err(e),
        }
    }

    /// The post as text: `YYYY-MM-DD: <text>`.
    pub fn render(&self) -> (r: String)
        ensures
            r@ == post_text(self.date@, self.text@),
    {
        let mut out = String::new();
        self.date.write_to(&mut out);
        proof {
            reveal_strlit(": ");
        }
        out.append(": ");
        out.append(self.text.as_str());
        proof {
            assert(out@ =~= post_text(self.date@, self.text@));
        }
        out
    }
}

impl Default for CalendarPost {
    /// A post with empty text and today's date.
    fn default() -> (r: Self)
        ensures
            r.text@ == Seq::<char>::empty(),
    {
        proof {
            reveal_strlit("");
        }
        CalendarPost::new("")
    }
}

} // verus!
