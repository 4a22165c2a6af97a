//! # The Anarchist's Workshop
//!
//! Software to run things at workshops, as in places where people work.
//!
//! The shop keeps dated notes ("posts") in calendars, and calendars under
//! unique names.
pub mod date;
pub mod registry;
pub mod the_calendar;
pub mod verbosity;

use crate::the_calendar::ShopCalendars;
use vstd::prelude::*;

verus! {

/// TheShop
///
/// Our struct is your struct: everything is public at this level.
#[derive(Debug, PartialEq)]
pub struct TheShop {
    pub calendars: ShopCalendars,
}

impl Default for TheShop {
    /// A shop with no calendars yet.
    fn default() -> (r: Self)
        ensures
            r.calendars@ == Map::<Seq<char>, crate::the_calendar::ShopCalendar>::empty(),
    {
        TheShop { calendars: ShopCalendars::default() }
    }
}

} // verus!
