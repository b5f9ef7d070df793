//! The source of today's date.
use chrono::Local;
use vstd::prelude::*;
use crate::date::Date;

verus! {

/// Supplies the current calendar date.
pub trait Clock {
    fn today(&self) -> Date;
}

/// Relies on chrono's `Local::now` and `DateTime::date_naive`: the date of
/// this moment in the machine's time zone, which is always a day of the calendar.
#[verifier::external_body]
fn local_today() -> (r: Date)
    ensures
        r.wf(),
{
    let d = Local::now().date_naive();
    Date { year: chrono::Datelike::year(&d), month: chrono::Datelike::month(&d), day: chrono::Datelike::day(&d) }
}

/// The machine's clock, read in its local time zone.
pub struct SystemClock;

impl SystemClock {
    /// Today's date on this machine.
    pub fn current_date(&self) -> (r: Date)
        ensures
            r.wf(),
    {
        local_today()
    }
}

impl Clock for SystemClock {
    fn today(&self) -> Date {
        self.current_date()
    }
}

} // verus!
