//! The wall clock, read through `chrono`, and the greeting chosen by the hour.
use vstd::prelude::*;

use chrono::Timelike;

verus! {

/// The current local date and time as RFC 3339 text
/// (`chrono::Local::now().to_rfc3339()`). It depends on the clock and the
/// machine's time zone, so nothing is stated of the text.
#[verifier::external_body]
pub(crate) fn local_now_rfc3339() -> String {
    chrono::Local::now().to_rfc3339()
}

/// The current local hour (`chrono::Local::now().hour()`); chrono documents
/// `Timelike::hour` as a number from 0 to 23. Which hour it is depends on the
/// clock and the time zone.
#[verifier::external_body]
pub(crate) fn local_hour() -> (h: u32)
    ensures
        h < 24,
{
    chrono::Local::now().hour()
}

/// The three greetings of the home page.
#[derive(Clone, Copy, Debug, PartialEq, Eq, Structural)]
pub enum Greeting {
    /// "Buenos días", from 6 to 11 o'clock.
    Morning,
    /// "Buenas tardes", from 12 to 17 o'clock.
    Afternoon,
    /// "Buenas noches", the rest of the day.
    Night,
}

/// The greeting for an hour of the day.
pub open spec fn greeting_of(hour: u32) -> Greeting {
    if 6 <= hour <= 11 {
        Greeting::Morning
    } else if 12 <= hour <= 17 {
        Greeting::Afternoon
    } else {
        Greeting::Night
    }
}

/// The text of a greeting.
pub open spec fn greeting_words(g: Greeting) -> Seq<char> {
    match g {
        Greeting::Morning => "Buenos días"@,
        Greeting::Afternoon => "Buenas tardes"@,
        Greeting::Night => "Buenas noches"@,
    }
}

/// The greeting for `hour`.
pub fn greeting_for_hour(hour: u32) -> (g: Greeting)
    ensures
        g == greeting_of(hour),
{
    if 6 <= hour && hour <= 11 {
        Greeting::Morning
    } else if 12 <= hour && hour <= 17 {
        Greeting::Afternoon
    } else {
        Greeting::Night
    }
}

impl Greeting {
    /// The words shown for this greeting.
    pub fn text(&self) -> (s: String)
        ensures
            s@ == greeting_words(*self),
    {
        match self {
            Greeting::Morning => "Buenos días".to_owned(),
            Greeting::Afternoon => "Buenas tardes".to_owned(),
            Greeting::Night => "Buenas noches".to_owned(),
        }
    }
}

/// The greeting of the home page for the current local hour.
pub fn greeting_text() -> (s: String)
    ensures
        exists|h: u32| h < 24 && s@ == greeting_words(greeting_of(h)),
{
    let h = local_hour();
    let g = greeting_for_hour(h);
    g.text()
}

} // verus!
