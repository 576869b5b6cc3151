//! A UTC instant held as its civil calendar fields, always a real date and
//! time of a four-digit year.

use vstd::prelude::*;
use crate::text::{fixed_decimal, push_fixed_decimal, is_digit, lemma_fixed_decimal_digits};

verus! {

/// The calendar fields of an instant.
pub struct CivilTime {
    pub year: nat,
    pub month: nat,
    pub day: nat,
    pub hour: nat,
    pub minute: nat,
    pub second: nat,
}

pub open spec fn is_leap_year(year: nat) -> bool {
    year % 4 == 0 && (year % 100 != 0 || year % 400 == 0)
}

pub open spec fn days_in_month(year: nat, month: nat) -> nat {
    if month == 2 {
        if is_leap_year(year) {
            29
        } else {
            28
        }
    } else if month == 4 || month == 6 || month == 9 || month == 11 {
        30
    } else {
        31
    }
}

/// The fields name an existing second of a year between 0 and 9999.
pub open spec fn valid_civil(t: CivilTime) -> bool {
    &&& t.year <= 9999
    &&& 1 <= t.month <= 12
    &&& 1 <= t.day <= days_in_month(t.year, t.month)
    &&& t.hour < 24
    &&& t.minute < 60
    &&& t.second < 60
}

/// `YYYYMMDDHHMMSS`.
pub open spec fn compact_timestamp(t: CivilTime) -> Seq<char> {
    fixed_decimal(t.year, 4) + fixed_decimal(t.month, 2) + fixed_decimal(t.day, 2)
        + fixed_decimal(t.hour, 2) + fixed_decimal(t.minute, 2) + fixed_decimal(t.second, 2)
}

pub proof fn lemma_compact_timestamp_digits(t: CivilTime)
    ensures
        compact_timestamp(t).len() == 14,
        forall|i: int| 0 <= i < 14 ==> is_digit(#[trigger] compact_timestamp(t)[i]),
{
    lemma_fixed_decimal_digits(t.year, 4);
    lemma_fixed_decimal_digits(t.month, 2);
    lemma_fixed_decimal_digits(t.day, 2);
    lemma_fixed_decimal_digits(t.hour, 2);
    lemma_fixed_decimal_digits(t.minute, 2);
    lemma_fixed_decimal_digits(t.second, 2);
    let s = compact_timestamp(t);
    assert forall|i: int| 0 <= i < 14 implies is_digit(#[trigger] s[i]) by {
        if i < 4 {
            assert(s[i] == fixed_decimal(t.year, 4)[i]);
        } else if i < 6 {
            assert(s[i] == fixed_decimal(t.month, 2)[i - 4]);
        } else if i < 8 {
            assert(s[i] == fixed_decimal(t.day, 2)[i - 6]);
        } else if i < 10 {
            assert(s[i] == fixed_decimal(t.hour, 2)[i - 8]);
        } else if i < 12 {
            assert(s[i] == fixed_decimal(t.minute, 2)[i - 10]);
        } else {
            assert(s[i] == fixed_decimal(t.second, 2)[i - 12]);
        }
    }
}

/// A UTC date and time to the second.
#[derive(Clone, Copy, Debug, PartialEq, Eq)]
pub struct UtcDateTime {
    year: u16,
    month: u8,
    day: u8,
    hour: u8,
    minute: u8,
    second: u8,
}

impl View for UtcDateTime {
    type V = CivilTime;

    closed spec fn view(&self) -> CivilTime {
        CivilTime {
            year: self.year as nat,
            month: self.month as nat,
            day: self.day as nat,
            hour: self.hour as nat,
            minute: self.minute as nat,
            second: self.second as nat,
        }
    }
}

impl UtcDateTime {
    #[verifier::type_invariant]
    closed spec fn inv(&self) -> bool {
        valid_civil(self@)
    }

    /// The instant with these fields, or `None` where they name no real
    /// second of a year up to 9999.
    pub fn new(year: u16, month: u8, day: u8, hour: u8, minute: u8, second: u8) -> (r: Option<
        UtcDateTime,
    >)
        ensures
            r is Some <==> valid_civil(
                CivilTime {
                    year: year as nat,
                    month: month as nat,
                    day: day as nat,
                    hour: hour as nat,
                    minute: minute as nat,
                    second: second as nat,
                },
            ),
            r is Some ==> r->Some_0@ == (CivilTime {
                year: year as nat,
                month: month as nat,
                day: day as nat,
                hour: hour as nat,
                minute: minute as nat,
                second: second as nat,
            }),
    {
        let leap = year % 4 == 0 && (year % 100 != 0 || year % 400 == 0);
        let month_days: u8 = if month == 2 {
            if leap {
                29
            } else {
                28
            }
        } else if month == 4 || month == 6 || month == 9 || month == 11 {
            30
        } else {
            31
        };
        if year <= 9999 && 1 <= month && month <= 12 && 1 <= day && day <= month_days && hour < 24
            && minute < 60 && second < 60 {
            Some(UtcDateTime { year, month, day, hour, minute, second })
        } else {
            None
        }
    }

    pub fn year(&self) -> (r: u16)
        ensures
            r as nat == self@.year,
    {
        self.year
    }

    pub fn month(&self) -> (r: u8)
        ensures
            r as nat == self@.month,
    {
        self.month
    }

    pub fn day(&self) -> (r: u8)
        ensures
            r as nat == self@.day,
    {
        self.day
    }

    pub fn hour(&self) -> (r: u8)
        ensures
            r as nat == self@.hour,
    {
        self.hour
    }

    pub fn minute(&self) -> (r: u8)
        ensures
            r as nat == self@.minute,
    {
        self.minute
    }

    pub fn second(&self) -> (r: u8)
        ensures
            r as nat == self@.second,
    {
        self.second
    }

    /// Appends the instant as `YYYYMMDDHHMMSS`.
    pub fn push_compact(&self, out: &mut String)
        ensures
            final(out)@ == old(out)@ + compact_timestamp(self@),
    {
        push_fixed_decimal(out, self.year as u64, 4);
        push_fixed_decimal(out, self.month as u64, 2);
        push_fixed_decimal(out, self.day as u64, 2);
        push_fixed_decimal(out, self.hour as u64, 2);
        push_fixed_decimal(out, self.minute as u64, 2);
        push_fixed_decimal(out, self.second as u64, 2);
        assert(final(out)@ =~= old(out)@ + compact_timestamp(self@));
    }
}

} // verus!
