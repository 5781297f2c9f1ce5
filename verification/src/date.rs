//! Release dates as text: the two accepted spellings, the calendar rule that
//! makes a date plausible, and the normal form `YYYY-MM-DD`.

use vstd::prelude::*;

verus! {

/// The Gregorian leap-year rule.
pub open spec fn is_leap_year(year: int) -> bool {
    (year % 4 == 0 && year % 100 != 0) || year % 400 == 0
}

/// Number of days of `month` in `year`; zero when `month` is no month.
pub open spec fn days_in_month(year: int, month: int) -> int {
    if month == 1 || month == 3 || month == 5 || month == 7 || month == 8 || month == 10
        || month == 12 {
        31
    } else if month == 4 || month == 6 || month == 9 || month == 11 {
        30
    } else if month == 2 {
        if is_leap_year(year) {
            29
        } else {
            28
        }
    } else {
        0
    }
}

/// A release date is plausible when its year lies between 1900 and the
/// current calendar year, and the day exists in that month.
pub open spec fn valid_date(year: int, month: int, day: int, current_year: int) -> bool {
    &&& 1900 <= year <= current_year
    &&& 1 <= day <= days_in_month(year, month)
}

/// One of `0` to `9`.
pub open spec fn is_digit(c: char) -> bool {
    0x30 <= c as u32 <= 0x39
}

/// The number that the digit `c` writes.
pub open spec fn digit_value(c: char) -> int {
    c as u32 - 0x30
}

/// Whether `s` holds digits only.
pub open spec fn all_digits(s: Seq<char>) -> bool {
    forall|i: int| 0 <= i < s.len() ==> is_digit(#[trigger] s[i])
}

/// The number that the digits `s` write in decimal.
pub open spec fn number(s: Seq<char>) -> int
    decreases s.len(),
{
    if s.len() == 0 {
        0
    } else {
        number(s.drop_last()) * 10 + digit_value(s.last())
    }
}

/// The spelling `YYYY-MM-DD`.
pub open spec fn is_dashed(s: Seq<char>) -> bool {
    &&& s.len() == 10
    &&& s[4] == '-'
    &&& s[7] == '-'
    &&& all_digits(s.subrange(0, 4))
    &&& all_digits(s.subrange(5, 7))
    &&& all_digits(s.subrange(8, 10))
}

/// The spelling `YYYYMMDD`.
pub open spec fn is_compact(s: Seq<char>) -> bool {
    s.len() == 8 && all_digits(s)
}

/// Year, month and day of a date in either spelling.
pub open spec fn date_parts(s: Seq<char>) -> (int, int, int) {
    if s.len() == 10 {
        (number(s.subrange(0, 4)), number(s.subrange(5, 7)), number(s.subrange(8, 10)))
    } else {
        (number(s.subrange(0, 4)), number(s.subrange(4, 6)), number(s.subrange(6, 8)))
    }
}

/// Whether `s` is a plausible release date in one of the two spellings.
pub open spec fn accepted(s: Seq<char>, current_year: int) -> bool {
    &&& is_dashed(s) || is_compact(s)
    &&& valid_date(date_parts(s).0, date_parts(s).1, date_parts(s).2, current_year)
}

/// The spelling `YYYY-MM-DD` of an accepted date.
pub open spec fn dashed_form(s: Seq<char>) -> Seq<char> {
    if s.len() == 10 {
        s
    } else {
        s.subrange(0, 4) + seq!['-'] + s.subrange(4, 6) + seq!['-'] + s.subrange(6, 8)
    }
}

/// The normal form of a release date: `YYYY-MM-DD` when `s` is accepted,
/// nothing otherwise.
pub open spec fn normalized(s: Seq<char>, current_year: int) -> Option<Seq<char>> {
    if accepted(s, current_year) {
        Some(dashed_form(s))
    } else {
        None
    }
}

/// What comes out of normalizing is itself accepted, names the same day, and
/// is left as it is when normalized again.
pub proof fn lemma_normalized_is_stable(s: Seq<char>, current_year: int)
    requires
        accepted(s, current_year),
    ensures
        is_dashed(dashed_form(s)),
        date_parts(dashed_form(s)) == date_parts(s),
        normalized(dashed_form(s), current_year) == Some(dashed_form(s)),
{
    let d = dashed_form(s);
    if s.len() == 8 {
        assert(d.subrange(0, 4) =~= s.subrange(0, 4));
        assert(d.subrange(5, 7) =~= s.subrange(4, 6));
        assert(d.subrange(8, 10) =~= s.subrange(6, 8));
        assert(all_digits(s.subrange(0, 4))) by {
            assert forall|i: int| 0 <= i < 4 implies is_digit(#[trigger] s.subrange(0, 4)[i]) by {
                assert(s.subrange(0, 4)[i] == s[i]);
            }
        }
        assert(all_digits(s.subrange(4, 6))) by {
            assert forall|i: int| 0 <= i < 2 implies is_digit(#[trigger] s.subrange(4, 6)[i]) by {
                assert(s.subrange(4, 6)[i] == s[i + 4]);
            }
        }
        assert(all_digits(s.subrange(6, 8))) by {
            assert forall|i: int| 0 <= i < 2 implies is_digit(#[trigger] s.subrange(6, 8)[i]) by {
                assert(s.subrange(6, 8)[i] == s[i + 6]);
            }
        }
    }
}

/// No date is accepted whose year lies before 1900 or after the current
/// year, whose month is none of the twelve, or whose day the month lacks.
pub proof fn lemma_accepted_is_in_calendar(s: Seq<char>, current_year: int)
    requires
        normalized(s, current_year) is Some,
    ensures
        1900 <= date_parts(s).0 <= current_year,
        1 <= date_parts(s).1 <= 12,
        1 <= date_parts(s).2 <= days_in_month(date_parts(s).0, date_parts(s).1) <= 31,
{
}

} // verus!
