//! Dates as the embeds show them: `Jan 5 2020`.

use vstd::prelude::*;
use crate::text::{decimal_digit, decimal_text, push_decimal};
use crate::trusted::calendar_date_text;

verus! {

/// The strftime pattern of the shown form: abbreviated month name, day of the
/// month without padding, year.
pub const DATE_PATTERN: &'static str = "%b %-e %Y";

/// The three-letter English name of `month`. A number that is no month of the
/// calendar is written out in base ten.
pub open spec fn month_text(month: nat) -> Seq<char> {
    if month == 1 {
        "Jan"@
    } else if month == 2 {
        "Feb"@
    } else if month == 3 {
        "Mar"@
    } else if month == 4 {
        "Apr"@
    } else if month == 5 {
        "May"@
    } else if month == 6 {
        "Jun"@
    } else if month == 7 {
        "Jul"@
    } else if month == 8 {
        "Aug"@
    } else if month == 9 {
        "Sep"@
    } else if month == 10 {
        "Oct"@
    } else if month == 11 {
        "Nov"@
    } else if month == 12 {
        "Dec"@
    } else {
        decimal_text(month)
    }
}

/// `year` in at least four digits: padded with zeros below 1000, and with a
/// plus sign in front from 10000 on.
pub open spec fn year_text(year: nat) -> Seq<char> {
    if year < 10000 {
        seq![
            decimal_digit(year / 1000),
            decimal_digit(year / 100 % 10),
            decimal_digit(year / 10 % 10),
            decimal_digit(year % 10),
        ]
    } else {
        seq!['+'] + decimal_text(year)
    }
}

/// The shown form of the day `day` of month `month` in `year`, whether or not
/// the calendar has such a day.
pub open spec fn date_text(year: nat, month: nat, day: nat) -> Seq<char> {
    month_text(month) + seq![' '] + decimal_text(day) + seq![' '] + year_text(year)
}

fn push_month(out: &mut String, month: u32)
    ensures
        final(out)@ == old(out)@ + month_text(month as nat),
{
    match month {
        1 => out.append("Jan"),
        2 => out.append("Feb"),
        3 => out.append("Mar"),
        4 => out.append("Apr"),
        5 => out.append("May"),
        6 => out.append("Jun"),
        7 => out.append("Jul"),
        8 => out.append("Aug"),
        9 => out.append("Sep"),
        10 => out.append("Oct"),
        11 => out.append("Nov"),
        12 => out.append("Dec"),
        _ => push_decimal(out, month),
    }
}

fn push_year(out: &mut String, year: u32)
    ensures
        final(out)@ == old(out)@ + year_text(year as nat),
{
    if year < 10000 {
        if year < 1000 {
            out.push('0');
        }
        if year < 100 {
            out.push('0');
        }
        if year < 10 {
            out.push('0');
        }
        proof {
            reveal_with_fuel(decimal_text, 4);
        }
        push_decimal(out, year);
        assert(final(out)@ =~= old(out)@ + year_text(year as nat));
    } else {
        out.push('+');
        push_decimal(out, year);
        assert(final(out)@ =~= old(out)@ + year_text(year as nat));
    }
}

/// Writes a date as `Jan 5 2020`. A date of the calendar is rendered by
/// chrono; one that the calendar lacks, such as day 0, is written in the same
/// form from its bare numbers.
pub fn format_date(year: u32, month: u32, day: u32) -> (out: String)
    ensures
        out@ == date_text(year as nat, month as nat, day as nat),
{
    if year <= 0x7fff_ffff {
        match calendar_date_text(year as i32, month, day, DATE_PATTERN) {
            Some(text) => {
                return text;
            },
            None => {},
        }
    }
    let mut out = String::new();
    push_month(&mut out, month);
    out.push(' ');
    push_decimal(&mut out, day);
    out.push(' ');
    push_year(&mut out, year);
    assert(out@ =~= date_text(year as nat, month as nat, day as nat));
    out
}

} // verus!
