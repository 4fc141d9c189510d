use anilist_embed::utils::date::{format_date, DATE_PATTERN};

const MONTHS: [&str; 12] =
    ["Jan", "Feb", "Mar", "Apr", "May", "Jun", "Jul", "Aug", "Sep", "Oct", "Nov", "Dec"];

fn expected(year: u32, month: u32, day: u32) -> String {
    let month_text = if (1..=12).contains(&month) {
        MONTHS[(month - 1) as usize].to_string()
    } else {
        month.to_string()
    };
    let year_text = if year < 10000 { format!("{:04}", year) } else { format!("+{}", year) };
    format!("{} {} {}", month_text, day, year_text)
}

#[test]
fn pattern_names_month_day_and_year() {
    assert_eq!(DATE_PATTERN, "%b %-e %Y");
}

#[test]
fn calendar_dates_read_month_day_year() {
    assert_eq!(format_date(2020, 1, 5), "Jan 5 2020");
    assert_eq!(format_date(2020, 12, 31), "Dec 31 2020");
    assert_eq!(format_date(1999, 7, 20), "Jul 20 1999");
    assert_eq!(format_date(2024, 2, 29), "Feb 29 2024");
}

#[test]
fn years_have_at_least_four_digits() {
    assert_eq!(format_date(5, 3, 1), "Mar 1 0005");
    assert_eq!(format_date(0, 1, 1), "Jan 1 0000");
    assert_eq!(format_date(999, 9, 9), "Sep 9 0999");
    assert_eq!(format_date(9999, 10, 10), "Oct 10 9999");
    assert_eq!(format_date(10000, 11, 11), "Nov 11 +10000");
    assert_eq!(format_date(4294967295, 5, 6), "May 6 +4294967295");
}

#[test]
fn dates_off_the_calendar_keep_the_form() {
    assert_eq!(format_date(2020, 1, 0), "Jan 0 2020");
    assert_eq!(format_date(2020, 0, 0), "0 0 2020");
    assert_eq!(format_date(0, 0, 0), "0 0 0000");
    assert_eq!(format_date(2023, 2, 29), "Feb 29 2023");
    assert_eq!(format_date(2020, 4, 31), "Apr 31 2020");
    assert_eq!(format_date(2020, 13, 1), "13 1 2020");
    assert_eq!(format_date(2020, 6, 99), "Jun 99 2020");
}

#[test]
fn every_date_has_the_one_form() {
    let years = [
        0u32, 1, 4, 99, 100, 400, 999, 1000, 1900, 1999, 2000, 2019, 2020, 2023, 2024, 9999,
        10000, 262142, 262143, 262144, 400000, 2147483647, 2147483648, 4294967295,
    ];
    for year in years {
        for month in 0..=13u32 {
            for day in 0..=32u32 {
                assert_eq!(format_date(year, month, day), expected(year, month, day));
            }
        }
    }
}
