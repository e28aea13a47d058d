//! Path construction for the diary commands.
//!
//! A diary entry lives under the note directory at a path derived from
//! the calendar date: `<note_dir>/diary/<year>/<month name>/week<week>/`
//! holds the daily entries (named `MM-DD-YYYY.md`) and the weekly note
//! (`week.md`), and `<note_dir>/diary/<year>/<month name>/month.md` is
//! the monthly note. The caller supplies the date parts as plain values;
//! reading the clock, rendering the month name, testing the filesystem
//! and opening the editor stay with it.

use vstd::prelude::*;
use vstd::string::*;

verus! {

/// The character a decimal digit is written with.
pub open spec fn decimal_digit(d: int) -> char {
    if d == 0 {
        '0'
    } else if d == 1 {
        '1'
    } else if d == 2 {
        '2'
    } else if d == 3 {
        '3'
    } else if d == 4 {
        '4'
    } else if d == 5 {
        '5'
    } else if d == 6 {
        '6'
    } else if d == 7 {
        '7'
    } else if d == 8 {
        '8'
    } else {
        '9'
    }
}

/// The usual decimal rendering of a number: no sign, no leading zero
/// (except for the number zero itself).
pub open spec fn decimal_of(n: nat) -> Seq<char>
    decreases n,
{
    if n < 10 {
        seq![decimal_digit(n as int)]
    } else {
        decimal_of(n / 10) + seq![decimal_digit((n % 10) as int)]
    }
}

/// A number zero-padded to at least two digits, as months and days are
/// written.
pub open spec fn decimal_pad2(n: nat) -> Seq<char> {
    if n < 10 {
        seq!['0'] + decimal_of(n)
    } else {
        decimal_of(n)
    }
}

/// A number zero-padded to at least four digits, as years are written.
pub open spec fn decimal_pad4(n: nat) -> Seq<char> {
    if n < 10 {
        seq!['0', '0', '0'] + decimal_of(n)
    } else if n < 100 {
        seq!['0', '0'] + decimal_of(n)
    } else if n < 1000 {
        seq!['0'] + decimal_of(n)
    } else {
        decimal_of(n)
    }
}

/// The English name a month number is written with.
pub open spec fn month_name_of(month: nat) -> Seq<char> {
    if month == 1 {
        "January"@
    } else if month == 2 {
        "February"@
    } else if month == 3 {
        "March"@
    } else if month == 4 {
        "April"@
    } else if month == 5 {
        "May"@
    } else if month == 6 {
        "June"@
    } else if month == 7 {
        "July"@
    } else if month == 8 {
        "August"@
    } else if month == 9 {
        "September"@
    } else if month == 10 {
        "October"@
    } else if month == 11 {
        "November"@
    } else {
        "December"@
    }
}

/// The daily diary file of a date:
/// `<note_dir>/diary/<year>/<month name>/week<week>/<MM-DD-YYYY>.md`.
pub open spec fn daily_diary_path(
    note_dir: Seq<char>,
    year: nat,
    week: nat,
    month: nat,
    day: nat,
) -> Seq<char> {
    note_dir + "/diary/"@ + decimal_of(year) + "/"@ + month_name_of(month) + "/week"@ + decimal_of(
        week,
    ) + "/"@ + decimal_pad2(month) + "-"@ + decimal_pad2(day) + "-"@ + decimal_pad4(year) + ".md"@
}

/// The weekly note of a date:
/// `<note_dir>/diary/<year>/<month name>/week<week>/week.md`.
pub open spec fn weekly_diary_path(
    note_dir: Seq<char>,
    year: nat,
    week: nat,
    month: nat,
) -> Seq<char> {
    note_dir + "/diary/"@ + decimal_of(year) + "/"@ + month_name_of(month) + "/week"@ + decimal_of(
        week,
    ) + "/week.md"@
}

/// The monthly note of a date:
/// `<note_dir>/diary/<year>/<month name>/month.md`.
pub open spec fn monthly_diary_path(note_dir: Seq<char>, year: nat, month: nat) -> Seq<char> {
    note_dir + "/diary/"@ + decimal_of(year) + "/"@ + month_name_of(month) + "/month.md"@
}

/// The English month name of a month number.
pub fn month_name(month: u32) -> (r: &'static str)
    requires
        1 <= month <= 12,
    ensures
        r@ == month_name_of(month as nat),
{
    if month == 1 {
        "January"
    } else if month == 2 {
        "February"
    } else if month == 3 {
        "March"
    } else if month == 4 {
        "April"
    } else if month == 5 {
        "May"
    } else if month == 6 {
        "June"
    } else if month == 7 {
        "July"
    } else if month == 8 {
        "August"
    } else if month == 9 {
        "September"
    } else if month == 10 {
        "October"
    } else if month == 11 {
        "November"
    } else {
        "December"
    }
}

/// The one-character string a decimal digit is written with.
fn digit_str(d: u32) -> (r: &'static str)
    requires
        d < 10,
    ensures
        r@ == seq![decimal_digit(d as int)],
{
    if d == 0 {
        proof {
            reveal_strlit("0");
            assert("0"@ =~= seq![decimal_digit(0)]);
        }
        "0"
    } else if d == 1 {
        proof {
            reveal_strlit("1");
            assert("1"@ =~= seq![decimal_digit(1)]);
        }
        "1"
    } else if d == 2 {
        proof {
            reveal_strlit("2");
            assert("2"@ =~= seq![decimal_digit(2)]);
        }
        "2"
    } else if d == 3 {
        proof {
            reveal_strlit("3");
            assert("3"@ =~= seq![decimal_digit(3)]);
        }
        "3"
    } else if d == 4 {
        proof {
            reveal_strlit("4");
            assert("4"@ =~= seq![decimal_digit(4)]);
        }
        "4"
    } else if d == 5 {
        proof {
            reveal_strlit("5");
            assert("5"@ =~= seq![decimal_digit(5)]);
        }
        "5"
    } else if d == 6 {
        proof {
            reveal_strlit("6");
            assert("6"@ =~= seq![decimal_digit(6)]);
        }
        "6"
    } else if d == 7 {
        proof {
            reveal_strlit("7");
            assert("7"@ =~= seq![decimal_digit(7)]);
        }
        "7"
    } else if d == 8 {
        proof {
            reveal_strlit("8");
            assert("8"@ =~= seq![decimal_digit(8)]);
        }
        "8"
    } else {
        proof {
            reveal_strlit("9");
            assert("9"@ =~= seq![decimal_digit(9)]);
        }
        "9"
    }
}

/// Renders a number in decimal.
pub fn u32_decimal(n: u32) -> (r: String)
    ensures
        r@ == decimal_of(n as nat),
    decreases n,
{
    if n < 10 {
        String::from_str(digit_str(n))
    } else {
        proof {
            assert(n / 10 < n) by (nonlinear_arith)
                requires
                    n >= 10,
            ;
        }
        let mut prefix = u32_decimal(n / 10);
        prefix.append(digit_str(n % 10));
        prefix
    }
}

/// Renders a number in decimal, zero-padded to at least two digits.
pub fn u32_decimal_pad2(n: u32) -> (r: String)
    ensures
        r@ == decimal_pad2(n as nat),
{
    if n < 10 {
        proof {
            reveal_strlit("0");
            assert("0"@ =~= seq!['0']);
        }
        let mut padded = String::from_str("0");
        padded.append(digit_str(n));
        padded
    } else {
        u32_decimal(n)
    }
}

/// Renders a number in decimal, zero-padded to at least four digits.
pub fn u32_decimal_pad4(n: u32) -> (r: String)
    ensures
        r@ == decimal_pad4(n as nat),
{
    let pad = if n < 10 {
        "000"
    } else if n < 100 {
        "00"
    } else if n < 1000 {
        "0"
    } else {
        ""
    };
    proof {
        reveal_strlit("000");
        reveal_strlit("00");
        reveal_strlit("0");
        reveal_strlit("");
        assert("000"@ =~= seq!['0', '0', '0']);
        assert("00"@ =~= seq!['0', '0']);
        assert("0"@ =~= seq!['0']);
        assert(""@ =~= Seq::<char>::empty());
    }
    let mut padded = String::from_str(pad);
    let digits = u32_decimal(n);
    padded.append(digits.as_str());
    padded
}

/// Builds the daily diary file's path for a date, given as the year, the
/// week number within the year, and the month and day numbers.
pub fn daily_diary(note_dir: &str, year: u32, week: u32, month: u32, day: u32) -> (r: String)
    requires
        1 <= month <= 12,
    ensures
        r@ == daily_diary_path(note_dir@, year as nat, week as nat, month as nat, day as nat),
{
    let mut path = String::from_str(note_dir);
    path.append("/diary/");
    let year_digits = u32_decimal(year);
    path.append(year_digits.as_str());
    path.append("/");
    path.append(month_name(month));
    path.append("/week");
    let week_digits = u32_decimal(week);
    path.append(week_digits.as_str());
    path.append("/");
    let month_digits = u32_decimal_pad2(month);
    path.append(month_digits.as_str());
    path.append("-");
    let day_digits = u32_decimal_pad2(day);
    path.append(day_digits.as_str());
    path.append("-");
    let year_padded = u32_decimal_pad4(year);
    path.append(year_padded.as_str());
    path.append(".md");
    path
}

/// Builds the weekly note's path for a date, given as the year, the week
/// number within the year and the month number.
pub fn weekly_diary(note_dir: &str, year: u32, week: u32, month: u32) -> (r: String)
    requires
        1 <= month <= 12,
    ensures
        r@ == weekly_diary_path(note_dir@, year as nat, week as nat, month as nat),
{
    let mut path = String::from_str(note_dir);
    path.append("/diary/");
    let year_digits = u32_decimal(year);
    path.append(year_digits.as_str());
    path.append("/");
    path.append(month_name(month));
    path.append("/week");
    let week_digits = u32_decimal(week);
    path.append(week_digits.as_str());
    path.append("/week.md");
    path
}

/// Builds the monthly note's path for a date, given as the year and the
/// month number.
pub fn monthly_diary(note_dir: &str, year: u32, month: u32) -> (r: String)
    requires
        1 <= month <= 12,
    ensures
        r@ == monthly_diary_path(note_dir@, year as nat, month as nat),
{
    let mut path = String::from_str(note_dir);
    path.append("/diary/");
    let year_digits = u32_decimal(year);
    path.append(year_digits.as_str());
    path.append("/");
    path.append(month_name(month));
    path.append("/month.md");
    path
}

} // verus!
