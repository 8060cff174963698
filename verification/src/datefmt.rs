//! Human-readable dates for the post listing.
//!
//! The civil calendar itself (leap years, month lengths) is chrono's work,
//! consumed through one trusted conversion from unix milliseconds to
//! (year, month, day); turning those parts into the listing's
//! `"DD, Month YYYY"` text is verified formatting.
use vstd::prelude::*;

verus! {

/// The civil (year, month, day) that chrono derives from a unix
/// millisecond timestamp; `None` outside chrono's representable range.
pub uninterp spec fn civil_of(ms: i64) -> Option<(i32, u32, u32)>;

/// Relies on `chrono::DateTime::<Utc>::from_timestamp_millis` and the
/// `chrono::Datelike` accessors: the conversion is `None` only out of
/// range (every timestamp up to year 9999 is well within it), the month is
/// 1..=12 and the day 1..=31, and the outcome depends on the timestamp
/// alone.
#[verifier::external_body]
fn civil_from_millis(ms: i64) -> (r: Option<(i32, u32, u32)>)
    ensures
        r == civil_of(ms),
        r matches Some(p) ==> 1 <= p.1 <= 12 && 1 <= p.2 <= 31,
        0 <= ms <= 253402300799999 ==> r is Some,
{
    match chrono::DateTime::<chrono::Utc>::from_timestamp_millis(ms) {
        Some(dt) => Some(
            (
                chrono::Datelike::year(&dt),
                chrono::Datelike::month(&dt),
                chrono::Datelike::day(&dt),
            ),
        ),
        None => None,
    }
}

/// Relies on `chrono::Utc::now`: the current wall-clock time as unix
/// milliseconds.  Nothing is promised of the value: it is the machine's
/// clock.
#[verifier::external_body]
pub fn current_millis() -> i64 {
    chrono::Utc::now().timestamp_millis()
}

/// The character of a single decimal digit.
pub open spec fn digit_char(d: nat) -> char {
    ((d + 48) as u8) as char
}

/// The decimal digits of `n`, most significant first, no leading zeros.
pub open spec fn dec_digits(n: nat) -> Seq<char>
    decreases n,
{
    if n < 10 {
        seq![digit_char(n)]
    } else {
        dec_digits(n / 10).push(digit_char(n % 10))
    }
}

/// A day of month, zero-padded to two digits.
pub open spec fn two_digits(d: nat) -> Seq<char> {
    if d < 10 {
        seq!['0'] + dec_digits(d)
    } else {
        dec_digits(d)
    }
}

/// A possibly negative year in decimal.
pub open spec fn int_dec(y: int) -> Seq<char> {
    if y < 0 {
        seq!['-'] + dec_digits((-y) as nat)
    } else {
        dec_digits(y as nat)
    }
}

/// The English month names, by 1-based month number.
pub open spec fn month_name(m: int) -> Seq<char> {
    if m == 1 {
        "January"@
    } else if m == 2 {
        "February"@
    } else if m == 3 {
        "March"@
    } else if m == 4 {
        "April"@
    } else if m == 5 {
        "May"@
    } else if m == 6 {
        "June"@
    } else if m == 7 {
        "July"@
    } else if m == 8 {
        "August"@
    } else if m == 9 {
        "September"@
    } else if m == 10 {
        "October"@
    } else if m == 11 {
        "November"@
    } else {
        "December"@
    }
}

/// The listing's date text: `"DD, Month YYYY"`.
pub open spec fn date_text(y: int, m: int, d: nat) -> Seq<char> {
    two_digits(d) + ", "@ + month_name(m) + " "@ + int_dec(y)
}

/// The date shown for a timestamp: its civil date formatted, or the
/// fallback marker when chrono cannot represent the timestamp.
pub open spec fn shown_date(ms: i64) -> Seq<char> {
    match civil_of(ms) {
        Some(p) => date_text(p.0 as int, p.1 as int, p.2 as nat),
        None => "ERR"@,
    }
}

/// The month's English name; `None` outside 1..=12.
pub fn monthify(month: usize) -> (r: Option<String>)
    ensures
        1 <= month <= 12 ==> (r matches Some(s) && s@ == month_name(month as int)),
        !(1 <= month <= 12) ==> r is None,
{
    match month {
        1 => Some(String::from_str("January")),
        2 => Some(String::from_str("February")),
        3 => Some(String::from_str("March")),
        4 => Some(String::from_str("April")),
        5 => Some(String::from_str("May")),
        6 => Some(String::from_str("June")),
        7 => Some(String::from_str("July")),
        8 => Some(String::from_str("August")),
        9 => Some(String::from_str("September")),
        10 => Some(String::from_str("October")),
        11 => Some(String::from_str("November")),
        12 => Some(String::from_str("December")),
        _ => None,
    }
}

/// One decimal digit as text.
fn digit_str(d: u64) -> (r: &'static str)
    requires
        d < 10,
    ensures
        r@ =~= seq![digit_char(d as nat)],
{
    proof {
        reveal_strlit("0");
        reveal_strlit("1");
        reveal_strlit("2");
        reveal_strlit("3");
        reveal_strlit("4");
        reveal_strlit("5");
        reveal_strlit("6");
        reveal_strlit("7");
        reveal_strlit("8");
        reveal_strlit("9");
    }
    match d {
        0 => "0",
        1 => "1",
        2 => "2",
        3 => "3",
        4 => "4",
        5 => "5",
        6 => "6",
        7 => "7",
        8 => "8",
        _ => "9",
    }
}

/// Renders `n` in decimal.
pub fn u64_to_dec(n: u64) -> (r: String)
    ensures
        r@ =~= dec_digits(n as nat),
    decreases n,
{
    if n < 10 {
        String::from_str(digit_str(n))
    } else {
        let mut s = u64_to_dec(n / 10);
        s.append(digit_str(n % 10));
        proof {
            assert(s@ =~= dec_digits((n / 10) as nat).push(digit_char((n % 10) as nat)));
        }
        s
    }
}

/// Renders a civil date as the listing shows it: two-digit day, month
/// name, year.
pub fn date_repr(year: i32, month: u32, day: u32) -> (r: String)
    requires
        1 <= month <= 12,
    ensures
        r@ =~= date_text(year as int, month as int, day as nat),
{
    let mut s: String;
    if day < 10 {
        s = String::from_str("0");
        proof {
            reveal_strlit("0");
            assert("0"@ =~= seq!['0']);
        }
        s.append(digit_str(day as u64));
        proof {
            assert(s@ =~= two_digits(day as nat));
        }
    } else {
        s = u64_to_dec(day as u64);
    }
    s.append(", ");
    let name = match monthify(month as usize) {
        Some(n) => n,
        None => String::new(),
    };
    s.append(name.as_str());
    s.append(" ");
    if year < 0 {
        proof {
            reveal_strlit("-");
            assert("-"@ =~= seq!['-']);
        }
        s.append("-");
        let pos = (-(year as i64)) as u64;
        let digits = u64_to_dec(pos);
        s.append(digits.as_str());
    } else {
        let digits = u64_to_dec(year as u64);
        s.append(digits.as_str());
    }
    proof {
        assert(s@ =~= date_text(year as int, month as int, day as nat));
    }
    s
}

/// The date shown for a timestamp: published or created time, formatted.
pub fn render_date(ms: i64) -> (r: String)
    ensures
        r@ =~= shown_date(ms),
{
    match civil_from_millis(ms) {
        Some((y, m, d)) => date_repr(y, m, d),
        None => String::from_str("ERR"),
    }
}

} // verus!
