//! The clock cell: local wall-clock time rendered as zero-padded `HH:MM:SS`,
//! and the placeholder shown before the first tick.

use vstd::prelude::*;

verus! {

/// The decimal digit character for `d`, for `0 <= d <= 9`.
pub open spec fn digit_char(d: int) -> char
    recommends
        0 <= d <= 9,
{
    if d == 0 {
        '0'
    } else if d == 1 {
        '1'
    } else if d == 2 {
        '2'
    } else if d == 3 {
        '3'
    } else if d == 4 {
        '4'
    } else if d == 5 {
        '5'
    } else if d == 6 {
        '6'
    } else if d == 7 {
        '7'
    } else if d == 8 {
        '8'
    } else {
        '9'
    }
}

/// Whether `c` is a decimal digit character.
pub open spec fn is_digit_char(c: char) -> bool {
    c == '0' || c == '1' || c == '2' || c == '3' || c == '4' || c == '5' || c == '6' || c == '7'
        || c == '8' || c == '9'
}

/// `n` zero-padded to two decimal digits, for `0 <= n <= 99`.
pub open spec fn two_digit_text(n: int) -> Seq<char>
    recommends
        0 <= n <= 99,
{
    seq![digit_char(n / 10), digit_char(n % 10)]
}

/// The clock display for the time of day `h:m:s`: two zero-padded digits per
/// component, the components joined by `:`.
pub open spec fn time_text(h: int, m: int, s: int) -> Seq<char>
    recommends
        0 <= h <= 23,
        0 <= m <= 59,
        0 <= s <= 59,
{
    two_digit_text(h) + seq![':'] + two_digit_text(m) + seq![':'] + two_digit_text(s)
}

/// The shape of a clock display: two digits, a colon, two digits, a colon,
/// two digits.
pub open spec fn is_clock_display(t: Seq<char>) -> bool {
    &&& t.len() == 8
    &&& is_digit_char(t[0])
    &&& is_digit_char(t[1])
    &&& t[2] == ':'
    &&& is_digit_char(t[3])
    &&& is_digit_char(t[4])
    &&& t[5] == ':'
    &&& is_digit_char(t[6])
    &&& is_digit_char(t[7])
}

/// The text the clock cell shows before the first tick.
pub open spec fn placeholder_text() -> Seq<char> {
    "--:--:--"@
}

/// The clock cell's text before the first tick.
pub fn placeholder() -> (r: String)
    ensures
        r@ == placeholder_text(),
{
    String::from_str("--:--:--")
}

/// The one-character string holding the digit character for `d`.
fn digit_str(d: u8) -> (r: &'static str)
    requires
        d < 10,
    ensures
        r@ == seq![digit_char(d as int)],
{
    proof {
        reveal_strlit("0");
        reveal_strlit("1");
        reveal_strlit("2");
        reveal_strlit("3");
        reveal_strlit("4");
        reveal_strlit("5");
        reveal_strlit("6");
        reveal_strlit("7");
        reveal_strlit("8");
        reveal_strlit("9");
    }
    let r = match d {
        0 => "0",
        1 => "1",
        2 => "2",
        3 => "3",
        4 => "4",
        5 => "5",
        6 => "6",
        7 => "7",
        8 => "8",
        _ => "9",
    };
    proof {
        assert(r@ =~= seq![digit_char(d as int)]);
    }
    r
}

/// `n` zero-padded to two decimal digits.
fn two_digit_string(n: u8) -> (r: String)
    requires
        n < 100,
    ensures
        r@ == two_digit_text(n as int),
{
    let mut r = String::from_str(digit_str(n / 10));
    r.append(digit_str(n % 10));
    proof {
        assert(r@ =~= two_digit_text(n as int));
    }
    r
}

/// The clock display for the time of day `h:m:s`, each component zero-padded
/// to two digits and the components joined by `:`.
pub fn format_time(h: u8, m: u8, s: u8) -> (r: String)
    requires
        h < 24,
        m < 60,
        s < 60,
    ensures
        r@ == time_text(h as int, m as int, s as int),
{
    proof {
        reveal_strlit(":");
    }
    let mut r = two_digit_string(h);
    r.append(":");
    let mid = two_digit_string(m);
    r.append(mid.as_str());
    r.append(":");
    let last = two_digit_string(s);
    r.append(last.as_str());
    proof {
        assert(r@ =~= time_text(h as int, m as int, s as int));
    }
    r
}

/// Every clock display produced for a valid time of day has the shape
/// `DD:DD:DD`: two digits, a colon, two digits, a colon, two digits.
pub proof fn lemma_time_text_shape(h: int, m: int, s: int)
    requires
        0 <= h <= 23,
        0 <= m <= 59,
        0 <= s <= 59,
    ensures
        is_clock_display(time_text(h, m, s)),
{
}

} // verus!
