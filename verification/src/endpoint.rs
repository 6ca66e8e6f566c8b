//! Construction of the fixed fetch target: a delay-injecting endpoint
//! in front of a fixed site, with the simulated delay in milliseconds
//! spliced into the URL as decimal digits.

use vstd::prelude::*;
use vstd::string::StringExecFns;

verus! {

/// Relies on String::push of std: appends the given character to the
/// end of the string.
pub assume_specification[ String::push ](s: &mut String, c: char)
    ensures
        final(s)@ == old(s)@.push(c),
;

/// The decimal digit `d` as a character.
pub open spec fn digit_char(d: int) -> char {
    if d == 0 {
        '0'
    } else if d == 1 {
        '1'
    } else if d == 2 {
        '2'
    } else if d == 3 {
        '3'
    } else if d == 4 {
        '4'
    } else if d == 5 {
        '5'
    } else if d == 6 {
        '6'
    } else if d == 7 {
        '7'
    } else if d == 8 {
        '8'
    } else {
        '9'
    }
}

/// The decimal digits of a non-negative number, most significant first,
/// without leading zeros (a single zero for 0).
pub open spec fn decimal_chars(n: int) -> Seq<char>
    decreases n,
{
    if n < 10 {
        seq![digit_char(n)]
    } else {
        decimal_chars(n / 10).push(digit_char(n % 10))
    }
}

fn digit_to_char(d: u8) -> (c: char)
    requires
        d < 10,
    ensures
        c == digit_char(d as int),
{
    match d {
        0 => '0',
        1 => '1',
        2 => '2',
        3 => '3',
        4 => '4',
        5 => '5',
        6 => '6',
        7 => '7',
        8 => '8',
        _ => '9',
    }
}

fn u32_decimal(n: u32) -> (s: String)
    ensures
        s@ == decimal_chars(n as int),
    decreases n,
{
    let c = digit_to_char((n % 10) as u8);
    if n < 10 {
        let mut s = String::new();
        s.push(c);
        s
    } else {
        let mut s = u32_decimal(n / 10);
        s.push(c);
        s
    }
}

/// The characters of the fixed target URL for a given simulated delay.
pub open spec fn delay_url_chars(delay_ms: u32) -> Seq<char> {
    ("https://deelay.me//https:/")@ + decimal_chars(delay_ms as int) + ("/google.com")@
}

/// The fixed target URL: the delay-injecting host in front of the
/// fixed site, with the given delay in milliseconds spliced in.
pub fn slowly(delay_ms: u32) -> (url: String)
    ensures
        url@ == delay_url_chars(delay_ms),
{
    let mut url = String::from_str("https://deelay.me//https:/");
    let digits = u32_decimal(delay_ms);
    url.append(digits.as_str());
    url.append("/google.com");
    proof {
        assert(url@ =~= delay_url_chars(delay_ms));
    }
    url
}

} // verus!
