use vstd::prelude::*;

use crate::error::DatabaseError;
use crate::text::{text_views, to_owned_string};
use vstd::string::StringExecFns;
use crate::time::Timestamp;

verus! {

/// Whether `c` is an ASCII decimal digit.
pub open spec fn is_ascii_digit(c: char) -> bool {
    '0' <= c <= '9'
}

/// Whether `s` is a non-empty run of ASCII decimal digits.
pub open spec fn is_ascii_digits(s: Seq<char>) -> bool {
    s.len() > 0 && forall|i: int| 0 <= i < s.len() ==> is_ascii_digit(#[trigger] s[i])
}

/// The number written by a run of decimal digits.
pub open spec fn digits_value(s: Seq<char>) -> int
    decreases s.len(),
{
    if s.len() == 0 {
        0
    } else {
        digits_value(s.drop_last()) * 10 + (s.last() as int - '0' as int)
    }
}

/// The number a signed decimal text writes, the way std's integer `FromStr`
/// reads it: an optional `+` or `-`, then one or more ASCII digits.
pub open spec fn signed_decimal_value(s: Seq<char>) -> Option<int> {
    if s.len() > 0 && (s[0] == '+' || s[0] == '-') {
        if is_ascii_digits(s.drop_first()) {
            Some(if s[0] == '-' { -digits_value(s.drop_first()) } else { digits_value(s.drop_first()) })
        } else {
            None
        }
    } else if is_ascii_digits(s) {
        Some(digits_value(s))
    } else {
        None
    }
}

/// The number an unsigned decimal text writes, the way std's unsigned
/// `FromStr` reads it: an optional `+`, then one or more ASCII digits.
pub open spec fn unsigned_decimal_value(s: Seq<char>) -> Option<int> {
    if s.len() > 0 && s[0] == '+' {
        if is_ascii_digits(s.drop_first()) {
            Some(digits_value(s.drop_first()))
        } else {
            None
        }
    } else if is_ascii_digits(s) {
        Some(digits_value(s))
    } else {
        None
    }
}

/// Calls `str::parse::<i64>`. std documents it as reading an optional sign and
/// ASCII digits, and failing when the number does not fit; the failure's
/// message is kept.
#[verifier::external_body]
fn parse_i64(s: &str) -> (r: Result<i64, String>)
    ensures
        match r {
            Ok(v) => signed_decimal_value(s@) == Some(v as int),
            Err(_) => signed_decimal_value(s@) matches Some(x) ==> !(i64::MIN <= x <= i64::MAX),
        },
{
    match s.parse::<i64>() {
        Ok(v) => Ok(v),
        Err(error) => Err(error.to_string()),
    }
}

/// Calls `str::parse::<usize>`. std documents it as reading an optional `+`
/// and ASCII digits, and failing when the number does not fit; the failure's
/// message is kept.
#[verifier::external_body]
fn parse_usize(s: &str) -> (r: Result<usize, String>)
    ensures
        match r {
            Ok(v) => unsigned_decimal_value(s@) == Some(v as int),
            Err(_) => unsigned_decimal_value(s@) matches Some(x) ==> !(x <= usize::MAX),
        },
{
    match s.parse::<usize>() {
        Ok(v) => Ok(v),
        Err(error) => Err(error.to_string()),
    }
}

/// Calls `str::parse::<bool>`, which std documents as accepting exactly
/// `"true"` and `"false"`; the failure's message is kept.
#[verifier::external_body]
fn parse_bool(s: &str) -> (r: Result<bool, String>)
    ensures
        match r {
            Ok(v) => (s@ == "true"@ || s@ == "false"@) && v == (s@ == "true"@),
            Err(_) => s@ != "true"@ && s@ != "false"@,
        },
{
    match s.parse::<bool>() {
        Ok(v) => Ok(v),
        Err(error) => Err(error.to_string()),
    }
}

/// The character of the decimal digit `d` (from 0 to 9).
pub open spec fn digit_char(d: int) -> char {
    if d == 0 {
        '0'
    } else if d == 1 {
        '1'
    } else if d == 2 {
        '2'
    } else if d == 3 {
        '3'
    } else if d == 4 {
        '4'
    } else if d == 5 {
        '5'
    } else if d == 6 {
        '6'
    } else if d == 7 {
        '7'
    } else if d == 8 {
        '8'
    } else {
        '9'
    }
}

/// The decimal digits of `n`, without leading zeros.
pub open spec fn natural_digits(n: nat) -> Seq<char>
    decreases n,
{
    if n < 10 {
        seq![digit_char(n as int)]
    } else {
        natural_digits(n / 10).push(digit_char((n % 10) as int))
    }
}

/// The decimal text of `v`: its digits without leading zeros, after a `-` when it is negative.
pub open spec fn decimal_text(v: int) -> Seq<char> {
    if v < 0 {
        seq!['-'] + natural_digits((-v) as nat)
    } else {
        natural_digits(v as nat)
    }
}

proof fn lemma_digit_char(d: int)
    requires
        0 <= d < 10,
    ensures
        digit_char(d) as int == '0' as int + d,
        is_ascii_digit(digit_char(d)),
{
}

proof fn lemma_natural_digits(n: nat)
    ensures
        is_ascii_digits(natural_digits(n)),
        digits_value(natural_digits(n)) == n,
        natural_digits(n)[0] != '+' && natural_digits(n)[0] != '-',
    decreases n,
{
    if n < 10 {
        lemma_digit_char(n as int);
        let s = natural_digits(n);
        assert(s.drop_last() =~= Seq::<char>::empty());
        assert(digits_value(s.drop_last()) == 0);
    } else {
        lemma_digit_char((n % 10) as int);
        lemma_natural_digits(n / 10);
        let s = natural_digits(n);
        assert(s.drop_last() =~= natural_digits(n / 10));
        assert(s[0] == natural_digits(n / 10)[0]);
    }
}

/// The decimal text of a number reads back as that number.
pub proof fn lemma_decimal_text_reads_back(v: int)
    ensures
        signed_decimal_value(decimal_text(v)) == Some(v),
        decimal_text(v).len() > 0,
{
    if v < 0 {
        lemma_natural_digits((-v) as nat);
        assert((seq!['-'] + natural_digits((-v) as nat)).drop_first() =~= natural_digits((-v) as nat));
    } else {
        lemma_natural_digits(v as nat);
    }
}

/// Calls `i64::to_string`: the number in decimal, with a `-` when it is
/// negative and no leading zeros.
#[verifier::external_body]
pub(crate) fn i64_to_string(v: i64) -> (s: String)
    ensures
        s@ == decimal_text(v as int),
{
    v.to_string()
}

/// Calls `i32::to_string`: the number in decimal, with a `-` when it is
/// negative and no leading zeros.
#[verifier::external_body]
pub(crate) fn i32_to_string(v: i32) -> (s: String)
    ensures
        s@ == decimal_text(v as int),
{
    v.to_string()
}

/// The integer a config value holds; the parse failure's message otherwise.
pub fn config_i64(value: &str) -> (r: Result<i64, DatabaseError>)
    ensures
        match r {
            Ok(v) => signed_decimal_value(value@) == Some(v as int),
            Err(e) => e is Error && (signed_decimal_value(value@) matches Some(x) ==> !(i64::MIN <= x
                <= i64::MAX)),
        },
{
    match parse_i64(value) {
        Ok(v) => Ok(v),
        Err(message) => Err(DatabaseError::Error(message)),
    }
}

/// The size or count a config value holds; the parse failure's message otherwise.
pub fn config_usize(value: &str) -> (r: Result<usize, DatabaseError>)
    ensures
        match r {
            Ok(v) => unsigned_decimal_value(value@) == Some(v as int),
            Err(e) => e is Error && (unsigned_decimal_value(value@) matches Some(x) ==> !(x <= usize::MAX)),
        },
{
    match parse_usize(value) {
        Ok(v) => Ok(v),
        Err(message) => Err(DatabaseError::Error(message)),
    }
}

/// The switch a config value holds (`"true"` or `"false"`); the parse failure's message otherwise.
pub fn config_bool(value: &str) -> (r: Result<bool, DatabaseError>)
    ensures
        match r {
            Ok(v) => (value@ == "true"@ || value@ == "false"@) && v == (value@ == "true"@),
            Err(e) => e is Error && value@ != "true"@ && value@ != "false"@,
        },
{
    match parse_bool(value) {
        Ok(v) => Ok(v),
        Err(message) => Err(DatabaseError::Error(message)),
    }
}

/// The strings a JSON text holds when it is an array of strings, as
/// `serde_json` reads it.
pub uninterp spec fn json_string_array(text: Seq<char>) -> Option<Seq<Seq<char>>>;

/// Calls `serde_json::from_str::<Vec<String>>`. What it accepts and reads is
/// the JSON grammar, named `json_string_array`; the failure's message is kept.
#[verifier::external_body]
fn parse_json_string_list(text: &str) -> (r: Result<Vec<String>, String>)
    ensures
        match r {
            Ok(items) => json_string_array(text@) == Some(text_views(items@)),
            Err(_) => json_string_array(text@) is None,
        },
{
    match serde_json::from_str::<Vec<String>>(text) {
        Ok(items) => Ok(items),
        Err(error) => Err(error.to_string()),
    }
}

/// The list of strings a config value holds as a JSON array; the parse failure's message otherwise.
pub fn config_string_list(value: &str) -> (r: Result<Vec<String>, DatabaseError>)
    ensures
        match r {
            Ok(items) => json_string_array(value@) == Some(text_views(items@)),
            Err(e) => e is Error && json_string_array(value@) is None,
        },
{
    match parse_json_string_list(value) {
        Ok(items) => Ok(items),
        Err(message) => Err(DatabaseError::Error(message)),
    }
}

/// The first second `DateTime::from_timestamp` accepts: the start of
/// chrono's earliest date, `NaiveDate::MIN` (in its year `MIN_YEAR`).
pub const CHRONO_MIN_TIMESTAMP: i64 = -8_334_601_228_800i64;

/// The last second `DateTime::from_timestamp` accepts: the end of chrono's
/// latest date, `NaiveDate::MAX` (December 31 of its year `MAX_YEAR`).
pub const CHRONO_MAX_TIMESTAMP: i64 = 8_210_266_876_799i64;

/// Whether chrono can hold the instant `secs` seconds after the Unix epoch:
/// its date lies between `NaiveDate::MIN` and `NaiveDate::MAX`.
pub open spec fn chrono_timestamp_in_range(secs: i64) -> bool {
    CHRONO_MIN_TIMESTAMP <= secs <= CHRONO_MAX_TIMESTAMP
}

/// Calls `chrono::DateTime::from_timestamp(secs, 0)`. Its source turns the
/// seconds into a day and a time of day, and refuses the day when its year
/// falls outside chrono's years: `None` exactly outside
/// `chrono_timestamp_in_range`. The value round-trips with `timestamp()`.
#[verifier::external_body]
pub(crate) fn datetime_from_timestamp(secs: i64) -> (r: Option<Timestamp>)
    ensures
        r is Some <==> chrono_timestamp_in_range(secs),
        r matches Some(t) ==> t.seconds == secs && t.nanos == 0,
{
    match chrono::DateTime::from_timestamp(secs, 0) {
        Some(dt) => Some(Timestamp { seconds: dt.timestamp(), nanos: dt.timestamp_subsec_nanos() }),
        None => None,
    }
}

/// The message of the error for a config timestamp chrono cannot hold.
pub open spec fn invalid_timestamp_text(secs: int) -> Seq<char> {
    "Invalid timestamp: "@ + decimal_text(secs)
}

fn invalid_timestamp_message(secs: i64) -> (message: String)
    ensures
        message@ == invalid_timestamp_text(secs as int),
{
    let message = to_owned_string("Invalid timestamp: ");
    let number = i64_to_string(secs);
    message.concat(number.as_str())
}

/// The instant a config value holds as whole seconds since the Unix epoch.
pub fn config_datetime(value: &str) -> (r: Result<Timestamp, DatabaseError>)
    ensures
        match r {
            Ok(t) => signed_decimal_value(value@) == Some(t.seconds as int) && t.nanos == 0
                && chrono_timestamp_in_range(t.seconds),
            Err(e) => e is Error && !(signed_decimal_value(value@) matches Some(x) && i64::MIN <= x <= i64::MAX
                && chrono_timestamp_in_range(x as i64)),
        },
        match signed_decimal_value(value@) {
            Some(x) => (i64::MIN <= x <= i64::MAX && !chrono_timestamp_in_range(x as i64)) ==> (r matches Err(
                DatabaseError::Error(m),
            ) && m@ == invalid_timestamp_text(x)),
            None => true,
        },
{
    let secs = match config_i64(value) {
        Ok(v) => v,
        Err(e) => {
            return Err(e);
        },
    };
    match datetime_from_timestamp(secs) {
        Some(t) => Ok(t),
        None => Err(DatabaseError::Error(invalid_timestamp_message(secs))),
    }
}

/// The config value that stores an instant: its whole seconds since the Unix epoch.
pub fn datetime_config_value(time: &Timestamp) -> (value: String)
    ensures
        value@ == decimal_text(time.seconds as int),
        signed_decimal_value(value@) == Some(time.seconds as int),
{
    proof {
        lemma_decimal_text_reads_back(time.seconds as int);
    }
    i64_to_string(time.seconds)
}

/// An instant stored in config reads back as its whole seconds, when chrono can hold them.
pub proof fn lemma_datetime_round_trip(time: Timestamp, value: Seq<char>, back: Timestamp)
    requires
        signed_decimal_value(value) == Some(time.seconds as int),
        signed_decimal_value(value) == Some(back.seconds as int),
        back.nanos == 0,
    ensures
        back.seconds == time.seconds,
        time.nanos == 0 ==> back == time,
{
}

} // verus!
