//! Conversion from Unix epoch milliseconds to an ISO 8601 string with
//! exactly three fractional digits and a trailing `Z`. The calendar
//! arithmetic is the time crate's; the overflow check, the millisecond
//! arithmetic and the assembly of the final text are verified.

use vstd::prelude::*;
use vstd::string::StringExecFns;

verus! {

/// Errors for converting a timestamp into ISO text.
#[derive(Debug)]
pub enum DateFormatError {
    /// Integer overflow in the millisecond-to-nanosecond conversion.
    IntConversion,
    /// The timestamp lies outside the range the calendar supports.
    InvalidTimestamp,
    /// The calendar text could not be produced.
    Formatting,
}

/// The `YYYY-MM-DDTHH:MM:SS` UTC text for a nanosecond timestamp, as the
/// outside calendar crate renders it.
pub uninterp spec fn seconds_text_of(nanos: int) -> Seq<char>;

/// Relies on time's OffsetDateTime::from_unix_timestamp_nanos and its
/// formatting machinery, composed into one call whose result is a pure
/// function of the timestamp alone: the `YYYY-MM-DDTHH:MM:SS` UTC text.
/// Fails where the timestamp lies outside the calendar's supported range
/// or the text cannot be produced, never with an overflow error.
#[verifier::external_body]
fn format_utc_seconds(nanos: i128) -> (r: Result<String, DateFormatError>)
    ensures
        r matches Ok(s) ==> s@ == seconds_text_of(nanos as int),
        r matches Err(e) ==> e is InvalidTimestamp || e is Formatting,
{
    let odt = time::OffsetDateTime::from_unix_timestamp_nanos(nanos)
        .map_err(|_| DateFormatError::InvalidTimestamp)?;
    let fmt = time::format_description::parse("[year]-[month]-[day]T[hour]:[minute]:[second]")
        .map_err(|_| DateFormatError::Formatting)?;
    odt.format(&fmt).map_err(|_| DateFormatError::Formatting)
}

/// The decimal digit character for a value below ten.
pub open spec fn decimal_digit(v: int) -> char {
    if v == 0 {
        '0'
    } else if v == 1 {
        '1'
    } else if v == 2 {
        '2'
    } else if v == 3 {
        '3'
    } else if v == 4 {
        '4'
    } else if v == 5 {
        '5'
    } else if v == 6 {
        '6'
    } else if v == 7 {
        '7'
    } else if v == 8 {
        '8'
    } else {
        '9'
    }
}

fn digit_str(d: u16) -> (r: &'static str)
    requires
        d < 10,
    ensures
        r@ == seq![decimal_digit(d as int)],
{
    proof {
        reveal_strlit("0");
        reveal_strlit("1");
        reveal_strlit("2");
        reveal_strlit("3");
        reveal_strlit("4");
        reveal_strlit("5");
        reveal_strlit("6");
        reveal_strlit("7");
        reveal_strlit("8");
        reveal_strlit("9");
    }
    let r = if d == 0 {
        "0"
    } else if d == 1 {
        "1"
    } else if d == 2 {
        "2"
    } else if d == 3 {
        "3"
    } else if d == 4 {
        "4"
    } else if d == 5 {
        "5"
    } else if d == 6 {
        "6"
    } else if d == 7 {
        "7"
    } else if d == 8 {
        "8"
    } else {
        "9"
    };
    proof {
        assert(r@ =~= seq![decimal_digit(d as int)]);
    }
    r
}

/// The fractional suffix: a dot, the three zero-padded millisecond digits,
/// and a trailing `Z`.
pub open spec fn millis_suffix(ms: int) -> Seq<char> {
    seq![
        '.',
        decimal_digit(ms / 100),
        decimal_digit((ms / 10) % 10),
        decimal_digit(ms % 10),
        'Z',
    ]
}

/// The full ISO text for a millisecond timestamp: the UTC seconds text for
/// the equivalent nanoseconds, then the millisecond suffix. The millisecond
/// component is the non-negative remainder, for negative timestamps too.
pub open spec fn iso_millis_text(epoch_millis: int) -> Seq<char> {
    seconds_text_of(epoch_millis * 1_000_000) + millis_suffix(epoch_millis % 1000)
}

/// Convert epoch milliseconds into an ISO 8601 string with exactly three
/// fractional digits and a trailing `Z`. Fails with `IntConversion` exactly
/// where the nanosecond conversion overflows, and otherwise only where the
/// calendar refuses the timestamp.
pub fn iso_from_millis(epoch_millis: i128) -> (r: Result<String, DateFormatError>)
    ensures
        r matches Ok(s) ==> s@ == iso_millis_text(epoch_millis as int),
        (r matches Err(e) && e is IntConversion) <==> (epoch_millis * 1_000_000 > i128::MAX
            || epoch_millis * 1_000_000 < i128::MIN),
{
    let nanos = match epoch_millis.checked_mul(1_000_000) {
        Some(n) => n,
        None => {
            return Err(DateFormatError::IntConversion);
        },
    };
    let base = match format_utc_seconds(nanos) {
        Ok(s) => s,
        Err(e) => {
            return Err(e);
        },
    };
    let ms_wide = match epoch_millis.checked_rem_euclid(1000) {
        Some(m) => m,
        None => {
            proof {
                assert(false);
            }
            return Err(DateFormatError::IntConversion);
        },
    };
    let ms: u16 = ms_wide as u16;
    let mut out = base;
    out.append(".");
    out.append(digit_str(ms / 100));
    out.append(digit_str((ms / 10) % 10));
    out.append(digit_str(ms % 10));
    out.append("Z");
    proof {
        reveal_strlit(".");
        reveal_strlit("Z");
        assert(out@ =~= iso_millis_text(epoch_millis as int));
    }
    Ok(out)
}

} // verus!
