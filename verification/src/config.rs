//! The refresh interval, as read from its setting.
//!
//! The setting is a positive count of seconds written as a decimal numeral. One
//! default serves both when the setting is absent and when it gives no such count.

use vstd::prelude::*;
use vstd::string::*;

verus! {

/// The interval used when the setting gives none: one hour.
pub const DEFAULT_REFRESH_INTERVAL_SECS: u64 = 3600;

/// Where a refresh interval came from.
#[derive(Clone, Copy, Debug, PartialEq, Eq, Structural)]
pub enum IntervalSource {
    /// The setting was present and is a positive count of seconds.
    Configured,
    /// The setting was absent; the default stands in without comment.
    Unset,
    /// The setting was present but is no positive count of seconds; the default
    /// stands in, and the caller owes the operator a warning.
    Invalid,
}

/// A refresh interval and where it came from.
#[derive(Clone, Copy, Debug, PartialEq, Eq, Structural)]
pub struct RefreshInterval {
    pub secs: u64,
    pub source: IntervalSource,
}

/// Whether `byte` is one of the ASCII digits `0` to `9`.
pub open spec fn is_digit(byte: u8) -> bool {
    48 <= byte <= 57
}

/// The number that `byte` stands for as a digit; zero for any other byte.
pub open spec fn digit_value(byte: u8) -> nat {
    if is_digit(byte) {
        (byte - 48) as nat
    } else {
        0
    }
}

/// The number that `digits` denotes, read as a decimal numeral.
pub open spec fn decimal_value(digits: Seq<u8>) -> nat
    decreases digits.len(),
{
    if digits.len() == 0 {
        0
    } else {
        10 * decimal_value(digits.drop_last()) + digit_value(digits.last())
    }
}

/// The digits of a numeral: all of `text` but one leading `+`, if there is one.
pub open spec fn numeral_digits(text: Seq<u8>) -> Seq<u8> {
    if text.len() > 0 && text[0] == 43 {
        text.skip(1)
    } else {
        text
    }
}

/// The count of seconds that `text` denotes: `text` is an optional `+` followed by one
/// or more ASCII digits and nothing else, and the number fits in 64 bits. Any other
/// text, the empty one and a lone sign included, denotes no count.
pub open spec fn parsed_seconds(text: Seq<u8>) -> Option<u64> {
    let digits = numeral_digits(text);
    if digits.len() > 0 && (forall|k: int| 0 <= k < digits.len() ==> is_digit(#[trigger] digits[k]))
        && decimal_value(digits) <= u64::MAX {
        Some(decimal_value(digits) as u64)
    } else {
        None
    }
}

/// The interval that a setting stands for. `setting` is `None` when it is absent.
/// A present setting is taken as written when it denotes a count above zero.
pub open spec fn chosen_interval(setting: Option<Seq<u8>>) -> RefreshInterval {
    match setting {
        None => RefreshInterval {
            secs: DEFAULT_REFRESH_INTERVAL_SECS,
            source: IntervalSource::Unset,
        },
        Some(text) => match parsed_seconds(text) {
            Some(secs) if secs > 0 => RefreshInterval { secs, source: IntervalSource::Configured },
            _ => RefreshInterval {
                secs: DEFAULT_REFRESH_INTERVAL_SECS,
                source: IntervalSource::Invalid,
            },
        },
    }
}

/// A numeral denotes at least as much as any of its beginnings.
proof fn lemma_decimal_value_grows(digits: Seq<u8>, len: int)
    requires
        0 <= len <= digits.len(),
    ensures
        decimal_value(digits.take(len)) <= decimal_value(digits),
    decreases digits.len() - len,
{
    if len < digits.len() {
        lemma_decimal_value_grows(digits, len + 1);
        assert(digits.take(len + 1).drop_last() == digits.take(len));
    } else {
        assert(digits.take(len) == digits);
    }
}

/// Reads a count of seconds from the bytes of a setting.
pub fn parse_seconds(text: &[u8]) -> (parsed: Option<u64>)
    ensures
        parsed == parsed_seconds(text@),
{
    let n = text.len();
    let start: usize = if n > 0 && text[0] == 43 {
        1
    } else {
        0
    };
    if start == n {
        return None;
    }
    let ghost digits = numeral_digits(text@);
    let mut value: u64 = 0;
    let mut i: usize = start;
    while i < n
        invariant
            start <= i <= n,
            n == text@.len(),
            digits == text@.skip(start as int),
            digits == numeral_digits(text@),
            forall|k: int| 0 <= k < i - start ==> is_digit(#[trigger] digits[k]),
            value == decimal_value(digits.take(i - start)),
        decreases n - i,
    {
        let byte = text[i];
        assert(byte == digits[i - start]);
        if byte < 48 || byte > 57 {
            return None;
        }
        proof {
            assert(digits.take(i - start + 1).drop_last() == digits.take(i - start));
            lemma_decimal_value_grows(digits, i - start + 1);
        }
        let shifted = match value.checked_mul(10) {
            Some(shifted) => shifted,
            None => {
                return None;
            },
        };
        value = match shifted.checked_add((byte - 48) as u64) {
            Some(sum) => sum,
            None => {
                return None;
            },
        };
        i += 1;
    }
    assert(digits.take(n - start) == digits);
    Some(value)
}

/// Chooses the refresh interval from its setting.
pub fn refresh_interval(setting: Option<&str>) -> (interval: RefreshInterval)
    ensures
        interval == chosen_interval(
            match setting {
                Some(text) => Some(text.spec_bytes()),
                None => None,
            },
        ),
{
    match setting {
        None => RefreshInterval {
            secs: DEFAULT_REFRESH_INTERVAL_SECS,
            source: IntervalSource::Unset,
        },
        Some(text) => match parse_seconds(text.as_bytes()) {
            Some(secs) if secs > 0 => RefreshInterval { secs, source: IntervalSource::Configured },
            _ => RefreshInterval {
                secs: DEFAULT_REFRESH_INTERVAL_SECS,
                source: IntervalSource::Invalid,
            },
        },
    }
}

/// Whatever the setting, the chosen interval is positive; it is the default unless
/// the setting was taken as written; and it is reported as unset exactly when the
/// setting is absent.
pub proof fn lemma_chosen_interval_is_positive(setting: Option<Seq<u8>>)
    ensures
        chosen_interval(setting).secs > 0,
        chosen_interval(setting).source != IntervalSource::Configured ==> chosen_interval(
            setting,
        ).secs == DEFAULT_REFRESH_INTERVAL_SECS,
        chosen_interval(setting).source == IntervalSource::Unset <==> setting is None,
{
}

} // verus!
