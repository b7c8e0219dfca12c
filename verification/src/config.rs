//! What is chosen when a session starts, and the sampling interval.
//!
//! The interval is a named setting and not a number at each call site.  Its
//! value is a count of milliseconds in decimal digits, which a `+` may
//! precede.  A setting that is missing, or that is no such number, or whose
//! number does not fit 64 bits, gives the default.

use vstd::prelude::*;
use vstd::string::*;

verus! {

/// The interval between two ticks where none is set, in milliseconds.
pub const DEFAULT_INTERVAL_MS: u64 = 30000;

/// The two ways in which ticks come about.
#[derive(Clone, Copy, Debug, PartialEq, Eq, Structural)]
pub enum ObservationMode {
    /// The session drives itself and sleeps between two ticks.
    Push {
        /// The sleep between two ticks, in milliseconds.
        interval_ms: u64,
    },
    /// The reporting backend asks for each tick when it wants one.  The
    /// session never sleeps.
    Pull,
}

/// What is chosen once, when a session starts.
#[derive(Clone, Copy, Debug, PartialEq, Eq, Structural)]
pub struct SessionConfig {
    /// How ticks come about.
    pub mode: ObservationMode,
    /// The bound on the recording passes.  `None` and `Some(0)` are no
    /// bound.
    pub iterations: Option<usize>,
    /// After how many ticks in a row that find no process the session gives
    /// up and stops.  `None` and `Some(0)` are no limit: the session then
    /// skips such ticks for as long as they come.
    pub vanished_limit: Option<u32>,
}

impl SessionConfig {
    /// A session that drives itself with the given sleep between two ticks,
    /// and never gives up on its process.
    pub open spec fn pushing(interval_ms: u64, iterations: Option<usize>) -> SessionConfig {
        SessionConfig {
            mode: ObservationMode::Push { interval_ms },
            iterations,
            vanished_limit: None,
        }
    }
}

/// The name of the setting that holds the sampling interval.
pub open spec fn interval_setting_text() -> Seq<char> {
    "OTEL_METRIC_EXPORT_INTERVAL"@
}

/// The name of the setting that holds the sampling interval.
pub fn interval_setting() -> (name: &'static str)
    ensures
        name@ == interval_setting_text(),
{
    "OTEL_METRIC_EXPORT_INTERVAL"
}

/// Whether a character is one of the ten decimal digits.
pub open spec fn is_digit(c: char) -> bool {
    '0' <= c <= '9'
}

/// The value of a decimal digit, and zero for any other character.
pub open spec fn digit_value(c: char) -> nat {
    if is_digit(c) {
        (c as nat - '0' as nat) as nat
    } else {
        0
    }
}

/// Whether a text consists of decimal digits only.
pub open spec fn all_digits(text: Seq<char>) -> bool {
    forall|i: int| 0 <= i < text.len() ==> is_digit(#[trigger] text[i])
}

/// The number that a text of decimal digits denotes.
pub open spec fn decimal_value(digits: Seq<char>) -> nat
    decreases digits.len(),
{
    if digits.len() == 0 {
        0
    } else {
        decimal_value(digits.drop_last()) * 10 + digit_value(digits.last())
    }
}

/// A text without the one `+` that may begin it.
pub open spec fn without_sign(text: Seq<char>) -> Seq<char> {
    if text.len() > 0 && text[0] == '+' {
        text.skip(1)
    } else {
        text
    }
}

/// The interval that a text denotes: the number of its digits, where the
/// text is one or more decimal digits after at most one `+` and the number
/// fits 64 bits.
pub open spec fn parsed_interval(text: Seq<char>) -> Option<u64> {
    let digits = without_sign(text);
    if digits.len() > 0 && all_digits(digits) && decimal_value(digits) <= u64::MAX {
        Some(decimal_value(digits) as u64)
    } else {
        None
    }
}

/// The text of a setting, where it is set.
pub open spec fn setting_text(setting: Option<&str>) -> Option<Seq<char>> {
    match setting {
        Some(text) => Some(text@),
        None => None,
    }
}

/// The interval that a setting gives: its number where it denotes one, the
/// default where it is missing or denotes none.
pub open spec fn interval_of(setting: Option<Seq<char>>) -> u64 {
    match setting {
        Some(text) => match parsed_interval(text) {
            Some(millis) => millis,
            None => DEFAULT_INTERVAL_MS,
        },
        None => DEFAULT_INTERVAL_MS,
    }
}

/// A text of digits denotes at least what any of its beginnings denotes.
proof fn lemma_prefix_value(digits: Seq<char>, length: int)
    requires
        0 <= length <= digits.len(),
    ensures
        decimal_value(digits.take(length)) <= decimal_value(digits),
    decreases digits.len(),
{
    if length == digits.len() {
        assert(digits.take(length) =~= digits);
    } else {
        assert(digits.drop_last().take(length) =~= digits.take(length));
        lemma_prefix_value(digits.drop_last(), length);
        assert(decimal_value(digits.drop_last()) <= decimal_value(digits.drop_last()) * 10)
            by (nonlinear_arith);
    }
}

/// Reads an interval in milliseconds from a text.
///
/// The text has to be one or more decimal digits, which one `+` may precede,
/// and nothing else: no space, no other sign, no separator.  The number has
/// to fit 64 bits.
pub fn parse_interval(text: &str) -> (interval: Option<u64>)
    ensures
        interval == parsed_interval(text@),
{
    let mut value: u64 = 0;
    let mut first = true;
    let mut any_digit = false;
    let ghost start: int = if text@.len() > 0 && text@[0] == '+' {
        1
    } else {
        0
    };
    proof {
        assert(without_sign(text@) =~= text@.subrange(start, text@.len() as int));
    }
    for c in it: text.chars()
        invariant
            it.seq() == text@,
            start == (if text@.len() > 0 && text@[0] == '+' {
                1int
            } else {
                0int
            }),
            first == (it.index() == 0),
            !first ==> start <= it.index(),
            first ==> value == 0 && !any_digit,
            !first ==> any_digit == (start < it.index()),
            !first ==> all_digits(text@.subrange(start, it.index() as int)),
            !first ==> value == decimal_value(text@.subrange(start, it.index() as int)),
    {
        let ghost index: int = it.index() as int;
        let ghost digits = without_sign(text@);
        proof {
            assert(c == text@[index]);
            assert(digits =~= text@.subrange(start, text@.len() as int));
        }
        if first && c == '+' {
            proof {
                assert(text@.subrange(start, index + 1) =~= Seq::<char>::empty());
            }
        } else if '0' <= c && c <= '9' {
            let digit: u64 = (c as u32 - '0' as u32) as u64;
            proof {
                let before = text@.subrange(start, index);
                let after = text@.subrange(start, index + 1);
                assert(after.drop_last() =~= before);
                assert(after.last() == c);
                assert(first ==> before =~= Seq::<char>::empty());
                assert(decimal_value(before) == value);
                assert(digit == digit_value(c));
                assert(decimal_value(after) == value * 10 + digit);
                assert forall|i: int| 0 <= i < after.len() implies is_digit(
                    #[trigger] after[i],
                ) by {
                    if i < before.len() {
                        assert(after[i] == before[i]);
                    }
                }
                assert(after =~= digits.take(index + 1 - start));
                lemma_prefix_value(digits, index + 1 - start);
            }
            if value > (u64::MAX - digit) / 10 {
                return None;
            }
            value = value * 10 + digit;
            any_digit = true;
        } else {
            proof {
                assert(digits[index - start] == c);
            }
            return None;
        }
        first = false;
    }
    proof {
        let digits = without_sign(text@);
        assert(digits =~= text@.subrange(start, text@.len() as int));
        if first {
            assert(text@.len() == 0);
        }
    }
    if any_digit {
        Some(value)
    } else {
        None
    }
}

/// The sampling interval in milliseconds, from the value of its setting.
///
/// A setting that is missing gives [`DEFAULT_INTERVAL_MS`], and so does one
/// that [`parse_interval`] cannot read.
pub fn interval_from_setting(setting: Option<&str>) -> (millis: u64)
    ensures
        millis == interval_of(setting_text(setting)),
{
    match setting {
        Some(text) => match parse_interval(text) {
            Some(millis) => millis,
            None => DEFAULT_INTERVAL_MS,
        },
        None => DEFAULT_INTERVAL_MS,
    }
}

} // verus!
