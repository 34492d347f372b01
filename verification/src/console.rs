//! Decisions of an operator console that drives the core: which actuator is
//! selected, what a settings form asks for, and how a decimal number is read
//! from a text field.

use vstd::prelude::*;
use vstd::string::StrSliceExecFns;
use crate::telemetry::{valid_id, TorqueMode, MAX_SERVOS};

verus! {

/// The row that is selected after the selection moved down from `selected`:
/// the next row, the first one after the last.
pub fn next_selection(selected: usize) -> (next: usize)
    ensures
        next == (selected + 1) % (MAX_SERVOS as int),
        next < MAX_SERVOS,
{
    (selected % MAX_SERVOS + 1) % MAX_SERVOS
}

/// The row that is selected after the selection moved up from `selected`: the
/// row before, the last one before the first.
pub fn previous_selection(selected: usize) -> (previous: usize)
    ensures
        previous == (selected + MAX_SERVOS - 1) % (MAX_SERVOS as int),
        previous < MAX_SERVOS,
{
    (selected % MAX_SERVOS + MAX_SERVOS - 1) % MAX_SERVOS
}

/// The identifier of the actuator shown in row `selected`: rows count from
/// zero, identifiers from one.
pub fn selected_id(selected: usize) -> (id: u8)
    ensures
        id == selected % MAX_SERVOS + 1,
        valid_id(id),
{
    (selected % MAX_SERVOS) as u8 + 1
}

/// Whether `c` is a decimal digit.
pub open spec fn is_digit(c: char) -> bool {
    '0' <= c <= '9'
}

/// Whether `text` consists of decimal digits only.
pub open spec fn all_digits(text: Seq<char>) -> bool {
    forall|i: int| 0 <= i < text.len() ==> is_digit(#[trigger] text[i])
}

/// The number that the decimal digits `digits` write.
pub open spec fn digits_value(digits: Seq<char>) -> int
    decreases digits.len(),
{
    if digits.len() == 0 {
        0
    } else {
        10 * digits_value(digits.drop_last()) + (digits.last() as int - '0' as int)
    }
}

/// The integer that `text` writes in decimal: an optional sign, then at least
/// one digit and nothing else. A minus sign is accepted only where `signed`
/// is set. Leading zeros are allowed.
pub open spec fn decimal(text: Seq<char>, signed: bool) -> Option<int> {
    if text.len() == 0 {
        None
    } else {
        let negative = signed && text[0] == '-';
        let digits = if text[0] == '+' || negative {
            text.skip(1)
        } else {
            text
        };
        if digits.len() == 0 || !all_digits(digits) {
            None
        } else if negative {
            Some(-digits_value(digits))
        } else {
            Some(digits_value(digits))
        }
    }
}

/// The position that a text field holds: the signed decimal number it writes,
/// provided it fits sixteen bits.
pub open spec fn position_of(text: Seq<char>) -> Option<i16> {
    match decimal(text, true) {
        Some(value) => if -0x8000 <= value <= 0x7FFF {
            Some(value as i16)
        } else {
            None
        },
        None => None,
    }
}

/// The speed that a text field holds: the unsigned decimal number it writes,
/// provided it fits sixteen bits, and zero for any other text.
pub open spec fn speed_of_text(text: Seq<char>) -> u16 {
    match decimal(text, false) {
        Some(value) => if value <= 0xFFFF {
            value as u16
        } else {
            0
        },
        None => 0,
    }
}

/// The digits of `digits` as a number, provided there is at least one digit,
/// nothing but digits, and the number does not exceed `limit`.
pub open spec fn bounded_digits(digits: Seq<char>, limit: u32) -> Option<u32> {
    if digits.len() > 0 && all_digits(digits) && digits_value(digits) <= limit {
        Some(digits_value(digits) as u32)
    } else {
        None
    }
}

/// The number written by digits is not negative and does not shrink when more
/// digits follow.
proof fn digits_value_grows(digits: Seq<char>, k: int)
    requires
        all_digits(digits),
        0 <= k <= digits.len(),
    ensures
        0 <= digits_value(digits.take(k)) <= digits_value(digits),
    decreases digits.len() - k,
{
    if k == digits.len() {
        assert(digits.take(k) =~= digits);
        digits_value_nonnegative(digits);
    } else {
        digits_value_grows(digits, k + 1);
        assert(digits.take(k + 1).drop_last() =~= digits.take(k));
        digits_value_nonnegative(digits.take(k));
    }
}

/// The number written by digits is not negative.
proof fn digits_value_nonnegative(digits: Seq<char>)
    requires
        all_digits(digits),
    ensures
        0 <= digits_value(digits),
    decreases digits.len(),
{
    if digits.len() > 0 {
        digits_value_nonnegative(digits.drop_last());
    }
}

/// Reads the digits of `text` from the character at `start` on.
fn read_digits(text: &str, start: usize, limit: u32) -> (value: Option<u32>)
    requires
        start <= text@.len(),
        limit <= 0xFFFF,
    ensures
        value == bounded_digits(text@.skip(start as int), limit),
        value matches Some(v) ==> v <= limit && v == digits_value(text@.skip(start as int)),
{
    let n: usize = text.unicode_len();
    if start >= n {
        return None;
    }
    let ghost digits = text@.skip(start as int);
    let mut total: u32 = 0;
    let mut i: usize = start;
    while i < n
        invariant
            start <= i <= n,
            n == text@.len(),
            digits == text@.skip(start as int),
            limit <= 0xFFFF,
            all_digits(digits.take(i - start)),
            total == digits_value(digits.take(i - start)),
            total <= limit,
        decreases n - i,
    {
        let c: char = text.get_char(i);
        proof {
            assert(digits.take(i - start + 1).drop_last() =~= digits.take(i - start));
        }
        if c < '0' || c > '9' {
            proof {
                assert(!is_digit(digits[i - start]));
            }
            return None;
        }
        let digit: u32 = c as u32 - '0' as u32;
        let next: u32 = 10 * total + digit;
        if next > limit {
            proof {
                if all_digits(digits) {
                    digits_value_grows(digits, i - start + 1);
                }
            }
            return None;
        }
        total = next;
        i = i + 1;
    }
    proof {
        assert(digits.take(n - start) =~= digits);
    }
    Some(total)
}

/// Reads a position from a text field. The field must hold a decimal number
/// with an optional sign that fits a signed 16-bit register; any other text
/// gives `None`.
pub fn parse_position(text: &str) -> (position: Option<i16>)
    ensures
        position == position_of(text@),
{
    let n: usize = text.unicode_len();
    if n == 0 {
        return None;
    }
    let first: char = text.get_char(0);
    let negative: bool = first == '-';
    let start: usize = if first == '+' || negative {
        1
    } else {
        0
    };
    let limit: u32 = if negative {
        0x8000
    } else {
        0x7FFF
    };
    proof {
        if start == 0 {
            assert(text@.skip(0) =~= text@);
        }
    }
    match read_digits(text, start, limit) {
        Some(magnitude) => {
            if negative {
                Some((-(magnitude as i32)) as i16)
            } else {
                Some(magnitude as i16)
            }
        },
        None => None,
    }
}

/// Reads a speed from a text field. The field must hold a decimal number,
/// with an optional plus sign, that fits an unsigned 16-bit register; any
/// other text counts as zero.
pub fn parse_speed(text: &str) -> (speed: u16)
    ensures
        speed == speed_of_text(text@),
{
    let n: usize = text.unicode_len();
    if n == 0 {
        return 0;
    }
    let first: char = text.get_char(0);
    let start: usize = if first == '+' {
        1
    } else {
        0
    };
    proof {
        if start == 0 {
            assert(text@.skip(0) =~= text@);
        }
    }
    match read_digits(text, start, 0xFFFF) {
        Some(value) => value as u16,
        None => 0,
    }
}

/// The move a settings form asks for.
#[derive(Clone, Copy, Debug, PartialEq, Eq, Structural)]
pub struct MoveTarget {
    pub position: i16,
    pub velocity: u16,
    pub speed: u16,
}

/// What a settings form asks for: the torque mode to set, and the move to
/// make, if any.
#[derive(Clone, Copy, Debug, PartialEq, Eq)]
pub struct SettingsPlan {
    pub torque_mode: TorqueMode,
    pub target: Option<MoveTarget>,
}

/// What a settings form with these fields asks for.
pub open spec fn settings_of(position: Seq<char>, speed: Seq<char>, torque: Option<TorqueMode>)
    -> SettingsPlan {
    SettingsPlan {
        torque_mode: match torque {
            Some(mode) => mode,
            None => TorqueMode::Enabled,
        },
        target: match position_of(position) {
            Some(p) => Some(MoveTarget { position: p, velocity: 0, speed: speed_of_text(speed) }),
            None => None,
        },
    }
}

/// Decides what a settings form asks for.
///
/// The torque mode is the selected one, or `Enabled` when none is selected.
/// A move is asked for only when the position field holds a position; it then
/// goes to that position with travel velocity zero and the speed of the speed
/// field, which counts as zero when it holds no speed.
pub fn plan_settings(position: &str, speed: &str, torque: Option<TorqueMode>) -> (plan:
    SettingsPlan)
    ensures
        plan == settings_of(position@, speed@, torque),
{
    let torque_mode = match torque {
        Some(mode) => mode,
        None => TorqueMode::Enabled,
    };
    let target = match parse_position(position) {
        Some(p) => Some(MoveTarget { position: p, velocity: 0, speed: parse_speed(speed) }),
        None => None,
    };
    SettingsPlan { torque_mode, target }
}

} // verus!
