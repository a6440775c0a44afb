//! The host-writable continuous parameters: amplitude and attack.
//!
//! Parameters are fixed-point integers in units of `1 / PARAM_UNIT`, so the
//! nominal range `[0, 1]` is `0 ..= PARAM_UNIT`. The engine performs no
//! validation or clamping: out-of-range values propagate as they are.

use vstd::prelude::*;

verus! {

/// Fixed-point scale for parameter values: a stored value `v` means
/// `v / PARAM_UNIT` in the host's normalized `[0, 1]` range.
pub const PARAM_UNIT: i64 = 1048576;

/// The default for both parameters: one half.
pub const PARAM_DEFAULT: i64 = 524288;

/// The two continuous parameters, in fixed-point units.
#[derive(Clone, Copy, Debug, PartialEq, Eq, Structural)]
pub struct Params {
    pub amplitude: i64,
    pub attack: i64,
}

impl Default for Params {
    /// Both parameters start at one half of the normalized range.
    fn default() -> (p: Params)
        ensures
            p == (Params { amplitude: PARAM_DEFAULT, attack: PARAM_DEFAULT }),
    {
        Params { amplitude: PARAM_DEFAULT, attack: PARAM_DEFAULT }
    }
}

/// The value read at a parameter index: 0 is the amplitude, 1 the attack,
/// and any other index reads a neutral zero.
pub open spec fn spec_get_parameter(p: Params, index: int) -> i64 {
    if index == 0 {
        p.amplitude
    } else if index == 1 {
        p.attack
    } else {
        0
    }
}

/// The store at a parameter index: 0 writes the amplitude, 1 the attack, and
/// any other index changes nothing.
pub open spec fn spec_set_parameter(p: Params, index: int, value: i64) -> Params {
    if index == 0 {
        Params { amplitude: value, ..p }
    } else if index == 1 {
        Params { attack: value, ..p }
    } else {
        p
    }
}

/// The decimal digit characters.
pub open spec fn digit_char(d: int) -> char {
    if d == 0 {
        '0'
    } else if d == 1 {
        '1'
    } else if d == 2 {
        '2'
    } else if d == 3 {
        '3'
    } else if d == 4 {
        '4'
    } else if d == 5 {
        '5'
    } else if d == 6 {
        '6'
    } else if d == 7 {
        '7'
    } else if d == 8 {
        '8'
    } else {
        '9'
    }
}

/// The decimal digits of `n`, most significant first, with no leading
/// zeroes (a single `'0'` for zero itself).
pub open spec fn spec_decimal_digits(n: nat) -> Seq<char>
    decreases n,
{
    if n < 10 {
        seq![digit_char(n as int)]
    } else {
        spec_decimal_digits(n / 10).push(digit_char((n % 10) as int))
    }
}

/// The display text of a stored parameter value `v`: the value rescaled
/// from its `[0, 1]` storage range to the `[-1, 1]` display range — that is,
/// `(v / PARAM_UNIT - 1/2) * 2` — written with two decimal places, the
/// hundredths rounded to nearest with ties away from zero, and a leading
/// minus sign exactly when the rescaled value is negative.
pub open spec fn spec_display_text(v: i64) -> Seq<char> {
    let m = (v as int) - 524288;
    let mag = if m >= 0 {
        m
    } else {
        -m
    };
    let h = (mag * 100 + 262144) / 524288;
    let sign: Seq<char> = if m < 0 {
        seq!['-']
    } else {
        Seq::empty()
    };
    sign + spec_decimal_digits((h / 100) as nat) + seq!['.'] + seq![
        digit_char((h % 100) / 10),
        digit_char(h % 10),
    ]
}

/// The display name at a parameter index; empty for an out-of-range index.
pub open spec fn spec_parameter_name(index: int) -> Seq<char> {
    if index == 0 {
        "Amplitude"@
    } else if index == 1 {
        "Attack"@
    } else {
        Seq::empty()
    }
}

/// The display text at a parameter index; empty for an out-of-range index.
pub open spec fn spec_parameter_text(p: Params, index: int) -> Seq<char> {
    if index == 0 {
        spec_display_text(p.amplitude)
    } else if index == 1 {
        spec_display_text(p.attack)
    } else {
        Seq::empty()
    }
}

/// The one-character string of a decimal digit.
fn digit_str(d: u64) -> (r: &'static str)
    requires
        d < 10,
    ensures
        r@ == seq![digit_char(d as int)],
{
    proof {
        reveal_strlit("0");
        reveal_strlit("1");
        reveal_strlit("2");
        reveal_strlit("3");
        reveal_strlit("4");
        reveal_strlit("5");
        reveal_strlit("6");
        reveal_strlit("7");
        reveal_strlit("8");
        reveal_strlit("9");
        assert("0"@ =~= seq!['0']);
        assert("1"@ =~= seq!['1']);
        assert("2"@ =~= seq!['2']);
        assert("3"@ =~= seq!['3']);
        assert("4"@ =~= seq!['4']);
        assert("5"@ =~= seq!['5']);
        assert("6"@ =~= seq!['6']);
        assert("7"@ =~= seq!['7']);
        assert("8"@ =~= seq!['8']);
        assert("9"@ =~= seq!['9']);
    }
    match d {
        0 => "0",
        1 => "1",
        2 => "2",
        3 => "3",
        4 => "4",
        5 => "5",
        6 => "6",
        7 => "7",
        8 => "8",
        _ => "9",
    }
}

/// Append the decimal digits of `n` to `s`, most significant first.
fn push_decimal_digits(s: &mut String, n: u64)
    ensures
        final(s)@ == old(s)@ + spec_decimal_digits(n as nat),
    decreases n,
{
    if n >= 10 {
        push_decimal_digits(s, n / 10);
        let d = digit_str(n % 10);
        s.append(d);
        proof {
            assert(spec_decimal_digits(n as nat) =~= spec_decimal_digits((n / 10) as nat)
                + seq![digit_char((n % 10) as int)]);
            assert(s@ =~= old(s)@ + spec_decimal_digits(n as nat));
        }
    } else {
        let d = digit_str(n);
        s.append(d);
    }
}

/// Write a stored parameter value in its display form: rescaled to the
/// `[-1, 1]` range and rounded to two decimal places (see
/// `spec_display_text`). A presentation-only transform — the stored value is
/// untouched.
pub fn format_display_value(v: i64) -> (r: String)
    ensures
        r@ == spec_display_text(v),
{
    let m: i128 = (v as i128) - 524288;
    let neg: bool = m < 0;
    let mag: i128 = if neg {
        -m
    } else {
        m
    };
    let h_wide: i128 = (mag * 100 + 262144) / 524288;
    let h: u64 = h_wide as u64;
    let mut s = String::new();
    if neg {
        s.append("-");
    }
    push_decimal_digits(&mut s, h / 100);
    s.append(".");
    let frac: u64 = (h % 100) / 10;
    s.append(digit_str(frac));
    s.append(digit_str(h % 10));
    proof {
        reveal_strlit("-");
        reveal_strlit(".");
        assert("-"@ =~= seq!['-']);
        assert("."@ =~= seq!['.']);
        assert(s@ =~= spec_display_text(v));
    }
    s
}

impl Params {
    /// Read the parameter at `index`; an out-of-range index reads zero
    /// rather than failing.
    pub fn get_parameter(&self, index: i32) -> (r: i64)
        ensures
            r == spec_get_parameter(*self, index as int),
    {
        if index == 0 {
            self.amplitude
        } else if index == 1 {
            self.attack
        } else {
            0
        }
    }

    /// Write the parameter at `index`; an out-of-range index is a no-op. The
    /// value is stored as given, without clamping.
    pub fn set_parameter(&mut self, index: i32, value: i64)
        ensures
            *final(self) == spec_set_parameter(*old(self), index as int, value),
    {
        if index == 0 {
            self.amplitude = value;
        } else if index == 1 {
            self.attack = value;
        }
    }

    /// The display name of the parameter at `index`: "Amplitude", "Attack",
    /// or the empty string for an out-of-range index.
    pub fn get_parameter_name(&self, index: i32) -> (r: String)
        ensures
            r@ == spec_parameter_name(index as int),
    {
        if index == 0 {
            String::from_str("Amplitude")
        } else if index == 1 {
            String::from_str("Attack")
        } else {
            String::new()
        }
    }

    /// The display text of the parameter at `index`: its value rescaled to
    /// the `[-1, 1]` display range with two decimal places, or the empty
    /// string for an out-of-range index.
    pub fn get_parameter_text(&self, index: i32) -> (r: String)
        ensures
            r@ == spec_parameter_text(*self, index as int),
    {
        if index == 0 {
            format_display_value(self.amplitude)
        } else if index == 1 {
            format_display_value(self.attack)
        } else {
            String::new()
        }
    }
}

} // verus!
