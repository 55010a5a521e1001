//! Rendering a byte count as human-readable text ("512 B", "1.50 KB"),
//! scaling by powers of 1024 up to terabytes.
//!
//! The scaled value is shown without decimals when the division is exact and
//! with two decimals otherwise, rounding half up.

use vstd::prelude::*;

verus! {

/// The decimal digit character for `d`.
pub open spec fn spec_digit_char(d: int) -> char {
    if d == 0 {
        '0'
    } else if d == 1 {
        '1'
    } else if d == 2 {
        '2'
    } else if d == 3 {
        '3'
    } else if d == 4 {
        '4'
    } else if d == 5 {
        '5'
    } else if d == 6 {
        '6'
    } else if d == 7 {
        '7'
    } else if d == 8 {
        '8'
    } else {
        '9'
    }
}

/// The decimal digits of `n`, most significant first.
pub open spec fn spec_dec_digits(n: nat) -> Seq<char>
    decreases n,
{
    if n < 10 {
        seq![spec_digit_char(n as int)]
    } else {
        spec_dec_digits(n / 10).push(spec_digit_char((n % 10) as int))
    }
}

/// The unit suffix for scale step `k`: bytes at 0, then KB, MB, GB, TB.
pub open spec fn spec_unit_suffix(k: int) -> Seq<char> {
    if k == 0 {
        " B"@
    } else if k == 1 {
        " KB"@
    } else if k == 2 {
        " MB"@
    } else if k == 3 {
        " GB"@
    } else {
        " TB"@
    }
}

/// How many scale steps of 1024 `bytes` takes, capped at terabytes.
pub open spec fn spec_size_scale(bytes: nat) -> int {
    if bytes < 0x400 {
        0
    } else if bytes < 0x100000 {
        1
    } else if bytes < 0x40000000 {
        2
    } else if bytes < 0x10000000000 {
        3
    } else {
        4
    }
}

/// The text `format_size` renders for `bytes`: the count scaled by 1024 to
/// the scale step, exact values without decimals, inexact ones with two
/// (rounded half up, a fraction that rounds to one carrying into the whole
/// part), and the unit suffix.
pub open spec fn spec_format_size(bytes: nat) -> Seq<char> {
    let k = spec_size_scale(bytes);
    let p = pow1024(k as nat);
    let whole = bytes / p;
    let rem = bytes % p;
    if rem == 0 {
        spec_dec_digits(whole) + spec_unit_suffix(k)
    } else {
        let centi = (rem * 100 + p / 2) / p;
        let carried_whole = if centi == 100 {
            whole + 1
        } else {
            whole
        };
        let carried_centi: nat = if centi == 100 {
            0
        } else {
            centi
        };
        spec_dec_digits(carried_whole) + "."@ + seq![spec_digit_char(carried_centi as int / 10)]
            + seq![spec_digit_char(carried_centi as int % 10)] + spec_unit_suffix(k)
    }
}

/// 1024 to the `n`.
pub open spec fn pow1024(n: nat) -> nat
    decreases n,
{
    if n == 0 {
        1
    } else {
        pow1024((n - 1) as nat) * 0x400
    }
}

/// The single-character string for a decimal digit.
fn digit_str(d: u8) -> (r: &'static str)
    requires
        d < 10,
    ensures
        r@ == seq![spec_digit_char(d as int)],
{
    proof {
        reveal_strlit("0");
        reveal_strlit("1");
        reveal_strlit("2");
        reveal_strlit("3");
        reveal_strlit("4");
        reveal_strlit("5");
        reveal_strlit("6");
        reveal_strlit("7");
        reveal_strlit("8");
        reveal_strlit("9");
    }
    match d {
        0 => "0",
        1 => "1",
        2 => "2",
        3 => "3",
        4 => "4",
        5 => "5",
        6 => "6",
        7 => "7",
        8 => "8",
        _ => "9",
    }
}

/// The decimal rendering of `n`, most significant digit first.
fn dec_string(n: u64) -> (r: String)
    ensures
        r@ == spec_dec_digits(n as nat),
    decreases n,
{
    if n < 10 {
        String::from_str(digit_str(n as u8))
    } else {
        let mut s = dec_string(n / 10);
        s.append(digit_str((n % 10) as u8));
        s
    }
}

/// The unit suffix for scale step `k`.
fn unit_suffix(k: u8) -> (r: &'static str)
    ensures
        r@ == spec_unit_suffix(k as int),
{
    match k {
        0 => " B",
        1 => " KB",
        2 => " MB",
        3 => " GB",
        _ => " TB",
    }
}

/// Render a byte count as text: "512 B", "1 KB", "1.50 KB", "2.25 MB".
pub fn format_size(bytes: usize) -> (r: String)
    ensures
        r@ == spec_format_size(bytes as nat),
{
    let b = bytes as u64;
    let (k, p): (u8, u64) = if b < 0x400 {
        (0, 1)
    } else if b < 0x100000 {
        (1, 0x400)
    } else if b < 0x40000000 {
        (2, 0x100000)
    } else if b < 0x10000000000 {
        (3, 0x40000000)
    } else {
        (4, 0x10000000000)
    };
    proof {
        reveal_with_fuel(pow1024, 5);
        assert(k as int == spec_size_scale(bytes as nat));
        assert(p as nat == pow1024(k as nat));
    }
    let whole = b / p;
    let rem = b % p;
    if rem == 0 {
        let mut s = dec_string(whole);
        s.append(unit_suffix(k));
        proof {
            assert(s@ =~= spec_format_size(bytes as nat));
        }
        s
    } else {
        let centi = (rem * 100 + p / 2) / p;
        let carried_whole = if centi == 100 {
            whole + 1
        } else {
            whole
        };
        let carried_centi = if centi == 100 {
            0
        } else {
            centi
        };
        let mut s = dec_string(carried_whole);
        s.append(".");
        s.append(digit_str((carried_centi / 10) as u8));
        s.append(digit_str((carried_centi % 10) as u8));
        s.append(unit_suffix(k));
        proof {
            assert(s@ =~= spec_format_size(bytes as nat));
        }
        s
    }
}

} // verus!
