//! Byte counts for the reader: `0 B`, `1 KB`, `1.50 KB`, `1 TB`.
//!
//! A size is shown in the largest unit that does not exceed it, bytes up to
//! terabytes, each unit 1024 times the one before.  A whole number of units
//! is printed as it is; any other size is printed with two decimals, rounded
//! to the nearest hundredth, a tie going to the even one.  Sizes of 1024
//! terabytes and more are printed in terabytes with two decimals.

use crate::text::{decimal, decimal_string, digit_char};
use vstd::prelude::*;

verus! {

/// The number of units that make the next larger unit.
pub const STEP: u64 = 1024;

/// The index of the largest unit, the terabyte.
pub const LAST_UNIT: u64 = 4;

/// `1024` to the power `i`.
pub open spec fn pow1024(i: nat) -> nat
    decreases i,
{
    if i == 0 {
        1
    } else {
        1024 * pow1024((i - 1) as nat)
    }
}

/// How many times `size` can be divided by 1024 before it falls below 1024:
/// for a positive size, the `m` with `1024^m <= size < 1024^(m + 1)`.
pub open spec fn magnitude(size: nat) -> nat
    decreases size,
{
    if size < 1024 {
        0
    } else {
        1 + magnitude(size / 1024)
    }
}

/// The index of the unit in which `size` is shown.
pub open spec fn unit_index(size: nat) -> nat {
    if magnitude(size) > LAST_UNIT {
        LAST_UNIT as nat
    } else {
        magnitude(size)
    }
}

/// The name of the unit with index `i`.
pub open spec fn unit_name(i: nat) -> Seq<char> {
    if i == 0 {
        "B"@
    } else if i == 1 {
        "KB"@
    } else if i == 2 {
        "MB"@
    } else if i == 3 {
        "GB"@
    } else {
        "TB"@
    }
}

/// `size / scale` in hundredths, rounded to the nearest; a tie goes to the
/// even hundredth.
pub open spec fn hundredths(size: nat, scale: nat) -> nat
    recommends
        scale > 0,
{
    let whole = (size * 100) / scale;
    let left = (size * 100) % scale;
    if 2 * left > scale || (2 * left == scale && whole % 2 == 1) {
        whole + 1
    } else {
        whole
    }
}

/// A number of hundredths with two decimals: `150` is `1.50`.
pub open spec fn two_decimals(h: nat) -> Seq<char> {
    decimal(h / 100) + "."@ + seq![digit_char((h / 10) % 10), digit_char(h % 10)]
}

/// The number that stands before the unit.
pub open spec fn size_number(size: nat) -> Seq<char> {
    let scale = pow1024(unit_index(size));
    if magnitude(size) <= LAST_UNIT && size % scale == 0 {
        decimal(size / scale)
    } else {
        two_decimals(hundredths(size, scale))
    }
}

/// The size as the listing shows it: the number, a space, the unit.
pub open spec fn size_text(size: nat) -> Seq<char> {
    size_number(size) + " "@ + unit_name(unit_index(size))
}

/// The first powers of 1024.
pub proof fn lemma_pow1024_values()
    ensures
        pow1024(0) == 1,
        pow1024(1) == 1024,
        pow1024(2) == 1048576,
        pow1024(3) == 1073741824,
        pow1024(4) == 1099511627776,
{
    reveal_with_fuel(pow1024, 5);
}

/// A positive size lies between the power of 1024 of its magnitude and the
/// next one.
pub proof fn lemma_magnitude_bounds(size: nat)
    requires
        size > 0,
    ensures
        pow1024(magnitude(size)) <= size < pow1024(magnitude(size) + 1),
    decreases size,
{
    if size >= 1024 {
        lemma_magnitude_bounds(size / 1024);
    } else {
        reveal_with_fuel(pow1024, 2);
    }
}

/// The size as the listing shows it.
pub fn format_size(size: u64) -> (out: String)
    ensures
        out@ == size_text(size as nat),
{
    let mut index: u64 = 0;
    let mut rest: u64 = size;
    while rest >= STEP
        invariant
            index <= size - rest,
            magnitude(size as nat) == index + magnitude(rest as nat),
        decreases rest,
    {
        rest = rest / STEP;
        index = index + 1;
    }
    let capped = index > LAST_UNIT;
    let unit: u64 = if capped {
        LAST_UNIT
    } else {
        index
    };
    proof {
        lemma_pow1024_values();
    }
    let scale: u128 = if unit == 0 {
        1
    } else if unit == 1 {
        1024
    } else if unit == 2 {
        1048576
    } else if unit == 3 {
        1073741824
    } else {
        1099511627776
    };
    let name = if unit == 0 {
        "B"
    } else if unit == 1 {
        "KB"
    } else if unit == 2 {
        "MB"
    } else if unit == 3 {
        "GB"
    } else {
        "TB"
    };
    let wide = size as u128;
    let mut out = if !capped && wide % scale == 0 {
        decimal_string(wide / scale)
    } else {
        let scaled: u128 = wide * 100;
        let whole = scaled / scale;
        let left = scaled % scale;
        let h = if 2 * left > scale || (2 * left == scale && whole % 2 == 1) {
            whole + 1
        } else {
            whole
        };
        let mut number = decimal_string(h / 100);
        number.append(".");
        let tens: u8 = ((h / 10) % 10) as u8;
        let ones: u8 = (h % 10) as u8;
        number.push((48u8 + tens) as char);
        number.push((48u8 + ones) as char);
        number
    };
    out.append(" ");
    out.append(name);
    out
}

} // verus!
