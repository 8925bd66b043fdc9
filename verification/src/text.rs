//! Verified decimal rendering: the textual form of a scalar, used by the
//! bracketed display form of the vector types and by the test-runner
//! protocol's counters.

use vstd::prelude::*;

verus! {

/// The character for one decimal digit value.
pub open spec fn digit_char(d: nat) -> char {
    if d == 0 {
        '0'
    } else if d == 1 {
        '1'
    } else if d == 2 {
        '2'
    } else if d == 3 {
        '3'
    } else if d == 4 {
        '4'
    } else if d == 5 {
        '5'
    } else if d == 6 {
        '6'
    } else if d == 7 {
        '7'
    } else if d == 8 {
        '8'
    } else {
        '9'
    }
}

/// The decimal digit string of a natural number, most significant digit
/// first, with no leading zeroes (a single `'0'` for zero).
pub open spec fn dec_digits(n: nat) -> Seq<char>
    decreases n,
{
    if n < 10 {
        seq![digit_char(n)]
    } else {
        dec_digits(n / 10) + seq![digit_char(n % 10)]
    }
}

/// The decimal string of an integer: a leading `'-'` for a negative value,
/// then the digit string of its magnitude.
pub open spec fn int_digits(n: int) -> Seq<char> {
    if n < 0 {
        seq!['-'] + dec_digits((-n) as nat)
    } else {
        dec_digits(n as nat)
    }
}

/// One digit as a string.
fn digit_str(d: u64) -> (s: String)
    requires
        d < 10,
    ensures
        s@ == seq![digit_char(d as nat)],
{
    if d == 0 {
        let s = String::from_str("0");
        proof {
            reveal_strlit("0");
            assert(s@ =~= seq![digit_char(d as nat)]);
        }
        s
    } else if d == 1 {
        let s = String::from_str("1");
        proof {
            reveal_strlit("1");
            assert(s@ =~= seq![digit_char(d as nat)]);
        }
        s
    } else if d == 2 {
        let s = String::from_str("2");
        proof {
            reveal_strlit("2");
            assert(s@ =~= seq![digit_char(d as nat)]);
        }
        s
    } else if d == 3 {
        let s = String::from_str("3");
        proof {
            reveal_strlit("3");
            assert(s@ =~= seq![digit_char(d as nat)]);
        }
        s
    } else if d == 4 {
        let s = String::from_str("4");
        proof {
            reveal_strlit("4");
            assert(s@ =~= seq![digit_char(d as nat)]);
        }
        s
    } else if d == 5 {
        let s = String::from_str("5");
        proof {
            reveal_strlit("5");
            assert(s@ =~= seq![digit_char(d as nat)]);
        }
        s
    } else if d == 6 {
        let s = String::from_str("6");
        proof {
            reveal_strlit("6");
            assert(s@ =~= seq![digit_char(d as nat)]);
        }
        s
    } else if d == 7 {
        let s = String::from_str("7");
        proof {
            reveal_strlit("7");
            assert(s@ =~= seq![digit_char(d as nat)]);
        }
        s
    } else if d == 8 {
        let s = String::from_str("8");
        proof {
            reveal_strlit("8");
            assert(s@ =~= seq![digit_char(d as nat)]);
        }
        s
    } else {
        let s = String::from_str("9");
        proof {
            reveal_strlit("9");
            assert(s@ =~= seq![digit_char(d as nat)]);
        }
        s
    }
}

/// The decimal string of an unsigned scalar.
pub fn u64_to_string(n: u64) -> (s: String)
    ensures
        s@ == dec_digits(n as nat),
    decreases n,
{
    if n < 10 {
        digit_str(n)
    } else {
        let mut s = u64_to_string(n / 10);
        let last = digit_str(n % 10);
        s.append(last.as_str());
        proof {
            assert(s@ =~= dec_digits(n as nat));
        }
        s
    }
}

/// The decimal string of a count.
pub fn usize_to_string(n: usize) -> (s: String)
    ensures
        s@ == dec_digits(n as nat),
{
    u64_to_string(n as u64)
}

/// The decimal string of a signed scalar, `'-'`-prefixed when negative.
/// The most negative value has no representable magnitude and is excluded.
pub fn i64_to_string(n: i64) -> (s: String)
    requires
        n > i64::MIN,
    ensures
        s@ == int_digits(n as int),
{
    if n < 0 {
        let mut s = String::from_str("-");
        let mag = u64_to_string((-n) as u64);
        s.append(mag.as_str());
        proof {
            reveal_strlit("-");
            assert(s@ =~= int_digits(n as int));
        }
        s
    } else {
        u64_to_string(n as u64)
    }
}

/// The display form of three scalars: `[x, y, z]`.
pub open spec fn bracketed3(x: int, y: int, z: int) -> Seq<char> {
    seq!['['] + int_digits(x) + seq![',', ' '] + int_digits(y) + seq![',', ' '] + int_digits(z)
        + seq![']']
}

/// The display form of four scalars: `[x, y, z, w]`.
pub open spec fn bracketed4(x: int, y: int, z: int, w: int) -> Seq<char> {
    seq!['['] + int_digits(x) + seq![',', ' '] + int_digits(y) + seq![',', ' '] + int_digits(z)
        + seq![',', ' '] + int_digits(w) + seq![']']
}

/// Renders `[x, y, z]` with default numeric formatting.
pub fn bracketed3_string(x: i64, y: i64, z: i64) -> (s: String)
    requires
        x > i64::MIN,
        y > i64::MIN,
        z > i64::MIN,
    ensures
        s@ == bracketed3(x as int, y as int, z as int),
{
    let mut s = String::from_str("[");
    let sx = i64_to_string(x);
    s.append(sx.as_str());
    s.append(", ");
    let sy = i64_to_string(y);
    s.append(sy.as_str());
    s.append(", ");
    let sz = i64_to_string(z);
    s.append(sz.as_str());
    s.append("]");
    proof {
        reveal_strlit("[");
        reveal_strlit(", ");
        reveal_strlit("]");
        assert(s@ =~= bracketed3(x as int, y as int, z as int));
    }
    s
}

/// Renders `[x, y, z, w]` with default numeric formatting.
pub fn bracketed4_string(x: i64, y: i64, z: i64, w: i64) -> (s: String)
    requires
        x > i64::MIN,
        y > i64::MIN,
        z > i64::MIN,
        w > i64::MIN,
    ensures
        s@ == bracketed4(x as int, y as int, z as int, w as int),
{
    let mut s = String::from_str("[");
    let sx = i64_to_string(x);
    s.append(sx.as_str());
    s.append(", ");
    let sy = i64_to_string(y);
    s.append(sy.as_str());
    s.append(", ");
    let sz = i64_to_string(z);
    s.append(sz.as_str());
    s.append(", ");
    let sw = i64_to_string(w);
    s.append(sw.as_str());
    s.append("]");
    proof {
        reveal_strlit("[");
        reveal_strlit(", ");
        reveal_strlit("]");
        assert(s@ =~= bracketed4(x as int, y as int, z as int, w as int));
    }
    s
}

} // verus!
