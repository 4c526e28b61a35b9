use vstd::prelude::*;

verus! {

/// The character of one decimal digit.
pub open spec fn digit_char(d: nat) -> char {
    if d == 0 {
        '0'
    } else if d == 1 {
        '1'
    } else if d == 2 {
        '2'
    } else if d == 3 {
        '3'
    } else if d == 4 {
        '4'
    } else if d == 5 {
        '5'
    } else if d == 6 {
        '6'
    } else if d == 7 {
        '7'
    } else if d == 8 {
        '8'
    } else {
        '9'
    }
}

/// The decimal digits of `n`, most significant first, without leading
/// zeros (except for `n == 0` itself).
pub open spec fn dec_str(n: nat) -> Seq<char>
    decreases n,
{
    if n < 10 {
        seq![digit_char(n)]
    } else {
        dec_str(n / 10).push(digit_char(n % 10))
    }
}

/// One decimal digit as a string slice.
fn digit_str(d: u64) -> (r: &'static str)
    requires
        d < 10,
    ensures
        r@ =~= seq![digit_char(d as nat)],
{
    proof {
        reveal_strlit("0");
        reveal_strlit("1");
        reveal_strlit("2");
        reveal_strlit("3");
        reveal_strlit("4");
        reveal_strlit("5");
        reveal_strlit("6");
        reveal_strlit("7");
        reveal_strlit("8");
        reveal_strlit("9");
    }
    if d == 0 {
        "0"
    } else if d == 1 {
        "1"
    } else if d == 2 {
        "2"
    } else if d == 3 {
        "3"
    } else if d == 4 {
        "4"
    } else if d == 5 {
        "5"
    } else if d == 6 {
        "6"
    } else if d == 7 {
        "7"
    } else if d == 8 {
        "8"
    } else {
        "9"
    }
}

/// Writes `n` in decimal.
pub fn u64_to_string(n: u64) -> (r: String)
    ensures
        r@ == dec_str(n as nat),
    decreases n,
{
    if n < 10 {
        String::from_str(digit_str(n))
    } else {
        let mut s = u64_to_string(n / 10);
        s.append(digit_str(n % 10));
        proof {
            assert(dec_str((n / 10) as nat).push(digit_char((n % 10) as nat)) =~= dec_str(
                (n / 10) as nat,
            ) + seq![digit_char((n % 10) as nat)]);
        }
        s
    }
}

/// How many hundredths of `div` fit in `mag`, rounded to the nearest whole
/// number of hundredths, ties upwards: the whole multiples contribute
/// exactly, and the remainder is rounded on its own.
pub open spec fn spec_hundredths(mag: int, div: int) -> int {
    100 * (mag / div) + (200 * (mag % div) + div) / (2 * div)
}

/// `mag / div` written with two decimal places, rounded to the nearest
/// hundredth, ties upwards.
pub open spec fn scaled_chars(mag: int, div: int) -> Seq<char> {
    let h = spec_hundredths(mag, div);
    dec_str((h / 100) as nat) + seq!['.'] + (if h % 100 < 10 {
        seq!['0'] + dec_str((h % 100) as nat)
    } else {
        dec_str((h % 100) as nat)
    })
}

/// Writes `mag / div` with two decimal places.
fn scaled_string(mag: u64, div: u64) -> (r: String)
    requires
        1 <= div <= 0x100_0000_0000,
        mag as int / div as int <= 0x80_0000_0000,
    ensures
        r@ == scaled_chars(mag as int, div as int),
{
    let q = mag / div;
    let rem = mag % div;
    let hr = (200 * rem + div) / (2 * div);
    proof {
        assert(hr <= 100) by (nonlinear_arith)
            requires
                rem < div,
                1 <= div,
                hr == (200 * rem + div) / (2 * div),
        {}
        assert(q * 100 + hr == spec_hundredths(mag as int, div as int));
    }
    let h = q * 100 + hr;
    let whole = h / 100;
    let frac = h % 100;
    let mut s = u64_to_string(whole);
    proof {
        reveal_strlit(".");
        reveal_strlit("0");
        assert("."@ =~= seq!['.']);
        assert("0"@ =~= seq!['0']);
    }
    s.append(".");
    if frac < 10 {
        s.append("0");
        let d = u64_to_string(frac);
        s.append(d.as_str());
        proof {
            assert(s@ =~= scaled_chars(mag as int, div as int));
        }
        s
    } else {
        let d = u64_to_string(frac);
        s.append(d.as_str());
        proof {
            assert(s@ =~= scaled_chars(mag as int, div as int));
        }
        s
    }
}

/// The human-readable form of a byte count: whole bytes up to 1023, then
/// two-decimal kilo-, mega-, giga- and terabytes in steps of 1024, rounded
/// to the nearest hundredth with ties upwards.  A negative count — the
/// remote system may report one — falls to the terabyte arm with its sign
/// in front, as the widest unit is the catch-all for everything outside
/// the smaller ranges.
pub open spec fn spec_pretty_chars(bytes: int) -> Seq<char> {
    if 0 <= bytes <= 1023 {
        dec_str(bytes as nat) + seq![' ', 'B']
    } else if 1024 <= bytes <= 1048575 {
        scaled_chars(bytes, 1024) + seq![' ', 'K', 'B']
    } else if 1048576 <= bytes <= 1073741823 {
        scaled_chars(bytes, 1048576) + seq![' ', 'M', 'B']
    } else if 1073741824 <= bytes <= 1099511627775 {
        scaled_chars(bytes, 1073741824) + seq![' ', 'G', 'B']
    } else {
        (if bytes < 0 {
            seq!['-']
        } else {
            Seq::<char>::empty()
        }) + scaled_chars(vstd::math::abs(bytes) as int, 1099511627776) + seq![' ', 'T', 'B']
    }
}

/// Writes a byte count in human-readable form, choosing the unit by the
/// count's magnitude.
pub fn bytes_to_pretty_string(bytes: i64) -> (r: String)
    ensures
        r@ == spec_pretty_chars(bytes as int),
{
    proof {
        reveal_strlit(" B");
        reveal_strlit(" KB");
        reveal_strlit(" MB");
        reveal_strlit(" GB");
        reveal_strlit(" TB");
        reveal_strlit("-");
        assert(" B"@ =~= seq![' ', 'B']);
        assert(" KB"@ =~= seq![' ', 'K', 'B']);
        assert(" MB"@ =~= seq![' ', 'M', 'B']);
        assert(" GB"@ =~= seq![' ', 'G', 'B']);
        assert(" TB"@ =~= seq![' ', 'T', 'B']);
        assert("-"@ =~= seq!['-']);
    }
    if 0 <= bytes && bytes <= 1023 {
        let mut s = u64_to_string(bytes as u64);
        s.append(" B");
        proof {
            assert(s@ =~= spec_pretty_chars(bytes as int));
        }
        s
    } else if 1024 <= bytes && bytes <= 1048575 {
        let mut s = scaled_string(bytes as u64, 1024);
        s.append(" KB");
        proof {
            assert(s@ =~= spec_pretty_chars(bytes as int));
        }
        s
    } else if 1048576 <= bytes && bytes <= 1073741823 {
        let mut s = scaled_string(bytes as u64, 1048576);
        s.append(" MB");
        proof {
            assert(s@ =~= spec_pretty_chars(bytes as int));
        }
        s
    } else if 1073741824 <= bytes && bytes <= 1099511627775 {
        let mut s = scaled_string(bytes as u64, 1073741824);
        s.append(" GB");
        proof {
            assert(s@ =~= spec_pretty_chars(bytes as int));
        }
        s
    } else {
        let mag: u64 = if bytes < 0 {
            (-(bytes as i128)) as u64
        } else {
            bytes as u64
        };
        let mut s = if bytes < 0 {
            String::from_str("-")
        } else {
            String::new()
        };
        let scaled = scaled_string(mag, 1099511627776);
        s.append(scaled.as_str());
        s.append(" TB");
        proof {
            assert(s@ =~= spec_pretty_chars(bytes as int));
        }
        s
    }
}

} // verus!
