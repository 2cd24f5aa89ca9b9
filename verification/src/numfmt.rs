use vstd::prelude::*;
use vstd::string::StringExecFns;

verus! {

/// The character for one decimal digit value.
pub open spec fn dec_digit(d: nat) -> char {
    if d == 0 {
        '0'
    } else if d == 1 {
        '1'
    } else if d == 2 {
        '2'
    } else if d == 3 {
        '3'
    } else if d == 4 {
        '4'
    } else if d == 5 {
        '5'
    } else if d == 6 {
        '6'
    } else if d == 7 {
        '7'
    } else if d == 8 {
        '8'
    } else {
        '9'
    }
}

/// The decimal numeral of `n`, most significant digit first, without leading
/// zeros; the numeral of zero is the single digit `0`.
pub open spec fn dec_str(n: nat) -> Seq<char>
    decreases n,
{
    if n < 10 {
        seq![dec_digit(n)]
    } else {
        dec_str(n / 10).push(dec_digit(n % 10))
    }
}

/// The text `true` or `false` for a flag.
pub open spec fn bool_str(b: bool) -> Seq<char> {
    if b {
        "true"@
    } else {
        "false"@
    }
}

/// The digits of `ds` read back to front, as characters: `ds` collects the
/// least significant digit first, so this is the numeral they spell.
pub open spec fn rev_digit_chars(ds: Seq<u8>) -> Seq<char> {
    Seq::new(ds.len(), |i: int| dec_digit(ds[ds.len() - 1 - i] as nat))
}

fn digit_str(d: u8) -> (s: &'static str)
    requires
        d < 10,
    ensures
        s@ == seq![dec_digit(d as nat)],
{
    proof {
        reveal_strlit("0");
        reveal_strlit("1");
        reveal_strlit("2");
        reveal_strlit("3");
        reveal_strlit("4");
        reveal_strlit("5");
        reveal_strlit("6");
        reveal_strlit("7");
        reveal_strlit("8");
        reveal_strlit("9");
    }
    let s: &'static str = if d == 0 {
        "0"
    } else if d == 1 {
        "1"
    } else if d == 2 {
        "2"
    } else if d == 3 {
        "3"
    } else if d == 4 {
        "4"
    } else if d == 5 {
        "5"
    } else if d == 6 {
        "6"
    } else if d == 7 {
        "7"
    } else if d == 8 {
        "8"
    } else {
        "9"
    };
    proof {
        assert(s@ =~= seq![dec_digit(d as nat)]);
    }
    s
}

/// Renders `n` in decimal, as `u128::to_string` would.
pub fn u128_to_dec_string(n: u128) -> (s: String)
    ensures
        s@ == dec_str(n as nat),
{
    let mut digits: Vec<u8> = Vec::new();
    let mut m: u128 = n;
    loop
        invariant_except_break
            forall|k: int| 0 <= k < digits@.len() ==> digits@[k] < 10,
            digits@.len() == 0 ==> m == n,
            digits@.len() > 0 ==> m > 0 && dec_str(n as nat) == dec_str(m as nat)
                + rev_digit_chars(digits@),
        ensures
            forall|k: int| 0 <= k < digits@.len() ==> digits@[k] < 10,
            dec_str(n as nat) == rev_digit_chars(digits@),
        decreases m,
    {
        let ghost ds0 = digits@;
        let ghost m0 = m as nat;
        proof {
            assert(m0 % 10 < 10) by (nonlinear_arith);
            assert(m0 >= 1 ==> m0 / 10 < m0) by (nonlinear_arith);
            assert(m0 < 10 ==> m0 % 10 == m0 && m0 / 10 == 0) by (nonlinear_arith);
        }
        let d: u8 = (m % 10) as u8;
        digits.push(d);
        m = m / 10;
        proof {
            let dc = dec_digit(d as nat);
            assert(rev_digit_chars(ds0.push(d)) =~= seq![dc] + rev_digit_chars(ds0));
            if m0 >= 10 {
                // Unfold one step of the numeral: the digit just taken is its last.
                assert(dec_str(m0) == dec_str(m0 / 10).push(dc));
                assert(dec_str(m0 / 10).push(dc) + rev_digit_chars(ds0) =~= dec_str(m0 / 10) + (
                seq![dc] + rev_digit_chars(ds0)));
                if ds0.len() == 0 {
                    assert(dec_str(n as nat) == dec_str(m0));
                    assert(dec_str(m0) =~= dec_str(m0 / 10) + seq![dc]);
                    assert(dec_str(n as nat) == dec_str(m as nat) + rev_digit_chars(digits@));
                } else {
                    assert(dec_str(n as nat) == dec_str(m0) + rev_digit_chars(ds0));
                    assert(dec_str(m0) + rev_digit_chars(ds0) =~= dec_str(m0 / 10).push(dc)
                        + rev_digit_chars(ds0));
                    assert(dec_str(n as nat) == dec_str(m as nat) + rev_digit_chars(digits@));
                }
            } else {
                // The whole of m0 was one digit: the numeral is complete.
                assert(dec_str(m0) == seq![dc]);
                if ds0.len() == 0 {
                    assert(dec_str(n as nat) =~= rev_digit_chars(digits@));
                } else {
                    assert(dec_str(n as nat) == seq![dc] + rev_digit_chars(ds0));
                    assert(dec_str(n as nat) =~= rev_digit_chars(digits@));
                }
            }
        }
        if m == 0 {
            break ;
        }
    }
    let mut s = String::new();
    let mut i: usize = 0;
    let len = digits.len();
    while i < len
        invariant
            i <= len,
            len == digits@.len(),
            forall|k: int| 0 <= k < digits@.len() ==> digits@[k] < 10,
            dec_str(n as nat) == rev_digit_chars(digits@),
            s@ == rev_digit_chars(digits@).take(i as int),
        decreases len - i,
    {
        let d = digits[len - 1 - i];
        let piece = digit_str(d);
        s.append(piece);
        proof {
            assert(rev_digit_chars(digits@)[i as int] == dec_digit(
                digits@[digits@.len() - 1 - i] as nat,
            ));
            assert(rev_digit_chars(digits@).take(i as int + 1) =~= rev_digit_chars(digits@).take(
                i as int,
            ).push(rev_digit_chars(digits@)[i as int]));
        }
        i = i + 1;
    }
    proof {
        assert(rev_digit_chars(digits@).take(len as int) =~= rev_digit_chars(digits@));
    }
    s
}

/// Renders `n` in decimal, as `u32::to_string` would.
pub fn u32_to_dec_string(n: u32) -> (s: String)
    ensures
        s@ == dec_str(n as nat),
{
    u128_to_dec_string(n as u128)
}

/// Renders a flag as `true` or `false`, as `bool::to_string` would.
pub fn bool_to_string(b: bool) -> (s: String)
    ensures
        s@ == bool_str(b),
{
    if b {
        String::from_str("true")
    } else {
        String::from_str("false")
    }
}

} // verus!
