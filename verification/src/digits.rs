//! Decimal rendering of integers, used to build bucket-index keys, with the
//! facts the bucketing laws need: the rendering can be read back, so distinct
//! numbers render to distinct strings.

use vstd::prelude::*;
use vstd::arithmetic::div_mod::lemma_fundamental_div_mod;
use vstd::string::StringExecFns;

verus! {

/// The character of one decimal digit.
pub open spec fn digit_char(d: nat) -> char {
    if d == 0 {
        '0'
    } else if d == 1 {
        '1'
    } else if d == 2 {
        '2'
    } else if d == 3 {
        '3'
    } else if d == 4 {
        '4'
    } else if d == 5 {
        '5'
    } else if d == 6 {
        '6'
    } else if d == 7 {
        '7'
    } else if d == 8 {
        '8'
    } else {
        '9'
    }
}

/// The value a digit character stands for.
pub open spec fn char_val(c: char) -> int {
    if c == '0' {
        0
    } else if c == '1' {
        1
    } else if c == '2' {
        2
    } else if c == '3' {
        3
    } else if c == '4' {
        4
    } else if c == '5' {
        5
    } else if c == '6' {
        6
    } else if c == '7' {
        7
    } else if c == '8' {
        8
    } else {
        9
    }
}

/// Decimal form of a nonnegative integer, most significant digit first,
/// without sign or leading zeros.
pub open spec fn dec_nat(n: nat) -> Seq<char>
    decreases n,
{
    if n < 10 {
        seq![digit_char(n)]
    } else {
        dec_nat(n / 10).push(digit_char(n % 10))
    }
}

/// Decimal form of an integer: a leading minus sign for negative numbers.
pub open spec fn dec_int(n: int) -> Seq<char> {
    if n >= 0 {
        dec_nat(n as nat)
    } else {
        seq!['-'] + dec_nat((-n) as nat)
    }
}

/// The number read back from a digit string, most significant digit first.
pub open spec fn val_nat(s: Seq<char>) -> int
    decreases s.len(),
{
    if s.len() == 0 {
        0
    } else {
        val_nat(s.drop_last()) * 10 + char_val(s.last())
    }
}

/// Reading a rendering back gives the number rendered.
pub proof fn lemma_val_dec_nat(n: nat)
    ensures
        val_nat(dec_nat(n)) == n,
    decreases n,
{
    if n < 10 {
        assert(dec_nat(n) == seq![digit_char(n)]);
        assert(seq![digit_char(n)].drop_last() =~= Seq::<char>::empty());
        assert(val_nat(Seq::<char>::empty()) == 0);
        assert(val_nat(dec_nat(n)) == char_val(digit_char(n)));
    } else {
        lemma_val_dec_nat(n / 10);
        assert(dec_nat(n) == dec_nat(n / 10).push(digit_char(n % 10)));
        assert(dec_nat(n / 10).push(digit_char(n % 10)).drop_last() =~= dec_nat(n / 10));
        assert(char_val(digit_char(n % 10)) == n % 10);
        lemma_fundamental_div_mod(n as int, 10);
    }
}

/// A rendering is never empty and opens with a digit character.
pub proof fn lemma_dec_nat_first(n: nat)
    ensures
        dec_nat(n).len() >= 1,
        exists|d: nat| d < 10 && dec_nat(n)[0] == digit_char(d),
    decreases n,
{
    if n < 10 {
        assert(n < 10 && dec_nat(n)[0] == digit_char(n));
    } else {
        lemma_dec_nat_first(n / 10);
        let d = choose|d: nat| d < 10 && dec_nat(n / 10)[0] == digit_char(d);
        assert(dec_nat(n)[0] == dec_nat(n / 10)[0]);
        assert(d < 10 && dec_nat(n)[0] == digit_char(d));
    }
}

/// Distinct integers render to distinct decimal strings.
pub proof fn lemma_dec_int_injective(a: int, b: int)
    ensures
        dec_int(a) == dec_int(b) ==> a == b,
{
    if dec_int(a) == dec_int(b) {
        if a >= 0 && b >= 0 {
            lemma_val_dec_nat(a as nat);
            lemma_val_dec_nat(b as nat);
        } else if a < 0 && b < 0 {
            let x = dec_nat((-a) as nat);
            let y = dec_nat((-b) as nat);
            assert((seq!['-'] + x).len() == (seq!['-'] + y).len());
            assert forall|i: int| 0 <= i < x.len() implies x[i] == y[i] by {
                assert(x[i] == (seq!['-'] + x)[i + 1]);
                assert(y[i] == (seq!['-'] + y)[i + 1]);
            }
            assert(x =~= y);
            lemma_val_dec_nat((-a) as nat);
            lemma_val_dec_nat((-b) as nat);
        } else if a >= 0 && b < 0 {
            lemma_dec_nat_first(a as nat);
            lemma_dec_nat_first((-b) as nat);
            assert(dec_int(b)[0] == '-');
            assert(false);
        } else {
            lemma_dec_nat_first(b as nat);
            lemma_dec_nat_first((-a) as nat);
            assert(dec_int(a)[0] == '-');
            assert(false);
        }
    }
}

/// The string of one decimal digit.
fn digit_str(d: u64) -> (r: &'static str)
    requires
        d < 10,
    ensures
        r@ == seq![digit_char(d as nat)],
{
    let r = if d == 0 {
        "0"
    } else if d == 1 {
        "1"
    } else if d == 2 {
        "2"
    } else if d == 3 {
        "3"
    } else if d == 4 {
        "4"
    } else if d == 5 {
        "5"
    } else if d == 6 {
        "6"
    } else if d == 7 {
        "7"
    } else if d == 8 {
        "8"
    } else {
        "9"
    };
    proof {
        reveal_strlit("0");
        reveal_strlit("1");
        reveal_strlit("2");
        reveal_strlit("3");
        reveal_strlit("4");
        reveal_strlit("5");
        reveal_strlit("6");
        reveal_strlit("7");
        reveal_strlit("8");
        reveal_strlit("9");
        assert(r@ =~= seq![digit_char(d as nat)]);
    }
    r
}

/// Appends the decimal form of `n` to `s`.
fn push_dec_u64(s: &mut String, n: u64)
    ensures
        final(s)@ == old(s)@ + dec_nat(n as nat),
    decreases n,
{
if n < 10 {
        s.append(digit_str(n));
        proof {
            assert(s@ =~= old(s)@ + dec_nat(n as nat));
        }
    } else {
        push_dec_u64(s, n / 10);
        s.append(digit_str(n % 10));
        proof {
            assert(s@ =~= old(s)@ + dec_nat(n as nat));
        }
    }
}

/// The decimal form of a signed number, with a minus sign when negative.
pub fn i64_to_string(n: i64) -> (r: String)
    ensures
        r@ == dec_int(n as int),
{
let mut s = String::new();
    if n >= 0 {
        push_dec_u64(&mut s, n as u64);
        proof {
            assert(s@ =~= dec_int(n as int));
        }
    } else {
        s.append("-");
        let m: u64 = if n == i64::MIN {
            9223372036854775808u64
        } else {
            (-n) as u64
        };
        assert(m as nat == (-(n as int)) as nat);
        push_dec_u64(&mut s, m);
        proof {
            reveal_strlit("-");
            assert(s@ =~= dec_int(n as int));
        }
    }
    s
}

} // verus!
