//! Decimal digit strings: the mathematical model of base-ten notation,
//! with verified formatting and parsing of unsigned integers.

use vstd::prelude::*;

verus! {

/// The numeric value of a decimal digit character; 10 for any other
/// character, so that `digit_val(c) < 10` characterizes digits.
pub open spec fn digit_val(c: char) -> nat {
    match c {
        '0' => 0,
        '1' => 1,
        '2' => 2,
        '3' => 3,
        '4' => 4,
        '5' => 5,
        '6' => 6,
        '7' => 7,
        '8' => 8,
        '9' => 9,
        _ => 10,
    }
}

/// Whether `c` is a decimal digit character.
pub open spec fn is_digit(c: char) -> bool {
    digit_val(c) < 10
}

/// The digit character with value `d` (for `d < 10`).
pub open spec fn digit_char(d: nat) -> char {
    if d == 0 {
        '0'
    } else if d == 1 {
        '1'
    } else if d == 2 {
        '2'
    } else if d == 3 {
        '3'
    } else if d == 4 {
        '4'
    } else if d == 5 {
        '5'
    } else if d == 6 {
        '6'
    } else if d == 7 {
        '7'
    } else if d == 8 {
        '8'
    } else {
        '9'
    }
}

/// The canonical (no leading zero) decimal notation of `n`.
pub open spec fn dec_digits(n: nat) -> Seq<char>
    decreases n,
{
    if n < 10 {
        seq![digit_char(n)]
    } else {
        dec_digits(n / 10).push(digit_char(n % 10))
    }
}

/// The value of a string of digit characters, read in base ten.
pub open spec fn digits_val(s: Seq<char>) -> nat
    decreases s.len(),
{
    if s.len() == 0 {
        0
    } else {
        digits_val(s.drop_last()) * 10 + digit_val(s.last())
    }
}

/// Whether every character of `s` is a decimal digit.
pub open spec fn all_digits(s: Seq<char>) -> bool {
    forall|i: int| 0 <= i < s.len() ==> is_digit(#[trigger] s[i])
}

/// The value of a one-character digit string.
proof fn lemma_digits_val_singleton(c: char)
    ensures
        digits_val(seq![c]) == digit_val(c),
{
    assert(seq![c].drop_last() =~= Seq::<char>::empty());
    assert(digits_val(Seq::<char>::empty()) == 0);
    assert(seq![c].last() == c);
}

/// Reading back the canonical notation of `n` yields `n`.
pub proof fn lemma_digits_round_trip(n: nat)
    ensures
        digits_val(dec_digits(n)) == n,
    decreases n,
{
    if n < 10 {
        lemma_digits_val_singleton(digit_char(n));
        assert(dec_digits(n) == seq![digit_char(n)]);
        assert(digit_val(digit_char(n)) == n);
    } else {
        lemma_digits_round_trip(n / 10);
        assert(dec_digits(n).drop_last() =~= dec_digits(n / 10));
        assert(digits_val(dec_digits(n)) == digits_val(dec_digits(n / 10)) * 10 + digit_val(
            digit_char(n % 10),
        ));
        assert(digit_val(digit_char(n % 10)) == n % 10);
        assert(n == (n / 10) * 10 + n % 10) by (nonlinear_arith);
    }
}

/// The canonical notation consists of digit characters only.
pub proof fn lemma_dec_digits_are_digits(n: nat)
    ensures
        all_digits(dec_digits(n)),
        dec_digits(n).len() >= 1,
    decreases n,
{
    if n >= 10 {
        lemma_dec_digits_are_digits(n / 10);
    }
}

/// Append the digit character with value `d` to `s`.
fn push_digit_char(s: &mut String, d: u128)
    requires
        d < 10,
    ensures
        final(s)@ == old(s)@.push(digit_char(d as nat)),
{
    proof {
        reveal_strlit("0");
        reveal_strlit("1");
        reveal_strlit("2");
        reveal_strlit("3");
        reveal_strlit("4");
        reveal_strlit("5");
        reveal_strlit("6");
        reveal_strlit("7");
        reveal_strlit("8");
        reveal_strlit("9");
    }
    match d {
        0 => s.append("0"),
        1 => s.append("1"),
        2 => s.append("2"),
        3 => s.append("3"),
        4 => s.append("4"),
        5 => s.append("5"),
        6 => s.append("6"),
        7 => s.append("7"),
        8 => s.append("8"),
        _ => s.append("9"),
    }
    proof {
        assert(s@ =~= old(s)@.push(digit_char(d as nat)));
    }
}

/// The characters of `ds`, each read as a digit, in reverse order.
spec fn rev_digit_chars(ds: Seq<u128>) -> Seq<char> {
    Seq::new(ds.len(), |i: int| digit_char(ds[ds.len() - 1 - i] as nat))
}

/// Append the canonical decimal notation of `n` to `out`.
pub fn append_u128_decimal(out: &mut String, n: u128)
    ensures
        final(out)@ == old(out)@ + dec_digits(n as nat),
{
    let mut stack: Vec<u128> = Vec::new();
    let mut m: u128 = n;
    while m >= 10
        invariant
            dec_digits(n as nat) =~= dec_digits(m as nat) + rev_digit_chars(stack@),
            forall|i: int| 0 <= i < stack@.len() ==> #[trigger] stack@[i] < 10,
        decreases m,
    {
        let ghost prev = m;
        let ghost prev_stack = stack@;
        stack.push(m % 10);
        m = m / 10;
        proof {
            assert(rev_digit_chars(prev_stack.push(prev % 10)) =~= seq![
                digit_char((prev % 10) as nat),
            ] + rev_digit_chars(prev_stack));
            assert(dec_digits(prev as nat) =~= dec_digits((prev / 10) as nat).push(
                digit_char((prev % 10) as nat),
            ));
            assert(dec_digits(m as nat) + rev_digit_chars(stack@) =~= dec_digits(prev as nat)
                + rev_digit_chars(prev_stack));
        }
    }
    push_digit_char(out, m);
    let ghost mid = out@;
    proof {
        assert(mid =~= old(out)@ + dec_digits(m as nat));
    }
    let mut i: usize = stack.len();
    while i > 0
        invariant
            i <= stack@.len(),
            forall|j: int| 0 <= j < stack@.len() ==> #[trigger] stack@[j] < 10,
            out@ =~= mid + rev_digit_chars(stack@.subrange(i as int, stack@.len() as int)),
        decreases i,
    {
        let ghost before = out@;
        let d = stack[i - 1];
        push_digit_char(out, d);
        i = i - 1;
        proof {
            assert(rev_digit_chars(stack@.subrange(i as int, stack@.len() as int)) =~= rev_digit_chars(
                stack@.subrange(i as int + 1, stack@.len() as int),
            ).push(digit_char(stack@[i as int] as nat)));
            assert(out@ =~= mid + rev_digit_chars(
                stack@.subrange(i as int, stack@.len() as int),
            ));
        }
    }
    proof {
        assert(stack@.subrange(0, stack@.len() as int) =~= stack@);
        assert(out@ =~= old(out)@ + dec_digits(n as nat));
    }
}

/// The canonical decimal notation of `n`.
pub fn u128_to_decimal(n: u128) -> (r: String)
    ensures
        r@ == dec_digits(n as nat),
{
    let mut s = String::new();
    append_u128_decimal(&mut s, n);
    proof {
        assert(s@ =~= dec_digits(n as nat));
    }
    s
}

/// The canonical decimal notation of `n`.
pub fn u64_to_decimal(n: u64) -> (r: String)
    ensures
        r@ == dec_digits(n as nat),
{
    u128_to_decimal(n as u128)
}

/// The numeric value of the digit character `c`; 10 if `c` is no digit.
pub fn digit_val_of(c: char) -> (r: u64)
    ensures
        r == digit_val(c),
{
    match c {
        '0' => 0,
        '1' => 1,
        '2' => 2,
        '3' => 3,
        '4' => 4,
        '5' => 5,
        '6' => 6,
        '7' => 7,
        '8' => 8,
        '9' => 9,
        _ => 10,
    }
}

} // verus!
