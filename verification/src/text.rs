use vstd::prelude::*;

verus! {

/// The character of a decimal digit.
pub open spec fn digit_char(d: int) -> char {
    if d == 0 {
        '0'
    } else if d == 1 {
        '1'
    } else if d == 2 {
        '2'
    } else if d == 3 {
        '3'
    } else if d == 4 {
        '4'
    } else if d == 5 {
        '5'
    } else if d == 6 {
        '6'
    } else if d == 7 {
        '7'
    } else if d == 8 {
        '8'
    } else {
        '9'
    }
}

/// The decimal digits of `n`, most significant first, without leading zeros.
pub open spec fn decimal(n: nat) -> Seq<char>
    decreases n,
{
    if n < 10 {
        seq![digit_char(n as int)]
    } else {
        decimal(n / 10).push(digit_char((n % 10) as int))
    }
}

/// `n` in decimal, padded with a leading zero to at least two digits.
pub open spec fn zero_padded2(n: nat) -> Seq<char> {
    if n < 10 {
        seq!['0'] + decimal(n)
    } else {
        decimal(n)
    }
}

fn digit_str(d: u64) -> (text: &'static str)
    requires
        d < 10,
    ensures
        text@ == seq![digit_char(d as int)],
{
    if d == 0 {
        proof { reveal_strlit("0"); }
        "0"
    } else if d == 1 {
        proof { reveal_strlit("1"); }
        "1"
    } else if d == 2 {
        proof { reveal_strlit("2"); }
        "2"
    } else if d == 3 {
        proof { reveal_strlit("3"); }
        "3"
    } else if d == 4 {
        proof { reveal_strlit("4"); }
        "4"
    } else if d == 5 {
        proof { reveal_strlit("5"); }
        "5"
    } else if d == 6 {
        proof { reveal_strlit("6"); }
        "6"
    } else if d == 7 {
        proof { reveal_strlit("7"); }
        "7"
    } else if d == 8 {
        proof { reveal_strlit("8"); }
        "8"
    } else {
        proof { reveal_strlit("9"); }
        "9"
    }
}

/// Appends the decimal digits of `n` to `out`.
pub fn push_decimal(out: &mut String, n: u64)
    ensures
        final(out)@ == old(out)@ + decimal(n as nat),
    decreases n,
{
    if n >= 10 {
        push_decimal(out, n / 10);
    }
    out.append(digit_str(n % 10));
    proof {
        if n >= 10 {
            assert(old(out)@ + decimal(n as nat) =~= old(out)@ + decimal((n / 10) as nat) + seq![
                digit_char((n % 10) as int),
            ]);
        } else {
            assert(old(out)@ + decimal(n as nat) =~= old(out)@ + seq![digit_char((n % 10) as int)]);
        }
    }
}

/// Appends `n` to `out`, padded with a leading zero to at least two digits.
pub fn push_zero_padded2(out: &mut String, n: u64)
    ensures
        final(out)@ == old(out)@ + zero_padded2(n as nat),
{
    if n < 10 {
        out.append(digit_str(0));
        assert(seq![digit_char(0)] == seq!['0']);
    }
    push_decimal(out, n);
    proof {
        if n < 10 {
            assert(old(out)@ + zero_padded2(n as nat) =~= old(out)@ + seq!['0'] + decimal(n as nat));
        }
    }
}

/// The decimal text of `n`.
pub fn decimal_string(n: u64) -> (text: String)
    ensures
        text@ == decimal(n as nat),
{
    let mut out = String::new();
    push_decimal(&mut out, n);
    assert(out@ =~= decimal(n as nat));
    out
}


/// The number a decimal digit character stands for: its distance from `'0'`.
pub open spec fn digit_value(c: char) -> int {
    (c as int) - ('0' as int)
}

/// Whether a character is one of `'0'` to `'9'`.
pub open spec fn is_digit(c: char) -> bool {
    '0' as int <= c as int <= '9' as int
}

/// The number that a string of decimal digits stands for, read in base ten.
pub open spec fn decimal_value(digits: Seq<char>) -> int
    decreases digits.len(),
{
    if digits.len() == 0 {
        0
    } else {
        decimal_value(digits.drop_last()) * 10 + digit_value(digits.last())
    }
}

/// The character given for a digit is that digit: `'0'` plus the digit.
pub proof fn lemma_digit_char_is_digit(d: int)
    requires
        0 <= d < 10,
    ensures
        digit_char(d) as int == '0' as int + d,
        is_digit(digit_char(d)),
        digit_value(digit_char(d)) == d,
{
}

/// The decimal text of `n` is made of digits and reads back as `n`; it has
/// one digit below ten and two from ten to ninety-nine.
pub proof fn lemma_decimal_reads_back(n: nat)
    ensures
        decimal_value(decimal(n)) == n,
        forall|i: int| 0 <= i < decimal(n).len() ==> is_digit(#[trigger] decimal(n)[i]),
        decimal(n).len() >= 1,
        n < 10 ==> decimal(n).len() == 1,
        10 <= n < 100 ==> decimal(n).len() == 2,
        n >= 10 ==> decimal(n).len() >= 2,
    decreases n,
{
    if n < 10 {
        lemma_digit_char_is_digit(n as int);
        assert(decimal(n).drop_last() =~= Seq::<char>::empty());
        assert(decimal_value(Seq::<char>::empty()) == 0);
        assert(decimal_value(decimal(n)) == 0 * 10 + digit_value(digit_char(n as int)));
    } else {
        lemma_decimal_reads_back(n / 10);
        lemma_digit_char_is_digit((n % 10) as int);
        assert(decimal(n).drop_last() =~= decimal(n / 10));
        assert(decimal(n).last() == digit_char((n % 10) as int));
        assert(decimal_value(decimal(n)) == decimal_value(decimal(n / 10)) * 10 + digit_value(
            digit_char((n % 10) as int),
        ));
        assert(n == (n / 10) * 10 + n % 10);
    }
}

/// The zero-padded text of `n` is made of digits, is at least two long
/// (exactly two below a hundred) and reads back as `n`.
pub proof fn lemma_zero_padded2_reads_back(n: nat)
    ensures
        decimal_value(zero_padded2(n)) == n,
        forall|i: int| 0 <= i < zero_padded2(n).len() ==> is_digit(#[trigger] zero_padded2(n)[i]),
        zero_padded2(n).len() >= 2,
        n < 100 ==> zero_padded2(n).len() == 2,
{
    lemma_decimal_reads_back(n);
    if n < 10 {
        let padded = zero_padded2(n);
        let zero = seq!['0'];
        assert(padded =~= seq!['0', digit_char(n as int)]);
        assert(padded.drop_last() =~= zero);
        assert(zero.drop_last() =~= Seq::<char>::empty());
        assert(decimal_value(Seq::<char>::empty()) == 0);
        assert(decimal_value(zero) == 0);
        lemma_digit_char_is_digit(n as int);
    }
}

} // verus!
