use vstd::prelude::*;
use crate::text::push_all;

verus! {

/// The character that writes the digit `d`.
pub open spec fn digit_char(d: nat) -> char
    recommends
        d < 10,
{
    ('0' as nat + d) as char
}

/// The decimal numeral of `n`, without leading zeros (`"0"` for zero).
pub open spec fn decimal_digits(n: nat) -> Seq<char>
    decreases n,
{
    if n < 10 {
        seq![digit_char(n)]
    } else {
        decimal_digits(n / 10).push(digit_char(n % 10))
    }
}

/// The decimal numeral of `n`, with zeros in front until it is `width` long.
/// A numeral that is already that long is left as it is.
pub open spec fn zero_padded(n: nat, width: nat) -> Seq<char> {
    let digits = decimal_digits(n);
    if digits.len() >= width {
        digits
    } else {
        Seq::new((width - digits.len()) as nat, |i: int| '0') + digits
    }
}

/// The number that a sequence of digits writes in base ten.
pub open spec fn decimal_value(digits: Seq<char>) -> nat
    decreases digits.len(),
{
    if digits.len() == 0 {
        0
    } else {
        (decimal_value(digits.drop_last()) * 10 + (digits.last() as nat - '0' as nat)) as nat
    }
}

/// The numeral of `n` is made of digits, is not empty, begins with a zero only
/// for zero itself, and writes `n`.
pub proof fn lemma_decimal_digits(n: nat)
    ensures
        decimal_digits(n).len() >= 1,
        forall|i: int|
            0 <= i < decimal_digits(n).len() ==> '0' <= #[trigger] decimal_digits(n)[i] <= '9',
        n > 0 ==> decimal_digits(n)[0] != '0',
        decimal_value(decimal_digits(n)) == n,
    decreases n,
{
    let digits = decimal_digits(n);
    if n < 10 {
        assert(digits.drop_last() =~= Seq::<char>::empty());
        assert(decimal_value(digits.drop_last()) == 0);
        assert(digits.last() as nat == '0' as nat + n);
    } else {
        lemma_decimal_digits(n / 10);
        let front = decimal_digits(n / 10);
        assert(digits.drop_last() =~= front);
        assert(digits[0] == front[0]);
        assert(digits.last() as nat == '0' as nat + n % 10);
        assert(decimal_value(digits) == decimal_value(front) * 10 + n % 10);
    }
}

/// Zeros in front change the length of a numeral, not the number it writes:
/// the padded numeral of `n` is as long as the wider of `width` and the plain
/// numeral, and it writes `n`.
pub proof fn lemma_zero_padded(n: nat, width: nat)
    ensures
        zero_padded(n, width).len() == if decimal_digits(n).len() >= width {
            decimal_digits(n).len()
        } else {
            width
        },
        decimal_value(zero_padded(n, width)) == n,
{
    lemma_decimal_digits(n);
    let digits = decimal_digits(n);
    if digits.len() < width {
        lemma_leading_zeros((width - digits.len()) as nat, digits);
    }
}

/// Zeros in front of a sequence of digits do not change the number it writes.
proof fn lemma_leading_zeros(zeros: nat, digits: Seq<char>)
    ensures
        decimal_value(Seq::new(zeros, |i: int| '0') + digits) == decimal_value(digits),
    decreases digits.len(),
{
    let front = Seq::new(zeros, |i: int| '0');
    if digits.len() == 0 {
        assert(front + digits =~= front);
        lemma_only_zeros(zeros);
    } else {
        lemma_leading_zeros(zeros, digits.drop_last());
        assert((front + digits).drop_last() =~= front + digits.drop_last());
    }
}

/// A sequence of zeros writes zero.
proof fn lemma_only_zeros(zeros: nat)
    ensures
        decimal_value(Seq::new(zeros, |i: int| '0')) == 0,
    decreases zeros,
{
    if zeros > 0 {
        lemma_only_zeros((zeros - 1) as nat);
        assert(Seq::new(zeros, |i: int| '0').drop_last() =~= Seq::new(
            (zeros - 1) as nat,
            |i: int| '0',
        ));
    }
}

/// Appends the decimal numeral of `n` to `out`.
pub fn push_decimal(out: &mut Vec<char>, n: u64)
    ensures
        final(out)@ == old(out)@ + decimal_digits(n as nat),
    decreases n,
{
    if n >= 10 {
        push_decimal(out, n / 10);
    }
    let digit: u8 = (n % 10) as u8;
    out.push(('0' as u8 + digit) as char);
}

/// Appends the decimal numeral of `n` to `out`, with zeros in front until the
/// numeral is `width` long.
pub fn push_zero_padded(out: &mut Vec<char>, n: u64, width: usize)
    ensures
        final(out)@ == old(out)@ + zero_padded(n as nat, width as nat),
{
    let mut digits: Vec<char> = Vec::new();
    push_decimal(&mut digits, n);
    let ghost before = out@;
    let mut written: usize = digits.len();
    while written < width
        invariant
            digits@ == decimal_digits(n as nat),
            digits.len() <= written,
            written <= width || written == digits.len(),
            out@ == before + Seq::new((written - digits.len()) as nat, |i: int| '0'),
        decreases width - written,
    {
        out.push('0');
        written += 1;
    }
    push_all(out, &digits);
}

} // verus!
