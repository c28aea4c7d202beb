//! Text that ends up in file names and addresses: decimal numbers and lower-case symbols.

use vstd::arithmetic::power::pow;
use vstd::prelude::*;

verus! {

/// `String::push` appends the given character to the end of the string.
pub assume_specification[ String::push ](s: &mut String, c: char)
    ensures
        final(s)@ == old(s)@.push(c),
;

/// The character of a decimal digit.
pub open spec fn digit_char(d: int) -> char {
    (('0' as u32) + d) as char
}

/// The decimal notation of `n`, without leading zeros.
pub open spec fn decimal(n: nat) -> Seq<char>
    decreases n,
{
    if n < 10 {
        seq![digit_char(n as int)]
    } else {
        decimal(n / 10).push(digit_char((n % 10) as int))
    }
}

/// The decimal notation of `n`, filled up with zeros on the left to at least `width` characters.
pub open spec fn padded_decimal(n: nat, width: nat) -> Seq<char> {
    let digits = decimal(n);
    if digits.len() >= width {
        digits
    } else {
        Seq::new((width - digits.len()) as nat, |i: int| '0') + digits
    }
}

/// The lower-case form of an ASCII letter; other characters stay as they are.
pub open spec fn lower_char(c: char) -> char {
    if 'A' <= c <= 'Z' {
        ((c as u32) + 32) as char
    } else {
        c
    }
}

/// The text with every ASCII letter in lower case.
pub open spec fn lower(s: Seq<char>) -> Seq<char> {
    Seq::new(s.len(), |i: int| lower_char(s[i]))
}

/// The number of decimal digits of `n`, minus one: the integer logarithm to base ten.
pub open spec fn log10(n: nat) -> nat
    decreases n,
{
    if n < 10 {
        0
    } else {
        1 + log10(n / 10)
    }
}

/// A decimal notation has one digit more than the logarithm says.
pub proof fn lemma_decimal_length(n: nat)
    ensures
        decimal(n).len() == log10(n) + 1,
    decreases n,
{
    if n >= 10 {
        lemma_decimal_length(n / 10);
    }
}

/// The number that a text of decimal digits stands for.
pub open spec fn decimal_value(s: Seq<char>) -> int
    decreases s.len(),
{
    if s.len() == 0 {
        0
    } else {
        decimal_value(s.drop_last()) * 10 + (s.last() as int - '0' as int)
    }
}

proof fn lemma_decimal_value(n: nat, zeros: nat)
    ensures
        decimal_value(Seq::new(zeros, |i: int| '0') + decimal(n)) == n,
    decreases n, zeros,
{
    let fill = Seq::new(zeros, |i: int| '0');
    let s = fill + decimal(n);
    if n >= 10 {
        lemma_decimal_value(n / 10, zeros);
        assert(s.drop_last() =~= fill + decimal(n / 10));
        assert(s.last() == digit_char((n % 10) as int));
    } else {
        assert(s.drop_last() =~= fill);
        assert(s.last() == digit_char(n as int));
        lemma_zeros(zeros);
    }
}

proof fn lemma_zeros(zeros: nat)
    ensures
        decimal_value(Seq::new(zeros, |i: int| '0')) == 0,
    decreases zeros,
{
    if zeros > 0 {
        let fill = Seq::new(zeros, |i: int| '0');
        assert(fill.drop_last() =~= Seq::new((zeros - 1) as nat, |i: int| '0'));
        lemma_zeros((zeros - 1) as nat);
    }
}

/// A padded decimal notation stands for the number that it was made from.
pub proof fn padded_decimal_reads_back(n: nat, width: nat)
    ensures
        decimal_value(padded_decimal(n, width)) == n,
{
    let digits = decimal(n);
    if digits.len() >= width {
        lemma_decimal_value(n, 0);
        assert(Seq::new(0, |i: int| '0') + digits =~= digits);
    } else {
        lemma_decimal_value(n, (width - digits.len()) as nat);
    }
}

/// Texts of upper-case letters that are the same in lower case are the same.
pub proof fn lower_is_injective(a: Seq<char>, b: Seq<char>)
    requires
        lower(a) == lower(b),
        forall|i: int| 0 <= i < a.len() ==> 'A' <= #[trigger] a[i] <= 'Z',
        forall|i: int| 0 <= i < b.len() ==> 'A' <= #[trigger] b[i] <= 'Z',
    ensures
        a == b,
{
    assert(lower(a).len() == a.len());
    assert(lower(b).len() == b.len());
    assert forall|i: int| 0 <= i < a.len() implies a[i] == b[i] by {
        assert(lower(a)[i] == lower(b)[i]);
        assert(lower(a)[i] == lower_char(a[i]));
        assert(lower(b)[i] == lower_char(b[i]));
        assert('A' <= a[i] <= 'Z');
        assert('A' <= b[i] <= 'Z');
        assert(lower_char(a[i]) as u32 == (a[i] as u32) + 32);
        assert(lower_char(b[i]) as u32 == (b[i] as u32) + 32);
    }
    assert(a =~= b);
}

fn digit(d: u64) -> (c: char)
    requires
        d < 10,
    ensures
        c == digit_char(d as int),
{
    (48u8 + d as u8) as char
}

/// Appends the decimal notation of `n` to `out`.
pub fn push_decimal(out: &mut String, n: u64)
    ensures
        final(out)@ == old(out)@ + decimal(n as nat),
    decreases n,
{
    if n >= 10 {
        push_decimal(out, n / 10);
    }
    out.push(digit(n % 10));
}

/// The integer logarithm to base ten.
pub fn ilog10(n: u64) -> (r: usize)
    ensures
        r == log10(n as nat),
        r < 20,
    decreases n,
{
    if n < 10 {
        0
    } else {
        let rest: usize = ilog10(n / 10);
        proof {
            lemma_log10_bound((n / 10) as nat);
        }
        rest + 1
    }
}

/// Appends the decimal notation of `n` to `out`, with zeros on the left up to `width` characters.
pub fn push_padded_decimal(out: &mut String, n: u64, width: usize)
    ensures
        final(out)@ == old(out)@ + padded_decimal(n as nat, width as nat),
{
    let digits: usize = ilog10(n) + 1;
    proof {
        lemma_decimal_length(n as nat);
    }
    let mut filled: usize = digits;
    let ghost start = out@;
    while filled < width
        invariant
            digits <= filled,
            digits < width ==> filled <= width,
            digits >= width ==> filled == digits,
            out@ == start + Seq::new((filled - digits) as nat, |i: int| '0'),
        decreases width - filled,
    {
        out.push('0');
        filled = filled + 1;
    }
    push_decimal(out, n);
    assert(out@ =~= start + padded_decimal(n as nat, width as nat));
}

/// Appends `s` to `out` with every ASCII letter in lower case.
pub fn push_lower(out: &mut String, s: &str)
    ensures
        final(out)@ == old(out)@ + lower(s@),
{
    let ghost start = out@;
    for c in chars: s.chars()
        invariant
            chars.seq() == s@,
            out@ =~= start + lower(s@.take(chars.index() as int)),
    {
        out.push(if 'A' <= c && c <= 'Z' { (c as u8 + 32) as char } else { c });
    }
    assert(s@.take(s@.len() as int) =~= s@);
}

proof fn lemma_log10_bound(n: nat)
    requires
        n <= 0x1999_9999_9999_9999,
    ensures
        log10(n) < 19,
{
    reveal_with_fuel(log10, 20);
}

// LAWS
// ================================================================================================

/// The decimal notation of a number is made of digits, stands for the number, and begins with a
/// zero only if it is a single digit.
pub proof fn decimals_are_canonical(n: nat)
    ensures
        decimal(n).len() > 0,
        forall|i: int| 0 <= i < decimal(n).len() ==> '0' <= #[trigger] decimal(n)[i] <= '9',
        decimal_value(decimal(n)) == n,
        decimal(n).len() > 1 ==> decimal(n)[0] != '0',
    decreases n,
{
    padded_decimal_reads_back(n, 0);
    if n >= 10 {
        decimals_are_canonical(n / 10);
        if n / 10 < 10 {
            assert(decimal(n)[0] == digit_char((n / 10) as int));
        } else {
            assert(decimal(n)[0] == decimal(n / 10)[0]);
            lemma_decimal_length(n / 10);
        }
    }
}

/// A padded decimal notation is the decimal notation behind as many zeros as it takes to fill the
/// width.
pub proof fn padding_is_zeros(n: nat, width: nat)
    ensures
        padded_decimal(n, width).len() >= width,
        padded_decimal(n, width).len() >= decimal(n).len(),
        padded_decimal(n, width).len() == width || padded_decimal(n, width).len() == decimal(
            n,
        ).len(),
        ({
            let zeros = padded_decimal(n, width).len() - decimal(n).len();
            &&& padded_decimal(n, width).skip(zeros) == decimal(n)
            &&& forall|i: int| 0 <= i < zeros ==> #[trigger] padded_decimal(n, width)[i] == '0'
        }),
{
    let zeros = padded_decimal(n, width).len() - decimal(n).len();
    assert(padded_decimal(n, width).skip(zeros) =~= decimal(n));
}

/// The logarithm of a positive number is the exponent of the largest power of ten that is not
/// larger.
pub proof fn logarithms_bound_their_numbers(n: nat)
    requires
        n > 0,
    ensures
        pow(10, log10(n)) <= n < pow(10, log10(n) + 1),
    decreases n,
{
    reveal(pow);
    if n >= 10 {
        logarithms_bound_their_numbers(n / 10);
        assert(pow(10, log10(n)) == 10 * pow(10, log10(n / 10)));
        assert(pow(10, log10(n) + 1) == 10 * pow(10, log10(n / 10) + 1));
    } else {
        assert(pow(10, 0) == 1);
        assert(pow(10, 1) == 10 * pow(10, 0));
    }
}

/// Lower case keeps the length, moves each upper-case ASCII letter by 32, and keeps all other
/// characters.
pub proof fn lower_case_moves_letters(s: Seq<char>)
    ensures
        lower(s).len() == s.len(),
        forall|i: int|
            0 <= i < s.len() ==> if 'A' <= s[i] <= 'Z' {
                (#[trigger] lower(s)[i]) as u32 == s[i] as u32 + 32
            } else {
                lower(s)[i] == s[i]
            },
{
    assert forall|i: int| 0 <= i < s.len() implies if 'A' <= s[i] <= 'Z' {
        (#[trigger] lower(s)[i]) as u32 == s[i] as u32 + 32
    } else {
        lower(s)[i] == s[i]
    } by {
        assert(lower(s)[i] == lower_char(s[i]));
    }
}

/// Digits are read from the left: each one counts a tenth of the one before it.
pub proof fn digits_are_read_from_the_left(s: Seq<char>, c: char)
    ensures
        decimal_value(Seq::empty()) == 0,
        decimal_value(s.push(c)) == decimal_value(s) * 10 + (c as int - 48),
{
    assert(s.push(c).drop_last() =~= s);
}

} // verus!
